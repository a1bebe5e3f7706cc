use netkit_packet::eth::{EthAddr, EthAddrError};
use netkit_packet::mac_addr::{MacAddr, MacAddrError};

#[test]
fn eth_addr_parse() {
    assert_eq!(
        EthAddr::from_str("01:23:45:67:89:AB").unwrap(),
        EthAddr::new(0x01, 0x23, 0x45, 0x67, 0x89, 0xAB)
    );

    assert_eq!(
        EthAddr::from_str("01:23:45:67:89"),
        Err(EthAddrError::InvalidLength(5))
    );

    assert_eq!(
        EthAddr::from_str("01:23:45:67:89:AB:CD"),
        Err(EthAddrError::InvalidLength(7))
    );
}

#[test]
fn eth_addr_parse_errors() {
    assert_eq!(EthAddr::from_str("01:23:45:67:89:XY"), Err(EthAddrError::ParseInt));
    assert_eq!(EthAddr::from_str("01:23:45:67:89:100"), Err(EthAddrError::ParseInt));
    assert_eq!(EthAddr::from_str("01::45:67:89:AB"), Err(EthAddrError::ParseInt));
    assert_eq!(EthAddr::from_str("zz:23"), Err(EthAddrError::ParseInt));
    assert_eq!(
        EthAddr::from_str("+1:0023:45:67:89:ab").unwrap(),
        EthAddr::new(0x01, 0x23, 0x45, 0x67, 0x89, 0xAB)
    );
    assert_eq!(EthAddr::new(0, 0, 0, 0, 0x01, 0x02).to_u64(), 0x0102);
}

#[test]
fn mac_addr_parse() {
    assert_eq!(
        MacAddr::from_str("00:11:22:33:44:55"),
        Ok(MacAddr::new(0x00, 0x11, 0x22, 0x33, 0x44, 0x55))
    );

    assert_eq!(
        MacAddr::from_str("00:11:22:33:44"),
        Err(MacAddrError::InvalidLength)
    );
}

#[test]
fn addr_text() {
    let addr = EthAddr::from_str("01:23:45:67:89:ab").unwrap();
    assert_eq!(addr.to_string(), "01:23:45:67:89:AB");
    assert_eq!(EthAddr::from_str(&addr.to_string()), Ok(addr));
    let mac = MacAddr::new(0x00, 0x11, 0x22, 0x33, 0xAA, 0xFF);
    assert_eq!(mac.to_string(), "00:11:22:33:aa:ff");
}
