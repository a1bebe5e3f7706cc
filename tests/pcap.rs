use netkit_packet::pcap::{PacketHeader, PcapReader};

#[test]
fn pcap_little_endian_header() {
    let magic = [0xd4, 0xc3, 0xb2, 0xa1];
    let rest = [
        0x02, 0x00, 0x04, 0x00, // version 2.4
        0xff, 0xff, 0xff, 0xff, // thiszone -1
        0x00, 0x00, 0x00, 0x00, // sigfigs
        0xff, 0xff, 0x00, 0x00, // snaplen 65535
        0x01, 0x00, 0x00, 0x00, // network 1
    ];
    let reader = PcapReader::new(&magic, &rest).unwrap();
    assert!(!reader.big_endian);
    assert_eq!(reader.header.magic_number, 0xa1b2c3d4);
    assert_eq!(reader.header.version_major, 2);
    assert_eq!(reader.header.version_minor, 4);
    assert_eq!(reader.header.thiszone, -1);
    assert_eq!(reader.header.snaplen, 65535);
    assert_eq!(reader.header.network, 1);

    let record = [
        0x01, 0x00, 0x00, 0x00, 0x02, 0x00, 0x00, 0x00, 0x2a, 0x00, 0x00, 0x00, 0x3c, 0x00, 0x00,
        0x00,
    ];
    assert_eq!(
        reader.packet_header(&record),
        PacketHeader { ts_sec: 1, ts_usec: 2, incl_len: 42, orig_len: 60 }
    );
}

#[test]
fn pcap_big_endian_header() {
    let magic = [0xa1, 0xb2, 0xc3, 0xd4];
    let rest = [
        0x00, 0x02, 0x00, 0x04, 0x00, 0x00, 0x00, 0x00, 0x00, 0x00, 0x00, 0x00, 0x00, 0x00, 0xff,
        0xff, 0x00, 0x00, 0x00, 0x01,
    ];
    let reader = PcapReader::new(&magic, &rest).unwrap();
    assert!(reader.big_endian);
    assert_eq!(reader.header.magic_number, 0xa1b2c3d4);
    assert_eq!(reader.header.version_major, 2);
    assert_eq!(reader.header.snaplen, 65535);
    let record = [0, 0, 0, 1, 0, 0, 0, 2, 0, 0, 0, 42, 0, 0, 0, 60];
    assert_eq!(reader.packet_header(&record).incl_len, 42);
    assert_eq!(PcapReader::byte_order(&[0, 1, 2, 3]), None);
    assert!(PcapReader::new(&[0, 1, 2, 3], &rest).is_none());
}
