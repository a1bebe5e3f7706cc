use netkit_packet::eth::{Eth, EthAddr, EthBuilder, EthError};
use netkit_packet::eth_type::EthType;
use netkit_packet::field::{Field, FieldSpec};
use netkit_packet::ip_protocol::IpProtocol;
use netkit_packet::ipv4::{Ipv4, Ipv4Builder, Ipv4Error};
use netkit_packet::tcp::{Tcp, TcpBuilder, TcpError};
use netkit_packet::tcp_flags::TcpFlags;
use netkit_packet::udp::{Udp, UdpBuilder, UdpError};

#[test]
fn test_field() {
    let spec = FieldSpec { width: 2, mask: 0x0F00, shift: 8 };

    let mut field = Field::new(spec, true, vec![0, 0]);
    assert_eq!(field.raw(), 0);
    assert_eq!(field.get(), 0);
    assert!(field.eq_value(0));
    field.set(0x0F);
    assert_eq!(field.clone().into_inner(), 0x000Fu16.to_ne_bytes().to_vec());
    assert_eq!(field.raw(), 0x000F);
    assert_eq!(field.get(), 0x0F);
    assert!(field.eq_value(0x0F));
    field.set(0x0A);
    assert_eq!(field.clone().into_inner(), 0x000Au16.to_ne_bytes().to_vec());
    assert_eq!(field.raw(), 0x000A);
    assert_eq!(field.get(), 0x0A);
    assert!(field.eq_value(0x0A));

    let mut field = Field::new(spec, false, vec![0, 0]);
    assert_eq!(field.raw(), 0);
    assert_eq!(field.get(), 0);
    assert!(field.eq_value(0));
    field.set(0x0F);
    assert_eq!(field.clone().into_inner(), 0x0F00u16.to_ne_bytes().to_vec());
    assert_eq!(field.raw(), 0x000F);
    assert_eq!(field.get(), 0x0F);
    assert!(field.eq_value(0x0F));
    field.set(0x0A);
    assert_eq!(field.clone().into_inner(), 0x0A00u16.to_ne_bytes().to_vec());
    assert_eq!(field.raw(), 0x000A);
    assert_eq!(field.get(), 0x0A);
    assert!(field.eq_value(0x0A));
}

#[test]
fn field_set_keeps_other_bits() {
    // a 4-bit field shifted by 4 in one byte, the low nibble set
    let spec = FieldSpec { width: 1, mask: 0xF0, shift: 4 };
    let mut field = Field::new(spec, true, vec![0x05]);
    field.set(0x0C);
    assert_eq!(field.get(), 0x0C);
    assert_eq!(field.clone().into_inner(), vec![0xC5]);

    // a 3-byte carrier, little-endian, 12 bits shifted by 6
    let spec = FieldSpec { width: 3, mask: 0x03_FFC0, shift: 6 };
    let mut field = Field::new(spec, false, vec![0x3F, 0x00, 0xFC]);
    field.set(0xABC);
    assert_eq!(field.get(), 0xABC);
    assert_eq!(field.clone().into_inner(), vec![0x3F, 0xAF, 0xFE]);

    // a 7-byte carrier, plain
    let spec = FieldSpec { width: 7, mask: u64::MAX, shift: 0 };
    let mut field = Field::new(spec, true, vec![0; 7]);
    field.set(0x01_0203_0405_0607);
    assert_eq!(field.get(), 0x01_0203_0405_0607);
    assert_eq!(field.into_inner(), vec![1, 2, 3, 4, 5, 6, 7]);
}

#[test]
fn eth_new_unchecked() {
    let data: [u8; 14] = [
        0x01, 0x23, 0x45, 0x67, 0x89, 0xAB, // dst mac
        0xCD, 0xEF, 0x01, 0x23, 0x45, 0x67, // src mac
        0x08, 0x00, // eth type ipv4
    ];

    let eth = Eth::new(data.to_vec()).unwrap();

    assert_eq!(eth.dst(), EthAddr::new(0x01, 0x23, 0x45, 0x67, 0x89, 0xAB));
    assert_eq!(eth.src(), EthAddr::new(0xCD, 0xEF, 0x01, 0x23, 0x45, 0x67));
    assert_eq!(eth.eth_type(), EthType::Ipv4);
    assert_eq!(eth.payload().len(), 0);
}

#[test]
fn eth_macro() {
    let eth = EthBuilder::new()
        .dst(EthAddr::from_slice(&[0x01, 0x23, 0x45, 0x67, 0x89, 0xAB]))
        .src(EthAddr::from_slice(&[0xCD, 0xEF, 0x01, 0x23, 0x45, 0x67]))
        .eth_type(EthType::Ipv4)
        .payload(&[0x01, 0x02, 0x03, 0x04])
        .build();

    assert_eq!(eth.dst(), EthAddr::new(0x01, 0x23, 0x45, 0x67, 0x89, 0xAB));
    assert_eq!(eth.src(), EthAddr::from_slice(&[0xCD, 0xEF, 0x01, 0x23, 0x45, 0x67]));
    assert_eq!(eth.eth_type(), EthType::Ipv4);
    assert_eq!(eth.payload(), [0x01, 0x02, 0x03, 0x04]);
}

#[test]
fn eth_set_fields() {
    let data: Vec<u8> = vec![0; 14];

    let mut eth = Eth::new(data).unwrap();

    eth.dst_mut(EthAddr::new(0x01, 0x23, 0x45, 0x67, 0x89, 0xAB));
    eth.src_mut(EthAddr::new(0xCD, 0xEF, 0x01, 0x23, 0x45, 0x67));
    eth.eth_type_mut(EthType::Ipv4);

    assert_eq!(eth.dst(), EthAddr::new(0x01, 0x23, 0x45, 0x67, 0x89, 0xAB));
    assert_eq!(eth.src(), EthAddr::new(0xCD, 0xEF, 0x01, 0x23, 0x45, 0x67));
    assert_eq!(eth.eth_type(), EthType::Ipv4);
}

fn udp_frame() -> Vec<u8> {
    vec![
        0x01, 0x02, 0x03, 0x04, 0x05, 0x06, // dst mac
        0x06, 0x05, 0x04, 0x03, 0x02, 0x01, // src mac
        0x08, 0x00, // eth type ipv4
        0x45, // version 4, ihl 5
        0x00, // dscp 0, ecn 0
        0x00, 0x20, // total length 20 + 8 + 4 = 32
        0x00, 0x00, // identification 0
        0x00, 0x00, // flags 0, fragment offset 0
        0x40, // ttl 64
        0x11, // protocol udp
        0x00, 0x00, // checksum 0
        0x7f, 0x00, 0x00, 0x01, // src ip
        0x7f, 0x00, 0x00, 0x02, // dst ip
        0x04, 0xd2, 0x04, 0xd3, // src port 1234, dst port 1235
        0x00, 0x0c, // length 12
        0x00, 0x00, // checksum 0
        0x01, 0x02, 0x03, 0x04, // payload
    ]
}

#[test]
fn eth_new() {
    let eth = Eth::new(udp_frame()).unwrap();

    assert_eq!(eth.dst(), EthAddr::new(0x01, 0x02, 0x03, 0x04, 0x05, 0x06));
    assert_eq!(eth.src(), EthAddr::new(0x06, 0x05, 0x04, 0x03, 0x02, 0x01));
    assert_eq!(eth.eth_type(), EthType::Ipv4);

    let ipv4 = eth.ipv4().unwrap();

    assert_eq!(ipv4.ihl(), 5);
    assert_eq!(ipv4.protocol(), IpProtocol::Udp);
}

#[test]
fn layer_chaining() {
    let eth = Eth::new(udp_frame()).unwrap();
    let udp = eth.ipv4().unwrap().udp().unwrap();
    assert_eq!(udp.src_port(), 1234);
    assert_eq!(udp.dst_port(), 1235);
    assert_eq!(udp.length(), 12);
    assert_eq!(udp.payload(), &[0x01, 0x02, 0x03, 0x04]);
    assert!(eth.ipv4().unwrap().tcp().is_none());

    let mut arp = udp_frame();
    arp[13] = 0x06;
    let eth = Eth::new(arp).unwrap();
    assert_eq!(eth.eth_type(), EthType::Arp);
    assert!(eth.ipv4().is_none());
}

#[test]
fn minimum_lengths() {
    assert_eq!(Eth::new(vec![0; 13]).err(), Some(EthError::InvalidLength(13)));
    assert!(Eth::new(vec![0; 14]).is_ok());
    assert_eq!(Ipv4::new(vec![0; 19]).err(), Some(Ipv4Error::InvalidLength(19)));
    assert!(Ipv4::new(vec![0; 20]).is_ok());
    assert_eq!(Tcp::new(vec![0; 0]).err(), Some(TcpError::InvalidLength(0)));
    assert_eq!(Tcp::new(vec![0; 19]).err(), Some(TcpError::InvalidLength(19)));
    assert!(Tcp::new(vec![0; 20]).is_ok());
    assert_eq!(Udp::new(vec![0; 7]).err(), Some(UdpError::InvalidLength(7)));
    assert!(Udp::new(vec![0; 8]).is_ok());
}

#[test]
fn ipv4_new_unchecked() {
    let data: [u8; 32] = [
        0x45, // version 4, ihl 5
        0x00, // dscp 0, ecn 0
        0x00, 0x20, // total length 20 + 8 + 4 = 32
        0x00, 0x00, // identification 0
        0x00, 0x00, // flags 0, fragment offset 0
        0x40, // ttl 64
        0x11, // protocol udp
        0x00, 0x00, // checksum 0
        0x7f, 0x00, 0x00, 0x01, // src ip
        0x7f, 0x00, 0x00, 0x02, // dst ip
        0x04, 0xd2, 0x04, 0xd3, // src port 1234, dst port 1235
        0x00, 0x0c, // length 12
        0x00, 0x00, // checksum 0
        0x01, 0x02, 0x03, 0x04, // payload
    ];

    let ipv4 = Ipv4::new(data.to_vec()).unwrap();

    assert_eq!(ipv4.version(), 4);
    assert_eq!(ipv4.ihl(), 5);
    assert_eq!(ipv4.dscp(), 0);
    assert_eq!(ipv4.ecn(), 0);
    assert_eq!(ipv4.total_length(), 32);
    assert_eq!(ipv4.identification(), 0);
    assert_eq!(ipv4.flags(), 0);
    assert_eq!(ipv4.fragment_offset(), 0);
    assert_eq!(ipv4.ttl(), 64);
    assert_eq!(ipv4.protocol(), IpProtocol::Udp);
    assert_eq!(ipv4.checksum(), 0);
    assert_eq!(ipv4.src(), u32::from_be_bytes([127, 0, 0, 1]));
    assert_eq!(ipv4.dst(), u32::from_be_bytes([127, 0, 0, 2]));
    assert_eq!(
        ipv4.payload(),
        &[0x04, 0xd2, 0x04, 0xd3, 0x00, 0x0c, 0x00, 0x00, 0x01, 0x02, 0x03, 0x04]
    );
}

#[test]
fn ipv4_macro() {
    let ipv4 = Ipv4Builder::new()
        .src(u32::from_be_bytes([10, 0, 1, 2]))
        .dst(u32::from_be_bytes([10, 0, 1, 3]))
        .protocol(IpProtocol::Udp)
        .payload(&[1, 2, 3, 4])
        .build();

    assert_eq!(ipv4.ihl(), 5);
    assert_eq!(ipv4.total_length(), 20 + 4);

    assert_eq!(ipv4.src(), u32::from_be_bytes([10, 0, 1, 2]));
    assert_eq!(ipv4.dst(), u32::from_be_bytes([10, 0, 1, 3]));
    assert_eq!(ipv4.protocol(), IpProtocol::Udp);
    assert_eq!(ipv4.payload(), &[1, 2, 3, 4]);
}

#[test]
fn ipv4_builder_defaults_and_fields() {
    let ipv4 = Ipv4Builder::new().options(&[1, 2, 3, 4]).payload(&[9; 10]).build();
    assert_eq!(ipv4.version(), 4);
    assert_eq!(ipv4.ihl(), 6);
    assert_eq!(ipv4.total_length(), 24 + 10);
    assert_eq!(ipv4.ttl(), 64);
    assert_eq!(ipv4.protocol(), IpProtocol::Reserved(255));
    assert_eq!(ipv4.options(), &[1, 2, 3, 4]);
    assert_eq!(ipv4.payload(), &[9; 10]);

    let ipv4 = Ipv4Builder::new()
        .dscp(0x2E)
        .ecn(0x01)
        .identification(0xBEEF)
        .flags(0x2)
        .fragment_offset(0x1ABC)
        .ttl(7)
        .checksum(0x1234)
        .build();
    assert_eq!(ipv4.dscp(), 0x2E);
    assert_eq!(ipv4.ecn(), 0x01);
    assert_eq!(ipv4.identification(), 0xBEEF);
    assert_eq!(ipv4.flags(), 0x2);
    assert_eq!(ipv4.fragment_offset(), 0x1ABC);
    assert_eq!(ipv4.ttl(), 7);
    assert_eq!(ipv4.checksum(), 0x1234);
    assert_eq!(ipv4.total_length(), 20);
}

#[test]
fn tcp_new_unchecked() {
    let data: [u8; 24] = [
        0x00, 0x50, // src_port = 80
        0x00, 0x60, // dst_port = 96
        0x00, 0x00, 0x00, 0x00, // seq_num = 0
        0x00, 0x00, 0x00, 0x00, // ack_num = 0
        0x50, // data_offset = 5, reserved = 0
        0x02, // flags = 2, SYN
        0x20, 0x00, // window_size = 8192
        0x00, 0x00, // checksum = 0
        0x00, 0x00, // urgent_pointer = 0
        0x01, 0x02, 0x03, 0x04, // payload
    ];

    let tcp = Tcp::new(data.to_vec()).unwrap();

    assert_eq!(tcp.src_port(), 80);
    assert_eq!(tcp.dst_port(), 96);
    assert_eq!(tcp.seq_num(), 0);
    assert_eq!(tcp.ack_num(), 0);
    assert_eq!(tcp.data_offset(), 5);
    assert_eq!(tcp.flags(), TcpFlags::SYN());
    assert_eq!(tcp.window_size(), 8192);
    assert_eq!(tcp.checksum(), 0);
    assert_eq!(tcp.urgent_pointer(), 0);
    assert_eq!(tcp.payload(), &[0x01, 0x02, 0x03, 0x04]);
}

#[test]
fn tcp_macro() {
    let tcp = TcpBuilder::new()
        .src_port(80u16)
        .dst_port(96u16)
        .payload(&[0x01, 0x02, 0x03, 0x04])
        .build();

    assert_eq!(tcp.src_port(), 80);
    assert_eq!(tcp.dst_port(), 96);
    assert_eq!(tcp.data_offset(), 5);
    assert_eq!(tcp.flags(), TcpFlags::empty());
    assert_eq!(tcp.window_size(), 64);
    assert_eq!(tcp.checksum(), 0);
    assert_eq!(tcp.urgent_pointer(), 0);
    assert_eq!(tcp.payload(), &[0x01, 0x02, 0x03, 0x04]);
    assert_eq!(tcp.inner().len(), 24);
}

#[test]
fn tcp_builder_options_and_flags() {
    let tcp = TcpBuilder::new()
        .seq_num(0xDEAD_BEEF)
        .ack_num(7)
        .flags(TcpFlags::SYN() | TcpFlags::ACK())
        .window_size(1000)
        .options(&[1, 1, 1, 0, 2, 4, 5, 0xB4])
        .build();
    assert_eq!(tcp.data_offset(), 7);
    assert_eq!(tcp.seq_num(), 0xDEAD_BEEF);
    assert_eq!(tcp.ack_num(), 7);
    assert_eq!(tcp.flags().bits(), 0b0001_0010);
    assert_eq!(tcp.window_size(), 1000);
    assert_eq!(tcp.options(), &[1, 1, 1, 0, 2, 4, 5, 0xB4]);
    assert_eq!(tcp.payload().len(), 0);
}

#[test]
fn test_tcp_flags() {
    let flags = TcpFlags::SYN() | TcpFlags::ACK();
    assert_eq!(flags, TcpFlags::SYN() | TcpFlags::ACK());
    assert_eq!(flags, TcpFlags::from_bits(0b0001_0010).unwrap());
    assert_eq!(flags.bits(), 0b0001_0010);
    assert_eq!(flags.contains(TcpFlags::SYN()), true);
    assert_eq!(flags.contains(TcpFlags::ACK()), true);
    assert_eq!(flags.contains(TcpFlags::FIN()), false);
    assert_eq!(flags.contains(TcpFlags::RST()), false);
    assert_eq!(flags.contains(TcpFlags::URG()), false);
    assert_eq!(flags.contains(TcpFlags::ECE()), false);
    assert_eq!(flags.contains(TcpFlags::CWR()), false);
    assert_eq!(flags.contains(TcpFlags::PSH()), false);
}

#[test]
fn test_tcp_flags_from_u8() {
    let flags = TcpFlags::SYN() | TcpFlags::ACK();
    let value: u8 = flags.into();
    assert_eq!(value, 0b0001_0010);
    let flags = TcpFlags::from(value);
    assert_eq!(flags, TcpFlags::SYN() | TcpFlags::ACK());
}

#[test]
fn udp_new_unchecked() {
    let data: [u8; 10] = [
        0x00, 0x50, // src port
        0x00, 0x51, // dst port
        0x00, 0x0a, // length
        0x00, 0x00, // checksum
        0x01, 0x02, // payload
    ];

    let udp = Udp::new(data.to_vec()).unwrap();

    assert_eq!(udp.src_port(), 80);
    assert_eq!(udp.dst_port(), 81);
    assert_eq!(udp.length(), 10);
    assert_eq!(udp.checksum(), 0);
    assert_eq!(udp.payload(), &[0x01, 0x02]);
}

#[test]
fn udp_macro() {
    let udp = UdpBuilder::new()
        .src_port(80u16)
        .dst_port(81u16)
        .length(10u16)
        .checksum(0u16)
        .payload(&[0x01, 0x02])
        .build();

    assert_eq!(udp.src_port(), 80);
    assert_eq!(udp.dst_port(), 81);
    assert_eq!(udp.length(), 10);
    assert_eq!(udp.checksum(), 0);
}

#[test]
fn udp_builder_derived_length() {
    let udp = UdpBuilder::new().payload(&[1, 2, 3]).build();
    assert_eq!(udp.length(), 11);
    assert_eq!(udp.inner(), &vec![0, 0, 0, 0, 0, 11, 0, 0, 1, 2, 3]);
}

#[test]
fn eth_debug() {
    let eth = EthBuilder::new()
        .dst(EthAddr::new(0x01, 0x23, 0x45, 0x67, 0x89, 0xAB))
        .src(EthAddr::new(0xCD, 0xEF, 0x01, 0x23, 0x45, 0x67))
        .eth_type(EthType::Ipv4)
        .build();

    assert_eq!(
        eth.debug_string(),
        "Eth { dst: 01:23:45:67:89:AB, src: CD:EF:01:23:45:67, eth_type: Ipv4 }"
    );
    assert_eq!(eth.dst().to_string(), "01:23:45:67:89:AB");

    let eth = EthBuilder::new().build();
    assert_eq!(
        eth.debug_string(),
        "Eth { dst: 00:00:00:00:00:00, src: 00:00:00:00:00:00, eth_type: Reserved(65535) }"
    );
}

#[test]
fn options_padded_to_words() {
    let ipv4 = Ipv4Builder::new().options(&[7, 7, 7]).payload(&[1, 2]).build();
    assert_eq!(ipv4.ihl(), 6);
    assert_eq!(ipv4.total_length(), 26);
    assert_eq!(ipv4.options(), &[7, 7, 7, 0]);
    assert_eq!(ipv4.payload(), &[1, 2]);
    assert_eq!(ipv4.inner().len(), 26);

    let tcp = TcpBuilder::new().options(&[1, 2, 3, 4, 5]).payload(&[9]).build();
    assert_eq!(tcp.data_offset(), 7);
    assert_eq!(tcp.options(), &[1, 2, 3, 4, 5, 0, 0, 0]);
    assert_eq!(tcp.payload(), &[9]);
}
