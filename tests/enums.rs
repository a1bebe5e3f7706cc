use netkit_packet::dns::class::DnsClass;
use netkit_packet::dns::opcode::DnsOpCode;
use netkit_packet::dns::rcode::DnsRCode;
use netkit_packet::dns::rrtype::DnsRrType;
use netkit_packet::eth_type::EthType;

#[test]
fn eth_type_str() {
    assert_eq!(EthType::Ipv4.as_ref(), "Ipv4");
    assert_eq!(EthType::from_str("Ipv4").unwrap(), EthType::Ipv4);
    assert_eq!(EthType::Arp.as_ref(), "Arp");
    assert_eq!(EthType::from_str("Arp").unwrap(), EthType::Arp);
    assert_eq!(EthType::FrameRelayArp.as_ref(), "FrameRelayArp");
    assert_eq!(EthType::from_str("FrameRelayArp").unwrap(), EthType::FrameRelayArp);
    assert_eq!(EthType::Vlan.as_ref(), "Vlan");
    assert_eq!(EthType::from_str("Vlan").unwrap(), EthType::Vlan);
    assert_eq!(EthType::Ipv6.as_ref(), "Ipv6");
    assert_eq!(EthType::from_str("Ipv6").unwrap(), EthType::Ipv6);
}
#[test]
fn eth_type_num() {
    assert_eq!(<EthType as Into<u16>>::into(EthType::Ipv4), 0x0800);
    assert_eq!(EthType::from(0x0800 as u16), EthType::Ipv4);
    assert_eq!(<EthType as Into<u16>>::into(EthType::Arp), 0x0806);
    assert_eq!(EthType::from(0x0806 as u16), EthType::Arp);
    assert_eq!(<EthType as Into<u16>>::into(EthType::FrameRelayArp), 0x0808);
    assert_eq!(EthType::from(0x0808 as u16), EthType::FrameRelayArp);
    assert_eq!(<EthType as Into<u16>>::into(EthType::Vlan), 0x8100);
    assert_eq!(EthType::from(0x8100 as u16), EthType::Vlan);
    assert_eq!(<EthType as Into<u16>>::into(EthType::Ipv6), 0x86DD);
    assert_eq!(EthType::from(0x86DD as u16), EthType::Ipv6);
}
#[test]
fn opcode_str() {
    assert_eq!(DnsOpCode::Query.as_ref(), "Query");
    assert_eq!(DnsOpCode::from_str("Query").unwrap(), DnsOpCode::Query);
    assert_eq!(DnsOpCode::IQuery.as_ref(), "IQuery");
    assert_eq!(DnsOpCode::from_str("IQuery").unwrap(), DnsOpCode::IQuery);
    assert_eq!(DnsOpCode::Status.as_ref(), "Status");
    assert_eq!(DnsOpCode::from_str("Status").unwrap(), DnsOpCode::Status);
    assert_eq!(DnsOpCode::Notify.as_ref(), "Notify");
    assert_eq!(DnsOpCode::from_str("Notify").unwrap(), DnsOpCode::Notify);
    assert_eq!(DnsOpCode::Update.as_ref(), "Update");
    assert_eq!(DnsOpCode::from_str("Update").unwrap(), DnsOpCode::Update);
    assert_eq!(DnsOpCode::DSO.as_ref(), "DSO");
    assert_eq!(DnsOpCode::from_str("DSO").unwrap(), DnsOpCode::DSO);
}
#[test]
fn opcode_num() {
    assert_eq!(<DnsOpCode as Into<u8>>::into(DnsOpCode::Query), 0);
    assert_eq!(DnsOpCode::from(0 as u8), DnsOpCode::Query);
    assert_eq!(<DnsOpCode as Into<u8>>::into(DnsOpCode::IQuery), 1);
    assert_eq!(DnsOpCode::from(1 as u8), DnsOpCode::IQuery);
    assert_eq!(<DnsOpCode as Into<u8>>::into(DnsOpCode::Status), 2);
    assert_eq!(DnsOpCode::from(2 as u8), DnsOpCode::Status);
    assert_eq!(<DnsOpCode as Into<u8>>::into(DnsOpCode::Notify), 4);
    assert_eq!(DnsOpCode::from(4 as u8), DnsOpCode::Notify);
    assert_eq!(<DnsOpCode as Into<u8>>::into(DnsOpCode::Update), 5);
    assert_eq!(DnsOpCode::from(5 as u8), DnsOpCode::Update);
    assert_eq!(<DnsOpCode as Into<u8>>::into(DnsOpCode::DSO), 6);
    assert_eq!(DnsOpCode::from(6 as u8), DnsOpCode::DSO);
}
#[test]
fn class_str() {
    assert_eq!(DnsClass::Internet.as_ref(), "Internet");
    assert_eq!(DnsClass::from_str("Internet").unwrap(), DnsClass::Internet);
    assert_eq!(DnsClass::Chaos.as_ref(), "Chaos");
    assert_eq!(DnsClass::from_str("Chaos").unwrap(), DnsClass::Chaos);
    assert_eq!(DnsClass::Hesiod.as_ref(), "Hesiod");
    assert_eq!(DnsClass::from_str("Hesiod").unwrap(), DnsClass::Hesiod);
    assert_eq!(DnsClass::ClassNone.as_ref(), "None");
    assert_eq!(DnsClass::from_str("None").unwrap(), DnsClass::ClassNone);
    assert_eq!(DnsClass::Any.as_ref(), "Any");
    assert_eq!(DnsClass::from_str("Any").unwrap(), DnsClass::Any);
}
#[test]
fn class_num() {
    assert_eq!(<DnsClass as Into<u16>>::into(DnsClass::Internet), 1);
    assert_eq!(DnsClass::from(1 as u16), DnsClass::Internet);
    assert_eq!(<DnsClass as Into<u16>>::into(DnsClass::Chaos), 3);
    assert_eq!(DnsClass::from(3 as u16), DnsClass::Chaos);
    assert_eq!(<DnsClass as Into<u16>>::into(DnsClass::Hesiod), 4);
    assert_eq!(DnsClass::from(4 as u16), DnsClass::Hesiod);
    assert_eq!(<DnsClass as Into<u16>>::into(DnsClass::ClassNone), 254);
    assert_eq!(DnsClass::from(254 as u16), DnsClass::ClassNone);
    assert_eq!(<DnsClass as Into<u16>>::into(DnsClass::Any), 255);
    assert_eq!(DnsClass::from(255 as u16), DnsClass::Any);
}
#[test]
fn rcode_str() {
    assert_eq!(DnsRCode::NoError.as_ref(), "NoError");
    assert_eq!(DnsRCode::from_str("NoError").unwrap(), DnsRCode::NoError);
    assert_eq!(DnsRCode::FormErr.as_ref(), "FormErr");
    assert_eq!(DnsRCode::from_str("FormErr").unwrap(), DnsRCode::FormErr);
    assert_eq!(DnsRCode::ServFail.as_ref(), "ServFail");
    assert_eq!(DnsRCode::from_str("ServFail").unwrap(), DnsRCode::ServFail);
    assert_eq!(DnsRCode::NXDomain.as_ref(), "NXDomain");
    assert_eq!(DnsRCode::from_str("NXDomain").unwrap(), DnsRCode::NXDomain);
    assert_eq!(DnsRCode::NotImp.as_ref(), "NotImp");
    assert_eq!(DnsRCode::from_str("NotImp").unwrap(), DnsRCode::NotImp);
    assert_eq!(DnsRCode::Refused.as_ref(), "Refused");
    assert_eq!(DnsRCode::from_str("Refused").unwrap(), DnsRCode::Refused);
    assert_eq!(DnsRCode::YXDomain.as_ref(), "YXDomain");
    assert_eq!(DnsRCode::from_str("YXDomain").unwrap(), DnsRCode::YXDomain);
    assert_eq!(DnsRCode::YXRRSet.as_ref(), "YXRRSet");
    assert_eq!(DnsRCode::from_str("YXRRSet").unwrap(), DnsRCode::YXRRSet);
    assert_eq!(DnsRCode::NXRRSet.as_ref(), "NXRRSet");
    assert_eq!(DnsRCode::from_str("NXRRSet").unwrap(), DnsRCode::NXRRSet);
    assert_eq!(DnsRCode::NotAuth.as_ref(), "NotAuth");
    assert_eq!(DnsRCode::from_str("NotAuth").unwrap(), DnsRCode::NotAuth);
    assert_eq!(DnsRCode::NotZone.as_ref(), "NotZone");
    assert_eq!(DnsRCode::from_str("NotZone").unwrap(), DnsRCode::NotZone);
    assert_eq!(DnsRCode::DSOTYPENI.as_ref(), "DSOTYPENI");
    assert_eq!(DnsRCode::from_str("DSOTYPENI").unwrap(), DnsRCode::DSOTYPENI);
    assert_eq!(DnsRCode::BADVERS_BADSIG.as_ref(), "BADVERS_BADSIG");
    assert_eq!(DnsRCode::from_str("BADVERS_BADSIG").unwrap(), DnsRCode::BADVERS_BADSIG);
    assert_eq!(DnsRCode::BADKEY.as_ref(), "BADKEY");
    assert_eq!(DnsRCode::from_str("BADKEY").unwrap(), DnsRCode::BADKEY);
    assert_eq!(DnsRCode::BADTIME.as_ref(), "BADTIME");
    assert_eq!(DnsRCode::from_str("BADTIME").unwrap(), DnsRCode::BADTIME);
    assert_eq!(DnsRCode::BADMODE.as_ref(), "BADMODE");
    assert_eq!(DnsRCode::from_str("BADMODE").unwrap(), DnsRCode::BADMODE);
    assert_eq!(DnsRCode::BADNAME.as_ref(), "BADNAME");
    assert_eq!(DnsRCode::from_str("BADNAME").unwrap(), DnsRCode::BADNAME);
    assert_eq!(DnsRCode::BADALG.as_ref(), "BADALG");
    assert_eq!(DnsRCode::from_str("BADALG").unwrap(), DnsRCode::BADALG);
    assert_eq!(DnsRCode::BADTRUNC.as_ref(), "BADTRUNC");
    assert_eq!(DnsRCode::from_str("BADTRUNC").unwrap(), DnsRCode::BADTRUNC);
    assert_eq!(DnsRCode::BADCOOKIE.as_ref(), "BADCOOKIE");
    assert_eq!(DnsRCode::from_str("BADCOOKIE").unwrap(), DnsRCode::BADCOOKIE);
    assert_eq!(DnsRCode::Reserved.as_ref(), "Reserved");
    assert_eq!(DnsRCode::from_str("Reserved").unwrap(), DnsRCode::Reserved);
}
#[test]
fn rcode_num() {
    assert_eq!(<DnsRCode as Into<u16>>::into(DnsRCode::NoError), 0);
    assert_eq!(DnsRCode::from(0 as u16), DnsRCode::NoError);
    assert_eq!(<DnsRCode as Into<u16>>::into(DnsRCode::FormErr), 1);
    assert_eq!(DnsRCode::from(1 as u16), DnsRCode::FormErr);
    assert_eq!(<DnsRCode as Into<u16>>::into(DnsRCode::ServFail), 2);
    assert_eq!(DnsRCode::from(2 as u16), DnsRCode::ServFail);
    assert_eq!(<DnsRCode as Into<u16>>::into(DnsRCode::NXDomain), 3);
    assert_eq!(DnsRCode::from(3 as u16), DnsRCode::NXDomain);
    assert_eq!(<DnsRCode as Into<u16>>::into(DnsRCode::NotImp), 4);
    assert_eq!(DnsRCode::from(4 as u16), DnsRCode::NotImp);
    assert_eq!(<DnsRCode as Into<u16>>::into(DnsRCode::Refused), 5);
    assert_eq!(DnsRCode::from(5 as u16), DnsRCode::Refused);
    assert_eq!(<DnsRCode as Into<u16>>::into(DnsRCode::YXDomain), 6);
    assert_eq!(DnsRCode::from(6 as u16), DnsRCode::YXDomain);
    assert_eq!(<DnsRCode as Into<u16>>::into(DnsRCode::YXRRSet), 7);
    assert_eq!(DnsRCode::from(7 as u16), DnsRCode::YXRRSet);
    assert_eq!(<DnsRCode as Into<u16>>::into(DnsRCode::NXRRSet), 8);
    assert_eq!(DnsRCode::from(8 as u16), DnsRCode::NXRRSet);
    assert_eq!(<DnsRCode as Into<u16>>::into(DnsRCode::NotAuth), 9);
    assert_eq!(DnsRCode::from(9 as u16), DnsRCode::NotAuth);
    assert_eq!(<DnsRCode as Into<u16>>::into(DnsRCode::NotZone), 10);
    assert_eq!(DnsRCode::from(10 as u16), DnsRCode::NotZone);
    assert_eq!(<DnsRCode as Into<u16>>::into(DnsRCode::DSOTYPENI), 11);
    assert_eq!(DnsRCode::from(11 as u16), DnsRCode::DSOTYPENI);
    assert_eq!(<DnsRCode as Into<u16>>::into(DnsRCode::BADVERS_BADSIG), 16);
    assert_eq!(DnsRCode::from(16 as u16), DnsRCode::BADVERS_BADSIG);
    assert_eq!(<DnsRCode as Into<u16>>::into(DnsRCode::BADKEY), 17);
    assert_eq!(DnsRCode::from(17 as u16), DnsRCode::BADKEY);
    assert_eq!(<DnsRCode as Into<u16>>::into(DnsRCode::BADTIME), 18);
    assert_eq!(DnsRCode::from(18 as u16), DnsRCode::BADTIME);
    assert_eq!(<DnsRCode as Into<u16>>::into(DnsRCode::BADMODE), 19);
    assert_eq!(DnsRCode::from(19 as u16), DnsRCode::BADMODE);
    assert_eq!(<DnsRCode as Into<u16>>::into(DnsRCode::BADNAME), 20);
    assert_eq!(DnsRCode::from(20 as u16), DnsRCode::BADNAME);
    assert_eq!(<DnsRCode as Into<u16>>::into(DnsRCode::BADALG), 21);
    assert_eq!(DnsRCode::from(21 as u16), DnsRCode::BADALG);
    assert_eq!(<DnsRCode as Into<u16>>::into(DnsRCode::BADTRUNC), 22);
    assert_eq!(DnsRCode::from(22 as u16), DnsRCode::BADTRUNC);
    assert_eq!(<DnsRCode as Into<u16>>::into(DnsRCode::BADCOOKIE), 23);
    assert_eq!(DnsRCode::from(23 as u16), DnsRCode::BADCOOKIE);
}
#[test]
fn rrtype_str() {
    assert_eq!(DnsRrType::A.as_ref(), "A");
    assert_eq!(DnsRrType::from_str("A").unwrap(), DnsRrType::A);
    assert_eq!(DnsRrType::NS.as_ref(), "NS");
    assert_eq!(DnsRrType::from_str("NS").unwrap(), DnsRrType::NS);
    assert_eq!(DnsRrType::MD.as_ref(), "MD");
    assert_eq!(DnsRrType::from_str("MD").unwrap(), DnsRrType::MD);
    assert_eq!(DnsRrType::MF.as_ref(), "MF");
    assert_eq!(DnsRrType::from_str("MF").unwrap(), DnsRrType::MF);
    assert_eq!(DnsRrType::CNAME.as_ref(), "CNAME");
    assert_eq!(DnsRrType::from_str("CNAME").unwrap(), DnsRrType::CNAME);
    assert_eq!(DnsRrType::SOA.as_ref(), "SOA");
    assert_eq!(DnsRrType::from_str("SOA").unwrap(), DnsRrType::SOA);
    assert_eq!(DnsRrType::MB.as_ref(), "MB");
    assert_eq!(DnsRrType::from_str("MB").unwrap(), DnsRrType::MB);
    assert_eq!(DnsRrType::MG.as_ref(), "MG");
    assert_eq!(DnsRrType::from_str("MG").unwrap(), DnsRrType::MG);
    assert_eq!(DnsRrType::MR.as_ref(), "MR");
    assert_eq!(DnsRrType::from_str("MR").unwrap(), DnsRrType::MR);
    assert_eq!(DnsRrType::NULL.as_ref(), "NULL");
    assert_eq!(DnsRrType::from_str("NULL").unwrap(), DnsRrType::NULL);
    assert_eq!(DnsRrType::WKS.as_ref(), "WKS");
    assert_eq!(DnsRrType::from_str("WKS").unwrap(), DnsRrType::WKS);
    assert_eq!(DnsRrType::PTR.as_ref(), "PTR");
    assert_eq!(DnsRrType::from_str("PTR").unwrap(), DnsRrType::PTR);
    assert_eq!(DnsRrType::HINFO.as_ref(), "HINFO");
    assert_eq!(DnsRrType::from_str("HINFO").unwrap(), DnsRrType::HINFO);
    assert_eq!(DnsRrType::MINFO.as_ref(), "MINFO");
    assert_eq!(DnsRrType::from_str("MINFO").unwrap(), DnsRrType::MINFO);
    assert_eq!(DnsRrType::MX.as_ref(), "MX");
    assert_eq!(DnsRrType::from_str("MX").unwrap(), DnsRrType::MX);
    assert_eq!(DnsRrType::TXT.as_ref(), "TXT");
    assert_eq!(DnsRrType::from_str("TXT").unwrap(), DnsRrType::TXT);
    assert_eq!(DnsRrType::RP.as_ref(), "RP");
    assert_eq!(DnsRrType::from_str("RP").unwrap(), DnsRrType::RP);
    assert_eq!(DnsRrType::AFSDB.as_ref(), "AFSDB");
    assert_eq!(DnsRrType::from_str("AFSDB").unwrap(), DnsRrType::AFSDB);
    assert_eq!(DnsRrType::X25.as_ref(), "X25");
    assert_eq!(DnsRrType::from_str("X25").unwrap(), DnsRrType::X25);
    assert_eq!(DnsRrType::ISDN.as_ref(), "ISDN");
    assert_eq!(DnsRrType::from_str("ISDN").unwrap(), DnsRrType::ISDN);
    assert_eq!(DnsRrType::RT.as_ref(), "RT");
    assert_eq!(DnsRrType::from_str("RT").unwrap(), DnsRrType::RT);
    assert_eq!(DnsRrType::NSAP.as_ref(), "NSAP");
    assert_eq!(DnsRrType::from_str("NSAP").unwrap(), DnsRrType::NSAP);
    assert_eq!(DnsRrType::NSAPPTR.as_ref(), "NSAPPTR");
    assert_eq!(DnsRrType::from_str("NSAPPTR").unwrap(), DnsRrType::NSAPPTR);
    assert_eq!(DnsRrType::SIG.as_ref(), "SIG");
    assert_eq!(DnsRrType::from_str("SIG").unwrap(), DnsRrType::SIG);
}
#[test]
fn rrtype_num() {
    assert_eq!(<DnsRrType as Into<u16>>::into(DnsRrType::A), 1);
    assert_eq!(DnsRrType::from(1 as u16), DnsRrType::A);
    assert_eq!(<DnsRrType as Into<u16>>::into(DnsRrType::NS), 2);
    assert_eq!(DnsRrType::from(2 as u16), DnsRrType::NS);
    assert_eq!(<DnsRrType as Into<u16>>::into(DnsRrType::MD), 3);
    assert_eq!(DnsRrType::from(3 as u16), DnsRrType::MD);
    assert_eq!(<DnsRrType as Into<u16>>::into(DnsRrType::MF), 4);
    assert_eq!(DnsRrType::from(4 as u16), DnsRrType::MF);
    assert_eq!(<DnsRrType as Into<u16>>::into(DnsRrType::CNAME), 5);
    assert_eq!(DnsRrType::from(5 as u16), DnsRrType::CNAME);
    assert_eq!(<DnsRrType as Into<u16>>::into(DnsRrType::SOA), 6);
    assert_eq!(DnsRrType::from(6 as u16), DnsRrType::SOA);
    assert_eq!(<DnsRrType as Into<u16>>::into(DnsRrType::MB), 7);
    assert_eq!(DnsRrType::from(7 as u16), DnsRrType::MB);
    assert_eq!(<DnsRrType as Into<u16>>::into(DnsRrType::MG), 8);
    assert_eq!(DnsRrType::from(8 as u16), DnsRrType::MG);
    assert_eq!(<DnsRrType as Into<u16>>::into(DnsRrType::MR), 9);
    assert_eq!(DnsRrType::from(9 as u16), DnsRrType::MR);
    assert_eq!(<DnsRrType as Into<u16>>::into(DnsRrType::NULL), 10);
    assert_eq!(DnsRrType::from(10 as u16), DnsRrType::NULL);
    assert_eq!(<DnsRrType as Into<u16>>::into(DnsRrType::WKS), 11);
    assert_eq!(DnsRrType::from(11 as u16), DnsRrType::WKS);
    assert_eq!(<DnsRrType as Into<u16>>::into(DnsRrType::PTR), 12);
    assert_eq!(DnsRrType::from(12 as u16), DnsRrType::PTR);
    assert_eq!(<DnsRrType as Into<u16>>::into(DnsRrType::HINFO), 13);
    assert_eq!(DnsRrType::from(13 as u16), DnsRrType::HINFO);
    assert_eq!(<DnsRrType as Into<u16>>::into(DnsRrType::MINFO), 14);
    assert_eq!(DnsRrType::from(14 as u16), DnsRrType::MINFO);
    assert_eq!(<DnsRrType as Into<u16>>::into(DnsRrType::MX), 15);
    assert_eq!(DnsRrType::from(15 as u16), DnsRrType::MX);
    assert_eq!(<DnsRrType as Into<u16>>::into(DnsRrType::TXT), 16);
    assert_eq!(DnsRrType::from(16 as u16), DnsRrType::TXT);
    assert_eq!(<DnsRrType as Into<u16>>::into(DnsRrType::RP), 17);
    assert_eq!(DnsRrType::from(17 as u16), DnsRrType::RP);
    assert_eq!(<DnsRrType as Into<u16>>::into(DnsRrType::AFSDB), 18);
    assert_eq!(DnsRrType::from(18 as u16), DnsRrType::AFSDB);
    assert_eq!(<DnsRrType as Into<u16>>::into(DnsRrType::X25), 19);
    assert_eq!(DnsRrType::from(19 as u16), DnsRrType::X25);
    assert_eq!(<DnsRrType as Into<u16>>::into(DnsRrType::ISDN), 20);
    assert_eq!(DnsRrType::from(20 as u16), DnsRrType::ISDN);
    assert_eq!(<DnsRrType as Into<u16>>::into(DnsRrType::RT), 21);
    assert_eq!(DnsRrType::from(21 as u16), DnsRrType::RT);
    assert_eq!(<DnsRrType as Into<u16>>::into(DnsRrType::NSAP), 22);
    assert_eq!(DnsRrType::from(22 as u16), DnsRrType::NSAP);
    assert_eq!(<DnsRrType as Into<u16>>::into(DnsRrType::NSAPPTR), 23);
    assert_eq!(DnsRrType::from(23 as u16), DnsRrType::NSAPPTR);
    assert_eq!(<DnsRrType as Into<u16>>::into(DnsRrType::SIG), 24);
    assert_eq!(DnsRrType::from(24 as u16), DnsRrType::SIG);
}
