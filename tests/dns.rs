use netkit_packet::dns::class::DnsClass;
use netkit_packet::dns::name::DnsName;
use netkit_packet::dns::opcode::DnsOpCode;
use netkit_packet::dns::question::{DnsQuestion, DnsQuestionBuilder, DnsQuestionError};
use netkit_packet::dns::rcode::DnsRCode;
use netkit_packet::dns::rrtype::DnsRrType;
use netkit_packet::dns::{Dns, DnsBuilder, DnsError};
use netkit_packet::dns::label::DnsLabel;

#[test]
fn dns_new_unchecked() {
    let data: [u8; 29] = [
        0x01, 0x02, // id
        0x00, // qr, opcode, aa, tc, rd
        0x00, // ra, z, rcode
        0x00, 0x01, // qd_count
        0x00, 0x00, // an_count
        0x00, 0x00, // ns_count
        0x00, 0x00, // ar_count
        0x07, 0x65, 0x78, 0x61, 0x6d, 0x70, 0x6c, 0x65, 0x03, 0x63, 0x6f, 0x6d,
        0x00, // qname example.com
        0x00, 0x01, // qtype A
        0x00, 0x01, // qclass IN
    ];

    let dns = Dns::new(data.to_vec()).unwrap();

    assert_eq!(dns.id(), 0x0102);
    assert_eq!(dns.qr(), false);
    assert_eq!(dns.opcode(), DnsOpCode::Query);
    assert_eq!(dns.aa(), false);
    assert_eq!(dns.tc(), false);
    assert_eq!(dns.rd(), false);
    assert_eq!(dns.ra(), false);
    assert_eq!(dns.z(), 0);
    assert_eq!(dns.rcode(), DnsRCode::NoError);
    assert_eq!(dns.qdcount(), 1);
    assert_eq!(dns.ancount(), 0);
    assert_eq!(dns.nscount(), 0);
    assert_eq!(dns.arcount(), 0);

    let questions = dns.questions();
    assert_eq!(questions.len(), 1);

    assert!(questions[0].qname().eq_str("example.com"));
    assert_eq!(questions[0].qtype(), DnsRrType::A);
    assert_eq!(questions[0].qclass(), DnsClass::Internet);
}

#[test]
fn dns_macro() {
    let dns = DnsBuilder::new()
        .id(0x0102u16)
        .rd(true)
        .questions(
            DnsQuestionBuilder::new()
                .qname("www.example.com")
                .qtype(DnsRrType::from_str("A").unwrap())
                .qclass(DnsClass::from_str("IN").unwrap())
                .build(),
        )
        .build();

    assert_eq!(
        dns.inner(),
        &[
            0x01, 0x02, // id
            0x01, // qr, opcode, aa, tc, rd
            0x00, // ra, z, rcode
            0x00, 0x01, // qd_count
            0x00, 0x00, // an_count
            0x00, 0x00, // ns_count
            0x00, 0x00, // ar_count
            0x03, 0x77, 0x77, 0x77, // qname label[0] www
            0x07, 0x65, 0x78, 0x61, 0x6d, 0x70, 0x6c, 0x65, // qname label[1] example
            0x03, 0x63, 0x6f, 0x6d, 0x00, // qname label[2] com
            0x00, 0x01, // qtype A
            0x00, 0x01, // qclass IN
        ]
    )
}

#[test]
fn dns_header_flags_and_count_cap() {
    let q = || DnsQuestionBuilder::new().qname("a.b").build();
    let dns = DnsBuilder::new()
        .qr(true)
        .opcode(DnsOpCode::Notify)
        .aa(true)
        .ra(true)
        .z(5)
        .rcode(DnsRCode::NXDomain)
        .qdcount(1)
        .questions(q())
        .questions(q())
        .build();
    assert_eq!(dns.qr(), true);
    assert_eq!(dns.opcode(), DnsOpCode::Notify);
    assert_eq!(dns.aa(), true);
    assert_eq!(dns.tc(), false);
    assert_eq!(dns.rd(), false);
    assert_eq!(dns.ra(), true);
    assert_eq!(dns.z(), 5);
    assert_eq!(dns.rcode(), DnsRCode::NXDomain);
    assert_eq!(dns.qdcount(), 1);
    // only one question is written: 12 + 5 + 4 bytes
    assert_eq!(dns.inner().len(), 21);
    assert_eq!(dns.questions().len(), 1);
    assert_eq!(Dns::new(vec![0; 11]).err(), Some(DnsError::InvalidLength(11)));
}

#[test]
fn dns_name_labels() {
    let data = b"\x03www\x06google\x03com\x00";
    let name = DnsName::new(data.to_vec());
    let labels: Vec<_> = name.labels();
    assert_eq!(labels.len(), 4);
    assert!(labels[0].eq_str("www"));
    assert!(labels[1].eq_str("google"));
    assert!(labels[2].eq_str("com"));
    assert!(labels[3].eq_str(""));
}

#[test]
fn dns_name_from_str() {
    let name = DnsName::from("www.google.com");
    assert_eq!(
        name.inner(),
        &vec![3, b'w', b'w', b'w', 6, b'g', b'o', b'o', b'g', b'l', b'e', 3, b'c', b'o', b'm', 0]
    );

    let labels: Vec<_> = name.labels();
    assert_eq!(labels.len(), 4);
    assert!(labels[0].eq_str("www"));
    assert!(labels[1].eq_str("google"));
    assert!(labels[2].eq_str("com"));
}

#[test]
fn dns_name_round_trip() {
    let name = DnsName::from("www.example.com");
    assert_eq!(
        name.inner(),
        &vec![
            0x03, 0x77, 0x77, 0x77, 0x07, 0x65, 0x78, 0x61, 0x6d, 0x70, 0x6c, 0x65, 0x03, 0x63,
            0x6f, 0x6d, 0x00
        ]
    );
    let labels = name.labels();
    assert_eq!(labels.len(), 4);
    assert!(labels[0].eq_str("www"));
    assert!(labels[1].eq_str("example"));
    assert!(labels[2].eq_str("com"));
    assert!(labels[3].eq_str(""));
    assert_eq!(labels[3].len(), Some(0));
    assert_eq!(name.to_string(), "www.example.com.");
}

#[test]
fn dns_name_eq_str() {
    let data = b"\x03www\x06google\x03com\x00";
    let name = DnsName::new(data.to_vec());

    assert!(name.eq_str("www.google.com."));
    assert!(name.eq_str("www.google.com"));
    assert!(!name.eq_str("www.google"));
}

#[test]
fn dns_label_kinds() {
    let label = DnsLabel::new(vec![0x07, b'e', b'x', b'a', b'm', b'p', b'l', b'e']);
    assert_eq!(label.is_normal(), true);
    assert_eq!(label.is_compressed(), false);
    assert_eq!(label.len(), Some(7));
    assert!(label.offset().is_none());
    assert_eq!(label.label().unwrap(), b"example");

    let label = DnsLabel::new(vec![0xC0, 0x0C]);
    assert_eq!(label.is_normal(), false);
    assert_eq!(label.is_compressed(), true);
    assert!(label.len().is_none());
    assert_eq!(label.offset(), Some(0x0C));
    assert!(label.label().is_none());
}

#[test]
fn dns_question_new() {
    let data = b"\x03www\x06google\x03com\x00\x00\x01\x00\x01";
    let question = DnsQuestion::new(data.to_vec()).unwrap();

    assert_eq!(question.qname().to_string(), "www.google.com.");
    assert_eq!(question.qtype(), DnsRrType::A);
    assert_eq!(question.qclass(), DnsClass::Internet);

    let data = b"\x03www\x07example\x03com\x00\x00\x01\x00\x01";
    let question = DnsQuestion::new(data.to_vec()).unwrap();

    assert_eq!(question.qname().to_string(), "www.example.com.");
    assert_eq!(question.qtype(), DnsRrType::A);
    assert_eq!(question.qclass(), DnsClass::Internet);
    assert_eq!(question.len(), 21);

    assert_eq!(
        DnsQuestion::new(b"\x03www".to_vec()).err().map(|e| e == DnsQuestionError::NoRootLabelFound),
        Some(true)
    );
}

#[test]
fn dns_question_macro() {
    let question = DnsQuestionBuilder::new()
        .qname("www.google.com")
        .qtype(DnsRrType::from_str("A").unwrap())
        .qclass(DnsClass::from_str("IN").unwrap())
        .build();

    assert_eq!(question.qname().to_string(), "www.google.com.");
    assert_eq!(question.qtype(), DnsRrType::A);
    assert_eq!(question.qclass(), DnsClass::Internet);

    let question = DnsQuestionBuilder::new()
        .qname("www.example.com")
        .qtype(DnsRrType::from_str("A").unwrap())
        .qclass(DnsClass::from_str("IN").unwrap())
        .build();

    assert_eq!(question.qname().to_string(), "www.example.com.");
    assert_eq!(question.qtype(), DnsRrType::A);
    assert_eq!(question.qclass(), DnsClass::Internet);
}

#[test]
fn dns_pointer_display() {
    let name = DnsName::new(vec![0x03, b'w', b'w', b'w', 0x00]);
    assert_eq!(name.to_string(), "www.");
    let name = DnsName::new(vec![0x03, b'w', b'w', b'w', 0xC0, 0x0C]);
    let labels = name.labels();
    assert_eq!(labels.len(), 2);
    assert_eq!(labels[1].offset(), Some(12));
    assert_eq!(name.to_string(), "www.PTR(12)");
}

#[test]
fn dns_two_questions() {
    let q1 = DnsQuestionBuilder::new().qname("a.example").build();
    let q2 = DnsQuestionBuilder::new()
        .qname("b.example")
        .qtype(DnsRrType::AAAA)
        .build();
    let dns = DnsBuilder::new().questions(q1).questions(q2).build();
    let questions = dns.questions();
    assert_eq!(questions.len(), 2);
    assert_eq!(questions[0].qname().to_string(), "a.example.");
    assert_eq!(questions[1].qname().to_string(), "b.example.");
    assert_eq!(questions[1].qtype(), DnsRrType::AAAA);
    assert_eq!(questions[1].qclass(), DnsClass::Internet);
}
