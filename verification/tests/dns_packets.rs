use simple_dns::rdata::RData;
use simple_dns::{Name, Packet, PacketFlag, Question, CLASS, QCLASS, QTYPE, TYPE};
use vyomad::dns::{dns_response, DnsOutcome, DnsVm};

fn vm(id: &str, hostname: Option<&str>, ip: &str) -> DnsVm {
    DnsVm { id: id.to_string(), hostname: hostname.map(|h| h.to_string()), ip_address: ip.to_string() }
}

fn query(id: u16, names: &[(&str, TYPE)]) -> Vec<u8> {
    let mut p = Packet::new_query(id);
    for (n, t) in names {
        p.questions.push(Question::new(Name::new(n).unwrap(), QTYPE::TYPE(*t), QCLASS::CLASS(CLASS::IN), false));
    }
    p.build_bytes_vec().unwrap()
}

fn addresses(reply: &[u8]) -> Vec<(String, [u8; 4], u32)> {
    let p = Packet::parse(reply).unwrap();
    p.answers
        .iter()
        .map(|rr| match &rr.rdata {
            RData::A(a) => (rr.name.to_string(), a.address.to_be_bytes(), rr.ttl),
            _ => panic!("expected A records"),
        })
        .collect()
}

#[test]
fn a_vm_is_answered_by_hostname() {
    let vms = vec![vm("id-1", Some("web"), "172.16.0.5/24"), vm("id-2", Some("db"), "172.16.0.6")];
    match dns_response(&query(7, &[("web.ignite", TYPE::A)]), &vms).unwrap() {
        DnsOutcome::Reply(bytes) => {
            let p = Packet::parse(&bytes).unwrap();
            assert_eq!(p.id(), 7);
            assert!(p.has_flags(PacketFlag::RESPONSE));
            assert_eq!(addresses(&bytes), vec![("web.ignite".to_string(), [172, 16, 0, 5], 10)]);
        },
        _ => panic!("expected a reply"),
    }
}

#[test]
fn every_question_is_answered_in_order() {
    let vms = vec![vm("id-1", Some("web"), "172.16.0.5"), vm("id-2", Some("db"), "172.16.0.6")];
    match dns_response(&query(9, &[("db", TYPE::A), ("web.ignite", TYPE::A), ("web", TYPE::AAAA)]), &vms).unwrap() {
        DnsOutcome::Reply(bytes) => assert_eq!(
            addresses(&bytes),
            vec![("db".to_string(), [172, 16, 0, 6], 10), ("web.ignite".to_string(), [172, 16, 0, 5], 10)]
        ),
        _ => panic!("expected a reply"),
    }
}

#[test]
fn unknown_names_are_forwarded() {
    let vms = vec![vm("id-1", Some("web"), "172.16.0.5")];
    assert!(matches!(dns_response(&query(1, &[("example.com", TYPE::A)]), &vms).unwrap(), DnsOutcome::Forward));
    assert!(matches!(dns_response(&query(1, &[("nothere", TYPE::A)]), &vms).unwrap(), DnsOutcome::Forward));
}

#[test]
fn responses_are_ignored_and_garbage_refused() {
    let vms: Vec<DnsVm> = vec![];
    let mut p = Packet::new_reply(3);
    p.questions.push(Question::new(Name::new("web").unwrap(), QTYPE::TYPE(TYPE::A), QCLASS::CLASS(CLASS::IN), false));
    assert!(matches!(dns_response(&p.build_bytes_vec().unwrap(), &vms).unwrap(), DnsOutcome::Ignore));
    assert_eq!(dns_response(&[1, 2, 3], &vms).unwrap_err(), "Malformed DNS packet");
}
