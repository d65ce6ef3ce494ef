use vyomad::dns::{dns_answers, dns_search_name, parse_ipv4, DnsVm};

fn vm(id: &str, hostname: Option<&str>, ip: &str) -> DnsVm {
    DnsVm { id: id.to_string(), hostname: hostname.map(|h| h.to_string()), ip_address: ip.to_string() }
}

#[test]
fn which_questions_are_answered() {
    assert_eq!(dns_search_name("web.ignite", true), Some("web".to_string()));
    assert_eq!(dns_search_name("web", true), Some("web".to_string()));
    assert_eq!(dns_search_name("web.ignite.ignite", true), Some("web".to_string()));
    assert_eq!(dns_search_name("example.com", true), None);
    assert_eq!(dns_search_name("web", false), None);
    assert_eq!(dns_search_name("web.", true), None);
    assert_eq!(dns_search_name(".ignite", true), Some(String::new()));
}

#[test]
fn ipv4_text() {
    assert_eq!(parse_ipv4("172.16.0.5"), Some((172, 16, 0, 5)));
    assert_eq!(parse_ipv4("0.0.0.0"), Some((0, 0, 0, 0)));
    assert_eq!(parse_ipv4("255.255.255.255"), Some((255, 255, 255, 255)));
    assert_eq!(parse_ipv4("256.1.1.1"), None);
    assert_eq!(parse_ipv4("01.1.1.1"), None);
    assert_eq!(parse_ipv4("1.1.1"), None);
    assert_eq!(parse_ipv4("1.1.1.1.1"), None);
    assert_eq!(parse_ipv4("1..1.1"), None);
    assert_eq!(parse_ipv4("a.b.c.d"), None);
    assert_eq!(parse_ipv4(""), None);
    assert_eq!(parse_ipv4("10.0.0.1"), Some((10, 0, 0, 1)));
    assert_eq!(parse_ipv4("001.2.3.4"), None);
    assert_eq!(parse_ipv4("1.2.3.4 "), None);
    assert_eq!(parse_ipv4("1234.1.1.1"), None);
    assert_eq!(parse_ipv4("+1.2.3.4"), None);
}

#[test]
fn answers_by_id_and_hostname() {
    let vms = vec![
        vm("a1", Some("web"), "172.16.0.2/24"),
        vm("b2", Some("web"), "172.16.0.3"),
        vm("c3", Some("db"), "bogus"),
        vm("web", None, "172.16.0.9"),
    ];
    assert_eq!(dns_answers("web", &vms), vec![(172, 16, 0, 9)]);
    let no_id_match = vec![vms[0].clone(), vms[1].clone(), vms[2].clone()];
    assert_eq!(dns_answers("web", &no_id_match), vec![(172, 16, 0, 2), (172, 16, 0, 3)]);
    assert!(dns_answers("db", &vms).is_empty());
    assert!(dns_answers("nothing", &vms).is_empty());
    assert_eq!(dns_answers("a1", &vms), vec![(172, 16, 0, 2)]);
}

#[test]
fn one_answer_per_answering_vm_in_order() {
    let vms = vec![
        vm("a1", Some("web"), "172.16.0.5/24"),
        vm("a2", Some("db"), "172.16.0.6"),
        vm("a3", Some("web"), "172.16.0.5"),
        vm("a4", Some("web"), "not-an-ip"),
        vm("a5", Some("web"), "172.16.0.4"),
    ];
    assert_eq!(dns_answers("web", &vms), vec![(172, 16, 0, 5), (172, 16, 0, 5), (172, 16, 0, 4)]);
}
