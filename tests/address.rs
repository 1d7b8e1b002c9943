use dyndns::address::{lookup, parse_ipv4, AddrParseError};

#[test]
fn parses_dotted_quad() {
    let a = parse_ipv4("203.0.113.5").unwrap();
    assert_eq!(a.octets, [203, 0, 113, 5]);
    let z = parse_ipv4("0.0.0.0").unwrap();
    assert_eq!(z.octets, [0, 0, 0, 0]);
    let m = parse_ipv4("255.255.255.255").unwrap();
    assert_eq!(m.octets, [255, 255, 255, 255]);
}

#[test]
fn rejects_text_that_is_no_address() {
    for s in [
        "not-an-ip",
        "",
        "1.2.3",
        "1.2.3.4.5",
        "256.1.1.1",
        "01.2.3.4",
        "1.2.3.4 ",
        " 1.2.3.4",
        "1..2.3",
        "1.2.3.",
        "1234.1.1.1",
        "::1",
    ] {
        assert_eq!(parse_ipv4(s).err(), Some(AddrParseError), "{s:?}");
    }
}

#[test]
fn lookup_takes_first_address_trimmed() {
    let addrs = vec![String::from(" 203.0.113.4\n"), String::from("198.51.100.1")];
    assert_eq!(lookup(&addrs), Some(String::from("203.0.113.4")));
}

#[test]
fn lookup_of_no_address_is_none() {
    assert_eq!(lookup(&Vec::new()), None);
}
