use cfddns::address::{parse_ipv4, parse_ipv4_bytes, Ipv4Address};
use cfddns::error::ErrorKind;

fn addr(a: u8, b: u8, c: u8, d: u8) -> Ipv4Address {
    Ipv4Address { a, b, c, d }
}

#[test]
fn parses_documentation_address() {
    assert_eq!(parse_ipv4("203.0.113.7"), Ok(addr(203, 0, 113, 7)));
}

#[test]
fn parses_lowest_and_highest_address() {
    assert_eq!(parse_ipv4("0.0.0.0"), Ok(addr(0, 0, 0, 0)));
    assert_eq!(parse_ipv4("255.255.255.255"), Ok(addr(255, 255, 255, 255)));
}

#[test]
fn parses_octets_of_every_length() {
    assert_eq!(parse_ipv4("1.22.133.9"), Ok(addr(1, 22, 133, 9)));
    assert_eq!(parse_ipv4("10.100.99.200"), Ok(addr(10, 100, 99, 200)));
    assert_eq!(parse_ipv4("192.168.1.1"), Ok(addr(192, 168, 1, 1)));
}

#[test]
fn parses_bytes_as_it_parses_text() {
    assert_eq!(parse_ipv4_bytes(b"127.0.0.1"), Ok(addr(127, 0, 0, 1)));
    assert_eq!(parse_ipv4_bytes(b"127.0.0"), Err(ErrorKind::ParseError));
}

#[test]
fn parses_every_octet_value_in_every_place() {
    for n in 0..=255u8 {
        assert_eq!(parse_ipv4(&format!("{}.0.0.0", n)), Ok(addr(n, 0, 0, 0)));
        assert_eq!(parse_ipv4(&format!("1.{}.1.1", n)), Ok(addr(1, n, 1, 1)));
        assert_eq!(parse_ipv4(&format!("10.10.{}.10", n)), Ok(addr(10, 10, n, 10)));
        assert_eq!(parse_ipv4(&format!("255.255.255.{}", n)), Ok(addr(255, 255, 255, n)));
    }
}

#[test]
fn rejects_empty_text() {
    assert_eq!(parse_ipv4(""), Err(ErrorKind::ParseError));
}

#[test]
fn rejects_wrong_number_of_octets() {
    assert_eq!(parse_ipv4("1.2.3"), Err(ErrorKind::ParseError));
    assert_eq!(parse_ipv4("1.2.3.4.5"), Err(ErrorKind::ParseError));
    assert_eq!(parse_ipv4("1"), Err(ErrorKind::ParseError));
}

#[test]
fn rejects_octet_above_255() {
    assert_eq!(parse_ipv4("256.1.1.1"), Err(ErrorKind::ParseError));
    assert_eq!(parse_ipv4("1.1.1.300"), Err(ErrorKind::ParseError));
    assert_eq!(parse_ipv4("1.999.1.1"), Err(ErrorKind::ParseError));
}

#[test]
fn rejects_leading_zero() {
    assert_eq!(parse_ipv4("01.2.3.4"), Err(ErrorKind::ParseError));
    assert_eq!(parse_ipv4("1.2.3.004"), Err(ErrorKind::ParseError));
    assert_eq!(parse_ipv4("1.00.3.4"), Err(ErrorKind::ParseError));
}

#[test]
fn rejects_four_digit_octet() {
    assert_eq!(parse_ipv4("1234.1.1.1"), Err(ErrorKind::ParseError));
    assert_eq!(parse_ipv4("1.1.1.0255"), Err(ErrorKind::ParseError));
}

#[test]
fn rejects_misplaced_dots() {
    assert_eq!(parse_ipv4("1..2.3"), Err(ErrorKind::ParseError));
    assert_eq!(parse_ipv4(".1.2.3"), Err(ErrorKind::ParseError));
    assert_eq!(parse_ipv4("1.2.3."), Err(ErrorKind::ParseError));
    assert_eq!(parse_ipv4("1.2.3.4."), Err(ErrorKind::ParseError));
    assert_eq!(parse_ipv4("..."), Err(ErrorKind::ParseError));
}

#[test]
fn rejects_surrounding_whitespace() {
    assert_eq!(parse_ipv4(" 1.2.3.4"), Err(ErrorKind::ParseError));
    assert_eq!(parse_ipv4("1.2.3.4 "), Err(ErrorKind::ParseError));
    assert_eq!(parse_ipv4("1.2.3.4\n"), Err(ErrorKind::ParseError));
}

#[test]
fn rejects_other_characters() {
    assert_eq!(parse_ipv4("a.b.c.d"), Err(ErrorKind::ParseError));
    assert_eq!(parse_ipv4("1.2.3.x"), Err(ErrorKind::ParseError));
    assert_eq!(parse_ipv4("+1.2.3.4"), Err(ErrorKind::ParseError));
    assert_eq!(parse_ipv4("1,2,3,4"), Err(ErrorKind::ParseError));
    assert_eq!(parse_ipv4("::1"), Err(ErrorKind::ParseError));
    assert_eq!(parse_ipv4("１.2.3.4"), Err(ErrorKind::ParseError));
}

#[test]
fn rejects_other_number_forms() {
    for text in ["0x1.1.1.1", "1.1.1.1/24", "1.1.1.-1", "1e1.1.1.1", "16843009"] {
        assert_eq!(parse_ipv4(text), Err(ErrorKind::ParseError));
    }
}

#[test]
fn writes_dotted_quad_text() {
    assert_eq!(addr(203, 0, 113, 7).to_text(), b"203.0.113.7".to_vec());
    assert_eq!(addr(0, 0, 0, 0).to_text(), b"0.0.0.0".to_vec());
    assert_eq!(addr(255, 100, 99, 10).to_text(), b"255.100.99.10".to_vec());
    assert_eq!(addr(9, 10, 101, 110).to_text(), b"9.10.101.110".to_vec());
}

#[test]
fn text_of_an_address_parses_back_to_it() {
    for n in 0..=255u8 {
        for address in [addr(n, 0, 255, 1), addr(7, n, n, 77), addr(255, 255, 0, n)] {
            assert_eq!(parse_ipv4_bytes(&address.to_text()), Ok(address));
        }
    }
}
