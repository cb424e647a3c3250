use freebuff_shell::port::{parse_u16, port_from_setting, DEFAULT_PORT};

#[test]
fn parse_agrees_with_std() {
    let cases = [
        "", "+", "-", "0", "00080", "+80", "-80", "++80", " 80", "80 ", "65535", "65536",
        "99999999999999999999", "8a", "a8", "+0", "٣", "１２", "1_000", "65535+", "0x10",
    ];
    for s in cases {
        assert_eq!(parse_u16(s), s.parse::<u16>().ok(), "{:?}", s);
    }
    for n in 0u32..70000 {
        let s = n.to_string();
        assert_eq!(parse_u16(&s), s.parse::<u16>().ok());
    }
}

#[test]
fn default_port_when_unset_or_bad() {
    assert_eq!(DEFAULT_PORT, 8787);
    assert_eq!(port_from_setting(None), 8787);
    assert_eq!(port_from_setting(Some("abc".to_string())), 8787);
    assert_eq!(port_from_setting(Some("70000".to_string())), 8787);
    assert_eq!(port_from_setting(Some(" 9000".to_string())), 8787);
    assert_eq!(port_from_setting(Some(String::new())), 8787);
}

#[test]
fn port_from_valid_setting() {
    assert_eq!(port_from_setting(Some("9000".to_string())), 9000);
    assert_eq!(port_from_setting(Some("+80".to_string())), 80);
    assert_eq!(port_from_setting(Some("0".to_string())), 0);
}

#[test]
fn every_port_round_trips_through_decimal() {
    for p in 0..=u16::MAX {
        assert_eq!(port_from_setting(Some(p.to_string())), p);
    }
}
