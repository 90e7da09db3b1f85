use wireguard_proxy::settings::{ip_stack_settings, listen_port, u16_setting, u32_setting, StackSettings};

#[test]
fn u16_setting_reads_decimal_numbers() {
    assert_eq!(u16_setting(Some("8080")), Some(8080));
    assert_eq!(u16_setting(Some("+80")), Some(80));
    assert_eq!(u16_setting(Some("0")), Some(0));
    assert_eq!(u16_setting(Some("65535")), Some(65535));
}

#[test]
fn u16_setting_rejects_other_text() {
    assert_eq!(u16_setting(Some("65536")), None);
    assert_eq!(u16_setting(Some(" 80")), None);
    assert_eq!(u16_setting(Some("-1")), None);
    assert_eq!(u16_setting(Some("")), None);
    assert_eq!(u16_setting(Some("+")), None);
    assert_eq!(u16_setting(Some("12a")), None);
    assert_eq!(u16_setting(None), None);
}

#[test]
fn u32_setting_reads_large_numbers() {
    assert_eq!(u32_setting(Some("4294967295")), Some(u32::MAX));
    assert_eq!(u32_setting(Some("4294967296")), None);
    assert_eq!(u32_setting(Some("65536")), Some(65536));
}

#[test]
fn listen_port_falls_back_to_default() {
    assert_eq!(listen_port(None, 3000), 3000);
    assert_eq!(listen_port(Some("x"), 80), 80);
    assert_eq!(listen_port(Some("7071"), 3000), 7071);
}

#[test]
fn stack_settings_override_only_numbers() {
    assert_eq!(
        ip_stack_settings(Some("65536"), Some("1380")),
        StackSettings { mtu: Some(1380), max_unacked_bytes: Some(65536), packet_information: false }
    );
    assert_eq!(
        ip_stack_settings(None, Some("big")),
        StackSettings { mtu: None, max_unacked_bytes: None, packet_information: false }
    );
}

#[test]
fn u16_setting_reads_leading_zeros_and_rejects_other_digits() {
    assert_eq!(u16_setting(Some("007")), Some(7));
    assert_eq!(u16_setting(Some("１２")), None);
    assert_eq!(u16_setting(Some("++1")), None);
    assert_eq!(u16_setting(Some("99999")), None);
    assert_eq!(u32_setting(Some("+4294967295")), Some(u32::MAX));
}
