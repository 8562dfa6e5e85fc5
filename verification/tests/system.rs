use aa_mirror::config::{AAMode, Action};
use aa_mirror::system_config::{
    action_handler, generate_hostapd_conf, generate_usb_strings, generate_wpa_supplicant_conf,
    get_sbc_model, get_serial_number, is_hostapd_configured, led_support, logging_init,
    network_role, render_template, BuildInfo, LogLevel, NetworkRole, WirelessSettings,
};
use aa_mirror::text::{
    chars_of, contains_text, is_white_space, lines_of, push_chars, push_decimal, push_text,
    replace_chars, same_text, string_of, trim_chars, trim_device_tree, with_number, words_of,
};

fn settings() -> WirelessSettings {
    WirelessSettings {
        band: "5".to_string(),
        wifi_version: 5,
        country_code: "DE".to_string(),
        channel: 36,
        ssid: "net".to_string(),
        wpa_passphrase: "secret".to_string(),
        ap_ssid: "home".to_string(),
        ap_psw: "pw".to_string(),
    }
}

fn split(parts: Vec<Vec<char>>) -> Vec<String> {
    parts.iter().map(|p| string_of(p)).collect()
}

#[test]
fn variables_go_into_a_template() {
    let vars = vec![
        ("A".to_string(), "{{B}}".to_string()),
        ("B".to_string(), "x".to_string()),
        ("C".to_string(), "".to_string()),
    ];
    assert_eq!(render_template("{{A}}-{{B}}-{{C}}-{{D}}", &vars), "x-x--{{D}}");
    assert_eq!(render_template("no places { }", &vars), "no places { }");
    assert_eq!(render_template("{{{A}}}", &vars), "{x}");
}

#[test]
fn the_configuration_of_the_access_point() {
    let template = "m={{HW_MODE}} {{BE_MODE}}{{AX_MODE}}{{AC_MODE}}{{N_MODE}} \
                    {{COUNTRY_CODE}} {{CHANNEL}} {{SSID}} {{WPA_PASSPHRASE}}";
    assert_eq!(
        generate_hostapd_conf(template, &settings()),
        "m=a 0011 DE 36 net secret"
    );
    let old = WirelessSettings { band: "2.4".to_string(), wifi_version: 3, ..settings() };
    assert_eq!(generate_hostapd_conf(template, &old), "m=g 0000 DE 36 net secret");
    let new = WirelessSettings { band: "6".to_string(), wifi_version: 7, ..settings() };
    assert_eq!(generate_hostapd_conf(template, &new), "m=a 1111 DE 36 net secret");
}

#[test]
fn the_configuration_for_joining_a_network() {
    assert_eq!(
        generate_wpa_supplicant_conf("ssid={{STA_SSID}} psk={{STA_PWD}}", &settings()),
        "ssid=\"home\" psk=\"pw\""
    );
}

#[test]
fn the_strings_of_the_usb_device() {
    let build = BuildInfo {
        build_date: "20250101".to_string(),
        git_date: "20241231".to_string(),
        git_hash: "abc".to_string(),
    };
    let template = "x{{MODEL}} {{SERIAL}} {{FIRMWARE_VER}}";
    assert_eq!(
        generate_usb_strings(template, Some("Pi".to_string()), Some("7".to_string()), &build),
        "x (Pi) 7 20250101, git: 20241231-abc"
    );
    assert_eq!(
        generate_usb_strings(template, None, None, &build),
        "x 0123456 20250101, git: 20241231-abc"
    );
}

#[test]
fn values_of_the_device_tree() {
    assert_eq!(get_sbc_model("Raspberry Pi Zero 2 W \n\0"), "Raspberry Pi Zero 2 W");
    assert_eq!(get_serial_number(" 42\0\0"), "42");
    assert_eq!(get_serial_number("4\u{0}2 \u{0}"), "4\u{0}2");
    assert_eq!(trim_device_tree("\0"), Vec::<char>::new());
}

#[test]
fn whether_the_access_point_is_started() {
    assert!(!is_hostapd_configured(None));
    assert!(!is_hostapd_configured(Some("auto lo\n  # up hostapd\n")));
    assert!(is_hostapd_configured(Some("auto lo\r\n  up hostapd -B\r\n")));
    assert!(is_hostapd_configured(Some("hostapd # x")));
    assert!(!is_hostapd_configured(Some("")));
}

#[test]
fn decisions_at_the_start() {
    assert!(led_support(Some("AAWireless 2B")));
    assert!(!led_support(Some("AAWireless 2")));
    assert!(!led_support(None));
    assert_eq!(network_role(AAMode::PassThrough), NetworkRole::AccessPoint);
    assert_eq!(network_role(AAMode::Mirror), NetworkRole::Station);
    assert_eq!(logging_init(true, false), (LogLevel::Debug, LogLevel::Debug));
    assert_eq!(logging_init(true, true), (LogLevel::Info, LogLevel::Debug));
    assert_eq!(logging_init(false, true), (LogLevel::Info, LogLevel::Info));
}

#[test]
fn a_request_to_reboot_is_taken() {
    let mut request = Some(Action::Reboot);
    assert!(action_handler(&mut request));
    assert_eq!(request, None);
    assert!(!action_handler(&mut request));
    let mut other = Some(Action::Reconnect);
    assert!(!action_handler(&mut other));
    assert_eq!(other, Some(Action::Reconnect));
}

#[test]
fn numbers_in_decimal_form() {
    for v in vec![0, 7, 10, -1, 1234567890, i64::MAX, i64::MIN] {
        let mut s = String::new();
        push_decimal(&mut s, v);
        assert_eq!(s, v.to_string());
    }
    assert_eq!(with_number("n=", -5), "n=-5");
}

#[test]
fn texts_are_searched_and_replaced() {
    assert!(contains_text("abcabd", "abd"));
    assert!(contains_text("abc", ""));
    assert!(contains_text("", ""));
    assert!(!contains_text("ab", "abc"));
    let replace = |h: &str, n: &str, w: &str| {
        string_of(&replace_chars(&chars_of(h), &chars_of(n), &chars_of(w)))
    };
    for (h, n, w) in vec![
        ("aaaa", "aa", "b"),
        ("aaa", "aa", "a"),
        ("abcabc", "c", "abc"),
        ("", "x", "y"),
        ("xyz", "q", "r"),
        ("äöä", "ä", ""),
    ] {
        assert_eq!(replace(h, n, w), h.replace(n, w));
    }
}

#[test]
fn texts_are_split_as_by_the_standard_library() {
    let samples = vec![
        "",
        "\n",
        "a",
        "a\n",
        "a\r\nb\r",
        "\n\na b\tc \u{3000}d\n",
        "  x  ",
        "\r\n",
        "a\rb\n",
    ];
    for s in samples {
        let chars = chars_of(s);
        let lines: Vec<String> = s.lines().map(|l| l.to_string()).collect();
        assert_eq!(split(lines_of(&chars)), lines);
        let words: Vec<String> = s.split_whitespace().map(|w| w.to_string()).collect();
        assert_eq!(split(words_of(&chars)), words);
        assert_eq!(string_of(&trim_chars(&chars)), s.trim());
    }
}

#[test]
fn white_space_is_that_of_unicode() {
    for n in 0..0x11_0000 {
        if let Some(c) = char::from_u32(n) {
            assert_eq!(is_white_space(c), c.is_whitespace());
        }
    }
}

#[test]
fn texts_are_put_together() {
    let mut s = "a".to_string();
    push_text(&mut s, "bc");
    push_chars(&mut s, &['d', 'é']);
    assert_eq!(s, "abcdé");
    assert!(same_text(&s, "abcdé"));
    assert!(!same_text(&s, "abcd"));
    assert!(!same_text("abc", "abd"));
}
