//! Files of the system that are made from templates, and what is read from the device.
use vstd::prelude::*;

use crate::config::{AAMode, Action};
use crate::text;
use crate::text::{
    chars_of, contains_chars, lines_of, push_text, replace_chars, same_text, string_of,
    trim_chars, trim_device_tree, with_number,
};

verus! {

// ---------------------------------------------------------------------------
// Templates.

/// A place in a template: the name in double braces.
pub open spec fn placeholder(key: Seq<char>) -> Seq<char> {
    "{{"@ + key + "}}"@
}

/// The template with the variables put in, one after the other.
pub open spec fn rendered(template: Seq<char>, vars: Seq<(Seq<char>, Seq<char>)>) -> Seq<char>
    decreases vars.len(),
{
    if vars.len() == 0 {
        template
    } else {
        text::replaced(
            rendered(template, vars.drop_last()),
            placeholder(vars.last().0),
            vars.last().1,
        )
    }
}

/// The variables, by their texts.
pub open spec fn var_views(vars: Seq<(String, String)>) -> Seq<(Seq<char>, Seq<char>)> {
    vars.map_values(|v: (String, String)| (v.0@, v.1@))
}

/// A template without places stays as it is.
pub proof fn law_template_without_places(
    template: Seq<char>,
    vars: Seq<(Seq<char>, Seq<char>)>,
)
    requires
        forall|i: int|
            0 <= i < vars.len() ==> !text::holds(template, placeholder((#[trigger] vars[i]).0)),
    ensures
        rendered(template, vars) == template,
    decreases vars.len(),
{
    if vars.len() > 0 {
        let before = vars.drop_last();
        assert forall|i: int| 0 <= i < before.len() implies !text::holds(
            template,
            placeholder((#[trigger] before[i]).0),
        ) by {
            assert(before[i] == vars[i]);
        }
        law_template_without_places(template, before);
        assert(vars.last() == vars[vars.len() - 1]);
        text::law_replacing_nothing(template, placeholder(vars.last().0), vars.last().1);
    }
}

/// Puts the variables into a template.
pub fn render_template(template: &str, vars: &Vec<(String, String)>) -> (r: String)
    ensures
        r@ == rendered(template@, var_views(vars@)),
{
    let ghost views = var_views(vars@);
    let mut output = chars_of(template);
    let mut i: usize = 0;
    assert(views.take(0) =~= Seq::<(Seq<char>, Seq<char>)>::empty());
    while i < vars.len()
        invariant
            i <= vars@.len(),
            views == var_views(vars@),
            output@ == rendered(template@, views.take(i as int)),
        decreases vars@.len() - i,
    {
        let mut place = String::new();
        push_text(&mut place, "{{");
        push_text(&mut place, vars[i].0.as_str());
        push_text(&mut place, "}}");
        assert(place@ =~= placeholder(vars@[i as int].0@));
        proof {
            reveal_strlit("{{");
        }
        let needle = chars_of(place.as_str());
        let value = chars_of(vars[i].1.as_str());
        assert(views.take(i + 1).drop_last() =~= views.take(i as int));
        assert(views.take(i + 1).last() == views[i as int]);
        output = replace_chars(output.as_slice(), needle.as_slice(), value.as_slice());
        i = i + 1;
    }
    assert(views.take(i as int) =~= views);
    string_of(output.as_slice())
}

/// The settings of the wireless network.
#[derive(Debug)]
pub struct WirelessSettings {
    pub band: String,
    pub wifi_version: u8,
    pub country_code: String,
    pub channel: u32,
    pub ssid: String,
    pub wpa_passphrase: String,
    /// The network to join where this device is no access point.
    pub ap_ssid: String,
    pub ap_psw: String,
}

/// A switch of a configuration file.
pub open spec fn switch(on: bool) -> Seq<char> {
    if on {
        "1"@
    } else {
        "0"@
    }
}

/// What the template of the access point is filled with.
pub open spec fn hostapd_vars(c: WirelessSettings) -> Seq<(Seq<char>, Seq<char>)> {
    seq![
        (
            "HW_MODE"@,
            if c.band@ == "5"@ || c.band@ == "6"@ {
                "a"@
            } else {
                "g"@
            },
        ),
        ("BE_MODE"@, switch(c.wifi_version >= 7)),
        ("AX_MODE"@, switch(c.wifi_version >= 6)),
        ("AC_MODE"@, switch(c.wifi_version >= 5)),
        ("N_MODE"@, switch(c.wifi_version >= 4)),
        ("COUNTRY_CODE"@, c.country_code@),
        ("CHANNEL"@, text::decimal(c.channel as int)),
        ("SSID"@, c.ssid@),
        ("WPA_PASSPHRASE"@, c.wpa_passphrase@),
    ]
}

fn switch_text(on: bool) -> (r: String)
    ensures
        r@ == switch(on),
{
    if on {
        "1".to_owned()
    } else {
        "0".to_owned()
    }
}

/// Makes the configuration of the access point.
pub fn generate_hostapd_conf(template: &str, config: &WirelessSettings) -> (r: String)
    ensures
        r@ == rendered(template@, hostapd_vars(*config)),
{
    let hw_mode = if same_text(config.band.as_str(), "5") || same_text(config.band.as_str(), "6") {
        "a".to_owned()
    } else {
        "g".to_owned()
    };
    let mut vars: Vec<(String, String)> = Vec::new();
    vars.push(("HW_MODE".to_owned(), hw_mode));
    vars.push(("BE_MODE".to_owned(), switch_text(config.wifi_version >= 7)));
    vars.push(("AX_MODE".to_owned(), switch_text(config.wifi_version >= 6)));
    vars.push(("AC_MODE".to_owned(), switch_text(config.wifi_version >= 5)));
    vars.push(("N_MODE".to_owned(), switch_text(config.wifi_version >= 4)));
    vars.push(("COUNTRY_CODE".to_owned(), config.country_code.clone()));
    let channel = with_number("", config.channel as i64);
    proof {
        reveal_strlit("");
        assert(channel@ =~= text::decimal(config.channel as int));
    }
    vars.push(("CHANNEL".to_owned(), channel));
    vars.push(("SSID".to_owned(), config.ssid.clone()));
    vars.push(("WPA_PASSPHRASE".to_owned(), config.wpa_passphrase.clone()));
    assert(var_views(vars@) =~= hostapd_vars(*config));
    render_template(template, &vars)
}

/// A text in double quotes.
pub open spec fn quoted(s: Seq<char>) -> Seq<char> {
    seq!['"'] + s + seq!['"']
}

/// What the template for joining a network is filled with.
pub open spec fn wpa_supplicant_vars(c: WirelessSettings) -> Seq<(Seq<char>, Seq<char>)> {
    seq![("STA_SSID"@, quoted(c.ap_ssid@)), ("STA_PWD"@, quoted(c.ap_psw@))]
}

fn quoted_text(s: &str) -> (r: String)
    ensures
        r@ == quoted(s@),
{
    let mut r = String::new();
    r.push('"');
    push_text(&mut r, s);
    r.push('"');
    assert(r@ =~= quoted(s@));
    r
}

/// Makes the configuration for joining a network.
pub fn generate_wpa_supplicant_conf(template: &str, config: &WirelessSettings) -> (r: String)
    ensures
        r@ == rendered(template@, wpa_supplicant_vars(*config)),
{
    let mut vars: Vec<(String, String)> = Vec::new();
    vars.push(("STA_SSID".to_owned(), quoted_text(config.ap_ssid.as_str())));
    vars.push(("STA_PWD".to_owned(), quoted_text(config.ap_psw.as_str())));
    assert(var_views(vars@) =~= wpa_supplicant_vars(*config));
    render_template(template, &vars)
}

/// What names this build.
#[derive(Debug)]
pub struct BuildInfo {
    pub build_date: String,
    pub git_date: String,
    pub git_hash: String,
}

/// What a template with the strings of the USB device is filled with.
pub open spec fn usb_vars(
    model: Option<String>,
    serial: Option<String>,
    build: BuildInfo,
) -> Seq<(Seq<char>, Seq<char>)> {
    seq![
        (
            "MODEL"@,
            match model {
                Some(m) => " ("@ + m@ + ")"@,
                None => Seq::<char>::empty(),
            },
        ),
        (
            "SERIAL"@,
            match serial {
                Some(s) => s@,
                None => "0123456"@,
            },
        ),
        (
            "FIRMWARE_VER"@,
            build.build_date@ + ", git: "@ + build.git_date@ + "-"@ + build.git_hash@,
        ),
    ]
}

/// Makes a file with the strings of the USB device; `model` and `serial` are what could
/// be read from the device.
pub fn generate_usb_strings(
    template: &str,
    model: Option<String>,
    serial: Option<String>,
    build: &BuildInfo,
) -> (r: String)
    ensures
        r@ == rendered(template@, usb_vars(model, serial, *build)),
{
    let ghost wanted = usb_vars(model, serial, *build);
    let mut model_text = String::new();
    if let Some(m) = &model {
        push_text(&mut model_text, " (");
        push_text(&mut model_text, m.as_str());
        push_text(&mut model_text, ")");
    }
    assert(model_text@ =~= wanted[0].1);
    let serial_text = match serial {
        Some(s) => s,
        None => "0123456".to_owned(),
    };
    let mut version = String::new();
    push_text(&mut version, build.build_date.as_str());
    push_text(&mut version, ", git: ");
    push_text(&mut version, build.git_date.as_str());
    push_text(&mut version, "-");
    push_text(&mut version, build.git_hash.as_str());
    assert(version@ =~= wanted[2].1);
    let mut vars: Vec<(String, String)> = Vec::new();
    vars.push(("MODEL".to_owned(), model_text));
    vars.push(("SERIAL".to_owned(), serial_text));
    vars.push(("FIRMWARE_VER".to_owned(), version));
    assert(var_views(vars@) =~= wanted);
    render_template(template, &vars)
}

// ---------------------------------------------------------------------------
// Reading the device.

/// The model of the board, from the contents of its device tree file.
pub fn get_sbc_model(contents: &str) -> (r: String)
    ensures
        r@ == text::trimmed(text::without_end_nuls(contents@)),
{
    let t = trim_device_tree(contents);
    string_of(t.as_slice())
}

/// The serial number of the board, from the contents of its device tree file.
pub fn get_serial_number(contents: &str) -> (r: String)
    ensures
        r@ == text::trimmed(text::without_end_nuls(contents@)),
{
    let t = trim_device_tree(contents);
    string_of(t.as_slice())
}

/// Whether a line of the interfaces file is no comment and names the access point.
pub open spec fn names_hostapd(line: Seq<char>) -> bool {
    let t = text::trimmed(line);
    !(t.len() > 0 && t[0] == '#') && text::holds(t, "hostapd"@)
}

/// Whether some line of the interfaces file names the access point.
pub open spec fn starts_hostapd(content: Seq<char>) -> bool {
    exists|i: int|
        0 <= i < text::lines(content).len() && names_hostapd(#[trigger] text::lines(content)[i])
}

/// Whether the interfaces file, where it could be read, starts the access point.
pub fn is_hostapd_configured(content: Option<&str>) -> (b: bool)
    ensures
        b == (content matches Some(c) && starts_hostapd(c@)),
{
    let c = match content {
        Some(c) => c,
        None => {
            return false;
        },
    };
    let chars = chars_of(c);
    let lines = lines_of(chars.as_slice());
    let command = chars_of("hostapd");
    let ghost views = text::texts(lines@);
    let mut i: usize = 0;
    while i < lines.len()
        invariant
            i <= lines@.len(),
            views == text::texts(lines@),
            views == text::lines(c@),
            content == Some(c),
            command@ == "hostapd"@,
            forall|k: int| 0 <= k < i ==> !names_hostapd(#[trigger] views[k]),
        decreases lines@.len() - i,
    {
        assert(views[i as int] == lines@[i as int]@);
        let t = trim_chars(lines[i].as_slice());
        let comment: bool = t.len() > 0 && t[0] == '#';
        if !comment && contains_chars(t.as_slice(), command.as_slice()) {
            assert(names_hostapd(text::lines(c@)[i as int]));
            assert(starts_hostapd(c@));
            return true;
        }
        i = i + 1;
    }
    false
}

// ---------------------------------------------------------------------------
// Starting.

/// Whether a board has status lights.
pub open spec fn has_lights(model: Seq<char>) -> bool {
    model == "AAWireless 2B"@
}

/// Tells whether the board, where it is known, has status lights.
pub fn led_support(model: Option<&str>) -> (b: bool)
    ensures
        b == (model matches Some(m) && has_lights(m@)),
{
    match model {
        Some(m) => same_text(m, "AAWireless 2B"),
        None => false,
    }
}

/// The configuration of the network that is made for a mode.
#[derive(Clone, Copy, Debug, PartialEq, Eq, Structural)]
pub enum NetworkRole {
    AccessPoint,
    Station,
}

/// Passing through needs an access point for the mobile device, mirroring joins its
/// network.
pub open spec fn role_of(mode: AAMode) -> NetworkRole {
    if mode == AAMode::PassThrough {
        NetworkRole::AccessPoint
    } else {
        NetworkRole::Station
    }
}

/// Chooses the configuration of the network.
pub fn network_role(mode: AAMode) -> (r: NetworkRole)
    ensures
        r == role_of(mode),
{
    match mode {
        AAMode::PassThrough => NetworkRole::AccessPoint,
        AAMode::Mirror => NetworkRole::Station,
    }
}

/// How much is logged.
#[derive(Clone, Copy, Debug, PartialEq, Eq, Structural)]
pub enum LogLevel {
    Info,
    Debug,
}

/// The level of the log file.
pub open spec fn file_level(debug: bool) -> LogLevel {
    if debug {
        LogLevel::Debug
    } else {
        LogLevel::Info
    }
}

/// The level of the console.
pub open spec fn console_level(debug: bool, disable_console_debug: bool) -> LogLevel {
    if disable_console_debug {
        LogLevel::Info
    } else {
        file_level(debug)
    }
}

/// The levels of the console and of the log file.
pub fn logging_init(debug: bool, disable_console_debug: bool) -> (r: (LogLevel, LogLevel))
    ensures
        r == (console_level(debug, disable_console_debug), file_level(debug)),
{
    let requested = if debug {
        LogLevel::Debug
    } else {
        LogLevel::Info
    };
    let console = if disable_console_debug {
        LogLevel::Info
    } else {
        requested
    };
    (console, requested)
}

/// Whether a request is one to reboot.
pub open spec fn asks_for_reboot(requested: Option<Action>) -> bool {
    requested == Some(Action::Reboot)
}

/// What is left of a request once one to reboot has been taken.
pub open spec fn left_of(requested: Option<Action>) -> Option<Action> {
    if asks_for_reboot(requested) {
        None
    } else {
        requested
    }
}

/// Takes a request to reboot; tells whether there was one. Other requests stay.
pub fn action_handler(action_requested: &mut Option<Action>) -> (reboot: bool)
    ensures
        reboot == asks_for_reboot(*old(action_requested)),
        *final(action_requested) == left_of(*old(action_requested)),
{
    match *action_requested {
        Some(Action::Reboot) => {
            *action_requested = None;
            true
        },
        _ => false,
    }
}

/// The program as it starts: one board has lights and no other; mirroring joins a network and
/// passing through opens one; details go to the log file where they are asked for, and to the
/// console unless they are not wanted there.
pub proof fn law_how_the_program_starts(model: Seq<char>, debug: bool)
    ensures
        has_lights(model) <==> model == "AAWireless 2B"@,
        role_of(AAMode::PassThrough) == NetworkRole::AccessPoint,
        role_of(AAMode::Mirror) == NetworkRole::Station,
        file_level(true) == LogLevel::Debug && file_level(false) == LogLevel::Info,
        console_level(debug, false) == file_level(debug),
        console_level(debug, true) == LogLevel::Info,
{
}

/// A request to reboot is taken once, and every other request stays for those that it
/// concerns.
pub proof fn law_reboot_is_taken_once(requested: Option<Action>)
    ensures
        asks_for_reboot(Some(Action::Reboot)),
        !asks_for_reboot(Some(Action::Reconnect)) && !asks_for_reboot(None),
        !asks_for_reboot(left_of(requested)),
        requested != Some(Action::Reboot) ==> left_of(requested) == requested,
        left_of(Some(Action::Reboot)) is None,
{
}

} // verus!
