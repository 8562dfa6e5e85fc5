//! What holds of texts and of the files that are made from templates.
use vstd::prelude::*;

use crate::system_config;
use crate::system_config::{BuildInfo, WirelessSettings};
use crate::text;

verus! {

// ---------------------------------------------------------------------------
// Numbers.

/// The number that decimal digits stand for.
pub open spec fn decimal_value(s: Seq<char>) -> int
    decreases s.len(),
{
    if s.len() == 0 {
        0
    } else {
        10 * decimal_value(s.drop_last()) + (s.last() as int - 48)
    }
}

/// The decimal form of a natural number is read back, has digits only, and no zero in front.
pub proof fn law_decimal_round_trip(n: nat)
    ensures
        decimal_value(text::decimal_nat(n)) == n,
        text::decimal_nat(n).len() > 0,
        forall|i: int|
            0 <= i < text::decimal_nat(n).len() ==> '0' <= (#[trigger] text::decimal_nat(n)[i])
                && text::decimal_nat(n)[i] <= '9',
        n > 0 ==> text::decimal_nat(n)[0] != '0',
        n == 0 ==> text::decimal_nat(n) == seq!['0'],
    decreases n,
{
    let s = text::decimal_nat(n);
    if n < 10 {
        assert(s.drop_last() =~= Seq::<char>::empty());
        assert(decimal_value(s.drop_last()) == 0);
    } else {
        law_decimal_round_trip(n / 10);
        assert(s.drop_last() =~= text::decimal_nat(n / 10));
        assert forall|i: int| 0 <= i < s.len() implies '0' <= (#[trigger] s[i]) && s[i] <= '9' by {
            if i < s.len() - 1 {
                assert(s[i] == text::decimal_nat(n / 10)[i]);
            }
        }
        assert(s[0] == text::decimal_nat(n / 10)[0]);
    }
}

/// A negative number has a sign in front of its magnitude, others have none, and two numbers
/// of the same form are the same.
pub proof fn law_decimal_forms_differ(a: int, b: int)
    ensures
        a >= 0 ==> text::decimal(a) == text::decimal_nat(a as nat),
        a < 0 ==> text::decimal(a)[0] == '-' && text::decimal(a).skip(1) == text::decimal_nat(
            (-a) as nat,
        ),
        text::decimal(a) == text::decimal(b) ==> a == b,
{
    if a < 0 {
        assert(text::decimal(a).skip(1) =~= text::decimal_nat((-a) as nat));
        law_decimal_round_trip((-a) as nat);
    } else {
        law_decimal_round_trip(a as nat);
        assert(text::decimal(a)[0] != '-');
    }
    if b < 0 {
        assert(text::decimal(b).skip(1) =~= text::decimal_nat((-b) as nat));
        law_decimal_round_trip((-b) as nat);
    } else {
        law_decimal_round_trip(b as nat);
        assert(text::decimal(b)[0] != '-');
    }
}

/// The number that a hexadecimal digit stands for.
pub open spec fn hex_digit_value(c: char) -> int {
    if c <= '9' {
        c as int - 48
    } else {
        c as int - 55
    }
}

/// The number that hexadecimal digits stand for.
pub open spec fn hex_value(s: Seq<char>) -> int
    decreases s.len(),
{
    if s.len() == 0 {
        0
    } else {
        16 * hex_value(s.drop_last()) + hex_digit_value(s.last())
    }
}

/// The hexadecimal form of a number is read back, has at least the width that was asked for,
/// and digits and capital letters only.
pub proof fn law_hex_round_trip(n: nat, width: nat)
    ensures
        hex_value(text::hex(n, width)) == n,
        text::hex(n, width).len() >= width,
        text::hex(n, width).len() > 0,
        forall|i: int|
            0 <= i < text::hex(n, width).len() ==> ('0' <= (#[trigger] text::hex(n, width)[i])
                && text::hex(n, width)[i] <= '9') || ('A' <= text::hex(n, width)[i] && text::hex(
                n,
                width,
            )[i] <= 'F'),
    decreases n, width,
{
    let s = text::hex(n, width);
    if n < 16 && width <= 1 {
        assert(s.drop_last() =~= Seq::<char>::empty());
        assert(hex_value(s.drop_last()) == 0);
    } else {
        let w = if width > 0 {
            (width - 1) as nat
        } else {
            0
        };
        law_hex_round_trip(n / 16, w);
        assert(s.drop_last() =~= text::hex(n / 16, w));
        assert forall|i: int| 0 <= i < s.len() implies ('0' <= (#[trigger] s[i]) && s[i] <= '9') || (
        'A' <= s[i] && s[i] <= 'F') by {
            if i < s.len() - 1 {
                assert(s[i] == text::hex(n / 16, w)[i]);
            }
        }
    }
}

/// A byte has exactly two hexadecimal digits, the more significant one first.
pub proof fn law_bytes_have_two_digits(n: nat)
    requires
        n < 256,
    ensures
        text::hex(n, 2).len() == 2,
        hex_digit_value(text::hex(n, 2)[0]) * 16 + hex_digit_value(text::hex(n, 2)[1]) == n,
{
    reveal_with_fuel(text::hex, 2);
}

// ---------------------------------------------------------------------------
// Searching.

/// A text holds another exactly where it is that text with something before and behind it.
pub proof fn law_holding_a_text(before: Seq<char>, needle: Seq<char>, after: Seq<char>)
    ensures
        text::holds(before + needle + after, needle),
{
    let s = before + needle + after;
    let i = before.len() as int;
    assert(s.subrange(i, i + needle.len()) =~= needle);
    assert(text::occurs_at(s, needle, i));
}

/// A text that holds another can be taken apart around it.
pub proof fn law_taking_apart(hay: Seq<char>, needle: Seq<char>)
    requires
        text::holds(hay, needle),
    ensures
        exists|i: int|
            0 <= i && i + needle.len() <= hay.len() && hay == #[trigger] hay.take(i) + needle
                + hay.skip(i + needle.len()),
        needle.len() <= hay.len(),
{
    let i = choose|i: int| text::occurs_at(hay, needle, i);
    assert(hay =~= hay.take(i) + needle + hay.skip(i + needle.len()));
}

// ---------------------------------------------------------------------------
// White space.

/// White space is what Unicode counts as such: the tabs and line ends, the space and the
/// spaces of other scripts and widths; letters, digits and other ASCII signs are none.
pub proof fn law_white_space(c: char)
    ensures
        text::is_white(' ') && text::is_white('\n') && text::is_white('\r') && text::is_white('\t'),
        '!' <= c && c <= '~' ==> !text::is_white(c),
        (c as u32) < 9 ==> !text::is_white(c),
{
}

proof fn lemma_trim_start(s: Seq<char>)
    ensures
        text::trim_start(s).len() <= s.len(),
        s.skip(s.len() - text::trim_start(s).len()) == text::trim_start(s),
        text::trim_start(s).len() > 0 ==> !text::is_white(text::trim_start(s)[0]),
        forall|i: int|
            0 <= i < s.len() - text::trim_start(s).len() ==> text::is_white(#[trigger] s[i]),
    decreases s.len(),
{
    if s.len() > 0 && text::is_white(s[0]) {
        let rest = s.skip(1);
        lemma_trim_start(rest);
        let t = text::trim_start(s);
        assert(s.skip(s.len() - t.len()) =~= rest.skip(rest.len() - t.len()));
        assert forall|i: int| 0 <= i < s.len() - t.len() implies text::is_white(
            #[trigger] s[i],
        ) by {
            if i > 0 {
                assert(s[i] == rest[i - 1]);
            }
        }
    } else {
        assert(s.skip(0) =~= s);
    }
}

proof fn lemma_trim_end(s: Seq<char>)
    ensures
        text::trim_end(s).len() <= s.len(),
        s.take(text::trim_end(s).len() as int) == text::trim_end(s),
        text::trim_end(s).len() > 0 ==> !text::is_white(text::trim_end(s).last()),
        forall|i: int| text::trim_end(s).len() <= i < s.len() ==> text::is_white(#[trigger] s[i]),
    decreases s.len(),
{
    if s.len() > 0 && text::is_white(s.last()) {
        let rest = s.drop_last();
        lemma_trim_end(rest);
        let t = text::trim_end(s);
        assert(s.take(t.len() as int) =~= rest.take(t.len() as int));
        assert forall|i: int| t.len() <= i < s.len() implies text::is_white(#[trigger] s[i]) by {
            if i < s.len() - 1 {
                assert(s[i] == rest[i]);
            }
        }
    } else {
        assert(s.take(s.len() as int) =~= s);
    }
}

/// What is left of a text between white space is a part of it, neither begins nor ends with
/// white space, and only white space was taken off.
pub proof fn law_trimming_takes_white_space_only(s: Seq<char>)
    ensures
        ({
            let t = text::trimmed(s);
            exists|a: int, b: int|
                #![trigger s.subrange(a, b)]
                0 <= a <= b <= s.len() && t == s.subrange(a, b) && (forall|i: int|
                    0 <= i < s.len() && !(a <= i < b) ==> text::is_white(#[trigger] s[i]))
        }),
        text::trimmed(s).len() > 0 ==> !text::is_white(text::trimmed(s)[0]) && !text::is_white(
            text::trimmed(s).last(),
        ),
{
    let u = text::trim_start(s);
    let t = text::trimmed(s);
    lemma_trim_start(s);
    lemma_trim_end(u);
    let a = s.len() - u.len();
    let b = a + t.len();
    assert(s.subrange(a, b) =~= u.take(t.len() as int));
    assert forall|i: int| 0 <= i < s.len() && !(a <= i < b) implies text::is_white(
        #[trigger] s[i],
    ) by {
        if i >= b {
            assert(s[i] == u[i - a]);
        }
    }
    if t.len() > 0 {
        assert(t[0] == u[0]);
    }
}

/// What is taken off the end of a text from the device tree are zeros only, all of them.
pub proof fn law_end_zeros_are_taken_off(s: Seq<char>)
    ensures
        text::without_end_nuls(s).len() <= s.len(),
        s.take(text::without_end_nuls(s).len() as int) == text::without_end_nuls(s),
        text::without_end_nuls(s).len() > 0 ==> text::without_end_nuls(s).last() as u32 != 0,
        forall|i: int|
            text::without_end_nuls(s).len() <= i < s.len() ==> (#[trigger] s[i]) as u32 == 0,
    decreases s.len(),
{
    if s.len() > 0 && s.last() as u32 == 0 {
        let rest = s.drop_last();
        law_end_zeros_are_taken_off(rest);
        let t = text::without_end_nuls(s);
        assert(s.take(t.len() as int) =~= rest.take(t.len() as int));
        assert forall|i: int| t.len() <= i < s.len() implies (#[trigger] s[i]) as u32 == 0 by {
            if i < s.len() - 1 {
                assert(s[i] == rest[i]);
            }
        }
    } else {
        assert(s.take(s.len() as int) =~= s);
    }
}

// ---------------------------------------------------------------------------
// Lines and words.

proof fn lemma_line_end_is(s: Seq<char>, from: int, to: int)
    requires
        0 <= from <= to <= s.len(),
        forall|k: int| from <= k < to ==> s[k] != '\n',
        to < s.len() ==> s[to] == '\n',
    ensures
        text::line_end(s, from) == to,
    decreases to - from,
{
    if from < to {
        lemma_line_end_is(s, from + 1, to);
    }
}

proof fn lemma_word_end_is(s: Seq<char>, from: int, to: int)
    requires
        0 <= from <= to <= s.len(),
        forall|k: int| from <= k < to ==> !text::is_white(s[k]),
        to < s.len() ==> text::is_white(s[to]),
    ensures
        text::word_end(s, from) == to,
    decreases to - from,
{
    if from < to {
        lemma_word_end_is(s, from + 1, to);
    }
}

/// A line feed ends a line, which does not hold it, nor a carriage return right before it;
/// the rest is split further.
pub proof fn law_lines_end_at_line_feeds(line: Seq<char>, rest: Seq<char>)
    requires
        forall|i: int| 0 <= i < line.len() ==> line[i] != '\n',
    ensures
        text::lines(line + seq!['\n'] + rest).len() > 0,
        text::lines(line + seq!['\n'] + rest).skip(1) == text::lines(rest),
        line.len() == 0 || line.last() != '\r' ==> text::lines(line + seq!['\n'] + rest)[0] == line,
        line.len() > 0 && line.last() == '\r' ==> text::lines(line + seq!['\n'] + rest)[0]
            == line.drop_last(),
        line.len() > 0 ==> text::lines(line) == seq![line],
        text::lines(Seq::empty()).len() == 0,
{
    let s = line + seq!['\n'] + rest;
    let n = line.len() as int;
    assert(s[n] == '\n');
    lemma_line_end_is(s, 0, n);
    assert(s.take(n) =~= line);
    assert(s.skip(n + 1) =~= rest);
    assert(text::lines(s).skip(1) =~= text::lines(rest));
    if line.len() > 0 {
        lemma_line_end_is(line, 0, n);
    }
}

/// Words stand between white space: one in front is passed over, and a word ends where white
/// space follows; the rest is split further.
pub proof fn law_words_stand_between_white_space(w: Seq<char>, c: char, rest: Seq<char>)
    requires
        text::is_white(c),
        w.len() > 0,
        forall|i: int| 0 <= i < w.len() ==> !text::is_white(w[i]),
    ensures
        text::words(seq![c] + rest) == text::words(rest),
        text::words(w) == seq![w],
        text::words(w + seq![c] + rest) == seq![w] + text::words(rest),
        text::words(Seq::empty()).len() == 0,
{
    assert((seq![c] + rest).skip(1) =~= rest);
    assert((seq![c] + rest)[0] == c);
    assert(text::words(seq![c] + rest) == text::words(rest));
    let n = w.len() as int;
    lemma_word_end_is(w, 0, n);
    assert(w.take(n) =~= w);
    assert(w.skip(n) =~= Seq::<char>::empty());
    assert(text::words(w.skip(n)) =~= Seq::<Seq<char>>::empty());
    assert(text::words(w) =~= seq![w]);
    let s = w + seq![c] + rest;
    assert(s[0] == w[0]);
    assert forall|k: int| 0 <= k < n implies !text::is_white(s[k]) by {
        assert(s[k] == w[k]);
    }
    assert(s[n] == c);
    lemma_word_end_is(s, 0, n);
    assert(s.take(n) =~= w);
    assert(s.skip(n) =~= seq![c] + rest);
    assert(text::words(s.skip(n)) == text::words(rest));
    assert(!text::is_white(s[0]));
    assert(text::words(s) == seq![s.take(n)] + text::words(s.skip(n)));
}

// ---------------------------------------------------------------------------
// Templates.

/// A place of a template is its name between two pairs of braces.
pub proof fn law_places_of_a_template(key: Seq<char>)
    ensures
        ({
            let p = system_config::placeholder(key);
            let n = p.len() as int;
            &&& n == key.len() + 4
            &&& p[0] == '{' && p[1] == '{' && p[n - 2] == '}' && p[n - 1] == '}'
            &&& p.subrange(2, n - 2) == key
        }),
{
    reveal_strlit("{{");
    reveal_strlit("}}");
    let p = system_config::placeholder(key);
    assert(p.subrange(2, p.len() - 2) =~= key);
}

proof fn lemma_first_occurrence_is(hay: Seq<char>, needle: Seq<char>, from: int, at: int)
    requires
        0 <= from <= at < hay.len(),
        text::occurs_at(hay, needle, at),
        forall|i: int| from <= i < at ==> !text::occurs_at(hay, needle, i),
    ensures
        text::first_occurrence(hay, needle, from) == at,
    decreases at - from,
{
    if from < at {
        lemma_first_occurrence_is(hay, needle, from + 1, at);
    }
}

/// The first place of a template is replaced by the value as it is; what stands before it
/// stays, and what stands behind it is looked through further, but not the value.
pub proof fn law_first_place_is_filled(
    before: Seq<char>,
    needle: Seq<char>,
    after: Seq<char>,
    with: Seq<char>,
)
    requires
        needle.len() > 0,
        forall|i: int|
            0 <= i < before.len() ==> !text::occurs_at(before + needle + after, needle, i),
    ensures
        text::replaced(before + needle + after, needle, with) == before + with + text::replaced(
            after,
            needle,
            with,
        ),
{
    let s = before + needle + after;
    let n = before.len() as int;
    assert(s.subrange(n, n + needle.len()) =~= needle);
    lemma_first_occurrence_is(s, needle, 0, n);
    assert(s.take(n) =~= before);
    assert(s.skip(n + needle.len()) =~= after);
}

/// Variables are put in one after the other, in their order.
pub proof fn law_variables_are_put_in_one_by_one(
    template: Seq<char>,
    vars: Seq<(Seq<char>, Seq<char>)>,
    key: Seq<char>,
    value: Seq<char>,
)
    ensures
        system_config::rendered(template, Seq::empty()) == template,
        system_config::rendered(template, vars.push((key, value))) == text::replaced(
            system_config::rendered(template, vars),
            system_config::placeholder(key),
            value,
        ),
{
    assert(vars.push((key, value)).drop_last() =~= vars);
}

/// What the access point is configured with. The radio is that of 5 GHz for the bands 5 and 6
/// and that of 2.4 GHz otherwise. Each generation of the wireless network from 4 on switches
/// its own mode on and those of the generations before it. The rest is what the settings say.
pub proof fn law_access_point_settings(c: WirelessSettings)
    ensures
        ({
            let v = system_config::hostapd_vars(c);
            let fast = c.band@ == "5"@ || c.band@ == "6"@;
            &&& v.len() == 9
            &&& v[0].0 == "HW_MODE"@ && (fast ==> v[0].1 == "a"@) && (!fast ==> v[0].1 == "g"@)
            &&& v[1].0 == "BE_MODE"@ && (c.wifi_version >= 7 ==> v[1].1 == "1"@) && (c.wifi_version
                < 7 ==> v[1].1 == "0"@)
            &&& v[2].0 == "AX_MODE"@ && (c.wifi_version >= 6 ==> v[2].1 == "1"@) && (c.wifi_version
                < 6 ==> v[2].1 == "0"@)
            &&& v[3].0 == "AC_MODE"@ && (c.wifi_version >= 5 ==> v[3].1 == "1"@) && (c.wifi_version
                < 5 ==> v[3].1 == "0"@)
            &&& v[4].0 == "N_MODE"@ && (c.wifi_version >= 4 ==> v[4].1 == "1"@) && (c.wifi_version
                < 4 ==> v[4].1 == "0"@)
            &&& v[5] == ("COUNTRY_CODE"@, c.country_code@)
            &&& v[6] == ("CHANNEL"@, text::decimal(c.channel as int))
            &&& v[7] == ("SSID"@, c.ssid@)
            &&& v[8] == ("WPA_PASSPHRASE"@, c.wpa_passphrase@)
        }),
{
}

/// The network to join is named, with its password, in double quotes.
pub proof fn law_station_settings(c: WirelessSettings)
    ensures
        ({
            let v = system_config::wpa_supplicant_vars(c);
            let n = c.ap_ssid@.len() as int;
            let m = c.ap_psw@.len() as int;
            &&& v.len() == 2 && v[0].0 == "STA_SSID"@ && v[1].0 == "STA_PWD"@
            &&& v[0].1.len() == n + 2 && v[0].1[0] == '"' && v[0].1[n + 1] == '"'
                && v[0].1.subrange(1, n + 1) == c.ap_ssid@
            &&& v[1].1.len() == m + 2 && v[1].1[0] == '"' && v[1].1[m + 1] == '"'
                && v[1].1.subrange(1, m + 1) == c.ap_psw@
        }),
{
    let v = system_config::wpa_supplicant_vars(c);
    assert(v[0].1.subrange(1, c.ap_ssid@.len() as int + 1) =~= c.ap_ssid@);
    assert(v[1].1.subrange(1, c.ap_psw@.len() as int + 1) =~= c.ap_psw@);
}

/// What names the USB device: the model in brackets where it is known, its serial number or
/// the usual one, and the build.
pub proof fn law_usb_names(model: Option<String>, serial: Option<String>, build: BuildInfo)
    ensures
        ({
            let v = system_config::usb_vars(model, serial, build);
            &&& v.len() == 3 && v[0].0 == "MODEL"@ && v[1].0 == "SERIAL"@ && v[2].0
                == "FIRMWARE_VER"@
            &&& model is None ==> v[0].1.len() == 0
            &&& model matches Some(m) ==> v[0].1 == " ("@ + m@ + ")"@
            &&& serial matches Some(s) ==> v[1].1 == s@
            &&& serial is None ==> v[1].1 == "0123456"@
            &&& v[2].1 == build.build_date@ + ", git: "@ + build.git_date@ + "-"@ + build.git_hash@
        }),
{
}

/// The access point is started by a file with a line that names it and is no comment, wherever
/// that line stands; lines that begin with a hash sign, after white space or not, do not count.
pub proof fn law_lines_that_start_the_access_point(content: Seq<char>, line: Seq<char>, i: int)
    requires
        0 <= i < text::lines(content).len(),
        text::lines(content)[i] == line,
    ensures
        text::holds(text::trimmed(line), "hostapd"@) && text::trimmed(line)[0] != '#'
            ==> system_config::starts_hostapd(content),
        text::trimmed(line).len() > 0 && text::trimmed(line)[0] == '#'
            ==> !system_config::names_hostapd(line),
        !text::holds(text::trimmed(line), "hostapd"@) ==> !system_config::names_hostapd(line),
{
    if text::holds(text::trimmed(line), "hostapd"@) && text::trimmed(line)[0] != '#' {
        assert(system_config::names_hostapd(text::lines(content)[i]));
    }
}

} // verus!
