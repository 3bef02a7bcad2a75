//! What is read from the store, and which texts are port numbers.
use vstd::prelude::*;
use crate::config::{Config, Saved, Setting};
use crate::decimal;

verus! {

/// So many zeros.
pub open spec fn zeros(n: nat) -> Seq<char> {
    Seq::new(n, |i: int| '0')
}

/// A text for a port number: perhaps a plus sign, so many zeros, and the numeral.
pub open spec fn port_text(plus: bool, n: nat, port: u16) -> Seq<char> {
    let digits = zeros(n) + decimal::numeral(port as nat);
    if plus {
        seq!['+'] + digits
    } else {
        digits
    }
}

/// Leading zeros do not count.
proof fn lemma_zeros_do_not_count(n: nat, text: Seq<char>)
    ensures
        decimal::digits_value(zeros(n) + text) == decimal::digits_value(text),
    decreases n + text.len(),
{
    let whole = zeros(n) + text;
    if text.len() > 0 {
        assert(whole.drop_last() =~= zeros(n) + text.drop_last());
        lemma_zeros_do_not_count(n, text.drop_last());
    } else if n > 0 {
        assert(whole.drop_last() =~= zeros((n - 1) as nat) + text);
        lemma_zeros_do_not_count((n - 1) as nat, text);
    } else {
        assert(whole =~= text);
    }
}

/// Every text of digits is the numeral of its value, behind some zeros.
proof fn lemma_digits_are_a_numeral(text: Seq<char>) -> (n: nat)
    requires
        text.len() > 0,
        decimal::all_digits(text),
    ensures
        text == zeros(n) + decimal::numeral(decimal::digits_value(text)),
    decreases text.len(),
{
    let c = text.last();
    let d = (c as int - 48) as nat;
    let rest = text.drop_last();
    assert(decimal::is_digit(text[text.len() - 1]));
    assert(decimal::digit_char(d as int) == c);
    if text.len() == 1 {
        assert(rest =~= Seq::<char>::empty());
        assert(decimal::digits_value(Seq::<char>::empty()) == 0);
        assert(text =~= zeros(0) + decimal::numeral(d));
        0
    } else {
        assert forall|i: int| 0 <= i < rest.len() implies decimal::is_digit(#[trigger] rest[i]) by {
            assert(rest[i] == text[i]);
        }
        let n = lemma_digits_are_a_numeral(rest);
        let v = decimal::digits_value(rest);
        if v == 0 {
            assert(decimal::numeral(0) =~= seq!['0']);
            assert(text =~= rest.push(c));
            assert(text =~= zeros(n + 1) + decimal::numeral(d));
            n + 1
        } else {
            assert((v * 10 + d) / 10 == v && (v * 10 + d) % 10 == d);
            assert(decimal::numeral(v * 10 + d) == decimal::numeral(v).push(c));
            assert(text =~= rest.push(c));
            assert(text =~= zeros(n) + decimal::numeral(v * 10 + d));
            n
        }
    }
}

/// The texts that give a port number are just its numeral, behind any number of zeros, behind a
/// plus sign or none. Every other text gives none.
pub proof fn law_port_texts(text: Seq<char>, port: u16)
    ensures
        decimal::port_of(text) == Some(port) <==> exists|plus: bool, n: nat|
            text == #[trigger] port_text(plus, n, port),
{
    if decimal::port_of(text) == Some(port) {
        let digits = decimal::without_plus(text);
        let n = lemma_digits_are_a_numeral(digits);
        let plus = text.len() > 0 && text[0] == '+';
        if plus {
            assert(text =~= seq!['+'] + digits);
        }
        assert(text == port_text(plus, n, port));
    }
    if exists|plus: bool, n: nat| text == #[trigger] port_text(plus, n, port) {
        let (plus, n) = choose|plus: bool, n: nat| text == #[trigger] port_text(plus, n, port);
        let digits = zeros(n) + decimal::numeral(port as nat);
        decimal::lemma_numeral_stands_for_its_number(port as nat);
        lemma_zeros_do_not_count(n, decimal::numeral(port as nat));
        assert forall|i: int| 0 <= i < digits.len() implies decimal::is_digit(
            #[trigger] digits[i],
        ) by {
            if i >= n {
                assert(digits[i] == decimal::numeral(port as nat)[i - n]);
            }
        }
        assert(decimal::is_digit(digits[0]));
        assert(decimal::without_plus(text) =~= digits);
    }
}

/// Numerals are made of digits, have no leading zeros but for zero itself, and a number of ten
/// times the size has one digit more.
pub proof fn law_numerals(n: nat)
    ensures
        decimal::numeral(n).len() > 0,
        decimal::all_digits(decimal::numeral(n)),
        decimal::digits_value(decimal::numeral(n)) == n,
        decimal::numeral(n)[0] == '0' ==> n == 0,
        n > 0 ==> decimal::numeral(10 * n) == decimal::numeral(n).push('0'),
    decreases n,
{
    decimal::lemma_numeral_stands_for_its_number(n);
    if n >= 10 {
        law_numerals(n / 10);
        assert(decimal::numeral(n)[0] == decimal::numeral(n / 10)[0]);
    }
    if n > 0 {
        assert((10 * n) / 10 == n && (10 * n) % 10 == 0);
        assert(decimal::digit_char(0) == '0');
    }
}

/// A digit more at the end of a numeral is a number ten times as large, and that digit more.
pub proof fn law_numerals_grow_by_digits(n: nat, digit: nat)
    requires
        n > 0,
        digit < 10,
    ensures
        decimal::numeral(10 * n + digit) == decimal::numeral(n) + decimal::numeral(digit),
{
    assert((10 * n + digit) / 10 == n && (10 * n + digit) % 10 == digit);
    assert(decimal::numeral(10 * n + digit) =~= decimal::numeral(n) + decimal::numeral(digit));
}

/// The ten digits.
pub proof fn law_digits(digit: nat)
    requires
        digit < 10,
    ensures
        decimal::numeral(digit) == seq!["0123456789"@[digit as int]],
{
    reveal_strlit("0123456789");
}

/// Different numbers have different numerals.
pub proof fn law_numerals_are_told_apart(one: nat, other: nat)
    requires
        decimal::numeral(one) == decimal::numeral(other),
    ensures
        one == other,
{
    law_numerals(one);
    law_numerals(other);
}

/// The numeral of a negative number is that of its opposite behind a minus sign; other numbers
/// have no sign.
pub proof fn law_signed_numerals(n: nat)
    ensures
        decimal::signed_numeral(n as int) == decimal::numeral(n),
        n > 0 ==> decimal::signed_numeral(-(n as int)).len() == decimal::numeral(n).len() + 1,
        n > 0 ==> decimal::signed_numeral(-(n as int))[0] == '-',
        n > 0 ==> decimal::signed_numeral(-(n as int)).drop_first() == decimal::numeral(n),
{
    if n > 0 {
        assert(decimal::signed_numeral(-(n as int)).drop_first() =~= decimal::numeral(n));
    }
}

/// Whatever text is stored for the directory or the address is taken as it is, and for the port
/// where it gives a port number; each changes its own setting alone. A text for the port that
/// gives none is as good as none.
pub proof fn law_stored_texts_are_taken(stored: Map<Setting, Seq<char>>, text: Seq<char>)
    ensures
        ({
            let before = crate::config::restored(stored);
            let dir = crate::config::restored(stored.insert(Setting::ScriptDir, text));
            let url = crate::config::restored(stored.insert(Setting::ServerUrl, text));
            let port = crate::config::restored(stored.insert(Setting::IntegrationPort, text));
            let none = crate::config::restored(stored.remove(Setting::IntegrationPort));
            &&& dir.cs_script_dir == Some(text)
            &&& dir.buttplug_server_url == before.buttplug_server_url
            &&& dir.cs_integration_port == before.cs_integration_port
            &&& url.buttplug_server_url == text
            &&& url.cs_script_dir == before.cs_script_dir
            &&& url.cs_integration_port == before.cs_integration_port
            &&& port.buttplug_server_url == before.buttplug_server_url
            &&& port.cs_script_dir == before.cs_script_dir
            &&& decimal::port_of(text) is Some ==> Some(port.cs_integration_port)
                == decimal::port_of(text)
            &&& decimal::port_of(text) is None ==> port == none
        }),
{
}

/// A setting for which nothing is stored is what it is by default.
pub proof fn law_what_is_not_stored_is_default(stored: Map<Setting, Seq<char>>)
    ensures
        ({
            let restored = crate::config::restored(stored);
            let default = crate::config::restored(Map::empty());
            &&& !stored.dom().contains(Setting::ScriptDir) ==> restored.cs_script_dir is None
            &&& !stored.dom().contains(Setting::ServerUrl) ==> restored.buttplug_server_url
                == default.buttplug_server_url
            &&& !stored.dom().contains(Setting::IntegrationPort) ==> restored.cs_integration_port
                == default.cs_integration_port
        }),
{
}

/// By default no directory has been picked, scripts are looked for where the game is usually
/// installed, and the address and the port are the usual ones.
pub proof fn law_defaults()
    ensures
        crate::config::default_config().cs_script_dir is None,
        crate::config::default_config().buttplug_server_url == "ws://127.0.0.1:12345"@,
        crate::config::default_config().cs_integration_port == 42069,
        crate::config::DEFAULT_GAME_DIR@
            == "C:\\Program Files (x86)\\Steam\\steamapps\\common\\Counter-Strike Global Offensive\\game\\csgo\\cfg"@,
{
}

/// The settings read as they are.
pub proof fn law_settings_read_as_they_are(config: Config)
    ensures
        config@.buttplug_server_url == config.buttplug_server_url@,
        config@.cs_integration_port == config.cs_integration_port,
        config@.cs_script_dir is Some <==> config.cs_script_dir is Some,
        config.cs_script_dir is Some ==> config@.cs_script_dir->0 == config.cs_script_dir->0@,
{
}

/// What is to be stored reads as it is.
pub proof fn law_saved_texts_read_as_they_are(save: Saved)
    ensures
        crate::config::saved(Some(save)) == Some((save.setting, save.text@)),
        crate::config::saved(None) is None,
{
}

/// Each of three texts counts for its own setting, and a text that is missing for none.
pub proof fn law_texts_are_stored_for_their_settings(
    dir: Option<String>,
    port: Option<String>,
    url: Option<String>,
)
    ensures
        ({
            let stored = crate::config::store_of(dir, port, url);
            &&& stored.dom().contains(Setting::ScriptDir) <==> dir is Some
            &&& stored.dom().contains(Setting::IntegrationPort) <==> port is Some
            &&& stored.dom().contains(Setting::ServerUrl) <==> url is Some
            &&& dir is Some ==> stored[Setting::ScriptDir] == dir->0@
            &&& port is Some ==> stored[Setting::IntegrationPort] == port->0@
            &&& url is Some ==> stored[Setting::ServerUrl] == url->0@
        }),
{
}

/// What is stored can be read again, and nothing else in the store changes.
pub proof fn law_store_keeps_what_it_is_given(
    stored: Map<Setting, Seq<char>>,
    setting: Setting,
    text: Seq<char>,
    other: Setting,
)
    ensures
        ({
            let after = crate::config::stored_after(stored, Some((setting, text)));
            &&& after.dom().contains(setting)
            &&& after[setting] == text
            &&& other != setting ==> (after.dom().contains(other) <==> stored.dom().contains(other))
            &&& other != setting ==> after[other] == stored[other]
        }),
        crate::config::stored_after(stored, None) == stored,
{
}

} // verus!
