use mightybadger::plugin::plugin_continue;
use mightybadger::plugin::winning_plugin;
use mightybadger::plugin::PluginOutcome;
use mightybadger::strutil::contains_str;
use mightybadger::strutil::parse_line_num;
use mightybadger::strutil::parse_u16;
use mightybadger::strutil::split_char;
use mightybadger::strutil::trim_str;
use mightybadger::strutil::u32_to_string;

#[test]
fn line_numbers_parse_or_default() {
    assert_eq!(parse_line_num("42"), 42);
    assert_eq!(parse_line_num("0"), 0);
    assert_eq!(parse_line_num(""), 1);
    assert_eq!(parse_line_num("4x2"), 1);
    assert_eq!(parse_line_num("4294967295"), 4294967295);
    assert_eq!(parse_line_num("4294967296"), 1);
}

#[test]
fn ports_parse_or_fail() {
    assert_eq!(parse_u16("443"), Some(443));
    assert_eq!(parse_u16("65535"), Some(65535));
    assert_eq!(parse_u16("65536"), None);
    assert_eq!(parse_u16(""), None);
    assert_eq!(parse_u16("8a"), None);
}

#[test]
fn decimal_rendering() {
    assert_eq!(u32_to_string(0), "0");
    assert_eq!(u32_to_string(7), "7");
    assert_eq!(u32_to_string(12345), "12345");
    assert_eq!(u32_to_string(4294967295), "4294967295");
}

#[test]
fn trimming_and_splitting() {
    assert_eq!(trim_str("  a b \t"), "a b");
    assert_eq!(trim_str(""), "");
    let pieces = split_char("a,b,,c", ',');
    assert_eq!(pieces, vec!["a", "b", "", "c"]);
    let one = split_char("abc", ',');
    assert_eq!(one, vec!["abc"]);
}

#[test]
fn substring_search() {
    assert!(contains_str("HTTP_AUTHORIZATION", "AUTH"));
    assert!(contains_str("abc", ""));
    assert!(!contains_str("abc", "abcd"));
    assert!(contains_str("abc", "abc"));
}

#[test]
fn first_claiming_plugin_wins() {
    assert_eq!(winning_plugin(&vec![]), None);
    assert_eq!(
        winning_plugin(&vec![PluginOutcome::Declined, PluginOutcome::Failed]),
        None
    );
    assert_eq!(
        winning_plugin(&vec![
            PluginOutcome::Declined,
            PluginOutcome::Claimed,
            PluginOutcome::Claimed,
        ]),
        Some(1)
    );
}

#[test]
fn failed_plugins_are_skipped_not_fatal() {
    assert!(plugin_continue(PluginOutcome::Declined));
    assert!(plugin_continue(PluginOutcome::Failed));
    assert!(!plugin_continue(PluginOutcome::Claimed));
}
