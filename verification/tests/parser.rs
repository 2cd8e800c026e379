use mightybadger::btparse::parse;
use mightybadger::btparse::trim_backtrace;
use mightybadger::btparse::BacktraceLine;

fn line(method: &str, file: Option<&str>, num: Option<u32>) -> BacktraceLine {
    BacktraceLine {
        line: num,
        file: file.map(|f| f.to_string()),
        method: method.to_string(),
    }
}

#[test]
fn parse_method_location_pairs() {
    let trace = "stack backtrace:\n\
                 0: app::main\n\
                 at src/main.rs:42\n\
                 1: app::helper\n\
                 at src/lib.rs:7\n";
    let frames = parse(trace);
    assert_eq!(frames.len(), 2);
    assert_eq!(frames[0].method, "app::main");
    assert_eq!(frames[0].file.as_deref(), Some("src/main.rs"));
    assert_eq!(frames[0].line, Some(42));
    assert_eq!(frames[1].method, "app::helper");
    assert_eq!(frames[1].file.as_deref(), Some("src/lib.rs"));
    assert_eq!(frames[1].line, Some(7));
}

#[test]
fn parse_method_without_location() {
    let frames = parse("app::main\n");
    assert_eq!(frames.len(), 1);
    assert_eq!(frames[0].method, "app::main");
    assert_eq!(frames[0].file, None);
    assert_eq!(frames[0].line, None);
}

#[test]
fn parse_strips_noise_tokens() {
    let trace = "  12:     0x7f3aa2b4c5d6 - core::fmt::write\n\
                 \t at /rustc/abc/library/core/src/fmt/mod.rs:1194\n";
    let frames = parse(trace);
    assert_eq!(frames.len(), 1);
    assert_eq!(frames[0].method, "core::fmt::write");
    assert_eq!(
        frames[0].file.as_deref(),
        Some("/rustc/abc/library/core/src/fmt/mod.rs")
    );
    assert_eq!(frames[0].line, Some(1194));
}

#[test]
fn parse_skips_banner_and_blank_lines() {
    let trace = "stack backtrace:\n\n   \nfoo::bar\n";
    let frames = parse(trace);
    assert_eq!(frames.len(), 1);
    assert_eq!(frames[0].method, "foo::bar");
}

#[test]
fn parse_bad_line_number_defaults_to_one() {
    let frames = parse("foo::bar\nat src/main.rs:xyz\n");
    assert_eq!(frames.len(), 1);
    assert_eq!(frames[0].file.as_deref(), Some("src/main.rs"));
    assert_eq!(frames[0].line, Some(1));
}

#[test]
fn parse_location_without_colon_is_whole_file() {
    let frames = parse("foo::bar\nat src-main-rs\n");
    assert_eq!(frames.len(), 1);
    assert_eq!(frames[0].file.as_deref(), Some("src-main-rs"));
    assert_eq!(frames[0].line, Some(1));
}

#[test]
fn parse_uses_rightmost_colon() {
    let frames = parse("foo::bar\nat c:dir/file.rs:12\n");
    assert_eq!(frames.len(), 1);
    assert_eq!(frames[0].file.as_deref(), Some("c:dir/file.rs"));
    assert_eq!(frames[0].line, Some(12));
}

#[test]
fn parse_overflowing_line_number_defaults_to_one() {
    let frames = parse("foo::bar\nat f.rs:99999999999999999999\n");
    assert_eq!(frames.len(), 1);
    assert_eq!(frames[0].line, Some(1));
}

#[test]
fn trim_drops_through_last_denylisted_frame() {
    let mut frames = vec![
        line("std::panicking::begin_panic::h00", None, None),
        line("core::panicking::panic::h11", None, None),
        line("app::main", Some("src/main.rs"), Some(3)),
        line("app::outer", Some("src/main.rs"), Some(9)),
    ];
    trim_backtrace(&mut frames);
    assert_eq!(frames.len(), 2);
    assert_eq!(frames[0].method, "app::main");
    assert_eq!(frames[1].method, "app::outer");
}

#[test]
fn trim_keeps_everything_without_match() {
    let mut frames = vec![
        line("app::main", Some("src/main.rs"), Some(3)),
        line("app::outer", None, None),
    ];
    trim_backtrace(&mut frames);
    assert_eq!(frames.len(), 2);
    assert_eq!(frames[0].method, "app::main");
    assert_eq!(frames[1].method, "app::outer");
}

#[test]
fn trim_scans_from_the_bottom() {
    let mut frames = vec![
        line("app::first", None, None),
        line("<core::option::Option<T>>::unwrap::h22", None, None),
        line("app::second", None, None),
    ];
    trim_backtrace(&mut frames);
    assert_eq!(frames.len(), 1);
    assert_eq!(frames[0].method, "app::second");
}

#[test]
fn trim_everything_when_last_frame_matches() {
    let mut frames = vec![
        line("app::first", None, None),
        line("failure::backtrace::Backtrace::new::h33", None, None),
    ];
    trim_backtrace(&mut frames);
    assert_eq!(frames.len(), 0);
}

#[test]
fn parse_empty_trace_yields_no_entries() {
    assert_eq!(parse("").len(), 0);
    assert_eq!(parse("stack backtrace:\n").len(), 0);
}

#[test]
fn parse_location_without_method_is_discarded() {
    // a location line with no buffered method line has nothing to attach to
    let frames = parse("at src/main.rs:3\n");
    assert_eq!(frames.len(), 0);
}
