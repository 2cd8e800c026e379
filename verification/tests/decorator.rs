use mightybadger::btparse::decorate;
use mightybadger::btparse::parse_and_decorate;
use mightybadger::btparse::BacktraceLine;

fn file_lines(n: u32) -> Vec<String> {
    (1..=n).map(|i| format!("line {}", i)).collect()
}

fn catalog(name: &str, n: u32) -> Vec<(String, Vec<String>)> {
    vec![(name.to_string(), file_lines(n))]
}

fn frame(method: &str, file: &str, num: u32) -> BacktraceLine {
    BacktraceLine {
        line: Some(num),
        file: Some(file.to_string()),
        method: method.to_string(),
    }
}

#[test]
fn window_around_middle_line() {
    let cat = catalog("src/a.rs", 10);
    let entries = decorate(vec![frame("m", "src/a.rs", 5)], &cat);
    assert_eq!(entries.len(), 1);
    let source = entries[0].source.as_ref().unwrap();
    let keys: Vec<u32> = source.iter().map(|p| p.0).collect();
    assert_eq!(keys, vec![3, 4, 5, 6, 7]);
    assert_eq!(source[0].1, "line 3");
    assert_eq!(source[4].1, "line 7");
    assert_eq!(entries[0].number.as_deref(), Some("5"));
    assert_eq!(entries[0].file.as_deref(), Some("src/a.rs"));
}

#[test]
fn window_clipped_at_file_start() {
    let cat = catalog("src/a.rs", 10);
    let entries = decorate(vec![frame("m", "src/a.rs", 1)], &cat);
    let source = entries[0].source.as_ref().unwrap();
    let keys: Vec<u32> = source.iter().map(|p| p.0).collect();
    assert_eq!(keys, vec![1, 2, 3]);
}

#[test]
fn window_clipped_at_file_end() {
    let cat = catalog("src/a.rs", 6);
    let entries = decorate(vec![frame("m", "src/a.rs", 5)], &cat);
    let source = entries[0].source.as_ref().unwrap();
    let keys: Vec<u32> = source.iter().map(|p| p.0).collect();
    assert_eq!(keys, vec![3, 4, 5, 6]);
}

#[test]
fn missing_file_yields_no_source() {
    let cat = catalog("src/other.rs", 10);
    let entries = decorate(vec![frame("m", "src/a.rs", 5)], &cat);
    assert!(entries[0].source.is_none());
    assert_eq!(entries[0].number.as_deref(), Some("5"));
}

#[test]
fn frame_without_location_passes_through() {
    let cat = catalog("src/a.rs", 10);
    let entries = decorate(
        vec![BacktraceLine { line: None, file: None, method: "m".to_string() }],
        &cat,
    );
    assert_eq!(entries[0].number, None);
    assert_eq!(entries[0].file, None);
    assert!(entries[0].source.is_none());
    assert_eq!(entries[0].method, "m");
}

#[test]
fn parse_and_decorate_full_pipeline() {
    let trace = "std::panicking::begin_panic::h0\n\
                 at panicking.rs:1\n\
                 app::main\n\
                 at src/a.rs:2\n";
    let cat = catalog("src/a.rs", 8);
    let entries = parse_and_decorate(trace, &cat);
    assert_eq!(entries.len(), 1);
    assert_eq!(entries[0].method, "app::main");
    let source = entries[0].source.as_ref().unwrap();
    let keys: Vec<u32> = source.iter().map(|p| p.0).collect();
    assert_eq!(keys, vec![1, 2, 3, 4]);
}
