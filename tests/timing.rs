use std::collections::HashMap;

use timed_core::level::{instrument_label, instrument_level, level_from_name, TraceLevel};
use timed_core::output::{eq_ignore_ascii_case, output_from_trimmed};
use timed_core::row::{csv_record, format_millis};
use timed_core::store::{get_output, record_timing, refresh_from_env, set_output, OutputStore, SinkAction};
use timed_core::{read_output, Output, TIMED_OUTPUT_ENV};

type Files = HashMap<String, Vec<u8>>;

/// Performs an action on an in-memory file system, as a caller would on disk.
fn apply(files: &mut Files, action: &SinkAction, log: &mut Vec<String>) {
    match action {
        SinkAction::Skip => {}
        SinkAction::Log(message) => log.push(String::from_utf8(message.clone()).unwrap()),
        SinkAction::Create { path, contents } => {
            files.insert(path.clone(), contents.clone());
        }
        SinkAction::Append { path, contents } => {
            if let Some(file) = files.get_mut(path) {
                file.extend_from_slice(contents);
            }
        }
    }
}

fn set(store: &mut OutputStore, output: Output, files: &mut Files, log: &mut Vec<String>) {
    let action = set_output(store, output);
    apply(files, &action, log);
}

fn refresh(store: &mut OutputStore, seed: Option<&str>, files: &mut Files, log: &mut Vec<String>) {
    let action = refresh_from_env(store, seed);
    apply(files, &action, log);
}

/// The two instrumented functions of the examples: 100 ms and 50 ms.
fn run_instrumented(store: &OutputStore, files: &mut Files, log: &mut Vec<String>) {
    let a = record_timing(store, "test_function_default_level", 100_000);
    apply(files, &a, log);
    let b = record_timing(store, "test_function_debug_level", 50_000);
    apply(files, &b, log);
}

fn verify_csv_file(files: &Files, filename: &str) {
    let content = String::from_utf8(files.get(filename).expect("CSV file wasn't created").clone()).unwrap();
    assert!(content.contains("function") && content.contains("duration_ms"));
    assert!(
        content.contains("test_function_default_level") || content.contains("test_function_debug_level")
    );
}

fn fresh() -> (OutputStore, Files, Vec<String>) {
    let (store, action) = OutputStore::from_seed(None);
    assert_eq!(action, SinkAction::Skip);
    (store, HashMap::new(), Vec::new())
}

#[test]
fn test_default_output_is_off() {
    let (mut store, mut files, mut log) = fresh();
    let test_file = "test_default_is_off.csv";
    assert_eq!(get_output(&store), Output::Off, "Default output should be Off");
    set(&mut store, Output::Off, &mut files, &mut log);
    assert_eq!(get_output(&store), Output::Off, "Default output should be Off");
    run_instrumented(&store, &mut files, &mut log);
    assert!(!files.contains_key(test_file));
    assert!(files.is_empty());
    assert!(log.is_empty());
}

#[test]
fn test_explicit_off_output() {
    let (mut store, mut files, mut log) = fresh();
    let test_file = "test_explicit_off.csv";
    set(&mut store, Output::Off, &mut files, &mut log);
    run_instrumented(&store, &mut files, &mut log);
    assert!(
        !files.contains_key(test_file),
        "CSV file was created when output was Off, but shouldn't have been"
    );
}

#[test]
fn test_tracing_output() {
    let (mut store, mut files, mut log) = fresh();
    let test_file = "test_tracing.csv";
    set(&mut store, Output::Tracing, &mut files, &mut log);
    run_instrumented(&store, &mut files, &mut log);
    assert!(
        !files.contains_key(test_file),
        "CSV file was created when using Tracing output, but shouldn't have been"
    );
    assert_eq!(
        log,
        vec![
            "test_function_default_level executed in 100.000 ms".to_string(),
            "test_function_debug_level executed in 50.000 ms".to_string(),
        ]
    );
}

#[test]
fn test_csv_output() {
    let (mut store, mut files, mut log) = fresh();
    let test_file = "test_csv_output.csv";
    set(&mut store, Output::CSV(test_file.to_string()), &mut files, &mut log);
    run_instrumented(&store, &mut files, &mut log);
    verify_csv_file(&files, test_file);
    assert_eq!(
        files[test_file],
        b"function,duration_ms\ntest_function_default_level,100.000\ntest_function_debug_level,50.000\n".to_vec()
    );
}

#[test]
fn test_env_var_off() {
    let (mut store, mut files, mut log) = fresh();
    let test_file = "test_env_var_off.csv";
    refresh(&mut store, Some("off"), &mut files, &mut log);
    run_instrumented(&store, &mut files, &mut log);
    assert!(
        !files.contains_key(test_file),
        "CSV file was created when env var was Off, but shouldn't have been"
    );
}

#[test]
fn test_env_var_tracing() {
    let (mut store, mut files, mut log) = fresh();
    let test_file = "test_env_var_tracing.csv";
    refresh(&mut store, Some("tracing"), &mut files, &mut log);
    assert_eq!(get_output(&store), Output::Tracing);
    run_instrumented(&store, &mut files, &mut log);
    assert!(
        !files.contains_key(test_file),
        "CSV file was created when env var was Tracing, but shouldn't have been"
    );
}

#[test]
fn test_env_var_csv() {
    let (mut store, mut files, mut log) = fresh();
    let test_file = "test_env_var_csv.csv";
    refresh(&mut store, Some(test_file), &mut files, &mut log);
    set(&mut store, Output::CSV(test_file.to_string()), &mut files, &mut log);
    run_instrumented(&store, &mut files, &mut log);
    verify_csv_file(&files, test_file);
}

#[test]
fn env_variable_name() {
    assert_eq!(TIMED_OUTPUT_ENV, "TIMED_OUTPUT");
}

#[test]
fn get_after_set_returns_what_was_set() {
    let (mut store, mut files, mut log) = fresh();
    let sequence = vec![
        Output::Tracing,
        Output::CSV("a.csv".to_string()),
        Output::Off,
        Output::CSV("b.csv".to_string()),
        Output::Tracing,
    ];
    for d in sequence {
        refresh(&mut store, Some("x.csv"), &mut files, &mut log);
        set(&mut store, d.clone(), &mut files, &mut log);
        assert_eq!(get_output(&store), d);
    }
}

#[test]
fn selecting_csv_writes_exactly_the_header() {
    let (mut store, mut files, mut log) = fresh();
    files.insert("h.csv".to_string(), b"stale,data\n".to_vec());
    set(&mut store, Output::CSV("h.csv".to_string()), &mut files, &mut log);
    assert_eq!(files["h.csv"], b"function,duration_ms\n".to_vec());
    let (seeded, action) = OutputStore::from_seed(Some("seeded.csv"));
    assert_eq!(get_output(&seeded), Output::CSV("seeded.csv".to_string()));
    assert_eq!(
        action,
        SinkAction::Create { path: "seeded.csv".to_string(), contents: b"function,duration_ms\n".to_vec() }
    );
}

#[test]
fn disabled_output_records_nothing() {
    let (store, _, _) = fresh();
    assert_eq!(record_timing(&store, "f", 12_345), SinkAction::Skip);
}

#[test]
fn n_records_give_n_plus_one_lines() {
    let (mut store, mut files, mut log) = fresh();
    set(&mut store, Output::CSV("n.csv".to_string()), &mut files, &mut log);
    let n = 7u64;
    for i in 0..n {
        let a = record_timing(&store, "work", i * 1001);
        apply(&mut files, &a, &mut log);
    }
    let content = String::from_utf8(files["n.csv"].clone()).unwrap();
    let lines: Vec<&str> = content.lines().collect();
    assert_eq!(lines.len() as u64, n + 1);
    assert_eq!(lines[0], "function,duration_ms");
    for line in &lines[1..] {
        let fields: Vec<&str> = line.split(',').collect();
        assert_eq!(fields.len(), 2);
        let (whole, frac) = fields[1].split_once('.').unwrap();
        assert!(!whole.is_empty() && whole.bytes().all(|b| b.is_ascii_digit()));
        assert_eq!(frac.len(), 3);
        assert!(frac.bytes().all(|b| b.is_ascii_digit()));
        let value: f64 = fields[1].parse().unwrap();
        assert!(value >= 0.0);
    }
    assert_eq!(lines[3], "work,2.002");
}

#[test]
fn switching_destinations_never_mixes_rows() {
    let (mut store, mut files, mut log) = fresh();
    let _ = record_timing(&store, "off_row", 1);
    set(&mut store, Output::Tracing, &mut files, &mut log);
    let t = record_timing(&store, "log_row", 2);
    apply(&mut files, &t, &mut log);
    set(&mut store, Output::CSV("a.csv".to_string()), &mut files, &mut log);
    let x = record_timing(&store, "a_row", 3);
    apply(&mut files, &x, &mut log);
    set(&mut store, Output::CSV("b.csv".to_string()), &mut files, &mut log);
    let y = record_timing(&store, "b_row", 4);
    apply(&mut files, &y, &mut log);
    assert_eq!(files["a.csv"], b"function,duration_ms\na_row,0.003\n".to_vec());
    assert_eq!(files["b.csv"], b"function,duration_ms\nb_row,0.004\n".to_vec());
    assert_eq!(log, vec!["log_row executed in 0.002 ms".to_string()]);
    assert_eq!(files.len(), 2);
}

#[test]
fn append_to_missing_file_is_skipped() {
    let (mut store, mut files, mut log) = fresh();
    set(&mut store, Output::CSV("gone.csv".to_string()), &mut files, &mut log);
    files.remove("gone.csv");
    let a = record_timing(&store, "late", 5);
    assert_eq!(a, SinkAction::Append { path: "gone.csv".to_string(), contents: b"late,0.005\n".to_vec() });
    apply(&mut files, &a, &mut log);
    assert!(files.is_empty());
}

#[test]
fn refresh_follows_the_seed() {
    let (mut store, mut files, mut log) = fresh();
    refresh(&mut store, Some("off"), &mut files, &mut log);
    assert_eq!(get_output(&store), Output::Off);
    refresh(&mut store, Some(""), &mut files, &mut log);
    assert_eq!(get_output(&store), Output::Off);
    refresh(&mut store, Some("TRACING"), &mut files, &mut log);
    assert_eq!(get_output(&store), Output::Tracing);
    refresh(&mut store, Some("out.csv"), &mut files, &mut log);
    assert_eq!(get_output(&store), Output::CSV("out.csv".to_string()));
    assert_eq!(files["out.csv"], b"function,duration_ms\n".to_vec());
    refresh(&mut store, None, &mut files, &mut log);
    assert_eq!(get_output(&store), Output::Off);
}

#[test]
fn seeds_are_trimmed_and_case_insensitive() {
    assert_eq!(read_output(Some("  Tracing \n")), Output::Tracing);
    assert_eq!(read_output(Some(" OFF ")), Output::Off);
    assert_eq!(read_output(Some("   ")), Output::Off);
    assert_eq!(read_output(Some("\t dir/Out.CSV  ")), Output::CSV("dir/Out.CSV".to_string()));
    assert_eq!(read_output(Some("tracing.csv")), Output::CSV("tracing.csv".to_string()));
    assert_eq!(read_output(None), Output::Off);
}

#[test]
fn trimmed_seed_is_read_verbatim() {
    assert_eq!(output_from_trimmed("tRaCiNg"), Output::Tracing);
    assert_eq!(output_from_trimmed(""), Output::Off);
    assert_eq!(output_from_trimmed(" off"), Output::CSV(" off".to_string()));
}

#[test]
fn ascii_case_comparison() {
    assert!(eq_ignore_ascii_case("OfF", "off"));
    assert!(!eq_ignore_ascii_case("of", "off"));
    assert!(!eq_ignore_ascii_case("ofg", "off"));
    assert!(eq_ignore_ascii_case("", ""));
    assert!(!eq_ignore_ascii_case("é", "É"));
}

#[test]
fn millis_have_three_fractional_digits() {
    assert_eq!(format_millis(0), b"0.000".to_vec());
    assert_eq!(format_millis(7), b"0.007".to_vec());
    assert_eq!(format_millis(1_234_567), b"1234.567".to_vec());
    assert_eq!(format_millis(100_000), b"100.000".to_vec());
    assert_eq!(format_millis(u64::MAX), b"18446744073709551.615".to_vec());
}

#[test]
fn csv_fields_are_quoted_where_needed() {
    assert_eq!(csv_record(b"a", b"b"), b"a,b\n".to_vec());
    assert_eq!(csv_record(b"x,y", b"1.000"), b"\"x,y\",1.000\n".to_vec());
    assert_eq!(csv_record(b"say \"hi\"", b"2"), b"\"say \"\"hi\"\"\",2\n".to_vec());
    assert_eq!(csv_record(b"two\nlines", b""), b"\"two\nlines\",\n".to_vec());
    assert_eq!(csv_record(b"", b""), b",\n".to_vec());
}

#[test]
fn snapshot_is_an_equal_copy() {
    let o = Output::CSV("p.csv".to_string());
    assert_eq!(o.snapshot(), o);
    assert_eq!(Output::Off.snapshot(), Output::Off);
}

#[test]
fn level_settings() {
    assert_eq!(level_from_name("trace"), TraceLevel::Trace);
    assert_eq!(level_from_name("DEBUG"), TraceLevel::Debug);
    assert_eq!(level_from_name("Warn"), TraceLevel::Warn);
    assert_eq!(level_from_name("error"), TraceLevel::Error);
    assert_eq!(level_from_name("info"), TraceLevel::Info);
    assert_eq!(level_from_name("verbose"), TraceLevel::Info);
    assert_eq!(instrument_level(None), TraceLevel::Info);
    assert_eq!(instrument_level(Some("debug")), TraceLevel::Debug);
    assert_eq!(instrument_label("load", None), "load");
    assert_eq!(instrument_label("load", Some("detailed_op")), "detailed_op");
}
