use catr::cli::get_args;
use catr::config::{Config, ParseError};
use catr::input::{open_failure_message, reads_stdin};
use catr::numbering::{render_inputs, render_lines, LineNumberer};

fn strings(items: &[&str]) -> Vec<String> {
    items.iter().map(|s| s.to_string()).collect()
}

fn config(number_lines: bool, number_nonblank_lines: bool) -> Config {
    Config::new(strings(&["f.txt"]), number_lines, number_nonblank_lines).unwrap()
}

#[test]
fn new_keeps_flags_and_files() {
    for (n, b) in [(false, false), (true, false), (false, true)] {
        let c = Config::new(strings(&["a", "b"]), n, b).unwrap();
        assert_eq!(c.files(), &strings(&["a", "b"]));
        assert_eq!(c.number_lines(), n);
        assert_eq!(c.number_nonblank_lines(), b);
    }
}

#[test]
fn new_refuses_both_numbering_modes() {
    let r = Config::new(strings(&["a"]), true, true);
    assert!(matches!(r, Err(ParseError::ConflictingFlags)));
}

#[test]
fn new_defaults_to_stdin() {
    let c = Config::new(Vec::new(), false, true).unwrap();
    assert_eq!(c.files(), &strings(&["-"]));
}

#[test]
fn args_valid_combinations() {
    let cases: Vec<(Vec<&str>, bool, bool)> = vec![
        (vec!["x.txt"], false, false),
        (vec!["-n", "x.txt"], true, false),
        (vec!["--number", "x.txt"], true, false),
        (vec!["-b", "x.txt"], false, true),
        (vec!["x.txt", "--number-nonblank"], false, true),
    ];
    for (args, n, b) in cases {
        let c = get_args(&strings(&args)).unwrap();
        assert_eq!(c.files(), &strings(&["x.txt"]));
        assert_eq!(c.number_lines(), n);
        assert_eq!(c.number_nonblank_lines(), b);
    }
}

#[test]
fn args_keep_file_order() {
    let c = get_args(&strings(&["b.txt", "-", "a.txt"])).unwrap();
    assert_eq!(c.files(), &strings(&["b.txt", "-", "a.txt"]));
}

#[test]
fn args_conflict_in_either_order() {
    for args in [vec!["-n", "-b"], vec!["-b", "-n"], vec!["--number-nonblank", "f", "--number"]] {
        let r = get_args(&strings(&args));
        assert!(matches!(r, Err(ParseError::ConflictingFlags)));
    }
}

#[test]
fn args_without_files_read_stdin() {
    let c = get_args(&strings(&["-n"])).unwrap();
    assert_eq!(c.files(), &strings(&["-"]));
    let c = get_args(&Vec::new()).unwrap();
    assert_eq!(c.files(), &strings(&["-"]));
    assert!(!c.number_lines());
    assert!(!c.number_nonblank_lines());
}

#[test]
fn args_help_and_version() {
    match get_args(&strings(&["--help"])) {
        Err(ParseError::HelpRequested(text)) => assert!(text.contains("--number-nonblank")),
        other => panic!("unexpected {:?}", other),
    }
    match get_args(&strings(&["-V"])) {
        Err(ParseError::HelpRequested(text)) => assert!(text.contains("0.1.0")),
        other => panic!("unexpected {:?}", other),
    }
}

#[test]
fn args_unknown_flag() {
    match get_args(&strings(&["-x"])) {
        Err(ParseError::UsageError(text)) => assert!(text.contains("-x")),
        other => panic!("unexpected {:?}", other),
    }
}

#[test]
fn plain_output_is_the_input() {
    let out = render_lines(&config(false, false), &strings(&["a", "", "b"]));
    assert_eq!(out, "a\n\nb\n");
}

#[test]
fn number_every_line() {
    let out = render_lines(&config(true, false), &strings(&["a", "", "b"]));
    assert_eq!(out, "     1\ta\n     2\t\n     3\tb\n");
}

#[test]
fn number_nonblank_lines_only() {
    let out = render_lines(&config(false, true), &strings(&["a", "", "b"]));
    assert_eq!(out, "     1\ta\n\n     2\tb\n");
}

#[test]
fn empty_input_prints_nothing() {
    assert_eq!(render_lines(&config(true, false), &Vec::new()), "");
}

#[test]
fn wide_numbers_stay_right_aligned() {
    let lines: Vec<String> = (0..10).map(|i| format!("l{}", i)).collect();
    let out = render_lines(&config(true, false), &lines);
    assert!(out.starts_with("     1\tl0\n"));
    assert!(out.ends_with("    10\tl9\n"));
}

#[test]
fn numberer_steps() {
    let mut n = LineNumberer::new(&config(false, true));
    assert_eq!(n.next_number(), 1);
    assert_eq!(n.number_line("x"), "     1\tx\n");
    assert_eq!(n.number_line(""), "\n");
    assert_eq!(n.next_number(), 2);
    assert_eq!(n.number_line("y"), "     2\ty\n");
    assert_eq!(n.next_number(), 3);
}

#[test]
fn output_is_repeatable() {
    let c = config(false, true);
    let lines = strings(&["one", "", "two", "three"]);
    assert_eq!(render_lines(&c, &lines), render_lines(&c, &lines));
}

#[test]
fn counters_reset_per_input() {
    let files = vec![strings(&["a", "b"]), strings(&["c", "d"])];
    let out = render_inputs(&config(true, false), &files);
    assert_eq!(out, "     1\ta\n     2\tb\n     1\tc\n     2\td\n");
}

#[test]
fn open_failure_names_the_input() {
    let m = open_failure_message("missing.txt", "No such file or directory (os error 2)");
    assert_eq!(m, "Failed to open missing.txt: No such file or directory (os error 2)");
    assert!(m.contains("Failed to open missing.txt"));
}

#[test]
fn stdin_is_the_dash() {
    assert!(reads_stdin("-"));
    assert!(!reads_stdin("--"));
    assert!(!reads_stdin("a"));
    assert!(!reads_stdin(""));
    assert!(!reads_stdin("–"));
}

#[test]
fn conflict_message_names_both_flags() {
    let m = ParseError::ConflictingFlags.message();
    assert!(m.contains("--number'"));
    assert!(m.contains("--number-nonblank"));
    assert_eq!(ParseError::UsageError("bad".to_string()).message(), "bad");
}

#[test]
fn args_flags_between_names() {
    let c = get_args(&strings(&["b.txt", "-n", "a.txt"])).unwrap();
    assert_eq!(c.files(), &strings(&["b.txt", "a.txt"]));
    assert!(c.number_lines());
    assert!(!c.number_nonblank_lines());
    let c = get_args(&strings(&["--number-nonblank", "a.txt", "b.txt"])).unwrap();
    assert_eq!(c.files(), &strings(&["a.txt", "b.txt"]));
    assert!(!c.number_lines());
    assert!(c.number_nonblank_lines());
}

#[test]
fn args_keep_duplicates_and_dash() {
    let c = get_args(&strings(&["b.txt", "-", "b.txt"])).unwrap();
    assert_eq!(c.files(), &strings(&["b.txt", "-", "b.txt"]));
}

#[test]
fn args_nonblank_alone_reads_stdin() {
    let c = get_args(&strings(&["-b"])).unwrap();
    assert_eq!(c.files(), &strings(&["-"]));
    assert!(!c.number_lines());
    assert!(c.number_nonblank_lines());
}

#[test]
fn args_unknown_flags_before_others() {
    for args in [vec!["-x", "a.txt"], vec!["a.txt", "--numbr"], vec!["-n", "-x", "-h"], vec!["--verbose", "--help"]] {
        assert!(matches!(get_args(&strings(&args)), Err(ParseError::UsageError(_))));
    }
}

#[test]
fn args_long_help_and_version() {
    for args in [vec!["-h"], vec!["--help"], vec!["--version"], vec!["a.txt", "-nh"]] {
        assert!(matches!(get_args(&strings(&args)), Err(ParseError::HelpRequested(_))));
    }
}
