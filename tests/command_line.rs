use fibonacci::cli::{
    arg_or_default, program_output, run_benchmark, settings_from_args, Settings, DEFAULT_N,
    DEFAULT_RUNS,
};

fn args(items: &[&str]) -> Vec<String> {
    items.iter().map(|s| s.to_string()).collect()
}

#[test]
fn no_arguments_same_as_sixty() {
    assert_eq!(program_output(&args(&[])), program_output(&args(&["60"])));
    assert_eq!(program_output(&args(&[])), 1548008755920);
}

#[test]
fn five_runs_same_as_one() {
    assert_eq!(program_output(&args(&["30", "5"])), program_output(&args(&["30", "1"])));
    assert_eq!(program_output(&args(&["30", "5"])), 832040);
    assert_eq!(run_benchmark(60, 5), run_benchmark(60, 1));
}

#[test]
fn non_numeric_first_argument_falls_back_to_sixty() {
    assert_eq!(program_output(&args(&["abc"])), 1548008755920);
    assert_eq!(settings_from_args(&args(&["abc", "3"])), Settings { n: 60, runs: 3 });
}

#[test]
fn zero_runs_leaves_zero() {
    assert_eq!(run_benchmark(10, 0), 0);
    assert_eq!(program_output(&args(&["10", "0"])), 0);
}

#[test]
fn defaults_when_absent() {
    assert_eq!(
        settings_from_args(&args(&[])),
        Settings { n: DEFAULT_N, runs: DEFAULT_RUNS }
    );
    assert_eq!(DEFAULT_N, 60);
    assert_eq!(DEFAULT_RUNS, 1);
}

#[test]
fn both_arguments_read() {
    assert_eq!(settings_from_args(&args(&["10", "7"])), Settings { n: 10, runs: 7 });
    assert_eq!(program_output(&args(&["10", "7"])), 55);
}

#[test]
fn extra_arguments_ignored() {
    assert_eq!(settings_from_args(&args(&["12", "2", "junk"])), Settings { n: 12, runs: 2 });
}

#[test]
fn plus_sign_and_leading_zeros_accepted() {
    let a = args(&["+7", "007"]);
    assert_eq!(arg_or_default(&a, 0, 60), 7);
    assert_eq!(arg_or_default(&a, 1, 1), 7);
}

#[test]
fn malformed_numbers_fall_back() {
    let a = args(&["-1", "", " 5", "4294967296", "+", "5x"]);
    for i in 0..a.len() {
        assert_eq!(arg_or_default(&a, i, 42), 42);
    }
}

#[test]
fn largest_u32_accepted() {
    let a = args(&["4294967295"]);
    assert_eq!(arg_or_default(&a, 0, 1), 4294967295);
}

#[test]
fn missing_index_falls_back() {
    assert_eq!(arg_or_default(&args(&["3"]), 1, 9), 9);
}
