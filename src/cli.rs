//! The decisions of the command-line driver: which index and how many
//! repetitions the arguments ask for, and which value is printed.
use vstd::prelude::*;
use crate::fibonacci::{fib, fib_u64};

verus! {

/// Index used when the first argument is absent or not a number.
pub const DEFAULT_N: u32 = 60;

/// Repetition count used when the second argument is absent or not a number.
pub const DEFAULT_RUNS: u32 = 1;

pub open spec fn is_decimal_digit(c: char) -> bool {
    '0' <= c && c <= '9'
}

/// The number written by a string of decimal digits, most significant first.
pub open spec fn digits_value(s: Seq<char>) -> nat
    decreases s.len(),
{
    if s.len() == 0 {
        0
    } else {
        digits_value(s.drop_last()) * 10 + (s.last() as int - '0' as int) as nat
    }
}

/// The digits of a numeral, after an optional leading `+`.
pub open spec fn unsigned_digits(s: Seq<char>) -> Seq<char> {
    if s.len() > 0 && s[0] == '+' {
        s.skip(1)
    } else {
        s
    }
}

/// A `u32` written in decimal: an optional `+` and at least one digit, with no
/// other character, naming a value that fits in 32 bits.
pub open spec fn decimal_u32(s: Seq<char>) -> Option<u32> {
    let d = unsigned_digits(s);
    if d.len() > 0 && (forall|i: int| 0 <= i < d.len() ==> is_decimal_digit(#[trigger] d[i]))
        && digits_value(d) <= u32::MAX {
        Some(digits_value(d) as u32)
    } else {
        None
    }
}

/// The characters of each argument.
pub open spec fn arg_views(args: Seq<String>) -> Seq<Seq<char>> {
    args.map_values(|s: String| s@)
}

/// The setting given by the argument at `index`, or `default` where that
/// argument is missing or is not a decimal `u32`.
pub open spec fn arg_setting(args: Seq<Seq<char>>, index: int, default: u32) -> u32 {
    if 0 <= index < args.len() {
        match decimal_u32(args[index]) {
            Some(v) => v,
            None => default,
        }
    } else {
        default
    }
}

/// The index that the arguments ask for.
pub open spec fn n_setting(args: Seq<Seq<char>>) -> u32 {
    arg_setting(args, 0, DEFAULT_N)
}

/// The repetition count that the arguments ask for.
pub open spec fn runs_setting(args: Seq<Seq<char>>) -> u32 {
    arg_setting(args, 1, DEFAULT_RUNS)
}

/// The value left after computing `fib(n)` `runs` times: 0 when it is never
/// computed.
pub open spec fn benchmark_result(n: u32, runs: u32) -> u64 {
    if runs == 0 {
        0
    } else {
        fib_u64(n as nat)
    }
}

/// The value printed for the given arguments (program name excluded).
pub open spec fn output_for(args: Seq<Seq<char>>) -> u64 {
    benchmark_result(n_setting(args), runs_setting(args))
}

/// Relies on `str::parse::<u32>` (std's `FromStr for u32`): it accepts an
/// optional `+` followed by decimal digits whose value fits in a `u32`, and
/// fails on anything else (empty text, a sign alone, other characters, overflow).
#[verifier::external_body]
fn parse_u32(s: &str) -> (r: Option<u32>)
    ensures
        r == decimal_u32(s@),
{
    s.parse::<u32>().ok()
}

/// The setting at `index` of `args`, falling back to `default`.
pub fn arg_or_default(args: &Vec<String>, index: usize, default: u32) -> (r: u32)
    ensures
        r == arg_setting(arg_views(args@), index as int, default),
{
    if index < args.len() {
        match parse_u32(args[index].as_str()) {
            Some(v) => v,
            None => default,
        }
    } else {
        default
    }
}

/// What the driver is asked to do.
#[derive(Clone, Copy, Debug, PartialEq, Eq, Structural)]
pub struct Settings {
    /// Index of the Fibonacci number to compute.
    pub n: u32,
    /// How many times to compute it.
    pub runs: u32,
}

/// Reads the index from the first argument and the repetition count from the
/// second (program name excluded); each falls back to its default when absent
/// or not a decimal `u32`. Further arguments are ignored.
pub fn settings_from_args(args: &Vec<String>) -> (r: Settings)
    ensures
        r.n == n_setting(arg_views(args@)),
        r.runs == runs_setting(arg_views(args@)),
        args@.len() == 0 ==> r == (Settings { n: DEFAULT_N, runs: DEFAULT_RUNS }),
        args@.len() >= 1 && decimal_u32(args@[0]@) is None ==> r.n == DEFAULT_N,
{
    let n = arg_or_default(args, 0, DEFAULT_N);
    let runs = arg_or_default(args, 1, DEFAULT_RUNS);
    Settings { n, runs }
}

/// Computes `fib(n)` `runs` times, as a timing loop does, and returns the last
/// value computed, or 0 when `runs` is 0.
pub fn run_benchmark(n: u32, runs: u32) -> (r: u64)
    ensures
        r == benchmark_result(n, runs),
        runs >= 1 ==> r == fib_u64(n as nat),
{
    let mut result: u64 = 0;
    let mut i: u32 = 0;
    while i < runs
        invariant
            i <= runs,
            i == 0 ==> result == 0,
            i > 0 ==> result == fib_u64(n as nat),
        decreases runs - i,
    {
        result = fib(n);
        i = i + 1;
    }
    result
}

/// The value the driver prints for `args` (program name excluded).
pub fn program_output(args: &Vec<String>) -> (r: u64)
    ensures
        r == output_for(arg_views(args@)),
{
    let settings = settings_from_args(args);
    run_benchmark(settings.n, settings.runs)
}

/// Running with no arguments prints the same value as running with the
/// single argument `60`: the nth Fibonacci number for n = 60.
pub proof fn lemma_no_args_same_as_sixty()
    ensures
        output_for(seq![]) == output_for(seq!["60"@]),
        output_for(seq![]) == fib_u64(60),
{
    reveal_strlit("60");
    let d = unsigned_digits("60"@);
    assert(d == "60"@);
    let e = d.drop_last();
    assert(digits_value(e.drop_last()) == 0);
    assert(digits_value(e) == 6);
    assert(digits_value(d) == 60);
    assert(decimal_u32("60"@) == Some(60u32));
}

/// Repeating the computation does not change the value it leaves: any
/// positive number of runs gives the same value as one run.
pub proof fn lemma_repetition_keeps_result(n: u32, runs: u32)
    requires
        runs >= 1,
    ensures
        benchmark_result(n, runs) == benchmark_result(n, 1),
        benchmark_result(n, runs) == fib_u64(n as nat),
{
}

/// A first argument that is not a decimal `u32` falls back to index 60, and
/// the value printed is the one printed with no arguments. This needs at
/// least one run: a second argument of `0` asks for none, and 0 is printed.
pub proof fn lemma_non_numeric_n_falls_back(args: Seq<Seq<char>>)
    requires
        args.len() >= 1,
        decimal_u32(args[0]) is None,
        runs_setting(args) >= 1,
    ensures
        n_setting(args) == DEFAULT_N,
        output_for(args) == output_for(seq![]),
        output_for(args) == fib_u64(60),
{
}

} // verus!
