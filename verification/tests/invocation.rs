use cmd_timer::invocation::{Invocation, OutputFormat, UsageError, DEFAULT_RUNS};

fn words(items: &[&str]) -> Vec<String> {
    items.iter().map(|w| w.to_string()).collect()
}

#[test]
fn accepted_parameters_are_kept() {
    let invocation =
        Invocation::new(4, OutputFormat::Structured, true, words(&["sleep", "0.1"])).unwrap();
    assert_eq!(invocation.runs(), 4);
    assert_eq!(invocation.format(), OutputFormat::Structured);
    assert!(invocation.wait());
    assert_eq!(invocation.command(), &words(&["sleep", "0.1"]));
}

#[test]
fn one_run_of_one_word_is_the_least_that_is_accepted() {
    let invocation = Invocation::new(1, OutputFormat::Human, false, words(&["true"])).unwrap();
    assert_eq!(invocation.runs(), 1);
    assert_eq!(invocation.format(), OutputFormat::Human);
    assert!(!invocation.wait());
    assert_eq!(invocation.command().len(), 1);
}

#[test]
fn largest_run_count_is_accepted() {
    let invocation =
        Invocation::new(usize::MAX, OutputFormat::Human, false, words(&["true"])).unwrap();
    assert_eq!(invocation.runs(), usize::MAX);
}

#[test]
fn empty_command_is_a_usage_error() {
    for runs in [1usize, 3, usize::MAX] {
        for wait in [false, true] {
            for format in [OutputFormat::Human, OutputFormat::Structured] {
                let refused = Invocation::new(runs, format, wait, Vec::new());
                assert_eq!(refused.unwrap_err(), UsageError::MissingCommand);
            }
        }
    }
}

#[test]
fn zero_runs_is_a_usage_error() {
    let refused = Invocation::new(0, OutputFormat::Human, false, words(&["true"]));
    assert_eq!(refused.unwrap_err(), UsageError::ZeroRuns);
}

#[test]
fn empty_command_is_reported_before_zero_runs() {
    let refused = Invocation::new(0, OutputFormat::Human, false, Vec::new());
    assert_eq!(refused.unwrap_err(), UsageError::MissingCommand);
}

#[test]
fn an_empty_word_is_still_a_word() {
    let invocation = Invocation::new(1, OutputFormat::Human, false, words(&[""])).unwrap();
    assert_eq!(invocation.command(), &words(&[""]));
}

#[test]
fn default_run_count_is_one() {
    assert_eq!(DEFAULT_RUNS, 1);
    assert!(Invocation::new(DEFAULT_RUNS, OutputFormat::Human, false, words(&["true"])).is_ok());
}

#[test]
fn format_follows_the_switch() {
    assert_eq!(OutputFormat::from_flag(true), OutputFormat::Structured);
    assert_eq!(OutputFormat::from_flag(false), OutputFormat::Human);
}
