use gen_commit::client::UsageInfo;
use gen_commit::pipeline::{report_usage, UsageTotals};

fn usage(input: u32, output: u32, total: u32) -> UsageInfo {
    UsageInfo { input_tokens: input, output_tokens: output, total_tokens: total }
}

#[test]
fn totals_add_both_calls() {
    let totals = report_usage(&Some(usage(10, 5, 15)), &usage(20, 8, 28));
    assert_eq!(totals, UsageTotals { input_tokens: 30, output_tokens: 13, total_tokens: 43 });
}

#[test]
fn totals_without_analysis_equal_generation() {
    let totals = report_usage(&None, &usage(20, 8, 28));
    assert_eq!(totals, UsageTotals { input_tokens: 20, output_tokens: 8, total_tokens: 28 });
}

#[test]
fn totals_do_not_overflow() {
    let big = usage(u32::MAX, u32::MAX, u32::MAX);
    let totals = report_usage(&Some(big), &big);
    assert_eq!(totals.input_tokens, 2 * u32::MAX as u64);
    assert_eq!(totals.total_tokens, 2 * u32::MAX as u64);
}
