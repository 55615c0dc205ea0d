use codex_tui::decimal::push_decimal;
use codex_tui::live_output_tokens::LiveOutputTokens;
use codex_tui::live_output_tokens::ReasoningStream;

fn started(total: Option<i64>) -> LiveOutputTokens {
    let mut counter = LiveOutputTokens::default();
    counter.start(total);
    counter
}

#[test]
fn decimal_digits_are_written_most_significant_first() {
    for (n, text) in [(0u64, "0"), (7, "7"), (10, "10"), (1234567890, "1234567890"), (u64::MAX, "18446744073709551615")] {
        let mut out = String::from("x=");
        push_decimal(&mut out, n);
        assert_eq!(out, format!("x={text}"));
    }
}

#[test]
fn four_bytes_make_one_token_rounded_up() {
    for (bytes, tokens) in [(1u64, 1u64), (3, 1), (4, 1), (5, 2), (12, 3), (13, 4)] {
        let mut counter = started(Some(0));
        assert!(counter.push_bytes(bytes));
        assert_eq!(counter.label(), Some(format!("~{tokens} out")));
        assert_eq!(counter.working_label(), Some(format!("↓ ~{tokens} tokens")));
    }
}

#[test]
fn push_reports_a_change_only_when_the_estimate_moves() {
    let mut counter = started(Some(0));
    assert!(counter.push("a"));
    assert!(!counter.push("bcd"));
    assert!(counter.push("e"));
    assert!(!counter.push(""));
    assert_eq!(counter.label().as_deref(), Some("~2 out"));
}

#[test]
fn multibyte_text_counts_utf8_bytes() {
    let mut counter = started(Some(0));
    counter.push("世界");
    assert_eq!(counter.label().as_deref(), Some("~2 out"));
    let mut emoji = started(Some(0));
    emoji.push("🙂");
    assert_eq!(emoji.label().as_deref(), Some("~1 out"));
}

#[test]
fn chunked_and_whole_text_give_the_same_labels() {
    let text = "naïve café — ünïcödé 🙂 text";
    let mut whole = started(Some(5));
    whole.push(text);
    let mut chunks = started(Some(5));
    for c in text.chars() {
        let mut buf = [0u8; 4];
        chunks.push(c.encode_utf8(&mut buf));
    }
    assert_eq!(whole.label(), chunks.label());
    assert_eq!(whole.working_label(), chunks.working_label());
}

#[test]
fn idle_counter_ignores_deltas_and_usage() {
    let mut counter = LiveOutputTokens::default();
    assert!(!counter.push("output"));
    assert!(!counter.push_bytes(40));
    assert!(!counter.push_reasoning("thinking", ReasoningStream::Raw));
    counter.reconcile(50, 50);
    assert_eq!(counter.label(), None);
    assert_eq!(counter.working_label(), None);
    counter.start(Some(50));
    assert_eq!(counter.label().as_deref(), Some("~0 out"));
}

#[test]
fn same_checkpoint_twice_counts_once() {
    let mut counter = started(Some(100));
    counter.reconcile(107, 7);
    counter.reconcile(107, 7);
    assert_eq!(counter.label().as_deref(), Some("7 out"));
}

#[test]
fn report_replaces_pending_estimate() {
    let mut counter = started(Some(100));
    counter.push("abcdefghijklmnopqrst");
    assert_eq!(counter.label().as_deref(), Some("~5 out"));
    counter.reconcile(103, 3);
    assert_eq!(counter.label().as_deref(), Some("3 out"));
    assert_eq!(counter.working_label().as_deref(), Some("↓ 3 tokens"));
}

#[test]
fn reset_counter_moves_the_baseline() {
    let mut counter = started(Some(100));
    counter.reconcile(110, 10);
    counter.push("abcd");
    counter.reconcile(50, 4);
    assert_eq!(counter.label().as_deref(), Some("~11 out"));
    counter.reconcile(52, 2);
    assert_eq!(counter.label().as_deref(), Some("12 out"));
}

#[test]
fn usage_growth_saturates() {
    let mut counter = started(Some(i64::MIN));
    counter.reconcile(i64::MAX, 0);
    assert_eq!(counter.label(), Some(format!("{} out", i64::MAX)));
    counter.reconcile(i64::MIN, 0);
    assert_eq!(counter.label(), Some(format!("{} out", i64::MAX)));
}

#[test]
fn byte_counts_saturate() {
    let mut counter = started(Some(0));
    counter.push_bytes(u64::MAX);
    assert!(!counter.push_bytes(u64::MAX));
    assert_eq!(counter.label(), Some(format!("~{} out", u64::MAX / 4 + 1)));
}

#[test]
fn zero_usage_report_shows_exact_zero_without_working_label() {
    let mut counter = started(None);
    counter.reconcile(0, 0);
    assert_eq!(counter.label().as_deref(), Some("0 out"));
    assert_eq!(counter.working_label(), None);
}

#[test]
fn summary_beyond_raw_reasoning_counts_the_larger_stream() {
    let mut counter = started(Some(0));
    counter.push_reasoning("abcd", ReasoningStream::Raw);
    counter.push_reasoning("abcdefghijkl", ReasoningStream::Summary);
    assert_eq!(counter.label().as_deref(), Some("~3 out"));
    assert!(!counter.push_reasoning("", ReasoningStream::Summary));
}
