//! Per-turn output estimates from received deltas, reconciled with reported usage.
//!
//! While a turn runs, text, reasoning and tool-input deltas are counted in UTF-8
//! bytes and shown as an estimate at four bytes per token. When the provider
//! reports usage, the reported output replaces the estimate.

use vstd::prelude::*;
use vstd::utf8::encode_utf8;
use crate::decimal::decimal;
use crate::decimal::push_decimal;

verus! {

/// `a + b`, held at `u64::MAX` where it would overflow.
pub open spec fn sat_add(a: u64, b: u64) -> u64 {
    if a + b > u64::MAX {
        u64::MAX
    } else {
        (a + b) as u64
    }
}

/// `x`, held inside the range of `i64`.
pub open spec fn clamp_i64(x: int) -> i64 {
    if x > i64::MAX {
        i64::MAX
    } else if x < i64::MIN {
        i64::MIN
    } else {
        x as i64
    }
}

/// Tokens for a byte count at four bytes per token, rounded up.
pub open spec fn tokens_for_bytes(bytes: u64) -> u64 {
    ((bytes + 3) / 4) as u64
}

/// The number of bytes in the UTF-8 encoding of `s`.
pub open spec fn utf8_len(s: Seq<char>) -> nat {
    encode_utf8(s).len()
}

/// `~` where a count is an estimate, nothing where it is reported usage.
pub open spec fn estimate_marker(approximate: bool) -> Seq<char> {
    if approximate {
        seq!['~']
    } else {
        Seq::empty()
    }
}

/// The two streams of reasoning text; a summary describes the same generation
/// as the raw reasoning.
pub enum ReasoningStream {
    Raw,
    Summary,
}

/// The output counter of one turn.
pub struct LiveOutputTokens {
    /// A turn is running; deltas and usage before the first `start` are ignored.
    pub started: bool,
    /// The last cumulative output total that usage reported, if known.
    pub last_total: Option<i64>,
    /// Output tokens confirmed by reported usage in this turn.
    pub confirmed: u64,
    /// Text and tool-input bytes received since the last usage report.
    pub pending_bytes: u64,
    /// Raw reasoning bytes received since the last usage report.
    pub reasoning_bytes: u64,
    /// Reasoning-summary bytes received since the last usage report.
    pub summary_bytes: u64,
    /// Usage has been reported in this turn.
    pub reported: bool,
}

impl LiveOutputTokens {
    /// The counter before any turn.
    pub open spec fn idle() -> Self {
        LiveOutputTokens {
            started: false,
            last_total: None,
            confirmed: 0,
            pending_bytes: 0,
            reasoning_bytes: 0,
            summary_bytes: 0,
            reported: false,
        }
    }

    /// The counter at the start of a turn whose cumulative output total is `total`.
    pub open spec fn started_at(total: Option<i64>) -> Self {
        LiveOutputTokens { started: true, last_total: total, ..Self::idle() }
    }

    /// Estimated tokens of the bytes since the last usage report: text bytes
    /// plus the larger of the two reasoning streams, at four bytes per token.
    pub open spec fn estimate(self) -> u64 {
        tokens_for_bytes(
            sat_add(
                self.pending_bytes,
                if self.reasoning_bytes >= self.summary_bytes {
                    self.reasoning_bytes
                } else {
                    self.summary_bytes
                },
            ),
        )
    }

    /// Confirmed tokens plus the pending estimate.
    pub open spec fn tokens(self) -> u64 {
        sat_add(self.confirmed, self.estimate())
    }

    /// The shown count is (partly) an estimate.
    pub open spec fn approximate(self) -> bool {
        self.estimate() > 0 || !self.reported
    }

    /// The footer label, such as `~12 out` or `12 out`.
    pub open spec fn label_text(self) -> Seq<char> {
        estimate_marker(self.approximate()) + decimal(self.tokens() as nat) + seq![
            ' ',
            'o',
            'u',
            't',
        ]
    }

    /// The label beside `Working`, such as `↓ ~12 tokens`.
    pub open spec fn working_label_text(self) -> Seq<char> {
        seq!['\u{2193}', ' '] + estimate_marker(self.approximate()) + decimal(self.tokens() as nat)
            + seq![' ', 't', 'o', 'k', 'e', 'n', 's']
    }

    /// The counter after `bytes` more text or tool-input bytes.
    pub open spec fn after_push_bytes(self, bytes: u64) -> Self {
        if !self.started || bytes == 0 {
            self
        } else {
            LiveOutputTokens { pending_bytes: sat_add(self.pending_bytes, bytes), ..self }
        }
    }

    /// The counter after `bytes` more bytes of one reasoning stream.
    pub open spec fn after_push_reasoning(self, bytes: u64, stream: ReasoningStream) -> Self {
        if !self.started || bytes == 0 {
            self
        } else {
            match stream {
                ReasoningStream::Raw => LiveOutputTokens {
                    reasoning_bytes: sat_add(self.reasoning_bytes, bytes),
                    ..self
                },
                ReasoningStream::Summary => LiveOutputTokens {
                    summary_bytes: sat_add(self.summary_bytes, bytes),
                    ..self
                },
            }
        }
    }

    /// The output added by a usage report: the growth of the cumulative total
    /// where a previous total is known, else the last response's output.
    pub open spec fn usage_added(self, total: i64, last: i64) -> int {
        match self.last_total {
            Some(previous) => clamp_i64(total - previous) as int,
            None => last as int,
        }
    }

    /// The counter after a usage report with cumulative output `total` and
    /// last-response output `last`. A report of the known total changes
    /// nothing; a total that went down only moves the baseline; otherwise the
    /// added output is confirmed and replaces the pending estimate.
    pub open spec fn after_reconcile(self, total: i64, last: i64) -> Self {
        if !self.started || self.last_total == Some(total) {
            self
        } else if self.usage_added(total, last) < 0 {
            LiveOutputTokens { last_total: Some(total), ..self }
        } else {
            LiveOutputTokens {
                last_total: Some(total),
                confirmed: sat_add(self.confirmed, self.usage_added(total, last) as u64),
                pending_bytes: 0,
                reasoning_bytes: 0,
                summary_bytes: 0,
                reported: true,
                started: self.started,
            }
        }
    }

    /// Starts a turn: forgets everything counted before and takes `total` as
    /// the cumulative output baseline.
    pub fn start(&mut self, total: Option<i64>)
        ensures
            *final(self) == Self::started_at(total),
    {
        *self = LiveOutputTokens {
            started: true,
            last_total: total,
            confirmed: 0,
            pending_bytes: 0,
            reasoning_bytes: 0,
            summary_bytes: 0,
            reported: false,
        };
    }

    /// Counts a text delta by its UTF-8 bytes; returns whether the estimate changed.
    pub fn push(&mut self, delta: &str) -> (changed: bool)
        requires
            utf8_len(delta@) <= usize::MAX,
        ensures
            *final(self) == old(self).after_push_bytes(utf8_len(delta@) as u64),
            changed == (old(self).estimate() != final(self).estimate()),
    {
        let n: usize = delta.len();
        self.push_bytes(n as u64)
    }

    /// Counts `bytes` more output bytes; returns whether the estimate changed.
    pub fn push_bytes(&mut self, bytes: u64) -> (changed: bool)
        ensures
            *final(self) == old(self).after_push_bytes(bytes),
            changed == (old(self).estimate() != final(self).estimate()),
    {
        if !self.started || bytes == 0 {
            return false;
        }
        let previous = self.pending_estimate();
        self.pending_bytes = self.pending_bytes.saturating_add(bytes);
        previous != self.pending_estimate()
    }

    /// Counts a reasoning delta in its stream; returns whether the estimate changed.
    pub fn push_reasoning(&mut self, delta: &str, stream: ReasoningStream) -> (changed: bool)
        requires
            utf8_len(delta@) <= usize::MAX,
        ensures
            *final(self) == old(self).after_push_reasoning(utf8_len(delta@) as u64, stream),
            changed == (old(self).estimate() != final(self).estimate()),
    {
        if !self.started || delta.is_empty() {
            proof {
                if delta@.len() == 0 {
                    assert(encode_utf8(delta@) =~= Seq::<u8>::empty());
                }
            }
            return false;
        }
        proof {
            lemma_utf8_len_nonempty(delta@);
        }
        let previous = self.pending_estimate();
        let n: usize = delta.len();
        let bytes = n as u64;
        match stream {
            ReasoningStream::Raw => {
                self.reasoning_bytes = self.reasoning_bytes.saturating_add(bytes);
            },
            ReasoningStream::Summary => {
                self.summary_bytes = self.summary_bytes.saturating_add(bytes);
            },
        }
        previous != self.pending_estimate()
    }

    fn pending_estimate(&self) -> (estimate: u64)
        ensures
            estimate == self.estimate(),
    {
        // Reasoning and its summary describe the same generation; do not add both.
        let reasoning = if self.reasoning_bytes >= self.summary_bytes {
            self.reasoning_bytes
        } else {
            self.summary_bytes
        };
        let bytes = self.pending_bytes.saturating_add(reasoning);
        let quotient = bytes / 4;
        if bytes % 4 == 0 {
            quotient
        } else {
            quotient + 1
        }
    }

    /// Takes a usage report: `total` is the cumulative output so far, `last`
    /// the output of the last response.
    pub fn reconcile(&mut self, total: i64, last: i64)
        ensures
            *final(self) == old(self).after_reconcile(total, last),
    {
        if !self.started {
            return;
        }
        let added: i64 = match self.last_total {
            Some(previous) => {
                if previous == total {
                    return;
                }
                saturating_sub_i64(total, previous)
            },
            None => last,
        };
        self.last_total = Some(total);
        if added < 0 {
            return;
        }
        self.confirmed = self.confirmed.saturating_add(added as u64);
        self.pending_bytes = 0;
        self.reasoning_bytes = 0;
        self.summary_bytes = 0;
        self.reported = true;
    }

    /// The footer label of the turn, `None` before the first turn starts.
    pub fn label(&self) -> (label: Option<String>)
        ensures
            label is Some <==> self.started,
            label matches Some(s) ==> s@ == self.label_text(),
    {
        if !self.started {
            return None;
        }
        let estimate = self.pending_estimate();
        let mut text = String::new();
        if estimate > 0 || !self.reported {
            text.append("~");
        }
        let tokens = self.confirmed.saturating_add(estimate);
        push_decimal(&mut text, tokens);
        text.append(" out");
        proof {
            reveal_strlit("~");
            reveal_strlit(" out");
            assert(text@ =~= self.label_text());
        }
        Some(text)
    }

    /// The label beside `Working`, shown once a turn has output.
    pub fn working_label(&self) -> (label: Option<String>)
        ensures
            label is Some <==> (self.started && self.tokens() > 0),
            label matches Some(s) ==> s@ == self.working_label_text(),
    {
        let estimate = self.pending_estimate();
        let tokens = self.confirmed.saturating_add(estimate);
        if !self.started || tokens == 0 {
            return None;
        }
        let mut text = String::new();
        text.append("\u{2193} ");
        if estimate > 0 || !self.reported {
            text.append("~");
        }
        push_decimal(&mut text, tokens);
        text.append(" tokens");
        proof {
            reveal_strlit("\u{2193} ");
            reveal_strlit("~");
            reveal_strlit(" tokens");
            assert(text@ =~= self.working_label_text());
        }
        Some(text)
    }
}

impl Default for LiveOutputTokens {
    fn default() -> (counter: Self)
        ensures
            counter == Self::idle(),
    {
        LiveOutputTokens {
            started: false,
            last_total: None,
            confirmed: 0,
            pending_bytes: 0,
            reasoning_bytes: 0,
            summary_bytes: 0,
            reported: false,
        }
    }
}

fn saturating_sub_i64(a: i64, b: i64) -> (d: i64)
    ensures
        d == clamp_i64(a - b),
{
    let wide: i128 = a as i128 - b as i128;
    if wide > i64::MAX as i128 {
        i64::MAX
    } else if wide < i64::MIN as i128 {
        i64::MIN
    } else {
        wide as i64
    }
}

/// A non-empty text has a non-empty UTF-8 encoding.
pub proof fn lemma_utf8_len_nonempty(s: Seq<char>)
    requires
        s.len() > 0,
    ensures
        utf8_len(s) > 0,
{
    reveal_with_fuel(encode_utf8, 1);
}

/// The UTF-8 encoding of a concatenation is as long as the two encodings together.
pub proof fn lemma_utf8_len_concat(a: Seq<char>, b: Seq<char>)
    ensures
        utf8_len(a + b) == utf8_len(a) + utf8_len(b),
    decreases a.len(),
{
    if a.len() == 0 {
        assert(a + b =~= b);
    } else {
        assert((a + b).drop_first() =~= a.drop_first() + b);
        assert((a + b)[0] == a[0]);
        lemma_utf8_len_concat(a.drop_first(), b);
    }
}

/// Counting output in two chunks leaves the counter exactly as counting the
/// whole text at once: the estimate does not depend on how deltas are split.
pub proof fn lemma_push_is_chunk_independent(c: LiveOutputTokens, a: Seq<char>, b: Seq<char>)
    requires
        utf8_len(a + b) <= usize::MAX,
    ensures
        utf8_len(a) <= usize::MAX,
        utf8_len(b) <= usize::MAX,
        c.after_push_bytes(utf8_len(a) as u64).after_push_bytes(utf8_len(b) as u64)
            == c.after_push_bytes(utf8_len(a + b) as u64),
{
    lemma_utf8_len_concat(a, b);
}

/// Pushing no output changes nothing, so the count does not tick without output.
pub proof fn lemma_empty_delta_changes_nothing(c: LiveOutputTokens, stream: ReasoningStream)
    ensures
        c.after_push_bytes(0) == c,
        c.after_push_reasoning(0, stream) == c,
        utf8_len(Seq::<char>::empty()) == 0,
{
    assert(encode_utf8(Seq::<char>::empty()) =~= Seq::<u8>::empty());
}

/// Before the first turn starts (as while replaying history), deltas and usage
/// reports are ignored and there is no label.
pub proof fn lemma_idle_counter_ignores_everything(
    c: LiveOutputTokens,
    bytes: u64,
    stream: ReasoningStream,
    total: i64,
    last: i64,
)
    requires
        !c.started,
    ensures
        c.after_push_bytes(bytes) == c,
        c.after_push_reasoning(bytes, stream) == c,
        c.after_reconcile(total, last) == c,
{
}

/// A new turn forgets everything counted before: its footer label is `~0 out`
/// and there is no working label until output arrives.
pub proof fn lemma_start_resets(total: Option<i64>)
    ensures
        LiveOutputTokens::started_at(total).tokens() == 0,
        LiveOutputTokens::started_at(total).approximate(),
        LiveOutputTokens::started_at(total).label_text() == seq!['~', '0', ' ', 'o', 'u', 't'],
{
    let s = LiveOutputTokens::started_at(total);
    assert(s.estimate() == 0);
    assert(decimal(0) == seq!['0']);
    assert(s.label_text() =~= seq!['~', '0', ' ', 'o', 'u', 't']);
}

/// Reported usage replaces the estimate: after a report that adds output, the
/// count is the confirmed output alone and is no longer marked as an estimate.
pub proof fn lemma_report_replaces_estimate(c: LiveOutputTokens, total: i64, last: i64)
    requires
        c.started,
        c.last_total != Some(total),
        c.usage_added(total, last) >= 0,
    ensures
        c.after_reconcile(total, last).estimate() == 0,
        !c.after_reconcile(total, last).approximate(),
        c.after_reconcile(total, last).tokens() == sat_add(
            c.confirmed,
            c.usage_added(total, last) as u64,
        ),
{
}

/// A usage report of the total already known changes nothing, so the same
/// checkpoint taken twice counts once.
pub proof fn lemma_reconcile_is_idempotent(c: LiveOutputTokens, total: i64, last: i64, again: i64)
    ensures
        c.after_reconcile(total, last).after_reconcile(total, again) == c.after_reconcile(
            total,
            last,
        ),
{
}

/// With no known baseline, a report counts only the last response, not the
/// cumulative total of earlier turns.
pub proof fn lemma_unknown_baseline_counts_last_response(c: LiveOutputTokens, total: i64, last: i64)
    requires
        c.started,
        c.last_total is None,
        last >= 0,
    ensures
        c.after_reconcile(total, last).confirmed == sat_add(c.confirmed, last as u64),
        c.after_reconcile(total, last).last_total == Some(total),
{
}

/// When the cumulative total goes down (the provider's counter was reset), the
/// report adds nothing and the next report counts from the new total, so no
/// past usage is counted again.
pub proof fn lemma_counter_reset_moves_baseline(
    c: LiveOutputTokens,
    previous: i64,
    reset: i64,
    reset_last: i64,
    next: i64,
    next_last: i64,
)
    requires
        c.started,
        c.last_total == Some(previous),
        reset < previous,
        reset < next,
    ensures
        c.after_reconcile(reset, reset_last).confirmed == c.confirmed,
        c.after_reconcile(reset, reset_last).after_reconcile(next, next_last).confirmed == sat_add(
            c.confirmed,
            clamp_i64(next - reset) as u64,
        ),
{
}

/// A reasoning summary is not counted on top of the raw reasoning it
/// summarises: with both streams level, the same text in both streams gives
/// the estimate of the raw stream alone.
pub proof fn lemma_summary_not_counted_twice(c: LiveOutputTokens, bytes: u64)
    requires
        c.reasoning_bytes == c.summary_bytes,
    ensures
        c.after_push_reasoning(bytes, ReasoningStream::Summary).after_push_reasoning(
            bytes,
            ReasoningStream::Raw,
        ).estimate() == c.after_push_reasoning(bytes, ReasoningStream::Raw).estimate(),
{
}

/// Received output never lowers the shown count.
pub proof fn lemma_push_never_lowers_count(c: LiveOutputTokens, bytes: u64, stream: ReasoningStream)
    ensures
        c.after_push_bytes(bytes).tokens() >= c.tokens(),
        c.after_push_reasoning(bytes, stream).tokens() >= c.tokens(),
{
}

/// Four bytes make one token, rounded up: the estimate of `b` bytes is the
/// least count of tokens whose four bytes each cover `b`.
pub proof fn lemma_four_bytes_per_token(b: u64)
    ensures
        4 * tokens_for_bytes(b) >= b,
        4 * tokens_for_bytes(b) < b + 4,
{
}

/// Both labels show the same count: the confirmed tokens plus the bytes since
/// the last report (text, and the larger reasoning stream) at four bytes per
/// token rounded up, marked `~` while bytes are pending or nothing was reported.
pub proof fn lemma_labels_show_confirmed_plus_pending(c: LiveOutputTokens)
    requires
        c.pending_bytes + c.reasoning_bytes <= u64::MAX,
        c.pending_bytes + c.summary_bytes <= u64::MAX,
        c.confirmed + (c.pending_bytes + c.reasoning_bytes + 3) / 4 <= u64::MAX,
        c.confirmed + (c.pending_bytes + c.summary_bytes + 3) / 4 <= u64::MAX,
    ensures
        ({
            let n: int = c.pending_bytes + (if c.reasoning_bytes >= c.summary_bytes {
                c.reasoning_bytes
            } else {
                c.summary_bytes
            });
            let shown: Seq<char> = decimal((c.confirmed + (n + 3) / 4) as nat);
            let marker: Seq<char> = if n > 0 || !c.reported {
                seq!['~']
            } else {
                Seq::empty()
            };
            &&& c.label_text() == marker + shown + seq![' ', 'o', 'u', 't']
            &&& c.working_label_text() == seq!['\u{2193}', ' '] + marker + shown + seq![
                ' ',
                't',
                'o',
                'k',
                'e',
                'n',
                's',
            ]
            &&& (c.tokens() > 0 <==> c.confirmed + (n + 3) / 4 > 0)
        }),
{
}

/// After a usage report has cleared the pending bytes, new output counts on
/// top of the confirmed tokens: `b` more bytes show `confirmed + ceil(b / 4)`,
/// marked as an estimate, in both labels.
pub proof fn lemma_output_after_report_adds_to_confirmed(c: LiveOutputTokens, b: u64)
    requires
        c.started,
        c.pending_bytes == 0,
        c.reasoning_bytes == 0,
        c.summary_bytes == 0,
        b > 0,
        c.confirmed + (b + 3) / 4 <= u64::MAX,
    ensures
        c.after_push_bytes(b).label_text() == seq!['~'] + decimal((c.confirmed + (b + 3) / 4) as nat)
            + seq![' ', 'o', 'u', 't'],
        c.after_push_bytes(b).working_label_text() == seq!['\u{2193}', ' ', '~'] + decimal(
            (c.confirmed + (b + 3) / 4) as nat,
        ) + seq![' ', 't', 'o', 'k', 'e', 'n', 's'],
{
    let d = c.after_push_bytes(b);
    assert(d.pending_bytes == b);
    lemma_labels_show_confirmed_plus_pending(d);
    assert(d.label_text() =~= seq!['~'] + decimal((c.confirmed + (b + 3) / 4) as nat) + seq![
        ' ',
        'o',
        'u',
        't',
    ]);
    assert(d.working_label_text() =~= seq!['\u{2193}', ' ', '~'] + decimal(
        (c.confirmed + (b + 3) / 4) as nat,
    ) + seq![' ', 't', 'o', 'k', 'e', 'n', 's']);
}

/// Bytes add up in the stream they arrive in, the other fields unchanged, once
/// a turn has started.
pub proof fn lemma_push_adds_bytes_to_its_stream(
    c: LiveOutputTokens,
    b: u64,
    stream: ReasoningStream,
)
    requires
        c.started,
    ensures
        c.pending_bytes + b <= u64::MAX ==> c.after_push_bytes(b).pending_bytes == c.pending_bytes
            + b,
        c.after_push_bytes(b).reasoning_bytes == c.reasoning_bytes,
        c.after_push_bytes(b).summary_bytes == c.summary_bytes,
        c.after_push_bytes(b).confirmed == c.confirmed,
        stream is Raw && c.reasoning_bytes + b <= u64::MAX ==> c.after_push_reasoning(
            b,
            stream,
        ).reasoning_bytes == c.reasoning_bytes + b,
        stream is Raw ==> c.after_push_reasoning(b, stream).summary_bytes == c.summary_bytes,
        stream is Summary && c.summary_bytes + b <= u64::MAX ==> c.after_push_reasoning(
            b,
            stream,
        ).summary_bytes == c.summary_bytes + b,
        stream is Summary ==> c.after_push_reasoning(b, stream).reasoning_bytes
            == c.reasoning_bytes,
        c.after_push_reasoning(b, stream).pending_bytes == c.pending_bytes,
        c.after_push_reasoning(b, stream).confirmed == c.confirmed,
{
}

/// Reasoning deltas of one stream accumulate: two deltas leave the counter as
/// one delta of their combined length would.
pub proof fn lemma_reasoning_is_chunk_independent(
    c: LiveOutputTokens,
    a: u64,
    b: u64,
    stream: ReasoningStream,
)
    requires
        a + b <= u64::MAX,
    ensures
        c.after_push_reasoning(a, stream).after_push_reasoning(b, stream) == c.after_push_reasoning(
            (a + b) as u64,
            stream,
        ),
{
}

/// Byte deltas accumulate: two deltas leave the counter as one delta of their
/// combined length would.
pub proof fn lemma_bytes_are_chunk_independent(c: LiveOutputTokens, a: u64, b: u64)
    requires
        a + b <= u64::MAX,
    ensures
        c.after_push_bytes(a).after_push_bytes(b) == c.after_push_bytes((a + b) as u64),
{
}

/// A usage report against a known total that grew confirms exactly the growth,
/// drops the pending bytes and takes the new total as baseline; one without a
/// known total confirms the last response's output instead; one whose total
/// went down only takes the new total as baseline.
pub proof fn lemma_reconcile_confirms_reported_growth(
    c: LiveOutputTokens,
    previous: i64,
    total: i64,
    last: i64,
)
    requires
        c.started,
        c.last_total != Some(total),
    ensures
        c.after_reconcile(total, last).last_total == Some(total),
        c.after_reconcile(total, last).started,
        c.last_total == Some(previous) && previous < total && total - previous <= i64::MAX
            && c.confirmed + (total - previous) <= u64::MAX ==> {
            let d = c.after_reconcile(total, last);
            &&& d.confirmed == c.confirmed + (total - previous)
            &&& d.pending_bytes == 0 && d.reasoning_bytes == 0 && d.summary_bytes == 0
            &&& d.reported
        },
        c.last_total is None && 0 <= last && c.confirmed + last <= u64::MAX ==> {
            let d = c.after_reconcile(total, last);
            &&& d.confirmed == c.confirmed + last
            &&& d.pending_bytes == 0 && d.reasoning_bytes == 0 && d.summary_bytes == 0
            &&& d.reported
        },
        c.last_total == Some(previous) && total < previous ==> c.after_reconcile(total, last) == (
        LiveOutputTokens { last_total: Some(total), ..c }),
        c.last_total is None && last < 0 ==> c.after_reconcile(total, last) == (LiveOutputTokens {
            last_total: Some(total),
            ..c
        }),
{
}

/// A new turn starts from nothing counted, whatever was counted before.
pub proof fn lemma_start_forgets_the_past(total: Option<i64>)
    ensures
        LiveOutputTokens::started_at(total).started,
        LiveOutputTokens::started_at(total).last_total == total,
        LiveOutputTokens::started_at(total).confirmed == 0,
        LiveOutputTokens::started_at(total).pending_bytes == 0,
        LiveOutputTokens::started_at(total).reasoning_bytes == 0,
        LiveOutputTokens::started_at(total).summary_bytes == 0,
        !LiveOutputTokens::started_at(total).reported,
{
}

} // verus!
