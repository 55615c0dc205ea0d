//! Keeps output counts on the running status row across streaming reflow.
//!
//! The pane holds the label of the live output counter only while a task runs.
//! Setting it decides what the status row must do; the caller carries that out.

use vstd::prelude::*;

verus! {

/// What the status row must do after the live output label was set.
#[derive(PartialEq, Eq, Structural, Debug, Clone, Copy)]
pub enum StatusRowUpdate {
    /// The label is the one already shown: nothing to do.
    Unchanged,
    /// The label changed: ensure the status indicator exists where
    /// `ensure_status_indicator` is set, then sync the row's inline message
    /// and request a redraw.
    Changed { ensure_status_indicator: bool },
}

/// The part of the bottom pane that the live output label concerns.
pub struct BottomPane {
    /// A task is running.
    pub is_task_running: bool,
    /// The live output label shown on the status row.
    pub live_output_tokens: Option<String>,
}

/// The label that the pane keeps: none while no task runs.
pub open spec fn shown_label(is_task_running: bool, label: Option<Seq<char>>) -> Option<Seq<char>> {
    if is_task_running {
        label
    } else {
        None
    }
}

/// The status row update for replacing the label `current` by `shown`.
pub open spec fn status_row_update(current: Option<Seq<char>>, shown: Option<Seq<char>>) -> StatusRowUpdate {
    if current == shown {
        StatusRowUpdate::Unchanged
    } else {
        StatusRowUpdate::Changed { ensure_status_indicator: shown is Some }
    }
}

impl BottomPane {
    /// Sets the live output label of the status row; a label set while no
    /// task runs is dropped.
    pub fn set_live_output_tokens(&mut self, label: Option<String>) -> (update: StatusRowUpdate)
        ensures
            final(self).is_task_running == old(self).is_task_running,
            final(self).live_output_tokens.deep_view() == shown_label(
                old(self).is_task_running,
                label.deep_view(),
            ),
            update == status_row_update(
                old(self).live_output_tokens.deep_view(),
                shown_label(old(self).is_task_running, label.deep_view()),
            ),
    {
        let label = if self.is_task_running {
            label
        } else {
            None
        };
        let same = match (&self.live_output_tokens, &label) {
            (Some(current), Some(new)) => current.eq(new),
            (None, None) => true,
            _ => false,
        };
        if same {
            return StatusRowUpdate::Unchanged;
        }
        let ensure_status_indicator = label.is_some();
        self.live_output_tokens = label;
        StatusRowUpdate::Changed { ensure_status_indicator }
    }
}

/// Setting the label the pane already shows asks for no update, so repeated
/// labels cause no redraws; and no label is kept while no task runs.
pub proof fn lemma_repeated_label_is_unchanged(is_task_running: bool, label: Option<Seq<char>>)
    ensures
        status_row_update(
            shown_label(is_task_running, label),
            shown_label(is_task_running, label),
        ) == StatusRowUpdate::Unchanged,
        !is_task_running ==> shown_label(is_task_running, label) is None,
{
}

/// Only the label already shown asks for nothing; any other label asks for an
/// update, which ensures the status indicator exactly when a label is shown.
pub proof fn lemma_changed_label_asks_for_update(
    current: Option<Seq<char>>,
    shown: Option<Seq<char>>,
)
    ensures
        status_row_update(current, shown) == StatusRowUpdate::Unchanged <==> current == shown,
        current != shown ==> status_row_update(current, shown) == (StatusRowUpdate::Changed {
            ensure_status_indicator: shown is Some,
        }),
{
}

} // verus!
