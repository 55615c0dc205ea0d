use codex_tui::bottom_pane::BottomPane;
use codex_tui::bottom_pane::StatusRowUpdate;
use codex_tui::tool_preview::bound_preview;
use codex_tui::tool_preview::needs_wrap;
use codex_tui::tool_preview::preview_hint;

#[test]
fn label_is_kept_only_while_a_task_runs() {
    let mut pane = BottomPane { is_task_running: false, live_output_tokens: None };
    assert_eq!(pane.set_live_output_tokens(Some("↓ ~2 tokens".into())), StatusRowUpdate::Unchanged);
    assert_eq!(pane.live_output_tokens, None);
    pane.is_task_running = true;
    assert_eq!(
        pane.set_live_output_tokens(Some("↓ ~2 tokens".into())),
        StatusRowUpdate::Changed { ensure_status_indicator: true }
    );
    assert_eq!(pane.live_output_tokens.as_deref(), Some("↓ ~2 tokens"));
    assert_eq!(pane.set_live_output_tokens(Some("↓ ~2 tokens".into())), StatusRowUpdate::Unchanged);
    assert_eq!(
        pane.set_live_output_tokens(None),
        StatusRowUpdate::Changed { ensure_status_indicator: false }
    );
    assert_eq!(pane.live_output_tokens, None);
}

#[test]
fn stopped_task_clears_a_shown_label() {
    let mut pane = BottomPane { is_task_running: false, live_output_tokens: Some("↓ 6 tokens".into()) };
    assert_eq!(
        pane.set_live_output_tokens(Some("↓ 7 tokens".into())),
        StatusRowUpdate::Changed { ensure_status_indicator: false }
    );
    assert_eq!(pane.live_output_tokens, None);
}

#[test]
fn hint_depends_on_width() {
    assert_eq!(preview_hint(80), "  └ … (ctrl+t to expand)");
    assert_eq!(preview_hint(28), "  └ … (ctrl+t to expand)");
    assert_eq!(preview_hint(27), "… (ctrl+t)");
    assert_eq!(preview_hint(12), "… (ctrl+t)");
    assert_eq!(preview_hint(11), "…");
    assert_eq!(preview_hint(1), "…");
    for width in 1..=100u16 {
        assert!(preview_hint(width).chars().count() <= usize::from(width));
    }
}

#[test]
fn wrapping_is_needed_only_for_overlong_lines() {
    assert!(!needs_wrap(&[3, 10, 10], 10, 5));
    assert!(needs_wrap(&[3, 11, 10], 10, 5));
    assert!(!needs_wrap(&[3, 11, 10], 0, 5));
    assert!(!needs_wrap(&[3, 11, 10], 10, 0));
    assert!(!needs_wrap(&[], 10, 5));
}

#[test]
fn preview_is_bounded_by_limit() {
    let lines: Vec<u32> = (0..10).collect();
    assert_eq!(bound_preview(lines.clone(), 80, 5, 99), vec![0, 1, 2, 3, 99]);
    assert_eq!(bound_preview(lines.clone(), 80, 10, 99), lines);
    assert_eq!(bound_preview(lines.clone(), 80, 1, 99), vec![99]);
    assert_eq!(bound_preview(lines.clone(), 0, 5, 99), Vec::<u32>::new());
    assert_eq!(bound_preview(lines.clone(), 80, 0, 99), Vec::<u32>::new());
    assert_eq!(bound_preview(Vec::new(), 80, 8, 99), Vec::<u32>::new());
}
