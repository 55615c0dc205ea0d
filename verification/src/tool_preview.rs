//! Bounded conversation previews; history cells retain their expanded transcript.
//!
//! A preview is at most `limit` lines of at most `width` columns. Lines wider
//! than the terminal are word-wrapped first; where the wrapped lines do not fit
//! in `limit`, the last kept line is replaced by a hint to open the transcript.

use vstd::prelude::*;

verus! {

/// The hint line that closes a truncated preview, by terminal width.
pub open spec fn hint_text(width: u16) -> Seq<char> {
    if width >= 28 {
        "  \u{2514} \u{2026} (ctrl+t to expand)"@
    } else if width >= 12 {
        "\u{2026} (ctrl+t)"@
    } else {
        "\u{2026}"@
    }
}

/// The lines of a preview made from the (already wrapped) lines `wrapped`:
/// nothing at zero width or zero limit, all lines where they fit in `limit`,
/// else the first `limit - 1` lines and the hint.
pub open spec fn bounded_preview<T>(wrapped: Seq<T>, width: u16, limit: usize, hint: T) -> Seq<T> {
    if width == 0 || limit == 0 {
        Seq::empty()
    } else if wrapped.len() <= limit {
        wrapped
    } else {
        wrapped.take(limit - 1).push(hint)
    }
}

/// The text of the hint line for a terminal `width` columns wide.
pub fn preview_hint(width: u16) -> (hint: &'static str)
    ensures
        hint@ == hint_text(width),
{
    if width >= 28 {
        "  \u{2514} \u{2026} (ctrl+t to expand)"
    } else if width >= 12 {
        "\u{2026} (ctrl+t)"
    } else {
        "\u{2026}"
    }
}

/// Whether lines of the display widths `widths` must be wrapped before a
/// preview `width` columns wide and `limit` lines long is cut from them.
pub fn needs_wrap(widths: &[usize], width: u16, limit: usize) -> (wrap: bool)
    ensures
        wrap == (width != 0 && limit != 0 && exists|i: int|
            0 <= i < widths@.len() && widths@[i] > width),
{
    if width == 0 || limit == 0 {
        return false;
    }
    let mut i: usize = 0;
    while i < widths.len()
        invariant
            width != 0,
            limit != 0,
            i <= widths@.len(),
            forall|j: int| 0 <= j < i ==> widths@[j] <= width,
        decreases widths@.len() - i,
    {
        if widths[i] > width as usize {
            return true;
        }
        i = i + 1;
    }
    false
}

/// Cuts a preview out of the wrapped lines `wrapped`, closing it with `hint`
/// where lines were left out.
pub fn bound_preview<T>(wrapped: Vec<T>, width: u16, limit: usize, hint: T) -> (preview: Vec<T>)
    ensures
        preview@ == bounded_preview(wrapped@, width, limit, hint),
{
    if width == 0 || limit == 0 {
        return Vec::new();
    }
    if wrapped.len() <= limit {
        return wrapped;
    }
    let mut preview = wrapped;
    preview.truncate(limit - 1);
    preview.push(hint);
    preview
}

/// A preview never has more than `limit` lines; each of them is, in order, a
/// line of the wrapped text, except a closing hint where lines were left out.
pub proof fn lemma_preview_is_bounded<T>(wrapped: Seq<T>, width: u16, limit: usize, hint: T)
    ensures
        bounded_preview(wrapped, width, limit, hint).len() <= limit,
        bounded_preview(wrapped, width, limit, hint).len() <= wrapped.len(),
        forall|i: int|
            0 <= i < bounded_preview(wrapped, width, limit, hint).len() ==> (
            #[trigger] bounded_preview(wrapped, width, limit, hint)[i] == wrapped[i] || (
            wrapped.len() > limit && i == limit - 1 && bounded_preview(wrapped, width, limit, hint)[i]
                == hint)),
{
}

/// A preview that fits is the wrapped text itself: short output and its
/// styles are kept as they are.
pub proof fn lemma_short_preview_is_unchanged<T>(wrapped: Seq<T>, width: u16, limit: usize, hint: T)
    requires
        width > 0,
        wrapped.len() <= limit,
    ensures
        bounded_preview(wrapped, width, limit, hint) == wrapped,
{
}

/// The hint chosen for a width is never wider than that width (each of its
/// characters takes one column).
pub proof fn lemma_hint_fits_width(width: u16)
    requires
        width > 0,
    ensures
        hint_text(width).len() <= width,
{
    reveal_strlit("  \u{2514} \u{2026} (ctrl+t to expand)");
    reveal_strlit("\u{2026} (ctrl+t)");
    reveal_strlit("\u{2026}");
}

/// Whenever lines were left out, the preview is exactly `limit` lines: the
/// first `limit - 1` wrapped lines in order, then the hint.
pub proof fn lemma_cut_preview_ends_with_hint<T>(wrapped: Seq<T>, width: u16, limit: usize, hint: T)
    requires
        width > 0,
        limit > 0,
        wrapped.len() > limit,
    ensures
        bounded_preview(wrapped, width, limit, hint).len() == limit,
        bounded_preview(wrapped, width, limit, hint)[limit - 1] == hint,
        forall|i: int|
            0 <= i < limit - 1 ==> #[trigger] bounded_preview(wrapped, width, limit, hint)[i]
                == wrapped[i],
        bounded_preview(wrapped, width, limit, hint) == wrapped.take(limit - 1).push(hint),
{
    assert(bounded_preview(wrapped, width, limit, hint) =~= wrapped.take(limit - 1).push(hint));
}

/// A zero width or a zero limit gives an empty preview.
pub proof fn lemma_no_room_gives_empty_preview<T>(wrapped: Seq<T>, width: u16, limit: usize, hint: T)
    requires
        width == 0 || limit == 0,
    ensures
        bounded_preview(wrapped, width, limit, hint).len() == 0,
{
}

} // verus!
