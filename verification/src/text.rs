//! Terminal-width-aware text truncation.
//!
//! Character display widths come from the `unicode-width` crate; the value
//! of a width is a function of the character alone, so it is carried here as
//! an uninterpreted name, and everything built on it — summing, fitting,
//! truncating with an ellipsis — is verified against that name.

use vstd::prelude::*;

use unicode_width::UnicodeWidthChar;

verus! {

/// The display width, in terminal columns, that `unicode-width` assigns to a
/// character (control characters counting as zero).
pub uninterp spec fn char_columns(c: char) -> nat;

/// Relies on `unicode_width::UnicodeWidthChar::width`: the character's
/// displayed width in columns, a pure function of the character; a control
/// character, for which the crate reports no width, counts as zero.
#[verifier::external_body]
fn char_display_width(c: char) -> (r: usize)
    ensures
        r == char_columns(c),
{
    UnicodeWidthChar::width(c).unwrap_or(0)
}

/// The total display width of a text: the sum of its characters' widths.
pub open spec fn text_columns(s: Seq<char>) -> nat
    decreases s.len(),
{
    if s.len() == 0 {
        0
    } else {
        text_columns(s.drop_last()) + char_columns(s.last())
    }
}

/// The display width of a text, saturating at `usize::MAX`.
pub fn text_width(text: &str) -> (r: usize)
    ensures
        r as nat == (if text_columns(text@) <= usize::MAX as nat {
            text_columns(text@)
        } else {
            usize::MAX as nat
        }),
{
    let n = text.unicode_len();
    let mut w: usize = 0;
    let mut i: usize = 0;
    while i < n
        invariant
            i <= n,
            n == text@.len(),
            w as nat == (if text_columns(text@.take(i as int)) <= usize::MAX as nat {
                text_columns(text@.take(i as int))
            } else {
                usize::MAX as nat
            }),
        decreases n - i,
    {
        let cw = char_display_width(text.get_char(i));
        proof {
            assert(text@.take(i + 1).drop_last() =~= text@.take(i as int));
            assert(text@.take(i + 1).last() == text@[i as int]);
        }
        w = if cw > usize::MAX - w {
            usize::MAX
        } else {
            w + cw
        };
        i = i + 1;
    }
    proof {
        assert(text@.take(n as int) =~= text@);
    }
    w
}

/// Whether the text's total width is at most `limit` (exactly, with no
/// saturation).
fn width_within(text: &str, limit: usize) -> (r: bool)
    ensures
        r == (text_columns(text@) <= limit as nat),
{
    let n = text.unicode_len();
    let mut w: usize = 0;
    let mut i: usize = 0;
    while i < n
        invariant
            i <= n,
            n == text@.len(),
            w <= limit,
            w as nat == text_columns(text@.take(i as int)),
        decreases n - i,
    {
        let cw = char_display_width(text.get_char(i));
        proof {
            assert(text@.take(i + 1).drop_last() =~= text@.take(i as int));
            assert(text@.take(i + 1).last() == text@[i as int]);
        }
        if cw > limit - w {
            proof {
                lemma_text_columns_monotonic(text@, i + 1, text@.len() as int);
            }
            return false;
        }
        w = w + cw;
        i = i + 1;
    }
    proof {
        assert(text@.take(n as int) =~= text@);
    }
    true
}

/// A longer prefix is at least as wide.
proof fn lemma_text_columns_monotonic(s: Seq<char>, a: int, b: int)
    requires
        0 <= a <= b <= s.len(),
    ensures
        text_columns(s.take(a)) <= text_columns(s.take(b)),
        text_columns(s.take(s.len() as int)) == text_columns(s),
    decreases b - a,
{
    if a < b {
        lemma_text_columns_monotonic(s, a + 1, b);
        assert(s.take(a + 1).drop_last() =~= s.take(a));
    }
    assert(s.take(s.len() as int) =~= s);
}

/// The end of the longest prefix, starting at `i`, whose characters fit a
/// remaining width budget, taking characters greedily from the left.
pub open spec fn greedy_fit_end(s: Seq<char>, i: int, budget: nat) -> int
    decreases s.len() - i,
{
    if i < 0 || i >= s.len() || char_columns(s[i]) > budget {
        i
    } else {
        greedy_fit_end(s, i + 1, (budget - char_columns(s[i])) as nat)
    }
}

/// Whether the character at `i` fits a remaining budget.
fn char_fits(text: &str, i: usize, budget: usize) -> (r: bool)
    requires
        i < text@.len(),
    ensures
        r == (char_columns(text@[i as int]) <= budget as nat),
{
    char_display_width(text.get_char(i)) <= budget
}

/// The longest prefix of the text that fits `target` columns, greedily.
fn greedy_fit_end_x(text: &str, target: usize) -> (r: usize)
    ensures
        r == greedy_fit_end(text@, 0, target as nat),
        r <= text@.len(),
{
    let n = text.unicode_len();
    let mut i: usize = 0;
    let mut budget = target;
    while i < n && char_fits(text, i, budget)
        invariant
            i <= n,
            n == text@.len(),
            greedy_fit_end(text@, 0, target as nat) == greedy_fit_end(text@, i as int, budget as nat),
        decreases n - i,
    {
        let cw = char_display_width(text.get_char(i));
        budget = budget - cw;
        i = i + 1;
    }
    i
}

/// The text truncated to `max_width` columns: unchanged when it already
/// fits, else the widest prefix fitting three columns fewer, with an
/// ellipsis appended.
pub open spec fn truncate_text_spec(s: Seq<char>, max_width: nat) -> Seq<char> {
    if text_columns(s) <= max_width {
        s
    } else {
        let target: nat = if max_width >= 3 {
            (max_width - 3) as nat
        } else {
            0
        };
        s.take(greedy_fit_end(s, 0, target)) + seq!['.', '.', '.']
    }
}

/// Truncate a text to at most `max_width` display columns, appending `...`
/// (three columns) when anything had to be dropped.
pub fn truncate_text(text: &str, max_width: usize) -> (r: String)
    ensures
        r@ == truncate_text_spec(text@, max_width as nat),
{
    if width_within(text, max_width) {
        return text.to_owned();
    }
    let target: usize = if max_width >= 3 {
        max_width - 3
    } else {
        0
    };
    let end = greedy_fit_end_x(text, target);
    let mut out = text.substring_char(0, end).to_owned();
    out.append("...");
    proof {
        reveal_strlit("...");
        assert(out@ =~= truncate_text_spec(text@, max_width as nat));
    }
    out
}

/// The number of terminal columns available for the title column of the
/// listing table, given the terminal's width: what remains after the fixed
/// columns (id, status, priority, due date, creation date) and the table's
/// own borders and padding, but never fewer than seven columns.
pub fn title_column_width(terminal_width: usize) -> (r: usize)
    ensures
        r >= 7,
{
    let id_width = text_width("999");
    let status_width = text_width("⏳ 대기중");
    let priority_width = text_width("🔴 높음");
    let due_width = text_width("2025-09-19 (10일 전)");
    let created_width = text_width("2025-09-19");
    let border_padding: usize = 20;
    let other = id_width.saturating_add(status_width).saturating_add(
        priority_width,
    ).saturating_add(due_width).saturating_add(created_width).saturating_add(border_padding);
    if terminal_width > other {
        let title_space = terminal_width - other;
        if title_space > 7 {
            title_space
        } else {
            7
        }
    } else {
        7
    }
}

/// Truncate a title for the listing table: to the measured terminal's title
/// column when a width is known, else to a generous fixed width of 50.
pub fn truncate_title_to_columns(title: &str, terminal_width: Option<usize>) -> (r: String)
    ensures
        terminal_width is None ==> r@ == truncate_text_spec(title@, 50),
{
    match terminal_width {
        Some(w) => truncate_text(title, title_column_width(w)),
        None => truncate_text(title, 50),
    }
}

} // verus!
