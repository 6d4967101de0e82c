//! How a field's text is presented: password masking, the three display
//! sections around the cursor glyph, placeholder visibility, cursor
//! blinking, and the auto-scroll that keeps the cursor inside the viewport.

use vstd::prelude::*;

verus! {

/// Visibility of a display node, as the host's renderer understands it.
#[derive(Clone, Copy, PartialEq, Eq, Structural, Debug)]
pub enum Visibility {
    /// Visible whenever the parent is.
    Inherited,
    /// Never visible.
    Hidden,
    /// Always visible.
    Visible,
}

/// The next blink phase of a cursor glyph: a visible cursor hides, a hidden
/// one shows.
pub fn cursor_visibility(visibility: Visibility) -> (r: Visibility)
    ensures
        r == (match visibility {
            Visibility::Inherited => Visibility::Hidden,
            Visibility::Hidden => Visibility::Visible,
            Visibility::Visible => Visibility::Hidden,
        }),
{
    match visibility {
        Visibility::Inherited => Visibility::Hidden,
        Visibility::Hidden => Visibility::Visible,
        Visibility::Visible => Visibility::Hidden,
    }
}

/// What the mask turns the buffer into: the mask character repeated once per
/// buffered character, or the text itself when no mask is configured.
pub open spec fn masked_spec(value: Seq<char>, mask: Option<char>) -> Seq<char> {
    match mask {
        Option::Some(m) => Seq::new(value.len(), |i: int| m),
        Option::None => value,
    }
}

/// The displayed form of `value` under an optional mask character.
///
/// The display always has exactly as many characters as the buffer, so
/// masking hides the content but never the length; nothing ever maps the
/// masked form back.
pub fn masked_value(value: &Vec<char>, mask: Option<char>) -> (r: Vec<char>)
    ensures
        r@ == masked_spec(value@, mask),
        r@.len() == value@.len(),
{
    match mask {
        Option::Some(m) => {
            let mut r: Vec<char> = Vec::new();
            let mut i: usize = 0;
            while i < value.len()
                invariant
                    0 <= i <= value@.len(),
                    r@ =~= Seq::new(i as nat, |k: int| m),
                decreases value@.len() - i,
            {
                r.push(m);
                proof {
                    assert(r@ =~= Seq::new((i + 1) as nat, |k: int| m));
                }
                i += 1;
            }
            proof {
                assert(r@ =~= masked_spec(value@, mask));
            }
            r
        },
        Option::None => {
            let mut r: Vec<char> = Vec::new();
            let mut i: usize = 0;
            while i < value.len()
                invariant
                    0 <= i <= value@.len(),
                    r@ =~= value@.take(i as int),
                decreases value@.len() - i,
            {
                r.push(value[i]);
                proof {
                    assert(r@ =~= value@.take(i + 1));
                }
                i += 1;
            }
            proof {
                assert(value@.take(value@.len() as int) =~= value@);
            }
            r
        },
    }
}

/// The cursor glyph shown between the two text halves: the zero-width glyph
/// when the cursor sits at or past the end, the full-width one otherwise.
pub open spec fn cursor_glyph_spec(len: int, cursor_pos: int) -> char {
    if cursor_pos >= len {
        '}'
    } else {
        '|'
    }
}

/// Splits the displayed text into the part before the cursor, the cursor
/// glyph, and the part after the cursor.
pub fn get_section_values(value: &Vec<char>, cursor_pos: usize) -> (r: (
    Vec<char>,
    Vec<char>,
    Vec<char>,
))
    ensures
        r.0@ == value@.take(if cursor_pos <= value@.len() {
            cursor_pos as int
        } else {
            value@.len() as int
        }),
        r.1@ =~= seq![cursor_glyph_spec(value@.len() as int, cursor_pos as int)],
        r.2@ == value@.skip(if cursor_pos <= value@.len() {
            cursor_pos as int
        } else {
            value@.len() as int
        }),
{
    let stop = if cursor_pos < value.len() {
        cursor_pos
    } else {
        value.len()
    };
    let mut before: Vec<char> = Vec::new();
    let mut i: usize = 0;
    while i < stop
        invariant
            0 <= i <= stop <= value@.len(),
            before@ =~= value@.take(i as int),
        decreases stop - i,
    {
        before.push(value[i]);
        proof {
            assert(before@ =~= value@.take(i + 1));
        }
        i += 1;
    }
    let mut after: Vec<char> = Vec::new();
    let mut j: usize = stop;
    while j < value.len()
        invariant
            stop <= j <= value@.len(),
            after@ =~= value@.subrange(stop as int, j as int),
        decreases value@.len() - j,
    {
        after.push(value[j]);
        proof {
            assert(after@ =~= value@.subrange(stop as int, j + 1));
        }
        j += 1;
    }
    proof {
        assert(after@ =~= value@.skip(stop as int));
    }
    let mut glyph: Vec<char> = Vec::new();
    if cursor_pos >= value.len() {
        glyph.push('}');
    } else {
        glyph.push('|');
    }
    (before, glyph, after)
}

/// Whether the placeholder text is shown: only over an empty, inactive field.
pub fn placeholder_visibility(text_empty: bool, inactive: bool) -> (r: Visibility)
    ensures
        r == (if text_empty && inactive {
            Visibility::Inherited
        } else {
            Visibility::Hidden
        }),
{
    if text_empty && inactive {
        Visibility::Inherited
    } else {
        Visibility::Hidden
    }
}

/// One step of the cursor blink, on a field that accepts input: a pending
/// reset shows the cursor and clears the flag; otherwise a finished timer
/// tick toggles it; otherwise nothing changes. The results are the cursor's
/// visibility and the remaining reset flag.
pub fn blink_step(should_reset: bool, timer_finished: bool, visible: bool) -> (r: (bool, bool))
    ensures
        should_reset ==> r == (true, false),
        !should_reset && timer_finished ==> r == (!visible, false),
        !should_reset && !timer_finished ==> r == (visible, false),
{
    if should_reset {
        (true, false)
    } else if timer_finished {
        (!visible, false)
    } else {
        (visible, false)
    }
}

/// The clamp of `v` into `lo ..= hi` (callers keep `lo <= hi`).
pub open spec fn clamp_i64_spec(v: int, lo: int, hi: int) -> int {
    if v < lo {
        lo
    } else if v > hi {
        hi
    } else {
        v
    }
}

/// The horizontal offset, in layout units, that re-centres the cursor when it
/// has left the visible window, or `None` when the cursor is already visible.
///
/// `cursor_pos` is the cursor glyph's measured x-position within the text,
/// `box_pos` the text's current offset behind the window's left edge,
/// `parent_size` the window width and `child_size` the text width. The
/// returned offset is clamped so the window never scrolls past the text.
pub fn scroll_offset(cursor_pos: i64, box_pos: i64, parent_size: i64, child_size: i64) -> (r:
    Option<i64>)
    requires
        0 <= parent_size <= child_size,
        -0x2000_0000_0000_0000 <= cursor_pos <= 0x2000_0000_0000_0000,
        -0x2000_0000_0000_0000 <= box_pos <= 0x2000_0000_0000_0000,
        child_size <= 0x2000_0000_0000_0000,
    ensures
        r is Some <==> (cursor_pos - box_pos < 0 || cursor_pos - box_pos > parent_size),
        r is Some ==> r->0 == clamp_i64_spec(
            parent_size / 2 - cursor_pos,
            parent_size - child_size,
            0,
        ),
{
    let relative_pos = cursor_pos - box_pos;
    if relative_pos < 0 || relative_pos > parent_size {
        let req = parent_size / 2 - cursor_pos;
        let lo = parent_size - child_size;
        let clamped = if req < lo {
            lo
        } else if req > 0 {
            0
        } else {
            req
        };
        Some(clamped)
    } else {
        None
    }
}

} // verus!
