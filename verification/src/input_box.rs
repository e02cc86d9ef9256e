//! A one-line text field with a cursor, wrapped onto several rows for display.
use vstd::prelude::*;
use crate::keys::{KeyCode, KeyEvent};
use crate::text::{is_control, push_char, spec_is_control, string_of};

verus! {

/// The longest text an input box takes unless told otherwise.
pub const MAX_LENGTH: usize = 200;

/// The glyph that marks the cursor in the displayed text.
pub const CURSOR_GLYPH: char = '\u{2588}';

/// Editable text with a cursor position counted in chars.
pub struct InputBox {
    pub buffer: Vec<char>,
    pub cursor_pos: usize,
    pub max_length: usize,
}

/// The strings of `lines` one after the other.
pub open spec fn joined(lines: Seq<String>) -> Seq<char>
    decreases lines.len(),
{
    if lines.len() == 0 {
        Seq::empty()
    } else {
        joined(lines.drop_last()) + lines.last()@
    }
}

/// `s` cut into pieces of `width` chars, each full but the last, which is not empty.
pub open spec fn is_chunking(lines: Seq<String>, s: Seq<char>, width: int) -> bool {
    &&& lines.len() >= 1
    &&& joined(lines) == s
    &&& forall|i: int| 0 <= i < lines.len() - 1 ==> (#[trigger] lines[i])@.len() == width
    &&& 1 <= lines.last()@.len() <= width
}

/// How many pieces of `width` chars cover `n` chars (at least one).
pub open spec fn chunk_count(n: nat, width: nat) -> nat
    decreases n,
{
    if width == 0 || n <= width {
        1
    } else {
        1 + chunk_count((n - width) as nat, width)
    }
}

/// The text and cursor that a key press leads to, from `text` with the cursor
/// at `cur` and a limit of `max_length` chars.
pub open spec fn spec_input_after_key(text: Seq<char>, cur: int, max_length: int, key: KeyEvent) -> (
    Seq<char>,
    int,
) {
    match key.code {
        KeyCode::Char(c) => if !spec_is_control(c) && text.len() < max_length {
            (text.insert(cur, c), cur + 1)
        } else {
            (text, cur)
        },
        KeyCode::Backspace => if cur > 0 {
            (text.remove(cur - 1), cur - 1)
        } else {
            (text, cur)
        },
        KeyCode::Left => if cur > 0 {
            (text, cur - 1)
        } else {
            (text, cur)
        },
        KeyCode::Right => if cur < text.len() {
            (text, cur + 1)
        } else {
            (text, cur)
        },
        _ => (text, cur),
    }
}

impl InputBox {
    /// The cursor never stands past the end of the text.
    pub open spec fn wf(&self) -> bool {
        self.cursor_pos <= self.buffer.len()
    }

    /// The text as the user sees it, with the cursor glyph spliced in at the cursor.
    pub open spec fn spec_display(&self) -> Seq<char> {
        self.buffer@.subrange(0, self.cursor_pos as int).push(CURSOR_GLYPH) + self.buffer@.subrange(
            self.cursor_pos as int,
            self.buffer.len() as int,
        )
    }

    pub fn new() -> (b: InputBox)
        ensures
            b.wf(),
            b.buffer@ == Seq::<char>::empty(),
            b.cursor_pos == 0,
            b.max_length == MAX_LENGTH,
    {
        InputBox { buffer: Vec::new(), cursor_pos: 0, max_length: MAX_LENGTH }
    }

    pub fn with_max_length(max_length: usize) -> (b: InputBox)
        ensures
            b.wf(),
            b.buffer@ == Seq::<char>::empty(),
            b.cursor_pos == 0,
            b.max_length == max_length,
    {
        InputBox { buffer: Vec::new(), cursor_pos: 0, max_length }
    }

    pub fn clear(&mut self)
        ensures
            final(self).wf(),
            final(self).buffer@ == Seq::<char>::empty(),
            final(self).cursor_pos == 0,
            final(self).max_length == old(self).max_length,
    {
        self.buffer.clear();
        self.cursor_pos = 0;
    }

    /// The text typed so far.
    pub fn value(&self) -> (s: String)
        ensures
            s@ == self.buffer@,
    {
        string_of(&self.buffer)
    }

    pub fn cursor_pos(&self) -> (p: usize)
        ensures
            p == self.cursor_pos,
    {
        self.cursor_pos
    }

    /// Printable chars are inserted at the cursor while the text is shorter than
    /// the limit; Backspace deletes the char before the cursor; Left and Right move
    /// the cursor within the text; everything else is ignored.
    pub fn handle_key(&mut self, key: KeyEvent)
        requires
            old(self).wf(),
        ensures
            final(self).wf(),
            (final(self).buffer@, final(self).cursor_pos as int) == spec_input_after_key(
                old(self).buffer@,
                old(self).cursor_pos as int,
                old(self).max_length as int,
                key,
            ),
            final(self).max_length == old(self).max_length,
    {
        match key.code {
            KeyCode::Char(c) => {
                if !is_control(c) && self.buffer.len() < self.max_length {
                    self.buffer.insert(self.cursor_pos, c);
                    self.cursor_pos = self.cursor_pos + 1;
                }
            },
            KeyCode::Backspace => {
                if self.cursor_pos > 0 {
                    self.cursor_pos = self.cursor_pos - 1;
                    self.buffer.remove(self.cursor_pos);
                }
            },
            KeyCode::Left => {
                if self.cursor_pos > 0 {
                    self.cursor_pos = self.cursor_pos - 1;
                }
            },
            KeyCode::Right => {
                if self.cursor_pos < self.buffer.len() {
                    self.cursor_pos = self.cursor_pos + 1;
                }
            },
            _ => {},
        }
    }

    /// The displayed text: the cursor glyph stands at the cursor.
    pub fn display_string(&self) -> (v: Vec<char>)
        requires
            self.wf(),
        ensures
            v@ == self.spec_display(),
    {
        let mut v: Vec<char> = Vec::new();
        let mut i: usize = 0;
        while i < self.cursor_pos
            invariant
                self.wf(),
                i <= self.cursor_pos,
                v@ == self.buffer@.subrange(0, i as int),
            decreases self.cursor_pos - i,
        {
            v.push(self.buffer[i]);
            i = i + 1;
        }
        v.push(CURSOR_GLYPH);
        while i < self.buffer.len()
            invariant
                self.wf(),
                self.cursor_pos <= i <= self.buffer.len(),
                v@ == self.buffer@.subrange(0, self.cursor_pos as int).push(CURSOR_GLYPH)
                    + self.buffer@.subrange(self.cursor_pos as int, i as int),
            decreases self.buffer.len() - i,
        {
            v.push(self.buffer[i]);
            i = i + 1;
            assert(self.buffer@.subrange(self.cursor_pos as int, i as int) =~= self.buffer@.subrange(
                self.cursor_pos as int,
                i - 1,
            ).push(self.buffer@[i - 1]));
        }
        v
    }

    /// The displayed text cut into rows of `width` chars (a width of 0 counts as 1).
    pub fn wrapped_lines(&self, width: u16) -> (lines: Vec<String>)
        requires
            self.wf(),
        ensures
            is_chunking(lines@, self.spec_display(), if width == 0 {
                1
            } else {
                width as int
            }),
            lines.len() == chunk_count(
                self.spec_display().len(),
                if width == 0 {
                    1
                } else {
                    width as nat
                },
            ),
    {
        let w: usize = if width == 0 {
            1
        } else {
            width as usize
        };
        assert(w as int == if width == 0 {
            1
        } else {
            width as int
        });
        let chars = self.display_string();
        let n = chars.len();
        let mut lines: Vec<String> = Vec::new();
        let mut start: usize = 0;
        while start < n
            invariant
                chars@ == self.spec_display(),
                n == chars.len(),
                n >= 1,
                w >= 1,
                w as int == if width == 0 {
                    1
                } else {
                    width as int
                },
                start < n,
                joined(lines@) == chars@.subrange(0, start as int),
                forall|i: int| 0 <= i < lines.len() ==> (#[trigger] lines@[i])@.len() == w,
                start > 0 ==> lines.len() >= 1,
                lines.len() + chunk_count((n - start) as nat, w as nat) == chunk_count(
                    n as nat,
                    w as nat,
                ),
            decreases n - start,
        {
            let end = if n - start > w {
                start + w
            } else {
                n
            };
            let mut piece: Vec<char> = Vec::new();
            let mut j = start;
            while j < end
                invariant
                    start <= j <= end <= n,
                    n == chars.len(),
                    piece@ == chars@.subrange(start as int, j as int),
                decreases end - j,
            {
                piece.push(chars[j]);
                j = j + 1;
            }
            let line = string_of(&piece);
            assert(chunk_count((n - start) as nat, w as nat) == if end == n {
                1
            } else {
                1 + chunk_count((n - end) as nat, w as nat)
            });
            if end < n {
                assert(line@.len() == w);
            }
            let ghost old_lines = lines@;
            lines.push(line);
            assert(lines@.drop_last() =~= old_lines);
            assert(chars@.subrange(0, end as int) =~= chars@.subrange(0, start as int)
                + chars@.subrange(start as int, end as int));
            if end == n {
                assert(line@.len() == end - start);
                assert(lines@.last() == line);
                assert(joined(lines@) == chars@);
                assert(forall|i: int| 0 <= i < lines.len() - 1 ==> (#[trigger] lines@[i])@.len() == w) by {
                    assert(forall|i: int| 0 <= i < lines.len() - 1 ==> lines@[i] == old_lines[i]);
                }
                assert(chars@.subrange(0, n as int) =~= chars@);
                assert(is_chunking(lines@, self.spec_display(), w as int));
                return lines;
            }
            start = end;
        }
        lines
    }

    /// How many rows the displayed text takes at `width`, at most `u16::MAX`.
    pub fn line_count(&self, width: u16) -> (c: u16)
        requires
            self.wf(),
        ensures
            c as nat == if chunk_count(
                self.spec_display().len(),
                if width == 0 {
                    1
                } else {
                    width as nat
                },
            ) > u16::MAX {
                u16::MAX as nat
            } else {
                chunk_count(
                    self.spec_display().len(),
                    if width == 0 {
                        1
                    } else {
                        width as nat
                    },
                )
            },
            c >= 1,
    {
        let lines = self.wrapped_lines(width);
        if lines.len() > 65535 {
            65535
        } else {
            lines.len() as u16
        }
    }
}

/// A key press keeps the cursor within the text and the text within the
/// limit, and changes the length by at most one char.
pub proof fn law_input_stays_within_limit(text: Seq<char>, cur: int, max_length: int, key: KeyEvent)
    requires
        0 <= cur <= text.len(),
        text.len() <= max_length,
    ensures
        ({
            let (t, c) = spec_input_after_key(text, cur, max_length, key);
            &&& 0 <= c <= t.len()
            &&& t.len() <= max_length
            &&& text.len() - 1 <= t.len() <= text.len() + 1
        }),
{
}

} // verus!
