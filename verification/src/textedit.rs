//! A single-line text-edit widget: cursor and selection state, key
//! handling, word motion, click placement under a monospace metric, and an
//! undo/redo history of edit entries.
//!
//! Positions count characters, not bytes.  The widget consumes the
//! `Response` its id received from the interaction machine; a double click
//! selects the whole text.

use vstd::prelude::*;
use crate::response::Response;

verus! {

/// Relies on `String::push`: appends the given character to the end of the
/// string.
pub assume_specification[ String::push ](s: &mut String, ch: char)
    ensures
        final(s)@ == old(s)@.push(ch),
;

/// Relies on `char::from_u32`: yields the character with the given code
/// point, or `None` for surrogate code points and values beyond the
/// largest code point.
pub assume_specification[ char::from_u32 ](i: u32) -> (r: Option<char>)
    ensures
        r matches Some(c) ==> c as u32 == i,
        (r is Some) == (i < 0xD800 || (0xE000 <= i && i <= 0x10FFFF)),
;

/// Key-code flag for a held shift.
pub const TEXTEDIT_K_SHIFT: i32 = 0x4000_0000;

/// Key-code flag for a held control.
pub const TEXTEDIT_K_CONTROL: i32 = 0x2000_0000;

/// Cursor left.
pub const KEY_LEFT: i32 = 0x100;

/// Cursor right.
pub const KEY_RIGHT: i32 = 0x101;

/// Line start.
pub const KEY_LINESTART: i32 = 0x102;

/// Line end.
pub const KEY_LINEEND: i32 = 0x103;

/// Delete forwards.
pub const KEY_DELETE: i32 = 0x104;

/// Delete backwards.
pub const KEY_BACKSPACE: i32 = 0x105;

/// Undo the last edit.
pub const KEY_UNDO: i32 = 0x106;

/// Redo the last undone edit.
pub const KEY_REDO: i32 = 0x107;

/// Toggle insert mode.
pub const KEY_INSERT: i32 = 0x108;

/// Word left.
pub const KEY_WORDLEFT: i32 = KEY_LEFT | TEXTEDIT_K_CONTROL;

/// Word right.
pub const KEY_WORDRIGHT: i32 = KEY_RIGHT | TEXTEDIT_K_CONTROL;

/// How many characters the string holds, capped at `i32::MAX`.
pub open spec fn spec_string_len(s: Seq<char>) -> int {
    if s.len() > i32::MAX {
        i32::MAX as int
    } else {
        s.len() as int
    }
}

/// The number of characters in `string`, capped at `i32::MAX`.
pub fn string_len(string: &str) -> (n: i32)
    ensures
        n == spec_string_len(string@),
{
    let len = string.unicode_len();
    if len > i32::MAX as usize {
        i32::MAX
    } else {
        len as i32
    }
}

/// `pos` clamped into `[0, len]` as a character index.
pub open spec fn spec_clamp_pos(pos: i32, len: int) -> int {
    if pos < 0 {
        0
    } else if pos > len {
        len
    } else {
        pos as int
    }
}

/// The string with `num` characters removed at character position `pos`;
/// positions beyond the text clamp to its end.
pub fn delete_chars(string: &mut String, pos: i32, num: i32)
    requires
        old(string)@.len() <= i32::MAX,
    ensures
        ({
            let s = old(string)@;
            let start = spec_clamp_pos(pos, s.len() as int);
            let end = if num < 0 {
                start
            } else {
                spec_clamp_pos(pos, s.len() as int) + (if num > s.len() - start {
                    s.len() - start
                } else {
                    num as int
                })
            };
            final(string)@ == s.take(start) + s.skip(end)
        }),
{
    let s0 = string.as_str();
    let n = string.unicode_len();
    let start: usize = if pos < 0 {
        0
    } else if pos as usize > n {
        n
    } else {
        pos as usize
    };
    let avail: usize = n - start;
    let take: usize = if num < 0 {
        0
    } else if num as usize > avail {
        avail
    } else {
        num as usize
    };
    let end: usize = start + take;
    let prefix = s0.substring_char(0, start);
    let suffix = s0.substring_char(end, n);
    let joined = prefix.to_owned().concat(suffix);
    *string = joined;
    proof {
        assert(final(string)@ =~= old(string)@.take(start as int) + old(string)@.skip(end as int));
    }
}

/// The string with `newtext` inserted at character position `pos`;
/// positions beyond the text clamp to its end.
pub fn insert_chars(string: &mut String, pos: i32, newtext: &str)
    requires
        old(string)@.len() <= i32::MAX,
    ensures
        ({
            let s = old(string)@;
            let at = spec_clamp_pos(pos, s.len() as int);
            final(string)@ == s.take(at) + newtext@ + s.skip(at)
        }),
{
    let s0 = string.as_str();
    let n = string.unicode_len();
    let at: usize = if pos < 0 {
        0
    } else if pos as usize > n {
        n
    } else {
        pos as usize
    };
    let prefix = s0.substring_char(0, at);
    let suffix = s0.substring_char(at, n);
    let joined = prefix.to_owned().concat(newtext).concat(suffix);
    *string = joined;
    proof {
        assert(final(string)@ =~= old(string)@.take(at as int) + newtext@ + old(string)@.skip(
            at as int,
        ));
    }
}

/// The character at character position `pos`, or the null character past
/// the end or before the start.
pub fn get_char(string: &str, pos: i32) -> (c: char)
    ensures
        0 <= pos < string@.len() ==> c == string@[pos as int],
        !(0 <= pos < string@.len()) ==> c == '\u{0}',
{
    if pos < 0 {
        return '\u{0}';
    }
    let n = string.unicode_len();
    if (pos as usize) < n {
        string.get_char(pos as usize)
    } else {
        '\u{0}'
    }
}

/// Whether `c` separates words: the blank and control characters below
/// visible ASCII, mirroring simple whitespace.
pub fn is_space(c: char) -> (r: bool)
    ensures
        r == (c == ' ' || c == '\t' || c == '\n' || c == '\r'),
{
    c == ' ' || c == '\t' || c == '\n' || c == '\r'
}

/// The character a key code inserts: the code with the modifier flags
/// stripped, when it is a valid character.
pub fn key_to_text(key: i32) -> (r: Option<char>)
    ensures
        0 <= key < 0xD800 ==> (r matches Some(c) && c as u32 == key as u32),
{
    proof {
        let k = key as u32;
        if 0 <= key < 0xD800 {
            assert(k & !(0x4000_0000u32) & !(0x2000_0000u32) == k) by (bit_vector)
                requires
                    k < 0xD800,
            ;
        }
    }
    let stripped: u32 = (key as u32) & !(TEXTEDIT_K_SHIFT as u32) & !(TEXTEDIT_K_CONTROL as u32);
    char::from_u32(stripped)
}

proof fn lemma_key_constants()
    ensures
        KEY_UNDO | TEXTEDIT_K_CONTROL == 0x2000_0106,
        KEY_REDO | TEXTEDIT_K_CONTROL == 0x2000_0107,
        KEY_WORDLEFT == 0x2000_0100,
        KEY_WORDRIGHT == 0x2000_0101,
        KEY_LEFT | TEXTEDIT_K_SHIFT == 0x4000_0100,
        KEY_RIGHT | TEXTEDIT_K_SHIFT == 0x4000_0101,
        KEY_WORDLEFT | TEXTEDIT_K_SHIFT == 0x6000_0100,
        KEY_WORDRIGHT | TEXTEDIT_K_SHIFT == 0x6000_0101,
        KEY_DELETE | TEXTEDIT_K_SHIFT == 0x4000_0104,
        KEY_BACKSPACE | TEXTEDIT_K_SHIFT == 0x4000_0105,
        KEY_LINESTART | TEXTEDIT_K_SHIFT == 0x4000_0102,
        KEY_LINEEND | TEXTEDIT_K_SHIFT == 0x4000_0103,
{
    assert(0x106i32 | 0x2000_0000i32 == 0x2000_0106i32) by (bit_vector);
    assert(0x107i32 | 0x2000_0000i32 == 0x2000_0107i32) by (bit_vector);
    assert(0x100i32 | 0x2000_0000i32 == 0x2000_0100i32) by (bit_vector);
    assert(0x101i32 | 0x2000_0000i32 == 0x2000_0101i32) by (bit_vector);
    assert(0x100i32 | 0x4000_0000i32 == 0x4000_0100i32) by (bit_vector);
    assert(0x101i32 | 0x4000_0000i32 == 0x4000_0101i32) by (bit_vector);
    assert(0x2000_0100i32 | 0x4000_0000i32 == 0x6000_0100i32) by (bit_vector);
    assert(0x2000_0101i32 | 0x4000_0000i32 == 0x6000_0101i32) by (bit_vector);
    assert(0x104i32 | 0x4000_0000i32 == 0x4000_0104i32) by (bit_vector);
    assert(0x105i32 | 0x4000_0000i32 == 0x4000_0105i32) by (bit_vector);
    assert(0x102i32 | 0x4000_0000i32 == 0x4000_0102i32) by (bit_vector);
    assert(0x103i32 | 0x4000_0000i32 == 0x4000_0103i32) by (bit_vector);
}

/// Whether a key code is one of the editor's command keys rather than a
/// plain character.
pub open spec fn spec_command_key(key: i32) -> bool {
    ||| key == KEY_INSERT
    ||| key == (KEY_UNDO | TEXTEDIT_K_CONTROL)
    ||| key == (KEY_REDO | TEXTEDIT_K_CONTROL)
    ||| key == KEY_LEFT
    ||| key == KEY_RIGHT
    ||| key == (KEY_LEFT | TEXTEDIT_K_SHIFT)
    ||| key == (KEY_RIGHT | TEXTEDIT_K_SHIFT)
    ||| key == KEY_WORDLEFT
    ||| key == (KEY_WORDLEFT | TEXTEDIT_K_SHIFT)
    ||| key == KEY_WORDRIGHT
    ||| key == (KEY_WORDRIGHT | TEXTEDIT_K_SHIFT)
    ||| key == KEY_DELETE
    ||| key == (KEY_DELETE | TEXTEDIT_K_SHIFT)
    ||| key == KEY_BACKSPACE
    ||| key == (KEY_BACKSPACE | TEXTEDIT_K_SHIFT)
    ||| key == KEY_LINESTART
    ||| key == KEY_LINEEND
    ||| key == (KEY_LINESTART | TEXTEDIT_K_SHIFT)
    ||| key == (KEY_LINEEND | TEXTEDIT_K_SHIFT)
}

/// Whether a key code only moves the cursor or the selection: it never
/// changes the text.
pub open spec fn spec_motion_key(key: i32) -> bool {
    ||| key == KEY_INSERT
    ||| key == KEY_LEFT
    ||| key == KEY_RIGHT
    ||| key == (KEY_LEFT | TEXTEDIT_K_SHIFT)
    ||| key == (KEY_RIGHT | TEXTEDIT_K_SHIFT)
    ||| key == KEY_WORDLEFT
    ||| key == (KEY_WORDLEFT | TEXTEDIT_K_SHIFT)
    ||| key == KEY_WORDRIGHT
    ||| key == (KEY_WORDRIGHT | TEXTEDIT_K_SHIFT)
    ||| key == KEY_LINESTART
    ||| key == KEY_LINEEND
    ||| key == (KEY_LINESTART | TEXTEDIT_K_SHIFT)
    ||| key == (KEY_LINEEND | TEXTEDIT_K_SHIFT)
}

/// One recorded edit: where it happened, the characters it removed and how
/// many characters it inserted.
pub struct UndoRecord {
    pub where_0: i32,
    pub deleted: Vec<char>,
    pub insert_length: i32,
}

/// The undo and redo stacks; the undo side keeps at most `UNDO_CAP`
/// entries, dropping the oldest.
pub struct UndoState {
    pub undo: Vec<UndoRecord>,
    pub redo: Vec<UndoRecord>,
}

/// How many edits the history keeps.
pub const UNDO_CAP: usize = 99;

impl UndoState {
    /// An empty history.
    pub fn new() -> (s: UndoState)
        ensures
            s.undo@.len() == 0,
            s.redo@.len() == 0,
    {
        UndoState { undo: Vec::new(), redo: Vec::new() }
    }

    /// Drops the redo stack: a fresh edit forks history.
    pub fn flush_redo(&mut self)
        ensures
            final(self).redo@.len() == 0,
            final(self).undo == old(self).undo,
    {
        self.redo.clear();
    }

    /// Drops the oldest undo entry to make room.
    pub fn discard_undo(&mut self)
        ensures
            old(self).undo@.len() > 0 ==> final(self).undo@ == old(self).undo@.drop_first(),
            old(self).undo@.len() == 0 ==> final(self).undo@ == old(self).undo@,
            final(self).redo == old(self).redo,
    {
        if self.undo.len() > 0 {
            self.undo.remove(0);
        }
    }

    /// Records one edit on the undo stack, dropping the oldest entry when
    /// the stack is full; a fresh edit empties the redo stack.
    pub fn create_undo(&mut self, record: UndoRecord)
        ensures
            final(self).redo@.len() == 0,
            final(self).undo@.len() <= UNDO_CAP,
            final(self).undo@.len() > 0,
            final(self).undo@.last() == record,
    {
        self.flush_redo();
        while self.undo.len() >= UNDO_CAP
            invariant
                self.redo@.len() == 0,
            decreases self.undo@.len(),
        {
            let before = self.undo.len();
            self.discard_undo();
            proof {
                assert(self.undo@.len() < before);
            }
        }
        self.undo.push(record);
    }
}

/// A single-line text editor: the text, the cursor, the selection and the
/// edit history.
pub struct TextEdit {
    /// The text being edited.
    pub string: String,
    /// The largest character count edits may grow the text to.
    pub limit: i32,
    /// Whether the editor has keyboard focus.
    pub active: bool,
    /// Whether dragging is suppressed until the next release.
    pub no_drag: bool,
    /// The cursor's character position.
    pub cursor: i32,
    /// Where the selection started.
    pub select_start: i32,
    /// Where the selection ends; equal to `select_start` when empty.
    pub select_end: i32,
    /// Whether typing overwrites instead of inserting.
    pub insert_mode: bool,
    /// The edit history.
    pub undostate: UndoState,
}

/// The editor's positions all point into the text.
pub open spec fn spec_textedit_wf(t: TextEdit) -> bool {
    &&& t.string@.len() <= i32::MAX
    &&& 0 <= t.cursor <= spec_string_len(t.string@)
    &&& 0 <= t.select_start <= spec_string_len(t.string@)
    &&& 0 <= t.select_end <= spec_string_len(t.string@)
}

impl TextEdit {
    /// An editor over `string`, fully selected, cursor at the end.
    pub fn new(string: String, limit: i32) -> (t: TextEdit)
        requires
            string@.len() <= i32::MAX,
        ensures
            spec_textedit_wf(t),
            t.string@ == string@,
            t.limit == limit,
            !t.active,
            t.cursor == spec_string_len(string@),
            t.select_start == 0,
            t.select_end == spec_string_len(string@),
            t.undostate.undo@.len() == 0,
            t.undostate.redo@.len() == 0,
    {
        let n = string_len(string.as_str());
        TextEdit {
            string,
            limit,
            active: false,
            no_drag: false,
            cursor: n,
            select_start: 0,
            select_end: n,
            insert_mode: false,
            undostate: UndoState::new(),
        }
    }

    /// Pulls the cursor and the selection back into the text.
    pub fn clamp(&mut self)
        requires
            old(self).string@.len() <= i32::MAX,
        ensures
            final(self).string == old(self).string,
            0 <= final(self).cursor <= spec_string_len(final(self).string@),
            old(self).select_start != old(self).select_end ==> 0 <= final(self).select_start
                <= spec_string_len(final(self).string@) && 0 <= final(self).select_end
                <= spec_string_len(final(self).string@),
            ({
                let same = old(self).select_start == old(self).select_end;
                &&& same ==> final(self).select_start == old(self).select_start
                &&& same ==> final(self).select_end == old(self).select_end
                &&& same ==> final(self).cursor == spec_clamp_pos(
                    old(self).cursor,
                    old(self).string@.len() as int,
                )
            }),
            final(self).active == old(self).active,
            final(self).no_drag == old(self).no_drag,
            final(self).insert_mode == old(self).insert_mode,
    {
        let n = string_len(self.string.as_str());
        if self.select_start != self.select_end {
            if self.select_start > n {
                self.select_start = n;
            }
            if self.select_start < 0 {
                self.select_start = 0;
            }
            if self.select_end > n {
                self.select_end = n;
            }
            if self.select_end < 0 {
                self.select_end = 0;
            }
            if self.select_start == self.select_end {
                self.cursor = self.select_start;
            }
        }
        if self.cursor > n {
            self.cursor = n;
        }
        if self.cursor < 0 {
            self.cursor = 0;
        }
    }

    fn sortselection(&mut self)
        ensures
            final(self).select_start <= final(self).select_end,
            final(self).select_start == if old(self).select_end < old(self).select_start {
                old(self).select_end
            } else {
                old(self).select_start
            },
            final(self).select_end == if old(self).select_end < old(self).select_start {
                old(self).select_start
            } else {
                old(self).select_end
            },
            final(self).string == old(self).string,
            final(self).cursor == old(self).cursor,
            final(self).active == old(self).active,
    {
        if self.select_end < self.select_start {
            let t = self.select_end;
            self.select_end = self.select_start;
            self.select_start = t;
        }
    }

    /// Collapses the selection onto its first end.
    pub fn move_to_first(&mut self)
        requires
            old(self).string@.len() <= i32::MAX,
        ensures
            final(self).string == old(self).string,
            final(self).select_start == final(self).select_end,
    {
        if self.select_start != self.select_end {
            self.sortselection();
            self.cursor = self.select_start;
            self.select_end = self.select_start;
        }
    }

    /// Collapses the selection onto its last end.
    pub fn move_to_last(&mut self)
        requires
            old(self).string@.len() <= i32::MAX,
        ensures
            final(self).string == old(self).string,
            final(self).select_start == final(self).select_end,
    {
        if self.select_start != self.select_end {
            self.sortselection();
            self.clamp();
            self.cursor = self.select_end;
            self.select_start = self.select_end;
        }
    }

    fn is_word_boundary(&self, idx: i32) -> (r: bool)
        requires
            self.string@.len() <= i32::MAX,
    {
        if idx > 0 {
            let before = get_char(self.string.as_str(), idx - 1);
            let here = get_char(self.string.as_str(), idx);
            let before_space = before == ' ' || before == '\t' || before == '\n' || before == '\r';
            let here_space = here == ' ' || here == '\t' || here == '\n' || here == '\r';
            before_space && !here_space
        } else {
            true
        }
    }

    fn move_to_word_previous(&self, start: i32) -> (r: i32)
        requires
            self.string@.len() <= i32::MAX,
            start <= spec_string_len(self.string@),
        ensures
            0 <= r <= spec_string_len(self.string@),
    {
        let mut c: i32 = if start > 0 {
            start - 1
        } else {
            -1
        };
        while c >= 0 && !self.is_word_boundary(c)
            invariant
                self.string@.len() <= i32::MAX,
                c <= spec_string_len(self.string@),
                c >= -1,
            decreases c + 1,
        {
            c = c - 1;
        }
        if c < 0 {
            0
        } else {
            c
        }
    }

    fn move_to_word_next(&self, start: i32) -> (r: i32)
        requires
            self.string@.len() <= i32::MAX,
            0 <= start,
        ensures
            0 <= r <= spec_string_len(self.string@),
    {
        let len = string_len(self.string.as_str());
        let mut c: i32 = if start < len {
            start + 1
        } else {
            len
        };
        while c < len && !self.is_word_boundary(c)
            invariant
                self.string@.len() <= i32::MAX,
                0 <= c <= len,
                len == spec_string_len(self.string@),
            decreases len - c,
        {
            c = c + 1;
        }
        if c > len {
            len
        } else {
            c
        }
    }

    fn prep_selection_at_cursor(&mut self)
        ensures
            final(self).string == old(self).string,
    {
        if self.select_start == self.select_end {
            self.select_end = self.cursor;
            self.select_start = self.cursor;
        } else {
            self.cursor = self.select_end;
        }
    }

    fn delete(&mut self, where_0: i32, len: i32)
        requires
            old(self).string@.len() <= i32::MAX,
        ensures
            ({
                let s = old(self).string@;
                let start = spec_clamp_pos(where_0, s.len() as int);
                let end = if len < 0 {
                    start
                } else {
                    start + (if len > s.len() - start {
                        s.len() - start
                    } else {
                        len as int
                    })
                };
                final(self).string@ == s.take(start) + s.skip(end)
            }),
            final(self).string@.len() <= old(self).string@.len(),
            final(self).cursor == old(self).cursor,
            final(self).select_start == old(self).select_start,
            final(self).select_end == old(self).select_end,
            final(self).active == old(self).active,
            final(self).no_drag == old(self).no_drag,
            final(self).insert_mode == old(self).insert_mode,
    {
        let mut removed: Vec<char> = Vec::new();
        let n = string_len(self.string.as_str());
        let start: i32 = if where_0 < 0 {
            0
        } else if where_0 > n {
            n
        } else {
            where_0
        };
        let mut k: i32 = 0;
        while k < len && k < n - start
            invariant
                self.string@.len() <= i32::MAX,
                n == spec_string_len(self.string@),
                0 <= start <= n,
                0 <= k,
            decreases n - start - k,
        {
            removed.push(get_char(self.string.as_str(), start + k));
            k = k + 1;
        }
        self.undostate.create_undo(
            UndoRecord { where_0: start, deleted: removed, insert_length: 0 },
        );
        delete_chars(&mut self.string, where_0, len);
        proof {
            assert(final(self).string@.len() <= old(self).string@.len());
        }
    }

    /// Removes the selected characters, collapsing the selection and the
    /// cursor onto its first end.
    pub fn delete_selection(&mut self)
        requires
            old(self).string@.len() <= i32::MAX,
        ensures
            final(self).string@.len() <= old(self).string@.len(),
            final(self).select_start == final(self).select_end,
            ({
                let same = old(self).select_start == old(self).select_end;
                &&& same ==> final(self).string == old(self).string
                &&& same ==> final(self).select_start == old(self).select_start
                &&& same ==> final(self).select_end == old(self).select_end
                &&& same ==> final(self).cursor == spec_clamp_pos(
                    old(self).cursor,
                    old(self).string@.len() as int,
                )
            }),
            0 <= final(self).cursor <= spec_string_len(final(self).string@),
            final(self).active == old(self).active,
            final(self).insert_mode == old(self).insert_mode,
    {
        self.clamp();
        if self.select_start != self.select_end {
            if self.select_start < self.select_end {
                let start = self.select_start;
                let count = self.select_end - self.select_start;
                self.delete(start, count);
                self.cursor = start;
                self.select_end = start;
                self.select_start = start;
            } else {
                let start = self.select_end;
                let count = self.select_start - self.select_end;
                self.delete(start, count);
                self.cursor = start;
                self.select_start = start;
                self.select_end = start;
            }
        }
        proof {
            if old(self).select_start == old(self).select_end {
                assert(self.string == old(self).string);
                assert(self.select_start == old(self).select_start);
                assert(self.cursor == spec_clamp_pos(
                    old(self).cursor,
                    old(self).string@.len() as int,
                ));
            }
            assert(0 <= self.cursor <= spec_string_len(self.string@));
        }
    }

    /// Removes the selection, as cutting to a clipboard does; the caller
    /// takes the removed text beforehand.  Yields whether anything was cut.
    pub fn cut(&mut self) -> (r: bool)
        requires
            old(self).string@.len() <= i32::MAX,
        ensures
            r == (old(self).select_start != old(self).select_end),
    {
        if self.select_start != self.select_end {
            self.delete_selection();
            true
        } else {
            false
        }
    }

    /// Replaces the selection with `text`, recording the edit, and puts the
    /// cursor after the inserted run.
    pub fn paste(&mut self, text: &str)
        requires
            old(self).string@.len() <= i32::MAX,
            old(self).string@.len() + text@.len() <= i32::MAX,
    {
        let len = string_len(text);
        self.clamp();
        self.delete_selection();
        let at = self.cursor;
        insert_chars(&mut self.string, at, text);
        self.undostate.create_undo(
            UndoRecord { where_0: at, deleted: Vec::new(), insert_length: len },
        );
        let n = string_len(self.string.as_str());
        if self.cursor <= i32::MAX - len {
            self.cursor = self.cursor + len;
        } else {
            self.cursor = n;
        }
        if self.cursor > n {
            self.cursor = n;
        }
    }

    /// Undoes the most recent edit: removes what it inserted and restores
    /// what it deleted; the edit moves onto the redo stack.
    pub fn undo(&mut self)
        requires
            old(self).string@.len() <= i32::MAX,
        ensures
            final(self).string@.len() <= i32::MAX,
            old(self).undostate.undo@.len() == 0 ==> *final(self) == *old(self),
            old(self).undostate.undo@.len() > 0 ==> (final(self).undostate.undo@ == old(
                self,
            ).undostate.undo@.drop_last() && final(self).undostate.redo@ == old(
                self,
            ).undostate.redo@.push(final(self).undostate.redo@.last()) && 0 <= final(self).cursor
                <= spec_string_len(final(self).string@)),
    {
        if self.undostate.undo.len() == 0 {
            return ;
        }
        let rec = match self.undostate.undo.pop() {
            Some(r) => r,
            None => {
                proof {
                    assert(false);
                }
                vstd::pervasive::unreached()
            },
        };
        let n0 = string_len(self.string.as_str());
        let at: i32 = if rec.where_0 < 0 {
            0
        } else if rec.where_0 > n0 {
            n0
        } else {
            rec.where_0
        };
        let mut redone_deleted: Vec<char> = Vec::new();
        let mut k: i32 = 0;
        while k < rec.insert_length && k < n0 - at
            invariant
                self.string@.len() <= i32::MAX,
                n0 == spec_string_len(self.string@),
                0 <= at <= n0,
                0 <= k,
            decreases n0 - at - k,
        {
            redone_deleted.push(get_char(self.string.as_str(), at + k));
            k = k + 1;
        }
        delete_chars(&mut self.string, at, rec.insert_length);

        let mut restored = String::new();
        let mut i: usize = 0;
        while i < rec.deleted.len()
            decreases rec.deleted@.len() - i,
        {
            let mut buf = String::new();
            buf.push(rec.deleted[i]);
            restored = restored.concat(buf.as_str());
            i = i + 1;
        }
        let rn = restored.as_str().unicode_len();
        let cur = self.string.as_str().unicode_len();
        if rn <= i32::MAX as usize && cur <= i32::MAX as usize - rn {
            insert_chars(&mut self.string, at, restored.as_str());
        }
        let restored_n = string_len(restored.as_str());

        self.undostate.redo.push(
            UndoRecord { where_0: at, deleted: redone_deleted, insert_length: restored_n },
        );
        let n = string_len(self.string.as_str());
        let target: i32 = if at <= i32::MAX - restored_n {
            at + restored_n
        } else {
            n
        };
        self.cursor = if target > n {
            n
        } else {
            target
        };
        if self.cursor < 0 {
            self.cursor = 0;
        }
    }

    /// Redoes the most recently undone edit; it moves back onto the undo
    /// stack.
    pub fn redo(&mut self)
        requires
            old(self).string@.len() <= i32::MAX,
        ensures
            final(self).string@.len() <= i32::MAX,
            old(self).undostate.redo@.len() == 0 ==> *final(self) == *old(self),
            old(self).undostate.redo@.len() > 0 ==> (final(self).undostate.redo@ == old(
                self,
            ).undostate.redo@.drop_last() && final(self).undostate.undo@ == old(
                self,
            ).undostate.undo@.push(final(self).undostate.undo@.last()) && 0 <= final(self).cursor
                <= spec_string_len(final(self).string@)),
    {
        if self.undostate.redo.len() == 0 {
            return ;
        }
        let rec = match self.undostate.redo.pop() {
            Some(r) => r,
            None => {
                proof {
                    assert(false);
                }
                vstd::pervasive::unreached()
            },
        };
        let n0 = string_len(self.string.as_str());
        let at: i32 = if rec.where_0 < 0 {
            0
        } else if rec.where_0 > n0 {
            n0
        } else {
            rec.where_0
        };
        let mut undone_deleted: Vec<char> = Vec::new();
        let mut k: i32 = 0;
        while k < rec.insert_length && k < n0 - at
            invariant
                self.string@.len() <= i32::MAX,
                n0 == spec_string_len(self.string@),
                0 <= at <= n0,
                0 <= k,
            decreases n0 - at - k,
        {
            undone_deleted.push(get_char(self.string.as_str(), at + k));
            k = k + 1;
        }
        delete_chars(&mut self.string, at, rec.insert_length);

        let mut restored = String::new();
        let mut i: usize = 0;
        while i < rec.deleted.len()
            decreases rec.deleted@.len() - i,
        {
            let mut buf = String::new();
            buf.push(rec.deleted[i]);
            restored = restored.concat(buf.as_str());
            i = i + 1;
        }
        let rn = restored.as_str().unicode_len();
        let cur = self.string.as_str().unicode_len();
        if rn <= i32::MAX as usize && cur <= i32::MAX as usize - rn {
            insert_chars(&mut self.string, at, restored.as_str());
        }
        let restored_n = string_len(restored.as_str());

        self.undostate.undo.push(
            UndoRecord { where_0: at, deleted: undone_deleted, insert_length: restored_n },
        );
        let n = string_len(self.string.as_str());
        let target: i32 = if at <= i32::MAX - restored_n {
            at + restored_n
        } else {
            n
        };
        self.cursor = if target > n {
            n
        } else {
            target
        };
        if self.cursor < 0 {
            self.cursor = 0;
        }
    }

    /// The character position under horizontal offset `x`, with glyphs
    /// `char_width` wide: the glyph boundary nearest to `x`, clamped into
    /// the text.
    pub fn locate_coord(&self, x: i64, char_width: i64) -> (r: i32)
        requires
            self.string@.len() <= i32::MAX,
            char_width > 0,
        ensures
            0 <= r <= spec_string_len(self.string@),
    {
        let n = string_len(self.string.as_str());
        if x < 0 {
            return 0;
        }
        let mut k: i32 = 0;
        let mut prev_x: i64 = 0;
        while k < n
            invariant
                self.string@.len() <= i32::MAX,
                n == spec_string_len(self.string@),
                0 <= k <= n,
                char_width > 0,
                x >= 0,
                prev_x == k as int * char_width as int,
                prev_x <= x,
            decreases n - k,
        {
            proof {
                assert((k + 1) as int * char_width as int == k as int * char_width as int
                    + char_width) by (nonlinear_arith);
                assert(k as int * char_width as int <= x);
                assert(x < 0x8000_0000_0000_0000 - char_width ==> k as int * char_width
                    + char_width < 0x8000_0000_0000_0000) by (nonlinear_arith)
                    requires
                        k as int * char_width as int <= x,
                ;
            }
            if prev_x > i64::MAX - char_width {
                return k;
            }
            let next_x = prev_x + char_width;
            if x < next_x {
                let mid = prev_x + char_width / 2;
                if x < mid {
                    return k;
                } else {
                    return k + 1;
                }
            }
            prev_x = next_x;
            k = k + 1;
        }
        n
    }

    /// Places the cursor under a click at `x` and collapses the selection
    /// there.
    pub fn click(&mut self, x: i64, char_width: i64)
        requires
            old(self).string@.len() <= i32::MAX,
            char_width > 0,
        ensures
            final(self).string == old(self).string,
            final(self).cursor == final(self).select_start,
            final(self).select_start == final(self).select_end,
            0 <= final(self).cursor <= spec_string_len(final(self).string@),
    {
        let p = self.locate_coord(x, char_width);
        self.cursor = p;
        self.select_start = p;
        self.select_end = p;
    }

    /// Extends the selection to the position under a drag at `x`.
    pub fn drag(&mut self, x: i64, char_width: i64)
        requires
            old(self).string@.len() <= i32::MAX,
            char_width > 0,
        ensures
            final(self).string == old(self).string,
            final(self).cursor == final(self).select_end,
            0 <= final(self).cursor <= spec_string_len(final(self).string@),
    {
        if self.select_start == self.select_end {
            self.select_start = self.cursor;
        }
        let p = self.locate_coord(x, char_width);
        self.select_end = p;
        self.cursor = p;
    }

    /// Feeds the widget what its id experienced this frame: a double click
    /// selects the whole text, a press places the cursor, a hold drags the
    /// selection, a release focuses the widget, and a press elsewhere
    /// removes focus.
    pub fn apply_response(
        &mut self,
        response: Response,
        mouse_down_elsewhere: bool,
        char_width: i64,
    )
        requires
            old(self).string@.len() <= i32::MAX,
            char_width > 0,
        ensures
            final(self).string == old(self).string,
            ({
                let dc = response.double_clicked && old(self).active;
                let pr = !dc && response.pressed && old(self).active;
                let hd = !dc && !pr && response.held && old(self).active && !old(self).no_drag;
                let rl = !dc && !pr && !hd && response.released;
                let off = !dc && !pr && !hd && !rl && mouse_down_elsewhere;
                &&& dc ==> (final(self).select_start == 0
                    && final(self).select_end == spec_string_len(final(self).string@)
                    && final(self).no_drag
                    && final(self).active == old(self).active)
                &&& pr ==> (final(self).cursor == final(self).select_start
                    && final(self).select_start == final(self).select_end
                    && 0 <= final(self).cursor
                    && final(self).cursor <= spec_string_len(final(self).string@))
                &&& hd ==> (final(self).cursor == final(self).select_end
                    && 0 <= final(self).cursor
                    && final(self).cursor <= spec_string_len(final(self).string@))
                &&& rl ==> (final(self).active && !final(self).no_drag)
                &&& off ==> !final(self).active
                &&& (!dc && !pr && !hd && !rl && !off) ==> *final(self) == *old(self)
            }),
    {
        if response.double_clicked && self.active {
            self.select_start = 0;
            self.select_end = string_len(self.string.as_str());
            self.no_drag = true;
        } else if response.pressed && self.active {
            self.click(response.relative_mouse_pos.x, char_width);
        } else if response.held && self.active && !self.no_drag {
            self.drag(response.relative_mouse_pos.x, char_width);
        } else if response.released {
            self.active = true;
            self.no_drag = false;
        } else if mouse_down_elsewhere {
            self.active = false;
        }
    }

    /// Handles one key: cursor and word motion, selection variants, line
    /// ends, deletion, insert-mode toggle, undo and redo, and plain
    /// character insertion.
    pub fn key(&mut self, key: i32)
        requires
            old(self).string@.len() < i32::MAX,
        ensures
            final(self).string@.len() <= i32::MAX,
            spec_motion_key(key) ==> final(self).string == old(self).string,
            key == KEY_INSERT ==> final(self).insert_mode == !old(self).insert_mode,
            key == KEY_LINESTART ==> final(self).cursor == 0,
            key == KEY_LINEEND ==> final(self).cursor == spec_string_len(final(self).string@),
            ({
                let s = old(self).string@;
                let c0 = spec_clamp_pos(old(self).cursor, s.len() as int);
                let backspace = (key == KEY_BACKSPACE || key == (KEY_BACKSPACE
                    | TEXTEDIT_K_SHIFT)) && old(self).select_start == old(self).select_end;
                &&& backspace && c0 > 0 ==> (final(self).string@ == s.take(c0 - 1) + s.skip(c0)
                    && final(self).cursor == c0 - 1)
                &&& backspace && c0 == 0 ==> final(self).string@ == s
            }),
            ({
                let s = old(self).string@;
                let del = (key == KEY_DELETE || key == (KEY_DELETE | TEXTEDIT_K_SHIFT)) && old(
                    self,
                ).select_start == old(self).select_end;
                &&& del && 0 <= old(self).cursor < s.len() ==> final(self).string@ == s.take(
                    old(self).cursor as int,
                ) + s.skip(old(self).cursor + 1)
                &&& del && !(0 <= old(self).cursor < s.len()) ==> final(self).string@ == s
            }),
            ({
                let s = old(self).string@;
                let c0 = spec_clamp_pos(old(self).cursor, s.len() as int);
                let plain = !spec_command_key(key) && 0 <= key < 0xD800 && key != 10 && old(
                    self,
                ).select_start == old(self).select_end && !old(self).insert_mode;
                plain ==> (final(self).string@.len() == s.len() + 1
                    && final(self).string@.take(c0) == s.take(c0)
                    && final(self).string@.skip(c0 + 1) == s.skip(c0)
                    && final(self).string@[c0] as u32 == key as u32
                    && final(self).cursor == c0 + 1)
            }),
    {
        proof {
            lemma_key_constants();
        }
        if key == KEY_INSERT {
            self.insert_mode = !self.insert_mode;
        } else if key == (KEY_UNDO | TEXTEDIT_K_CONTROL) {
            self.undo();
        } else if key == (KEY_REDO | TEXTEDIT_K_CONTROL) {
            self.redo();
        } else if key == KEY_LEFT {
            if self.select_start != self.select_end {
                self.move_to_first();
            } else if self.cursor > 0 {
                self.cursor = self.cursor - 1;
            }
        } else if key == KEY_RIGHT {
            if self.select_start != self.select_end {
                self.move_to_last();
            } else if self.cursor < i32::MAX {
                self.cursor = self.cursor + 1;
            }
            self.clamp();
        } else if key == (KEY_LEFT | TEXTEDIT_K_SHIFT) {
            self.clamp();
            self.prep_selection_at_cursor();
            if self.select_end > 0 {
                self.select_end = self.select_end - 1;
            }
            self.cursor = self.select_end;
        } else if key == KEY_WORDLEFT {
            if self.select_start != self.select_end {
                self.move_to_first();
            } else {
                self.clamp();
                let c = self.move_to_word_previous(self.cursor);
                self.cursor = c;
                self.clamp();
            }
        } else if key == (KEY_WORDLEFT | TEXTEDIT_K_SHIFT) {
            if self.select_start == self.select_end {
                self.prep_selection_at_cursor();
            }
            self.clamp();
            let c = self.move_to_word_previous(self.cursor);
            self.cursor = c;
            self.select_end = c;
            self.clamp();
        } else if key == KEY_WORDRIGHT {
            if self.select_start != self.select_end {
                self.move_to_last();
            } else {
                self.clamp();
                let c = self.move_to_word_next(self.cursor);
                self.cursor = c;
                self.clamp();
            }
        } else if key == (KEY_WORDRIGHT | TEXTEDIT_K_SHIFT) {
            if self.select_start == self.select_end {
                self.prep_selection_at_cursor();
            }
            self.clamp();
            let c = self.move_to_word_next(self.cursor);
            self.cursor = c;
            self.select_end = c;
            self.clamp();
        } else if key == (KEY_RIGHT | TEXTEDIT_K_SHIFT) {
            self.prep_selection_at_cursor();
            if self.select_end < i32::MAX {
                self.select_end = self.select_end + 1;
            }
            self.clamp();
            self.cursor = self.select_end;
        } else if key == KEY_DELETE || key == (KEY_DELETE | TEXTEDIT_K_SHIFT) {
            if self.select_start != self.select_end {
                self.delete_selection();
            } else {
                let n = string_len(self.string.as_str());
                if self.cursor < n && self.cursor >= 0 {
                    self.delete(self.cursor, 1);
                }
            }
        } else if key == KEY_BACKSPACE || key == (KEY_BACKSPACE | TEXTEDIT_K_SHIFT) {
            if self.select_start != self.select_end {
                self.delete_selection();
            } else {
                self.clamp();
                if self.cursor > 0 {
                    self.delete(self.cursor - 1, 1);
                    self.cursor = self.cursor - 1;
                }
            }
        } else if key == KEY_LINESTART {
            self.clamp();
            self.move_to_first();
            self.cursor = 0;
        } else if key == KEY_LINEEND {
            let n = string_len(self.string.as_str());
            self.clamp();
            self.move_to_first();
            self.cursor = n;
        } else if key == (KEY_LINESTART | TEXTEDIT_K_SHIFT) {
            self.clamp();
            self.prep_selection_at_cursor();
            self.cursor = 0;
            self.select_end = 0;
        } else if key == (KEY_LINEEND | TEXTEDIT_K_SHIFT) {
            let n = string_len(self.string.as_str());
            self.clamp();
            self.prep_selection_at_cursor();
            self.cursor = n;
            self.select_end = n;
        } else {
            match key_to_text(key) {
                Some(c) => {
                    if c != '\n' {
                        let mut buf = String::new();
                        buf.push(c);
                        if self.insert_mode && self.select_start == self.select_end && self.cursor
                            < string_len(self.string.as_str()) {
                            let at = self.cursor;
                            let mut removed: Vec<char> = Vec::new();
                            if at >= 0 {
                                removed.push(get_char(self.string.as_str(), at));
                            }
                            self.undostate.create_undo(
                                UndoRecord { where_0: at, deleted: removed, insert_length: 1 },
                            );
                            delete_chars(&mut self.string, at, 1);
                            insert_chars(&mut self.string, at, buf.as_str());
                            if self.cursor < i32::MAX {
                                self.cursor = self.cursor + 1;
                            }
                            self.clamp();
                        } else {
                            self.delete_selection();
                            if string_len(self.string.as_str()) < i32::MAX {
                                let at = self.cursor;
                                insert_chars(&mut self.string, at, buf.as_str());
                                self.undostate.create_undo(
                                    UndoRecord {
                                        where_0: at,
                                        deleted: Vec::new(),
                                        insert_length: 1,
                                    },
                                );
                                if self.cursor < i32::MAX {
                                    self.cursor = self.cursor + 1;
                                }
                            }
                            self.clamp();
                            proof {
                                let s = old(self).string@;
                                let c0 = spec_clamp_pos(old(self).cursor, s.len() as int);
                                if old(self).select_start == old(self).select_end {
                                    assert(self.string@ =~= s.take(c0) + seq![c] + s.skip(c0));
                                    assert(self.string@.take(c0) =~= s.take(c0));
                                    assert(self.string@.skip(c0 + 1) =~= s.skip(c0));
                                    assert(self.string@[c0] == c);
                                }
                            }
                        }
                    }
                },
                None => {},
            }
        }
    }
}

impl TextEdit {
    /// The widget's view for this frame under the monospace metric:
    /// the glyph width is half the text height; the caret sits after
    /// `cursor` glyphs and the selection band spans the selected glyphs.
    pub fn view(&self, text_height: i64, text_color: crate::color::Color, font: crate::style::Font, caret_visible: bool) -> (r:
        crate::element::CanvasKind)
        requires
            self.string@.len() <= i32::MAX,
        ensures
            ({
                let cw = if text_height >= 0 {
                    text_height / 2
                } else {
                    0
                };
                let len = spec_string_len(self.string@);
                let c0 = spec_clamp_pos(self.cursor, len);
                let s0 = spec_clamp_pos(
                    if self.select_start < self.select_end {
                        self.select_start
                    } else {
                        self.select_end
                    },
                    len,
                );
                let s1 = spec_clamp_pos(
                    if self.select_start < self.select_end {
                        self.select_end
                    } else {
                        self.select_start
                    },
                    len,
                );
                r matches crate::element::CanvasKind::TextEditView {
                    text,
                    text_height: th,
                    text_color: tc,
                    font: f,
                    before_cursor,
                    selection,
                    caret_visible: cv,
                } && text@ == self.string@ && th == text_height && tc == text_color && f == font
                    && cv == caret_visible && before_cursor == crate::math::clamp_px(c0 * cw)
                    && selection == (if s0 != s1 {
                    Some(
                        (
                            crate::math::clamp_px(s0 * cw) as i64,
                            crate::math::clamp_px((s1 - s0) * cw) as i64,
                        ),
                    )
                } else {
                    Option::<(i64, i64)>::None
                })
            }),
    {
        let cw: i64 = if text_height >= 0 {
            ((text_height as u64) / 2) as i64
        } else {
            0
        };
        let n = string_len(self.string.as_str());
        let c0: i32 = if self.cursor < 0 {
            0
        } else if self.cursor > n {
            n
        } else {
            self.cursor
        };
        let lo: i32 = if self.select_start < self.select_end {
            self.select_start
        } else {
            self.select_end
        };
        let hi: i32 = if self.select_start < self.select_end {
            self.select_end
        } else {
            self.select_start
        };
        let s0: i32 = if lo < 0 {
            0
        } else if lo > n {
            n
        } else {
            lo
        };
        let s1: i32 = if hi < 0 {
            0
        } else if hi > n {
            n
        } else {
            hi
        };
        let before_cursor = crate::math::px_mul(c0 as i64, cw);
        let selection: Option<(i64, i64)> = if s0 != s1 {
            Some(
                (
                    crate::math::px_mul(s0 as i64, cw),
                    crate::math::px_mul((s1 - s0) as i64, cw),
                ),
            )
        } else {
            None
        };
        crate::element::CanvasKind::TextEditView {
            text: self.string.clone(),
            text_height,
            text_color,
            font,
            before_cursor,
            selection,
            caret_visible,
        }
    }
}

} // verus!
