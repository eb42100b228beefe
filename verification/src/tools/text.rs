//! Text annotations: a positioned text buffer edited through a character
//! cursor, with line-aware cursor movement.

use vstd::prelude::*;
use vstd::string::StrSliceExecFns;
use vstd::string::StringExecFns;

use crate::geometry::Color;
use crate::strings::push_char;

verus! {

#[derive(Clone, Copy, Debug, PartialEq, Eq, Structural)]
pub enum TextFontFamily {
    SansSerif,
    Serif,
    Monospace,
}

#[derive(Clone, Copy, Debug, PartialEq, Eq, Structural)]
pub struct TextOptions {
    pub color: Color,
    pub size: u8,
    pub weight: u16,
    pub family: TextFontFamily,
}

impl Default for TextOptions {
    fn default() -> (r: Self)
        ensures
            r == (TextOptions {
                color: Color { r: 0, g: 0, b: 0 },
                size: 16,
                weight: 400,
                family: TextFontFamily::SansSerif,
            }),
    {
        TextOptions {
            color: Color { r: 0, g: 0, b: 0 },
            size: 16,
            weight: 400,
            family: TextFontFamily::SansSerif,
        }
    }
}

impl TextOptions {
    pub fn set_color(&mut self, color: Color)
        ensures
            *final(self) == (TextOptions { color, ..*old(self) }),
    {
        self.color = color;
    }

    pub fn set_size(&mut self, size: u8)
        ensures
            *final(self) == (TextOptions { size, ..*old(self) }),
    {
        self.size = size;
    }

    pub fn set_weight(&mut self, weight: u16)
        ensures
            *final(self) == (TextOptions { weight, ..*old(self) }),
    {
        self.weight = weight;
    }

    pub fn set_family(&mut self, family: TextFontFamily)
        ensures
            *final(self) == (TextOptions { family, ..*old(self) }),
    {
        self.family = family;
    }
}

/// The start of the line holding cursor offset `c`: the nearest index at or
/// before `c` that follows a line break (or the start of the buffer).
pub open spec fn spec_line_start(s: Seq<char>, c: int) -> int
    decreases c,
{
    if c <= 0 {
        0
    } else if s[c - 1] == '\n' {
        c
    } else {
        spec_line_start(s, c - 1)
    }
}

/// The end of the line holding cursor offset `c`: the nearest line break at
/// or after `c`, or the end of the buffer.
pub open spec fn spec_line_end(s: Seq<char>, c: int) -> int
    decreases s.len() - c,
{
    if c >= s.len() {
        s.len() as int
    } else if s[c] == '\n' {
        c
    } else {
        spec_line_end(s, c + 1)
    }
}

/// The cursor after moving one line up: the same column in the previous
/// line, clamped to that line's length; `None` on the first line.
pub open spec fn spec_cursor_up(s: Seq<char>, c: int) -> Option<int> {
    let ls = spec_line_start(s, c);
    if ls == 0 {
        None
    } else {
        let col = c - ls;
        let prev_ls = spec_line_start(s, ls - 1);
        let prev_len = ls - 1 - prev_ls;
        Some(prev_ls + if col <= prev_len { col } else { prev_len })
    }
}

/// The cursor after moving one line down: the same column in the next line,
/// clamped to that line's length; `None` on the last line.
pub open spec fn spec_cursor_down(s: Seq<char>, c: int) -> Option<int> {
    let le = spec_line_end(s, c);
    if le == s.len() {
        None
    } else {
        let col = c - spec_line_start(s, c);
        let next_start = le + 1;
        let next_len = spec_line_end(s, next_start) - next_start;
        Some(next_start + if col <= next_len { col } else { next_len })
    }
}

/// A buffer with one character inserted at cursor offset `cur`.
pub open spec fn spec_inserted(s: Seq<char>, cur: int, c: char) -> Seq<char> {
    s.subrange(0, cur) + seq![c] + s.subrange(cur, s.len() as int)
}

/// A buffer with the character before cursor offset `cur` removed.
pub open spec fn spec_deleted(s: Seq<char>, cur: int) -> Seq<char> {
    s.subrange(0, cur - 1) + s.subrange(cur, s.len() as int)
}

proof fn lemma_line_start_bounds(s: Seq<char>, c: int)
    requires
        0 <= c <= s.len(),
    ensures
        0 <= spec_line_start(s, c) <= c,
    decreases c,
{
    if c > 0 && s[c - 1] != '\n' {
        lemma_line_start_bounds(s, c - 1);
    }
}

proof fn lemma_line_end_bounds(s: Seq<char>, c: int)
    requires
        0 <= c <= s.len(),
    ensures
        c <= spec_line_end(s, c) <= s.len(),
    decreases s.len() - c,
{
    if c < s.len() && s[c] != '\n' {
        lemma_line_end_bounds(s, c + 1);
    }
}

#[derive(Clone, Debug)]
pub struct TextElement {
    pub id: u64,
    pub x: i32,
    pub y: i32,
    pub content: String,
    pub cursor: usize,
    pub options: TextOptions,
}

impl TextElement {
    /// The cursor always sits on a character boundary of the content.
    pub open spec fn wf(self) -> bool {
        self.cursor <= self.content@.len()
    }

    pub fn new(id: u64, at: crate::geometry::ToolPoint, options: TextOptions) -> (r: Self)
        ensures
            r.id == id && r.x == at.x && r.y == at.y && r.options == options,
            r.content@ == Seq::<char>::empty(),
            r.cursor == 0,
            r.wf(),
    {
        TextElement { id, x: at.x, y: at.y, content: String::new(), cursor: 0, options }
    }

    /// A text element seeded with existing content, cursor at the end.
    pub fn with_text(
        id: u64,
        at: crate::geometry::ToolPoint,
        text: &str,
        options: TextOptions,
    ) -> (r: Self)
        ensures
            r.id == id && r.x == at.x && r.y == at.y && r.options == options,
            r.content@ == text@,
            r.cursor == text@.len(),
            r.wf(),
    {
        let content = text.to_owned();
        let cursor = content.as_str().unicode_len();
        TextElement { id, x: at.x, y: at.y, content, cursor, options }
    }

    pub fn move_cursor_to_end(&mut self)
        ensures
            *final(self) == (TextElement { cursor: final(self).cursor, ..*old(self) }),
            final(self).cursor == old(self).content@.len(),
            final(self).wf(),
    {
        self.cursor = self.content.as_str().unicode_len();
    }

    /// Insert one character at the cursor and advance past it.
    pub fn insert_char(&mut self, c: char)
        requires
            old(self).wf(),
        ensures
            *final(self) == (TextElement {
                content: final(self).content,
                cursor: final(self).cursor,
                ..*old(self)
            }),
            final(self).content@ == old(self).content@.subrange(0, old(self).cursor as int)
                + seq![c] + old(self).content@.subrange(
                old(self).cursor as int,
                old(self).content@.len() as int,
            ),
            final(self).cursor == old(self).cursor + 1,
            final(self).wf(),
    {
        let n = self.content.as_str().unicode_len();
        let mut built = self.content.as_str().substring_char(0, self.cursor).to_owned();
        push_char(&mut built, c);
        let right = self.content.as_str().substring_char(self.cursor, n).to_owned();
        built.append(right.as_str());
        proof {
            assert(built@ =~= self.content@.subrange(0, self.cursor as int) + seq![c]
                + self.content@.subrange(self.cursor as int, self.content@.len() as int));
        }
        let total = built.as_str().unicode_len();
        proof {
            assert(total == old(self).content@.len() + 1);
            assert(self.cursor < total);
        }
        self.content = built;
        self.cursor = self.cursor + 1;
    }

    /// Insert a content-level line break at the cursor.
    pub fn insert_newline(&mut self)
        requires
            old(self).wf(),
        ensures
            *final(self) == (TextElement {
                content: final(self).content,
                cursor: final(self).cursor,
                ..*old(self)
            }),
            final(self).content@ == old(self).content@.subrange(0, old(self).cursor as int)
                + seq!['\n'] + old(self).content@.subrange(
                old(self).cursor as int,
                old(self).content@.len() as int,
            ),
            final(self).cursor == old(self).cursor + 1,
            final(self).wf(),
    {
        self.insert_char('\n');
    }

    /// Delete the character before the cursor; a no-op at offset 0.
    pub fn delete_backward(&mut self) -> (deleted: bool)
        requires
            old(self).wf(),
        ensures
            deleted == (old(self).cursor > 0),
            !deleted ==> *final(self) == *old(self),
            deleted ==> *final(self) == (TextElement {
                content: final(self).content,
                cursor: (old(self).cursor - 1) as usize,
                ..*old(self)
            }),
            deleted ==> final(self).content@ == old(self).content@.subrange(
                0,
                old(self).cursor - 1,
            ) + old(self).content@.subrange(old(self).cursor as int, old(self).content@.len() as int),
            final(self).wf(),
    {
        if self.cursor == 0 {
            return false;
        }
        let n = self.content.as_str().unicode_len();
        let mut built = self.content.as_str().substring_char(0, self.cursor - 1).to_owned();
        let right = self.content.as_str().substring_char(self.cursor, n).to_owned();
        built.append(right.as_str());
        proof {
            assert(built@ =~= self.content@.subrange(0, self.cursor - 1)
                + self.content@.subrange(self.cursor as int, self.content@.len() as int));
        }
        self.content = built;
        self.cursor = self.cursor - 1;
        true
    }

    /// Move the cursor one character left; false when already at the start.
    pub fn move_cursor_left(&mut self) -> (moved: bool)
        requires
            old(self).wf(),
        ensures
            moved == (old(self).cursor > 0),
            *final(self) == (TextElement { cursor: final(self).cursor, ..*old(self) }),
            final(self).cursor == if old(self).cursor > 0 {
                (old(self).cursor - 1) as usize
            } else {
                0usize
            },
            final(self).wf(),
    {
        if self.cursor > 0 {
            self.cursor = self.cursor - 1;
            true
        } else {
            false
        }
    }

    /// Move the cursor one character right; false when already at the end.
    pub fn move_cursor_right(&mut self) -> (moved: bool)
        requires
            old(self).wf(),
        ensures
            moved == (old(self).cursor < old(self).content@.len()),
            *final(self) == (TextElement { cursor: final(self).cursor, ..*old(self) }),
            final(self).cursor as int == if old(self).cursor < old(self).content@.len() {
                old(self).cursor + 1
            } else {
                old(self).cursor as int
            },
            final(self).wf(),
    {
        let n = self.content.as_str().unicode_len();
        if self.cursor < n {
            self.cursor = self.cursor + 1;
            true
        } else {
            false
        }
    }

    /// Move the cursor to the matching column of the previous content line;
    /// false on the first line.
    pub fn move_cursor_up(&mut self) -> (moved: bool)
        requires
            old(self).wf(),
        ensures
            *final(self) == (TextElement { cursor: final(self).cursor, ..*old(self) }),
            moved == spec_cursor_up(old(self).content@, old(self).cursor as int) is Some,
            match spec_cursor_up(old(self).content@, old(self).cursor as int) {
                Some(c) => final(self).cursor as int == c,
                None => final(self).cursor == old(self).cursor,
            },
            final(self).wf(),
    {
        proof {
            lemma_line_start_bounds(self.content@, self.cursor as int);
        }
        let ls = find_line_start(&self.content, self.cursor);
        if ls == 0 {
            return false;
        }
        proof {
            lemma_line_start_bounds(self.content@, ls as int - 1);
        }
        let col = self.cursor - ls;
        let prev_ls = find_line_start(&self.content, ls - 1);
        let prev_len = (ls - 1) - prev_ls;
        let new_cursor = prev_ls + if col <= prev_len {
            col
        } else {
            prev_len
        };
        self.cursor = new_cursor;
        true
    }

    /// Move the cursor to the matching column of the next content line;
    /// false on the last line.
    pub fn move_cursor_down(&mut self) -> (moved: bool)
        requires
            old(self).wf(),
        ensures
            *final(self) == (TextElement { cursor: final(self).cursor, ..*old(self) }),
            moved == spec_cursor_down(old(self).content@, old(self).cursor as int) is Some,
            match spec_cursor_down(old(self).content@, old(self).cursor as int) {
                Some(c) => final(self).cursor as int == c,
                None => final(self).cursor == old(self).cursor,
            },
            final(self).wf(),
    {
        let n = self.content.as_str().unicode_len();
        proof {
            lemma_line_end_bounds(self.content@, self.cursor as int);
            lemma_line_start_bounds(self.content@, self.cursor as int);
        }
        let le = find_line_end(&self.content, self.cursor);
        if le == n {
            return false;
        }
        let ls = find_line_start(&self.content, self.cursor);
        let col = self.cursor - ls;
        let next_start = le + 1;
        proof {
            lemma_line_end_bounds(self.content@, next_start as int);
        }
        let next_end = find_line_end(&self.content, next_start);
        let next_len = next_end - next_start;
        let new_cursor = next_start + if col <= next_len {
            col
        } else {
            next_len
        };
        self.cursor = new_cursor;
        true
    }
}

/// The start index of the line holding offset `c`.
fn find_line_start(content: &String, c: usize) -> (r: usize)
    requires
        c <= content@.len(),
    ensures
        r as int == spec_line_start(content@, c as int),
        r <= c,
{
    let mut i = c;
    while i > 0 && content.as_str().get_char(i - 1) != '\n'
        invariant
            i <= c <= content@.len(),
            spec_line_start(content@, c as int) == spec_line_start(content@, i as int),
        decreases i,
    {
        i -= 1;
    }
    i
}

/// The end index of the line holding offset `c`.
fn find_line_end(content: &String, c: usize) -> (r: usize)
    requires
        c <= content@.len(),
    ensures
        r as int == spec_line_end(content@, c as int),
        c <= r <= content@.len(),
{
    let n = content.as_str().unicode_len();
    let mut i = c;
    while i < n && content.as_str().get_char(i) != '\n'
        invariant
            c <= i <= n,
            n == content@.len(),
            spec_line_end(content@, c as int) == spec_line_end(content@, i as int),
        decreases n - i,
    {
        i += 1;
    }
    proof {
        lemma_line_end_bounds(content@, c as int);
    }
    i
}

} // verus!
