//! Formatted text: positions inside wrapped text, the mapping between positions and
//! character indices, and edits of the character buffer.

use vstd::prelude::*;
use vstd::string::StrSliceExecFns;
use std::ops::Range;
use crate::wrap::{
    WrapSink, NoWrap, LetterWrap, WordWrap, TextWrapper, wrap, wrap_mask, run, finish_state,
    initial_state, mask_source, max_wrap_len, lemma_no_wrap_splits_at_newlines,
    lemma_word_wrap_tiles, lemma_letter_wrap_tiles,
};

verus! {

/// Appends one character to a string with std's `String::push`, which documents that it
/// appends the character to the end of the string.
#[verifier::external_body]
pub(crate) fn push_char(string: &mut String, ch: char)
    ensures
        final(string)@ == old(string)@.push(ch),
{
    string.push(ch);
}

/// Whether two strings have the same characters.
pub(crate) fn same_chars(a: &str, b: &str) -> (r: bool)
    ensures
        r == (a@ == b@),
{
    let n = a.unicode_len();
    if n != b.unicode_len() {
        return false;
    }
    let mut i: usize = 0;
    while i < n
        invariant
            n == a@.len(),
            n == b@.len(),
            i <= n,
            forall|j: int| 0 <= j < i ==> a@[j] == b@[j],
        decreases n - i,
    {
        if a.get_char(i) != b.get_char(i) {
            return false;
        }
        i = i + 1;
    }
    assert(a@ =~= b@);
    true
}

/// Defines a position in the text. It is just a coordinates of a character in text.
#[derive(Copy, Clone, PartialEq, Eq, PartialOrd, Ord, Debug)]
pub struct Position {
    /// Line index.
    pub line: usize,
    /// Offset from the beginning of the line.
    pub offset: usize,
}

impl Default for Position {
    fn default() -> (r: Position)
        ensures
            r == (Position { line: 0, offset: 0 }),
    {
        Position { line: 0, offset: 0 }
    }
}

impl Position {
    /// Lexicographic order on positions: first by line, then by offset.
    pub open spec fn spec_le(self, other: Position) -> bool {
        self.line < other.line || (self.line == other.line && self.offset <= other.offset)
    }

    /// The later of two positions.
    pub fn max(self, other: Position) -> (r: Position)
        ensures
            r == (if other.spec_le(self) { self } else { other }),
    {
        if other.line < self.line || (other.line == self.line && other.offset <= self.offset) {
            self
        } else {
            other
        }
    }

    /// The earlier of two positions.
    pub fn min(self, other: Position) -> (r: Position)
        ensures
            r == (if self.spec_le(other) { self } else { other }),
    {
        if self.line < other.line || (self.line == other.line && self.offset <= other.offset) {
            self
        } else {
            other
        }
    }
}

/// Wrapping mode for formatted text.
#[derive(Default, Copy, Clone, PartialOrd, PartialEq, Hash, Debug, Eq)]
pub enum WrapMode {
    /// No wrapping needed.
    #[default]
    NoWrap,
    /// Letter-based wrapping.
    Letter,
    /// Word-based wrapping.
    Word,
}

/// One line of laid out text: the range `begin..end` of character indices it shows and its
/// total advance width.
#[derive(Copy, Clone, Debug, Default, PartialEq, Eq)]
pub struct TextLine {
    /// Index of starting symbol in text array.
    pub begin: usize,
    /// Index of ending symbol in text array.
    pub end: usize,
    /// Total advance width of the line.
    pub width: u64,
}

impl TextLine {
    pub open spec fn spec_len(self) -> int {
        self.end - self.begin
    }

    pub open spec fn wf(self) -> bool {
        self.begin <= self.end
    }

    pub open spec fn contains(self, i: int) -> bool {
        self.begin <= i < self.end
    }

    /// An empty line at the start of the text.
    pub fn new() -> (r: Self)
        ensures
            r == (TextLine { begin: 0, end: 0, width: 0 }),
    {
        TextLine { begin: 0, end: 0, width: 0 }
    }

    /// Number of characters in the line.
    pub fn len(&self) -> (r: usize)
        requires
            self.wf(),
        ensures
            r == self.spec_len(),
    {
        self.end - self.begin
    }

    /// Whether the line holds no characters.
    pub fn is_empty(&self) -> (r: bool)
        ensures
            r == (self.end == self.begin),
    {
        self.end == self.begin
    }
}

/// Every line of the sequence has `begin <= end`.
pub open spec fn lines_wf(lines: Seq<TextLine>) -> bool {
    forall|i: int| 0 <= i < lines.len() ==> (#[trigger] lines[i]).wf()
}

/// The lines follow each other: every line ends no later than the next one begins.
pub open spec fn lines_ordered(lines: Seq<TextLine>) -> bool {
    forall|i: int, j: int| 0 <= i < j < lines.len() ==> #[trigger] lines[i].end <= #[trigger] lines[j].begin
}

/// A position that names an existing line and lies within it (possibly just after its last
/// character).
pub open spec fn is_valid_position(lines: Seq<TextLine>, p: Position) -> bool {
    p.line < lines.len() && p.offset <= lines[p.line as int].spec_len()
}

pub open spec fn min_usize(a: usize, b: int) -> usize {
    if a <= b { a } else { b as usize }
}

/// The position closest to `p` that lies inside the text.
pub open spec fn spec_nearest(lines: Seq<TextLine>, p: Position) -> Position {
    if lines.len() == 0 {
        Position { line: 0, offset: 0 }
    } else {
        let line = min_usize(p.line, lines.len() - 1);
        Position { line, offset: min_usize(p.offset, lines[line as int].spec_len()) }
    }
}

/// One step towards the beginning of the text; the flag says the walk stops there.
pub open spec fn step_back(lines: Seq<TextLine>, p: Position) -> (Position, bool) {
    if p.offset > 0 {
        (Position { line: p.line, offset: (p.offset - 1) as usize }, false)
    } else if p.line > 0 {
        let line = (p.line - 1) as usize;
        let len = lines[line as int].spec_len();
        (Position { line, offset: (if len > 0 { len - 1 } else { 0 }) as usize }, false)
    } else {
        (Position { line: p.line, offset: 0 }, true)
    }
}

/// One step towards the end of the text; the flag says the walk stops there.
pub open spec fn step_forward(lines: Seq<TextLine>, p: Position) -> (Position, bool) {
    let len = lines[p.line as int].spec_len();
    if p.offset + 1 < len {
        (Position { line: p.line, offset: (p.offset + 1) as usize }, false)
    } else if p.line + 1 < lines.len() {
        (Position { line: (p.line + 1) as usize, offset: 0 }, false)
    } else {
        (Position { line: p.line, offset: len as usize }, true)
    }
}

/// The position reached after at most `n` steps in the given direction.
pub open spec fn walk(lines: Seq<TextLine>, p: Position, n: nat, forward: bool) -> Position
    decreases n,
{
    if n == 0 {
        p
    } else {
        let (q, stop) = if forward { step_forward(lines, p) } else { step_back(lines, p) };
        if stop { q } else { walk(lines, q, (n - 1) as nat, forward) }
    }
}

/// `a + b`, held within the range of `usize`.
pub open spec fn saturating_add_signed(a: usize, b: isize) -> usize {
    let s = a + b;
    if s < 0 { 0 } else if s > usize::MAX { usize::MAX } else { s as usize }
}

pub open spec fn spec_end_position(lines: Seq<TextLine>) -> Position {
    if lines.len() == 0 {
        Position { line: 0, offset: 0 }
    } else {
        Position {
            line: (lines.len() - 1) as usize,
            offset: lines[lines.len() - 1].spec_len() as usize,
        }
    }
}

/// The character index that a position maps to, when its line exists.
pub open spec fn spec_position_to_char_index(
    lines: Seq<TextLine>,
    p: Position,
    clamp: bool,
) -> Option<usize> {
    if p.line < lines.len() {
        let line = lines[p.line as int];
        let len = line.spec_len();
        let limit = if clamp { if len > 0 { len - 1 } else { 0 } } else { len };
        Some((line.begin + (if p.offset <= limit { p.offset as int } else { limit })) as usize)
    } else {
        None
    }
}

/// Index of the first line at or after `from` that holds character `i`, or -1.
pub open spec fn find_line(lines: Seq<TextLine>, i: int, from: int) -> int
    decreases lines.len() - from,
{
    if from < 0 || from >= lines.len() {
        -1
    } else if lines[from].contains(i) {
        from
    } else {
        find_line(lines, i, from + 1)
    }
}

/// The position of character `i`: on the first line that holds it, or the end of the text
/// when no line holds it.
pub open spec fn spec_char_index_to_position(lines: Seq<TextLine>, i: usize) -> Position {
    let k = find_line(lines, i as int, 0);
    if k < 0 {
        spec_end_position(lines)
    } else {
        Position { line: k as usize, offset: (i - lines[k].begin) as usize }
    }
}

/// `find_line` gives the first line from `from` on that holds `i`.
pub proof fn lemma_find_line(lines: Seq<TextLine>, i: int, from: int)
    requires
        0 <= from,
    ensures
        ({
            let k = find_line(lines, i, from);
            &&& k == -1 || (from <= k < lines.len() && lines[k].contains(i))
            &&& k == -1 ==> forall|j: int| from <= j < lines.len() ==> !(#[trigger] lines[j]).contains(i)
            &&& k >= 0 ==> forall|j: int| from <= j < k ==> !(#[trigger] lines[j]).contains(i)
        }),
    decreases lines.len() - from,
{
    if from < lines.len() && !lines[from].contains(i) {
        lemma_find_line(lines, i, from + 1);
    }
}

/// Text with lines laid out over its characters.
#[derive(Clone, Debug, Default)]
pub struct FormattedText {
    text: Vec<char>,
    lines: Vec<TextLine>,
    wrap: WrapMode,
    mask_char: Option<char>,
}

impl FormattedText {
    /// The characters of the text.
    pub closed spec fn spec_text(&self) -> Seq<char> {
        self.text@
    }

    /// The laid out lines.
    pub closed spec fn spec_lines(&self) -> Seq<TextLine> {
        self.lines@
    }

    pub closed spec fn spec_wrap(&self) -> WrapMode {
        self.wrap
    }

    pub closed spec fn spec_mask_char(&self) -> Option<char> {
        self.mask_char
    }

    /// The lines are well formed.
    pub open spec fn wf(&self) -> bool {
        lines_wf(self.spec_lines())
    }

    /// Text of the given characters, not yet laid out.
    pub fn from_chars(text: Vec<char>, wrap: WrapMode, mask_char: Option<char>) -> (r: Self)
        ensures
            r.spec_text() == text@,
            r.spec_lines() == Seq::<TextLine>::empty(),
            r.spec_wrap() == wrap,
            r.spec_mask_char() == mask_char,
            r.wf(),
    {
        FormattedText { text, lines: Vec::new(), wrap, mask_char }
    }

    /// Replaces the laid out lines.
    pub(crate) fn set_lines(&mut self, lines: Vec<TextLine>)
        ensures
            final(self).spec_lines() == lines@,
            final(self).spec_text() == old(self).spec_text(),
            final(self).spec_wrap() == old(self).spec_wrap(),
            final(self).spec_mask_char() == old(self).spec_mask_char(),
    {
        self.lines = lines;
    }

    pub(crate) fn lines_len(&self) -> (r: usize)
        ensures
            r == self.spec_lines().len(),
    {
        self.lines.len()
    }

    /// The lines that laying out the text produces, given the advance of each character, the
    /// advance of the mask character, the advance that letter wrapping uses for the mask
    /// character, and the widths allowed for the first and the other lines.
    pub open spec fn spec_layout(
        &self,
        advances: Seq<u32>,
        mask_advance: u32,
        mask_letter_advance: u32,
        first_width: u64,
        normal_width: u64,
    ) -> Seq<TextLine> {
        let init = initial_state(first_width, normal_width);
        let n = self.spec_text().len();
        match self.spec_mask_char() {
            Some(mask) => match self.spec_wrap() {
                WrapMode::NoWrap => finish_state(run::<NoWrap>(init, mask_source(n, mask, mask_advance))).lines,
                WrapMode::Letter => finish_state(run::<LetterWrap>(init, mask_source(n, mask, mask_letter_advance))).lines,
                WrapMode::Word => finish_state(run::<WordWrap>(init, mask_source(n, mask, mask_advance))).lines,
            },
            None => {
                let source = Seq::new(n, |i: int| (self.spec_text()[i], advances[i]));
                match self.spec_wrap() {
                    WrapMode::NoWrap => finish_state(run::<NoWrap>(init, source)).lines,
                    WrapMode::Letter => finish_state(run::<LetterWrap>(init, source)).lines,
                    WrapMode::Word => finish_state(run::<WordWrap>(init, source)).lines,
                }
            },
        }
    }

    /// Splits the text into lines according to the wrapping mode. `advances[i]` is the advance
    /// width of character `i`; with a mask character every character is laid out as the mask,
    /// whose advance is `mask_advance`, except that letter wrapping uses `mask_letter_advance`
    /// for it.
    pub fn build_lines(
        &mut self,
        advances: &[u32],
        mask_advance: u32,
        mask_letter_advance: u32,
        first_width: u64,
        normal_width: u64,
    )
        requires
            advances@.len() == old(self).spec_text().len(),
            old(self).spec_text().len() < max_wrap_len(),
        ensures
            final(self).spec_lines() == old(self).spec_layout(
                advances@,
                mask_advance,
                mask_letter_advance,
                first_width,
                normal_width,
            ),
            final(self).wf(),
            lines_ordered(final(self).spec_lines()),
            final(self).spec_text() == old(self).spec_text(),
            final(self).spec_wrap() == old(self).spec_wrap(),
            final(self).spec_mask_char() == old(self).spec_mask_char(),
    {
        let ghost init = initial_state(first_width, normal_width);
        let n = self.text.len();
        let sink = WrapSink::new(first_width, normal_width);
        let lines = match self.mask_char {
            Some(mask) => {
                proof {
                    lemma_no_wrap_splits_at_newlines(mask_source(n as nat, mask, mask_advance), first_width, normal_width);
                    lemma_word_wrap_tiles(mask_source(n as nat, mask, mask_advance), first_width, normal_width);
                    lemma_letter_wrap_tiles(mask_source(n as nat, mask, mask_letter_advance), first_width, normal_width);
                }
                match self.wrap {
                    WrapMode::NoWrap => wrap_mask(NoWrap::new(sink), n, mask, mask_advance),
                    WrapMode::Letter => wrap_mask(LetterWrap::new(sink), n, mask, mask_letter_advance),
                    WrapMode::Word => wrap_mask(WordWrap::new(sink), n, mask, mask_advance),
                }
            },
            None => {
                let mut source: Vec<(char, u32)> = Vec::new();
                let mut i: usize = 0;
                while i < n
                    invariant
                        n == self.text@.len(),
                        advances@.len() == n,
                        i <= n,
                        source@ == Seq::new(i as nat, |j: int| (self.text@[j], advances@[j])),
                    decreases n - i,
                {
                    source.push((self.text[i], advances[i]));
                    i = i + 1;
                    assert(source@ =~= Seq::new(i as nat, |j: int| (self.text@[j], advances@[j])));
                }
                proof {
                    lemma_no_wrap_splits_at_newlines(source@, first_width, normal_width);
                    lemma_word_wrap_tiles(source@, first_width, normal_width);
                    lemma_letter_wrap_tiles(source@, first_width, normal_width);
                }
                match self.wrap {
                    WrapMode::NoWrap => wrap(NoWrap::new(sink), source.as_slice()),
                    WrapMode::Letter => wrap(LetterWrap::new(sink), source.as_slice()),
                    WrapMode::Word => wrap(WordWrap::new(sink), source.as_slice()),
                }
            },
        };
        proof {
            lemma_chained_lines_ordered(lines@);
        }
        self.lines = lines;
    }

    /// Returns the position inside the text that is closest to `start`.
    pub fn nearest_valid_position(&self, start: Position) -> (r: Position)
        requires
            self.wf(),
        ensures
            r == spec_nearest(self.spec_lines(), start),
            self.spec_lines().len() > 0 ==> is_valid_position(self.spec_lines(), r),
    {
        if self.lines.len() == 0 {
            return Position { line: 0, offset: 0 };
        }
        let mut pos = start;
        let last = self.lines.len() - 1;
        pos.line = if pos.line <= last { pos.line } else { last };
        let len = self.lines[pos.line].len();
        pos.offset = if pos.offset <= len { pos.offset } else { len };
        pos
    }

    /// Moves `offset` characters to the right (positive) or to the left (negative) from the
    /// position nearest to `start`, crossing line boundaries.
    pub fn get_relative_position_x(&self, start: Position, offset: isize) -> (r: Position)
        requires
            self.wf(),
            offset > isize::MIN,
        ensures
            r == (if self.spec_lines().len() == 0 {
                Position { line: 0, offset: 0 }
            } else {
                walk(
                    self.spec_lines(),
                    spec_nearest(self.spec_lines(), start),
                    (if offset < 0 { -offset } else { offset as int }) as nat,
                    offset > 0,
                )
            }),
            self.spec_lines().len() > 0 ==> is_valid_position(self.spec_lines(), r),
    {
        if self.lines.len() == 0 {
            return Position { line: 0, offset: 0 };
        }
        let ghost lines = self.lines@;
        let mut pos = self.nearest_valid_position(start);
        let distance: usize = if offset < 0 { (-offset) as usize } else { offset as usize };
        let ghost target = walk(lines, pos, distance as nat, offset > 0);
        let mut i: usize = 0;
        while i < distance
            invariant_except_break
                target == walk(lines, pos, (distance - i) as nat, offset > 0),
            invariant
                lines == self.lines@,
                lines_wf(lines),
                lines.len() > 0,
                i <= distance,
                distance as int == (if offset < 0 { -offset } else { offset as int }),
                is_valid_position(lines, pos),
            ensures
                pos == target,
                is_valid_position(lines, pos),
            decreases distance - i,
        {
            if offset < 0 {
                if pos.offset > 0 {
                    pos.offset = pos.offset - 1;
                } else if pos.line > 0 {
                    pos.line = pos.line - 1;
                    let len = self.lines[pos.line].len();
                    pos.offset = if len > 0 { len - 1 } else { 0 };
                } else {
                    pos.offset = 0;
                    break;
                }
            } else {
                let line = self.lines[pos.line];
                let len = line.len();
                if len > 0 && pos.offset < len - 1 {
                    pos.offset = pos.offset + 1;
                } else if pos.line < self.lines.len() - 1 {
                    pos.line = pos.line + 1;
                    pos.offset = 0;
                } else {
                    pos.offset = len;
                    break;
                }
            }
            i = i + 1;
        }
        pos
    }

    /// Moves `offset` lines down (positive) or up (negative) from the position nearest to
    /// `start`, keeping the offset within the target line.
    pub fn get_relative_position_y(&self, start: Position, offset: isize) -> (r: Position)
        requires
            self.wf(),
        ensures
            r == ({
                let p = spec_nearest(self.spec_lines(), start);
                spec_nearest(
                    self.spec_lines(),
                    Position { line: saturating_add_signed(p.line, offset), offset: p.offset },
                )
            }),
    {
        let mut pos = self.nearest_valid_position(start);
        if offset >= 0 {
            let u = offset as usize;
            pos.line = if pos.line > usize::MAX - u { usize::MAX } else { pos.line + u };
        } else {
            let m: usize = ((-(offset + 1)) as usize) + 1;
            pos.line = if pos.line < m { 0 } else { pos.line - m };
        }
        self.nearest_valid_position(pos)
    }

    /// The range of positions of the given line; an absent line has length zero.
    pub fn get_line_range(&self, line: usize) -> (r: Range<Position>)
        requires
            self.wf(),
        ensures
            r.start == (Position { line, offset: 0 }),
            r.end == (Position {
                line,
                offset: if line < self.spec_lines().len() {
                    self.spec_lines()[line as int].spec_len() as usize
                } else {
                    0
                },
            }),
    {
        let length = if line < self.lines.len() { self.lines[line].len() } else { 0 };
        Range { start: Position { line, offset: 0 }, end: Position { line, offset: length } }
    }

    /// For every line from `range.start.line` to `range.end.line`, the part of that line that
    /// lies within `range`.
    pub fn iter_line_ranges_within(&self, range: Range<Position>) -> (r: Vec<Range<Position>>)
        requires
            self.wf(),
            range.end.line < usize::MAX,
        ensures
            r@.len() == (if range.start.line <= range.end.line {
                range.end.line - range.start.line + 1
            } else {
                0
            }),
            forall|k: int|
                0 <= k < r@.len() ==> {
                    let line = (range.start.line + k) as usize;
                    let len = if line < self.spec_lines().len() {
                        self.spec_lines()[line as int].spec_len() as usize
                    } else {
                        0
                    };
                    let ls = Position { line, offset: 0 };
                    let le = Position { line, offset: len };
                    &&& (#[trigger] r@[k]).start == (if ls.spec_le(range.start) {
                        range.start
                    } else {
                        ls
                    })
                    &&& r@[k].end == (if range.end.spec_le(le) { range.end } else { le })
                },
    {
        let mut out: Vec<Range<Position>> = Vec::new();
        if range.start.line > range.end.line {
            return out;
        }
        let mut i = range.start.line;
        while i <= range.end.line
            invariant
                self.wf(),
                range.start.line <= i <= range.end.line + 1,
                range.end.line < usize::MAX,
                out@.len() == i - range.start.line,
                forall|k: int|
                    0 <= k < out@.len() ==> {
                        let line = (range.start.line + k) as usize;
                        let len = if line < self.spec_lines().len() {
                            self.spec_lines()[line as int].spec_len() as usize
                        } else {
                            0
                        };
                        let ls = Position { line, offset: 0 };
                        let le = Position { line, offset: len };
                        &&& (#[trigger] out@[k]).start == (if ls.spec_le(range.start) {
                            range.start
                        } else {
                            ls
                        })
                        &&& out@[k].end == (if range.end.spec_le(le) { range.end } else { le })
                    },
            decreases range.end.line + 1 - i,
        {
            let r = self.get_line_range(i);
            out.push(Range { start: range.start.max(r.start), end: range.end.min(r.end) });
            i = i + 1;
        }
        out
    }

    /// The position just after the last character of the last line.
    pub fn end_position(&self) -> (r: Position)
        requires
            self.wf(),
        ensures
            r == spec_end_position(self.spec_lines()),
    {
        if self.lines.len() == 0 {
            Position { line: 0, offset: 0 }
        } else {
            let i = self.lines.len() - 1;
            Position { line: i, offset: self.lines[i].len() }
        }
    }

    fn position_to_char_index_internal(&self, position: Position, clamp: bool) -> (r: Option<
        usize,
    >)
        requires
            self.wf(),
        ensures
            r == spec_position_to_char_index(self.spec_lines(), position, clamp),
    {
        if position.line < self.lines.len() {
            let line = self.lines[position.line];
            let len = line.len();
            let limit = if clamp {
                if len > 0 { len - 1 } else { 0 }
            } else {
                len
            };
            Some(line.begin + if position.offset <= limit { position.offset } else { limit })
        } else {
            None
        }
    }

    /// Maps a position to the index of the character just after it; the index may equal the
    /// end of the line.
    pub fn position_to_char_index_unclamped(&self, position: Position) -> (r: Option<usize>)
        requires
            self.wf(),
        ensures
            r == spec_position_to_char_index(self.spec_lines(), position, false),
    {
        self.position_to_char_index_internal(position, false)
    }

    /// Maps a position to the index of a character of its line: positions at the end of a
    /// line map to the line's last character. The index is always that of a character of the
    /// text: a position whose index would lie past the end of the text (an empty last line,
    /// or an empty text) maps to nothing.
    pub fn position_to_char_index_clamped(&self, position: Position) -> (r: Option<usize>)
        requires
            self.wf(),
        ensures
            r == (match spec_position_to_char_index(self.spec_lines(), position, true) {
                Some(i) => if i < self.spec_text().len() { Some(i) } else { None },
                None => None,
            }),
    {
        match self.position_to_char_index_internal(position, true) {
            Some(i) => if i < self.text.len() { Some(i) } else { None },
            None => None,
        }
    }

    /// Maps a range of positions to a range of character indices; a start on a missing line
    /// maps to 0 and an end on a missing line maps to the length of the text.
    pub fn position_range_to_char_index_range(&self, range: Range<Position>) -> (r: Range<usize>)
        requires
            self.wf(),
        ensures
            r.start == (match spec_position_to_char_index(self.spec_lines(), range.start, false) {
                Some(i) => i,
                None => 0,
            }),
            r.end == (match spec_position_to_char_index(self.spec_lines(), range.end, false) {
                Some(i) => i,
                None => self.spec_text().len() as usize,
            }),
    {
        let start = match self.position_to_char_index_unclamped(range.start) {
            Some(i) => i,
            None => 0,
        };
        let end = match self.position_to_char_index_unclamped(range.end) {
            Some(i) => i,
            None => self.text.len(),
        };
        Range { start, end }
    }

    /// Maps a character index to its position: the first line that holds the index, or the
    /// end of the text when no line holds it.
    pub fn char_index_to_position(&self, i: usize) -> (r: Option<Position>)
        requires
            self.wf(),
        ensures
            r == Some(spec_char_index_to_position(self.spec_lines(), i)),
    {
        let ghost lines = self.lines@;
        let mut k: usize = 0;
        while k < self.lines.len()
            invariant
                self.wf(),
                lines == self.lines@,
                k <= lines.len(),
                find_line(lines, i as int, 0) == find_line(lines, i as int, k as int),
            decreases lines.len() - k,
        {
            let line = self.lines[k];
            if line.begin <= i && i < line.end {
                return Some(Position { line: k, offset: i - line.begin });
            }
            k = k + 1;
        }
        Some(self.end_position())
    }

    /// The characters of the text.
    pub fn get_raw_text(&self) -> (r: &[char])
        ensures
            r@ == self.spec_text(),
    {
        self.text.as_slice()
    }

    /// The laid out lines.
    pub fn get_lines(&self) -> (r: &[TextLine])
        ensures
            r@ == self.spec_lines(),
    {
        self.lines.as_slice()
    }

    /// The text as a string.
    pub fn text(&self) -> (r: String)
        ensures
            r@ == self.spec_text(),
    {
        let mut s = String::new();
        let mut i: usize = 0;
        while i < self.text.len()
            invariant
                i <= self.text@.len(),
                s@ == self.text@.take(i as int),
            decreases self.text@.len() - i,
        {
            push_char(&mut s, self.text[i]);
            i = i + 1;
            assert(self.text@.take(i as int) == self.text@.take(i - 1).push(self.text@[i - 1]));
        }
        assert(self.text@.take(self.text@.len() as int) == self.text@);
        s
    }

    /// The characters in `range` as a string.
    pub fn text_range(&self, range: Range<usize>) -> (r: String)
        requires
            range.start <= range.end <= self.spec_text().len(),
        ensures
            r@ == self.spec_text().subrange(range.start as int, range.end as int),
    {
        let mut s = String::new();
        let mut i: usize = range.start;
        while i < range.end
            invariant
                range.start <= i <= range.end <= self.text@.len(),
                s@ == self.text@.subrange(range.start as int, i as int),
            decreases range.end - i,
        {
            push_char(&mut s, self.text[i]);
            i = i + 1;
            assert(self.text@.subrange(range.start as int, i as int) == self.text@.subrange(
                range.start as int,
                i - 1,
            ).push(self.text@[i - 1]));
        }
        s
    }

    /// Replaces the characters with those of `text`.
    pub fn set_text(&mut self, text: &str)
        ensures
            final(self).spec_text() == text@,
            final(self).spec_lines() == old(self).spec_lines(),
            final(self).spec_wrap() == old(self).spec_wrap(),
            final(self).spec_mask_char() == old(self).spec_mask_char(),
    {
        let n = text.unicode_len();
        let mut chars: Vec<char> = Vec::new();
        let mut i: usize = 0;
        while i < n
            invariant
                n == text@.len(),
                i <= n,
                chars@ == text@.take(i as int),
            decreases n - i,
        {
            chars.push(text.get_char(i));
            i = i + 1;
            assert(text@.take(i as int) == text@.take(i - 1).push(text@[i - 1]));
        }
        assert(text@.take(n as int) == text@);
        self.text = chars;
    }

    /// Replaces the characters.
    pub fn set_chars(&mut self, text: Vec<char>)
        ensures
            final(self).spec_text() == text@,
            final(self).spec_lines() == old(self).spec_lines(),
            final(self).spec_wrap() == old(self).spec_wrap(),
            final(self).spec_mask_char() == old(self).spec_mask_char(),
    {
        self.text = text;
    }

    /// Sets the wrapping mode used by the next layout.
    pub fn set_wrap(&mut self, wrap: WrapMode)
        ensures
            final(self).spec_wrap() == wrap,
            final(self).spec_text() == old(self).spec_text(),
            final(self).spec_lines() == old(self).spec_lines(),
            final(self).spec_mask_char() == old(self).spec_mask_char(),
    {
        self.wrap = wrap;
    }

    /// The wrapping mode.
    pub fn wrap_mode(&self) -> (r: WrapMode)
        ensures
            r == self.spec_wrap(),
    {
        self.wrap
    }

    /// Sets the character shown in place of every character (for passwords), or none.
    pub fn set_mask_char(&mut self, mask_char: Option<char>)
        ensures
            final(self).spec_mask_char() == mask_char,
            final(self).spec_text() == old(self).spec_text(),
            final(self).spec_lines() == old(self).spec_lines(),
            final(self).spec_wrap() == old(self).spec_wrap(),
    {
        self.mask_char = mask_char;
    }

    /// The mask character, if any.
    pub fn mask_char(&self) -> (r: Option<char>)
        ensures
            r == self.spec_mask_char(),
    {
        self.mask_char
    }

    /// Inserts a character at `index`.
    pub fn insert_char(&mut self, code: char, index: usize)
        requires
            index <= old(self).spec_text().len(),
        ensures
            final(self).spec_text() == old(self).spec_text().insert(index as int, code),
            final(self).spec_lines() == old(self).spec_lines(),
            final(self).spec_wrap() == old(self).spec_wrap(),
            final(self).spec_mask_char() == old(self).spec_mask_char(),
    {
        self.text.insert(index, code);
    }

    /// Inserts the characters of `s` starting at `position`.
    pub fn insert_str(&mut self, s: &str, position: usize)
        requires
            position <= old(self).spec_text().len(),
            old(self).spec_text().len() + s@.len() <= usize::MAX,
        ensures
            final(self).spec_text() == old(self).spec_text().take(position as int) + s@
                + old(self).spec_text().skip(position as int),
            final(self).spec_lines() == old(self).spec_lines(),
            final(self).spec_wrap() == old(self).spec_wrap(),
            final(self).spec_mask_char() == old(self).spec_mask_char(),
    {
        let ghost old_text = self.text@;
        let n = s.unicode_len();
        let mut i: usize = 0;
        while i < n
            invariant
                n == s@.len(),
                i <= n,
                position <= old_text.len(),
                old_text.len() + n <= usize::MAX,
                self.text@ == old_text.take(position as int) + s@.take(i as int) + old_text.skip(
                    position as int,
                ),
                self.lines@ == old(self).lines@,
                self.wrap == old(self).wrap,
                self.mask_char == old(self).mask_char,
            decreases n - i,
        {
            let c = s.get_char(i);
            let ghost before = self.text@;
            self.text.insert(position + i, c);
            i = i + 1;
            assert(s@.take(i as int) == s@.take(i - 1).push(c));
            assert(self.text@ =~= old_text.take(position as int) + s@.take(i as int)
                + old_text.skip(position as int));
        }
        assert(s@.take(n as int) == s@);
    }

    /// Removes the characters in `range`.
    pub fn remove_range(&mut self, range: Range<usize>)
        requires
            range.start <= range.end <= old(self).spec_text().len(),
        ensures
            final(self).spec_text() == old(self).spec_text().take(range.start as int)
                + old(self).spec_text().skip(range.end as int),
            final(self).spec_lines() == old(self).spec_lines(),
            final(self).spec_wrap() == old(self).spec_wrap(),
            final(self).spec_mask_char() == old(self).spec_mask_char(),
    {
        let mut kept: Vec<char> = Vec::new();
        let mut i: usize = 0;
        while i < range.start
            invariant
                i <= range.start <= range.end <= self.text@.len(),
                kept@ == self.text@.take(i as int),
            decreases range.start - i,
        {
            kept.push(self.text[i]);
            i = i + 1;
            assert(self.text@.take(i as int) == self.text@.take(i - 1).push(self.text@[i - 1]));
        }
        let mut j: usize = range.end;
        while j < self.text.len()
            invariant
                range.start <= range.end <= j <= self.text@.len(),
                kept@ == self.text@.take(range.start as int) + self.text@.subrange(
                    range.end as int,
                    j as int,
                ),
            decreases self.text@.len() - j,
        {
            kept.push(self.text[j]);
            j = j + 1;
            assert(self.text@.subrange(range.end as int, j as int) == self.text@.subrange(
                range.end as int,
                j - 1,
            ).push(self.text@[j - 1]));
        }
        assert(self.text@.subrange(range.end as int, self.text@.len() as int) == self.text@.skip(
            range.end as int,
        ));
        self.text = kept;
    }

    /// Removes the character at `index`.
    pub fn remove_at(&mut self, index: usize)
        requires
            index < old(self).spec_text().len(),
        ensures
            final(self).spec_text() == old(self).spec_text().remove(index as int),
            final(self).spec_lines() == old(self).spec_lines(),
            final(self).spec_wrap() == old(self).spec_wrap(),
            final(self).spec_mask_char() == old(self).spec_mask_char(),
    {
        self.text.remove(index);
    }
}

proof fn lemma_chain_step(lines: Seq<TextLine>, i: int, j: int)
    requires
        forall|k: int| 0 <= k < lines.len() ==> (#[trigger] lines[k]).begin <= lines[k].end,
        forall|k: int| 0 <= k < lines.len() - 1 ==> (#[trigger] lines[k]).end <= lines[k + 1].begin,
        0 <= i < j < lines.len(),
    ensures
        lines[i].end <= lines[j].begin,
    decreases j - i,
{
    if j > i + 1 {
        lemma_chain_step(lines, i, j - 1);
        assert(lines[j - 1].begin <= lines[j - 1].end);
        assert(lines[j - 1].end <= lines[j].begin);
    } else {
        assert(lines[i].end <= lines[i + 1].begin);
    }
}

/// Lines where each ends no later than the next begins follow each other.
proof fn lemma_chained_lines_ordered(lines: Seq<TextLine>)
    requires
        forall|k: int| 0 <= k < lines.len() ==> (#[trigger] lines[k]).begin <= lines[k].end,
        forall|k: int| 0 <= k < lines.len() - 1 ==> (#[trigger] lines[k]).end <= lines[k + 1].begin,
    ensures
        lines_ordered(lines),
{
    assert forall|i: int, j: int| 0 <= i < j < lines.len() implies #[trigger] lines[i].end <= #[trigger] lines[j].begin by {
        lemma_chain_step(lines, i, j);
    }
}

/// A position that lies on the start of the text stays there: looking for the nearest valid
/// position twice gives the same as once.
pub proof fn lemma_nearest_idempotent(lines: Seq<TextLine>, p: Position)
    requires
        lines_wf(lines),
    ensures
        spec_nearest(lines, spec_nearest(lines, p)) == spec_nearest(lines, p),
{
}

/// Mapping a character index held by some line to its position and back gives the index.
pub proof fn lemma_char_index_roundtrip(lines: Seq<TextLine>, i: usize)
    requires
        lines_wf(lines),
        lines.len() <= usize::MAX,
        exists|k: int| 0 <= k < lines.len() && (#[trigger] lines[k]).contains(i as int),
    ensures
        spec_position_to_char_index(lines, spec_char_index_to_position(lines, i), false) == Some(i),
{
    lemma_find_line(lines, i as int, 0);
    let w = choose|k: int| 0 <= k < lines.len() && (#[trigger] lines[k]).contains(i as int);
    assert(!(forall|j: int| 0 <= j < lines.len() ==> !(#[trigger] lines[j]).contains(i as int)));
    let k = find_line(lines, i as int, 0);
    assert(k >= 0);
    assert(0 <= k < lines.len() && lines[k].contains(i as int));
    let p = spec_char_index_to_position(lines, i);
    assert(p.line == k);
    assert(p.offset == i - lines[k].begin);
    assert(p.offset <= lines[k].spec_len());
}

/// On lines that follow each other, mapping a position that lies before the end of its line
/// to a character index and back gives the position.
pub proof fn lemma_position_roundtrip(lines: Seq<TextLine>, p: Position)
    requires
        lines_wf(lines),
        lines.len() <= usize::MAX,
        lines_ordered(lines),
        p.line < lines.len(),
        p.offset < lines[p.line as int].spec_len(),
    ensures
        spec_position_to_char_index(lines, p, false) matches Some(i) && spec_char_index_to_position(lines, i) == p,
{
    let i = (lines[p.line as int].begin + p.offset) as usize;
    lemma_find_line(lines, i as int, 0);
    let k = find_line(lines, i as int, 0);
    assert(lines[p.line as int].contains(i as int));
    if k != p.line {
        if k < p.line {
            assert(lines[k].end <= lines[p.line as int].begin);
        }
    }
}

/// Moving one character forward and then one back returns to a position that lies before the
/// end of its line.
pub proof fn lemma_forward_then_back(lines: Seq<TextLine>, p: Position)
    requires
        lines_wf(lines),
        lines.len() <= usize::MAX,
        p.line < lines.len(),
        p.offset < lines[p.line as int].spec_len(),
    ensures
        walk(lines, walk(lines, p, 1, true), 1, false) == p,
{
    let q = step_forward(lines, p).0;
    assert(walk(lines, p, 1, true) == q) by {
        reveal_with_fuel(walk, 2);
    }
    assert(walk(lines, q, 1, false) == step_back(lines, q).0) by {
        reveal_with_fuel(walk, 2);
    }
    assert(step_back(lines, q).0 == p);
}

/// Inserting a character and then removing the character at the same index restores the text.
pub proof fn lemma_insert_then_remove(text: Seq<char>, index: int, c: char)
    requires
        0 <= index <= text.len(),
    ensures
        text.insert(index, c).remove(index) == text,
{
    assert(text.insert(index, c).remove(index) =~= text);
}

/// Inserting a string and then removing the range it occupies restores the text.
pub proof fn lemma_insert_str_then_remove_range(text: Seq<char>, position: int, s: Seq<char>)
    requires
        0 <= position <= text.len(),
    ensures
        ({
            let t = text.take(position) + s + text.skip(position);
            t.take(position) + t.skip(position + s.len()) == text
        }),
{
    let t = text.take(position) + s + text.skip(position);
    assert(t.take(position) + t.skip(position + s.len()) =~= text);
}

} // verus!
