//! Splitting a stream of characters with advance widths into lines: without wrapping, at any
//! letter, or at word boundaries.

use vstd::prelude::*;
use std::ops::Range;
use crate::text::TextLine;

verus! {

/// Whether the code point `u` has the Unicode `White_Space` property: tab, line feed, line
/// tabulation, form feed, carriage return, space, next line, no-break space, Ogham space
/// mark, the spaces from en quad to hair space, line separator, paragraph separator, narrow
/// no-break space, medium mathematical space and ideographic space.
pub open spec fn is_white_space_code(u: u32) -> bool {
    ||| 0x09 <= u <= 0x0D
    ||| u == 0x20
    ||| u == 0x85
    ||| u == 0xA0
    ||| u == 0x1680
    ||| 0x2000 <= u <= 0x200A
    ||| u == 0x2028
    ||| u == 0x2029
    ||| u == 0x202F
    ||| u == 0x205F
    ||| u == 0x3000
}

/// Whether a character has the Unicode `White_Space` property.
pub open spec fn is_whitespace_char(c: char) -> bool {
    is_white_space_code(c as u32)
}

/// Whether `c` is white space, as `char::is_whitespace` decides it.
pub fn char_is_whitespace(c: char) -> (r: bool)
    ensures
        r == is_whitespace_char(c),
{
    let u = c as u32;
    (0x09 <= u && u <= 0x0D) || u == 0x20 || u == 0x85 || u == 0xA0 || u == 0x1680
        || (0x2000 <= u && u <= 0x200A) || u == 0x2028 || u == 0x2029 || u == 0x202F
        || u == 0x205F || u == 0x3000
}

pub open spec fn spec_is_newline(c: char) -> bool {
    c == '\n' || c == '\r'
}

/// Line feed and carriage return end a line.
pub fn is_newline(c: char) -> (r: bool)
    ensures
        r == spec_is_newline(c),
{
    c == '\n' || c == '\r'
}

/// The largest advance of a single character.
pub open spec fn max_advance() -> int {
    0xFFFF_FFFF
}

/// The state of a line wrapper as plain values.
pub struct WrapState {
    /// Lines emitted so far.
    pub lines: Seq<TextLine>,
    /// Width allowed for the first line.
    pub first_width: u64,
    /// Width allowed for every other line.
    pub normal_width: u64,
    /// Start of the current line.
    pub start: int,
    /// Position of the next character.
    pub position: int,
    /// Width of the current line.
    pub width: int,
    /// Start of the current word (word wrapping only).
    pub word_start: int,
    /// Width of the current word (word wrapping only).
    pub word_width: int,
}

/// Width allowed for the line being filled.
pub open spec fn state_max_width(v: WrapState) -> int {
    if v.lines.len() == 0 { v.first_width as int } else { v.normal_width as int }
}

/// The state after emitting the line `begin..end` of the given width.
pub open spec fn emit(v: WrapState, begin: int, end: int, width: int) -> WrapState {
    WrapState {
        lines: v.lines.push(TextLine { begin: begin as usize, end: end as usize, width: width as u64 }),
        ..v
    }
}

/// The state after the last character: the current line is emitted.
pub open spec fn finish_state(v: WrapState) -> WrapState {
    emit(v, v.start, v.position, v.width)
}

/// Counters stay within the machine range.
pub open spec fn state_fits(v: WrapState) -> bool {
    &&& 0 <= v.start <= v.position
    &&& v.position + 2 <= usize::MAX
    &&& 0 <= v.width
    &&& 0 <= v.word_width
    &&& 0 <= v.word_start <= v.position
    &&& v.width + 2 * max_advance() <= u64::MAX
    &&& v.word_width + 2 * max_advance() <= u64::MAX
    &&& v.start < v.word_start ==> v.word_width <= v.width
}

/// Collects emitted lines and tells the wrappers how wide a line may be.
pub struct WrapSink {
    lines: Vec<TextLine>,
    normal_width: u64,
    first_width: u64,
}

impl WrapSink {
    pub closed spec fn spec_lines(&self) -> Seq<TextLine> {
        self.lines@
    }

    pub closed spec fn spec_first_width(&self) -> u64 {
        self.first_width
    }

    pub closed spec fn spec_normal_width(&self) -> u64 {
        self.normal_width
    }

    /// A sink with no lines yet; the first line may be `first_width` wide, the others
    /// `normal_width`.
    pub fn new(first_width: u64, normal_width: u64) -> (r: Self)
        ensures
            r.spec_lines() == Seq::<TextLine>::empty(),
            r.spec_first_width() == first_width,
            r.spec_normal_width() == normal_width,
    {
        WrapSink { lines: Vec::new(), normal_width, first_width }
    }

    /// Appends the line `range` with the given width.
    pub fn push_line(&mut self, range: Range<usize>, width: u64)
        ensures
            final(self).spec_lines() == old(self).spec_lines().push(
                TextLine { begin: range.start, end: range.end, width },
            ),
            final(self).spec_first_width() == old(self).spec_first_width(),
            final(self).spec_normal_width() == old(self).spec_normal_width(),
    {
        self.lines.push(TextLine { begin: range.start, end: range.end, width });
    }

    /// The width allowed for the next line.
    pub fn max_width(&self) -> (r: u64)
        ensures
            r == (if self.spec_lines().len() == 0 {
                self.spec_first_width()
            } else {
                self.spec_normal_width()
            }),
    {
        if self.lines.len() == 0 {
            self.first_width
        } else {
            self.normal_width
        }
    }

    /// The emitted lines.
    pub fn into_lines(self) -> (r: Vec<TextLine>)
        ensures
            r@ == self.spec_lines(),
    {
        self.lines
    }
}

/// A line wrapper: consumes characters with their advances and emits lines to its sink.
pub trait TextWrapper: Sized {
    /// The wrapper's state.
    spec fn state(&self) -> WrapState;

    /// The state after one more character.
    spec fn step(v: WrapState, c: char, advance: u32) -> WrapState;

    /// A step keeps the counters within their bounds.
    proof fn lemma_step_bounds(v: WrapState, c: char, advance: u32)
        requires
            state_fits(v),
        ensures
            ({
                let w = Self::step(v, c, advance);
                &&& w.position <= v.position + 2
                &&& 0 <= w.start <= w.position
                &&& 0 <= w.word_start <= w.position
                &&& 0 <= w.width <= (if v.width >= v.word_width { v.width } else { v.word_width }) + 2 * advance
                &&& 0 <= w.word_width <= v.word_width + advance
                &&& w.start < w.word_start ==> w.word_width <= w.width
                &&& w.first_width == v.first_width
                &&& w.normal_width == v.normal_width
            }),
    ;

    /// Consumes one character.
    fn push(&mut self, c: char, advance: u32)
        requires
            state_fits(old(self).state()),
        ensures
            final(self).state() == Self::step(old(self).state(), c, advance),
    ;

    /// Emits the line in progress.
    fn finish(&mut self)
        requires
            state_fits(old(self).state()),
        ensures
            final(self).state() == finish_state(old(self).state()),
    ;

    /// The lines emitted so far.
    fn into_lines(self) -> (r: Vec<TextLine>)
        ensures
            r@ == self.state().lines,
    ;
}

/// Keeps lines as they are: only newline characters end a line, and they belong to no line.
pub struct NoWrap {
    sink: WrapSink,
    start: usize,
    position: usize,
    width: u64,
}

impl NoWrap {
    /// A wrapper at the start of the text.
    pub fn new(sink: WrapSink) -> (r: Self)
        ensures
            r.state() == (WrapState {
                lines: sink.spec_lines(),
                first_width: sink.spec_first_width(),
                normal_width: sink.spec_normal_width(),
                start: 0,
                position: 0,
                width: 0,
                word_start: 0,
                word_width: 0,
            }),
    {
        NoWrap { sink, start: 0, position: 0, width: 0 }
    }
}

pub open spec fn no_wrap_step(v: WrapState, c: char, advance: u32) -> WrapState {
    if spec_is_newline(c) {
        WrapState {
            start: v.position + 1,
            position: v.position + 1,
            width: 0,
            ..emit(v, v.start, v.position, v.width)
        }
    } else {
        WrapState { position: v.position + 1, width: v.width + advance, ..v }
    }
}

impl TextWrapper for NoWrap {
    closed spec fn state(&self) -> WrapState {
        WrapState {
            lines: self.sink.spec_lines(),
            first_width: self.sink.spec_first_width(),
            normal_width: self.sink.spec_normal_width(),
            start: self.start as int,
            position: self.position as int,
            width: self.width as int,
            word_start: 0,
            word_width: 0,
        }
    }

    open spec fn step(v: WrapState, c: char, advance: u32) -> WrapState {
        no_wrap_step(v, c, advance)
    }

    proof fn lemma_step_bounds(v: WrapState, c: char, advance: u32) {
    }

    fn push(&mut self, c: char, advance: u32) {
        if is_newline(c) {
            self.sink.push_line(Range { start: self.start, end: self.position }, self.width);
            self.start = self.position + 1;
            self.position = self.position + 1;
            self.width = 0;
        } else {
            self.position = self.position + 1;
            self.width = self.width + advance as u64;
        }
    }

    fn finish(&mut self) {
        self.sink.push_line(Range { start: self.start, end: self.position }, self.width);
    }

    fn into_lines(self) -> (r: Vec<TextLine>) {
        self.sink.into_lines()
    }
}

/// Wraps at whichever character would make the line wider than allowed. A character other
/// than a line break moves the position on by two and adds its advance to the line's width
/// twice; a line break moves it on by one and ends the line.
pub struct LetterWrap {
    sink: WrapSink,
    start: usize,
    position: usize,
    width: u64,
}

impl LetterWrap {
    /// A wrapper at the start of the text.
    pub fn new(sink: WrapSink) -> (r: Self)
        ensures
            r.state() == (WrapState {
                lines: sink.spec_lines(),
                first_width: sink.spec_first_width(),
                normal_width: sink.spec_normal_width(),
                start: 0,
                position: 0,
                width: 0,
                word_start: 0,
                word_width: 0,
            }),
    {
        LetterWrap { sink, start: 0, position: 0, width: 0 }
    }
}

/// The current line is emitted first when the character would not fit on it.
pub open spec fn letter_wrap_break(v: WrapState, advance: u32) -> WrapState {
    if v.position != v.start && v.width + advance > state_max_width(v) {
        WrapState { start: v.position, width: 0, ..emit(v, v.start, v.position, v.width) }
    } else {
        v
    }
}

pub open spec fn letter_wrap_step(v: WrapState, c: char, advance: u32) -> WrapState {
    let b = letter_wrap_break(v, advance);
    let a = WrapState { position: b.position + 1, width: b.width + advance, ..b };
    if spec_is_newline(c) {
        WrapState { start: a.position, width: 0, ..emit(a, a.start, a.position, a.width) }
    } else {
        WrapState { position: a.position + 1, width: a.width + advance, ..a }
    }
}

impl TextWrapper for LetterWrap {
    closed spec fn state(&self) -> WrapState {
        WrapState {
            lines: self.sink.spec_lines(),
            first_width: self.sink.spec_first_width(),
            normal_width: self.sink.spec_normal_width(),
            start: self.start as int,
            position: self.position as int,
            width: self.width as int,
            word_start: 0,
            word_width: 0,
        }
    }

    open spec fn step(v: WrapState, c: char, advance: u32) -> WrapState {
        letter_wrap_step(v, c, advance)
    }

    proof fn lemma_step_bounds(v: WrapState, c: char, advance: u32) {
    }

    fn push(&mut self, c: char, advance: u32) {
        if self.position != self.start && self.width + advance as u64 > self.sink.max_width() {
            self.sink.push_line(Range { start: self.start, end: self.position }, self.width);
            self.start = self.position;
            self.width = 0;
        }
        self.position = self.position + 1;
        self.width = self.width + advance as u64;
        if is_newline(c) {
            self.sink.push_line(Range { start: self.start, end: self.position }, self.width);
            self.start = self.position;
            self.width = 0;
        } else {
            self.position = self.position + 1;
            self.width = self.width + advance as u64;
        }
    }

    fn finish(&mut self) {
        self.sink.push_line(Range { start: self.start, end: self.position }, self.width);
    }

    fn into_lines(self) -> (r: Vec<TextLine>) {
        self.sink.into_lines()
    }
}

/// Wraps before the word that would make the line wider than allowed; a word that does
/// not fit on a line of its own is wrapped at a letter.
pub struct WordWrap {
    sink: WrapSink,
    start: usize,
    position: usize,
    width: u64,
    word_start: usize,
    word_width: u64,
}

impl WordWrap {
    /// A wrapper at the start of the text.
    pub fn new(sink: WrapSink) -> (r: Self)
        ensures
            r.state() == (WrapState {
                lines: sink.spec_lines(),
                first_width: sink.spec_first_width(),
                normal_width: sink.spec_normal_width(),
                start: 0,
                position: 0,
                width: 0,
                word_start: 0,
                word_width: 0,
            }),
    {
        WordWrap { sink, start: 0, position: 0, width: 0, word_start: 0, word_width: 0 }
    }
}

/// Wrapping before the current character: the current word moves to the next line, or,
/// when the word began at or before the start of the line, the line is cut here.
pub open spec fn word_wrap_break(v: WrapState, advance: u32) -> WrapState {
    if v.position != v.start && v.width + advance > state_max_width(v) {
        if v.start < v.word_start {
            WrapState {
                start: v.word_start,
                width: v.word_width,
                ..emit(v, v.start, v.word_start, v.width - v.word_width)
            }
        } else {
            WrapState { start: v.position, width: 0, ..emit(v, v.start, v.position, v.width) }
        }
    } else {
        v
    }
}

pub open spec fn word_wrap_step(v: WrapState, c: char, advance: u32) -> WrapState {
    let b = word_wrap_break(v, advance);
    let a = WrapState { position: b.position + 1, width: b.width + advance, ..b };
    if spec_is_newline(c) {
        WrapState {
            start: a.position,
            width: 0,
            word_start: a.position,
            word_width: 0,
            ..emit(a, a.start, a.position, a.width)
        }
    } else if is_whitespace_char(c) {
        WrapState { word_start: a.position, word_width: 0, ..a }
    } else {
        WrapState { word_width: a.word_width + advance, ..a }
    }
}

impl TextWrapper for WordWrap {
    closed spec fn state(&self) -> WrapState {
        WrapState {
            lines: self.sink.spec_lines(),
            first_width: self.sink.spec_first_width(),
            normal_width: self.sink.spec_normal_width(),
            start: self.start as int,
            position: self.position as int,
            width: self.width as int,
            word_start: self.word_start as int,
            word_width: self.word_width as int,
        }
    }

    open spec fn step(v: WrapState, c: char, advance: u32) -> WrapState {
        word_wrap_step(v, c, advance)
    }

    proof fn lemma_step_bounds(v: WrapState, c: char, advance: u32) {
    }

    fn push(&mut self, c: char, advance: u32) {
        if self.position != self.start && self.width + advance as u64 > self.sink.max_width() {
            if self.start < self.word_start {
                self.sink.push_line(
                    Range { start: self.start, end: self.word_start },
                    self.width - self.word_width,
                );
                self.start = self.word_start;
                self.width = self.word_width;
            } else {
                self.sink.push_line(Range { start: self.start, end: self.position }, self.width);
                self.start = self.position;
                self.width = 0;
            }
        }
        self.position = self.position + 1;
        self.width = self.width + advance as u64;
        if is_newline(c) {
            self.sink.push_line(Range { start: self.start, end: self.position }, self.width);
            self.start = self.position;
            self.width = 0;
            self.word_start = self.position;
            self.word_width = 0;
        } else if char_is_whitespace(c) {
            self.word_start = self.position;
            self.word_width = 0;
        } else {
            self.word_width = self.word_width + advance as u64;
        }
    }

    fn finish(&mut self) {
        self.sink.push_line(Range { start: self.start, end: self.position }, self.width);
    }

    fn into_lines(self) -> (r: Vec<TextLine>) {
        self.sink.into_lines()
    }
}

/// The state after consuming every character of `s`, in order.
pub open spec fn run<W: TextWrapper>(v: WrapState, s: Seq<(char, u32)>) -> WrapState
    decreases s.len(),
{
    if s.len() == 0 {
        v
    } else {
        W::step(run::<W>(v, s.drop_last()), s.last().0, s.last().1)
    }
}

/// A wrapper at the beginning of the text.
pub open spec fn fresh_state(v: WrapState) -> bool {
    v.start == 0 && v.position == 0 && v.width == 0 && v.word_start == 0 && v.word_width == 0
}

/// The bound on the number of characters a wrapper takes in one pass (exclusive): a line's
/// width is a `u64` sum of `u32` advances, each counted up to twice, and a position moves by up
/// to two per character in a `usize` (at least 32 bits); below this bound neither overflows.
pub open spec fn max_wrap_len() -> int {
    0x7FFF_FFFF
}

/// Feeds every character with its advance to the wrapper, finishes it and returns the lines.
pub fn wrap<W: TextWrapper>(wrapper: W, source: &[(char, u32)]) -> (r: Vec<TextLine>)
    requires
        fresh_state(wrapper.state()),
        source@.len() < max_wrap_len(),
    ensures
        r@ == finish_state(run::<W>(wrapper.state(), source@)).lines,
{
    let mut wrapper = wrapper;
    let ghost init = wrapper.state();
    let mut i: usize = 0;
    while i < source.len()
        invariant
            i <= source@.len() < max_wrap_len(),
            wrapper.state() == run::<W>(init, source@.take(i as int)),
            wrapper.state().position <= 2 * i,
            wrapper.state().width <= 2 * i * max_advance(),
            wrapper.state().word_width <= 2 * i * max_advance(),
            state_fits(wrapper.state()),
        decreases source@.len() - i,
    {
        let (c, a) = source[i];
        proof {
            W::lemma_step_bounds(wrapper.state(), c, a);
            assert(source@.take(i + 1).drop_last() == source@.take(i as int));
        }
        wrapper.push(c, a);
        i = i + 1;
    }
    assert(source@.take(source@.len() as int) == source@);
    wrapper.finish();
    wrapper.into_lines()
}

/// `length` copies of the mask character, each with the given advance.
pub open spec fn mask_source(length: nat, mask_char: char, advance: u32) -> Seq<(char, u32)> {
    Seq::new(length, |i: int| (mask_char, advance))
}

/// Feeds `length` copies of the mask character to the wrapper, finishes it and returns the
/// lines.
pub fn wrap_mask<W: TextWrapper>(wrapper: W, length: usize, mask_char: char, advance: u32) -> (r:
    Vec<TextLine>)
    requires
        fresh_state(wrapper.state()),
        length < max_wrap_len(),
    ensures
        r@ == finish_state(run::<W>(wrapper.state(), mask_source(length as nat, mask_char, advance))).lines,
{
    let mut wrapper = wrapper;
    let ghost init = wrapper.state();
    let ghost source = mask_source(length as nat, mask_char, advance);
    let mut i: usize = 0;
    while i < length
        invariant
            i <= length < max_wrap_len(),
            source == mask_source(length as nat, mask_char, advance),
            wrapper.state() == run::<W>(init, source.take(i as int)),
            wrapper.state().position <= 2 * i,
            wrapper.state().width <= 2 * i * max_advance(),
            wrapper.state().word_width <= 2 * i * max_advance(),
            state_fits(wrapper.state()),
        decreases length - i,
    {
        proof {
            W::lemma_step_bounds(wrapper.state(), mask_char, advance);
            assert(source.take(i + 1).drop_last() == source.take(i as int));
        }
        wrapper.push(mask_char, advance);
        i = i + 1;
    }
    assert(source.take(length as int) == source);
    wrapper.finish();
    wrapper.into_lines()
}

/// A wrapper with no lines yet, at the beginning of the text.
pub open spec fn initial_state(first_width: u64, normal_width: u64) -> WrapState {
    WrapState {
        lines: Seq::empty(),
        first_width,
        normal_width,
        start: 0,
        position: 0,
        width: 0,
        word_start: 0,
        word_width: 0,
    }
}

/// Sum of the advances of the characters `b..e` of `s`.
pub open spec fn advance_sum(s: Seq<(char, u32)>, b: int, e: int) -> int
    decreases e - b,
{
    if e <= b {
        0
    } else {
        advance_sum(s, b, e - 1) + s[e - 1].1
    }
}

/// The lines split `s` at its newline characters: they follow each other with exactly one
/// newline character between neighbours, hold no newline character, cover the text from its
/// first to its last character, and each has the sum of its characters' advances as width.
pub open spec fn splits_at_newlines(lines: Seq<TextLine>, s: Seq<(char, u32)>) -> bool {
    &&& lines.len() >= 1
    &&& lines[0].begin == 0
    &&& lines.last().end == s.len()
    &&& forall|k: int| 0 <= k < lines.len() ==> (#[trigger] lines[k]).begin <= lines[k].end
    &&& forall|k: int|
        0 <= k < lines.len() - 1 ==> {
            &&& (#[trigger] lines[k]).end < s.len()
            &&& spec_is_newline(s[lines[k].end as int].0)
            &&& lines[k + 1].begin == lines[k].end + 1
        }
    &&& forall|k: int, j: int|
        0 <= k < lines.len() && (#[trigger] lines[k]).begin <= j < lines[k].end ==> !spec_is_newline(
            #[trigger] s[j].0,
        )
    &&& forall|k: int|
        0 <= k < lines.len() ==> (#[trigger] lines[k]).width == advance_sum(s, lines[k].begin as int, lines[k].end as int)
}

/// The lines cover `0..end` one after another, without gaps or overlaps.
pub open spec fn tiles(lines: Seq<TextLine>, end: int) -> bool {
    &&& lines.len() >= 1
    &&& lines[0].begin == 0
    &&& lines.last().end == end
    &&& forall|k: int| 0 <= k < lines.len() ==> (#[trigger] lines[k]).begin <= lines[k].end
    &&& forall|k: int| 0 <= k < lines.len() - 1 ==> (#[trigger] lines[k]).end == lines[k + 1].begin
}

/// The emitted lines cover `0..start` one after another.
pub open spec fn tiles_up_to(lines: Seq<TextLine>, start: int) -> bool {
    &&& lines.len() == 0 ==> start == 0
    &&& lines.len() > 0 ==> {
        &&& lines[0].begin == 0
        &&& lines.last().end == start
        &&& forall|k: int| 0 <= k < lines.len() ==> (#[trigger] lines[k]).begin <= lines[k].end
        &&& forall|k: int| 0 <= k < lines.len() - 1 ==> (#[trigger] lines[k]).end == lines[k + 1].begin
    }
}

proof fn lemma_advance_sum_prefix(s: Seq<(char, u32)>, t: Seq<(char, u32)>, b: int, e: int)
    requires
        0 <= b,
        e <= t.len(),
        t.len() <= s.len(),
        forall|j: int| 0 <= j < t.len() ==> s[j] == t[j],
    ensures
        advance_sum(s, b, e) == advance_sum(t, b, e),
    decreases e - b,
{
    if e > b {
        lemma_advance_sum_prefix(s, t, b, e - 1);
    }
}

proof fn lemma_advance_sum_bound(s: Seq<(char, u32)>, b: int, e: int)
    requires
        0 <= b,
    ensures
        0 <= advance_sum(s, b, e),
        b <= e ==> advance_sum(s, b, e) <= (e - b) * max_advance(),
    decreases e - b,
{
    if e > b {
        lemma_advance_sum_bound(s, b, e - 1);
    }
}

proof fn lemma_splits_after_newline(s0: Seq<(char, u32)>, s: Seq<(char, u32)>, l0: Seq<TextLine>, l: Seq<TextLine>)
    requires
        splits_at_newlines(l0, s0),
        s.len() == s0.len() + 1,
        s0.len() + 1 <= usize::MAX,
        forall|j: int| 0 <= j < s0.len() ==> s[j] == s0[j],
        spec_is_newline(s[s0.len() as int].0),
        forall|k: int| 0 <= k < l0.len() ==> (#[trigger] l0[k]).width == advance_sum(s, l0[k].begin as int, l0[k].end as int),
        l == l0.push(TextLine { begin: (s0.len() + 1) as usize, end: (s0.len() + 1) as usize, width: 0 }),
    ensures
        splits_at_newlines(l, s),
{
    let n = s0.len() as int;
    assert(l[0] == l0[0]);
    assert forall|k: int| 0 <= k < l.len() implies (#[trigger] l[k]).begin <= l[k].end by {
        if k < l0.len() {
            assert(l[k] == l0[k]);
        }
    }
    assert forall|k: int| 0 <= k < l.len() - 1 implies {
        &&& (#[trigger] l[k]).end < s.len()
        &&& spec_is_newline(s[l[k].end as int].0)
        &&& l[k + 1].begin == l[k].end + 1
    } by {
        assert(l[k] == l0[k]);
        if k < l0.len() - 1 {
            assert(l[k + 1] == l0[k + 1]);
            assert(l0[k].end < s0.len());
            assert(s[l0[k].end as int] == s0[l0[k].end as int]);
        } else {
            assert(l0[k].end == n);
        }
    }
    assert forall|k: int, j: int| 0 <= k < l.len() && (#[trigger] l[k]).begin <= j < l[k].end implies !spec_is_newline(#[trigger] s[j].0) by {
        if k < l0.len() {
            assert(l[k] == l0[k]);
            assert(l0[k].begin <= j < l0[k].end);
            assert(l0[k].end <= n) by {
                if k < l0.len() - 1 {
                } else {
                }
            }
            assert(s[j] == s0[j]);
            assert(!spec_is_newline(s0[j].0));
        }
    }
    assert forall|k: int| 0 <= k < l.len() implies (#[trigger] l[k]).width == advance_sum(s, l[k].begin as int, l[k].end as int) by {
        if k < l0.len() {
            assert(l[k] == l0[k]);
        }
    }
}

proof fn lemma_splits_after_letter(s0: Seq<(char, u32)>, s: Seq<(char, u32)>, l0: Seq<TextLine>, l: Seq<TextLine>)
    requires
        splits_at_newlines(l0, s0),
        s.len() == s0.len() + 1,
        s0.len() + 1 <= usize::MAX,
        forall|j: int| 0 <= j < s0.len() ==> s[j] == s0[j],
        !spec_is_newline(s[s0.len() as int].0),
        forall|k: int| 0 <= k < l0.len() ==> (#[trigger] l0[k]).width == advance_sum(s, l0[k].begin as int, l0[k].end as int),
        l.len() == l0.len(),
        forall|k: int| 0 <= k < l0.len() - 1 ==> #[trigger] l[k] == l0[k],
        l.last().begin == l0.last().begin,
        l.last().end == s0.len() + 1,
        l.last().width == advance_sum(s, l0.last().begin as int, (s0.len() + 1) as int),
    ensures
        splits_at_newlines(l, s),
{
    let n = s0.len() as int;
    let m = l.len() - 1;
    assert(l0.last().end == n);
    if m == 0 {
        assert(l[0].begin == l0[0].begin);
    } else {
        assert(l[0] == l0[0]);
    }
    assert forall|k: int| 0 <= k < l.len() implies (#[trigger] l[k]).begin <= l[k].end by {
        if k < m {
            assert(l[k] == l0[k]);
        } else {
            assert(l0[m].begin <= l0[m].end);
        }
    }
    assert forall|k: int| 0 <= k < l.len() - 1 implies {
        &&& (#[trigger] l[k]).end < s.len()
        &&& spec_is_newline(s[l[k].end as int].0)
        &&& l[k + 1].begin == l[k].end + 1
    } by {
        assert(l[k] == l0[k]);
        assert(l0[k].end < s0.len());
        assert(s[l0[k].end as int] == s0[l0[k].end as int]);
        if k + 1 < m {
            assert(l[k + 1] == l0[k + 1]);
        }
    }
    assert forall|k: int, j: int| 0 <= k < l.len() && (#[trigger] l[k]).begin <= j < l[k].end implies !spec_is_newline(#[trigger] s[j].0) by {
        if k < m {
            assert(l[k] == l0[k]);
            assert(l0[k].begin <= j < l0[k].end);
            assert(l0[k].end < s0.len());
            assert(s[j] == s0[j]);
            assert(!spec_is_newline(s0[j].0));
        } else if j < n {
            assert(l0[m].begin <= j < l0[m].end);
            assert(s[j] == s0[j]);
            assert(!spec_is_newline(s0[j].0));
        }
    }
    assert forall|k: int| 0 <= k < l.len() implies (#[trigger] l[k]).width == advance_sum(s, l[k].begin as int, l[k].end as int) by {
        if k < m {
            assert(l[k] == l0[k]);
        }
    }
}

proof fn lemma_no_wrap_run(s: Seq<(char, u32)>, first_width: u64, normal_width: u64)
    requires
        s.len() < max_wrap_len(),
    ensures
        ({
            let v = run::<NoWrap>(initial_state(first_width, normal_width), s);
            &&& v.position == s.len()
            &&& 0 <= v.start <= v.position
            &&& v.width == advance_sum(s, v.start, v.position)
            &&& v.word_start == 0 && v.word_width == 0
            &&& splits_at_newlines(finish_state(v).lines, s)
        }),
    decreases s.len(),
{
    let init = initial_state(first_width, normal_width);
    if s.len() == 0 {
        let v = run::<NoWrap>(init, s);
        assert(finish_state(v).lines =~= seq![TextLine { begin: 0, end: 0, width: 0 }]);
    } else {
        let s0 = s.drop_last();
        lemma_no_wrap_run(s0, first_width, normal_width);
        let v0 = run::<NoWrap>(init, s0);
        let (c, a) = s.last();
        let v = run::<NoWrap>(init, s);
        assert(v == no_wrap_step(v0, c, a));
        let l0 = finish_state(v0).lines;
        let l = finish_state(v).lines;
        assert forall|j: int| 0 <= j < s0.len() implies s[j] == s0[j] by {}
        lemma_advance_sum_bound(s0, v0.start, v0.position);
        assert forall|k: int| 0 <= k < l0.len() implies (#[trigger] l0[k]).width == advance_sum(
            s,
            l0[k].begin as int,
            l0[k].end as int,
        ) by {
            lemma_advance_sum_prefix(s, s0, l0[k].begin as int, l0[k].end as int);
        }
        if spec_is_newline(c) {
            assert(l =~= l0.push(
                TextLine { begin: (s0.len() + 1) as usize, end: (s0.len() + 1) as usize, width: 0 },
            ));
            lemma_splits_after_newline(s0, s, l0, l);
        } else {
            lemma_advance_sum_prefix(s, s0, v0.start, v0.position);
            assert(l =~= l0.drop_last().push(
                TextLine {
                    begin: v0.start as usize,
                    end: (v0.position + 1) as usize,
                    width: (v0.width + a) as u64,
                },
            ));
            lemma_splits_after_letter(s0, s, l0, l);
        }
    }
}

/// Without wrapping, the lines are exactly the pieces of the text between newline characters,
/// each as wide as its characters together.
pub proof fn lemma_no_wrap_splits_at_newlines(s: Seq<(char, u32)>, first_width: u64, normal_width: u64)
    requires
        s.len() < max_wrap_len(),
    ensures
        splits_at_newlines(
            finish_state(run::<NoWrap>(initial_state(first_width, normal_width), s)).lines,
            s,
        ),
{
    lemma_no_wrap_run(s, first_width, normal_width);
}

/// The number of line breaks among the first `n` characters.
pub open spec fn newline_count(s: Seq<(char, u32)>, n: int) -> nat
    decreases n,
{
    if n <= 0 {
        0
    } else {
        newline_count(s, n - 1) + if spec_is_newline(s[n - 1].0) { 1nat } else { 0nat }
    }
}

proof fn lemma_count_without_newlines(s: Seq<(char, u32)>, b: int, e: int)
    requires
        0 <= b <= e <= s.len(),
        forall|j: int| b <= j < e ==> !spec_is_newline(#[trigger] s[j].0),
    ensures
        newline_count(s, e) == newline_count(s, b),
    decreases e - b,
{
    if e > b {
        lemma_count_without_newlines(s, b, e - 1);
        assert(!spec_is_newline(s[e - 1].0));
    }
}

proof fn lemma_line_begin_count(lines: Seq<TextLine>, s: Seq<(char, u32)>, k: int)
    requires
        splits_at_newlines(lines, s),
        0 <= k < lines.len(),
    ensures
        newline_count(s, lines[k].begin as int) == k,
    decreases k,
{
    if k > 0 {
        lemma_line_begin_count(lines, s, k - 1);
        let l = lines[k - 1];
        assert(l.begin <= l.end);
        assert(l.end < s.len() && spec_is_newline(s[l.end as int].0) && lines[k].begin == l.end + 1);
        assert forall|j: int| l.begin <= j < l.end implies !spec_is_newline(#[trigger] s[j].0) by {
            assert(lines[k - 1].begin <= j < lines[k - 1].end);
        }
        lemma_count_without_newlines(s, l.begin as int, l.end as int);
        assert(newline_count(s, l.end + 1) == newline_count(s, l.end as int) + 1);
    }
}

/// Without wrapping, there is one line more than there are line breaks.
pub proof fn lemma_no_wrap_line_count(s: Seq<(char, u32)>, first_width: u64, normal_width: u64)
    requires
        s.len() < max_wrap_len(),
    ensures
        finish_state(run::<NoWrap>(initial_state(first_width, normal_width), s)).lines.len()
            == newline_count(s, s.len() as int) + 1,
{
    lemma_no_wrap_splits_at_newlines(s, first_width, normal_width);
    let lines = finish_state(run::<NoWrap>(initial_state(first_width, normal_width), s)).lines;
    let k = lines.len() - 1;
    lemma_line_begin_count(lines, s, k);
    assert(lines[k].begin <= lines[k].end);
    assert forall|j: int| lines[k].begin <= j < lines[k].end implies !spec_is_newline(#[trigger] s[j].0) by {
        assert(lines[k].begin <= j < lines[k].end);
    }
    lemma_count_without_newlines(s, lines[k].begin as int, lines[k].end as int);
}

proof fn lemma_tiles_extend(lines: Seq<TextLine>, start: int, end: int, width: int)
    requires
        tiles_up_to(lines, start),
        0 <= start <= end <= usize::MAX,
    ensures
        tiles_up_to(lines.push(TextLine { begin: start as usize, end: end as usize, width: width as u64 }), end),
        tiles(lines.push(TextLine { begin: start as usize, end: end as usize, width: width as u64 }), end),
{
    let l = lines.push(TextLine { begin: start as usize, end: end as usize, width: width as u64 });
    assert forall|k: int| 0 <= k < l.len() - 1 implies (#[trigger] l[k]).end == l[k + 1].begin by {
        if k < lines.len() - 1 {
            assert(l[k] == lines[k] && l[k + 1] == lines[k + 1]);
        }
    }
}

proof fn lemma_word_wrap_run(s: Seq<(char, u32)>, first_width: u64, normal_width: u64)
    requires
        s.len() < max_wrap_len(),
    ensures
        ({
            let v = run::<WordWrap>(initial_state(first_width, normal_width), s);
            &&& v.position == s.len()
            &&& state_fits(v)
            &&& v.width <= 2 * s.len() * max_advance()
            &&& v.word_width <= 2 * s.len() * max_advance()
            &&& tiles_up_to(v.lines, v.start)
        }),
    decreases s.len(),
{
    let init = initial_state(first_width, normal_width);
    if s.len() > 0 {
        let s0 = s.drop_last();
        lemma_word_wrap_run(s0, first_width, normal_width);
        let v0 = run::<WordWrap>(init, s0);
        let (c, a) = s.last();
        WordWrap::lemma_step_bounds(v0, c, a);
        let b = word_wrap_break(v0, a);
        if v0.position != v0.start && v0.width + a > state_max_width(v0) {
            if v0.start < v0.word_start {
                lemma_tiles_extend(v0.lines, v0.start, v0.word_start, v0.width - v0.word_width);
            } else {
                lemma_tiles_extend(v0.lines, v0.start, v0.position, v0.width);
            }
        }
        if spec_is_newline(c) {
            lemma_tiles_extend(b.lines, b.start, b.position + 1, b.width + a);
        }
    }
}

/// With word wrapping, the lines cover the whole text one after another, without gaps or
/// overlaps.
pub proof fn lemma_word_wrap_tiles(s: Seq<(char, u32)>, first_width: u64, normal_width: u64)
    requires
        s.len() < max_wrap_len(),
    ensures
        tiles(finish_state(run::<WordWrap>(initial_state(first_width, normal_width), s)).lines, s.len() as int),
{
    lemma_word_wrap_run(s, first_width, normal_width);
    let v = run::<WordWrap>(initial_state(first_width, normal_width), s);
    lemma_tiles_extend(v.lines, v.start, v.position, v.width);
}

proof fn lemma_tiles_up_to_bounds(lines: Seq<TextLine>, start: int, k: int)
    requires
        tiles_up_to(lines, start),
        0 <= k < lines.len(),
    ensures
        lines[k].end <= start,
    decreases lines.len() - k,
{
    if k < lines.len() - 1 {
        lemma_tiles_up_to_bounds(lines, start, k + 1);
        assert(lines[k].end == lines[k + 1].begin);
        assert(lines[k + 1].begin <= lines[k + 1].end);
    }
}

proof fn lemma_advance_sum_split(s: Seq<(char, u32)>, b: int, m: int, e: int)
    requires
        b <= m <= e,
    ensures
        advance_sum(s, b, e) == advance_sum(s, b, m) + advance_sum(s, m, e),
    decreases e - m,
{
    if e > m {
        lemma_advance_sum_split(s, b, m, e - 1);
    }
}

/// What word wrapping keeps true of its state: the current line and word are as wide as their
/// characters, every emitted line is as wide as its characters, and every line break read so
/// far ends an emitted line.
pub open spec fn word_wrap_widths(v: WrapState, s: Seq<(char, u32)>) -> bool {
    &&& v.width == advance_sum(s, v.start, v.position)
    &&& v.start < v.word_start ==> v.word_width == advance_sum(s, v.word_start, v.position)
    &&& forall|k: int| 0 <= k < v.lines.len()
        ==> (#[trigger] v.lines[k]).width == advance_sum(s, v.lines[k].begin as int, v.lines[k].end as int)
    &&& forall|j: int| 0 <= j < v.position && spec_is_newline(#[trigger] s[j].0)
        ==> exists|k: int| 0 <= k < v.lines.len() && v.lines[k].end == j + 1
}

proof fn lemma_word_wrap_widths_run(s: Seq<(char, u32)>, first_width: u64, normal_width: u64)
    requires
        s.len() < max_wrap_len(),
    ensures
        word_wrap_widths(run::<WordWrap>(initial_state(first_width, normal_width), s), s),
    decreases s.len(),
{
    lemma_word_wrap_run(s, first_width, normal_width);
    let init = initial_state(first_width, normal_width);
    if s.len() > 0 {
        let s0 = s.drop_last();
        lemma_word_wrap_widths_run(s0, first_width, normal_width);
        lemma_word_wrap_run(s0, first_width, normal_width);
        let v0 = run::<WordWrap>(init, s0);
        let (c, a) = s.last();
        let n = s0.len() as int;
        assert(v0.position == n);
        assert forall|j: int| 0 <= j < s0.len() implies s[j] == s0[j] by {}
        // The facts about `v0` in terms of `s0` hold in terms of `s`.
        lemma_advance_sum_prefix(s, s0, v0.start, v0.position);
        lemma_advance_sum_prefix(s, s0, v0.word_start, v0.position);
        assert forall|k: int| 0 <= k < v0.lines.len() implies (#[trigger] v0.lines[k]).width
            == advance_sum(s, v0.lines[k].begin as int, v0.lines[k].end as int) by {
            assert(tiles_up_to(v0.lines, v0.start));
            lemma_tiles_up_to_bounds(v0.lines, v0.start, k);
            lemma_advance_sum_prefix(s, s0, v0.lines[k].begin as int, v0.lines[k].end as int);
        }
        let b = word_wrap_break(v0, a);
        if v0.position != v0.start && v0.width + a > state_max_width(v0) {
            if v0.start < v0.word_start {
                lemma_advance_sum_split(s, v0.start, v0.word_start, v0.position);
            }
        }
        assert(b.width == advance_sum(s, b.start, b.position));
        assert(b.start < b.word_start ==> b.word_width == advance_sum(s, b.word_start, b.position));
        assert(forall|k: int| 0 <= k < b.lines.len()
            ==> (#[trigger] b.lines[k]).width == advance_sum(s, b.lines[k].begin as int, b.lines[k].end as int));
        assert forall|j: int| 0 <= j < b.position && spec_is_newline(#[trigger] s[j].0)
            implies exists|k: int| 0 <= k < b.lines.len() && b.lines[k].end == j + 1 by {
            assert(s[j] == s0[j]);
            let k = choose|k: int| 0 <= k < v0.lines.len() && v0.lines[k].end == j + 1;
            assert(b.lines[k] == v0.lines[k]);
        }
        assert(b.position == n);
        assert(s[n] == (c, a));
        assert(advance_sum(s, b.start, n + 1) == advance_sum(s, b.start, n) + a);
        assert(b.start < b.word_start ==> advance_sum(s, b.word_start, n + 1) == advance_sum(s, b.word_start, n) + a);
        let v = run::<WordWrap>(init, s);
        assert(v == word_wrap_step(v0, c, a));
        assert forall|j: int| 0 <= j < v.position && spec_is_newline(#[trigger] s[j].0)
            implies exists|k: int| 0 <= k < v.lines.len() && v.lines[k].end == j + 1 by {
            if j < n {
                let k = choose|k: int| 0 <= k < b.lines.len() && b.lines[k].end == j + 1;
                assert(v.lines[k] == b.lines[k]);
            } else {
                assert(v.lines[v.lines.len() - 1].end == n + 1);
            }
        }
    }
}

/// With word wrapping, every line is as wide as its characters together, and every line
/// break ends a line.
pub proof fn lemma_word_wrap_widths(s: Seq<(char, u32)>, first_width: u64, normal_width: u64)
    requires
        s.len() < max_wrap_len(),
    ensures
        ({
            let lines = finish_state(run::<WordWrap>(initial_state(first_width, normal_width), s)).lines;
            &&& forall|k: int| 0 <= k < lines.len()
                ==> (#[trigger] lines[k]).width == advance_sum(s, lines[k].begin as int, lines[k].end as int)
            &&& forall|j: int| 0 <= j < s.len() && spec_is_newline(#[trigger] s[j].0)
                ==> exists|k: int| 0 <= k < lines.len() && lines[k].end == j + 1
        }),
{
    lemma_word_wrap_run(s, first_width, normal_width);
    lemma_word_wrap_widths_run(s, first_width, normal_width);
    let v = run::<WordWrap>(initial_state(first_width, normal_width), s);
    let lines = finish_state(v).lines;
    assert forall|j: int| 0 <= j < s.len() && spec_is_newline(#[trigger] s[j].0)
        implies exists|k: int| 0 <= k < lines.len() && lines[k].end == j + 1 by {
        let k = choose|k: int| 0 <= k < v.lines.len() && v.lines[k].end == j + 1;
        assert(lines[k] == v.lines[k]);
    }
}

proof fn lemma_word_wrap_keeps_first_width(s: Seq<(char, u32)>, first_width: u64, normal_width: u64)
    ensures
        run::<WordWrap>(initial_state(first_width, normal_width), s).first_width == first_width,
    decreases s.len(),
{
    if s.len() > 0 {
        lemma_word_wrap_keeps_first_width(s.drop_last(), first_width, normal_width);
    }
}

proof fn lemma_word_wrap_no_break(s: Seq<(char, u32)>, first_width: u64, normal_width: u64)
    requires
        s.len() < max_wrap_len(),
        forall|j: int| 0 <= j < s.len() ==> !spec_is_newline(#[trigger] s[j].0),
        advance_sum(s, 0, s.len() as int) <= first_width,
    ensures
        run::<WordWrap>(initial_state(first_width, normal_width), s).lines.len() == 0,
        run::<WordWrap>(initial_state(first_width, normal_width), s).start == 0,
    decreases s.len(),
{
    let init = initial_state(first_width, normal_width);
    if s.len() > 0 {
        let s0 = s.drop_last();
        let n = s0.len() as int;
        assert forall|j: int| 0 <= j < s0.len() implies s[j] == s0[j] by {}
        lemma_advance_sum_prefix(s, s0, 0, n);
        lemma_advance_sum_bound(s, 0, n);
        assert(advance_sum(s, 0, n + 1) == advance_sum(s, 0, n) + s[n].1);
        assert forall|j: int| 0 <= j < s0.len() implies !spec_is_newline(#[trigger] s0[j].0) by {
            assert(s0[j] == s[j]);
        }
        lemma_word_wrap_no_break(s0, first_width, normal_width);
        lemma_word_wrap_keeps_first_width(s0, first_width, normal_width);
        lemma_word_wrap_run(s0, first_width, normal_width);
        lemma_word_wrap_widths_run(s0, first_width, normal_width);
        let v0 = run::<WordWrap>(init, s0);
        assert(v0.width == advance_sum(s0, 0, n));
        assert(!spec_is_newline(s[n].0));
        assert(v0.lines.len() == 0 && v0.start == 0);
        assert(state_max_width(v0) == first_width);
        assert(v0.width + s[n].1 <= first_width);
        let b = word_wrap_break(v0, s[n].1);
        assert(b == v0);
        let v = word_wrap_step(v0, s[n].0, s[n].1);
        assert(v.lines == v0.lines && v.start == v0.start);
        assert(s.last() == s[n]);
        assert(run::<WordWrap>(init, s) == v);
    }
}

/// With word wrapping, a text without line breaks that fits in the width of the first line
/// stays on one line.
pub proof fn lemma_word_wrap_one_line(s: Seq<(char, u32)>, first_width: u64, normal_width: u64)
    requires
        s.len() < max_wrap_len(),
        forall|j: int| 0 <= j < s.len() ==> !spec_is_newline(#[trigger] s[j].0),
        advance_sum(s, 0, s.len() as int) <= first_width,
    ensures
        finish_state(run::<WordWrap>(initial_state(first_width, normal_width), s)).lines
            == seq![TextLine { begin: 0, end: s.len() as usize, width: advance_sum(s, 0, s.len() as int) as u64 }],
{
    lemma_word_wrap_no_break(s, first_width, normal_width);
    lemma_word_wrap_run(s, first_width, normal_width);
    lemma_word_wrap_widths_run(s, first_width, normal_width);
    let v = run::<WordWrap>(initial_state(first_width, normal_width), s);
    assert(finish_state(v).lines =~= seq![TextLine { begin: 0, end: s.len() as usize, width: advance_sum(s, 0, s.len() as int) as u64 }]);
}

/// Whether a line may end at `e` with word wrapping: just after white space (a line break is
/// white space too).
pub open spec fn ends_after_space(s: Seq<(char, u32)>, e: int) -> bool {
    0 < e <= s.len() && is_whitespace_char(s[e - 1].0)
}

/// Whether the characters `b..e` hold no white space: they lie within one word.
pub open spec fn within_one_word(s: Seq<(char, u32)>, b: int, e: int) -> bool {
    forall|j: int| b <= j < e ==> !is_whitespace_char(#[trigger] s[j].0)
}

/// What word wrapping keeps true of its lines and its current word: each emitted line ends just
/// after white space, unless it lies within one word (a word too long for a line is cut); no
/// white space follows the start of the current word on the current line; and a word that
/// starts after the line's start starts just after white space.
pub open spec fn word_wrap_words(v: WrapState, s: Seq<(char, u32)>) -> bool {
    &&& forall|k: int| 0 <= k < v.lines.len() ==> ends_after_space(s, (#[trigger] v.lines[k]).end as int)
        || within_one_word(s, v.lines[k].begin as int, v.lines[k].end as int)
    &&& forall|j: int| v.start <= j < v.position && is_whitespace_char(#[trigger] s[j].0) ==> j < v.word_start
    &&& v.start < v.word_start ==> ends_after_space(s, v.word_start)
}

proof fn lemma_newline_is_whitespace(c: char)
    ensures
        spec_is_newline(c) ==> is_whitespace_char(c),
{
    if c == '\n' {
        assert(('\n' as u32) == 10);
    }
    if c == '\r' {
        assert(('\r' as u32) == 13);
    }
}

proof fn lemma_word_wrap_words_run(s: Seq<(char, u32)>, first_width: u64, normal_width: u64)
    requires
        s.len() < max_wrap_len(),
    ensures
        word_wrap_words(run::<WordWrap>(initial_state(first_width, normal_width), s), s),
    decreases s.len(),
{
    lemma_word_wrap_run(s, first_width, normal_width);
    let init = initial_state(first_width, normal_width);
    if s.len() > 0 {
        let s0 = s.drop_last();
        let n = s0.len() as int;
        lemma_word_wrap_words_run(s0, first_width, normal_width);
        lemma_word_wrap_run(s0, first_width, normal_width);
        let v0 = run::<WordWrap>(init, s0);
        assert forall|j: int| 0 <= j < s0.len() implies s[j] == s0[j] by {}
        assert(v0.position == n);
        // What holds of `v0` over `s0` holds over `s`.
        assert forall|k: int| 0 <= k < v0.lines.len() implies ends_after_space(s, (#[trigger] v0.lines[k]).end as int)
            || within_one_word(s, v0.lines[k].begin as int, v0.lines[k].end as int) by {
            lemma_tiles_up_to_bounds(v0.lines, v0.start, k);
            if ends_after_space(s0, v0.lines[k].end as int) {
                assert(s[v0.lines[k].end - 1] == s0[v0.lines[k].end - 1]);
            } else {
                assert forall|j: int| v0.lines[k].begin <= j < v0.lines[k].end implies !is_whitespace_char(#[trigger] s[j].0) by {
                    assert(s[j] == s0[j]);
                    assert(!is_whitespace_char(s0[j].0));
                }
            }
        }
        assert forall|j: int| v0.start <= j < v0.position && is_whitespace_char(#[trigger] s[j].0) implies j < v0.word_start by {
            assert(s[j] == s0[j]);
        }
        if v0.start < v0.word_start {
            assert(s[v0.word_start - 1] == s0[v0.word_start - 1]);
        }
        let (c, a) = s.last();
        assert(s[n] == (c, a));
        let b = word_wrap_break(v0, a);
        assert(word_wrap_words(b, s)) by {
            if v0.position != v0.start && v0.width + a > state_max_width(v0) {
                if v0.start < v0.word_start {
                    assert forall|j: int| b.start <= j < b.position && is_whitespace_char(#[trigger] s[j].0) implies j < b.word_start by {
                        assert(v0.start <= j < v0.position);
                    }
                    assert forall|k: int| 0 <= k < b.lines.len() implies ends_after_space(s, (#[trigger] b.lines[k]).end as int)
                        || within_one_word(s, b.lines[k].begin as int, b.lines[k].end as int) by {
                        if k < v0.lines.len() {
                            assert(b.lines[k] == v0.lines[k]);
                        }
                    }
                } else {
                    assert forall|k: int| 0 <= k < b.lines.len() implies ends_after_space(s, (#[trigger] b.lines[k]).end as int)
                        || within_one_word(s, b.lines[k].begin as int, b.lines[k].end as int) by {
                        if k < v0.lines.len() {
                            assert(b.lines[k] == v0.lines[k]);
                        } else {
                            assert forall|j: int| v0.start <= j < v0.position implies !is_whitespace_char(#[trigger] s[j].0) by {
                                if is_whitespace_char(s[j].0) {
                                    assert(j < v0.word_start);
                                }
                            }
                        }
                    }
                }
            }
        }
        lemma_newline_is_whitespace(c);
        let v = run::<WordWrap>(init, s);
        assert(v == word_wrap_step(v0, c, a));
        assert forall|k: int| 0 <= k < v.lines.len() implies ends_after_space(s, (#[trigger] v.lines[k]).end as int)
            || within_one_word(s, v.lines[k].begin as int, v.lines[k].end as int) by {
            if k < b.lines.len() {
                assert(v.lines[k] == b.lines[k]);
            } else {
                assert(v.lines[k].end == n + 1);
            }
        }
        assert forall|j: int| v.start <= j < v.position && is_whitespace_char(#[trigger] s[j].0) implies j < v.word_start by {
            if j < n {
                assert(b.start <= j < b.position);
            }
        }
    }
}

/// With word wrapping, a line ends just after white space or at the end of the text, unless it
/// lies within one word: the text is broken inside a word only when that word alone does not
/// fit on a line; otherwise the word moves to the next line whole.
pub proof fn lemma_word_wrap_breaks_between_words(s: Seq<(char, u32)>, first_width: u64, normal_width: u64)
    requires
        s.len() < max_wrap_len(),
    ensures
        ({
            let lines = finish_state(run::<WordWrap>(initial_state(first_width, normal_width), s)).lines;
            forall|k: int| 0 <= k < lines.len() ==> (#[trigger] lines[k]).end == s.len()
                || ends_after_space(s, lines[k].end as int)
                || within_one_word(s, lines[k].begin as int, lines[k].end as int)
        }),
{
    lemma_word_wrap_run(s, first_width, normal_width);
    lemma_word_wrap_words_run(s, first_width, normal_width);
    let v = run::<WordWrap>(initial_state(first_width, normal_width), s);
    let lines = finish_state(v).lines;
    assert forall|k: int| 0 <= k < lines.len() implies (#[trigger] lines[k]).end == s.len()
        || ends_after_space(s, lines[k].end as int)
        || within_one_word(s, lines[k].begin as int, lines[k].end as int) by {
        if k < v.lines.len() {
            assert(lines[k] == v.lines[k]);
        }
    }
}

proof fn lemma_letter_wrap_run(s: Seq<(char, u32)>, first_width: u64, normal_width: u64)
    requires
        s.len() < max_wrap_len(),
    ensures
        ({
            let v = run::<LetterWrap>(initial_state(first_width, normal_width), s);
            &&& v.position <= 2 * s.len()
            &&& state_fits(v)
            &&& v.word_start == 0 && v.word_width == 0
            &&& v.width <= 2 * s.len() * max_advance()
            &&& tiles_up_to(v.lines, v.start)
        }),
    decreases s.len(),
{
    let init = initial_state(first_width, normal_width);
    if s.len() > 0 {
        let s0 = s.drop_last();
        lemma_letter_wrap_run(s0, first_width, normal_width);
        let v0 = run::<LetterWrap>(init, s0);
        let (c, a) = s.last();
        LetterWrap::lemma_step_bounds(v0, c, a);
        let b = letter_wrap_break(v0, a);
        if v0.position != v0.start && v0.width + a > state_max_width(v0) {
            lemma_tiles_extend(v0.lines, v0.start, v0.position, v0.width);
        }
        if spec_is_newline(c) {
            lemma_tiles_extend(b.lines, b.start, b.position + 1, b.width + a);
        }
    }
}

/// With letter wrapping, the lines follow each other without gaps or overlaps, from the
/// first position to the wrapper's final position.
pub proof fn lemma_letter_wrap_tiles(s: Seq<(char, u32)>, first_width: u64, normal_width: u64)
    requires
        s.len() < max_wrap_len(),
    ensures
        ({
            let v = run::<LetterWrap>(initial_state(first_width, normal_width), s);
            tiles(finish_state(v).lines, v.position)
        }),
{
    lemma_letter_wrap_run(s, first_width, normal_width);
    let v = run::<LetterWrap>(initial_state(first_width, normal_width), s);
    lemma_tiles_extend(v.lines, v.start, v.position, v.width);
}

} // verus!
