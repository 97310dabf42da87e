//! Runs: formatting attributes applied to ranges of characters, where later runs override
//! earlier ones.

use vstd::prelude::*;
use std::ops::Range;

verus! {

/// A font, named by the id under which the caller keeps it.
#[derive(Copy, Clone, PartialEq, Eq, Debug, Default, Hash, Structural)]
pub struct FontResource(pub u64);

/// A brush, named by the id under which the caller keeps it.
#[derive(Copy, Clone, PartialEq, Eq, Debug, Default, Hash, Structural)]
pub struct Brush(pub u64);

/// The formatting attributes a run may set.
#[derive(Copy, Clone, PartialEq, Eq, Debug)]
pub enum Attribute {
    Font,
    Brush,
    FontSize,
    Shadow,
    ShadowBrush,
    ShadowDilation,
    ShadowOffset,
}

/// The style of a portion of text within a range. Sizes, dilations and offsets are kept as
/// the bit patterns of their `f32` values.
#[derive(PartialEq, Eq, Debug, Default)]
pub struct Run {
    /// The range of characters that this run applies to within the text.
    pub range: Range<u32>,
    /// Set by this run, or None.
    pub font: Option<FontResource>,
    /// Set by this run, or None.
    pub brush: Option<Brush>,
    /// Set by this run, or None.
    pub font_size: Option<u32>,
    /// Set by this run, or None.
    pub shadow: Option<bool>,
    /// Set by this run, or None.
    pub shadow_brush: Option<Brush>,
    /// Set by this run, or None.
    pub shadow_dilation: Option<u32>,
    /// Set by this run, or None.
    pub shadow_offset: Option<(u32, u32)>,
}

pub open spec fn or_else<T>(a: Option<T>, b: Option<T>) -> Option<T> {
    match a {
        Some(x) => Some(x),
        None => b,
    }
}

pub open spec fn range_contains(r: Range<u32>, i: u32) -> bool {
    r.start <= i && i < r.end
}

impl Clone for Run {
    fn clone(&self) -> (r: Self)
        ensures
            r == *self,
    {
        Run {
            range: Range { start: self.range.start, end: self.range.end },
            font: self.font,
            brush: self.brush,
            font_size: self.font_size,
            shadow: self.shadow,
            shadow_brush: self.shadow_brush,
            shadow_dilation: self.shadow_dilation,
            shadow_offset: self.shadow_offset,
        }
    }
}

impl Run {
    pub open spec fn spec_font(&self) -> Option<FontResource> {
        self.font
    }

    pub open spec fn spec_brush(&self) -> Option<Brush> {
        self.brush
    }

    pub open spec fn spec_font_size(&self) -> Option<u32> {
        self.font_size
    }

    pub open spec fn spec_shadow(&self) -> Option<bool> {
        self.shadow
    }

    pub open spec fn spec_shadow_brush(&self) -> Option<Brush> {
        self.shadow_brush
    }

    pub open spec fn spec_shadow_dilation(&self) -> Option<u32> {
        self.shadow_dilation
    }

    pub open spec fn spec_shadow_offset(&self) -> Option<(u32, u32)> {
        self.shadow_offset
    }

    /// The value the run gives an attribute, as a pair of integers, or `None` when the run
    /// leaves the attribute alone.
    pub open spec fn attr(&self, a: Attribute) -> Option<(int, int)> {
        match a {
            Attribute::Font => match self.spec_font() {
                Some(f) => Some((f.0 as int, 0)),
                None => None,
            },
            Attribute::Brush => match self.spec_brush() {
                Some(b) => Some((b.0 as int, 0)),
                None => None,
            },
            Attribute::FontSize => match self.spec_font_size() {
                Some(s) => Some((s as int, 0)),
                None => None,
            },
            Attribute::Shadow => match self.spec_shadow() {
                Some(s) => Some((if s { 1int } else { 0int }, 0)),
                None => None,
            },
            Attribute::ShadowBrush => match self.spec_shadow_brush() {
                Some(b) => Some((b.0 as int, 0)),
                None => None,
            },
            Attribute::ShadowDilation => match self.spec_shadow_dilation() {
                Some(s) => Some((s as int, 0)),
                None => None,
            },
            Attribute::ShadowOffset => match self.spec_shadow_offset() {
                Some((x, y)) => Some((x as int, y as int)),
                None => None,
            },
        }
    }

    /// Whether the run sets the attribute.
    pub open spec fn sets(&self, a: Attribute) -> bool {
        self.attr(a) is Some
    }

    /// A run that sets no formatting values across the given range.
    pub fn new(range: Range<u32>) -> (r: Self)
        ensures
            r.range == range,
            forall|a: Attribute| !(#[trigger] r.sets(a)),
    {
        Run {
            range,
            font: None,
            brush: None,
            font_size: None,
            shadow: None,
            shadow_brush: None,
            shadow_dilation: None,
            shadow_offset: None,
        }
    }

    /// The font of the characters in this run, or None if the font is unmodified.
    pub fn font(&self) -> (r: Option<FontResource>)
        ensures
            r == self.spec_font(),
    {
        self.font
    }

    /// The brush of the characters in this run, or None if the brush is unmodified.
    pub fn brush(&self) -> (r: Option<Brush>)
        ensures
            r == self.spec_brush(),
    {
        self.brush
    }

    /// The size (bits of an `f32`) of the characters in this run, or None if unmodified.
    pub fn font_size(&self) -> (r: Option<u32>)
        ensures
            r == self.spec_font_size(),
    {
        self.font_size
    }

    /// Whether the characters in this run have a shadow, or None if unmodified.
    pub fn shadow(&self) -> (r: Option<bool>)
        ensures
            r == self.spec_shadow(),
    {
        self.shadow
    }

    /// The brush for the shadow of the characters in this run, or None if unmodified.
    pub fn shadow_brush(&self) -> (r: Option<Brush>)
        ensures
            r == self.spec_shadow_brush(),
    {
        self.shadow_brush
    }

    /// The dilation (bits of an `f32`) of the shadow in this run, or None if unmodified.
    pub fn shadow_dilation(&self) -> (r: Option<u32>)
        ensures
            r == self.spec_shadow_dilation(),
    {
        self.shadow_dilation
    }

    /// The offset (bits of two `f32`) of the shadow in this run, or None if unmodified.
    pub fn shadow_offset(&self) -> (r: Option<(u32, u32)>)
        ensures
            r == self.spec_shadow_offset(),
    {
        self.shadow_offset
    }

    /// This run's range with the values of `run` where `run` sets them, and this run's
    /// values elsewhere.
    pub fn with_values_from(self, run: Run) -> (r: Self)
        ensures
            r.range == self.range,
            r.spec_font() == or_else(run.spec_font(), self.spec_font()),
            r.spec_brush() == or_else(run.spec_brush(), self.spec_brush()),
            r.spec_font_size() == or_else(run.spec_font_size(), self.spec_font_size()),
            r.spec_shadow() == or_else(run.spec_shadow(), self.spec_shadow()),
            r.spec_shadow_brush() == or_else(run.spec_shadow_brush(), self.spec_shadow_brush()),
            r.spec_shadow_dilation() == or_else(run.spec_shadow_dilation(), self.spec_shadow_dilation()),
            r.spec_shadow_offset() == or_else(run.spec_shadow_offset(), self.spec_shadow_offset()),
    {
        Run {
            range: self.range,
            font: match run.font { Some(x) => Some(x), None => self.font },
            brush: match run.brush { Some(x) => Some(x), None => self.brush },
            font_size: match run.font_size { Some(x) => Some(x), None => self.font_size },
            shadow: match run.shadow { Some(x) => Some(x), None => self.shadow },
            shadow_brush: match run.shadow_brush { Some(x) => Some(x), None => self.shadow_brush },
            shadow_dilation: match run.shadow_dilation {
                Some(x) => Some(x),
                None => self.shadow_dilation,
            },
            shadow_offset: match run.shadow_offset {
                Some(x) => Some(x),
                None => self.shadow_offset,
            },
        }
    }

    /// Sets the font of the text within the range.
    pub fn with_font(self, font: FontResource) -> (r: Self)
        ensures
            r == (Run { font: Some(font), ..self }),
    {
        Run { font: Some(font), ..self }
    }

    /// Sets the brush of the text within the range.
    pub fn with_brush(self, brush: Brush) -> (r: Self)
        ensures
            r == (Run { brush: Some(brush), ..self }),
    {
        Run { brush: Some(brush), ..self }
    }

    /// Sets the size (bits of an `f32`) of the text within the range.
    pub fn with_size(self, size: u32) -> (r: Self)
        ensures
            r == (Run { font_size: Some(size), ..self }),
    {
        Run { font_size: Some(size), ..self }
    }

    /// Enables or disables the shadow of the text within the range.
    pub fn with_shadow(self, shadow: bool) -> (r: Self)
        ensures
            r == (Run { shadow: Some(shadow), ..self }),
    {
        Run { shadow: Some(shadow), ..self }
    }

    /// Sets the brush of the shadow within the range.
    pub fn with_shadow_brush(self, brush: Brush) -> (r: Self)
        ensures
            r == (Run { shadow_brush: Some(brush), ..self }),
    {
        Run { shadow_brush: Some(brush), ..self }
    }

    /// Sets the dilation (bits of an `f32`) of the shadow within the range.
    pub fn with_shadow_dilation(self, size: u32) -> (r: Self)
        ensures
            r == (Run { shadow_dilation: Some(size), ..self }),
    {
        Run { shadow_dilation: Some(size), ..self }
    }

    /// Sets the offset (bits of two `f32`) of the shadow within the range.
    pub fn with_shadow_offset(self, offset: (u32, u32)) -> (r: Self)
        ensures
            r == (Run { shadow_offset: Some(offset), ..self }),
    {
        Run { shadow_offset: Some(offset), ..self }
    }
}

/// Index of the last of the first `n` runs that holds character `i` and sets the attribute,
/// or -1.
pub open spec fn find_last(runs: Seq<Run>, i: u32, a: Attribute, n: int) -> int
    decreases n,
{
    if n <= 0 {
        -1
    } else if range_contains(runs[n - 1].range, i) && runs[n - 1].sets(a) {
        n - 1
    } else {
        find_last(runs, i, a, n - 1)
    }
}

/// The value that the runs give the attribute at character `i`: that of the last run that
/// holds the character and sets the attribute.
pub open spec fn value_at(runs: Seq<Run>, i: u32, a: Attribute) -> Option<(int, int)> {
    let k = find_last(runs, i, a, runs.len() as int);
    if k < 0 { None } else { runs[k].attr(a) }
}

/// The runs after pushing `run`: it is merged into the last run when their ranges are equal,
/// and appended otherwise.
pub open spec fn pushed(runs: Seq<Run>, run: Run) -> Seq<Run> {
    if runs.len() > 0 && runs.last().range == run.range {
        runs.drop_last().push(merged(runs.last(), run))
    } else {
        runs.push(run)
    }
}

/// `base` with the values of `run` where `run` sets them.
pub open spec fn merged(base: Run, run: Run) -> Run {
    Run {
        range: base.range,
        font: or_else(run.spec_font(), base.spec_font()),
        brush: or_else(run.spec_brush(), base.spec_brush()),
        font_size: or_else(run.spec_font_size(), base.spec_font_size()),
        shadow: or_else(run.spec_shadow(), base.spec_shadow()),
        shadow_brush: or_else(run.spec_shadow_brush(), base.spec_shadow_brush()),
        shadow_dilation: or_else(run.spec_shadow_dilation(), base.spec_shadow_dilation()),
        shadow_offset: or_else(run.spec_shadow_offset(), base.spec_shadow_offset()),
    }
}

/// A list of runs; a later run overrides the attributes it sets for the characters it holds.
#[derive(Clone, PartialEq, Eq, Debug, Default)]
pub struct RunSet(Vec<Run>);

impl RunSet {
    pub closed spec fn spec_runs(&self) -> Seq<Run> {
        self.0@
    }

    /// A set holding the given runs in order.
    pub fn from_runs(runs: Vec<Run>) -> (r: Self)
        ensures
            r.spec_runs() == runs@,
    {
        RunSet(runs)
    }

    /// The runs, in order.
    pub fn runs(&self) -> (r: &[Run])
        ensures
            r@ == self.spec_runs(),
    {
        self.0.as_slice()
    }

    /// Number of runs.
    pub fn len(&self) -> (r: usize)
        ensures
            r == self.spec_runs().len(),
    {
        self.0.len()
    }

    /// Whether there are no runs.
    pub fn is_empty(&self) -> (r: bool)
        ensures
            r == (self.spec_runs().len() == 0),
    {
        self.0.len() == 0
    }

    /// Adds a run, overriding earlier runs where it sets an attribute. A run with the same
    /// range as the last run is merged into it.
    pub fn push(&mut self, run: Run)
        ensures
            final(self).spec_runs() == pushed(old(self).spec_runs(), run),
    {
        let n = self.0.len();
        if n > 0 && self.0[n - 1].range.start == run.range.start && self.0[n - 1].range.end
            == run.range.end {
            let last = self.0[n - 1].clone();
            let m = last.with_values_from(run);
            self.0.set(n - 1, m);
            assert(self.0@ =~= pushed(old(self).spec_runs(), run));
        } else {
            self.0.push(run);
        }
    }

    fn last_setting(&self, index: usize, a: Attribute) -> (r: Option<usize>)
        ensures
            r is None <==> find_last(self.spec_runs(), index as u32, a, self.spec_runs().len() as int) < 0,
            r matches Some(k) ==> k < self.spec_runs().len() && k as int == find_last(
                self.spec_runs(),
                index as u32,
                a,
                self.spec_runs().len() as int,
            ),
    {
        proof {
            lemma_find_last_bounds(self.0@, index as u32, a, self.0@.len() as int);
        }
        let i = index as u32;
        let mut k = self.0.len();
        while k > 0
            invariant
                k <= self.0@.len(),
                i == index as u32,
                find_last(self.0@, i, a, self.0@.len() as int) == find_last(self.0@, i, a, k as int),
            decreases k,
        {
            let run = &self.0[k - 1];
            let sets = match a {
                Attribute::Font => run.font.is_some(),
                Attribute::Brush => run.brush.is_some(),
                Attribute::FontSize => run.font_size.is_some(),
                Attribute::Shadow => run.shadow.is_some(),
                Attribute::ShadowBrush => run.shadow_brush.is_some(),
                Attribute::ShadowDilation => run.shadow_dilation.is_some(),
                Attribute::ShadowOffset => run.shadow_offset.is_some(),
            };
            assert(sets == self.0@[k - 1].sets(a));
            if run.range.start <= i && i < run.range.end && sets {
                return Some(k - 1);
            }
            k = k - 1;
        }
        None
    }

    /// The font at the given character, from the last run there that sets one.
    pub fn font_at(&self, index: usize) -> (r: Option<FontResource>)
        ensures
            ({
                let k = find_last(self.spec_runs(), index as u32, Attribute::Font, self.spec_runs().len() as int);
                r == (if k < 0 { None } else { self.spec_runs()[k].spec_font() })
            }),
    {
        match self.last_setting(index, Attribute::Font) {
            Some(k) => self.0[k].font,
            None => None,
        }
    }

    /// The font size (bits of an `f32`) at the given character.
    pub fn font_size_at(&self, index: usize) -> (r: Option<u32>)
        ensures
            ({
                let k = find_last(self.spec_runs(), index as u32, Attribute::FontSize, self.spec_runs().len() as int);
                r == (if k < 0 { None } else { self.spec_runs()[k].spec_font_size() })
            }),
    {
        match self.last_setting(index, Attribute::FontSize) {
            Some(k) => self.0[k].font_size,
            None => None,
        }
    }

    /// The brush at the given character.
    pub fn brush_at(&self, index: usize) -> (r: Option<Brush>)
        ensures
            ({
                let k = find_last(self.spec_runs(), index as u32, Attribute::Brush, self.spec_runs().len() as int);
                r == (if k < 0 { None } else { self.spec_runs()[k].spec_brush() })
            }),
    {
        match self.last_setting(index, Attribute::Brush) {
            Some(k) => self.0[k].brush,
            None => None,
        }
    }

    /// Whether the text shadow is enabled at the given character.
    pub fn shadow_at(&self, index: usize) -> (r: Option<bool>)
        ensures
            ({
                let k = find_last(self.spec_runs(), index as u32, Attribute::Shadow, self.spec_runs().len() as int);
                r == (if k < 0 { None } else { self.spec_runs()[k].spec_shadow() })
            }),
    {
        match self.last_setting(index, Attribute::Shadow) {
            Some(k) => self.0[k].shadow,
            None => None,
        }
    }

    /// The shadow brush at the given character.
    pub fn shadow_brush_at(&self, index: usize) -> (r: Option<Brush>)
        ensures
            ({
                let k = find_last(self.spec_runs(), index as u32, Attribute::ShadowBrush, self.spec_runs().len() as int);
                r == (if k < 0 { None } else { self.spec_runs()[k].spec_shadow_brush() })
            }),
    {
        match self.last_setting(index, Attribute::ShadowBrush) {
            Some(k) => self.0[k].shadow_brush,
            None => None,
        }
    }

    /// The shadow dilation (bits of an `f32`) at the given character.
    pub fn shadow_dilation_at(&self, index: usize) -> (r: Option<u32>)
        ensures
            ({
                let k = find_last(self.spec_runs(), index as u32, Attribute::ShadowDilation, self.spec_runs().len() as int);
                r == (if k < 0 { None } else { self.spec_runs()[k].spec_shadow_dilation() })
            }),
    {
        match self.last_setting(index, Attribute::ShadowDilation) {
            Some(k) => self.0[k].shadow_dilation,
            None => None,
        }
    }

    /// The shadow offset (bits of two `f32`) at the given character.
    pub fn shadow_offset_at(&self, index: usize) -> (r: Option<(u32, u32)>)
        ensures
            ({
                let k = find_last(self.spec_runs(), index as u32, Attribute::ShadowOffset, self.spec_runs().len() as int);
                r == (if k < 0 { None } else { self.spec_runs()[k].spec_shadow_offset() })
            }),
    {
        match self.last_setting(index, Attribute::ShadowOffset) {
            Some(k) => self.0[k].shadow_offset,
            None => None,
        }
    }
}

proof fn lemma_find_last_bounds(runs: Seq<Run>, i: u32, a: Attribute, n: int)
    requires
        0 <= n <= runs.len(),
    ensures
        -1 <= find_last(runs, i, a, n) < n,
        find_last(runs, i, a, n) >= 0 ==> range_contains(runs[find_last(runs, i, a, n)].range, i)
            && runs[find_last(runs, i, a, n)].sets(a),
    decreases n,
{
    if n > 0 {
        lemma_find_last_bounds(runs, i, a, n - 1);
    }
}

proof fn lemma_find_last_same(s: Seq<Run>, t: Seq<Run>, i: u32, a: Attribute, n: int)
    requires
        0 <= n <= s.len(),
        n <= t.len(),
        forall|j: int| 0 <= j < n ==> (#[trigger] s[j]).range == t[j].range && s[j].sets(a) == t[j].sets(a),
    ensures
        find_last(s, i, a, n) == find_last(t, i, a, n),
    decreases n,
{
    if n > 0 {
        lemma_find_last_same(s, t, i, a, n - 1);
    }
}

/// A pushed run decides every attribute it sets for every character it holds.
pub proof fn lemma_push_overrides(runs: Seq<Run>, run: Run, i: u32, a: Attribute)
    requires
        run.sets(a),
        range_contains(run.range, i),
    ensures
        value_at(pushed(runs, run), i, a) == run.attr(a),
{
    let p = pushed(runs, run);
    assert(find_last(p, i, a, p.len() as int) == p.len() - 1);
}

/// A pushed run leaves every attribute it does not set as it was, for every character.
pub proof fn lemma_push_keeps_unset(runs: Seq<Run>, run: Run, i: u32, a: Attribute)
    requires
        !run.sets(a),
    ensures
        value_at(pushed(runs, run), i, a) == value_at(runs, i, a),
{
    let p = pushed(runs, run);
    let n = runs.len() as int;
    if runs.len() > 0 && runs.last().range == run.range {
        let m = merged(runs.last(), run);
        assert(m.attr(a) == runs.last().attr(a));
        assert forall|j: int| 0 <= j < n implies (#[trigger] p[j]).range == runs[j].range && p[j].sets(a)
            == runs[j].sets(a) by {
            if j < n - 1 {
                assert(p[j] == runs[j]);
            }
        }
        lemma_find_last_same(p, runs, i, a, n);
        lemma_find_last_bounds(runs, i, a, n);
    } else {
        assert(find_last(p, i, a, n + 1) == find_last(p, i, a, n));
        assert forall|j: int| 0 <= j < n implies (#[trigger] p[j]).range == runs[j].range && p[j].sets(a)
            == runs[j].sets(a) by {
            assert(p[j] == runs[j]);
        }
        lemma_find_last_same(p, runs, i, a, n);
        lemma_find_last_bounds(runs, i, a, n);
        lemma_find_last_bounds(p, i, a, n);
    }
}

/// A pushed run leaves every attribute as it was for every character it does not hold.
pub proof fn lemma_push_keeps_outside(runs: Seq<Run>, run: Run, i: u32, a: Attribute)
    requires
        !range_contains(run.range, i),
    ensures
        value_at(pushed(runs, run), i, a) == value_at(runs, i, a),
{
    let p = pushed(runs, run);
    let n = runs.len() as int;
    if runs.len() > 0 && runs.last().range == run.range {
        assert(p[n - 1].range == run.range);
        assert(find_last(p, i, a, n) == find_last(p, i, a, n - 1));
        assert(find_last(runs, i, a, n) == find_last(runs, i, a, n - 1));
        assert forall|j: int| 0 <= j < n - 1 implies (#[trigger] p[j]).range == runs[j].range && p[j].sets(a)
            == runs[j].sets(a) by {
            assert(p[j] == runs[j]);
        }
        lemma_find_last_same(p, runs, i, a, n - 1);
        lemma_find_last_bounds(runs, i, a, n - 1);
        let k = find_last(runs, i, a, n - 1);
        if k >= 0 {
            assert(p[k] == runs[k]);
        }
    } else {
        assert(find_last(p, i, a, n + 1) == find_last(p, i, a, n));
        assert forall|j: int| 0 <= j < n implies (#[trigger] p[j]).range == runs[j].range && p[j].sets(a)
            == runs[j].sets(a) by {
            assert(p[j] == runs[j]);
        }
        lemma_find_last_same(p, runs, i, a, n);
        lemma_find_last_bounds(runs, i, a, n);
        let k = find_last(runs, i, a, n);
        if k >= 0 {
            assert(p[k] == runs[k]);
        }
    }
}

/// The layer a glyph is drawn in.
#[derive(Copy, Clone, Debug, PartialEq, Eq, Structural)]
pub enum DrawValueLayer {
    /// The glyph itself.
    Main,
    /// Its shadow.
    Shadow,
}

/// What a glyph is drawn with.
#[derive(Copy, Clone, Debug, PartialEq, Eq, Structural)]
pub struct GlyphDrawValues {
    pub atlas_page_index: usize,
    pub font: FontResource,
    pub brush: Brush,
    /// Bits of the `f32` font size, scaled for the atlas page.
    pub height: u32,
}

/// The value a run sets at character `i`, or `d` where none sets one.
pub open spec fn or_default<T>(v: Option<T>, d: T) -> T {
    match v {
        Some(x) => x,
        None => d,
    }
}

/// A glyph is drawn with the font that the runs give its character: when some run that holds
/// the character sets a font, the font of the last such run (`value_at`); only when none does,
/// the text's own font.
pub proof fn lemma_glyph_font_is_resolved_font(rs: RunSet, i: u32, font: FontResource)
    ensures
        value_at(rs.spec_runs(), i, Attribute::Font) matches Some((id, _)) ==> rs.spec_font_or(i, font).0 == id,
        value_at(rs.spec_runs(), i, Attribute::Font) is None ==> rs.spec_font_or(i, font) == font,
{
    let runs = rs.spec_runs();
    lemma_find_last_bounds(runs, i, Attribute::Font, runs.len() as int);
}

/// A glyph is drawn with the brush that the runs give its character: when some run that holds
/// the character sets a brush, the brush of the last such run; only when none does, the text's
/// own brush.
pub proof fn lemma_glyph_brush_is_resolved_brush(rs: RunSet, i: u32, brush: Brush)
    ensures
        value_at(rs.spec_runs(), i, Attribute::Brush) matches Some((id, _)) ==> rs.spec_brush_or(i, brush).0 == id,
        value_at(rs.spec_runs(), i, Attribute::Brush) is None ==> rs.spec_brush_or(i, brush) == brush,
{
    let runs = rs.spec_runs();
    lemma_find_last_bounds(runs, i, Attribute::Brush, runs.len() as int);
}

/// After pushing a run that sets a font and holds character `i`, glyph `i` is drawn with that
/// font, whatever runs came before and whatever the text's own font.
pub proof fn lemma_pushed_font_draws(rs: RunSet, runs: Seq<Run>, run: Run, i: u32, font: FontResource)
    requires
        rs.spec_runs() == pushed(runs, run),
        run.spec_font() is Some,
        range_contains(run.range, i),
    ensures
        rs.spec_font_or(i, font) == run.spec_font()->Some_0,
{
    lemma_push_overrides(runs, run, i, Attribute::Font);
    lemma_glyph_font_is_resolved_font(rs, i, font);
}

impl RunSet {
    /// The font at character `i`: the one the runs set there, else the text's own `font`.
    pub open spec fn spec_font_or(&self, i: u32, font: FontResource) -> FontResource {
        let k = find_last(self.spec_runs(), i, Attribute::Font, self.spec_runs().len() as int);
        if k < 0 { font } else { or_default(self.spec_runs()[k].spec_font(), font) }
    }

    /// The brush at character `i`: the one the runs set there, else the text's own `brush`.
    pub open spec fn spec_brush_or(&self, i: u32, brush: Brush) -> Brush {
        let k = find_last(self.spec_runs(), i, Attribute::Brush, self.spec_runs().len() as int);
        if k < 0 { brush } else { or_default(self.spec_runs()[k].spec_brush(), brush) }
    }

    /// The shadow brush at character `i`: the one the runs set there, else the text's own
    /// `shadow_brush`.
    pub open spec fn spec_shadow_brush_or(&self, i: u32, shadow_brush: Brush) -> Brush {
        let k = find_last(self.spec_runs(), i, Attribute::ShadowBrush, self.spec_runs().len() as int);
        if k < 0 { shadow_brush } else { or_default(self.spec_runs()[k].spec_shadow_brush(), shadow_brush) }
    }

    /// What the glyph of character `char_index`, on the atlas page `atlas_page_index`, is drawn
    /// with in `layer`: the font at that character, and the brush (for the glyph) or the
    /// shadow brush (for its shadow) there, where the text's own `font`, `brush` and
    /// `shadow_brush` apply wherever no run sets one; `height` is the scaled font size at that
    /// character.
    pub fn get_glyph_draw_values(
        &self,
        layer: DrawValueLayer,
        atlas_page_index: usize,
        char_index: usize,
        font: FontResource,
        brush: Brush,
        shadow_brush: Brush,
        height: u32,
    ) -> (r: GlyphDrawValues)
        ensures
            r.atlas_page_index == atlas_page_index,
            r.font == self.spec_font_or(char_index as u32, font),
            r.brush == match layer {
                DrawValueLayer::Main => self.spec_brush_or(char_index as u32, brush),
                DrawValueLayer::Shadow => self.spec_shadow_brush_or(char_index as u32, shadow_brush),
            },
            r.height == height,
    {
        let f = match self.font_at(char_index) {
            Some(f) => f,
            None => font,
        };
        let b = match layer {
            DrawValueLayer::Main => match self.brush_at(char_index) {
                Some(b) => b,
                None => brush,
            },
            DrawValueLayer::Shadow => match self.shadow_brush_at(char_index) {
                Some(b) => b,
                None => shadow_brush,
            },
        };
        GlyphDrawValues { atlas_page_index, font: f, brush: b, height }
    }
}

} // verus!
