//! Grid bookkeeping: rows and columns with their size modes, the cells of the grid with the
//! children placed in them, the grouping of cells for measurement, and the count of children
//! that auto-sized rows and columns still have to measure. Sizes are kept as the bit patterns
//! of their `f32` values.

use vstd::prelude::*;
use crate::message::Handle;

verus! {

/// How a row or column is sized.
#[derive(Copy, Clone, PartialEq, Eq, Debug, Hash, Structural)]
pub enum SizeMode {
    /// A fixed size.
    Strict,
    /// The size of the largest child.
    Auto,
    /// A share of the space left over.
    Stretch,
}

impl Default for SizeMode {
    fn default() -> (r: SizeMode)
        ensures
            r == SizeMode::Strict,
    {
        SizeMode::Strict
    }
}

/// A row or a column of a grid. Sizes and location are bit patterns of `f32` values.
#[derive(Copy, Clone, Debug, PartialEq, Eq)]
pub struct GridDimension {
    pub size_mode: SizeMode,
    pub desired_size: u32,
    pub actual_size: u32,
    pub location: u32,
    pub unmeasured_node_count: usize,
}

/// A column of a grid.
pub type Column = GridDimension;

/// A row of a grid.
pub type Row = GridDimension;

impl GridDimension {
    /// A dimension with the given mode and desired size, not yet arranged.
    pub fn generic(size_mode: SizeMode, desired_size: u32) -> (r: Self)
        ensures
            r == (GridDimension { size_mode, desired_size, actual_size: 0, location: 0, unmeasured_node_count: 0 }),
    {
        GridDimension { size_mode, desired_size, actual_size: 0, location: 0, unmeasured_node_count: 0 }
    }

    /// A dimension of fixed size.
    pub fn strict(desired_size: u32) -> (r: Self)
        ensures
            r == (GridDimension { size_mode: SizeMode::Strict, desired_size, actual_size: 0, location: 0, unmeasured_node_count: 0 }),
    {
        Self::generic(SizeMode::Strict, desired_size)
    }

    /// A dimension that takes a share of the space left over.
    pub open spec fn spec_stretch() -> Self {
        GridDimension { size_mode: SizeMode::Stretch, desired_size: 0, actual_size: 0, location: 0, unmeasured_node_count: 0 }
    }

    /// A dimension as large as its largest child.
    pub open spec fn spec_auto() -> Self {
        GridDimension { size_mode: SizeMode::Auto, desired_size: 0, actual_size: 0, location: 0, unmeasured_node_count: 0 }
    }

    /// A dimension that takes a share of the space left over.
    pub fn stretch() -> (r: Self)
        ensures
            r == Self::spec_stretch(),
    {
        Self::generic(SizeMode::Stretch, 0)
    }

    /// A dimension as large as its largest child.
    pub fn auto() -> (r: Self)
        ensures
            r == Self::spec_auto(),
    {
        Self::generic(SizeMode::Auto, 0)
    }
}

/// The measurement group of a cell: 0 for cells with no stretched row or column, 1 for an
/// auto column with a stretched row, 2 for a stretched column with a fixed or auto row, 3 for
/// a stretched row with a fixed or stretched column.
pub open spec fn spec_group_index(row_size_mode: SizeMode, column_size_mode: SizeMode) -> usize {
    match (row_size_mode, column_size_mode) {
        (SizeMode::Stretch, SizeMode::Auto) => 1,
        (SizeMode::Strict, SizeMode::Stretch) | (SizeMode::Auto, SizeMode::Stretch) => 2,
        (SizeMode::Stretch, SizeMode::Strict) | (SizeMode::Stretch, SizeMode::Stretch) => 3,
        _ => 0,
    }
}

/// The measurement group of a cell in the given row and column.
pub fn group_index(row_size_mode: SizeMode, column_size_mode: SizeMode) -> (r: usize)
    ensures
        r == spec_group_index(row_size_mode, column_size_mode),
        r < 4,
{
    match (row_size_mode, column_size_mode) {
        (SizeMode::Strict, SizeMode::Strict) | (SizeMode::Strict, SizeMode::Auto) | (
            SizeMode::Auto,
            SizeMode::Strict,
        ) | (SizeMode::Auto, SizeMode::Auto) => 0,
        (SizeMode::Stretch, SizeMode::Auto) => 1,
        (SizeMode::Strict, SizeMode::Stretch) | (SizeMode::Auto, SizeMode::Stretch) => 2,
        (SizeMode::Stretch, SizeMode::Strict) | (SizeMode::Stretch, SizeMode::Stretch) => 3,
    }
}

/// The number of stretched dimensions among `dims`.
pub open spec fn stretch_count(dims: Seq<GridDimension>) -> nat
    decreases dims.len(),
{
    if dims.len() == 0 {
        0
    } else {
        stretch_count(dims.drop_last()) + if dims.last().size_mode == SizeMode::Stretch { 1nat } else { 0nat }
    }
}

proof fn lemma_stretch_count_bound(dims: Seq<GridDimension>)
    ensures
        stretch_count(dims) <= dims.len(),
    decreases dims.len(),
{
    if dims.len() > 0 {
        lemma_stretch_count_bound(dims.drop_last());
    }
}

/// The number of stretched dimensions, which share the space the others leave.
pub fn count_stretch_dims(dims: &[GridDimension]) -> (r: usize)
    ensures
        r == stretch_count(dims@),
{
    let mut n: usize = 0;
    let mut i: usize = 0;
    while i < dims.len()
        invariant
            i <= dims@.len(),
            n == stretch_count(dims@.take(i as int)),
        decreases dims@.len() - i,
    {
        assert(dims@.take(i + 1).drop_last() == dims@.take(i as int));
        proof {
            lemma_stretch_count_bound(dims@.take(i as int));
        }
        if dims[i].size_mode == SizeMode::Stretch {
            n = n + 1;
        }
        i = i + 1;
    }
    assert(dims@.take(dims@.len() as int) == dims@);
    n
}

/// Whether the total size of the dimensions that are not stretched can be known yet.
#[derive(Copy, Clone, PartialEq, Eq, Debug, Structural)]
pub enum NonStretchTotal {
    /// No dimension is stretched: the total is never used, and counts as zero.
    NoStretch,
    /// Some dimension is stretched and every dimension has measured its children: the total
    /// is the sum of the desired sizes.
    Measured,
    /// Some dimension is stretched and some has not measured its children yet: the total is
    /// not known.
    NotYetMeasured,
}

/// Which case the total size of the dimensions that are not stretched falls in.
pub fn non_stretch_total(dims: &[GridDimension]) -> (r: NonStretchTotal)
    ensures
        r == (if forall|i: int| 0 <= i < dims@.len() ==> #[trigger] dims@[i].size_mode != SizeMode::Stretch {
            NonStretchTotal::NoStretch
        } else if forall|i: int| 0 <= i < dims@.len() ==> #[trigger] dims@[i].unmeasured_node_count == 0 {
            NonStretchTotal::Measured
        } else {
            NonStretchTotal::NotYetMeasured
        }),
{
    let mut any_stretch = false;
    let mut all_measured = true;
    let mut i: usize = 0;
    while i < dims.len()
        invariant
            i <= dims@.len(),
            any_stretch == exists|j: int| 0 <= j < i && #[trigger] dims@[j].size_mode == SizeMode::Stretch,
            all_measured == forall|j: int| 0 <= j < i ==> #[trigger] dims@[j].unmeasured_node_count == 0,
        decreases dims@.len() - i,
    {
        if dims[i].size_mode == SizeMode::Stretch {
            any_stretch = true;
        }
        if dims[i].unmeasured_node_count != 0 {
            all_measured = false;
        }
        i = i + 1;
    }
    if !any_stretch {
        NonStretchTotal::NoStretch
    } else if all_measured {
        NonStretchTotal::Measured
    } else {
        NonStretchTotal::NotYetMeasured
    }
}

/// A child of a grid and the row and column it asks for.
#[derive(Copy, Clone, Debug, PartialEq, Eq)]
pub struct GridChild {
    pub handle: Handle,
    pub row: usize,
    pub column: usize,
}

/// A cell of a grid and the children placed in it.
#[derive(Clone, Debug)]
pub struct Cell {
    pub nodes: Vec<Handle>,
    pub row_index: usize,
    pub column_index: usize,
}

/// The handles of the children placed at row `r` and column `c`, in order.
pub open spec fn children_at(children: Seq<GridChild>, r: usize, c: usize) -> Seq<Handle>
    decreases children.len(),
{
    if children.len() == 0 {
        Seq::empty()
    } else {
        let rest = children_at(children.drop_last(), r, c);
        let ch = children.last();
        if ch.row == r && ch.column == c { rest.push(ch.handle) } else { rest }
    }
}

/// Number of children with a valid row and column whose row (or column) is `k`.
pub open spec fn count_placed(children: Seq<GridChild>, rows: nat, cols: nat, k: int, by_row: bool) -> nat
    decreases children.len(),
{
    if children.len() == 0 {
        0
    } else {
        let rest = count_placed(children.drop_last(), rows, cols, k, by_row);
        let ch = children.last();
        if ch.row < rows && ch.column < cols && (if by_row { ch.row == k } else { ch.column == k }) {
            rest + 1
        } else {
            rest
        }
    }
}

proof fn lemma_count_placed_bound(children: Seq<GridChild>, rows: nat, cols: nat, k: int, by_row: bool)
    ensures
        count_placed(children, rows, cols, k, by_row) <= children.len(),
    decreases children.len(),
{
    if children.len() > 0 {
        lemma_count_placed_bound(children.drop_last(), rows, cols, k, by_row);
    }
}

/// A dimension prepared for measurement: auto dimensions forget their desired size, strict
/// ones take their desired size as actual size, and every auto dimension counts `count`
/// children still to measure.
pub open spec fn prepared(d: GridDimension, count: nat) -> GridDimension {
    GridDimension {
        desired_size: if d.size_mode == SizeMode::Auto { 0 } else { d.desired_size },
        actual_size: if d.size_mode == SizeMode::Strict { d.desired_size } else { d.actual_size },
        unmeasured_node_count: if d.size_mode == SizeMode::Auto { count as usize } else { 0 },
        ..d
    }
}

/// Preparing a row or column for measurement keeps its mode and makes an auto dimension start
/// from nothing: its desired size is 0, so that it grows again to its largest child, and it
/// counts the children it still has to measure. Other dimensions keep their desired size and
/// have nothing to measure; a strict one takes its desired size as its actual size.
pub proof fn lemma_prepared_auto_starts_empty(d: GridDimension, count: nat)
    ensures
        prepared(d, count).size_mode == d.size_mode,
        d.size_mode == SizeMode::Auto ==> prepared(d, count).desired_size == 0,
        d.size_mode == SizeMode::Auto ==> prepared(d, count).unmeasured_node_count == count as usize,
        d.size_mode != SizeMode::Auto ==> prepared(d, count).desired_size == d.desired_size
            && prepared(d, count).unmeasured_node_count == 0,
        d.size_mode == SizeMode::Strict ==> prepared(d, count).actual_size == d.desired_size,
{
}

/// A grid: rows, columns, and the cells built for measurement.
#[derive(Clone, Debug)]
pub struct Grid {
    pub handle: Handle,
    pub rows: Vec<Row>,
    pub columns: Vec<Column>,
    pub draw_border: bool,
    /// Bit pattern of the `f32` border thickness.
    pub border_thickness: u32,
    pub cells: Vec<Cell>,
    /// Indices of the cells of each of the four measurement groups.
    pub groups: Vec<Vec<usize>>,
}

/// The measurement group of cell `i`.
pub open spec fn cell_group(g: Grid, i: int) -> usize {
    spec_group_index(g.rows@[g.cells@[i].row_index as int].size_mode, g.columns@[g.cells@[i].column_index as int].size_mode)
}

/// The cells list every (column, row) pair column by column, each with the children placed
/// there, and each group lists in increasing order exactly the cells of that group.
pub open spec fn cells_built(g: Grid, children: Seq<GridChild>) -> bool {
    let rows = g.rows@.len();
    let n = g.cells@.len();
    &&& n == g.columns@.len() * rows
    &&& forall|i: int| 0 <= i < n ==> {
        let cell = #[trigger] g.cells@[i];
        &&& cell.row_index < rows
        &&& cell.column_index < g.columns@.len()
        &&& cell.column_index * rows + cell.row_index == i
        &&& cell.nodes@ == children_at(children, cell.row_index, cell.column_index)
    }
    &&& g.groups@.len() == 4
    &&& forall|k: int, j: int| 0 <= k < 4 && 0 <= j < g.groups@[k]@.len() ==> {
        &&& #[trigger] g.groups@[k]@[j] < n
        &&& cell_group(g, g.groups@[k]@[j] as int) == k
    }
    &&& forall|k: int, j1: int, j2: int| 0 <= k < 4 && 0 <= j1 < j2 < g.groups@[k]@.len() ==> #[trigger] g.groups@[k]@[j1] < #[trigger] g.groups@[k]@[j2]
    &&& forall|i: int| 0 <= i < n ==> g.groups@[cell_group(g, i) as int]@.contains(i as usize)
}

impl Grid {
    fn children_at(children: &[GridChild], r: usize, c: usize) -> (out: Vec<Handle>)
        ensures
            out@ == children_at(children@, r, c),
    {
        let mut out: Vec<Handle> = Vec::new();
        let mut i: usize = 0;
        while i < children.len()
            invariant
                i <= children@.len(),
                out@ == children_at(children@.take(i as int), r, c),
            decreases children@.len() - i,
        {
            assert(children@.take(i + 1).drop_last() == children@.take(i as int));
            if children[i].row == r && children[i].column == c {
                out.push(children[i].handle);
            }
            i = i + 1;
        }
        assert(children@.take(children@.len() as int) == children@);
        out
    }

    fn count_children(children: &[GridChild], rows: usize, cols: usize, k: usize, by_row: bool) -> (n: usize)
        ensures
            n == count_placed(children@, rows as nat, cols as nat, k as int, by_row),
    {
        let mut n: usize = 0;
        let mut i: usize = 0;
        while i < children.len()
            invariant
                i <= children@.len(),
                n == count_placed(children@.take(i as int), rows as nat, cols as nat, k as int, by_row),
            decreases children@.len() - i,
        {
            assert(children@.take(i + 1).drop_last() == children@.take(i as int));
            proof {
                lemma_count_placed_bound(children@.take(i as int), rows as nat, cols as nat, k as int, by_row);
            }
            let ch = children[i];
            if ch.row < rows && ch.column < cols && (if by_row { ch.row == k } else { ch.column == k }) {
                n = n + 1;
            }
            i = i + 1;
        }
        assert(children@.take(children@.len() as int) == children@);
        n
    }

    /// Prepares rows and columns for measurement: auto dimensions forget their desired size
    /// and count their children with a valid row and column as still to measure, strict
    /// dimensions take their desired size as actual size. Children with a row or column out
    /// of range are skipped.
    pub fn calc_needed_measurements(&mut self, children: &[GridChild])
        ensures
            final(self).rows@.len() == old(self).rows@.len(),
            final(self).columns@.len() == old(self).columns@.len(),
            forall|k: int| 0 <= k < final(self).rows@.len() ==> (#[trigger] final(self).rows@[k]) == prepared(
                old(self).rows@[k],
                count_placed(children@, old(self).rows@.len(), old(self).columns@.len(), k, true),
            ),
            forall|k: int| 0 <= k < final(self).columns@.len() ==> (#[trigger] final(self).columns@[k]) == prepared(
                old(self).columns@[k],
                count_placed(children@, old(self).rows@.len(), old(self).columns@.len(), k, false),
            ),
            forall|k: int| 0 <= k < final(self).rows@.len() ==> (#[trigger] final(self).rows@[k]).size_mode == old(self).rows@[k].size_mode
                && (final(self).rows@[k].size_mode == SizeMode::Auto ==> final(self).rows@[k].desired_size == 0),
            forall|k: int| 0 <= k < final(self).columns@.len() ==> (#[trigger] final(self).columns@[k]).size_mode == old(self).columns@[k].size_mode
                && (final(self).columns@[k].size_mode == SizeMode::Auto ==> final(self).columns@[k].desired_size == 0),
            final(self).handle == old(self).handle,
            final(self).cells@ == old(self).cells@,
            final(self).groups@ == old(self).groups@,
    {
        let nr = self.rows.len();
        let nc = self.columns.len();
        let mut k: usize = 0;
        while k < nr
            invariant
                nr == self.rows@.len(),
                nr == old(self).rows@.len(),
                nc == old(self).columns@.len(),
                self.columns@ == old(self).columns@,
                self.handle == old(self).handle,
                self.cells@ == old(self).cells@,
                self.groups@ == old(self).groups@,
                k <= nr,
                forall|j: int| 0 <= j < k ==> (#[trigger] self.rows@[j]) == prepared(
                    old(self).rows@[j],
                    count_placed(children@, nr as nat, nc as nat, j, true),
                ),
                forall|j: int| k <= j < nr ==> (#[trigger] self.rows@[j]) == old(self).rows@[j],
            decreases nr - k,
        {
            let d = self.rows[k];
            let count = Self::count_children(children, nr, nc, k, true);
            let nd = GridDimension {
                desired_size: if d.size_mode == SizeMode::Auto { 0 } else { d.desired_size },
                actual_size: if d.size_mode == SizeMode::Strict { d.desired_size } else { d.actual_size },
                unmeasured_node_count: if d.size_mode == SizeMode::Auto { count } else { 0 },
                ..d
            };
            self.rows.set(k, nd);
            k = k + 1;
        }
        let mut k: usize = 0;
        while k < nc
            invariant
                nc == self.columns@.len(),
                nc == old(self).columns@.len(),
                nr == old(self).rows@.len(),
                nr == self.rows@.len(),
                self.handle == old(self).handle,
                self.cells@ == old(self).cells@,
                self.groups@ == old(self).groups@,
                forall|j: int| 0 <= j < nr ==> (#[trigger] self.rows@[j]) == prepared(
                    old(self).rows@[j],
                    count_placed(children@, nr as nat, nc as nat, j, true),
                ),
                k <= nc,
                forall|j: int| 0 <= j < k ==> (#[trigger] self.columns@[j]) == prepared(
                    old(self).columns@[j],
                    count_placed(children@, nr as nat, nc as nat, j, false),
                ),
                forall|j: int| k <= j < nc ==> (#[trigger] self.columns@[j]) == old(self).columns@[j],
            decreases nc - k,
        {
            let d = self.columns[k];
            let count = Self::count_children(children, nr, nc, k, false);
            let nd = GridDimension {
                desired_size: if d.size_mode == SizeMode::Auto { 0 } else { d.desired_size },
                actual_size: if d.size_mode == SizeMode::Strict { d.desired_size } else { d.actual_size },
                unmeasured_node_count: if d.size_mode == SizeMode::Auto { count } else { 0 },
                ..d
            };
            self.columns.set(k, nd);
            k = k + 1;
        }
    }

    /// Prepares the rows and columns for measurement and builds the cells, column by column,
    /// each with the children placed in it, and the four measurement groups of cell indices.
    pub fn initialize_measure(&mut self, children: &[GridChild])
        ensures
            cells_built(*final(self), children@),
            final(self).rows@.len() == old(self).rows@.len(),
            final(self).columns@.len() == old(self).columns@.len(),
            forall|k: int| 0 <= k < final(self).rows@.len() ==> (#[trigger] final(self).rows@[k]) == prepared(
                old(self).rows@[k],
                count_placed(children@, old(self).rows@.len(), old(self).columns@.len(), k, true),
            ),
            forall|k: int| 0 <= k < final(self).columns@.len() ==> (#[trigger] final(self).columns@[k]) == prepared(
                old(self).columns@[k],
                count_placed(children@, old(self).rows@.len(), old(self).columns@.len(), k, false),
            ),
            final(self).handle == old(self).handle,
    {
        self.calc_needed_measurements(children);
        let mut groups: Vec<Vec<usize>> = Vec::new();
        groups.push(Vec::new());
        groups.push(Vec::new());
        groups.push(Vec::new());
        groups.push(Vec::new());
        let mut cells: Vec<Cell> = Vec::new();
        let nr = self.rows.len();
        let nc = self.columns.len();
        let ghost rows = self.rows@;
        let ghost cols = self.columns@;
        let mut c: usize = 0;
        while c < nc
            invariant
                nr == rows.len(),
                nc == cols.len(),
                rows == self.rows@,
                cols == self.columns@,
                c <= nc,
                cells@.len() == c * nr,
                groups@.len() == 4,
                forall|i: int| 0 <= i < cells@.len() ==> {
                    let cell = #[trigger] cells@[i];
                    &&& cell.row_index < nr
                    &&& cell.column_index < nc
                    &&& cell.column_index * nr + cell.row_index == i
                    &&& cell.nodes@ == children_at(children@, cell.row_index, cell.column_index)
                },
                forall|k: int, j: int| 0 <= k < 4 && 0 <= j < groups@[k]@.len() ==> {
                    &&& #[trigger] groups@[k]@[j] < cells@.len()
                    &&& spec_group_index(rows[cells@[groups@[k]@[j] as int].row_index as int].size_mode, cols[cells@[groups@[k]@[j] as int].column_index as int].size_mode) == k
                },
                forall|k: int, j1: int, j2: int| 0 <= k < 4 && 0 <= j1 < j2 < groups@[k]@.len() ==> #[trigger] groups@[k]@[j1] < #[trigger] groups@[k]@[j2],
                forall|i: int| 0 <= i < cells@.len() ==> groups@[spec_group_index(rows[cells@[i].row_index as int].size_mode, cols[cells@[i].column_index as int].size_mode) as int]@.contains(i as usize),
            decreases nc - c,
        {
            let mut r: usize = 0;
            while r < nr
                invariant
                    nr == rows.len(),
                    nc == cols.len(),
                    rows == self.rows@,
                    cols == self.columns@,
                    c < nc,
                    r <= nr,
                    cells@.len() == c * nr + r,
                    groups@.len() == 4,
                    forall|i: int| 0 <= i < cells@.len() ==> {
                        let cell = #[trigger] cells@[i];
                        &&& cell.row_index < nr
                        &&& cell.column_index < nc
                        &&& cell.column_index * nr + cell.row_index == i
                        &&& cell.nodes@ == children_at(children@, cell.row_index, cell.column_index)
                    },
                    forall|k: int, j: int| 0 <= k < 4 && 0 <= j < groups@[k]@.len() ==> {
                        &&& #[trigger] groups@[k]@[j] < cells@.len()
                        &&& spec_group_index(rows[cells@[groups@[k]@[j] as int].row_index as int].size_mode, cols[cells@[groups@[k]@[j] as int].column_index as int].size_mode) == k
                    },
                    forall|k: int, j1: int, j2: int| 0 <= k < 4 && 0 <= j1 < j2 < groups@[k]@.len() ==> #[trigger] groups@[k]@[j1] < #[trigger] groups@[k]@[j2],
                    forall|i: int| 0 <= i < cells@.len() ==> groups@[spec_group_index(rows[cells@[i].row_index as int].size_mode, cols[cells@[i].column_index as int].size_mode) as int]@.contains(i as usize),
                decreases nr - r,
            {
                let g = group_index(self.rows[r].size_mode, self.columns[c].size_mode);
                let idx = cells.len();
                let ghost old_groups = groups@;
                let ghost old_cells = cells@;
                let mut members = Vec::new();
                std::mem::swap(&mut members, &mut groups[g]);
                members.push(idx);
                groups.set(g, members);
                let nodes = Self::children_at(children, r, c);
                cells.push(Cell { nodes, row_index: r, column_index: c });
                proof {
                    assert(c * nr + r + 1 == c * nr + (r + 1));
                    assert forall|k: int, j: int| 0 <= k < 4 && 0 <= j < groups@[k]@.len() implies {
                        &&& #[trigger] groups@[k]@[j] < cells@.len()
                        &&& spec_group_index(rows[cells@[groups@[k]@[j] as int].row_index as int].size_mode, cols[cells@[groups@[k]@[j] as int].column_index as int].size_mode) == k
                    } by {
                        if k != g || j < old_groups[k]@.len() {
                            assert(groups@[k]@[j] == old_groups[k]@[j]);
                            assert(cells@[groups@[k]@[j] as int] == old_cells[groups@[k]@[j] as int]);
                        }
                    }
                    assert forall|k: int, j1: int, j2: int| 0 <= k < 4 && 0 <= j1 < j2 < groups@[k]@.len() implies #[trigger] groups@[k]@[j1] < #[trigger] groups@[k]@[j2] by {
                        if k != g || j2 < old_groups[k]@.len() {
                            assert(groups@[k]@[j1] == old_groups[k]@[j1]);
                            assert(groups@[k]@[j2] == old_groups[k]@[j2]);
                        } else {
                            assert(groups@[k]@[j1] == old_groups[k]@[j1]);
                        }
                    }
                    assert forall|i: int| 0 <= i < cells@.len() implies groups@[spec_group_index(rows[cells@[i].row_index as int].size_mode, cols[cells@[i].column_index as int].size_mode) as int]@.contains(i as usize) by {
                        if i < old_cells.len() {
                            let k = spec_group_index(rows[cells@[i].row_index as int].size_mode, cols[cells@[i].column_index as int].size_mode) as int;
                            assert(cells@[i] == old_cells[i]);
                            let j = choose|j: int| 0 <= j < old_groups[k]@.len() && old_groups[k]@[j] == i as usize;
                            assert(groups@[k]@[j] == i as usize);
                        } else {
                            assert(groups@[g as int]@[groups@[g as int]@.len() - 1] == idx);
                        }
                    }
                }
                r = r + 1;
            }
            proof {
                assert(c * nr + nr == (c + 1) * nr) by (nonlinear_arith);
            }
            c = c + 1;
        }
        self.cells = cells;
        self.groups = groups;
    }
}

/// Builds grids.
#[derive(Clone, Debug)]
pub struct GridBuilder {
    pub rows: Vec<Row>,
    pub columns: Vec<Column>,
    pub draw_border: bool,
    /// Bit pattern of the `f32` border thickness.
    pub border_thickness: u32,
}

impl GridBuilder {
    /// A builder with no rows or columns, no border, and a border thickness of 1.
    pub fn new() -> (r: Self)
        ensures
            r.rows@.len() == 0,
            r.columns@.len() == 0,
            !r.draw_border,
            r.border_thickness == 0x3f80_0000,
    {
        GridBuilder { rows: Vec::new(), columns: Vec::new(), draw_border: false, border_thickness: 0x3f80_0000 }
    }

    /// Adds a row.
    pub fn add_row(self, row: Row) -> (r: Self)
        ensures
            r.rows@ == self.rows@.push(row),
            r.columns@ == self.columns@,
            r.draw_border == self.draw_border,
            r.border_thickness == self.border_thickness,
    {
        let mut s = self;
        s.rows.push(row);
        s
    }

    /// Adds a column.
    pub fn add_column(self, column: Column) -> (r: Self)
        ensures
            r.columns@ == self.columns@.push(column),
            r.rows@ == self.rows@,
            r.draw_border == self.draw_border,
            r.border_thickness == self.border_thickness,
    {
        let mut s = self;
        s.columns.push(column);
        s
    }

    /// Adds rows.
    pub fn add_rows(self, rows: Vec<Row>) -> (r: Self)
        ensures
            r.rows@ == self.rows@ + rows@,
            r.columns@ == self.columns@,
            r.draw_border == self.draw_border,
            r.border_thickness == self.border_thickness,
    {
        let mut s = self;
        let mut rows = rows;
        s.rows.append(&mut rows);
        s
    }

    /// Adds columns.
    pub fn add_columns(self, columns: Vec<Column>) -> (r: Self)
        ensures
            r.columns@ == self.columns@ + columns@,
            r.rows@ == self.rows@,
            r.draw_border == self.draw_border,
            r.border_thickness == self.border_thickness,
    {
        let mut s = self;
        let mut columns = columns;
        s.columns.append(&mut columns);
        s
    }

    /// Sets whether the grid lines are drawn.
    pub fn draw_border(self, value: bool) -> (r: Self)
        ensures
            r.draw_border == value,
            r.rows@ == self.rows@,
            r.columns@ == self.columns@,
            r.border_thickness == self.border_thickness,
    {
        GridBuilder { draw_border: value, ..self }
    }

    /// Sets the thickness (bits of an `f32`) of the grid lines.
    pub fn with_border_thickness(self, value: u32) -> (r: Self)
        ensures
            r.border_thickness == value,
            r.rows@ == self.rows@,
            r.columns@ == self.columns@,
            r.draw_border == self.draw_border,
    {
        GridBuilder { border_thickness: value, ..self }
    }

    /// The grid for the widget `handle`, with no cells built yet.
    pub fn build(self, handle: Handle) -> (r: Grid)
        ensures
            r.handle == handle,
            r.rows@ == self.rows@,
            r.columns@ == self.columns@,
            r.draw_border == self.draw_border,
            r.border_thickness == self.border_thickness,
            r.cells@.len() == 0,
            r.groups@.len() == 4,
            forall|k: int| 0 <= k < 4 ==> (#[trigger] r.groups@[k])@.len() == 0,
    {
        let mut groups: Vec<Vec<usize>> = Vec::new();
        groups.push(Vec::new());
        groups.push(Vec::new());
        groups.push(Vec::new());
        groups.push(Vec::new());
        Grid {
            handle,
            rows: self.rows,
            columns: self.columns,
            draw_border: self.draw_border,
            border_thickness: self.border_thickness,
            cells: Vec::new(),
            groups,
        }
    }
}

} // verus!
