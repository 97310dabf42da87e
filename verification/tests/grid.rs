use fyrox_ui::grid::{group_index, non_stretch_total, GridBuilder, GridChild, GridDimension, NonStretchTotal, SizeMode};
use fyrox_ui::message::Handle;

fn h(i: u32) -> Handle {
    Handle::new(i, 1)
}

#[test]
fn dimension_constructors() {
    let s = GridDimension::strict(0x4120_0000);
    assert_eq!(s.size_mode, SizeMode::Strict);
    assert_eq!(s.desired_size, 0x4120_0000);
    assert_eq!(GridDimension::auto().size_mode, SizeMode::Auto);
    assert_eq!(GridDimension::stretch().size_mode, SizeMode::Stretch);
    assert_eq!(GridDimension::generic(SizeMode::Auto, 7).desired_size, 7);
    assert_eq!(SizeMode::default(), SizeMode::Strict);
}

#[test]
fn group_indices() {
    assert_eq!(group_index(SizeMode::Strict, SizeMode::Auto), 0);
    assert_eq!(group_index(SizeMode::Stretch, SizeMode::Auto), 1);
    assert_eq!(group_index(SizeMode::Auto, SizeMode::Stretch), 2);
    assert_eq!(group_index(SizeMode::Stretch, SizeMode::Stretch), 3);
    assert_eq!(group_index(SizeMode::Stretch, SizeMode::Strict), 3);
}

#[test]
fn measurement_counts_children_of_auto_dimensions() {
    let mut grid = GridBuilder::new()
        .add_row(GridDimension::auto())
        .add_row(GridDimension::strict(0x4120_0000))
        .add_column(GridDimension::stretch())
        .add_column(GridDimension::auto())
        .build(h(1));
    let children = [
        GridChild { handle: h(10), row: 0, column: 1 },
        GridChild { handle: h(11), row: 0, column: 0 },
        GridChild { handle: h(12), row: 1, column: 1 },
        GridChild { handle: h(13), row: 5, column: 0 },
    ];
    grid.initialize_measure(&children);
    assert_eq!(grid.rows[0].unmeasured_node_count, 2);
    assert_eq!(grid.rows[1].unmeasured_node_count, 0);
    assert_eq!(grid.rows[1].actual_size, 0x4120_0000);
    assert_eq!(grid.columns[1].unmeasured_node_count, 2);
    assert_eq!(grid.columns[0].unmeasured_node_count, 0);
    assert_eq!(grid.cells.len(), 4);
    assert_eq!((grid.cells[1].column_index, grid.cells[1].row_index), (0, 1));
    assert_eq!(grid.cells[0].nodes, vec![h(11)]);
    assert_eq!(grid.cells[2].nodes, vec![h(10)]);
    assert_eq!(grid.cells[3].nodes, vec![h(12)]);
    assert_eq!(grid.groups[2], vec![0, 1]);
    assert_eq!(grid.groups[0], vec![2, 3]);
    assert!(grid.groups[1].is_empty() && grid.groups[3].is_empty());
}

#[test]
fn builder_settings() {
    let g = GridBuilder::new()
        .add_rows(vec![GridDimension::auto(), GridDimension::auto()])
        .add_columns(vec![GridDimension::stretch()])
        .draw_border(true)
        .with_border_thickness(0x4000_0000)
        .build(h(2));
    assert_eq!(g.rows.len(), 2);
    assert_eq!(g.columns.len(), 1);
    assert!(g.draw_border);
    assert_eq!(g.border_thickness, 0x4000_0000);
    assert_eq!(GridBuilder::new().border_thickness, 0x3f80_0000);
}

#[test]
fn non_stretch_total_cases() {
    let mut fixed = GridDimension::strict(0x4120_0000);
    assert_eq!(non_stretch_total(&[fixed, GridDimension::auto()]), NonStretchTotal::NoStretch);
    assert_eq!(non_stretch_total(&[fixed, GridDimension::stretch()]), NonStretchTotal::Measured);
    fixed.unmeasured_node_count = 2;
    assert_eq!(non_stretch_total(&[fixed, GridDimension::stretch()]), NonStretchTotal::NotYetMeasured);
    assert_eq!(non_stretch_total(&[]), NonStretchTotal::NoStretch);
}
