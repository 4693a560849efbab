use grid_tracks::explicit_grid::compute_explicit_grid_size_in_axis;
use grid_tracks::geometry::{AbsoluteAxis, Size};
use grid_tracks::sizing::{
    ConstantCalc, Dimension, LengthPercentage, MaxTrackSizingFunction, MinTrackSizingFunction,
    NonRepeatedTrackSizingFunction,
};
use grid_tracks::template::{fr, length, percent, repeat, GridContainerStyle, GridTrackRepetition};

fn resolve_both(
    style: &GridContainerStyle,
    inner: Size<Option<u32>>,
) -> (u16, u16) {
    let width = compute_explicit_grid_size_in_axis(
        style,
        &style.grid_template_columns,
        inner,
        &ConstantCalc { value: 42 },
        AbsoluteAxis::Horizontal,
    );
    let height = compute_explicit_grid_size_in_axis(
        style,
        &style.grid_template_rows,
        inner,
        &ConstantCalc { value: 42 },
        AbsoluteAxis::Vertical,
    );
    (width, height)
}

#[test]
fn explicit_grid_sizing_no_repeats() {
    let grid_style = GridContainerStyle {
        size: Size { width: Dimension::Length(600), height: Dimension::Length(600) },
        grid_template_columns: vec![fr(1), fr(1)],
        grid_template_rows: vec![fr(1), fr(1), fr(1), fr(1)],
        ..Default::default()
    };
    let preferred_size = Size { width: Some(600), height: Some(600) };
    let (width, height) = resolve_both(&grid_style, preferred_size);
    assert_eq!(width, 2);
    assert_eq!(height, 4);
}

#[test]
fn explicit_grid_sizing_auto_fill_exact_fit() {
    let grid_style = GridContainerStyle {
        size: Size { width: Dimension::Length(120), height: Dimension::Length(80) },
        grid_template_columns: vec![repeat(
            GridTrackRepetition::AutoFill,
            vec![NonRepeatedTrackSizingFunction::from_length(40)],
        )],
        grid_template_rows: vec![repeat(
            GridTrackRepetition::AutoFill,
            vec![NonRepeatedTrackSizingFunction::from_length(20)],
        )],
        ..Default::default()
    };
    let preferred_size = Size { width: Some(120), height: Some(80) };
    let (width, height) = resolve_both(&grid_style, preferred_size);
    assert_eq!(width, 3);
    assert_eq!(height, 4);
}

#[test]
fn explicit_grid_sizing_auto_fill_non_exact_fit() {
    let grid_style = GridContainerStyle {
        size: Size { width: Dimension::Length(140), height: Dimension::Length(90) },
        grid_template_columns: vec![repeat(
            GridTrackRepetition::AutoFill,
            vec![NonRepeatedTrackSizingFunction::from_length(40)],
        )],
        grid_template_rows: vec![repeat(
            GridTrackRepetition::AutoFill,
            vec![NonRepeatedTrackSizingFunction::from_length(20)],
        )],
        ..Default::default()
    };
    let preferred_size = Size { width: Some(140), height: Some(90) };
    let (width, height) = resolve_both(&grid_style, preferred_size);
    assert_eq!(width, 3);
    assert_eq!(height, 4);
}

#[test]
fn explicit_grid_sizing_auto_fill_min_size_exact_fit() {
    let grid_style = GridContainerStyle {
        min_size: Size { width: Dimension::Length(120), height: Dimension::Length(80) },
        grid_template_columns: vec![repeat(
            GridTrackRepetition::AutoFill,
            vec![NonRepeatedTrackSizingFunction::from_length(40)],
        )],
        grid_template_rows: vec![repeat(
            GridTrackRepetition::AutoFill,
            vec![NonRepeatedTrackSizingFunction::from_length(20)],
        )],
        ..Default::default()
    };
    let inner_container_size = Size { width: Some(120), height: Some(80) };
    let (width, height) = resolve_both(&grid_style, inner_container_size);
    assert_eq!(width, 3);
    assert_eq!(height, 4);
}

#[test]
fn explicit_grid_sizing_auto_fill_min_size_non_exact_fit() {
    let grid_style = GridContainerStyle {
        min_size: Size { width: Dimension::Length(140), height: Dimension::Length(90) },
        grid_template_columns: vec![repeat(
            GridTrackRepetition::AutoFill,
            vec![NonRepeatedTrackSizingFunction::from_length(40)],
        )],
        grid_template_rows: vec![repeat(
            GridTrackRepetition::AutoFill,
            vec![NonRepeatedTrackSizingFunction::from_length(20)],
        )],
        ..Default::default()
    };
    let inner_container_size = Size { width: Some(140), height: Some(90) };
    let (width, height) = resolve_both(&grid_style, inner_container_size);
    assert_eq!(width, 4);
    assert_eq!(height, 5);
}

#[test]
fn explicit_grid_sizing_auto_fill_multiple_repeated_tracks() {
    let grid_style = GridContainerStyle {
        size: Size { width: Dimension::Length(140), height: Dimension::Length(100) },
        grid_template_columns: vec![repeat(
            GridTrackRepetition::AutoFill,
            vec![
                NonRepeatedTrackSizingFunction::from_length(40),
                NonRepeatedTrackSizingFunction::from_length(20),
            ],
        )],
        grid_template_rows: vec![repeat(
            GridTrackRepetition::AutoFill,
            vec![
                NonRepeatedTrackSizingFunction::from_length(20),
                NonRepeatedTrackSizingFunction::from_length(10),
            ],
        )],
        ..Default::default()
    };
    let preferred_size = Size { width: Some(140), height: Some(100) };
    let (width, height) = resolve_both(&grid_style, preferred_size);
    assert_eq!(width, 4); // 2 repetitions * 2 repeated tracks = 4 tracks in total
    assert_eq!(height, 6); // 3 repetitions * 2 repeated tracks = 6 tracks in total
}

#[test]
fn explicit_grid_sizing_auto_fill_gap() {
    let grid_style = GridContainerStyle {
        size: Size { width: Dimension::Length(140), height: Dimension::Length(100) },
        grid_template_columns: vec![repeat(
            GridTrackRepetition::AutoFill,
            vec![NonRepeatedTrackSizingFunction::from_length(40)],
        )],
        grid_template_rows: vec![repeat(
            GridTrackRepetition::AutoFill,
            vec![NonRepeatedTrackSizingFunction::from_length(20)],
        )],
        gap: Size {
            width: LengthPercentage::Length(20),
            height: LengthPercentage::Length(20),
        },
        ..Default::default()
    };
    let preferred_size = Size { width: Some(140), height: Some(100) };
    let (width, height) = resolve_both(&grid_style, preferred_size);
    assert_eq!(width, 2); // 2 tracks + 1 gap
    assert_eq!(height, 3); // 3 tracks + 2 gaps
}

#[test]
fn explicit_grid_sizing_no_defined_size() {
    let grid_style = GridContainerStyle {
        grid_template_columns: vec![repeat(
            GridTrackRepetition::AutoFill,
            vec![
                NonRepeatedTrackSizingFunction::from_length(40),
                NonRepeatedTrackSizingFunction {
                    min: MinTrackSizingFunction::Fixed(LengthPercentage::Percent(50)),
                    max: MaxTrackSizingFunction::Fixed(LengthPercentage::Percent(50)),
                },
                NonRepeatedTrackSizingFunction::from_length(20),
            ],
        )],
        grid_template_rows: vec![repeat(
            GridTrackRepetition::AutoFill,
            vec![NonRepeatedTrackSizingFunction::from_length(20)],
        )],
        gap: Size {
            width: LengthPercentage::Length(20),
            height: LengthPercentage::Length(20),
        },
        ..Default::default()
    };
    let preferred_size = Size { width: None, height: None };
    let (width, height) = resolve_both(&grid_style, preferred_size);
    assert_eq!(width, 3);
    assert_eq!(height, 1);
}

#[test]
fn explicit_grid_sizing_mix_repeated_and_non_repeated() {
    let grid_style = GridContainerStyle {
        size: Size { width: Dimension::Length(140), height: Dimension::Length(100) },
        grid_template_columns: vec![
            length(20),
            repeat(GridTrackRepetition::AutoFill, vec![NonRepeatedTrackSizingFunction::from_length(40)]),
        ],
        grid_template_rows: vec![
            length(40),
            repeat(GridTrackRepetition::AutoFill, vec![NonRepeatedTrackSizingFunction::from_length(20)]),
        ],
        gap: Size {
            width: LengthPercentage::Length(20),
            height: LengthPercentage::Length(20),
        },
        ..Default::default()
    };
    let preferred_size = Size { width: Some(140), height: Some(100) };
    let (width, height) = resolve_both(&grid_style, preferred_size);
    assert_eq!(width, 3); // 3 tracks + 2 gaps
    assert_eq!(height, 2); // 2 tracks + 1 gap
}

#[test]
fn explicit_grid_sizing_mix_with_padding() {
    // The container is 120x120 with 10px horizontal and 20px vertical
    // padding on each side, so the content box the tracks fill is 100x80.
    let grid_style = GridContainerStyle {
        size: Size { width: Dimension::Length(120), height: Dimension::Length(120) },
        grid_template_columns: vec![repeat(
            GridTrackRepetition::AutoFill,
            vec![NonRepeatedTrackSizingFunction::from_length(20)],
        )],
        grid_template_rows: vec![repeat(
            GridTrackRepetition::AutoFill,
            vec![NonRepeatedTrackSizingFunction::from_length(20)],
        )],
        ..Default::default()
    };
    let inner_container_size = Size { width: Some(100), height: Some(80) };
    let (width, height) = resolve_both(&grid_style, inner_container_size);
    assert_eq!(width, 5); // 40px horizontal padding
    assert_eq!(height, 4); // 20px vertical padding
}

#[test]
fn explicit_grid_sizing_single_track_no_size() {
    let grid_style = GridContainerStyle {
        grid_template_columns: vec![length(100)],
        ..Default::default()
    };
    let preferred_size = Size { width: None, height: None };
    let width = compute_explicit_grid_size_in_axis(
        &grid_style,
        &grid_style.grid_template_columns,
        preferred_size,
        &ConstantCalc { value: 42 },
        AbsoluteAxis::Horizontal,
    );
    assert_eq!(width, 1);
}

#[test]
fn explicit_grid_sizing_empty_template() {
    let grid_style = GridContainerStyle {
        size: Size { width: Dimension::Length(600), height: Dimension::Length(600) },
        ..Default::default()
    };
    let preferred_size = Size { width: Some(600), height: Some(600) };
    let (width, height) = resolve_both(&grid_style, preferred_size);
    assert_eq!(width, 0);
    assert_eq!(height, 0);
}

#[test]
fn explicit_grid_sizing_empty_repetition_is_invalid() {
    // A repetition over an empty track list invalidates the template even
    // where other entries declare tracks.
    let grid_style = GridContainerStyle {
        size: Size { width: Dimension::Length(600), height: Dimension::Length(600) },
        grid_template_columns: vec![length(100), repeat(GridTrackRepetition::Count(2), vec![])],
        grid_template_rows: vec![repeat(GridTrackRepetition::AutoFill, vec![])],
        ..Default::default()
    };
    let preferred_size = Size { width: Some(600), height: Some(600) };
    let (width, height) = resolve_both(&grid_style, preferred_size);
    assert_eq!(width, 0);
    assert_eq!(height, 0);
}

#[test]
fn explicit_grid_sizing_two_auto_repetitions_are_invalid() {
    let grid_style = GridContainerStyle {
        size: Size { width: Dimension::Length(600), height: Dimension::Length(600) },
        grid_template_columns: vec![
            repeat(GridTrackRepetition::AutoFill, vec![NonRepeatedTrackSizingFunction::from_length(40)]),
            repeat(GridTrackRepetition::AutoFit, vec![NonRepeatedTrackSizingFunction::from_length(20)]),
        ],
        ..Default::default()
    };
    let preferred_size = Size { width: Some(600), height: Some(600) };
    let width = compute_explicit_grid_size_in_axis(
        &grid_style,
        &grid_style.grid_template_columns,
        preferred_size,
        &ConstantCalc { value: 42 },
        AbsoluteAxis::Horizontal,
    );
    assert_eq!(width, 0);
}

#[test]
fn explicit_grid_sizing_auto_repeat_with_flexible_track_is_invalid() {
    // Mixing an auto-repetition with a track that has no fixed component
    // (a flexible track) makes the template invalid.
    let grid_style = GridContainerStyle {
        size: Size { width: Dimension::Length(600), height: Dimension::Length(600) },
        grid_template_columns: vec![
            fr(1),
            repeat(GridTrackRepetition::AutoFill, vec![NonRepeatedTrackSizingFunction::from_length(40)]),
        ],
        ..Default::default()
    };
    let preferred_size = Size { width: Some(600), height: Some(600) };
    let width = compute_explicit_grid_size_in_axis(
        &grid_style,
        &grid_style.grid_template_columns,
        preferred_size,
        &ConstantCalc { value: 42 },
        AbsoluteAxis::Horizontal,
    );
    assert_eq!(width, 0);
}

#[test]
fn explicit_grid_sizing_calc_gap_resolves_through_resolver() {
    // A calc()-like gap is resolved through the caller's resolver: with a
    // resolved gap of 42, one 40px track plus its trailing gap takes 82px,
    // so two repetitions fit a 140px container but three do not.
    let grid_style = GridContainerStyle {
        size: Size { width: Dimension::Length(140), height: Dimension::Length(140) },
        grid_template_columns: vec![repeat(
            GridTrackRepetition::AutoFill,
            vec![NonRepeatedTrackSizingFunction::from_length(40)],
        )],
        gap: Size { width: LengthPercentage::Calc(7), height: LengthPercentage::Calc(7) },
        ..Default::default()
    };
    let preferred_size = Size { width: Some(140), height: Some(140) };
    let width = compute_explicit_grid_size_in_axis(
        &grid_style,
        &grid_style.grid_template_columns,
        preferred_size,
        &ConstantCalc { value: 42 },
        AbsoluteAxis::Horizontal,
    );
    assert_eq!(width, 2);
}

#[test]
fn explicit_grid_sizing_percent_track_resolves_against_container() {
    // A 50% track in a 200px container takes 100px, leaving 60px after the
    // first 40px repetition: exactly one more repetition fits.
    let grid_style = GridContainerStyle {
        size: Size { width: Dimension::Length(200), height: Dimension::Length(200) },
        grid_template_columns: vec![
            percent(50),
            repeat(GridTrackRepetition::AutoFill, vec![
                NonRepeatedTrackSizingFunction::from_length(40),
            ]),
        ],
        ..Default::default()
    };
    let preferred_size = Size { width: Some(200), height: Some(200) };
    let width = compute_explicit_grid_size_in_axis(
        &grid_style,
        &grid_style.grid_template_columns,
        preferred_size,
        &ConstantCalc { value: 42 },
        AbsoluteAxis::Horizontal,
    );
    assert_eq!(width, 3);
}

#[test]
fn explicit_grid_sizing_zero_size_repetition_is_floored_at_one() {
    // A repetition whose tracks and gap resolve to no space at all cannot be
    // counted by division: the repetition count falls back to one.
    let grid_style = GridContainerStyle {
        size: Size { width: Dimension::Length(100), height: Dimension::Length(100) },
        grid_template_columns: vec![repeat(
            GridTrackRepetition::AutoFill,
            vec![NonRepeatedTrackSizingFunction::from_length(0)],
        )],
        ..Default::default()
    };
    let preferred_size = Size { width: Some(100), height: Some(100) };
    let width = compute_explicit_grid_size_in_axis(
        &grid_style,
        &grid_style.grid_template_columns,
        preferred_size,
        &ConstantCalc { value: 42 },
        AbsoluteAxis::Horizontal,
    );
    assert_eq!(width, 1);
}
