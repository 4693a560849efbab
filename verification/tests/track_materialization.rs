use grid_tracks::sizing::{
    LengthPercentage, MaxTrackSizingFunction, MinTrackSizingFunction,
    NonRepeatedTrackSizingFunction,
};
use grid_tracks::template::{fr, length, minmax, repeat, GridTrackRepetition, TrackCounts};
use grid_tracks::tracks::{
    create_implicit_tracks, initialize_grid_tracks, FlagOccupancy, GridTrack, GridTrackKind,
    NoOccupancy,
};

#[test]
fn test_initialize_grid_tracks() {
    let minpx0 = MinTrackSizingFunction::from_length(0);
    let minpx20 = MinTrackSizingFunction::from_length(20);
    let minpx100 = MinTrackSizingFunction::from_length(100);

    let maxpx0 = MaxTrackSizingFunction::from_length(0);
    let maxpx20 = MaxTrackSizingFunction::from_length(20);
    let maxpx100 = MaxTrackSizingFunction::from_length(100);

    let min_auto = MinTrackSizingFunction::Auto;
    let max_auto = MaxTrackSizingFunction::Auto;

    // Setup test
    let track_template = vec![
        length(100),
        minmax(minpx100, MaxTrackSizingFunction::from_fr(2)),
        fr(1),
    ];
    let track_counts = TrackCounts {
        negative_implicit: 3,
        explicit: track_template.len() as u16,
        positive_implicit: 3,
    };
    let auto_tracks = vec![
        NonRepeatedTrackSizingFunction::auto(),
        NonRepeatedTrackSizingFunction::from_length(100),
    ];
    let gap = LengthPercentage::from_length(20);

    // Call function
    let mut tracks: Vec<GridTrack> = Vec::new();
    initialize_grid_tracks(
        &mut tracks,
        track_counts,
        &track_template,
        &auto_tracks,
        gap,
        &NoOccupancy {},
    );

    // Assertions
    let expected = vec![
        // Gutter
        (GridTrackKind::Gutter, minpx0, maxpx0),
        // Negative implicit tracks
        (GridTrackKind::Track, minpx100, maxpx100),
        (GridTrackKind::Gutter, minpx20, maxpx20),
        (GridTrackKind::Track, min_auto, max_auto),
        (GridTrackKind::Gutter, minpx20, maxpx20),
        (GridTrackKind::Track, minpx100, maxpx100),
        (GridTrackKind::Gutter, minpx20, maxpx20),
        // Explicit tracks
        (GridTrackKind::Track, minpx100, maxpx100),
        (GridTrackKind::Gutter, minpx20, maxpx20),
        // Note: separate min-max functions
        (GridTrackKind::Track, minpx100, MaxTrackSizingFunction::from_fr(2)),
        (GridTrackKind::Gutter, minpx20, maxpx20),
        // Note: min sizing function of flex sizing functions is auto
        (GridTrackKind::Track, min_auto, MaxTrackSizingFunction::from_fr(1)),
        (GridTrackKind::Gutter, minpx20, maxpx20),
        // Positive implicit tracks
        (GridTrackKind::Track, min_auto, max_auto),
        (GridTrackKind::Gutter, minpx20, maxpx20),
        (GridTrackKind::Track, minpx100, maxpx100),
        (GridTrackKind::Gutter, minpx20, maxpx20),
        (GridTrackKind::Track, min_auto, max_auto),
        (GridTrackKind::Gutter, minpx0, maxpx0),
    ];

    assert_eq!(tracks.len(), expected.len(), "Number of tracks doesn't match");

    for (idx, (actual, (kind, min, max))) in tracks.into_iter().zip(expected).enumerate() {
        assert_eq!(actual.kind, kind, "Track {idx} (0-based index)");
        assert_eq!(actual.min_track_sizing_function, min, "Track {idx} (0-based index)");
        assert_eq!(actual.max_track_sizing_function, max, "Track {idx} (0-based index)");
    }
}

#[test]
fn materialized_list_length_and_boundaries() {
    // The produced list always holds 2 * (negative + explicit + positive) + 1
    // cells, and its first and last cells are collapsed gutters of fixed zero
    // size whatever gap was requested.
    let track_template = vec![length(100), length(50)];
    let counts = TrackCounts { negative_implicit: 2, explicit: 2, positive_implicit: 1 };
    let gap = LengthPercentage::from_length(30);
    let mut tracks: Vec<GridTrack> = Vec::new();
    initialize_grid_tracks(
        &mut tracks,
        counts,
        &track_template,
        &Vec::new(),
        gap,
        &NoOccupancy {},
    );

    assert_eq!(tracks.len(), 2 * (2 + 2 + 1) + 1);
    let first = tracks[0];
    let last = tracks[tracks.len() - 1];
    assert!(first.collapsed);
    assert!(last.collapsed);
    assert_eq!(first.kind, GridTrackKind::Gutter);
    assert_eq!(last.kind, GridTrackKind::Gutter);
    assert_eq!(first.min_track_sizing_function, MinTrackSizingFunction::from_length(0));
    assert_eq!(first.max_track_sizing_function, MaxTrackSizingFunction::from_length(0));
    assert_eq!(last.min_track_sizing_function, MinTrackSizingFunction::from_length(0));
    assert_eq!(last.max_track_sizing_function, MaxTrackSizingFunction::from_length(0));
    // Every inner gutter keeps the requested gap.
    assert_eq!(tracks[2].min_track_sizing_function, MinTrackSizingFunction::from_length(30));
    // No inner cell is collapsed.
    for idx in 1..tracks.len() - 1 {
        assert!(!tracks[idx].collapsed, "cell {idx} must not be collapsed");
    }
}

#[test]
fn auto_fit_tracks_collapse_exactly_where_unoccupied() {
    // Tracks of an auto-fit repetition are collapsed, together with their
    // trailing gutters, exactly where their index holds no item.
    let track_template = vec![repeat(
        GridTrackRepetition::AutoFit,
        vec![NonRepeatedTrackSizingFunction::from_length(40)],
    )];
    let counts = TrackCounts { negative_implicit: 0, explicit: 3, positive_implicit: 0 };
    let occupancy = FlagOccupancy { flags: vec![true, false, true] };
    let mut tracks: Vec<GridTrack> = Vec::new();
    initialize_grid_tracks(
        &mut tracks,
        counts,
        &track_template,
        &Vec::new(),
        LengthPercentage::from_length(10),
        &occupancy,
    );

    assert_eq!(tracks.len(), 7);
    assert!(!tracks[1].collapsed); // occupied
    assert!(!tracks[2].collapsed);
    assert!(tracks[3].collapsed); // unoccupied: track collapses
    assert!(tracks[4].collapsed); // and its trailing gutter with it
    assert!(!tracks[5].collapsed); // occupied
    // A collapsed track's sizing is overridden to a fixed zero.
    assert_eq!(tracks[3].min_track_sizing_function, MinTrackSizingFunction::from_length(0));
    assert_eq!(tracks[3].max_track_sizing_function, MaxTrackSizingFunction::from_length(0));
    // An uncollapsed auto-fit track keeps its sizing.
    assert_eq!(tracks[1].min_track_sizing_function, MinTrackSizingFunction::from_length(40));
}

#[test]
fn auto_fill_tracks_never_collapse() {
    // Auto-fill tracks stay whatever the occupancy says.
    let track_template = vec![repeat(
        GridTrackRepetition::AutoFill,
        vec![NonRepeatedTrackSizingFunction::from_length(40)],
    )];
    let counts = TrackCounts { negative_implicit: 0, explicit: 3, positive_implicit: 0 };
    let occupancy = FlagOccupancy { flags: vec![false, false, false] };
    let mut tracks: Vec<GridTrack> = Vec::new();
    initialize_grid_tracks(
        &mut tracks,
        counts,
        &track_template,
        &Vec::new(),
        LengthPercentage::from_length(10),
        &occupancy,
    );

    assert_eq!(tracks.len(), 7);
    for idx in 1..tracks.len() - 1 {
        assert!(!tracks[idx].collapsed, "cell {idx} must not be collapsed");
    }
}

#[test]
fn zero_explicit_count_ignores_template() {
    // A zero explicit count can come from an invalid template: the template
    // is then ignored entirely.
    let track_template = vec![length(100), length(50)];
    let counts = TrackCounts { negative_implicit: 1, explicit: 0, positive_implicit: 1 };
    let mut tracks: Vec<GridTrack> = Vec::new();
    initialize_grid_tracks(
        &mut tracks,
        counts,
        &track_template,
        &Vec::new(),
        LengthPercentage::from_length(0),
        &NoOccupancy {},
    );
    assert_eq!(tracks.len(), 5);
    assert_eq!(tracks[1].min_track_sizing_function, MinTrackSizingFunction::Auto);
    assert_eq!(tracks[3].min_track_sizing_function, MinTrackSizingFunction::Auto);
}

#[test]
fn fixed_count_repetition_cycles_its_tracks() {
    let track_template = vec![repeat(
        GridTrackRepetition::Count(2),
        vec![
            NonRepeatedTrackSizingFunction::from_length(40),
            NonRepeatedTrackSizingFunction::from_length(20),
        ],
    )];
    let counts = TrackCounts { negative_implicit: 0, explicit: 4, positive_implicit: 0 };
    let mut tracks: Vec<GridTrack> = Vec::new();
    initialize_grid_tracks(
        &mut tracks,
        counts,
        &track_template,
        &Vec::new(),
        LengthPercentage::from_length(0),
        &NoOccupancy {},
    );
    assert_eq!(tracks.len(), 9);
    assert_eq!(tracks[1].min_track_sizing_function, MinTrackSizingFunction::from_length(40));
    assert_eq!(tracks[3].min_track_sizing_function, MinTrackSizingFunction::from_length(20));
    assert_eq!(tracks[5].min_track_sizing_function, MinTrackSizingFunction::from_length(40));
    assert_eq!(tracks[7].min_track_sizing_function, MinTrackSizingFunction::from_length(20));
}

#[test]
fn create_implicit_tracks_cycles_from_offset() {
    let auto_tracks = vec![
        NonRepeatedTrackSizingFunction::auto(),
        NonRepeatedTrackSizingFunction::from_length(100),
    ];
    let gap = LengthPercentage::from_length(20);
    let mut tracks: Vec<GridTrack> = Vec::new();
    create_implicit_tracks(&mut tracks, 3, &auto_tracks, 1, gap);
    // Cycle positions 1, 2, 3 of [auto, 100px]: 100px, auto, 100px.
    assert_eq!(tracks.len(), 6);
    assert_eq!(tracks[0].kind, GridTrackKind::Track);
    assert_eq!(tracks[0].min_track_sizing_function, MinTrackSizingFunction::from_length(100));
    assert_eq!(tracks[1].kind, GridTrackKind::Gutter);
    assert_eq!(tracks[2].min_track_sizing_function, MinTrackSizingFunction::Auto);
    assert_eq!(tracks[4].min_track_sizing_function, MinTrackSizingFunction::from_length(100));
}

#[test]
fn create_implicit_tracks_without_definitions_is_auto() {
    let mut tracks: Vec<GridTrack> = Vec::new();
    create_implicit_tracks(&mut tracks, 2, &Vec::new(), 0, LengthPercentage::from_length(5));
    assert_eq!(tracks.len(), 4);
    assert_eq!(tracks[0].min_track_sizing_function, MinTrackSizingFunction::Auto);
    assert_eq!(tracks[0].max_track_sizing_function, MaxTrackSizingFunction::Auto);
    assert_eq!(tracks[2].min_track_sizing_function, MinTrackSizingFunction::Auto);
    assert_eq!(tracks[1].min_track_sizing_function, MinTrackSizingFunction::from_length(5));
}
