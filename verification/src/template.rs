//! Track templates, track counts and the grid container's style.
use crate::geometry::Size;
use crate::sizing::{
    Dimension, LengthPercentage, MaxTrackSizingFunction, MinTrackSizingFunction,
    NonRepeatedTrackSizingFunction,
};
use vstd::prelude::*;

verus! {

/// How often a `repeat()` template entry repeats its track list.
#[derive(Clone, Copy, Debug, PartialEq, Eq, Structural)]
pub enum GridTrackRepetition {
    /// A fixed number of repetitions.
    Count(u16),
    /// As many repetitions as fit the available space; unused tracks stay.
    AutoFill,
    /// As many repetitions as fit the available space; unused tracks are
    /// collapsed.
    AutoFit,
}

impl GridTrackRepetition {
    /// Whether this repetition is resolved from the available space.
    pub open spec fn is_auto_spec(self) -> bool {
        self is AutoFill || self is AutoFit
    }
}

/// One entry of a per-axis track template.
#[derive(Clone, Debug)]
pub enum TrackSizingFunction {
    /// Exactly one track.
    Single(NonRepeatedTrackSizingFunction),
    /// A repeated list of tracks.
    Repeat(GridTrackRepetition, Vec<NonRepeatedTrackSizingFunction>),
}

impl TrackSizingFunction {
    /// Whether this entry is an `auto-fill` or `auto-fit` repetition.
    pub open spec fn is_auto_repetition_spec(self) -> bool {
        match self {
            TrackSizingFunction::Single(_) => false,
            TrackSizingFunction::Repeat(kind, _) => kind.is_auto_spec(),
        }
    }

    /// Whether this entry is an `auto-fill` or `auto-fit` repetition.
    pub fn is_auto_repetition(&self) -> (r: bool)
        ensures
            r == self.is_auto_repetition_spec(),
    {
        match self {
            TrackSizingFunction::Single(_) => false,
            TrackSizingFunction::Repeat(kind, _) => match kind {
                GridTrackRepetition::Count(_) => false,
                GridTrackRepetition::AutoFill => true,
                GridTrackRepetition::AutoFit => true,
            },
        }
    }
}

/// A template entry of one track fixed to `value` layout units.
pub fn length(value: u32) -> (r: TrackSizingFunction)
    ensures
        r == TrackSizingFunction::Single(
            NonRepeatedTrackSizingFunction {
                min: MinTrackSizingFunction::Fixed(LengthPercentage::Length(value)),
                max: MaxTrackSizingFunction::Fixed(LengthPercentage::Length(value)),
            },
        ),
{
    TrackSizingFunction::Single(NonRepeatedTrackSizingFunction::from_length(value))
}

/// A template entry of one track sized to `percent` percent points of the
/// container.
pub fn percent(points: u32) -> (r: TrackSizingFunction)
    ensures
        r == TrackSizingFunction::Single(
            NonRepeatedTrackSizingFunction {
                min: MinTrackSizingFunction::Fixed(LengthPercentage::Percent(points)),
                max: MaxTrackSizingFunction::Fixed(LengthPercentage::Percent(points)),
            },
        ),
{
    TrackSizingFunction::Single(
        NonRepeatedTrackSizingFunction {
            min: MinTrackSizingFunction::Fixed(LengthPercentage::Percent(points)),
            max: MaxTrackSizingFunction::Fixed(LengthPercentage::Percent(points)),
        },
    )
}

/// A template entry of one flexible track of `units` flexible units; its
/// minimum component is automatic.
pub fn fr(units: u32) -> (r: TrackSizingFunction)
    ensures
        r == TrackSizingFunction::Single(
            NonRepeatedTrackSizingFunction {
                min: MinTrackSizingFunction::Auto,
                max: MaxTrackSizingFunction::Fraction(units),
            },
        ),
{
    TrackSizingFunction::Single(
        NonRepeatedTrackSizingFunction {
            min: MinTrackSizingFunction::Auto,
            max: MaxTrackSizingFunction::Fraction(units),
        },
    )
}

/// A template entry of one track with the given minimum and maximum
/// components.
pub fn minmax(min: MinTrackSizingFunction, max: MaxTrackSizingFunction) -> (r:
    TrackSizingFunction)
    ensures
        r == TrackSizingFunction::Single(NonRepeatedTrackSizingFunction { min, max }),
{
    TrackSizingFunction::Single(NonRepeatedTrackSizingFunction { min, max })
}

/// A template entry repeating `tracks` as `kind` says.
pub fn repeat(kind: GridTrackRepetition, tracks: Vec<NonRepeatedTrackSizingFunction>) -> (r:
    TrackSizingFunction)
    ensures
        r == TrackSizingFunction::Repeat(kind, tracks),
{
    TrackSizingFunction::Repeat(kind, tracks)
}

/// The number of tracks of one axis: implicit tracks before the explicit
/// grid, explicit tracks, and implicit tracks after it.
#[derive(Clone, Copy, Debug, PartialEq, Eq, Structural)]
pub struct TrackCounts {
    /// Implicit tracks before the explicit grid.
    pub negative_implicit: u16,
    /// Explicit tracks, as resolved from the track template.
    pub explicit: u16,
    /// Implicit tracks after the explicit grid.
    pub positive_implicit: u16,
}

impl TrackCounts {
    /// The total number of tracks.
    pub open spec fn total_spec(self) -> int {
        self.negative_implicit + self.explicit + self.positive_implicit
    }

    /// The total number of tracks.
    pub fn len(&self) -> (r: usize)
        ensures
            r == self.total_spec(),
    {
        self.negative_implicit as usize + self.explicit as usize + self.positive_implicit as usize
    }
}

/// The parts of a grid container's style that track generation reads.
#[derive(Clone, Debug)]
pub struct GridContainerStyle {
    /// The preferred size.
    pub size: Size<Dimension>,
    /// The minimum size.
    pub min_size: Size<Dimension>,
    /// The maximum size.
    pub max_size: Size<Dimension>,
    /// The gap between adjacent tracks, per axis.
    pub gap: Size<LengthPercentage>,
    /// The track template of the horizontal axis.
    pub grid_template_columns: Vec<TrackSizingFunction>,
    /// The track template of the vertical axis.
    pub grid_template_rows: Vec<TrackSizingFunction>,
}

impl Default for GridContainerStyle {
    /// The style of a container with automatic sizes, no gap and empty
    /// templates.
    fn default() -> (r: Self)
        ensures
            r.size == (Size::<Dimension> { width: Dimension::Auto, height: Dimension::Auto }),
            r.min_size == (Size::<Dimension> { width: Dimension::Auto, height: Dimension::Auto }),
            r.max_size == (Size::<Dimension> { width: Dimension::Auto, height: Dimension::Auto }),
            r.gap == (Size::<LengthPercentage> {
                width: LengthPercentage::Length(0),
                height: LengthPercentage::Length(0),
            }),
            r.grid_template_columns@ == Seq::<TrackSizingFunction>::empty(),
            r.grid_template_rows@ == Seq::<TrackSizingFunction>::empty(),
    {
        GridContainerStyle {
            size: Size { width: Dimension::Auto, height: Dimension::Auto },
            min_size: Size { width: Dimension::Auto, height: Dimension::Auto },
            max_size: Size { width: Dimension::Auto, height: Dimension::Auto },
            gap: Size { width: LengthPercentage::Length(0), height: LengthPercentage::Length(0) },
            grid_template_columns: Vec::new(),
            grid_template_rows: Vec::new(),
        }
    }
}

} // verus!
