//! Materializing the ordered per-axis track list from resolved track counts.
//!
//! The produced list interleaves tracks with gutters: it starts and ends with
//! a gutter, so its length is always odd. The first and last gutters stand
//! for the grid boundary, not real inter-track spacing, and are forced to a
//! collapsed zero size whatever gap was requested. Implicit tracks are sized
//! by cycling the automatic track definitions; the tracks of an `auto-fit`
//! repetition are collapsed where no item occupies their index.
use crate::sizing::{
    LengthPercentage, MaxTrackSizingFunction, MinTrackSizingFunction,
    NonRepeatedTrackSizingFunction,
};
use crate::template::{GridTrackRepetition, TrackCounts, TrackSizingFunction};
use vstd::arithmetic::div_mod::{
    lemma_add_mod_noop, lemma_div_multiples_vanish, lemma_mod_multiples_vanish,
    lemma_mod_self_0, lemma_small_mod,
};
use vstd::arithmetic::mul::{
    lemma_mul_basics_2, lemma_mul_is_distributive_add_other_way, lemma_mul_nonnegative,
};
use vstd::prelude::*;

verus! {

/// Whether a cell of the track list is a real track or the spacing between
/// two tracks.
#[derive(Clone, Copy, Debug, PartialEq, Eq, Structural)]
pub enum GridTrackKind {
    /// A real track.
    Track,
    /// Synthetic inter-track spacing.
    Gutter,
}

/// One cell of the materialized per-axis track list.
#[derive(Clone, Copy, Debug, PartialEq, Eq, Structural)]
pub struct GridTrack {
    /// Whether this cell is a track or a gutter.
    pub kind: GridTrackKind,
    /// The minimum component of the cell's sizing function.
    pub min_track_sizing_function: MinTrackSizingFunction,
    /// The maximum component of the cell's sizing function.
    pub max_track_sizing_function: MaxTrackSizingFunction,
    /// Whether the cell contributes zero size and is excluded from spacing
    /// distribution.
    pub collapsed: bool,
}

impl GridTrack {
    /// An uncollapsed track with the given sizing components.
    pub open spec fn new_spec(
        min: MinTrackSizingFunction,
        max: MaxTrackSizingFunction,
    ) -> GridTrack {
        GridTrack {
            kind: GridTrackKind::Track,
            min_track_sizing_function: min,
            max_track_sizing_function: max,
            collapsed: false,
        }
    }

    /// Make an uncollapsed track with the given sizing components.
    pub fn new(min: MinTrackSizingFunction, max: MaxTrackSizingFunction) -> (r: GridTrack)
        ensures
            r == Self::new_spec(min, max),
    {
        GridTrack {
            kind: GridTrackKind::Track,
            min_track_sizing_function: min,
            max_track_sizing_function: max,
            collapsed: false,
        }
    }

    /// An uncollapsed gutter sized to `gap` in both components.
    pub open spec fn gutter_spec(gap: LengthPercentage) -> GridTrack {
        GridTrack {
            kind: GridTrackKind::Gutter,
            min_track_sizing_function: MinTrackSizingFunction::Fixed(gap),
            max_track_sizing_function: MaxTrackSizingFunction::Fixed(gap),
            collapsed: false,
        }
    }

    /// Make an uncollapsed gutter sized to `gap` in both components.
    pub fn gutter(gap: LengthPercentage) -> (r: GridTrack)
        ensures
            r == Self::gutter_spec(gap),
    {
        GridTrack {
            kind: GridTrackKind::Gutter,
            min_track_sizing_function: MinTrackSizingFunction::Fixed(gap),
            max_track_sizing_function: MaxTrackSizingFunction::Fixed(gap),
            collapsed: false,
        }
    }

    /// This cell collapsed: marked and with its sizing overridden to a fixed
    /// zero, so that it contributes no size.
    pub open spec fn collapse_spec(self) -> GridTrack {
        GridTrack {
            kind: self.kind,
            min_track_sizing_function: MinTrackSizingFunction::Fixed(LengthPercentage::Length(0)),
            max_track_sizing_function: MaxTrackSizingFunction::Fixed(LengthPercentage::Length(0)),
            collapsed: true,
        }
    }

    /// Collapse this cell: mark it and override its sizing to a fixed zero.
    pub fn collapse(&mut self)
        ensures
            *final(self) == old(self).collapse_spec(),
    {
        self.collapsed = true;
        self.min_track_sizing_function = MinTrackSizingFunction::Fixed(LengthPercentage::Length(0));
        self.max_track_sizing_function = MaxTrackSizingFunction::Fixed(LengthPercentage::Length(0));
    }
}

/// Which track indices have at least one item placed in them. Supplied by the
/// grid placement phase; it must be a pure function of the index.
pub trait TrackOccupancy {
    /// Whether the track at `index` holds at least one item.
    spec fn has_items_spec(&self, index: int) -> bool;

    /// Whether the track at `index` holds at least one item.
    fn has_items(&self, index: usize) -> (r: bool)
        ensures
            r == self.has_items_spec(index as int),
    ;
}

/// A [`TrackOccupancy`] under which no track holds any item.
#[derive(Clone, Copy, Debug)]
pub struct NoOccupancy {}

impl TrackOccupancy for NoOccupancy {
    open spec fn has_items_spec(&self, index: int) -> bool {
        false
    }

    fn has_items(&self, index: usize) -> (r: bool) {
        false
    }
}

/// A [`TrackOccupancy`] read from a vector of flags, one per track index;
/// indices past its end hold no items.
#[derive(Clone, Debug)]
pub struct FlagOccupancy {
    /// For each track index, whether that track holds at least one item.
    pub flags: Vec<bool>,
}

impl TrackOccupancy for FlagOccupancy {
    open spec fn has_items_spec(&self, index: int) -> bool {
        0 <= index < self.flags@.len() && self.flags@[index]
    }

    fn has_items(&self, index: usize) -> (r: bool) {
        if index < self.flags.len() {
            self.flags[index]
        } else {
            false
        }
    }
}

/// The sizing definition of the implicit track at `position` of the cycle
/// through `auto_tracks`; fully automatic where no definitions are given.
pub open spec fn implicit_track_def(
    auto_tracks: Seq<NonRepeatedTrackSizingFunction>,
    position: int,
) -> NonRepeatedTrackSizingFunction {
    if auto_tracks.len() == 0 {
        NonRepeatedTrackSizingFunction::auto_spec()
    } else {
        auto_tracks[position % (auto_tracks.len() as int)]
    }
}

/// `count` implicit tracks, each followed by a gutter sized to `gap`, sized
/// by cycling `auto_tracks` starting at `offset`.
pub open spec fn implicit_section(
    auto_tracks: Seq<NonRepeatedTrackSizingFunction>,
    offset: int,
    count: int,
    gap: LengthPercentage,
) -> Seq<GridTrack>
    decreases count,
{
    if count <= 0 {
        Seq::empty()
    } else {
        let def = implicit_track_def(auto_tracks, offset + count - 1);
        implicit_section(auto_tracks, offset, count - 1, gap) + seq![
            GridTrack::new_spec(def.min, def.max),
            GridTrack::gutter_spec(gap),
        ]
    }
}

/// `n` tracks cycling through `defs`, each followed by a gutter sized to
/// `gap`. Where `collapse_unoccupied` holds, a track whose running index
/// `base + j` holds no item is collapsed together with its gutter. An empty
/// `defs` yields nothing.
pub open spec fn repeat_section<O: TrackOccupancy>(
    defs: Seq<NonRepeatedTrackSizingFunction>,
    n: int,
    base: int,
    gap: LengthPercentage,
    collapse_unoccupied: bool,
    occ: &O,
) -> Seq<GridTrack>
    decreases n,
{
    if n <= 0 || defs.len() == 0 {
        Seq::empty()
    } else {
        let j = n - 1;
        let def = defs[j % (defs.len() as int)];
        let track = GridTrack::new_spec(def.min, def.max);
        let gut = GridTrack::gutter_spec(gap);
        let pair = if collapse_unoccupied && !occ.has_items_spec(base + j) {
            seq![track.collapse_spec(), gut.collapse_spec()]
        } else {
            seq![track, gut]
        };
        repeat_section(defs, n - 1, base, gap, collapse_unoccupied, occ) + pair
    }
}

/// The number of tracks one template entry materializes, where `auto_n` is
/// the track count assigned to an auto-repetition entry.
pub open spec fn entry_emitted_count(entry: TrackSizingFunction, auto_n: int) -> int {
    match entry {
        TrackSizingFunction::Single(_) => 1,
        TrackSizingFunction::Repeat(GridTrackRepetition::Count(c), l) => c * l@.len(),
        TrackSizingFunction::Repeat(_, l) => if l@.len() == 0 || auto_n < 0 {
            0
        } else {
            auto_n
        },
    }
}

/// The cells one template entry materializes, starting at running track index
/// `base`.
pub open spec fn entry_section<O: TrackOccupancy>(
    entry: TrackSizingFunction,
    auto_n: int,
    base: int,
    gap: LengthPercentage,
    occ: &O,
) -> Seq<GridTrack> {
    match entry {
        TrackSizingFunction::Single(sf) => seq![
            GridTrack::new_spec(sf.min, sf.max),
            GridTrack::gutter_spec(gap),
        ],
        TrackSizingFunction::Repeat(GridTrackRepetition::Count(c), l) => repeat_section(
            l@,
            c * l@.len(),
            base,
            gap,
            false,
            occ,
        ),
        TrackSizingFunction::Repeat(GridTrackRepetition::AutoFill, l) => repeat_section(
            l@,
            auto_n,
            base,
            gap,
            false,
            occ,
        ),
        TrackSizingFunction::Repeat(GridTrackRepetition::AutoFit, l) => repeat_section(
            l@,
            auto_n,
            base,
            gap,
            true,
            occ,
        ),
    }
}

/// The cells the template entries from index `i` on materialize, starting at
/// running track index `base`.
pub open spec fn explicit_section<O: TrackOccupancy>(
    template: Seq<TrackSizingFunction>,
    i: int,
    auto_n: int,
    base: int,
    gap: LengthPercentage,
    occ: &O,
) -> Seq<GridTrack>
    decreases template.len() - i,
{
    if i < 0 || i >= template.len() {
        Seq::empty()
    } else {
        entry_section(template[i], auto_n, base, gap, occ) + explicit_section(
            template,
            i + 1,
            auto_n,
            base + entry_emitted_count(template[i], auto_n),
            gap,
            occ,
        )
    }
}

/// The number of tracks the template entries from index `i` on materialize.
pub open spec fn emitted_total_from(
    template: Seq<TrackSizingFunction>,
    i: int,
    auto_n: int,
) -> int
    decreases template.len() - i,
{
    if i < 0 || i >= template.len() {
        0
    } else {
        entry_emitted_count(template[i], auto_n) + emitted_total_from(template, i + 1, auto_n)
    }
}

/// The number of tracks the whole template materializes.
pub open spec fn emitted_total(template: Seq<TrackSizingFunction>, auto_n: int) -> int {
    emitted_total_from(template, 0, auto_n)
}

/// Whether the template holds an `auto-fill` or `auto-fit` repetition entry.
pub open spec fn template_has_auto_repetition(template: Seq<TrackSizingFunction>) -> bool {
    exists|i: int| 0 <= i < template.len() && template[i].is_auto_repetition_spec()
}

/// The full materialized track list for one axis: a leading gutter, the
/// negative implicit tracks (cycling the automatic definitions offset so that
/// the cycle ends where the explicit grid starts), the explicit tracks where
/// `counts.explicit` is positive, the positive implicit tracks, each track
/// followed by a gutter; the first and last cells are then collapsed.
pub open spec fn materialized_track_list<O: TrackOccupancy>(
    counts: TrackCounts,
    template: Seq<TrackSizingFunction>,
    auto_tracks: Seq<NonRepeatedTrackSizingFunction>,
    gap: LengthPercentage,
    occ: &O,
) -> Seq<GridTrack> {
    let neg = counts.negative_implicit as int;
    let pos = counts.positive_implicit as int;
    let alen = auto_tracks.len() as int;
    let neg_offset = if alen == 0 {
        0
    } else {
        alen - (neg % alen)
    };
    let auto_n = counts.explicit - (template.len() - 1);
    let body = seq![GridTrack::gutter_spec(gap)] + implicit_section(
        auto_tracks,
        neg_offset,
        neg,
        gap,
    ) + (if counts.explicit > 0 {
        explicit_section(template, 0, auto_n, neg, gap, occ)
    } else {
        Seq::empty()
    }) + implicit_section(auto_tracks, 0, pos, gap);
    let head_collapsed = body.update(0, body[0].collapse_spec());
    head_collapsed.update(
        head_collapsed.len() - 1,
        head_collapsed[head_collapsed.len() - 1].collapse_spec(),
    )
}

/// Append `count` implicit tracks to `tracks`, each followed by a gutter
/// sized to `gap`, sized by cycling `auto_tracks` starting at `offset` (or
/// fully automatic where `auto_tracks` is empty).
pub fn create_implicit_tracks(
    tracks: &mut Vec<GridTrack>,
    count: u16,
    auto_tracks: &Vec<NonRepeatedTrackSizingFunction>,
    offset: usize,
    gap: LengthPercentage,
)
    ensures
        final(tracks)@ == old(tracks)@ + implicit_section(
            auto_tracks@,
            offset as int,
            count as int,
            gap,
        ),
{
    let alen = auto_tracks.len();
    if alen == 0 {
        let mut j: u16 = 0;
        while j < count
            invariant
                0 <= j <= count,
                auto_tracks@.len() == 0,
                tracks@ == old(tracks)@ + implicit_section(
                    auto_tracks@,
                    offset as int,
                    j as int,
                    gap,
                ),
            decreases count - j,
        {
            let def = NonRepeatedTrackSizingFunction::auto();
            tracks.push(GridTrack::new(def.min, def.max));
            tracks.push(GridTrack::gutter(gap));
            proof {
                assert(tracks@ =~= old(tracks)@ + implicit_section(
                    auto_tracks@,
                    offset as int,
                    j as int + 1,
                    gap,
                ));
            }
            j += 1;
        }
    } else {
        let mut cursor: usize = offset % alen;
        let mut j: u16 = 0;
        while j < count
            invariant
                0 <= j <= count,
                alen == auto_tracks@.len(),
                alen > 0,
                cursor < alen,
                cursor as int == (offset as int + j as int) % (alen as int),
                tracks@ == old(tracks)@ + implicit_section(
                    auto_tracks@,
                    offset as int,
                    j as int,
                    gap,
                ),
            decreases count - j,
        {
            let def = auto_tracks[cursor];
            tracks.push(GridTrack::new(def.min, def.max));
            tracks.push(GridTrack::gutter(gap));
            proof {
                assert(def == implicit_track_def(auto_tracks@, offset as int + j as int));
                assert(tracks@ =~= old(tracks)@ + implicit_section(
                    auto_tracks@,
                    offset as int,
                    j as int + 1,
                    gap,
                ));
            }
            cursor += 1;
            if cursor == alen {
                cursor = 0;
            }
            proof {
                let a = alen as int;
                let prev = (offset as int + j as int) % a;
                lemma_add_mod_noop(offset as int + j as int, 1, a);
                if a == 1 {
                    lemma_mod_self_0(a);
                    lemma_small_mod(0nat, 1nat);
                } else {
                    lemma_small_mod(1nat, a as nat);
                    if prev + 1 == a {
                        lemma_mod_self_0(a);
                    } else {
                        lemma_small_mod((prev + 1) as nat, a as nat);
                    }
                }
                assert(cursor as int == (offset as int + j as int + 1) % a);
            }
            j += 1;
        }
    }
}

/// An implicit section holds two cells for each of its tracks.
pub proof fn lemma_implicit_section_len(
    auto_tracks: Seq<NonRepeatedTrackSizingFunction>,
    offset: int,
    count: int,
    gap: LengthPercentage,
)
    requires
        count >= 0,
    ensures
        implicit_section(auto_tracks, offset, count, gap).len() == 2 * count,
    decreases count,
{
    if count > 0 {
        lemma_implicit_section_len(auto_tracks, offset, count - 1, gap);
    }
}

/// A repeat section holds two cells for each of its tracks, and none where
/// its definition list is empty.
pub proof fn lemma_repeat_section_len<O: TrackOccupancy>(
    defs: Seq<NonRepeatedTrackSizingFunction>,
    n: int,
    base: int,
    gap: LengthPercentage,
    collapse_unoccupied: bool,
    occ: &O,
)
    ensures
        repeat_section(defs, n, base, gap, collapse_unoccupied, occ).len() == 2 * (
        if defs.len() == 0 || n < 0 {
            0
        } else {
            n
        }),
    decreases n,
{
    if n > 0 && defs.len() > 0 {
        lemma_repeat_section_len(defs, n - 1, base, gap, collapse_unoccupied, occ);
    }
}

/// An entry section holds two cells for each track the entry materializes.
pub proof fn lemma_entry_section_len<O: TrackOccupancy>(
    entry: TrackSizingFunction,
    auto_n: int,
    base: int,
    gap: LengthPercentage,
    occ: &O,
)
    ensures
        entry_section(entry, auto_n, base, gap, occ).len() == 2 * entry_emitted_count(
            entry,
            auto_n,
        ),
        entry_emitted_count(entry, auto_n) >= 0,
{
    match entry {
        TrackSizingFunction::Single(_) => {
            assert(entry_section(entry, auto_n, base, gap, occ).len() == 2);
        },
        TrackSizingFunction::Repeat(GridTrackRepetition::Count(c), l) => {
            lemma_repeat_section_len(l@, c * l@.len(), base, gap, false, occ);
            lemma_mul_nonnegative(c as int, l@.len() as int);
            lemma_mul_basics_2(c as int);
        },
        TrackSizingFunction::Repeat(GridTrackRepetition::AutoFill, l) => {
            lemma_repeat_section_len(l@, auto_n, base, gap, false, occ);
        },
        TrackSizingFunction::Repeat(GridTrackRepetition::AutoFit, l) => {
            lemma_repeat_section_len(l@, auto_n, base, gap, true, occ);
        },
    }
}

/// An explicit section holds two cells for each track its entries
/// materialize.
pub proof fn lemma_explicit_section_len<O: TrackOccupancy>(
    template: Seq<TrackSizingFunction>,
    i: int,
    auto_n: int,
    base: int,
    gap: LengthPercentage,
    occ: &O,
)
    ensures
        explicit_section(template, i, auto_n, base, gap, occ).len() == 2 * emitted_total_from(
            template,
            i,
            auto_n,
        ),
        emitted_total_from(template, i, auto_n) >= 0,
    decreases template.len() - i,
{
    if 0 <= i < template.len() {
        lemma_entry_section_len(template[i], auto_n, base, gap, occ);
        lemma_explicit_section_len(
            template,
            i + 1,
            auto_n,
            base + entry_emitted_count(template[i], auto_n),
            gap,
            occ,
        );
    }
}

/// Append the tracks of a fixed-count repetition: `count` passes over `defs`,
/// each track followed by a gutter sized to `gap`, none collapsed. `base` is
/// the running track index at which the section starts.
fn push_count_repeated_tracks<O: TrackOccupancy>(
    tracks: &mut Vec<GridTrack>,
    defs: &Vec<NonRepeatedTrackSizingFunction>,
    count: u16,
    gap: LengthPercentage,
    occ: &O,
    Ghost(base): Ghost<int>,
)
    ensures
        final(tracks)@ == old(tracks)@ + repeat_section(
            defs@,
            (count as int) * (defs@.len() as int),
            base,
            gap,
            false,
            occ,
        ),
{
    let m = defs.len();
    if m == 0 {
        proof {
            assert(tracks@ =~= old(tracks)@ + repeat_section(
                defs@,
                (count as int) * (defs@.len() as int),
                base,
                gap,
                false,
                occ,
            ));
        }
        return ;
    }
    let mut r: u16 = 0;
    while r < count
        invariant
            m == defs@.len(),
            m > 0,
            0 <= r <= count,
            tracks@ == old(tracks)@ + repeat_section(
                defs@,
                (r as int) * (m as int),
                base,
                gap,
                false,
                occ,
            ),
        decreases count - r,
    {
        let mut k: usize = 0;
        while k < m
            invariant
                m == defs@.len(),
                m > 0,
                0 <= k <= m,
                r < count,
                tracks@ == old(tracks)@ + repeat_section(
                    defs@,
                    (r as int) * (m as int) + k as int,
                    base,
                    gap,
                    false,
                    occ,
                ),
            decreases m - k,
        {
            let def = defs[k];
            tracks.push(GridTrack::new(def.min, def.max));
            tracks.push(GridTrack::gutter(gap));
            proof {
                let j = (r as int) * (m as int) + k as int;
                lemma_mul_nonnegative(r as int, m as int);
                lemma_mod_multiples_vanish(r as int, k as int, m as int);
                lemma_small_mod(k as nat, m as nat);
                assert(defs@[j % (m as int)] == defs@[k as int]);
                assert(tracks@ =~= old(tracks)@ + repeat_section(
                    defs@,
                    j + 1,
                    base,
                    gap,
                    false,
                    occ,
                ));
            }
            k += 1;
        }
        proof {
            lemma_mul_is_distributive_add_other_way(m as int, r as int, 1);
            lemma_mul_basics_2(m as int);
            assert((r as int) * (m as int) + m as int == (r as int + 1) * (m as int));
        }
        r += 1;
    }
}

/// Append the tracks of an auto-repetition: `total` tracks cycling `defs`,
/// each followed by a gutter sized to `gap`. Where `collapse_unoccupied`
/// holds, a track whose index holds no item is collapsed with its gutter.
/// `base` is the running track index at which the section starts, which the
/// buffer's length must reflect.
fn push_auto_repeated_tracks<O: TrackOccupancy>(
    tracks: &mut Vec<GridTrack>,
    defs: &Vec<NonRepeatedTrackSizingFunction>,
    total: usize,
    collapse_unoccupied: bool,
    gap: LengthPercentage,
    occ: &O,
    Ghost(base): Ghost<int>,
)
    requires
        defs@.len() > 0,
        base >= 0,
        old(tracks)@.len() == 1 + 2 * base,
    ensures
        final(tracks)@ == old(tracks)@ + repeat_section(
            defs@,
            total as int,
            base,
            gap,
            collapse_unoccupied,
            occ,
        ),
{
    let m = defs.len();
    let mut j: usize = 0;
    while j < total
        invariant
            m == defs@.len(),
            m > 0,
            0 <= j <= total,
            base >= 0,
            tracks@.len() == 1 + 2 * base + 2 * j,
            tracks@ == old(tracks)@ + repeat_section(
                defs@,
                j as int,
                base,
                gap,
                collapse_unoccupied,
                occ,
            ),
        decreases total - j,
    {
        let def = defs[j % m];
        let len = tracks.len();
        let current: usize = (len - 1) / 2;
        proof {
            assert(len - 1 == 2 * (base + j as int));
            lemma_div_multiples_vanish(base + j as int, 2);
            assert(current as int == base + j as int);
        }
        let occupied = occ.has_items(current);
        let mut track = GridTrack::new(def.min, def.max);
        let mut gut = GridTrack::gutter(gap);
        if collapse_unoccupied && !occupied {
            track.collapse();
            gut.collapse();
        }
        tracks.push(track);
        tracks.push(gut);
        proof {
            assert(tracks@ =~= old(tracks)@ + repeat_section(
                defs@,
                j as int + 1,
                base,
                gap,
                collapse_unoccupied,
                occ,
            ));
        }
        j += 1;
    }
}

/// Fill `tracks` with the materialized track list of one axis: a leading
/// gutter, the negative implicit tracks, the explicit tracks of
/// `track_template` where `counts.explicit` is positive, the positive
/// implicit tracks — each track followed by a gutter sized to `gap` — and the
/// boundary cells collapsed.
///
/// The buffer is cleared and refilled in place, so a caller can reuse one
/// buffer across layout passes. The counts are trusted as given: a zero
/// explicit count makes the template ignored, as the count resolver yields
/// zero for invalid templates. An auto-repetition cycles its track list
/// `counts.explicit` minus one track per other template entry times, so with
/// an auto-repetition present the template must not hold more entries than
/// one more than the explicit count.
pub fn initialize_grid_tracks<O: TrackOccupancy>(
    tracks: &mut Vec<GridTrack>,
    counts: TrackCounts,
    track_template: &Vec<TrackSizingFunction>,
    auto_tracks: &Vec<NonRepeatedTrackSizingFunction>,
    gap: LengthPercentage,
    track_has_items: &O,
)
    requires
        counts.explicit > 0 && template_has_auto_repetition(track_template@)
            ==> track_template@.len() <= counts.explicit + 1,
    ensures
        final(tracks)@ == materialized_track_list(
            counts,
            track_template@,
            auto_tracks@,
            gap,
            track_has_items,
        ),
        final(tracks)@.len() >= 1,
{
    let ghost t = track_template@;
    let ghost auto_n: int = counts.explicit - (t.len() - 1);
    let neg = counts.negative_implicit;

    // Clear the buffer (this may be a re-layout), reserve space for every
    // cell ahead of time, and push the leading gutter.
    tracks.clear();
    tracks.reserve(counts.len() * 2 + 1);
    tracks.push(GridTrack::gutter(gap));
    proof {
        assert(tracks@ =~= seq![GridTrack::gutter_spec(gap)]);
    }

    // Negative implicit tracks: start the cycle at an offset so that the
    // track nearest the explicit grid is the last entry of the cycle.
    let alen = auto_tracks.len();
    let neg_offset: usize = if alen == 0 {
        0
    } else {
        alen - (neg as usize % alen)
    };
    create_implicit_tracks(tracks, neg, auto_tracks, neg_offset, gap);
    let ghost pre_explicit = tracks@;
    proof {
        lemma_implicit_section_len(auto_tracks@, neg_offset as int, neg as int, gap);
        assert(pre_explicit.len() == 1 + 2 * (neg as int));
    }

    // Explicit tracks. The count is checked rather than the template being
    // non-empty, because a zero count can come from an invalid template, in
    // which case the template is ignored.
    if counts.explicit > 0 {
        let n = track_template.len();
        let ghost full_explicit = explicit_section(
            t,
            0,
            auto_n,
            neg as int,
            gap,
            track_has_items,
        );
        let ghost mut base: int = neg as int;
        let mut i: usize = 0;
        while i < n
            invariant
                t == track_template@,
                n == t.len(),
                0 <= i <= n,
                counts.explicit > 0,
                template_has_auto_repetition(t) ==> n <= counts.explicit + 1,
                auto_n == counts.explicit - (t.len() - 1),
                base >= 0,
                tracks@.len() == 1 + 2 * base,
                tracks@ + explicit_section(t, i as int, auto_n, base, gap, track_has_items)
                    == pre_explicit + full_explicit,
            decreases n - i,
        {
            let ghost prev = tracks@;
            let ghost cnt = entry_emitted_count(t[i as int], auto_n);
            proof {
                lemma_entry_section_len(t[i as int], auto_n, base, gap, track_has_items);
            }
            match &track_template[i] {
                TrackSizingFunction::Single(sf) => {
                    tracks.push(GridTrack::new(sf.min, sf.max));
                    tracks.push(GridTrack::gutter(gap));
                    proof {
                        assert(tracks@ =~= prev + entry_section(
                            t[i as int],
                            auto_n,
                            base,
                            gap,
                            track_has_items,
                        ));
                    }
                },
                TrackSizingFunction::Repeat(kind, l) => match kind {
                    GridTrackRepetition::Count(c) => {
                        push_count_repeated_tracks(
                            tracks,
                            l,
                            *c,
                            gap,
                            track_has_items,
                            Ghost(base),
                        );
                    },
                    GridTrackRepetition::AutoFill => {
                        proof {
                            assert(template_has_auto_repetition(t));
                        }
                        if l.len() > 0 {
                            let total: usize = counts.explicit as usize - (n - 1);
                            push_auto_repeated_tracks(
                                tracks,
                                l,
                                total,
                                false,
                                gap,
                                track_has_items,
                                Ghost(base),
                            );
                        } else {
                            proof {
                                assert(tracks@ =~= prev + entry_section(
                                    t[i as int],
                                    auto_n,
                                    base,
                                    gap,
                                    track_has_items,
                                ));
                            }
                        }
                    },
                    GridTrackRepetition::AutoFit => {
                        proof {
                            assert(template_has_auto_repetition(t));
                        }
                        if l.len() > 0 {
                            let total: usize = counts.explicit as usize - (n - 1);
                            push_auto_repeated_tracks(
                                tracks,
                                l,
                                total,
                                true,
                                gap,
                                track_has_items,
                                Ghost(base),
                            );
                        } else {
                            proof {
                                assert(tracks@ =~= prev + entry_section(
                                    t[i as int],
                                    auto_n,
                                    base,
                                    gap,
                                    track_has_items,
                                ));
                            }
                        }
                    },
                },
            }
            proof {
                assert(tracks@ == prev + entry_section(
                    t[i as int],
                    auto_n,
                    base,
                    gap,
                    track_has_items,
                ));
                assert(tracks@ + explicit_section(t, i as int + 1, auto_n, base + cnt, gap, track_has_items)
                    =~= pre_explicit + full_explicit);
                base = base + cnt;
            }
            i += 1;
        }
        proof {
            assert(tracks@ =~= pre_explicit + full_explicit);
        }
    }

    // Positive implicit tracks cycle from the start of the definitions.
    create_implicit_tracks(tracks, counts.positive_implicit, auto_tracks, 0, gap);
    proof {
        lemma_implicit_section_len(
            auto_tracks@,
            0,
            counts.positive_implicit as int,
            gap,
        );
        assert(tracks@.len() >= 1);
    }

    // The first and last cells stand for the grid boundary, not real gutters:
    // they are collapsed whatever gap was requested.
    let last = tracks.len() - 1;
    let mut head = tracks[0];
    head.collapse();
    tracks.set(0, head);
    let mut tail = tracks[last];
    tail.collapse();
    tracks.set(last, tail);
    proof {
        assert(tracks@ =~= materialized_track_list(
            counts,
            track_template@,
            auto_tracks@,
            gap,
            track_has_items,
        ));
    }
}

} // verus!
