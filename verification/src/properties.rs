//! Stated and proved properties of the materialized track list.
//!
//! The lemmas here state the shape of the list [`materialized_track_list`]
//! describes — its length, its collapsed boundary cells, and the collapse
//! policy of auto-repeated tracks — for every input.
use crate::explicit_grid::{
    auto_repetition_count, auto_repetition_count_from, entry_fixed_count, entry_has_empty_repetition,
    fixed_track_count, fixed_track_count_from, has_empty_repetition,
};
use crate::sizing::{
    LengthPercentage, MaxTrackSizingFunction, MinTrackSizingFunction,
    NonRepeatedTrackSizingFunction,
};
use crate::template::{GridTrackRepetition, TrackCounts, TrackSizingFunction};
use crate::tracks::{
    emitted_total, emitted_total_from, entry_emitted_count, entry_section, explicit_section,
    implicit_section, implicit_track_def, lemma_entry_section_len, lemma_explicit_section_len,
    lemma_implicit_section_len, lemma_repeat_section_len, materialized_track_list, repeat_section,
    GridTrack, GridTrackKind, TrackOccupancy,
};
use vstd::arithmetic::mul::{lemma_mul_is_distributive_add_other_way, lemma_mul_nonnegative};
use vstd::prelude::*;

verus! {

/// Whether the explicit track `j` (counting from the start of the explicit
/// grid) of the materialized list originates from an `auto-fit` repetition,
/// where `auto_n` is the track count assigned to an auto-repetition entry and
/// the entries before index `i` are already consumed.
pub open spec fn explicit_slot_is_auto_fit(
    template: Seq<TrackSizingFunction>,
    i: int,
    auto_n: int,
    j: int,
) -> bool
    decreases template.len() - i,
{
    if i < 0 || i >= template.len() || j < 0 {
        false
    } else {
        let c = entry_emitted_count(template[i], auto_n);
        if j < c {
            match template[i] {
                TrackSizingFunction::Repeat(GridTrackRepetition::AutoFit, _) => true,
                _ => false,
            }
        } else {
            explicit_slot_is_auto_fit(template, i + 1, auto_n, j - c)
        }
    }
}

/// The cells of a repeat section: track `j` carries the `j`-th cycled
/// definition and is collapsed, together with its gutter, exactly where the
/// section collapses unoccupied tracks and track index `base + j` holds no
/// item.
pub proof fn lemma_repeat_section_index<O: TrackOccupancy>(
    defs: Seq<NonRepeatedTrackSizingFunction>,
    n: int,
    base: int,
    gap: LengthPercentage,
    collapse_unoccupied: bool,
    occ: &O,
    j: int,
)
    requires
        defs.len() > 0,
        0 <= j < n,
    ensures
        ({
            let s = repeat_section(defs, n, base, gap, collapse_unoccupied, occ);
            let def = defs[j % (defs.len() as int)];
            let track = GridTrack::new_spec(def.min, def.max);
            let gut = GridTrack::gutter_spec(gap);
            let coll = collapse_unoccupied && !occ.has_items_spec(base + j);
            &&& s[2 * j] == (if coll {
                track.collapse_spec()
            } else {
                track
            })
            &&& s[2 * j + 1] == (if coll {
                gut.collapse_spec()
            } else {
                gut
            })
        }),
    decreases n,
{
    lemma_repeat_section_len(defs, n - 1, base, gap, collapse_unoccupied, occ);
    if j < n - 1 {
        lemma_repeat_section_index(defs, n - 1, base, gap, collapse_unoccupied, occ, j);
    }
}

/// The cells of an entry section: track `j` is a real track, collapsed
/// together with its gutter exactly where the entry is an `auto-fit`
/// repetition and track index `base + j` holds no item.
pub proof fn lemma_entry_section_index<O: TrackOccupancy>(
    entry: TrackSizingFunction,
    auto_n: int,
    base: int,
    gap: LengthPercentage,
    occ: &O,
    j: int,
)
    requires
        0 <= j < entry_emitted_count(entry, auto_n),
    ensures
        ({
            let s = entry_section(entry, auto_n, base, gap, occ);
            let is_fit = match entry {
                TrackSizingFunction::Repeat(GridTrackRepetition::AutoFit, _) => true,
                _ => false,
            };
            let coll = is_fit && !occ.has_items_spec(base + j);
            &&& s[2 * j].kind == GridTrackKind::Track
            &&& s[2 * j].collapsed == coll
            &&& s[2 * j + 1].kind == GridTrackKind::Gutter
            &&& s[2 * j + 1].collapsed == coll
        }),
{
    match entry {
        TrackSizingFunction::Single(_) => {},
        TrackSizingFunction::Repeat(GridTrackRepetition::Count(c), l) => {
            if l@.len() == 0 {
                lemma_mul_nonnegative(c as int, l@.len() as int);
                assert(false);
            }
            lemma_repeat_section_index(l@, c * l@.len(), base, gap, false, occ, j);
        },
        TrackSizingFunction::Repeat(GridTrackRepetition::AutoFill, l) => {
            lemma_repeat_section_index(l@, auto_n, base, gap, false, occ, j);
        },
        TrackSizingFunction::Repeat(GridTrackRepetition::AutoFit, l) => {
            lemma_repeat_section_index(l@, auto_n, base, gap, true, occ, j);
        },
    }
}

/// The cells of an explicit section: track `j` is a real track, collapsed
/// together with its gutter exactly where it originates from an `auto-fit`
/// repetition and track index `base + j` holds no item.
pub proof fn lemma_explicit_section_index<O: TrackOccupancy>(
    template: Seq<TrackSizingFunction>,
    i: int,
    auto_n: int,
    base: int,
    gap: LengthPercentage,
    occ: &O,
    j: int,
)
    requires
        0 <= i <= template.len(),
        0 <= j < emitted_total_from(template, i, auto_n),
    ensures
        ({
            let s = explicit_section(template, i, auto_n, base, gap, occ);
            let coll = explicit_slot_is_auto_fit(template, i, auto_n, j) && !occ.has_items_spec(
                base + j,
            );
            &&& s[2 * j].kind == GridTrackKind::Track
            &&& s[2 * j].collapsed == coll
            &&& s[2 * j + 1].kind == GridTrackKind::Gutter
            &&& s[2 * j + 1].collapsed == coll
        }),
    decreases template.len() - i,
{
    let c = entry_emitted_count(template[i], auto_n);
    lemma_entry_section_len(template[i], auto_n, base, gap, occ);
    lemma_explicit_section_len(template, i + 1, auto_n, base + c, gap, occ);
    if j < c {
        lemma_entry_section_index(template[i], auto_n, base, gap, occ, j);
    } else {
        lemma_explicit_section_index(template, i + 1, auto_n, base + c, gap, occ, j - c);
    }
}

/// The cells of an implicit section: track `j` carries the cycled definition
/// at `offset + j` and neither it nor its gutter is ever collapsed.
pub proof fn lemma_implicit_section_index(
    auto_tracks: Seq<NonRepeatedTrackSizingFunction>,
    offset: int,
    count: int,
    gap: LengthPercentage,
    j: int,
)
    requires
        0 <= j < count,
    ensures
        ({
            let s = implicit_section(auto_tracks, offset, count, gap);
            let def = implicit_track_def(auto_tracks, offset + j);
            &&& s[2 * j] == GridTrack::new_spec(def.min, def.max)
            &&& s[2 * j + 1] == GridTrack::gutter_spec(gap)
        }),
    decreases count,
{
    lemma_implicit_section_len(auto_tracks, offset, count - 1, gap);
    if j < count - 1 {
        lemma_implicit_section_index(auto_tracks, offset, count - 1, gap, j);
    }
}

/// The number of tracks a template materializes decomposes into its
/// non-auto-repeated tracks plus `auto_n` tracks per auto-repetition entry,
/// provided no auto-repetition entry has an empty list and `auto_n` is
/// non-negative wherever an auto-repetition occurs.
pub proof fn lemma_emitted_total_decomposition(
    template: Seq<TrackSizingFunction>,
    i: int,
    auto_n: int,
)
    requires
        0 <= i <= template.len(),
        forall|k: int|
            i <= k < template.len() && template[k].is_auto_repetition_spec() ==> (
            !entry_has_empty_repetition(template[k]) && auto_n >= 0),
    ensures
        emitted_total_from(template, i, auto_n) == fixed_track_count_from(template, i)
            + auto_repetition_count_from(template, i) * auto_n,
    decreases template.len() - i,
{
    if i < template.len() {
        lemma_emitted_total_decomposition(template, i + 1, auto_n);
        let is_auto: int = if template[i].is_auto_repetition_spec() {
            1
        } else {
            0
        };
        assert(entry_emitted_count(template[i], auto_n) == entry_fixed_count(template[i])
            + is_auto * auto_n) by {
            if template[i].is_auto_repetition_spec() {
                vstd::arithmetic::mul::lemma_mul_basics_4(auto_n);
            }
        }
        lemma_mul_is_distributive_add_other_way(
            auto_n,
            is_auto,
            auto_repetition_count_from(template, i + 1),
        );
    } else {
        assert(auto_repetition_count_from(template, i) * auto_n == 0);
    }
}

/// Whether `explicit` is a count the explicit-track-count resolver can have
/// produced for this template: zero is always possible (an invalid template
/// degrades to it); otherwise, with no auto-repetition the count is the
/// template's non-auto-repeated track count, and with one auto-repetition
/// every other entry declares exactly one track and the count covers them.
pub open spec fn counts_match_template(template: Seq<TrackSizingFunction>, explicit: int) -> bool {
    if explicit == 0 {
        true
    } else if auto_repetition_count(template) == 0 {
        explicit == fixed_track_count(template)
    } else {
        &&& auto_repetition_count(template) == 1
        &&& !has_empty_repetition(template)
        &&& fixed_track_count(template) == template.len() - 1
        &&& explicit >= template.len() - 1
    }
}

/// The materialized list always holds two cells per track plus the leading
/// gutter; its first and last cells are collapsed gutters of fixed zero size
/// whatever gap was requested.
pub proof fn lemma_materialized_shape<O: TrackOccupancy>(
    counts: TrackCounts,
    template: Seq<TrackSizingFunction>,
    auto_tracks: Seq<NonRepeatedTrackSizingFunction>,
    gap: LengthPercentage,
    occ: &O,
)
    ensures
        ({
            let list = materialized_track_list(counts, template, auto_tracks, gap, occ);
            let auto_n = counts.explicit - (template.len() - 1);
            let tracks_emitted = if counts.explicit > 0 {
                emitted_total(template, auto_n)
            } else {
                0
            };
            &&& list.len() == 1 + 2 * (counts.negative_implicit + tracks_emitted
                + counts.positive_implicit)
            &&& list.len() % 2 == 1
            &&& list[0] == GridTrack::gutter_spec(gap).collapse_spec()
            &&& list[list.len() - 1].kind == GridTrackKind::Gutter
            &&& list[list.len() - 1].collapsed
            &&& list[list.len() - 1].min_track_sizing_function
                == MinTrackSizingFunction::Fixed(LengthPercentage::Length(0))
            &&& list[list.len() - 1].max_track_sizing_function
                == MaxTrackSizingFunction::Fixed(LengthPercentage::Length(0))
        }),
{
    let neg = counts.negative_implicit as int;
    let pos = counts.positive_implicit as int;
    let alen = auto_tracks.len() as int;
    let neg_offset = if alen == 0 {
        0
    } else {
        alen - (neg % alen)
    };
    let auto_n = counts.explicit - (template.len() - 1);
    let exp: Seq<GridTrack> = if counts.explicit > 0 {
        explicit_section(template, 0, auto_n, neg, gap, occ)
    } else {
        Seq::empty()
    };
    let body = seq![GridTrack::gutter_spec(gap)] + implicit_section(
        auto_tracks,
        neg_offset,
        neg,
        gap,
    ) + exp + implicit_section(auto_tracks, 0, pos, gap);
    lemma_implicit_section_len(auto_tracks, neg_offset, neg, gap);
    lemma_implicit_section_len(auto_tracks, 0, pos, gap);
    lemma_explicit_section_len(template, 0, auto_n, neg, gap, occ);
    let tracks_emitted = if counts.explicit > 0 {
        emitted_total(template, auto_n)
    } else {
        0
    };
    assert(body.len() == 1 + 2 * (neg + tracks_emitted + pos));
    let last = body.len() - 1;
    if pos > 0 {
        lemma_implicit_section_index(auto_tracks, 0, pos, gap, pos - 1);
        assert(body[last] == implicit_section(auto_tracks, 0, pos, gap)[2 * (pos - 1) + 1]);
    } else if tracks_emitted > 0 {
        lemma_explicit_section_index(template, 0, auto_n, neg, gap, occ, tracks_emitted - 1);
        assert(body[last] == exp[2 * (tracks_emitted - 1) + 1]);
    } else if neg > 0 {
        lemma_implicit_section_index(auto_tracks, neg_offset, neg, gap, neg - 1);
        assert(body[last] == implicit_section(auto_tracks, neg_offset, neg, gap)[2 * (neg - 1)
            + 1]);
    } else {
        assert(body[last] == GridTrack::gutter_spec(gap));
    }
    assert(body[last].kind == GridTrackKind::Gutter);
}

/// The materialized list holds exactly two cells per counted track, plus the
/// leading gutter, whenever the explicit count matches the template as the
/// explicit-track-count resolver produces it.
pub proof fn lemma_materialized_length<O: TrackOccupancy>(
    counts: TrackCounts,
    template: Seq<TrackSizingFunction>,
    auto_tracks: Seq<NonRepeatedTrackSizingFunction>,
    gap: LengthPercentage,
    occ: &O,
)
    requires
        counts_match_template(template, counts.explicit as int),
    ensures
        materialized_track_list(counts, template, auto_tracks, gap, occ).len() == 2
            * counts.total_spec() + 1,
{
    lemma_materialized_shape(counts, template, auto_tracks, gap, occ);
    let auto_n = counts.explicit - (template.len() - 1);
    if counts.explicit > 0 {
        assert forall|k: int|
            0 <= k < template.len() && template[k].is_auto_repetition_spec() implies (
        !entry_has_empty_repetition(template[k]) && auto_n >= 0) by {
            if auto_repetition_count(template) == 0 {
                lemma_auto_entry_counted(template, 0, k);
                assert(false);
            }
        }
        lemma_emitted_total_decomposition(template, 0, auto_n);
        if auto_repetition_count(template) == 0 {
            assert(auto_repetition_count(template) * auto_n == 0);
        } else {
            vstd::arithmetic::mul::lemma_mul_basics_4(auto_n);
        }
    }
}

/// An auto-repetition entry at index `k` makes the auto-repetition count of
/// the entries from `i` on positive.
pub proof fn lemma_auto_entry_counted(template: Seq<TrackSizingFunction>, i: int, k: int)
    requires
        0 <= i <= k < template.len(),
        template[k].is_auto_repetition_spec(),
    ensures
        auto_repetition_count_from(template, i) >= 1,
    decreases k - i,
{
    crate::explicit_grid::lemma_auto_repetition_count_from_nonneg(template, i + 1);
    if i < k {
        lemma_auto_entry_counted(template, i + 1, k);
    }
}

/// The collapse policy of the materialized list: the explicit track `j`
/// (counting from the start of the explicit grid) is collapsed exactly where
/// it originates from an `auto-fit` repetition and its track index holds no
/// item. A track of an `auto-fill` repetition, a single or fixed-count
/// template entry is never collapsed.
pub proof fn lemma_auto_fit_collapse<O: TrackOccupancy>(
    counts: TrackCounts,
    template: Seq<TrackSizingFunction>,
    auto_tracks: Seq<NonRepeatedTrackSizingFunction>,
    gap: LengthPercentage,
    occ: &O,
    j: int,
)
    requires
        counts.explicit > 0,
        0 <= j < emitted_total(template, counts.explicit - (template.len() - 1)),
    ensures
        ({
            let list = materialized_track_list(counts, template, auto_tracks, gap, occ);
            let auto_n = counts.explicit - (template.len() - 1);
            let position = 1 + 2 * (counts.negative_implicit + j);
            &&& 0 < position < list.len() - 1
            &&& list[position].kind == GridTrackKind::Track
            &&& list[position].collapsed == (explicit_slot_is_auto_fit(template, 0, auto_n, j)
                && !occ.has_items_spec(counts.negative_implicit + j))
        }),
{
    let neg = counts.negative_implicit as int;
    let pos = counts.positive_implicit as int;
    let alen = auto_tracks.len() as int;
    let neg_offset = if alen == 0 {
        0
    } else {
        alen - (neg % alen)
    };
    let auto_n = counts.explicit - (template.len() - 1);
    let exp = explicit_section(template, 0, auto_n, neg, gap, occ);
    let body = seq![GridTrack::gutter_spec(gap)] + implicit_section(
        auto_tracks,
        neg_offset,
        neg,
        gap,
    ) + exp + implicit_section(auto_tracks, 0, pos, gap);
    lemma_implicit_section_len(auto_tracks, neg_offset, neg, gap);
    lemma_implicit_section_len(auto_tracks, 0, pos, gap);
    lemma_explicit_section_len(template, 0, auto_n, neg, gap, occ);
    let position = 1 + 2 * (neg + j);
    assert(body[position] == exp[2 * j]);
    lemma_explicit_section_index(template, 0, auto_n, neg, gap, occ, j);
    assert(0 < position < body.len() - 1);
}

} // verus!
