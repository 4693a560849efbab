//! Resolving a track template to the number of explicit tracks in one axis.
//!
//! A template is an ordered list of [`TrackSizingFunction`] entries. Its
//! explicit track count is the number of tracks its single entries and
//! fixed-count repetitions declare, plus the tracks of at most one
//! `auto-fill`/`auto-fit` repetition, whose repetition count is resolved
//! against the container's available space. A malformed template (a
//! repetition with an empty track list, several auto-repetitions, or an
//! auto-repetition mixed with tracks that have no fixed component) is not
//! rejected but degraded: it contributes zero explicit tracks.
use crate::geometry::{AbsoluteAxis, Size};
use crate::sizing::{
    lemma_definite_value_bounds, lemma_resolved_bounds, CalcResolver, LengthPercentage,
    NonRepeatedTrackSizingFunction, RESOLVED_BOUND,
};
use crate::template::{GridContainerStyle, GridTrackRepetition, TrackSizingFunction};
use vstd::arithmetic::div_mod::{
    lemma_div_is_ordered, lemma_div_nonincreasing, lemma_fundamental_div_mod,
};
use vstd::arithmetic::mul::{
    lemma_mul_inequality, lemma_mul_is_associative, lemma_mul_is_commutative,
    lemma_mul_nonnegative, lemma_mul_upper_bound,
};
use vstd::prelude::*;

verus! {

/// The number of tracks one template entry declares outside of
/// auto-repetitions: one for a single track, the repetition count times the
/// list length for a fixed-count repetition, zero for an auto-repetition.
pub open spec fn entry_fixed_count(entry: TrackSizingFunction) -> int {
    match entry {
        TrackSizingFunction::Single(_) => 1,
        TrackSizingFunction::Repeat(GridTrackRepetition::Count(n), l) => n * l@.len(),
        TrackSizingFunction::Repeat(_, _) => 0,
    }
}

/// The number of non-auto-repeated tracks the template entries from index `i`
/// on declare.
pub open spec fn fixed_track_count_from(template: Seq<TrackSizingFunction>, i: int) -> int
    decreases template.len() - i,
{
    if i < 0 || i >= template.len() {
        0
    } else {
        entry_fixed_count(template[i]) + fixed_track_count_from(template, i + 1)
    }
}

/// The number of non-auto-repeated tracks the template declares.
pub open spec fn fixed_track_count(template: Seq<TrackSizingFunction>) -> int {
    fixed_track_count_from(template, 0)
}

/// The number of auto-repetition entries among the template entries from
/// index `i` on.
pub open spec fn auto_repetition_count_from(template: Seq<TrackSizingFunction>, i: int) -> int
    decreases template.len() - i,
{
    if i < 0 || i >= template.len() {
        0
    } else {
        (if template[i].is_auto_repetition_spec() {
            1int
        } else {
            0int
        }) + auto_repetition_count_from(template, i + 1)
    }
}

/// The number of auto-repetition entries of the template.
pub open spec fn auto_repetition_count(template: Seq<TrackSizingFunction>) -> int {
    auto_repetition_count_from(template, 0)
}

/// Whether this entry is a repetition over an empty track list.
pub open spec fn entry_has_empty_repetition(entry: TrackSizingFunction) -> bool {
    match entry {
        TrackSizingFunction::Single(_) => false,
        TrackSizingFunction::Repeat(_, l) => l@.len() == 0,
    }
}

/// Whether any template entry is a repetition over an empty track list; such
/// a template is invalid and yields zero explicit tracks.
pub open spec fn has_empty_repetition(template: Seq<TrackSizingFunction>) -> bool {
    exists|i: int| 0 <= i < template.len() && entry_has_empty_repetition(template[i])
}

/// Whether every track this entry declares has a fixed min or max component.
pub open spec fn entry_all_fixed(entry: TrackSizingFunction) -> bool {
    match entry {
        TrackSizingFunction::Single(sf) => sf.has_fixed_component_spec(),
        TrackSizingFunction::Repeat(_, l) => forall|j: int|
            0 <= j < l@.len() ==> l@[j].has_fixed_component_spec(),
    }
}

/// A template is valid if it has no auto-repetition, or exactly one while
/// every track in the template has a fixed min or max component.
pub open spec fn template_is_valid(template: Seq<TrackSizingFunction>) -> bool {
    ||| auto_repetition_count(template) == 0
    ||| (auto_repetition_count(template) == 1 && forall|i: int|
        0 <= i < template.len() ==> entry_all_fixed(template[i]))
}

/// The track list of the first auto-repetition entry at index `i` or later,
/// or the empty sequence where there is none.
pub open spec fn auto_repeat_tracks_from(template: Seq<TrackSizingFunction>, i: int) -> Seq<
    NonRepeatedTrackSizingFunction,
>
    decreases template.len() - i,
{
    if i < 0 || i >= template.len() {
        Seq::empty()
    } else if template[i].is_auto_repetition_spec() {
        match template[i] {
            TrackSizingFunction::Repeat(_, l) => l@,
            TrackSizingFunction::Single(_) => Seq::empty(),
        }
    } else {
        auto_repeat_tracks_from(template, i + 1)
    }
}

/// The track list of the template's first auto-repetition entry.
pub open spec fn auto_repeat_tracks(template: Seq<TrackSizingFunction>) -> Seq<
    NonRepeatedTrackSizingFunction,
> {
    auto_repeat_tracks_from(template, 0)
}

/// The summed definite value of the tracks of `list` from index `i` on,
/// against the reference size `basis`.
pub open spec fn list_definite_space_from<C: CalcResolver>(
    list: Seq<NonRepeatedTrackSizingFunction>,
    i: int,
    basis: u32,
    calc: &C,
) -> int
    decreases list.len() - i,
{
    if i < 0 || i >= list.len() {
        0
    } else {
        list[i].definite_value_spec(basis, calc) + list_definite_space_from(list, i + 1, basis, calc)
    }
}

/// The summed definite value of the tracks of `list` against `basis`.
pub open spec fn list_definite_space<C: CalcResolver>(
    list: Seq<NonRepeatedTrackSizingFunction>,
    basis: u32,
    calc: &C,
) -> int {
    list_definite_space_from(list, 0, basis, calc)
}

/// The definite space the tracks of one entry take against `basis`, counting
/// an auto-repetition as zero.
pub open spec fn entry_definite_space<C: CalcResolver>(
    entry: TrackSizingFunction,
    basis: u32,
    calc: &C,
) -> int {
    match entry {
        TrackSizingFunction::Single(sf) => sf.definite_value_spec(basis, calc),
        TrackSizingFunction::Repeat(GridTrackRepetition::Count(n), l) => list_definite_space(
            l@,
            basis,
            calc,
        ) * n,
        TrackSizingFunction::Repeat(_, _) => 0,
    }
}

/// The definite space the non-auto-repeated tracks of the template entries
/// from index `i` on take against `basis`.
pub open spec fn non_repeating_space_from<C: CalcResolver>(
    template: Seq<TrackSizingFunction>,
    i: int,
    basis: u32,
    calc: &C,
) -> int
    decreases template.len() - i,
{
    if i < 0 || i >= template.len() {
        0
    } else {
        entry_definite_space(template[i], basis, calc) + non_repeating_space_from(
            template,
            i + 1,
            basis,
            calc,
        )
    }
}

/// The definite space the template's non-auto-repeated tracks take against
/// `basis`.
pub open spec fn non_repeating_space<C: CalcResolver>(
    template: Seq<TrackSizingFunction>,
    basis: u32,
    calc: &C,
) -> int {
    non_repeating_space_from(template, 0, basis, calc)
}

/// Division rounding up; `b` must be positive.
pub open spec fn div_ceil(a: int, b: int) -> int {
    if a % b == 0 {
        a / b
    } else {
        a / b + 1
    }
}

/// Whether the container's size in this axis is governed by a definite
/// preferred or maximum size, as opposed to only a minimum size.
pub open spec fn container_size_is_maximum<C: CalcResolver>(
    style: GridContainerStyle,
    inner_size: Option<u32>,
    calc: &C,
    axis: AbsoluteAxis,
) -> bool {
    ||| style.size.spec_get_abs(axis).maybe_resolved_spec(inner_size, calc) is Some
    ||| style.max_size.spec_get_abs(axis).maybe_resolved_spec(inner_size, calc) is Some
}

/// The number of repetitions of the template's auto-repetition: one where the
/// container size is unknown or a single repetition already overflows it;
/// otherwise one more than the repetitions that fit the remaining space,
/// rounded down where the governing size is a preferred or maximum size and
/// up where it is a minimum size. A repetition whose tracks and gap resolve
/// to no space at all also yields one repetition.
pub open spec fn num_repetitions_spec<C: CalcResolver>(
    template: Seq<TrackSizingFunction>,
    inner_size: Option<u32>,
    gap: LengthPercentage,
    size_is_maximum: bool,
    calc: &C,
) -> int {
    match inner_size {
        None => 1,
        Some(b) => {
            let fixed = fixed_track_count(template);
            let rep = auto_repeat_tracks(template);
            let gap_size = gap.resolved_spec(b, calc);
            let non_rep = non_repeating_space(template, b, calc);
            let per_rep = list_definite_space(rep, b, calc);
            let gap_count = if fixed + rep.len() >= 1 {
                fixed + rep.len() - 1
            } else {
                0
            };
            let first_chunk = non_rep + per_rep + gap_size * gap_count;
            if first_chunk > b {
                1
            } else {
                let fit_space = per_rep + gap_size * rep.len();
                if fit_space <= 0 {
                    1
                } else if size_is_maximum {
                    (b - first_chunk) / fit_space + 1
                } else {
                    div_ceil(b - first_chunk, fit_space) + 1
                }
            }
        },
    }
}

/// The number of explicit tracks the template declares in `axis`: zero for an
/// empty or invalid template; otherwise the non-auto-repeated tracks plus the
/// auto-repetition's track list taken [`num_repetitions_spec`] times.
pub open spec fn explicit_track_count_spec<C: CalcResolver>(
    style: GridContainerStyle,
    template: Seq<TrackSizingFunction>,
    inner_size: Size<Option<u32>>,
    calc: &C,
    axis: AbsoluteAxis,
) -> int {
    if template.len() == 0 {
        0
    } else if has_empty_repetition(template) {
        0
    } else if !template_is_valid(template) {
        0
    } else if auto_repetition_count(template) == 0 {
        fixed_track_count(template)
    } else {
        let inner = inner_size.spec_get_abs(axis);
        let gap = style.gap.spec_get_abs(axis);
        let size_is_maximum = container_size_is_maximum(style, inner, calc, axis);
        fixed_track_count(template) + auto_repeat_tracks(template).len() * num_repetitions_spec(
            template,
            inner,
            gap,
            size_is_maximum,
            calc,
        )
    }
}

/// Every entry declares a non-negative number of non-auto-repeated tracks.
pub proof fn lemma_entry_fixed_count_nonneg(entry: TrackSizingFunction)
    ensures
        0 <= entry_fixed_count(entry),
{
    match entry {
        TrackSizingFunction::Repeat(GridTrackRepetition::Count(n), l) => {
            lemma_mul_nonnegative(n as int, l@.len() as int);
        },
        _ => {},
    }
}

/// Non-auto-repeated track counts are non-negative.
pub proof fn lemma_fixed_track_count_from_nonneg(template: Seq<TrackSizingFunction>, i: int)
    ensures
        0 <= fixed_track_count_from(template, i),
    decreases template.len() - i,
{
    if 0 <= i < template.len() {
        lemma_entry_fixed_count_nonneg(template[i]);
        lemma_fixed_track_count_from_nonneg(template, i + 1);
    }
}

/// One entry's non-auto-repeated tracks never exceed those of a range of
/// entries containing it.
pub proof fn lemma_entry_fixed_count_le_from(template: Seq<TrackSizingFunction>, k: int, i: int)
    requires
        0 <= k <= i < template.len(),
    ensures
        entry_fixed_count(template[i]) <= fixed_track_count_from(template, k),
    decreases i - k,
{
    if k == i {
        lemma_fixed_track_count_from_nonneg(template, i + 1);
    } else {
        lemma_entry_fixed_count_le_from(template, k + 1, i);
        lemma_entry_fixed_count_nonneg(template[k]);
    }
}

/// Auto-repetition counts are non-negative.
pub proof fn lemma_auto_repetition_count_from_nonneg(template: Seq<TrackSizingFunction>, i: int)
    ensures
        0 <= auto_repetition_count_from(template, i),
    decreases template.len() - i,
{
    if 0 <= i < template.len() {
        lemma_auto_repetition_count_from_nonneg(template, i + 1);
    }
}

/// The summed definite space of a track list's tail lies between zero and the
/// number of its tracks times the bound of a single resolved value.
pub proof fn lemma_list_definite_space_from_bounds<C: CalcResolver>(
    list: Seq<NonRepeatedTrackSizingFunction>,
    i: int,
    basis: u32,
    calc: &C,
)
    requires
        0 <= i <= list.len(),
    ensures
        0 <= list_definite_space_from(list, i, basis, calc) <= (list.len() - i) * RESOLVED_BOUND,
    decreases list.len() - i,
{
    if i < list.len() {
        lemma_definite_value_bounds(list[i], basis, calc);
        lemma_list_definite_space_from_bounds(list, i + 1, basis, calc);
    }
}

/// The summed definite space of a track list lies between zero and the number
/// of its tracks times the bound of a single resolved value.
pub proof fn lemma_list_definite_space_bounds<C: CalcResolver>(
    list: Seq<NonRepeatedTrackSizingFunction>,
    basis: u32,
    calc: &C,
)
    ensures
        0 <= list_definite_space(list, basis, calc) <= list.len() * RESOLVED_BOUND,
{
    lemma_list_definite_space_from_bounds(list, 0, basis, calc);
}

/// One entry's definite space lies between zero and its non-auto-repeated
/// track count times the bound of a single resolved value.
pub proof fn lemma_entry_definite_space_bounds<C: CalcResolver>(
    entry: TrackSizingFunction,
    basis: u32,
    calc: &C,
)
    ensures
        0 <= entry_definite_space(entry, basis, calc) <= entry_fixed_count(entry)
            * RESOLVED_BOUND,
{
    match entry {
        TrackSizingFunction::Single(sf) => {
            lemma_definite_value_bounds(sf, basis, calc);
        },
        TrackSizingFunction::Repeat(GridTrackRepetition::Count(n), l) => {
            let space = list_definite_space(l@, basis, calc);
            let len = l@.len() as int;
            lemma_list_definite_space_bounds(l@, basis, calc);
            lemma_mul_nonnegative(space, n as int);
            // space * n <= (len * RESOLVED_BOUND) * n == (n * len) * RESOLVED_BOUND
            lemma_mul_inequality(space, len * RESOLVED_BOUND, n as int);
            lemma_mul_is_associative(len, RESOLVED_BOUND as int, n as int);
            lemma_mul_is_commutative(RESOLVED_BOUND as int, n as int);
            lemma_mul_is_associative(len, n as int, RESOLVED_BOUND as int);
            lemma_mul_is_commutative(len, n as int);
            lemma_mul_is_associative(n as int, len, RESOLVED_BOUND as int);
        },
        TrackSizingFunction::Repeat(_, _) => {
            lemma_entry_fixed_count_nonneg(entry);
            lemma_mul_nonnegative(entry_fixed_count(entry), RESOLVED_BOUND as int);
        },
    }
}

/// The non-auto-repeated definite space of the entries from `i` on lies
/// between zero and their non-auto-repeated track count times the bound of a
/// single resolved value.
pub proof fn lemma_non_repeating_space_from_bounds<C: CalcResolver>(
    template: Seq<TrackSizingFunction>,
    i: int,
    basis: u32,
    calc: &C,
)
    requires
        0 <= i <= template.len(),
    ensures
        0 <= non_repeating_space_from(template, i, basis, calc) <= fixed_track_count_from(
            template,
            i,
        ) * RESOLVED_BOUND,
    decreases template.len() - i,
{
    if i < template.len() {
        lemma_entry_definite_space_bounds(template[i], basis, calc);
        lemma_non_repeating_space_from_bounds(template, i + 1, basis, calc);
        // (a + b) * RESOLVED_BOUND == a * RESOLVED_BOUND + b * RESOLVED_BOUND
        vstd::arithmetic::mul::lemma_mul_is_distributive_add_other_way(
            RESOLVED_BOUND as int,
            entry_fixed_count(template[i]),
            fixed_track_count_from(template, i + 1),
        );
    } else {
        lemma_mul_nonnegative(fixed_track_count_from(template, i), RESOLVED_BOUND as int);
    }
}

/// The resolved repetition count is at least one: a repeated track list
/// appears at least once even where it overflows the container.
pub proof fn lemma_num_repetitions_at_least_one<C: CalcResolver>(
    template: Seq<TrackSizingFunction>,
    inner_size: Option<u32>,
    gap: LengthPercentage,
    size_is_maximum: bool,
    calc: &C,
)
    ensures
        num_repetitions_spec(template, inner_size, gap, size_is_maximum, calc) >= 1,
{
    match inner_size {
        None => {},
        Some(b) => {
            let fixed = fixed_track_count(template);
            let rep = auto_repeat_tracks(template);
            let gap_size = gap.resolved_spec(b, calc);
            let non_rep = non_repeating_space(template, b, calc);
            let per_rep = list_definite_space(rep, b, calc);
            let gap_count = if fixed + rep.len() >= 1 {
                fixed + rep.len() - 1
            } else {
                0
            };
            let first_chunk = non_rep + per_rep + gap_size * gap_count;
            if first_chunk <= b {
                let fit_space = per_rep + gap_size * rep.len() as int;
                if fit_space > 0 {
                    lemma_div_is_ordered(0, b - first_chunk, fit_space);
                }
            }
        },
    }
}

/// Whether every track this entry declares has a fixed min or max component.
fn entry_all_fixed_exec(entry: &TrackSizingFunction) -> (r: bool)
    ensures
        r == entry_all_fixed(*entry),
{
    match entry {
        TrackSizingFunction::Single(sf) => sf.has_fixed_component(),
        TrackSizingFunction::Repeat(_, l) => {
            let m = l.len();
            let mut ok = true;
            let mut j: usize = 0;
            while j < m
                invariant
                    0 <= j <= m,
                    m == l@.len(),
                    ok == (forall|k: int| 0 <= k < j ==> l@[k].has_fixed_component_spec()),
                decreases m - j,
            {
                if !l[j].has_fixed_component() {
                    ok = false;
                }
                j += 1;
            }
            ok
        },
    }
}

/// The summed definite value of the tracks of `list` against `basis`, for a
/// list of at most `u16::MAX` tracks.
fn list_definite_space_exec<C: CalcResolver>(
    list: &Vec<NonRepeatedTrackSizingFunction>,
    basis: u32,
    calc: &C,
) -> (space: u128)
    requires
        list@.len() <= u16::MAX,
    ensures
        space == list_definite_space(list@, basis, calc),
        space <= list@.len() * RESOLVED_BOUND,
{
    let m = list.len();
    let mut space: u128 = 0;
    let mut j: usize = 0;
    while j < m
        invariant
            0 <= j <= m,
            m == list@.len(),
            m <= u16::MAX,
            space + list_definite_space_from(list@, j as int, basis, calc)
                == list_definite_space(list@, basis, calc),
            space <= j * RESOLVED_BOUND,
        decreases m - j,
    {
        let dv: u64 = list[j].definite_value(basis, calc);
        proof {
            lemma_definite_value_bounds(list@[j as int], basis, calc);
        }
        space = space + (dv as u128);
        j += 1;
    }
    proof {
        lemma_list_definite_space_from_bounds(list@, m as int, basis, calc);
    }
    space
}

/// Compute the number of explicit tracks the template declares in `axis`.
///
/// An empty template, or one made invalid by a repetition over an empty track
/// list, by several auto-repetitions, or by an auto-repetition mixed with
/// tracks that have no fixed component, yields zero. Otherwise the count is
/// the template's non-auto-repeated tracks plus, where it has an
/// auto-repetition, that repetition's track list repeated as often as the
/// container's available space allows (at least once); with no definite
/// container size the list appears exactly once.
pub fn compute_explicit_grid_size_in_axis<C: CalcResolver>(
    style: &GridContainerStyle,
    template: &Vec<TrackSizingFunction>,
    inner_container_size: Size<Option<u32>>,
    resolve_calc_value: &C,
    axis: AbsoluteAxis,
) -> (count: u16)
    requires
        explicit_track_count_spec(
            *style,
            template@,
            inner_container_size,
            resolve_calc_value,
            axis,
        ) <= u16::MAX,
    ensures
        count == explicit_track_count_spec(
            *style,
            template@,
            inner_container_size,
            resolve_calc_value,
            axis,
        ),
        template@.len() == 0 ==> count == 0,
        has_empty_repetition(template@) ==> count == 0,
        auto_repetition_count(template@) >= 2 ==> count == 0,
{
    let ghost t = template@;
    let n = template.len();

    // An empty template trivially declares zero explicit tracks.
    if n == 0 {
        return 0;
    }

    // A repetition over an empty track list invalidates the whole template.
    let mut i: usize = 0;
    while i < n
        invariant
            t == template@,
            n == t.len(),
            0 <= i <= n,
            forall|k: int| 0 <= k < i ==> !entry_has_empty_repetition(t[k]),
        decreases n - i,
    {
        let empty_rep = match &template[i] {
            TrackSizingFunction::Single(_) => false,
            TrackSizingFunction::Repeat(_, l) => l.len() == 0,
        };
        if empty_rep {
            assert(entry_has_empty_repetition(t[i as int]));
            return 0;
        }
        i += 1;
    }
    assert(!has_empty_repetition(t));

    // Count the auto-repetitions and check for fixed components.
    let mut auto_count: usize = 0;
    let mut all_fixed = true;
    let mut i: usize = 0;
    while i < n
        invariant
            t == template@,
            n == t.len(),
            0 <= i <= n,
            auto_count <= i,
            auto_count + auto_repetition_count_from(t, i as int) == auto_repetition_count(t),
            all_fixed == (forall|k: int| 0 <= k < i ==> entry_all_fixed(t[k])),
        decreases n - i,
    {
        if template[i].is_auto_repetition() {
            auto_count = auto_count + 1;
        }
        if !entry_all_fixed_exec(&template[i]) {
            all_fixed = false;
        }
        i += 1;
    }
    assert(auto_count == auto_repetition_count(t));

    // A template with several auto-repetitions, or one that mixes an
    // auto-repetition with tracks that have no fixed component, is invalid.
    let template_valid = auto_count == 0 || (auto_count == 1 && all_fixed);
    assert(template_valid == template_is_valid(t));
    if !template_valid {
        return 0;
    }

    // On a valid template the non-auto-repeated track count is bounded by the
    // declared result bound, so summing it cannot overflow.
    proof {
        lemma_fixed_track_count_from_nonneg(t, 0);
        if auto_count != 0 {
            let inner = inner_container_size.spec_get_abs(axis);
            let gap = style.gap.spec_get_abs(axis);
            let size_is_maximum = container_size_is_maximum(*style, inner, resolve_calc_value, axis);
            let reps = num_repetitions_spec(t, inner, gap, size_is_maximum, resolve_calc_value);
            lemma_num_repetitions_at_least_one(t, inner, gap, size_is_maximum, resolve_calc_value);
            lemma_mul_nonnegative(auto_repeat_tracks(t).len() as int, reps);
        }
        assert(fixed_track_count(t) <= u16::MAX);
    }

    let mut fixed: u64 = 0;
    let mut i: usize = 0;
    while i < n
        invariant
            t == template@,
            n == t.len(),
            0 <= i <= n,
            fixed + fixed_track_count_from(t, i as int) == fixed_track_count(t),
            fixed_track_count(t) <= u16::MAX,
        decreases n - i,
    {
        proof {
            lemma_fixed_track_count_from_nonneg(t, i as int);
            lemma_fixed_track_count_from_nonneg(t, i as int + 1);
            lemma_entry_fixed_count_nonneg(t[i as int]);
        }
        let term: u64 = match &template[i] {
            TrackSizingFunction::Single(_) => 1,
            TrackSizingFunction::Repeat(kind, l) => match kind {
                GridTrackRepetition::Count(c) => {
                    assert((*c as int) * (l@.len() as int) == entry_fixed_count(t[i as int]));
                    (*c as u64) * (l.len() as u64)
                },
                GridTrackRepetition::AutoFill => 0,
                GridTrackRepetition::AutoFit => 0,
            },
        };
        assert(term == entry_fixed_count(t[i as int]));
        fixed = fixed + term;
        i += 1;
    }
    assert(fixed == fixed_track_count(t));

    // With no auto-repetition the count is the non-auto-repeated track count.
    if auto_count == 0 {
        return fixed as u16;
    }

    // Locate the one auto-repetition entry and its track list.
    let mut rep_idx: usize = 0;
    while !template[rep_idx].is_auto_repetition()
        invariant
            t == template@,
            n == t.len(),
            0 <= rep_idx < n,
            auto_repetition_count_from(t, rep_idx as int) == 1,
            auto_repeat_tracks_from(t, rep_idx as int) == auto_repeat_tracks(t),
        decreases n - rep_idx,
    {
        proof {
            lemma_auto_repetition_count_from_nonneg(t, rep_idx as int + 1);
            if rep_idx + 1 == n {
                assert(auto_repetition_count_from(t, rep_idx as int + 1) == 0);
                assert(false);
            }
        }
        rep_idx = rep_idx + 1;
    }
    let rep_tracks: &Vec<NonRepeatedTrackSizingFunction> = match &template[rep_idx] {
        TrackSizingFunction::Repeat(_, l) => l,
        TrackSizingFunction::Single(_) => vstd::pervasive::unreached(),
    };
    assert(rep_tracks@ == auto_repeat_tracks(t));
    let rep_len: usize = rep_tracks.len();

    // The repeated list is short enough for the result to fit its bound.
    proof {
        let inner = inner_container_size.spec_get_abs(axis);
        let gap = style.gap.spec_get_abs(axis);
        let size_is_maximum = container_size_is_maximum(*style, inner, resolve_calc_value, axis);
        let reps = num_repetitions_spec(t, inner, gap, size_is_maximum, resolve_calc_value);
        lemma_num_repetitions_at_least_one(t, inner, gap, size_is_maximum, resolve_calc_value);
        lemma_mul_inequality(1, reps, rep_len as int);
        lemma_mul_is_commutative(reps, rep_len as int);
        assert(rep_len <= u16::MAX);
    }

    // Whether the governing size is a preferred or maximum size (round the
    // repetition count down) or only a minimum size (round it up).
    let inner_axis: Option<u32> = inner_container_size.get_abs(axis);
    let style_size_is_definite = style.size.get_abs(axis).maybe_resolve(
        inner_axis,
        resolve_calc_value,
    ).is_some();
    let style_max_size_is_definite = style.max_size.get_abs(axis).maybe_resolve(
        inner_axis,
        resolve_calc_value,
    ).is_some();
    let size_is_maximum = style_size_is_definite || style_max_size_is_definite;
    assert(size_is_maximum == container_size_is_maximum(
        *style,
        inner_axis,
        resolve_calc_value,
        axis,
    ));

    let ghost gap_spec = style.gap.spec_get_abs(axis);
    let num_repetitions: u64 = match inner_axis {
        None => 1,
        Some(b) => {
            let gap_lp = style.gap.get_abs(axis);
            let gap_size: u64 = gap_lp.resolve(b, resolve_calc_value);

            // The definite space of all non-auto-repeated tracks.
            proof {
                lemma_non_repeating_space_from_bounds(t, 0, b, resolve_calc_value);
                lemma_mul_inequality(
                    fixed_track_count(t),
                    u16::MAX as int,
                    RESOLVED_BOUND as int,
                );
            }
            let mut non_rep: u128 = 0;
            let mut i: usize = 0;
            while i < n
                invariant
                    t == template@,
                    n == t.len(),
                    0 <= i <= n,
                    fixed_track_count(t) <= u16::MAX,
                    non_rep + non_repeating_space_from(t, i as int, b, resolve_calc_value)
                        == non_repeating_space(t, b, resolve_calc_value),
                    non_repeating_space(t, b, resolve_calc_value) <= u16::MAX * RESOLVED_BOUND,
                decreases n - i,
            {
                proof {
                    lemma_non_repeating_space_from_bounds(t, i as int, b, resolve_calc_value);
                    lemma_non_repeating_space_from_bounds(t, i as int + 1, b, resolve_calc_value);
                    lemma_entry_definite_space_bounds(t[i as int], b, resolve_calc_value);
                }
                let term: u128 = match &template[i] {
                    TrackSizingFunction::Single(sf) => sf.definite_value(
                        b,
                        resolve_calc_value,
                    ) as u128,
                    TrackSizingFunction::Repeat(kind, l) => match kind {
                        GridTrackRepetition::Count(c) => {
                            if *c == 0 {
                                proof {
                                    vstd::arithmetic::mul::lemma_mul_basics_2(
                                        list_definite_space(l@, b, resolve_calc_value),
                                    );
                                }
                                0
                            } else {
                                proof {
                                    lemma_entry_fixed_count_le_from(t, 0, i as int);
                                    lemma_mul_inequality(1, *c as int, l@.len() as int);
                                    lemma_mul_is_commutative(*c as int, l@.len() as int);
                                    assert(l@.len() <= u16::MAX);
                                }
                                let list_space = list_definite_space_exec(
                                    l,
                                    b,
                                    resolve_calc_value,
                                );
                                proof {
                                    lemma_mul_upper_bound(
                                        list_space as int,
                                        u16::MAX * RESOLVED_BOUND,
                                        *c as int,
                                        u16::MAX as int,
                                    );
                                }
                                list_space * (*c as u128)
                            }
                        },
                        GridTrackRepetition::AutoFill => 0,
                        GridTrackRepetition::AutoFit => 0,
                    },
                };
                assert(term == entry_definite_space(t[i as int], b, resolve_calc_value));
                non_rep = non_rep + term;
                i += 1;
            }
            assert(non_rep == non_repeating_space(t, b, resolve_calc_value));

            // The definite space of one repetition of the repeated list.
            let per_rep: u128 = list_definite_space_exec(rep_tracks, b, resolve_calc_value);

            // The first repetition is special-cased: the number of gaps in it
            // depends on the non-auto-repeated tracks of the template.
            let tracks_once: u64 = fixed + (rep_len as u64);
            let gap_mult: u64 = if tracks_once >= 1 {
                tracks_once - 1
            } else {
                0
            };
            proof {
                lemma_mul_upper_bound(
                    gap_size as int,
                    u64::MAX as int,
                    gap_mult as int,
                    2 * (u16::MAX as int),
                );
                lemma_mul_inequality(rep_tracks@.len() as int, u16::MAX as int, RESOLVED_BOUND as int);
            }
            let gap_total: u128 = (gap_size as u128) * (gap_mult as u128);
            let first_chunk: u128 = non_rep + per_rep + gap_total;
            if first_chunk > (b as u128) {
                // A single repetition already overflows the container: the
                // repetition count is floored at one.
                1
            } else {
                proof {
                    lemma_mul_upper_bound(
                        gap_size as int,
                        u64::MAX as int,
                        rep_len as int,
                        u16::MAX as int,
                    );
                }
                let per_repetition_gap: u128 = (gap_size as u128) * (rep_len as u128);
                let fit_space: u128 = per_rep + per_repetition_gap;
                if fit_space == 0 {
                    // A repetition that takes no space at all is degenerate;
                    // the repetition count is floored at one.
                    1
                } else {
                    let remaining: u128 = (b as u128) - first_chunk;
                    proof {
                        lemma_div_nonincreasing(remaining as int, fit_space as int);
                    }
                    let extra: u128 = if size_is_maximum {
                        remaining / fit_space
                    } else {
                        if remaining % fit_space == 0 {
                            remaining / fit_space
                        } else {
                            remaining / fit_space + 1
                        }
                    };
                    (extra as u64) + 1
                }
            }
        },
    };
    assert(num_repetitions as int == num_repetitions_spec(
        t,
        inner_axis,
        gap_spec,
        size_is_maximum,
        resolve_calc_value,
    ));

    proof {
        lemma_mul_upper_bound(
            rep_len as int,
            u64::MAX as int,
            num_repetitions as int,
            u64::MAX as int,
        );
    }
    let total: u128 = (fixed as u128) + (rep_len as u128) * (num_repetitions as u128);
    assert(total == explicit_track_count_spec(
        *style,
        t,
        inner_container_size,
        resolve_calc_value,
        axis,
    ));
    total as u16
}

} // verus!
