//! Track sizing functions and their resolution to concrete values.
//!
//! All sizes are integer layout units. A percentage is stored in whole
//! percent points and resolves to `basis * percent / 100` (rounded down).
//! Opaque `calc()`-like expressions are resolved through a caller-supplied
//! [`CalcResolver`].
use vstd::arithmetic::div_mod::{lemma_div_is_ordered, lemma_fundamental_div_mod};
use vstd::arithmetic::mul::lemma_mul_upper_bound;
use vstd::prelude::*;

verus! {

/// Every resolved size value is strictly below this bound (it fits in `u64`).
pub const RESOLVED_BOUND: u128 = 0x1_0000_0000_0000_0000;

/// Resolves an opaque calculation expression, identified by an id, against a
/// reference size. Supplied by the caller of this subsystem; it must be a
/// pure function of its arguments.
pub trait CalcResolver {
    /// The value this resolver yields for expression `id` against `basis`.
    spec fn resolve_calc_spec(&self, id: u64, basis: u32) -> u32;

    /// Resolve expression `id` against the reference size `basis`.
    fn resolve_calc(&self, id: u64, basis: u32) -> (r: u32)
        ensures
            r == self.resolve_calc_spec(id, basis),
    ;
}

/// A [`CalcResolver`] that yields the same value for every expression.
#[derive(Clone, Copy, Debug)]
pub struct ConstantCalc {
    /// The value returned for every expression.
    pub value: u32,
}

impl CalcResolver for ConstantCalc {
    open spec fn resolve_calc_spec(&self, id: u64, basis: u32) -> u32 {
        self.value
    }

    fn resolve_calc(&self, id: u64, basis: u32) -> (r: u32) {
        self.value
    }
}

/// A length or a percentage of a reference size, or an opaque calculation.
#[derive(Clone, Copy, Debug, PartialEq, Eq, Structural)]
pub enum LengthPercentage {
    /// A fixed length in layout units.
    Length(u32),
    /// A percentage of the reference size, in whole percent points.
    Percent(u32),
    /// An opaque calculation expression, resolved through a [`CalcResolver`].
    Calc(u64),
}

impl LengthPercentage {
    /// A fixed length of `value` layout units.
    pub fn from_length(value: u32) -> (r: Self)
        ensures
            r == LengthPercentage::Length(value),
    {
        LengthPercentage::Length(value)
    }

    /// A percentage of `percent` whole percent points.
    pub fn from_percent(percent: u32) -> (r: Self)
        ensures
            r == LengthPercentage::Percent(percent),
    {
        LengthPercentage::Percent(percent)
    }

    /// The concrete value of this size against the reference size `basis`.
    pub open spec fn resolved_spec<C: CalcResolver>(self, basis: u32, calc: &C) -> int {
        match self {
            LengthPercentage::Length(v) => v as int,
            LengthPercentage::Percent(p) => (basis as int) * (p as int) / 100,
            LengthPercentage::Calc(id) => calc.resolve_calc_spec(id, basis) as int,
        }
    }

    /// Resolve this size against the reference size `basis`.
    pub fn resolve<C: CalcResolver>(&self, basis: u32, calc: &C) -> (r: u64)
        ensures
            r == self.resolved_spec(basis, calc),
    {
        match self {
            LengthPercentage::Length(v) => *v as u64,
            LengthPercentage::Percent(p) => {
                proof {
                    lemma_mul_upper_bound(basis as int, u32::MAX as int, *p as int, u32::MAX as int);
                }
                (basis as u64) * (*p as u64) / 100
            },
            LengthPercentage::Calc(id) => calc.resolve_calc(*id, basis) as u64,
        }
    }
}

/// Every resolved [`LengthPercentage`] lies in `[0, RESOLVED_BOUND)`.
pub proof fn lemma_resolved_bounds<C: CalcResolver>(lp: LengthPercentage, basis: u32, calc: &C)
    ensures
        0 <= lp.resolved_spec(basis, calc) < RESOLVED_BOUND,
{
    match lp {
        LengthPercentage::Length(_) => {},
        LengthPercentage::Percent(p) => {
            let prod = (basis as int) * (p as int);
            lemma_mul_upper_bound(basis as int, u32::MAX as int, p as int, u32::MAX as int);
            lemma_div_is_ordered(0, prod, 100);
            lemma_fundamental_div_mod(prod, 100);
        },
        LengthPercentage::Calc(_) => {},
    }
}

/// A size that may also be automatic: used for the container's preferred,
/// minimum and maximum sizes.
#[derive(Clone, Copy, Debug, PartialEq, Eq, Structural)]
pub enum Dimension {
    /// A fixed length in layout units.
    Length(u32),
    /// A percentage of the reference size, in whole percent points.
    Percent(u32),
    /// No size specified.
    Auto,
    /// An opaque calculation expression, resolved through a [`CalcResolver`].
    Calc(u64),
}

impl Dimension {
    /// The concrete value of this dimension against an optional reference
    /// size, or `None` where it cannot be resolved without one (or is auto).
    pub open spec fn maybe_resolved_spec<C: CalcResolver>(
        self,
        basis: Option<u32>,
        calc: &C,
    ) -> Option<int> {
        match self {
            Dimension::Length(v) => Some(v as int),
            Dimension::Percent(p) => match basis {
                Some(b) => Some(LengthPercentage::Percent(p).resolved_spec(b, calc)),
                None => None,
            },
            Dimension::Auto => None,
            Dimension::Calc(id) => match basis {
                Some(b) => Some(calc.resolve_calc_spec(id, b) as int),
                None => None,
            },
        }
    }

    /// Resolve this dimension against an optional reference size.
    pub fn maybe_resolve<C: CalcResolver>(&self, basis: Option<u32>, calc: &C) -> (r: Option<
        u64,
    >)
        ensures
            r is Some <==> self.maybe_resolved_spec(basis, calc) is Some,
            r matches Some(v) ==> self.maybe_resolved_spec(basis, calc) == Some(v as int),
    {
        match self {
            Dimension::Length(v) => Some(*v as u64),
            Dimension::Percent(p) => match basis {
                Some(b) => Some(LengthPercentage::Percent(*p).resolve(b, calc)),
                None => None,
            },
            Dimension::Auto => None,
            Dimension::Calc(id) => match basis {
                Some(b) => Some(calc.resolve_calc(*id, b) as u64),
                None => None,
            },
        }
    }
}

/// The minimum component of a track sizing function.
#[derive(Clone, Copy, Debug, PartialEq, Eq, Structural)]
pub enum MinTrackSizingFunction {
    /// A fixed length or percentage.
    Fixed(LengthPercentage),
    /// The track's min-content size.
    MinContent,
    /// The track's max-content size.
    MaxContent,
    /// Automatic minimum sizing.
    Auto,
}

impl MinTrackSizingFunction {
    /// A fixed minimum of `value` layout units.
    pub fn from_length(value: u32) -> (r: Self)
        ensures
            r == MinTrackSizingFunction::Fixed(LengthPercentage::Length(value)),
    {
        MinTrackSizingFunction::Fixed(LengthPercentage::Length(value))
    }

    /// Whether this component is a fixed length or percentage.
    pub open spec fn is_fixed_spec(self) -> bool {
        self is Fixed
    }

    /// The concrete value of this component against `basis` where it is
    /// fixed; zero otherwise (a non-fixed minimum has no definite value).
    pub open spec fn definite_value_spec<C: CalcResolver>(self, basis: u32, calc: &C) -> int {
        match self {
            MinTrackSizingFunction::Fixed(lp) => lp.resolved_spec(basis, calc),
            _ => 0,
        }
    }
}

/// The maximum component of a track sizing function.
#[derive(Clone, Copy, Debug, PartialEq, Eq, Structural)]
pub enum MaxTrackSizingFunction {
    /// A fixed length or percentage.
    Fixed(LengthPercentage),
    /// The track's min-content size.
    MinContent,
    /// The track's max-content size.
    MaxContent,
    /// Sizing clamped to the given limit.
    FitContent(LengthPercentage),
    /// Automatic maximum sizing.
    Auto,
    /// A share of the remaining space, in flexible units.
    Fraction(u32),
}

impl MaxTrackSizingFunction {
    /// A fixed maximum of `value` layout units.
    pub fn from_length(value: u32) -> (r: Self)
        ensures
            r == MaxTrackSizingFunction::Fixed(LengthPercentage::Length(value)),
    {
        MaxTrackSizingFunction::Fixed(LengthPercentage::Length(value))
    }

    /// A flexible maximum of `units` flexible units.
    pub fn from_fr(units: u32) -> (r: Self)
        ensures
            r == MaxTrackSizingFunction::Fraction(units),
    {
        MaxTrackSizingFunction::Fraction(units)
    }

    /// Whether this component is a fixed length or percentage.
    pub open spec fn is_fixed_spec(self) -> bool {
        self is Fixed
    }

    /// The concrete value of this component against `basis` where it is
    /// fixed; zero otherwise (a non-fixed maximum has no definite value).
    pub open spec fn definite_value_spec<C: CalcResolver>(self, basis: u32, calc: &C) -> int {
        match self {
            MaxTrackSizingFunction::Fixed(lp) => lp.resolved_spec(basis, calc),
            _ => 0,
        }
    }
}

/// The sizing function of a single track: a minimum and a maximum component.
#[derive(Clone, Copy, Debug, PartialEq, Eq, Structural)]
pub struct NonRepeatedTrackSizingFunction {
    /// The minimum component.
    pub min: MinTrackSizingFunction,
    /// The maximum component.
    pub max: MaxTrackSizingFunction,
}

impl NonRepeatedTrackSizingFunction {
    /// The fully automatic sizing function, used for implicit tracks when no
    /// auto track definitions are given.
    pub open spec fn auto_spec() -> Self {
        NonRepeatedTrackSizingFunction {
            min: MinTrackSizingFunction::Auto,
            max: MaxTrackSizingFunction::Auto,
        }
    }

    /// The fully automatic sizing function.
    pub fn auto() -> (r: Self)
        ensures
            r == Self::auto_spec(),
    {
        NonRepeatedTrackSizingFunction {
            min: MinTrackSizingFunction::Auto,
            max: MaxTrackSizingFunction::Auto,
        }
    }

    /// A sizing function fixed to `value` layout units in both components.
    pub fn from_length(value: u32) -> (r: Self)
        ensures
            r == (NonRepeatedTrackSizingFunction {
                min: MinTrackSizingFunction::Fixed(LengthPercentage::Length(value)),
                max: MaxTrackSizingFunction::Fixed(LengthPercentage::Length(value)),
            }),
    {
        NonRepeatedTrackSizingFunction {
            min: MinTrackSizingFunction::Fixed(LengthPercentage::Length(value)),
            max: MaxTrackSizingFunction::Fixed(LengthPercentage::Length(value)),
        }
    }

    /// Whether at least one component is a fixed length or percentage, so
    /// that the track has a definite size against a definite reference size.
    pub open spec fn has_fixed_component_spec(self) -> bool {
        self.min.is_fixed_spec() || self.max.is_fixed_spec()
    }

    /// Whether at least one component is a fixed length or percentage.
    pub fn has_fixed_component(&self) -> (r: bool)
        ensures
            r == self.has_fixed_component_spec(),
    {
        match (self.min, self.max) {
            (MinTrackSizingFunction::Fixed(_), _) => true,
            (_, MaxTrackSizingFunction::Fixed(_)) => true,
            _ => false,
        }
    }

    /// The definite space one occurrence of this track takes against `basis`:
    /// the maximum component where it is fixed, floored by the minimum
    /// component where that is also fixed (the result is then at least the
    /// minimum); otherwise the minimum component where fixed; otherwise zero.
    pub open spec fn definite_value_spec<C: CalcResolver>(self, basis: u32, calc: &C) -> int {
        let mx = self.max.definite_value_spec(basis, calc);
        let mn = self.min.definite_value_spec(basis, calc);
        if self.max.is_fixed_spec() {
            if self.min.is_fixed_spec() {
                if mx >= mn {
                    mx
                } else {
                    mn
                }
            } else {
                mx
            }
        } else if self.min.is_fixed_spec() {
            mn
        } else {
            0
        }
    }

    /// The definite space one occurrence of this track takes against `basis`.
    pub fn definite_value<C: CalcResolver>(&self, basis: u32, calc: &C) -> (r: u64)
        ensures
            r == self.definite_value_spec(basis, calc),
    {
        match (self.min, self.max) {
            (MinTrackSizingFunction::Fixed(mn_lp), MaxTrackSizingFunction::Fixed(mx_lp)) => {
                let mn = mn_lp.resolve(basis, calc);
                let mx = mx_lp.resolve(basis, calc);
                if mx >= mn {
                    mx
                } else {
                    mn
                }
            },
            (_, MaxTrackSizingFunction::Fixed(mx_lp)) => mx_lp.resolve(basis, calc),
            (MinTrackSizingFunction::Fixed(mn_lp), _) => mn_lp.resolve(basis, calc),
            _ => 0,
        }
    }
}

/// The definite value of any track sizing function lies in
/// `[0, RESOLVED_BOUND)`.
pub proof fn lemma_definite_value_bounds<C: CalcResolver>(
    sf: NonRepeatedTrackSizingFunction,
    basis: u32,
    calc: &C,
)
    ensures
        0 <= sf.definite_value_spec(basis, calc) < RESOLVED_BOUND,
{
    match sf.min {
        MinTrackSizingFunction::Fixed(lp) => lemma_resolved_bounds(lp, basis, calc),
        _ => {},
    }
    match sf.max {
        MaxTrackSizingFunction::Fixed(lp) => lemma_resolved_bounds(lp, basis, calc),
        _ => {},
    }
}

} // verus!
