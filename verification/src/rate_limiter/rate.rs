//! Rates: how many units per second a consumer may use.

use vstd::prelude::*;
use vstd::std_specs::convert::FromSpec;

verus! {

/// A rate of at least one unit per second.
#[derive(Clone, Copy, Debug, PartialEq, Eq, Structural)]
pub struct NonZeroRatePerSecond {
    units: u64,
}

/// What comes of asking for a nonzero rate of zero units per second.
#[derive(Clone, Copy, Debug, PartialEq, Eq, Structural)]
pub struct ZeroRateError;

impl NonZeroRatePerSecond {
    /// How many units per second the rate is.
    pub closed spec fn units_spec(self) -> u64 {
        self.units
    }

    /// The rate of `units` units per second.
    pub closed spec fn of(units: u64) -> Self {
        NonZeroRatePerSecond { units }
    }

    #[verifier::type_invariant]
    spec fn nonzero(self) -> bool {
        self.units > 0
    }

    /// The rate of so many units per second has so many units.
    pub broadcast proof fn lemma_of_units(units: u64)
        ensures
            (#[trigger] Self::of(units)).units_spec() == units,
    {
    }

    /// A rate is the rate of its units per second.
    pub broadcast proof fn lemma_units_of(self)
        ensures
            Self::of(#[trigger] self.units_spec()) == self,
    {
    }

    /// How many units per second the rate is; never zero.
    pub fn units(&self) -> (units: u64)
        ensures
            units == self.units_spec(),
            units > 0,
    {
        proof {
            use_type_invariant(*self);
        }
        self.units
    }

    /// The smallest rate: one unit per second.
    pub fn min() -> (rate: Self)
        ensures
            rate.units_spec() == 1,
    {
        NonZeroRatePerSecond { units: 1 }
    }

    /// The rate of `units` units per second, or `None` where `units` is zero.
    pub fn new(units: u64) -> (rate: Option<Self>)
        ensures
            rate is Some <==> units > 0,
            rate matches Some(r) ==> r.units_spec() == units,
    {
        if units == 0 {
            None
        } else {
            Some(NonZeroRatePerSecond { units })
        }
    }
}

impl From<NonZeroRatePerSecond> for u64 {
    fn from(value: NonZeroRatePerSecond) -> (units: u64) {
        value.units
    }
}

impl vstd::std_specs::convert::FromSpecImpl<NonZeroRatePerSecond> for u64 {
    open spec fn obeys_from_spec() -> bool {
        true
    }

    open spec fn from_spec(value: NonZeroRatePerSecond) -> u64 {
        value.units_spec()
    }
}

impl TryFrom<u64> for NonZeroRatePerSecond {
    type Error = ZeroRateError;

    fn try_from(value: u64) -> (rate: Result<Self, ZeroRateError>) {
        match NonZeroRatePerSecond::new(value) {
            Some(rate) => Ok(rate),
            None => Err(ZeroRateError),
        }
    }
}

impl vstd::std_specs::convert::TryFromSpecImpl<u64> for NonZeroRatePerSecond {
    open spec fn obeys_try_from_spec() -> bool {
        true
    }

    open spec fn try_from_spec(value: u64) -> Result<Self, ZeroRateError> {
        if value == 0 {
            Err(ZeroRateError)
        } else {
            Ok(NonZeroRatePerSecond::of(value))
        }
    }
}

/// A rate that may also be zero, in which case nothing passes.
#[derive(Clone, Copy, Debug, PartialEq, Eq, Structural)]
pub enum RatePerSecond {
    Block,
    Rate(NonZeroRatePerSecond),
}

impl RatePerSecond {
    /// How many units per second the rate is.
    pub open spec fn units_spec(self) -> u64 {
        match self {
            RatePerSecond::Block => 0,
            RatePerSecond::Rate(rate) => rate.units_spec(),
        }
    }
}

impl From<u64> for RatePerSecond {
    fn from(value: u64) -> (rate: RatePerSecond) {
        match NonZeroRatePerSecond::new(value) {
            None => RatePerSecond::Block,
            Some(rate) => RatePerSecond::Rate(rate),
        }
    }
}

impl vstd::std_specs::convert::FromSpecImpl<u64> for RatePerSecond {
    open spec fn obeys_from_spec() -> bool {
        true
    }

    open spec fn from_spec(value: u64) -> RatePerSecond {
        if value == 0 {
            RatePerSecond::Block
        } else {
            RatePerSecond::Rate(NonZeroRatePerSecond::of(value))
        }
    }
}

impl From<RatePerSecond> for u64 {
    fn from(value: RatePerSecond) -> (units: u64) {
        match value {
            RatePerSecond::Block => 0,
            RatePerSecond::Rate(rate) => rate.units,
        }
    }
}

impl vstd::std_specs::convert::FromSpecImpl<RatePerSecond> for u64 {
    open spec fn obeys_from_spec() -> bool {
        true
    }

    open spec fn from_spec(value: RatePerSecond) -> u64 {
        value.units_spec()
    }
}

impl From<NonZeroRatePerSecond> for RatePerSecond {
    fn from(value: NonZeroRatePerSecond) -> (rate: RatePerSecond) {
        RatePerSecond::Rate(value)
    }
}

impl vstd::std_specs::convert::FromSpecImpl<NonZeroRatePerSecond> for RatePerSecond {
    open spec fn obeys_from_spec() -> bool {
        true
    }

    open spec fn from_spec(value: NonZeroRatePerSecond) -> RatePerSecond {
        RatePerSecond::Rate(value)
    }
}

/// Reading a number as a rate and the rate as a number gives the number back,
/// and reading a rate as a number and the number as a rate gives the rate back.
pub proof fn rates_and_numbers_correspond(units: u64, rate: RatePerSecond)
    requires
        rate matches RatePerSecond::Rate(nonzero) ==> nonzero.units_spec() > 0,
    ensures
        <RatePerSecond as FromSpec<u64>>::from_spec(units).units_spec() == units,
        <RatePerSecond as FromSpec<u64>>::from_spec(rate.units_spec()) == rate,
{
}

/// A number is a rate exactly where it is not zero, and every way of reading a rate
/// as a number or as another rate keeps how many units per second it is.
pub proof fn conversions_keep_the_units(
    value: u64,
    nonzero: NonZeroRatePerSecond,
    rate: RatePerSecond,
)
    ensures
        <NonZeroRatePerSecond as vstd::std_specs::convert::TryFromSpec<u64>>::try_from_spec(value)
            is Ok <==> value > 0,
        <NonZeroRatePerSecond as vstd::std_specs::convert::TryFromSpec<u64>>::try_from_spec(
            value,
        ) matches Ok(read) ==> read.units_spec() == value,
        <u64 as FromSpec<NonZeroRatePerSecond>>::from_spec(nonzero) == nonzero.units_spec(),
        <u64 as FromSpec<RatePerSecond>>::from_spec(rate) == rate.units_spec(),
        <RatePerSecond as FromSpec<NonZeroRatePerSecond>>::from_spec(nonzero)
            == RatePerSecond::Rate(nonzero),
        RatePerSecond::Block.units_spec() == 0,
        RatePerSecond::Rate(nonzero).units_spec() == nonzero.units_spec(),
        <RatePerSecond as FromSpec<u64>>::from_spec(0) == RatePerSecond::Block,
        value > 0 ==> <RatePerSecond as FromSpec<u64>>::from_spec(value) is Rate,
{
}

} // verus!
