use crate::time::{whole_hours, Span, Timestamp, NANOS_PER_HOUR};
use vstd::prelude::*;

verus! {

/// The pricing rule of a car park: a flat rate for the first hour, a rate for
/// each whole hour of the stay, and a grace period within which a stay is free.
///
/// Rates and prices are in the smallest unit of the currency.
pub struct TariffPolicy {
    pub id: i64,
    pub first_hour_rate: i64,
    pub grace_period: Span,
    pub hourly_rate: i64,
}

impl TariffPolicy {
    /// The price of a stay of `duration` nanoseconds.
    ///
    /// A stay no longer than the grace period is free. Any longer stay costs
    /// the first-hour rate, and the hourly rate for each whole hour of it; a
    /// started hour is not counted.
    pub open spec fn price_of(self, duration: int) -> int {
        if duration <= self.grace_period@ {
            0
        } else {
            self.first_hour_rate + self.hourly_rate * whole_hours(duration)
        }
    }

    /// The price of a stay from `checkin_date` to `checkout_date`.
    pub open spec fn price(self, checkin_date: Timestamp, checkout_date: Timestamp) -> int {
        self.price_of(checkout_date@ - checkin_date@)
    }

    /// Whether the price of the stay can be held in an `i64`.
    pub open spec fn price_fits(self, checkin_date: Timestamp, checkout_date: Timestamp) -> bool {
        i64::MIN <= self.price(checkin_date, checkout_date) <= i64::MAX
    }

    /// The price of the stay, in an integer wide enough for any price.
    fn wide_price(&self, checkin_date: Timestamp, checkout_date: Timestamp) -> (price: i128)
        ensures
            price == self.price(checkin_date, checkout_date),
    {
        let duration: Span = checkout_date.signed_duration_since(&checkin_date);
        if duration.is_at_most(&self.grace_period) {
            return 0;
        }
        let parked_hours: i64 = duration.num_hours();
        let rate: i64 = self.hourly_rate;
        assert(-0x4000_0000_0000_0000_0000_0000_0000_0000 <= parked_hours * rate
            <= 0x4000_0000_0000_0000_0000_0000_0000_0000) by (nonlinear_arith)
            requires
                -0x8000_0000_0000_0000 <= parked_hours <= 0x8000_0000_0000_0000,
                -0x8000_0000_0000_0000 <= rate <= 0x8000_0000_0000_0000,
        ;
        assert(parked_hours * rate == rate * parked_hours) by (nonlinear_arith);
        (self.first_hour_rate as i128) + (parked_hours as i128) * (rate as i128)
    }

    /// The price of a stay from `checkin_date` to `checkout_date`, or `None`
    /// if it is more than an `i64` holds.
    pub fn checked_calculate(
        &self,
        checkin_date: Timestamp,
        checkout_date: Timestamp,
    ) -> (r: Option<i64>)
        ensures
            r is Some <==> self.price_fits(checkin_date, checkout_date),
            r matches Some(price) ==> price == self.price(checkin_date, checkout_date),
    {
        let price: i128 = self.wide_price(checkin_date, checkout_date);
        if (i64::MIN as i128) <= price && price <= (i64::MAX as i128) {
            Some(price as i64)
        } else {
            None
        }
    }

    /// The price of a stay from `checkin_date` to `checkout_date`.
    ///
    /// The caller sees to it that the price can be held in an `i64`;
    /// [`TariffPolicy::checked_calculate`] asks for nothing.
    pub fn calculate(&self, checkin_date: Timestamp, checkout_date: Timestamp) -> (price: i64)
        requires
            self.price_fits(checkin_date, checkout_date),
        ensures
            price == self.price(checkin_date, checkout_date),
            checkout_date@ - checkin_date@ <= self.grace_period@ ==> price == 0,
    {
        self.wide_price(checkin_date, checkout_date) as i64
    }
}

/// A stay that does not outlast the grace period is free, up to and including
/// the last nanosecond of the period.
pub proof fn law_grace_period_is_free(policy: TariffPolicy, duration: int)
    requires
        duration <= policy.grace_period@,
    ensures
        policy.price_of(duration) == 0,
{
}

/// Under rates that are not negative, a longer stay never costs less than a
/// shorter one.
///
/// A duration below zero counts its whole hours below zero, so the law leaves
/// out the pairs whose longer duration is an hour or more below zero.
pub proof fn law_price_is_monotonic(policy: TariffPolicy, shorter: int, longer: int)
    requires
        0 <= policy.first_hour_rate,
        0 <= policy.hourly_rate,
        shorter <= longer,
        -NANOS_PER_HOUR < longer,
    ensures
        policy.price_of(shorter) <= policy.price_of(longer),
{
    let rate: int = policy.hourly_rate as int;
    let few: int = whole_hours(shorter);
    let many: int = whole_hours(longer);
    assert(0 <= rate * many && rate * few <= rate * many) by (nonlinear_arith)
        requires
            0 <= rate,
            0 <= many,
            few <= many,
    ;
}

/// The price depends on nothing but the policy and the two instants: whatever
/// `calculate` returns for them once, it returns for them again.
pub proof fn law_calculate_is_deterministic(
    policy: TariffPolicy,
    checkin_date: Timestamp,
    checkout_date: Timestamp,
    once: i64,
    again: i64,
)
    requires
        call_ensures(TariffPolicy::calculate, (&policy, checkin_date, checkout_date), once),
        call_ensures(TariffPolicy::calculate, (&policy, checkin_date, checkout_date), again),
    ensures
        once == again,
{
}

} // verus!
