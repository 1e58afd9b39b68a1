use crate::domain::parking_session::ParkingSession;
use crate::domain::tariff_policy::TariffPolicy;
use crate::time::Timestamp;
use crate::usecases::error::{reason, AppError};
use vstd::prelude::*;

verus! {

/// What a driver gives on the way out.
pub struct CheckOutInput {
    pub plate: String,
}

/// What `settle` answers for a check-out at `checkout_date`: what the session
/// answers, with a refusal reported as unprocessable under its name.
pub open spec fn settle_outcome(session: ParkingSession, checkout_date: Timestamp) -> Result<
    (),
    AppError,
> {
    match session.close_outcome(checkout_date) {
        Ok(()) => Ok(()),
        Err(error) => Err(AppError::UnprocessableEntity(reason(error))),
    }
}

/// Charges the stay of `session` up to `checkout_date` under `tariff_policy`
/// and closes the session for that price.
///
/// The price is that of the policy for the time from the check-in of the
/// session to `checkout_date`. A session that refuses to close is left as it
/// was. The caller sees to it that the price can be held in an `i64`, which
/// [`TariffPolicy::checked_calculate`] tells.
pub fn settle(
    session: &mut ParkingSession,
    tariff_policy: &TariffPolicy,
    checkout_date: Timestamp,
) -> (r: Result<(), AppError>)
    requires
        tariff_policy.price_fits(old(session).started_at, checkout_date),
    ensures
        r == settle_outcome(*old(session), checkout_date),
        *final(session) == old(session).after_close(
            checkout_date,
            tariff_policy.price(old(session).started_at, checkout_date) as i64,
        ),
        r is Ok ==> final(session).price == Some(
            tariff_policy.price(old(session).started_at, checkout_date) as i64,
        ),
        r is Err ==> *final(session) == *old(session),
        old(session).wf() ==> final(session).wf(),
{
    let price: i64 = tariff_policy.calculate(session.started_at, checkout_date);
    match session.close(checkout_date, price) {
        Ok(()) => Ok(()),
        Err(error) => Err(AppError::from(error)),
    }
}

} // verus!
