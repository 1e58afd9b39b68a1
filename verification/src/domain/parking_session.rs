use crate::domain::error::ModelError;
use crate::time::Timestamp;
use uuid::Uuid;
use vstd::prelude::*;

verus! {

/// Trusted: `uuid::Uuid`, the identifier of a session. Nothing is claimed of
/// it; a session carries its identifier and never looks into it.
#[verifier::external_type_specification]
#[verifier::external_body]
pub struct ExUuid(Uuid);

/// One stay of a vehicle, from check-in to check-out.
///
/// A session starts open, with neither a check-out date nor a price. Closing
/// it sets both at once, and a closed session stays as it is.
pub struct ParkingSession {
    pub id: Uuid,
    pub plate: String,
    pub tariff_policy_id: i64,
    pub started_at: Timestamp,
    pub closed_at: Option<Timestamp>,
    pub price: Option<i64>,
}

impl ParkingSession {
    /// Whether the session is still running.
    pub open spec fn is_open(self) -> bool {
        self.closed_at is None
    }

    /// What every session that `start` made and `close` changed satisfies: the
    /// check-out date and the price are set together, and the check-out is not
    /// before the check-in.
    pub open spec fn wf(self) -> bool {
        &&& self.closed_at is Some <==> self.price is Some
        &&& self.closed_at matches Some(closed_at) ==> self.started_at@ <= closed_at@
    }

    /// The session as `start` makes it.
    pub open spec fn started(
        id: Uuid,
        plate: String,
        tariff_policy_id: i64,
        checkin_date: Timestamp,
    ) -> ParkingSession {
        ParkingSession {
            id,
            plate,
            tariff_policy_id,
            started_at: checkin_date,
            closed_at: None,
            price: None,
        }
    }

    /// What `close` answers for a check-out at `checkout_date`. A closed
    /// session is refused as closed whatever the date is.
    pub open spec fn close_outcome(self, checkout_date: Timestamp) -> Result<(), ModelError> {
        if self.closed_at is Some {
            Err(ModelError::SessionAlreadyClosed)
        } else if checkout_date@ < self.started_at@ {
            Err(ModelError::InvalidCheckoutDate)
        } else {
            Ok(())
        }
    }

    /// The session after `close` was asked to check out at `checkout_date`
    /// for `price`: closed with both if that was accepted, unchanged if not.
    pub open spec fn after_close(self, checkout_date: Timestamp, price: i64) -> ParkingSession {
        if self.close_outcome(checkout_date) is Ok {
            ParkingSession { closed_at: Some(checkout_date), price: Some(price), ..self }
        } else {
            self
        }
    }

    /// Opens a session for the vehicle `plate` at `checkin_date`.
    pub fn start(
        id: Uuid,
        plate: String,
        tariff_policy_id: i64,
        checkin_date: Timestamp,
    ) -> (session: Self)
        ensures
            session == Self::started(id, plate, tariff_policy_id, checkin_date),
            session.is_open(),
            session.wf(),
    {
        Self {
            id,
            plate,
            tariff_policy_id,
            started_at: checkin_date,
            closed_at: None,
            price: None,
        }
    }

    /// Closes the session at `checkout_date` for `price`.
    ///
    /// A session that is closed already is refused first; an open one is
    /// refused if the check-out lies before its check-in. A refusal leaves the
    /// session as it was.
    pub fn close(&mut self, checkout_date: Timestamp, price: i64) -> (r: Result<(), ModelError>)
        ensures
            r == old(self).close_outcome(checkout_date),
            *final(self) == old(self).after_close(checkout_date, price),
            r is Err ==> *final(self) == *old(self),
            old(self).wf() ==> final(self).wf(),
    {
        if self.closed_at.is_some() {
            return Err(ModelError::SessionAlreadyClosed);
        }
        if checkout_date.is_before(&self.started_at) {
            return Err(ModelError::InvalidCheckoutDate);
        }
        self.closed_at = Some(checkout_date);
        self.price = Some(price);

        Ok(())
    }
}

/// An open session closes exactly once: the first check-out that is not before
/// the check-in is accepted, and whatever is asked of the session after that
/// is refused as already closed and changes nothing.
pub proof fn law_close_succeeds_exactly_once(
    session: ParkingSession,
    checkout_date: Timestamp,
    price: i64,
    later_date: Timestamp,
    later_price: i64,
)
    requires
        session.is_open(),
        session.started_at@ <= checkout_date@,
    ensures
        session.close_outcome(checkout_date) == Ok::<(), ModelError>(()),
        session.after_close(checkout_date, price).closed_at == Some(checkout_date),
        session.after_close(checkout_date, price).price == Some(price),
        session.after_close(checkout_date, price).close_outcome(later_date) == Err::<
            (),
            ModelError,
        >(ModelError::SessionAlreadyClosed),
        session.after_close(checkout_date, price).after_close(later_date, later_price)
            == session.after_close(checkout_date, price),
{
}

/// A check-out before the check-in is refused as an invalid date, and the
/// session stays open and unchanged.
pub proof fn law_early_checkout_is_refused(
    session: ParkingSession,
    checkout_date: Timestamp,
    price: i64,
)
    requires
        session.is_open(),
        checkout_date@ < session.started_at@,
    ensures
        session.close_outcome(checkout_date) == Err::<(), ModelError>(
            ModelError::InvalidCheckoutDate,
        ),
        session.after_close(checkout_date, price) == session,
        session.after_close(checkout_date, price).is_open(),
{
}

} // verus!
