use crate::domain::parking_session::ParkingSession;
use crate::domain::tariff_policy::TariffPolicy;
use crate::time::Timestamp;
use uuid::Uuid;
use vstd::prelude::*;

verus! {

/// What a driver gives on the way in.
pub struct CheckInInput {
    pub plate: String,
}

/// What the driver gets back: the session that was opened for the vehicle.
pub struct Ticket {
    pub session_id: Uuid,
    pub plate: String,
    pub checkin_date: Timestamp,
}

/// Opens the session of a check-in: for the vehicle of `input`, under
/// `tariff_policy`, known as `session_id` and running from `checkin_date`.
pub fn open_session(
    input: CheckInInput,
    tariff_policy: &TariffPolicy,
    session_id: Uuid,
    checkin_date: Timestamp,
) -> (session: ParkingSession)
    ensures
        session == ParkingSession::started(
            session_id,
            input.plate,
            tariff_policy.id,
            checkin_date,
        ),
        session.is_open(),
        session.wf(),
{
    ParkingSession::start(session_id, input.plate, tariff_policy.id, checkin_date)
}

impl Ticket {
    /// The ticket of a session: its identifier, its plate and its check-in date.
    pub fn for_session(session: ParkingSession) -> (ticket: Ticket)
        ensures
            ticket.session_id == session.id,
            ticket.plate == session.plate,
            ticket.checkin_date == session.started_at,
    {
        Ticket { session_id: session.id, plate: session.plate, checkin_date: session.started_at }
    }
}

} // verus!
