use std::str::FromStr;

use chrono::{DateTime, Duration, Utc};
use uuid::Uuid;

use parking_session::domain::error::ModelError;
use parking_session::domain::parking_session::ParkingSession;
use parking_session::domain::tariff_policy::TariffPolicy;
use parking_session::time::{Span, Timestamp};

fn timestamp(date: DateTime<Utc>) -> Timestamp {
    Timestamp::new(date.timestamp(), date.timestamp_subsec_nanos()).unwrap()
}

fn span(delta: Duration) -> Span {
    Span::new(delta.num_seconds(), delta.subsec_nanos()).unwrap()
}

#[test]
fn creates_session_successfully() {
    let parking_session_id = Uuid::new_v4();
    let plate = String::from("XXX-0000");
    let tariff_policy_id: i64 = 1;
    let checkin_date = timestamp(DateTime::from_str("2025-01-01T12:00:00.000Z").unwrap());
    let parking_session = ParkingSession::start(
        parking_session_id,
        plate.clone(),
        tariff_policy_id,
        checkin_date,
    );

    assert_eq!(parking_session.plate, plate);
    assert_eq!(parking_session.started_at, checkin_date);
}

#[test]
fn returns_error_if_session_already_closed() {
    let parking_session_id = Uuid::new_v4();
    let plate = String::from("XXX-0000");
    let tariff_policy_id: i64 = 1;
    let checkin_date = timestamp(DateTime::from_str("2025-01-01T12:00:00.000Z").unwrap());
    let mut parking_session = ParkingSession::start(
        parking_session_id,
        plate.clone(),
        tariff_policy_id,
        checkin_date,
    );

    let tariff_policy = TariffPolicy {
        id: 1,
        first_hour_rate: 500,
        grace_period: span(Duration::minutes(15)),
        hourly_rate: 200,
    };

    let checkout_date = timestamp(DateTime::from_str("2025-01-01T12:59:00.000Z").unwrap());
    let price = tariff_policy.calculate(parking_session.started_at, checkout_date);
    parking_session.close(checkout_date, price).unwrap();

    let result = parking_session.close(checkout_date, price);

    assert_eq!(result, Err(ModelError::SessionAlreadyClosed))
}

#[test]
fn returns_error_if_checkout_before_checkin() {
    let parking_session_id = Uuid::new_v4();
    let plate = String::from("XXX-0000");
    let tariff_policy_id: i64 = 1;
    let checkin_date = timestamp(DateTime::from_str("2025-01-01T12:00:00.000Z").unwrap());
    let mut parking_session = ParkingSession::start(
        parking_session_id,
        plate.clone(),
        tariff_policy_id,
        checkin_date,
    );

    let tariff_policy = TariffPolicy {
        id: 1,
        first_hour_rate: 500,
        grace_period: span(Duration::minutes(15)),
        hourly_rate: 200,
    };

    let checkout_date = timestamp(DateTime::from_str("2025-01-01T11:59:00.000Z").unwrap());
    let price = tariff_policy.calculate(parking_session.started_at, checkout_date);
    let result = parking_session.close(checkout_date, price);

    assert_eq!(result, Err(ModelError::InvalidCheckoutDate))
}

#[test]
fn closes_session_and_calculates_price() {
    let parking_session_id = Uuid::new_v4();
    let plate = String::from("XXX-0000");
    let tariff_policy_id: i64 = 1;
    let checkin_date = timestamp(DateTime::from_str("2025-01-01T12:00:00.000Z").unwrap());
    let mut parking_session = ParkingSession::start(
        parking_session_id,
        plate.clone(),
        tariff_policy_id,
        checkin_date,
    );

    let tariff_policy = TariffPolicy {
        id: 1,
        first_hour_rate: 500,
        grace_period: span(Duration::minutes(15)),
        hourly_rate: 200,
    };

    let checkout_date = timestamp(DateTime::from_str("2025-01-01T12:59:00.000Z").unwrap());
    let price = tariff_policy.calculate(parking_session.started_at, checkout_date);
    parking_session.close(checkout_date, price).unwrap();

    let expected_price: i64 = 500;
    assert_eq!(parking_session.price, Some(expected_price));
    assert_eq!(parking_session.closed_at, Some(checkout_date));
}

#[test]
fn closes_session_and_applies_grace_period_pricing() {
    let parking_session_id = Uuid::new_v4();
    let plate = String::from("XXX-0000");
    let tariff_policy_id: i64 = 1;
    let checkin_date = timestamp(DateTime::from_str("2025-01-01T12:00:00.000Z").unwrap());
    let mut parking_session = ParkingSession::start(
        parking_session_id,
        plate.clone(),
        tariff_policy_id,
        checkin_date,
    );

    let tariff_policy = TariffPolicy {
        id: 1,
        first_hour_rate: 500,
        grace_period: span(Duration::minutes(15)),
        hourly_rate: 200,
    };

    let checkout_date = timestamp(DateTime::from_str("2025-01-01T12:15:00.000Z").unwrap());
    let price = tariff_policy.calculate(parking_session.started_at, checkout_date);
    parking_session.close(checkout_date, price).unwrap();

    let expected_price: i64 = 0;
    assert_eq!(parking_session.price, Some(expected_price));
}

#[test]
fn closes_session_and_calculates_price_with_extra_hours() {
    let parking_session_id = Uuid::new_v4();
    let plate = String::from("XXX-0000");
    let tariff_policy_id: i64 = 1;
    let checkin_date = timestamp(DateTime::from_str("2025-01-01T12:00:00.000Z").unwrap());
    let mut parking_session = ParkingSession::start(
        parking_session_id,
        plate.clone(),
        tariff_policy_id,
        checkin_date,
    );

    let tariff_policy = TariffPolicy {
        id: 1,
        first_hour_rate: 500,
        grace_period: span(Duration::minutes(15)),
        hourly_rate: 200,
    };

    let checkout_date = timestamp(DateTime::from_str("2025-01-01T13:00:00.000Z").unwrap());
    let price = tariff_policy.calculate(parking_session.started_at, checkout_date);
    parking_session.close(checkout_date, price).unwrap();

    let expected_price: i64 = 700;
    assert_eq!(parking_session.price, Some(expected_price));
}

#[test]
fn start_leaves_checkout_and_price_unset() {
    let id = Uuid::new_v4();
    let checkin_date = Timestamp::new(1_735_732_800, 0).unwrap();
    let session = ParkingSession::start(id, String::from("ABC-1234"), 42, checkin_date);

    assert_eq!(session.id, id);
    assert_eq!(session.plate, "ABC-1234");
    assert_eq!(session.tariff_policy_id, 42);
    assert_eq!(session.started_at, checkin_date);
    assert_eq!(session.closed_at, None);
    assert_eq!(session.price, None);
}

#[test]
fn close_accepts_a_checkout_at_the_very_checkin() {
    let checkin_date = Timestamp::new(1_735_732_800, 250).unwrap();
    let mut session = ParkingSession::start(Uuid::new_v4(), String::from("ABC-1234"), 1, checkin_date);

    assert_eq!(session.close(checkin_date, 0), Ok(()));
    assert_eq!(session.closed_at, Some(checkin_date));
    assert_eq!(session.price, Some(0));
}

#[test]
fn close_refuses_a_checkout_one_nanosecond_early() {
    let id = Uuid::new_v4();
    let checkin_date = Timestamp::new(1_735_732_800, 250).unwrap();
    let checkout_date = Timestamp::new(1_735_732_800, 249).unwrap();
    let mut session = ParkingSession::start(id, String::from("ABC-1234"), 9, checkin_date);

    assert_eq!(session.close(checkout_date, 500), Err(ModelError::InvalidCheckoutDate));
    assert_eq!(session.id, id);
    assert_eq!(session.plate, "ABC-1234");
    assert_eq!(session.tariff_policy_id, 9);
    assert_eq!(session.started_at, checkin_date);
    assert_eq!(session.closed_at, None);
    assert_eq!(session.price, None);
}

#[test]
fn refused_close_can_be_followed_by_a_valid_one() {
    let checkin_date = Timestamp::new(1_735_732_800, 0).unwrap();
    let early = Timestamp::new(1_735_732_799, 999_999_999).unwrap();
    let checkout_date = Timestamp::new(1_735_736_400, 0).unwrap();
    let mut session = ParkingSession::start(Uuid::new_v4(), String::from("ABC-1234"), 1, checkin_date);

    assert_eq!(session.close(early, 1), Err(ModelError::InvalidCheckoutDate));
    assert_eq!(session.close(checkout_date, 700), Ok(()));
    assert_eq!(session.closed_at, Some(checkout_date));
    assert_eq!(session.price, Some(700));
}

#[test]
fn second_close_is_refused_whatever_is_asked() {
    let checkin_date = Timestamp::new(1_735_732_800, 0).unwrap();
    let checkout_date = Timestamp::new(1_735_736_340, 0).unwrap();
    let mut session = ParkingSession::start(Uuid::new_v4(), String::from("ABC-1234"), 1, checkin_date);
    session.close(checkout_date, 500).unwrap();

    let later = Timestamp::new(1_735_740_000, 0).unwrap();
    let early = Timestamp::new(1_735_732_740, 0).unwrap();
    assert_eq!(session.close(later, 900), Err(ModelError::SessionAlreadyClosed));
    assert_eq!(session.close(checkout_date, 500), Err(ModelError::SessionAlreadyClosed));
    assert_eq!(session.close(early, 0), Err(ModelError::SessionAlreadyClosed));

    assert_eq!(session.closed_at, Some(checkout_date));
    assert_eq!(session.price, Some(500));
    assert_eq!(session.started_at, checkin_date);
}
