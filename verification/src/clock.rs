//! The time of day, and the arithmetic on it that credentials need.

use vstd::prelude::*;
use crate::error::ServiceError;

verus! {

/// How long a credential stays valid, in seconds.
pub const TOKEN_VALIDITY_SECONDS: i64 = 3600;

/// The last second that the calendar holds: the end of the year 262142.
pub const CALENDAR_MAX_SECONDS: i64 = 8210266876799;

/// `std::time::SystemTime::elapsed` on `UNIX_EPOCH`: the time since the start
/// of 1970, or nothing where the clock stands before it. Nothing is known of
/// the value.
#[verifier::external_body]
pub(crate) fn elapsed_since_epoch() -> (r: Option<core::time::Duration>) {
    std::time::UNIX_EPOCH.elapsed().ok()
}

/// The whole seconds of a `Duration`. Nothing is stated of the number.
pub assume_specification[ core::time::Duration::as_secs ](d: &core::time::Duration) -> (secs: u64);

/// `chrono`'s calendar addition on timestamps: `DateTime::from_timestamp`
/// with no nanoseconds, `TimeDelta::try_seconds`, `checked_add_signed` and
/// `timestamp`. A result is the sum, and a moment that the calendar holds.
/// From a moment since 1970 and a span that is not negative there is a
/// result whenever the sum does not pass the calendar's last second.
#[verifier::external_body]
pub(crate) fn add_seconds(at: i64, delta: i64) -> (r: Option<i64>)
    ensures
        r matches Some(t) ==> t == at + delta && t <= CALENDAR_MAX_SECONDS,
        0 <= at && 0 <= delta && at + delta <= CALENDAR_MAX_SECONDS ==> r is Some,
{
    let start = chrono::DateTime::from_timestamp(at, 0)?;
    let span = chrono::TimeDelta::try_seconds(delta)?;
    Some(start.checked_add_signed(span)?.timestamp())
}

/// The seconds since the start of 1970, as the clock has them now.
pub fn unix_seconds() -> (r: Result<u64, ServiceError>)
    ensures
        r is Err ==> r == Err::<u64, ServiceError>(ServiceError::Internal),
{
    let elapsed = match elapsed_since_epoch() {
        Some(d) => Some(d.as_secs()),
        None => None,
    };
    seconds_from(elapsed)
}

/// What a reading of the clock means for the service: the seconds it gave,
/// or an internal failure where it stood before 1970 and gave none.
pub fn seconds_from(elapsed: Option<u64>) -> (r: Result<u64, ServiceError>)
    ensures
        match elapsed {
            Some(secs) => r == Ok::<u64, ServiceError>(secs),
            None => r == Err::<u64, ServiceError>(ServiceError::Internal),
        },
{
    match elapsed {
        Some(secs) => Ok(secs),
        None => Err(ServiceError::Internal),
    }
}

/// For a credential issued at `now`, the moment it expires.
pub open spec fn expiry_of(now: u64) -> int {
    now + TOKEN_VALIDITY_SECONDS
}

/// What the calendar's sum means for a credential: the moment of expiry,
/// where there is a sum and it does not lie before 1970.
pub open spec fn expiry_in(sum: Option<i64>) -> Result<u64, ServiceError> {
    match sum {
        Some(t) => if t >= 0 {
            Ok(t as u64)
        } else {
            Err(ServiceError::Internal)
        },
        None => Err(ServiceError::Internal),
    }
}

/// Turns the calendar's sum into a moment of expiry.
pub fn expiry_from(sum: Option<i64>) -> (r: Result<u64, ServiceError>)
    ensures
        r == expiry_in(sum),
{
    match sum {
        Some(t) => {
            if t >= 0 {
                Ok(t as u64)
            } else {
                Err(ServiceError::Internal)
            }
        },
        None => Err(ServiceError::Internal),
    }
}

/// The expiry of a credential issued at `now`: one hour later, where the
/// calendar holds that moment, and an internal failure where it does not.
pub open spec fn expiry_at(now: u64) -> Result<u64, ServiceError> {
    if expiry_of(now) <= CALENDAR_MAX_SECONDS {
        Ok(expiry_of(now) as u64)
    } else {
        Err(ServiceError::Internal)
    }
}

/// The expiry of a credential issued at `now`: one hour later. It fails
/// only where the calendar cannot hold that moment.
pub fn token_expiry(now: u64) -> (r: Result<u64, ServiceError>)
    ensures
        r == expiry_at(now),
{
    if now > 9223372036854772207u64 {
        return Err(ServiceError::Internal);
    }
    expiry_from(add_seconds(now as i64, TOKEN_VALIDITY_SECONDS))
}

} // verus!
