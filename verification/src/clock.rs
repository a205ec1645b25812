//! The time source adapter: reads the local wall-clock time through
//! the `time` crate and hands the rest of the library a plain,
//! well-formed time of day.
use vstd::prelude::*;
use vstd::string::StringExecFns;
use crate::error::Error;
use crate::timefmt::Hms;

verus! {

#[verifier::external_type_specification]
#[verifier::external_body]
pub struct ExOffsetDateTime(time::OffsetDateTime);

#[verifier::external_type_specification]
#[verifier::external_body]
pub struct ExIndeterminateOffset(time::error::IndeterminateOffset);

/// Relies on `time::OffsetDateTime::now_local`: reads the current date
/// and time in the local offset, or reports that the offset cannot be
/// determined. Nothing is promised of the value: it depends on the
/// clock and the environment.
#[verifier::external_body]
fn read_local_clock() -> Result<time::OffsetDateTime, time::error::IndeterminateOffset> {
    time::OffsetDateTime::now_local()
}

/// Relies on `time::OffsetDateTime::hour`: documented to always return
/// a value in the range `0..24`.
#[verifier::external_body]
fn hour_of(t: &time::OffsetDateTime) -> (h: u8)
    ensures
        h < 24,
{
    t.hour()
}

/// Relies on `time::OffsetDateTime::minute`: documented to always
/// return a value in the range `0..60`.
#[verifier::external_body]
fn minute_of(t: &time::OffsetDateTime) -> (m: u8)
    ensures
        m < 60,
{
    t.minute()
}

/// Relies on `time::OffsetDateTime::second`: documented to always
/// return a value in the range `0..60`.
#[verifier::external_body]
fn second_of(t: &time::OffsetDateTime) -> (s: u8)
    ensures
        s < 60,
{
    t.second()
}

/// Read the current local time of day. Whatever the clock returns, a
/// success is a well-formed time; if the local offset cannot be
/// determined, the run fails with a fatal clock error, not retried.
pub fn current_time() -> (r: Result<Hms, Error>)
    ensures
        r matches Ok(t) ==> t.wf(),
        r matches Err(e) ==> (e matches Error::Clock(m) && m@
            == "unable to determine local time"@),
{
    match read_local_clock() {
        Ok(t) => Ok(Hms { hour: hour_of(&t), minute: minute_of(&t), second: second_of(&t) }),
        Err(_) => Err(Error::Clock(String::from_str("unable to determine local time"))),
    }
}

} // verus!
