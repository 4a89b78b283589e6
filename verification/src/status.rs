use vstd::prelude::*;

verus! {

/// The status contract returned by the operator's input handler: exactly
/// three legal values.  Any other integer is an invalid-return-value fault.
#[derive(Clone, Copy, Debug, PartialEq, Eq, Structural)]
pub enum StatusCode {
    Continue,
    Stop,
    StopAll,
}

/// The integer wire value of each legal status code.
pub open spec fn status_value(code: StatusCode) -> int {
    match code {
        StatusCode::Continue => 0,
        StatusCode::Stop => 1,
        StatusCode::StopAll => 2,
    }
}

/// Which status code, if any, a raw handler return value denotes.
pub open spec fn status_of(value: int) -> Option<StatusCode> {
    if value == 0 {
        Some(StatusCode::Continue)
    } else if value == 1 {
        Some(StatusCode::Stop)
    } else if value == 2 {
        Some(StatusCode::StopAll)
    } else {
        None
    }
}

/// Interprets the raw integer returned by the handler; `None` marks the
/// invalid-return-value fault.
pub fn parse_status(value: i32) -> (r: Option<StatusCode>)
    ensures
        r == status_of(value as int),
{
    if value == 0 {
        Some(StatusCode::Continue)
    } else if value == 1 {
        Some(StatusCode::Stop)
    } else if value == 2 {
        Some(StatusCode::StopAll)
    } else {
        None
    }
}

/// The two spec views of the status protocol agree: parsing the wire value
/// of a legal code gives that code back.
pub proof fn lemma_status_round_trip(code: StatusCode)
    ensures
        status_of(status_value(code)) == Some(code),
{
}

} // verus!
