//! The request/response boundary: turning raw request data into
//! validated parameters, and building the response a front end reports
//! to its caller.

use vstd::prelude::*;

use crate::params::RingParameters;
use crate::ring_type::RingError;
use crate::ring_type::RingType;
use crate::ring_type::parse_spec;

verus! {

/// The outcome a front end reports for one generation request.
#[derive(Debug)]
pub struct RingResponse {
    pub success: bool,
    pub message: String,
    pub filename: Option<String>,
    pub file_path: Option<String>,
}

/// The message of a successful generation:
/// `Successfully generated {code} ring`.
pub open spec fn success_message_chars(rt: RingType) -> Seq<char> {
    "Successfully generated "@ + rt.code_chars() + " ring"@
}

/// Everything a generation request decides before any file is
/// written: parses the ring style and validates the dimensions (tenths
/// of a millimetre). Returns the validated parameters, or the exact
/// error: [`RingError::InvalidRingType`] when the style string parses
/// to nothing, else [`RingError::InvalidParameters`] when the
/// dimensions are rejected.
pub fn plan_ring(ring_type: &str, outer_diameter: i32, inner_diameter: i32) -> (res: Result<
    RingParameters,
    RingError,
>)
    ensures
        match res {
            Ok(p) => parse_spec(ring_type@) == Some(p.ring_type) && 0 < inner_diameter
                < outer_diameter && p == (RingParameters {
                ring_type: p.ring_type,
                outer_diameter,
                inner_diameter,
                height: 220,
            }) && p.valid(),
            Err(e) => if parse_spec(ring_type@) is None {
                e == RingError::InvalidRingType
            } else {
                !(0 < inner_diameter < outer_diameter) && e == RingError::InvalidParameters
            },
        },
{
    let rt = match RingType::from_str(ring_type) {
        Ok(rt) => rt,
        Err(e) => {
            return Err(e);
        },
    };
    RingParameters::new(rt, outer_diameter, inner_diameter)
}

/// The response for a generation that wrote its file: success, the
/// canonical message naming the style's code, and the produced
/// filename and path.
pub fn success_response(ring_type: RingType, filename: String, file_path: String) -> (r:
    RingResponse)
    ensures
        r.success == true,
        r.message@ == success_message_chars(ring_type),
        r.filename == Some(filename),
        r.file_path == Some(file_path),
{
    let mut message = String::from_str("Successfully generated ");
    let code = ring_type.to_string();
    message.append(code.as_str());
    message.append(" ring");
    proof {
        assert(message@ =~= success_message_chars(ring_type));
    }
    RingResponse { success: true, message, filename: Some(filename), file_path: Some(file_path) }
}

/// The response for a failed request: no file, only the message.
pub fn failure_response(message: String) -> (r: RingResponse)
    ensures
        r.success == false,
        r.message == message,
        r.filename is None,
        r.file_path is None,
{
    RingResponse { success: false, message, filename: None, file_path: None }
}

} // verus!
