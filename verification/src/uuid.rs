use vstd::prelude::*;
use crate::primitives::nanos_since_epoch;
use crate::text::{lower_hex, lower_hex_string};

verus! {

/// The identifier written for a clock reading in nanoseconds: the low 64
/// bits in lowercase hexadecimal.
pub fn uuid_from_nanos(nanos: u128) -> (res: String)
    ensures
        res@ == lower_hex((nanos as u64) as nat),
{
    #[verifier::truncate]
    let low: u64 = nanos as u64;
    lower_hex_string(low)
}

/// An identifier made from the current time: the nanoseconds since 1970,
/// truncated to 64 bits, in lowercase hexadecimal; `None` when the clock
/// reads before 1970.
pub fn generate_random_uuid() -> (res: Option<String>)
    ensures
        res matches Some(s) ==> exists|t: u64| s@ == lower_hex(t as nat),
{
    match nanos_since_epoch() {
        Some(nanos) => {
            let res = uuid_from_nanos(nanos);
            assert(res@ == lower_hex((nanos as u64) as nat));
            Some(res)
        },
        None => None,
    }
}

} // verus!
