//! Fresh opaque identifiers for sessions, secrets and connections.

use vstd::prelude::*;

verus! {

/// Relies on uuid's `Uuid::new_v4` and `Hyphenated::encode_upper`: a
/// random version-4 UUID in its hyphenated textual form, which is
/// documented to be exactly 36 characters. The value is random, so
/// nothing further can be promised of it.
#[verifier::external_body]
pub fn gen_uuid() -> (r: String)
    ensures
        r@.len() == 36,
{
    let mut buffer = [0_u8; 36];
    let id = uuid::Uuid::new_v4().hyphenated();
    let s = id.encode_upper(&mut buffer);
    s.to_string()
}

} // verus!
