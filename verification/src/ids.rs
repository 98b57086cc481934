use vstd::prelude::*;
use uuid::Uuid;

verus! {

/// A fresh random identifier: `Uuid::new_v4`, written by its `Display` as
/// 32 lowercase hex digits in groups of 8-4-4-4-12 joined by hyphens. Only
/// its length is stated; the value is random.
#[verifier::external_body]
pub(crate) fn new_uuid() -> (r: String)
    ensures
        r@.len() == 36,
{
    Uuid::new_v4().to_string()
}

} // verus!
