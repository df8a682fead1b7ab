use vstd::prelude::*;

verus! {

/// Relies on uuid::Uuid::new_v4, rendered in the hyphenated form: a freshly
/// drawn random identifier, always 36 characters. Nothing ties two draws
/// together, so callers must check for collisions themselves. Panics only
/// if the operating system's randomness source fails — an environmental
/// failure no input can trigger.
#[verifier::external_body]
pub(crate) fn fresh_id() -> (r: String)
    ensures
        r@.len() == 36,
{
    uuid::Uuid::new_v4().to_string()
}

} // verus!
