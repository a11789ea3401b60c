//! Correlation ids for tracing one causal chain through logs and events.

use vstd::prelude::*;
use crate::strings::owned;
use vstd::string::*;

verus! {

/// Relies on `uuid::Uuid::new_v4` and its hyphenated display form, which
/// is 36 characters long.
#[verifier::external_body]
pub(crate) fn uuid_v4_text() -> (r: String)
    ensures
        r@.len() == 36,
{
    uuid::Uuid::new_v4().hyphenated().to_string()
}

/// A fresh correlation id: `corr-` and a random UUID.
pub fn generate() -> (r: String)
    ensures
        r@.len() == 41,
        r@.subrange(0, 5) == "corr-"@,
{
    proof { reveal_strlit("corr-"); }
    let mut id = owned("corr-");
    let u = uuid_v4_text();
    id.append(u.as_str());
    assert(id@.subrange(0, 5) =~= "corr-"@);
    id
}

} // verus!
