//! The naming convention that marks a document as protected.
//!
//! Protection is decided by the name alone, so that the listing and the
//! access gate agree without looking at any shared state.

use vstd::prelude::*;

use crate::text::{has_prefix, to_chars};

verus! {

/// The reserved prefix of protected document names.
pub open spec fn protected_prefix() -> Seq<char> {
    "secure"@
}

/// A document is protected exactly when its name begins with the reserved
/// prefix.
pub open spec fn is_protected(id: Seq<char>) -> bool {
    protected_prefix().is_prefix_of(id)
}

/// Whether the document called `id` is protected.
pub fn is_protected_name(id: &str) -> (protected: bool)
    ensures
        protected == is_protected(id@),
{
    let name = to_chars(id);
    let prefix = to_chars("secure");
    has_prefix(&name, &prefix)
}

} // verus!
