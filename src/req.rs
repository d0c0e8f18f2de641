use vstd::prelude::*;

verus! {

/// Access to the head of a request (method, URI, version, headers) without its body.
pub trait AsReqParts {
    type Parts;

    fn as_parts(&self) -> &Self::Parts;
}

} // verus!
