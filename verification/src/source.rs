//! Where the documents of an index come from.

use vstd::prelude::*;

verus! {

/// Any error, as `anyhow` represents it.
#[verifier::external_type_specification]
#[verifier::external_body]
pub struct ExError(anyhow::Error);

/// A source of documents.
pub trait Source {
    /// Sets the source going.
    fn spawn(&self) -> anyhow::Result<()>;
}

} // verus!
