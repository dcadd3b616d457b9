use vstd::prelude::*;

verus! {

/// Failures of chain-identity resolution and ruleset derivation.
///
/// Absence of an overlay section is deliberately not represented here: a
/// missing or unreadable overlay degrades to "no overlay" and never fails
/// a job.
#[derive(Clone, Copy, PartialEq, Eq, Structural, Debug)]
pub enum ChainSpecError {
    /// The numeric chain id is not in the known set; carries the offending id.
    ChainNotSupported(u64),
    /// A named variant was requested for an execution-layer family it does
    /// not belong to.
    InvalidConversion,
    /// A genesis or custom-configuration payload failed to parse.
    MalformedPayload,
}

impl ChainSpecError {
    /// A short human-readable description of the error.
    pub fn describe(&self) -> (r: &'static str)
        ensures
            self matches ChainSpecError::ChainNotSupported(_) ==> r@ == "chain not supported"@,
            self is InvalidConversion ==> r@ == "invalid conversion"@,
            self is MalformedPayload ==> r@ == "malformed payload"@,
    {
        match self {
            ChainSpecError::ChainNotSupported(_) => "chain not supported",
            ChainSpecError::InvalidConversion => "invalid conversion",
            ChainSpecError::MalformedPayload => "malformed payload",
        }
    }
}

} // verus!
