use vstd::prelude::*;

verus! {

/// Why an operation was refused. A refused operation changes nothing.
#[derive(Clone, Copy, Debug, PartialEq, Eq, Structural)]
pub enum PepeDropError {
    /// An allocation or a direct send would exceed what the vault or its
    /// treasury can cover.
    InsufficientTokens,
    /// Nothing new has unlocked since the last claim.
    InsufficientUnlockedTokens,
    /// A product or a counter would not fit in 64 bits.
    ArithmeticError,
}

} // verus!
