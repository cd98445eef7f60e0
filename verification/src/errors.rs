use vstd::prelude::*;

verus! {

/// Account checks that the framework makes before an instruction's handler
/// runs, as the programs declare them on their account structs.
#[derive(Clone, Copy, Debug, PartialEq, Eq, Structural)]
pub enum ConstraintError {
    /// An account that must sign the transaction did not.
    AccountNotSigner,
    /// An account that the instruction creates already exists.
    AccountAlreadyInUse,
    /// A `has_one` check failed: a key stored in an account differs from
    /// the key of the account passed under that name.
    ConstraintHasOne,
    /// A `constraint = ..` expression was false.
    ConstraintRaw,
    /// An account is not at the address that its declared seeds give.
    ConstraintSeeds,
}

} // verus!
