use vstd::prelude::*;

verus! {

/// A signing operation of the capability contract.
#[derive(Debug, Clone, Copy, PartialEq, Eq, Structural)]
pub enum Operation {
    SolanaTransaction,
    EncodedSolanaTransaction,
    EvmTransaction,
    JsonEvmTransaction,
    Secp256k1Sign,
}

/// An identity attribute that an operation may need.
#[derive(Debug, Clone, Copy, PartialEq, Eq, Structural)]
pub enum Attribute {
    Pubkey,
    EvmWalletId,
}

/// Why a signing operation did not go through.
#[derive(Debug, Clone, PartialEq, Eq)]
pub enum SignerError {
    /// The signer kind does not offer the operation.
    Unsupported(Operation),
    /// The signer lacks an identity attribute that the operation needs.
    MissingAttribute(Attribute),
    /// An EVM submission named no chain, explicitly or inside its payload.
    ChainIdRequired,
    /// The transaction could not be serialized for submission.
    Encoding(Operation),
    /// The wallet backend or venue refused the call; the text is its reason.
    Backend(Operation, String),
}

} // verus!
