//! The capability contract as a dispatch table over the signer variants:
//! each variant offers a subset of the operations, and every other operation
//! fails as unsupported.
use vstd::prelude::*;
use vstd::string::*;

use crate::chain::solana_mainnet;
use crate::error::{Attribute, Operation, SignerError};
use crate::privy::{EvmTarget, PrivySigner, SignRequest, SolanaSubmission, SolanaTarget};

verus! {

/// A transaction, tagged with the chain it belongs to. EVM requests are passed
/// to the signing operations directly, so their variant holds nothing.
pub enum Transaction {
    Solana(solana_sdk::transaction::VersionedTransaction),
    Evm,
}

impl Transaction {
    /// The one signing operation that applies to this transaction.
    pub fn operation(&self) -> (r: Operation)
        ensures
            r == (match self {
                Transaction::Solana(_) => Operation::SolanaTransaction,
                Transaction::Evm => Operation::EvmTransaction,
            }),
    {
        match self {
            Transaction::Solana(_) => Operation::SolanaTransaction,
            Transaction::Evm => Operation::EvmTransaction,
        }
    }
}

/// The closed set of signer backends.
#[derive(Debug, Clone, Copy, PartialEq, Eq, Structural)]
pub enum SignerKind {
    LocalSolana,
    LocalEvm,
    Privy,
}

/// Which operations each kind of signer offers.
pub open spec fn supports(kind: SignerKind, op: Operation) -> bool {
    match kind {
        SignerKind::LocalSolana => op == Operation::SolanaTransaction,
        SignerKind::LocalEvm => op == Operation::EvmTransaction,
        SignerKind::Privy => true,
    }
}

/// A signer holding a Solana key locally; identified by its public key.
#[derive(Clone)]
pub struct LocalSolanaSigner {
    pub pubkey: String,
}

/// A signer holding an EVM key locally; identified by its address.
#[derive(Clone)]
pub struct LocalEvmSigner {
    pub address: String,
}

impl LocalSolanaSigner {
    pub fn new(pubkey: String) -> (r: Self)
        ensures
            r.pubkey == pubkey,
    {
        LocalSolanaSigner { pubkey }
    }
}

impl LocalEvmSigner {
    pub fn new(address: String) -> (r: Self)
        ensures
            r.address == address,
    {
        LocalEvmSigner { address }
    }
}

/// How a transaction is signed: with a key held here, or by the wallet provider.
pub enum Route<T> {
    Local,
    Custodial(T),
}

/// One signer backend of any kind.
#[derive(Clone)]
pub enum SignerType {
    LocalSolana(LocalSolanaSigner),
    LocalEvm(LocalEvmSigner),
    Privy(PrivySigner),
}

/// The locale of a signer that names none.
pub open spec fn default_locale() -> Seq<char> {
    "en"@
}

impl SignerType {
    pub open spec fn kind_spec(&self) -> SignerKind {
        match self {
            SignerType::LocalSolana(_) => SignerKind::LocalSolana,
            SignerType::LocalEvm(_) => SignerKind::LocalEvm,
            SignerType::Privy(_) => SignerKind::Privy,
        }
    }

    pub open spec fn address_spec(&self) -> Option<String> {
        match self {
            SignerType::LocalSolana(s) => Some(s.pubkey),
            SignerType::LocalEvm(s) => Some(s.address),
            SignerType::Privy(p) => p.session.wallet_address,
        }
    }

    pub open spec fn pubkey_spec(&self) -> Option<String> {
        match self {
            SignerType::LocalSolana(s) => Some(s.pubkey),
            SignerType::LocalEvm(_) => None,
            SignerType::Privy(p) => p.session.pubkey,
        }
    }

    pub open spec fn evm_wallet_id_spec(&self) -> Option<String> {
        match self {
            SignerType::Privy(p) => p.session.evm_wallet_id,
            _ => None,
        }
    }

    pub fn kind(&self) -> (r: SignerKind)
        ensures
            r == self.kind_spec(),
    {
        match self {
            SignerType::LocalSolana(_) => SignerKind::LocalSolana,
            SignerType::LocalEvm(_) => SignerKind::LocalEvm,
            SignerType::Privy(_) => SignerKind::Privy,
        }
    }

    pub fn supports(&self, op: Operation) -> (r: bool)
        ensures
            r == supports(self.kind_spec(), op),
    {
        match self {
            SignerType::LocalSolana(_) => op == Operation::SolanaTransaction,
            SignerType::LocalEvm(_) => op == Operation::EvmTransaction,
            SignerType::Privy(_) => true,
        }
    }

    /// Succeeds exactly when this signer offers `op`.
    pub fn require(&self, op: Operation) -> (r: Result<(), SignerError>)
        ensures
            supports(self.kind_spec(), op) ==> r is Ok,
            !supports(self.kind_spec(), op) ==> r == Err::<(), SignerError>(
                SignerError::Unsupported(op),
            ),
    {
        if self.supports(op) {
            Ok(())
        } else {
            Err(SignerError::Unsupported(op))
        }
    }

    pub fn locale(&self) -> (r: String)
        ensures
            self is Privy ==> r == self->Privy_0.locale,
            !(self is Privy) ==> r@ == default_locale(),
    {
        match self {
            SignerType::Privy(p) => p.locale(),
            _ => String::from_str("en"),
        }
    }

    pub fn user_id(&self) -> (r: Option<String>)
        ensures
            self is Privy ==> r == Some(self->Privy_0.session.user_id),
            !(self is Privy) ==> r is None,
    {
        match self {
            SignerType::Privy(p) => p.user_id(),
            _ => None,
        }
    }

    pub fn address(&self) -> (r: Option<String>)
        ensures
            r == self.address_spec(),
    {
        match self {
            SignerType::LocalSolana(s) => Some(s.pubkey.clone()),
            SignerType::LocalEvm(s) => Some(s.address.clone()),
            SignerType::Privy(p) => p.address(),
        }
    }

    pub fn pubkey(&self) -> (r: Option<String>)
        ensures
            r == self.pubkey_spec(),
    {
        match self {
            SignerType::LocalSolana(s) => Some(s.pubkey.clone()),
            SignerType::LocalEvm(_) => None,
            SignerType::Privy(p) => p.pubkey(),
        }
    }

    pub fn evm_wallet_id(&self) -> (r: Option<String>)
        ensures
            r == self.evm_wallet_id_spec(),
    {
        match self {
            SignerType::Privy(p) => p.evm_wallet_id(),
            _ => None,
        }
    }

    /// How a Solana transaction of this signer is signed.
    pub fn solana_route(&self) -> (r: Result<Route<SolanaTarget>, SignerError>)
        ensures
            !supports(self.kind_spec(), Operation::SolanaTransaction) ==> r == Err::<
                Route<SolanaTarget>,
                SignerError,
            >(SignerError::Unsupported(Operation::SolanaTransaction)),
            self is LocalSolana ==> r == Ok::<Route<SolanaTarget>, SignerError>(Route::Local),
            self is Privy && self.pubkey_spec() is None ==> r == Err::<
                Route<SolanaTarget>,
                SignerError,
            >(SignerError::MissingAttribute(Attribute::Pubkey)),
            self is Privy && self.pubkey_spec() is Some ==> r is Ok && (r->Ok_0 matches Route::<
                SolanaTarget,
            >::Custodial(t) && t.pubkey == self.pubkey_spec()->Some_0 && t.chain@
                == solana_mainnet()),
    {
        match self {
            SignerType::LocalSolana(_) => Ok(Route::Local),
            SignerType::LocalEvm(_) => Err(SignerError::Unsupported(Operation::SolanaTransaction)),
            SignerType::Privy(p) => match p.solana_target() {
                Ok(t) => Ok(Route::Custodial(t)),
                Err(e) => Err(e),
            },
        }
    }

    /// How an EVM request with the given chain id is signed.
    pub fn evm_route(&self, chain_id: Option<u64>) -> (r: Result<Route<EvmTarget>, SignerError>)
        ensures
            !supports(self.kind_spec(), Operation::EvmTransaction) ==> r == Err::<
                Route<EvmTarget>,
                SignerError,
            >(SignerError::Unsupported(Operation::EvmTransaction)),
            self is LocalEvm ==> r == Ok::<Route<EvmTarget>, SignerError>(Route::Local),
            self is Privy && self.evm_wallet_id_spec() is None ==> r == Err::<
                Route<EvmTarget>,
                SignerError,
            >(SignerError::MissingAttribute(Attribute::EvmWalletId)),
            self is Privy && self.evm_wallet_id_spec() is Some ==> r is Ok && (r->Ok_0 matches Route::<
                EvmTarget,
            >::Custodial(t) && t.wallet_id == self.evm_wallet_id_spec()->Some_0 && t.chain@
                == crate::chain::evm_request_chain(chain_id)),
    {
        match self {
            SignerType::LocalEvm(_) => Ok(Route::Local),
            SignerType::LocalSolana(_) => Err(SignerError::Unsupported(Operation::EvmTransaction)),
            SignerType::Privy(p) => match p.evm_target(chain_id) {
                Ok(t) => Ok(Route::Custodial(t)),
                Err(e) => Err(e),
            },
        }
    }

    /// An already encoded Solana transaction, ready for the wallet provider.
    pub fn prepare_encoded_solana_transaction(&self, encoded: String) -> (r: Result<
        SolanaSubmission,
        SignerError,
    >)
        ensures
            !supports(self.kind_spec(), Operation::EncodedSolanaTransaction) ==> r == Err::<
                SolanaSubmission,
                SignerError,
            >(SignerError::Unsupported(Operation::EncodedSolanaTransaction)),
            self is Privy && self.pubkey_spec() is None ==> r == Err::<
                SolanaSubmission,
                SignerError,
            >(SignerError::MissingAttribute(Attribute::Pubkey)),
            self is Privy && self.pubkey_spec() is Some ==> r is Ok && r->Ok_0.pubkey
                == self.pubkey_spec()->Some_0 && r->Ok_0.chain@ == solana_mainnet()
                && r->Ok_0.payload == encoded,
    {
        match self {
            SignerType::Privy(p) => p.prepare_encoded_solana_transaction(encoded),
            _ => Err(SignerError::Unsupported(Operation::EncodedSolanaTransaction)),
        }
    }

    /// Where a structured EVM payload goes, given an explicit chain identifier
    /// or the chain id embedded in the payload.
    pub fn json_evm_target(&self, chain: Option<String>, embedded: Option<u64>) -> (r: Result<
        EvmTarget,
        SignerError,
    >)
        ensures
            !supports(self.kind_spec(), Operation::JsonEvmTransaction) ==> r == Err::<
                EvmTarget,
                SignerError,
            >(SignerError::Unsupported(Operation::JsonEvmTransaction)),
            self is Privy && self.evm_wallet_id_spec() is None ==> r == Err::<
                EvmTarget,
                SignerError,
            >(SignerError::MissingAttribute(Attribute::EvmWalletId)),
            self is Privy && self.evm_wallet_id_spec() is Some && chain is Some ==> r is Ok
                && r->Ok_0.wallet_id == self.evm_wallet_id_spec()->Some_0 && r->Ok_0.chain
                == chain->Some_0,
            self is Privy && self.evm_wallet_id_spec() is Some && chain is None && embedded is Some
                ==> r is Ok && r->Ok_0.wallet_id == self.evm_wallet_id_spec()->Some_0
                && r->Ok_0.chain@ == crate::chain::evm_chain(embedded->Some_0 as nat),
            self is Privy && self.evm_wallet_id_spec() is Some && chain is None && embedded is None
                ==> r == Err::<EvmTarget, SignerError>(SignerError::ChainIdRequired),
    {
        match self {
            SignerType::Privy(p) => p.json_evm_target(chain, embedded),
            _ => Err(SignerError::Unsupported(Operation::JsonEvmTransaction)),
        }
    }

    /// The request that asks the wallet provider to sign a 256-bit digest.
    pub fn sign_request(&self, digest: &[u8; 32]) -> (r: Result<SignRequest, SignerError>)
        ensures
            !supports(self.kind_spec(), Operation::Secp256k1Sign) ==> r == Err::<
                SignRequest,
                SignerError,
            >(SignerError::Unsupported(Operation::Secp256k1Sign)),
            self is Privy && self.evm_wallet_id_spec() is None ==> r == Err::<
                SignRequest,
                SignerError,
            >(SignerError::MissingAttribute(Attribute::EvmWalletId)),
            self is Privy && self.evm_wallet_id_spec() is Some ==> r is Ok && r->Ok_0.wallet_id
                == self.evm_wallet_id_spec()->Some_0 && r->Ok_0.message@
                == crate::privy::hex_message(digest@),
    {
        match self {
            SignerType::Privy(p) => p.sign_request(digest),
            _ => Err(SignerError::Unsupported(Operation::Secp256k1Sign)),
        }
    }
}

} // verus!
