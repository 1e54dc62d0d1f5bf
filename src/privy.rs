//! The remote custodial signer: which identity attributes each operation
//! needs, which chain a request goes to, and what is handed to the wallet API.
use vstd::prelude::*;
use vstd::string::*;

use crate::chain::{
    evm_chain, evm_chain_for, evm_request_chain, json_chain_for, solana_chain, solana_mainnet,
};
use crate::error::{Attribute, Operation, SignerError};
use crate::outside::{
    base64_encode, base64_of, embedded_chain_id, embedded_chain_id_of, hex_encode, lower_hex,
    recent_blockhash_of, request_chain_id, request_chain_id_of, request_json_of, request_to_json,
    serialize_transaction, set_recent_blockhash, wire_bytes_of, with_blockhash,
};

verus! {

/// The identity that a wallet provider has bound to a user.
#[derive(Clone)]
pub struct UserSession {
    pub user_id: String,
    pub wallet_address: Option<String>,
    pub pubkey: Option<String>,
    pub evm_wallet_id: Option<String>,
}

/// A signer whose keys are held by a remote wallet provider.
#[derive(Clone)]
pub struct PrivySigner {
    pub session: UserSession,
    pub locale: String,
}

/// Where a Solana transaction is executed: the wallet's public key and the chain.
pub struct SolanaTarget {
    pub pubkey: String,
    pub chain: String,
}

/// Where an EVM transaction is executed: the wallet id and the chain.
pub struct EvmTarget {
    pub wallet_id: String,
    pub chain: String,
}

/// A Solana transaction ready for the wallet API: target and encoded payload.
pub struct SolanaSubmission {
    pub pubkey: String,
    pub chain: String,
    pub payload: String,
}

/// An EVM transaction ready for the wallet API: target and structured payload.
pub struct EvmSubmission {
    pub wallet_id: String,
    pub chain: String,
    pub payload: serde_json::Value,
}

/// A message-signing request for the wallet API.
pub struct SignRequest {
    pub wallet_id: String,
    pub message: String,
}

/// The text form of a 256-bit digest handed to the wallet API.
pub open spec fn hex_message(digest: Seq<u8>) -> Seq<char> {
    "0x"@ + lower_hex(digest)
}

fn clone_opt(o: &Option<String>) -> (r: Option<String>)
    ensures
        r == *o,
{
    match o {
        Some(s) => Some(s.clone()),
        None => None,
    }
}

/// Serializes a Solana transaction in its binary wire form, then in base64.
pub fn transaction_to_base64(tx: &solana_sdk::transaction::VersionedTransaction) -> (r: Result<
    String,
    SignerError,
>)
    ensures
        wire_bytes_of(*tx) matches Some(b) ==> r is Ok && r->Ok_0@ == base64_of(b),
        wire_bytes_of(*tx) is None ==> r == Err::<String, SignerError>(
            SignerError::Encoding(Operation::SolanaTransaction),
        ),
{
    match serialize_transaction(tx) {
        Ok(bytes) => Ok(base64_encode(&bytes)),
        Err(_) => Err(SignerError::Encoding(Operation::SolanaTransaction)),
    }
}

impl PrivySigner {
    pub fn new(session: UserSession, locale: String) -> (r: Self)
        ensures
            r.session == session,
            r.locale == locale,
    {
        PrivySigner { session, locale }
    }

    pub fn locale(&self) -> (r: String)
        ensures
            r == self.locale,
    {
        self.locale.clone()
    }

    pub fn user_id(&self) -> (r: Option<String>)
        ensures
            r == Some(self.session.user_id),
    {
        Some(self.session.user_id.clone())
    }

    pub fn address(&self) -> (r: Option<String>)
        ensures
            r == self.session.wallet_address,
    {
        clone_opt(&self.session.wallet_address)
    }

    pub fn pubkey(&self) -> (r: Option<String>)
        ensures
            r == self.session.pubkey,
    {
        clone_opt(&self.session.pubkey)
    }

    pub fn evm_wallet_id(&self) -> (r: Option<String>)
        ensures
            r == self.session.evm_wallet_id,
    {
        clone_opt(&self.session.evm_wallet_id)
    }

    /// Where a Solana transaction of this signer goes; needs a public key.
    pub fn solana_target(&self) -> (r: Result<SolanaTarget, SignerError>)
        ensures
            self.session.pubkey is None ==> r == Err::<SolanaTarget, SignerError>(
                SignerError::MissingAttribute(Attribute::Pubkey),
            ),
            self.session.pubkey is Some ==> r is Ok && r->Ok_0.pubkey == self.session.pubkey->Some_0
                && r->Ok_0.chain@ == solana_mainnet(),
    {
        match &self.session.pubkey {
            Some(p) => Ok(SolanaTarget { pubkey: p.clone(), chain: solana_chain() }),
            None => Err(SignerError::MissingAttribute(Attribute::Pubkey)),
        }
    }

    /// Sets the transaction's recent blockhash and encodes it for submission.
    /// Without a public key nothing is touched.
    pub fn prepare_solana_transaction(
        &self,
        tx: &mut solana_sdk::transaction::VersionedTransaction,
        blockhash: solana_sdk::hash::Hash,
    ) -> (r: Result<SolanaSubmission, SignerError>)
        ensures
            self.session.pubkey is None ==> r == Err::<SolanaSubmission, SignerError>(
                SignerError::MissingAttribute(Attribute::Pubkey),
            ) && *final(tx) == *old(tx),
            self.session.pubkey is Some ==> *final(tx) == with_blockhash(*old(tx), blockhash)
                && recent_blockhash_of(*final(tx)) == blockhash && with_blockhash(
                *final(tx),
                recent_blockhash_of(*old(tx)),
            ) == *old(tx),
            self.session.pubkey is Some ==> match wire_bytes_of(*final(tx)) {
                Some(b) => r is Ok && r->Ok_0.pubkey == self.session.pubkey->Some_0
                    && r->Ok_0.chain@ == solana_mainnet() && r->Ok_0.payload@ == base64_of(b),
                None => r == Err::<SolanaSubmission, SignerError>(
                    SignerError::Encoding(Operation::SolanaTransaction),
                ),
            },
    {
        let target = match self.solana_target() {
            Ok(t) => t,
            Err(e) => return Err(e),
        };
        set_recent_blockhash(tx, blockhash);
        match transaction_to_base64(tx) {
            Ok(payload) => Ok(SolanaSubmission { pubkey: target.pubkey, chain: target.chain, payload }),
            Err(e) => Err(e),
        }
    }

    /// Hands an already encoded Solana transaction on unchanged; needs a public key.
    pub fn prepare_encoded_solana_transaction(&self, encoded: String) -> (r: Result<
        SolanaSubmission,
        SignerError,
    >)
        ensures
            self.session.pubkey is None ==> r == Err::<SolanaSubmission, SignerError>(
                SignerError::MissingAttribute(Attribute::Pubkey),
            ),
            self.session.pubkey is Some ==> r is Ok && r->Ok_0.pubkey == self.session.pubkey->Some_0
                && r->Ok_0.chain@ == solana_mainnet() && r->Ok_0.payload == encoded,
    {
        match self.solana_target() {
            Ok(t) => Ok(SolanaSubmission { pubkey: t.pubkey, chain: t.chain, payload: encoded }),
            Err(e) => Err(e),
        }
    }

    /// Where an EVM request with the given chain id goes; needs an EVM wallet id.
    pub fn evm_target(&self, chain_id: Option<u64>) -> (r: Result<EvmTarget, SignerError>)
        ensures
            self.session.evm_wallet_id is None ==> r == Err::<EvmTarget, SignerError>(
                SignerError::MissingAttribute(Attribute::EvmWalletId),
            ),
            self.session.evm_wallet_id is Some ==> r is Ok && r->Ok_0.wallet_id
                == self.session.evm_wallet_id->Some_0 && r->Ok_0.chain@ == evm_request_chain(
                chain_id,
            ),
    {
        let chain = evm_chain_for(chain_id);
        match &self.session.evm_wallet_id {
            Some(w) => Ok(EvmTarget { wallet_id: w.clone(), chain }),
            None => Err(SignerError::MissingAttribute(Attribute::EvmWalletId)),
        }
    }

    /// Resolves the chain of an EVM request and encodes it as a structured value.
    pub fn prepare_evm_transaction(&self, tx: alloy::rpc::types::TransactionRequest) -> (r: Result<
        EvmSubmission,
        SignerError,
    >)
        ensures
            self.session.evm_wallet_id is None ==> r == Err::<EvmSubmission, SignerError>(
                SignerError::MissingAttribute(Attribute::EvmWalletId),
            ),
            self.session.evm_wallet_id is Some ==> match request_json_of(tx) {
                Some(v) => r is Ok && r->Ok_0.wallet_id == self.session.evm_wallet_id->Some_0
                    && r->Ok_0.payload == v && r->Ok_0.chain@ == evm_request_chain(
                    request_chain_id_of(tx),
                ),
                None => r == Err::<EvmSubmission, SignerError>(
                    SignerError::Encoding(Operation::EvmTransaction),
                ),
            },
    {
        let target = match self.evm_target(request_chain_id(&tx)) {
            Ok(t) => t,
            Err(e) => return Err(e),
        };
        match request_to_json(&tx) {
            Ok(payload) => Ok(
                EvmSubmission { wallet_id: target.wallet_id, chain: target.chain, payload },
            ),
            Err(_) => Err(SignerError::Encoding(Operation::EvmTransaction)),
        }
    }

    /// Where a structured EVM payload goes: the explicit chain identifier, else
    /// the chain of the numeric id embedded in the payload. Needs an EVM wallet id.
    pub fn json_evm_target(&self, chain: Option<String>, embedded: Option<u64>) -> (r: Result<
        EvmTarget,
        SignerError,
    >)
        ensures
            self.session.evm_wallet_id is None ==> r == Err::<EvmTarget, SignerError>(
                SignerError::MissingAttribute(Attribute::EvmWalletId),
            ),
            self.session.evm_wallet_id is Some && chain is Some ==> r is Ok && r->Ok_0.wallet_id
                == self.session.evm_wallet_id->Some_0 && r->Ok_0.chain == chain->Some_0,
            self.session.evm_wallet_id is Some && chain is None && embedded is Some ==> r is Ok
                && r->Ok_0.wallet_id == self.session.evm_wallet_id->Some_0 && r->Ok_0.chain@
                == evm_chain(embedded->Some_0 as nat),
            self.session.evm_wallet_id is Some && chain is None && embedded is None ==> r == Err::<
                EvmTarget,
                SignerError,
            >(SignerError::ChainIdRequired),
    {
        let wallet_id = match &self.session.evm_wallet_id {
            Some(w) => w.clone(),
            None => return Err(SignerError::MissingAttribute(Attribute::EvmWalletId)),
        };
        match json_chain_for(chain, embedded) {
            Ok(c) => Ok(EvmTarget { wallet_id, chain: c }),
            Err(e) => Err(e),
        }
    }

    /// Routes a structured EVM payload, reading its embedded chain id when no
    /// chain identifier is given.
    pub fn prepare_json_evm_transaction(
        &self,
        tx: serde_json::Value,
        chain: Option<String>,
    ) -> (r: Result<EvmSubmission, SignerError>)
        ensures
            self.session.evm_wallet_id is None ==> r == Err::<EvmSubmission, SignerError>(
                SignerError::MissingAttribute(Attribute::EvmWalletId),
            ),
            self.session.evm_wallet_id is Some && chain is Some ==> r is Ok && r->Ok_0.wallet_id
                == self.session.evm_wallet_id->Some_0 && r->Ok_0.chain == chain->Some_0
                && r->Ok_0.payload == tx,
            self.session.evm_wallet_id is Some && chain is None ==> match embedded_chain_id_of(tx) {
                Some(id) => r is Ok && r->Ok_0.wallet_id == self.session.evm_wallet_id->Some_0
                    && r->Ok_0.payload == tx && r->Ok_0.chain@ == evm_chain(id as nat),
                None => r == Err::<EvmSubmission, SignerError>(SignerError::ChainIdRequired),
            },
    {
        let embedded = match chain {
            Some(_) => None,
            None => embedded_chain_id(&tx),
        };
        match self.json_evm_target(chain, embedded) {
            Ok(t) => Ok(EvmSubmission { wallet_id: t.wallet_id, chain: t.chain, payload: tx }),
            Err(e) => Err(e),
        }
    }

    /// The request that asks the wallet API to sign a 256-bit digest; needs an
    /// EVM wallet id.
    pub fn sign_request(&self, digest: &[u8; 32]) -> (r: Result<SignRequest, SignerError>)
        ensures
            self.session.evm_wallet_id is None ==> r == Err::<SignRequest, SignerError>(
                SignerError::MissingAttribute(Attribute::EvmWalletId),
            ),
            self.session.evm_wallet_id is Some ==> r is Ok && r->Ok_0.wallet_id
                == self.session.evm_wallet_id->Some_0 && r->Ok_0.message@ == hex_message(digest@),
    {
        match &self.session.evm_wallet_id {
            Some(w) => {
                let mut message = String::from_str("0x");
                let digits = hex_encode(digest);
                message.append(digits.as_str());
                Ok(SignRequest { wallet_id: w.clone(), message })
            },
            None => Err(SignerError::MissingAttribute(Attribute::EvmWalletId)),
        }
    }
}

} // verus!
