//! Adapts any signer to a settlement venue that signs 256-bit digests and
//! identifies the signer by a 20-byte address.
use vstd::prelude::*;
use vstd::string::*;

use crate::capability::SignerType;
use crate::error::SignerError;
use crate::privy::{hex_message, SignRequest};

verus! {

/// The value of a hexadecimal digit of either case.
pub open spec fn hex_value(c: char) -> Option<nat> {
    let u = c as u32;
    if 48 <= u <= 57 {
        Some((u - 48) as nat)
    } else if 97 <= u <= 102 {
        Some((u - 87) as nat)
    } else if 65 <= u <= 70 {
        Some((u - 55) as nat)
    } else {
        None
    }
}

/// The text after an optional `0x` or `0X` prefix.
pub open spec fn hex_body(s: Seq<char>) -> Seq<char> {
    if s.len() >= 2 && s[0] == '0' && (s[1] == 'x' || s[1] == 'X') {
        s.subrange(2, s.len() as int)
    } else {
        s
    }
}

/// The 20 bytes of an account address written as 40 hexadecimal digits of
/// either case, after an optional `0x`/`0X`; `None` for any other text.
pub open spec fn address_bytes_of(s: Seq<char>) -> Option<Seq<u8>> {
    let d = hex_body(s);
    if d.len() == 40 && forall|i: int| 0 <= i < 40 ==> (#[trigger] hex_value(d[i])) is Some {
        Some(
            Seq::new(
                20,
                |i: int| (hex_value(d[2 * i])->Some_0 * 16 + hex_value(d[2 * i + 1])->Some_0) as u8,
            ),
        )
    } else {
        None
    }
}

/// Relies on `FromStr` of `alloy::primitives::Address`, which decodes with
/// `const_hex::decode_to_array`: an optional `0x`/`0X` prefix is stripped, and
/// exactly 40 hex digits of either case are accepted, high nibble first.
#[verifier::external_body]
fn parse_address(s: &String) -> (r: Option<[u8; 20]>)
    ensures
        r is None ==> address_bytes_of(s@) is None,
        r matches Some(b) ==> address_bytes_of(s@) == Some(b@),
{
    s.parse::<alloy::primitives::Address>().ok().map(|a| a.0.0)
}

/// The venue's own failures.
#[derive(Debug, Clone, PartialEq, Eq)]
pub enum VenueError {
    /// The signer cannot sign for the venue.
    Wallet(String),
    /// The signing backend failed; the text is its reason.
    SignatureFailure(String),
}

pub open spec fn unsupported_text() -> Seq<char> {
    "secp256k1_sign not supported by this signer"@
}

pub open spec fn wallet_unavailable_text() -> Seq<char> {
    "EVM wallet ID is not set, wallet unavailable"@
}

/// A signer seen through the venue's signing interface.
pub struct VenueSigner {
    pub signer: SignerType,
}

impl VenueSigner {
    pub fn new(signer: SignerType) -> (r: Self)
        ensures
            r.signer == signer,
    {
        VenueSigner { signer }
    }

    /// The signer's address as 20 bytes; `None` where it has none or it is no
    /// address.
    pub fn address(&self) -> (r: Option<[u8; 20]>)
        ensures
            self.signer.address_spec() is None ==> r is None,
            self.signer.address_spec() matches Some(a) ==> (r is None ==> address_bytes_of(a@) is None)
                && (r matches Some(b) ==> address_bytes_of(a@) == Some(b@)),
    {
        match self.signer.address() {
            Some(a) => parse_address(&a),
            None => None,
        }
    }

    /// Translates a failure of the wrapped signer into the venue's terms.
    pub fn translate(e: SignerError) -> (r: VenueError)
        ensures
            e is Unsupported ==> r is Wallet && r->Wallet_0@ == unsupported_text(),
            e is MissingAttribute ==> r is Wallet && r->Wallet_0@ == wallet_unavailable_text(),
            e matches SignerError::Backend(_, reason) ==> r == VenueError::SignatureFailure(reason),
            !(e is Unsupported || e is MissingAttribute || e is Backend) ==> r is Wallet,
    {
        match e {
            SignerError::Unsupported(_) => VenueError::Wallet(
                String::from_str("secp256k1_sign not supported by this signer"),
            ),
            SignerError::MissingAttribute(_) => VenueError::Wallet(
                String::from_str("EVM wallet ID is not set, wallet unavailable"),
            ),
            SignerError::Backend(_, reason) => VenueError::SignatureFailure(reason),
            SignerError::ChainIdRequired => VenueError::Wallet(
                String::from_str("Chain ID is required"),
            ),
            SignerError::Encoding(_) => VenueError::Wallet(
                String::from_str("message could not be encoded"),
            ),
        }
    }

    /// The request that has the wrapped signer sign `digest`, or the venue's
    /// form of its refusal.
    pub fn sign_request(&self, digest: &[u8; 32]) -> (r: Result<SignRequest, VenueError>)
        ensures
            !(self.signer is Privy) ==> r is Err && r->Err_0 is Wallet && r->Err_0->Wallet_0@
                == unsupported_text(),
            self.signer is Privy && self.signer.evm_wallet_id_spec() is None ==> r is Err
                && r->Err_0 is Wallet && r->Err_0->Wallet_0@ == wallet_unavailable_text(),
            self.signer is Privy && self.signer.evm_wallet_id_spec() is Some ==> r is Ok
                && r->Ok_0.wallet_id == self.signer.evm_wallet_id_spec()->Some_0
                && r->Ok_0.message@ == hex_message(digest@),
    {
        match self.signer.sign_request(digest) {
            Ok(req) => Ok(req),
            Err(e) => Err(VenueSigner::translate(e)),
        }
    }
}

} // verus!
