use vstd::prelude::*;
use vstd::string::*;

use crate::error::SignerError;

verus! {

/// Numeric id of the chain that EVM requests without a chain id go to.
pub const DEFAULT_EVM_CHAIN_ID: u64 = 42161;

pub open spec fn digit_char(d: nat) -> char {
    if d == 0 {
        '0'
    } else if d == 1 {
        '1'
    } else if d == 2 {
        '2'
    } else if d == 3 {
        '3'
    } else if d == 4 {
        '4'
    } else if d == 5 {
        '5'
    } else if d == 6 {
        '6'
    } else if d == 7 {
        '7'
    } else if d == 8 {
        '8'
    } else {
        '9'
    }
}

/// The decimal digits of `n`, most significant first, without leading zeros.
pub open spec fn decimal(n: nat) -> Seq<char>
    decreases n,
{
    if n < 10 {
        seq![digit_char(n)]
    } else {
        decimal(n / 10).push(digit_char(n % 10))
    }
}

/// The canonical identifier of the EVM chain with numeric id `id`.
pub open spec fn evm_chain(id: nat) -> Seq<char> {
    "eip155:"@ + decimal(id)
}

/// The canonical identifier of Solana's main network.
pub open spec fn solana_mainnet() -> Seq<char> {
    "solana:5eykt4UsFv8P8NJdTREpY1vzqKqZKvdp"@
}

/// The chain an EVM request goes to: the one it names, else the default one.
pub open spec fn evm_request_chain(chain_id: Option<u64>) -> Seq<char> {
    match chain_id {
        Some(id) => evm_chain(id as nat),
        None => evm_chain(DEFAULT_EVM_CHAIN_ID as nat),
    }
}

fn digit_str(d: u64) -> (r: &'static str)
    requires
        d < 10,
    ensures
        r@ == seq![digit_char(d as nat)],
{
    proof {
        reveal_strlit("0");
        reveal_strlit("1");
        reveal_strlit("2");
        reveal_strlit("3");
        reveal_strlit("4");
        reveal_strlit("5");
        reveal_strlit("6");
        reveal_strlit("7");
        reveal_strlit("8");
        reveal_strlit("9");
    }
    if d == 0 {
        "0"
    } else if d == 1 {
        "1"
    } else if d == 2 {
        "2"
    } else if d == 3 {
        "3"
    } else if d == 4 {
        "4"
    } else if d == 5 {
        "5"
    } else if d == 6 {
        "6"
    } else if d == 7 {
        "7"
    } else if d == 8 {
        "8"
    } else {
        "9"
    }
}

/// Writes `n` in decimal.
pub fn decimal_string(n: u64) -> (r: String)
    ensures
        r@ == decimal(n as nat),
    decreases n,
{
    if n < 10 {
        String::from_str(digit_str(n))
    } else {
        let mut s = decimal_string(n / 10);
        let d = digit_str(n % 10);
        s.append(d);
        assert(s@ =~= decimal((n / 10) as nat).push(digit_char((n % 10) as nat)));
        s
    }
}

/// The canonical identifier of the EVM chain with numeric id `id`.
pub fn from_chain_id(id: u64) -> (r: String)
    ensures
        r@ == evm_chain(id as nat),
{
    let mut s = String::from_str("eip155:");
    let digits = decimal_string(id);
    s.append(digits.as_str());
    s
}

/// The identifier of the chain that EVM requests without a chain id go to.
pub fn default_evm_chain() -> (r: String)
    ensures
        r@ == evm_chain(DEFAULT_EVM_CHAIN_ID as nat),
{
    from_chain_id(DEFAULT_EVM_CHAIN_ID)
}

/// The identifier of Solana's main network.
pub fn solana_chain() -> (r: String)
    ensures
        r@ == solana_mainnet(),
{
    String::from_str("solana:5eykt4UsFv8P8NJdTREpY1vzqKqZKvdp")
}

/// Resolves the target chain of an EVM request from its optional chain id.
pub fn evm_chain_for(chain_id: Option<u64>) -> (r: String)
    ensures
        r@ == evm_request_chain(chain_id),
{
    match chain_id {
        Some(id) => from_chain_id(id),
        None => default_evm_chain(),
    }
}

/// Resolves the target chain of a structured EVM payload: the explicit
/// identifier if given, else the numeric chain id found inside the payload.
pub fn json_chain_for(explicit: Option<String>, embedded: Option<u64>) -> (r: Result<
    String,
    SignerError,
>)
    ensures
        explicit is Some ==> r == Ok::<String, SignerError>(explicit->Some_0),
        explicit is None && embedded is Some ==> r is Ok && r->Ok_0@ == evm_chain(
            embedded->Some_0 as nat,
        ),
        explicit is None && embedded is None ==> r == Err::<String, SignerError>(
            SignerError::ChainIdRequired,
        ),
{
    match explicit {
        Some(c) => Ok(c),
        None => match embedded {
            Some(id) => Ok(from_chain_id(id)),
            None => Err(SignerError::ChainIdRequired),
        },
    }
}

} // verus!
