use listen_signer::capability::{LocalEvmSigner, LocalSolanaSigner, Route, SignerKind, SignerType, Transaction};
use listen_signer::chain::{
    decimal_string, default_evm_chain, evm_chain_for, from_chain_id, json_chain_for, solana_chain,
};
use listen_signer::context::SignerContext;
use listen_signer::error::{Attribute, Operation, SignerError};
use listen_signer::privy::{transaction_to_base64, PrivySigner, UserSession};
use listen_signer::venue::{VenueError, VenueSigner};

const SOLANA: &str = "solana:5eykt4UsFv8P8NJdTREpY1vzqKqZKvdp";

fn session(pubkey: Option<&str>, wallet: Option<&str>) -> UserSession {
    UserSession {
        user_id: "did:privy:user".to_string(),
        wallet_address: Some("0x00000000000000000000000000000000000000ff".to_string()),
        pubkey: pubkey.map(|s| s.to_string()),
        evm_wallet_id: wallet.map(|s| s.to_string()),
    }
}

fn privy(pubkey: Option<&str>, wallet: Option<&str>) -> PrivySigner {
    PrivySigner::new(session(pubkey, wallet), "pl".to_string())
}

fn json_with_chain_id(id: u64) -> serde_json::Value {
    let mut map = serde_json::Map::new();
    map.insert("chain_id".to_string(), serde_json::Value::from(id));
    map.insert("to".to_string(), serde_json::Value::from("0x01"));
    serde_json::Value::Object(map)
}

fn json_without_chain_id() -> serde_json::Value {
    let mut map = serde_json::Map::new();
    map.insert("to".to_string(), serde_json::Value::from("0x01"));
    serde_json::Value::Object(map)
}

#[test]
fn decimal_digits() {
    assert_eq!(decimal_string(0), "0");
    assert_eq!(decimal_string(9), "9");
    assert_eq!(decimal_string(10), "10");
    assert_eq!(decimal_string(42161), "42161");
    assert_eq!(decimal_string(u64::MAX), "18446744073709551615");
}

#[test]
fn chain_identifiers() {
    assert_eq!(from_chain_id(1), "eip155:1");
    assert_eq!(from_chain_id(8453), "eip155:8453");
    assert_eq!(default_evm_chain(), "eip155:42161");
    assert_eq!(solana_chain(), SOLANA);
}

#[test]
fn evm_request_without_chain_id_goes_to_default_chain() {
    assert_eq!(evm_chain_for(None), "eip155:42161");
    assert_eq!(evm_chain_for(Some(56)), "eip155:56");
}

#[test]
fn json_chain_resolution_order() {
    assert_eq!(json_chain_for(Some("eip155:10".to_string()), Some(1)), Ok("eip155:10".to_string()));
    assert_eq!(json_chain_for(None, Some(137)), Ok("eip155:137".to_string()));
    assert_eq!(json_chain_for(None, None), Err(SignerError::ChainIdRequired));
}

#[test]
fn json_evm_transaction_chain_from_payload() {
    let p = privy(None, Some("wallet-1"));
    let tx = json_with_chain_id(137);
    let s = p.prepare_json_evm_transaction(tx.clone(), None).unwrap();
    assert_eq!(s.chain, "eip155:137");
    assert_eq!(s.wallet_id, "wallet-1");
    assert_eq!(s.payload, tx);
}

#[test]
fn json_evm_transaction_without_chain_fails() {
    let p = privy(None, Some("wallet-1"));
    let r = p.prepare_json_evm_transaction(json_without_chain_id(), None);
    assert_eq!(r.err(), Some(SignerError::ChainIdRequired));
    let text = serde_json::Value::from("chain_id");
    assert_eq!(p.prepare_json_evm_transaction(text, None).err(), Some(SignerError::ChainIdRequired));
}

#[test]
fn json_evm_transaction_explicit_chain_wins() {
    let p = privy(None, Some("wallet-1"));
    let s = p.prepare_json_evm_transaction(json_with_chain_id(137), Some("eip155:1".to_string())).unwrap();
    assert_eq!(s.chain, "eip155:1");
}

#[test]
fn json_evm_transaction_needs_wallet_id() {
    let p = privy(Some("pk"), None);
    let r = p.prepare_json_evm_transaction(json_with_chain_id(1), None);
    assert_eq!(r.err(), Some(SignerError::MissingAttribute(Attribute::EvmWalletId)));
}

#[test]
fn evm_transaction_default_chain() {
    let p = privy(None, Some("wallet-2"));
    let tx = alloy::rpc::types::TransactionRequest::default();
    let expected = serde_json::to_value(&tx).unwrap();
    let s = p.prepare_evm_transaction(tx).unwrap();
    assert_eq!(s.chain, "eip155:42161");
    assert_eq!(s.wallet_id, "wallet-2");
    assert_eq!(s.payload, expected);
}

#[test]
fn evm_transaction_own_chain() {
    let p = privy(None, Some("wallet-2"));
    let mut tx = alloy::rpc::types::TransactionRequest::default();
    tx.chain_id = Some(10);
    let s = p.prepare_evm_transaction(tx).unwrap();
    assert_eq!(s.chain, "eip155:10");
}

#[test]
fn evm_transaction_needs_wallet_id() {
    let p = privy(Some("pk"), None);
    let r = p.prepare_evm_transaction(alloy::rpc::types::TransactionRequest::default());
    assert_eq!(r.err(), Some(SignerError::MissingAttribute(Attribute::EvmWalletId)));
    assert_eq!(p.evm_target(Some(1)).err(), Some(SignerError::MissingAttribute(Attribute::EvmWalletId)));
}

#[test]
fn solana_without_pubkey_is_refused_before_anything() {
    let p = privy(None, Some("wallet"));
    assert_eq!(p.solana_target().err(), Some(SignerError::MissingAttribute(Attribute::Pubkey)));
    let mut tx = solana_sdk::transaction::VersionedTransaction::default();
    let before = tx.clone();
    let hash = solana_sdk::hash::Hash::new_from_array([7u8; 32]);
    let r = p.prepare_solana_transaction(&mut tx, hash);
    assert_eq!(r.err(), Some(SignerError::MissingAttribute(Attribute::Pubkey)));
    assert_eq!(tx, before);
}

#[test]
fn encoded_solana_without_pubkey_is_refused() {
    let p = privy(None, Some("wallet"));
    let r = p.prepare_encoded_solana_transaction("AAAA".to_string());
    assert_eq!(r.err(), Some(SignerError::MissingAttribute(Attribute::Pubkey)));
}

#[test]
fn solana_transaction_gets_blockhash_and_encoding() {
    let p = privy(Some("PubKey111"), None);
    let mut tx = solana_sdk::transaction::VersionedTransaction::default();
    let hash = solana_sdk::hash::Hash::new_from_array([7u8; 32]);
    let s = p.prepare_solana_transaction(&mut tx, hash).unwrap();
    assert_eq!(*tx.message.recent_blockhash(), hash);
    let bytes = bincode::serialize(&tx).unwrap();
    let expected = base64::Engine::encode(&base64::engine::general_purpose::STANDARD, &bytes);
    assert_eq!(s.payload, expected);
    assert_ne!(s.payload, "");
    assert_eq!(s.pubkey, "PubKey111");
    assert_eq!(s.chain, SOLANA);
}

#[test]
fn transaction_base64_matches_wire_encoding() {
    let tx = solana_sdk::transaction::VersionedTransaction::default();
    let bytes = bincode::serialize(&tx).unwrap();
    let expected = base64::Engine::encode(&base64::engine::general_purpose::STANDARD, &bytes);
    assert_eq!(transaction_to_base64(&tx), Ok(expected));
}

#[test]
fn encoded_solana_passes_payload_through() {
    let p = privy(Some("PubKey111"), None);
    let s = p.prepare_encoded_solana_transaction("AQID".to_string()).unwrap();
    assert_eq!(s.payload, "AQID");
    assert_eq!(s.pubkey, "PubKey111");
    assert_eq!(s.chain, SOLANA);
}

#[test]
fn sign_request_hex_message() {
    let p = privy(None, Some("wallet-3"));
    let mut digest = [0u8; 32];
    for (i, b) in digest.iter_mut().enumerate() {
        *b = (i as u8) * 8;
    }
    let r = p.sign_request(&digest).unwrap();
    assert_eq!(r.wallet_id, "wallet-3");
    assert_eq!(
        r.message,
        "0x0008101820283038404850586068707880889098a0a8b0b8c0c8d0d8e0e8f0f8"
    );
    let q = privy(None, None);
    assert_eq!(q.sign_request(&digest).err(), Some(SignerError::MissingAttribute(Attribute::EvmWalletId)));
}

#[test]
fn privy_identity() {
    let p = privy(Some("pk"), Some("w"));
    assert_eq!(p.locale(), "pl");
    assert_eq!(p.user_id(), Some("did:privy:user".to_string()));
    assert_eq!(p.address(), Some("0x00000000000000000000000000000000000000ff".to_string()));
    assert_eq!(p.pubkey(), Some("pk".to_string()));
    assert_eq!(p.evm_wallet_id(), Some("w".to_string()));
}

#[test]
fn local_signers_identity() {
    let s = SignerType::LocalSolana(LocalSolanaSigner::new("SolKey".to_string()));
    assert_eq!(s.kind(), SignerKind::LocalSolana);
    assert_eq!(s.locale(), "en");
    assert_eq!(s.user_id(), None);
    assert_eq!(s.pubkey(), Some("SolKey".to_string()));
    assert_eq!(s.evm_wallet_id(), None);
    let e = SignerType::LocalEvm(LocalEvmSigner::new("0xabc".to_string()));
    assert_eq!(e.address(), Some("0xabc".to_string()));
    assert_eq!(e.pubkey(), None);
    assert_eq!(e.evm_wallet_id(), None);
}

#[test]
fn unsupported_operations_are_refused() {
    let digest = [1u8; 32];
    let sol = SignerType::LocalSolana(LocalSolanaSigner::new("SolKey".to_string()));
    let evm = SignerType::LocalEvm(LocalEvmSigner::new("0xabc".to_string()));
    for s in [&sol, &evm] {
        assert_eq!(
            s.prepare_encoded_solana_transaction("AA".to_string()).err(),
            Some(SignerError::Unsupported(Operation::EncodedSolanaTransaction))
        );
        assert_eq!(
            s.json_evm_target(Some("eip155:1".to_string()), None).err(),
            Some(SignerError::Unsupported(Operation::JsonEvmTransaction))
        );
        assert_eq!(s.sign_request(&digest).err(), Some(SignerError::Unsupported(Operation::Secp256k1Sign)));
    }
    assert_eq!(sol.evm_route(Some(1)).err(), Some(SignerError::Unsupported(Operation::EvmTransaction)));
    assert_eq!(evm.solana_route().err(), Some(SignerError::Unsupported(Operation::SolanaTransaction)));
    assert_eq!(sol.require(Operation::EvmTransaction), Err(SignerError::Unsupported(Operation::EvmTransaction)));
    assert_eq!(evm.require(Operation::SolanaTransaction), Err(SignerError::Unsupported(Operation::SolanaTransaction)));
    assert!(sol.require(Operation::SolanaTransaction).is_ok());
    assert!(evm.require(Operation::EvmTransaction).is_ok());
    assert!(matches!(sol.solana_route(), Ok(Route::Local)));
    assert!(matches!(evm.evm_route(None), Ok(Route::Local)));
}

#[test]
fn privy_routes_through_the_wallet_provider() {
    let s = SignerType::Privy(privy(Some("pk"), Some("w")));
    assert!(s.supports(Operation::Secp256k1Sign));
    match s.solana_route() {
        Ok(Route::Custodial(t)) => {
            assert_eq!(t.pubkey, "pk");
            assert_eq!(t.chain, SOLANA);
        }
        _ => panic!("expected a custodial route"),
    }
    match s.evm_route(None) {
        Ok(Route::Custodial(t)) => {
            assert_eq!(t.wallet_id, "w");
            assert_eq!(t.chain, "eip155:42161");
        }
        _ => panic!("expected a custodial route"),
    }
    let t = s.json_evm_target(None, Some(5)).unwrap();
    assert_eq!(t.chain, "eip155:5");
    let none = SignerType::Privy(privy(None, None));
    assert_eq!(none.solana_route().err(), Some(SignerError::MissingAttribute(Attribute::Pubkey)));
    assert_eq!(none.json_evm_target(None, None).err(), Some(SignerError::MissingAttribute(Attribute::EvmWalletId)));
}

#[test]
fn transaction_tag_selects_operation() {
    let tx = Transaction::Solana(solana_sdk::transaction::VersionedTransaction::default());
    assert_eq!(tx.operation(), Operation::SolanaTransaction);
    assert_eq!(Transaction::Evm.operation(), Operation::EvmTransaction);
}

#[test]
fn scope_binds_its_signer() {
    let mut ctx: SignerContext<&str> = SignerContext::new();
    assert!(ctx.is_empty());
    assert_eq!(ctx.current(1), None);
    ctx.enter_scope(1, "a");
    assert_eq!(ctx.current(1), Some(&"a"));
    assert_eq!(ctx.exit_scope(1), Some("a"));
    assert_eq!(ctx.current(1), None);
    assert!(ctx.is_empty());
}

#[test]
fn nested_scope_shadows_then_restores() {
    let mut ctx: SignerContext<&str> = SignerContext::new();
    ctx.enter_scope(1, "a");
    ctx.enter_scope(1, "b");
    assert_eq!(ctx.current(1), Some(&"b"));
    assert_eq!(ctx.exit_scope(1), Some("b"));
    assert_eq!(ctx.current(1), Some(&"a"));
}

#[test]
fn concurrent_scopes_are_isolated() {
    let mut ctx: SignerContext<&str> = SignerContext::new();
    ctx.enter_scope(1, "a");
    ctx.enter_scope(2, "b");
    assert_eq!(ctx.current(1), Some(&"a"));
    assert_eq!(ctx.current(2), Some(&"b"));
    assert_eq!(ctx.exit_scope(1), Some("a"));
    assert_eq!(ctx.current(2), Some(&"b"));
    assert_eq!(ctx.current(1), None);
    assert_eq!(ctx.exit_scope(3), None);
}

#[test]
fn venue_address_parsing() {
    let mut expected = [0u8; 20];
    expected[19] = 0xff;
    let v = VenueSigner::new(SignerType::Privy(privy(None, Some("w"))));
    assert_eq!(v.address(), Some(expected));
    let bad = VenueSigner::new(SignerType::LocalEvm(LocalEvmSigner::new("0xzz".to_string())));
    assert_eq!(bad.address(), None);
}

#[test]
fn venue_translates_failures() {
    let digest = [2u8; 32];
    let local = VenueSigner::new(SignerType::LocalEvm(LocalEvmSigner::new("0xabc".to_string())));
    assert_eq!(
        local.sign_request(&digest).err(),
        Some(VenueError::Wallet("secp256k1_sign not supported by this signer".to_string()))
    );
    let bare = VenueSigner::new(SignerType::Privy(privy(None, None)));
    assert_eq!(
        bare.sign_request(&digest).err(),
        Some(VenueError::Wallet("EVM wallet ID is not set, wallet unavailable".to_string()))
    );
    let e = SignerError::Backend(Operation::Secp256k1Sign, "rate limited".to_string());
    assert_eq!(VenueSigner::translate(e), VenueError::SignatureFailure("rate limited".to_string()));
    let ok = VenueSigner::new(SignerType::Privy(privy(None, Some("w"))));
    assert_eq!(ok.sign_request(&digest).unwrap().message, format!("0x{}", "02".repeat(32)));
}

#[test]
fn venue_address_prefix_and_case() {
    let mut expected = [0u8; 20];
    expected[0] = 0xab;
    expected[19] = 0xcd;
    let text = format!("AB{}CD", "0".repeat(36));
    for a in [format!("0x{}", text), format!("0X{}", text), text.clone(), format!("0x{}", text.to_lowercase())] {
        let v = VenueSigner::new(SignerType::LocalEvm(LocalEvmSigner::new(a)));
        assert_eq!(v.address(), Some(expected));
    }
    for a in [format!("0x{}", &text[1..]), format!("0x{}0", text), format!("0xG{}", &text[1..])] {
        let v = VenueSigner::new(SignerType::LocalEvm(LocalEvmSigner::new(a)));
        assert_eq!(v.address(), None);
    }
}

#[test]
fn json_evm_transaction_non_integer_chain_id_fails() {
    let p = privy(None, Some("wallet-1"));
    let mut map = serde_json::Map::new();
    map.insert("chain_id".to_string(), serde_json::Value::from("137"));
    let r = p.prepare_json_evm_transaction(serde_json::Value::Object(map), None);
    assert_eq!(r.err(), Some(SignerError::ChainIdRequired));
}
