use sagahalla_dao::cross_chain::{
    canonical_message, check_aurora_balance, check_aurora_proof, decode_signer_address, judge_recovery,
    ManaBalancesProof, ProofVerdict,
};
use sagahalla_dao::voting::VotingModule;

const SECRET: [u8; 32] = [7u8; 32];

fn signer_hex() -> String {
    let secret = libsecp256k1::SecretKey::parse(&SECRET).unwrap();
    let public = libsecp256k1::PublicKey::from_secret_key(&secret).serialize();
    let hash = aurora_engine_sdk::keccak(&public[1..]);
    hash.0[12..].iter().map(|b| format!("{:02x}", b)).collect()
}

fn sign(account: &str, balance: u128, collateral: u128) -> Vec<u8> {
    let message = format!("{}{}{}", account, balance, collateral);
    let digest = near_sdk::env::sha256(message.as_bytes());
    let mut d = [0u8; 32];
    d.copy_from_slice(&digest);
    let secret = libsecp256k1::SecretKey::parse(&SECRET).unwrap();
    let (sig, rec) = libsecp256k1::sign(&libsecp256k1::Message::parse(&d), &secret);
    let mut out = sig.serialize().to_vec();
    out.push(rec.serialize());
    out
}

fn sample_proof(balance: u128, collateral: u128, voting_power: u64, signature: Vec<u8>) -> ManaBalancesProof {
    ManaBalancesProof {
        mana_balance: balance,
        collateral_mana_balance: collateral,
        voting_power,
        signer_address: signer_hex(),
        signature,
    }
}

#[test]
fn canonical_message_format() {
    let m = canonical_message(&"bob.near".to_string(), 120, 0);
    assert_eq!(m, b"bob.near1200".to_vec());
    let m = canonical_message(&"".to_string(), u128::MAX, 9);
    assert_eq!(m, format!("{}9", u128::MAX).into_bytes());
}

#[test]
fn signer_address_decoding() {
    let a = decode_signer_address(&"00FFa0".repeat(7).chars().take(40).collect::<String>()).unwrap();
    assert_eq!(a.len(), 20);
    assert_eq!(&a[..3], &[0x00, 0xff, 0xa0]);
    assert!(decode_signer_address(&"0x".to_string()).is_none());
    assert!(decode_signer_address(&"g".repeat(40)).is_none());
    assert!(decode_signer_address(&"a".repeat(41)).is_none());
}

#[test]
fn valid_signature_is_trusted() {
    let module = VotingModule::new("alice.near".to_string());
    let bob = "bob.near".to_string();
    let sig = sign("bob.near", 500, 20);
    assert!(module.verify_aurora_balance(&bob, 500, 20, &sig, &signer_hex()));
    assert!(module.verify_aurora_proof(&sample_proof(500, 20, 3, sig.clone()), &bob));
    assert_eq!(check_aurora_proof(&sample_proof(500, 20, 3, sig), &bob), ProofVerdict::Trusted);
}

#[test]
fn altered_claim_is_untrusted() {
    let module = VotingModule::new("alice.near".to_string());
    let bob = "bob.near".to_string();
    let sig = sign("bob.near", 500, 20);
    assert!(!module.verify_aurora_balance(&bob, 501, 20, &sig, &signer_hex()));
    assert!(!module.verify_aurora_balance(&"carol.near".to_string(), 500, 20, &sig, &signer_hex()));
    assert_eq!(
        check_aurora_balance(&bob, 500, 21, &sig, &signer_hex()),
        ProofVerdict::SignatureMismatch
    );
    let other = "11".repeat(20);
    assert_eq!(check_aurora_balance(&bob, 500, 20, &sig, &other), ProofVerdict::SignatureMismatch);
}

#[test]
fn empty_signature_is_never_trusted() {
    let module = VotingModule::new("alice.near".to_string());
    let bob = "bob.near".to_string();
    for (b, c) in [(0u128, 0u128), (1, 0), (500, 20), (u128::MAX, u128::MAX)] {
        assert!(!module.verify_aurora_balance(&bob, b, c, &Vec::new(), &signer_hex()));
        assert!(!module.verify_aurora_proof(&sample_proof(b, c, 1, Vec::new()), &bob));
        assert_eq!(check_aurora_proof(&sample_proof(b, c, 1, Vec::new()), &bob), ProofVerdict::EmptySignature);
    }
}

#[test]
fn structural_rejections() {
    let bob = "bob.near".to_string();
    let sig = sign("bob.near", 500, 20);
    let mut p = sample_proof(500, 20, 3, sig.clone());
    p.signer_address = String::new();
    assert_eq!(check_aurora_proof(&p, &bob), ProofVerdict::MissingSigner);
    assert_eq!(check_aurora_proof(&sample_proof(0, 0, 3, sig.clone()), &bob), ProofVerdict::ZeroBalances);
    assert_eq!(check_aurora_proof(&sample_proof(500, 20, 0, sig.clone()), &bob), ProofVerdict::ZeroVotingPower);
    assert_eq!(check_aurora_proof(&sample_proof(500, 20, 3, sig[..64].to_vec()), &bob), ProofVerdict::MalformedSignature);
    let mut q = sample_proof(500, 20, 3, sig);
    q.signer_address = "xyz".to_string();
    assert_eq!(check_aurora_proof(&q, &bob), ProofVerdict::MalformedSigner);
    assert_eq!(ProofVerdict::ZeroBalances.reason(), "Invalid proof: zero balances");
}

#[test]
fn recovery_judgement() {
    let signer = "ab".repeat(20);
    let sig = vec![1u8; 65];
    assert_eq!(judge_recovery(&signer, &sig, &Some(vec![0xab; 20])), ProofVerdict::Trusted);
    assert_eq!(judge_recovery(&signer, &sig, &Some(vec![0xac; 20])), ProofVerdict::SignatureMismatch);
    assert_eq!(judge_recovery(&signer, &sig, &None), ProofVerdict::SignatureMismatch);
    assert_eq!(judge_recovery(&signer, &vec![1u8; 64], &Some(vec![0xab; 20])), ProofVerdict::MalformedSignature);
}
