//! Verification of cross-chain balance proofs. A proof attests an account's
//! mana and collateral balances; it is trusted only when the signature over
//! the canonical message recovers to the signer's address. Cheap structural
//! checks run first and every malformed input resolves to "untrusted".

use vstd::prelude::*;
use vstd::utf8::encode_utf8;

verus! {

/// A signed attestation of an account's balances and voting power.
pub struct ManaBalancesProof {
    pub mana_balance: u128,
    pub collateral_mana_balance: u128,
    pub voting_power: u64,
    /// Hex address (40 digits) of the account that signed the proof.
    pub signer_address: String,
    pub signature: Vec<u8>,
}

/// Balances with their signature, as received from the other chain.
pub struct ManaBalances {
    pub mana_balance: u128,
    pub collateral_mana_balance: u128,
    pub signature: Vec<u8>,
    pub signer_address: String,
}

/// The decision on a proof, with its reason.
#[derive(Clone, Copy, Debug, PartialEq, Eq, Structural)]
pub enum ProofVerdict {
    /// The signature recovers to the signer's address.
    Trusted,
    /// The signature is empty.
    EmptySignature,
    /// The signer address is empty.
    MissingSigner,
    /// Both balances are zero.
    ZeroBalances,
    /// The claimed voting power is zero.
    ZeroVotingPower,
    /// The signature is not 65 bytes (r, s and the recovery byte).
    MalformedSignature,
    /// The signer address is not 40 hex digits.
    MalformedSigner,
    /// The signature does not recover to the signer's address.
    SignatureMismatch,
}

impl ProofVerdict {
    /// A description of the verdict.
    pub fn reason(&self) -> &'static str {
        match self {
            ProofVerdict::Trusted => "Signature verified, balances are trusted",
            ProofVerdict::EmptySignature => "Invalid proof: empty signature",
            ProofVerdict::MissingSigner => "Invalid proof: signer address is missing",
            ProofVerdict::ZeroBalances => "Invalid proof: zero balances",
            ProofVerdict::ZeroVotingPower => "Invalid proof: zero voting power",
            ProofVerdict::MalformedSignature => "Invalid proof: signature is not 65 bytes",
            ProofVerdict::MalformedSigner => "Invalid proof: signer address is not 40 hex digits",
            ProofVerdict::SignatureMismatch => "Signature verification failed, balances untrusted",
        }
    }
}

/// The ASCII decimal digits of `n`, most significant first.
pub open spec fn decimal_bytes(n: nat) -> Seq<u8>
    decreases n,
{
    if n < 10 {
        seq![(48 + n) as u8]
    } else {
        decimal_bytes(n / 10).push((48 + n % 10) as u8)
    }
}

/// The message that a balance proof signs: the account id in UTF-8, then the
/// balance and the collateral balance in decimal, with no separator.
pub open spec fn balance_message(account: Seq<char>, balance: u128, collateral: u128) -> Seq<
    u8,
> {
    encode_utf8(account) + decimal_bytes(balance as nat) + decimal_bytes(collateral as nat)
}

/// The value of a hex digit, or -1 for any other byte.
pub open spec fn hex_value(b: u8) -> int {
    if 48 <= b <= 57 {
        b - 48
    } else if 97 <= b <= 102 {
        b - 87
    } else if 65 <= b <= 70 {
        b - 55
    } else {
        -1
    }
}

/// 40 hex digits: the text form of a 20-byte address.
pub open spec fn is_hex_address(s: Seq<u8>) -> bool {
    s.len() == 40 && forall|i: int| 0 <= i < 40 ==> hex_value(#[trigger] s[i]) >= 0
}

/// The 20 bytes that 40 hex digits spell, two digits per byte.
pub open spec fn address_bytes(s: Seq<u8>) -> Seq<u8> {
    Seq::new(20, |i: int| (hex_value(s[2 * i]) * 16 + hex_value(s[2 * i + 1])) as u8)
}

/// SHA-256 digest of a byte string.
pub uninterp spec fn sha256_of(message: Seq<u8>) -> Seq<u8>;

/// The address that an Ethereum-style signature over a 32-byte hash recovers
/// to, if it recovers at all.
pub uninterp spec fn recovered_address(hash: Seq<u8>, signature: Seq<u8>) -> Option<Seq<u8>>;

/// The view of an optional byte vector.
pub open spec fn bytes_view(o: Option<Vec<u8>>) -> Option<Seq<u8>> {
    match o {
        Some(v) => Some(v@),
        None => None,
    }
}

/// The decision of the cryptographic stage: a 65-byte signature, a signer
/// of 40 hex digits, and a recovered address equal to the signer's.
pub open spec fn signature_verdict(
    signer: Seq<u8>,
    signature: Seq<u8>,
    recovered: Option<Seq<u8>>,
) -> ProofVerdict {
    if signature.len() != 65 {
        ProofVerdict::MalformedSignature
    } else if !is_hex_address(signer) {
        ProofVerdict::MalformedSigner
    } else if recovered == Some(address_bytes(signer)) {
        ProofVerdict::Trusted
    } else {
        ProofVerdict::SignatureMismatch
    }
}

/// The decision on signed balances: the structural checks in order, then the
/// cryptographic stage on `recovered`.
pub open spec fn balance_verdict(
    balance: u128,
    collateral: u128,
    signer: Seq<char>,
    signature: Seq<u8>,
    recovered: Option<Seq<u8>>,
) -> ProofVerdict {
    if signature.len() == 0 {
        ProofVerdict::EmptySignature
    } else if signer.len() == 0 {
        ProofVerdict::MissingSigner
    } else if balance == 0 && collateral == 0 {
        ProofVerdict::ZeroBalances
    } else {
        signature_verdict(encode_utf8(signer), signature, recovered)
    }
}

/// The decision on a full proof: as [`balance_verdict`], with a zero voting
/// power rejected before the cryptographic stage.
pub open spec fn proof_verdict(
    balance: u128,
    collateral: u128,
    voting_power: u64,
    signer: Seq<char>,
    signature: Seq<u8>,
    recovered: Option<Seq<u8>>,
) -> ProofVerdict {
    if signature.len() == 0 {
        ProofVerdict::EmptySignature
    } else if signer.len() == 0 {
        ProofVerdict::MissingSigner
    } else if balance == 0 && collateral == 0 {
        ProofVerdict::ZeroBalances
    } else if voting_power == 0 {
        ProofVerdict::ZeroVotingPower
    } else {
        signature_verdict(encode_utf8(signer), signature, recovered)
    }
}

/// What the signature over the canonical message recovers to.
pub open spec fn message_signer(
    account: Seq<char>,
    balance: u128,
    collateral: u128,
    signature: Seq<u8>,
) -> Option<Seq<u8>> {
    recovered_address(sha256_of(balance_message(account, balance, collateral)), signature)
}

/// Relies on near_sdk::env::sha256, which hashes the bytes with SHA-256
/// (pure Rust off-chain) and returns the 32-byte digest as a vector.
#[verifier::external_body]
fn sha256(message: &Vec<u8>) -> (r: Vec<u8>)
    ensures
        r@ == sha256_of(message@),
        r@.len() == 32,
{
    near_sdk::env::sha256(message)
}

/// Relies on aurora_engine_sdk::ecrecover: it recovers the signer's public key
/// from a 32-byte hash and a signature of r, s and a recovery byte, and
/// returns the 20-byte address derived from that key, or an error. It reads
/// byte 64 of the signature, so it needs at least 65.
#[verifier::external_body]
fn ecrecover(hash: &Vec<u8>, signature: &Vec<u8>) -> (r: Option<Vec<u8>>)
    requires
        hash@.len() == 32,
        signature@.len() >= 65,
    ensures
        bytes_view(r) == recovered_address(hash@, signature@),
        r matches Some(a) ==> a@.len() == 20,
{
    let mut digest = [0u8; 32];
    digest.copy_from_slice(hash);
    match aurora_engine_sdk::ecrecover(digest.into(), signature) {
        Ok(address) => Some(address.as_bytes().to_vec()),
        Err(_) => None,
    }
}

/// Appends the decimal digits of `n` to `out`.
fn push_decimal(out: &mut Vec<u8>, n: u128)
    ensures
        final(out)@ == old(out)@ + decimal_bytes(n as nat),
    decreases n,
{
    if n >= 10 {
        push_decimal(out, n / 10);
    }
    let digit = (n % 10) as u8;
    out.push(48 + digit);
    proof {
        if n >= 10 {
            assert(final(out)@ =~= old(out)@ + decimal_bytes(n as nat));
        } else {
            assert(final(out)@ =~= old(out)@ + decimal_bytes(n as nat));
        }
    }
}

/// The canonical message of a balance proof, see [`balance_message`].
pub fn canonical_message(account: &String, balance: u128, collateral: u128) -> (r: Vec<u8>)
    ensures
        r@ == balance_message(account@, balance, collateral),
{
    let bytes = account.as_str().as_bytes();
    let mut out: Vec<u8> = Vec::new();
    let mut i: usize = 0;
    while i < bytes.len()
        invariant
            i <= bytes@.len(),
            bytes@ == encode_utf8(account@),
            out@ == bytes@.take(i as int),
        decreases bytes@.len() - i,
    {
        out.push(bytes[i]);
        assert(out@ =~= bytes@.take(i as int + 1));
        i = i + 1;
    }
    assert(out@ =~= encode_utf8(account@));
    push_decimal(&mut out, balance);
    push_decimal(&mut out, collateral);
    out
}

/// The value of one hex digit, or `None`.
fn hex_digit(b: u8) -> (r: Option<u8>)
    ensures
        match r {
            Some(v) => hex_value(b) >= 0 && v == hex_value(b),
            None => hex_value(b) < 0,
        },
{
    if b >= 48 && b <= 57 {
        Some(b - 48)
    } else if b >= 97 && b <= 102 {
        Some(b - 87)
    } else if b >= 65 && b <= 70 {
        Some(b - 55)
    } else {
        None
    }
}

/// The 20 bytes of a signer address given as 40 hex digits, or `None` when
/// the text is not of that form.
pub fn decode_signer_address(signer: &String) -> (r: Option<Vec<u8>>)
    ensures
        match r {
            Some(a) => is_hex_address(encode_utf8(signer@)) && a@ == address_bytes(
                encode_utf8(signer@),
            ),
            None => !is_hex_address(encode_utf8(signer@)),
        },
{
    let s = signer.as_str().as_bytes();
    if s.len() != 40 {
        return None;
    }
    let mut out: Vec<u8> = Vec::new();
    let mut i: usize = 0;
    while i < 20
        invariant
            s@ == encode_utf8(signer@),
            s@.len() == 40,
            i <= 20,
            forall|j: int| 0 <= j < 2 * i ==> hex_value(#[trigger] s@[j]) >= 0,
            out@ =~= address_bytes(s@).take(i as int),
        decreases 20 - i,
    {
        let hi = match hex_digit(s[2 * i]) {
            Some(v) => v,
            None => {
                return None;
            },
        };
        let lo = match hex_digit(s[2 * i + 1]) {
            Some(v) => v,
            None => {
                return None;
            },
        };
        out.push(hi * 16 + lo);
        proof {
            assert forall|j: int| 0 <= j < 2 * (i + 1) implies hex_value(#[trigger] s@[j]) >= 0 by {
                if j == 2 * i || j == 2 * i + 1 {
                } else {
                }
            }
            assert(out@ =~= address_bytes(s@).take(i as int + 1));
        }
        i = i + 1;
    }
    assert(out@ =~= address_bytes(s@));
    Some(out)
}

/// Whether two byte vectors are equal.
fn bytes_equal(a: &Vec<u8>, b: &Vec<u8>) -> (r: bool)
    ensures
        r == (a@ == b@),
{
    if a.len() != b.len() {
        return false;
    }
    let mut i: usize = 0;
    while i < a.len()
        invariant
            a@.len() == b@.len(),
            i <= a@.len(),
            forall|j: int| 0 <= j < i ==> a@[j] == b@[j],
        decreases a@.len() - i,
    {
        if a[i] != b[i] {
            return false;
        }
        i = i + 1;
    }
    assert(a@ =~= b@);
    true
}

/// The cryptographic stage decided on a given recovery result: the verdict
/// for `signer`, `signature` and the address that the signature recovered to.
pub fn judge_recovery(signer: &String, signature: &Vec<u8>, recovered: &Option<Vec<u8>>) -> (r:
    ProofVerdict)
    ensures
        r == signature_verdict(encode_utf8(signer@), signature@, bytes_view(*recovered)),
{
    if signature.len() != 65 {
        return ProofVerdict::MalformedSignature;
    }
    let expected = match decode_signer_address(signer) {
        Some(a) => a,
        None => {
            return ProofVerdict::MalformedSigner;
        },
    };
    match recovered {
        Some(a) => {
            if bytes_equal(a, &expected) {
                ProofVerdict::Trusted
            } else {
                ProofVerdict::SignatureMismatch
            }
        },
        None => ProofVerdict::SignatureMismatch,
    }
}

/// The cryptographic stage: hashes the canonical message and recovers the
/// signer, unless the signature or the signer address is malformed.
fn check_signature(
    account: &String,
    balance: u128,
    collateral: u128,
    signer: &String,
    signature: &Vec<u8>,
) -> (r: ProofVerdict)
    ensures
        r == signature_verdict(
            encode_utf8(signer@),
            signature@,
            message_signer(account@, balance, collateral, signature@),
        ),
{
    if signature.len() != 65 || decode_signer_address(signer).is_none() {
        return judge_recovery(signer, signature, &None);
    }
    let message = canonical_message(account, balance, collateral);
    let hash = sha256(&message);
    let recovered = ecrecover(&hash, signature);
    judge_recovery(signer, signature, &recovered)
}

/// Checks signed balances for `account`: empty signature, missing signer and
/// zero balances are rejected first, then the signature must recover to the
/// signer's address.
pub fn check_aurora_balance(
    account: &String,
    balance: u128,
    collateral: u128,
    signature: &Vec<u8>,
    signer: &String,
) -> (r: ProofVerdict)
    ensures
        r == balance_verdict(
            balance,
            collateral,
            signer@,
            signature@,
            message_signer(account@, balance, collateral, signature@),
        ),
        signature@.len() == 0 ==> r == ProofVerdict::EmptySignature,
{
    if signature.len() == 0 {
        return ProofVerdict::EmptySignature;
    }
    if signer.as_str().is_empty() {
        return ProofVerdict::MissingSigner;
    }
    if balance == 0 && collateral == 0 {
        return ProofVerdict::ZeroBalances;
    }
    check_signature(account, balance, collateral, signer, signature)
}

/// The fields of a proof that verification reads, or `MissingSigner` when the
/// signer address is empty.
fn decode_proof(proof: &ManaBalancesProof) -> (r: Result<(u128, u128, u64), ProofVerdict>)
    ensures
        proof.signer_address@.len() == 0 ==> r == Err::<(u128, u128, u64), ProofVerdict>(
            ProofVerdict::MissingSigner,
        ),
        proof.signer_address@.len() != 0 ==> r == Ok::<(u128, u128, u64), ProofVerdict>(
            (proof.mana_balance, proof.collateral_mana_balance, proof.voting_power),
        ),
{
    if proof.signer_address.as_str().is_empty() {
        return Err(ProofVerdict::MissingSigner);
    }
    Ok((proof.mana_balance, proof.collateral_mana_balance, proof.voting_power))
}

/// Checks a full proof for `account`: as [`check_aurora_balance`], with a
/// zero voting power rejected before the signature is examined.
pub fn check_aurora_proof(proof: &ManaBalancesProof, account: &String) -> (r: ProofVerdict)
    ensures
        r == proof_verdict(
            proof.mana_balance,
            proof.collateral_mana_balance,
            proof.voting_power,
            proof.signer_address@,
            proof.signature@,
            message_signer(
                account@,
                proof.mana_balance,
                proof.collateral_mana_balance,
                proof.signature@,
            ),
        ),
        proof.signature@.len() == 0 ==> r == ProofVerdict::EmptySignature,
{
    if proof.signature.len() == 0 {
        return ProofVerdict::EmptySignature;
    }
    let (balance, collateral, voting_power) = match decode_proof(proof) {
        Ok(fields) => fields,
        Err(v) => {
            return v;
        },
    };
    if balance == 0 && collateral == 0 {
        return ProofVerdict::ZeroBalances;
    }
    if voting_power == 0 {
        return ProofVerdict::ZeroVotingPower;
    }
    check_signature(account, balance, collateral, &proof.signer_address, &proof.signature)
}

} // verus!
