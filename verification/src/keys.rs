use vstd::prelude::*;
use vstd::string::StringSliceAdditionalSpecFns;
use vstd::utf8::encode_utf8;
use crate::ui::{remove_char, strip_dashes};

verus! {

/// The outside error type of the `argon2` crate.
#[verifier::external_type_specification]
#[verifier::external_body]
pub struct ExArgon2Error(argon2::Error);

/// The 32-byte Argon2id (version 0x13) hash of `pwd` with `salt` and costs
/// `m_cost` KiB, `t_cost` passes and `p_cost` lanes, as the `argon2` crate computes it.
pub uninterp spec fn argon2id_output(pwd: Seq<u8>, salt: Seq<u8>, m_cost: u32, t_cost: u32, p_cost: u32) -> Seq<u8>;

/// The X25519 public key of the secret scalar bytes `secret` (clamped, times the
/// base point), as `x25519_dalek` computes it.
pub uninterp spec fn x25519_public_of(secret: Seq<u8>) -> Seq<u8>;

/// Argon2id into 32 bytes with `argon2::Params::new(m, t, p, Some(32))` and
/// `Argon2::hash_password_into`. Claimed, as the crate's source checks it:
/// with valid costs the only failures are a password longer than `u32::MAX`
/// bytes and a salt shorter than 8 or longer than `u32::MAX` bytes; the bytes
/// produced are `argon2id_output` of the arguments.
#[verifier::external_body]
fn argon2id_hash(pwd: &[u8], salt: &[u8], m_cost: u32, t_cost: u32, p_cost: u32) -> (r: Result<[u8; 32], argon2::Error>)
    requires
        1 <= p_cost <= 0xFFFFFF,
        m_cost >= 8 * p_cost,
        t_cost >= 1,
    ensures
        (pwd@.len() <= u32::MAX && 8 <= salt@.len() <= u32::MAX) ==> r is Ok,
        r matches Ok(k) ==> k@ == argon2id_output(pwd@, salt@, m_cost, t_cost, p_cost),
{
    let params = argon2::Params::new(m_cost, t_cost, p_cost, Some(32))?;
    let mut out = [0u8; 32];
    argon2::Argon2::new(argon2::Algorithm::Argon2id, argon2::Version::V0x13, params).hash_password_into(pwd, salt, &mut out)?;
    Ok(out)
}

/// `x25519_dalek::PublicKey::from(&StaticSecret::from(secret))`, as bytes.
/// Claimed: the result is `x25519_public_of(secret)`.
#[verifier::external_body]
fn x25519_public(secret: [u8; 32]) -> (r: [u8; 32])
    ensures
        r@ == x25519_public_of(secret@),
{
    x25519_dalek::PublicKey::from(&x25519_dalek::StaticSecret::from(secret)).to_bytes()
}

/// An X25519 static secret key.
pub struct StaticSecret {
    bytes: [u8; 32],
}

impl StaticSecret {
    pub closed spec fn view_bytes(&self) -> Seq<u8> {
        self.bytes@
    }

    /// The secret's 32 bytes.
    pub fn to_bytes(&self) -> (b: [u8; 32])
        ensures
            b@ == self.view_bytes(),
    {
        self.bytes
    }
}

/// An X25519 public key.
pub struct PublicKey {
    bytes: [u8; 32],
}

impl PublicKey {
    pub closed spec fn view_bytes(&self) -> Seq<u8> {
        self.bytes@
    }

    /// The key's 32 bytes.
    pub fn as_bytes(&self) -> (b: &[u8; 32])
        ensures
            b@ == self.view_bytes(),
    {
        &self.bytes
    }
}

/// The salt shared by every LuminaRemote peer: `b"LuminaRemote_Fixed_Salt!"`.
pub open spec fn fixed_salt() -> Seq<u8> {
    seq![
        76u8, 117u8, 109u8, 105u8, 110u8, 97u8, 82u8, 101u8, 109u8, 111u8, 116u8, 101u8,
        95u8, 70u8, 105u8, 120u8, 101u8, 100u8, 95u8, 83u8, 97u8, 108u8, 116u8, 33u8,
    ]
}

/// Argon2id memory cost: 64 MiB.
pub const KDF_M_COST: u32 = 65536;
/// Argon2id passes.
pub const KDF_T_COST: u32 = 3;
/// Argon2id lanes.
pub const KDF_P_COST: u32 = 2;

/// The secret key that a seed phrase stands for.
pub open spec fn seed_secret(seed: Seq<u8>) -> Seq<u8> {
    argon2id_output(seed, fixed_salt(), KDF_M_COST, KDF_T_COST, KDF_P_COST)
}

/// Derives an X25519 static secret and public key pair from a given 12-character seed.
/// Both sides derive the same key from the seed with a fixed salt, so no salt is exchanged.
pub fn derive_key_pair(seed: &str) -> (r: (StaticSecret, PublicKey))
    requires
        seed.spec_bytes().len() <= u32::MAX,
    ensures
        r.0.view_bytes() == seed_secret(seed.spec_bytes()),
        r.1.view_bytes() == x25519_public_of(seed_secret(seed.spec_bytes())),
{
    let salt: [u8; 24] = [
        76, 117, 109, 105, 110, 97, 82, 101, 109, 111, 116, 101, 95, 70, 105, 120, 101, 100, 95,
        83, 97, 108, 116, 33,
    ];
    assert(salt@ =~= fixed_salt());
    let pwd = seed.as_bytes();
    let key_material = match argon2id_hash(pwd, &salt, KDF_M_COST, KDF_T_COST, KDF_P_COST) {
        Ok(k) => k,
        Err(_) => {
            // unreachable: the password length is within bounds and the salt is 24 bytes
            proof {
                assert(false);
            }
            [0u8; 32]
        },
    };
    let public = x25519_public(key_material);
    (StaticSecret { bytes: key_material }, PublicKey { bytes: public })
}

/// Same seed, same keys: a peer that knows the seed derives the very key pair of
/// the peer that generated it.
pub proof fn lemma_same_seed_same_keys(seed1: Seq<u8>, seed2: Seq<u8>)
    requires
        seed1 == seed2,
    ensures
        seed_secret(seed1) == seed_secret(seed2),
        x25519_public_of(seed_secret(seed1)) == x25519_public_of(seed_secret(seed2)),
{
}

/// The secret key that a session PIN stands for: the PIN without its dashes is
/// the seed.
pub open spec fn pin_secret(pin: Seq<char>) -> Seq<u8> {
    seed_secret(encode_utf8(remove_char(pin, '-')))
}

/// The key pair of a session PIN as typed (`derive_key_pair(&pin.replace("-", ""))`).
pub fn pin_key_pair(pin: &str) -> (r: (StaticSecret, PublicKey))
    requires
        encode_utf8(remove_char(pin@, '-')).len() <= u32::MAX,
    ensures
        r.0.view_bytes() == pin_secret(pin@),
        r.1.view_bytes() == x25519_public_of(pin_secret(pin@)),
{
    let clean = strip_dashes(pin);
    derive_key_pair(clean.as_str())
}

/// Dashes do not matter in a PIN: two PINs that agree once their dashes are
/// removed (such as `ABCD-EFGH-JKLM` and `ABCDEFGHJKLM`) give the same secret
/// and the same public key.
pub proof fn lemma_pin_dashes_ignored(pin1: Seq<char>, pin2: Seq<char>)
    requires
        remove_char(pin1, '-') == remove_char(pin2, '-'),
    ensures
        pin_secret(pin1) == pin_secret(pin2),
        x25519_public_of(pin_secret(pin1)) == x25519_public_of(pin_secret(pin2)),
{
}

} // verus!
