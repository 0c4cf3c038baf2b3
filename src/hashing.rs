//! Salted password hashing on top of bcrypt.
use vstd::prelude::*;
use vstd::string::StringSliceAdditionalSpecFns;
use vstd::utf8::{encode_utf8, is_ascii_chars, is_ascii_chars_encode_utf8};
use vstd::string::StrSliceExecFns;

verus! {

/// Work factor of verification hashing (bcrypt's default cost).
pub const DEFAULT_COST: u32 = 12;

/// Smallest work factor bcrypt accepts.
pub const MIN_COST: u32 = 4;

/// Largest work factor bcrypt accepts.
pub const MAX_COST: u32 = 31;

/// Number of salt bytes that bcrypt consumes.
pub const SALT_LEN: usize = 16;

#[verifier::external_type_specification]
#[verifier::external_body]
pub struct ExBcryptError(bcrypt::BcryptError);

/// A failure of the hashing algorithm.
#[derive(Debug, Clone, Copy, PartialEq, Eq, Structural)]
pub enum HashError {
    /// The work factor lies outside the range bcrypt accepts.
    CostNotAllowed(u32),
}

/// The bcrypt hash string, version `2b`, of a password under a cost and a salt.
pub uninterp spec fn bcrypt_2b(password: Seq<char>, cost: u32, salt: Seq<u8>) -> Seq<char>;

/// The outer shape of a bcrypt 2b hash string.
pub open spec fn is_2b_text(h: Seq<char>) -> bool {
    &&& h.len() == 60
    &&& h.subrange(0, 4) == seq!['$', '2', 'b', '$']
    &&& h[6] == '$'
}

pub open spec fn cost_allowed(cost: u32) -> bool {
    MIN_COST <= cost <= MAX_COST
}

/// Relies on bcrypt::hash_with_salt, which fails exactly when the cost lies
/// outside 4..=31, and on HashParts::format_for_version (version 2b), whose
/// text depends on password, cost and salt alone: `$2b$`, two cost digits,
/// `$`, then the salt (22 characters) and the hash (31 characters), both in
/// unpadded base64, 60 characters in all.
#[verifier::external_body]
fn bcrypt_hash(password: &str, cost: u32, salt: [u8; 16]) -> (r: Result<String, bcrypt::BcryptError>)
    ensures
        r is Ok <==> cost_allowed(cost),
        r matches Ok(h) ==> h@ == bcrypt_2b(password@, cost, salt@) && is_2b_text(h@),
{
    bcrypt::hash_with_salt(password, cost, salt).map(|p| p.format_for_version(bcrypt::Version::TwoB))
}

/// A stored salt cut or zero-padded to exactly sixteen bytes.
pub open spec fn padded_salt(stored: Seq<u8>) -> Seq<u8> {
    Seq::new(SALT_LEN as nat, |i: int| if i < stored.len() { stored[i] } else { 0u8 })
}

/// Whether a stored salt has the canonical length.
pub open spec fn salt_well_formed(stored: Seq<u8>) -> bool {
    stored.len() == SALT_LEN
}

/// Copies at most sixteen bytes of a stored salt into a zeroed buffer.
pub fn salt_buffer(stored: &str) -> (r: [u8; 16])
    ensures
        r@ == padded_salt(stored.spec_bytes()),
{
    let bytes = stored.as_bytes();
    let n: usize = if bytes.len() < SALT_LEN {
        bytes.len()
    } else {
        SALT_LEN
    };
    let mut salt: [u8; 16] = [0u8; 16];
    let mut i: usize = 0;
    while i < n
        invariant
            n <= SALT_LEN,
            n == bytes@.len() || n == SALT_LEN,
            n <= bytes@.len(),
            bytes@ == stored.spec_bytes(),
            i <= n,
            forall|j: int| 0 <= j < i ==> salt@[j] == bytes@[j],
            forall|j: int| i <= j < SALT_LEN ==> salt@[j] == 0u8,
        decreases n - i,
    {
        salt[i] = bytes[i];
        i = i + 1;
    }
    assert(salt@ =~= padded_salt(stored.spec_bytes()));
    salt
}

/// Whether a stored salt must be cut or padded before use: the caller's
/// warning that stored data may be corrupt.
pub fn salt_is_malformed(stored_salt: &str) -> (r: bool)
    ensures
        r == !salt_well_formed(stored_salt.spec_bytes()),
{
    stored_salt.as_bytes().len() != SALT_LEN
}

/// Hashes a password under a cost and a raw salt, or reports the typed
/// error bcrypt gives.
pub fn salted_hash(password: &str, cost: u32, salt: [u8; 16]) -> (r: Result<String, HashError>)
    ensures
        r is Ok <==> cost_allowed(cost),
        r matches Ok(h) ==> h@ == bcrypt_2b(password@, cost, salt@) && is_2b_text(h@),
        r matches Err(e) ==> e == HashError::CostNotAllowed(cost),
{
    match bcrypt_hash(password, cost, salt) {
        Ok(h) => Ok(h),
        Err(_) => Err(HashError::CostNotAllowed(cost)),
    }
}

/// The hash of a password under a cost and a stored salt text, whose bytes,
/// cut or zero-padded to sixteen, are the raw salt.
pub open spec fn stored_salt_hash_spec(password: Seq<char>, cost: u32, stored_salt: Seq<char>) -> Seq<char> {
    bcrypt_2b(password, cost, padded_salt(encode_utf8(stored_salt)))
}

/// The hash that verification computes: default cost, stored salt.
pub open spec fn verification_hash_spec(password: Seq<char>, stored_salt: Seq<char>) -> Seq<char> {
    stored_salt_hash_spec(password, DEFAULT_COST, stored_salt)
}

/// Hashes a password under a cost and a stored salt text.
pub fn stored_salt_hash(password: &str, cost: u32, stored_salt: &str) -> (r: Result<String, HashError>)
    ensures
        r is Ok <==> cost_allowed(cost),
        r matches Ok(h) ==> h@ == stored_salt_hash_spec(password@, cost, stored_salt@) && is_2b_text(
            h@,
        ),
        r matches Err(e) ==> e == HashError::CostNotAllowed(cost),
{
    salted_hash(password, cost, salt_buffer(stored_salt))
}

/// A verification hash, with the warning that the stored salt was not
/// sixteen bytes long and had to be cut or padded.
#[derive(Debug, Clone, PartialEq, Eq)]
pub struct SaltedPassword {
    pub hash: String,
    pub salt_malformed: bool,
}

/// Verification hashing: the default cost and the stored salt, cut or
/// zero-padded to sixteen bytes; a salt of another length is reported.
pub fn verification_hash(password: &str, stored_salt: &str) -> (r: Result<SaltedPassword, HashError>)
    ensures
        r matches Ok(h) && h.hash@ == verification_hash_spec(password@, stored_salt@)
            && h.salt_malformed == !salt_well_formed(stored_salt.spec_bytes()),
{
    let salt_malformed = salt_is_malformed(stored_salt);
    match stored_salt_hash(password, DEFAULT_COST, stored_salt) {
        Ok(hash) => Ok(SaltedPassword { hash, salt_malformed }),
        Err(e) => Err(e),
    }
}

/// The characters a generated salt is drawn from: bcrypt's own alphabet.
pub open spec fn salt_alphabet() -> Seq<char> {
    seq![
        '.', '/', 'A', 'B', 'C', 'D', 'E', 'F', 'G', 'H', 'I', 'J',
        'K', 'L', 'M', 'N', 'O', 'P', 'Q', 'R', 'S', 'T', 'U', 'V',
        'W', 'X', 'Y', 'Z', 'a', 'b', 'c', 'd', 'e', 'f', 'g', 'h',
        'i', 'j', 'k', 'l', 'm', 'n', 'o', 'p', 'q', 'r', 's', 't',
        'u', 'v', 'w', 'x', 'y', 'z', '0', '1', '2', '3', '4', '5',
        '6', '7', '8', '9',
    ]
}

/// The salt text that sixteen random bytes choose: byte i picks the
/// alphabet's entry at its value modulo 64.
pub open spec fn salt_chars(random: Seq<u8>) -> Seq<char> {
    Seq::new(SALT_LEN as nat, |i: int| salt_alphabet()[(random[i] % 64) as int])
}

/// A salt text of sixteen ASCII characters, one chosen by each random byte;
/// its bytes are the raw salt that hashing uses. Since the salt must be
/// text, each byte carries six random bits: 96 bits in all.
pub fn salt_text(random: [u8; 16]) -> (r: String)
    ensures
        r@ == salt_chars(random@),
        r@.len() == SALT_LEN,
        salt_well_formed(encode_utf8(r@)),
{
    // bcrypt's own alphabet
    let alphabet: &str = "./ABCDEFGHIJKLMNOPQRSTUVWXYZabcdefghijklmnopqrstuvwxyz0123456789";
    proof {
        reveal_strlit("./ABCDEFGHIJKLMNOPQRSTUVWXYZabcdefghijklmnopqrstuvwxyz0123456789");
    }
    assert(alphabet@ =~= salt_alphabet());
    assert(is_ascii_chars(alphabet@));
    let mut r = String::new();
    let mut i: usize = 0;
    while i < SALT_LEN
        invariant
            i <= SALT_LEN,
            r@.len() == i,
            is_ascii_chars(r@),
            forall|j: int| 0 <= j < i ==> r@[j] == salt_alphabet()[(random@[j] % 64) as int],
            alphabet@ == salt_alphabet(),
            is_ascii_chars(alphabet@),
        decreases SALT_LEN - i,
    {
        let k: usize = (random[i] % 64) as usize;
        let c = alphabet.substring_ascii(k, k + 1);
        proof {
            assert(c@ == alphabet@.subrange(k as int, k + 1));
        }
        r.append(c);
        proof {
            assert forall|j: int| 0 <= j < r@.len() implies '\0' <= #[trigger] r@[j] <= '\u{7f}' by {
                if j >= i {
                    assert(r@[j] == alphabet@[k as int]);
                }
            }
        }
        i = i + 1;
    }
    proof {
        is_ascii_chars_encode_utf8(r@);
    }
    assert(r@ =~= salt_chars(random@));
    r
}

/// Hashing a password twice under the same stored salt gives the same string.
pub proof fn lemma_same_salt_same_hash(password: Seq<char>, salt_a: Seq<char>, salt_b: Seq<char>)
    requires
        salt_a == salt_b,
    ensures
        verification_hash_spec(password, salt_a) == verification_hash_spec(password, salt_b),
{
}

/// A stored salt shorter than sixteen bytes is zero-padded, so its
/// verification hash is that of the padded salt and of nothing else.
pub proof fn lemma_short_salt_padded(password: Seq<char>, stored_salt: Seq<char>, stored: Seq<u8>)
    requires
        stored == encode_utf8(stored_salt),
        stored.len() < SALT_LEN,
    ensures
        verification_hash_spec(password, stored_salt) == bcrypt_2b(
            password,
            DEFAULT_COST,
            stored + Seq::new((SALT_LEN - stored.len()) as nat, |i: int| 0u8),
        ),
{
    assert(padded_salt(stored) =~= stored + Seq::new(
        (SALT_LEN - stored.len()) as nat,
        |i: int| 0u8,
    ));
}

} // verus!
