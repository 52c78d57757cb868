//! Who takes part in a call: a secret that nobody else knows, and the public name
//! that follows from it.
//!
//! A secret and a public name are keys of the network library `iroh`. They are kept
//! as their 32 bytes here.
use iroh::{KeyParsingError, PublicKey, SecretKey};
use vstd::prelude::*;
use vstd::string::StringExecFns;

verus! {

/// Why a text is no key.
#[derive(Clone, Copy, PartialEq, Eq, Debug, Structural)]
pub enum KeyError {
    /// It has the length of a hexadecimal key, but is none.
    FailedToDecodeHex,
    /// It has the length of a base-32 key, but is none.
    FailedToDecodeBase32,
    /// It has the length of no key.
    InvalidLength,
    /// It gives 32 bytes, but they are no public key.
    InvalidKeyData,
}

impl KeyError {
    /// What to say where a text is no key.
    pub fn message(&self) -> (r: &'static str)
        ensures
            r@ == match *self {
                KeyError::FailedToDecodeHex => "failed to decode hex string"@,
                KeyError::FailedToDecodeBase32 => "failed to decode base32 string"@,
                KeyError::InvalidLength => "invalid length"@,
                KeyError::InvalidKeyData => "data is not a valid public key"@,
            },
    {
        match *self {
            KeyError::FailedToDecodeHex => "failed to decode hex string",
            KeyError::FailedToDecodeBase32 => "failed to decode base32 string",
            KeyError::InvalidLength => "invalid length",
            KeyError::InvalidKeyData => "data is not a valid public key",
        }
    }
}

/// A hexadecimal digit.
pub open spec fn hex_digit(value: int) -> char {
    if value < 10 {
        (48 + value) as char
    } else {
        (87 + value) as char
    }
}

/// Bytes in hexadecimal digits, two for each byte.
pub open spec fn hex_lower(bytes: Seq<u8>) -> Seq<char> {
    Seq::new(
        2 * bytes.len(),
        |i: int|
            hex_digit(
                if i % 2 == 0 {
                    bytes[i / 2] / 16
                } else {
                    bytes[i / 2] % 16
                } as int,
            ),
    )
}

/// Why a text of `len` bytes that gives no 32 bytes does not.
pub open spec fn decoding_error(len: usize) -> KeyError {
    if len == 64 {
        KeyError::FailedToDecodeHex
    } else if len == 52 {
        KeyError::FailedToDecodeBase32
    } else {
        KeyError::InvalidLength
    }
}

/// The bytes of the secret key that `SecretKey::from_str` of `iroh` reads in a text, if
/// it reads one.
pub uninterp spec fn parsed_secret_key(text: Seq<char>) -> Option<Seq<u8>>;

/// The bytes of the public key that `PublicKey::from_str` of `iroh` reads in a text, if
/// it reads one.
pub uninterp spec fn parsed_public_key(text: Seq<char>) -> Option<Seq<u8>>;

/// The bytes of the public key that `SecretKey::public` of `iroh` computes from those of
/// a secret key.
pub uninterp spec fn public_key_of(secret: Seq<u8>) -> Seq<u8>;

/// Calls `SecretKey::generate` of `iroh`, which draws the bytes by chance.
#[verifier::external_body]
fn generate_secret_key() -> (r: [u8; 32]) {
    SecretKey::generate().to_bytes()
}

/// Calls `SecretKey::public` of `iroh`. What it gives is a public key, so that its
/// hexadecimal form is read back as that key.
#[verifier::external_body]
fn compute_public_key(secret: &[u8; 32]) -> (r: [u8; 32])
    ensures
        r@ == public_key_of(secret@),
        parsed_public_key(hex_lower(r@)) == Some(r@),
{
    *SecretKey::from_bytes(secret).public().as_bytes()
}

/// Calls `SecretKey::from_str` of `iroh`. It reads 64 hexadecimal digits, or 52 digits of
/// base 32, and what is wrong with any other text shows in its length.
#[verifier::external_body]
fn parse_secret_key(s: &str) -> (r: Result<[u8; 32], KeyError>)
    requires
        s.len() <= usize::MAX / 8,
    ensures
        r is Ok <==> parsed_secret_key(s@) is Some,
        r is Ok ==> parsed_secret_key(s@) == Some(r->Ok_0@),
        r is Err ==> r->Err_0 == decoding_error(s.len()),
        forall|bytes: Seq<u8>|
            bytes.len() == 32 && s@ == #[trigger] hex_lower(bytes) ==> r is Ok && r->Ok_0@ == bytes,
{
    match s.parse::<SecretKey>() {
        Ok(key) => Ok(key.to_bytes()),
        Err(KeyParsingError::FailedToDecodeHex { .. }) => Err(KeyError::FailedToDecodeHex),
        Err(KeyParsingError::FailedToDecodeBase32 { .. }) => Err(KeyError::FailedToDecodeBase32),
        Err(KeyParsingError::InvalidLength { .. }) => Err(KeyError::InvalidLength),
        Err(_) => Err(KeyError::InvalidKeyData),
    }
}

/// Calls `PublicKey::from_str` of `iroh`. It decodes a text as `SecretKey::from_str` does,
/// and then tells whether the bytes are a public key; the hexadecimal form of those that
/// are is read back as the same key.
#[verifier::external_body]
fn parse_public_key(s: &str) -> (r: Result<[u8; 32], KeyError>)
    requires
        s.len() <= usize::MAX / 8,
    ensures
        r is Ok <==> parsed_public_key(s@) is Some,
        r is Ok ==> parsed_public_key(s@) == Some(r->Ok_0@),
        r is Ok ==> parsed_secret_key(s@) == Some(r->Ok_0@),
        r is Ok ==> parsed_public_key(hex_lower(r->Ok_0@)) == Some(r->Ok_0@),
        r is Err ==> r->Err_0 == if parsed_secret_key(s@) is Some {
            KeyError::InvalidKeyData
        } else {
            decoding_error(s.len())
        },
{
    match s.parse::<PublicKey>() {
        Ok(key) => Ok(*key.as_bytes()),
        Err(KeyParsingError::FailedToDecodeHex { .. }) => Err(KeyError::FailedToDecodeHex),
        Err(KeyParsingError::FailedToDecodeBase32 { .. }) => Err(KeyError::FailedToDecodeBase32),
        Err(KeyParsingError::InvalidLength { .. }) => Err(KeyError::InvalidLength),
        Err(_) => Err(KeyError::InvalidKeyData),
    }
}

/// Calls the `Display` of `PublicKey` of `iroh`, which gives the bytes in hexadecimal
/// digits. `PublicKey::from_bytes` makes the key again, which it does for the bytes of a
/// key.
#[verifier::external_body]
fn display_public_key(bytes: &[u8; 32]) -> (r: String)
    requires
        parsed_public_key(hex_lower(bytes@)) == Some(bytes@),
    ensures
        r@ == hex_lower(bytes@),
{
    PublicKey::from_bytes(bytes).unwrap().to_string()
}

/// Calls the `Debug` of `SecretKey` of `iroh`, which shows nothing of the key.
#[verifier::external_body]
fn debug_secret_key(bytes: &[u8; 32]) -> (r: String)
    ensures
        r@ == "SecretKey(..)"@,
{
    format!("{:?}", SecretKey::from_bytes(bytes))
}

/// The secret of one who takes part.
pub struct SecretId {
    key: [u8; 32],
}

impl Clone for SecretId {
    fn clone(&self) -> (r: Self)
        ensures
            r@ == self@,
    {
        SecretId { key: self.key }
    }
}

impl View for SecretId {
    type V = Seq<u8>;

    /// The bytes of the key.
    closed spec fn view(&self) -> Seq<u8> {
        self.key@
    }
}

impl SecretId {
    /// The secret with the given key.
    pub fn new(key: [u8; 32]) -> (r: Self)
        ensures
            r@ == key@,
    {
        SecretId { key }
    }

    /// A new secret, drawn by chance.
    pub fn generate() -> (r: Self)
        ensures
            r@.len() == 32,
    {
        Self::new(generate_secret_key())
    }

    /// The public name that follows from this secret.
    pub fn public(&self) -> (r: PublicId)
        ensures
            r@ == public_key_of(self@),
    {
        PublicId::new(compute_public_key(&self.key))
    }

    /// The key.
    pub fn key(&self) -> (r: &[u8; 32])
        ensures
            r@ == self@,
    {
        &self.key
    }

    /// What is shown in place of a secret.
    pub fn to_text(&self) -> (r: String)
        ensures
            r@ == "SecretKey(..)"@,
    {
        debug_secret_key(&self.key)
    }

    /// Reads a secret.
    pub fn from_str(s: &str) -> (r: Result<Self, KeyError>)
        requires
            s.len() <= usize::MAX / 8,
        ensures
            r is Ok <==> parsed_secret_key(s@) is Some,
            r is Ok ==> parsed_secret_key(s@) == Some(r->Ok_0@),
            r is Err ==> r->Err_0 == decoding_error(s.len()),
            forall|bytes: Seq<u8>|
                bytes.len() == 32 && s@ == #[trigger] hex_lower(bytes) ==> r is Ok && r->Ok_0@
                    == bytes,
    {
        match parse_secret_key(s) {
            Ok(key) => Ok(Self::new(key)),
            Err(error) => Err(error),
        }
    }

    /// Reads a secret where there is a text, and draws one where there is none.
    pub fn read_or_generate(s: Option<&str>) -> (r: Result<Self, KeyError>)
        requires
            s is Some ==> s->0.len() <= usize::MAX / 8,
        ensures
            s is None ==> r is Ok && r->Ok_0@.len() == 32,
            s is Some ==> {
                &&& r is Ok <==> parsed_secret_key(s->0@) is Some
                &&& r is Ok ==> parsed_secret_key(s->0@) == Some(r->Ok_0@)
                &&& r is Err ==> r->Err_0 == decoding_error(s->0.len())
            },
    {
        match s {
            Some(s) => Self::from_str(s),
            None => Ok(Self::generate()),
        }
    }
}

/// The public name of one who takes part.
#[derive(Clone, Copy, PartialEq, Eq, Hash, Debug)]
pub struct PublicId {
    key: [u8; 32],
}

impl View for PublicId {
    type V = Seq<u8>;

    /// The bytes of the key.
    closed spec fn view(&self) -> Seq<u8> {
        self.key@
    }
}

impl PublicId {
    /// The bytes are those of a public key.
    #[verifier::type_invariant]
    spec fn is_key(self) -> bool {
        parsed_public_key(hex_lower(self.key@)) == Some(self.key@)
    }

    fn new(key: [u8; 32]) -> (r: Self)
        requires
            parsed_public_key(hex_lower(key@)) == Some(key@),
        ensures
            r@ == key@,
    {
        PublicId { key }
    }

    /// The key.
    pub fn key(&self) -> (r: &[u8; 32])
        ensures
            r@ == self@,
    {
        &self.key
    }

    /// The name in hexadecimal digits. Read again, they give the same name.
    pub fn to_text(&self) -> (r: String)
        ensures
            r@ == hex_lower(self@),
            parsed_public_key(r@) == Some(self@),
    {
        proof {
            use_type_invariant(self);
        }
        display_public_key(&self.key)
    }

    /// Reads a name.
    pub fn from_str(s: &str) -> (r: Result<Self, KeyError>)
        requires
            s.len() <= usize::MAX / 8,
        ensures
            r is Ok <==> parsed_public_key(s@) is Some,
            r is Ok ==> parsed_public_key(s@) == Some(r->Ok_0@),
            r is Ok ==> parsed_secret_key(s@) == Some(r->Ok_0@),
            r is Err ==> r->Err_0 == if parsed_secret_key(s@) is Some {
                KeyError::InvalidKeyData
            } else {
                decoding_error(s.len())
            },
    {
        match parse_public_key(s) {
            Ok(key) => Ok(Self::new(key)),
            Err(error) => Err(error),
        }
    }
}

/// Keys that differ are shown as texts that differ.
pub proof fn law_the_text_of_a_key_tells_the_key(a: Seq<u8>, b: Seq<u8>)
    ensures
        hex_lower(a) == hex_lower(b) ==> a == b,
{
    if hex_lower(a) == hex_lower(b) {
        assert(hex_lower(a).len() == 2 * a.len());
        assert(hex_lower(b).len() == 2 * b.len());
        assert forall|i: int| 0 <= i < a.len() implies a[i] == b[i] by {
            assert(hex_lower(a)[2 * i] == hex_lower(b)[2 * i]);
            assert(hex_lower(a)[2 * i + 1] == hex_lower(b)[2 * i + 1]);
        }
        assert(a =~= b);
    }
}

/// Digits follow one another as their values do: those below ten from `0` on, and the others
/// from `a` on.
pub proof fn law_digits_follow_their_values(value: int)
    requires
        0 <= value < 16,
    ensures
        value < 10 ==> hex_digit(value) as int == '0' as int + value,
        value >= 10 ==> hex_digit(value) as int == 'a' as int + value - 10,
{
}

/// Bytes that are shown piece by piece are shown as a whole.
pub proof fn law_texts_join(first: Seq<u8>, second: Seq<u8>)
    ensures
        hex_lower(first + second) == hex_lower(first) + hex_lower(second),
{
    assert(hex_lower(first + second) =~= hex_lower(first) + hex_lower(second));
}

/// A byte is shown as two digits, the one that counts sixteens first.
pub proof fn law_a_byte_is_two_digits(high: int, low: int)
    requires
        0 <= high < 16,
        0 <= low < 16,
    ensures
        hex_lower(seq![(16 * high + low) as u8]) == seq![hex_digit(high), hex_digit(low)],
        hex_lower(Seq::<u8>::empty()) == Seq::<char>::empty(),
{
    let byte = (16 * high + low) as u8;
    assert(byte as int / 16 == high);
    assert(byte as int % 16 == low);
    assert(hex_lower(seq![byte]) =~= seq![hex_digit(high), hex_digit(low)]);
    assert(hex_lower(Seq::<u8>::empty()) =~= Seq::<char>::empty());
}

/// What is wrong with a text that gives no key shows in its length: two digits for each of 32
/// bytes, or 52 digits of five bits each, which are as many as 32 bytes need.
pub proof fn law_the_length_tells_the_error(len: usize)
    ensures
        decoding_error(len) == KeyError::FailedToDecodeHex <==> len == 2 * 32,
        decoding_error(len) == KeyError::FailedToDecodeBase32 <==> 5 * len >= 8 * 32 && 5 * (len
            - 1) < 8 * 32,
        decoding_error(len) != KeyError::InvalidKeyData,
{
}

} // verus!
