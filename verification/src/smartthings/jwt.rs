//! The JSON Web Token the device authenticates with: an EdDSA signature,
//! by the device's key pair, of its Base64 encoded header and body.
use vstd::prelude::*;
use vstd::string::*;

use base64ct::Encoding;
use ed25519_dalek::ed25519::signature::Error as SignatureError;
use ed25519_dalek::Signer;

use crate::configuration::Configuration;

verus! {

#[verifier::external_type_specification]
#[verifier::external_body]
pub struct ExSigningKey(ed25519_dalek::SigningKey);

#[verifier::external_type_specification]
#[verifier::external_body]
pub struct ExSignatureError(SignatureError);

#[verifier::external_type_specification]
#[verifier::external_body]
pub struct ExBase64Error(base64ct::Error);

#[verifier::external_type_specification]
#[verifier::external_body]
pub struct ExJsonError(serde_json::Error);

/// The character of the standard Base64 alphabet that encodes `v` (`0 <= v < 64`).
pub open spec fn base64_char(v: int) -> char {
    if v < 26 {
        ('A' as int + v) as char
    } else if v < 52 {
        ('a' as int + v - 26) as char
    } else if v < 62 {
        ('0' as int + v - 52) as char
    } else if v == 62 {
        '+'
    } else {
        '/'
    }
}

/// The standard Base64 encoding of `s`, with padding (RFC 4648, section 4).
pub open spec fn base64(s: Seq<u8>) -> Seq<char>
    decreases s.len(),
{
    if s.len() == 0 {
        Seq::empty()
    } else if s.len() == 1 {
        seq![base64_char(s[0] as int / 4), base64_char((s[0] % 4) * 16), '=', '=']
    } else if s.len() == 2 {
        seq![
            base64_char(s[0] as int / 4),
            base64_char((s[0] % 4) * 16 + s[1] / 16),
            base64_char((s[1] % 16) * 4),
            '=',
        ]
    } else {
        seq![
            base64_char(s[0] as int / 4),
            base64_char((s[0] % 4) * 16 + s[1] / 16),
            base64_char((s[1] % 16) * 4 + s[2] / 64),
            base64_char(s[2] as int % 64),
        ] + base64(s.skip(3))
    }
}

proof fn lemma_base64_char_injective(x: int, y: int)
    requires
        0 <= x < 64,
        0 <= y < 64,
        base64_char(x) == base64_char(y),
    ensures
        x == y,
{
}

proof fn lemma_base64_char_not_padding(x: int)
    requires
        0 <= x < 64,
    ensures
        base64_char(x) != '=',
{
}

proof fn lemma_base64_block_injective(s0: u8, s1: u8, s2: u8, t0: u8, t1: u8, t2: u8)
    requires
        s0 / 4 == t0 / 4,
        (s0 % 4) * 16 + s1 / 16 == (t0 % 4) * 16 + t1 / 16,
        (s1 % 16) * 4 + s2 / 64 == (t1 % 16) * 4 + t2 / 64,
        s2 % 64 == t2 % 64,
    ensures
        s0 == t0,
        s1 == t1,
        s2 == t2,
{
    assert(s0 == t0 && s1 == t1 && s2 == t2) by (bit_vector)
        requires
            s0 / 4 == t0 / 4,
            (s0 % 4) * 16 + s1 / 16 == (t0 % 4) * 16 + t1 / 16,
            (s1 % 16) * 4 + s2 / 64 == (t1 % 16) * 4 + t2 / 64,
            s2 % 64 == t2 % 64,
    ;
}

/// The first block of the encoding of a non-empty byte string.
proof fn lemma_base64_first_block(s: Seq<u8>)
    requires
        s.len() > 0,
    ensures
        base64(s).len() >= 4,
        base64(s)[0] == base64_char(s[0] as int / 4),
        s.len() == 1 ==> base64(s)[1] == base64_char((s[0] % 4) * 16) && base64(s)[2] == '=',
        s.len() >= 2 ==> base64(s)[1] == base64_char((s[0] % 4) * 16 + s[1] / 16),
        s.len() == 2 ==> base64(s)[2] == base64_char((s[1] % 16) * 4) && base64(s)[3] == '=',
        s.len() >= 3 ==> base64(s)[2] == base64_char((s[1] % 16) * 4 + s[2] / 64),
        s.len() >= 3 ==> base64(s)[3] == base64_char(s[2] as int % 64),
        s.len() >= 3 ==> base64(s).skip(4) == base64(s.skip(3)),
{
    if s.len() >= 3 {
        let head = seq![
            base64_char(s[0] as int / 4),
            base64_char((s[0] % 4) * 16 + s[1] / 16),
            base64_char((s[1] % 16) * 4 + s[2] / 64),
            base64_char(s[2] as int % 64),
        ];
        assert(base64(s) == head + base64(s.skip(3)));
        assert((head + base64(s.skip(3))).skip(4) =~= base64(s.skip(3)));
    }
}

/// Base64 encoding is injective: two byte strings with the same encoding
/// are the same.
proof fn lemma_base64_injective(a: Seq<u8>, b: Seq<u8>)
    requires
        base64(a) == base64(b),
    ensures
        a == b,
    decreases a.len(),
{
    let ea = base64(a);
    let eb = base64(b);
    if a.len() == 0 || b.len() == 0 {
        assert(ea.len() == 0 || eb.len() == 0);
        assert(a.len() == 0 && b.len() == 0);
        assert(a =~= b);
    } else {
        lemma_base64_first_block(a);
        lemma_base64_first_block(b);
        lemma_base64_char_injective(a[0] as int / 4, b[0] as int / 4);
        if a.len() == 1 || b.len() == 1 {
            assert(ea[2] == '=' || eb[2] == '=');
            if a.len() != 1 {
                lemma_base64_char_not_padding((a[0] % 4) * 16 + a[1] / 16);
            }
            if b.len() != 1 {
                lemma_base64_char_not_padding((b[0] % 4) * 16 + b[1] / 16);
                assert(false);
            }
            assert(a.len() == 1);
            lemma_base64_char_injective((a[0] % 4) * 16, (b[0] % 4) * 16);
            lemma_base64_block_injective(a[0], 0, 0, b[0], 0, 0);
            assert(a =~= b);
        } else {
            lemma_base64_char_injective((a[0] % 4) * 16 + a[1] / 16, (b[0] % 4) * 16 + b[1] / 16);
            if a.len() == 2 || b.len() == 2 {
                assert(ea[3] == '=' || eb[3] == '=');
                if a.len() != 2 {
                    lemma_base64_char_not_padding(a[2] as int % 64);
                }
                if b.len() != 2 {
                    lemma_base64_char_not_padding(b[2] as int % 64);
                    assert(false);
                }
                assert(a.len() == 2);
                lemma_base64_char_injective((a[1] % 16) * 4, (b[1] % 16) * 4);
                lemma_base64_block_injective(a[0], a[1], 0, b[0], b[1], 0);
                assert(a =~= b);
            } else {
                lemma_base64_char_injective((a[1] % 16) * 4 + a[2] / 64, (b[1] % 16) * 4 + b[2] / 64);
                lemma_base64_char_injective(a[2] as int % 64, b[2] as int % 64);
                lemma_base64_block_injective(a[0], a[1], a[2], b[0], b[1], b[2]);
                lemma_base64_injective(a.skip(3), b.skip(3));
                assert(a =~= b.take(3) + b.skip(3));
                assert(b =~= b.take(3) + b.skip(3));
            }
        }
    }
}

/// The bytes whose standard Base64 encoding is `text`, or `None` when `text`
/// encodes no bytes. There is at most one such byte string
/// (`lemma_base64_injective`).
pub open spec fn base64_decoded(text: Seq<char>) -> Option<Seq<u8>> {
    if exists|b: Seq<u8>| base64(b) == text {
        Some(choose|b: Seq<u8>| base64(b) == text)
    } else {
        None
    }
}

/// A byte string is what its own encoding decodes to.
proof fn lemma_base64_decoded(b: Seq<u8>, text: Seq<char>)
    requires
        base64(b) == text,
    ensures
        base64_decoded(text) == Some(b),
{
    let c = choose|c: Seq<u8>| base64(c) == text;
    lemma_base64_injective(b, c);
}

/// Whether `ed25519_dalek` accepts `bytes` as a key pair: a secret key
/// followed by the public key that it derives.
pub uninterp spec fn ed25519_keypair_valid(bytes: Seq<u8>) -> bool;

/// The Ed25519 signature of `message` by the key pair `keypair` (secret key
/// followed by public key), as `ed25519_dalek` computes it.
pub uninterp spec fn ed25519_signature(keypair: Seq<u8>, message: Seq<u8>) -> Seq<u8>;

/// Base64 encoding with `base64ct::Base64::encode_string`: the standard
/// alphabet with padding. It panics on inputs longer than a quarter of the
/// address space, which `requires` leaves out.
#[verifier::external_body]
fn base64_encode(input: &[u8]) -> (r: String)
    requires
        input@.len() <= usize::MAX / 4,
    ensures
        r@ == base64(input@),
{
    base64ct::Base64::encode_string(input)
}

/// Base64 decoding with `base64ct::Base64::decode_vec`. It accepts exactly
/// the padded encodings of byte strings: it refuses a length that is not a
/// multiple of four, a character outside the alphabet, misplaced padding,
/// and a last block that does not encode back to itself; it then returns
/// the bytes that the text encodes.
#[verifier::external_body]
fn base64_decode(input: &str) -> (r: Result<Vec<u8>, base64ct::Error>)
    ensures
        r is Ok <==> exists|b: Seq<u8>| base64(b) == input@,
        r matches Ok(v) ==> base64(v@) == input@,
{
    base64ct::Base64::decode_vec(input)
}

/// `ed25519_dalek::SigningKey::from_keypair_bytes`: accepts the key pair
/// when the public key is the one derived from the secret key.
#[verifier::external_body]
fn signing_key_from_keypair_bytes(bytes: &[u8; 64]) -> (r: Result<ed25519_dalek::SigningKey, SignatureError>)
    ensures
        r is Ok <==> ed25519_keypair_valid(bytes@),
{
    ed25519_dalek::SigningKey::from_keypair_bytes(bytes)
}

/// `Signer::try_sign` of `ed25519_dalek::SigningKey`, which never fails:
/// the signature of `message` by the key pair, as 64 bytes. The key was
/// built from `keypair.bytes` (see `Keypair::from_bytes`).
#[verifier::external_body]
fn ed25519_sign(keypair: &Keypair, message: &[u8]) -> (r: Result<[u8; 64], SignatureError>)
    ensures
        r is Ok,
        r matches Ok(sig) ==> sig@ == ed25519_signature(keypair.bytes@, message@),
{
    keypair.key.try_sign(message).map(|s| s.to_bytes())
}

/// A key pair checked by `ed25519_dalek`, with the bytes it was built from.
pub struct Keypair {
    bytes: [u8; 64],
    key: ed25519_dalek::SigningKey,
}

impl Keypair {
    /// The bytes of a key pair are always ones that `ed25519_dalek`
    /// accepts; `key` is built from them by `from_bytes`, the only way to
    /// make a key pair.
    #[verifier::type_invariant]
    spec fn valid(self) -> bool {
        ed25519_keypair_valid(self.bytes@)
    }

    /// The secret key followed by the public key.
    pub closed spec fn view_bytes(&self) -> Seq<u8> {
        self.bytes@
    }

    /// A key pair from its 64 bytes, secret key first.
    pub fn from_bytes(bytes: [u8; 64]) -> (r: Result<Keypair, JwtError>)
        ensures
            r is Ok <==> ed25519_keypair_valid(bytes@),
            r matches Ok(k) ==> k.view_bytes() == bytes@,
            r matches Err(e) ==> e is Signature,
    {
        match signing_key_from_keypair_bytes(&bytes) {
            Ok(key) => Ok(Keypair { bytes, key }),
            Err(e) => Err(JwtError::Signature(e)),
        }
    }

    /// The Ed25519 signature of `message` by this key pair.
    pub fn sign(&self, message: &[u8]) -> (r: [u8; 64])
        ensures
            r@ == ed25519_signature(self.view_bytes(), message@),
    {
        match ed25519_sign(self, message) {
            Ok(sig) => sig,
            Err(_) => {
                assert(false);
                [0u8; 64]
            },
        }
    }
}

#[derive(Debug)]
pub enum JwtError {
    /// The given key should have 32 bytes but had another length.
    InvalidKeyLength(&'static str, usize),
    /// Couldn't decode key from base64 encoded string
    DecodeBase64(base64ct::Error),
    /// Invalid ED25519 signature
    Signature(SignatureError),
    /// Couldn't serialize header or body
    Serialization(serde_json::Error),
}

/// The key pair of the configuration: its private key, then its public key,
/// each Base64 encoded and of 32 bytes.
pub open spec fn config_keypair(cfg: Configuration) -> Option<Seq<u8>> {
    match (base64_decoded(cfg.device_info.private_key@), base64_decoded(cfg.device_info.public_key@)) {
        (Some(private), Some(public)) => if private.len() == 32 && public.len() == 32 {
            Some(private + public)
        } else {
            None
        },
        _ => None,
    }
}

/// Decodes and checks the key pair of the configuration.
///
/// The private key is decoded first, then the public key; then their
/// lengths are checked in the same order, and last the pair itself.
pub fn keypair_from_config(cfg: &Configuration) -> (r: Result<Keypair, JwtError>)
    ensures
        match (
            base64_decoded(cfg.device_info.private_key@),
            base64_decoded(cfg.device_info.public_key@),
        ) {
            (Some(private), Some(public)) => if private.len() != 32 {
                (r matches Err(JwtError::InvalidKeyLength(name, len)) && name@ == "private"@ && len
                    == private.len())
            } else if public.len() != 32 {
                (r matches Err(JwtError::InvalidKeyLength(name, len)) && name@ == "public"@ && len
                    == public.len())
            } else if !ed25519_keypair_valid(private + public) {
                (r matches Err(JwtError::Signature(_)))
            } else {
                (r matches Ok(k) && k.view_bytes() == private + public)
            },
            _ => (r matches Err(JwtError::DecodeBase64(_))),
        },
{
    let signing_key = match base64_decode(cfg.device_info.private_key.as_str()) {
        Ok(v) => v,
        Err(e) => return Err(JwtError::DecodeBase64(e)),
    };
    proof {
        lemma_base64_decoded(signing_key@, cfg.device_info.private_key@);
    }
    let verifying_key = match base64_decode(cfg.device_info.public_key.as_str()) {
        Ok(v) => v,
        Err(e) => return Err(JwtError::DecodeBase64(e)),
    };
    proof {
        lemma_base64_decoded(verifying_key@, cfg.device_info.public_key@);
    }
    if signing_key.len() != 32 {
        proof {
            reveal_strlit("private");
        }
        return Err(JwtError::InvalidKeyLength("private", signing_key.len()));
    }
    if verifying_key.len() != 32 {
        proof {
            reveal_strlit("public");
        }
        return Err(JwtError::InvalidKeyLength("public", verifying_key.len()));
    }
    let mut key_bytes = [0u8; 64];
    let mut i: usize = 0;
    while i < 64
        invariant
            signing_key@.len() == 32,
            verifying_key@.len() == 32,
            i <= 64,
            forall|j: int| 0 <= j < i ==> key_bytes@[j] == (signing_key@ + verifying_key@)[j],
        decreases 64 - i,
    {
        let b = if i < 32 {
            signing_key[i]
        } else {
            verifying_key[i - 32]
        };
        key_bytes[i] = b;
        i = i + 1;
    }
    assert(key_bytes@ =~= signing_key@ + verifying_key@);
    Keypair::from_bytes(key_bytes)
}

/// The header of the token.
#[derive(Debug, Clone)]
pub struct Header {
    pub alg: String,
    pub kty: String,
    pub crv: String,
    pub typ: String,
    pub ver: String,
    pub kid: String,
}

impl Header {
    /// The header of an EdDSA token for the key of the device `serial`.
    pub fn with_serial(serial: &str) -> (r: Header)
        ensures
            r.alg@ == "EdDSA"@,
            r.kty@ == "OKP"@,
            r.crv@ == "ed25519"@,
            r.typ@ == "JWT"@,
            r.ver@ == "0.0.1"@,
            r.kid@ == serial@,
    {
        Header {
            alg: String::from_str("EdDSA"),
            kty: String::from_str("OKP"),
            crv: String::from_str("ed25519"),
            typ: String::from_str("JWT"),
            ver: String::from_str("0.0.1"),
            kid: String::from_str(serial),
        }
    }
}

/// The body of the token.
#[derive(Debug, Clone)]
pub struct Body {
    /// When the token was issued, in seconds since the epoch, in decimal.
    pub iat: String,
    /// A unique identifier of the token.
    pub jti: String,
    pub mn_id: String,
}

/// The decimal digits of `n`.
pub open spec fn decimal(n: nat) -> Seq<char>
    decreases n,
{
    if n < 10 {
        seq![('0' as int + n) as char]
    } else {
        decimal(n / 10).push(('0' as int + n % 10) as char)
    }
}

/// `n` written in decimal, with `format!`.
#[verifier::external_body]
fn format_decimal(n: u64) -> (r: String)
    ensures
        r@ == decimal(n as nat),
{
    format!("{}", n)
}

impl Body {
    /// The body of a token issued at `iat` (seconds since the epoch), with
    /// the unique identifier `jti`, for the manufacturer `mn_id`.
    pub fn new(iat: u64, jti: String, mn_id: String) -> (r: Body)
        ensures
            r.iat@ == decimal(iat as nat),
            r.jti == jti,
            r.mn_id == mn_id,
    {
        Body { iat: format_decimal(iat), jti, mn_id }
    }
}

/// The token made of the JSON `header` and `body`, signed by `keypair`:
/// `base64(header).base64(body).base64(signature)`, where the signature is
/// that of the first two parts joined by a dot.
pub open spec fn token(header: Seq<u8>, body: Seq<u8>, keypair: Seq<u8>) -> Seq<char> {
    let signed = base64(header) + "."@ + base64(body);
    signed + "."@ + base64(ed25519_signature(keypair, vstd::utf8::encode_utf8(signed)))
}

/// Builds the token from the JSON text of its header and body.
pub fn generate_jwt(header: &[u8], body: &[u8], keypair: &Keypair) -> (r: Result<String, JwtError>)
    requires
        header@.len() <= usize::MAX / 4,
        body@.len() <= usize::MAX / 4,
    ensures
        r matches Ok(t) && t@ == token(header@, body@, keypair.view_bytes()),
{
    let h2 = base64_encode(header);
    let b2 = base64_encode(body);
    let msg = crate::text::concat(crate::text::concat(h2.as_str(), ".").as_str(), b2.as_str());
    let signature = keypair.sign(msg.as_str().as_bytes());
    let s = base64_encode(&signature);
    let t = crate::text::concat(crate::text::concat(msg.as_str(), ".").as_str(), s.as_str());
    Ok(t)
}

} // verus!
