//! Machine-bound encryption of stored secrets: AES-256-GCM under a key
//! derived from the host name, stored as base64 of nonce, ciphertext and tag.
//! What a key seals it opens again, so a secret encrypted under a key
//! decrypts under that key to the same text.

use vstd::prelude::*;
use base64::Engine;
use ring::rand::SecureRandom;
use crate::text::err_msg;
use vstd::string::StringSliceAdditionalSpecFns;
use vstd::utf8::{decode_utf8, encode_utf8, valid_utf8};

verus! {

/// The length of the nonce that starts every stored secret.
pub const NONCE_LEN: usize = 12;

/// The length of the authentication tag that ends every ciphertext.
pub const TAG_LEN: usize = 16;

/// The length of an AES-256 key.
pub const KEY_LEN: usize = 32;

/// The longest input AES-256-GCM seals: the limit `ring` checks before
/// sealing, in bytes.
pub open spec fn gcm_max_input() -> nat {
    68719476704
}

/// Whether a text begins with `prefix`.
pub open spec fn begins_with(e: Seq<char>, prefix: Seq<char>) -> bool {
    e.len() >= prefix.len() && e.take(prefix.len() as int) == prefix
}

/// Whether an error text reports a failure of the random source.
pub open spec fn rng_failure(e: Seq<char>) -> bool {
    begins_with(e, "RNG error: "@)
}

/// The text of `c` decodes, as base64, to fewer bytes than a nonce takes.
pub open spec fn too_short(c: Seq<char>) -> bool {
    exists|stored: Seq<u8>| #[trigger] base64_text(stored) == c && stored.len() < NONCE_LEN
}

/// What `ring::hmac::sign` with HMAC-SHA256 gives for a key and a message.
pub uninterp spec fn hmac_sha256_tag(key: Seq<u8>, msg: Seq<u8>) -> Seq<u8>;

/// The character of the standard base64 alphabet for a six-bit value.
pub open spec fn base64_digit(v: int) -> char {
    if v < 26 {
        ('A' as int + v) as char
    } else if v < 52 {
        ('a' as int + (v - 26)) as char
    } else if v < 62 {
        ('0' as int + (v - 52)) as char
    } else if v == 62 {
        '+'
    } else {
        '/'
    }
}

/// Standard padded base64: each group of three bytes becomes four
/// characters, and a last group of one or two bytes is padded with `=`.
pub open spec fn base64_text(b: Seq<u8>) -> Seq<char>
    decreases b.len(),
{
    let x = b[0] as int;
    let y = if b.len() > 1 { b[1] as int } else { 0 };
    let z = if b.len() > 2 { b[2] as int } else { 0 };
    if b.len() == 0 {
        Seq::empty()
    } else if b.len() == 1 {
        seq![base64_digit(x / 4), base64_digit((x % 4) * 16), '=', '=']
    } else if b.len() == 2 {
        seq![base64_digit(x / 4), base64_digit((x % 4) * 16 + y / 16), base64_digit((y % 16) * 4), '=']
    } else {
        seq![base64_digit(x / 4), base64_digit((x % 4) * 16 + y / 16), base64_digit((y % 16) * 4 + z / 64), base64_digit(z % 64)]
            + base64_text(b.skip(3))
    }
}

/// What AES-256-GCM sealing with no associated data gives for a key, a
/// nonce and a plaintext: the ciphertext followed by the tag.
pub uninterp spec fn gcm_sealed(key: Seq<u8>, nonce: Seq<u8>, plain: Seq<u8>) -> Seq<u8>;

/// `hostname::get`: the name of this machine; it depends on the machine, so
/// nothing is stated of it.
#[verifier::external_body]
fn machine_hostname() -> (r: Result<String, String>)
{
    match hostname::get() {
        Ok(h) => Ok(h.to_string_lossy().to_string()),
        Err(e) => Err(e.to_string()),
    }
}

/// `ring::hmac::sign` under an HMAC-SHA256 key: a 32-byte tag that depends on
/// the key and the message only.
#[verifier::external_body]
fn hmac_sha256(key: &[u8], msg: &[u8]) -> (r: Vec<u8>)
    ensures
        r@ == hmac_sha256_tag(key@, msg@),
        r@.len() == 32,
{
    let k = ring::hmac::Key::new(ring::hmac::HMAC_SHA256, key);
    ring::hmac::sign(&k, msg).as_ref().to_vec()
}

/// `ring::rand::SystemRandom::fill` on `len` bytes: random bytes; nothing
/// more is stated of them, nor of when the random source fails (its error
/// is reported as `RNG error: ` and the cause).
#[verifier::external_body]
pub(crate) fn random_bytes(len: usize) -> (r: Result<Vec<u8>, String>)
    ensures
        r matches Ok(v) ==> v@.len() == len,
        r matches Err(e) ==> rng_failure(e@),
{
    let mut buf = vec![0u8; len];
    match ring::rand::SystemRandom::new().fill(&mut buf) {
        Ok(()) => Ok(buf),
        Err(e) => Err(format!("RNG error: {}", e)),
    }
}

/// `LessSafeKey::seal_in_place_append_tag` under an AES-256-GCM key made
/// from `key`, with no associated data: what it gives is the sealing of the
/// data, 16 bytes longer. A 32-byte key and a 12-byte nonce are always
/// accepted, and sealing fails only for data longer than `ring`'s limit.
#[verifier::external_body]
fn aes_gcm_seal(key: &[u8], nonce: &[u8], data: Vec<u8>) -> (r: Result<Vec<u8>, String>)
    requires
        key@.len() == KEY_LEN,
        nonce@.len() == NONCE_LEN,
    ensures
        r matches Ok(v) ==> v@ == gcm_sealed(key@, nonce@, data@) && v@.len() == data@.len() + TAG_LEN,
        r is Ok <==> data@.len() <= gcm_max_input(),
{
    let unbound = ring::aead::UnboundKey::new(&ring::aead::AES_256_GCM, key).map_err(|e| format!("Key error: {}", e))?;
    let sealing = ring::aead::LessSafeKey::new(unbound);
    let n = ring::aead::Nonce::try_assume_unique_for_key(nonce).map_err(|e| format!("Encryption error: {}", e))?;
    let mut in_out = data;
    match sealing.seal_in_place_append_tag(n, ring::aead::Aad::empty(), &mut in_out) {
        Ok(()) => Ok(in_out),
        Err(e) => Err(format!("Encryption error: {}", e)),
    }
}

/// `LessSafeKey::open_in_place` under an AES-256-GCM key made from `key`,
/// with no associated data: it opens exactly the sealings made with that key
/// and nonce of plaintexts within `ring`'s length limit, giving back what
/// was sealed (16 bytes shorter), and refuses anything else; what it gives
/// back is itself within the limit. Of longer plaintexts nothing is stated.
#[verifier::external_body]
fn aes_gcm_open(key: &[u8], nonce: &[u8], data: Vec<u8>) -> (r: Result<Vec<u8>, String>)
    requires
        key@.len() == KEY_LEN,
        nonce@.len() == NONCE_LEN,
    ensures
        r matches Ok(v) ==> gcm_sealed(key@, nonce@, v@) == data@ && v@.len() + TAG_LEN == data@.len()
            && v@.len() <= gcm_max_input(),
        (exists|p: Seq<u8>| p.len() <= gcm_max_input() && #[trigger] gcm_sealed(key@, nonce@, p) == data@) ==> r is Ok,
        r matches Ok(v) ==> forall|p: Seq<u8>| p.len() <= gcm_max_input() && #[trigger] gcm_sealed(key@, nonce@, p) == data@ ==> p == v@,
        r matches Err(e) ==> begins_with(e@, "Key error: "@) || begins_with(e@, "Decryption error: "@),
{
    let unbound = ring::aead::UnboundKey::new(&ring::aead::AES_256_GCM, key).map_err(|e| format!("Key error: {}", e))?;
    let opening = ring::aead::LessSafeKey::new(unbound);
    let n = ring::aead::Nonce::try_assume_unique_for_key(nonce).map_err(|e| format!("Decryption error: {}", e))?;
    let mut in_out = data;
    match opening.open_in_place(n, ring::aead::Aad::empty(), &mut in_out) {
        Ok(plain) => Ok(plain.to_vec()),
        Err(e) => Err(format!("Decryption error: {}", e)),
    }
}

/// `base64::engine::general_purpose::STANDARD.encode`: the standard
/// alphabet with `=` padding, as `base64_text` states it.
#[verifier::external_body]
fn base64_encode(bytes: &[u8]) -> (r: String)
    ensures
        r@ == base64_text(bytes@),
{
    base64::engine::general_purpose::STANDARD.encode(bytes)
}

/// `STANDARD.decode`: the engine accepts canonical padded text only, so what
/// it decodes encodes back to the same text, and the text that some bytes
/// encode to decodes back to those bytes.
#[verifier::external_body]
fn base64_decode(text: &str) -> (r: Result<Vec<u8>, String>)
    ensures
        r matches Ok(v) ==> base64_text(v@) == text@,
        (exists|b: Seq<u8>| #[trigger] base64_text(b) == text@) ==> r is Ok,
        r matches Ok(v) ==> forall|b: Seq<u8>| #[trigger] base64_text(b) == text@ ==> b == v@,
        r matches Err(e) ==> begins_with(e@, "Base64 decode error: "@),
{
    match base64::engine::general_purpose::STANDARD.decode(text) {
        Ok(v) => Ok(v),
        Err(e) => Err(format!("Base64 decode error: {}", e)),
    }
}

/// `String::from_utf8`: succeeds exactly for valid UTF-8, with the text the
/// bytes encode.
#[verifier::external_body]
fn utf8_string(bytes: Vec<u8>) -> (r: Result<String, String>)
    ensures
        r is Ok == valid_utf8(bytes@),
        r matches Ok(s) ==> s@ == decode_utf8(bytes@),
        r matches Err(e) ==> begins_with(e@, "UTF-8 error: "@),
{
    match String::from_utf8(bytes) {
        Ok(s) => Ok(s),
        Err(e) => Err(format!("UTF-8 error: {}", e)),
    }
}

fn bytes_of(s: &str) -> (r: Vec<u8>)
    ensures
        r@ == s.spec_bytes(),
{
    let b = s.as_bytes();
    let mut out: Vec<u8> = Vec::new();
    let mut i: usize = 0;
    while i < b.len()
        invariant
            i <= b.len(),
            b@ == s.spec_bytes(),
            out@ == b@.take(i as int),
        decreases b.len() - i,
    {
        out.push(b[i]);
        assert(b@.take(i as int + 1) =~= b@.take(i as int).push(b@[i as int]));
        i += 1;
    }
    assert(b@.take(b.len() as int) =~= b@);
    out
}

/// The stored form of a secret: the nonce, then the sealed text.
pub open spec fn stored_secret(nonce: Seq<u8>, sealed: Seq<u8>) -> Seq<u8> {
    nonce + sealed
}

/// The stored text of `plain` encrypted under `key` with `nonce`.
pub open spec fn sealed_text(key: Seq<u8>, nonce: Seq<u8>, plain: Seq<char>) -> Seq<char> {
    base64_text(stored_secret(nonce, gcm_sealed(key, nonce, encode_utf8(plain))))
}

/// A text short enough for AES-GCM to seal its UTF-8 bytes.
pub open spec fn sealable(plain: Seq<char>) -> bool {
    encode_utf8(plain).len() <= gcm_max_input()
}

/// How decrypting `c` under `key` ends: what `key` sealed into `c` comes
/// back as it was sealed, and whatever comes back was sealed into `c` under
/// `key`.
pub open spec fn opened_by(key: Seq<u8>, c: Seq<char>, r: Result<String, String>) -> bool {
    &&& forall|nonce: Seq<u8>, plain: Seq<char>| nonce.len() == NONCE_LEN && sealable(plain)
        && #[trigger] sealed_text(key, nonce, plain) == c ==> (r matches Ok(s) && s@ == plain)
    &&& r matches Ok(p) ==> sealable(p@) && exists|nonce: Seq<u8>| nonce.len() == NONCE_LEN && #[trigger] sealed_text(key, nonce, p@) == c
}

/// The host name a key is made from: the one read, or a fixed default when
/// it could not be read.
pub open spec fn host_or_default(host: Result<String, String>) -> Seq<char> {
    match host {
        Ok(h) => h@,
        Err(_) => "nexus-lite-default"@,
    }
}

/// The key of a machine: HMAC-SHA256 of the label
/// `nexus-lite-encryption-key` under the salt `NEXUS-LITE-2026-` followed
/// by its host name.
pub open spec fn machine_key_spec(host: Result<String, String>) -> Seq<u8> {
    hmac_sha256_tag(encode_utf8("NEXUS-LITE-2026-"@ + host_or_default(host)), encode_utf8("nexus-lite-encryption-key"@))
}

/// `c` is the stored text of `plain` under the key of some host name and
/// some nonce.
pub open spec fn seals(c: Seq<char>, plain: Seq<char>) -> bool {
    sealable(plain) && exists|host: Result<String, String>, nonce: Seq<u8>|
        nonce.len() == NONCE_LEN && #[trigger] sealed_text(machine_key_spec(host), nonce, plain) == c
}

/// `r` is what encrypting `plain` under `key` gave: on success, `plain`
/// sealed under `key` with some nonce.
pub open spec fn encrypted_under(key: Seq<u8>, plain: Seq<char>, r: Result<String, String>) -> bool {
    r matches Ok(c) ==> sealable(plain) && exists|nonce: Seq<u8>| nonce.len() == NONCE_LEN && #[trigger] sealed_text(key, nonce, plain) == c@
}

/// On one machine, decrypting what was encrypted gives the text back: a
/// text short enough to seal, sealed under the key of a host name, opens
/// under the key of that same host name to exactly that text.
pub proof fn lemma_machine_round_trip(host: Result<String, String>, nonce: Seq<u8>, plain: Seq<char>, r: Result<String, String>)
    requires
        nonce.len() == NONCE_LEN,
        sealable(plain),
        opened_by(machine_key_spec(host), sealed_text(machine_key_spec(host), nonce, plain), r),
    ensures
        r matches Ok(s) && s@ == plain,
{
}

/// The key of a machine, from its host name as read (or the failure to
/// read it).
pub fn machine_key(host: Result<String, String>) -> (r: Vec<u8>)
    ensures
        r@ == machine_key_spec(host),
        r@.len() == KEY_LEN,
{
    let ghost h = host;
    let name = match host {
        Ok(h) => h,
        Err(_) => String::from_str("nexus-lite-default"),
    };
    let mut salt = String::from_str("NEXUS-LITE-2026-");
    salt.append(name.as_str());
    let salt_bytes = bytes_of(salt.as_str());
    let label = bytes_of("nexus-lite-encryption-key");
    assert(salt@ == "NEXUS-LITE-2026-"@ + host_or_default(h));
    hmac_sha256(salt_bytes.as_slice(), label.as_slice())
}

/// Encryption of stored secrets.
pub struct Encryption;

impl Encryption {
    /// Encrypts a secret under `key` with `nonce`: base64 of the nonce
    /// followed by the AES-256-GCM ciphertext and tag.
    pub fn encrypt_with(key: &[u8], nonce: &[u8], plaintext: &str) -> (r: Result<String, String>)
        requires
            key@.len() == KEY_LEN,
            nonce@.len() == NONCE_LEN,
        ensures
            r matches Ok(c) ==> c@ == sealed_text(key@, nonce@, plaintext@),
            r is Ok <==> sealable(plaintext@),
    {
        let data = bytes_of(plaintext);
        let sealed = aes_gcm_seal(key, nonce, data)?;
        let mut output: Vec<u8> = Vec::new();
        let mut i: usize = 0;
        while i < nonce.len()
            invariant
                i <= nonce@.len(),
                output@ == nonce@.take(i as int),
            decreases nonce.len() - i,
        {
            output.push(nonce[i]);
            assert(nonce@.take(i as int + 1) =~= nonce@.take(i as int).push(nonce@[i as int]));
            i += 1;
        }
        let mut k: usize = 0;
        while k < sealed.len()
            invariant
                k <= sealed.len(),
                output@ == nonce@ + sealed@.take(k as int),
            decreases sealed.len() - k,
        {
            output.push(sealed[k]);
            assert(nonce@ + sealed@.take(k as int + 1) =~= (nonce@ + sealed@.take(k as int)).push(sealed@[k as int]));
            k += 1;
        }
        assert(nonce@.take(nonce@.len() as int) =~= nonce@);
        assert(sealed@.take(sealed.len() as int) =~= sealed@);
        let text = base64_encode(output.as_slice());
        Ok(text)
    }

    /// Decrypts a stored secret under `key`. Text that is not canonical
    /// base64 is refused, and so is a secret of fewer than twelve bytes;
    /// what is decrypted is the UTF-8 text of the opened plaintext. What was
    /// encrypted under `key` decrypts to the text that was encrypted.
    pub fn decrypt_with(key: &[u8], ciphertext: &str) -> (r: Result<String, String>)
        requires
            key@.len() == KEY_LEN,
        ensures
            r matches Ok(plain) ==> exists|stored: Seq<u8>| #[trigger] base64_text(stored) == ciphertext@
                && stored.len() >= NONCE_LEN + TAG_LEN,
            err_msg(r, "Ciphertext too short"@) <==> too_short(ciphertext@),
            opened_by(key@, ciphertext@, r),
    {
        proof {
            reveal_strlit("Ciphertext too short");
            reveal_strlit("Base64 decode error: ");
            reveal_strlit("Key error: ");
            reveal_strlit("Decryption error: ");
            reveal_strlit("UTF-8 error: ");
        }
        let decoded = match base64_decode(ciphertext) {
            Ok(v) => v,
            Err(e) => {
                proof {
                    assert(e@.take(21)[0] == e@[0]);
                    assert(e@[0] == 'B');
                    assert("Ciphertext too short"@[0] == 'C');
                }
                return Err(e);
            },
        };
        if decoded.len() < NONCE_LEN {
            return Err(String::from_str("Ciphertext too short"));
        }
        assert(!too_short(ciphertext@));
        let mut nonce: Vec<u8> = Vec::new();
        let mut body: Vec<u8> = Vec::new();
        let mut i: usize = 0;
        while i < decoded.len()
            invariant
                i <= decoded.len(),
                NONCE_LEN <= decoded.len(),
                i <= NONCE_LEN ==> nonce@ == decoded@.take(i as int) && body@.len() == 0,
                i > NONCE_LEN ==> nonce@ == decoded@.take(NONCE_LEN as int) && body@ == decoded@.subrange(NONCE_LEN as int, i as int),
            decreases decoded.len() - i,
        {
            if i < NONCE_LEN {
                nonce.push(decoded[i]);
                assert(decoded@.take(i as int + 1) =~= decoded@.take(i as int).push(decoded@[i as int]));
            } else {
                body.push(decoded[i]);
                assert(decoded@.subrange(NONCE_LEN as int, i as int + 1) =~= body@);
            }
            i += 1;
        }
        assert(nonce@.len() == NONCE_LEN);
        proof {
            if decoded@.len() == NONCE_LEN {
                assert(body@ =~= decoded@.skip(NONCE_LEN as int));
            } else {
                assert(body@ =~= decoded@.skip(NONCE_LEN as int));
            }
            assert forall|n: Seq<u8>, plain: Seq<char>| n.len() == NONCE_LEN && #[trigger] sealed_text(key@, n, plain) == ciphertext@
                implies nonce@ == n && body@ == gcm_sealed(key@, n, encode_utf8(plain)) by {
                let stored = stored_secret(n, gcm_sealed(key@, n, encode_utf8(plain)));
                assert(base64_text(stored) == ciphertext@);
                assert(stored == decoded@);
                assert(decoded@.take(NONCE_LEN as int) =~= n);
                assert(decoded@.skip(NONCE_LEN as int) =~= gcm_sealed(key@, n, encode_utf8(plain)));
            }
        }
        let opened = match aes_gcm_open(key, nonce.as_slice(), body) {
            Ok(v) => v,
            Err(e) => {
                proof {
                    assert(e@.take(11)[0] == e@[0]);
                    assert(e@.len() >= 18 ==> e@.take(18)[0] == e@[0]);
                    assert(e@[0] == 'K' || e@[0] == 'D');
                }
                return Err(e);
            },
        };
        proof {
            broadcast use vstd::utf8::encode_utf8_valid_utf8, vstd::utf8::encode_utf8_decode_utf8;
            assert forall|n: Seq<u8>, plain: Seq<char>| n.len() == NONCE_LEN && sealable(plain) && #[trigger] sealed_text(key@, n, plain) == ciphertext@
                implies opened@ == encode_utf8(plain) && valid_utf8(opened@) && decode_utf8(opened@) == plain by {
                assert(gcm_sealed(key@, nonce@, encode_utf8(plain)) == body@);
            }
        }
        let r = utf8_string(opened);
        proof {
            if r is Err {
                assert(r->Err_0@.take(13)[0] == r->Err_0@[0]);
                assert(r->Err_0@[0] == 'U');
            }
            broadcast use vstd::utf8::decode_utf8_encode_utf8;
            if r is Ok {
                let p = r->Ok_0;
                assert(encode_utf8(p@) == opened@);
                assert(decoded@ =~= nonce@ + body@);
                assert(sealed_text(key@, nonce@, p@) == ciphertext@);
            }
        }
        r
    }

    /// Encrypts a secret under this machine's key (made from the host name
    /// read now) with a fresh random nonce. Which host name is read and
    /// which nonce is drawn depend on the machine and on chance, so the
    /// result is stated for some host name; it fails only when the random
    /// source does, or for a secret longer than AES-GCM seals.
    pub fn encrypt(plaintext: &str) -> (r: Result<String, String>)
        ensures
            exists|host: Result<String, String>| #[trigger] encrypted_under(machine_key_spec(host), plaintext@, r),
            r matches Ok(c) ==> seals(c@, plaintext@),
            encode_utf8(plaintext@).len() <= gcm_max_input() ==> (r matches Err(e) ==> rng_failure(e@)),
    {
        let host = machine_hostname();
        let ghost h = host;
        let key = machine_key(host);
        let nonce = match random_bytes(NONCE_LEN) {
            Ok(n) => n,
            Err(e) => {
                let r: Result<String, String> = Err(e);
                assert(encrypted_under(machine_key_spec(h), plaintext@, r));
                return r;
            },
        };
        let r = Self::encrypt_with(key.as_slice(), nonce.as_slice(), plaintext);
        assert(encrypted_under(machine_key_spec(h), plaintext@, r));
        r
    }

    /// Decrypts a stored secret under this machine's key (made from the host
    /// name read now; which name that is depends on the machine, so the
    /// result is stated for some host name). Text that decodes to fewer
    /// bytes than a nonce is refused as too short, and nothing else is.
    pub fn decrypt(ciphertext: &str) -> (r: Result<String, String>)
        ensures
            r matches Ok(plain) ==> exists|stored: Seq<u8>| #[trigger] base64_text(stored) == ciphertext@
                && stored.len() >= NONCE_LEN + TAG_LEN,
            err_msg(r, "Ciphertext too short"@) <==> too_short(ciphertext@),
            exists|host: Result<String, String>| #[trigger] opened_by(machine_key_spec(host), ciphertext@, r),
    {
        let host = machine_hostname();
        let ghost h = host;
        let key = machine_key(host);
        let r = Self::decrypt_with(key.as_slice(), ciphertext);
        assert(opened_by(machine_key_spec(h), ciphertext@, r));
        r
    }
}

} // verus!
