//! Last.fm integration: signed API requests, the stored (encrypted) session
//! key, and the account status shown to a user.
use aes_gcm::aead::{Aead, KeyInit};
use base64::Engine;
use vstd::prelude::*;
use vstd::utf8::{decode_utf8, encode_utf8, valid_utf8};

use crate::text::{
    chars_of, dec, lemma_chars_within_bytes, push_all, push_decimal, push_str, str_eq, string_of,
};

verus! {

// ─── Ordered request parameters ────────────────────────────────────────

/// `a` sorts before `b`: character by character by code point, a proper
/// prefix first (the order of `str`, since UTF-8 keeps code point order).
pub open spec fn key_lt(a: Seq<char>, b: Seq<char>) -> bool
    decreases a.len(),
{
    if a.len() == 0 {
        b.len() > 0
    } else if b.len() == 0 {
        false
    } else if (a[0] as u32) < (b[0] as u32) {
        true
    } else if a[0] == b[0] {
        key_lt(a.drop_first(), b.drop_first())
    } else {
        false
    }
}

proof fn lemma_key_lt_irreflexive(a: Seq<char>)
    ensures
        !key_lt(a, a),
    decreases a.len(),
{
    if a.len() > 0 {
        lemma_key_lt_irreflexive(a.drop_first());
    }
}

proof fn lemma_key_lt_total(a: Seq<char>, b: Seq<char>)
    ensures
        key_lt(a, b) || a == b || key_lt(b, a),
    decreases a.len(),
{
    if a.len() > 0 && b.len() > 0 && a[0] == b[0] {
        lemma_key_lt_total(a.drop_first(), b.drop_first());
        if a.drop_first() == b.drop_first() {
            assert(a =~= b) by {
                assert forall|k: int| 0 <= k < a.len() implies a[k] == b[k] by {
                    if k > 0 {
                        assert(a[k] == a.drop_first()[k - 1]);
                        assert(b[k] == b.drop_first()[k - 1]);
                    }
                }
            }
        }
    } else if a.len() == 0 && b.len() == 0 {
        assert(a =~= b);
    } else if a.len() > 0 && b.len() > 0 {
        vstd::utf8::char_u32_cast(a[0], a[0] as u32);
        vstd::utf8::char_u32_cast(b[0], b[0] as u32);
        assert((a[0] as u32) != (b[0] as u32));
    }
}

proof fn lemma_key_lt_asymmetric(a: Seq<char>, b: Seq<char>)
    requires
        key_lt(a, b),
    ensures
        !key_lt(b, a),
    decreases a.len(),
{
    if a.len() > 0 && b.len() > 0 && a[0] == b[0] {
        lemma_key_lt_asymmetric(a.drop_first(), b.drop_first());
    }
}

proof fn lemma_key_lt_transitive(a: Seq<char>, b: Seq<char>, c: Seq<char>)
    requires
        key_lt(a, b),
        key_lt(b, c),
    ensures
        key_lt(a, c),
    decreases a.len(),
{
    if a.len() > 0 && b.len() > 0 && c.len() > 0 && a[0] == b[0] && b[0] == c[0] {
        lemma_key_lt_transitive(a.drop_first(), b.drop_first(), c.drop_first());
    }
}

fn compare_keys(a: &str, b: &str) -> (r: (bool, bool))
    ensures
        r.0 == key_lt(a@, b@),
        r.1 == (a@ == b@),
{
    let x = chars_of(a);
    let y = chars_of(b);
    let mut i: usize = 0;
    proof {
        assert(a@.skip(0) =~= a@);
        assert(b@.skip(0) =~= b@);
    }
    while i < x.len() && i < y.len() && x[i] == y[i]
        invariant
            x@ == a@,
            y@ == b@,
            i <= x@.len(),
            i <= y@.len(),
            forall|j: int| 0 <= j < i ==> x@[j] == y@[j],
            key_lt(a@, b@) == key_lt(a@.skip(i as int), b@.skip(i as int)),
        decreases x.len() - i,
    {
        proof {
            assert(a@.skip(i as int).drop_first() =~= a@.skip(i + 1));
            assert(b@.skip(i as int).drop_first() =~= b@.skip(i + 1));
        }
        i = i + 1;
    }
    let lt = if i == x.len() {
        i < y.len()
    } else if i == y.len() {
        false
    } else {
        (x[i] as u32) < (y[i] as u32)
    };
    let eq = i == x.len() && i == y.len();
    proof {
        if eq {
            assert(a@ =~= b@);
        } else if i < x@.len() && i < y@.len() {
            assert(a@ != b@) by {
                assert(a@[i as int] != b@[i as int]);
            }
        } else {
            assert(a@.len() != b@.len());
        }
    }
    (lt, eq)
}

/// Keys strictly increasing.
pub open spec fn sorted_keys(p: Seq<(Seq<char>, Seq<char>)>) -> bool {
    forall|i: int, j: int| 0 <= i < j < p.len() ==> key_lt(#[trigger] p[i].0, #[trigger] p[j].0)
}

/// The parameters of a Last.fm API call, kept sorted by key (a key occurs
/// once; inserting it again replaces its value).
pub struct ApiParams {
    entries: Vec<(String, String)>,
}

pub open spec fn pair_view(e: (String, String)) -> (Seq<char>, Seq<char>) {
    (e.0@, e.1@)
}

impl ApiParams {
    /// The parameters in key order.
    pub closed spec fn pairs(&self) -> Seq<(Seq<char>, Seq<char>)> {
        self.entries@.map_values(|e: (String, String)| pair_view(e))
    }

    /// No parameters.
    pub fn new() -> (p: Self)
        ensures
            p.pairs().len() == 0,
    {
        let p = ApiParams { entries: Vec::new() };
        proof {
            assert(p.pairs() =~= Seq::<(Seq<char>, Seq<char>)>::empty());
        }
        p
    }

    /// Sets `key` to `value`, keeping the keys sorted: an existing key gets
    /// the new value in place; a new key goes where its order puts it.
    pub fn insert(&mut self, key: &str, value: &str)
        requires
            sorted_keys(old(self).pairs()),
        ensures
            sorted_keys(final(self).pairs()),
            (exists|i: int| 0 <= i < old(self).pairs().len() && old(self).pairs()[i].0 == key@)
                ==> exists|i: int|
                0 <= i < old(self).pairs().len() && old(self).pairs()[i].0 == key@
                    && final(self).pairs() == old(self).pairs().update(i, (key@, value@)),
            (forall|i: int| 0 <= i < old(self).pairs().len() ==> old(self).pairs()[i].0 != key@)
                ==> exists|i: int|
                0 <= i <= old(self).pairs().len()
                    && final(self).pairs() == old(self).pairs().insert(i, (key@, value@)),
    {
        let ghost before = self.pairs();
        let mut i: usize = 0;
        let mut found: bool = false;
        while i < self.entries.len()
            invariant_except_break
                !found,
            invariant
                i <= self.entries@.len(),
                before == self.entries@.map_values(|e: (String, String)| pair_view(e)),
                sorted_keys(before),
                forall|j: int| 0 <= j < i ==> key_lt(#[trigger] before[j].0, key@),
            ensures
                i <= self.entries@.len(),
                forall|j: int| 0 <= j < i ==> key_lt(#[trigger] before[j].0, key@),
                found ==> i < self.entries@.len() && before[i as int].0 == key@,
                !found && i < self.entries@.len() ==> key_lt(key@, before[i as int].0),
            decreases self.entries.len() - i,
        {
            let (lt, eq) = compare_keys(self.entries[i].0.as_str(), key);
            proof {
                assert(before[i as int] == pair_view(self.entries@[i as int]));
            }
            if eq {
                found = true;
                break;
            }
            if !lt {
                proof {
                    lemma_key_lt_total(before[i as int].0, key@);
                }
                break;
            }
            i = i + 1;
        }
        let k = string_of(&chars_of(key));
        let v = string_of(&chars_of(value));
        if found {
            let ghost e2 = (k, v);
            self.entries.set(i, (k, v));
            proof {
                assert(self.pairs() =~= before.update(i as int, (key@, value@)));
                assert forall|a: int, b: int| 0 <= a < b < self.pairs().len() implies key_lt(
                    #[trigger] self.pairs()[a].0,
                    #[trigger] self.pairs()[b].0,
                ) by {
                    assert(before[a].0 == self.pairs()[a].0);
                    assert(before[b].0 == self.pairs()[b].0);
                }
            }
        } else {
            self.entries.insert(i, (k, v));
            proof {
                let after = self.pairs();
                assert(after =~= before.insert(i as int, (key@, value@)));
                assert forall|j: int| 0 <= j < before.len() implies before[j].0 != key@ by {
                    if j < i {
                        lemma_key_lt_irreflexive(key@);
                    } else {
                        if j > i {
                            lemma_key_lt_transitive(key@, before[i as int].0, before[j].0);
                        }
                        lemma_key_lt_irreflexive(key@);
                    }
                }
                assert forall|a: int, b: int| 0 <= a < b < after.len() implies key_lt(
                    #[trigger] after[a].0,
                    #[trigger] after[b].0,
                ) by {
                    if b < i {
                    } else if b == i {
                    } else if a < i {
                        if b - 1 > i {
                            lemma_key_lt_transitive(key@, before[i as int].0, before[b - 1].0);
                        }
                        lemma_key_lt_transitive(before[a].0, key@, before[b - 1].0);
                    } else if a == i {
                        if b - 1 > i {
                            lemma_key_lt_transitive(key@, before[i as int].0, before[b - 1].0);
                        }
                    } else {
                    }
                }
            }
        }
    }
}


/// The text an API signature is computed over: each key followed by its
/// value, in key order, then the shared secret.
pub open spec fn signature_input(p: Seq<(Seq<char>, Seq<char>)>, secret: Seq<char>) -> Seq<char>
    decreases p.len(),
{
    if p.len() == 0 {
        secret
    } else {
        p[0].0 + p[0].1 + signature_input(p.drop_first(), secret)
    }
}

/// What `md5::compute` gives for some bytes (16 bytes).
pub uninterp spec fn md5_of(data: Seq<u8>) -> Seq<u8>;

/// The MD5 digest of some bytes.
///
/// Trusted: calls `md5::compute`; claims the digest is the named one.
#[verifier::external_body]
fn md5_digest(data: &[u8]) -> (r: [u8; 16])
    ensures
        r@ == md5_of(data@),
{
    md5::compute(data).0
}

/// The lowercase hexadecimal digit for `d < 16`.
pub open spec fn hex_char(d: u8) -> char {
    if d < 10 {
        ((48 + d) as u8) as char
    } else {
        ((87 + d) as u8) as char
    }
}

/// Bytes as lowercase hexadecimal, two digits per byte.
pub open spec fn hex_of(b: Seq<u8>) -> Seq<char>
    decreases b.len(),
{
    if b.len() == 0 {
        seq![]
    } else {
        hex_of(b.drop_last()).push(hex_char(b.last() / 16)).push(hex_char(b.last() % 16))
    }
}

fn hex_digit_char(d: u8) -> (c: char)
    requires
        d < 16,
    ensures
        c == hex_char(d),
{
    if d < 10 {
        (48u8 + d) as char
    } else {
        (87u8 + d) as char
    }
}

/// The signature of an API call: the MD5 digest, in lowercase hex, of its
/// parameters in key order followed by the secret.
pub open spec fn api_sig_of(p: Seq<(Seq<char>, Seq<char>)>, secret: Seq<char>) -> Seq<char> {
    hex_of(md5_of(encode_utf8(signature_input(p, secret))))
}

impl ApiParams {
    /// The parameters in key order, as the form of a call sends them.
    pub fn to_vec(&self) -> (v: Vec<(String, String)>)
        ensures
            v@.len() == self.pairs().len(),
            forall|i: int| 0 <= i < v@.len() ==> pair_view(#[trigger] v@[i]) == self.pairs()[i],
    {
        let mut v: Vec<(String, String)> = Vec::new();
        let mut i: usize = 0;
        while i < self.entries.len()
            invariant
                i <= self.entries@.len(),
                v@.len() == i,
                forall|j: int| 0 <= j < i ==> pair_view(#[trigger] v@[j]) == pair_view(self.entries@[j]),
            decreases self.entries.len() - i,
        {
            let k = self.entries[i].0.clone();
            let x = self.entries[i].1.clone();
            v.push((k, x));
            i = i + 1;
        }
        v
    }

    /// Signs the parameters with the API secret (`api_sig`).
    pub fn api_sig(&self, secret: &str) -> (sig: String)
        ensures
            sig@ == api_sig_of(self.pairs(), secret@),
    {
        let n = self.entries.len();
        let mut input: Vec<char> = Vec::new();
        let mut i: usize = n;
        let ghost p = self.pairs();
        let mut tail: Vec<char> = chars_of(secret);
        proof {
            assert(p.skip(n as int) =~= Seq::<(Seq<char>, Seq<char>)>::empty());
        }
        while i > 0
            invariant
                i <= n,
                n == self.entries@.len(),
                p == self.pairs(),
                tail@ == signature_input(p.skip(i as int), secret@),
            decreases i,
        {
            let mut next: Vec<char> = Vec::new();
            push_str(&mut next, self.entries[i - 1].0.as_str());
            push_str(&mut next, self.entries[i - 1].1.as_str());
            push_all(&mut next, &tail);
            proof {
                assert(p.skip(i - 1).drop_first() =~= p.skip(i as int));
                assert(p.skip(i - 1)[0] == p[i - 1]);
                assert(p[i - 1] == pair_view(self.entries@[i - 1]));
            }
            tail = next;
            i = i - 1;
        }
        proof {
            assert(p.skip(0) =~= p);
        }
        input = tail;
        let text = string_of(&input);
        let digest = md5_digest(text.as_str().as_bytes());
        let mut out: Vec<char> = Vec::new();
        let mut k: usize = 0;
        while k < 16
            invariant
                k <= 16,
                digest@.len() == 16,
                out@ == hex_of(digest@.take(k as int)),
            decreases 16 - k,
        {
            let b = digest[k];
            out.push(hex_digit_char(b / 16));
            out.push(hex_digit_char(b % 16));
            proof {
                assert(digest@.take(k + 1).drop_last() =~= digest@.take(k as int));
                assert(digest@.take(k + 1).last() == b);
            }
            k = k + 1;
        }
        proof {
            assert(digest@.take(16) =~= digest@);
        }
        string_of(&out)
    }
}


// ─── Stored session keys ───────────────────────────────────────────────

/// What HKDF-SHA256 derives (32 bytes) from a salt, input key material and
/// info.
pub uninterp spec fn hkdf_sha256_okm(salt: Seq<u8>, ikm: Seq<u8>, info: Seq<u8>) -> Seq<u8>;

/// What AES-256-GCM encryption gives for a key, nonce and plaintext (no
/// associated data).
pub uninterp spec fn aes_gcm_sealed(key: Seq<u8>, nonce: Seq<u8>, plaintext: Seq<u8>) -> Seq<u8>;

/// What AES-256-GCM decryption gives for a key, nonce and ciphertext
/// (`None` when it fails).
pub uninterp spec fn aes_gcm_opened(key: Seq<u8>, nonce: Seq<u8>, ciphertext: Seq<u8>) -> Option<Seq<u8>>;

/// The character of the standard base64 alphabet for a 6-bit value.
pub open spec fn base64_char(v: int) -> char {
    if v < 26 {
        (65 + v) as char
    } else if v < 52 {
        (97 + v - 26) as char
    } else if v < 62 {
        (48 + v - 52) as char
    } else if v == 62 {
        '+'
    } else {
        '/'
    }
}

/// Standard base64 (RFC 4648, with `=` padding) of some bytes: each group
/// of three bytes becomes four characters of six bits each; a last group of
/// one or two bytes is padded with zero bits and `=`.
pub open spec fn base64_text(data: Seq<u8>) -> Seq<char>
    decreases data.len(),
{
    let x = if data.len() > 0 { data[0] as int } else { 0 };
    let y = if data.len() > 1 { data[1] as int } else { 0 };
    let z = if data.len() > 2 { data[2] as int } else { 0 };
    if data.len() == 0 {
        seq![]
    } else if data.len() == 1 {
        seq![base64_char(x / 4), base64_char((x % 4) * 16), '=', '=']
    } else if data.len() == 2 {
        seq![base64_char(x / 4), base64_char((x % 4) * 16 + y / 16), base64_char((y % 16) * 4), '=']
    } else {
        seq![
            base64_char(x / 4),
            base64_char((x % 4) * 16 + y / 16),
            base64_char((y % 16) * 4 + z / 64),
            base64_char(z % 64),
        ] + base64_text(data.skip(3))
    }
}

/// The bytes standard base64 text decodes to (`None` when it is not valid).
pub uninterp spec fn base64_bytes(text: Seq<char>) -> Option<Seq<u8>>;

/// Derives 32 bytes with HKDF-SHA256.
///
/// Trusted: calls `hkdf::Hkdf::<Sha256>::new` and `Hkdf::expand`; claims the
/// bytes are the named ones and that expanding to 32 bytes succeeds (the
/// crate refuses only lengths above 255 × 32).
#[verifier::external_body]
fn hkdf_sha256(salt: &[u8], ikm: &[u8], info: &[u8]) -> (r: Result<[u8; 32], String>)
    ensures
        r is Ok,
        r matches Ok(k) ==> k@ == hkdf_sha256_okm(salt@, ikm@, info@),
{
    let hk = hkdf::Hkdf::<sha2::Sha256>::new(Some(salt), ikm);
    let mut okm = [0u8; 32];
    match hk.expand(info, &mut okm) {
        Ok(()) => Ok(okm),
        Err(e) => Err(e.to_string()),
    }
}

/// Encrypts with AES-256-GCM.
///
/// Trusted: calls `Aes256Gcm::new` and `Aead::encrypt`; claims the
/// ciphertext is the named one, that it is the plaintext's length plus the
/// 16-byte tag (`encrypt_in_place` appends the tag to the data encrypted in
/// place), that decrypting it with the same key and nonce gives the
/// plaintext back (what an AEAD is), and that plaintexts of at most 2^36
/// bytes are accepted (the crate's `P_MAX`).  The text of the error is
/// `aead::Error`'s.
#[verifier::external_body]
fn aes256gcm_seal(key: &[u8; 32], nonce: &[u8; 12], plaintext: &[u8]) -> (r: Result<Vec<u8>, String>)
    ensures
        plaintext@.len() <= 0x10_0000_0000 ==> r is Ok,
        r matches Ok(c) ==> c@ == aes_gcm_sealed(key@, nonce@, plaintext@) && c@.len()
            == plaintext@.len() + 16 && aes_gcm_opened(key@, nonce@, c@) == Some(plaintext@),
{
    let cipher = aes_gcm::Aes256Gcm::new(key.into());
    cipher.encrypt(aes_gcm::Nonce::from_slice(nonce), plaintext).map_err(|e| e.to_string())
}

/// Decrypts with AES-256-GCM.
///
/// Trusted: calls `Aes256Gcm::new` and `Aead::decrypt`; claims the outcome
/// is the named one.  The text of the error is `aead::Error`'s.
#[verifier::external_body]
fn aes256gcm_open(key: &[u8; 32], nonce: &[u8], ciphertext: &[u8]) -> (r: Result<Vec<u8>, String>)
    requires
        nonce@.len() == 12,
    ensures
        match aes_gcm_opened(key@, nonce@, ciphertext@) {
            Some(p) => r matches Ok(v) && v@ == p,
            None => r is Err,
        },
{
    let cipher = aes_gcm::Aes256Gcm::new(key.into());
    cipher.decrypt(aes_gcm::Nonce::from_slice(nonce), ciphertext).map_err(|e| e.to_string())
}

/// Twelve random bytes for a nonce.
///
/// Trusted: calls `rand::random`; nothing is claimed of the bytes.
#[verifier::external_body]
fn random_nonce() -> (n: [u8; 12]) {
    rand::random()
}

/// Length of padded base64 text for `n` bytes: four characters for each
/// started group of three bytes.
pub open spec fn padded_base64_len(n: nat) -> nat {
    (n + 2) / 3 * 4
}

/// Encodes bytes as standard base64.
///
/// Trusted: calls `base64::engine::general_purpose::STANDARD.encode`, which
/// panics when the encoded length does not fit in `usize` (left out by
/// `requires`); claims the text is the standard padded base64 of the bytes
/// (`base64_text`), that it has the padded length `encoded_len` computes,
/// and that decoding it gives the bytes back.
#[verifier::external_body]
fn base64_encode(data: &[u8]) -> (r: String)
    requires
        padded_base64_len(data@.len()) <= usize::MAX,
    ensures
        r@ == base64_text(data@),
        r@.len() == padded_base64_len(data@.len()),
        base64_bytes(r@) == Some(data@),
{
    base64::engine::general_purpose::STANDARD.encode(data)
}

/// Decodes standard base64.
///
/// Trusted: calls `base64::engine::general_purpose::STANDARD.decode`;
/// claims the outcome is the named one.  The text of the error is
/// `base64::DecodeError`'s.
#[verifier::external_body]
fn base64_decode(text: &str) -> (r: Result<Vec<u8>, String>)
    ensures
        match base64_bytes(text@) {
            Some(b) => r matches Ok(v) && v@ == b,
            None => r is Err,
        },
{
    base64::engine::general_purpose::STANDARD.decode(text).map_err(|e| e.to_string())
}

/// Reads bytes as UTF-8 text.
///
/// Trusted: calls `String::from_utf8`, which succeeds exactly on valid
/// UTF-8 and then holds the characters those bytes encode.  The text of the
/// error is `FromUtf8Error`'s.
#[verifier::external_body]
fn utf8_text(bytes: Vec<u8>) -> (r: Result<String, String>)
    ensures
        r is Ok <==> valid_utf8(bytes@),
        r matches Ok(s) ==> s@ == decode_utf8(bytes@),
{
    String::from_utf8(bytes).map_err(|e| e.to_string())
}

/// HKDF salt separating this use of the JWT secret from others (not a
/// secret).
pub open spec fn session_salt() -> Seq<u8> {
    encode_utf8("soundtime-lastfm"@)
}

/// HKDF info of the session-key encryption key.
pub open spec fn session_info() -> Seq<u8> {
    encode_utf8("lastfm-session-key"@)
}

/// The key session keys are encrypted with, derived from the JWT secret.
pub open spec fn session_cipher_key(jwt_secret: Seq<char>) -> Seq<u8> {
    hkdf_sha256_okm(session_salt(), encode_utf8(jwt_secret), session_info())
}

/// The stored form of a session key encrypted under `nonce`: base64 of the
/// nonce followed by the AES-256-GCM ciphertext of its UTF-8 bytes.
pub open spec fn sealed_session_key(key: Seq<char>, jwt_secret: Seq<char>, nonce: Seq<u8>) -> Seq<char> {
    base64_text(nonce + aes_gcm_sealed(session_cipher_key(jwt_secret), nonce, encode_utf8(key)))
}

/// The session key a stored text holds, if it decodes, is long enough,
/// authenticates under the key derived from the secret, and is UTF-8.
pub open spec fn opened_session_key(text: Seq<char>, jwt_secret: Seq<char>) -> Option<Seq<char>> {
    match base64_bytes(text) {
        None => None,
        Some(c) => if c.len() < 12 {
            None
        } else {
            match aes_gcm_opened(session_cipher_key(jwt_secret), c.take(12), c.skip(12)) {
                None => None,
                Some(p) => if valid_utf8(p) {
                    Some(decode_utf8(p))
                } else {
                    None
                },
            }
        },
    }
}

fn derive_session_cipher_key(jwt_secret: &str) -> (r: Result<[u8; 32], String>)
    ensures
        r matches Ok(k) && k@ == session_cipher_key(jwt_secret@),
{
    let salt = "soundtime-lastfm".as_bytes();
    let info = "lastfm-session-key".as_bytes();
    match hkdf_sha256(salt, jwt_secret.as_bytes(), info) {
        Ok(k) => Ok(k),
        Err(e) => {
            let mut m: Vec<char> = Vec::new();
            push_str(&mut m, "HKDF expand failed: ");
            push_str(&mut m, e.as_str());
            Err(string_of(&m))
        },
    }
}

/// Encrypts a session key under a given nonce (see `sealed_session_key`).
/// The stored text is longer than the key, so never the key itself.  The
/// key must be short enough for the length of the stored text to fit in
/// `usize`.
pub fn encrypt_session_key_with_nonce(key: &str, jwt_secret: &str, nonce: [u8; 12]) -> (r: Result<
    String,
    String,
>)
    requires
        padded_base64_len(encode_utf8(key@).len() + 28) <= usize::MAX,
    ensures
        encode_utf8(key@).len() <= 0x10_0000_0000 ==> r is Ok,
        r matches Ok(t) ==> t@ == sealed_session_key(key@, jwt_secret@, nonce@),
        r matches Ok(t) ==> opened_session_key(t@, jwt_secret@) == Some(key@),
        r matches Ok(t) ==> key@.len() < t@.len() && t@ != key@,
{
    let derived = match derive_session_cipher_key(jwt_secret) {
        Ok(k) => k,
        Err(e) => return Err(e),
    };
    let ct = match aes256gcm_seal(&derived, &nonce, key.as_bytes()) {
        Ok(c) => c,
        Err(e) => {
            let mut m: Vec<char> = Vec::new();
            push_str(&mut m, "Encryption failed: ");
            push_str(&mut m, e.as_str());
            return Err(string_of(&m));
        },
    };
    let mut combined: Vec<u8> = Vec::new();
    let mut i: usize = 0;
    while i < 12
        invariant
            i <= 12,
            combined@ == nonce@.take(i as int),
        decreases 12 - i,
    {
        combined.push(nonce[i]);
        assert(nonce@.take(i + 1) =~= nonce@.take(i as int).push(nonce@[i as int]));
        i = i + 1;
    }
    let mut j: usize = 0;
    while j < ct.len()
        invariant
            j <= ct@.len(),
            combined@ == nonce@ + ct@.take(j as int),
        decreases ct.len() - j,
    {
        combined.push(ct[j]);
        assert(ct@.take(j + 1) =~= ct@.take(j as int).push(ct@[j as int]));
        j = j + 1;
    }
    proof {
        assert(nonce@.take(12) =~= nonce@);
        assert(ct@.take(ct@.len() as int) =~= ct@);
    }
    proof {
        assert(combined@.len() == encode_utf8(key@).len() + 28);
    }
    let text = base64_encode(combined.as_slice());
    proof {
        lemma_session_key_round_trip(key@, jwt_secret@, nonce@);
        lemma_chars_within_bytes(key@);
    }
    Ok(text)
}

/// Encrypts a session key for storage, under a fresh random nonce; whatever
/// the nonce, the stored text decrypts back to the key with the same
/// secret.
pub fn encrypt_session_key(key: &str, jwt_secret: &str) -> (r: Result<String, String>)
    requires
        padded_base64_len(encode_utf8(key@).len() + 28) <= usize::MAX,
    ensures
        encode_utf8(key@).len() <= 0x10_0000_0000 ==> r is Ok,
        r matches Ok(t) ==> exists|n: Seq<u8>| n.len() == 12 && t@ == sealed_session_key(key@, jwt_secret@, n),
        r matches Ok(t) ==> opened_session_key(t@, jwt_secret@) == Some(key@),
        r matches Ok(t) ==> key@.len() < t@.len() && t@ != key@,
{
    let nonce = random_nonce();
    encrypt_session_key_with_nonce(key, jwt_secret, nonce)
}

/// Decrypts a stored session key (see `opened_session_key`).
pub fn decrypt_session_key(encrypted: &str, jwt_secret: &str) -> (r: Result<String, String>)
    ensures
        match opened_session_key(encrypted@, jwt_secret@) {
            Some(k) => r matches Ok(s) && s@ == k,
            None => r is Err,
        },
        (match base64_bytes(encrypted@) {
            Some(c) => c.len() < 12,
            None => false,
        }) ==> (r matches Err(m) && m@ == "Ciphertext too short"@),
{
    let derived = match derive_session_cipher_key(jwt_secret) {
        Ok(k) => k,
        Err(e) => return Err(e),
    };
    let combined = match base64_decode(encrypted) {
        Ok(c) => c,
        Err(e) => {
            let mut m: Vec<char> = Vec::new();
            push_str(&mut m, "Base64 decode failed: ");
            push_str(&mut m, e.as_str());
            return Err(string_of(&m));
        },
    };
    if combined.len() < 12 {
        return Err(string_of(&chars_of("Ciphertext too short")));
    }
    let (nonce, body) = combined.as_slice().split_at(12);
    proof {
        assert(nonce@ =~= combined@.take(12));
        assert(body@ =~= combined@.skip(12));
    }
    let plain = match aes256gcm_open(&derived, nonce, body) {
        Ok(p) => p,
        Err(e) => {
            let mut m: Vec<char> = Vec::new();
            push_str(&mut m, "Decryption failed: ");
            push_str(&mut m, e.as_str());
            return Err(string_of(&m));
        },
    };
    match utf8_text(plain) {
        Ok(s) => Ok(s),
        Err(e) => {
            let mut m: Vec<char> = Vec::new();
            push_str(&mut m, "UTF-8 decode failed: ");
            push_str(&mut m, e.as_str());
            Err(string_of(&m))
        },
    }
}

proof fn lemma_session_key_round_trip(key: Seq<char>, jwt_secret: Seq<char>, nonce: Seq<u8>)
    requires
        nonce.len() == 12,
        aes_gcm_opened(
            session_cipher_key(jwt_secret),
            nonce,
            aes_gcm_sealed(session_cipher_key(jwt_secret), nonce, encode_utf8(key)),
        ) == Some(encode_utf8(key)),
        base64_bytes(sealed_session_key(key, jwt_secret, nonce)) == Some(
            nonce + aes_gcm_sealed(session_cipher_key(jwt_secret), nonce, encode_utf8(key)),
        ),
    ensures
        opened_session_key(sealed_session_key(key, jwt_secret, nonce), jwt_secret) == Some(key),
{
    let ct = aes_gcm_sealed(session_cipher_key(jwt_secret), nonce, encode_utf8(key));
    let c = nonce + ct;
    assert(c.take(12) =~= nonce);
    assert(c.skip(12) =~= ct);
    vstd::utf8::encode_utf8_valid_utf8(key);
    vstd::utf8::encode_utf8_decode_utf8(key);
}


// ─── Account status and requests ───────────────────────────────────────

/// Where a user is sent to authorise this instance.
#[derive(Debug, Clone)]
pub struct LastfmConnectResponse {
    pub auth_url: String,
}

/// The token Last.fm hands back after authorisation.
#[derive(Debug, Clone)]
pub struct LastfmCallbackRequest {
    pub token: String,
}

/// A user's Last.fm link.
#[derive(Debug, Clone)]
pub struct LastfmStatusResponse {
    pub connected: bool,
    pub username: Option<String>,
    pub scrobble_enabled: bool,
}

/// Turns scrobbling on or off.
#[derive(Debug, Clone, Copy)]
pub struct LastfmToggleRequest {
    pub enabled: bool,
}

/// Whether a stored flag reads as on: exactly `true`.
pub open spec fn flag_on(setting: Option<Seq<char>>) -> bool {
    match setting {
        Some(v) => v == "true"@,
        None => false,
    }
}

fn setting_is_true(setting: Option<&str>) -> (b: bool)
    ensures
        b == flag_on(crate::sandbox::opt_str_view(setting)),
{
    match setting {
        Some(v) => str_eq(v, "true"),
        None => false,
    }
}

/// A user's status from their stored settings: linked when a Last.fm
/// username is stored; scrobbling on when its flag is `true`.
pub fn lastfm_status(username: Option<String>, scrobble_setting: Option<&str>) -> (r: LastfmStatusResponse)
    ensures
        r.connected == username is Some,
        r.username == username,
        r.scrobble_enabled == flag_on(crate::sandbox::opt_str_view(scrobble_setting)),
{
    LastfmStatusResponse {
        connected: username.is_some(),
        username,
        scrobble_enabled: setting_is_true(scrobble_setting),
    }
}

/// The stored value of the scrobbling flag.
pub fn toggle_value(req: LastfmToggleRequest) -> (v: &'static str)
    ensures
        v@ == if req.enabled {
            "true"@
        } else {
            "false"@
        },
        v@ == crate::setup::flag_text(req.enabled),
{
    if req.enabled {
        "true"
    } else {
        "false"
    }
}

/// Turning scrobbling on or off is what the status then reports: the flag
/// stored by `toggle_value(enabled)` reads back (in `lastfm_status`) as
/// `enabled`; a user with no stored flag is not scrobbling, and only the
/// text a toggle on stores (`true`) reads as on.
pub proof fn law_scrobble_toggle_reads_back(enabled: bool)
    ensures
        flag_on(Some(crate::setup::flag_text(enabled))) == enabled,
        !flag_on(None),
        forall|v: Seq<char>| flag_on(Some(v)) ==> v == crate::setup::flag_text(true),
{
    reveal_strlit("true");
    reveal_strlit("false");
    assert("false"@.len() != "true"@.len());
}

/// Bytes `urlencoding::encode` leaves as they are.
pub open spec fn url_unreserved(b: u8) -> bool {
    (48 <= b <= 57) || (65 <= b <= 90) || (97 <= b <= 122) || b == 45 || b == 46 || b == 95
        || b == 126
}

/// The uppercase hexadecimal digit for `d < 16`.
pub open spec fn upper_hex(d: u8) -> char {
    if d < 10 {
        ((48 + d) as u8) as char
    } else {
        ((55 + d) as u8) as char
    }
}

/// Bytes percent-encoded: unreserved bytes kept, others as `%XX`.
pub open spec fn percent_encoded(b: Seq<u8>) -> Seq<char>
    decreases b.len(),
{
    if b.len() == 0 {
        seq![]
    } else {
        let last = b.last();
        percent_encoded(b.drop_last()) + if url_unreserved(last) {
            seq![last as char]
        } else {
            seq!['%', upper_hex(last / 16), upper_hex(last % 16)]
        }
    }
}

/// Percent-encodes a text for a URL query.
///
/// Trusted: calls `urlencoding::encode`, which (per its source) keeps ASCII
/// letters, digits, `-`, `.`, `_` and `~` and writes every other byte of the
/// UTF-8 text as `%` and two uppercase hex digits.
#[verifier::external_body]
pub(crate) fn url_encode(s: &str) -> (r: String)
    ensures
        r@ == percent_encoded(encode_utf8(s@)),
{
    urlencoding::encode(s).into_owned()
}

/// The page a user authorises this instance on.
pub open spec fn auth_url_of(api_key: Seq<char>, scheme: Seq<char>, domain: Seq<char>) -> Seq<char> {
    "https://www.last.fm/api/auth/?api_key="@ + api_key + "&cb="@ + percent_encoded(
        encode_utf8(scheme + "://"@ + domain + "/settings?lastfm_callback=1"@),
    )
}

/// The authorisation link, from the configured API key (`LASTFM_API_KEY`;
/// without it the integration is off) and URL scheme (`SOUNDTIME_SCHEME`,
/// default `https`) of this instance.
pub fn connect_url(api_key: Option<&str>, scheme: Option<&str>, domain: &str) -> (r: Result<
    LastfmConnectResponse,
    String,
>)
    ensures
        api_key is None <==> r is Err,
        r matches Err(m) ==> m@ == "Last.fm integration is not configured on this instance"@,
        r matches Ok(c) ==> c.auth_url@ == auth_url_of(
            api_key.unwrap()@,
            match scheme {
                Some(s) => s@,
                None => "https"@,
            },
            domain@,
        ),
{
    let key = match api_key {
        Some(k) => k,
        None => {
            return Err(string_of(&chars_of("Last.fm integration is not configured on this instance")));
        },
    };
    let mut cb: Vec<char> = Vec::new();
    match scheme {
        Some(s) => push_str(&mut cb, s),
        None => push_str(&mut cb, "https"),
    }
    push_str(&mut cb, "://");
    push_str(&mut cb, domain);
    push_str(&mut cb, "/settings?lastfm_callback=1");
    let callback = string_of(&cb);
    let mut url: Vec<char> = Vec::new();
    push_str(&mut url, "https://www.last.fm/api/auth/?api_key=");
    push_str(&mut url, key);
    push_str(&mut url, "&cb=");
    let enc = url_encode(callback.as_str());
    push_str(&mut url, enc.as_str());
    proof {
        let sch = match scheme {
            Some(s) => s@,
            None => "https"@,
        };
        assert(callback@ =~= sch + "://"@ + domain@ + "/settings?lastfm_callback=1"@);
    }
    Ok(LastfmConnectResponse { auth_url: string_of(&url) })
}

/// The parameters of `auth.getSession` for a token.
pub fn session_request_params(api_key: &str, token: &str) -> (p: ApiParams)
    ensures
        p.pairs() == seq![
            ("api_key"@, api_key@),
            ("method"@, "auth.getSession"@),
            ("token"@, token@),
        ],
{
    proof {
        reveal_strlit("api_key");
        reveal_strlit("method");
        reveal_strlit("token");
    }
    let mut p = ApiParams::new();
    let ghost p0 = p.pairs();
    p.insert("api_key", api_key);
    let ghost p1 = p.pairs();
    proof {
        assert(p1 =~= seq![("api_key"@, api_key@)]);
        assert(key_lt("api_key"@, "method"@));
        assert(!key_lt("method"@, "api_key"@));
    }
    p.insert("method", "auth.getSession");
    let ghost p2 = p.pairs();
    proof {
        assert(p2.len() == 2);
        assert(p2[0].0 == "api_key"@ && p2[1].0 == "method"@) by {
            let i = choose|i: int| 0 <= i <= p1.len() && p2 == p1.insert(i, ("method"@, "auth.getSession"@));
            if i == 0 {
                assert(key_lt(p2[0].0, p2[1].0));
            }
        }
        assert(p2 =~= seq![("api_key"@, api_key@), ("method"@, "auth.getSession"@)]);
        assert(key_lt("method"@, "token"@));
        assert(!key_lt("token"@, "api_key"@));
        assert(!key_lt("token"@, "method"@));
    }
    p.insert("token", token);
    proof {
        let p3 = p.pairs();
        let i = choose|i: int| 0 <= i <= p2.len() && p3 == p2.insert(i, ("token"@, token@));
        if i == 0 {
            assert(key_lt(p3[0].0, p3[1].0));
        } else if i == 1 {
            assert(key_lt(p3[1].0, p3[2].0));
        }
        assert(p3 =~= seq![("api_key"@, api_key@), ("method"@, "auth.getSession"@), ("token"@, token@)]);
    }
    p
}

// ─── Track calls (now playing, scrobble) ───────────────────────────────

impl ApiParams {
    /// Adds a key that sorts after every key held.
    fn append(&mut self, key: &str, value: &str)
        requires
            sorted_keys(old(self).pairs()),
            old(self).pairs().len() > 0 ==> key_lt(old(self).pairs().last().0, key@),
        ensures
            final(self).pairs() == old(self).pairs().push((key@, value@)),
            sorted_keys(final(self).pairs()),
    {
        let ghost before = self.pairs();
        proof {
            assert forall|i: int| 0 <= i < before.len() implies key_lt(before[i].0, key@) by {
                if i < before.len() - 1 {
                    lemma_key_lt_transitive(before[i].0, before.last().0, key@);
                }
            }
            assert forall|i: int| 0 <= i < before.len() implies before[i].0 != key@ by {
                lemma_key_lt_irreflexive(key@);
            }
        }
        self.insert(key, value);
        proof {
            let after = self.pairs();
            let i = choose|i: int| 0 <= i <= before.len() && after == before.insert(i, (key@, value@));
            if i < before.len() {
                assert(after[i] == (key@, value@));
                assert(after[i + 1] == before[i]);
                assert(key_lt(after[i].0, after[i + 1].0));
                lemma_key_lt_asymmetric(before[i].0, key@);
            }
            assert(after =~= before.push((key@, value@)));
        }
    }
}

/// A signed number in decimal.
pub open spec fn signed_dec(n: int) -> Seq<char> {
    if n < 0 {
        "-"@ + dec((-n) as nat)
    } else {
        dec(n as nat)
    }
}

/// The parameters of a track call (`track.updateNowPlaying` without a
/// timestamp, `track.scrobble` with one), in key order: album when known,
/// api_key, artist, duration, method, sk, timestamp when given, track.
pub open spec fn track_call_pairs(
    method: Seq<char>,
    api_key: Seq<char>,
    session_key: Seq<char>,
    artist: Seq<char>,
    track: Seq<char>,
    duration: nat,
    timestamp: Option<int>,
    album: Option<Seq<char>>,
) -> Seq<(Seq<char>, Seq<char>)> {
    (match album {
        Some(a) => seq![("album"@, a)],
        None => seq![],
    }) + seq![
        ("api_key"@, api_key),
        ("artist"@, artist),
        ("duration"@, dec(duration)),
        ("method"@, method),
        ("sk"@, session_key),
    ] + (match timestamp {
        Some(t) => seq![("timestamp"@, signed_dec(t))],
        None => seq![],
    }) + seq![("track"@, track)]
}

fn signed_decimal(n: i64) -> (s: String)
    ensures
        s@ == signed_dec(n as int),
{
    let mut v: Vec<char> = Vec::new();
    if n < 0 {
        push_str(&mut v, "-");
        let m: u64 = (0i128 - n as i128) as u64;
        push_decimal(&mut v, m);
    } else {
        push_decimal(&mut v, n as u64);
    }
    string_of(&v)
}

/// The parameters of a track call (see `track_call_pairs`).
pub fn track_call_params(
    method: &str,
    api_key: &str,
    session_key: &str,
    artist: &str,
    track: &str,
    duration_secs: u64,
    timestamp: Option<i64>,
    album: Option<&str>,
) -> (p: ApiParams)
    ensures
        p.pairs() == track_call_pairs(
            method@,
            api_key@,
            session_key@,
            artist@,
            track@,
            duration_secs as nat,
            match timestamp {
                Some(t) => Some(t as int),
                None => None,
            },
            crate::sandbox::opt_str_view(album),
        ),
        sorted_keys(p.pairs()),
{
    proof {
        reveal_strlit("album");
        reveal_strlit("api_key");
        reveal_strlit("artist");
        reveal_strlit("duration");
        reveal_strlit("method");
        reveal_strlit("sk");
        reveal_strlit("timestamp");
        reveal_strlit("track");
        reveal_with_fuel(key_lt, 3);
        assert(key_lt("album"@, "api_key"@));
        assert(key_lt("api_key"@, "artist"@));
        assert(key_lt("artist"@, "duration"@));
        assert(key_lt("duration"@, "method"@));
        assert(key_lt("method"@, "sk"@));
        assert(key_lt("sk"@, "timestamp"@));
        assert(key_lt("sk"@, "track"@));
        assert(key_lt("timestamp"@, "track"@));
    }
    let mut p = ApiParams::new();
    let ghost head: Seq<(Seq<char>, Seq<char>)> = match album {
        Some(a) => seq![("album"@, a@)],
        None => seq![],
    };
    if let Some(a) = album {
        p.append("album", a);
    }
    assert(p.pairs() =~= head);
    p.append("api_key", api_key);
    p.append("artist", artist);
    let mut dv: Vec<char> = Vec::new();
    push_decimal(&mut dv, duration_secs);
    let ds = string_of(&dv);
    p.append("duration", ds.as_str());
    p.append("method", method);
    p.append("sk", session_key);
    let ghost mid = p.pairs();
    let ghost stamp: Seq<(Seq<char>, Seq<char>)> = match timestamp {
        Some(t) => seq![("timestamp"@, signed_dec(t as int))],
        None => seq![],
    };
    if let Some(t) = timestamp {
        let ts = signed_decimal(t);
        p.append("timestamp", ts.as_str());
    }
    assert(p.pairs() =~= mid + stamp);
    p.append("track", track);
    proof {
        assert(p.pairs() =~= track_call_pairs(
            method@,
            api_key@,
            session_key@,
            artist@,
            track@,
            duration_secs as nat,
            match timestamp {
                Some(t) => Some(t as int),
                None => None,
            },
            crate::sandbox::opt_str_view(album),
        ));
    }
    p
}

/// How Last.fm answered a scrobble.
#[derive(Debug, Clone, Copy, PartialEq, Eq, Structural)]
pub enum ScrobbleReply {
    /// A success status.
    Accepted,
    /// `403 Forbidden`: the session key was revoked.
    SessionRevoked,
    /// Any other status.
    Failed,
}

/// Classifies the HTTP status of a scrobble's answer.
pub fn scrobble_reply(status: u16) -> (r: ScrobbleReply)
    ensures
        r == (if status == 403 {
            ScrobbleReply::SessionRevoked
        } else if 200 <= status && status <= 299 {
            ScrobbleReply::Accepted
        } else {
            ScrobbleReply::Failed
        }),
{
    if status == 403 {
        ScrobbleReply::SessionRevoked
    } else if 200 <= status && status <= 299 {
        ScrobbleReply::Accepted
    } else {
        ScrobbleReply::Failed
    }
}

/// What a scrobble reports for an answer; `status_text` is the status as
/// the HTTP client shows it.  A revoked session also drops the user's
/// Last.fm settings (the caller does).
pub fn scrobble_result(reply: ScrobbleReply, status_text: &str) -> (r: Result<(), String>)
    ensures
        match reply {
            ScrobbleReply::Accepted => r is Ok,
            ScrobbleReply::SessionRevoked => r matches Err(m) && m@ == "Last.fm session revoked"@,
            ScrobbleReply::Failed => r matches Err(m) && m@ == "Last.fm scrobble failed: "@ + status_text@,
        },
{
    match reply {
        ScrobbleReply::Accepted => Ok(()),
        ScrobbleReply::SessionRevoked => Err(string_of(&chars_of("Last.fm session revoked"))),
        ScrobbleReply::Failed => {
            let mut v: Vec<char> = Vec::new();
            push_str(&mut v, "Last.fm scrobble failed: ");
            push_str(&mut v, status_text);
            Err(string_of(&v))
        },
    }
}

/// Whether a track can be reported: it has an artist name and a title.
pub fn reportable_track(artist: &str, title: &str) -> (b: bool)
    ensures
        b == (artist@.len() > 0 && title@.len() > 0),
{
    chars_of(artist).len() > 0 && chars_of(title).len() > 0
}

/// The session of an `auth.getSession` answer: its key and user name, each
/// as found in the answer (`None` when missing); refused with the message
/// of the first thing missing.
pub fn session_from_reply(has_session: bool, key: Option<String>, name: Option<String>) -> (r: Result<(String, String), &'static str>)
    ensures
        !has_session ==> (r matches Err(m) && m@ == "No session in Last.fm response"@),
        has_session && key is None ==> (r matches Err(m) && m@ == "No session key in Last.fm response"@),
        has_session && key is Some && name is None ==> (r matches Err(m) && m@
            == "No username in Last.fm response"@),
        has_session && key is Some && name is Some ==> r == Ok::<(String, String), &'static str>((key->0, name->0)),
{
    if !has_session {
        return Err("No session in Last.fm response");
    }
    match key {
        None => Err("No session key in Last.fm response"),
        Some(k) => match name {
            None => Err("No username in Last.fm response"),
            Some(n) => Ok((k, n)),
        },
    }
}

/// The status after connecting an account: connected as `username`, with
/// scrobbling on.
pub fn connected_status(username: String) -> (r: LastfmStatusResponse)
    ensures
        r.connected,
        r.username == Some(username),
        r.scrobble_enabled,
{
    LastfmStatusResponse { connected: true, username: Some(username), scrobble_enabled: true }
}

} // verus!
