//! The encryption that the unified authentication page applies to a password
//! and to a slider captcha track: AES-128-CBC with PKCS#7 padding, then
//! standard Base64.

use vstd::prelude::*;
use base64::Engine;
use aes::cipher::{BlockEncryptMut, KeyIvInit};
use aes::cipher::block_padding::Pkcs7;

verus! {

/// The character of the standard Base64 alphabet for the six bits `v`.
pub open spec fn base64_char(v: nat) -> char {
    if v < 26 {
        (v + 65) as char
    } else if v < 52 {
        (v - 26 + 97) as char
    } else if v < 62 {
        (v - 52 + 48) as char
    } else if v == 62 {
        '+'
    } else {
        '/'
    }
}

/// Standard Base64 (RFC 4648, section 4) of `b`, padded with `=`.
pub open spec fn base64_encode(b: Seq<u8>) -> Seq<char>
    decreases b.len(),
{
    if b.len() == 0 {
        Seq::empty()
    } else if b.len() == 1 {
        seq![base64_char(b[0] as nat / 4), base64_char((b[0] as nat % 4) * 16), '=', '=']
    } else if b.len() == 2 {
        seq![
            base64_char(b[0] as nat / 4),
            base64_char((b[0] as nat % 4) * 16 + b[1] as nat / 16),
            base64_char((b[1] as nat % 16) * 4),
            '=',
        ]
    } else {
        seq![
            base64_char(b[0] as nat / 4),
            base64_char((b[0] as nat % 4) * 16 + b[1] as nat / 16),
            base64_char((b[1] as nat % 16) * 4 + b[2] as nat / 64),
            base64_char(b[2] as nat % 64),
        ] + base64_encode(b.skip(3))
    }
}

/// The bytes that `general_purpose::STANDARD.decode` gives for `s`, or `None`
/// where it refuses `s`: that engine requires canonical padding and no
/// trailing bits, so it accepts exactly the standard encodings of byte
/// strings, and gives back the bytes encoded.
pub open spec fn spec_base64_decode(s: Seq<char>) -> Option<Seq<u8>> {
    if exists|b: Seq<u8>| base64_encode(b) == s {
        Some(choose|b: Seq<u8>| base64_encode(b) == s)
    } else {
        None
    }
}

/// The ciphertext of AES-128 in CBC mode with PKCS#7 padding.
pub uninterp spec fn spec_aes128_cbc_pkcs7(key: Seq<u8>, iv: Seq<u8>, plaintext: Seq<u8>) -> Seq<u8>;

/// `general_purpose::STANDARD.encode`: standard Base64 with padding.
#[verifier::external_body]
fn base64_standard_encode(bytes: &[u8]) -> (r: String)
    ensures
        r@ == base64_encode(bytes@),
{
    base64::engine::general_purpose::STANDARD.encode(bytes)
}

/// `general_purpose::STANDARD.decode`.
#[verifier::external_body]
fn base64_standard_decode(s: &str) -> (r: Option<Vec<u8>>)
    ensures
        r matches Some(v) ==> spec_base64_decode(s@) == Some(v@),
        r is None ==> spec_base64_decode(s@) is None,
{
    base64::engine::general_purpose::STANDARD.decode(s).ok()
}

/// `cbc::Encryptor::<Aes128>::new(key, iv).encrypt_padded_vec_mut::<Pkcs7>(plaintext)`.
#[verifier::external_body]
fn aes128_cbc_pkcs7_encrypt(key: &[u8], iv: &[u8], plaintext: &[u8]) -> (r: Vec<u8>)
    requires
        key@.len() == 16,
        iv@.len() == 16,
    ensures
        r@ == spec_aes128_cbc_pkcs7(key@, iv@, plaintext@),
        r@.len() == 16 * (plaintext@.len() / 16 + 1),
{
    cbc::Encryptor::<aes::Aes128>::new(key.into(), iv.into()).encrypt_padded_vec_mut::<Pkcs7>(plaintext)
}

/// Standard Base64 of `bytes`.
pub fn encode_base64(bytes: &[u8]) -> (r: String)
    ensures
        r@ == base64_encode(bytes@),
{
    base64_standard_encode(bytes)
}

/// The bytes that standard Base64 `s` encodes, or `None` where `s` is not
/// canonical standard Base64.
pub fn decode_base64(s: &str) -> (r: Option<Vec<u8>>)
    ensures
        r matches Some(v) ==> spec_base64_decode(s@) == Some(v@),
        r is None <==> spec_base64_decode(s@) is None,
{
    base64_standard_decode(s)
}

/// Standard Base64 is four characters for every three bytes or part of them.
pub proof fn lemma_base64_len(b: Seq<u8>)
    ensures
        base64_encode(b).len() == 4 * ((b.len() + 2) / 3),
    decreases b.len(),
{
    if b.len() > 2 {
        lemma_base64_len(b.skip(3));
    }
}

/// Standard Base64 uses only its alphabet and `=`.
pub proof fn lemma_base64_alphabet(b: Seq<u8>)
    ensures
        forall|i: int|
            0 <= i < base64_encode(b).len() ==> {
                let c = #[trigger] base64_encode(b)[i];
                ('A' <= c && c <= 'Z') || ('a' <= c && c <= 'z') || ('0' <= c && c <= '9') || c
                    == '+' || c == '/' || c == '='
            },
    decreases b.len(),
{
    if b.len() > 2 {
        lemma_base64_alphabet(b.skip(3));
        let head = seq![
            base64_char(b[0] as nat / 4),
            base64_char((b[0] as nat % 4) * 16 + b[1] as nat / 16),
            base64_char((b[1] as nat % 16) * 4 + b[2] as nat / 64),
            base64_char(b[2] as nat % 64),
        ];
        assert forall|i: int| 0 <= i < base64_encode(b).len() implies {
            let c = #[trigger] base64_encode(b)[i];
            ('A' <= c && c <= 'Z') || ('a' <= c && c <= 'z') || ('0' <= c && c <= '9') || c == '+'
                || c == '/' || c == '='
        } by {
            if i >= 4 {
                assert(base64_encode(b)[i] == base64_encode(b.skip(3))[i - 4]);
            }
        }
    }
}

/// Different six-bit values have different Base64 characters, none of them
/// the padding `=`.
proof fn lemma_base64_char_injective(v: nat, w: nat)
    requires
        v < 64,
        w < 64,
    ensures
        base64_char(v) != '=',
        base64_char(v) == base64_char(w) ==> v == w,
{
    let cv = base64_char(v) as int;
    let cw = base64_char(w) as int;
    assert(v < 26 ==> cv == v + 65);
    assert(26 <= v < 52 ==> cv == v + 71);
    assert(52 <= v < 62 ==> cv == v - 4);
    assert(v == 62 ==> cv == 43);
    assert(v == 63 ==> cv == 47);
    assert(w < 26 ==> cw == w + 65);
    assert(26 <= w < 52 ==> cw == w + 71);
    assert(52 <= w < 62 ==> cw == w - 4);
    assert(w == 62 ==> cw == 43);
    assert(w == 63 ==> cw == 47);
}

/// The first group of four characters of a standard Base64 encoding.
proof fn lemma_base64_first_group(a: Seq<u8>)
    requires
        a.len() > 0,
    ensures
        base64_encode(a).len() >= 4,
        base64_encode(a)[0] == base64_char(a[0] as nat / 4),
        a.len() == 1 ==> base64_encode(a)[1] == base64_char((a[0] as nat % 4) * 16)
            && base64_encode(a)[2] == '=' && base64_encode(a)[3] == '=',
        a.len() == 2 ==> base64_encode(a)[1] == base64_char((a[0] as nat % 4) * 16 + a[1] as nat / 16)
            && base64_encode(a)[2] == base64_char((a[1] as nat % 16) * 4) && base64_encode(a)[3] == '=',
        a.len() >= 3 ==> base64_encode(a)[1] == base64_char((a[0] as nat % 4) * 16 + a[1] as nat / 16)
            && base64_encode(a)[2] == base64_char((a[1] as nat % 16) * 4 + a[2] as nat / 64)
            && base64_encode(a)[3] == base64_char(a[2] as nat % 64)
            && base64_encode(a).skip(4) == base64_encode(a.skip(3)),
{
    lemma_base64_len(a);
    if a.len() >= 3 {
        assert(base64_encode(a).skip(4) =~= base64_encode(a.skip(3)));
    }
}

/// Two six-bit values built as `hi * m + lo`, with `lo < m`, are equal only
/// where their parts are.
proof fn lemma_split_digits(hi1: nat, lo1: nat, hi2: nat, lo2: nat, m: nat)
    requires
        m > 0,
        lo1 < m,
        lo2 < m,
        hi1 * m + lo1 == hi2 * m + lo2,
    ensures
        hi1 == hi2,
        lo1 == lo2,
{
    assert(hi1 == hi2) by (nonlinear_arith)
        requires
            m > 0,
            lo1 < m,
            lo2 < m,
            hi1 * m + lo1 == hi2 * m + lo2,
    ;
}

/// Different byte strings have different standard Base64 encodings.
pub proof fn lemma_base64_injective(a: Seq<u8>, b: Seq<u8>)
    requires
        base64_encode(a) == base64_encode(b),
    ensures
        a == b,
    decreases a.len(),
{
    lemma_base64_len(a);
    lemma_base64_len(b);
    let e = base64_encode(a);
    if a.len() == 0 || b.len() == 0 {
        return;
    }
    lemma_base64_first_group(a);
    lemma_base64_first_group(b);
    let (a0, b0) = (a[0] as nat, b[0] as nat);
    lemma_base64_char_injective(a0 / 4, b0 / 4);
    assert(a0 / 4 == b0 / 4);
    if a.len() >= 3 {
        let (a1, a2) = (a[1] as nat, a[2] as nat);
        lemma_base64_char_injective((a1 % 16) * 4 + a2 / 64, 0);
        lemma_base64_char_injective(a2 % 64, 0);
    }
    if b.len() >= 3 {
        let (b1, b2) = (b[1] as nat, b[2] as nat);
        lemma_base64_char_injective((b1 % 16) * 4 + b2 / 64, 0);
        lemma_base64_char_injective(b2 % 64, 0);
    }
    if a.len() == 2 {
        let a1 = a[1] as nat;
        lemma_base64_char_injective((a1 % 16) * 4, 0);
    }
    if b.len() == 2 {
        let b1 = b[1] as nat;
        lemma_base64_char_injective((b1 % 16) * 4, 0);
    }
    // The padding tells how many bytes the last group holds.
    assert(a.len() == 1 <==> e[2] == '=');
    assert(b.len() == 1 <==> e[2] == '=');
    assert(a.len() == 2 <==> (e[2] != '=' && e[3] == '='));
    assert(b.len() == 2 <==> (e[2] != '=' && e[3] == '='));
    if a.len() == 1 {
        assert(b.len() == 1);
        lemma_base64_char_injective((a0 % 4) * 16, (b0 % 4) * 16);
        assert(a0 == b0);
        assert(a =~= b);
    } else if a.len() == 2 {
        assert(b.len() == 2);
        let (a1, b1) = (a[1] as nat, b[1] as nat);
        lemma_base64_char_injective((a0 % 4) * 16 + a1 / 16, (b0 % 4) * 16 + b1 / 16);
        lemma_base64_char_injective((a1 % 16) * 4, (b1 % 16) * 4);
        lemma_split_digits(a0 % 4, a1 / 16, b0 % 4, b1 / 16, 16);
        assert(a0 == b0 && a1 == b1);
        assert(a =~= b);
    } else {
        assert(b.len() >= 3);
        let (a1, a2) = (a[1] as nat, a[2] as nat);
        let (b1, b2) = (b[1] as nat, b[2] as nat);
        lemma_base64_char_injective((a0 % 4) * 16 + a1 / 16, (b0 % 4) * 16 + b1 / 16);
        lemma_base64_char_injective((a1 % 16) * 4 + a2 / 64, (b1 % 16) * 4 + b2 / 64);
        lemma_base64_char_injective(a2 % 64, b2 % 64);
        lemma_split_digits(a0 % 4, a1 / 16, b0 % 4, b1 / 16, 16);
        lemma_split_digits(a1 % 16, a2 / 64, b1 % 16, b2 / 64, 4);
        assert(a0 == b0 && a1 == b1 && a2 == b2);
        lemma_base64_injective(a.skip(3), b.skip(3));
        assert(a =~= a.take(3) + a.skip(3));
        assert(b =~= b.take(3) + b.skip(3));
        assert(a.take(3) =~= b.take(3));
    }
}

/// Decoding a standard Base64 encoding gives the bytes encoded.
pub proof fn lemma_base64_decode_encode(b: Seq<u8>)
    ensures
        spec_base64_decode(base64_encode(b)) == Some(b),
{
    let c = choose|c: Seq<u8>| base64_encode(c) == base64_encode(b);
    lemma_base64_injective(c, b);
}

/// Why a text could not be encrypted.
#[derive(Debug, Clone, Copy, PartialEq, Eq, Structural)]
pub enum EncryptError {
    /// The key does not have 16 bytes; it has this many.
    KeyLength(usize),
}

/// The 64 characters `a` that the page puts before every plaintext.
pub open spec fn plaintext_prefix() -> Seq<char> {
    Seq::new(64, |i: int| 'a')
}

/// What `encrypt` gives: `"a" * 64 + plaintext` as UTF-8, encrypted under
/// `key` with the IV of sixteen `a`, in Base64.
pub open spec fn encrypt_spec(plaintext: Seq<char>, key: Seq<u8>) -> Result<Seq<char>, EncryptError> {
    if key.len() != 16 {
        Err(EncryptError::KeyLength(key.len() as usize))
    } else {
        Ok(
            base64_encode(
                spec_aes128_cbc_pkcs7(
                    key,
                    Seq::new(16, |i: int| 97u8),
                    vstd::utf8::encode_utf8(plaintext_prefix() + plaintext),
                ),
            ),
        )
    }
}

/// `n` letters `a` take `n` bytes in UTF-8.
proof fn lemma_prefix_bytes(n: nat, p: Seq<char>)
    ensures
        vstd::utf8::encode_utf8(Seq::new(n, |i: int| 'a') + p).len() == n + vstd::utf8::encode_utf8(p).len(),
    decreases n,
{
    let s = Seq::new(n, |i: int| 'a') + p;
    if n > 0 {
        lemma_prefix_bytes((n - 1) as nat, p);
        assert(s.drop_first() =~= Seq::new((n - 1) as nat, |i: int| 'a') + p);
        assert(s[0] == 'a');
        assert(vstd::utf8::encode_scalar('a' as u32).len() == 1);
    } else {
        assert(s =~= p);
    }
}

/// Encrypts `plaintext` the way the unified authentication page does.
pub fn encrypt(plaintext: &str, key: &[u8]) -> (r: Result<String, EncryptError>)
    ensures
        r matches Ok(s) ==> encrypt_spec(plaintext@, key@) == Ok::<Seq<char>, EncryptError>(s@),
        r matches Err(e) ==> encrypt_spec(plaintext@, key@) == Err::<Seq<char>, EncryptError>(e),
        r matches Ok(s) ==> ({
            let c = spec_aes128_cbc_pkcs7(
                key@,
                Seq::new(16, |i: int| 97u8),
                vstd::utf8::encode_utf8(plaintext_prefix() + plaintext@),
            );
            &&& spec_base64_decode(s@) == Some(c)
            &&& c.len() == 16 * ((64 + vstd::utf8::encode_utf8(plaintext@).len()) / 16 + 1)
        }),
{
    if key.len() != 16 {
        return Err(EncryptError::KeyLength(key.len()));
    }
    let iv: Vec<u8> = vec![97u8; 16];
    assert(iv@ == Seq::new(16, |i: int| 97u8));
    let mut padded = String::new();
    let mut i: usize = 0;
    while i < 64
        invariant
            i <= 64,
            padded@ == Seq::new(i as nat, |j: int| 'a'),
        decreases 64 - i,
    {
        padded.append("a");
        proof {
            reveal_strlit("a");
        }
        assert(padded@ =~= Seq::new((i + 1) as nat, |j: int| 'a'));
        i += 1;
    }
    padded.append(plaintext);
    let ciphertext = aes128_cbc_pkcs7_encrypt(key, iv.as_slice(), padded.as_str().as_bytes());
    proof {
        lemma_base64_decode_encode(ciphertext@);
        lemma_prefix_bytes(64, plaintext@);
        assert(padded@ == plaintext_prefix() + plaintext@);
    }
    Ok(encode_base64(ciphertext.as_slice()))
}

} // verus!
