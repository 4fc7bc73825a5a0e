//! The NSEC3 hash of a domain name: an iterated digest over the name's
//! canonical wire form and a salt, rendered in base32hex.
use vstd::prelude::*;
use vstd::string::*;

verus! {

/// The code of SHA-1 among the NSEC3 hash algorithms.
pub const SHA1_CODE: u8 = 1;

/// An NSEC3 hash algorithm, by its number.
#[derive(Clone, Copy, Debug, PartialEq, Eq, Structural)]
pub struct Nsec3HashAlg {
    pub code: u8,
}

impl Nsec3HashAlg {
    /// SHA-1, the one algorithm that hashing supports.
    pub fn sha1() -> (r: Self)
        ensures
            r.code == SHA1_CODE,
    {
        Nsec3HashAlg { code: SHA1_CODE }
    }
}

/// What SHA-1 makes of the given bytes.
pub uninterp spec fn sha1_of(data: Seq<u8>) -> Seq<u8>;

/// What base32hex, in upper case and without padding, makes of the given bytes.
pub uninterp spec fn base32hex_of(data: Seq<u8>) -> Seq<char>;

/// Relies on ring::digest::digest with SHA1_FOR_LEGACY_USE_ONLY: the SHA-1
/// digest of `data`, 20 bytes long.
#[verifier::external_body]
fn sha1(data: &[u8]) -> (r: Vec<u8>)
    ensures
        r@ == sha1_of(data@),
        r@.len() == 20,
{
    ring::digest::digest(&ring::digest::SHA1_FOR_LEGACY_USE_ONLY, data).as_ref().to_vec()
}

/// A character of the base32hex alphabet in upper case.
pub open spec fn is_base32hex_upper(c: char) -> bool {
    ('0' <= c <= '9') || ('A' <= c <= 'V')
}

/// A character of the base32hex alphabet in lower case.
pub open spec fn is_base32hex_lower(c: char) -> bool {
    ('0' <= c <= '9') || ('a' <= c <= 'v')
}

/// Relies on domain::utils::base32::encode_string_hex: each chunk of five
/// bytes becomes eight characters of the alphabet 0-9, A-V.
#[verifier::external_body]
fn base32hex(data: &[u8]) -> (r: String)
    ensures
        r@ == base32hex_of(data@),
        data@.len() % 5 == 0 ==> r@.len() == data@.len() / 5 * 8,
        forall|i: int| 0 <= i < r@.len() ==> is_base32hex_upper(#[trigger] r@[i]),
{
    domain::utils::base32::encode_string_hex(data)
}

/// A character with ASCII letters in lower case.
pub open spec fn lower_char(c: char) -> char {
    if 'A' <= c <= 'Z' {
        ((c as u32) + 32) as char
    } else {
        c
    }
}

/// A text with its ASCII letters in lower case.
pub open spec fn lower_ascii(s: Seq<char>) -> Seq<char> {
    s.map_values(|c: char| lower_char(c))
}

/// The lower-case letter at place `k` of the alphabet.
fn lower_letter(k: usize) -> (r: &'static str)
    requires
        k < 26,
    ensures
        r@ == seq![((('a' as u32) + (k as u32)) as char)],
{
    let letters = "abcdefghijklmnopqrstuvwxyz";
    proof {
        reveal_strlit("abcdefghijklmnopqrstuvwxyz");
        assert(letters@ =~= seq![
            'a', 'b', 'c', 'd', 'e', 'f', 'g', 'h', 'i', 'j', 'k', 'l', 'm', 'n', 'o', 'p', 'q',
            'r', 's', 't', 'u', 'v', 'w', 'x', 'y', 'z',
        ]);
    }
    let r = letters.substring_char(k, k + 1);
    proof {
        assert(r@ =~= seq![letters@[k as int]]);
    }
    r
}

/// A copy of `s` with ASCII letters 'A' to 'Z' lowered to 'a' to 'z' and all
/// other characters kept.
fn to_ascii_lower(s: &str) -> (r: String)
    ensures
        r@ == lower_ascii(s@),
{
    let len = s.unicode_len();
    let mut out = String::new();
    let mut i: usize = 0;
    while i < len
        invariant
            len == s@.len(),
            0 <= i <= len,
            out@ == lower_ascii(s@.take(i as int)),
        decreases len - i,
    {
        let c = s.get_char(i);
        if 'A' <= c && c <= 'Z' {
            out.append(lower_letter((c as u32 - 'A' as u32) as usize));
        } else {
            out.append(s.substring_char(i, i + 1));
        }
        proof {
            assert(lower_ascii(s@.take(i + 1)) =~= lower_ascii(s@.take(i as int)).push(lower_char(c)));
        }
        i = i + 1;
    }
    proof {
        assert(s@.take(len as int) =~= s@);
    }
    out
}

/// A byte with ASCII letters in lower case.
pub open spec fn lower_byte(b: u8) -> u8 {
    if 65 <= b <= 90 {
        (b + 32) as u8
    } else {
        b
    }
}

/// The canonical wire form of a name given in wire form. Each label is a
/// length octet of at most 63, which lowering leaves alone, and the label's
/// octets, of which the canonical form lowers the ASCII letters.
pub open spec fn canonical_wire(wire: Seq<u8>) -> Seq<u8> {
    wire.map_values(|b: u8| lower_byte(b))
}

/// The digest pass over a name and the salt: the hash for no iterations.
pub open spec fn first_pass(wire: Seq<u8>, salt: Seq<u8>) -> Seq<u8> {
    sha1_of(canonical_wire(wire) + salt)
}

/// One additional pass over the previous digest and the salt.
pub open spec fn next_pass(h: Seq<u8>, salt: Seq<u8>) -> Seq<u8> {
    sha1_of(h + salt)
}

/// `k` additional passes, starting from `h`.
pub open spec fn passes(h: Seq<u8>, salt: Seq<u8>, k: nat) -> Seq<u8>
    decreases k,
{
    if k == 0 {
        h
    } else {
        next_pass(passes(h, salt, (k - 1) as nat), salt)
    }
}

/// The NSEC3 hash of a name in wire form, with a salt and a count of
/// additional iterations.
pub open spec fn nsec3_hash_of(wire: Seq<u8>, salt: Seq<u8>, iterations: nat) -> Seq<u8> {
    passes(first_pass(wire, salt), salt, iterations)
}

/// The text of a hash: lower-case base32hex and one trailing period.
pub open spec fn hash_text_of(h: Seq<u8>) -> Seq<char> {
    lower_ascii(base32hex_of(h)) + "."@
}

/// Appends `data` to `buf`.
fn append_bytes(buf: &mut Vec<u8>, data: &[u8])
    ensures
        final(buf)@ == old(buf)@ + data@,
{
    let ghost start = buf@;
    let mut i: usize = 0;
    while i < data.len()
        invariant
            0 <= i <= data@.len(),
            buf@ == start + data@.take(i as int),
        decreases data@.len() - i,
    {
        buf.push(data[i]);
        proof {
            assert(data@.take(i + 1) =~= data@.take(i as int).push(data@[i as int]));
        }
        i = i + 1;
    }
    proof {
        assert(data@.take(i as int) =~= data@);
    }
}

/// The canonical wire form of a name given in wire form.
pub fn canonical(wire: &[u8]) -> (r: Vec<u8>)
    ensures
        r@ == canonical_wire(wire@),
{
    let mut out: Vec<u8> = Vec::new();
    let mut i: usize = 0;
    while i < wire.len()
        invariant
            0 <= i <= wire@.len(),
            out@ == canonical_wire(wire@.take(i as int)),
        decreases wire@.len() - i,
    {
        let b = wire[i];
        let l = if 65 <= b && b <= 90 { b + 32 } else { b };
        out.push(l);
        proof {
            assert(canonical_wire(wire@.take(i + 1)) =~= canonical_wire(wire@.take(i as int)).push(
                lower_byte(b),
            ));
        }
        i = i + 1;
    }
    proof {
        assert(wire@.take(i as int) =~= wire@);
    }
    out
}

/// The NSEC3 hash of the name in wire form `wire`: one SHA-1 pass over the
/// canonical name and the salt, then `iterations` passes over the previous
/// digest and the salt. Hashing supports SHA-1 alone.
pub fn nsec3_hash(wire: &[u8], algorithm: Nsec3HashAlg, iterations: u16, salt: &[u8]) -> (r: Vec<
    u8,
>)
    requires
        algorithm.code == SHA1_CODE,
    ensures
        r@ == nsec3_hash_of(wire@, salt@, iterations as nat),
        r@.len() == 20,
{
    let mut buf = canonical(wire);
    append_bytes(&mut buf, salt);
    let mut h = sha1(buf.as_slice());
    let mut k: u16 = 0;
    while k < iterations
        invariant
            0 <= k <= iterations,
            h@ == passes(first_pass(wire@, salt@), salt@, k as nat),
            h@.len() == 20,
        decreases iterations - k,
    {
        let mut next = h.clone();
        append_bytes(&mut next, salt);
        h = sha1(next.as_slice());
        k = k + 1;
    }
    h
}

/// The text of a hash: lower-case base32hex and one trailing period. For a
/// SHA-1 digest that is 32 characters of 0-9, a-v, then the period.
pub fn hash_text(h: &[u8]) -> (r: String)
    ensures
        r@ == hash_text_of(h@),
        h@.len() == 20 ==> r@.len() == 33 && r@[32] == '.' && forall|i: int|
            0 <= i < 32 ==> is_base32hex_lower(#[trigger] r@[i]),
{
    let upper = base32hex(h);
    let mut text = to_ascii_lower(upper.as_str());
    text.append(".");
    proof {
        reveal_strlit(".");
        if h@.len() == 20 {
            assert forall|i: int| 0 <= i < 32 implies is_base32hex_lower(#[trigger] text@[i]) by {
                assert(text@[i] == lower_char(upper@[i]));
                assert(is_base32hex_upper(upper@[i]));
            }
        }
    }
    text
}

/// With no iterations, the hash is a single digest pass over the canonical
/// name followed by the salt.
pub proof fn lemma_no_iterations(wire: Seq<u8>, salt: Seq<u8>)
    ensures
        nsec3_hash_of(wire, salt, 0) == sha1_of(canonical_wire(wire) + salt),
{
}

/// With `k` iterations, the hash is the additional pass applied `k` times to
/// the single-pass digest; each further iteration applies it once more.
pub proof fn lemma_iterations(wire: Seq<u8>, salt: Seq<u8>, k: nat)
    ensures
        nsec3_hash_of(wire, salt, k) == passes(nsec3_hash_of(wire, salt, 0), salt, k),
        nsec3_hash_of(wire, salt, k + 1) == next_pass(nsec3_hash_of(wire, salt, k), salt),
{
    assert(passes(first_pass(wire, salt), salt, (k + 1) as nat) == next_pass(
        passes(first_pass(wire, salt), salt, k),
        salt,
    ));
}

} // verus!
