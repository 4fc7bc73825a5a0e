//! The `nsec3-hash` command: its arguments, their validation, and the
//! argument syntax of `ldns-nsec3-hash`.
use vstd::prelude::*;
use vstd::string::*;
use vstd::utf8::*;
use crate::error::Error;
use crate::hash::{
    hash_text, hash_text_of, is_base32hex_lower, nsec3_hash, nsec3_hash_of, Nsec3HashAlg, SHA1_CODE,
};
use crate::text::{decimal_of, lower_of, read_decimal_capped, to_lower, u16_error_text};

verus! {

/// A domain name, held in wire form.
#[derive(Clone, Debug)]
pub struct DomainName {
    pub wire: Vec<u8>,
}

/// The arguments of the `nsec3-hash` command.
#[derive(Clone, Debug)]
pub struct Nsec3Hash {
    /// The hashing algorithm to use.
    pub algorithm: Nsec3HashAlg,
    /// The number of additional hash iterations.
    pub iterations: u16,
    /// The salt.
    pub salt: Vec<u8>,
    /// The domain name to hash.
    pub name: DomainName,
}

/// The arguments of the `nsec3-hash` command, as plain values.
pub struct Nsec3HashView {
    pub algorithm: u8,
    pub iterations: u16,
    pub salt: Seq<u8>,
    pub name: Seq<u8>,
}

impl View for Nsec3Hash {
    type V = Nsec3HashView;

    open spec fn view(&self) -> Nsec3HashView {
        Nsec3HashView {
            algorithm: self.algorithm.code,
            iterations: self.iterations,
            salt: self.salt@,
            name: self.name.wire@,
        }
    }
}

/// The wire form of the name that a text writes, or the parser's message.
pub uninterp spec fn name_from_text(s: Seq<char>) -> Result<Seq<u8>, Seq<char>>;

/// The salt that a text writes in hex, or the parser's message.
pub uninterp spec fn salt_from_text(s: Seq<char>) -> Result<Seq<u8>, Seq<char>>;

/// The bytes of the mnemonic of SHA-1.
pub open spec fn sha1_mnemonic() -> Seq<u8> {
    seq![83u8, 72u8, 65u8, 45u8, 49u8]
}

/// The mnemonic of an algorithm number, where it has one.
pub open spec fn mnemonic_of(code: u8) -> Option<Seq<u8>> {
    if code == SHA1_CODE {
        Some(sha1_mnemonic())
    } else {
        None
    }
}

/// An ASCII letter, or any other byte, in upper case.
pub open spec fn upper_byte(b: u8) -> u8 {
    if 97 <= b <= 122 {
        (b - 32) as u8
    } else {
        b
    }
}

/// Two byte strings that are equal but for the case of ASCII letters.
pub open spec fn eq_ignore_ascii_case(a: Seq<u8>, b: Seq<u8>) -> bool {
    a.len() == b.len() && forall|i: int| 0 <= i < a.len() ==> upper_byte(#[trigger] a[i]) == upper_byte(b[i])
}

/// A hex digit of either case.
pub open spec fn is_hex_digit(c: char) -> bool {
    ('0' <= c <= '9') || ('a' <= c <= 'f') || ('A' <= c <= 'F')
}

/// The value of a hex digit.
pub open spec fn hex_value(c: char) -> nat {
    if '0' <= c <= '9' {
        ((c as nat) - ('0' as nat)) as nat
    } else if 'a' <= c <= 'f' {
        ((c as nat) - ('a' as nat) + 10) as nat
    } else {
        ((c as nat) - ('A' as nat) + 10) as nat
    }
}

/// Every character is a hex digit.
pub open spec fn all_hex(s: Seq<char>) -> bool {
    forall|i: int| 0 <= i < s.len() ==> is_hex_digit(#[trigger] s[i])
}

/// The bytes that pairs of hex digits write, the high half first.
pub open spec fn hex_decoded(s: Seq<char>) -> Seq<u8> {
    Seq::new((s.len() / 2) as nat, |i: int| (hex_value(s[2 * i]) * 16 + hex_value(s[2 * i + 1])) as u8)
}

/// What a salt text gives, where the outcome is fixed by the hex rules
/// alone: `-` is empty, hex digits in pairs decode, an odd count or a
/// character that is no hex digit is refused.
pub open spec fn salt_rules(s: Seq<char>, r: Result<Seq<u8>, Seq<char>>) -> bool {
    &&& s == seq!['-'] ==> r is Ok && r->Ok_0.len() == 0
    &&& all_hex(s) && s.len() % 2 == 0 ==> r is Ok && r->Ok_0 == hex_decoded(s)
    &&& all_hex(s) && s.len() % 2 == 1 ==> r is Err
    &&& s != seq!['-'] && !all_hex(s) ==> r is Err
}

/// Relies on domain's `FromStr` for `Name<Vec<u8>>`: the name's wire form,
/// or the message of the error.
#[verifier::external_body]
fn parse_wire_name(s: &str) -> (r: Result<Vec<u8>, String>)
    ensures
        r is Ok <==> name_from_text(s@) is Ok,
        r is Ok ==> r->Ok_0@ == name_from_text(s@)->Ok_0,
        r is Err ==> r->Err_0@ == name_from_text(s@)->Err_0,
{
    s.parse::<domain::base::name::Name<Vec<u8>>>().map(|n| n.into_octets()).map_err(|e| e.to_string())
}

/// Relies on domain's `FromStr` for `Nsec3Salt<Vec<u8>>`: `-` is the empty
/// salt; any other text is decoded by `base16::decode`, two hex digits of
/// either case to a byte, high half first; a character that is no hex digit,
/// or a digit left over at the end, is refused.
#[verifier::external_body]
fn parse_salt_text(s: &str) -> (r: Result<Vec<u8>, String>)
    ensures
        r is Ok <==> salt_from_text(s@) is Ok,
        r is Ok ==> r->Ok_0@ == salt_from_text(s@)->Ok_0,
        r is Err ==> r->Err_0@ == salt_from_text(s@)->Err_0,
        salt_rules(
            s@,
            match r {
                Ok(v) => Ok(v@),
                Err(m) => Err(m@),
            },
        ),
{
    s.parse::<domain::rdata::nsec3::Nsec3Salt<Vec<u8>>>().map(|v| v.into_octets()).map_err(
        |e| e.to_string(),
    )
}

/// Relies on domain's Nsec3HashAlg::from_mnemonic, which compares without
/// regard to ASCII case: the number of the algorithm that the mnemonic names.
#[verifier::external_body]
fn alg_from_mnemonic(m: &[u8]) -> (r: Option<u8>)
    ensures
        r == (if eq_ignore_ascii_case(m@, sha1_mnemonic()) {
            Some(SHA1_CODE)
        } else {
            None::<u8>
        }),
{
    domain::base::iana::nsec3::Nsec3HashAlg::from_mnemonic(m).map(|a| a.to_int())
}

/// Relies on domain's Nsec3HashAlg::to_mnemonic: the mnemonic of a known
/// algorithm number.
#[verifier::external_body]
fn alg_mnemonic(code: u8) -> (r: Option<Vec<u8>>)
    ensures
        r is Some <==> mnemonic_of(code) is Some,
        r is Some ==> r->0@ == mnemonic_of(code)->0,
{
    domain::base::iana::nsec3::Nsec3HashAlg::from_int(code).to_mnemonic().map(|m| m.to_vec())
}

/// What a text gives as an algorithm: a number with a mnemonic, or the exact
/// mnemonic of one; else the reason it is refused.
pub open spec fn alg_of_text(s: Seq<char>) -> Result<u8, Seq<char>> {
    match decimal_of(s) {
        Some(v) => if v <= 255 && mnemonic_of(v as u8) is Some {
            Ok(v as u8)
        } else {
            Err("unknown algorithm number"@)
        },
        None => if encode_utf8(s) == sha1_mnemonic() {
            Ok(SHA1_CODE)
        } else {
            Err("unknown algorithm mnemonic"@)
        },
    }
}

/// What a text gives as a domain name: it is lowered, then parsed.
pub open spec fn name_of_text(s: Seq<char>) -> Result<Seq<u8>, Seq<char>> {
    name_from_text(lower_of(s))
}

/// What a text gives as a count of iterations.
pub open spec fn iterations_of_text(s: Seq<char>) -> Result<u16, Seq<char>> {
    match decimal_of(s) {
        Some(v) if v <= 65535 => Ok(v as u16),
        _ => Err(u16_error_text(s)),
    }
}

/// The output of the command: the hash's text and a newline.
pub open spec fn nsec3_output(a: Nsec3HashView) -> Seq<char> {
    hash_text_of(nsec3_hash_of(a.name, a.salt, a.iterations as nat)) + "\n"@
}

/// Two byte strings are equal.
fn bytes_equal(a: &[u8], b: &[u8]) -> (r: bool)
    ensures
        r == (a@ == b@),
{
    if a.len() != b.len() {
        return false;
    }
    let mut i: usize = 0;
    while i < a.len()
        invariant
            a@.len() == b@.len(),
            0 <= i <= a@.len(),
            forall|j: int| 0 <= j < i ==> a@[j] == b@[j],
        decreases a@.len() - i,
    {
        if a[i] != b[i] {
            return false;
        }
        i = i + 1;
    }
    proof {
        assert(a@ =~= b@);
    }
    true
}

impl Nsec3Hash {
    /// Parses a domain name: the text is lowered, then validated.
    pub fn parse_name(arg: &str) -> (r: Result<DomainName, String>)
        ensures
            r is Ok <==> name_of_text(arg@) is Ok,
            r is Ok ==> r->Ok_0.wire@ == name_of_text(arg@)->Ok_0,
            r is Err ==> r->Err_0@ == name_of_text(arg@)->Err_0,
    {
        let lower = to_lower(arg);
        match parse_wire_name(lower.as_str()) {
            Ok(wire) => Ok(DomainName { wire }),
            Err(e) => Err(e),
        }
    }

    /// Parses an algorithm, given by number or by its mnemonic.
    pub fn parse_nsec_alg(arg: &str) -> (r: Result<Nsec3HashAlg, &'static str>)
        ensures
            r is Ok <==> alg_of_text(arg@) is Ok,
            r is Ok ==> r->Ok_0.code == alg_of_text(arg@)->Ok_0,
            r is Err ==> r->Err_0@ == alg_of_text(arg@)->Err_0,
            r is Ok ==> r->Ok_0.code == SHA1_CODE,
    {
        match read_decimal_capped(arg) {
            Some(num) => {
                if num <= 255 && alg_mnemonic(num as u8).is_some() {
                    Ok(Nsec3HashAlg { code: num as u8 })
                } else {
                    Err("unknown algorithm number")
                }
            },
            None => {
                let bytes = arg.as_bytes();
                match alg_from_mnemonic(bytes) {
                    Some(code) => {
                        // The mnemonic is matched with its case.
                        match alg_mnemonic(code) {
                            Some(m) => {
                                if bytes_equal(bytes, m.as_slice()) {
                                    Ok(Nsec3HashAlg { code })
                                } else {
                                    Err("unknown algorithm mnemonic")
                                }
                            },
                            None => Err("unknown algorithm mnemonic"),
                        }
                    },
                    None => {
                        proof {
                            assert(encode_utf8(arg@) != sha1_mnemonic());
                        }
                        Err("unknown algorithm mnemonic")
                    },
                }
            },
        }
    }

    /// Parses a salt written in hex, or `-` for none.
    pub fn parse_salt(arg: &str) -> (r: Result<Vec<u8>, String>)
        ensures
            salt_rules(
                arg@,
                match r {
                    Ok(v) => Ok(v@),
                    Err(m) => Err(m@),
                },
            ),
            r is Ok <==> salt_from_text(arg@) is Ok,
            r is Ok ==> r->Ok_0@ == salt_from_text(arg@)->Ok_0,
            r is Err ==> r->Err_0@ == salt_from_text(arg@)->Err_0,
    {
        parse_salt_text(arg)
    }

    /// The arguments, with the one algorithm that hashing supports.
    pub fn new(algorithm: Nsec3HashAlg, iterations: u16, salt: Vec<u8>, name: DomainName) -> (r: Self)
        requires
            algorithm.code == SHA1_CODE,
        ensures
            r@ == (Nsec3HashView {
                algorithm: algorithm.code,
                iterations,
                salt: salt@,
                name: name.wire@,
            }),
    {
        Nsec3Hash { algorithm, iterations, salt, name }
    }

    /// The algorithm is one that hashing supports.
    pub fn is_supported(&self) -> (r: bool)
        ensures
            r == (self.algorithm.code == SHA1_CODE),
    {
        self.algorithm.code == SHA1_CODE
    }

    /// Runs the command: the text to print, the hash and a newline.
    pub fn execute(self) -> (r: Result<String, Error>)
        requires
            self.algorithm.code == SHA1_CODE,
        ensures
            r is Ok,
            r->Ok_0@ == nsec3_output(self@),
            r->Ok_0@.len() == 34,
            forall|i: int| 0 <= i < 32 ==> is_base32hex_lower(#[trigger] r->Ok_0@[i]),
            r->Ok_0@[32] == '.',
            r->Ok_0@[33] == '\n',
    {
        let h = nsec3_hash(self.name.wire.as_slice(), self.algorithm, self.iterations, self.salt.as_slice());
        let mut out = hash_text(h.as_slice());
        let ghost text = out@;
        out.append("\n");
        proof {
            reveal_strlit("\n");
            assert(out@[32] == text[32]);
            assert forall|i: int| 0 <= i < 32 implies is_base32hex_lower(#[trigger] out@[i]) by {
                assert(out@[i] == text[i]);
            }
        }
        Ok(out)
    }
}

} // verus!
