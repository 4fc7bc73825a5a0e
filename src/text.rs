//! Text helpers from std: decimal numbers, quoting, lower case and the file
//! name of a path.
use vstd::prelude::*;

verus! {

/// The value of a sequence of decimal digits.
pub open spec fn digits_value(s: Seq<char>) -> nat
    decreases s.len(),
{
    if s.len() == 0 {
        0
    } else {
        digits_value(s.drop_last()) * 10 + ((s.last() as nat) - ('0' as nat)) as nat
    }
}

/// Every character is a decimal digit.
pub open spec fn all_digits(s: Seq<char>) -> bool {
    forall|i: int| 0 <= i < s.len() ==> '0' <= #[trigger] s[i] <= '9'
}

/// The digits of a decimal number, after an optional leading plus sign.
pub open spec fn decimal_digits(s: Seq<char>) -> Seq<char> {
    if s.len() > 0 && s[0] == '+' {
        s.drop_first()
    } else {
        s
    }
}

/// The unsigned number that a text writes in decimal, if any: an optional
/// plus sign, then one or more digits.
pub open spec fn decimal_of(s: Seq<char>) -> Option<nat> {
    let d = decimal_digits(s);
    if d.len() > 0 && all_digits(d) {
        Some(digits_value(d))
    } else {
        None
    }
}

/// The message of the error that parsing a text as a `u16` gives.
pub uninterp spec fn u16_error_text(s: Seq<char>) -> Seq<char>;

/// How Rust's `Debug` writes a text: quoted, with escapes.
pub uninterp spec fn debug_text_of(s: Seq<char>) -> Seq<char>;

/// A text in lower case, as Unicode defines it.
pub uninterp spec fn lower_of(s: Seq<char>) -> Seq<char>;

/// The final component of a path, if it has one.
pub uninterp spec fn file_name_of(path: Seq<char>) -> Option<Seq<char>>;

/// A value, or 256 where it is larger.
pub open spec fn capped(v: nat) -> nat {
    if v < 256 {
        v
    } else {
        256
    }
}

/// Reads a decimal text, an optional `+` and one or more digits: its value,
/// capped at 256, or `None` where the text is no such number.
pub fn read_decimal_capped(s: &str) -> (r: Option<u16>)
    ensures
        r is Some <==> decimal_of(s@) is Some,
        r is Some ==> r->0 as nat == capped(decimal_of(s@)->0),
{
    let len = s.unicode_len();
    let start: usize = if len > 0 && s.get_char(0) == '+' {
        1
    } else {
        0
    };
    proof {
        assert(decimal_digits(s@) =~= s@.subrange(start as int, len as int));
    }
    if start >= len {
        return None;
    }
    let mut v: u16 = 0;
    let mut j: usize = start;
    while j < len
        invariant
            len == s@.len(),
            start <= j <= len,
            start < len,
            decimal_digits(s@) == s@.subrange(start as int, len as int),
            v as nat == capped(digits_value(s@.subrange(start as int, j as int))),
            all_digits(s@.subrange(start as int, j as int)),
        decreases len - j,
    {
        let c = s.get_char(j);
        let ghost before = s@.subrange(start as int, j as int);
        let ghost after = s@.subrange(start as int, j + 1);
        proof {
            assert(after.drop_last() =~= before);
            assert(after.last() == c);
        }
        if !('0' <= c && c <= '9') {
            proof {
                let d = decimal_digits(s@);
                assert(d =~= s@.subrange(start as int, len as int));
                assert(s@[j as int] == c);
                assert(d[j - start] == s@[j as int]);
                assert(!all_digits(d));
            }
            return None;
        }
        let digit = (c as u32 - '0' as u32) as u16;
        proof {
            assert(digits_value(after) == digits_value(before) * 10 + digit);
        }
        v = if v >= 256 || v * 10 + digit >= 256 {
            256
        } else {
            v * 10 + digit
        };
        proof {
            assert forall|k: int| 0 <= k < after.len() implies '0' <= #[trigger] after[k] <= '9' by {
                if k < before.len() {
                    assert(after[k] == before[k]);
                }
            }
        }
        j = j + 1;
    }
    Some(v)
}

/// Relies on u16's `FromStr`: an optional `+` and decimal digits, of a value
/// that fits; else the error's message.
#[verifier::external_body]
pub(crate) fn parse_u16(s: &str) -> (r: Result<u16, String>)
    ensures
        r is Ok <==> (decimal_of(s@) is Some && decimal_of(s@)->0 <= 65535),
        r is Ok ==> r->Ok_0 as nat == decimal_of(s@)->0,
        r is Err ==> r->Err_0@ == u16_error_text(s@),
{
    s.parse::<u16>().map_err(|e| e.to_string())
}

/// Relies on str's `Debug`: the text quoted, with escapes.
#[verifier::external_body]
pub(crate) fn debug_quoted(s: &str) -> (r: String)
    ensures
        r@ == debug_text_of(s@),
{
    format!("{s:?}")
}

/// Relies on str::to_lowercase.
#[verifier::external_body]
pub(crate) fn to_lower(s: &str) -> (r: String)
    ensures
        r@ == lower_of(s@),
{
    s.to_lowercase()
}

/// Relies on std::path::Path::file_name: the final component of the path;
/// a path of text has a file name of text.
#[verifier::external_body]
pub(crate) fn file_name(path: &str) -> (r: Option<String>)
    ensures
        r is Some <==> file_name_of(path@) is Some,
        r is Some ==> r->0@ == file_name_of(path@)->0,
{
    std::path::Path::new(path).file_name().and_then(|f| f.to_str()).map(|f| f.to_string())
}

} // verus!
