//! A multi-tool for DNS tasks, with the NSEC3 hash of a domain name, and a
//! compatibility mode that reads the argument syntax of the ldns tools.
pub mod args;
pub mod commands;
pub mod error;
pub mod hash;
pub mod laws;
pub mod text;

pub use self::args::Args;

use vstd::prelude::*;
use vstd::string::*;
use crate::commands::{arg_text, args_view, ArgView, RawArg};
use crate::commands::ldns::{ldns_error_message, legacy_outcome, plain_error};
use crate::commands::nsec3hash::{Nsec3Hash, Nsec3HashView};
use crate::error::{Error, ErrorView};
use crate::text::{file_name, file_name_of};

verus! {

/// The binary name under which the tool reads the syntax of
/// `ldns-nsec3-hash`.
pub open spec fn is_ldns_nsec3_hash(name: Seq<char>) -> bool {
    name == "ldns-nsec3-hash"@
}

/// What a compatibility parse gives: nothing for a name of no legacy tool,
/// else the legacy tool's outcome, with its help text on an error.
pub open spec fn compat_outcome(name: Seq<char>, rest: Seq<ArgView>) -> Option<
    Result<Nsec3HashView, ErrorView>,
> {
    if is_ldns_nsec3_hash(name) {
        Some(
            match legacy_outcome(rest) {
                Ok(v) => Ok(v),
                Err(m) => Err(plain_error(ldns_error_message(m))),
            },
        )
    } else {
        None
    }
}

/// A compatibility parse as it came out agrees with the outcome it owes.
pub open spec fn compat_agrees(r: Result<Option<Args>, Error>, o: Option<Result<Nsec3HashView, ErrorView>>) -> bool {
    match o {
        None => r == Ok::<Option<Args>, Error>(None),
        Some(Ok(v)) => r is Ok && r->Ok_0 is Some && r->Ok_0->0.command is Nsec3Hash
            && r->Ok_0->0.command->Nsec3Hash_0@ == v && r->Ok_0->0.command.wf(),
        Some(Err(e)) => r is Err && r->Err_0@ == e,
    }
}

/// The outcome owed for a whole invocation, binary path first.
pub open spec fn invocation_outcome(args: Seq<ArgView>) -> Option<Result<Nsec3HashView, ErrorView>> {
    if args.len() == 0 {
        Some(Err(plain_error("Missing binary name"@)))
    } else {
        match file_name_of(arg_text(args[0])) {
            None => Some(Err(plain_error("Missing binary file name"@))),
            Some(n) => if args[0] is NotUnicode && n.contains('\u{FFFD}') {
                Some(Err(plain_error("Binary file name is not valid unicode"@)))
            } else {
                compat_outcome(n, args.drop_first())
            },
        }
    }
}

/// Parses the arguments after the binary's name by the syntax of the legacy
/// tool that `binary_name` names; `None` where it names none.
pub fn ldns_compatibility_for(binary_name: &str, rest: &Vec<RawArg>) -> (r: Result<Option<Args>, Error>)
    ensures
        compat_agrees(r, compat_outcome(binary_name@, args_view(rest@))),
{
    let name = String::from_str(binary_name);
    if name == String::from_str("ldns-nsec3-hash") {
        match Nsec3Hash::parse_ldns_args(rest) {
            Ok(a) => Ok(Some(a)),
            Err(e) => Err(e),
        }
    } else {
        Ok(None)
    }
}

/// Whether a text holds U+FFFD, which stands for what was not text.
fn has_replacement(s: &str) -> (r: bool)
    ensures
        r == s@.contains('\u{FFFD}'),
{
    let len = s.unicode_len();
    let mut i: usize = 0;
    while i < len
        invariant
            len == s@.len(),
            0 <= i <= len,
            forall|j: int| 0 <= j < i ==> s@[j] != '\u{FFFD}',
        decreases len - i,
    {
        if s.get_char(i) == '\u{FFFD}' {
            return true;
        }
        i = i + 1;
    }
    false
}

/// Reads the invocation, binary path first, in the syntax of a legacy tool
/// where the binary's file name is that of one; `None` where it is not, and
/// the native syntax applies. Only the path's file name needs to be text;
/// where the path is not text, its lossy form is read, and a file name that
/// holds U+FFFD there is taken as not text.
pub fn try_ldns_compatibility(args: Vec<RawArg>) -> (r: Result<Option<Args>, Error>)
    ensures
        compat_agrees(r, invocation_outcome(args_view(args@))),
{
    if args.len() == 0 {
        return Err(Error::new("Missing binary name"));
    }
    let mut rest = args;
    let binary_path = rest.remove(0);
    proof {
        assert(args_view(rest@) =~= args_view(args@).drop_first());
    }
    let (path, checked) = match &binary_path {
        RawArg::Text(p) => (p.as_str(), false),
        RawArg::NotUnicode { lossy, .. } => (lossy.as_str(), true),
    };
    match file_name(path) {
        None => Err(Error::new("Missing binary file name")),
        Some(n) => {
            if checked && has_replacement(n.as_str()) {
                Err(Error::new("Binary file name is not valid unicode"))
            } else {
                ldns_compatibility_for(n.as_str(), &rest)
            }
        },
    }
}

} // verus!
