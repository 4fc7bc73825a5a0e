//! The argument syntax of `ldns-nsec3-hash`: short options that each take
//! one value, and the domain name. Only the first domain name counts; the
//! tool it follows ignores the others. An argument that is not text is
//! taken as a value wherever it stands.
use vstd::prelude::*;
use vstd::string::*;
use crate::error::{Error, ErrorView};
use crate::hash::{Nsec3HashAlg, SHA1_CODE};
use crate::args::Args;
use super::{
    arg_text, args_view, Command, invalid_value_error, invalid_value_message, not_unicode_error, not_unicode_message,
    ArgView, RawArg,
};
use super::nsec3hash::{
    alg_of_text, iterations_of_text, name_of_text, salt_from_text, DomainName, Nsec3Hash,
    Nsec3HashView,
};

verus! {

/// What the parser has gathered so far.
pub struct LegacyAcc {
    pub algorithm: u8,
    pub iterations: u16,
    pub salt: Seq<u8>,
    pub name: Option<Seq<u8>>,
}

/// The defaults: SHA-1, one iteration, no salt, no name yet.
pub open spec fn legacy_start() -> LegacyAcc {
    LegacyAcc { algorithm: SHA1_CODE, iterations: 1, salt: Seq::empty(), name: None }
}

/// How an option is called in messages.
pub open spec fn option_label(c: char) -> Seq<char> {
    if c == 'a' {
        "algorithm (-a)"@
    } else if c == 's' {
        "salt (-s)"@
    } else {
        "iterations (-t)"@
    }
}

/// The option `-c` with the value `val`.
pub open spec fn apply_option(acc: LegacyAcc, c: char, val: ArgView) -> Result<LegacyAcc, Seq<char>> {
    match val {
        ArgView::NotUnicode(_, shown) => Err(not_unicode_message(option_label(c), shown)),
        ArgView::Text(t) => if c == 'a' {
            match alg_of_text(t) {
                Ok(v) => Ok(LegacyAcc { algorithm: v, ..acc }),
                Err(e) => Err(invalid_value_message(option_label(c), t, e)),
            }
        } else if c == 's' {
            match salt_from_text(t) {
                Ok(v) => Ok(LegacyAcc { salt: v, ..acc }),
                Err(e) => Err(invalid_value_message(option_label(c), t, e)),
            }
        } else {
            match iterations_of_text(t) {
                Ok(v) => Ok(LegacyAcc { iterations: v, ..acc }),
                Err(e) => Err(invalid_value_message(option_label(c), t, e)),
            }
        },
    }
}

/// A positional argument: the domain name if none came before, else
/// ignored.
pub open spec fn take_positional(acc: LegacyAcc, val: ArgView) -> Result<LegacyAcc, Seq<char>> {
    if acc.name is Some {
        Ok(acc)
    } else {
        match val {
            ArgView::NotUnicode(_, shown) => Err(not_unicode_message("domain name"@, shown)),
            ArgView::Text(t) => match name_of_text(t) {
                Ok(n) => Ok(LegacyAcc { name: Some(n), ..acc }),
                Err(e) => Err(invalid_value_message("domain name"@, t, e)),
            },
        }
    }
}

/// The end of the arguments.
pub open spec fn legacy_finish(acc: LegacyAcc) -> Result<Nsec3HashView, Seq<char>> {
    match acc.name {
        Some(n) => Ok(
            Nsec3HashView {
                algorithm: acc.algorithm,
                iterations: acc.iterations,
                salt: acc.salt,
                name: n,
            },
        ),
        None => Err("Missing domain name argument"@),
    }
}

/// The arguments after `--`: all of them positional.
pub open spec fn legacy_values(args: Seq<ArgView>, acc: LegacyAcc) -> Result<Nsec3HashView, Seq<char>>
    decreases args.len(),
{
    if args.len() == 0 {
        legacy_finish(acc)
    } else {
        match take_positional(acc, args[0]) {
            Ok(a) => legacy_values(args.drop_first(), a),
            Err(e) => Err(e),
        }
    }
}

/// `--`, which ends the options.
pub open spec fn is_end_of_options(t: Seq<char>) -> bool {
    t.len() == 2 && t[0] == '-' && t[1] == '-'
}

/// A long option, such as `--salt` or `--salt=ab`.
pub open spec fn is_long_option(t: Seq<char>) -> bool {
    t.len() > 2 && t[0] == '-' && t[1] == '-'
}

/// A short option, such as `-s`, or `-sab` with its value attached.
pub open spec fn is_short_option(t: Seq<char>) -> bool {
    t.len() >= 2 && t[0] == '-' && t[1] != '-'
}

/// The index of the first `=` at or after `k`, or the length.
pub open spec fn equals_index(t: Seq<char>, k: int) -> int
    decreases t.len() - k,
{
    if k >= t.len() {
        t.len() as int
    } else if t[k] == '=' {
        k
    } else {
        equals_index(t, k + 1)
    }
}

/// The message for a long option.
pub open spec fn long_message(t: Seq<char>) -> Seq<char> {
    "Long options are not supported, but `--"@ + t.subrange(2, equals_index(t, 2)) + "` given"@
}

/// The value attached to a short option: what follows the letter, less one
/// `=` in front.
pub open spec fn attached_value(t: Seq<char>) -> Seq<char> {
    if t[2] == '=' {
        t.subrange(3, t.len() as int)
    } else {
        t.subrange(2, t.len() as int)
    }
}

/// How many characters the option and its `=` take before an attached value.
pub open spec fn attached_start(t: Seq<char>) -> int {
    if t[2] == '=' {
        3
    } else {
        2
    }
}

/// What `Debug` shows for the part of an argument after its first `n`
/// characters, given what it shows for the whole: the opening quote, then
/// all after those characters, which the option's ASCII letters leave
/// unescaped.
pub open spec fn shown_after(shown: Seq<char>, n: int) -> Seq<char> {
    if shown.len() > n + 1 {
        seq!['"'] + shown.subrange(n + 1, shown.len() as int)
    } else {
        shown
    }
}

/// The value attached to a short option, as an argument of its own.
pub open spec fn attached_arg(a: ArgView) -> ArgView {
    match a {
        ArgView::Text(t) => ArgView::Text(attached_value(t)),
        ArgView::NotUnicode(l, shown) => ArgView::NotUnicode(
            attached_value(l),
            shown_after(shown, attached_start(l)),
        ),
    }
}

/// The message for a short option that the tool does not know.
pub open spec fn invalid_short_message(c: char) -> Seq<char> {
    "Invalid short option: -"@ + seq![c]
}

/// The message for an option at the end with no value.
pub open spec fn missing_value_message(c: char) -> Seq<char> {
    "missing argument for option '-"@ + seq![c] + "'"@
}

/// The options that take a value.
pub open spec fn is_known_short(c: char) -> bool {
    c == 'a' || c == 's' || c == 't'
}

/// What the arguments of `ldns-nsec3-hash` give, from the state `acc`: the
/// command's arguments, or the message of the first error.
pub open spec fn legacy_parse(args: Seq<ArgView>, acc: LegacyAcc) -> Result<Nsec3HashView, Seq<char>>
    decreases args.len(),
{
    if args.len() == 0 {
        legacy_finish(acc)
    } else {
        let rest = args.drop_first();
        let t = arg_text(args[0]);
        if is_end_of_options(t) {
            legacy_values(rest, acc)
        } else if is_long_option(t) {
            Err(long_message(t))
        } else if is_short_option(t) {
            let c = t[1];
            if !is_known_short(c) {
                Err(invalid_short_message(c))
            } else if t.len() > 2 {
                match apply_option(acc, c, attached_arg(args[0])) {
                    Ok(a) => legacy_parse(rest, a),
                    Err(e) => Err(e),
                }
            } else if rest.len() > 0 {
                match apply_option(acc, c, rest[0]) {
                    Ok(a) => legacy_parse(rest.drop_first(), a),
                    Err(e) => Err(e),
                }
            } else {
                Err(missing_value_message(c))
            }
        } else {
            match take_positional(acc, args[0]) {
                Ok(a) => legacy_parse(rest, a),
                Err(e) => Err(e),
            }
        }
    }
}

/// A plain error with a message and no context.
pub open spec fn plain_error(m: Seq<char>) -> ErrorView {
    ErrorView { usage: false, message: m, context: Seq::empty() }
}

/// What the parser has gathered so far.
pub struct LegacyState {
    pub algorithm: Nsec3HashAlg,
    pub iterations: u16,
    pub salt: Vec<u8>,
    pub name: Option<DomainName>,
}

impl View for LegacyState {
    type V = LegacyAcc;

    open spec fn view(&self) -> LegacyAcc {
        LegacyAcc {
            algorithm: self.algorithm.code,
            iterations: self.iterations,
            salt: self.salt@,
            name: match self.name {
                Some(n) => Some(n.wire@),
                None => None,
            },
        }
    }
}

/// An executed step agrees with the step that the grammar prescribes.
pub open spec fn step_agrees(r: Result<LegacyState, Error>, s: Result<LegacyAcc, Seq<char>>) -> bool {
    match (r, s) {
        (Ok(a), Ok(b)) => a@ == b && a.algorithm.code == SHA1_CODE,
        (Err(e), Err(m)) => e@ == plain_error(m),
        _ => false,
    }
}

/// The option `-c` with the text `t` as its value.
fn apply_text_option(st: LegacyState, c: char, t: &str) -> (r: Result<LegacyState, Error>)
    requires
        is_known_short(c),
        st.algorithm.code == SHA1_CODE,
    ensures
        step_agrees(r, apply_option(st@, c, ArgView::Text(t@))),
{
    if c == 'a' {
        match Nsec3Hash::parse_nsec_alg(t) {
            Ok(v) => Ok(LegacyState { algorithm: v, ..st }),
            Err(e) => Err(invalid_value_error("algorithm (-a)", t, e)),
        }
    } else if c == 's' {
        match Nsec3Hash::parse_salt(t) {
            Ok(v) => Ok(LegacyState { salt: v, ..st }),
            Err(e) => Err(invalid_value_error("salt (-s)", t, e.as_str())),
        }
    } else {
        match crate::text::parse_u16(t) {
            Ok(v) => Ok(LegacyState { iterations: v, ..st }),
            Err(e) => Err(invalid_value_error("iterations (-t)", t, e.as_str())),
        }
    }
}

/// How the option `-c` is called in messages.
fn option_label_text(c: char) -> (r: &'static str)
    ensures
        r@ == option_label(c),
{
    if c == 'a' {
        "algorithm (-a)"
    } else if c == 's' {
        "salt (-s)"
    } else {
        "iterations (-t)"
    }
}

/// The option `-c` with the argument `val` as its value.
fn apply_arg_option(st: LegacyState, c: char, val: &RawArg) -> (r: Result<LegacyState, Error>)
    requires
        is_known_short(c),
        st.algorithm.code == SHA1_CODE,
    ensures
        step_agrees(r, apply_option(st@, c, val@)),
{
    match val {
        RawArg::Text(t) => apply_text_option(st, c, t.as_str()),
        RawArg::NotUnicode { shown, .. } => Err(not_unicode_error(option_label_text(c), shown.as_str())),
    }
}

/// A positional argument.
fn take_positional_arg(st: LegacyState, val: &RawArg) -> (r: Result<LegacyState, Error>)
    requires
        st.algorithm.code == SHA1_CODE,
    ensures
        step_agrees(r, take_positional(st@, val@)),
{
    if st.name.is_some() {
        return Ok(st);
    }
    match val {
        RawArg::NotUnicode { shown, .. } => Err(not_unicode_error("domain name", shown.as_str())),
        RawArg::Text(t) => match Nsec3Hash::parse_name(t.as_str()) {
            Ok(n) => Ok(LegacyState { name: Some(n), ..st }),
            Err(e) => Err(invalid_value_error("domain name", t.as_str(), e.as_str())),
        },
    }
}

/// What `Debug` shows for the part of an argument after its first `n`
/// characters, given what it shows for the whole.
fn show_after(shown: &str, n: usize) -> (r: String)
    requires
        n <= 3,
    ensures
        r@ == shown_after(shown@, n as int),
{
    let len = shown.unicode_len();
    if len > n + 1 {
        let mut r = String::from_str("\"");
        r.append(shown.substring_char(n + 1, len));
        proof {
            reveal_strlit("\"");
        }
        r
    } else {
        String::from_str(shown)
    }
}

/// The message for a long option, from its text.
fn long_option_error(t: &str) -> (r: Error)
    requires
        is_long_option(t@),
    ensures
        r@ == plain_error(long_message(t@)),
{
    let len = t.unicode_len();
    let mut j: usize = 2;
    while j < len && t.get_char(j) != '='
        invariant
            len == t@.len(),
            2 <= j <= len,
            equals_index(t@, 2) == equals_index(t@, j as int),
        decreases len - j,
    {
        j = j + 1;
    }
    let name = t.substring_char(2, j);
    let mut m = String::from_str("Long options are not supported, but `--");
    m.append(name);
    m.append("` given");
    Error::new(m.as_str())
}

/// The message for an unknown short option `-c`, where `t` starts with it.
fn invalid_short_error(t: &str) -> (r: Error)
    requires
        t@.len() >= 2,
    ensures
        r@ == plain_error(invalid_short_message(t@[1])),
{
    let letter = t.substring_char(1, 2);
    let mut m = String::from_str("Invalid short option: -");
    m.append(letter);
    proof {
        assert(letter@ =~= seq![t@[1]]);
    }
    Error::new(m.as_str())
}

/// The message for the option `-c`, where `t` is it, with no value.
fn missing_value_error(t: &str) -> (r: Error)
    requires
        t@.len() == 2,
    ensures
        r@ == plain_error(missing_value_message(t@[1])),
{
    let letter = t.substring_char(1, 2);
    let mut m = String::from_str("missing argument for option '-");
    m.append(letter);
    m.append("'");
    proof {
        assert(letter@ =~= seq![t@[1]]);
    }
    Error::new(m.as_str())
}

/// The help text of `ldns-nsec3-hash`.
pub const LDNS_HELP: &'static str = "ldns-nsec3-hash [OPTIONS] <domain name>
  prints the NSEC3 hash of the given domain name

  -a <algorithm> hashing algorithm number
  -t <number>    iterations
  -s <string>    salt in hex";

/// What the arguments of `ldns-nsec3-hash` give, from the defaults.
pub open spec fn legacy_outcome(args: Seq<ArgView>) -> Result<Nsec3HashView, Seq<char>> {
    legacy_parse(args, legacy_start())
}

/// The message of a failed parse: the first error, then the help text.
pub open spec fn ldns_error_message(m: Seq<char>) -> Seq<char> {
    "Error: "@ + m + "\n\n"@ + LDNS_HELP@
}

impl Nsec3Hash {
    /// Parses the arguments of `ldns-nsec3-hash`, after the binary's name.
    pub fn parse_ldns(args: &Vec<RawArg>) -> (r: Result<Nsec3Hash, Error>)
        ensures
            r is Ok <==> legacy_outcome(args_view(args@)) is Ok,
            r is Ok ==> r->Ok_0@ == legacy_outcome(args_view(args@))->Ok_0 && r->Ok_0.algorithm.code
                == SHA1_CODE,
            r is Err ==> r->Err_0@ == plain_error(legacy_outcome(args_view(args@))->Err_0),
    {
        let ghost view = args_view(args@);
        let mut st = LegacyState {
            algorithm: Nsec3HashAlg::sha1(),
            iterations: 1,
            salt: Vec::new(),
            name: None,
        };
        proof {
            assert(st@.salt =~= Seq::<u8>::empty());
            assert(view.skip(0) =~= view);
        }
        let mut finished = false;
        let mut i: usize = 0;
        while i < args.len()
            invariant
                0 <= i <= args@.len(),
                view == args_view(args@),
                st.algorithm.code == SHA1_CODE,
                legacy_outcome(view) == (if finished {
                    legacy_values(view.skip(i as int), st@)
                } else {
                    legacy_parse(view.skip(i as int), st@)
                }),
            decreases args@.len() - i,
        {
            let ghost cur = view.skip(i as int);
            proof {
                assert(cur[0] == args@[i as int]@);
                assert(cur.drop_first() =~= view.skip(i + 1));
            }
            let arg = &args[i];
            let mut positional = finished;
            if !finished {
                let ts = match arg {
                    RawArg::Text(t) => t.as_str(),
                    RawArg::NotUnicode { lossy, .. } => lossy.as_str(),
                };
                let len = ts.unicode_len();
                if len >= 2 && ts.get_char(0) == '-' {
                    let c = ts.get_char(1);
                    if c == '-' {
                        if len == 2 {
                            finished = true;
                            i = i + 1;
                            continue;
                        }
                        return Err(long_option_error(ts));
                    }
                    if !(c == 'a' || c == 's' || c == 't') {
                        return Err(invalid_short_error(ts));
                    }
                    if len > 2 {
                        let start: usize = if ts.get_char(2) == '=' {
                            3
                        } else {
                            2
                        };
                        let v = ts.substring_char(start, len);
                        let r = match arg {
                            RawArg::Text(_) => apply_text_option(st, c, v),
                            RawArg::NotUnicode { shown, .. } => {
                                let rest = show_after(shown.as_str(), start);
                                Err(not_unicode_error(option_label_text(c), rest.as_str()))
                            },
                        };
                        match r {
                            Ok(next) => st = next,
                            Err(e) => return Err(e),
                        }
                        i = i + 1;
                    } else if i + 1 < args.len() {
                        proof {
                            assert(cur.drop_first()[0] == args@[i + 1]@);
                            assert(cur.drop_first().drop_first() =~= view.skip(i + 2));
                        }
                        match apply_arg_option(st, c, &args[i + 1]) {
                            Ok(next) => st = next,
                            Err(e) => return Err(e),
                        }
                        i = i + 2;
                    } else {
                        return Err(missing_value_error(ts));
                    }
                } else {
                    positional = true;
                }
            }
            if positional {
                match take_positional_arg(st, arg) {
                    Ok(next) => st = next,
                    Err(e) => return Err(e),
                }
                i = i + 1;
            }
        }
        proof {
            assert(view.skip(i as int) =~= Seq::<ArgView>::empty());
        }
        match st.name {
            Some(name) => Ok(
                Nsec3Hash {
                    algorithm: st.algorithm,
                    iterations: st.iterations,
                    salt: st.salt,
                    name,
                },
            ),
            None => Err(Error::new("Missing domain name argument")),
        }
    }

    /// Parses the arguments of `ldns-nsec3-hash` into a command line; an
    /// error carries the help text.
    pub fn parse_ldns_args(args: &Vec<RawArg>) -> (r: Result<Args, Error>)
        ensures
            r is Ok <==> legacy_outcome(args_view(args@)) is Ok,
            r is Ok ==> r->Ok_0.command is Nsec3Hash && r->Ok_0.command->Nsec3Hash_0@
                == legacy_outcome(args_view(args@))->Ok_0 && r->Ok_0.command.wf(),
            r is Err ==> r->Err_0@ == plain_error(
                ldns_error_message(legacy_outcome(args_view(args@))->Err_0),
            ),
    {
        match Nsec3Hash::parse_ldns(args) {
            Ok(c) => Ok(Args { command: Command::Nsec3Hash(c) }),
            Err(e) => {
                let mut m = String::from_str("Error: ");
                m.append(e.message());
                m.append("\n\n");
                m.append(LDNS_HELP);
                Err(Error::new(m.as_str()))
            },
        }
    }
}

} // verus!
