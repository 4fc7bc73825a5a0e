//! The commands of the tool, and what their argument parsers share.
pub mod help;
pub mod ldns;
pub mod nsec3hash;

use vstd::prelude::*;
use vstd::string::*;
use crate::error::Error;
use crate::text::{debug_quoted, debug_text_of};
use self::help::Help;
use self::nsec3hash::{Nsec3Hash, nsec3_output};
use crate::hash::SHA1_CODE;

verus! {

/// A command line argument as the process received it.
#[derive(Clone, Debug)]
pub enum RawArg {
    /// An argument that is valid text.
    Text(String),
    /// An argument that is not valid text: `lossy` is it with each invalid
    /// sequence replaced by U+FFFD, `shown` is what Rust's `Debug` shows for
    /// it.
    NotUnicode { lossy: String, shown: String },
}

/// A command line argument as plain values.
pub enum ArgView {
    Text(Seq<char>),
    /// The lossy text, and what `Debug` shows.
    NotUnicode(Seq<char>, Seq<char>),
}

/// The text by which an argument is classified: the argument itself, or its
/// lossy text. Option markers are ASCII, which the lossy text keeps.
pub open spec fn arg_text(a: ArgView) -> Seq<char> {
    match a {
        ArgView::Text(t) => t,
        ArgView::NotUnicode(l, _) => l,
    }
}

impl View for RawArg {
    type V = ArgView;

    open spec fn view(&self) -> ArgView {
        match self {
            RawArg::Text(s) => ArgView::Text(s@),
            RawArg::NotUnicode { lossy, shown } => ArgView::NotUnicode(lossy@, shown@),
        }
    }
}

/// The arguments as plain values.
pub open spec fn args_view(args: Seq<RawArg>) -> Seq<ArgView> {
    args.map_values(|a: RawArg| a@)
}

/// The message for an option value that is not text.
pub open spec fn not_unicode_message(opt: Seq<char>, shown: Seq<char>) -> Seq<char> {
    "Invalid value for "@ + opt + ": "@ + shown + " is not valid unicode"@
}

/// The message for an option value that its parser refused.
pub open spec fn invalid_value_message(opt: Seq<char>, val: Seq<char>, reason: Seq<char>) -> Seq<char> {
    "Invalid value "@ + debug_text_of(val) + " for "@ + opt + ": "@ + reason
}

/// The error for an option value that is not text.
pub fn not_unicode_error(opt: &str, shown: &str) -> (r: Error)
    ensures
        !r@.usage,
        r@.message == not_unicode_message(opt@, shown@),
        r@.context == Seq::<Seq<char>>::empty(),
{
    let mut m = String::from_str("Invalid value for ");
    m.append(opt);
    m.append(": ");
    m.append(shown);
    m.append(" is not valid unicode");
    Error::new(m.as_str())
}

/// The error for an option value that its parser refused.
pub fn invalid_value_error(opt: &str, val: &str, reason: &str) -> (r: Error)
    ensures
        !r@.usage,
        r@.message == invalid_value_message(opt@, val@, reason@),
        r@.context == Seq::<Seq<char>>::empty(),
{
    let quoted = debug_quoted(val);
    let mut m = String::from_str("Invalid value ");
    m.append(quoted.as_str());
    m.append(" for ");
    m.append(opt);
    m.append(": ");
    m.append(reason);
    Error::new(m.as_str())
}

/// A command of the tool.
#[derive(Clone, Debug)]
pub enum Command {
    /// Print the NSEC3 hash of a given domain name.
    Nsec3Hash(Nsec3Hash),
    /// Show the manual pages.
    Help(Help),
}

impl Command {
    /// The command's arguments hold together: a hash uses a supported
    /// algorithm.
    pub open spec fn wf(&self) -> bool {
        match self {
            Command::Nsec3Hash(n) => n.algorithm.code == SHA1_CODE,
            Command::Help(_) => true,
        }
    }

    /// What running the command prints on stdout.
    pub open spec fn output(&self) -> Seq<char> {
        match self {
            Command::Nsec3Hash(n) => nsec3_output(n@),
            Command::Help(_) => Seq::empty(),
        }
    }

    /// Runs the command: the text it prints on stdout.
    pub fn execute(self) -> (r: Result<String, Error>)
        requires
            self.wf(),
        ensures
            r is Ok,
            r->Ok_0@ == self.output(),
    {
        match self {
            Command::Nsec3Hash(nsec3hash) => nsec3hash.execute(),
            Command::Help(help) => {
                match help.execute() {
                    Ok(()) => Ok(String::new()),
                    Err(e) => Err(e),
                }
            },
        }
    }
}

} // verus!
