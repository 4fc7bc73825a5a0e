//! The program's error type: a primary message and layers of context.
use vstd::prelude::*;
use vstd::string::*;

verus! {

/// Where the primary message of an error came from.
#[derive(Debug)]
pub enum PrimaryError {
    /// A message rendered in full by the native argument grammar.
    Usage(String),
    /// A plain message.
    Other(String),
}

/// A program error.
///
/// Such errors are highly likely to halt the program.
#[derive(Debug)]
pub struct Error {
    pub primary: PrimaryError,
    /// Layers of context, ordered from innermost to outermost.
    pub context: Vec<String>,
}

/// What an error holds, as plain values.
pub struct ErrorView {
    pub usage: bool,
    pub message: Seq<char>,
    pub context: Seq<Seq<char>>,
}

/// The exit code that goes with an error of the given origin.
pub open spec fn exit_code_of(usage: bool) -> u8 {
    if usage { 2 } else { 1 }
}

/// The marker in front of a plain message.
pub open spec fn marker_text(color: bool) -> Seq<char> {
    if color { "\x1B[31mERROR:\x1B[0m"@ } else { "ERROR:"@ }
}

/// One line per layer of context, innermost first.
pub open spec fn context_lines(ctx: Seq<Seq<char>>) -> Seq<char>
    decreases ctx.len(),
{
    if ctx.len() == 0 {
        Seq::empty()
    } else {
        context_lines(ctx.drop_last()) + "\n... while "@ + ctx.last() + "\n"@
    }
}

/// The text printed on stderr for an error.
pub open spec fn rendered(e: ErrorView, prog: Seq<char>, color: bool) -> Seq<char> {
    if e.usage {
        e.message + "\n"@
    } else {
        "["@ + prog + "] "@ + marker_text(color) + " "@ + e.message + context_lines(e.context)
    }
}

impl View for Error {
    type V = ErrorView;

    open spec fn view(&self) -> ErrorView {
        ErrorView {
            usage: self.primary is Usage,
            message: match self.primary {
                PrimaryError::Usage(m) => m@,
                PrimaryError::Other(m) => m@,
            },
            context: self.context@.map_values(|c: String| c@),
        }
    }
}

impl Error {
    /// Construct a new error from a string.
    pub fn new(error: &str) -> (r: Self)
        ensures
            !r@.usage,
            r@.message == error@,
            r@.context == Seq::<Seq<char>>::empty(),
    {
        let r = Error { primary: PrimaryError::Other(String::from_str(error)), context: Vec::new() };
        proof {
            assert(r@.context =~= Seq::<Seq<char>>::empty());
        }
        r
    }

    /// An error whose message the native argument grammar has rendered.
    pub fn usage(rendered: &str) -> (r: Self)
        ensures
            r@.usage,
            r@.message == rendered@,
            r@.context == Seq::<Seq<char>>::empty(),
    {
        let r = Error { primary: PrimaryError::Usage(String::from_str(rendered)), context: Vec::new() };
        proof {
            assert(r@.context =~= Seq::<Seq<char>>::empty());
        }
        r
    }

    /// Add context to this error.
    pub fn context(self, context: &str) -> (r: Self)
        ensures
            r@.usage == self@.usage,
            r@.message == self@.message,
            r@.context == self@.context.push(context@),
    {
        let mut e = self;
        e.context.push(String::from_str(context));
        proof {
            assert(e@.context =~= self@.context.push(context@));
        }
        e
    }

    /// The primary message.
    pub fn message(&self) -> (r: &str)
        ensures
            r@ == self@.message,
    {
        match &self.primary {
            PrimaryError::Usage(m) => m.as_str(),
            PrimaryError::Other(m) => m.as_str(),
        }
    }

    /// The exit code: 2 for the native grammar's errors, 1 for all others,
    /// as the legacy tools exit with 1.
    pub fn exit_code(&self) -> (r: u8)
        ensures
            r == exit_code_of(self@.usage),
    {
        match &self.primary {
            PrimaryError::Usage(_) => 2,
            PrimaryError::Other(_) => 1,
        }
    }

    /// The text to print on stderr for this error, for a program invoked as
    /// `prog`, with the marker in color where `color` holds.
    pub fn render(&self, prog: &str, color: bool) -> (r: String)
        ensures
            r@ == rendered(self@, prog@, color),
    {
        match &self.primary {
            PrimaryError::Usage(m) => {
                let mut out = m.clone();
                out.append("\n");
                out
            },
            PrimaryError::Other(m) => {
                let mut out = String::from_str("[");
                out.append(prog);
                out.append("] ");
                if color {
                    out.append("\x1B[31mERROR:\x1B[0m");
                } else {
                    out.append("ERROR:");
                }
                out.append(" ");
                out.append(m.as_str());
                let ghost head = out@;
                let mut i: usize = 0;
                while i < self.context.len()
                    invariant
                        0 <= i <= self.context.len(),
                        out@ == head + context_lines(self@.context.take(i as int)),
                    decreases self.context.len() - i,
                {
                    out.append("\n... while ");
                    out.append(self.context[i].as_str());
                    out.append("\n");
                    proof {
                        assert(self@.context.take(i + 1).drop_last() =~= self@.context.take(i as int));
                    }
                    i = i + 1;
                }
                proof {
                    assert(self@.context.take(i as int) =~= self@.context);
                }
                out
            },
        }
    }
}

/// A value that can take a layer of context for an error it holds.
pub trait Context: Sized {
    /// `r` is this value with the layer `c` added where it holds an error.
    spec fn layered(&self, r: &Self, c: Seq<char>) -> bool;

    /// This value holds an error, which a layer of context would reach.
    spec fn takes_context(&self) -> bool;

    /// Add context for an error.
    fn context(self, context: &str) -> (r: Self)
        ensures
            self.layered(&r, context@),
    ;

    /// Add context for an error, made only where there is an error.
    fn with_context<F: FnOnce() -> String>(self, context: F) -> (r: Self)
        requires
            self.takes_context() ==> context.requires(()),
        ensures
            exists|s: String| #[trigger]
                self.layered(&r, s@) && (self.takes_context() ==> context.ensures((), s)),
    ;
}

impl<T> Context for Result<T, Error> {
    open spec fn layered(&self, r: &Self, c: Seq<char>) -> bool {
        match (self, r) {
            (Ok(a), Ok(b)) => a == b,
            (Err(e), Err(f)) => f@ == ErrorView { context: e@.context.push(c), ..e@ },
            _ => false,
        }
    }

    open spec fn takes_context(&self) -> bool {
        self is Err
    }

    fn context(self, context: &str) -> (r: Self) {
        match self {
            Ok(v) => Ok(v),
            Err(e) => Err(e.context(context)),
        }
    }

    fn with_context<F: FnOnce() -> String>(self, context: F) -> (r: Self) {
        match self {
            Ok(v) => {
                let r = Ok(v);
                let s = String::new();
                assert(self.layered(&r, s@));
                r
            },
            Err(e) => {
                let s = context();
                let r = Err(e.context(s.as_str()));
                assert(self.layered(&r, s@));
                r
            },
        }
    }
}

} // verus!
