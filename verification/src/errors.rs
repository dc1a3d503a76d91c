use vstd::prelude::*;
use vstd::string::StringExecFns;

verus! {

/// The one error category of this crate: every failure carries a
/// human-readable message, and callers tell the causes apart only by the
/// message's prefix.
#[derive(Debug)]
pub struct Error {
    msg: String,
}

impl View for Error {
    type V = Seq<char>;

    closed spec fn view(&self) -> Seq<char> {
        self.msg@
    }
}

impl Error {
    /// An error whose whole message is the given text.
    pub fn new(msg: &str) -> (r: Error)
        ensures
            r@ == msg@,
    {
        Error { msg: msg.to_owned() }
    }

    /// An error whose message is a fixed prefix followed by a detail text.
    pub fn with_detail(prefix: &str, detail: &str) -> (r: Error)
        ensures
            r@ == prefix@ + detail@,
    {
        let head = prefix.to_owned();
        Error { msg: head.concat(detail) }
    }

    /// The message text.
    pub fn message(&self) -> (r: &str)
        ensures
            r@ == self@,
    {
        self.msg.as_str()
    }
}

/// True when `p` is a prefix of `s`.
pub open spec fn starts_with(s: Seq<char>, p: Seq<char>) -> bool {
    p.len() <= s.len() && s.take(p.len() as int) == p
}

} // verus!
