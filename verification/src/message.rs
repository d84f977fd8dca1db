//! Log lines.
use vstd::prelude::*;
use vstd::string::StringExecFns;

verus! {

/// A log line: a fixed prefix followed by the text of a program identifier.
pub open spec fn line(prefix: Seq<char>, id_text: Seq<char>) -> Seq<char> {
    prefix + id_text
}

/// Composes the log line that starts with `prefix` and ends with `id_text`.
pub fn compose(prefix: &str, id_text: &str) -> (out: String)
    ensures
        out@ == line(prefix@, id_text@),
{
    let mut out = String::from_str(prefix);
    out.append(id_text);
    out
}

} // verus!
