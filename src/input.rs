use vstd::prelude::*;

verus! {

/// The name that stands for standard input.
pub open spec fn stdin_name() -> Seq<char> {
    seq!['-']
}

/// Whether the input called `name` is standard input rather than a file.
pub fn reads_stdin(name: &str) -> (r: bool)
    ensures
        r == (name@ == stdin_name()),
{
    proof {
        reveal_strlit("-");
    }
    if name.unicode_len() != 1 {
        return false;
    }
    let c = name.get_char(0);
    if c == '-' {
        assert(name@ =~= stdin_name());
        true
    } else {
        false
    }
}

/// The report for an input that could not be opened: its name, then the
/// reason that the system gave.
pub fn open_failure_message(name: &str, cause: &str) -> (r: String)
    ensures
        r@ == "Failed to open "@ + name@ + ": "@ + cause@,
{
    let mut out = String::from_str("Failed to open ");
    out.append(name);
    out.append(": ");
    out.append(cause);
    out
}

} // verus!
