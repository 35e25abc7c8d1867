//! Names of output files.

use vstd::prelude::*;

verus! {

/// Whether `c` may not stand in a file name: a path separator, or one of `: * ? " < > |`.
pub open spec fn is_forbidden_in_file_name(c: char) -> bool {
    c == '/' || c == '\\' || c == ':' || c == '*' || c == '?' || c == '"' || c == '<' || c == '>'
        || c == '|'
}

/// `name` with an underscore for each character that may not stand in a file name.
pub open spec fn sanitize_filename_spec(name: Seq<char>) -> Seq<char> {
    Seq::new(name.len(), |i: int| if is_forbidden_in_file_name(name[i]) { '_' } else { name[i] })
}

/// `name` with an underscore for each character that may not stand in a file name.
pub fn sanitize_filename(name: &str) -> (out: String)
    ensures
        out@ == sanitize_filename_spec(name@),
{
    let mut out = String::new();
    for c in it: name.chars()
        invariant
            it.seq() == name@,
            out@ == sanitize_filename_spec(name@.subrange(0, it.index() as int)),
    {
        let ghost i = it.index() as int;
        let forbidden = c == '/' || c == '\\' || c == ':' || c == '*' || c == '?' || c == '"'
            || c == '<' || c == '>' || c == '|';
        if forbidden {
            out.push('_');
        } else {
            out.push(c);
        }
        assert(sanitize_filename_spec(name@.subrange(0, i + 1)) == sanitize_filename_spec(
            name@.subrange(0, i),
        ).push(if is_forbidden_in_file_name(c) { '_' } else { c }));
    }
    assert(name@.subrange(0, name@.len() as int) == name@);
    out
}

/// Sanitizing twice is sanitizing once, and the result holds no forbidden character.
pub proof fn law_sanitize_is_idempotent(name: Seq<char>)
    ensures
        sanitize_filename_spec(sanitize_filename_spec(name)) == sanitize_filename_spec(name),
        forall|i: int|
            0 <= i < name.len() ==> !is_forbidden_in_file_name(
                #[trigger] sanitize_filename_spec(name)[i],
            ),
{
}

} // verus!
