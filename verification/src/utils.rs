//! Filename sanitization: strips characters that common filesystems
//! refuse in path components and replaces spaces with underscores.

use vstd::prelude::*;
use crate::text::chars_to_string;

verus! {

/// Whether `c` is one of the characters `\ / : * ? " < > |`, which the
/// sanitizer removes outright.
pub open spec fn is_forbidden_char(c: char) -> bool {
    c == '\\' || c == '/' || c == ':' || c == '*' || c == '?' || c == '"' || c == '<' || c == '>'
        || c == '|'
}

/// A space becomes an underscore; every other character is kept as is.
pub open spec fn replace_space(c: char) -> char {
    if c == ' ' {
        '_'
    } else {
        c
    }
}

/// The sanitized form of a name: forbidden characters removed, spaces
/// replaced by underscores, all other characters kept in order.
pub open spec fn sanitized(s: Seq<char>) -> Seq<char>
    decreases s.len(),
{
    if s.len() == 0 {
        Seq::empty()
    } else if is_forbidden_char(s.last()) {
        sanitized(s.drop_last())
    } else {
        sanitized(s.drop_last()).push(replace_space(s.last()))
    }
}

fn is_forbidden_char_exec(c: char) -> (r: bool)
    ensures
        r == is_forbidden_char(c),
{
    c == '\\' || c == '/' || c == ':' || c == '*' || c == '?' || c == '"' || c == '<' || c == '>'
        || c == '|'
}

/// Returns `name` with every occurrence of `\ / : * ? " < > |` removed
/// and every space replaced by `_`; all other characters are kept, in
/// order.
pub fn sanitize_filename(name: &str) -> (r: String)
    ensures
        r@ == sanitized(name@),
{
    let n = name.unicode_len();
    let mut out: Vec<char> = Vec::new();
    for i in 0..n
        invariant
            n == name@.len(),
            out@ == sanitized(name@.take(i as int)),
    {
        let c = name.get_char(i);
        proof {
            assert(name@.take(i + 1).drop_last() =~= name@.take(i as int));
            assert(name@.take(i + 1).last() == name@[i as int]);
        }
        if c == ' ' {
            out.push('_');
        } else if !is_forbidden_char_exec(c) {
            out.push(c);
        }
    }
    proof {
        assert(name@.take(n as int) =~= name@);
    }
    chars_to_string(&out)
}

/// Sanitizing is idempotent: a sanitized name passes through the
/// sanitizer unchanged.
pub proof fn lemma_sanitize_idempotent(s: Seq<char>)
    ensures
        sanitized(sanitized(s)) == sanitized(s),
    decreases s.len(),
{
    if s.len() == 0 {
    } else {
        lemma_sanitize_idempotent(s.drop_last());
        let t = sanitized(s.drop_last());
        let c = s.last();
        if !is_forbidden_char(c) {
            let r = replace_space(c);
            assert(t.push(r).drop_last() =~= t);
            assert(t.push(r).last() == r);
        }
    }
}

/// A sanitized name contains none of the forbidden characters
/// `\ / : * ? " < > |` and no space.
pub proof fn lemma_sanitize_clean(s: Seq<char>)
    ensures
        forall|i: int|
            0 <= i < sanitized(s).len() ==> !is_forbidden_char(#[trigger] sanitized(s)[i])
                && sanitized(s)[i] != ' ',
    decreases s.len(),
{
    if s.len() == 0 {
    } else {
        lemma_sanitize_clean(s.drop_last());
        let t = sanitized(s.drop_last());
        if !is_forbidden_char(s.last()) {
            let r = replace_space(s.last());
            assert(sanitized(s) == t.push(r));
            assert(forall|i: int| 0 <= i < t.len() ==> #[trigger] sanitized(s)[i] == t[i]);
            assert(sanitized(s)[t.len() as int] == r);
        }
    }
}

} // verus!
