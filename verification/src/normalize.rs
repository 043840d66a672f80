//! Folder-safe names.
//!
//! A window title or a process name may hold any character. Before one is
//! used as a folder name, every character that is not an ASCII letter, a
//! digit, `.`, `_`, `-` or a space is replaced by `_`.

use vstd::prelude::*;

verus! {

/// The characters that a folder name keeps as they are.
pub open spec fn is_allowed(c: char) -> bool {
    ||| 'a' <= c <= 'z'
    ||| 'A' <= c <= 'Z'
    ||| '0' <= c <= '9'
    ||| c == '.'
    ||| c == '_'
    ||| c == '-'
    ||| c == ' '
}

/// What one character becomes in a folder name.
pub open spec fn normalized_char(c: char) -> char {
    if is_allowed(c) {
        c
    } else {
        '_'
    }
}

/// The folder-safe form of `s`: the same length, each character mapped by
/// [`normalized_char`].
pub open spec fn normalized(s: Seq<char>) -> Seq<char> {
    Seq::new(s.len(), |i: int| normalized_char(s[i]))
}

/// Whether `s` holds allowed characters only.
pub open spec fn is_normal(s: Seq<char>) -> bool {
    forall|i: int| 0 <= i < s.len() ==> is_allowed(#[trigger] s[i])
}

/// `String::push` appends the given character to the end of the string.
pub assume_specification[ String::push ](s: &mut String, ch: char)
    ensures
        final(s)@ == old(s)@.push(ch),
;

/// Maps one character to its folder-safe form.
pub fn normalize_char(c: char) -> (r: char)
    ensures
        r == normalized_char(c),
{
    if ('a' <= c && c <= 'z') || ('A' <= c && c <= 'Z') || ('0' <= c && c <= '9') || c == '.'
        || c == '_' || c == '-' || c == ' ' {
        c
    } else {
        '_'
    }
}

/// Returns the folder-safe form of `name`.
pub fn normalize_name(name: &str) -> (r: String)
    ensures
        r@ == normalized(name@),
{
    let mut out = String::new();
    for c in it: name.chars()
        invariant
            it.seq() == name@,
            out@ == normalized(name@.take(it.index() as int)),
    {
        proof {
            let k = it.index() as int;
            assert(normalized(name@.take(k + 1)) =~= normalized(name@.take(k)).push(
                normalized_char(c),
            ));
        }
        out.push(normalize_char(c));
    }
    proof {
        assert(name@.take(name@.len() as int) =~= name@);
    }
    out
}

/// The folder-safe form has as many characters as the original.
pub proof fn lemma_normalized_len(s: Seq<char>)
    ensures
        normalized(s).len() == s.len(),
{
}

/// The folder-safe form holds allowed characters only.
pub proof fn lemma_normalized_is_normal(s: Seq<char>)
    ensures
        is_normal(normalized(s)),
{
}

/// A name of allowed characters only is its own folder-safe form.
pub proof fn lemma_normal_is_fixed(s: Seq<char>)
    requires
        is_normal(s),
    ensures
        normalized(s) == s,
{
    assert(normalized(s) =~= s);
}

/// Normalizing twice gives what normalizing once gives.
pub proof fn lemma_normalized_idempotent(s: Seq<char>)
    ensures
        normalized(normalized(s)) == normalized(s),
{
    assert(normalized(normalized(s)) =~= normalized(s));
}

/// Two names of allowed characters only, one after the other, are a name of
/// allowed characters only.
pub proof fn lemma_normal_concat(a: Seq<char>, b: Seq<char>)
    requires
        is_normal(a),
        is_normal(b),
    ensures
        is_normal(a + b),
{
    assert forall|i: int| 0 <= i < (a + b).len() implies is_allowed(#[trigger] (a + b)[i]) by {
        if i < a.len() {
            assert((a + b)[i] == a[i]);
        } else {
            assert((a + b)[i] == b[i - a.len()]);
        }
    }
}

} // verus!
