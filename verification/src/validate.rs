//! Path-segment validation.
//!
//! A request names a directory and a filename; each is joined into a
//! filesystem path and a cache key, so each must be a safe path segment.
//! A segment is valid iff it is non-empty, contains no `%`, no `\`, no
//! `..` substring, and every character is an ASCII alphanumeric, `-`,
//! `_`, or `.`.

use vstd::prelude::*;

verus! {

/// Characters a path segment may contain: ASCII alphanumerics, `-`, `_`, `.`.
pub open spec fn allowed_char(c: char) -> bool {
    ||| 'a' <= c && c <= 'z'
    ||| 'A' <= c && c <= 'Z'
    ||| '0' <= c && c <= '9'
    ||| c == '-'
    ||| c == '_'
    ||| c == '.'
}

/// Two consecutive dots somewhere in `s`: the parent-directory escape.
pub open spec fn has_dot_dot(s: Seq<char>) -> bool {
    exists|i: int| #![trigger s[i]] 0 <= i && i + 1 < s.len() && s[i] == '.' && s[i + 1] == '.'
}

/// What the validator accepts: non-empty, no `%`, no `\`, no `..`
/// substring, and only characters from the allow-list.
pub open spec fn valid_segment(s: Seq<char>) -> bool {
    &&& s.len() > 0
    &&& !s.contains('%')
    &&& !s.contains('\\')
    &&& !has_dot_dot(s)
    &&& forall|i: int| 0 <= i < s.len() ==> allowed_char(#[trigger] s[i])
}

/// Decides whether `name` is safe to use as one segment of a relative
/// path or of a cache key. Total over all strings; no side effects.
pub fn is_valid_folder_name(name: &str) -> (r: bool)
    ensures
        r == valid_segment(name@),
{
    let n = name.unicode_len();
    if n == 0 {
        return false;
    }
    let mut i: usize = 0;
    let mut prev_dot = false;
    while i < n
        invariant
            0 < n == name@.len(),
            0 <= i <= n,
            forall|j: int| 0 <= j < i ==> allowed_char(#[trigger] name@[j]),
            prev_dot == (i > 0 && name@[i - 1] == '.'),
            forall|j: int| 0 <= j && j + 1 < i ==> !(#[trigger] name@[j] == '.' && #[trigger] name@[j
                + 1] == '.'),
        decreases n - i,
    {
        let c = name.get_char(i);
        let code = c as u32;
        let alnum = (48 <= code && code <= 57) || (65 <= code && code <= 90) || (97 <= code
            && code <= 122);
        if !(alnum || c == '-' || c == '_' || c == '.') {
            assert(!allowed_char(name@[i as int]));
            return false;
        }
        if prev_dot && c == '.' {
            proof {
                let j = i - 1;
                assert(0 <= j && j + 1 < name@.len() && name@[j] == '.' && name@[j + 1] == '.');
                assert(has_dot_dot(name@));
            }
            return false;
        }
        prev_dot = c == '.';
        i += 1;
    }
    proof {
        lemma_allowed_chars_exclude_escapes(name@);
    }
    true
}

/// A sequence of allow-listed characters holds no `%` and no `\`:
/// neither is on the allow-list.
proof fn lemma_allowed_chars_exclude_escapes(s: Seq<char>)
    requires
        forall|i: int| 0 <= i < s.len() ==> allowed_char(#[trigger] s[i]),
    ensures
        !s.contains('%'),
        !s.contains('\\'),
{
    if s.contains('%') {
        let i = choose|i: int| 0 <= i < s.len() && s[i] == '%';
        assert(allowed_char(s[i]));
    }
    if s.contains('\\') {
        let i = choose|i: int| 0 <= i < s.len() && s[i] == '\\';
        assert(allowed_char(s[i]));
    }
}

/// Every string that is empty or contains `%`, `\`, or a `..` substring
/// is rejected by the validator.
pub proof fn lemma_validator_rejects_unsafe(s: Seq<char>)
    requires
        s.len() == 0 || s.contains('%') || s.contains('\\') || has_dot_dot(s),
    ensures
        !valid_segment(s),
{
}

/// Every non-empty string built only from allow-listed characters is
/// accepted, provided it holds no `..` substring. (`..` itself is built
/// from allow-listed characters yet names the parent directory, so the
/// validator rejects it.)
pub proof fn lemma_validator_accepts_safe(s: Seq<char>)
    requires
        s.len() > 0,
        forall|i: int| 0 <= i < s.len() ==> allowed_char(#[trigger] s[i]),
        !has_dot_dot(s),
    ensures
        valid_segment(s),
{
    lemma_allowed_chars_exclude_escapes(s);
}

} // verus!
