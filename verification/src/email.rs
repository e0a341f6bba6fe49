//! The shape of an email address.
//!
//! An address is a local part, one `@`, and a domain. The local part is made
//! of atoms joined by single dots; the domain is made of at least two labels
//! joined by single dots, each label beginning and ending with a letter or a
//! digit. Only lower-case ASCII letters count as letters.

use vstd::prelude::*;
use vstd::slice::slice_subrange;
use vstd::string::*;

verus! {

/// A lower-case ASCII letter or a digit.
pub open spec fn is_alnum(c: char) -> bool {
    ('a' <= c && c <= 'z') || ('0' <= c && c <= '9')
}

/// A character that may stand in an atom of the local part.
pub open spec fn is_atom_char(c: char) -> bool {
    is_alnum(c) || c == '!' || c == '#' || c == '$' || c == '%' || c == '&' || c == '\''
        || c == '*' || c == '+' || c == '/' || c == '=' || c == '?' || c == '^' || c == '_'
        || c == '`' || c == '{' || c == '|' || c == '}' || c == '~' || c == '-'
}

/// Non-empty atoms joined by single dots: atom characters and dots only, no
/// dot at either end, and no two dots in a row.
pub open spec fn is_local_part(s: Seq<char>) -> bool {
    &&& s.len() > 0
    &&& forall|i: int| 0 <= i < s.len() ==> is_atom_char(#[trigger] s[i]) || s[i] == '.'
    &&& s[0] != '.'
    &&& s[s.len() - 1] != '.'
    &&& forall|i: int| 0 <= i < s.len() - 1 ==> !(#[trigger] s[i] == '.' && s[i + 1] == '.')
}

/// At least two labels joined by single dots: letters, digits, hyphens and
/// dots only, a letter or digit at either end and on both sides of every dot.
pub open spec fn is_domain(s: Seq<char>) -> bool {
    &&& s.len() > 0
    &&& forall|i: int|
        0 <= i < s.len() ==> is_alnum(#[trigger] s[i]) || s[i] == '-' || s[i] == '.'
    &&& is_alnum(s[0])
    &&& is_alnum(s[s.len() - 1])
    &&& forall|i: int|
        0 < i < s.len() - 1 && #[trigger] s[i] == '.' ==> is_alnum(s[i - 1]) && is_alnum(s[i + 1])
    &&& exists|i: int| 0 <= i < s.len() && #[trigger] s[i] == '.'
}

/// A local part, an `@`, and a domain.
pub open spec fn is_email(s: Seq<char>) -> bool {
    exists|at: int|
        0 <= at < s.len() && #[trigger] s[at] == '@' && is_local_part(s.subrange(0, at))
            && is_domain(s.subrange(at + 1, s.len() as int))
}

/// The characters that a run of ASCII bytes spells.
pub open spec fn as_text(bytes: Seq<u8>) -> Seq<char> {
    Seq::new(bytes.len(), |i: int| bytes[i] as char)
}

fn alnum(c: char) -> (yes: bool)
    ensures
        yes == is_alnum(c),
{
    ('a' <= c && c <= 'z') || ('0' <= c && c <= '9')
}

fn atom_char(c: char) -> (yes: bool)
    ensures
        yes == is_atom_char(c),
{
    alnum(c) || c == '!' || c == '#' || c == '$' || c == '%' || c == '&' || c == '\'' || c == '*'
        || c == '+' || c == '/' || c == '=' || c == '?' || c == '^' || c == '_' || c == '`'
        || c == '{' || c == '|' || c == '}' || c == '~' || c == '-'
}

fn local_part_ok(part: &[u8]) -> (ok: bool)
    ensures
        ok == is_local_part(as_text(part@)),
{
    let ghost text = as_text(part@);
    let n = part.len();
    if n == 0 {
        return false;
    }
    if part[0] as char == '.' || part[n - 1] as char == '.' {
        return false;
    }
    let mut i: usize = 0;
    while i < n
        invariant
            i <= n,
            n == part@.len(),
            text == as_text(part@),
            forall|j: int| 0 <= j < i ==> is_atom_char(#[trigger] text[j]) || text[j] == '.',
            forall|j: int|
                0 <= j < i && j < n - 1 ==> !(#[trigger] text[j] == '.' && text[j + 1] == '.'),
        decreases n - i,
    {
        let c = part[i] as char;
        assert(text[i as int] == c);
        if c == '.' {
            if i + 1 < n && part[i + 1] as char == '.' {
                return false;
            }
        } else if !atom_char(c) {
            return false;
        }
        i += 1;
    }
    true
}

fn domain_ok(part: &[u8]) -> (ok: bool)
    ensures
        ok == is_domain(as_text(part@)),
{
    let ghost text = as_text(part@);
    let n = part.len();
    if n == 0 {
        return false;
    }
    if !alnum(part[0] as char) || !alnum(part[n - 1] as char) {
        return false;
    }
    let mut dotted = false;
    let mut i: usize = 0;
    while i < n
        invariant
            i <= n,
            n == part@.len(),
            n > 0,
            text == as_text(part@),
            is_alnum(text[0]),
            is_alnum(text[n - 1]),
            forall|j: int|
                0 <= j < i ==> is_alnum(#[trigger] text[j]) || text[j] == '-' || text[j] == '.',
            forall|j: int|
                0 < j < i && j < n - 1 && #[trigger] text[j] == '.' ==> is_alnum(text[j - 1])
                    && is_alnum(text[j + 1]),
            dotted <==> exists|j: int| 0 <= j < i && #[trigger] text[j] == '.',
        decreases n - i,
    {
        let c = part[i] as char;
        assert(text[i as int] == c);
        if c == '.' {
            if !alnum(part[i - 1] as char) || !alnum(part[i + 1] as char) {
                return false;
            }
            dotted = true;
        } else if !(alnum(c) || c == '-') {
            return false;
        }
        i += 1;
    }
    dotted
}

/// No `@` stands in a local part, so the `@` of an address is its first.
proof fn lemma_at_sign_is_first(s: Seq<char>, first: int)
    requires
        0 <= first < s.len(),
        s[first] == '@',
        forall|j: int| 0 <= j < first ==> s[j] != '@',
    ensures
        is_email(s) <==> is_local_part(s.subrange(0, first)) && is_domain(
            s.subrange(first + 1, s.len() as int),
        ),
{
    if is_email(s) {
        let at = choose|at: int|
            0 <= at < s.len() && #[trigger] s[at] == '@' && is_local_part(s.subrange(0, at))
                && is_domain(s.subrange(at + 1, s.len() as int));
        if first < at {
            assert(s.subrange(0, at)[first] == s[first]);
        }
    }
}

/// Every character of an address is ASCII.
proof fn lemma_email_is_ascii(s: Seq<char>)
    requires
        is_email(s),
    ensures
        vstd::utf8::is_ascii_chars(s),
{
    let at = choose|at: int|
        0 <= at < s.len() && #[trigger] s[at] == '@' && is_local_part(s.subrange(0, at))
            && is_domain(s.subrange(at + 1, s.len() as int));
    let local = s.subrange(0, at);
    let domain = s.subrange(at + 1, s.len() as int);
    assert forall|i: int| 0 <= i < s.len() implies '\0' <= #[trigger] s[i] <= '\u{7f}' by {
        if i < at {
            assert(local[i] == s[i]);
        } else if i > at {
            assert(domain[i - at - 1] == s[i]);
        }
    }
}

/// Whether `email` has the shape of an address.
pub fn is_well_formed_email(email: &str) -> (ok: bool)
    ensures
        ok == is_email(email@),
{
    if !email.is_ascii() {
        proof {
            if is_email(email@) {
                lemma_email_is_ascii(email@);
            }
        }
        return false;
    }
    let bytes = email.as_bytes();
    let n = bytes.len();
    proof {
        is_ascii_spec_bytes(email);
    }
    let mut at: usize = 0;
    while at < n && bytes[at] as char != '@'
        invariant
            at <= n,
            n == bytes@.len(),
            as_text(bytes@) == email@,
            forall|j: int| 0 <= j < at ==> email@[j] != '@',
        decreases n - at,
    {
        at += 1;
    }
    if at == n {
        return false;
    }
    let local = slice_subrange(bytes, 0, at);
    let domain = slice_subrange(bytes, at + 1, n);
    proof {
        assert(as_text(local@) =~= email@.subrange(0, at as int));
        assert(as_text(domain@) =~= email@.subrange(at + 1, n as int));
        lemma_at_sign_is_first(email@, at as int);
    }
    local_part_ok(local) && domain_ok(domain)
}

} // verus!
