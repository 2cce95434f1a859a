use vstd::prelude::*;

verus! {

/// The filesystem family whose naming rules the declared pathnames must obey.
#[derive(Clone, Copy, Debug, PartialEq, Eq, Structural)]
pub enum Target {
    /// Any character but the separator and NUL may appear in a name.
    Posix,
    /// The characters `> : " | ? *` are illegal in names.
    Windows,
}

/// A character that may not appear in a file name on Windows.
pub open spec fn is_forbidden(c: char) -> bool {
    c == '>' || c == ':' || c == '"' || c == '|' || c == '?' || c == '*'
}

/// The character that takes the place of `c` on `target`.
pub open spec fn sanitized_char(c: char, target: Target) -> char {
    if target == Target::Windows && is_forbidden(c) {
        '_'
    } else {
        c
    }
}

/// `s` with every character illegal on `target` replaced by an underscore.
pub open spec fn sanitized(s: Seq<char>, target: Target) -> Seq<char> {
    s.map_values(|c: char| sanitized_char(c, target))
}

/// Whether `c` is illegal in a Windows file name.
pub fn forbidden_char(c: char) -> (r: bool)
    ensures
        r == is_forbidden(c),
{
    c == '>' || c == ':' || c == '"' || c == '|' || c == '?' || c == '*'
}

/// Replaces each character of `name` that is illegal on `target` with `_`.
pub fn sanitize_pathname(name: &str, target: Target) -> (r: String)
    ensures
        r@ == sanitized(name@, target),
{
    let n = name.unicode_len();
    let mut out = String::new();
    let mut i: usize = 0;
    while i < n
        invariant
            n == name@.len(),
            i <= n,
            out@ == sanitized(name@.subrange(0, i as int), target),
        decreases n - i,
    {
        let c = name.get_char(i);
        if target == Target::Windows && forbidden_char(c) {
            proof {
                reveal_strlit("_");
            }
            out.append("_");
        } else {
            let piece = name.substring_char(i, i + 1);
            assert(piece@ =~= seq![c]);
            out.append(piece);
        }
        proof {
            assert(name@.subrange(0, i + 1) =~= name@.subrange(0, i as int).push(c));
        }
        assert(out@ =~= sanitized(name@.subrange(0, i + 1), target));
        i = i + 1;
    }
    assert(name@.subrange(0, n as int) =~= name@);
    out
}

/// Sanitizing is idempotent: a sanitized pathname holds no illegal character,
/// so a second pass leaves it as it is.
pub proof fn lemma_sanitize_idempotent(s: Seq<char>, target: Target)
    ensures
        sanitized(sanitized(s, target), target) == sanitized(s, target),
{
    assert(sanitized(sanitized(s, target), target) =~= sanitized(s, target));
}

} // verus!
