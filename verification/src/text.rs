//! Verified text handling: trimming, comparison, substring search and
//! replacement. The persisted state files and the project manifest are all
//! plain text, so the rest of the library states its contracts over these
//! functions.

use vstd::prelude::*;

verus! {

/// Whitespace, as Unicode's `White_Space` property defines it: what may
/// surround a stored token or identifier.
pub open spec fn is_space(c: char) -> bool {
    let u = c as u32;
    u == 0x20 || (0x09 <= u && u <= 0x0D) || u == 0x85 || u == 0xA0 || u == 0x1680 || (0x2000 <= u
        && u <= 0x200A) || u == 0x2028 || u == 0x2029 || u == 0x202F || u == 0x205F || u == 0x3000
}

/// `s` without its leading whitespace.
pub open spec fn trim_start_spec(s: Seq<char>) -> Seq<char>
    decreases s.len(),
{
    if s.len() == 0 {
        s
    } else if is_space(s[0]) {
        trim_start_spec(s.subrange(1, s.len() as int))
    } else {
        s
    }
}

/// `s` without its trailing whitespace.
pub open spec fn trim_end_spec(s: Seq<char>) -> Seq<char>
    decreases s.len(),
{
    if s.len() == 0 {
        s
    } else if is_space(s[s.len() - 1]) {
        trim_end_spec(s.subrange(0, s.len() - 1))
    } else {
        s
    }
}

/// `s` without leading and trailing whitespace.
pub open spec fn trim_spec(s: Seq<char>) -> Seq<char> {
    trim_end_spec(trim_start_spec(s))
}

proof fn lemma_trim_start_at(s: Seq<char>, i: int)
    requires
        0 <= i <= s.len(),
        forall|k: int| 0 <= k < i ==> is_space(s[k]),
        i == s.len() || !is_space(s[i]),
    ensures
        trim_start_spec(s) == s.subrange(i, s.len() as int),
    decreases i,
{
    if i == 0 {
        assert(s.subrange(0, s.len() as int) =~= s);
    } else {
        let t = s.subrange(1, s.len() as int);
        assert(is_space(s[0]));
        assert(forall|k: int| 0 <= k < i - 1 ==> is_space(#[trigger] t[k]));
        assert(i - 1 == t.len() || !is_space(t[i - 1]));
        lemma_trim_start_at(t, i - 1);
        assert(t.subrange(i - 1, t.len() as int) =~= s.subrange(i, s.len() as int));
    }
}

proof fn lemma_trim_end_at(s: Seq<char>, j: int)
    requires
        0 <= j <= s.len(),
        forall|k: int| j <= k < s.len() ==> is_space(s[k]),
        j == 0 || !is_space(s[j - 1]),
    ensures
        trim_end_spec(s) == s.subrange(0, j),
    decreases s.len() - j,
{
    if j == s.len() {
        assert(s.subrange(0, s.len() as int) =~= s);
    } else {
        let t = s.subrange(0, s.len() - 1);
        assert(is_space(s[s.len() - 1]));
        assert(forall|k: int| j <= k < t.len() ==> is_space(#[trigger] t[k]));
        lemma_trim_end_at(t, j);
        assert(t.subrange(0, j) =~= s.subrange(0, j));
    }
}

fn is_space_char(c: char) -> (b: bool)
    ensures
        b == is_space(c),
{
    let u = c as u32;
    u == 0x20 || (0x09 <= u && u <= 0x0D) || u == 0x85 || u == 0xA0 || u == 0x1680 || (0x2000 <= u
        && u <= 0x200A) || u == 0x2028 || u == 0x2029 || u == 0x202F || u == 0x205F || u == 0x3000
}

/// The string with surrounding whitespace removed, per `trim_spec`.
pub fn trimmed(s: &str) -> (r: String)
    ensures
        r@ == trim_spec(s@),
{
    let n = s.unicode_len();
    let mut i: usize = 0;
    while i < n && is_space_char(s.get_char(i))
        invariant
            i <= n,
            n == s@.len(),
            forall|k: int| 0 <= k < i ==> is_space(s@[k]),
        decreases n - i,
    {
        i = i + 1;
    }
    proof {
        lemma_trim_start_at(s@, i as int);
    }
    if i == n {
        proof {
            assert(trim_start_spec(s@) =~= Seq::<char>::empty());
            assert(trim_spec(s@) =~= Seq::<char>::empty());
        }
        return String::new();
    }
    let mut j: usize = n;
    while j > i && is_space_char(s.get_char(j - 1))
        invariant
            i < j <= n,
            n == s@.len(),
            i < n,
            !is_space(s@[i as int]),
            forall|k: int| j <= k < n ==> is_space(s@[k]),
        decreases j,
    {
        j = j - 1;
    }
    proof {
        let t = trim_start_spec(s@);
        assert(t == s@.subrange(i as int, n as int));
        assert(forall|k: int|
            j - i <= k < t.len() ==> is_space(#[trigger] t[k]) && is_space(s@[k + i])) by {
            assert(forall|k: int| j - i <= k < t.len() ==> is_space(#[trigger] s@[k + i]));
        }
        assert(!is_space(t[j - i - 1]));
        lemma_trim_end_at(t, j - i);
        assert(t.subrange(0, j - i) =~= s@.subrange(i as int, j as int));
    }
    let sub = s.substring_char(i, j);
    String::from_str(sub)
}

/// Whether two strings hold the same characters.
pub fn str_eq(a: &str, b: &str) -> (r: bool)
    ensures
        r == (a@ == b@),
{
    let na = a.unicode_len();
    let nb = b.unicode_len();
    if na != nb {
        return false;
    }
    let mut i: usize = 0;
    while i < na
        invariant
            i <= na,
            na == a@.len(),
            na == b@.len(),
            forall|k: int| 0 <= k < i ==> a@[k] == b@[k],
        decreases na - i,
    {
        if a.get_char(i) != b.get_char(i) {
            return false;
        }
        i = i + 1;
    }
    proof {
        assert(a@ =~= b@);
    }
    true
}

/// Whether `p` occurs in `s` starting at index `i`.
pub open spec fn matches_at(s: Seq<char>, p: Seq<char>, i: int) -> bool {
    0 <= i && i + p.len() <= s.len() && s.subrange(i, i + p.len() as int) == p
}

/// Whether `p` occurs anywhere in `s`.
pub open spec fn contains_seq(s: Seq<char>, p: Seq<char>) -> bool {
    exists|i: int| matches_at(s, p, i)
}

/// `s` with every non-overlapping occurrence of `p`, leftmost first,
/// replaced by `r`.
pub open spec fn replace_spec(s: Seq<char>, p: Seq<char>, r: Seq<char>) -> Seq<char>
    decreases s.len(),
{
    if p.len() == 0 || s.len() < p.len() {
        s
    } else if s.subrange(0, p.len() as int) == p {
        r + replace_spec(s.subrange(p.len() as int, s.len() as int), p, r)
    } else {
        seq![s[0]] + replace_spec(s.subrange(1, s.len() as int), p, r)
    }
}

/// Replacement leaves a string without an occurrence of the pattern as it is.
pub proof fn lemma_replace_no_match(s: Seq<char>, p: Seq<char>, r: Seq<char>)
    requires
        !contains_seq(s, p),
    ensures
        replace_spec(s, p, r) == s,
    decreases s.len(),
{
    if p.len() == 0 || s.len() < p.len() {
    } else if s.subrange(0, p.len() as int) == p {
        assert(matches_at(s, p, 0));
        assert(false);
    } else {
        let t = s.subrange(1, s.len() as int);
        assert forall|i: int| !matches_at(t, p, i) by {
            if matches_at(t, p, i) {
                assert(t.subrange(i, i + p.len() as int) =~= s.subrange(
                    i + 1,
                    i + 1 + p.len() as int,
                ));
                assert(matches_at(s, p, i + 1));
            }
        }
        lemma_replace_no_match(t, p, r);
        assert(seq![s[0]] + t =~= s);
    }
}

fn matches_at_exec(s: &str, p: &str, i: usize, ns: usize, np: usize) -> (b: bool)
    requires
        ns == s@.len(),
        np == p@.len(),
        i + np <= ns,
    ensures
        b == matches_at(s@, p@, i as int),
{
    let mut k: usize = 0;
    while k < np
        invariant
            k <= np,
            ns == s@.len(),
            np == p@.len(),
            i + np <= ns,
            forall|k2: int| 0 <= k2 < k ==> s@[i + k2] == p@[k2],
        decreases np - k,
    {
        if s.get_char(i + k) != p.get_char(k) {
            proof {
                if matches_at(s@, p@, i as int) {
                    assert(s@.subrange(i as int, i as int + np as int)[k as int] == p@[k as int]);
                }
            }
            return false;
        }
        k = k + 1;
    }
    proof {
        assert(s@.subrange(i as int, i as int + np as int) =~= p@);
    }
    true
}

fn contains_exec(s: &str, p: &str) -> (b: bool)
    requires
        p@.len() > 0,
    ensures
        b == contains_seq(s@, p@),
{
    let ns = s.unicode_len();
    let np = p.unicode_len();
    if np > ns {
        proof {
            assert(forall|i: int| !matches_at(s@, p@, i));
        }
        return false;
    }
    let mut i: usize = 0;
    while i <= ns - np
        invariant
            i <= ns - np + 1,
            0 < np <= ns,
            ns == s@.len(),
            np == p@.len(),
            forall|k: int| 0 <= k < i ==> !matches_at(s@, p@, k),
        decreases ns - np + 1 - i,
    {
        if matches_at_exec(s, p, i, ns, np) {
            proof {
                assert(matches_at(s@, p@, i as int));
            }
            return true;
        }
        i = i + 1;
    }
    proof {
        assert(forall|k: int| #[trigger] matches_at(s@, p@, k) ==> 0 <= k < i);
    }
    false
}

/// `s` with every occurrence of `p` replaced by `rep`, per `replace_spec`.
pub fn replaced(s: &str, p: &str, rep: &str) -> (out: String)
    requires
        p@.len() > 0,
    ensures
        out@ == replace_spec(s@, p@, rep@),
{
    let ns = s.unicode_len();
    let np = p.unicode_len();
    let mut out = String::new();
    proof {
        assert(s@.subrange(0, ns as int) =~= s@);
        assert(out@ + replace_spec(s@, p@, rep@) =~= replace_spec(s@, p@, rep@));
    }
    let mut i: usize = 0;
    while i < ns
        invariant
            i <= ns,
            ns == s@.len(),
            np == p@.len(),
            np > 0,
            out@ + replace_spec(s@.subrange(i as int, ns as int), p@, rep@) == replace_spec(
                s@,
                p@,
                rep@,
            ),
        decreases ns - i,
    {
        let ghost suffix = s@.subrange(i as int, ns as int);
        if np <= ns - i && matches_at_exec(s, p, i, ns, np) {
            out.append(rep);
            proof {
                assert(suffix.subrange(0, np as int) =~= s@.subrange(
                    i as int,
                    i as int + np as int,
                ));
                assert(suffix.subrange(np as int, suffix.len() as int) =~= s@.subrange(
                    i + np as int,
                    ns as int,
                ));
                assert(replace_spec(suffix, p@, rep@) == rep@ + replace_spec(
                    s@.subrange(i + np as int, ns as int),
                    p@,
                    rep@,
                ));
                assert(out@ + replace_spec(s@.subrange(i + np as int, ns as int), p@, rep@)
                    =~= replace_spec(s@, p@, rep@));
            }
            i = i + np;
        } else {
            let piece = s.substring_char(i, i + 1);
            out.append(piece);
            proof {
                assert(piece@ =~= seq![s@[i as int]]);
                if suffix.len() < np as int {
                    assert(replace_spec(suffix, p@, rep@) == suffix);
                    assert(suffix =~= seq![s@[i as int]] + s@.subrange(i + 1, ns as int));
                    assert((s@.subrange(i + 1, ns as int)).len() < np as int);
                    assert(replace_spec(s@.subrange(i + 1, ns as int), p@, rep@) == s@.subrange(
                        i + 1,
                        ns as int,
                    ));
                } else {
                    assert(suffix.subrange(0, np as int) =~= s@.subrange(
                        i as int,
                        i as int + np as int,
                    ));
                    assert(!(suffix.subrange(0, np as int) == p@));
                    assert(suffix.subrange(1, suffix.len() as int) =~= s@.subrange(
                        i + 1,
                        ns as int,
                    ));
                    assert(replace_spec(suffix, p@, rep@) == seq![suffix[0]] + replace_spec(
                        s@.subrange(i + 1, ns as int),
                        p@,
                        rep@,
                    ));
                }
                assert(out@ + replace_spec(s@.subrange(i + 1, ns as int), p@, rep@) =~= replace_spec(
                    s@,
                    p@,
                    rep@,
                ));
            }
            i = i + 1;
        }
    }
    proof {
        assert(s@.subrange(ns as int, ns as int) =~= Seq::<char>::empty());
        assert(out@ =~= replace_spec(s@, p@, rep@));
    }
    out
}

/// The project manifest's placeholder for a not-yet-assigned program id.
/// If the text holds the placeholder, every occurrence is replaced by
/// `program_id`; otherwise the text is returned unchanged.
pub fn maybe_replace_program_id(custom_toml: &str, program_id: &str) -> (r: String)
    ensures
        r@ == replace_spec(custom_toml@, "{program_id}"@, program_id@),
{
    proof {
        reveal_strlit("{program_id}");
    }
    if contains_exec(custom_toml, "{program_id}") {
        replaced(custom_toml, "{program_id}", program_id)
    } else {
        proof {
            lemma_replace_no_match(custom_toml@, "{program_id}"@, program_id@);
        }
        custom_toml.to_owned()
    }
}

/// `s` with every `-` turned into `_`.
pub open spec fn sanitized(s: Seq<char>) -> Seq<char> {
    s.map_values(|c: char| if c == '-' { '_' } else { c })
}

/// The project name as the toolchain names the produced module: `-`
/// becomes `_`.
pub fn sanitized_name(name: &str) -> (r: String)
    ensures
        r@ == sanitized(name@),
{
    let n = name.unicode_len();
    let mut out = String::new();
    let mut i: usize = 0;
    while i < n
        invariant
            i <= n,
            n == name@.len(),
            out@ == sanitized(name@.subrange(0, i as int)),
        decreases n - i,
    {
        let c = name.get_char(i);
        if c == '-' {
            proof {
                reveal_strlit("_");
            }
            out.append("_");
        } else {
            let piece = name.substring_char(i, i + 1);
            out.append(piece);
            proof {
                assert(piece@ =~= seq![name@[i as int]]);
            }
        }
        proof {
            assert(sanitized(name@.subrange(0, i + 1)) =~= sanitized(
                name@.subrange(0, i as int),
            ) + seq![if name@[i as int] == '-' {
                '_'
            } else {
                name@[i as int]
            }]);
        }
        i = i + 1;
    }
    proof {
        assert(name@.subrange(0, n as int) =~= name@);
    }
    out
}

} // verus!
