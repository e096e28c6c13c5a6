//! Shell command templates: staging-directory substitution and the script
//! line handed to the shell.
use vstd::prelude::*;
use vstd::string::*;

verus! {

/// The token in a command template that stands for the staging directory.
pub open spec fn placeholder() -> Seq<char> {
    seq!['{', 'd', 'e', 's', 't', 'd', 'i', 'r', '}']
}

/// Whether `s` holds `pat` at position `k`.
pub open spec fn occurs_at(s: Seq<char>, pat: Seq<char>, k: int) -> bool {
    0 <= k && k + pat.len() <= s.len() && s.subrange(k, k + pat.len()) == pat
}

/// Whether the placeholder occurs anywhere in `s`.
pub open spec fn has_placeholder(s: Seq<char>) -> bool {
    exists|k: int| occurs_at(s, placeholder(), k)
}

/// `s` with every occurrence of the placeholder, scanned from the left and
/// without overlap, replaced by `d`.
pub open spec fn substitute(s: Seq<char>, d: Seq<char>) -> Seq<char>
    decreases s.len(),
{
    if s.len() == 0 {
        s
    } else if occurs_at(s, placeholder(), 0) {
        d + substitute(s.skip(placeholder().len() as int), d)
    } else {
        seq![s[0]] + substitute(s.drop_first(), d)
    }
}

/// The template as the shell receives it: substituted when a staging
/// directory is given, unchanged otherwise.
pub open spec fn interpolated(template: Seq<char>, destdir: Option<Seq<char>>) -> Seq<char> {
    match destdir {
        Some(d) => substitute(template, d),
        None => template,
    }
}

/// The script line: fail-fast always, with tracing at the highest verbosity.
pub open spec fn shell_script_of(command: Seq<char>, verbose: u8) -> Seq<char> {
    if verbose > 1 {
        seq!['s', 'e', 't', ' ', '-', 'x', 'e', ';', ' '] + command
    } else {
        seq!['s', 'e', 't', ' ', '-', 'e', ';', ' '] + command
    }
}

fn placeholder_at(s: &str, n: usize, k: usize) -> (r: bool)
    requires
        n == s@.len(),
        k <= n,
    ensures
        r == occurs_at(s@, placeholder(), k as int),
{
    if n - k < 9 {
        return false;
    }
    let p = "{destdir}";
    proof {
        reveal_strlit("{destdir}");
    }
    assert(p@ =~= placeholder());
    let mut j: usize = 0;
    while j < 9
        invariant
            n == s@.len(),
            k + 9 <= n,
            j <= 9,
            p@ == placeholder(),
            forall|i: int| 0 <= i < j ==> s@[k + i] == placeholder()[i],
        decreases 9 - j,
    {
        if s.get_char(k + j) != p.get_char(j) {
            assert(s@.subrange(k as int, k + 9)[j as int] != placeholder()[j as int]);
            return false;
        }
        j = j + 1;
    }
    assert(s@.subrange(k as int, k + 9) =~= placeholder());
    true
}

/// Replaces every occurrence of the staging-directory placeholder in `s`
/// with `dest`.
pub fn substitute_destdir(s: &str, dest: &str) -> (r: String)
    ensures
        r@ == substitute(s@, dest@),
{
    let n = s.unicode_len();
    let mut out = String::new();
    let mut k: usize = 0;
    assert(s@.skip(0) =~= s@);
    assert(out@ + substitute(s@, dest@) =~= substitute(s@, dest@));
    while k < n
        invariant
            n == s@.len(),
            k <= n,
            substitute(s@, dest@) == out@ + substitute(s@.skip(k as int), dest@),
        decreases n - k,
    {
        let ghost rest = s@.skip(k as int);
        if placeholder_at(s, n, k) {
            assert(rest.subrange(0, 9) =~= s@.subrange(k as int, k + 9));
            assert(rest.skip(9) =~= s@.skip(k + 9));
            let ghost before = out@;
            out.append(dest);
            assert(out@ + substitute(s@.skip(k + 9), dest@) =~= before + (dest@ + substitute(
                rest.skip(9),
                dest@,
            )));
            k = k + 9;
        } else {
            assert(!occurs_at(rest, placeholder(), 0)) by {
                if k + 9 <= n {
                    assert(rest.subrange(0, 9) =~= s@.subrange(k as int, k + 9));
                }
            }
            assert(rest.drop_first() =~= s@.skip(k + 1));
            let c = s.substring_char(k, k + 1);
            assert(c@ =~= seq![rest[0]]);
            let ghost before = out@;
            out.append(c);
            assert(out@ + substitute(s@.skip(k + 1), dest@) =~= before + (seq![rest[0]]
                + substitute(rest.drop_first(), dest@)));
            k = k + 1;
        }
    }
    assert(s@.skip(n as int) =~= Seq::<char>::empty());
    assert(out@ + Seq::<char>::empty() =~= out@);
    out
}

/// The template with the staging directory substituted, when one is given.
pub fn interpolate(cmd_str: &str, destdir: Option<&str>) -> (r: String)
    ensures
        r@ == interpolated(cmd_str@, crate::version::opt_view(destdir)),
{
    match destdir {
        Some(dest) => substitute_destdir(cmd_str, dest),
        None => String::from_str(cmd_str),
    }
}

/// The script line that the shell runs for a command template: fail-fast,
/// traced when `verbose` is above one, with the staging directory substituted.
pub fn shell_command(cmd_str: &str, verbose: u8, destdir: Option<&str>) -> (r: String)
    ensures
        r@ == shell_script_of(interpolated(cmd_str@, crate::version::opt_view(destdir)), verbose),
{
    let body = interpolate(cmd_str, destdir);
    let mut script = if verbose > 1 {
        let p = "set -xe; ";
        proof {
            reveal_strlit("set -xe; ");
        }
        String::from_str(p)
    } else {
        let p = "set -e; ";
        proof {
            reveal_strlit("set -e; ");
        }
        String::from_str(p)
    };
    script.append(body.as_str());
    assert(script@ =~= shell_script_of(body@, verbose));
    script
}

/// Substitution passes over a prefix in which no placeholder begins.
proof fn lemma_substitute_prefix(a: Seq<char>, rest: Seq<char>, d: Seq<char>)
    requires
        forall|k: int| 0 <= k < a.len() ==> !occurs_at(a + rest, placeholder(), k),
    ensures
        substitute(a + rest, d) == a + substitute(rest, d),
    decreases a.len(),
{
    if a.len() == 0 {
        assert(a + rest =~= rest);
        assert(a + substitute(rest, d) =~= substitute(rest, d));
    } else {
        let s = a + rest;
        assert(!occurs_at(s, placeholder(), 0));
        assert(s.drop_first() =~= a.drop_first() + rest);
        assert forall|k: int| 0 <= k < a.drop_first().len() implies !occurs_at(
            a.drop_first() + rest,
            placeholder(),
            k,
        ) by {
            assert(!occurs_at(s, placeholder(), k + 1));
            if k + 9 <= (a.drop_first() + rest).len() {
                assert((a.drop_first() + rest).subrange(k, k + 9) =~= s.subrange(k + 1, k + 10));
            }
        }
        lemma_substitute_prefix(a.drop_first(), rest, d);
        assert(a + substitute(rest, d) =~= seq![s[0]] + (a.drop_first() + substitute(rest, d)));
    }
}

/// No placeholder begins inside `a` in `a`, the placeholder, then `t`, when
/// `a` holds none.
proof fn lemma_no_occurrence_before(a: Seq<char>, t: Seq<char>)
    requires
        !has_placeholder(a),
    ensures
        forall|k: int| 0 <= k < a.len() ==> !occurs_at(a + placeholder() + t, placeholder(), k),
{
    let s = a + placeholder() + t;
    assert forall|k: int| 0 <= k < a.len() implies !occurs_at(s, placeholder(), k) by {
        if occurs_at(s, placeholder(), k) {
            if k + 9 <= a.len() {
                assert(s.subrange(k, k + 9) =~= a.subrange(k, k + 9));
                assert(occurs_at(a, placeholder(), k));
            } else {
                let m = a.len() - k;
                assert(s.subrange(k, k + 9)[m] == s[a.len() as int]);
                assert(s[a.len() as int] == '{');
                assert(placeholder()[m] != '{');
            }
        }
    }
}

/// A template that begins with the placeholder begins, once substituted,
/// with the staging directory.
proof fn lemma_substitute_leading(t: Seq<char>, d: Seq<char>)
    ensures
        substitute(placeholder() + t, d) == d + substitute(t, d),
{
    let s = placeholder() + t;
    assert(s.subrange(0, 9) =~= placeholder());
    assert(s.skip(9) =~= t);
}

/// A template without the placeholder is left as it is.
proof fn lemma_substitute_none(c: Seq<char>, d: Seq<char>)
    requires
        !has_placeholder(c),
    ensures
        substitute(c, d) == c,
{
    let e = Seq::<char>::empty();
    assert(c + e =~= c);
    assert forall|k: int| 0 <= k < c.len() implies !occurs_at(c + e, placeholder(), k) by {
        assert(!occurs_at(c, placeholder(), k));
    }
    lemma_substitute_prefix(c, e, d);
    assert(c + substitute(e, d) =~= c);
}

/// A template that holds the placeholder exactly twice has both occurrences
/// replaced by the same staging directory, and nothing else changed.
pub proof fn lemma_substitute_twice(a: Seq<char>, b: Seq<char>, c: Seq<char>, d: Seq<char>)
    requires
        !has_placeholder(a),
        !has_placeholder(b),
        !has_placeholder(c),
    ensures
        substitute(a + placeholder() + b + placeholder() + c, d) == a + d + b + d + c,
{
    let p = placeholder();
    let t2 = p + c;
    let t1 = p + (b + t2);
    lemma_no_occurrence_before(a, b + t2);
    assert(a + p + (b + t2) =~= a + t1);
    assert(a + p + b + p + c =~= a + t1);
    lemma_substitute_prefix(a, t1, d);
    lemma_substitute_leading(b + t2, d);
    lemma_no_occurrence_before(b, c);
    assert(b + p + c =~= b + t2);
    lemma_substitute_prefix(b, t2, d);
    lemma_substitute_leading(c, d);
    lemma_substitute_none(c, d);
    assert(a + (d + (b + (d + c))) =~= a + d + b + d + c);
}

/// Without a staging directory the template reaches the shell unchanged.
pub proof fn lemma_no_destdir_unchanged(template: Seq<char>)
    ensures
        interpolated(template, None) == template,
{
}

} // verus!
