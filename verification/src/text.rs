//! Character-sequence utilities: exact string comparison and literal
//! substring replacement, the operation the page template is filled with.
use vstd::prelude::*;
use vstd::string::StrSliceExecFns;
use vstd::string::StringExecFns;

verus! {

/// `pat` occurs in `s` starting at position `i`.
pub open spec fn occurs_at(s: Seq<char>, pat: Seq<char>, i: int) -> bool {
    0 <= i && i + pat.len() <= s.len() && s.subrange(i, i + pat.len() as int) == pat
}

/// Every occurrence of `pat` in `s`, scanned left to right without overlap,
/// replaced by `rep`; replaced text is not rescanned. An empty pattern
/// replaces nothing.
pub open spec fn spec_replace(s: Seq<char>, pat: Seq<char>, rep: Seq<char>) -> Seq<char>
    decreases s.len(),
{
    if pat.len() == 0 || s.len() < pat.len() {
        s
    } else if s.subrange(0, pat.len() as int) == pat {
        rep + spec_replace(s.skip(pat.len() as int), pat, rep)
    } else {
        seq![s[0]] + spec_replace(s.skip(1), pat, rep)
    }
}

proof fn lemma_replace_unfold_match(s: Seq<char>, pat: Seq<char>, rep: Seq<char>)
    requires
        pat.len() >= 1,
        occurs_at(s, pat, 0),
    ensures
        spec_replace(s, pat, rep) == rep + spec_replace(s.skip(pat.len() as int), pat, rep),
{
}

proof fn lemma_replace_unfold_nomatch(s: Seq<char>, pat: Seq<char>, rep: Seq<char>)
    requires
        pat.len() >= 1,
        s.len() >= 1,
        !occurs_at(s, pat, 0),
    ensures
        spec_replace(s, pat, rep) == seq![s[0]] + spec_replace(s.skip(1), pat, rep),
{
    if s.len() < pat.len() {
        assert(s.skip(1).len() < pat.len());
        assert(s =~= seq![s[0]] + s.skip(1));
    }
}

/// The substitution law: where `pat` first occurs after a prefix `a` that
/// holds no occurrence, replacement keeps `a`, substitutes `rep` for that
/// occurrence word for word, and goes on with the rest.
pub proof fn lemma_replace_at_first_occurrence(
    a: Seq<char>,
    pat: Seq<char>,
    b: Seq<char>,
    rep: Seq<char>,
)
    requires
        pat.len() >= 1,
        forall|j: int| 0 <= j < a.len() ==> !occurs_at(a + pat + b, pat, j),
    ensures
        spec_replace(a + pat + b, pat, rep) == a + rep + spec_replace(b, pat, rep),
    decreases a.len(),
{
    let s = a + pat + b;
    if a.len() == 0 {
        assert(s.subrange(0, pat.len() as int) =~= pat);
        assert(occurs_at(s, pat, 0));
        lemma_replace_unfold_match(s, pat, rep);
        assert(s.skip(pat.len() as int) =~= b);
        assert(a + rep + spec_replace(b, pat, rep) =~= rep + spec_replace(b, pat, rep));
    } else {
        assert(!occurs_at(s, pat, 0));
        lemma_replace_unfold_nomatch(s, pat, rep);
        let a2 = a.skip(1);
        assert(s.skip(1) =~= a2 + pat + b);
        assert forall|j: int| 0 <= j < a2.len() implies !occurs_at(a2 + pat + b, pat, j) by {
            if occurs_at(a2 + pat + b, pat, j) {
                assert(s.subrange(j + 1, j + 1 + pat.len() as int) =~= (a2 + pat + b).subrange(
                    j,
                    j + pat.len() as int,
                ));
                assert(occurs_at(s, pat, j + 1));
            }
        };
        lemma_replace_at_first_occurrence(a2, pat, b, rep);
        assert(seq![s[0]] + (a2 + rep + spec_replace(b, pat, rep)) =~= a + rep + spec_replace(
            b,
            pat,
            rep,
        ));
    }
}

/// A string in which the pattern does not occur is left as it is.
pub proof fn lemma_replace_absent(s: Seq<char>, pat: Seq<char>, rep: Seq<char>)
    requires
        pat.len() >= 1,
        forall|j: int| !occurs_at(s, pat, j),
    ensures
        spec_replace(s, pat, rep) == s,
    decreases s.len(),
{
    if s.len() >= pat.len() {
        assert(!occurs_at(s, pat, 0));
        lemma_replace_unfold_nomatch(s, pat, rep);
        assert forall|j: int| !occurs_at(s.skip(1), pat, j) by {
            if occurs_at(s.skip(1), pat, j) {
                assert(s.subrange(j + 1, j + 1 + pat.len() as int) =~= s.skip(1).subrange(
                    j,
                    j + pat.len() as int,
                ));
                assert(occurs_at(s, pat, j + 1));
            }
        };
        lemma_replace_absent(s.skip(1), pat, rep);
        assert(s =~= seq![s[0]] + s.skip(1));
    }
}

/// Exact, case-sensitive string equality.
pub fn str_eq(a: &str, b: &str) -> (r: bool)
    ensures
        r == (a@ == b@),
{
    let alen = a.unicode_len();
    let blen = b.unicode_len();
    if alen != blen {
        return false;
    }
    let mut i: usize = 0;
    while i < alen
        invariant
            alen == a@.len(),
            blen == b@.len(),
            alen == blen,
            i <= alen,
            forall|j: int| 0 <= j < i ==> a@[j] == b@[j],
        decreases alen - i,
    {
        if a.get_char(i) != b.get_char(i) {
            return false;
        }
        i += 1;
    }
    proof {
        assert(a@ =~= b@);
    }
    true
}

/// Whether `pat` occurs in `s` at position `i`.
pub fn matches_at(s: &str, i: usize, pat: &str) -> (r: bool)
    requires
        i <= s@.len(),
    ensures
        r == occurs_at(s@, pat@, i as int),
{
    let n = s.unicode_len();
    let pl = pat.unicode_len();
    if pl > n - i {
        return false;
    }
    let mut j: usize = 0;
    while j < pl
        invariant
            n == s@.len(),
            pl == pat@.len(),
            i + pl <= n,
            j <= pl,
            forall|k: int| 0 <= k < j ==> s@[i + k] == pat@[k],
        decreases pl - j,
    {
        if s.get_char(i + j) != pat.get_char(j) {
            proof {
                let sub = s@.subrange(i as int, i as int + pat@.len() as int);
                if sub == pat@ {
                    assert(sub[j as int] == s@[i + j]);
                }
            }
            return false;
        }
        j += 1;
    }
    proof {
        assert(s@.subrange(i as int, i as int + pat@.len() as int) =~= pat@);
    }
    true
}

/// Replaces every occurrence of `pat` in `s` by `rep`, left to right,
/// without rescanning replaced text.
pub fn replace_all(s: &str, pat: &str, rep: &str) -> (r: String)
    requires
        pat@.len() >= 1,
    ensures
        r@ == spec_replace(s@, pat@, rep@),
{
    let n = s.unicode_len();
    let pl = pat.unicode_len();
    let mut out = String::new();
    let mut i: usize = 0;
    proof {
        assert(s@.skip(0) =~= s@);
        assert(out@ + spec_replace(s@, pat@, rep@) =~= spec_replace(s@, pat@, rep@));
    }
    while i < n
        invariant
            n == s@.len(),
            pl == pat@.len(),
            pl >= 1,
            i <= n,
            out@ + spec_replace(s@.skip(i as int), pat@, rep@) == spec_replace(s@, pat@, rep@),
        decreases n - i,
    {
        let ghost rest = s@.skip(i as int);
        let ghost out0 = out@;
        if matches_at(s, i, pat) {
            out.append(rep);
            proof {
                assert(rest.subrange(0, pat@.len() as int) =~= s@.subrange(
                    i as int,
                    i as int + pat@.len() as int,
                ));
                assert(occurs_at(rest, pat@, 0));
                lemma_replace_unfold_match(rest, pat@, rep@);
                assert(rest.skip(pat@.len() as int) =~= s@.skip(i as int + pl as int));
                assert(out@ + spec_replace(s@.skip(i as int + pl as int), pat@, rep@) =~= out0
                    + spec_replace(rest, pat@, rep@));
            }
            i += pl;
        } else {
            let piece = s.substring_char(i, i + 1);
            out.append(piece);
            proof {
                assert(!occurs_at(rest, pat@, 0)) by {
                    if occurs_at(rest, pat@, 0) {
                        assert(rest.subrange(0, pat@.len() as int) =~= s@.subrange(
                            i as int,
                            i as int + pat@.len() as int,
                        ));
                        assert(occurs_at(s@, pat@, i as int));
                    }
                }
                lemma_replace_unfold_nomatch(rest, pat@, rep@);
                assert(rest.skip(1) =~= s@.skip(i as int + 1));
                assert(piece@ =~= seq![rest[0]]);
                assert(out@ + spec_replace(s@.skip(i as int + 1), pat@, rep@) =~= out0
                    + spec_replace(rest, pat@, rep@));
            }
            i += 1;
        }
    }
    proof {
        assert(s@.skip(n as int) =~= Seq::<char>::empty());
        assert(spec_replace(Seq::<char>::empty(), pat@, rep@) == Seq::<char>::empty());
        assert(out@ + Seq::<char>::empty() =~= out@);
    }
    out
}

} // verus!
