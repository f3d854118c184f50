use vstd::prelude::*;

verus! {

/// `pat` occurs in `s` starting at position `i`.
pub open spec fn match_at(s: Seq<u8>, pat: Seq<u8>, i: int) -> bool {
    0 <= i && i + pat.len() <= s.len() && s.subrange(i, i + pat.len()) == pat
}

/// `pat` occurs somewhere in `s`. The empty pattern occurs everywhere.
pub open spec fn occurs(s: Seq<u8>, pat: Seq<u8>) -> bool {
    exists|i: int| match_at(s, pat, i)
}

/// Leftmost, non-overlapping replacement of every occurrence of `pat` in
/// `s` by `rep`. Bytes outside the matched occurrences pass through
/// unchanged; an empty pattern leaves `s` as it is.
pub open spec fn replace_all_spec(s: Seq<u8>, pat: Seq<u8>, rep: Seq<u8>) -> Seq<u8>
    decreases s.len(),
{
    if pat.len() == 0 || s.len() < pat.len() {
        s
    } else if s.subrange(0, pat.len() as int) == pat {
        rep + replace_all_spec(s.skip(pat.len() as int), pat, rep)
    } else {
        seq![s[0]] + replace_all_spec(s.skip(1), pat, rep)
    }
}

/// Rewrites an index document: every occurrence of the upstream artifact
/// base URL becomes the mirror's own base URL; everything else is
/// byte-identical to the input.
pub fn rewrite(html: &Vec<u8>, upstream_base: &Vec<u8>, mirror_base: &Vec<u8>) -> (r: Vec<u8>)
    ensures
        r@ == replace_all_spec(html@, upstream_base@, mirror_base@),
{
    replace_all(html, upstream_base, mirror_base)
}

/// Replaces every occurrence of `pat` in `s` by `rep`, leftmost first and
/// without overlap.
pub fn replace_all(s: &Vec<u8>, pat: &Vec<u8>, rep: &Vec<u8>) -> (r: Vec<u8>)
    ensures
        r@ == replace_all_spec(s@, pat@, rep@),
{
    if pat.len() == 0 {
        return copy_bytes(s);
    }
    let mut out: Vec<u8> = Vec::new();
    let mut i: usize = 0;
    proof {
        assert(s@.skip(0) =~= s@);
    }
    while i < s.len()
        invariant
            pat@.len() > 0,
            i <= s@.len(),
            replace_all_spec(s@, pat@, rep@) == out@ + replace_all_spec(
                s@.skip(i as int),
                pat@,
                rep@,
            ),
        decreases s@.len() - i,
    {
        let ghost out_before = out@;
        let ghost suffix = s@.skip(i as int);
        if s.len() - i >= pat.len() && matches_at(s, i, pat) {
            proof {
                assert(suffix.subrange(0, pat@.len() as int) =~= s@.subrange(
                    i as int,
                    i as int + pat@.len() as int,
                ));
                assert(suffix.skip(pat@.len() as int) =~= s@.skip(i as int + pat@.len() as int));
            }
            append_bytes(&mut out, rep);
            i += pat.len();
            proof {
                assert(replace_all_spec(suffix, pat@, rep@) == rep@ + replace_all_spec(
                    s@.skip(i as int),
                    pat@,
                    rep@,
                ));
                assert(out_before + replace_all_spec(suffix, pat@, rep@) =~= out@
                    + replace_all_spec(s@.skip(i as int), pat@, rep@));
            }
        } else {
            out.push(s[i]);
            i += 1;
            proof {
                if suffix.len() < pat@.len() {
                    assert(replace_all_spec(suffix, pat@, rep@) == suffix);
                    assert(s@.skip(i as int) =~= suffix.skip(1));
                    assert(replace_all_spec(suffix.skip(1), pat@, rep@) == suffix.skip(1));
                    assert(out_before + suffix =~= out@ + suffix.skip(1));
                } else {
                    assert(suffix.subrange(0, pat@.len() as int) =~= s@.subrange(
                        i as int - 1,
                        i as int - 1 + pat@.len() as int,
                    ));
                    assert(suffix.subrange(0, pat@.len() as int) != pat@);
                    assert(replace_all_spec(suffix, pat@, rep@) == seq![suffix[0]]
                        + replace_all_spec(suffix.skip(1), pat@, rep@));
                    assert(s@.skip(i as int) =~= suffix.skip(1));
                    assert(out_before + (seq![suffix[0]] + replace_all_spec(
                        suffix.skip(1),
                        pat@,
                        rep@,
                    )) =~= out@ + replace_all_spec(s@.skip(i as int), pat@, rep@));
                }
            }
        }
    }
    proof {
        assert(s@.skip(i as int).len() == 0);
        assert(replace_all_spec(s@.skip(i as int), pat@, rep@) == s@.skip(i as int));
        assert(out@ + s@.skip(i as int) =~= out@);
    }
    out
}

/// Whether `pat` occurs anywhere in `s`.
pub fn contains_pattern(s: &Vec<u8>, pat: &Vec<u8>) -> (r: bool)
    ensures
        r == occurs(s@, pat@),
{
    if pat.len() == 0 {
        proof {
            assert(s@.subrange(0, 0) =~= pat@);
            assert(match_at(s@, pat@, 0));
        }
        return true;
    }
    if pat.len() > s.len() {
        proof {
            assert(forall|i: int| !match_at(s@, pat@, i));
        }
        return false;
    }
    let slen = s.len();
    let last_start = slen - pat.len();
    let mut i: usize = 0;
    while i <= last_start
        invariant
            pat@.len() > 0,
            s@.len() == slen,
            last_start == s@.len() - pat@.len(),
            i <= last_start + 1,
            forall|j: int| 0 <= j < i ==> !match_at(s@, pat@, j),
        decreases last_start + 1 - i,
    {
        if matches_at(s, i, pat) {
            proof {
                assert(match_at(s@, pat@, i as int));
            }
            return true;
        }
        i += 1;
    }
    proof {
        assert(forall|j: int| !match_at(s@, pat@, j));
    }
    false
}

/// Whether `pat` occurs in `s` at exactly position `i`.
fn matches_at(s: &Vec<u8>, i: usize, pat: &Vec<u8>) -> (r: bool)
    requires
        i + pat@.len() <= s@.len(),
    ensures
        r == match_at(s@, pat@, i as int),
{
    let slen = s.len();
    let mut j: usize = 0;
    while j < pat.len()
        invariant
            s@.len() == slen,
            i + pat@.len() <= s@.len(),
            j <= pat@.len(),
            forall|k: int| 0 <= k < j ==> s@[i + k] == pat@[k],
        decreases pat@.len() - j,
    {
        if s[i + j] != pat[j] {
            proof {
                assert(s@.subrange(i as int, i as int + pat@.len() as int)[j as int] == s@[i as int
                    + j as int]);
            }
            return false;
        }
        j += 1;
    }
    proof {
        assert(s@.subrange(i as int, i as int + pat@.len() as int) =~= pat@);
    }
    true
}

/// Copies a byte vector, element by element.
fn copy_bytes(b: &Vec<u8>) -> (r: Vec<u8>)
    ensures
        r@ == b@,
{
    let mut r: Vec<u8> = Vec::new();
    append_bytes(&mut r, b);
    proof {
        assert(Seq::<u8>::empty() + b@ =~= b@);
    }
    r
}

/// Appends all of `src` to `dst`.
fn append_bytes(dst: &mut Vec<u8>, src: &Vec<u8>)
    ensures
        final(dst)@ == old(dst)@ + src@,
{
    let mut j: usize = 0;
    proof {
        assert(old(dst)@ + src@.take(0) =~= old(dst)@);
    }
    while j < src.len()
        invariant
            j <= src@.len(),
            dst@ == old(dst)@ + src@.take(j as int),
        decreases src@.len() - j,
    {
        dst.push(src[j]);
        proof {
            assert((old(dst)@ + src@.take(j as int)).push(src@[j as int]) =~= old(dst)@ + src@.take(
                j as int + 1,
            ));
        }
        j += 1;
    }
    proof {
        assert(old(dst)@ + src@.take(src@.len() as int) =~= old(dst)@ + src@);
    }
}

/// Law (rewrite exactness): in a document `pre + pat + post` whose first
/// occurrence of `pat` is the one shown — no match starts inside `pre` —
/// the rewrite substitutes that occurrence exactly: the prefix is
/// byte-identical, `pat` becomes `rep`, and the rest is rewritten the same
/// way. Applied occurrence by occurrence, this pins the whole transform.
pub proof fn lemma_rewrite_first_occurrence(
    pre: Seq<u8>,
    pat: Seq<u8>,
    post: Seq<u8>,
    rep: Seq<u8>,
)
    requires
        pat.len() > 0,
        forall|i: int| 0 <= i < pre.len() ==> !match_at(pre + pat + post, pat, i),
    ensures
        replace_all_spec(pre + pat + post, pat, rep) == pre + rep + replace_all_spec(
            post,
            pat,
            rep,
        ),
    decreases pre.len(),
{
    let s = pre + pat + post;
    if pre.len() == 0 {
        assert(s.subrange(0, pat.len() as int) =~= pat);
        assert(s.skip(pat.len() as int) =~= post);
        assert(pre + rep + replace_all_spec(post, pat, rep) =~= rep + replace_all_spec(
            post,
            pat,
            rep,
        ));
    } else {
        assert(!match_at(s, pat, 0));
        assert(s.len() >= pat.len());
        assert(s.subrange(0, pat.len() as int) != pat) by {
            if s.subrange(0, pat.len() as int) == pat {
                assert(match_at(s, pat, 0));
            }
        }
        let s1 = pre.skip(1) + pat + post;
        assert(s.skip(1) =~= s1);
        assert forall|i: int| 0 <= i < pre.skip(1).len() implies !match_at(s1, pat, i) by {
            if match_at(s1, pat, i) {
                assert(s1.subrange(i, i + pat.len()) =~= s.subrange(i + 1, i + 1 + pat.len()));
                assert(match_at(s, pat, i + 1));
            }
        }
        lemma_rewrite_first_occurrence(pre.skip(1), pat, post, rep);
        assert(seq![s[0]] + (pre.skip(1) + rep + replace_all_spec(post, pat, rep)) =~= pre + rep
            + replace_all_spec(post, pat, rep));
    }
}

/// Law: a document in which the pattern does not occur is left untouched.
/// (In particular, anchors that do not carry the upstream base URL are
/// byte-identical after a rewrite, and rewriting a second time changes
/// nothing once the upstream base no longer occurs.)
pub proof fn lemma_rewrite_without_occurrence(s: Seq<u8>, pat: Seq<u8>, rep: Seq<u8>)
    requires
        !occurs(s, pat),
    ensures
        replace_all_spec(s, pat, rep) == s,
    decreases s.len(),
{
    if pat.len() == 0 {
        assert(s.subrange(0, 0) =~= pat);
        assert(match_at(s, pat, 0));
    } else if s.len() < pat.len() {
    } else {
        assert(s.subrange(0, pat.len() as int) != pat) by {
            if s.subrange(0, pat.len() as int) == pat {
                assert(match_at(s, pat, 0));
            }
        }
        assert(!occurs(s.skip(1), pat)) by {
            if occurs(s.skip(1), pat) {
                let i = choose|i: int| match_at(s.skip(1), pat, i);
                assert(s.skip(1).subrange(i, i + pat.len()) =~= s.subrange(
                    i + 1,
                    i + 1 + pat.len(),
                ));
                assert(match_at(s, pat, i + 1));
            }
        }
        lemma_rewrite_without_occurrence(s.skip(1), pat, rep);
        assert(seq![s[0]] + s.skip(1) =~= s);
    }
}

} // verus!
