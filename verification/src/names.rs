//! Lists of names (opaque string identifiers) compared by their text:
//! membership, removal, and the lemmas that keep such lists duplicate
//! free.  Used for the session's peer set and for the window-name sets of
//! the demo shell.

use vstd::prelude::*;

verus! {

/// The texts of a list of names.
pub open spec fn name_seq(v: Seq<String>) -> Seq<Seq<char>> {
    v.map_values(|q: String| q@)
}

/// The list with every occurrence of `t` removed, order kept.
pub open spec fn seq_remove_all(s: Seq<Seq<char>>, t: Seq<char>) -> Seq<Seq<char>>
    decreases s.len(),
{
    if s.len() == 0 {
        Seq::<Seq<char>>::empty()
    } else {
        let rest = seq_remove_all(s.drop_last(), t);
        if s.last() == t {
            rest
        } else {
            rest.push(s.last())
        }
    }
}

/// Whatever the removal leaves was already in the list.
pub proof fn lemma_seq_remove_all_membership(s: Seq<Seq<char>>, t: Seq<char>, x: Seq<char>)
    requires
        seq_remove_all(s, t).contains(x),
    ensures
        s.contains(x),
    decreases s.len(),
{
    if s.len() > 0 {
        let rest = seq_remove_all(s.drop_last(), t);
        if rest.contains(x) {
            lemma_seq_remove_all_membership(s.drop_last(), t, x);
            let j = choose|j: int| 0 <= j < s.drop_last().len() && s.drop_last()[j] == x;
            assert(s[j] == x);
        } else {
            assert(s.last() == x);
            assert(s[s.len() - 1] == x);
        }
    }
}

/// The removal keeps exactly the entries whose text differs from `t`.
pub proof fn lemma_seq_remove_all_contains(s: Seq<Seq<char>>, t: Seq<char>, x: Seq<char>)
    ensures
        seq_remove_all(s, t).contains(x) <==> (s.contains(x) && x != t),
    decreases s.len(),
{
    if s.len() > 0 {
        let dl = s.drop_last();
        lemma_seq_remove_all_contains(dl, t, x);
        let rest = seq_remove_all(dl, t);
        let out = seq_remove_all(s, t);
        if s.last() == t {
            assert(out == rest);
            if s.contains(x) && x != t {
                let j = choose|j: int| 0 <= j < s.len() && s[j] == x;
                assert(j < s.len() - 1);
                assert(dl[j] == x);
            }
        } else {
            assert(out == rest.push(s.last()));
            if out.contains(x) {
                let k = choose|k: int| 0 <= k < out.len() && out[k] == x;
                if k < rest.len() {
                    assert(rest[k] == x);
                    assert(rest.contains(x));
                } else {
                    assert(x == s.last());
                    assert(s[s.len() - 1] == x);
                }
            }
            if s.contains(x) && x != t {
                let j = choose|j: int| 0 <= j < s.len() && s[j] == x;
                if j < s.len() - 1 {
                    assert(dl[j] == x);
                    assert(rest.contains(x));
                    let k = choose|k: int| 0 <= k < rest.len() && rest[k] == x;
                    assert(out[k] == x);
                } else {
                    assert(out[out.len() - 1] == x);
                }
            }
        }
    }
}

/// Removal keeps the remaining entries pairwise distinct.
pub proof fn lemma_seq_remove_all_distinct(s: Seq<Seq<char>>, t: Seq<char>)
    requires
        forall|i: int, j: int| 0 <= i < j < s.len() ==> s[i] != s[j],
    ensures
        forall|i: int, j: int|
            0 <= i < j < seq_remove_all(s, t).len() ==> seq_remove_all(s, t)[i] != seq_remove_all(
                s,
                t,
            )[j],
    decreases s.len(),
{
    if s.len() > 0 {
        let dl = s.drop_last();
        assert(forall|i: int, j: int| 0 <= i < j < dl.len() ==> dl[i] != dl[j]);
        lemma_seq_remove_all_distinct(dl, t);
        let rest = seq_remove_all(dl, t);
        if s.last() != t {
            assert forall|k: int| 0 <= k < rest.len() implies rest[k] != s.last() by {
                if rest[k] == s.last() {
                    assert(rest.contains(s.last()));
                    lemma_seq_remove_all_membership(dl, t, s.last());
                    let j = choose|j: int| 0 <= j < dl.len() && dl[j] == s.last();
                    assert(s[j] == s[s.len() - 1]);
                }
            }
        }
    }
}

/// True when some entry of the list has the text `t`.
pub fn vec_contains_name(v: &Vec<String>, t: &String) -> (r: bool)
    ensures
        r == name_seq(v@).contains(t@),
{
    let ghost view = name_seq(v@);
    let mut i: usize = 0;
    while i < v.len()
        invariant
            i <= v@.len(),
            view == name_seq(v@),
            forall|k: int| 0 <= k < i ==> view[k] != t@,
        decreases v@.len() - i,
    {
        if v[i].eq(t) {
            assert(view[i as int] == t@);
            return true;
        }
        i = i + 1;
    }
    assert(forall|k: int| 0 <= k < view.len() ==> view[k] != t@);
    false
}

/// Removes every entry whose text is `t`, keeping the order of the rest.
pub fn vec_remove_name(v: &mut Vec<String>, t: &String)
    ensures
        name_seq(final(v)@) == seq_remove_all(name_seq(old(v)@), t@),
{
    let ghost orig = name_seq(old(v)@);
    let mut out: Vec<String> = Vec::new();
    let mut i: usize = 0;
    while i < v.len()
        invariant
            i <= v@.len(),
            *v == *old(v),
            orig == name_seq(v@),
            name_seq(out@) == seq_remove_all(orig.subrange(0, i as int), t@),
        decreases v@.len() - i,
    {
        let ghost prefix = orig.subrange(0, i as int);
        let ghost next = orig.subrange(0, i + 1);
        proof {
            assert(next.drop_last() =~= prefix);
            assert(next.last() == orig[i as int]);
        }
        if !v[i].eq(t) {
            out.push(v[i].clone());
            assert(name_seq(out@) =~= seq_remove_all(prefix, t@).push(orig[i as int]));
        }
        i = i + 1;
    }
    proof {
        assert(orig.subrange(0, orig.len() as int) =~= orig);
    }
    *v = out;
}

/// Membership in a pushed list is membership in the list or the new entry.
pub proof fn lemma_push_contains(s: Seq<Seq<char>>, e: Seq<char>, x: Seq<char>)
    ensures
        s.push(e).contains(x) <==> (s.contains(x) || x == e),
{
    if s.push(e).contains(x) {
        let k = choose|k: int| 0 <= k < s.push(e).len() && s.push(e)[k] == x;
        if k < s.len() {
            assert(s[k] == x);
        }
    }
    if s.contains(x) {
        let k = choose|k: int| 0 <= k < s.len() && s[k] == x;
        assert(s.push(e)[k] == x);
    }
    if x == e {
        assert(s.push(e)[s.len() as int] == x);
    }
}

} // verus!
