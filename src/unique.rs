//! Ordered name lists without repeats: the first occurrence of each name is
//! kept, in the order of first occurrence.

use vstd::prelude::*;

verus! {

/// The text of each string of a list.
pub open spec fn texts(v: Seq<String>) -> Seq<Seq<char>> {
    v.map_values(|s: String| s@)
}

/// `s` with every repeat of an earlier entry removed.
pub open spec fn dedup(s: Seq<Seq<char>>) -> Seq<Seq<char>>
    decreases s.len(),
{
    if s.len() == 0 {
        s
    } else {
        let prefix = dedup(s.drop_last());
        if prefix.contains(s.last()) {
            prefix
        } else {
            prefix.push(s.last())
        }
    }
}

/// `members` without repeats, with `name` added at the end unless already there.
pub open spec fn with_member(members: Seq<Seq<char>>, name: Seq<char>) -> Seq<Seq<char>> {
    dedup(members.push(name))
}

/// The number of entries of `s` equal to `x`.
pub open spec fn occurrences(s: Seq<Seq<char>>, x: Seq<char>) -> nat
    decreases s.len(),
{
    if s.len() == 0 {
        0
    } else {
        occurrences(s.drop_last(), x) + if s.last() == x {
            1nat
        } else {
            0nat
        }
    }
}

/// The de-duplicated list holds no repeats and exactly the names of the input.
pub proof fn lemma_dedup_props(s: Seq<Seq<char>>)
    ensures
        dedup(s).no_duplicates(),
        forall|x: Seq<char>| dedup(s).contains(x) <==> s.contains(x),
    decreases s.len(),
{
    if s.len() > 0 {
        let p = s.drop_last();
        lemma_dedup_props(p);
        assert forall|x: Seq<char>| p.contains(x) || x == s.last() <==> s.contains(x) by {
            if s.contains(x) {
                let k = choose|k: int| 0 <= k < s.len() && s[k] == x;
                if k < s.len() - 1 {
                    assert(p[k] == x);
                }
            }
            if p.contains(x) {
                let k = choose|k: int| 0 <= k < p.len() && p[k] == x;
                assert(s[k] == x);
            }
            if x == s.last() {
                assert(s[s.len() - 1] == x);
            }
        }
        let d = dedup(p);
        if !d.contains(s.last()) {
            assert forall|x: Seq<char>| d.push(s.last()).contains(x) <==> d.contains(x) || x == s.last() by {
                if d.push(s.last()).contains(x) {
                    let k = choose|k: int| 0 <= k < d.len() + 1 && d.push(s.last())[k] == x;
                    if k < d.len() {
                        assert(d[k] == x);
                    }
                }
                if d.contains(x) {
                    let k = choose|k: int| 0 <= k < d.len() && d[k] == x;
                    assert(d.push(s.last())[k] == x);
                }
                if x == s.last() {
                    assert(d.push(s.last())[d.len() as int] == x);
                }
            }
            assert forall|i: int, j: int| 0 <= i < d.len() + 1 && 0 <= j < d.len() + 1 && i != j
                implies d.push(s.last())[i] != d.push(s.last())[j] by {
                if i == d.len() {
                    assert(d[j] == d.push(s.last())[j]);
                } else if j == d.len() {
                    assert(d[i] == d.push(s.last())[i]);
                }
            }
        }
    }
}

/// A list without repeats is its own de-duplication.
pub proof fn lemma_dedup_of_unique(s: Seq<Seq<char>>)
    requires
        s.no_duplicates(),
    ensures
        dedup(s) == s,
    decreases s.len(),
{
    if s.len() > 0 {
        let p = s.drop_last();
        assert(p.no_duplicates()) by {
            assert forall|i: int, j: int| 0 <= i < p.len() && 0 <= j < p.len() && i != j
                implies p[i] != p[j] by {
                assert(p[i] == s[i] && p[j] == s[j]);
            }
        }
        lemma_dedup_of_unique(p);
        if p.contains(s.last()) {
            let k = choose|k: int| 0 <= k < p.len() && p[k] == s.last();
            assert(s[k] == s[s.len() - 1]);
        }
        assert(p.push(s.last()) =~= s);
    }
}

/// A list without repeats holds each of its names exactly once.
pub proof fn lemma_unique_occurs_once(s: Seq<Seq<char>>, x: Seq<char>)
    requires
        s.no_duplicates(),
        s.contains(x),
    ensures
        occurrences(s, x) == 1,
    decreases s.len(),
{
    let p = s.drop_last();
    assert(p.no_duplicates()) by {
        assert forall|i: int, j: int| 0 <= i < p.len() && 0 <= j < p.len() && i != j
            implies p[i] != p[j] by {
            assert(p[i] == s[i] && p[j] == s[j]);
        }
    }
    if s.last() == x {
        if p.contains(x) {
            let k = choose|k: int| 0 <= k < p.len() && p[k] == x;
            assert(s[k] == s[s.len() - 1]);
        }
        lemma_absent_occurs_never(p, x);
    } else {
        let k = choose|k: int| 0 <= k < s.len() && s[k] == x;
        assert(p[k] == x);
        lemma_unique_occurs_once(p, x);
    }
}

/// A name that a list does not hold occurs in it zero times.
pub proof fn lemma_absent_occurs_never(s: Seq<Seq<char>>, x: Seq<char>)
    requires
        !s.contains(x),
    ensures
        occurrences(s, x) == 0,
    decreases s.len(),
{
    if s.len() > 0 {
        let p = s.drop_last();
        assert(s[s.len() - 1] != x);
        assert forall|y: Seq<char>| p.contains(y) implies s.contains(y) by {
            let k = choose|k: int| 0 <= k < p.len() && p[k] == y;
            assert(s[k] == y);
        }
        lemma_absent_occurs_never(p, x);
    }
}


/// Registering a name leaves it in the list exactly once, and registering it
/// again changes nothing.
pub proof fn lemma_member_listed_once(members: Seq<Seq<char>>, name: Seq<char>)
    ensures
        occurrences(with_member(members, name), name) == 1,
        with_member(with_member(members, name), name) == with_member(members, name),
{
    let w = with_member(members, name);
    lemma_dedup_props(members.push(name));
    assert(members.push(name)[members.len() as int] == name);
    assert(members.push(name).contains(name));
    assert(w.contains(name));
    lemma_unique_occurs_once(w, name);
    lemma_dedup_of_unique(w);
    assert(w.push(name).drop_last() =~= w);
}

/// Whether `v` holds a string with the text `name`.
pub fn contains_text(v: &Vec<String>, name: &String) -> (r: bool)
    ensures
        r == texts(v@).contains(name@),
{
    let mut i: usize = 0;
    while i < v.len()
        invariant
            i <= v.len(),
            forall|k: int| 0 <= k < i ==> v@[k]@ != name@,
        decreases v.len() - i,
    {
        if v[i].eq(name) {
            assert(texts(v@)[i as int] == name@);
            return true;
        }
        i += 1;
    }
    assert forall|k: int| 0 <= k < texts(v@).len() implies texts(v@)[k] != name@ by {
        assert(v@[k]@ != name@);
    }
    false
}

/// `names` with every repeat of an earlier entry removed.
pub fn dedup_names(names: &Vec<String>) -> (r: Vec<String>)
    ensures
        texts(r@) == dedup(texts(names@)),
{
    let mut out: Vec<String> = Vec::new();
    let mut i: usize = 0;
    while i < names.len()
        invariant
            i <= names.len(),
            texts(out@) == dedup(texts(names@).take(i as int)),
        decreases names.len() - i,
    {
        let name = &names[i];
        let ghost pre = texts(names@).take(i as int);
        let ghost next = texts(names@).take(i as int + 1);
        assert(next.drop_last() =~= pre);
        assert(next.last() == name@);
        let ghost before = out@;
        if !contains_text(&out, name) {
            out.push(name.clone());
            assert(texts(out@) =~= texts(before).push(name@));
        }
        i += 1;
    }
    assert(texts(names@).take(names.len() as int) =~= texts(names@));
    out
}

} // verus!
