//! The order of strings (by code point, character after character, which is
//! also the order of their UTF-8 bytes) and sorted lists of distinct strings.

use vstd::prelude::*;

use crate::text::{chars_of, seq_strings, StrSeq};

verus! {

/// Whether `a` comes strictly before `b`.
pub open spec fn lex_lt(a: Seq<char>, b: Seq<char>) -> bool
    decreases a.len(),
{
    if a.len() == 0 {
        b.len() > 0
    } else if b.len() == 0 {
        false
    } else if (a[0] as u32) < (b[0] as u32) {
        true
    } else if a[0] == b[0] {
        lex_lt(a.drop_first(), b.drop_first())
    } else {
        false
    }
}

/// No string comes before itself.
pub proof fn lemma_lex_irreflexive(a: Seq<char>)
    ensures
        !lex_lt(a, a),
    decreases a.len(),
{
    if a.len() > 0 {
        lemma_lex_irreflexive(a.drop_first());
    }
}

/// Of two strings, at most one comes before the other.
pub proof fn lemma_lex_asymmetric(a: Seq<char>, b: Seq<char>)
    ensures
        !(lex_lt(a, b) && lex_lt(b, a)),
    decreases a.len(),
{
    if a.len() > 0 && b.len() > 0 && a[0] == b[0] {
        lemma_lex_asymmetric(a.drop_first(), b.drop_first());
    }
}

/// The order is transitive.
pub proof fn lemma_lex_transitive(a: Seq<char>, b: Seq<char>, c: Seq<char>)
    requires
        lex_lt(a, b),
        lex_lt(b, c),
    ensures
        lex_lt(a, c),
    decreases a.len(),
{
    if a.len() > 0 && b.len() > 0 && c.len() > 0 && a[0] == b[0] && b[0] == c[0] {
        lemma_lex_transitive(a.drop_first(), b.drop_first(), c.drop_first());
    }
}

/// Of two different strings, one comes before the other.
pub proof fn lemma_lex_total(a: Seq<char>, b: Seq<char>)
    requires
        a != b,
    ensures
        lex_lt(a, b) || lex_lt(b, a),
    decreases a.len(),
{
    if a.len() > 0 && b.len() > 0 {
        if a[0] == b[0] {
            if a.drop_first() == b.drop_first() {
                assert(a =~= seq![a[0]] + a.drop_first());
                assert(b =~= seq![b[0]] + b.drop_first());
            }
            lemma_lex_total(a.drop_first(), b.drop_first());
        } else {
            vstd::utf8::char_u32_cast(a[0], a[0] as u32);
            vstd::utf8::char_u32_cast(b[0], b[0] as u32);
        }
    } else if a.len() == 0 && b.len() == 0 {
        assert(a =~= b);
    }
}

proof fn lemma_lex_prefix_step(a: Seq<char>, b: Seq<char>, i: int)
    requires
        0 <= i,
        i < a.len(),
        i < b.len(),
        a.take(i) == b.take(i),
        a[i] == b[i],
    ensures
        lex_lt(a, b) == lex_lt(a.skip(i + 1), b.skip(i + 1)),
    decreases i,
{
    if i == 0 {
        assert(a.drop_first() =~= a.skip(1));
        assert(b.drop_first() =~= b.skip(1));
    } else {
        assert(a[0] == a.take(i)[0]);
        assert(b[0] == b.take(i)[0]);
        assert(a.drop_first().take(i - 1) =~= a.take(i).drop_first());
        assert(b.drop_first().take(i - 1) =~= b.take(i).drop_first());
        lemma_lex_prefix_step(a.drop_first(), b.drop_first(), i - 1);
        assert(a.drop_first().skip(i) =~= a.skip(i + 1));
        assert(b.drop_first().skip(i) =~= b.skip(i + 1));
    }
}

/// Whether `a` comes strictly before `b`, as the views of the two strings.
pub fn precedes(a: &str, b: &str) -> (r: bool)
    ensures
        r == lex_lt(a@, b@),
{
    let x = chars_of(a);
    let y = chars_of(b);
    let mut i: usize = 0;
    assert(x@.take(0) =~= y@.take(0));
    while i < x.len() && i < y.len() && x[i] == y[i]
        invariant
            i <= x.len(),
            i <= y.len(),
            x@ == a@,
            y@ == b@,
            x@.take(i as int) == y@.take(i as int),
        decreases x.len() - i,
    {
        assert(x@.take(i + 1) =~= x@.take(i as int).push(x@[i as int]));
        assert(y@.take(i + 1) =~= y@.take(i as int).push(y@[i as int]));
        i = i + 1;
    }
    proof {
        if i > 0 {
            assert(x@.take(i - 1) =~= x@.take(i as int).take(i - 1));
            assert(y@.take(i - 1) =~= y@.take(i as int).take(i - 1));
            assert(x@[i - 1] == x@.take(i as int)[i - 1]);
            assert(y@[i - 1] == y@.take(i as int)[i - 1]);
            lemma_lex_prefix_step(x@, y@, i - 1);
        }
        let xs = x@.skip(i as int);
        let ys = y@.skip(i as int);
        if i > 0 {
            assert(x@.skip(i - 1 + 1) =~= xs);
            assert(y@.skip(i - 1 + 1) =~= ys);
        } else {
            assert(x@.skip(0) =~= x@);
            assert(y@.skip(0) =~= y@);
        }
        if i < x.len() && i < y.len() {
            assert(xs[0] == x@[i as int]);
            assert(ys[0] == y@[i as int]);
        }
    }
    if i == x.len() {
        i < y.len()
    } else if i == y.len() {
        false
    } else {
        (x[i] as u32) < (y[i] as u32)
    }
}

/// Whether a list of strings is strictly increasing.
pub open spec fn strictly_sorted(s: StrSeq) -> bool {
    forall|i: int, j: int| 0 <= i < j < s.len() ==> lex_lt(#[trigger] s[i], #[trigger] s[j])
}

/// `s` with `x` added in its place: before the first element that is equal to
/// `x` or comes after it, unless that element is `x` itself.
pub open spec fn insert_sorted(s: StrSeq, x: Seq<char>) -> StrSeq
    decreases s.len(),
{
    if s.len() == 0 {
        seq![x]
    } else if s[0] == x {
        s
    } else if lex_lt(x, s[0]) {
        seq![x] + s
    } else {
        seq![s[0]] + insert_sorted(s.drop_first(), x)
    }
}

/// The distinct strings of `list`, in increasing order.
pub open spec fn sorted_distinct(list: StrSeq) -> StrSeq
    decreases list.len(),
{
    if list.len() == 0 {
        Seq::empty()
    } else {
        insert_sorted(sorted_distinct(list.drop_last()), list.last())
    }
}

proof fn lemma_insert_at(s: StrSeq, x: Seq<char>, j: int)
    requires
        0 <= j <= s.len(),
        forall|k: int| 0 <= k < j ==> s[k] != x && !lex_lt(x, #[trigger] s[k]),
        j < s.len() ==> (s[j] == x || lex_lt(x, s[j])),
    ensures
        insert_sorted(s, x) == (if j < s.len() && s[j] == x { s } else { s.take(j) + seq![x] + s.skip(j) }),
    decreases j,
{
    if j == 0 {
        if s.len() > 0 && s[0] != x {
            assert(s.take(0) + seq![x] + s.skip(0) =~= seq![x] + s);
        } else if s.len() == 0 {
            assert(s.take(0) + seq![x] + s.skip(0) =~= seq![x]);
        }
    } else {
        let t = s.drop_first();
        assert forall|k: int| 0 <= k < j - 1 implies t[k] != x && !lex_lt(x, #[trigger] t[k]) by {
            assert(t[k] == s[k + 1]);
        }
        lemma_insert_at(t, x, j - 1);
        if !(j < s.len() && s[j] == x) {
            assert(seq![s[0]] + (t.take(j - 1) + seq![x] + t.skip(j - 1)) =~= s.take(j) + seq![x] + s.skip(j));
        } else {
            assert(seq![s[0]] + t =~= s);
        }
    }
}

/// Inserting into a strictly increasing list keeps it strictly increasing and adds
/// exactly `x` to its elements.
pub proof fn lemma_insert_sorted(s: StrSeq, x: Seq<char>)
    requires
        strictly_sorted(s),
    ensures
        strictly_sorted(insert_sorted(s, x)),
        insert_sorted(s, x).to_set() == s.to_set().insert(x),
    decreases s.len(),
{
    broadcast use vstd::seq_lib::group_seq_properties;
    if s.len() == 0 {
        assert(seq![x].to_set() =~= Set::<Seq<char>>::empty().insert(x)) by {
            assert(seq![x].contains(x));
        }
        assert(s.to_set() =~= Set::<Seq<char>>::empty());
    } else if s[0] == x {
        assert(s.to_set().insert(x) =~= s.to_set()) by {
            assert(s.contains(s[0]));
        }
    } else if lex_lt(x, s[0]) {
        let r = seq![x] + s;
        assert forall|i: int, j: int| 0 <= i < j < r.len() implies lex_lt(#[trigger] r[i], #[trigger] r[j]) by {
            if i == 0 {
                if j > 1 {
                    lemma_lex_transitive(x, s[0], s[j - 1]);
                }
            } else {
                assert(r[i] == s[i - 1] && r[j] == s[j - 1]);
            }
        }
        assert(r.to_set() =~= s.to_set().insert(x)) by {
            assert forall|e| r.to_set().contains(e) implies s.to_set().insert(x).contains(e) by {
                let k = choose|k: int| 0 <= k < r.len() && r[k] == e;
                if k > 0 {
                    assert(s[k - 1] == e);
                }
            }
            assert forall|e| s.to_set().insert(x).contains(e) implies r.to_set().contains(e) by {
                if e == x {
                    assert(r[0] == x);
                } else {
                    let k = choose|k: int| 0 <= k < s.len() && s[k] == e;
                    assert(r[k + 1] == e);
                }
            }
        }
    } else {
        let t = s.drop_first();
        assert(strictly_sorted(t)) by {
            assert forall|i: int, j: int| 0 <= i < j < t.len() implies lex_lt(#[trigger] t[i], #[trigger] t[j]) by {
                assert(t[i] == s[i + 1] && t[j] == s[j + 1]);
            }
        }
        lemma_insert_sorted(t, x);
        let u = insert_sorted(t, x);
        let r = seq![s[0]] + u;
        lemma_lex_total(x, s[0]);
        assert(lex_lt(s[0], x));
        assert forall|i: int, j: int| 0 <= i < j < r.len() implies lex_lt(#[trigger] r[i], #[trigger] r[j]) by {
            if i == 0 {
                assert(u.to_set().contains(u[j - 1]));
                assert(s.to_set().contains(s[0]));
                if u[j - 1] == x {
                } else {
                    assert(t.to_set().contains(u[j - 1]));
                    let k = choose|k: int| 0 <= k < t.len() && t[k] == u[j - 1];
                    assert(s[k + 1] == t[k]);
                }
            } else {
                assert(r[i] == u[i - 1] && r[j] == u[j - 1]);
            }
        }
        assert(r.to_set() =~= s.to_set().insert(x)) by {
            assert(s =~= seq![s[0]] + t);
            assert forall|e| r.to_set().contains(e) implies s.to_set().insert(x).contains(e) by {
                let k = choose|k: int| 0 <= k < r.len() && r[k] == e;
                if k > 0 {
                    assert(u.to_set().contains(e));
                    if e != x {
                        assert(t.to_set().contains(e));
                        let m = choose|m: int| 0 <= m < t.len() && t[m] == e;
                        assert(s[m + 1] == e);
                    }
                } else {
                    assert(s[0] == e);
                }
            }
            assert forall|e| s.to_set().insert(x).contains(e) implies r.to_set().contains(e) by {
                if e == s[0] {
                    assert(r[0] == e);
                } else {
                    if e != x {
                        let k = choose|k: int| 0 <= k < s.len() && s[k] == e;
                        assert(t[k - 1] == e);
                        assert(t.to_set().contains(e));
                    }
                    assert(u.to_set().contains(e));
                    let m = choose|m: int| 0 <= m < u.len() && u[m] == e;
                    assert(r[m + 1] == e);
                }
            }
        }
    }
}

/// The result of `sorted_distinct` is strictly increasing and holds exactly the
/// strings of the list.
pub proof fn lemma_sorted_distinct(list: StrSeq)
    ensures
        strictly_sorted(sorted_distinct(list)),
        sorted_distinct(list).to_set() == list.to_set(),
    decreases list.len(),
{
    broadcast use vstd::seq_lib::group_seq_properties;
    if list.len() == 0 {
        assert(list.to_set() =~= Set::<Seq<char>>::empty());
        assert(Seq::<Seq<char>>::empty().to_set() =~= Set::<Seq<char>>::empty());
    } else {
        lemma_sorted_distinct(list.drop_last());
        lemma_insert_sorted(sorted_distinct(list.drop_last()), list.last());
        assert(list =~= list.drop_last().push(list.last()));
        assert(list.to_set() =~= list.drop_last().to_set().insert(list.last()));
    }
}

/// Adds `x` to a list of strings kept in increasing order without repeats.
pub fn insert_distinct(v: &mut Vec<String>, x: String)
    ensures
        seq_strings(final(v)@) == insert_sorted(seq_strings(old(v)@), x@),
{
    let ghost s = seq_strings(v@);
    let mut j: usize = 0;
    while j < v.len() && !(v[j] == x || precedes(x.as_str(), v[j].as_str()))
        invariant
            s == seq_strings(v@),
            j <= v.len(),
            forall|k: int| 0 <= k < j ==> s[k] != x@ && !lex_lt(x@, #[trigger] s[k]),
        decreases v.len() - j,
    {
        j = j + 1;
    }
    proof {
        lemma_insert_at(s, x@, j as int);
    }
    if j < v.len() && v[j] == x {
        return;
    }
    v.insert(j, x);
    assert(seq_strings(v@) =~= s.take(j as int) + seq![x@] + s.skip(j as int));
}

} // verus!
