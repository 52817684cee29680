//! Lexicographic order on text and strictly sorted text sets.
//!
//! Text is ordered character by character by code point, a proper prefix
//! sorting first. A strictly sorted sequence has no repeated element, so its
//! order is deterministic whatever the insertion order was.
use vstd::prelude::*;
use vstd::string::*;

verus! {

/// Lexicographic comparison starting at position `i`, both prefixes agreeing.
pub open spec fn text_less_from(a: Seq<char>, b: Seq<char>, i: int) -> bool
    decreases a.len() - i,
{
    if i < 0 || i >= a.len() {
        0 <= i < b.len()
    } else if i >= b.len() {
        false
    } else if a[i] != b[i] {
        (a[i] as int) < (b[i] as int)
    } else {
        text_less_from(a, b, i + 1)
    }
}

/// Strict lexicographic order on text.
pub open spec fn text_less(a: Seq<char>, b: Seq<char>) -> bool {
    text_less_from(a, b, 0)
}

/// The characters of every string in order.
pub open spec fn texts(v: Seq<String>) -> Seq<Seq<char>> {
    v.map_values(|s: String| s@)
}

/// Every element is strictly below every later one.
pub open spec fn strictly_sorted(s: Seq<Seq<char>>) -> bool {
    forall|i: int, j: int| 0 <= i < j < s.len() ==> text_less(#[trigger] s[i], #[trigger] s[j])
}

proof fn lemma_text_less_from_irreflexive(a: Seq<char>, i: int)
    requires
        0 <= i,
    ensures
        !text_less_from(a, a, i),
    decreases a.len() - i,
{
    if i < a.len() {
        lemma_text_less_from_irreflexive(a, i + 1);
    }
}

proof fn lemma_text_less_from_total(a: Seq<char>, b: Seq<char>, i: int)
    requires
        0 <= i <= a.len(),
        i <= b.len(),
        a.subrange(0, i) == b.subrange(0, i),
    ensures
        a == b || text_less_from(a, b, i) || text_less_from(b, a, i),
        !(text_less_from(a, b, i) && text_less_from(b, a, i)),
    decreases a.len() - i,
{
    if i == a.len() || i == b.len() {
        if i == a.len() && i == b.len() {
            assert(a =~= a.subrange(0, i));
            assert(b =~= b.subrange(0, i));
        }
    } else if a[i] != b[i] {
    } else {
        assert(a.subrange(0, i + 1) =~= a.subrange(0, i).push(a[i]));
        assert(b.subrange(0, i + 1) =~= b.subrange(0, i).push(b[i]));
        lemma_text_less_from_total(a, b, i + 1);
    }
}

proof fn lemma_text_less_from_transitive(a: Seq<char>, b: Seq<char>, c: Seq<char>, i: int)
    requires
        0 <= i,
        text_less_from(a, b, i),
        text_less_from(b, c, i),
    ensures
        text_less_from(a, c, i),
    decreases a.len() - i,
{
    if i < a.len() && i < b.len() && i < c.len() && a[i] == b[i] && b[i] == c[i] {
        lemma_text_less_from_transitive(a, b, c, i + 1);
    }
}

/// Text order is a strict total order.
pub proof fn lemma_text_order(a: Seq<char>, b: Seq<char>, c: Seq<char>)
    ensures
        !text_less(a, a),
        a == b || text_less(a, b) || text_less(b, a),
        !(text_less(a, b) && text_less(b, a)),
        text_less(a, b) && text_less(b, c) ==> text_less(a, c),
{
    lemma_text_less_from_irreflexive(a, 0);
    assert(a.subrange(0, 0) =~= b.subrange(0, 0));
    lemma_text_less_from_total(a, b, 0);
    if text_less(a, b) && text_less(b, c) {
        lemma_text_less_from_transitive(a, b, c, 0);
    }
}

/// A strictly sorted sequence holds no element twice.
pub proof fn lemma_sorted_distinct(s: Seq<Seq<char>>, i: int, j: int)
    requires
        strictly_sorted(s),
        0 <= i < s.len(),
        0 <= j < s.len(),
        i != j,
    ensures
        s[i] != s[j],
{
    lemma_text_order(s[i], s[j], s[j]);
    lemma_text_order(s[j], s[i], s[i]);
}

/// Reports whether `a` sorts strictly before `b`.
pub fn text_precedes(a: &String, b: &String) -> (r: bool)
    ensures
        r == text_less(a@, b@),
{
    let sa = a.as_str();
    let sb = b.as_str();
    let la = sa.unicode_len();
    let lb = sb.unicode_len();
    let mut i: usize = 0;
    while i < la && i < lb
        invariant
            sa@ == a@,
            sb@ == b@,
            la == a@.len(),
            lb == b@.len(),
            i <= la,
            i <= lb,
            text_less(a@, b@) == text_less_from(a@, b@, i as int),
        decreases la - i,
    {
        let ca = sa.get_char(i);
        let cb = sb.get_char(i);
        if ca != cb {
            return ca < cb;
        }
        i = i + 1;
    }
    i == la && i < lb
}

/// Finds where `value` belongs in a strictly sorted vector: the first
/// position whose element does not sort before it.
pub fn sorted_position(values: &Vec<String>, value: &String) -> (r: (usize, bool))
    requires
        strictly_sorted(texts(values@)),
    ensures
        r.0 <= values@.len(),
        forall|k: int| 0 <= k < r.0 ==> text_less(#[trigger] texts(values@)[k], value@),
        r.0 < values@.len() ==> !text_less(texts(values@)[r.0 as int], value@),
        r.1 == (r.0 < values@.len() && texts(values@)[r.0 as int] == value@),
        r.1 == texts(values@).contains(value@),
{
    let ghost s = texts(values@);
    let mut i: usize = 0;
    while i < values.len()
        invariant
            s == texts(values@),
            strictly_sorted(s),
            i <= values@.len(),
            forall|k: int| 0 <= k < i ==> text_less(#[trigger] s[k], value@),
        decreases values.len() - i,
    {
        if !text_precedes(&values[i], value) {
            let found = text_equal_here(&values[i], value);
            proof {
                assert(s[i as int] == values@[i as int]@);
                if !found {
                    assert forall|k: int| 0 <= k < s.len() implies s[k] != value@ by {
                        if k < i {
                            lemma_text_order(s[k], s[k], s[k]);
                        } else if k == i {
                        } else {
                            lemma_text_order(value@, s[i as int], s[k]);
                        }
                    }
                }
            }
            return (i, found);
        }
        i = i + 1;
    }
    proof {
        assert forall|k: int| 0 <= k < s.len() implies s[k] != value@ by {
            lemma_text_order(s[k], s[k], s[k]);
        }
    }
    (i, false)
}

fn text_equal_here(a: &String, b: &String) -> (r: bool)
    ensures
        r == (a@ == b@),
{
    a.eq(b)
}

/// Inserts `value` into a strictly sorted vector unless it is already there.
///
/// Returns true exactly when the value was absent and has been inserted.
pub fn insert_sorted_unique(values: &mut Vec<String>, value: String) -> (r: bool)
    requires
        strictly_sorted(texts(old(values)@)),
    ensures
        strictly_sorted(texts(final(values)@)),
        r == !texts(old(values)@).contains(value@),
        forall|t: Seq<char>| #[trigger] texts(final(values)@).contains(t) <==> (texts(
            old(values)@,
        ).contains(t) || t == value@),
        !r ==> final(values)@ == old(values)@,
        texts(final(values)@).len() == texts(old(values)@).len() + if r { 1int } else { 0int },
{
    let ghost before = texts(values@);
    let (index, found) = sorted_position(values, &value);
    if found {
        return false;
    }
    let ghost v = value@;
    values.insert(index, value);
    proof {
        let after = texts(values@);
        assert(after =~= before.insert(index as int, v));
        assert forall|i: int, j: int| 0 <= i < j < after.len() implies text_less(
            #[trigger] after[i],
            #[trigger] after[j],
        ) by {
            if j < index {
            } else if j == index {
            } else if i < index {
                if index < before.len() {
                    lemma_text_order(before[index as int], v, before[index as int]);
                }
                lemma_text_order(after[i], v, after[j]);
                if j > index + 1 {
                    lemma_text_order(v, before[index as int], after[j]);
                }
            } else if i == index {
                lemma_text_order(before[index as int], v, before[index as int]);
                if j > index + 1 {
                    lemma_text_order(v, before[index as int], after[j]);
                }
            } else {
            }
        }
        assert forall|t: Seq<char>| #[trigger] after.contains(t) <==> (before.contains(t) || t
            == v) by {
            if after.contains(t) {
                let k = choose|k: int| 0 <= k < after.len() && after[k] == t;
                if k < index {
                    assert(before[k] == t);
                } else if k > index {
                    assert(before[k - 1] == t);
                }
            }
            if before.contains(t) {
                let k = choose|k: int| 0 <= k < before.len() && before[k] == t;
                if k < index {
                    assert(after[k] == t);
                } else {
                    assert(after[k + 1] == t);
                }
            }
            if t == v {
                assert(after[index as int] == t);
            }
        }
    }
    true
}

/// Removes `value` from a strictly sorted vector if present.
///
/// Returns true exactly when the value was present and has been removed.
pub fn remove_sorted(values: &mut Vec<String>, value: &String) -> (r: bool)
    requires
        strictly_sorted(texts(old(values)@)),
    ensures
        strictly_sorted(texts(final(values)@)),
        r == texts(old(values)@).contains(value@),
        forall|t: Seq<char>| #[trigger] texts(final(values)@).contains(t) <==> (texts(
            old(values)@,
        ).contains(t) && t != value@),
        !r ==> final(values)@ == old(values)@,
{
    let ghost before = texts(values@);
    let (index, found) = sorted_position(values, value);
    if !found {
        return false;
    }
    values.remove(index);
    proof {
        let after = texts(values@);
        assert(after =~= before.remove(index as int));
        assert forall|t: Seq<char>| #[trigger] after.contains(t) <==> (before.contains(t) && t
            != value@) by {
            if after.contains(t) {
                let k = choose|k: int| 0 <= k < after.len() && after[k] == t;
                if k < index {
                    assert(before[k] == t);
                    lemma_sorted_distinct(before, k, index as int);
                } else {
                    assert(before[k + 1] == t);
                    lemma_sorted_distinct(before, k + 1, index as int);
                }
            }
            if before.contains(t) && t != value@ {
                let k = choose|k: int| 0 <= k < before.len() && before[k] == t;
                if k < index {
                    assert(after[k] == t);
                } else {
                    assert(after[k - 1] == t);
                }
            }
        }
    }
    true
}

/// Copies strings, keeping their characters.
pub fn copy_texts(values: &Vec<String>) -> (r: Vec<String>)
    ensures
        texts(r@) == texts(values@),
{
    let r = values.clone();
    proof {
        assert forall|i: int| 0 <= i < r@.len() implies #[trigger] r@[i]@ == values@[i]@ by {
            assert(cloned::<String>(values@[i], r@[i]));
        }
        assert(texts(r@) =~= texts(values@));
    }
    r
}

/// Reports whether a strictly sorted vector holds `value`.
pub fn contains_sorted(values: &Vec<String>, value: &String) -> (r: bool)
    requires
        strictly_sorted(texts(values@)),
    ensures
        r == texts(values@).contains(value@),
{
    let (_, found) = sorted_position(values, value);
    found
}

} // verus!
