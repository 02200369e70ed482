//! String ordering: the lexicographic order on character sequences (the
//! order `Ord` on `str` induces, since UTF-8 byte order and code-point order
//! agree), a verified comparison, and a verified sort used for tag lists.

use vstd::assert_multisets_equal;
use vstd::multiset::Multiset;
use vstd::prelude::*;
use vstd::relations::sorted_by;
use vstd::string::StrSliceExecFns;
use vstd::utf8::char_u32_cast;

verus! {

/// Lexicographic "less than or equal" on character sequences, by code point.
pub open spec fn lex_le(a: Seq<char>, b: Seq<char>) -> bool
    decreases a.len(),
{
    if a.len() == 0 {
        true
    } else if b.len() == 0 {
        false
    } else if (a[0] as u32) < (b[0] as u32) {
        true
    } else if a[0] == b[0] {
        lex_le(a.drop_first(), b.drop_first())
    } else {
        false
    }
}

/// The order as a binary relation value, for `sorted_by`.
pub open spec fn lex_leq() -> spec_fn(Seq<char>, Seq<char>) -> bool {
    |a: Seq<char>, b: Seq<char>| lex_le(a, b)
}

/// The character sequences of a sequence of strings.
pub open spec fn str_views(s: Seq<String>) -> Seq<Seq<char>> {
    Seq::new(s.len(), |i: int| s[i]@)
}

/// The order is reflexive.
pub proof fn lemma_lex_le_refl(a: Seq<char>)
    ensures
        lex_le(a, a),
    decreases a.len(),
{
    if a.len() > 0 {
        lemma_lex_le_refl(a.drop_first());
    }
}

/// Any two character sequences are ordered one way or the other.
pub proof fn lemma_lex_le_total(a: Seq<char>, b: Seq<char>)
    ensures
        lex_le(a, b) || lex_le(b, a),
    decreases a.len(),
{
    if a.len() > 0 && b.len() > 0 {
        char_u32_cast(a[0], a[0] as u32);
        char_u32_cast(b[0], b[0] as u32);
        if a[0] == b[0] {
            lemma_lex_le_total(a.drop_first(), b.drop_first());
        }
    }
}

/// The order is transitive.
pub proof fn lemma_lex_le_trans(a: Seq<char>, b: Seq<char>, c: Seq<char>)
    requires
        lex_le(a, b),
        lex_le(b, c),
    ensures
        lex_le(a, c),
    decreases a.len(),
{
    if a.len() > 0 && b.len() > 0 && c.len() > 0 {
        char_u32_cast(a[0], a[0] as u32);
        char_u32_cast(b[0], b[0] as u32);
        char_u32_cast(c[0], c[0] as u32);
        if a[0] == b[0] && b[0] == c[0] {
            lemma_lex_le_trans(a.drop_first(), b.drop_first(), c.drop_first());
        }
    }
}

/// The order is antisymmetric: sequences ordered both ways are equal.
pub proof fn lemma_lex_le_antisym(a: Seq<char>, b: Seq<char>)
    requires
        lex_le(a, b),
        lex_le(b, a),
    ensures
        a == b,
    decreases a.len(),
{
    if a.len() > 0 && b.len() > 0 {
        char_u32_cast(a[0], a[0] as u32);
        char_u32_cast(b[0], b[0] as u32);
        if a[0] == b[0] {
            lemma_lex_le_antisym(a.drop_first(), b.drop_first());
            assert(a =~= seq![a[0]] + a.drop_first());
            assert(b =~= seq![b[0]] + b.drop_first());
        }
    }
}

/// A sorted arrangement of given contents is unique: two sequences that are
/// both sorted and hold the same multiset of elements are equal. This is why
/// a stored tag list reads back in one ascending order, whatever order it
/// was written in.
pub proof fn lemma_sorted_unique(a: Seq<Seq<char>>, b: Seq<Seq<char>>)
    requires
        sorted_by(a, lex_leq()),
        sorted_by(b, lex_leq()),
        a.to_multiset() == b.to_multiset(),
    ensures
        a == b,
    decreases a.len(),
{
    broadcast use vstd::seq_lib::group_to_multiset_ensures;

    if a.len() == 0 {
        assert(b.to_multiset().len() == 0);
        assert(a =~= b);
    } else {
        assert(a.to_multiset().contains(a[0]));
        assert(b.to_multiset().contains(a[0]));
        assert(b.contains(a[0]));
        assert(b.len() > 0);
        assert(b.to_multiset().contains(b[0]));
        assert(a.to_multiset().contains(b[0]));
        assert(a.contains(b[0]));
        let i = choose|i: int| 0 <= i < b.len() && b[i] == a[0];
        let j = choose|j: int| 0 <= j < a.len() && a[j] == b[0];
        if i > 0 {
            assert(lex_leq()(b[0], b[i]));
        }
        if j > 0 {
            assert(lex_leq()(a[0], a[j]));
        }
        lemma_lex_le_total(a[0], b[0]);
        if i == 0 || j == 0 {
            assert(a[0] == b[0]);
        } else {
            lemma_lex_le_antisym(a[0], b[0]);
        }
        assert(a.drop_first().to_multiset() =~= a.to_multiset().remove(a[0])) by {
            assert(a.remove(0) =~= a.drop_first());
        }
        assert(b.drop_first().to_multiset() =~= b.to_multiset().remove(b[0])) by {
            assert(b.remove(0) =~= b.drop_first());
        }
        assert forall|p: int, q: int| 0 <= p < q < a.drop_first().len() implies #[trigger] lex_leq()(
            a.drop_first()[p],
            a.drop_first()[q],
        ) by {
            assert(lex_leq()(a[p + 1], a[q + 1]));
        }
        assert forall|p: int, q: int| 0 <= p < q < b.drop_first().len() implies #[trigger] lex_leq()(
            b.drop_first()[p],
            b.drop_first()[q],
        ) by {
            assert(lex_leq()(b[p + 1], b[q + 1]));
        }
        lemma_sorted_unique(a.drop_first(), b.drop_first());
        assert(a =~= seq![a[0]] + a.drop_first());
        assert(b =~= seq![b[0]] + b.drop_first());
        assert(a =~= b);
    }
}

/// Compares two strings in the lexicographic order.
pub fn str_le(a: &str, b: &str) -> (r: bool)
    ensures
        r == lex_le(a@, b@),
{
    let alen = a.unicode_len();
    let blen = b.unicode_len();
    proof {
        assert(a@.skip(0) =~= a@);
        assert(b@.skip(0) =~= b@);
    }
    let mut i: usize = 0;
    loop
        invariant
            0 <= i <= alen,
            i <= blen,
            alen == a@.len(),
            blen == b@.len(),
            lex_le(a@, b@) == lex_le(a@.skip(i as int), b@.skip(i as int)),
        decreases alen - i,
    {
        if i == alen {
            return true;
        }
        if i == blen {
            return false;
        }
        let ca = a.get_char(i);
        let cb = b.get_char(i);
        proof {
            assert(a@.skip(i as int)[0] == a@[i as int]);
            assert(b@.skip(i as int)[0] == b@[i as int]);
        }
        if (ca as u32) < (cb as u32) {
            return true;
        }
        if (ca as u32) > (cb as u32) {
            return false;
        }
        proof {
            char_u32_cast(ca, ca as u32);
            char_u32_cast(cb, cb as u32);
            assert(ca == cb);
            assert(a@.skip(i as int).drop_first() =~= a@.skip(i + 1));
            assert(b@.skip(i as int).drop_first() =~= b@.skip(i + 1));
        }
        i = i + 1;
    }
}

/// Sorts strings ascending in the lexicographic order. The result is sorted
/// and holds exactly the given strings' contents.
pub fn sort_strings(v: Vec<String>) -> (out: Vec<String>)
    ensures
        sorted_by(str_views(out@), lex_leq()),
        str_views(out@).to_multiset() == str_views(v@).to_multiset(),
{
    broadcast use vstd::seq_lib::group_to_multiset_ensures;

    let mut rest = v;
    let ghost orig: Seq<Seq<char>> = str_views(rest@);
    let mut out: Vec<String> = Vec::new();
    proof {
        assert(str_views(out@) =~= Seq::<Seq<char>>::empty());
        assert_multisets_equal!(str_views(out@).to_multiset().add(str_views(rest@).to_multiset()), orig.to_multiset());
    }
    while rest.len() > 0
        invariant
            sorted_by(str_views(out@), lex_leq()),
            str_views(out@).to_multiset().add(str_views(rest@).to_multiset())
                == orig.to_multiset(),
            forall|p: int, q: int|
                0 <= p < str_views(out@).len() && 0 <= q < str_views(rest@).len() ==> lex_le(
                    #[trigger] str_views(out@)[p],
                    #[trigger] str_views(rest@)[q],
                ),
        decreases rest.len(),
    {
        let mut m: usize = 0;
        let mut k: usize = 1;
        proof {
            lemma_lex_le_refl(str_views(rest@)[0]);
        }
        while k < rest.len()
            invariant
                0 <= m < k <= rest.len(),
                forall|j: int| 0 <= j < k ==> lex_le(str_views(rest@)[m as int], #[trigger] str_views(rest@)[j]),
            decreases rest.len() - k,
        {
            if str_le(rest[k].as_str(), rest[m].as_str()) {
                proof {
                    assert forall|j: int| 0 <= j < k + 1 implies lex_le(
                        str_views(rest@)[k as int],
                        #[trigger] str_views(rest@)[j],
                    ) by {
                        if j == k {
                            lemma_lex_le_refl(str_views(rest@)[k as int]);
                        } else {
                            lemma_lex_le_trans(
                                str_views(rest@)[k as int],
                                str_views(rest@)[m as int],
                                str_views(rest@)[j],
                            );
                        }
                    }
                }
                m = k;
            } else {
                proof {
                    lemma_lex_le_total(str_views(rest@)[k as int], str_views(rest@)[m as int]);
                }
            }
            k = k + 1;
        }
        let ghost old_out: Seq<Seq<char>> = str_views(out@);
        let ghost old_rest: Seq<Seq<char>> = str_views(rest@);
        let x = rest.remove(m);
        out.push(x);
        proof {
            assert(str_views(out@) =~= old_out.push(x@));
            assert(str_views(rest@) =~= old_rest.remove(m as int));
            assert(old_rest[m as int] == x@);
            old_out.to_multiset_ensures();
            old_rest.to_multiset_ensures();
            assert(old_out.push(x@).to_multiset() =~= old_out.to_multiset().insert(x@));
            assert(old_rest.remove(m as int).to_multiset() =~= old_rest.to_multiset().remove(x@));
            assert(str_views(out@).to_multiset() =~= old_out.to_multiset().insert(x@));
            assert(str_views(rest@).to_multiset() =~= old_rest.to_multiset().remove(x@));
            assert(old_rest.to_multiset().contains(x@)) by {
                assert(old_rest.contains(old_rest[m as int]));
            }
            assert_multisets_equal!(
                str_views(out@).to_multiset().add(str_views(rest@).to_multiset()),
                old_out.to_multiset().add(old_rest.to_multiset())
            );
            assert forall|p: int, q: int|
                0 <= p < q < str_views(out@).len() implies lex_leq()(
                #[trigger] str_views(out@)[p],
                #[trigger] str_views(out@)[q],
            ) by {
                if q < old_out.len() {
                    assert(sorted_by(old_out, lex_leq()));
                } else {
                    assert(str_views(out@)[q] == x@);
                    assert(old_rest.contains(x@));
                }
            }
            assert forall|p: int, q: int|
                0 <= p < str_views(out@).len() && 0 <= q < str_views(rest@).len() implies lex_le(
                #[trigger] str_views(out@)[p],
                #[trigger] str_views(rest@)[q],
            ) by {
                let y = str_views(rest@)[q];
                assert(old_rest.contains(y)) by {
                    if q < m {
                        assert(old_rest[q] == str_views(rest@)[q]);
                    } else {
                        assert(old_rest[q + 1] == str_views(rest@)[q]);
                    }
                }
                let jy = choose|jy: int| 0 <= jy < old_rest.len() && old_rest[jy] == y;
                if p < old_out.len() {
                    assert(lex_le(old_out[p], old_rest[jy]));
                } else {
                    assert(str_views(out@)[p] == x@);
                    assert(lex_le(old_rest[m as int], old_rest[jy]));
                }
            }
        }
    }
    proof {
        assert(str_views(rest@).to_multiset() =~= Multiset::<Seq<char>>::empty()) by {
            assert(str_views(rest@) =~= Seq::<Seq<char>>::empty());
        }
        assert_multisets_equal!(str_views(out@).to_multiset(), orig.to_multiset());
    }
    out
}

} // verus!
