//! Verified text building blocks: decimal rendering of integers,
//! lexicographic comparison of strings, stable lexicographic sorting of
//! name lists, and line-wise concatenation.
use vstd::prelude::*;

verus! {

/// The view of every string in a sequence of strings.
pub open spec fn views_of(s: Seq<String>) -> Seq<Seq<char>> {
    s.map_values(|x: String| x@)
}

/// The decimal digit `d` (0..=9) as a character.
pub open spec fn digit_char(d: nat) -> char {
    if d == 0 {
        '0'
    } else if d == 1 {
        '1'
    } else if d == 2 {
        '2'
    } else if d == 3 {
        '3'
    } else if d == 4 {
        '4'
    } else if d == 5 {
        '5'
    } else if d == 6 {
        '6'
    } else if d == 7 {
        '7'
    } else if d == 8 {
        '8'
    } else {
        '9'
    }
}

/// The decimal representation of `n`, most significant digit first,
/// without leading zeroes (except for `n == 0` itself).
pub open spec fn dec_str(n: nat) -> Seq<char>
    decreases n,
{
    if n < 10 {
        seq![digit_char(n)]
    } else {
        dec_str(n / 10).push(digit_char(n % 10))
    }
}

/// A single decimal digit as a one-character string slice.
fn digit_str(d: u64) -> (r: &'static str)
    requires
        d < 10,
    ensures
        r@ == seq![digit_char(d as nat)],
{
    if d == 0 {
        proof {
            reveal_strlit("0");
            assert("0"@ =~= seq![digit_char(0)]);
        }
        "0"
    } else if d == 1 {
        proof {
            reveal_strlit("1");
            assert("1"@ =~= seq![digit_char(1)]);
        }
        "1"
    } else if d == 2 {
        proof {
            reveal_strlit("2");
            assert("2"@ =~= seq![digit_char(2)]);
        }
        "2"
    } else if d == 3 {
        proof {
            reveal_strlit("3");
            assert("3"@ =~= seq![digit_char(3)]);
        }
        "3"
    } else if d == 4 {
        proof {
            reveal_strlit("4");
            assert("4"@ =~= seq![digit_char(4)]);
        }
        "4"
    } else if d == 5 {
        proof {
            reveal_strlit("5");
            assert("5"@ =~= seq![digit_char(5)]);
        }
        "5"
    } else if d == 6 {
        proof {
            reveal_strlit("6");
            assert("6"@ =~= seq![digit_char(6)]);
        }
        "6"
    } else if d == 7 {
        proof {
            reveal_strlit("7");
            assert("7"@ =~= seq![digit_char(7)]);
        }
        "7"
    } else if d == 8 {
        proof {
            reveal_strlit("8");
            assert("8"@ =~= seq![digit_char(8)]);
        }
        "8"
    } else {
        proof {
            reveal_strlit("9");
            assert("9"@ =~= seq![digit_char(9)]);
        }
        "9"
    }
}

/// Renders `n` in decimal.
pub fn u64_to_string(n: u64) -> (r: String)
    ensures
        r@ == dec_str(n as nat),
    decreases n,
{
    if n < 10 {
        let r = String::from_str(digit_str(n));
        proof {
            assert(r@ =~= dec_str(n as nat));
        }
        r
    } else {
        let mut r = u64_to_string(n / 10);
        r.append(digit_str(n % 10));
        proof {
            assert(r@ =~= dec_str(n as nat));
        }
        r
    }
}

/// Lexicographic order on character sequences, by code point.
pub open spec fn lex_le(a: Seq<char>, b: Seq<char>) -> bool
    decreases a.len(),
{
    if a.len() == 0 {
        true
    } else if b.len() == 0 {
        false
    } else if (a[0] as u32) < (b[0] as u32) {
        true
    } else if (a[0] as u32) > (b[0] as u32) {
        false
    } else {
        lex_le(a.drop_first(), b.drop_first())
    }
}

/// `lex_le` is total: any two strings compare one way or the other.
pub proof fn lemma_lex_le_total(a: Seq<char>, b: Seq<char>)
    ensures
        lex_le(a, b) || lex_le(b, a),
    decreases a.len(),
{
    if a.len() == 0 || b.len() == 0 {
    } else if (a[0] as u32) == (b[0] as u32) {
        lemma_lex_le_total(a.drop_first(), b.drop_first());
    }
}

/// `lex_le` is reflexive.
pub proof fn lemma_lex_le_refl(a: Seq<char>)
    ensures
        lex_le(a, a),
    decreases a.len(),
{
    if a.len() != 0 {
        lemma_lex_le_refl(a.drop_first());
    }
}

/// `lex_le` is transitive.
pub proof fn lemma_lex_le_trans(a: Seq<char>, b: Seq<char>, c: Seq<char>)
    requires
        lex_le(a, b),
        lex_le(b, c),
    ensures
        lex_le(a, c),
    decreases a.len(),
{
    if a.len() == 0 || b.len() == 0 || c.len() == 0 {
    } else if (a[0] as u32) == (b[0] as u32) && (b[0] as u32) == (c[0] as u32) {
        lemma_lex_le_trans(a.drop_first(), b.drop_first(), c.drop_first());
    }
}

/// Decides `lex_le` on string slices.
pub fn str_lex_le(a: &str, b: &str) -> (r: bool)
    ensures
        r == lex_le(a@, b@),
    decreases a@.len(),
{
    let alen = a.unicode_len();
    let blen = b.unicode_len();
    if alen == 0 {
        true
    } else if blen == 0 {
        false
    } else {
        let ca = a.get_char(0);
        let cb = b.get_char(0);
        if (ca as u32) < (cb as u32) {
            true
        } else if (ca as u32) > (cb as u32) {
            false
        } else {
            let a1 = a.substring_char(1, alen);
            let b1 = b.substring_char(1, blen);
            proof {
                assert(a1@ =~= a@.drop_first());
                assert(b1@ =~= b@.drop_first());
            }
            str_lex_le(a1, b1)
        }
    }
}

/// Inserts `x` into `s` before the first entry that `x` precedes or equals.
pub open spec fn insert_lex(x: Seq<char>, s: Seq<Seq<char>>) -> Seq<Seq<char>>
    decreases s.len(),
{
    if s.len() == 0 {
        seq![x]
    } else if lex_le(x, s[0]) {
        seq![x] + s
    } else {
        seq![s[0]] + insert_lex(x, s.drop_first())
    }
}

/// Insertion sort of character sequences in lexicographic order.
pub open spec fn sort_lex(s: Seq<Seq<char>>) -> Seq<Seq<char>>
    decreases s.len(),
{
    if s.len() == 0 {
        Seq::empty()
    } else {
        insert_lex(s[0], sort_lex(s.drop_first()))
    }
}

/// The entries of `s`, in lexicographically nondecreasing order.
pub open spec fn lex_sorted(s: Seq<Seq<char>>) -> bool {
    forall|i: int, j: int| 0 <= i <= j < s.len() ==> lex_le(s[i], s[j])
}

proof fn lemma_insert_lex_len(x: Seq<char>, s: Seq<Seq<char>>)
    ensures
        insert_lex(x, s).len() == s.len() + 1,
    decreases s.len(),
{
    if s.len() != 0 && !lex_le(x, s[0]) {
        lemma_insert_lex_len(x, s.drop_first());
    }
}

proof fn lemma_insert_lex_elems(x: Seq<char>, s: Seq<Seq<char>>)
    ensures
        forall|i: int|
            0 <= i < insert_lex(x, s).len() ==> insert_lex(x, s)[i] == x || s.contains(
                insert_lex(x, s)[i],
            ),
    decreases s.len(),
{
    if s.len() != 0 && !lex_le(x, s[0]) {
        lemma_insert_lex_elems(x, s.drop_first());
        assert forall|i: int| 0 <= i < insert_lex(x, s).len() implies insert_lex(x, s)[i] == x
            || s.contains(insert_lex(x, s)[i]) by {
            if i > 0 {
                let t = insert_lex(x, s.drop_first());
                assert(insert_lex(x, s)[i] == t[i - 1]);
                if t[i - 1] != x {
                    let k = choose|k: int|
                        0 <= k < s.drop_first().len() && s.drop_first()[k] == t[i - 1];
                    assert(s[k + 1] == t[i - 1]);
                }
            }
        }
    }
}

proof fn lemma_insert_lex_sorted(x: Seq<char>, s: Seq<Seq<char>>)
    requires
        lex_sorted(s),
    ensures
        lex_sorted(insert_lex(x, s)),
    decreases s.len(),
{
    lemma_insert_lex_len(x, s);
    if s.len() == 0 {
        lemma_lex_le_refl(x);
        assert forall|i: int, j: int| 0 <= i <= j < insert_lex(x, s).len() implies lex_le(
            insert_lex(x, s)[i],
            insert_lex(x, s)[j],
        ) by {
            assert(i == 0 && j == 0);
        }
    } else if lex_le(x, s[0]) {
        let r = seq![x] + s;
        assert forall|i: int, j: int| 0 <= i <= j < r.len() implies lex_le(r[i], r[j]) by {
            if i == 0 && j == 0 {
                lemma_lex_le_refl(x);
            } else if i == 0 && j > 0 {
                assert(lex_le(s[0], s[j - 1]));
                lemma_lex_le_trans(x, s[0], s[j - 1]);
                assert(r[j] == s[j - 1]);
            } else {
                assert(r[i] == s[i - 1] && r[j] == s[j - 1]);
            }
        }
    } else {
        let rest = s.drop_first();
        assert(lex_sorted(rest)) by {
            assert(forall|i: int, j: int|
                0 <= i <= j < rest.len() ==> rest[i] == s[i + 1] && rest[j] == s[j + 1]);
        }
        lemma_insert_lex_sorted(x, rest);
        lemma_insert_lex_elems(x, rest);
        lemma_insert_lex_len(x, rest);
        lemma_lex_le_total(x, s[0]);
        let t = insert_lex(x, rest);
        let r = seq![s[0]] + t;
        assert(insert_lex(x, s) == r);
        assert forall|i: int, j: int| 0 <= i <= j < r.len() implies lex_le(r[i], r[j]) by {
            if i == 0 && j > 0 {
                assert(r[j] == t[j - 1]);
                if t[j - 1] == x {
                    assert(lex_le(s[0], x));
                } else {
                    let k = choose|k: int| 0 <= k < rest.len() && rest[k] == t[j - 1];
                    assert(s[k + 1] == rest[k]);
                    assert(lex_le(s[0], s[k + 1]));
                }
            } else if i > 0 {
                assert(r[i] == t[i - 1] && r[j] == t[j - 1]);
            }
        }
    }
}

/// The lexicographic insertion sort really sorts.
pub proof fn lemma_sort_lex_sorted(s: Seq<Seq<char>>)
    ensures
        lex_sorted(sort_lex(s)),
        sort_lex(s).len() == s.len(),
    decreases s.len(),
{
    if s.len() != 0 {
        lemma_sort_lex_sorted(s.drop_first());
        lemma_insert_lex_sorted(s[0], sort_lex(s.drop_first()));
        lemma_insert_lex_len(s[0], sort_lex(s.drop_first()));
    }
}

proof fn lemma_cons_to_multiset(x: Seq<char>, s: Seq<Seq<char>>)
    ensures
        (seq![x] + s).to_multiset() == s.to_multiset().insert(x),
{
    assert(s.insert(0, x) =~= seq![x] + s);
    vstd::seq_lib::to_multiset_insert(s, 0, x);
}

proof fn lemma_insert_lex_multiset(x: Seq<char>, s: Seq<Seq<char>>)
    ensures
        insert_lex(x, s).to_multiset() == s.to_multiset().insert(x),
    decreases s.len(),
{
    broadcast use vstd::multiset::group_multiset_axioms;

    if s.len() == 0 {
        lemma_cons_to_multiset(x, s);
        assert(seq![x] + s =~= seq![x]);
    } else if lex_le(x, s[0]) {
        lemma_cons_to_multiset(x, s);
    } else {
        lemma_insert_lex_multiset(x, s.drop_first());
        lemma_cons_to_multiset(s[0], insert_lex(x, s.drop_first()));
        lemma_cons_to_multiset(s[0], s.drop_first());
        assert(s =~= seq![s[0]] + s.drop_first());
        assert(insert_lex(x, s).to_multiset() == s.drop_first().to_multiset().insert(x).insert(
            s[0],
        ));
        assert(s.drop_first().to_multiset().insert(x).insert(s[0])
            =~= s.drop_first().to_multiset().insert(s[0]).insert(x));
    }
}

/// Sorting keeps exactly the original entries.
pub proof fn lemma_sort_lex_permutes(s: Seq<Seq<char>>)
    ensures
        sort_lex(s).to_multiset() == s.to_multiset(),
    decreases s.len(),
{
    if s.len() == 0 {
        assert(sort_lex(s) =~= s);
    } else {
        lemma_sort_lex_permutes(s.drop_first());
        lemma_insert_lex_multiset(s[0], sort_lex(s.drop_first()));
        lemma_cons_to_multiset(s[0], s.drop_first());
        assert(s =~= seq![s[0]] + s.drop_first());
    }
}

/// Inserts an owned string into an already sorted vector, preserving the
/// lexicographic insertion-sort shape.
fn insert_sorted(x: String, v: Vec<String>) -> (r: Vec<String>)
    ensures
        views_of(r@) == insert_lex(x@, views_of(v@)),
    decreases v@.len(),
{
    if v.len() == 0 {
        let mut r: Vec<String> = Vec::new();
        r.push(x);
        proof {
            assert(views_of(r@) =~= insert_lex(x@, views_of(v@)));
        }
        r
    } else if str_lex_le(x.as_str(), v[0].as_str()) {
        let ghost v0 = v@;
        let mut r = v;
        r.insert(0, x);
        proof {
            assert(r@ =~= seq![x] + v0);
            assert(views_of(r@) =~= seq![x@] + views_of(v0));
            assert(views_of(r@) =~= insert_lex(x@, views_of(v0)));
        }
        r
    } else {
        let ghost v0 = v@;
        let mut v = v;
        let head = v.remove(0);
        proof {
            assert(v@ =~= v0.drop_first());
            assert(views_of(v@) =~= views_of(v0).drop_first());
        }
        let r0 = insert_sorted(x, v);
        let ghost t = views_of(r0@);
        let mut r = r0;
        r.insert(0, head);
        proof {
            assert(views_of(r@) =~= seq![head@] + t);
            assert(views_of(v0)[0] == head@);
            assert(views_of(r@) =~= insert_lex(x@, views_of(v0)));
        }
        r
    }
}

/// Sorts role names lexicographically; the result holds exactly the
/// entries of the input, in `sort_lex` order.
pub fn sorted_names(v: Vec<String>) -> (r: Vec<String>)
    ensures
        views_of(r@) == sort_lex(views_of(v@)),
    decreases v@.len(),
{
    if v.len() == 0 {
        proof {
            assert(views_of(v@) =~= Seq::<Seq<char>>::empty());
            assert(sort_lex(views_of(v@)) =~= views_of(v@));
        }
        v
    } else {
        let ghost v0 = v@;
        let mut v = v;
        let head = v.remove(0);
        proof {
            assert(v@ =~= v0.drop_first());
            assert(views_of(v@) =~= views_of(v0).drop_first());
            assert(head@ == views_of(v0)[0]);
        }
        let rest = sorted_names(v);
        let r = insert_sorted(head, rest);
        proof {
            assert(views_of(r@) == insert_lex(views_of(v0)[0], sort_lex(views_of(v0).drop_first())));
        }
        r
    }
}

/// Each entry of `s` followed by a newline, concatenated in order.
pub open spec fn lines_of(s: Seq<Seq<char>>) -> Seq<char>
    decreases s.len(),
{
    if s.len() == 0 {
        Seq::empty()
    } else {
        s[0] + "\n"@ + lines_of(s.drop_first())
    }
}

/// Joins the entries of `v` into newline-terminated lines.
pub fn join_lines(v: &Vec<String>) -> (r: String)
    ensures
        r@ == lines_of(views_of(v@)),
{
    let mut acc = String::new();
    let mut i = v.len();
    proof {
        assert(views_of(v@).subrange(i as int, v@.len() as int) =~= Seq::<Seq<char>>::empty());
        assert(acc@ =~= lines_of(views_of(v@).subrange(i as int, v@.len() as int)));
    }
    while i > 0
        invariant
            i <= v@.len(),
            acc@ == lines_of(views_of(v@).subrange(i as int, v@.len() as int)),
        decreases i,
    {
        i = i - 1;
        let mut line = v[i].clone();
        line.append("\n");
        line.append(acc.as_str());
        acc = line;
        proof {
            let tail = views_of(v@).subrange(i as int, v@.len() as int);
            assert(tail[0] == v@[i as int]@);
            assert(tail.drop_first() =~= views_of(v@).subrange(i + 1, v@.len() as int));
            assert(acc@ =~= lines_of(tail));
        }
    }
    proof {
        assert(views_of(v@).subrange(0, v@.len() as int) =~= views_of(v@));
    }
    acc
}

} // verus!
