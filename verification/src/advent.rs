//! Leaderboard data model and the ranking formatter: a stable sort of
//! members by score, descending, and the rendering of the ranked list
//! into a textual report.
use crate::text::{dec_str, u64_to_string};
use vstd::prelude::*;

verus! {

/// One leaderboard participant.
pub struct Member {
    pub id: String,
    pub local_score: usize,
    pub name: String,
    pub stars: usize,
}

impl Member {
    pub fn new(id: String, local_score: usize, name: String, stars: usize) -> (m: Member)
        ensures
            m.id == id && m.local_score == local_score && m.name == name && m.stars == stars,
    {
        Member { id, local_score, name, stars }
    }

    pub fn name(&self) -> (r: String)
        ensures
            r == self.name,
    {
        self.name.clone()
    }

    pub fn score(&self) -> (r: usize)
        ensures
            r == self.local_score,
    {
        self.local_score
    }

    pub fn stars(&self) -> (r: usize)
        ensures
            r == self.stars,
    {
        self.stars
    }
}

impl PartialEq for Member {
    /// Members compare by score alone, as the ranking does.
    fn eq(&self, other: &Member) -> (r: bool) {
        self.local_score == other.local_score
    }
}

impl vstd::std_specs::cmp::PartialEqSpecImpl for Member {
    open spec fn obeys_eq_spec() -> bool {
        true
    }

    open spec fn eq_spec(&self, other: &Member) -> bool {
        self.local_score == other.local_score
    }
}

impl Eq for Member {}

impl PartialOrd for Member {
    /// Members order by score alone, as the ranking does.
    fn partial_cmp(&self, other: &Member) -> (r: Option<core::cmp::Ordering>) {
        if self.local_score < other.local_score {
            Some(core::cmp::Ordering::Less)
        } else if self.local_score > other.local_score {
            Some(core::cmp::Ordering::Greater)
        } else {
            Some(core::cmp::Ordering::Equal)
        }
    }
}

impl vstd::std_specs::cmp::PartialOrdSpecImpl for Member {
    open spec fn obeys_partial_cmp_spec() -> bool {
        true
    }

    open spec fn partial_cmp_spec(&self, other: &Member) -> Option<core::cmp::Ordering> {
        if self.local_score < other.local_score {
            Some(core::cmp::Ordering::Less)
        } else if self.local_score > other.local_score {
            Some(core::cmp::Ordering::Greater)
        } else {
            Some(core::cmp::Ordering::Equal)
        }
    }
}

impl Clone for Member {
    fn clone(&self) -> (res: Member)
        ensures
            res == *self,
    {
        Member {
            id: self.id.clone(),
            local_score: self.local_score,
            name: self.name.clone(),
            stars: self.stars,
        }
    }
}

/// A named collection of members plus an owner id, parsed wholesale from
/// a fetched payload and immutable afterwards.
pub struct Leaderboard {
    pub event: String,
    pub members: Vec<Member>,
    pub owner_id: String,
}

impl Leaderboard {
    pub fn new(event: String, members: Vec<Member>, owner_id: String) -> (l: Leaderboard)
        ensures
            l.event == event && l.members == members && l.owner_id == owner_id,
    {
        Leaderboard { event, members, owner_id }
    }

    /// The members in their original collection order.
    pub fn members(&self) -> (r: Vec<Member>)
        ensures
            r@ == self.members@,
    {
        let mut r: Vec<Member> = Vec::new();
        let mut i: usize = 0;
        while i < self.members.len()
            invariant
                i <= self.members@.len(),
                r@ =~= self.members@.subrange(0, i as int),
            decreases self.members@.len() - i,
        {
            r.push(self.members[i].clone());
            i = i + 1;
        }
        proof {
            assert(r@ =~= self.members@);
        }
        r
    }

    /// The total order of participants: by score descending, stable on
    /// ties (original relative order preserved for equal scores).
    pub fn rank(&self) -> (r: Vec<Member>)
        ensures
            r@ == sort_by_score(self.members@),
    {
        rank_members(self.members())
    }
}

/// Inserts `m` into `s` before the first entry whose score does not
/// exceed `m`'s; `m` comes from earlier in the original collection than
/// everything in `s`, so placing it before equal scores keeps the sort
/// stable.
pub open spec fn insert_by_score(m: Member, s: Seq<Member>) -> Seq<Member>
    decreases s.len(),
{
    if s.len() == 0 {
        seq![m]
    } else if m.local_score >= s[0].local_score {
        seq![m] + s
    } else {
        seq![s[0]] + insert_by_score(m, s.drop_first())
    }
}

/// Stable insertion sort of members by score, descending.
pub open spec fn sort_by_score(s: Seq<Member>) -> Seq<Member>
    decreases s.len(),
{
    if s.len() == 0 {
        Seq::empty()
    } else {
        insert_by_score(s[0], sort_by_score(s.drop_first()))
    }
}

/// Scores never increase along the sequence.
pub open spec fn sorted_desc(s: Seq<Member>) -> bool {
    forall|i: int, j: int| 0 <= i <= j < s.len() ==> s[i].local_score >= s[j].local_score
}

/// The subsequence of `s` whose members have exactly score `v`, in the
/// order of `s`.
pub open spec fn with_score(s: Seq<Member>, v: usize) -> Seq<Member>
    decreases s.len(),
{
    if s.len() == 0 {
        Seq::empty()
    } else if s[0].local_score == v {
        seq![s[0]] + with_score(s.drop_first(), v)
    } else {
        with_score(s.drop_first(), v)
    }
}

proof fn lemma_insert_score_len(m: Member, s: Seq<Member>)
    ensures
        insert_by_score(m, s).len() == s.len() + 1,
    decreases s.len(),
{
    if s.len() != 0 && m.local_score < s[0].local_score {
        lemma_insert_score_len(m, s.drop_first());
    }
}

proof fn lemma_insert_score_elems(m: Member, s: Seq<Member>)
    ensures
        forall|i: int|
            0 <= i < insert_by_score(m, s).len() ==> insert_by_score(m, s)[i] == m || s.contains(
                insert_by_score(m, s)[i],
            ),
    decreases s.len(),
{
    if s.len() != 0 && m.local_score < s[0].local_score {
        lemma_insert_score_elems(m, s.drop_first());
        assert forall|i: int| 0 <= i < insert_by_score(m, s).len() implies insert_by_score(m, s)[i]
            == m || s.contains(insert_by_score(m, s)[i]) by {
            if i > 0 {
                let t = insert_by_score(m, s.drop_first());
                assert(insert_by_score(m, s)[i] == t[i - 1]);
                if t[i - 1] != m {
                    let k = choose|k: int|
                        0 <= k < s.drop_first().len() && s.drop_first()[k] == t[i - 1];
                    assert(s[k + 1] == t[i - 1]);
                }
            }
        }
    }
}

proof fn lemma_insert_score_sorted(m: Member, s: Seq<Member>)
    requires
        sorted_desc(s),
    ensures
        sorted_desc(insert_by_score(m, s)),
    decreases s.len(),
{
    lemma_insert_score_len(m, s);
    if s.len() == 0 {
    } else if m.local_score >= s[0].local_score {
        let r = seq![m] + s;
        assert forall|i: int, j: int| 0 <= i <= j < r.len() implies r[i].local_score
            >= r[j].local_score by {
            if i == 0 && j > 0 {
                assert(r[j] == s[j - 1]);
                assert(s[0].local_score >= s[j - 1].local_score);
            } else if i > 0 {
                assert(r[i] == s[i - 1] && r[j] == s[j - 1]);
            }
        }
    } else {
        let rest = s.drop_first();
        assert(sorted_desc(rest)) by {
            assert(forall|i: int, j: int|
                0 <= i <= j < rest.len() ==> rest[i] == s[i + 1] && rest[j] == s[j + 1]);
        }
        lemma_insert_score_sorted(m, rest);
        lemma_insert_score_elems(m, rest);
        lemma_insert_score_len(m, rest);
        let t = insert_by_score(m, rest);
        let r = seq![s[0]] + t;
        assert(insert_by_score(m, s) == r);
        assert forall|i: int, j: int| 0 <= i <= j < r.len() implies r[i].local_score
            >= r[j].local_score by {
            if i == 0 && j > 0 {
                assert(r[j] == t[j - 1]);
                if t[j - 1] != m {
                    let k = choose|k: int| 0 <= k < rest.len() && rest[k] == t[j - 1];
                    assert(s[k + 1] == rest[k]);
                    assert(s[0].local_score >= s[k + 1].local_score);
                }
            } else if i > 0 {
                assert(r[i] == t[i - 1] && r[j] == t[j - 1]);
            }
        }
    }
}

proof fn lemma_insert_with_score(m: Member, s: Seq<Member>, v: usize)
    ensures
        with_score(insert_by_score(m, s), v) == if m.local_score == v {
            seq![m] + with_score(s, v)
        } else {
            with_score(s, v)
        },
    decreases s.len(),
{
    if s.len() == 0 {
        let r = insert_by_score(m, s);
        assert(r =~= seq![m]);
        assert(r.drop_first() =~= Seq::<Member>::empty());
        assert(with_score(r.drop_first(), v) =~= Seq::<Member>::empty());
        assert(with_score(s, v) =~= Seq::<Member>::empty());
        if m.local_score == v {
            assert(with_score(r, v) =~= seq![m] + with_score(s, v));
        } else {
            assert(with_score(r, v) =~= with_score(s, v));
        }
    } else if m.local_score >= s[0].local_score {
        let r = seq![m] + s;
        assert(r.drop_first() =~= s);
    } else {
        let rest = s.drop_first();
        lemma_insert_with_score(m, rest, v);
        let t = insert_by_score(m, rest);
        let r = seq![s[0]] + t;
        assert(insert_by_score(m, s) == r);
        assert(r.drop_first() =~= t);
        if s[0].local_score == v {
            assert(m.local_score != v);
            assert(with_score(r, v) == seq![s[0]] + with_score(t, v));
            assert(with_score(s, v) == seq![s[0]] + with_score(rest, v));
        } else {
            if m.local_score == v {
                assert(with_score(r, v) == with_score(t, v));
                assert(with_score(s, v) == with_score(rest, v));
            }
        }
    }
}

/// The ranking is sorted by score, descending.
pub proof fn lemma_rank_sorted(s: Seq<Member>)
    ensures
        sorted_desc(sort_by_score(s)),
        sort_by_score(s).len() == s.len(),
    decreases s.len(),
{
    if s.len() != 0 {
        lemma_rank_sorted(s.drop_first());
        lemma_insert_score_sorted(s[0], sort_by_score(s.drop_first()));
        lemma_insert_score_len(s[0], sort_by_score(s.drop_first()));
    }
}

/// The ranking is stable on ties: for every score `v`, the members with
/// score `v` appear in the ranked output exactly in their original
/// relative order.
pub proof fn lemma_rank_stable(s: Seq<Member>, v: usize)
    ensures
        with_score(sort_by_score(s), v) == with_score(s, v),
    decreases s.len(),
{
    if s.len() != 0 {
        lemma_rank_stable(s.drop_first(), v);
        lemma_insert_with_score(s[0], sort_by_score(s.drop_first()), v);
        assert(s.drop_first() =~= seq![s[0]].add(s.drop_first()).drop_first());
        if s[0].local_score == v {
            assert(with_score(s, v) == seq![s[0]] + with_score(s.drop_first(), v));
        } else {
            assert(with_score(s, v) == with_score(s.drop_first(), v));
        }
    }
}

proof fn lemma_cons_members_to_multiset(x: Member, s: Seq<Member>)
    ensures
        (seq![x] + s).to_multiset() == s.to_multiset().insert(x),
{
    assert(s.insert(0, x) =~= seq![x] + s);
    vstd::seq_lib::to_multiset_insert(s, 0, x);
}

proof fn lemma_insert_score_multiset(m: Member, s: Seq<Member>)
    ensures
        insert_by_score(m, s).to_multiset() == s.to_multiset().insert(m),
    decreases s.len(),
{
    broadcast use vstd::multiset::group_multiset_axioms;

    if s.len() == 0 {
        lemma_cons_members_to_multiset(m, s);
        assert(seq![m] + s =~= seq![m]);
    } else if m.local_score >= s[0].local_score {
        lemma_cons_members_to_multiset(m, s);
    } else {
        lemma_insert_score_multiset(m, s.drop_first());
        lemma_cons_members_to_multiset(s[0], insert_by_score(m, s.drop_first()));
        lemma_cons_members_to_multiset(s[0], s.drop_first());
        assert(s =~= seq![s[0]] + s.drop_first());
        assert(insert_by_score(m, s).to_multiset() == s.drop_first().to_multiset().insert(m).insert(
            s[0],
        ));
        assert(s.drop_first().to_multiset().insert(m).insert(s[0])
            =~= s.drop_first().to_multiset().insert(s[0]).insert(m));
    }
}

/// The ranking holds exactly the original members.
pub proof fn lemma_rank_permutes(s: Seq<Member>)
    ensures
        sort_by_score(s).to_multiset() == s.to_multiset(),
    decreases s.len(),
{
    if s.len() == 0 {
        assert(sort_by_score(s) =~= s);
    } else {
        lemma_rank_permutes(s.drop_first());
        lemma_insert_score_multiset(s[0], sort_by_score(s.drop_first()));
        lemma_cons_members_to_multiset(s[0], s.drop_first());
        assert(s =~= seq![s[0]] + s.drop_first());
    }
}

/// Ranking an empty leaderboard gives an empty sequence, and its report
/// is the empty string.
pub proof fn lemma_rank_render_empty(s: Seq<Member>)
    requires
        s.len() == 0,
    ensures
        sort_by_score(s).len() == 0,
        render_spec(sort_by_score(s)).len() == 0,
{
}

fn insert_ranked(m: Member, v: Vec<Member>) -> (r: Vec<Member>)
    ensures
        r@ == insert_by_score(m, v@),
    decreases v@.len(),
{
    if v.len() == 0 {
        let mut r: Vec<Member> = Vec::new();
        r.push(m);
        proof {
            assert(r@ =~= insert_by_score(m, v@));
        }
        r
    } else if m.local_score >= v[0].local_score {
        let ghost v0 = v@;
        let mut r = v;
        r.insert(0, m);
        proof {
            assert(r@ =~= seq![m] + v0);
        }
        r
    } else {
        let ghost v0 = v@;
        let mut v = v;
        let head = v.remove(0);
        proof {
            assert(v@ =~= v0.drop_first());
        }
        let r0 = insert_ranked(m, v);
        let mut r = r0;
        r.insert(0, head);
        proof {
            assert(r@ =~= seq![v0[0]] + insert_by_score(m, v0.drop_first()));
        }
        r
    }
}

/// Sorts members by score, descending, stably.
pub fn rank_members(v: Vec<Member>) -> (r: Vec<Member>)
    ensures
        r@ == sort_by_score(v@),
    decreases v@.len(),
{
    if v.len() == 0 {
        proof {
            assert(sort_by_score(v@) =~= v@);
        }
        v
    } else {
        let ghost v0 = v@;
        let mut v = v;
        let head = v.remove(0);
        proof {
            assert(v@ =~= v0.drop_first());
        }
        let rest = rank_members(v);
        insert_ranked(head, rest)
    }
}

/// One report line: `"{rank}. {score} {name} ({stars} stars)\n"`.
pub open spec fn line_spec(rank: nat, m: Member) -> Seq<char> {
    dec_str(rank) + ". "@ + dec_str(m.local_score as nat) + " "@ + m.name@ + " ("@ + dec_str(
        m.stars as nat,
    ) + " stars)\n"@
}

/// The report lines for members `i..` of `s`, 1-indexed ranks.
pub open spec fn render_from(s: Seq<Member>, i: int) -> Seq<char>
    decreases s.len() - i,
{
    if i < 0 || i >= s.len() {
        Seq::empty()
    } else {
        line_spec((i + 1) as nat, s[i]) + render_from(s, i + 1)
    }
}

/// The whole report: one line per member, in rank order, no truncation.
pub open spec fn render_spec(s: Seq<Member>) -> Seq<char> {
    render_from(s, 0)
}

/// Renders the ranked list into the textual report.
pub fn render(ranked: &Vec<Member>) -> (r: String)
    ensures
        r@ == render_spec(ranked@),
{
    let mut acc = String::new();
    let mut i = ranked.len();
    while i > 0
        invariant
            i <= ranked@.len(),
            acc@ == render_from(ranked@, i as int),
        decreases i,
    {
        i = i - 1;
        let m = &ranked[i];
        let mut line = u64_to_string((i + 1) as u64);
        line.append(". ");
        let score_str = u64_to_string(m.local_score as u64);
        line.append(score_str.as_str());
        line.append(" ");
        line.append(m.name.as_str());
        line.append(" (");
        let stars_str = u64_to_string(m.stars as u64);
        line.append(stars_str.as_str());
        line.append(" stars)\n");
        line.append(acc.as_str());
        acc = line;
        proof {
            assert(acc@ =~= line_spec((i + 1) as nat, ranked@[i as int]) + render_from(
                ranked@,
                i + 1,
            ));
        }
    }
    acc
}

} // verus!
