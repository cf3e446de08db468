use vstd::multiset::Multiset;
use vstd::prelude::*;

verus! {

/// A node seen while crawling, with how long it took to answer.
#[derive(Debug)]
pub struct NodeInfo {
    pub peer_id: String,
    pub response_time: u128,
    pub location: String,
}

impl Clone for NodeInfo {
    fn clone(&self) -> (c: Self)
        ensures
            c == *self,
    {
        NodeInfo {
            peer_id: self.peer_id.clone(),
            response_time: self.response_time,
            location: self.location.clone(),
        }
    }
}

/// The nodes of one location.
#[derive(Debug)]
pub struct LocationNodes {
    pub location: String,
    pub nodes: Vec<NodeInfo>,
}

/// `s` is in ascending order of response time.
pub open spec fn sorted_by_time(s: Seq<NodeInfo>) -> bool {
    forall|i: int, j: int| 0 <= i < j < s.len() ==> s[i].response_time <= s[j].response_time
}

/// The nodes of `s` whose response time is `t`, in the order of `s`.
pub open spec fn with_time(s: Seq<NodeInfo>, t: u128) -> Seq<NodeInfo>
    decreases s.len(),
{
    if s.len() == 0 {
        Seq::empty()
    } else if s.last().response_time == t {
        with_time(s.drop_last(), t).push(s.last())
    } else {
        with_time(s.drop_last(), t)
    }
}

/// `r` is `s` sorted by response time, keeping nodes of equal response
/// time in the order they had in `s` (a stable sort).
pub open spec fn stable_sort_of(r: Seq<NodeInfo>, s: Seq<NodeInfo>) -> bool {
    &&& sorted_by_time(r)
    &&& forall|t: u128| #[trigger] with_time(r, t) == with_time(s, t)
}

/// The `n` fastest nodes of `s`: the first `n` of `s` stably sorted by
/// response time (all of them when there are fewer).
pub open spec fn fastest_of(out: Seq<NodeInfo>, s: Seq<NodeInfo>, n: nat) -> bool {
    exists|r: Seq<NodeInfo>|
        stable_sort_of(r, s) && out == r.take(if n < r.len() { n as int } else { r.len() as int })
}

pub proof fn lemma_with_time_add(a: Seq<NodeInfo>, b: Seq<NodeInfo>, t: u128)
    ensures
        with_time(a + b, t) == with_time(a, t) + with_time(b, t),
    decreases b.len(),
{
    if b.len() == 0 {
        assert(a + b =~= a);
        assert(with_time(a, t) + with_time(b, t) =~= with_time(a, t));
    } else {
        lemma_with_time_add(a, b.drop_last(), t);
        assert((a + b).drop_last() =~= a + b.drop_last());
        assert((a + b).last() == b.last());
        if b.last().response_time == t {
            assert(with_time(a, t) + with_time(b, t) =~= (with_time(a, t) + with_time(
                b.drop_last(),
                t,
            )).push(b.last()));
        }
    }
}

pub proof fn lemma_with_time_none(s: Seq<NodeInfo>, t: u128)
    requires
        forall|i: int| 0 <= i < s.len() ==> s[i].response_time != t,
    ensures
        with_time(s, t) == Seq::<NodeInfo>::empty(),
    decreases s.len(),
{
    if s.len() > 0 {
        lemma_with_time_none(s.drop_last(), t);
    }
}

pub proof fn lemma_with_time_single(x: NodeInfo, t: u128)
    ensures
        with_time(seq![x], t) == (if x.response_time == t {
            seq![x]
        } else {
            Seq::<NodeInfo>::empty()
        }),
{
    let s = seq![x];
    assert(s.len() == 1);
    assert(s.last() == x);
    assert(s.drop_last() =~= Seq::<NodeInfo>::empty());
    assert(with_time(Seq::<NodeInfo>::empty(), t) == Seq::<NodeInfo>::empty());
    assert(with_time(s, t) == if x.response_time == t {
        with_time(s.drop_last(), t).push(x)
    } else {
        with_time(s.drop_last(), t)
    });
    if x.response_time == t {
        assert(Seq::<NodeInfo>::empty().push(x) =~= seq![x]);
    }
}

/// `nodes` stably sorted by response time (an insertion sort that puts each
/// node after every node already placed whose time is not larger).
pub fn sort_by_response_time(nodes: &Vec<NodeInfo>) -> (sorted: Vec<NodeInfo>)
    ensures
        stable_sort_of(sorted@, nodes@),
{
    let mut sorted: Vec<NodeInfo> = Vec::new();
    let mut i: usize = 0;
    assert(nodes@.take(0) =~= Seq::<NodeInfo>::empty());
    while i < nodes.len()
        invariant
            i <= nodes@.len(),
            sorted_by_time(sorted@),
            forall|t: u128| #[trigger] with_time(sorted@, t) == with_time(nodes@.take(i as int), t),
        decreases nodes@.len() - i,
    {
        let x = nodes[i].clone();
        let key = x.response_time;
        let mut p: usize = 0;
        while p < sorted.len() && sorted[p].response_time <= key
            invariant
                p <= sorted@.len(),
                forall|k: int| 0 <= k < p ==> sorted@[k].response_time <= key,
            decreases sorted@.len() - p,
        {
            p = p + 1;
        }
        let ghost old_sorted = sorted@;
        let ghost front = old_sorted.take(p as int);
        let ghost back = old_sorted.skip(p as int);
        proof {
            assert forall|k: int| 0 <= k < back.len() implies back[k].response_time > key by {
                assert(old_sorted[p as int].response_time > key);
                assert(back[k] == old_sorted[p + k]);
            }
            assert(old_sorted =~= front + back);
        }
        sorted.insert(p, x);
        proof {
            assert(sorted@ =~= front + seq![x] + back);
            assert(nodes@.take(i + 1) =~= nodes@.take(i as int) + seq![x]);
            assert forall|t: u128| #[trigger]
                with_time(sorted@, t) == with_time(nodes@.take(i + 1), t) by {
                lemma_with_time_add(front + seq![x], back, t);
                lemma_with_time_add(front, seq![x], t);
                lemma_with_time_add(front, back, t);
                lemma_with_time_add(nodes@.take(i as int), seq![x], t);
                lemma_with_time_single(x, t);
                if t == key {
                    lemma_with_time_none(back, t);
                    assert(with_time(front, t) + with_time(back, t) =~= with_time(front, t));
                    assert(with_time(front, t) + with_time(seq![x], t) + with_time(back, t)
                        =~= with_time(front, t) + with_time(seq![x], t));
                } else {
                    assert(with_time(front, t) + with_time(seq![x], t) + with_time(back, t)
                        =~= with_time(front, t) + with_time(back, t));
                    assert(with_time(nodes@.take(i as int), t) + with_time(seq![x], t)
                        =~= with_time(nodes@.take(i as int), t));
                }
            }
            assert forall|a: int, b: int| 0 <= a < b < sorted@.len() implies sorted@[a].response_time
                <= sorted@[b].response_time by {
                if b < p {
                } else if b == p {
                    assert(sorted@[a] == front[a]);
                } else if a < p {
                    assert(sorted@[b] == back[b - p - 1]);
                    assert(sorted@[a] == front[a]);
                } else if a == p {
                    assert(sorted@[b] == back[b - p - 1]);
                } else {
                    assert(sorted@[b] == old_sorted[b - 1]);
                    assert(sorted@[a] == old_sorted[a - 1]);
                }
            }
        }
        i = i + 1;
    }
    assert(nodes@.take(i as int) =~= nodes@);
    sorted
}

/// The `n` fastest nodes of one location: the list stably sorted by
/// response time, cut to its first `n`.
pub fn fastest_nodes(nodes: &Vec<NodeInfo>, n: usize) -> (fastest: Vec<NodeInfo>)
    ensures
        fastest_of(fastest@, nodes@, n as nat),
{
    let mut sorted = sort_by_response_time(nodes);
    let ghost r = sorted@;
    sorted.truncate(n);
    assert(sorted@ == r.take(if n < r.len() { n as int } else { r.len() as int }));
    sorted
}

/// No location is listed twice: the groups form a map from location to
/// nodes.
pub open spec fn distinct_locations(groups: Seq<LocationNodes>) -> bool {
    forall|i: int, j: int|
        0 <= i < j < groups.len() ==> #[trigger] groups[i].location@ != #[trigger] groups[j].location@
}

/// For every location, its `n` fastest nodes; the locations keep their
/// order, so the result is again a map from location to nodes.
pub fn select_fastest_nodes(nodes: &Vec<LocationNodes>, n: usize) -> (fastest: Vec<LocationNodes>)
    requires
        distinct_locations(nodes@),
    ensures
        distinct_locations(fastest@),
        fastest@.len() == nodes@.len(),
        forall|i: int|
            0 <= i < nodes@.len() ==> {
                &&& #[trigger] fastest@[i].location == nodes@[i].location
                &&& fastest_of(fastest@[i].nodes@, nodes@[i].nodes@, n as nat)
            },
{
    let mut fastest: Vec<LocationNodes> = Vec::new();
    let mut i: usize = 0;
    while i < nodes.len()
        invariant
            i <= nodes@.len(),
            fastest@.len() == i,
            forall|k: int|
                0 <= k < i ==> {
                    &&& #[trigger] fastest@[k].location == nodes@[k].location
                    &&& fastest_of(fastest@[k].nodes@, nodes@[k].nodes@, n as nat)
                },
        decreases nodes@.len() - i,
    {
        let group = &nodes[i];
        let selected = fastest_nodes(&group.nodes, n);
        fastest.push(LocationNodes { location: group.location.clone(), nodes: selected });
        i = i + 1;
    }
    assert forall|a: int, b: int| 0 <= a < b < fastest@.len() implies #[trigger] fastest@[a].location@
        != #[trigger] fastest@[b].location@ by {
        assert(fastest@[a].location == nodes@[a].location);
        assert(fastest@[b].location == nodes@[b].location);
        assert(nodes@[a].location@ != nodes@[b].location@);
    }
    fastest
}

/// Each node of `s` is counted as often in `s` as among the nodes of `s`
/// with its response time.
pub proof fn lemma_count_with_time(s: Seq<NodeInfo>, x: NodeInfo)
    ensures
        s.to_multiset().count(x) == with_time(s, x.response_time).to_multiset().count(x),
    decreases s.len(),
{
    broadcast use vstd::seq_lib::group_to_multiset_ensures;

    if s.len() == 0 {
        assert(s.to_multiset() =~= Multiset::<NodeInfo>::empty());
        assert(with_time(s, x.response_time).to_multiset() =~= Multiset::<NodeInfo>::empty());
    } else {
        let init = s.drop_last();
        lemma_count_with_time(init, x);
        assert(s == init.push(s.last()));
    }
}

/// A stable sort is a permutation: it holds the same nodes, as often.
pub proof fn lemma_stable_sort_permutation(r: Seq<NodeInfo>, s: Seq<NodeInfo>)
    requires
        stable_sort_of(r, s),
    ensures
        r.to_multiset() == s.to_multiset(),
        r.len() == s.len(),
{
    broadcast use vstd::seq_lib::group_to_multiset_ensures;

    assert forall|x: NodeInfo| r.to_multiset().count(x) == s.to_multiset().count(x) by {
        lemma_count_with_time(r, x);
        lemma_count_with_time(s, x);
        assert(with_time(r, x.response_time) == with_time(s, x.response_time));
    }
    assert(r.to_multiset() =~= s.to_multiset());
    assert(r.len() == r.to_multiset().len());
    assert(s.len() == s.to_multiset().len());
}

proof fn lemma_with_time_contains(s: Seq<NodeInfo>, i: int)
    requires
        0 <= i < s.len(),
    ensures
        with_time(s, s[i].response_time).contains(s[i]),
    decreases s.len(),
{
    let t = s[i].response_time;
    if i == s.len() - 1 {
        assert(with_time(s, t) == with_time(s.drop_last(), t).push(s.last()));
        assert(with_time(s, t)[with_time(s, t).len() - 1] == s[i]);
    } else {
        lemma_with_time_contains(s.drop_last(), i);
        assert(s.drop_last()[i] == s[i]);
        let w = with_time(s.drop_last(), t);
        let k = choose|k: int| 0 <= k < w.len() && w[k] == s[i];
        if s.last().response_time == t {
            assert(with_time(s, t)[k] == s[i]);
        }
    }
}

proof fn lemma_with_time_elements(s: Seq<NodeInfo>, t: u128, k: int)
    requires
        0 <= k < with_time(s, t).len(),
    ensures
        with_time(s, t)[k].response_time == t,
        s.contains(with_time(s, t)[k]),
    decreases s.len(),
{
    if s.len() > 0 {
        let w = with_time(s.drop_last(), t);
        if s.last().response_time == t && k == w.len() {
            assert(s[s.len() - 1] == s.last());
        } else {
            lemma_with_time_elements(s.drop_last(), t, k);
            let y = w[k];
            let j = choose|j: int| 0 <= j < s.drop_last().len() && s.drop_last()[j] == y;
            assert(s[j] == y);
        }
    }
}

/// A sequence has only one stable sort: the selection of the fastest nodes
/// is a function of the list it starts from.
pub proof fn lemma_stable_sort_unique(r1: Seq<NodeInfo>, r2: Seq<NodeInfo>, s: Seq<NodeInfo>)
    requires
        stable_sort_of(r1, s),
        stable_sort_of(r2, s),
    ensures
        r1 == r2,
    decreases r1.len(),
{
    lemma_stable_sort_permutation(r1, s);
    lemma_stable_sort_permutation(r2, s);
    lemma_sorted_same_groups_equal(r1, r2);
}

proof fn lemma_sorted_same_groups_equal(r1: Seq<NodeInfo>, r2: Seq<NodeInfo>)
    requires
        sorted_by_time(r1),
        sorted_by_time(r2),
        r1.len() == r2.len(),
        forall|t: u128| #[trigger] with_time(r1, t) == with_time(r2, t),
    ensures
        r1 == r2,
    decreases r1.len(),
{
    if r1.len() == 0 {
        assert(r1 =~= r2);
    } else {
        let n = r1.len() - 1;
        let l1 = r1.last();
        let l2 = r2.last();
        let t1 = l1.response_time;
        let t2 = l2.response_time;
        lemma_with_time_contains(r1, n);
        lemma_with_time_contains(r2, n);
        assert(t1 <= t2) by {
            let w = with_time(r2, t1);
            assert(w == with_time(r1, t1));
            let k = choose|k: int| 0 <= k < w.len() && w[k] == l1;
            lemma_with_time_elements(r2, t1, k);
            let j = choose|j: int| 0 <= j < r2.len() && r2[j] == w[k];
            assert(r2[j].response_time <= r2[n].response_time);
        }
        assert(t2 <= t1) by {
            let w = with_time(r1, t2);
            assert(w == with_time(r2, t2));
            let k = choose|k: int| 0 <= k < w.len() && w[k] == l2;
            lemma_with_time_elements(r1, t2, k);
            let j = choose|j: int| 0 <= j < r1.len() && r1[j] == w[k];
            assert(r1[j].response_time <= r1[n].response_time);
        }
        assert(with_time(r1, t1) == with_time(r1.drop_last(), t1).push(l1));
        assert(with_time(r2, t1) == with_time(r2.drop_last(), t1).push(l2));
        assert(l1 == l2) by {
            assert(with_time(r1, t1).last() == l1);
            assert(with_time(r2, t1).last() == l2);
        }
        assert forall|t: u128| #[trigger]
            with_time(r1.drop_last(), t) == with_time(r2.drop_last(), t) by {
            assert(with_time(r1, t) == with_time(r2, t));
            if t == t1 {
                assert(with_time(r1.drop_last(), t) =~= with_time(r1, t).drop_last());
                assert(with_time(r2.drop_last(), t) =~= with_time(r2, t).drop_last());
            }
        }
        lemma_sorted_same_groups_equal(r1.drop_last(), r2.drop_last());
        assert(r1 =~= r1.drop_last().push(l1));
        assert(r2 =~= r2.drop_last().push(l2));
    }
}

/// The fastest nodes of a list are determined by it, are at most `n`
/// (fewer only when the list is shorter), come in ascending order of
/// response time, and are all taken from the list.
pub proof fn lemma_fastest_properties(out: Seq<NodeInfo>, other: Seq<NodeInfo>, s: Seq<NodeInfo>, n: nat)
    requires
        fastest_of(out, s, n),
        fastest_of(other, s, n),
    ensures
        out == other,
        out.len() == (if n < s.len() { n } else { s.len() }),
        sorted_by_time(out),
        forall|x: NodeInfo| out.to_multiset().count(x) <= s.to_multiset().count(x),
{
    broadcast use vstd::seq_lib::group_to_multiset_ensures;

    let r = choose|r: Seq<NodeInfo>|
        stable_sort_of(r, s) && out == r.take(if n < r.len() { n as int } else { r.len() as int });
    let r2 = choose|r2: Seq<NodeInfo>|
        stable_sort_of(r2, s) && other == r2.take(
            if n < r2.len() { n as int } else { r2.len() as int },
        );
    lemma_stable_sort_unique(r, r2, s);
    lemma_stable_sort_permutation(r, s);
    let k = if n < r.len() { n as int } else { r.len() as int };
    assert(r =~= r.take(k) + r.skip(k));
    vstd::seq_lib::lemma_multiset_commutative(r.take(k), r.skip(k));
}

} // verus!
