//! Stations in the order of their votes.
use vstd::prelude::*;

use crate::models;
use crate::models::{Station, StationView};

verus! {

/// The votes of stations, in the same order.
pub open spec fn votes_of(stations: Seq<StationView>) -> Seq<i64> {
    Seq::new(stations.len(), |i: int| stations[i].votes)
}

/// The station at position `p` goes before the one at position `q`: it has more
/// votes, or as many and came first.
pub open spec fn goes_before(votes: Seq<i64>, p: int, q: int) -> bool {
    votes[p] > votes[q] || (votes[p] == votes[q] && p < q)
}

/// `order` lists every position of `votes` once, best-voted first, and those with
/// the same votes in the order they came.
pub open spec fn is_best_first(votes: Seq<i64>, order: Seq<int>) -> bool {
    &&& order.len() == votes.len()
    &&& forall|i: int| 0 <= i < order.len() ==> 0 <= #[trigger] order[i] < votes.len()
    &&& forall|p: int| 0 <= p < votes.len() ==> #[trigger] order.contains(p)
    &&& forall|i: int, j: int|
        0 <= i < j < order.len() ==> goes_before(votes, #[trigger] order[i], #[trigger] order[j])
}

/// The positions of `votes`, best-voted first.
pub open spec fn best_first_order(votes: Seq<i64>) -> Seq<int> {
    choose|order: Seq<int>| is_best_first(votes, order)
}

/// `count`, but no more than `limit`.
pub open spec fn at_most(count: nat, limit: nat) -> nat {
    if limit < count { limit } else { count }
}

/// At most `limit` of the stations, best-voted first.
pub open spec fn best_first(stations: Seq<StationView>, limit: nat) -> Seq<StationView> {
    let order = best_first_order(votes_of(stations));
    Seq::new(at_most(stations.len(), limit), |i: int| stations[order[i]])
}

/// One more station takes its place behind all that have at least as many votes.
proof fn lemma_place_taken(votes: Seq<i64>, order: Seq<int>, more: i64, at: int)
    requires
        is_best_first(votes, order),
        0 <= at <= order.len(),
        forall|j: int| 0 <= j < at ==> votes[#[trigger] order[j]] >= more,
        forall|j: int| at <= j < order.len() ==> votes[#[trigger] order[j]] < more,
    ensures
        is_best_first(votes.push(more), order.insert(at, votes.len() as int)),
{
    let longer = votes.push(more);
    let last = votes.len() as int;
    let placed = order.insert(at, last);
    assert forall|p: int| 0 <= p < longer.len() implies #[trigger] placed.contains(p) by {
        if p == last {
            assert(placed[at] == p);
        } else {
            assert(order.contains(p));
            let i = order.index_of(p);
            assert(placed[if i < at { i } else { i + 1 }] == p);
        }
    }
    assert forall|i: int, j: int| 0 <= i < j < placed.len() implies goes_before(
        longer,
        #[trigger] placed[i],
        #[trigger] placed[j],
    ) by {
        let from = if i < at { i } else { i - 1 };
        let to = if j < at { j } else { j - 1 };
        assert(i != at ==> placed[i] == order[from]);
        assert(j != at ==> placed[j] == order[to]);
        if i != at && j != at {
            assert(goes_before(votes, order[from], order[to]));
        }
    }
    assert forall|i: int| 0 <= i < placed.len() implies 0 <= #[trigger] placed[i]
        < longer.len() by {
        assert(i != at ==> placed[i] == order[if i < at { i } else { i - 1 }]);
    }
}

/// There is a place for one more station. It is looked for from `upto` backwards.
proof fn lemma_place_found(votes: Seq<i64>, order: Seq<int>, more: i64, upto: int) -> (at: int)
    requires
        is_best_first(votes, order),
        0 <= upto <= order.len(),
        forall|j: int| upto <= j < order.len() ==> votes[#[trigger] order[j]] < more,
    ensures
        0 <= at <= order.len(),
        forall|j: int| 0 <= j < at ==> votes[#[trigger] order[j]] >= more,
        forall|j: int| at <= j < order.len() ==> votes[#[trigger] order[j]] < more,
    decreases upto,
{
    if upto > 0 && votes[order[upto - 1]] < more {
        lemma_place_found(votes, order, more, upto - 1)
    } else {
        assert forall|j: int| 0 <= j < upto implies votes[#[trigger] order[j]] >= more by {
            assert(j < upto - 1 ==> goes_before(votes, order[j], order[upto - 1]));
        }
        upto
    }
}

/// Whatever the votes, they can be ordered best first.
proof fn lemma_best_first_exists(votes: Seq<i64>) -> (order: Seq<int>)
    ensures
        is_best_first(votes, order),
    decreases votes.len(),
{
    if votes.len() == 0 {
        Seq::empty()
    } else {
        let fewer = lemma_best_first_exists(votes.drop_last());
        let at = lemma_place_found(
            votes.drop_last(),
            fewer,
            votes.last(),
            fewer.len() as int,
        );
        lemma_place_taken(votes.drop_last(), fewer, votes.last(), at);
        assert(votes.drop_last().push(votes.last()) =~= votes);
        fewer.insert(at, votes.drop_last().len() as int)
    }
}

/// Two orders that are both best first agree up to any position.
proof fn lemma_best_first_agree(votes: Seq<i64>, one: Seq<int>, other: Seq<int>, upto: int)
    requires
        is_best_first(votes, one),
        is_best_first(votes, other),
        0 <= upto <= votes.len(),
    ensures
        forall|i: int| 0 <= i < upto ==> one[i] == other[i],
    decreases upto,
{
    if upto > 0 {
        lemma_best_first_agree(votes, one, other, upto - 1);
        let here = upto - 1;
        if one[here] != other[here] {
            // Each would have to go before the other.
            assert(other.contains(one[here]) && one.contains(other[here]));
            let there = other.index_of(one[here]);
            let back = one.index_of(other[here]);
            assert(there > here) by {
                if there < here {
                    assert(goes_before(votes, one[there], one[here]));
                }
            }
            assert(back > here) by {
                if back < here {
                    assert(goes_before(votes, other[back], other[here]));
                }
            }
            assert(goes_before(votes, other[here], other[there]));
            assert(goes_before(votes, one[here], one[back]));
        }
    }
}

/// There is exactly one order that is best first.
pub proof fn law_one_order_is_best_first(votes: Seq<i64>, order: Seq<int>)
    ensures
        is_best_first(votes, best_first_order(votes)),
        is_best_first(votes, order) ==> order == best_first_order(votes),
{
    let witness = lemma_best_first_exists(votes);
    assert(is_best_first(votes, witness));
    if is_best_first(votes, order) {
        lemma_best_first_agree(votes, order, best_first_order(votes), votes.len() as int);
        assert(order =~= best_first_order(votes));
    }
}

/// The best-voted stations are as many as there are, up to the limit, and each has
/// at least as many votes as those after it. With the same votes, the one that
/// came first stays first.
pub proof fn law_best_voted_come_first(
    stations: Seq<StationView>,
    limit: nat,
    i: int,
    j: int,
)
    requires
        0 <= i < j < best_first(stations, limit).len(),
    ensures
        ({
            let shown = best_first(stations, limit);
            let order = best_first_order(votes_of(stations));
            &&& shown.len() == at_most(stations.len(), limit)
            &&& shown[i] == stations[order[i]] && shown[j] == stations[order[j]]
            &&& order[i] != order[j]
            &&& shown[i].votes >= shown[j].votes
            &&& shown[i].votes == shown[j].votes ==> order[i] < order[j]
        }),
{
    let votes = votes_of(stations);
    law_one_order_is_best_first(votes, best_first_order(votes));
    let order = best_first_order(votes);
    assert(goes_before(votes, order[i], order[j]));
}

/// A station that is left out has no more votes than any that is shown.
pub proof fn law_no_better_station_is_left_out(
    stations: Seq<StationView>,
    limit: nat,
    shown_at: int,
    left_out: int,
)
    requires
        0 <= shown_at < best_first(stations, limit).len(),
        0 <= left_out < stations.len(),
        forall|i: int|
            0 <= i < best_first(stations, limit).len() ==> #[trigger] best_first_order(
                votes_of(stations),
            )[i] != left_out,
    ensures
        best_first(stations, limit)[shown_at].votes >= stations[left_out].votes,
{
    let votes = votes_of(stations);
    let order = best_first_order(votes);
    law_one_order_is_best_first(votes, order);
    assert(order.contains(left_out));
    let at = order.index_of(left_out);
    assert(order[at] == left_out);
    assert(at >= best_first(stations, limit).len());
    assert(goes_before(votes, order[shown_at], order[at]));
}

/// At most `limit` of the stations, best-voted first. Stations with the same votes
/// stay in the order they came.
pub fn best_voted(stations: Vec<Station>, limit: usize) -> (shown: Vec<Station>)
    ensures
        shown@.len() == at_most(stations@.len(), limit as nat),
        forall|i: int, j: int|
            0 <= i < j < shown@.len() ==> shown@[i].votes >= shown@[j].votes,
        ({
            let votes = votes_of(models::station_views(stations@));
            let order = best_first_order(votes);
            &&& is_best_first(votes, order)
            &&& forall|i: int|
                0 <= i < shown@.len() ==> #[trigger] shown@[i] == stations@[order[i]]
        }),
        models::station_views(shown@) == best_first(
            models::station_views(stations@),
            limit as nat,
        ),
{
    let ghost given: Seq<Station> = stations@;
    let ghost votes: Seq<i64> = votes_of(models::station_views(given));
    let ghost mut order: Seq<int> = Seq::empty();
    let mut ranked: Vec<Station> = Vec::new();
    for station in it: stations.into_iter()
        invariant
            it.seq() == given,
            votes == votes_of(models::station_views(given)),
            ranked@.len() == it.index(),
            is_best_first(votes.take(it.index()), order),
            forall|i: int|
                0 <= i < ranked@.len() ==> #[trigger] ranked@[i] == given[order[i]],
    {
        let ghost before = votes.take(it.index());
        let mut at: usize = ranked.len();
        while at > 0 && ranked[at - 1].votes < station.votes
            invariant
                at <= ranked@.len(),
                forall|j: int|
                    at <= j < ranked@.len() ==> (#[trigger] ranked@[j]).votes < station.votes,
            decreases at,
        {
            at -= 1;
        }
        proof {
            assert forall|j: int| 0 <= j < order.len() implies before[#[trigger] order[j]]
                == ranked@[j].votes by {}
            assert forall|j: int| 0 <= j < at implies before[#[trigger] order[j]]
                >= station.votes by {
                assert(j < at - 1 ==> goes_before(before, order[j], order[at - 1]));
                assert(before[order[at - 1]] == ranked@[at - 1].votes);
            }
            lemma_place_taken(before, order, station.votes, at as int);
            order = order.insert(at as int, before.len() as int);
            assert(before.push(station.votes) =~= votes.take(it.index() + 1));
        }
        ranked.insert(at, station);
    }
    proof {
        assert(votes.take(votes.len() as int) =~= votes);
        law_one_order_is_best_first(votes, order);
        assert forall|i: int, j: int| 0 <= i < j < ranked@.len() implies (
        #[trigger] ranked@[i]).votes >= (#[trigger] ranked@[j]).votes by {
            assert(goes_before(votes, order[i], order[j]));
        }
    }
    ranked.truncate(limit);
    assert(models::station_views(ranked@) =~= best_first(
        models::station_views(given),
        limit as nat,
    ));
    ranked
}

/// A search that is held to a limit shows that many stations, or all there are. Each
/// is one of those that were found, none stands twice, and each goes before every other
/// that is not shown by then: it has more votes, or as many and was found first.
pub proof fn law_each_place_goes_to_the_best_that_is_left(
    stations: Seq<StationView>,
    limit: nat,
    i: int,
    other: int,
)
    requires
        0 <= i < stations.len(),
        i < limit,
        0 <= other < stations.len(),
    ensures
        ({
            let shown = best_first(stations, limit);
            let order = best_first_order(votes_of(stations));
            &&& limit < stations.len() ==> shown.len() == limit
            &&& limit >= stations.len() ==> shown.len() == stations.len()
            &&& 0 <= order[i] < stations.len()
            &&& shown[i] == stations[order[i]]
            &&& exists|k: int| 0 <= k < stations.len() && #[trigger] order[k] == other
            &&& (forall|k: int| 0 <= k <= i ==> #[trigger] order[k] != other) ==> {
                ||| shown[i].votes > stations[other].votes
                ||| shown[i].votes == stations[other].votes && order[i] < other
            }
            &&& forall|k: int| 0 <= k < i ==> #[trigger] order[k] != order[i]
        }),
{
    let votes = votes_of(stations);
    let order = best_first_order(votes);
    law_one_order_is_best_first(votes, order);
    assert(order.contains(other));
    let at = order.index_of(other);
    assert(order[at] == other);
    if at > i {
        assert(goes_before(votes, order[i], order[at]));
    }
    assert forall|k: int| 0 <= k < i implies #[trigger] order[k] != order[i] by {
        assert(goes_before(votes, order[k], order[i]));
    }
}

} // verus!
