//! The menu's lobby list: which entries survive a server broadcast or a
//! lobby update, so that every lobby is listed once and the lobby the player
//! waits in stays visible.

use vstd::prelude::*;
use std::collections::HashSet;

verus! {

broadcast use vstd::std_specs::hash::group_hash_axioms;

/// Entry `i` is the first with its id.
pub open spec fn first_with_id(ids: Seq<u64>, i: int) -> bool {
    !ids.subrange(0, i).contains(ids[i])
}

/// Positions of the first entry of each id among the first `n`, in order.
pub open spec fn kept_positions(ids: Seq<u64>, n: int) -> Seq<usize>
    decreases n,
{
    if n <= 0 {
        seq![]
    } else {
        kept_positions(ids, n - 1) + if first_with_id(ids, n - 1) {
            seq![(n - 1) as usize]
        } else {
            seq![]
        }
    }
}

/// The positions of the entries that a list keeps when it drops repeated
/// ids: the first entry of each id, in order.
pub fn first_of_each_id(ids: &[u64]) -> (r: Vec<usize>)
    ensures
        r@ == kept_positions(ids@, ids@.len() as int),
{
    proof {
        assert(vstd::std_specs::hash::obeys_key_model::<u64>());
    }
    let mut seen: HashSet<u64> = HashSet::with_capacity(ids.len());
    let mut kept: Vec<usize> = Vec::new();
    let mut i: usize = 0;
    while i < ids.len()
        invariant
            i <= ids.len(),
            kept@ == kept_positions(ids@, i as int),
            forall|x: u64| seen@.contains(x) <==> ids@.subrange(0, i as int).contains(x),
        decreases ids.len() - i,
    {
        assert(ids@.subrange(0, i + 1) =~= ids@.subrange(0, i as int).push(ids@[i as int]));
        let fresh = seen.insert(ids[i]);
        proof {
            assert forall|x: u64| seen@.contains(x) <==> ids@.subrange(0, i + 1).contains(x) by {
                if ids@.subrange(0, i + 1).contains(x) && x != ids@[i as int] {
                    let j = choose|j: int| 0 <= j < i + 1 && #[trigger] ids@.subrange(0, i + 1)[j] == x;
                    assert(ids@.subrange(0, i as int)[j] == x);
                }
                if ids@.subrange(0, i as int).contains(x) {
                    let j = choose|j: int| 0 <= j < i && #[trigger] ids@.subrange(0, i as int)[j] == x;
                    assert(ids@.subrange(0, i + 1)[j] == x);
                }
                if x == ids@[i as int] {
                    assert(ids@.subrange(0, i + 1)[i as int] == x);
                }
            }
        }
        if fresh {
            kept.push(i);
        }
        assert(kept@ =~= kept_positions(ids@, i + 1));
        i += 1;
    }
    kept
}

/// Some kept position holds `x`.
pub open spec fn id_listed(ids: Seq<u64>, kept: Seq<usize>, x: u64) -> bool {
    exists|q: int| 0 <= q < kept.len() && ids[#[trigger] kept[q] as int] == x
}

/// `r` is the first position of `id` in `ids`, or `None` where there is none.
pub open spec fn first_position(ids: Seq<u64>, id: u64, r: Option<usize>) -> bool {
    match r {
        Some(k) => k < ids.len() && ids[k as int] == id && forall|j: int| 0 <= j < k ==> ids[j] != id,
        None => !ids.contains(id),
    }
}

fn position_of(ids: &[u64], id: u64) -> (r: Option<usize>)
    ensures
        first_position(ids@, id, r),
{
    let mut k: usize = 0;
    while k < ids.len()
        invariant
            k <= ids.len(),
            forall|j: int| 0 <= j < k ==> ids@[j] != id,
        decreases ids.len() - k,
    {
        if ids[k] == id {
            return Some(k);
        }
        k += 1;
    }
    None
}

/// The lobby list after a lobby update for `id`: the positions of the
/// entries kept (first of each id) and, where `id` is among them, its
/// place in the kept list, which is then updated; without one, a new entry
/// is appended.
pub fn upsert_position(ids: &[u64], id: u64) -> (r: (Vec<usize>, Option<usize>))
    ensures
        r.0@ == kept_positions(ids@, ids@.len() as int),
        match r.1 {
            Some(k) => k < r.0@.len() && ids@[r.0@[k as int] as int] == id,
            None => !ids@.contains(id),
        },
{
    let kept = first_of_each_id(ids);
    proof {
        assert(ids@.len() == ids.len());
        lemma_kept_positions_cover(ids@, ids@.len() as int);
    }
    let mut k: usize = 0;
    while k < kept.len()
        invariant
            k <= kept.len(),
            kept@ == kept_positions(ids@, ids@.len() as int),
            forall|j: int| 0 <= j < k ==> ids@[kept@[j] as int] != id,
            forall|q: int| 0 <= q < kept@.len() ==> kept@[q] < ids@.len(),
            forall|i: int| 0 <= i < ids@.len() ==> id_listed(ids@, kept@, #[trigger] ids@[i]),
        decreases kept.len() - k,
    {
        if ids[kept[k]] == id {
            return (kept, Some(k));
        }
        k += 1;
    }
    proof {
        if ids@.contains(id) {
            let i = choose|i: int| 0 <= i < ids@.len() && ids@[i] == id;
            assert(id_listed(ids@, kept@, ids@[i]));
            let q = choose|q: int| 0 <= q < kept@.len() && ids@[#[trigger] kept@[q] as int] == ids@[i];
            assert(ids@[kept@[q] as int] != id);
        }
    }
    (kept, None)
}

proof fn lemma_kept_positions_cover(ids: Seq<u64>, n: int)
    requires
        0 <= n <= ids.len(),
        ids.len() <= usize::MAX,
    ensures
        forall|q: int| 0 <= q < kept_positions(ids, n).len() ==> kept_positions(ids, n)[q] < n,
        forall|i: int| 0 <= i < n ==> id_listed(ids, kept_positions(ids, n), #[trigger] ids[i]),
    decreases n,
{
    if n > 0 {
        lemma_kept_positions_cover(ids, n - 1);
        let prev = kept_positions(ids, n - 1);
        let cur = kept_positions(ids, n);
        assert forall|i: int| 0 <= i < n implies id_listed(ids, cur, #[trigger] ids[i]) by {
            if i < n - 1 {
                assert(id_listed(ids, prev, ids[i]));
                let q = choose|q: int| 0 <= q < prev.len() && ids[#[trigger] prev[q] as int] == ids[i];
                assert(cur[q] == prev[q]);
            } else if first_with_id(ids, n - 1) {
                assert(cur[prev.len() as int] == (n - 1) as usize);
            } else {
                assert(ids.subrange(0, n - 1).contains(ids[n - 1]));
                let j = choose|j: int| 0 <= j < n - 1 && #[trigger] ids.subrange(0, n - 1)[j] == ids[n - 1];
                assert(ids.subrange(0, n - 1)[j] == ids[j]);
                assert(id_listed(ids, prev, ids[j]));
                let q = choose|q: int| 0 <= q < prev.len() && ids[#[trigger] prev[q] as int] == ids[j];
                assert(cur[q] == prev[q]);
            }
        }
    }
}

/// What a lobby broadcast does to the lobby the player waits in.
#[derive(Clone, Copy, Debug, PartialEq, Eq, Structural)]
pub enum JoinedLobby {
    /// The player waits in no lobby.
    NotWaiting,
    /// The broadcast lists it at place `listed` of the new list; `snapshot`
    /// is its entry in the old list, whose running countdown may be kept.
    Listed { listed: usize, snapshot: Option<usize> },
    /// The broadcast omits it (it is loading): its old entry `snapshot` is
    /// appended to the new list.
    CarriedForward { snapshot: usize },
    /// The broadcast omits it and the old list does not know it.
    Dropped,
}

/// The menu's lobby list after a broadcast.
pub struct BroadcastMerge {
    /// Positions in the broadcast of the lobbies listed, in order.
    pub listed: Vec<usize>,
    pub joined: JoinedLobby,
}

/// The lobby list after a broadcast: the broadcast's lobbies, each id once;
/// while the player waits in a lobby, that lobby stays listed, from the
/// broadcast or else from the old list.
pub fn broadcast_merge(waiting: bool, joined_id: Option<u64>, current_ids: &[u64], broadcast_ids: &[u64]) -> (r: BroadcastMerge)
    ensures
        r.listed@ == kept_positions(broadcast_ids@, broadcast_ids@.len() as int),
        match (if waiting { joined_id } else { None }) {
            None => r.joined is NotWaiting,
            Some(id) => match r.joined {
                JoinedLobby::Listed { listed, snapshot } => listed < r.listed@.len() && broadcast_ids@[r.listed@[listed as int] as int] == id
                    && first_position(current_ids@, id, snapshot),
                JoinedLobby::CarriedForward { snapshot } => !broadcast_ids@.contains(id) && first_position(
                    current_ids@,
                    id,
                    Some(snapshot),
                ),
                JoinedLobby::Dropped => !broadcast_ids@.contains(id) && !current_ids@.contains(id),
                JoinedLobby::NotWaiting => false,
            },
        },
{
    let joined = if waiting { joined_id } else { None };
    let (listed, place) = upsert_position(broadcast_ids, match joined {
        Some(id) => id,
        None => 0,
    });
    let id = match joined {
        Some(id) => id,
        None => {
            return BroadcastMerge { listed, joined: JoinedLobby::NotWaiting };
        },
    };
    let snapshot = position_of(current_ids, id);
    let joined = match place {
        Some(k) => JoinedLobby::Listed { listed: k, snapshot },
        None => match snapshot {
            Some(s) => JoinedLobby::CarriedForward { snapshot: s },
            None => JoinedLobby::Dropped,
        },
    };
    BroadcastMerge { listed, joined }
}

proof fn lemma_kept_positions_distinct(ids: Seq<u64>, n: int)
    requires
        0 <= n <= ids.len(),
        ids.len() <= usize::MAX,
    ensures
        forall|p: int, q: int|
            0 <= p < q < kept_positions(ids, n).len() ==> ids[kept_positions(ids, n)[p] as int] != ids[kept_positions(
                ids,
                n,
            )[q] as int],
        forall|q: int| 0 <= q < kept_positions(ids, n).len() ==> kept_positions(ids, n)[q] < n,
    decreases n,
{
    if n > 0 {
        lemma_kept_positions_distinct(ids, n - 1);
        let prev = kept_positions(ids, n - 1);
        let cur = kept_positions(ids, n);
        if first_with_id(ids, n - 1) {
            assert forall|p: int, q: int| 0 <= p < q < cur.len() implies ids[cur[p] as int] != ids[cur[q] as int] by {
                if q == prev.len() {
                    let k = prev[p] as int;
                    assert(ids.subrange(0, n - 1)[k] == ids[k]);
                }
            }
        }
    }
}

/// Every lobby is listed once: the kept entries have distinct ids, and
/// every id of the list is among them.
pub proof fn law_each_lobby_listed_once(ids: Seq<u64>)
    requires
        ids.len() <= usize::MAX,
    ensures
        forall|p: int, q: int|
            0 <= p < q < kept_positions(ids, ids.len() as int).len() ==> ids[kept_positions(ids, ids.len() as int)[p] as int]
                != ids[kept_positions(ids, ids.len() as int)[q] as int],
        forall|i: int| 0 <= i < ids.len() ==> id_listed(ids, kept_positions(ids, ids.len() as int), #[trigger] ids[i]),
{
    lemma_kept_positions_distinct(ids, ids.len() as int);
    lemma_kept_positions_cover(ids, ids.len() as int);
}

} // verus!
