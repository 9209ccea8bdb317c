//! Death nameplates: the short-lived label that flies off a defeated player,
//! kept in a bounded queue.

use vstd::prelude::*;

verus! {

/// Most death nameplates shown at once.
pub const MAX_DEATH_NAMEPLATES: usize = 64;

/// A death nameplate. `V` carries how it is drawn (color, world position,
/// drift, flight distance and icon size).
#[derive(Clone, Debug)]
pub struct DeathNameplateAnimation<V> {
    pub name: String,
    /// When the animation started, in milliseconds on the client's clock.
    pub start_ms: u64,
    /// The player was destroyed by a nuclear strike.
    pub by_nuke: bool,
    pub visual: V,
}

/// The queue after adding `a` to `q`: the oldest entry gives way when the
/// queue is full.
pub open spec fn enqueued<T>(q: Seq<T>, a: T) -> Seq<T> {
    if q.len() >= MAX_DEATH_NAMEPLATES {
        q.drop_first().push(a)
    } else {
        q.push(a)
    }
}

impl<V> DeathNameplateAnimation<V> {
    /// Adds an animation; the oldest one gives way when the queue is full.
    pub fn enqueue(queue: &mut Vec<Self>, animation: Self)
        requires
            old(queue)@.len() <= MAX_DEATH_NAMEPLATES,
        ensures
            final(queue)@ == enqueued(old(queue)@, animation),
            final(queue)@.len() <= MAX_DEATH_NAMEPLATES,
    {
        if queue.len() >= MAX_DEATH_NAMEPLATES {
            queue.remove(0);
        }
        queue.push(animation);
    }
}

/// The icon of a death: a radiation sign for a nuclear death, a dove otherwise.
pub fn death_emoji(by_nuke: bool) -> (s: &'static str)
    ensures
        s@ == if by_nuke { "☢️"@ } else { "🕊️"@ },
{
    if by_nuke {
        "☢️"
    } else {
        "🕊️"
    }
}

/// The queue never holds more than its cap, and the newest animation is
/// always its last entry.
pub proof fn law_nameplate_queue_bounded<T>(q: Seq<T>, a: T)
    requires
        q.len() <= MAX_DEATH_NAMEPLATES,
    ensures
        enqueued(q, a).len() <= MAX_DEATH_NAMEPLATES,
        enqueued(q, a).last() == a,
        q.len() == MAX_DEATH_NAMEPLATES ==> enqueued(q, a) == q.subrange(1, q.len() as int).push(a),
{
    if q.len() == MAX_DEATH_NAMEPLATES {
        assert(q.drop_first() =~= q.subrange(1, q.len() as int));
    }
}

} // verus!
