use std::collections::{HashMap, HashSet};
use vstd::prelude::*;
use crate::config::{forum_allowed, is_forum_allowed};
use crate::error::BotError;
use crate::handlers::auto_publish_flow::{AutoPublishFlow, FlowPhase, FlowState};

verus! {

broadcast use vstd::std_specs::hash::group_hash_axioms;

/// Seconds for which a thread that started the workflow cannot start it
/// again.
pub const DEDUP_WINDOW_SECS: u64 = 300;

/// Remembers which threads started the workflow, and when, so that one
/// creation that is reported twice starts it once. Keys whose window is
/// over are forgotten as time goes by.
pub struct TriggerDeduplicator {
    seen: HashMap<u64, u64>,
    /// The keys in the order of their admission, each with its time.
    queue: Vec<(u64, u64)>,
    window_secs: u64,
}

impl TriggerDeduplicator {
    /// When each key that is still remembered was admitted last, in seconds.
    pub closed spec fn admitted_at(self) -> Map<u64, u64> {
        self.seen@
    }

    /// The length of the window, in seconds.
    pub closed spec fn window(self) -> u64 {
        self.window_secs
    }

    /// A key is live at `now` if it was admitted less than a window ago.
    pub open spec fn is_live(self, key: u64, now: u64) -> bool {
        self.admitted_at().contains_key(key) && now < self.admitted_at()[key] + self.window()
    }

    /// A deduplicator that has admitted nothing.
    pub fn new(window_secs: u64) -> (r: TriggerDeduplicator)
        ensures
            r.window() == window_secs,
            r.admitted_at() == Map::<u64, u64>::empty(),
    {
        TriggerDeduplicator { seen: HashMap::new(), queue: Vec::new(), window_secs }
    }

    fn expired(&self, at: u64, now: u64) -> (over: bool)
        ensures
            over == (now >= at + self.window()),
    {
        (now as u128) >= at as u128 + self.window_secs as u128
    }

    /// What is remembered of the keys that are live at `now`: each of them
    /// with the time of its admission, and no other key.
    pub open spec fn live_part(self, now: u64) -> Map<u64, u64> {
        Map::new(|key: u64| self.is_live(key, now), |key: u64| self.admitted_at()[key])
    }

    /// Every remembered key stands in the queue with the time of its last
    /// admission, so that a walk through the queue meets all of them.
    #[verifier::type_invariant]
    spec fn queued(self) -> bool {
        forall|key: u64| #[trigger]
            self.seen@.contains_key(key) ==> self.queue@.contains((key, self.seen@[key]))
    }

    /// Forgets keys whose window is over at `now`: afterwards exactly the
    /// keys that are live at `now` are remembered, each with the time of
    /// its admission. What is live at `now` or later stays as it is.
    fn forget_expired(&mut self, now: u64)
        ensures
            final(self).window() == old(self).window(),
            final(self).admitted_at() == old(self).live_part(now),
            forall|key: u64, later: u64|
                later >= now ==> #[trigger] final(self).is_live(key, later) == old(self).is_live(
                    key,
                    later,
                ),
    {
        proof {
            use_type_invariant(&*self);
        }
        let mut seen: HashMap<u64, u64> = HashMap::new();
        core::mem::swap(&mut self.seen, &mut seen);
        let mut queue: Vec<(u64, u64)> = Vec::new();
        core::mem::swap(&mut self.queue, &mut queue);
        let mut kept: Vec<(u64, u64)> = Vec::new();
        let mut i: usize = 0;
        while i < queue.len()
            invariant
                i <= queue.len(),
                self.window() == old(self).window(),
                queue@ == old(self).queue@,
                forall|key: u64| #[trigger]
                    old(self).seen@.contains_key(key) ==> old(self).queue@.contains(
                        (key, old(self).seen@[key]),
                    ),
                forall|key: u64| #[trigger]
                    seen@.contains_key(key) ==> old(self).seen@.contains_key(key) && seen@[key]
                        == old(self).seen@[key],
                forall|key: u64| old(self).is_live(key, now) ==> #[trigger] seen@.contains_key(key),
                forall|j: int|
                    0 <= j < i && seen@.contains_key((#[trigger] queue@[j]).0) ==> {
                        &&& now < seen@[queue@[j].0] + self.window()
                        &&& seen@[queue@[j].0] == queue@[j].1 ==> kept@.contains(queue@[j])
                    },
            decreases queue.len() - i,
        {
            let (key, at) = queue[i];
            let ghost kept_before = kept@;
            let stored = match seen.get(&key) {
                Some(time) => Some(*time),
                None => None,
            };
            match stored {
                Some(time) => {
                    if self.expired(time, now) {
                        seen.remove(&key);
                    } else if time == at {
                        kept.push((key, at));
                    }
                },
                None => {},
            }
            proof {
                assert forall|j: int|
                    0 <= j < i + 1 && seen@.contains_key((#[trigger] queue@[j]).0) implies {
                    &&& now < seen@[queue@[j].0] + self.window()
                    &&& seen@[queue@[j].0] == queue@[j].1 ==> kept@.contains(queue@[j])
                } by {
                    if seen@[queue@[j].0] == queue@[j].1 {
                        if j < i {
                            assert(kept_before.contains(queue@[j]));
                            let at_index = choose|a: int|
                                0 <= a < kept_before.len() && kept_before[a] == queue@[j];
                            assert(kept@[at_index] == queue@[j]);
                        } else {
                            assert(kept@[kept@.len() - 1] == queue@[j]);
                        }
                    }
                }
            }
            i += 1;
        }
        proof {
            assert forall|key: u64| #[trigger] seen@.contains_key(key) implies kept@.contains(
                (key, seen@[key]),
            ) && old(self).is_live(key, now) by {
                let entry = (key, old(self).seen@[key]);
                assert(old(self).queue@.contains(entry));
                let j = choose|j: int| 0 <= j < queue@.len() && queue@[j] == entry;
                assert(queue@[j].0 == key);
            }
        }
        self.queue = kept;
        self.seen = seen;
        proof {
            assert(self.admitted_at() =~= old(self).live_part(now));
        }
    }

    /// Admits a key unless it is live: the first call for a key within a
    /// window returns `true` and starts the key's window at `now`; every
    /// other call within that window returns `false`. Whatever else is live
    /// at `now` or later stays live for as long as it was.
    pub fn admit_key(&mut self, key: u64, now: u64) -> (admitted: bool)
        ensures
            admitted == !old(self).is_live(key, now),
            final(self).window() == old(self).window(),
            forall|other: u64, later: u64|
                later >= now ==> #[trigger] final(self).is_live(other, later) == (old(
                    self,
                ).is_live(other, later) || (admitted && other == key && later < now
                    + old(self).window())),
    {
        self.forget_expired(now);
        let ghost swept = *self;
        proof {
            use_type_invariant(&*self);
            assert(swept.is_live(key, now) == old(self).is_live(key, now));
        }
        let live = match self.seen.get(&key) {
            Some(at) => !self.expired(*at, now),
            None => false,
        };
        if live {
            false
        } else {
            let mut seen: HashMap<u64, u64> = HashMap::new();
            core::mem::swap(&mut self.seen, &mut seen);
            let mut queue: Vec<(u64, u64)> = Vec::new();
            core::mem::swap(&mut self.queue, &mut queue);
            queue.push((key, now));
            seen.insert(key, now);
            proof {
                let longer = queue@;
                assert(longer[longer.len() - 1] == (key, now));
                assert forall|other: u64| #[trigger] seen@.contains_key(other) implies longer.contains(
                    (other, seen@[other]),
                ) by {
                    if other != key {
                        let entry = (other, swept.seen@[other]);
                        assert(swept.queue@.contains(entry));
                        let j = choose|j: int|
                            0 <= j < swept.queue@.len() && swept.queue@[j] == entry;
                        assert(longer[j] == entry);
                    }
                }
            }
            self.queue = queue;
            self.seen = seen;
            proof {
                assert forall|other: u64, later: u64| later >= now implies #[trigger] self.is_live(
                    other,
                    later,
                ) == (old(self).is_live(other, later) || (other == key && later < now + old(
                    self,
                ).window())) by {
                    assert(swept.is_live(other, later) == old(self).is_live(other, later));
                    if other == key {
                        assert(!swept.is_live(key, now));
                        assert(!swept.is_live(key, later));
                    }
                }
            }
            true
        }
    }
}

/// A key that was admitted at `first` is refused at every later moment of
/// its window: of two reports of one creation that arrive within the
/// window, the second starts nothing.
pub proof fn lemma_duplicate_is_refused(
    before: TriggerDeduplicator,
    after: TriggerDeduplicator,
    key: u64,
    first: u64,
    second: u64,
)
    requires
        !before.is_live(key, first),
        after.window() == before.window(),
        forall|other: u64, later: u64|
            later >= first ==> #[trigger] after.is_live(other, later) == (before.is_live(
                other,
                later,
            ) || (other == key && later < first + before.window())),
        first <= second < first + after.window(),
    ensures
        after.is_live(key, second),
{
}

/// What the bot knows of a new thread.
#[derive(Debug, Clone, Copy, PartialEq, Eq, Structural)]
pub struct ThreadInfo {
    pub id: u64,
    pub parent_id: Option<u64>,
    pub owner_id: Option<u64>,
}

/// What becomes of a reported thread creation.
#[derive(Debug, Clone, Copy, PartialEq, Eq, Structural)]
pub enum TriggerDecision {
    /// The thread was reported before, within the window.
    Duplicate,
    /// The thread's forum is not among the allowed ones.
    ForumNotAllowed,
    /// The creation is new: the driver looks for the first message.
    CheckFirstMessage,
}

/// The decision for a reported creation.
pub open spec fn trigger_decision(
    live: bool,
    allowed: Set<u64>,
    parent_id: Option<u64>,
) -> TriggerDecision {
    if live {
        TriggerDecision::Duplicate
    } else if parent_id.is_some() && !forum_allowed(allowed, parent_id.unwrap()) {
        TriggerDecision::ForumNotAllowed
    } else {
        TriggerDecision::CheckFirstMessage
    }
}

/// Decides whether a reported thread creation goes on to the workflow. A
/// report that is no duplicate uses up the thread's window, whatever is
/// decided after that.
pub fn handle_thread_create(
    dedup: &mut TriggerDeduplicator,
    allowed_forums: &HashSet<u64>,
    thread: &ThreadInfo,
    now: u64,
) -> (decision: TriggerDecision)
    ensures
        decision == trigger_decision(
            old(dedup).is_live(thread.id, now),
            allowed_forums@,
            thread.parent_id,
        ),
        final(dedup).window() == old(dedup).window(),
        forall|other: u64, later: u64|
            later >= now ==> #[trigger] final(dedup).is_live(other, later) == (old(dedup).is_live(
                other,
                later,
            ) || (!old(dedup).is_live(thread.id, now) && other == thread.id && later < now + old(
                dedup,
            ).window())),
{
    if !dedup.admit_key(thread.id, now) {
        return TriggerDecision::Duplicate;
    }
    if let Some(parent_id) = thread.parent_id {
        if !is_forum_allowed(allowed_forums, parent_id) {
            return TriggerDecision::ForumNotAllowed;
        }
    }
    TriggerDecision::CheckFirstMessage
}

/// Whether the thread has its first message, from what fetching one
/// message gave: a failed fetch counts as none.
pub fn has_first_message(fetched: &Result<usize, BotError>) -> (present: bool)
    ensures
        present == (fetched matches Ok(count) && count > 0),
{
    match fetched {
        Ok(count) => *count > 0,
        Err(_) => false,
    }
}

/// The workflow for a thread whose first message is there and whose owner
/// is known; nothing for any other thread.
pub fn start_flow(thread: &ThreadInfo, first_message_present: bool) -> (flow: Option<
    AutoPublishFlow,
>)
    ensures
        flow.is_some() == (first_message_present && thread.owner_id.is_some()),
        flow.is_some() ==> flow.unwrap() == (AutoPublishFlow {
            state: FlowState::Initial,
            phase: FlowPhase::Created,
            owner_id: thread.owner_id.unwrap(),
            thread_id: thread.id,
            now: 0,
            current_message: None,
            system_licenses: None,
            pending_interaction: None,
            editor_interaction: None,
            last_interaction: None,
        }),
{
    if !first_message_present {
        return None;
    }
    match thread.owner_id {
        Some(owner_id) => Some(AutoPublishFlow::new(owner_id, thread.id)),
        None => None,
    }
}

} // verus!
