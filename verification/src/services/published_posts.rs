use std::collections::HashMap;
use vstd::prelude::*;
use vstd::string::*;
use crate::error::BotError;
use crate::types::license::{stored_user_id, to_stored_user_id};

verus! {

broadcast use vstd::std_specs::hash::group_hash_axioms;

/// The announcement that is currently published in a thread. `updated_at`
/// counts seconds since the Unix epoch.
#[derive(Debug, Clone, Copy, PartialEq, Eq, Structural)]
pub struct PublishedPost {
    pub thread_id: i64,
    pub message_id: i64,
    pub user_id: i64,
    pub backup_allowed: bool,
    pub updated_at: i64,
}

/// Whether publishing with `new_backup_allowed` changes the backup
/// permission of a thread: against an earlier announcement, if the flag
/// differs; without one, if backups are now allowed.
pub open spec fn backup_permission_changed(
    previous: Option<PublishedPost>,
    new_backup_allowed: bool,
) -> bool {
    match previous {
        Some(post) => post.backup_allowed != new_backup_allowed,
        None => new_backup_allowed,
    }
}

/// The announcement of a thread, if `rows` holds one.
pub open spec fn post_of(rows: Map<u64, PublishedPost>, thread_id: u64) -> Option<PublishedPost> {
    if rows.contains_key(thread_id) {
        Some(rows[thread_id])
    } else {
        None
    }
}

/// The row of a thread after an announcement was published into it: a new
/// row by the publishing user, or the old row with the new message, the new
/// flag and the new time, still under the user who published first.
pub open spec fn upserted_post(
    previous: Option<PublishedPost>,
    thread_id: u64,
    message_id: u64,
    user_id: u64,
    backup_allowed: bool,
    now: i64,
) -> PublishedPost {
    match previous {
        Some(post) => PublishedPost {
            message_id: stored_user_id(message_id),
            backup_allowed,
            updated_at: now,
            ..post
        },
        None => PublishedPost {
            thread_id: stored_user_id(thread_id),
            message_id: stored_user_id(message_id),
            user_id: stored_user_id(user_id),
            backup_allowed,
            updated_at: now,
        },
    }
}

/// Which announcements a listing takes.
#[derive(Debug, Clone, Copy, PartialEq, Eq, Structural)]
pub enum PostFilter {
    /// Every announcement.
    All,
    /// Those that the given user published first.
    ByUser(u64),
    /// Those that allow backups.
    BackupAllowed,
    /// Those that were updated at or after the first moment and before the
    /// second.
    UpdatedBetween(i64, i64),
    /// Those that were updated at or after the given moment.
    UpdatedSince(i64),
    /// The one whose announcement is the given message.
    ByMessage(u64),
}

/// Whether a listing with the given filter takes an announcement.
pub open spec fn accepts(filter: PostFilter, post: PublishedPost) -> bool {
    match filter {
        PostFilter::All => true,
        PostFilter::ByUser(user_id) => post.user_id == stored_user_id(user_id),
        PostFilter::BackupAllowed => post.backup_allowed,
        PostFilter::UpdatedBetween(from, to) => from <= post.updated_at < to,
        PostFilter::UpdatedSince(since) => since <= post.updated_at,
        PostFilter::ByMessage(message_id) => post.message_id == stored_user_id(message_id),
    }
}

/// The announcements of the given threads that a filter takes, in the
/// order of the threads. A thread without an announcement adds nothing.
pub open spec fn matching_posts(
    threads: Seq<u64>,
    rows: Map<u64, PublishedPost>,
    filter: PostFilter,
) -> Seq<PublishedPost>
    decreases threads.len(),
{
    if threads.len() == 0 {
        Seq::empty()
    } else {
        let rest = matching_posts(threads.drop_last(), rows, filter);
        if rows.contains_key(threads.last()) && accepts(filter, rows[threads.last()]) {
            rest.push(rows[threads.last()])
        } else {
            rest
        }
    }
}

/// A list of announcements with the one updated last first.
pub open spec fn latest_first(posts: Seq<PublishedPost>) -> bool {
    forall|i: int, j: int|
        0 <= i < j < posts.len() ==> (#[trigger] posts[i]).updated_at >= (#[trigger] posts[j]).updated_at
}

/// A list of ids without every occurrence of one of them.
pub open spec fn without(ids: Seq<u64>, id: u64) -> Seq<u64>
    decreases ids.len(),
{
    if ids.len() == 0 {
        ids
    } else if ids.last() == id {
        without(ids.drop_last(), id)
    } else {
        without(ids.drop_last(), id).push(ids.last())
    }
}

/// What a list holds after one more id was appended.
pub proof fn lemma_push_contains(ids: Seq<u64>, id: u64)
    ensures
        forall|other: u64| #[trigger]
            ids.push(id).contains(other) <==> (ids.contains(other) || other == id),
{
    let longer = ids.push(id);
    assert(longer[ids.len() as int] == id);
    assert forall|other: u64| #[trigger]
        longer.contains(other) <==> (ids.contains(other) || other == id) by {
        if ids.contains(other) {
            let k = choose|k: int| 0 <= k < ids.len() && ids[k] == other;
            assert(longer[k] == other);
        }
        if longer.contains(other) {
            let k = choose|k: int| 0 <= k < longer.len() && longer[k] == other;
            if k < ids.len() {
                assert(ids[k] == other);
            }
        }
    }
}

/// Appending an id that a list does not hold keeps the list free of
/// repetition and adds exactly that id.
pub proof fn lemma_push_fresh(ids: Seq<u64>, id: u64)
    requires
        !ids.contains(id),
    ensures
        forall|other: u64| #[trigger]
            ids.push(id).contains(other) <==> (ids.contains(other) || other == id),
        ids.no_duplicates() ==> ids.push(id).no_duplicates(),
{
    lemma_push_contains(ids, id);
    let longer = ids.push(id);
    if ids.no_duplicates() {
        assert forall|a: int, b: int|
            0 <= a < longer.len() && 0 <= b < longer.len() && a != b implies longer[a]
            != longer[b] by {
            if a < ids.len() && b < ids.len() {
            } else if a < ids.len() {
                assert(ids.contains(ids[a]));
            } else if b < ids.len() {
                assert(ids.contains(ids[b]));
            }
        }
    }
}

/// Taking an id out of a list leaves exactly the other ids, and leaves
/// them without repetition if there was none before.
pub proof fn lemma_without(ids: Seq<u64>, id: u64)
    ensures
        forall|other: u64| #[trigger]
            without(ids, id).contains(other) <==> (ids.contains(other) && other != id),
        ids.no_duplicates() ==> without(ids, id).no_duplicates(),
    decreases ids.len(),
{
    if ids.len() > 0 {
        let head = ids.drop_last();
        let last = ids.last();
        let w = without(head, id);
        lemma_without(head, id);
        lemma_push_contains(head, last);
        lemma_push_contains(w, last);
        assert(ids =~= head.push(last));
        assert forall|other: u64| #[trigger]
            without(ids, id).contains(other) <==> (ids.contains(other) && other != id) by {
            assert(w.contains(other) <==> (head.contains(other) && other != id));
            assert(head.push(last).contains(other) <==> (head.contains(other) || other == last));
            if last == id {
                assert(without(ids, id) == w);
            } else {
                assert(without(ids, id) == w.push(last));
                assert(w.push(last).contains(other) <==> (w.contains(other) || other == last));
            }
        }
        if ids.no_duplicates() {
            assert(head.no_duplicates()) by {
                assert forall|a: int, b: int|
                    0 <= a < head.len() && 0 <= b < head.len() && a != b implies head[a]
                    != head[b] by {
                    assert(ids[a] == head[a]);
                    assert(ids[b] == head[b]);
                }
            }
            if last != id {
                assert(!head.contains(last)) by {
                    if head.contains(last) {
                        let k = choose|k: int| 0 <= k < head.len() && head[k] == last;
                        assert(ids[k] == ids[ids.len() - 1]);
                    }
                }
                assert(w.contains(last) <==> (head.contains(last) && last != id));
                lemma_push_fresh(w, last);
            }
        }
    }
}

/// A copy of a list of ids without one of them.
pub fn remove_id(ids: &Vec<u64>, id: u64) -> (r: Vec<u64>)
    ensures
        r@ == without(ids@, id),
{
    let mut out: Vec<u64> = Vec::new();
    let mut i: usize = 0;
    proof {
        assert(out@ =~= without(ids@.subrange(0, 0), id));
    }
    while i < ids.len()
        invariant
            i <= ids.len(),
            out@ == without(ids@.subrange(0, i as int), id),
        decreases ids.len() - i,
    {
        proof {
            assert(ids@.subrange(0, i + 1).drop_last() =~= ids@.subrange(0, i as int));
        }
        if ids[i] != id {
            out.push(ids[i]);
        }
        i += 1;
    }
    proof {
        assert(ids@.subrange(0, ids@.len() as int) =~= ids@);
    }
    out
}

/// The announcements of all threads, at most one per thread, keyed by the
/// thread's id.
pub struct PublishedPostsService {
    rows: HashMap<u64, PublishedPost>,
    /// The threads that have an announcement, in the order in which they
    /// got their first one.
    threads: Vec<u64>,
}

impl View for PublishedPostsService {
    type V = Map<u64, PublishedPost>;

    closed spec fn view(&self) -> Map<u64, PublishedPost> {
        self.rows@
    }
}

impl PublishedPostsService {
    /// The threads that have an announcement, in the order in which they
    /// got their first one.
    pub closed spec fn thread_order(self) -> Seq<u64> {
        self.threads@
    }

    /// The order lists every thread that has an announcement, once.
    pub open spec fn wf(self) -> bool {
        &&& self.thread_order().no_duplicates()
        &&& forall|thread_id: u64|
            self.thread_order().contains(thread_id) <==> self@.contains_key(thread_id)
    }

    /// A store without any row.
    pub fn new() -> (r: PublishedPostsService)
        ensures
            r@ == Map::<u64, PublishedPost>::empty(),
            r.thread_order() == Seq::<u64>::empty(),
            r.wf(),
    {
        PublishedPostsService { rows: HashMap::new(), threads: Vec::new() }
    }

    /// The announcements that a filter takes, the one updated last first.
    pub fn list(&self, filter: PostFilter) -> (r: Vec<PublishedPost>)
        ensures
            r@.to_multiset() == matching_posts(self.thread_order(), self@, filter).to_multiset(),
            latest_first(r@),
    {
        let mut out: Vec<PublishedPost> = Vec::new();
        let mut i: usize = 0;
        proof {
            assert(self.threads@.subrange(0, 0) =~= Seq::<u64>::empty());
            assert(out@ =~= matching_posts(self.threads@.subrange(0, 0), self@, filter));
        }
        while i < self.threads.len()
            invariant
                i <= self.threads.len(),
                out@.to_multiset() == matching_posts(
                    self.threads@.subrange(0, i as int),
                    self@,
                    filter,
                ).to_multiset(),
                latest_first(out@),
            decreases self.threads.len() - i,
        {
            let thread_id = self.threads[i];
            proof {
                assert(self.threads@.subrange(0, i + 1).drop_last() =~= self.threads@.subrange(
                    0,
                    i as int,
                ));
            }
            let found = match self.rows.get(&thread_id) {
                Some(post) => Some(*post),
                None => None,
            };
            if let Some(post) = found {
                if Self::takes(filter, &post) {
                    let mut p: usize = 0;
                    while p < out.len() && out[p].updated_at > post.updated_at
                        invariant
                            p <= out.len(),
                            forall|k: int| 0 <= k < p ==> (#[trigger] out@[k]).updated_at > post.updated_at,
                        decreases out.len() - p,
                    {
                        p += 1;
                    }
                    let ghost before = out@;
                    out.insert(p, post);
                    proof {
                        let after = out@;
                        assert(after =~= before.insert(p as int, post));
                        assert forall|a: int, b: int| 0 <= a < b < after.len() implies (
                        #[trigger] after[a]).updated_at >= (#[trigger] after[b]).updated_at by {
                            if a < p && b == p {
                                assert(after[a] == before[a]);
                            } else if a == p {
                                assert(after[b] == before[b - 1]);
                                if b - 1 > p {
                                    assert(before[p as int].updated_at >= before[b - 1].updated_at);
                                }
                            } else if a < p && b > p {
                                assert(after[a] == before[a]);
                                assert(after[b] == before[b - 1]);
                            } else if a > p {
                                assert(after[a] == before[a - 1]);
                                assert(after[b] == before[b - 1]);
                            } else {
                                assert(after[a] == before[a]);
                                assert(after[b] == before[b]);
                            }
                        }
                        assert(after.remove(p as int) =~= before);
                        after.to_multiset_ensures();
                        before.to_multiset_ensures();
                        assert(after.contains(post)) by {
                            assert(after[p as int] == post);
                        }
                        assert(after.to_multiset() =~= before.to_multiset().insert(post));
                        matching_posts(
                            self.threads@.subrange(0, i as int),
                            self@,
                            filter,
                        ).to_multiset_ensures();
                    }
                }
            }
            i += 1;
        }
        proof {
            assert(self.threads@.subrange(0, self.threads@.len() as int) =~= self.threads@);
        }
        out
    }

    fn takes(filter: PostFilter, post: &PublishedPost) -> (r: bool)
        ensures
            r == accepts(filter, *post),
    {
        match filter {
            PostFilter::All => true,
            PostFilter::ByUser(user_id) => post.user_id == to_stored_user_id(user_id),
            PostFilter::BackupAllowed => post.backup_allowed,
            PostFilter::UpdatedBetween(from, to) => from <= post.updated_at && post.updated_at
                < to,
            PostFilter::UpdatedSince(since) => since <= post.updated_at,
            PostFilter::ByMessage(message_id) => post.message_id == to_stored_user_id(message_id),
        }
    }

    /// The announcements that a user published first, the one updated last
    /// first.
    pub fn get_user_posts(&self, user_id: u64) -> (r: Vec<PublishedPost>)
        ensures
            r@.to_multiset() == matching_posts(
                self.thread_order(),
                self@,
                PostFilter::ByUser(user_id),
            ).to_multiset(),
            latest_first(r@),
    {
        self.list(PostFilter::ByUser(user_id))
    }

    /// The announcements that allow backups, the one updated last first.
    pub fn get_backup_allowed_posts(&self) -> (r: Vec<PublishedPost>)
        ensures
            r@.to_multiset() == matching_posts(
                self.thread_order(),
                self@,
                PostFilter::BackupAllowed,
            ).to_multiset(),
            latest_first(r@),
    {
        self.list(PostFilter::BackupAllowed)
    }

    /// The announcements that were updated at or after `from` and before
    /// `to`, the one updated last first.
    pub fn get_posts_in_range(&self, from: i64, to: i64) -> (r: Vec<PublishedPost>)
        ensures
            r@.to_multiset() == matching_posts(
                self.thread_order(),
                self@,
                PostFilter::UpdatedBetween(from, to),
            ).to_multiset(),
            latest_first(r@),
    {
        self.list(PostFilter::UpdatedBetween(from, to))
    }

    /// The announcements that were updated at or after `since`, the one
    /// updated last first.
    pub fn get_posts_since(&self, since: i64) -> (r: Vec<PublishedPost>)
        ensures
            r@.to_multiset() == matching_posts(
                self.thread_order(),
                self@,
                PostFilter::UpdatedSince(since),
            ).to_multiset(),
            latest_first(r@),
    {
        self.list(PostFilter::UpdatedSince(since))
    }

    /// The number of announcements that a user published first.
    pub fn get_user_post_count(&self, user_id: u64) -> (count: u64)
        ensures
            count == matching_posts(self.thread_order(), self@, PostFilter::ByUser(user_id)).len(),
    {
        let found = self.list(PostFilter::ByUser(user_id));
        proof {
            found@.to_multiset_ensures();
            matching_posts(
                self.thread_order(),
                self@,
                PostFilter::ByUser(user_id),
            ).to_multiset_ensures();
        }
        found.len() as u64
    }

    /// The number of announcements that allow backups.
    pub fn get_backup_allowed_count(&self) -> (count: u64)
        ensures
            count == matching_posts(self.thread_order(), self@, PostFilter::BackupAllowed).len(),
    {
        let found = self.list(PostFilter::BackupAllowed);
        proof {
            found@.to_multiset_ensures();
            matching_posts(
                self.thread_order(),
                self@,
                PostFilter::BackupAllowed,
            ).to_multiset_ensures();
        }
        found.len() as u64
    }

    /// Records the first announcement of a thread. A thread that has one
    /// already is refused, and nothing changes.
    pub fn record(
        &mut self,
        thread_id: u64,
        message_id: u64,
        user_id: u64,
        backup_allowed: bool,
        now: i64,
    ) -> (r: Result<PublishedPost, BotError>)
        ensures
            r.is_err() == old(self)@.contains_key(thread_id),
            r.is_err() ==> r.unwrap_err() is DatabaseError && final(self)@ == old(self)@,
            r.is_ok() ==> r.unwrap() == upserted_post(
                None,
                thread_id,
                message_id,
                user_id,
                backup_allowed,
                now,
            ) && final(self)@ == old(self)@.insert(thread_id, r.unwrap()),
            final(self).thread_order() == if r.is_ok() {
                old(self).thread_order().push(thread_id)
            } else {
                old(self).thread_order()
            },
            old(self).wf() ==> final(self).wf(),
    {
        if self.rows.contains_key(&thread_id) {
            return Err(
                BotError::DatabaseError {
                    message: String::from_str("the thread already has a published post"),
                },
            );
        }
        let post = PublishedPost {
            thread_id: to_stored_user_id(thread_id),
            message_id: to_stored_user_id(message_id),
            user_id: to_stored_user_id(user_id),
            backup_allowed,
            updated_at: now,
        };
        self.rows.insert(thread_id, post);
        self.threads.push(thread_id);
        proof {
            if old(self).wf() {
                lemma_push_fresh(old(self).thread_order(), thread_id);
            }
        }
        Ok(post)
    }

    /// Replaces the announcement of a thread by a newer one, if the thread
    /// has one: message, flag and time are new, the rest stays.
    pub fn update(&mut self, thread_id: u64, message_id: u64, backup_allowed: bool, now: i64) -> (r:
        Option<PublishedPost>)
        ensures
            r.is_some() == old(self)@.contains_key(thread_id),
            r.is_none() ==> final(self)@ == old(self)@,
            r.is_some() ==> r.unwrap() == (PublishedPost {
                message_id: stored_user_id(message_id),
                backup_allowed,
                updated_at: now,
                ..old(self)@[thread_id]
            }) && final(self)@ == old(self)@.insert(thread_id, r.unwrap()),
            final(self).thread_order() == old(self).thread_order(),
            old(self).wf() ==> final(self).wf(),
    {
        let found = self.get_by_thread(thread_id);
        match found {
            Some(post) => {
                let updated = PublishedPost {
                    thread_id: post.thread_id,
                    message_id: to_stored_user_id(message_id),
                    user_id: post.user_id,
                    backup_allowed,
                    updated_at: now,
                };
                self.rows.insert(thread_id, updated);
                Some(updated)
            },
            None => None,
        }
    }

    /// The announcement of a thread, if it has one.
    pub fn get_by_thread(&self, thread_id: u64) -> (r: Option<PublishedPost>)
        ensures
            r == post_of(self@, thread_id),
    {
        match self.rows.get(&thread_id) {
            Some(post) => Some(*post),
            None => None,
        }
    }

    /// Whether a thread has an announcement.
    pub fn has_published_post(&self, thread_id: u64) -> (r: bool)
        ensures
            r == self@.contains_key(thread_id),
    {
        self.get_by_thread(thread_id).is_some()
    }

    /// Changes the backup flag of a thread's announcement, if it has one.
    pub fn update_backup_permission(&mut self, thread_id: u64, backup_allowed: bool, now: i64) -> (r:
        Option<PublishedPost>)
        ensures
            r.is_some() == old(self)@.contains_key(thread_id),
            r.is_none() ==> final(self)@ == old(self)@,
            r.is_some() ==> r.unwrap() == (PublishedPost {
                backup_allowed,
                updated_at: now,
                ..old(self)@[thread_id]
            }) && final(self)@ == old(self)@.insert(thread_id, r.unwrap()),
            final(self).thread_order() == old(self).thread_order(),
            old(self).wf() ==> final(self).wf(),
    {
        let found = self.get_by_thread(thread_id);
        match found {
            Some(post) => {
                let updated = PublishedPost {
                    thread_id: post.thread_id,
                    message_id: post.message_id,
                    user_id: post.user_id,
                    backup_allowed,
                    updated_at: now,
                };
                self.rows.insert(thread_id, updated);
                Some(updated)
            },
            None => None,
        }
    }

    /// Removes the announcement of a thread and says whether there was one.
    pub fn delete(&mut self, thread_id: u64) -> (removed: bool)
        ensures
            removed == old(self)@.contains_key(thread_id),
            final(self)@ == old(self)@.remove(thread_id),
            final(self).thread_order() == without(old(self).thread_order(), thread_id),
            old(self).wf() ==> final(self).wf(),
    {
        let removed = self.rows.remove(&thread_id).is_some();
        self.threads = remove_id(&self.threads, thread_id);
        proof {
            lemma_without(old(self).thread_order(), thread_id);
        }
        removed
    }

    /// The number of threads with an announcement.
    pub fn get_total_count(&self) -> (count: u64)
        ensures
            count == self@.len(),
    {
        self.rows.len() as u64
    }

    /// Removes every announcement and says how many there were.
    pub fn clear_all(&mut self) -> (removed: u64)
        ensures
            removed == old(self)@.len(),
            final(self)@ == Map::<u64, PublishedPost>::empty(),
            final(self).thread_order() == Seq::<u64>::empty(),
            final(self).wf(),
    {
        let removed = self.rows.len() as u64;
        self.rows.clear();
        self.threads.clear();
        removed
    }

    /// Records an announcement for a thread: over the old one if the thread
    /// has one, as its first otherwise. No other thread changes.
    pub fn record_or_update(
        &mut self,
        thread_id: u64,
        message_id: u64,
        user_id: u64,
        backup_allowed: bool,
        now: i64,
    ) -> (r: PublishedPost)
        ensures
            r == upserted_post(
                post_of(old(self)@, thread_id),
                thread_id,
                message_id,
                user_id,
                backup_allowed,
                now,
            ),
            final(self)@ == old(self)@.insert(thread_id, r),
            final(self).thread_order() == if old(self)@.contains_key(thread_id) {
                old(self).thread_order()
            } else {
                old(self).thread_order().push(thread_id)
            },
            old(self).wf() ==> final(self).wf(),
    {
        match self.update(thread_id, message_id, backup_allowed, now) {
            Some(updated) => updated,
            None => {
                let post = PublishedPost {
                    thread_id: to_stored_user_id(thread_id),
                    message_id: to_stored_user_id(message_id),
                    user_id: to_stored_user_id(user_id),
                    backup_allowed,
                    updated_at: now,
                };
                self.rows.insert(thread_id, post);
                self.threads.push(thread_id);
                proof {
                    if old(self).wf() {
                        lemma_push_fresh(old(self).thread_order(), thread_id);
                    }
                }
                post
            },
        }
    }

    /// The announcement that is the given message, if a thread has it for
    /// its announcement. Of several such threads any one may be given.
    pub fn get_by_message(&self, message_id: u64) -> (r: Option<PublishedPost>)
        ensures
            r.is_some() == (matching_posts(
                self.thread_order(),
                self@,
                PostFilter::ByMessage(message_id),
            ).len() > 0),
            r.is_some() ==> matching_posts(
                self.thread_order(),
                self@,
                PostFilter::ByMessage(message_id),
            ).contains(r.unwrap()),
    {
        let found = self.list(PostFilter::ByMessage(message_id));
        proof {
            let all = matching_posts(self.thread_order(), self@, PostFilter::ByMessage(message_id));
            found@.to_multiset_ensures();
            all.to_multiset_ensures();
            if found@.len() > 0 {
                assert(found@.contains(found@[0]));
                assert(found@.to_multiset().count(found@[0]) > 0);
                assert(all.to_multiset().count(found@[0]) > 0);
                assert(all.contains(found@[0]));
            }
        }
        if found.len() > 0 {
            Some(found[0])
        } else {
            None
        }
    }

    /// The announcements that were updated last, at most `limit` of them,
    /// the one updated last first.
    pub fn get_recent_posts(&self, limit: u64) -> (r: Vec<PublishedPost>)
        ensures
            exists|all: Seq<PublishedPost>|
                {
                    &&& #[trigger] all.to_multiset() == matching_posts(
                        self.thread_order(),
                        self@,
                        PostFilter::All,
                    ).to_multiset()
                    &&& latest_first(all)
                    &&& r@ == all.subrange(
                        0,
                        if limit < all.len() {
                            limit as int
                        } else {
                            all.len() as int
                        },
                    )
                },
    {
        let mut all = self.list(PostFilter::All);
        let ghost listed = all@;
        if (all.len() as u64) > limit {
            all.truncate(limit as usize);
        }
        proof {
            assert(all@ =~= listed.subrange(
                0,
                if limit < listed.len() {
                    limit as int
                } else {
                    listed.len() as int
                },
            ));
        }
        all
    }

    /// Whether publishing into a thread with the given flag changes its
    /// backup permission.
    pub fn has_backup_permission_changed(&self, thread_id: u64, new_backup_allowed: bool) -> (r:
        bool)
        ensures
            r == backup_permission_changed(post_of(self@, thread_id), new_backup_allowed),
    {
        match self.get_by_thread(thread_id) {
            Some(post) => post.backup_allowed != new_backup_allowed,
            None => new_backup_allowed,
        }
    }

    /// Removes every announcement that a user published first and says
    /// how many rows went. No other row changes.
    pub fn delete_user_posts(&mut self, user_id: u64) -> (removed: u64)
        ensures
            removed == old(self)@.len() - final(self)@.len(),
            forall|thread_id: u64| #[trigger]
                final(self)@.contains_key(thread_id) ==> old(self)@.contains_key(thread_id)
                    && final(self)@[thread_id] == old(self)@[thread_id],
            forall|thread_id: u64|
                old(self)@.contains_key(thread_id) && !accepts(
                    PostFilter::ByUser(user_id),
                    old(self)@[thread_id],
                ) ==> #[trigger] final(self)@.contains_key(thread_id),
            old(self).wf() ==> final(self).wf() && forall|thread_id: u64| #[trigger]
                final(self)@.contains_key(thread_id) ==> !accepts(
                    PostFilter::ByUser(user_id),
                    final(self)@[thread_id],
                ),
    {
        let before = self.rows.len();
        let mut kept: Vec<u64> = Vec::new();
        let mut i: usize = 0;
        let filter = PostFilter::ByUser(user_id);
        while i < self.threads.len()
            invariant
                i <= self.threads.len(),
                self.threads == old(self).threads,
                filter == PostFilter::ByUser(user_id),
                self@.dom().finite(),
                old(self)@.dom().finite(),
                self@.dom().subset_of(old(self)@.dom()),
                forall|k: u64| #[trigger]
                    self@.contains_key(k) ==> old(self)@.contains_key(k) && self@[k] == old(
                        self,
                    )@[k],
                forall|k: u64|
                    old(self)@.contains_key(k) && !accepts(filter, old(self)@[k])
                        ==> #[trigger] self@.contains_key(k),
                forall|j: int|
                    0 <= j < i && self@.contains_key(#[trigger] self.threads@[j]) ==> !accepts(
                        filter,
                        self@[self.threads@[j]],
                    ) && kept@.contains(self.threads@[j]),
                forall|a: int|
                    0 <= a < kept@.len() ==> self.threads@.subrange(0, i as int).contains(
                        #[trigger] kept@[a],
                    ),
                forall|a: int|
                    0 <= a < kept@.len() ==> old(self)@.contains_key(#[trigger] kept@[a])
                        && !accepts(filter, old(self)@[kept@[a]]),
                old(self).wf() ==> kept@.no_duplicates(),
            decreases self.threads.len() - i,
        {
            let thread_id = self.threads[i];
            let ghost kept_before = kept@;
            let ghost rows_before = self@;
            let found = match self.rows.get(&thread_id) {
                Some(post) => Some(*post),
                None => None,
            };
            if let Some(post) = found {
                if Self::takes(filter, &post) {
                    self.rows.remove(&thread_id);
                } else {
                    proof {
                        if old(self).wf() {
                            assert(!kept_before.contains(thread_id)) by {
                                if kept_before.contains(thread_id) {
                                    let a = choose|a: int|
                                        0 <= a < kept_before.len() && kept_before[a] == thread_id;
                                    let seen = self.threads@.subrange(0, i as int);
                                    assert(seen.contains(kept_before[a]));
                                    let j = choose|j: int|
                                        0 <= j < seen.len() && seen[j] == kept_before[a];
                                    assert(self.threads@[j] == self.threads@[i as int]);
                                }
                            }
                            lemma_push_fresh(kept_before, thread_id);
                        }
                        lemma_push_contains(kept_before, thread_id);
                    }
                    kept.push(thread_id);
                }
            }
            proof {
                lemma_push_contains(kept_before, thread_id);
                assert forall|j: int|
                    0 <= j < i + 1 && self@.contains_key(
                        #[trigger] self.threads@[j],
                    ) implies !accepts(filter, self@[self.threads@[j]]) && kept@.contains(
                    self.threads@[j],
                ) by {
                    if j < i {
                        assert(rows_before.contains_key(self.threads@[j]));
                        assert(kept_before.contains(self.threads@[j]));
                    }
                }
                assert forall|a: int| 0 <= a < kept@.len() implies self.threads@.subrange(
                    0,
                    i + 1,
                ).contains(#[trigger] kept@[a]) by {
                    let seen = self.threads@.subrange(0, i as int);
                    let wider = self.threads@.subrange(0, i + 1);
                    if a < kept_before.len() {
                        assert(seen.contains(kept_before[a]));
                        let j = choose|j: int| 0 <= j < seen.len() && seen[j] == kept_before[a];
                        assert(wider[j] == kept@[a]);
                    } else {
                        assert(wider[i as int] == kept@[a]);
                    }
                }
            }
            i += 1;
        }
        let ghost order = self.threads@;
        self.threads = kept;
        proof {
            if old(self).wf() {
                assert forall|thread_id: u64|
                    self.thread_order().contains(thread_id) <==> self@.contains_key(
                        thread_id,
                    ) by {
                    if self.thread_order().contains(thread_id) {
                        let a = choose|a: int|
                            0 <= a < self.thread_order().len() && self.thread_order()[a]
                                == thread_id;
                        assert(old(self)@.contains_key(self.thread_order()[a]));
                    }
                    if self@.contains_key(thread_id) {
                        assert(old(self)@.contains_key(thread_id));
                        assert(order.contains(thread_id));
                        let j = choose|j: int| 0 <= j < order.len() && order[j] == thread_id;
                        assert(self@.contains_key(order[j]));
                    }
                }
                assert forall|thread_id: u64| #[trigger]
                    self@.contains_key(thread_id) implies !accepts(
                    PostFilter::ByUser(user_id),
                    self@[thread_id],
                ) by {
                    assert(old(self)@.contains_key(thread_id));
                    assert(order.contains(thread_id));
                    let j = choose|j: int| 0 <= j < order.len() && order[j] == thread_id;
                    assert(self@.contains_key(order[j]));
                }
            }
        }
        let after = self.rows.len();
        proof {
            vstd::set_lib::lemma_len_subset(self@.dom(), old(self)@.dom());
        }
        (before - after) as u64
    }
}

/// After an announcement with some flag is recorded for a thread, a second
/// publication changes the backup permission exactly if its flag differs
/// from the first: a different flag is one change, the same flag is none.
pub proof fn lemma_second_publication_changes_iff_flag_differs(
    rows: Map<u64, PublishedPost>,
    thread_id: u64,
    message_id: u64,
    user_id: u64,
    first: bool,
    second: bool,
    now: i64,
)
    ensures
        backup_permission_changed(
            post_of(
                rows.insert(
                    thread_id,
                    upserted_post(post_of(rows, thread_id), thread_id, message_id, user_id, first, now),
                ),
                thread_id,
            ),
            second,
        ) == (first != second),
{
}

} // verus!
