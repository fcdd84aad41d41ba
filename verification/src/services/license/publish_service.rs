use vstd::prelude::*;
use vstd::string::*;
use crate::database::BotDatabase;
use crate::error::BotError;
use crate::services::license::service::position_of_id;
use crate::services::published_posts::{backup_permission_changed, post_of, upserted_post};
use crate::types::license::UserLicense;

verus! {

/// What the store knows after an announcement was published: whether the
/// backup permission of the thread changed with it, so that the backup
/// service has to be told.
#[derive(Debug, Clone, Copy, PartialEq, Eq, Structural)]
pub struct PublishReceipt {
    pub backup_changed: bool,
}

/// The text that stands for the work when it is shown in a notification:
/// the first message of the thread if a person wrote it and it has text, a
/// notice otherwise.
pub open spec fn preview_source(author_is_bot: bool, content: Seq<char>) -> Seq<char> {
    if !author_is_bot && content.len() > 0 {
        content
    } else {
        "该帖子暂无文本内容"@
    }
}

/// The usage counter of the license at the position of `license_id` in a
/// user's list, or nothing if the user has no such license.
pub open spec fn usage_of(licenses: Seq<UserLicense>, license_id: i32) -> Option<int> {
    if position_of_id(licenses, license_id) < licenses.len() {
        Some(licenses[position_of_id(licenses, license_id)].usage_count as int)
    } else {
        None
    }
}

/// Coordinates what the store has to do when a license is published.
pub struct LicensePublishService;

impl LicensePublishService {
    /// The announcement that a new one will supersede: the message that is
    /// currently recorded for the thread, if there is one.
    pub fn handle_existing_license(data: &BotDatabase, thread_id: u64) -> (previous: Option<i64>)
        ensures
            previous == match post_of(data.posts@, thread_id) {
                Some(post) => Some(post.message_id),
                None => None,
            },
    {
        match data.posts.get_by_thread(thread_id) {
            Some(post) => Some(post.message_id),
            None => None,
        }
    }

    /// Records the new announcement of a thread and says whether the
    /// backup permission changed with it.
    pub fn update_database_records(
        data: &mut BotDatabase,
        thread_id: u64,
        message_id: u64,
        author_id: u64,
        backup_allowed: bool,
        now: i64,
    ) -> (backup_changed: bool)
        ensures
            backup_changed == backup_permission_changed(
                post_of(old(data).posts@, thread_id),
                backup_allowed,
            ),
            final(data).posts@ == old(data).posts@.insert(
                thread_id,
                upserted_post(
                    post_of(old(data).posts@, thread_id),
                    thread_id,
                    message_id,
                    author_id,
                    backup_allowed,
                    now,
                ),
            ),
            final(data).settings == old(data).settings,
            final(data).licenses == old(data).licenses,
            old(data).wf() ==> final(data).wf(),
    {
        let backup_changed = data.posts.has_backup_permission_changed(thread_id, backup_allowed);
        data.posts.record_or_update(thread_id, message_id, author_id, backup_allowed, now);
        backup_changed
    }

    /// Counts one more use of the published license.
    pub fn increment_usage_count(data: &mut BotDatabase, license_id: i32, author_id: u64) -> (r:
        Result<(), BotError>)
        ensures
            final(data).settings == old(data).settings,
            final(data).posts == old(data).posts,
            final(data).licenses.changed_only(old(data).licenses, author_id),
            final(data).licenses.owned(author_id).len() == old(data).licenses.owned(
                author_id,
            ).len(),
            ({
                let before = old(data).licenses.owned(author_id);
                let p = position_of_id(before, license_id);
                if p >= before.len() {
                    r.is_ok() && final(data).licenses.owned(author_id) == before
                } else if before[p].usage_count == i32::MAX {
                    r.is_err() && r.unwrap_err() is DatabaseError
                        && final(data).licenses.owned(author_id) == before
                } else {
                    r.is_ok() && final(data).licenses.owned(author_id) == before.update(
                        p,
                        UserLicense { usage_count: (before[p].usage_count + 1) as i32, ..before[p] },
                    )
                }
            }),
            old(data).wf() ==> final(data).wf(),
    {
        data.licenses.increment_usage(license_id, author_id)
    }

    /// The text of the work for a notification, from the first message of
    /// the thread.
    pub fn get_thread_first_message_content(author_is_bot: bool, content: &str) -> (r: String)
        ensures
            r@ == preview_source(author_is_bot, content@),
    {
        if !author_is_bot && content.unicode_len() > 0 {
            String::from_str(content)
        } else {
            String::from_str("该帖子暂无文本内容")
        }
    }

    /// The store's part of publishing `license` into a thread, once the
    /// announcement `message_id` is sent: the announcement is recorded over
    /// whatever the thread had before, and one more use of the license is
    /// counted. The receipt says whether the backup service has to be told.
    pub fn publish(
        data: &mut BotDatabase,
        thread_id: u64,
        message_id: u64,
        license: &UserLicense,
        backup_allowed: bool,
        author_id: u64,
        now: i64,
    ) -> (r: Result<PublishReceipt, BotError>)
        ensures
            final(data).settings == old(data).settings,
            final(data).posts@ == old(data).posts@.insert(
                thread_id,
                upserted_post(
                    post_of(old(data).posts@, thread_id),
                    thread_id,
                    message_id,
                    author_id,
                    backup_allowed,
                    now,
                ),
            ),
            final(data).licenses.changed_only(old(data).licenses, author_id),
            r.is_ok() ==> r.unwrap().backup_changed == backup_permission_changed(
                post_of(old(data).posts@, thread_id),
                backup_allowed,
            ),
            ({
                let before = old(data).licenses.owned(author_id);
                let p = position_of_id(before, license.id);
                if p >= before.len() {
                    r.is_ok() && final(data).licenses.owned(author_id) == before
                } else if before[p].usage_count == i32::MAX {
                    r.is_err() && r.unwrap_err() is DatabaseError
                        && final(data).licenses.owned(author_id) == before
                } else {
                    r.is_ok() && final(data).licenses.owned(author_id) == before.update(
                        p,
                        UserLicense { usage_count: (before[p].usage_count + 1) as i32, ..before[p] },
                    )
                }
            }),
            old(data).wf() ==> final(data).wf(),
    {
        let backup_changed = Self::update_database_records(
            data,
            thread_id,
            message_id,
            author_id,
            backup_allowed,
            now,
        );
        match Self::increment_usage_count(data, license.id, author_id) {
            Ok(()) => Ok(PublishReceipt { backup_changed }),
            Err(e) => Err(e),
        }
    }
}

/// Publishing a stored license counts exactly one use: the license's
/// counter afterwards is its counter before plus one, as long as the
/// counter is not full.
pub proof fn lemma_publish_counts_one_use(before: Seq<UserLicense>, license_id: i32)
    requires
        position_of_id(before, license_id) < before.len(),
        before[position_of_id(before, license_id)].usage_count < i32::MAX,
    ensures
        ({
            let p = position_of_id(before, license_id);
            let after = before.update(
                p,
                UserLicense { usage_count: (before[p].usage_count + 1) as i32, ..before[p] },
            );
            usage_of(after, license_id) == Some(usage_of(before, license_id).unwrap() + 1)
        }),
{
    let p = position_of_id(before, license_id);
    let after = before.update(
        p,
        UserLicense { usage_count: (before[p].usage_count + 1) as i32, ..before[p] },
    );
    crate::services::license::service::lemma_position_of_id(before, license_id);
    crate::services::license::service::lemma_position_of_id(after, license_id);
    assert(after[p].id == license_id);
    assert forall|k: int| 0 <= k < p implies after[k].id != license_id by {
        assert(after[k] == before[k]);
    }
}

} // verus!
