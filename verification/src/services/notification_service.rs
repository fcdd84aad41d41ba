use vstd::prelude::*;
use vstd::string::*;
use crate::error::BotError;
use crate::text::{decimal, decimal_text, truncate_chars, truncated};

verus! {

/// The most characters of a work's text that a notification carries.
pub const PREVIEW_CHARS: usize = 100;

/// What the backup service is told when the backup permission of a work
/// changed.
#[derive(Debug, Clone, PartialEq, Eq)]
pub struct NotificationPayload {
    pub event_type: String,
    pub timestamp: String,
    pub guild_id: String,
    pub channel_id: String,
    pub thread_id: String,
    pub message_id: String,
    pub author: Author,
    pub work_info: WorkInfo,
    pub urls: Urls,
}

/// Who published the work.
#[derive(Debug, Clone, PartialEq, Eq)]
pub struct Author {
    pub discord_user_id: String,
    pub username: String,
    pub display_name: String,
}

/// What was published, and under which permission.
#[derive(Debug, Clone, PartialEq, Eq)]
pub struct WorkInfo {
    pub title: String,
    pub content_preview: String,
    pub license_type: String,
    pub backup_allowed: bool,
}

/// Where the work and its announcement are found.
#[derive(Debug, Clone, PartialEq, Eq)]
pub struct Urls {
    pub discord_thread: String,
    pub direct_message: String,
}

/// The address of a place inside a guild: the base address followed by the
/// three ids, separated by slashes.
pub open spec fn channel_url(first: u64, second: u64, third: u64) -> Seq<char> {
    "https://discord.com/channels/"@ + decimal_text(first as nat) + "/"@ + decimal_text(
        second as nat,
    ) + "/"@ + decimal_text(third as nat)
}

fn make_channel_url(first: u64, second: u64, third: u64) -> (url: String)
    ensures
        url@ == channel_url(first, second, third),
{
    let a = decimal(first);
    let b = decimal(second);
    let c = decimal(third);
    String::from_str("https://discord.com/channels/").concat(a.as_str()).concat("/").concat(
        b.as_str(),
    ).concat("/").concat(c.as_str())
}

/// Where a thread lives and what it is called.
pub struct ThreadContext<'a> {
    pub guild_id: u64,
    pub channel_id: u64,
    pub thread_id: u64,
    pub title: &'a str,
}

/// Who published.
pub struct AuthorContext<'a> {
    pub user_id: u64,
    pub username: &'a str,
    pub display_name: &'a str,
}

impl NotificationPayload {
    /// The notification for an announcement `message_id` that `author`
    /// published into `thread`: ids in decimal notation, the first hundred
    /// characters of the work's text, the thread's address inside its forum
    /// and the announcement's address inside the thread.
    pub fn from_discord_context(
        thread: &ThreadContext,
        message_id: u64,
        author: &AuthorContext,
        content_preview: &str,
        license_type: String,
        backup_allowed: bool,
        timestamp: String,
    ) -> (r: NotificationPayload)
        ensures
            r.event_type@ == "backup_permission_update"@,
            r.timestamp == timestamp,
            r.guild_id@ == decimal_text(thread.guild_id as nat),
            r.channel_id@ == decimal_text(thread.channel_id as nat),
            r.thread_id@ == decimal_text(thread.thread_id as nat),
            r.message_id@ == decimal_text(message_id as nat),
            r.author.discord_user_id@ == decimal_text(author.user_id as nat),
            r.author.username@ == author.username@,
            r.author.display_name@ == author.display_name@,
            r.work_info.title@ == thread.title@,
            r.work_info.content_preview@ == truncated(content_preview@, PREVIEW_CHARS as nat),
            r.work_info.license_type == license_type,
            r.work_info.backup_allowed == backup_allowed,
            r.urls.discord_thread@ == channel_url(
                thread.guild_id,
                thread.channel_id,
                thread.thread_id,
            ),
            r.urls.direct_message@ == channel_url(thread.guild_id, thread.thread_id, message_id),
    {
        NotificationPayload {
            event_type: String::from_str("backup_permission_update"),
            timestamp,
            guild_id: decimal(thread.guild_id),
            channel_id: decimal(thread.channel_id),
            thread_id: decimal(thread.thread_id),
            message_id: decimal(message_id),
            author: Author {
                discord_user_id: decimal(author.user_id),
                username: String::from_str(author.username),
                display_name: String::from_str(author.display_name),
            },
            work_info: WorkInfo {
                title: String::from_str(thread.title),
                content_preview: truncate_chars(content_preview, PREVIEW_CHARS),
                license_type,
                backup_allowed,
            },
            urls: Urls {
                discord_thread: make_channel_url(
                    thread.guild_id,
                    thread.channel_id,
                    thread.thread_id,
                ),
                direct_message: make_channel_url(thread.guild_id, thread.thread_id, message_id),
            },
        }
    }
}

/// An answer of the backup service counts as delivered if its status is one
/// of the two hundreds.
pub open spec fn is_success_status(status: u16) -> bool {
    200 <= status < 300
}

/// Decides what the answer of the backup service means: delivery, or a
/// failure that names the status.
pub fn delivery_result(status: u16) -> (r: Result<(), BotError>)
    ensures
        r.is_ok() == is_success_status(status),
        r.is_err() ==> r.unwrap_err() is GenericError && r.unwrap_err().message_text() == "HTTP "@
            + decimal_text(status as nat),
{
    if 200 <= status && status < 300 {
        Ok(())
    } else {
        let text = decimal(status as u64);
        Err(BotError::GenericError { message: String::from_str("HTTP ").concat(text.as_str()) })
    }
}

} // verus!
