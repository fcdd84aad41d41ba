use vstd::prelude::*;
use crate::services::license::service::LicenseService;
use crate::services::published_posts::PublishedPostsService;
use crate::services::user_settings::UserSettingsService;

verus! {

/// Everything the bot stores: the preferences of its users, their licenses,
/// and the announcements published into threads.
pub struct BotDatabase {
    pub settings: UserSettingsService,
    pub licenses: LicenseService,
    pub posts: PublishedPostsService,
}

impl BotDatabase {
    /// No user owns more licenses than allowed, and the stores list each of
    /// their rows once.
    pub open spec fn wf(self) -> bool {
        &&& self.licenses.wf()
        &&& self.settings.wf()
        &&& self.posts.wf()
    }

    /// An empty store that lives in memory.
    pub fn new_memory() -> (r: BotDatabase)
        ensures
            r.wf(),
            r.settings@ == Map::<u64, crate::services::user_settings::UserSettings>::empty(),
            r.posts@ == Map::<u64, crate::services::published_posts::PublishedPost>::empty(),
            r.licenses.upcoming_id() == 1,
            forall|user_id: u64| #[trigger]
                r.licenses.owned(user_id) == Seq::<crate::types::license::UserLicense>::empty(),
    {
        BotDatabase {
            settings: UserSettingsService::new(),
            licenses: LicenseService::new(),
            posts: PublishedPostsService::new(),
        }
    }

    /// The licenses.
    pub fn license(&mut self) -> (r: &mut LicenseService)
        ensures
            *r == old(self).licenses,
            *final(self) == (BotDatabase { licenses: *final(r), ..*old(self) }),
    {
        &mut self.licenses
    }

    /// The preferences.
    pub fn user_settings(&mut self) -> (r: &mut UserSettingsService)
        ensures
            *r == old(self).settings,
            *final(self) == (BotDatabase { settings: *final(r), ..*old(self) }),
    {
        &mut self.settings
    }

    /// The announcements.
    pub fn published_posts(&mut self) -> (r: &mut PublishedPostsService)
        ensures
            *r == old(self).posts,
            *final(self) == (BotDatabase { posts: *final(r), ..*old(self) }),
    {
        &mut self.posts
    }
}

} // verus!
