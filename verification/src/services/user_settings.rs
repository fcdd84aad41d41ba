use std::collections::HashMap;
use vstd::prelude::*;
use crate::services::published_posts::{lemma_push_fresh, lemma_without, remove_id, without};
use crate::text::clone_opt_string;
use crate::types::license::{
    stored_user_id, to_stored_user_id, BackupOverride, DefaultLicenseIdentifier,
};

verus! {

broadcast use vstd::std_specs::hash::group_hash_axioms;

/// The preferences of one user.
#[derive(Debug, Clone, PartialEq, Eq)]
pub struct UserSettings {
    pub user_id: i64,
    pub auto_publish_enabled: bool,
    pub skip_auto_publish_confirmation: bool,
    pub default_user_license_id: Option<i32>,
    pub default_system_license_name: Option<String>,
    pub default_system_license_backup: Option<bool>,
}

/// The preferences that a user has before they chose anything: nothing is
/// published for them, and no license is their default.
pub open spec fn default_settings(user_id: u64) -> UserSettings {
    UserSettings {
        user_id: stored_user_id(user_id),
        auto_publish_enabled: false,
        skip_auto_publish_confirmation: false,
        default_user_license_id: None,
        default_system_license_name: None,
        default_system_license_backup: None,
    }
}

/// The preferences of `user_id` as far as `rows` knows them: the stored row,
/// or the defaults where there is none.
pub open spec fn settings_or_default(rows: Map<u64, UserSettings>, user_id: u64) -> UserSettings {
    if rows.contains_key(user_id) {
        rows[user_id]
    } else {
        default_settings(user_id)
    }
}

/// Preferences with a new default license. The two kinds of reference
/// exclude each other: setting one clears the other, and clearing the
/// default clears both. The backup override is stored as given.
pub open spec fn with_default_license(
    settings: UserSettings,
    license: Option<DefaultLicenseIdentifier>,
    backup: Option<bool>,
) -> UserSettings {
    match license {
        Some(DefaultLicenseIdentifier::User(id)) => UserSettings {
            default_user_license_id: Some(id),
            default_system_license_name: None,
            default_system_license_backup: backup,
            ..settings
        },
        Some(DefaultLicenseIdentifier::System(name)) => UserSettings {
            default_user_license_id: None,
            default_system_license_name: Some(name),
            default_system_license_backup: backup,
            ..settings
        },
        None => UserSettings {
            default_user_license_id: None,
            default_system_license_name: None,
            default_system_license_backup: backup,
            ..settings
        },
    }
}

/// The default license that preferences name: the user's own license if one
/// is set, else the template if one is set, else none.
pub open spec fn default_license_of(settings: UserSettings) -> Option<DefaultLicenseIdentifier> {
    match (settings.default_user_license_id, settings.default_system_license_name) {
        (Some(id), _) => Some(DefaultLicenseIdentifier::User(id)),
        (None, Some(name)) => Some(DefaultLicenseIdentifier::System(name)),
        (None, None) => None,
    }
}

impl UserSettings {
    /// An equal row, owned by the caller.
    pub fn duplicate(&self) -> (r: UserSettings)
        ensures
            r == *self,
    {
        UserSettings {
            user_id: self.user_id,
            auto_publish_enabled: self.auto_publish_enabled,
            skip_auto_publish_confirmation: self.skip_auto_publish_confirmation,
            default_user_license_id: self.default_user_license_id,
            default_system_license_name: clone_opt_string(&self.default_system_license_name),
            default_system_license_backup: self.default_system_license_backup,
        }
    }

    /// The default license that these preferences name.
    pub fn default_license(&self) -> (r: Option<DefaultLicenseIdentifier>)
        ensures
            r == default_license_of(*self),
    {
        if let Some(id) = self.default_user_license_id {
            Some(DefaultLicenseIdentifier::User(id))
        } else if let Some(name) = &self.default_system_license_name {
            Some(DefaultLicenseIdentifier::System(name.clone()))
        } else {
            None
        }
    }
}

/// The preferences of all users, one row per user, keyed by the user's id.
pub struct UserSettingsService {
    rows: HashMap<u64, UserSettings>,
    /// The users that have a row, in the order in which they got it.
    users: Vec<u64>,
}

impl View for UserSettingsService {
    type V = Map<u64, UserSettings>;

    closed spec fn view(&self) -> Map<u64, UserSettings> {
        self.rows@
    }
}

/// The users of a list for whom automatic publishing is on, in the order
/// of the list. A user without a row adds nothing.
pub open spec fn enabled_users(users: Seq<u64>, rows: Map<u64, UserSettings>) -> Seq<u64>
    decreases users.len(),
{
    if users.len() == 0 {
        users
    } else if rows.contains_key(users.last()) && rows[users.last()].auto_publish_enabled {
        enabled_users(users.drop_last(), rows).push(users.last())
    } else {
        enabled_users(users.drop_last(), rows)
    }
}

/// The order of the users after a row was written for one of them: a user
/// who had none comes last.
pub open spec fn order_with(users: Seq<u64>, rows: Map<u64, UserSettings>, user_id: u64) -> Seq<
    u64,
> {
    if rows.contains_key(user_id) {
        users
    } else {
        users.push(user_id)
    }
}

impl UserSettingsService {
    /// The users that have a row, in the order in which they got it.
    pub closed spec fn user_order(self) -> Seq<u64> {
        self.users@
    }

    /// The order lists every user that has a row, once.
    pub open spec fn wf(self) -> bool {
        &&& self.user_order().no_duplicates()
        &&& forall|user_id: u64| self.user_order().contains(user_id) <==> self@.contains_key(user_id)
    }

    /// A store without any row.
    pub fn new() -> (r: UserSettingsService)
        ensures
            r@ == Map::<u64, UserSettings>::empty(),
            r.user_order() == Seq::<u64>::empty(),
            r.wf(),
    {
        UserSettingsService { rows: HashMap::new(), users: Vec::new() }
    }

    /// The users for whom automatic publishing is on, in the order in which
    /// they got their rows.
    pub fn get_auto_publish_users(&self) -> (r: Vec<u64>)
        ensures
            r@ == enabled_users(self.user_order(), self@),
    {
        let mut out: Vec<u64> = Vec::new();
        let mut i: usize = 0;
        proof {
            assert(out@ =~= enabled_users(self.users@.subrange(0, 0), self@));
        }
        while i < self.users.len()
            invariant
                i <= self.users.len(),
                out@ == enabled_users(self.users@.subrange(0, i as int), self@),
            decreases self.users.len() - i,
        {
            proof {
                assert(self.users@.subrange(0, i + 1).drop_last() =~= self.users@.subrange(
                    0,
                    i as int,
                ));
            }
            let user_id = self.users[i];
            let enabled = match self.rows.get(&user_id) {
                Some(row) => row.auto_publish_enabled,
                None => false,
            };
            if enabled {
                out.push(user_id);
            }
            i += 1;
        }
        proof {
            assert(self.users@.subrange(0, self.users@.len() as int) =~= self.users@);
        }
        out
    }

    /// The number of users for whom automatic publishing is on.
    pub fn get_auto_publish_count(&self) -> (count: u64)
        ensures
            count == enabled_users(self.user_order(), self@).len(),
    {
        self.get_auto_publish_users().len() as u64
    }

    /// The row of a user, created with the defaults if the user has none.
    pub fn get_or_create(&mut self, user_id: u64) -> (r: UserSettings)
        ensures
            r == settings_or_default(old(self)@, user_id),
            final(self)@ == old(self)@.insert(user_id, r),
            final(self).user_order() == order_with(old(self).user_order(), old(self)@, user_id),
            old(self).wf() ==> final(self).wf(),
    {
        let found = match self.rows.get(&user_id) {
            Some(row) => Some(row.duplicate()),
            None => None,
        };
        match found {
            Some(row) => {
                assert(self@ =~= self@.insert(user_id, row));
                row
            },
            None => {
                let row = UserSettings {
                    user_id: to_stored_user_id(user_id),
                    auto_publish_enabled: false,
                    skip_auto_publish_confirmation: false,
                    default_user_license_id: None,
                    default_system_license_name: None,
                    default_system_license_backup: None,
                };
                self.rows.insert(user_id, row.duplicate());
                self.users.push(user_id);
                proof {
                    if old(self).wf() {
                        lemma_push_fresh(old(self).user_order(), user_id);
                    }
                }
                row
            },
        }
    }

    /// Puts a row back that was stored before, as it is, in place of
    /// whatever the user had.
    pub fn restore(&mut self, user_id: u64, row: UserSettings)
        ensures
            final(self)@ == old(self)@.insert(user_id, row),
            final(self).user_order() == order_with(old(self).user_order(), old(self)@, user_id),
            old(self).wf() ==> final(self).wf(),
    {
        self.get_or_create(user_id);
        self.rows.insert(user_id, row);
        assert(self@ =~= old(self)@.insert(user_id, row));
    }

    /// The row of a user, if there is one. Nothing is created.
    pub fn get(&self, user_id: u64) -> (r: Option<UserSettings>)
        ensures
            r.is_some() == self@.contains_key(user_id),
            r.is_some() ==> r.unwrap() == self@[user_id],
    {
        match self.rows.get(&user_id) {
            Some(row) => Some(row.duplicate()),
            None => None,
        }
    }

    /// Switches automatic publishing on or off for a user and returns the
    /// row as it then stands. No other field and no other row changes.
    pub fn set_auto_publish(&mut self, user_id: u64, enabled: bool) -> (r: UserSettings)
        ensures
            r == (UserSettings {
                auto_publish_enabled: enabled,
                ..settings_or_default(old(self)@, user_id)
            }),
            final(self)@ == old(self)@.insert(user_id, r),
            final(self).user_order() == order_with(old(self).user_order(), old(self)@, user_id),
            old(self).wf() ==> final(self).wf(),
    {
        let mut row = self.get_or_create(user_id);
        row.auto_publish_enabled = enabled;
        self.rows.insert(user_id, row.duplicate());
        assert(self@ =~= old(self)@.insert(user_id, row));
        row
    }

    /// Sets, or clears, the default license of a user, together with the
    /// backup override, and returns the row as it then stands.
    pub fn set_default_license(
        &mut self,
        user_id: u64,
        license: Option<DefaultLicenseIdentifier>,
        backup: Option<bool>,
    ) -> (r: UserSettings)
        ensures
            r == with_default_license(settings_or_default(old(self)@, user_id), license, backup),
            final(self)@ == old(self)@.insert(user_id, r),
            final(self).user_order() == order_with(old(self).user_order(), old(self)@, user_id),
            old(self).wf() ==> final(self).wf(),
    {
        let mut row = self.get_or_create(user_id);
        match license {
            Some(DefaultLicenseIdentifier::User(id)) => {
                row.default_user_license_id = Some(id);
                row.default_system_license_name = None;
            },
            Some(DefaultLicenseIdentifier::System(name)) => {
                row.default_user_license_id = None;
                row.default_system_license_name = Some(name);
            },
            None => {
                row.default_user_license_id = None;
                row.default_system_license_name = None;
            },
        }
        row.default_system_license_backup = backup;
        self.rows.insert(user_id, row.duplicate());
        assert(self@ =~= old(self)@.insert(user_id, row));
        row
    }

    /// Flips automatic publishing for a user.
    pub fn toggle_auto_publish(&mut self, user_id: u64) -> (r: UserSettings)
        ensures
            r == (UserSettings {
                auto_publish_enabled: !settings_or_default(old(self)@, user_id).auto_publish_enabled,
                ..settings_or_default(old(self)@, user_id)
            }),
            final(self)@ == old(self)@.insert(user_id, r),
            final(self).user_order() == order_with(old(self).user_order(), old(self)@, user_id),
            old(self).wf() ==> final(self).wf(),
    {
        let mut row = self.get_or_create(user_id);
        row.auto_publish_enabled = !row.auto_publish_enabled;
        self.rows.insert(user_id, row.duplicate());
        assert(self@ =~= old(self)@.insert(user_id, row));
        row
    }

    /// Flips the switch that skips the confirmation before a publication.
    pub fn toggle_skip_confirmation(&mut self, user_id: u64) -> (r: UserSettings)
        ensures
            r == (UserSettings {
                skip_auto_publish_confirmation: !settings_or_default(
                    old(self)@,
                    user_id,
                ).skip_auto_publish_confirmation,
                ..settings_or_default(old(self)@, user_id)
            }),
            final(self)@ == old(self)@.insert(user_id, r),
            final(self).user_order() == order_with(old(self).user_order(), old(self)@, user_id),
            old(self).wf() ==> final(self).wf(),
    {
        let mut row = self.get_or_create(user_id);
        row.skip_auto_publish_confirmation = !row.skip_auto_publish_confirmation;
        self.rows.insert(user_id, row.duplicate());
        assert(self@ =~= old(self)@.insert(user_id, row));
        row
    }

    /// Moves the backup override of a user one step on: from inheriting to
    /// allowing, from allowing to forbidding, from forbidding back to
    /// inheriting. The default license stays as it is.
    pub fn toggle_system_backup(&mut self, user_id: u64) -> (r: UserSettings)
        ensures
            r == (UserSettings {
                default_system_license_backup: BackupOverride::of_flag(
                    settings_or_default(old(self)@, user_id).default_system_license_backup,
                ).successor().flag(),
                ..settings_or_default(old(self)@, user_id)
            }),
            final(self)@ == old(self)@.insert(user_id, r),
            final(self).user_order() == order_with(old(self).user_order(), old(self)@, user_id),
            old(self).wf() ==> final(self).wf(),
    {
        let mut row = self.get_or_create(user_id);
        row.default_system_license_backup = BackupOverride::from_flag(
            row.default_system_license_backup,
        ).next().to_flag();
        self.rows.insert(user_id, row.duplicate());
        assert(self@ =~= old(self)@.insert(user_id, row));
        row
    }

    /// Whether automatic publishing is on for a user. A user without a row
    /// gets one, with the defaults.
    pub fn is_auto_publish_enabled(&mut self, user_id: u64) -> (r: bool)
        ensures
            r == settings_or_default(old(self)@, user_id).auto_publish_enabled,
            final(self)@ == old(self)@.insert(
                user_id,
                settings_or_default(old(self)@, user_id),
            ),
            final(self).user_order() == order_with(old(self).user_order(), old(self)@, user_id),
            old(self).wf() ==> final(self).wf(),
    {
        let row = self.get_or_create(user_id);
        row.auto_publish_enabled
    }

    /// The default license of a user. A user without a row gets one.
    pub fn get_default_license(&mut self, user_id: u64) -> (r: Option<DefaultLicenseIdentifier>)
        ensures
            r == default_license_of(settings_or_default(old(self)@, user_id)),
            final(self)@ == old(self)@.insert(
                user_id,
                settings_or_default(old(self)@, user_id),
            ),
            final(self).user_order() == order_with(old(self).user_order(), old(self)@, user_id),
            old(self).wf() ==> final(self).wf(),
    {
        let row = self.get_or_create(user_id);
        row.default_license()
    }

    /// Clears the default license of a user, and the backup override.
    pub fn clear_default_license(&mut self, user_id: u64) -> (r: UserSettings)
        ensures
            r == with_default_license(settings_or_default(old(self)@, user_id), None, None),
            final(self)@ == old(self)@.insert(user_id, r),
            final(self).user_order() == order_with(old(self).user_order(), old(self)@, user_id),
            old(self).wf() ==> final(self).wf(),
    {
        self.set_default_license(user_id, None, None)
    }

    /// Removes the row of a user and says whether there was one.
    pub fn delete(&mut self, user_id: u64) -> (removed: bool)
        ensures
            removed == old(self)@.contains_key(user_id),
            final(self)@ == old(self)@.remove(user_id),
            final(self).user_order() == without(old(self).user_order(), user_id),
            old(self).wf() ==> final(self).wf(),
    {
        let removed = self.rows.remove(&user_id).is_some();
        self.users = remove_id(&self.users, user_id);
        proof {
            lemma_without(old(self).user_order(), user_id);
        }
        removed
    }

    /// Changes what the caller names and keeps the rest: the switch if one
    /// is given, the default license if one is given (where giving nothing
    /// inside clears it). The backup override is kept.
    pub fn update_settings(
        &mut self,
        user_id: u64,
        auto_publish_enabled: Option<bool>,
        default_license: Option<Option<DefaultLicenseIdentifier>>,
    ) -> (r: UserSettings)
        ensures
            r == updated_settings(
                settings_or_default(old(self)@, user_id),
                auto_publish_enabled,
                default_license,
            ),
            final(self)@ == old(self)@.insert(user_id, r),
            final(self).user_order() == order_with(old(self).user_order(), old(self)@, user_id),
            old(self).wf() ==> final(self).wf(),
    {
        let mut row = self.get_or_create(user_id);
        if let Some(enabled) = auto_publish_enabled {
            row.auto_publish_enabled = enabled;
        }
        if let Some(license) = default_license {
            match license {
                Some(DefaultLicenseIdentifier::User(id)) => {
                    row.default_user_license_id = Some(id);
                    row.default_system_license_name = None;
                },
                Some(DefaultLicenseIdentifier::System(name)) => {
                    row.default_user_license_id = None;
                    row.default_system_license_name = Some(name);
                },
                None => {
                    row.default_user_license_id = None;
                    row.default_system_license_name = None;
                },
            }
        }
        self.rows.insert(user_id, row.duplicate());
        assert(self@ =~= old(self)@.insert(user_id, row));
        row
    }
}

/// Preferences after an update that changes only what is named.
pub open spec fn updated_settings(
    settings: UserSettings,
    auto_publish_enabled: Option<bool>,
    default_license: Option<Option<DefaultLicenseIdentifier>>,
) -> UserSettings {
    let switched = match auto_publish_enabled {
        Some(enabled) => UserSettings { auto_publish_enabled: enabled, ..settings },
        None => settings,
    };
    match default_license {
        Some(license) => with_default_license(
            switched,
            license,
            switched.default_system_license_backup,
        ),
        None => switched,
    }
}

/// The two kinds of default license exclude each other: whatever is set,
/// the row afterwards names at most one, and it names the one that was set.
pub proof fn lemma_default_license_is_exclusive(
    settings: UserSettings,
    license: Option<DefaultLicenseIdentifier>,
    backup: Option<bool>,
)
    ensures
        !(with_default_license(settings, license, backup).default_user_license_id.is_some()
            && with_default_license(
            settings,
            license,
            backup,
        ).default_system_license_name.is_some()),
        default_license_of(with_default_license(settings, license, backup)) == license,
{
}

} // verus!
