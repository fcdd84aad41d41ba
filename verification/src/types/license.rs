use vstd::prelude::*;
use crate::text::clone_opt_string;

verus! {

/// Which license a user publishes by default: one of their own, by id, or a
/// template of the system, by name.
#[derive(Debug, Clone, PartialEq, Eq)]
pub enum DefaultLicenseIdentifier {
    User(i32),
    System(String),
}

/// A license template that the system offers to every user.
#[derive(Debug, Clone)]
pub struct SystemLicense {
    pub license_name: String,
    pub allow_redistribution: bool,
    pub allow_modification: bool,
    pub restrictions_note: Option<String>,
    pub allow_backup: bool,
}

/// A license as it is stored for its owner. `created_at` counts seconds
/// since the Unix epoch.
#[derive(Debug, Clone, PartialEq, Eq)]
pub struct UserLicense {
    pub id: i32,
    pub user_id: i64,
    pub license_name: String,
    pub allow_redistribution: bool,
    pub allow_modification: bool,
    pub restrictions_note: Option<String>,
    pub allow_backup: bool,
    pub usage_count: i32,
    pub created_at: i64,
}

/// The override a user may put on the backup permission of a template.
#[derive(Debug, Clone, Copy, PartialEq, Eq, Structural)]
pub enum BackupOverride {
    /// Keep what the template says.
    Inherit,
    /// Allow backups whatever the template says.
    Allow,
    /// Forbid backups whatever the template says.
    Forbid,
}

impl BackupOverride {
    /// The override that a stored optional flag stands for.
    pub open spec fn of_flag(flag: Option<bool>) -> BackupOverride {
        match flag {
            None => BackupOverride::Inherit,
            Some(true) => BackupOverride::Allow,
            Some(false) => BackupOverride::Forbid,
        }
    }

    /// The optional flag that is stored for the override.
    pub open spec fn flag(self) -> Option<bool> {
        match self {
            BackupOverride::Inherit => None,
            BackupOverride::Allow => Some(true),
            BackupOverride::Forbid => Some(false),
        }
    }

    /// The override that follows this one when the user presses the toggle:
    /// inherit, allow, forbid, and round again.
    pub open spec fn successor(self) -> BackupOverride {
        match self {
            BackupOverride::Inherit => BackupOverride::Allow,
            BackupOverride::Allow => BackupOverride::Forbid,
            BackupOverride::Forbid => BackupOverride::Inherit,
        }
    }

    /// The permission that results for a template whose own flag is
    /// `template_allows`.
    pub open spec fn applied(self, template_allows: bool) -> bool {
        match self {
            BackupOverride::Inherit => template_allows,
            BackupOverride::Allow => true,
            BackupOverride::Forbid => false,
        }
    }

    /// The override that a stored flag stands for.
    pub fn from_flag(flag: Option<bool>) -> (r: BackupOverride)
        ensures
            r == Self::of_flag(flag),
    {
        match flag {
            None => BackupOverride::Inherit,
            Some(true) => BackupOverride::Allow,
            Some(false) => BackupOverride::Forbid,
        }
    }

    /// The flag that is stored for the override.
    pub fn to_flag(self) -> (r: Option<bool>)
        ensures
            r == self.flag(),
    {
        match self {
            BackupOverride::Inherit => None,
            BackupOverride::Allow => Some(true),
            BackupOverride::Forbid => Some(false),
        }
    }

    /// The override that follows this one when the user presses the toggle.
    pub fn next(self) -> (r: BackupOverride)
        ensures
            r == self.successor(),
    {
        match self {
            BackupOverride::Inherit => BackupOverride::Allow,
            BackupOverride::Allow => BackupOverride::Forbid,
            BackupOverride::Forbid => BackupOverride::Inherit,
        }
    }

    /// The backup permission that results for a template with the given flag.
    pub fn apply(self, template_allows: bool) -> (r: bool)
        ensures
            r == self.applied(template_allows),
    {
        match self {
            BackupOverride::Inherit => template_allows,
            BackupOverride::Allow => true,
            BackupOverride::Forbid => false,
        }
    }

    /// Pressing the toggle three times brings every override back to itself,
    /// and the stored flag loses nothing.
    pub proof fn lemma_cycle_is_total(o: BackupOverride)
        ensures
            o.successor().successor().successor() == o,
            o.successor() != o,
            Self::of_flag(o.flag()) == o,
    {
    }
}

/// The user id as the store keeps it: the same 64 bits, read as signed.
pub open spec fn stored_user_id(user_id: u64) -> i64 {
    user_id as i64
}

/// Turns an id into the signed number that the store keeps.
pub fn to_stored_user_id(user_id: u64) -> (r: i64)
    ensures
        r == stored_user_id(user_id),
{
    user_id as i64
}

impl DefaultLicenseIdentifier {
    /// An equal value, owned by the caller.
    pub fn duplicate(&self) -> (r: DefaultLicenseIdentifier)
        ensures
            r == *self,
    {
        match self {
            DefaultLicenseIdentifier::User(id) => DefaultLicenseIdentifier::User(*id),
            DefaultLicenseIdentifier::System(name) => DefaultLicenseIdentifier::System(
                name.clone(),
            ),
        }
    }
}

impl UserLicense {
    /// An equal value, owned by the caller.
    pub fn duplicate(&self) -> (r: UserLicense)
        ensures
            r == *self,
    {
        UserLicense {
            id: self.id,
            user_id: self.user_id,
            license_name: self.license_name.clone(),
            allow_redistribution: self.allow_redistribution,
            allow_modification: self.allow_modification,
            restrictions_note: clone_opt_string(&self.restrictions_note),
            allow_backup: self.allow_backup,
            usage_count: self.usage_count,
            created_at: self.created_at,
        }
    }
}

impl SystemLicense {
    /// An equal value, owned by the caller.
    pub fn duplicate(&self) -> (r: SystemLicense)
        ensures
            r == *self,
    {
        SystemLicense {
            license_name: self.license_name.clone(),
            allow_redistribution: self.allow_redistribution,
            allow_modification: self.allow_modification,
            restrictions_note: clone_opt_string(&self.restrictions_note),
            allow_backup: self.allow_backup,
        }
    }

    /// The template that offers what a stored license grants.
    pub fn from_user_license(model: UserLicense) -> (r: SystemLicense)
        ensures
            r.license_name == model.license_name,
            r.allow_redistribution == model.allow_redistribution,
            r.allow_modification == model.allow_modification,
            r.restrictions_note == model.restrictions_note,
            r.allow_backup == model.allow_backup,
    {
        SystemLicense {
            license_name: model.license_name,
            allow_redistribution: model.allow_redistribution,
            allow_modification: model.allow_modification,
            restrictions_note: model.restrictions_note,
            allow_backup: model.allow_backup,
        }
    }

    /// The license record that stands for this template when `user_id`
    /// publishes it: it has the given id, has never been used, and grants
    /// what the template grants.
    pub fn to_user_license(&self, user_id: u64, index: i32, created_at: i64) -> (r: UserLicense)
        ensures
            r.id == index,
            r.user_id == stored_user_id(user_id),
            r.license_name == self.license_name,
            r.allow_redistribution == self.allow_redistribution,
            r.allow_modification == self.allow_modification,
            r.restrictions_note == self.restrictions_note,
            r.allow_backup == self.allow_backup,
            r.usage_count == 0,
            r.created_at == created_at,
    {
        UserLicense {
            id: index,
            user_id: to_stored_user_id(user_id),
            license_name: self.license_name.clone(),
            allow_redistribution: self.allow_redistribution,
            allow_modification: self.allow_modification,
            restrictions_note: clone_opt_string(&self.restrictions_note),
            allow_backup: self.allow_backup,
            usage_count: 0,
            created_at,
        }
    }
}

/// The position of the first template named `name`, or the number of
/// templates when none has that name.
pub open spec fn template_position(templates: Seq<SystemLicense>, name: Seq<char>) -> int
    decreases templates.len(),
{
    if templates.len() == 0 {
        0
    } else if templates[0].license_name@ == name {
        0
    } else {
        1 + template_position(templates.drop_first(), name)
    }
}

/// The position of a template is the first position that bears the name.
pub proof fn lemma_template_position(templates: Seq<SystemLicense>, name: Seq<char>)
    ensures
        0 <= template_position(templates, name) <= templates.len(),
        template_position(templates, name) < templates.len() ==> templates[template_position(
            templates,
            name,
        )].license_name@ == name,
        forall|k: int|
            0 <= k < template_position(templates, name) ==> templates[k].license_name@ != name,
    decreases templates.len(),
{
    if templates.len() != 0 && templates[0].license_name@ != name {
        lemma_template_position(templates.drop_first(), name);
        let p = template_position(templates.drop_first(), name);
        assert forall|k: int| 0 <= k < 1 + p implies templates[k].license_name@ != name by {
            if k > 0 {
                assert(templates.drop_first()[k - 1] == templates[k]);
            }
        }
        if p < templates.drop_first().len() {
            assert(templates.drop_first()[p] == templates[p + 1]);
        }
    }
}

/// Finds the first template with the given name.
pub fn find_template(templates: &Vec<SystemLicense>, name: &str) -> (found: Option<usize>)
    ensures
        found.is_some() == (template_position(templates@, name@) < templates@.len()),
        found.is_some() ==> found.unwrap() == template_position(templates@, name@),
{
    let wanted = crate::text::to_chars(name);
    let mut i: usize = 0;
    proof {
        lemma_template_position(templates@, name@);
    }
    while i < templates.len()
        invariant
            i <= templates.len(),
            wanted@ == name@,
            forall|k: int| 0 <= k < i ==> templates@[k].license_name@ != name@,
        decreases templates.len() - i,
    {
        let candidate = crate::text::to_chars(templates[i].license_name.as_str());
        if candidate.len() == wanted.len() && crate::text::chars_occur_at(&candidate, &wanted, 0) {
            proof {
                assert(candidate@.subrange(0, candidate@.len() as int) =~= candidate@);
                lemma_template_position(templates@, name@);
            }
            return Some(i);
        }
        proof {
            if candidate@ == wanted@ {
                assert(candidate@.subrange(0, candidate@.len() as int) =~= candidate@);
            }
        }
        i += 1;
    }
    proof {
        lemma_template_position(templates@, name@);
    }
    None
}

} // verus!
