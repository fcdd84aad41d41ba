use vstd::prelude::*;
use vstd::string::*;
use crate::database::BotDatabase;
use crate::error::BotError;
use crate::handlers::auto_publish_flow::{template_license, TEMPLATE_LICENSE_ID};
use crate::services::license::service::position_of_id;
use crate::text::{parse_i32, parsed_i32, starts_with_text, str_eq, strip_prefix};
use crate::types::license::{
    find_template, template_position, DefaultLicenseIdentifier, SystemLicense, UserLicense,
};

verus! {

/// What a value of a license menu names.
#[derive(Debug, Clone, PartialEq, Eq)]
pub enum LicenseReference {
    /// A license of the user, by its id.
    User(i32),
    /// A template, by its name.
    System(String),
    /// The mark of a user's license, followed by something that is no id.
    BadId,
    /// Neither mark.
    Unknown,
}

/// What a reference holds.
pub enum ReferenceView {
    User(i32),
    System(Seq<char>),
    BadId,
    Unknown,
}

impl View for LicenseReference {
    type V = ReferenceView;

    open spec fn view(&self) -> ReferenceView {
        match *self {
            LicenseReference::User(id) => ReferenceView::User(id),
            LicenseReference::System(name) => ReferenceView::System(name@),
            LicenseReference::BadId => ReferenceView::BadId,
            LicenseReference::Unknown => ReferenceView::Unknown,
        }
    }
}

/// Reads a value that marks a user's license by one prefix and a template
/// by another. The user's mark is looked for first.
pub open spec fn license_reference(
    value: Seq<char>,
    user_prefix: Seq<char>,
    system_prefix: Seq<char>,
) -> ReferenceView {
    if starts_with_text(value, user_prefix) {
        match parsed_i32(value.subrange(user_prefix.len() as int, value.len() as int)) {
            Some(id) => ReferenceView::User(id),
            None => ReferenceView::BadId,
        }
    } else if starts_with_text(value, system_prefix) {
        ReferenceView::System(value.subrange(system_prefix.len() as int, value.len() as int))
    } else {
        ReferenceView::Unknown
    }
}

/// Reads a value of a license menu.
pub fn parse_license_reference(value: &str, user_prefix: &str, system_prefix: &str) -> (r:
    LicenseReference)
    ensures
        r@ == license_reference(value@, user_prefix@, system_prefix@),
{
    match strip_prefix(value, user_prefix) {
        Some(rest) => match parse_i32(rest.as_str()) {
            Some(id) => LicenseReference::User(id),
            None => LicenseReference::BadId,
        },
        None => match strip_prefix(value, system_prefix) {
            Some(name) => LicenseReference::System(name),
            None => LicenseReference::Unknown,
        },
    }
}

/// What the settings menu asks for: no default license, or the license
/// that the value names.
pub open spec fn default_license_selection(selected: Seq<char>) -> Result<
    Option<ReferenceView>,
    Seq<char>,
> {
    if selected == "none"@ {
        Ok(None)
    } else {
        match license_reference(selected, "user_"@, "system_"@) {
            ReferenceView::BadId => Err("无效的协议ID"@),
            ReferenceView::Unknown => Err("无效的选择"@),
            named => Ok(Some(named)),
        }
    }
}

/// The view of a default license reference.
pub open spec fn identifier_view(id: DefaultLicenseIdentifier) -> ReferenceView {
    match id {
        DefaultLicenseIdentifier::User(id) => ReferenceView::User(id),
        DefaultLicenseIdentifier::System(name) => ReferenceView::System(name@),
    }
}

/// Reads the value that the user chose in the settings menu.
pub fn parse_default_license_selection(selected: &str) -> (r: Result<
    Option<DefaultLicenseIdentifier>,
    BotError,
>)
    ensures
        match default_license_selection(selected@) {
            Ok(None) => r == Ok::<Option<DefaultLicenseIdentifier>, BotError>(None),
            Ok(Some(named)) => r matches Ok(Some(id)) && identifier_view(id) == named,
            Err(text) => r matches Err(error) && error is GenericError && error.message_text()
                == text,
        },
{
    if str_eq(selected, "none") {
        return Ok(None);
    }
    match parse_license_reference(selected, "user_", "system_") {
        LicenseReference::User(id) => Ok(Some(DefaultLicenseIdentifier::User(id))),
        LicenseReference::System(name) => Ok(Some(DefaultLicenseIdentifier::System(name))),
        LicenseReference::BadId => Err(BotError::generic("无效的协议ID")),
        LicenseReference::Unknown => Err(BotError::generic("无效的选择")),
    }
}

/// Why a license is not published on request.
#[derive(Debug, Clone, Copy, PartialEq, Eq, Structural)]
pub enum PublishRefusal {
    /// The request did not come from a thread.
    NotInThread,
    /// The thread belongs to somebody else.
    NotOwner,
    /// The value names no id.
    BadId,
    /// The user owns no license with that id.
    LicenseNotFound,
    /// There is no template of that name.
    TemplateNotFound,
    /// The value names nothing.
    BadFormat,
}

/// What the user is told about a refusal.
pub open spec fn refusal_text(refusal: PublishRefusal) -> Seq<char> {
    match refusal {
        PublishRefusal::NotInThread => "请在您创建的帖子中使用本命令。"@,
        PublishRefusal::NotOwner => "您只能为自己创建的帖子添加授权协议。"@,
        PublishRefusal::BadId => "无效的协议ID格式。"@,
        PublishRefusal::LicenseNotFound => "未找到该协议。"@,
        PublishRefusal::TemplateNotFound => "未找到该系统协议。"@,
        PublishRefusal::BadFormat => "无效的协议格式。"@,
    }
}

impl PublishRefusal {
    /// The sentence for the user.
    pub fn message(self) -> (text: String)
        ensures
            text@ == refusal_text(self),
    {
        match self {
            PublishRefusal::NotInThread => String::from_str("请在您创建的帖子中使用本命令。"),
            PublishRefusal::NotOwner => String::from_str("您只能为自己创建的帖子添加授权协议。"),
            PublishRefusal::BadId => String::from_str("无效的协议ID格式。"),
            PublishRefusal::LicenseNotFound => String::from_str("未找到该协议。"),
            PublishRefusal::TemplateNotFound => String::from_str("未找到该系统协议。"),
            PublishRefusal::BadFormat => String::from_str("无效的协议格式。"),
        }
    }
}

/// Where a request to publish comes from.
#[derive(Debug, Clone, Copy, PartialEq, Eq, Structural)]
pub struct PublishRequest {
    pub author_id: u64,
    pub in_thread: bool,
    pub thread_owner: Option<u64>,
    pub backup_override: Option<bool>,
    pub now: i64,
}

/// The license that a request publishes, and the backup permission that
/// holds for the publication: the override if one is given, what the
/// license says otherwise. Requests from outside a thread, or for a thread
/// of somebody else, are refused before the value is looked at.
pub open spec fn license_to_publish(
    owned: Seq<UserLicense>,
    catalog: Seq<SystemLicense>,
    request: PublishRequest,
    value: Seq<char>,
) -> Result<(UserLicense, bool), PublishRefusal> {
    if !request.in_thread {
        Err(PublishRefusal::NotInThread)
    } else if request.thread_owner != Some(request.author_id) {
        Err(PublishRefusal::NotOwner)
    } else {
        let found = match license_reference(value, "user:"@, "system:"@) {
            ReferenceView::User(id) => if position_of_id(owned, id) < owned.len() {
                Ok(owned[position_of_id(owned, id)])
            } else {
                Err(PublishRefusal::LicenseNotFound)
            },
            ReferenceView::System(name) => if template_position(catalog, name) < catalog.len() {
                Ok(
                    template_license(
                        catalog[template_position(catalog, name)],
                        request.author_id,
                        None,
                        request.now,
                    ),
                )
            } else {
                Err(PublishRefusal::TemplateNotFound)
            },
            ReferenceView::BadId => Err(PublishRefusal::BadId),
            ReferenceView::Unknown => Err(PublishRefusal::BadFormat),
        };
        match found {
            Ok(license) => Ok(
                (
                    license,
                    match request.backup_override {
                        Some(allowed) => allowed,
                        None => license.allow_backup,
                    },
                ),
            ),
            Err(refusal) => Err(refusal),
        }
    }
}

/// Decides what a request to publish a license publishes.
pub fn publish_license(
    data: &BotDatabase,
    catalog: &Vec<SystemLicense>,
    request: &PublishRequest,
    license_id: &str,
) -> (r: Result<(UserLicense, bool), PublishRefusal>)
    ensures
        r == license_to_publish(
            data.licenses.owned(request.author_id),
            catalog@,
            *request,
            license_id@,
        ),
{
    if !request.in_thread {
        return Err(PublishRefusal::NotInThread);
    }
    match request.thread_owner {
        Some(owner) => {
            if owner != request.author_id {
                return Err(PublishRefusal::NotOwner);
            }
        },
        None => {
            return Err(PublishRefusal::NotOwner);
        },
    }
    let license = match parse_license_reference(license_id, "user:", "system:") {
        LicenseReference::User(id) => match data.licenses.get_license(id, request.author_id) {
            Some(license) => license,
            None => {
                return Err(PublishRefusal::LicenseNotFound);
            },
        },
        LicenseReference::System(name) => match find_template(catalog, name.as_str()) {
            Some(position) => catalog[position].to_user_license(
                request.author_id,
                TEMPLATE_LICENSE_ID,
                request.now,
            ),
            None => {
                return Err(PublishRefusal::TemplateNotFound);
            },
        },
        LicenseReference::BadId => {
            return Err(PublishRefusal::BadId);
        },
        LicenseReference::Unknown => {
            return Err(PublishRefusal::BadFormat);
        },
    };
    let backup_allowed = match request.backup_override {
        Some(allowed) => allowed,
        None => license.allow_backup,
    };
    Ok((license, backup_allowed))
}

} // verus!
