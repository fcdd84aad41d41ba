use vstd::prelude::*;
use vstd::string::*;
use crate::database::BotDatabase;
use crate::error::BotError;
use crate::services::license::publish_service::LicensePublishService;
use crate::services::license::service::{position_of_id, MAX_LICENSES_PER_USER};
use crate::services::published_posts::{backup_permission_changed, post_of, upserted_post};
use crate::services::user_settings::{
    default_license_of, settings_or_default, with_default_license, UserSettings,
};
use crate::text::{decimal, decimal_text, starts_with_text, str_eq, strip_prefix};
use crate::types::license::{
    find_template, stored_user_id, template_position, BackupOverride, DefaultLicenseIdentifier,
    SystemLicense, UserLicense,
};
use crate::utils::editor_core::{DraftView, LicenseEditState};
use crate::utils::license_editor::LicenseEditorOutcome;
use crate::utils::user_friendly_errors::{map_error_text, UserFriendlyErrorMapper};

verus! {

/// Seconds after its creation up to which a thread still starts the
/// workflow.
pub const MAX_TRIGGER_AGE_SECS: i64 = 300;

/// Seconds that a user has to answer the first prompt, and the prompt that
/// asks whether the default license shall be published.
pub const PROMPT_TIMEOUT_SECS: u64 = 180;

/// Seconds that a user has to answer a prompt that follows one of their own
/// answers.
pub const FOLLOWUP_TIMEOUT_SECS: u64 = 120;

/// The id under which a template is published: it is no stored license.
pub const TEMPLATE_LICENSE_ID: i32 = -1;

/// Where the workflow stands.
#[derive(Debug, Clone)]
pub enum FlowState {
    /// Nothing is decided yet.
    Initial,
    /// A user without preferences is asked whether to switch the feature on.
    AwaitingGuidance,
    /// The user edits a draft.
    EditingLicense(LicenseEditState),
    /// The user cancelled the editor and chooses again among the templates.
    AwaitingLicenseReselection(Vec<SystemLicense>),
    /// A license was saved; the workflow passes on to asking for publication.
    ConfirmingSave(UserLicense),
    /// The user is asked whether the license shall be published.
    ConfirmingPublish(UserLicense),
    /// The workflow is over.
    Done,
}

/// What is said to the user at the end of an exchange.
#[derive(Debug, Clone, Copy, PartialEq, Eq, Structural)]
pub enum Notice {
    /// The feature stays off.
    Disabled,
    /// The user left the setup.
    Exited,
    /// The default license was published.
    Published,
    /// The user declined to publish.
    PublishCancelled,
    /// The new license was saved, made the default, and published.
    PublishedNewLicense,
    /// The new license was saved and made the default, but not published.
    SkippedNewLicense,
    /// The new license could not be saved.
    SaveFailed,
}

/// What follows once a publication is complete.
#[derive(Debug, Clone, Copy, PartialEq, Eq, Structural)]
pub enum AfterPublish {
    /// Nothing: the publication was silent.
    Nothing,
    /// The prompt is removed and the pressing event is told of the success.
    RespondPublished { interaction: u64 },
    /// The prompt that followed the editor is turned into the final notice.
    RespondPublishedNew { interaction: u64 },
}

/// What the workflow waits for.
#[derive(Debug, Clone, PartialEq, Eq)]
pub enum FlowPhase {
    Created,
    SendingGuidance,
    AwaitingChoice,
    ShowingMenu,
    AwaitingSelection,
    Editing,
    ShowingReselection,
    AwaitingReselection,
    SendingConfirmation,
    AwaitingConfirmation,
    AskingNewLicense,
    AwaitingNewConfirmation,
    Announcing { license: UserLicense, backup_allowed: bool, then: AfterPublish },
    Notifying { license: UserLicense, then: AfterPublish },
    Closing,
    /// The owner is being told of a failure; the workflow ends with it next.
    Reporting { error: BotError },
    Finished,
}

/// What the driver does for the workflow. Every action but the last is
/// answered by one event.
#[derive(Debug)]
pub enum FlowAction {
    /// Send the prompt that offers the feature into the thread.
    SendGuidance,
    /// Send the prompt that asks whether `license` shall be published.
    SendConfirmation { license: UserLicense },
    /// Wait for the owner to use a control of `message`.
    AwaitComponent { message: u64, timeout_secs: u64 },
    /// Answer `interaction` with the menu of templates, and delete `delete`.
    ShowLicenseMenu { interaction: u64, delete: Option<u64>, licenses: Vec<SystemLicense> },
    /// Follow `interaction` up with the menu of templates and an exit.
    ShowReselectionMenu { interaction: u64, licenses: Vec<SystemLicense> },
    /// Run the editor on `draft`, opened by `interaction`.
    RunEditor { interaction: u64, draft: LicenseEditState },
    /// Follow `interaction` up with the question whether the new license
    /// shall be published.
    AskPublishNewLicense { interaction: u64, license_name: String },
    /// Mark the announcement `supersede` as void and unpin it, as far as
    /// that works; then send the announcement of `license` and pin it.
    Announce { supersede: Option<i64>, license: UserLicense, backup_allowed: bool },
    /// Tell the backup service that the permission changed. Failures are
    /// the driver's to log.
    Notify { message: u64, license_name: String, backup_allowed: bool },
    /// Delete `delete`, as far as that works, and answer `interaction`.
    Respond { interaction: u64, delete: Option<u64>, notice: Notice },
    /// Tell the owner that the workflow failed, as far as that works: in
    /// answer to `interaction` if there is one, in the thread otherwise.
    ReportFailure { interaction: Option<u64>, text: String },
    /// Delete `delete`, as far as that works, and end with `result`.
    Finish { delete: Option<u64>, result: Result<(), BotError> },
}

/// What the driver reports back.
#[derive(Debug, Clone)]
pub enum FlowEvent {
    /// A thread was created: when, when the bot started, and what time it
    /// is, all in seconds since the Unix epoch.
    Triggered { created_at: Option<i64>, bot_started_at: i64, now: i64 },
    /// The message of the last action was sent.
    MessageSent { message: u64 },
    /// The owner used a control: the event's handle, the control's id, and
    /// the first selected value if the control is a menu.
    Component { interaction: u64, custom_id: String, selected: Option<String> },
    /// Nobody answered in time.
    TimedOut,
    /// The editor ended.
    EditorFinished { outcome: LicenseEditorOutcome },
    /// The announcement was sent.
    Announced { message: u64 },
    /// The last action is done.
    Completed,
    /// The last action failed.
    Failed { error: BotError },
}

/// One run of the workflow for one thread and its owner.
pub struct AutoPublishFlow {
    pub state: FlowState,
    pub phase: FlowPhase,
    pub owner_id: u64,
    pub thread_id: u64,
    /// The time of the trigger.
    pub now: i64,
    /// The message that is deleted when the workflow ends.
    pub current_message: Option<u64>,
    /// The templates as they were when the user switched the feature on.
    pub system_licenses: Option<Vec<SystemLicense>>,
    /// The event that opens the editor.
    pub pending_interaction: Option<u64>,
    /// The event that the editor handed back.
    pub editor_interaction: Option<u64>,
    /// The last event of the owner, for answers that come later.
    pub last_interaction: Option<u64>,
}

/// A trigger is stale if its thread is older than the bot's start or older
/// than the allowed age. A thread of unknown age is never stale.
pub open spec fn is_stale(created_at: Option<i64>, bot_started_at: i64, now: i64) -> bool {
    match created_at {
        Some(created) => created < bot_started_at || now - created > MAX_TRIGGER_AGE_SECS,
        None => false,
    }
}

/// The license record that stands for a template when `owner` publishes it
/// with the given backup override.
pub open spec fn template_license(
    template: SystemLicense,
    owner: u64,
    backup: Option<bool>,
    now: i64,
) -> UserLicense {
    UserLicense {
        id: TEMPLATE_LICENSE_ID,
        user_id: stored_user_id(owner),
        license_name: template.license_name,
        allow_redistribution: template.allow_redistribution,
        allow_modification: template.allow_modification,
        restrictions_note: template.restrictions_note,
        allow_backup: BackupOverride::of_flag(backup).applied(template.allow_backup),
        usage_count: 0,
        created_at: now,
    }
}

/// The license that a default reference resolves to: the owner's own
/// license with that id, or the template with that name under the owner's
/// backup override; nothing if there is no such license.
pub open spec fn resolved_license(
    owned: Seq<UserLicense>,
    catalog: Seq<SystemLicense>,
    owner: u64,
    settings: UserSettings,
    now: i64,
) -> Option<UserLicense> {
    match default_license_of(settings) {
        None => None,
        Some(DefaultLicenseIdentifier::User(id)) => if position_of_id(owned, id) < owned.len() {
            Some(owned[position_of_id(owned, id)])
        } else {
            None
        },
        Some(DefaultLicenseIdentifier::System(name)) => if template_position(catalog, name@)
            < catalog.len() {
            Some(
                template_license(
                    catalog[template_position(catalog, name@)],
                    owner,
                    settings.default_system_license_backup,
                    now,
                ),
            )
        } else {
            None
        },
    }
}

/// What a fresh trigger leads to.
pub enum InitialDecision {
    /// Nothing is shown and nothing is written.
    Silent,
    /// The user is offered the feature.
    Guide,
    /// The license is published without asking.
    PublishDirectly(UserLicense),
    /// The user is asked whether the license shall be published.
    Confirm(UserLicense),
}

/// The decision for a fresh trigger: a user without preferences is guided;
/// a user who switched the feature off, or whose default license cannot be
/// resolved, is left alone; every other user gets their default license
/// published, at once if they chose to skip the confirmation, after a
/// confirmation otherwise.
pub open spec fn initial_decision(
    settings: Option<UserSettings>,
    owned: Seq<UserLicense>,
    catalog: Seq<SystemLicense>,
    owner: u64,
    now: i64,
) -> InitialDecision {
    match settings {
        None => InitialDecision::Guide,
        Some(row) => if !row.auto_publish_enabled {
            InitialDecision::Silent
        } else {
            match resolved_license(owned, catalog, owner, row, now) {
                None => InitialDecision::Silent,
                Some(license) => if row.skip_auto_publish_confirmation {
                    InitialDecision::PublishDirectly(license)
                } else {
                    InitialDecision::Confirm(license)
                },
            }
        },
    }
}

/// The message of the announcement that a new one supersedes.
pub open spec fn previous_announcement(data: BotDatabase, thread_id: u64) -> Option<i64> {
    match post_of(data.posts@, thread_id) {
        Some(post) => Some(post.message_id),
        None => None,
    }
}

/// The workflow after its end: done, waiting for nothing, with no message
/// left to delete.
pub open spec fn ended(flow: AutoPublishFlow) -> AutoPublishFlow {
    AutoPublishFlow {
        state: FlowState::Done,
        phase: FlowPhase::Finished,
        current_message: None,
        ..flow
    }
}

/// The workflow ends without an error, and the message that was flagged
/// for deletion is handed to the driver for deletion.
pub open spec fn ends_quietly(pre: AutoPublishFlow, post: AutoPublishFlow, action: FlowAction) -> bool {
    &&& post == ended(pre)
    &&& action matches FlowAction::Finish { delete, result }
    &&& delete == pre.current_message
    &&& result == Ok::<(), BotError>(())
}

/// The workflow ends with `error`; the flagged message is deleted all the
/// same.
pub open spec fn ends_with(
    pre: AutoPublishFlow,
    post: AutoPublishFlow,
    action: FlowAction,
    error: BotError,
) -> bool {
    &&& post == ended(pre)
    &&& action matches FlowAction::Finish { delete, result }
    &&& delete == pre.current_message
    &&& result == Err::<(), BotError>(error)
}

/// The workflow ends with a generic error of the given text.
pub open spec fn ends_rejecting(
    pre: AutoPublishFlow,
    post: AutoPublishFlow,
    action: FlowAction,
    text: Seq<char>,
) -> bool {
    &&& post == ended(pre)
    &&& action matches FlowAction::Finish { delete, result }
    &&& delete == pre.current_message
    &&& result matches Err(error)
    &&& error is GenericError
    &&& error.message_text() == text
}

/// The session once it has taken note of an event: an event of the owner
/// is kept as the last one that can be answered.
pub open spec fn heard(flow: AutoPublishFlow, event: FlowEvent) -> AutoPublishFlow {
    match event {
        FlowEvent::Component { interaction, .. } => AutoPublishFlow {
            last_interaction: Some(interaction),
            ..flow
        },
        FlowEvent::EditorFinished { outcome } => match outcome.interaction {
            Some(interaction) => AutoPublishFlow { last_interaction: Some(interaction), ..flow },
            None => flow,
        },
        _ => flow,
    }
}

/// What the owner is told about a failure.
pub open spec fn failure_notice(error: BotError) -> Seq<char> {
    "❌ "@ + map_error_text(error)
}

/// The workflow fails with `error`: the owner is told, in answer to their
/// last event if there is one, and the workflow keeps the error to end
/// with it in the next step. Nothing else of the session changes.
pub open spec fn reports(
    pre: AutoPublishFlow,
    post: AutoPublishFlow,
    action: FlowAction,
    error: BotError,
) -> bool {
    &&& post == (AutoPublishFlow { phase: FlowPhase::Reporting { error }, ..pre })
    &&& action matches FlowAction::ReportFailure { interaction, text }
    &&& interaction == pre.last_interaction
    &&& text@ == failure_notice(error)
}

/// The workflow fails with a generic error of the given text, and the
/// owner is told.
pub open spec fn reports_rejection(
    pre: AutoPublishFlow,
    post: AutoPublishFlow,
    action: FlowAction,
    text: Seq<char>,
) -> bool {
    &&& post.phase matches FlowPhase::Reporting { error }
    &&& error is GenericError
    &&& error.message_text() == text
    &&& reports(pre, post, action, error)
}

/// The name that a new license gets before the user edits it: a fixed word
/// followed by the number of the license among the user's own.
pub open spec fn default_license_name(owned_count: nat) -> Seq<char> {
    "我的协议"@ + decimal_text(owned_count + 1)
}

/// What a chosen menu value stands for.
pub enum Selection {
    /// A license from scratch.
    NewLicense,
    /// The template at this position of the offered list.
    Template(int),
    /// A template that is not in the offered list.
    UnknownTemplate,
    /// No value of the menu.
    Invalid,
}

/// Reads a menu value: the word for a new license, or the prefix for a
/// template followed by the template's name.
pub open spec fn selection_of(selected: Seq<char>, offered: Seq<SystemLicense>) -> Selection {
    if selected == "new_license"@ {
        Selection::NewLicense
    } else if starts_with_text(selected, "system_"@) {
        let name = selected.subrange("system_"@.len() as int, selected.len() as int);
        if template_position(offered, name) < offered.len() {
            Selection::Template(template_position(offered, name))
        } else {
            Selection::UnknownTemplate
        }
    } else {
        Selection::Invalid
    }
}

/// The templates that a session offers: those it kept when the feature was
/// switched on, or none.
pub open spec fn offered_templates(flow: AutoPublishFlow) -> Seq<SystemLicense> {
    match flow.system_licenses {
        Some(list) => list@,
        None => Seq::empty(),
    }
}

/// The user chose `selected` from a menu, by the event `interaction`: the
/// editor opens on a new draft or on a copy of the chosen template; for a
/// value that names nothing the owner is told so and the workflow fails.
pub open spec fn after_selection(
    pre: AutoPublishFlow,
    owned_count: nat,
    interaction: u64,
    selected: Seq<char>,
    offered: Seq<SystemLicense>,
    post: AutoPublishFlow,
    action: FlowAction,
) -> bool {
    match selection_of(selected, offered) {
        Selection::NewLicense => {
            &&& opens_editor(pre, interaction, post, action)
            &&& post.state matches FlowState::EditingLicense(draft)
            &&& draft@ == (DraftView {
                name: default_license_name(owned_count),
                allow_redistribution: false,
                allow_modification: false,
                restrictions_note: None,
                allow_backup: false,
            })
        },
        Selection::Template(position) => {
            &&& opens_editor(pre, interaction, post, action)
            &&& post.state matches FlowState::EditingLicense(draft)
            &&& draft == (LicenseEditState {
                license_name: offered[position].license_name,
                allow_redistribution: offered[position].allow_redistribution,
                allow_modification: offered[position].allow_modification,
                restrictions_note: offered[position].restrictions_note,
                allow_backup: offered[position].allow_backup,
            })
        },
        Selection::UnknownTemplate => reports_rejection(pre, post, action, "选择的系统协议不存在"@),
        Selection::Invalid => reports_rejection(pre, post, action, "无效的选择"@),
    }
}

/// The editor opens on the draft that the state holds, by `interaction`.
pub open spec fn opens_editor(
    pre: AutoPublishFlow,
    interaction: u64,
    post: AutoPublishFlow,
    action: FlowAction,
) -> bool {
    &&& post.state matches FlowState::EditingLicense(draft)
    &&& post == (AutoPublishFlow {
        state: post.state,
        phase: FlowPhase::Editing,
        pending_interaction: Some(interaction),
        ..pre
    })
    &&& action matches FlowAction::RunEditor { interaction: opened_by, draft: shown }
    &&& opened_by == interaction
    &&& shown == draft
}

/// The action that starts a publication of `license`.
pub open spec fn announces(
    data: BotDatabase,
    thread_id: u64,
    license: UserLicense,
    action: FlowAction,
) -> bool {
    &&& action matches FlowAction::Announce { supersede, license: announced, backup_allowed }
    &&& supersede == previous_announcement(data, thread_id)
    &&& announced == license
    &&& backup_allowed == license.allow_backup
}

/// The step that follows the trigger.
pub open spec fn after_trigger(
    pre: AutoPublishFlow,
    data: BotDatabase,
    catalog: Seq<SystemLicense>,
    created_at: Option<i64>,
    bot_started_at: i64,
    now: i64,
    post: AutoPublishFlow,
    action: FlowAction,
) -> bool {
    let started = AutoPublishFlow { now, ..pre };
    if is_stale(created_at, bot_started_at, now) {
        ends_quietly(started, post, action)
    } else {
        match initial_decision(
            if data.settings@.contains_key(pre.owner_id) {
                Some(data.settings@[pre.owner_id])
            } else {
                None
            },
            data.licenses.owned(pre.owner_id),
            catalog,
            pre.owner_id,
            now,
        ) {
            InitialDecision::Silent => ends_quietly(started, post, action),
            InitialDecision::Guide => post == (AutoPublishFlow {
                state: FlowState::AwaitingGuidance,
                phase: FlowPhase::SendingGuidance,
                ..started
            }) && action is SendGuidance,
            InitialDecision::PublishDirectly(license) => post == (AutoPublishFlow {
                phase: FlowPhase::Announcing {
                    license,
                    backup_allowed: license.allow_backup,
                    then: AfterPublish::Nothing,
                },
                ..started
            }) && announces(data, pre.thread_id, license, action),
            InitialDecision::Confirm(license) => {
                &&& post == (AutoPublishFlow {
                    state: FlowState::ConfirmingPublish(license),
                    phase: FlowPhase::SendingConfirmation,
                    ..started
                })
                &&& action matches FlowAction::SendConfirmation { license: shown }
                &&& shown == license
            },
        }
    }
}

/// The workflow goes on to wait for the owner at `message`.
pub open spec fn waits_at(
    post: AutoPublishFlow,
    expected: AutoPublishFlow,
    action: FlowAction,
    message: u64,
    timeout_secs: u64,
) -> bool {
    &&& post == expected
    &&& action matches FlowAction::AwaitComponent { message: at, timeout_secs: within }
    &&& at == message
    &&& within == timeout_secs
}

/// The workflow answers `interaction` with `notice` and waits for the
/// answer to be sent before it ends.
pub open spec fn responds(
    post: AutoPublishFlow,
    expected: AutoPublishFlow,
    action: FlowAction,
    interaction: u64,
    delete: Option<u64>,
    notice: Notice,
) -> bool {
    &&& post == expected
    &&& action matches FlowAction::Respond { interaction: answered, delete: removed, notice: said }
    &&& answered == interaction
    &&& removed == delete
    &&& said == notice
}

/// The store after a publication was completed: one more use is counted
/// for the license if the owner has it and its counter is not full.
pub open spec fn usage_counted(
    before: BotDatabase,
    after: BotDatabase,
    owner: u64,
    license_id: i32,
) -> bool {
    let owned = before.licenses.owned(owner);
    let p = position_of_id(owned, license_id);
    &&& after.settings == before.settings
    &&& after.posts == before.posts
    &&& after.licenses.changed_only(before.licenses, owner)
    &&& if p < owned.len() && owned[p].usage_count < i32::MAX {
        after.licenses.owned(owner) == owned.update(
            p,
            UserLicense { usage_count: (owned[p].usage_count + 1) as i32, ..owned[p] },
        )
    } else {
        after.licenses.owned(owner) == owned
    }
}

/// A publication is completed: the use is counted, and the workflow ends
/// or tells the user, as `then` says. A full counter is a failure of the
/// store, of which the owner is told.
pub open spec fn completes_publication(
    pre: AutoPublishFlow,
    before: BotDatabase,
    license: UserLicense,
    then: AfterPublish,
    post: AutoPublishFlow,
    after: BotDatabase,
    action: FlowAction,
) -> bool {
    let owned = before.licenses.owned(pre.owner_id);
    let p = position_of_id(owned, license.id);
    &&& usage_counted(before, after, pre.owner_id, license.id)
    &&& if p < owned.len() && owned[p].usage_count == i32::MAX {
        &&& post.phase matches FlowPhase::Reporting { error }
        &&& error is DatabaseError
        &&& reports(pre, post, action, error)
    } else {
        match then {
            AfterPublish::Nothing => ends_quietly(pre, post, action),
            AfterPublish::RespondPublished { interaction } => responds(
                post,
                AutoPublishFlow { phase: FlowPhase::Closing, current_message: None, ..pre },
                action,
                interaction,
                pre.current_message,
                Notice::Published,
            ),
            AfterPublish::RespondPublishedNew { interaction } => responds(
                post,
                AutoPublishFlow { phase: FlowPhase::Closing, ..pre },
                action,
                interaction,
                None,
                Notice::PublishedNewLicense,
            ),
        }
    }
}

/// The step that follows the announcement `message`: the announcement is
/// recorded; if the backup permission changed with it the backup service
/// is told before anything else, otherwise the publication is completed.
pub open spec fn after_announcement(
    pre: AutoPublishFlow,
    before: BotDatabase,
    license: UserLicense,
    backup_allowed: bool,
    then: AfterPublish,
    message: u64,
    post: AutoPublishFlow,
    after: BotDatabase,
    action: FlowAction,
) -> bool {
    let recorded = BotDatabase {
        posts: after.posts,
        ..before
    };
    &&& after.posts@ == before.posts@.insert(
        pre.thread_id,
        upserted_post(
            post_of(before.posts@, pre.thread_id),
            pre.thread_id,
            message,
            pre.owner_id,
            backup_allowed,
            pre.now,
        ),
    )
    &&& if backup_permission_changed(post_of(before.posts@, pre.thread_id), backup_allowed) {
        &&& after == recorded
        &&& post == (AutoPublishFlow { phase: FlowPhase::Notifying { license, then }, ..pre })
        &&& action matches FlowAction::Notify { message: about, license_name, backup_allowed: flag }
        &&& about == message
        &&& license_name == license.license_name
        &&& flag == backup_allowed
    } else {
        completes_publication(pre, recorded, license, then, post, after, action)
    }
}

/// The step that follows the end of the editor. A saved draft becomes a
/// license of the owner, their default, and switches the feature on; then
/// the owner is asked whether to publish it. If the license cannot be
/// created nothing is written and the owner is told. A cancelled editor
/// leads back to the menu, and an editor that ended without an event ends
/// the workflow.
pub open spec fn after_editor(
    pre: AutoPublishFlow,
    before: BotDatabase,
    outcome: LicenseEditorOutcome,
    post: AutoPublishFlow,
    after: BotDatabase,
    action: FlowAction,
) -> bool {
    let taken = AutoPublishFlow { pending_interaction: None, ..pre };
    match (outcome.state, outcome.interaction) {
        (Some(draft), Some(interaction)) => {
            let owned = before.licenses.owned(pre.owner_id);
            if owned.len() >= MAX_LICENSES_PER_USER || before.licenses.upcoming_id() == i32::MAX {
                &&& after.settings == before.settings
                &&& after.posts == before.posts
                &&& after.licenses.same_as(before.licenses)
                &&& responds(
                    post,
                    AutoPublishFlow {
                        phase: FlowPhase::Closing,
                        editor_interaction: Some(interaction),
                        ..taken
                    },
                    action,
                    interaction,
                    None,
                    Notice::SaveFailed,
                )
            } else {
                let license = UserLicense {
                    id: before.licenses.upcoming_id(),
                    user_id: stored_user_id(pre.owner_id),
                    license_name: draft.license_name,
                    allow_redistribution: draft.allow_redistribution,
                    allow_modification: draft.allow_modification,
                    restrictions_note: draft.restrictions_note,
                    allow_backup: draft.allow_backup,
                    usage_count: 0,
                    created_at: pre.now,
                };
                &&& after.posts == before.posts
                &&& after.licenses.owned(pre.owner_id) == owned.push(license)
                &&& after.licenses.changed_only(before.licenses, pre.owner_id)
                &&& after.settings@ == before.settings@.insert(
                    pre.owner_id,
                    UserSettings {
                        auto_publish_enabled: true,
                        ..with_default_license(
                            settings_or_default(before.settings@, pre.owner_id),
                            Some(DefaultLicenseIdentifier::User(license.id)),
                            None,
                        )
                    },
                )
                &&& post == (AutoPublishFlow {
                    state: FlowState::ConfirmingPublish(license),
                    phase: FlowPhase::AskingNewLicense,
                    editor_interaction: None,
                    ..taken
                })
                &&& action matches FlowAction::AskPublishNewLicense { interaction: asked, license_name }
                &&& asked == interaction
                &&& license_name == license.license_name
            }
        },
        (Some(draft), None) => after == before && ends_quietly(taken, post, action),
        (None, Some(interaction)) => {
            &&& after == before
            &&& post.state matches FlowState::AwaitingLicenseReselection(offered)
            &&& offered@ == offered_templates(pre)
            &&& post == (AutoPublishFlow {
                state: post.state,
                phase: FlowPhase::ShowingReselection,
                editor_interaction: None,
                ..taken
            })
            &&& action matches FlowAction::ShowReselectionMenu { interaction: asked, licenses }
            &&& asked == interaction
            &&& licenses@ == offered_templates(pre)
        },
        (None, None) => after == before && ends_quietly(taken, post, action),
    }
}

/// The step that follows the owner's answer to the first prompt. Enabling
/// stores the choice, keeps the templates as they are now, and offers
/// them in place of the prompt; disabling stores the choice and says so;
/// anything else ends the workflow.
pub open spec fn after_choice(
    pre: AutoPublishFlow,
    before: BotDatabase,
    catalog: Seq<SystemLicense>,
    interaction: u64,
    custom_id: Seq<char>,
    post: AutoPublishFlow,
    after: BotDatabase,
    action: FlowAction,
) -> bool {
    if custom_id == "enable_auto_publish_setup"@ {
        &&& after == (BotDatabase { settings: after.settings, ..before })
        &&& after.settings@ == before.settings@.insert(
            pre.owner_id,
            UserSettings {
                auto_publish_enabled: true,
                ..settings_or_default(before.settings@, pre.owner_id)
            },
        )
        &&& post.system_licenses matches Some(kept)
        &&& kept@ == catalog
        &&& post == (AutoPublishFlow {
            phase: FlowPhase::ShowingMenu,
            current_message: None,
            system_licenses: post.system_licenses,
            ..pre
        })
        &&& action matches FlowAction::ShowLicenseMenu { interaction: answered, delete, licenses }
        &&& answered == interaction
        &&& delete == pre.current_message
        &&& licenses@ == catalog
    } else if custom_id == "disable_auto_publish_setup"@ {
        &&& after == (BotDatabase { settings: after.settings, ..before })
        &&& after.settings@ == before.settings@.insert(
            pre.owner_id,
            UserSettings {
                auto_publish_enabled: false,
                ..settings_or_default(before.settings@, pre.owner_id)
            },
        )
        &&& responds(
            post,
            AutoPublishFlow { phase: FlowPhase::Closing, ..pre },
            action,
            interaction,
            None,
            Notice::Disabled,
        )
    } else {
        after == before && ends_quietly(pre, post, action)
    }
}

/// The license that the workflow asks about, if it asks about one.
pub open spec fn license_in_question(flow: AutoPublishFlow) -> Option<UserLicense> {
    match flow.state {
        FlowState::ConfirmingPublish(license) => Some(license),
        _ => None,
    }
}

/// The step that follows the owner's answer to a question about
/// publishing: the word for yes starts the publication, the word for no
/// says so, anything else ends the workflow.
pub open spec fn after_confirmation(
    pre: AutoPublishFlow,
    data: BotDatabase,
    first_time: bool,
    interaction: u64,
    custom_id: Seq<char>,
    post: AutoPublishFlow,
    action: FlowAction,
) -> bool {
    let yes = if first_time {
        "confirm_publish_new_license"@
    } else {
        "confirm_auto_publish"@
    };
    let no = if first_time {
        "skip_publish_new_license"@
    } else {
        "cancel_auto_publish"@
    };
    match license_in_question(pre) {
        None => reports_rejection(pre, post, action, "没有待发布的协议"@),
        Some(license) => if custom_id == yes {
            post == (AutoPublishFlow {
                phase: FlowPhase::Announcing {
                    license,
                    backup_allowed: license.allow_backup,
                    then: if first_time {
                        AfterPublish::RespondPublishedNew { interaction }
                    } else {
                        AfterPublish::RespondPublished { interaction }
                    },
                },
                ..pre
            }) && announces(data, pre.thread_id, license, action)
        } else if custom_id == no {
            if first_time {
                responds(
                    post,
                    AutoPublishFlow { phase: FlowPhase::Closing, ..pre },
                    action,
                    interaction,
                    None,
                    Notice::SkippedNewLicense,
                )
            } else {
                responds(
                    post,
                    AutoPublishFlow { phase: FlowPhase::Closing, current_message: None, ..pre },
                    action,
                    interaction,
                    pre.current_message,
                    Notice::PublishCancelled,
                )
            }
        } else {
            ends_quietly(pre, post, action)
        },
    }
}

/// What one step of the workflow does: the session and the store after
/// the event, and the action for the driver.
///
/// A failure that the driver reports, a failure of the store, and an event
/// that the workflow does not wait for are told to the owner first, as far
/// as that works; the step after that ends the workflow with the failure,
/// whatever came of the telling. Only a failure of the backup service is
/// passed over. Every timeout ends the workflow without an error; only
/// the question about publishing the default license stays visible then.
pub open spec fn step_ok(
    start: AutoPublishFlow,
    before: BotDatabase,
    catalog: Seq<SystemLicense>,
    event: FlowEvent,
    post: AutoPublishFlow,
    after: BotDatabase,
    action: FlowAction,
) -> bool {
    let pre = heard(start, event);
    match (pre.phase, event) {
        (FlowPhase::Notifying { license, then }, _) => completes_publication(
            pre,
            before,
            license,
            then,
            post,
            after,
            action,
        ),
        (FlowPhase::Reporting { error }, _) => after == before && ends_with(
            pre,
            post,
            action,
            error,
        ),
        (FlowPhase::Finished, _) => after == before && ends_rejecting(
            pre,
            post,
            action,
            "意外的事件"@,
        ),
        (_, FlowEvent::Failed { error }) => after == before && reports(pre, post, action, error),
        (FlowPhase::Created, FlowEvent::Triggered { created_at, bot_started_at, now }) => after
            == before && after_trigger(
            pre,
            before,
            catalog,
            created_at,
            bot_started_at,
            now,
            post,
            action,
        ),
        (FlowPhase::SendingGuidance, FlowEvent::MessageSent { message }) => after == before
            && waits_at(
            post,
            AutoPublishFlow {
                phase: FlowPhase::AwaitingChoice,
                current_message: Some(message),
                ..pre
            },
            action,
            message,
            PROMPT_TIMEOUT_SECS,
        ),
        (FlowPhase::AwaitingChoice, FlowEvent::Component { interaction, custom_id, selected }) => after_choice(
            pre,
            before,
            catalog,
            interaction,
            custom_id@,
            post,
            after,
            action,
        ),
        (FlowPhase::ShowingMenu, FlowEvent::MessageSent { message }) => after == before
            && waits_at(
            post,
            AutoPublishFlow { phase: FlowPhase::AwaitingSelection, ..pre },
            action,
            message,
            FOLLOWUP_TIMEOUT_SECS,
        ),
        (FlowPhase::AwaitingSelection, FlowEvent::Component { interaction, custom_id, selected }) => after
            == before && match selected {
            Some(value) => after_selection(
                pre,
                before.licenses.owned(pre.owner_id).len(),
                interaction,
                value@,
                offered_templates(pre),
                post,
                action,
            ),
            None => ends_quietly(pre, post, action),
        },
        (FlowPhase::Editing, FlowEvent::EditorFinished { outcome }) => after_editor(
            pre,
            before,
            outcome,
            post,
            after,
            action,
        ),
        (FlowPhase::ShowingReselection, FlowEvent::MessageSent { message }) => after == before
            && waits_at(
            post,
            AutoPublishFlow { phase: FlowPhase::AwaitingReselection, ..pre },
            action,
            message,
            FOLLOWUP_TIMEOUT_SECS,
        ),
        (
            FlowPhase::AwaitingReselection,
            FlowEvent::Component { interaction, custom_id, selected },
        ) => after == before && match selected {
            Some(value) => if value@ == "exit_setup"@ {
                responds(
                    post,
                    AutoPublishFlow { phase: FlowPhase::Closing, ..pre },
                    action,
                    interaction,
                    None,
                    Notice::Exited,
                )
            } else {
                after_selection(
                    pre,
                    before.licenses.owned(pre.owner_id).len(),
                    interaction,
                    value@,
                    offered_templates(pre),
                    post,
                    action,
                )
            },
            None => ends_quietly(pre, post, action),
        },
        (FlowPhase::SendingConfirmation, FlowEvent::MessageSent { message }) => after == before
            && waits_at(
            post,
            AutoPublishFlow {
                phase: FlowPhase::AwaitingConfirmation,
                current_message: Some(message),
                ..pre
            },
            action,
            message,
            PROMPT_TIMEOUT_SECS,
        ),
        (
            FlowPhase::AwaitingConfirmation,
            FlowEvent::Component { interaction, custom_id, selected },
        ) => after == before && after_confirmation(
            pre,
            before,
            false,
            interaction,
            custom_id@,
            post,
            action,
        ),
        (FlowPhase::AwaitingConfirmation, FlowEvent::TimedOut) => after == before && ends_quietly(
            AutoPublishFlow { current_message: None, ..pre },
            post,
            action,
        ),
        (FlowPhase::AskingNewLicense, FlowEvent::MessageSent { message }) => after == before
            && waits_at(
            post,
            AutoPublishFlow { phase: FlowPhase::AwaitingNewConfirmation, ..pre },
            action,
            message,
            FOLLOWUP_TIMEOUT_SECS,
        ),
        (
            FlowPhase::AwaitingNewConfirmation,
            FlowEvent::Component { interaction, custom_id, selected },
        ) => after == before && after_confirmation(
            pre,
            before,
            true,
            interaction,
            custom_id@,
            post,
            action,
        ),
        (
            FlowPhase::Announcing { license, backup_allowed, then },
            FlowEvent::Announced { message },
        ) => after_announcement(
            pre,
            before,
            license,
            backup_allowed,
            then,
            message,
            post,
            after,
            action,
        ),
        (FlowPhase::Closing, FlowEvent::Completed) => after == before && ends_quietly(
            pre,
            post,
            action,
        ),
        (FlowPhase::AwaitingChoice, FlowEvent::TimedOut) => after == before && ends_quietly(
            pre,
            post,
            action,
        ),
        (FlowPhase::AwaitingSelection, FlowEvent::TimedOut) => after == before && ends_quietly(
            pre,
            post,
            action,
        ),
        (FlowPhase::AwaitingReselection, FlowEvent::TimedOut) => after == before && ends_quietly(
            pre,
            post,
            action,
        ),
        (FlowPhase::AwaitingNewConfirmation, FlowEvent::TimedOut) => after == before
            && ends_quietly(pre, post, action),
        _ => after == before && reports_rejection(pre, post, action, "意外的事件"@),
    }
}

impl FlowPhase {
    /// An equal phase, owned by the caller.
    pub fn duplicate(&self) -> (r: FlowPhase)
        ensures
            r == *self,
    {
        match self {
            FlowPhase::Created => FlowPhase::Created,
            FlowPhase::SendingGuidance => FlowPhase::SendingGuidance,
            FlowPhase::AwaitingChoice => FlowPhase::AwaitingChoice,
            FlowPhase::ShowingMenu => FlowPhase::ShowingMenu,
            FlowPhase::AwaitingSelection => FlowPhase::AwaitingSelection,
            FlowPhase::Editing => FlowPhase::Editing,
            FlowPhase::ShowingReselection => FlowPhase::ShowingReselection,
            FlowPhase::AwaitingReselection => FlowPhase::AwaitingReselection,
            FlowPhase::SendingConfirmation => FlowPhase::SendingConfirmation,
            FlowPhase::AwaitingConfirmation => FlowPhase::AwaitingConfirmation,
            FlowPhase::AskingNewLicense => FlowPhase::AskingNewLicense,
            FlowPhase::AwaitingNewConfirmation => FlowPhase::AwaitingNewConfirmation,
            FlowPhase::Announcing { license, backup_allowed, then } => FlowPhase::Announcing {
                license: license.duplicate(),
                backup_allowed: *backup_allowed,
                then: *then,
            },
            FlowPhase::Notifying { license, then } => FlowPhase::Notifying {
                license: license.duplicate(),
                then: *then,
            },
            FlowPhase::Closing => FlowPhase::Closing,
            FlowPhase::Reporting { error } => FlowPhase::Reporting { error: error.duplicate() },
            FlowPhase::Finished => FlowPhase::Finished,
        }
    }
}

impl FlowState {
    /// The state that follows a saved license at once: the question
    /// whether to publish it.
    pub fn handle_confirming_save(license: UserLicense) -> (r: FlowState)
        ensures
            r == FlowState::ConfirmingPublish(license),
    {
        FlowState::ConfirmingPublish(license)
    }
}

/// A copy of a list of templates.
pub fn copy_templates(list: &Vec<SystemLicense>) -> (r: Vec<SystemLicense>)
    ensures
        r@ == list@,
{
    let mut out: Vec<SystemLicense> = Vec::new();
    let mut i: usize = 0;
    while i < list.len()
        invariant
            i <= list.len(),
            out@ == list@.subrange(0, i as int),
        decreases list.len() - i,
    {
        out.push(list[i].duplicate());
        assert(out@ =~= list@.subrange(0, i + 1));
        i += 1;
    }
    assert(list@.subrange(0, list@.len() as int) =~= list@);
    out
}

impl AutoPublishFlow {
    /// A workflow for a thread and its owner, before the trigger.
    pub fn new(owner_id: u64, thread_id: u64) -> (r: AutoPublishFlow)
        ensures
            r == (AutoPublishFlow {
                state: FlowState::Initial,
                phase: FlowPhase::Created,
                owner_id,
                thread_id,
                now: 0,
                current_message: None,
                system_licenses: None,
                pending_interaction: None,
                editor_interaction: None,
                last_interaction: None,
            }),
            r.wf(),
    {
        AutoPublishFlow {
            state: FlowState::Initial,
            phase: FlowPhase::Created,
            owner_id,
            thread_id,
            now: 0,
            current_message: None,
            system_licenses: None,
            pending_interaction: None,
            editor_interaction: None,
            last_interaction: None,
        }
    }

    /// Whether the workflow is over.
    pub fn is_done(&self) -> (done: bool)
        ensures
            done == (self.state is Done),
    {
        match self.state {
            FlowState::Done => true,
            _ => false,
        }
    }

    /// Takes what a wait for the owner gave: an event of the owner is kept
    /// as the last one that can be answered; a wait that ran out puts the
    /// workflow into its last state, without an error. Nothing is sent or
    /// deleted and nothing is written on that account; ending the workflow
    /// is `cleanup`'s part.
    pub fn wait_for_interaction(&mut self, answer: Option<u64>) -> (r: Option<u64>)
        ensures
            r == answer,
            *final(self) == match answer {
                Some(interaction) => AutoPublishFlow {
                    last_interaction: Some(interaction),
                    ..*old(self)
                },
                None => AutoPublishFlow { state: FlowState::Done, ..*old(self) },
            },
    {
        match answer {
            Some(interaction) => {
                self.last_interaction = Some(interaction);
            },
            None => {
                self.state = FlowState::Done;
            },
        }
        answer
    }

    /// Ends the workflow: the message that is flagged for deletion, if
    /// there is one, goes to the driver for one attempt at deleting it,
    /// together with the result, which does not depend on what comes of
    /// the deletion. The session is done afterwards and has no message
    /// left; the store is not touched.
    pub fn cleanup(&mut self, result: Result<(), BotError>) -> (action: FlowAction)
        ensures
            *final(self) == ended(*old(self)),
            action matches FlowAction::Finish { delete, result: handed } && delete == old(
                self,
            ).current_message && handed == result,
    {
        let delete = self.current_message;
        self.state = FlowState::Done;
        self.phase = FlowPhase::Finished;
        self.current_message = None;
        FlowAction::Finish { delete, result }
    }

    fn finish_quietly(&mut self) -> (action: FlowAction)
        ensures
            ends_quietly(*old(self), *final(self), action),
    {
        self.cleanup(Ok(()))
    }

    /// A wait for the owner ran out: the workflow ends without an error.
    fn time_out(&mut self) -> (action: FlowAction)
        ensures
            ends_quietly(*old(self), *final(self), action),
    {
        self.wait_for_interaction(None);
        self.finish_quietly()
    }

    /// Fails with `error`: the owner is told, and the next step ends the
    /// workflow with the error.
    fn fail(&mut self, error: BotError) -> (action: FlowAction)
        ensures
            reports(*old(self), *final(self), action, error),
    {
        let told = UserFriendlyErrorMapper::map_error(&error);
        let text = String::from_str("❌ ").concat(told.as_str());
        let interaction = self.last_interaction;
        self.phase = FlowPhase::Reporting { error };
        FlowAction::ReportFailure { interaction, text }
    }

    fn reject(&mut self, text: &str) -> (action: FlowAction)
        ensures
            reports_rejection(*old(self), *final(self), action, text@),
    {
        self.fail(BotError::generic(text))
    }

    fn refuse_after_the_end(&mut self) -> (action: FlowAction)
        ensures
            ends_rejecting(*old(self), *final(self), action, "意外的事件"@),
    {
        self.cleanup(Err(BotError::generic("意外的事件")))
    }

    /// Resolves the default license that the preferences name.
    pub fn get_license_model(
        data: &BotDatabase,
        catalog: &Vec<SystemLicense>,
        owner_id: u64,
        settings: &UserSettings,
        now: i64,
    ) -> (r: Option<UserLicense>)
        ensures
            r == resolved_license(
                data.licenses.owned(owner_id),
                catalog@,
                owner_id,
                *settings,
                now,
            ),
    {
        match settings.default_license() {
            None => None,
            Some(DefaultLicenseIdentifier::User(id)) => data.licenses.get_license(id, owner_id),
            Some(DefaultLicenseIdentifier::System(name)) => {
                match find_template(catalog, name.as_str()) {
                    None => None,
                    Some(position) => {
                        let mut license = catalog[position].to_user_license(
                            owner_id,
                            TEMPLATE_LICENSE_ID,
                            now,
                        );
                        license.allow_backup = BackupOverride::from_flag(
                            settings.default_system_license_backup,
                        ).apply(license.allow_backup);
                        Some(license)
                    },
                }
            },
        }
    }

    fn announce(&self, data: &BotDatabase, license: UserLicense) -> (action: FlowAction)
        ensures
            announces(*data, self.thread_id, license, action),
    {
        let supersede = LicensePublishService::handle_existing_license(data, self.thread_id);
        let backup_allowed = license.allow_backup;
        FlowAction::Announce { supersede, license, backup_allowed }
    }

    /// The first step: decides from the age of the thread and from the
    /// owner's preferences what the trigger leads to. The store is only
    /// read.
    pub fn handle_initial_state(
        &mut self,
        data: &BotDatabase,
        catalog: &Vec<SystemLicense>,
        created_at: Option<i64>,
        bot_started_at: i64,
        now: i64,
    ) -> (action: FlowAction)
        ensures
            after_trigger(
                *old(self),
                *data,
                catalog@,
                created_at,
                bot_started_at,
                now,
                *final(self),
                action,
            ),
    {
        self.now = now;
        if let Some(created) = created_at {
            if created < bot_started_at || (now as i128) - (created as i128)
                > MAX_TRIGGER_AGE_SECS as i128 {
                return self.finish_quietly();
            }
        }
        let settings = data.settings.get(self.owner_id);
        match settings {
            None => {
                self.state = FlowState::AwaitingGuidance;
                self.phase = FlowPhase::SendingGuidance;
                FlowAction::SendGuidance
            },
            Some(row) => {
                if !row.auto_publish_enabled {
                    return self.finish_quietly();
                }
                match Self::get_license_model(data, catalog, self.owner_id, &row, now) {
                    None => self.finish_quietly(),
                    Some(license) => {
                        if row.skip_auto_publish_confirmation {
                            self.phase = FlowPhase::Announcing {
                                license: license.duplicate(),
                                backup_allowed: license.allow_backup,
                                then: AfterPublish::Nothing,
                            };
                            self.announce(data, license)
                        } else {
                            self.state = FlowState::ConfirmingPublish(license.duplicate());
                            self.phase = FlowPhase::SendingConfirmation;
                            FlowAction::SendConfirmation { license }
                        }
                    },
                }
            },
        }
    }

    fn await_owner(&mut self, phase: FlowPhase, message: u64, timeout_secs: u64) -> (action:
        FlowAction)
        ensures
            waits_at(
                *final(self),
                AutoPublishFlow { phase, ..*old(self) },
                action,
                message,
                timeout_secs,
            ),
    {
        self.phase = phase;
        FlowAction::AwaitComponent { message, timeout_secs }
    }

    fn respond(&mut self, interaction: u64, delete: Option<u64>, notice: Notice) -> (action:
        FlowAction)
        ensures
            responds(
                *final(self),
                AutoPublishFlow { phase: FlowPhase::Closing, ..*old(self) },
                action,
                interaction,
                delete,
                notice,
            ),
    {
        self.phase = FlowPhase::Closing;
        FlowAction::Respond { interaction, delete, notice }
    }

    /// The owner answered the first prompt.
    fn handle_awaiting_guidance(
        &mut self,
        data: &mut BotDatabase,
        catalog: &Vec<SystemLicense>,
        interaction: u64,
        custom_id: &str,
    ) -> (action: FlowAction)
        requires
            old(data).wf(),
        ensures
            after_choice(
                *old(self),
                *old(data),
                catalog@,
                interaction,
                custom_id@,
                *final(self),
                *final(data),
                action,
            ),
            final(data).wf(),
    {
        if str_eq(custom_id, "enable_auto_publish_setup") {
            data.settings.set_auto_publish(self.owner_id, true);
            self.system_licenses = Some(copy_templates(catalog));
            let delete = self.current_message;
            self.current_message = None;
            self.phase = FlowPhase::ShowingMenu;
            FlowAction::ShowLicenseMenu { interaction, delete, licenses: copy_templates(catalog) }
        } else if str_eq(custom_id, "disable_auto_publish_setup") {
            data.settings.set_auto_publish(self.owner_id, false);
            self.respond(interaction, None, Notice::Disabled)
        } else {
            self.finish_quietly()
        }
    }

    fn open_editor(&mut self, interaction: u64, draft: LicenseEditState) -> (action: FlowAction)
        ensures
            opens_editor(*old(self), interaction, *final(self), action),
            final(self).state == FlowState::EditingLicense(draft),
    {
        self.state = FlowState::EditingLicense(draft.duplicate());
        self.phase = FlowPhase::Editing;
        self.pending_interaction = Some(interaction);
        FlowAction::RunEditor { interaction, draft }
    }

    /// The owner chose a value of the menu: builds the draft that the
    /// editor opens on.
    fn handle_license_selection(&mut self, data: &BotDatabase, interaction: u64, selected: &str) -> (action:
        FlowAction)
        requires
            data.wf(),
        ensures
            after_selection(
                *old(self),
                data.licenses.owned(old(self).owner_id).len(),
                interaction,
                selected@,
                offered_templates(*old(self)),
                *final(self),
                action,
            ),
    {
        if str_eq(selected, "new_license") {
            let owned = data.licenses.get_user_license_count(self.owner_id);
            assert(data.licenses.owned(self.owner_id).len() <= MAX_LICENSES_PER_USER);
            let number = decimal(owned + 1);
            let name = String::from_str("我的协议").concat(number.as_str());
            self.open_editor(interaction, LicenseEditState::new(name))
        } else {
            match strip_prefix(selected, "system_") {
                Some(name) => {
                    let draft = match &self.system_licenses {
                        Some(list) => match find_template(list, name.as_str()) {
                            Some(position) => Some(
                                LicenseEditState::from_system_license(&list[position]),
                            ),
                            None => None,
                        },
                        None => None,
                    };
                    match draft {
                        Some(draft) => self.open_editor(interaction, draft),
                        None => self.reject("选择的系统协议不存在"),
                    }
                },
                None => self.reject("无效的选择"),
            }
        }
    }

    /// The editor ended: saves what the owner saved, or leads back to the
    /// menu, or ends the workflow.
    fn handle_editing_license(&mut self, data: &mut BotDatabase, outcome: LicenseEditorOutcome) -> (action:
        FlowAction)
        requires
            old(data).wf(),
        ensures
            after_editor(*old(self), *old(data), outcome, *final(self), *final(data), action),
            final(data).wf(),
    {
        self.pending_interaction = None;
        match (outcome.state, outcome.interaction) {
            (Some(draft), Some(interaction)) => {
                let (name, allow_redistribution, allow_modification, restrictions_note, allow_backup) =
                    draft.to_user_license_fields();
                match data.licenses.create(
                    self.owner_id,
                    name,
                    allow_redistribution,
                    allow_modification,
                    restrictions_note,
                    allow_backup,
                    self.now,
                ) {
                    Err(_) => {
                        self.editor_interaction = Some(interaction);
                        self.respond(interaction, None, Notice::SaveFailed)
                    },
                    Ok(license) => {
                        let ghost rows = data.settings@;
                        let first = data.settings.set_default_license(
                            self.owner_id,
                            Some(DefaultLicenseIdentifier::User(license.id)),
                            None,
                        );
                        let second = data.settings.set_auto_publish(self.owner_id, true);
                        proof {
                            assert(data.settings@ =~= rows.insert(self.owner_id, second));
                        }
                        let license_name = license.license_name.clone();
                        self.state = FlowState::handle_confirming_save(license);
                        self.phase = FlowPhase::AskingNewLicense;
                        self.editor_interaction = None;
                        FlowAction::AskPublishNewLicense { interaction, license_name }
                    },
                }
            },
            (Some(_), None) => self.finish_quietly(),
            (None, Some(interaction)) => {
                let offered = match &self.system_licenses {
                    Some(list) => copy_templates(list),
                    None => Vec::new(),
                };
                let licenses = copy_templates(&offered);
                self.state = FlowState::AwaitingLicenseReselection(offered);
                self.phase = FlowPhase::ShowingReselection;
                self.editor_interaction = None;
                FlowAction::ShowReselectionMenu { interaction, licenses }
            },
            (None, None) => self.finish_quietly(),
        }
    }

    /// The owner answered a question about publishing.
    fn handle_confirming_publish(
        &mut self,
        data: &BotDatabase,
        first_time: bool,
        interaction: u64,
        custom_id: &str,
    ) -> (action: FlowAction)
        ensures
            after_confirmation(
                *old(self),
                *data,
                first_time,
                interaction,
                custom_id@,
                *final(self),
                action,
            ),
    {
        let license = match &self.state {
            FlowState::ConfirmingPublish(license) => Some(license.duplicate()),
            _ => None,
        };
        let yes = if first_time {
            "confirm_publish_new_license"
        } else {
            "confirm_auto_publish"
        };
        let no = if first_time {
            "skip_publish_new_license"
        } else {
            "cancel_auto_publish"
        };
        match license {
            None => self.reject("没有待发布的协议"),
            Some(license) => {
                if str_eq(custom_id, yes) {
                    let then = if first_time {
                        AfterPublish::RespondPublishedNew { interaction }
                    } else {
                        AfterPublish::RespondPublished { interaction }
                    };
                    self.phase = FlowPhase::Announcing {
                        license: license.duplicate(),
                        backup_allowed: license.allow_backup,
                        then,
                    };
                    self.announce(data, license)
                } else if str_eq(custom_id, no) {
                    if first_time {
                        self.respond(interaction, None, Notice::SkippedNewLicense)
                    } else {
                        let delete = self.current_message;
                        self.current_message = None;
                        self.respond(interaction, delete, Notice::PublishCancelled)
                    }
                } else {
                    self.finish_quietly()
                }
            },
        }
    }

    /// Completes a publication: counts the use and tells the owner.
    fn publish_and_respond_success(
        &mut self,
        data: &mut BotDatabase,
        license: &UserLicense,
        then: AfterPublish,
    ) -> (action: FlowAction)
        requires
            old(data).wf(),
        ensures
            completes_publication(
                *old(self),
                *old(data),
                *license,
                then,
                *final(self),
                *final(data),
                action,
            ),
            final(data).wf(),
    {
        match LicensePublishService::increment_usage_count(data, license.id, self.owner_id) {
            Err(e) => self.fail(e),
            Ok(()) => match then {
                AfterPublish::Nothing => self.finish_quietly(),
                AfterPublish::RespondPublished { interaction } => {
                    let delete = self.current_message;
                    self.current_message = None;
                    self.respond(interaction, delete, Notice::Published)
                },
                AfterPublish::RespondPublishedNew { interaction } => self.respond(
                    interaction,
                    None,
                    Notice::PublishedNewLicense,
                ),
            },
        }
    }

    /// The announcement was sent: records it, and tells the backup service
    /// first if the permission changed.
    fn publish_license_directly(
        &mut self,
        data: &mut BotDatabase,
        license: UserLicense,
        backup_allowed: bool,
        then: AfterPublish,
        message: u64,
    ) -> (action: FlowAction)
        requires
            old(data).wf(),
        ensures
            after_announcement(
                *old(self),
                *old(data),
                license,
                backup_allowed,
                then,
                message,
                *final(self),
                *final(data),
                action,
            ),
            final(data).wf(),
    {
        let changed = LicensePublishService::update_database_records(
            data,
            self.thread_id,
            message,
            self.owner_id,
            backup_allowed,
            self.now,
        );
        if changed {
            let license_name = license.license_name.clone();
            self.phase = FlowPhase::Notifying { license, then };
            FlowAction::Notify { message, license_name, backup_allowed }
        } else {
            self.publish_and_respond_success(data, &license, then)
        }
    }

    /// Takes the driver's report on the last action and says what the
    /// driver does next.
    pub fn step(&mut self, data: &mut BotDatabase, catalog: &Vec<SystemLicense>, event: FlowEvent) -> (action:
        FlowAction)
        requires
            old(data).wf(),
        ensures
            step_ok(*old(self), *old(data), catalog@, event, *final(self), *final(data), action),
            final(data).wf(),
            old(self).wf() ==> final(self).wf(),
            final(self).owner_id == old(self).owner_id,
            final(self).thread_id == old(self).thread_id,
    {
        match &event {
            FlowEvent::Component { interaction, .. } => {
                self.wait_for_interaction(Some(*interaction));
            },
            FlowEvent::EditorFinished { outcome } => {
                if let Some(interaction) = outcome.interaction {
                    self.last_interaction = Some(interaction);
                }
            },
            _ => {},
        }
        assert(*self == heard(*old(self), event));
        let phase = self.phase.duplicate();
        let action = match (phase, event) {
            (FlowPhase::Notifying { license, then }, _) => self.publish_and_respond_success(
                data,
                &license,
                then,
            ),
            (FlowPhase::Reporting { error }, _) => self.cleanup(Err(error)),
            (FlowPhase::Finished, _) => self.refuse_after_the_end(),
            (_, FlowEvent::Failed { error }) => self.fail(error),
            (FlowPhase::Created, FlowEvent::Triggered { created_at, bot_started_at, now }) => self.handle_initial_state(
                data,
                catalog,
                created_at,
                bot_started_at,
                now,
            ),
            (FlowPhase::SendingGuidance, FlowEvent::MessageSent { message }) => {
                self.current_message = Some(message);
                self.await_owner(FlowPhase::AwaitingChoice, message, PROMPT_TIMEOUT_SECS)
            },
            (FlowPhase::AwaitingChoice, FlowEvent::Component { interaction, custom_id, selected }) => self.handle_awaiting_guidance(
                data,
                catalog,
                interaction,
                custom_id.as_str(),
            ),
            (FlowPhase::ShowingMenu, FlowEvent::MessageSent { message }) => self.await_owner(
                FlowPhase::AwaitingSelection,
                message,
                FOLLOWUP_TIMEOUT_SECS,
            ),
            (
                FlowPhase::AwaitingSelection,
                FlowEvent::Component { interaction, custom_id, selected },
            ) => match selected {
                Some(value) => self.handle_license_selection(data, interaction, value.as_str()),
                None => self.finish_quietly(),
            },
            (FlowPhase::Editing, FlowEvent::EditorFinished { outcome }) => self.handle_editing_license(
                data,
                outcome,
            ),
            (FlowPhase::ShowingReselection, FlowEvent::MessageSent { message }) => self.await_owner(
                FlowPhase::AwaitingReselection,
                message,
                FOLLOWUP_TIMEOUT_SECS,
            ),
            (
                FlowPhase::AwaitingReselection,
                FlowEvent::Component { interaction, custom_id, selected },
            ) => match selected {
                Some(value) => {
                    if str_eq(value.as_str(), "exit_setup") {
                        self.respond(interaction, None, Notice::Exited)
                    } else {
                        self.handle_license_selection(data, interaction, value.as_str())
                    }
                },
                None => self.finish_quietly(),
            },
            (FlowPhase::SendingConfirmation, FlowEvent::MessageSent { message }) => {
                self.current_message = Some(message);
                self.await_owner(
                    FlowPhase::AwaitingConfirmation,
                    message,
                    PROMPT_TIMEOUT_SECS,
                )
            },
            (
                FlowPhase::AwaitingConfirmation,
                FlowEvent::Component { interaction, custom_id, selected },
            ) => self.handle_confirming_publish(data, false, interaction, custom_id.as_str()),
            (FlowPhase::AwaitingConfirmation, FlowEvent::TimedOut) => {
                self.current_message = None;
                self.time_out()
            },
            (FlowPhase::AskingNewLicense, FlowEvent::MessageSent { message }) => self.await_owner(
                FlowPhase::AwaitingNewConfirmation,
                message,
                FOLLOWUP_TIMEOUT_SECS,
            ),
            (
                FlowPhase::AwaitingNewConfirmation,
                FlowEvent::Component { interaction, custom_id, selected },
            ) => self.handle_confirming_publish(data, true, interaction, custom_id.as_str()),
            (
                FlowPhase::Announcing { license, backup_allowed, then },
                FlowEvent::Announced { message },
            ) => self.publish_license_directly(data, license, backup_allowed, then, message),
            (FlowPhase::Closing, FlowEvent::Completed) => self.finish_quietly(),
            (FlowPhase::AwaitingChoice, FlowEvent::TimedOut) => self.time_out(),
            (FlowPhase::AwaitingSelection, FlowEvent::TimedOut) => self.time_out(),
            (FlowPhase::AwaitingReselection, FlowEvent::TimedOut) => self.time_out(),
            (FlowPhase::AwaitingNewConfirmation, FlowEvent::TimedOut) => self.time_out(),
            _ => self.reject("意外的事件"),
        };
        proof {
            if old(self).wf() {
                lemma_step_keeps_agreement(
                    *old(self),
                    *old(data),
                    catalog@,
                    event,
                    *self,
                    *data,
                    action,
                );
            }
        }
        action
    }
}

/// The phases in which the workflow waits for the owner, under a time
/// limit.
pub open spec fn awaits_owner(phase: FlowPhase) -> bool {
    phase is AwaitingChoice || phase is AwaitingSelection || phase is AwaitingReselection
        || phase is AwaitingConfirmation || phase is AwaitingNewConfirmation
}

/// A workflow that has not seen its trigger yet.
pub open spec fn is_fresh(flow: AutoPublishFlow) -> bool {
    flow.phase is Created && flow.state is Initial && flow.current_message is None
}

/// A fresh trigger by an owner without preferences always leads to the
/// guidance prompt, never to a silent end, and writes nothing.
pub proof fn lemma_new_user_is_guided(
    pre: AutoPublishFlow,
    data: BotDatabase,
    catalog: Seq<SystemLicense>,
    created_at: Option<i64>,
    bot_started_at: i64,
    now: i64,
    post: AutoPublishFlow,
    after: BotDatabase,
    action: FlowAction,
)
    requires
        is_fresh(pre),
        !is_stale(created_at, bot_started_at, now),
        !data.settings@.contains_key(pre.owner_id),
        step_ok(
            pre,
            data,
            catalog,
            FlowEvent::Triggered { created_at, bot_started_at, now },
            post,
            after,
            action,
        ),
    ensures
        post.state is AwaitingGuidance,
        action is SendGuidance,
        after == data,
{
}

/// A trigger by an owner who switched the feature off ends the workflow at
/// once: no message is sent or deleted, and the store is as it was.
pub proof fn lemma_disabled_user_is_left_alone(
    pre: AutoPublishFlow,
    data: BotDatabase,
    catalog: Seq<SystemLicense>,
    created_at: Option<i64>,
    bot_started_at: i64,
    now: i64,
    post: AutoPublishFlow,
    after: BotDatabase,
    action: FlowAction,
)
    requires
        is_fresh(pre),
        data.settings@.contains_key(pre.owner_id),
        !data.settings@[pre.owner_id].auto_publish_enabled,
        step_ok(
            pre,
            data,
            catalog,
            FlowEvent::Triggered { created_at, bot_started_at, now },
            post,
            after,
            action,
        ),
    ensures
        post.state is Done,
        after == data,
        action matches FlowAction::Finish { delete, result } && delete is None && result is Ok,
{
}

/// A fresh trigger by an owner who publishes without confirmation starts
/// exactly the publication of their default license: the one action is the
/// announcement of that license, and nothing is asked.
pub proof fn lemma_skipping_user_publishes_at_once(
    pre: AutoPublishFlow,
    data: BotDatabase,
    catalog: Seq<SystemLicense>,
    created_at: Option<i64>,
    bot_started_at: i64,
    now: i64,
    license: UserLicense,
    post: AutoPublishFlow,
    after: BotDatabase,
    action: FlowAction,
)
    requires
        is_fresh(pre),
        !is_stale(created_at, bot_started_at, now),
        data.settings@.contains_key(pre.owner_id),
        data.settings@[pre.owner_id].auto_publish_enabled,
        data.settings@[pre.owner_id].skip_auto_publish_confirmation,
        resolved_license(
            data.licenses.owned(pre.owner_id),
            catalog,
            pre.owner_id,
            data.settings@[pre.owner_id],
            now,
        ) == Some(license),
        step_ok(
            pre,
            data,
            catalog,
            FlowEvent::Triggered { created_at, bot_started_at, now },
            post,
            after,
            action,
        ),
    ensures
        after == data,
        announces(data, pre.thread_id, license, action),
        post.phase == (FlowPhase::Announcing {
            license,
            backup_allowed: license.allow_backup,
            then: AfterPublish::Nothing,
        }),
{
}

/// Once the announcement of a silent publication is sent, no second one is
/// asked for: the workflow tells the backup service, or ends, or tells the
/// owner that the usage counter is full; and after the backup service was
/// told, whatever came of that, it does one of the latter two. When it
/// ends, one use of the license has been counted, and no more than one.
pub proof fn lemma_silent_publication_announces_once(
    pre: AutoPublishFlow,
    data: BotDatabase,
    catalog: Seq<SystemLicense>,
    event: FlowEvent,
    post: AutoPublishFlow,
    after: BotDatabase,
    action: FlowAction,
)
    requires
        step_ok(pre, data, catalog, event, post, after, action),
        (pre.phase matches FlowPhase::Announcing { then, .. } && then == AfterPublish::Nothing
            && event is Announced) || (pre.phase matches FlowPhase::Notifying { then, .. } && then
            == AfterPublish::Nothing),
    ensures
        action is Notify || action is Finish || action is ReportFailure,
        action is Notify ==> pre.phase is Announcing && post.phase is Notifying
            && after.licenses == data.licenses,
        action is ReportFailure ==> post.phase is Reporting && after.licenses.owned(pre.owner_id)
            == data.licenses.owned(pre.owner_id),
        action is Finish ==> post.state is Done && (pre.phase matches FlowPhase::Announcing {
            license,
            ..
        } ==> usage_counted(
            BotDatabase { posts: after.posts, ..data },
            after,
            pre.owner_id,
            license.id,
        )) && (pre.phase matches FlowPhase::Notifying { license, .. } ==> usage_counted(
            data,
            after,
            pre.owner_id,
            license.id,
        )),
{
}

/// The backup service is told of a publication exactly if the backup
/// permission of the thread changed with it.
pub proof fn lemma_notification_iff_permission_changed(
    pre: AutoPublishFlow,
    data: BotDatabase,
    catalog: Seq<SystemLicense>,
    message: u64,
    post: AutoPublishFlow,
    after: BotDatabase,
    action: FlowAction,
)
    requires
        pre.phase is Announcing,
        step_ok(pre, data, catalog, FlowEvent::Announced { message }, post, after, action),
    ensures
        pre.phase matches FlowPhase::Announcing { backup_allowed, .. } && (action is Notify)
            == backup_permission_changed(post_of(data.posts@, pre.thread_id), backup_allowed),
{
}

/// A wait that runs out ends the workflow without an error and writes
/// nothing. The message that is flagged for deletion is handed over for
/// deletion; the question about publishing the default license is the one
/// message that stays.
pub proof fn lemma_timeout_ends_quietly(
    pre: AutoPublishFlow,
    data: BotDatabase,
    catalog: Seq<SystemLicense>,
    post: AutoPublishFlow,
    after: BotDatabase,
    action: FlowAction,
)
    requires
        awaits_owner(pre.phase),
        step_ok(pre, data, catalog, FlowEvent::TimedOut, post, after, action),
    ensures
        post.state is Done,
        post.phase is Finished,
        post.current_message is None,
        after == data,
        action matches FlowAction::Finish { delete, result } && result is Ok && delete == (
        if pre.phase is AwaitingConfirmation {
            None
        } else {
            pre.current_message
        }),
{
}

/// A failure that the driver reports is told to the owner, in answer to
/// their last event if there is one: the one action is the notice, the
/// store and the rest of the session stay as they are, and no later state
/// is entered. Only the phase that waits for the backup service passes a
/// failure over.
pub proof fn lemma_failure_is_told_to_the_owner(
    pre: AutoPublishFlow,
    data: BotDatabase,
    catalog: Seq<SystemLicense>,
    error: BotError,
    post: AutoPublishFlow,
    after: BotDatabase,
    action: FlowAction,
)
    requires
        !(pre.phase is Notifying),
        !(pre.phase is Reporting),
        !(pre.phase is Finished),
        step_ok(pre, data, catalog, FlowEvent::Failed { error }, post, after, action),
    ensures
        after == data,
        post == (AutoPublishFlow { phase: FlowPhase::Reporting { error }, ..pre }),
        action matches FlowAction::ReportFailure { interaction, text } && interaction
            == pre.last_interaction && text@ == failure_notice(error),
{
}

/// Once the owner was told of a failure, the workflow ends with that very
/// failure, whatever came of the telling, and hands the flagged message
/// over for deletion. Nothing is tried again.
pub proof fn lemma_told_failure_ends_the_workflow(
    pre: AutoPublishFlow,
    data: BotDatabase,
    catalog: Seq<SystemLicense>,
    error: BotError,
    event: FlowEvent,
    post: AutoPublishFlow,
    after: BotDatabase,
    action: FlowAction,
)
    requires
        pre.phase == (FlowPhase::Reporting { error }),
        step_ok(pre, data, catalog, event, post, after, action),
    ensures
        post.state is Done,
        post.phase is Finished,
        after == data,
        action matches FlowAction::Finish { delete, result } && delete == pre.current_message
            && result == Err::<(), BotError>(error),
{
}

/// A sixth license is never created by the workflow: when the owner who
/// saves a draft already owns the allowed number, the store keeps every
/// list as it was and the owner is told that saving failed.
pub proof fn lemma_workflow_respects_license_cap(
    pre: AutoPublishFlow,
    data: BotDatabase,
    catalog: Seq<SystemLicense>,
    draft: LicenseEditState,
    interaction: u64,
    post: AutoPublishFlow,
    after: BotDatabase,
    action: FlowAction,
)
    requires
        pre.phase is Editing,
        data.licenses.owned(pre.owner_id).len() >= MAX_LICENSES_PER_USER,
        step_ok(
            pre,
            data,
            catalog,
            FlowEvent::EditorFinished {
                outcome: LicenseEditorOutcome { state: Some(draft), interaction: Some(interaction) },
            },
            post,
            after,
            action,
        ),
    ensures
        after.licenses.owned(pre.owner_id) == data.licenses.owned(pre.owner_id),
        after.settings == data.settings,
        action matches FlowAction::Respond { notice, .. } && notice == Notice::SaveFailed,
{
}

impl AutoPublishFlow {
    /// State and phase agree: the workflow waits for what its state says,
    /// and it is done exactly when it waits for nothing more.
    pub open spec fn wf(self) -> bool {
        match self.phase {
            FlowPhase::Created => self.state is Initial,
            FlowPhase::SendingGuidance | FlowPhase::AwaitingChoice | FlowPhase::ShowingMenu
            | FlowPhase::AwaitingSelection => self.state is AwaitingGuidance,
            FlowPhase::Editing => self.state is EditingLicense && self.pending_interaction
                is Some,
            FlowPhase::ShowingReselection | FlowPhase::AwaitingReselection => self.state
                is AwaitingLicenseReselection,
            FlowPhase::SendingConfirmation | FlowPhase::AwaitingConfirmation
            | FlowPhase::AskingNewLicense | FlowPhase::AwaitingNewConfirmation => self.state
                is ConfirmingPublish,
            FlowPhase::Announcing { license, then, .. } => if then is Nothing {
                self.state is Initial
            } else {
                self.state == FlowState::ConfirmingPublish(license)
            },
            FlowPhase::Notifying { license, then } => if then is Nothing {
                self.state is Initial
            } else {
                self.state == FlowState::ConfirmingPublish(license)
            },
            FlowPhase::Closing => !(self.state is Done),
            FlowPhase::Reporting { .. } => !(self.state is Done),
            FlowPhase::Finished => self.state is Done,
        }
    }
}

/// Every step keeps state and phase in agreement.
pub proof fn lemma_step_keeps_agreement(
    pre: AutoPublishFlow,
    data: BotDatabase,
    catalog: Seq<SystemLicense>,
    event: FlowEvent,
    post: AutoPublishFlow,
    after: BotDatabase,
    action: FlowAction,
)
    requires
        pre.wf(),
        step_ok(pre, data, catalog, event, post, after, action),
    ensures
        post.wf(),
        (action is Finish) == (post.state is Done),
{
}

/// While state and phase agree, the word for yes always starts the
/// publication of the license that the owner was asked about.
pub proof fn lemma_confirmation_starts_publication(
    pre: AutoPublishFlow,
    data: BotDatabase,
    catalog: Seq<SystemLicense>,
    interaction: u64,
    custom_id: String,
    selected: Option<String>,
    post: AutoPublishFlow,
    after: BotDatabase,
    action: FlowAction,
)
    requires
        pre.wf(),
        (pre.phase is AwaitingConfirmation && custom_id@ == "confirm_auto_publish"@) || (pre.phase
            is AwaitingNewConfirmation && custom_id@ == "confirm_publish_new_license"@),
        step_ok(
            pre,
            data,
            catalog,
            FlowEvent::Component { interaction, custom_id, selected },
            post,
            after,
            action,
        ),
    ensures
        after == data,
        pre.state matches FlowState::ConfirmingPublish(license) && announces(
            data,
            pre.thread_id,
            license,
            action,
        ),
{
}

} // verus!
