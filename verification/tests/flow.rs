use dc_bot::database::BotDatabase;
use dc_bot::error::BotError;
use dc_bot::handlers::auto_publish_flow::{
    AfterPublish, AutoPublishFlow, FlowAction, FlowEvent, FlowPhase, FlowState, Notice,
};
use dc_bot::types::license::{DefaultLicenseIdentifier, SystemLicense, UserLicense};
use dc_bot::utils::license_editor::LicenseEditorOutcome;
use dc_bot::utils::LicenseEditState;

const OWNER: u64 = 42;
const THREAD: u64 = 900;
const NOW: i64 = 1_700_000_100;

fn catalog() -> Vec<SystemLicense> {
    vec![
        SystemLicense {
            license_name: "MIT".to_string(),
            allow_redistribution: true,
            allow_modification: true,
            restrictions_note: None,
            allow_backup: false,
        },
        SystemLicense {
            license_name: "CC-BY".to_string(),
            allow_redistribution: true,
            allow_modification: false,
            restrictions_note: Some("署名".to_string()),
            allow_backup: true,
        },
    ]
}

fn trigger() -> FlowEvent {
    FlowEvent::Triggered { created_at: Some(NOW - 10), bot_started_at: NOW - 1000, now: NOW }
}

fn component(interaction: u64, custom_id: &str) -> FlowEvent {
    FlowEvent::Component { interaction, custom_id: custom_id.to_string(), selected: None }
}

fn select(interaction: u64, value: &str) -> FlowEvent {
    FlowEvent::Component {
        interaction,
        custom_id: "license_selection".to_string(),
        selected: Some(value.to_string()),
    }
}

fn assert_finished(action: &FlowAction, delete: Option<u64>) {
    match action {
        FlowAction::Finish { delete: d, result } => {
            assert_eq!(*d, delete);
            assert_eq!(*result, Ok(()));
        }
        other => panic!("unexpected action {:?}", other),
    }
}

fn saved_license(db: &mut BotDatabase) -> UserLicense {
    let license = db.license().create(OWNER, "X".to_string(), true, false, None, true, NOW).unwrap();
    db.user_settings().set_default_license(OWNER, Some(DefaultLicenseIdentifier::User(license.id)), None);
    db.user_settings().set_auto_publish(OWNER, true);
    license
}

#[test]
fn a_new_user_is_guided() {
    let mut db = BotDatabase::new_memory();
    let mut flow = AutoPublishFlow::new(OWNER, THREAD);
    let action = flow.step(&mut db, &catalog(), trigger());
    assert!(matches!(action, FlowAction::SendGuidance));
    assert!(matches!(flow.state, FlowState::AwaitingGuidance));
    assert_eq!(flow.phase, FlowPhase::SendingGuidance);
    assert!(db.user_settings().get(OWNER).is_none());
    let action = flow.step(&mut db, &catalog(), FlowEvent::MessageSent { message: 5 });
    assert!(matches!(action, FlowAction::AwaitComponent { message: 5, timeout_secs: 180 }));
    assert_eq!(flow.current_message, Some(5));
}

#[test]
fn a_stale_thread_starts_nothing() {
    let mut db = BotDatabase::new_memory();
    let mut flow = AutoPublishFlow::new(OWNER, THREAD);
    let action = flow.step(
        &mut db,
        &catalog(),
        FlowEvent::Triggered { created_at: Some(NOW - 301), bot_started_at: NOW - 1000, now: NOW },
    );
    assert_finished(&action, None);
    assert!(flow.is_done());
    let mut flow = AutoPublishFlow::new(OWNER, THREAD);
    let action = flow.step(
        &mut db,
        &catalog(),
        FlowEvent::Triggered { created_at: Some(NOW - 300), bot_started_at: NOW - 299, now: NOW },
    );
    assert_finished(&action, None);
    let mut flow = AutoPublishFlow::new(OWNER, THREAD);
    let action = flow.step(
        &mut db,
        &catalog(),
        FlowEvent::Triggered { created_at: Some(NOW - 300), bot_started_at: NOW - 300, now: NOW },
    );
    assert!(matches!(action, FlowAction::SendGuidance));
    let mut flow = AutoPublishFlow::new(OWNER, THREAD);
    let action = flow.step(
        &mut db,
        &catalog(),
        FlowEvent::Triggered { created_at: None, bot_started_at: NOW, now: NOW },
    );
    assert!(matches!(action, FlowAction::SendGuidance));
}

#[test]
fn a_user_who_switched_off_sees_nothing() {
    let mut db = BotDatabase::new_memory();
    db.user_settings().set_auto_publish(OWNER, false);
    let before = db.user_settings().get(OWNER);
    let mut flow = AutoPublishFlow::new(OWNER, THREAD);
    let action = flow.step(&mut db, &catalog(), trigger());
    assert_finished(&action, None);
    assert!(flow.is_done());
    assert_eq!(db.user_settings().get(OWNER), before);
    assert_eq!(db.published_posts().get_total_count(), 0);
}

#[test]
fn an_unresolvable_default_ends_silently() {
    let mut db = BotDatabase::new_memory();
    db.user_settings().set_auto_publish(OWNER, true);
    let mut flow = AutoPublishFlow::new(OWNER, THREAD);
    assert_finished(&flow.step(&mut db, &catalog(), trigger()), None);
    db.user_settings().set_default_license(OWNER, Some(DefaultLicenseIdentifier::User(77)), None);
    let mut flow = AutoPublishFlow::new(OWNER, THREAD);
    assert_finished(&flow.step(&mut db, &catalog(), trigger()), None);
    db.user_settings().set_default_license(
        OWNER,
        Some(DefaultLicenseIdentifier::System("GPL".to_string())),
        None,
    );
    let mut flow = AutoPublishFlow::new(OWNER, THREAD);
    assert_finished(&flow.step(&mut db, &catalog(), trigger()), None);
}

#[test]
fn skipping_the_confirmation_publishes_once() {
    let mut db = BotDatabase::new_memory();
    let license = saved_license(&mut db);
    assert!(db.user_settings().toggle_skip_confirmation(OWNER).skip_auto_publish_confirmation);
    let mut flow = AutoPublishFlow::new(OWNER, THREAD);
    let action = flow.step(&mut db, &catalog(), trigger());
    match action {
        FlowAction::Announce { supersede, license: announced, backup_allowed } => {
            assert_eq!(supersede, None);
            assert_eq!(announced, license);
            assert!(backup_allowed);
        }
        other => panic!("unexpected action {:?}", other),
    }
    assert_eq!(db.license().get_license(license.id, OWNER).unwrap().usage_count, 0);
    let action = flow.step(&mut db, &catalog(), FlowEvent::Announced { message: 12 });
    assert!(matches!(action, FlowAction::Notify { message: 12, backup_allowed: true, .. }));
    let action = flow.step(&mut db, &catalog(), FlowEvent::Completed);
    assert_finished(&action, None);
    assert!(flow.is_done());
    assert_eq!(db.license().get_license(license.id, OWNER).unwrap().usage_count, 1);
    assert_eq!(db.published_posts().get_total_count(), 1);
    assert_eq!(db.published_posts().get_by_thread(THREAD).unwrap().message_id, 12);

    // the same flag again: nobody is told, and one more use is counted
    let mut flow = AutoPublishFlow::new(OWNER, THREAD);
    let action = flow.step(&mut db, &catalog(), trigger());
    assert!(matches!(action, FlowAction::Announce { supersede: Some(12), .. }));
    let action = flow.step(&mut db, &catalog(), FlowEvent::Announced { message: 13 });
    assert_finished(&action, None);
    assert_eq!(db.license().get_license(license.id, OWNER).unwrap().usage_count, 2);
    assert!(!db.user_settings().toggle_skip_confirmation(OWNER).skip_auto_publish_confirmation);
}

#[test]
fn confirming_publishes_the_default_license() {
    let mut db = BotDatabase::new_memory();
    let license = saved_license(&mut db);
    let mut flow = AutoPublishFlow::new(OWNER, THREAD);
    let action = flow.step(&mut db, &catalog(), trigger());
    match action {
        FlowAction::SendConfirmation { license: shown } => assert_eq!(shown, license),
        other => panic!("unexpected action {:?}", other),
    }
    assert!(matches!(flow.state, FlowState::ConfirmingPublish(_)));
    let action = flow.step(&mut db, &catalog(), FlowEvent::MessageSent { message: 11 });
    assert!(matches!(action, FlowAction::AwaitComponent { message: 11, timeout_secs: 180 }));
    let action = flow.step(&mut db, &catalog(), component(21, "confirm_auto_publish"));
    match action {
        FlowAction::Announce { supersede, license: announced, backup_allowed } => {
            assert_eq!(supersede, None);
            assert_eq!(announced, license);
            assert!(backup_allowed);
        }
        other => panic!("unexpected action {:?}", other),
    }
    // the first publication allows backups: the backup service is told
    let action = flow.step(&mut db, &catalog(), FlowEvent::Announced { message: 12 });
    match action {
        FlowAction::Notify { message, license_name, backup_allowed } => {
            assert_eq!(message, 12);
            assert_eq!(license_name, "X");
            assert!(backup_allowed);
        }
        other => panic!("unexpected action {:?}", other),
    }
    assert_eq!(db.license().get_license(license.id, OWNER).unwrap().usage_count, 0);
    // what came of the notification does not matter
    let action = flow.step(
        &mut db,
        &catalog(),
        FlowEvent::Failed { error: BotError::generic("HTTP 500") },
    );
    assert!(matches!(
        action,
        FlowAction::Respond { interaction: 21, delete: Some(11), notice: Notice::Published }
    ));
    assert_eq!(db.license().get_license(license.id, OWNER).unwrap().usage_count, 1);
    let post = db.published_posts().get_by_thread(THREAD).unwrap();
    assert_eq!(post.message_id, 12);
    assert_eq!(post.user_id, OWNER as i64);
    assert!(post.backup_allowed);
    let action = flow.step(&mut db, &catalog(), FlowEvent::Completed);
    assert_finished(&action, None);
    assert!(flow.is_done());

    // a second thread's publication into the same thread with the same flag tells nobody
    let mut flow = AutoPublishFlow::new(OWNER, THREAD);
    flow.step(&mut db, &catalog(), trigger());
    flow.step(&mut db, &catalog(), FlowEvent::MessageSent { message: 13 });
    let action = flow.step(&mut db, &catalog(), component(22, "confirm_auto_publish"));
    assert!(matches!(action, FlowAction::Announce { supersede: Some(12), .. }));
    let action = flow.step(&mut db, &catalog(), FlowEvent::Announced { message: 14 });
    assert!(matches!(
        action,
        FlowAction::Respond { interaction: 22, delete: Some(13), notice: Notice::Published }
    ));
    assert_eq!(db.license().get_license(license.id, OWNER).unwrap().usage_count, 2);
    assert_eq!(db.published_posts().get_by_thread(THREAD).unwrap().message_id, 14);
}

#[test]
fn declining_and_timing_out_publish_nothing() {
    let mut db = BotDatabase::new_memory();
    let license = saved_license(&mut db);
    let mut flow = AutoPublishFlow::new(OWNER, THREAD);
    flow.step(&mut db, &catalog(), trigger());
    flow.step(&mut db, &catalog(), FlowEvent::MessageSent { message: 11 });
    let action = flow.step(&mut db, &catalog(), component(21, "cancel_auto_publish"));
    assert!(matches!(
        action,
        FlowAction::Respond { interaction: 21, delete: Some(11), notice: Notice::PublishCancelled }
    ));
    assert_finished(&flow.step(&mut db, &catalog(), FlowEvent::Completed), None);

    // the question stays visible when nobody answers
    let mut flow = AutoPublishFlow::new(OWNER, THREAD);
    flow.step(&mut db, &catalog(), trigger());
    flow.step(&mut db, &catalog(), FlowEvent::MessageSent { message: 11 });
    assert_finished(&flow.step(&mut db, &catalog(), FlowEvent::TimedOut), None);
    assert!(flow.is_done());

    // an unknown control ends the workflow and removes the question
    let mut flow = AutoPublishFlow::new(OWNER, THREAD);
    flow.step(&mut db, &catalog(), trigger());
    flow.step(&mut db, &catalog(), FlowEvent::MessageSent { message: 11 });
    assert_finished(&flow.step(&mut db, &catalog(), component(1, "other")), Some(11));
    assert_eq!(db.license().get_license(license.id, OWNER).unwrap().usage_count, 0);
    assert_eq!(db.published_posts().get_total_count(), 0);
}

#[test]
fn a_template_is_published_under_the_owners_override() {
    let mut db = BotDatabase::new_memory();
    db.user_settings().set_default_license(
        OWNER,
        Some(DefaultLicenseIdentifier::System("MIT".to_string())),
        Some(true),
    );
    db.user_settings().set_auto_publish(OWNER, true);
    let mut flow = AutoPublishFlow::new(OWNER, THREAD);
    let action = flow.step(&mut db, &catalog(), trigger());
    match action {
        FlowAction::SendConfirmation { license } => {
            assert_eq!(license.id, -1);
            assert_eq!(license.user_id, OWNER as i64);
            assert_eq!(license.license_name, "MIT");
            assert!(license.allow_backup);
            assert_eq!(license.created_at, NOW);
        }
        other => panic!("unexpected action {:?}", other),
    }
    let settings = db.user_settings().get(OWNER).unwrap();
    let resolved = AutoPublishFlow::get_license_model(&db, &catalog(), OWNER, &settings, NOW).unwrap();
    assert!(resolved.allow_backup);
    db.user_settings().set_default_license(
        OWNER,
        Some(DefaultLicenseIdentifier::System("CC-BY".to_string())),
        None,
    );
    let settings = db.user_settings().get(OWNER).unwrap();
    let resolved = AutoPublishFlow::get_license_model(&db, &catalog(), OWNER, &settings, NOW).unwrap();
    assert!(resolved.allow_backup);
    assert_eq!(resolved.restrictions_note, Some("署名".to_string()));
    db.user_settings().set_default_license(
        OWNER,
        Some(DefaultLicenseIdentifier::System("CC-BY".to_string())),
        Some(false),
    );
    let settings = db.user_settings().get(OWNER).unwrap();
    let resolved = AutoPublishFlow::get_license_model(&db, &catalog(), OWNER, &settings, NOW).unwrap();
    assert!(!resolved.allow_backup);
}

#[test]
fn disabling_is_stored_and_acknowledged() {
    let mut db = BotDatabase::new_memory();
    let mut flow = AutoPublishFlow::new(OWNER, THREAD);
    flow.step(&mut db, &catalog(), trigger());
    flow.step(&mut db, &catalog(), FlowEvent::MessageSent { message: 5 });
    let action = flow.step(&mut db, &catalog(), component(1, "disable_auto_publish_setup"));
    assert!(matches!(
        action,
        FlowAction::Respond { interaction: 1, delete: None, notice: Notice::Disabled }
    ));
    assert_eq!(db.user_settings().get(OWNER).unwrap().auto_publish_enabled, false);
    assert_finished(&flow.step(&mut db, &catalog(), FlowEvent::Completed), Some(5));
}

#[test]
fn the_first_prompt_times_out_quietly() {
    let mut db = BotDatabase::new_memory();
    let mut flow = AutoPublishFlow::new(OWNER, THREAD);
    flow.step(&mut db, &catalog(), trigger());
    flow.step(&mut db, &catalog(), FlowEvent::MessageSent { message: 5 });
    assert_finished(&flow.step(&mut db, &catalog(), FlowEvent::TimedOut), Some(5));
    assert!(flow.is_done());
    assert_eq!(flow.current_message, None);
    assert!(db.user_settings().get(OWNER).is_none());
}

fn enable(db: &mut BotDatabase, flow: &mut AutoPublishFlow) {
    flow.step(db, &catalog(), trigger());
    flow.step(db, &catalog(), FlowEvent::MessageSent { message: 5 });
    let action = flow.step(db, &catalog(), component(1, "enable_auto_publish_setup"));
    match action {
        FlowAction::ShowLicenseMenu { interaction, delete, licenses } => {
            assert_eq!(interaction, 1);
            assert_eq!(delete, Some(5));
            assert_eq!(licenses.len(), 2);
            assert_eq!(licenses[1].license_name, "CC-BY");
        }
        other => panic!("unexpected action {:?}", other),
    }
    assert!(db.user_settings().get(OWNER).unwrap().auto_publish_enabled);
    assert_eq!(flow.current_message, None);
    let action = flow.step(db, &catalog(), FlowEvent::MessageSent { message: 6 });
    assert!(matches!(action, FlowAction::AwaitComponent { message: 6, timeout_secs: 120 }));
}

#[test]
fn first_time_setup_saves_and_publishes() {
    let mut db = BotDatabase::new_memory();
    let mut flow = AutoPublishFlow::new(OWNER, THREAD);
    enable(&mut db, &mut flow);
    let action = flow.step(&mut db, &catalog(), select(2, "new_license"));
    match action {
        FlowAction::RunEditor { interaction, draft } => {
            assert_eq!(interaction, 2);
            assert_eq!(draft, LicenseEditState::new("我的协议1".to_string()));
        }
        other => panic!("unexpected action {:?}", other),
    }
    assert_eq!(flow.pending_interaction, Some(2));
    let saved = LicenseEditState {
        license_name: "X".to_string(),
        allow_redistribution: true,
        allow_modification: false,
        restrictions_note: None,
        allow_backup: true,
    };
    let action = flow.step(
        &mut db,
        &catalog(),
        FlowEvent::EditorFinished {
            outcome: LicenseEditorOutcome { state: Some(saved), interaction: Some(3) },
        },
    );
    match action {
        FlowAction::AskPublishNewLicense { interaction, license_name } => {
            assert_eq!(interaction, 3);
            assert_eq!(license_name, "X");
        }
        other => panic!("unexpected action {:?}", other),
    }
    let stored = db.license().get_user_licenses(OWNER);
    assert_eq!(stored.len(), 1);
    assert_eq!(stored[0].license_name, "X");
    assert!(stored[0].allow_redistribution);
    assert!(!stored[0].allow_modification);
    assert!(stored[0].allow_backup);
    assert_eq!(stored[0].restrictions_note, None);
    let settings = db.user_settings().get(OWNER).unwrap();
    assert_eq!(settings.default_user_license_id, Some(stored[0].id));
    assert_eq!(settings.default_system_license_name, None);
    assert!(settings.auto_publish_enabled);
    assert!(matches!(flow.state, FlowState::ConfirmingPublish(_)));
    let action = flow.step(&mut db, &catalog(), FlowEvent::MessageSent { message: 7 });
    assert!(matches!(action, FlowAction::AwaitComponent { message: 7, timeout_secs: 120 }));
    let action = flow.step(&mut db, &catalog(), component(4, "confirm_publish_new_license"));
    assert!(matches!(action, FlowAction::Announce { supersede: None, backup_allowed: true, .. }));
    assert_eq!(
        flow.phase,
        FlowPhase::Announcing {
            license: stored[0].duplicate(),
            backup_allowed: true,
            then: AfterPublish::RespondPublishedNew { interaction: 4 }
        }
    );
    let action = flow.step(&mut db, &catalog(), FlowEvent::Announced { message: 8 });
    assert!(matches!(action, FlowAction::Notify { message: 8, backup_allowed: true, .. }));
    let action = flow.step(&mut db, &catalog(), FlowEvent::Completed);
    assert!(matches!(
        action,
        FlowAction::Respond { interaction: 4, delete: None, notice: Notice::PublishedNewLicense }
    ));
    assert_finished(&flow.step(&mut db, &catalog(), FlowEvent::Completed), None);
    assert_eq!(db.license().get_license(stored[0].id, OWNER).unwrap().usage_count, 1);
    assert_eq!(db.published_posts().get_total_count(), 1);
}

#[test]
fn a_template_can_be_chosen_and_the_editor_cancelled() {
    let mut db = BotDatabase::new_memory();
    let mut flow = AutoPublishFlow::new(OWNER, THREAD);
    enable(&mut db, &mut flow);
    let action = flow.step(&mut db, &catalog(), select(2, "system_CC-BY"));
    match action {
        FlowAction::RunEditor { interaction, draft } => {
            assert_eq!(interaction, 2);
            assert_eq!(draft.license_name, "CC-BY");
            assert_eq!(draft.restrictions_note, Some("署名".to_string()));
            assert!(draft.allow_backup);
        }
        other => panic!("unexpected action {:?}", other),
    }
    let action = flow.step(
        &mut db,
        &catalog(),
        FlowEvent::EditorFinished { outcome: LicenseEditorOutcome { state: None, interaction: Some(3) } },
    );
    match action {
        FlowAction::ShowReselectionMenu { interaction, licenses } => {
            assert_eq!(interaction, 3);
            assert_eq!(licenses.len(), 2);
        }
        other => panic!("unexpected action {:?}", other),
    }
    assert!(matches!(flow.state, FlowState::AwaitingLicenseReselection(_)));
    let action = flow.step(&mut db, &catalog(), FlowEvent::MessageSent { message: 9 });
    assert!(matches!(action, FlowAction::AwaitComponent { message: 9, timeout_secs: 120 }));
    let action = flow.step(&mut db, &catalog(), select(4, "exit_setup"));
    assert!(matches!(
        action,
        FlowAction::Respond { interaction: 4, delete: None, notice: Notice::Exited }
    ));
    assert_finished(&flow.step(&mut db, &catalog(), FlowEvent::Completed), None);
    assert_eq!(db.license().get_user_license_count(OWNER), 0);
}

#[test]
fn reselection_leads_back_to_the_editor() {
    let mut db = BotDatabase::new_memory();
    db.license().create(OWNER, "old".to_string(), false, false, None, false, NOW).unwrap();
    let mut flow = AutoPublishFlow::new(OWNER, THREAD);
    // preferences are missing, so the owner is guided although a license exists
    enable(&mut db, &mut flow);
    flow.step(&mut db, &catalog(), select(2, "system_MIT"));
    flow.step(
        &mut db,
        &catalog(),
        FlowEvent::EditorFinished { outcome: LicenseEditorOutcome { state: None, interaction: Some(3) } },
    );
    flow.step(&mut db, &catalog(), FlowEvent::MessageSent { message: 9 });
    let action = flow.step(&mut db, &catalog(), select(4, "new_license"));
    match action {
        FlowAction::RunEditor { interaction, draft } => {
            assert_eq!(interaction, 4);
            assert_eq!(draft.license_name, "我的协议2");
        }
        other => panic!("unexpected action {:?}", other),
    }
    // the editor ends without an event
    let action = flow.step(
        &mut db,
        &catalog(),
        FlowEvent::EditorFinished { outcome: LicenseEditorOutcome { state: None, interaction: None } },
    );
    assert_finished(&action, None);
}

fn assert_reported(action: &FlowAction, interaction: Option<u64>, text: &str) {
    match action {
        FlowAction::ReportFailure { interaction: i, text: t } => {
            assert_eq!(*i, interaction);
            assert_eq!(t, text);
        }
        other => panic!("unexpected action {:?}", other),
    }
}

fn assert_failed(action: &FlowAction, delete: Option<u64>, error: &BotError) {
    match action {
        FlowAction::Finish { delete: d, result } => {
            assert_eq!(*d, delete);
            assert_eq!(*result, Err(error.clone()));
        }
        other => panic!("unexpected action {:?}", other),
    }
}

#[test]
fn bad_selections_end_with_an_error() {
    let mut db = BotDatabase::new_memory();
    let mut flow = AutoPublishFlow::new(OWNER, THREAD);
    enable(&mut db, &mut flow);
    let action = flow.step(&mut db, &catalog(), select(2, "system_GPL"));
    assert_reported(&action, Some(2), "❌ 选择的系统协议不存在");
    assert!(!flow.is_done());
    let action = flow.step(&mut db, &catalog(), FlowEvent::Completed);
    assert_failed(
        &action,
        None,
        &BotError::GenericError { message: "选择的系统协议不存在".to_string() },
    );
    assert!(flow.is_done());
    let mut db = BotDatabase::new_memory();
    let mut flow = AutoPublishFlow::new(OWNER, THREAD);
    enable(&mut db, &mut flow);
    let action = flow.step(&mut db, &catalog(), select(2, "whatever"));
    assert_reported(&action, Some(2), "❌ 无效的选择");
    // the notice itself may fail: the workflow ends with the first failure
    let action = flow.step(
        &mut db,
        &catalog(),
        FlowEvent::Failed { error: BotError::SerenityError { message: "gone".to_string() } },
    );
    assert_failed(&action, None, &BotError::GenericError { message: "无效的选择".to_string() });
    let mut db = BotDatabase::new_memory();
    let mut flow = AutoPublishFlow::new(OWNER, THREAD);
    enable(&mut db, &mut flow);
    assert_finished(&flow.step(&mut db, &catalog(), component(2, "license_selection")), None);
    let mut db = BotDatabase::new_memory();
    let mut flow = AutoPublishFlow::new(OWNER, THREAD);
    enable(&mut db, &mut flow);
    assert_finished(&flow.step(&mut db, &catalog(), FlowEvent::TimedOut), None);
}

#[test]
fn a_sixth_license_is_not_saved() {
    let mut db = BotDatabase::new_memory();
    for i in 0..5 {
        db.license().create(OWNER, format!("License {}", i), false, false, None, false, NOW).unwrap();
    }
    let mut flow = AutoPublishFlow::new(OWNER, THREAD);
    enable(&mut db, &mut flow);
    let action = flow.step(&mut db, &catalog(), select(2, "new_license"));
    match action {
        FlowAction::RunEditor { draft, .. } => assert_eq!(draft.license_name, "我的协议6"),
        other => panic!("unexpected action {:?}", other),
    }
    let action = flow.step(
        &mut db,
        &catalog(),
        FlowEvent::EditorFinished {
            outcome: LicenseEditorOutcome {
                state: Some(LicenseEditState::new("License 6".to_string())),
                interaction: Some(3),
            },
        },
    );
    assert!(matches!(
        action,
        FlowAction::Respond { interaction: 3, delete: None, notice: Notice::SaveFailed }
    ));
    assert_eq!(db.license().get_user_license_count(OWNER), 5);
    assert_eq!(db.user_settings().get(OWNER).unwrap().default_user_license_id, None);
    assert_finished(&flow.step(&mut db, &catalog(), FlowEvent::Completed), None);
}

#[test]
fn failures_end_the_workflow_and_clean_up() {
    let mut db = BotDatabase::new_memory();
    let mut flow = AutoPublishFlow::new(OWNER, THREAD);
    flow.step(&mut db, &catalog(), trigger());
    flow.step(&mut db, &catalog(), FlowEvent::MessageSent { message: 5 });
    let error = BotError::SerenityError { message: "gone".to_string() };
    // no event of the owner is at hand yet: the notice goes into the thread
    let action = flow.step(&mut db, &catalog(), FlowEvent::Failed { error: error.clone() });
    assert_reported(&action, None, "❌ 发生未知错误，请稍后再试");
    assert!(!flow.is_done());
    assert_eq!(flow.phase, FlowPhase::Reporting { error: error.clone() });
    assert_eq!(flow.current_message, Some(5));
    let action = flow.step(&mut db, &catalog(), FlowEvent::Completed);
    assert_failed(&action, Some(5), &error);
    assert!(flow.is_done());
    assert!(db.user_settings().get(OWNER).is_none());

    // with an event of the owner at hand the notice answers it
    let mut db = BotDatabase::new_memory();
    saved_license(&mut db);
    let mut flow = AutoPublishFlow::new(OWNER, THREAD);
    flow.step(&mut db, &catalog(), trigger());
    flow.step(&mut db, &catalog(), FlowEvent::MessageSent { message: 11 });
    let action = flow.step(&mut db, &catalog(), component(21, "confirm_auto_publish"));
    assert!(matches!(action, FlowAction::Announce { .. }));
    assert_eq!(flow.last_interaction, Some(21));
    let error = BotError::DiscordError { message: "no permission".to_string() };
    let action = flow.step(&mut db, &catalog(), FlowEvent::Failed { error: error.clone() });
    assert_reported(&action, Some(21), "❌ Discord服务暂时不可用，请稍后再试");
    let action = flow.step(&mut db, &catalog(), FlowEvent::TimedOut);
    assert_failed(&action, Some(11), &error);
    assert_eq!(db.published_posts().get_total_count(), 0);

    // an event that nothing waits for
    let mut flow = AutoPublishFlow::new(OWNER, THREAD);
    let action = flow.step(&mut db, &catalog(), FlowEvent::Completed);
    assert_reported(&action, None, "❌ 意外的事件");
    let action = flow.step(&mut db, &catalog(), FlowEvent::Completed);
    assert_failed(&action, None, &BotError::GenericError { message: "意外的事件".to_string() });
    // a workflow that is over takes nothing more
    let action = flow.step(&mut db, &catalog(), trigger());
    assert_failed(&action, None, &BotError::GenericError { message: "意外的事件".to_string() });
}

#[test]
fn a_full_usage_counter_is_reported() {
    let mut db = BotDatabase::new_memory();
    let full = UserLicense {
        id: 9,
        user_id: OWNER as i64,
        license_name: "X".to_string(),
        allow_redistribution: true,
        allow_modification: false,
        restrictions_note: None,
        allow_backup: false,
        usage_count: i32::MAX,
        created_at: NOW,
    };
    db.license().restore(full.duplicate()).unwrap();
    db.user_settings().set_default_license(OWNER, Some(DefaultLicenseIdentifier::User(9)), None);
    db.user_settings().set_auto_publish(OWNER, true);
    db.user_settings().toggle_skip_confirmation(OWNER);
    let mut flow = AutoPublishFlow::new(OWNER, THREAD);
    let action = flow.step(&mut db, &catalog(), trigger());
    assert!(matches!(action, FlowAction::Announce { backup_allowed: false, .. }));
    let action = flow.step(&mut db, &catalog(), FlowEvent::Announced { message: 30 });
    assert_reported(&action, None, "❌ 数据库连接出现问题，请稍后再试");
    let action = flow.step(&mut db, &catalog(), FlowEvent::Completed);
    assert!(matches!(
        action,
        FlowAction::Finish { delete: None, result: Err(BotError::DatabaseError { .. }) }
    ));
    assert_eq!(db.license().get_license(9, OWNER).unwrap().usage_count, i32::MAX);
    assert_eq!(db.published_posts().get_by_thread(THREAD).unwrap().message_id, 30);
}

#[test]
fn skipping_the_publication_keeps_the_license() {
    let mut db = BotDatabase::new_memory();
    let mut flow = AutoPublishFlow::new(OWNER, THREAD);
    enable(&mut db, &mut flow);
    flow.step(&mut db, &catalog(), select(2, "new_license"));
    flow.step(
        &mut db,
        &catalog(),
        FlowEvent::EditorFinished {
            outcome: LicenseEditorOutcome {
                state: Some(LicenseEditState::new("N".to_string())),
                interaction: Some(3),
            },
        },
    );
    flow.step(&mut db, &catalog(), FlowEvent::MessageSent { message: 7 });
    let action = flow.step(&mut db, &catalog(), component(4, "skip_publish_new_license"));
    assert!(matches!(
        action,
        FlowAction::Respond { interaction: 4, delete: None, notice: Notice::SkippedNewLicense }
    ));
    assert_finished(&flow.step(&mut db, &catalog(), FlowEvent::Completed), None);
    assert_eq!(db.license().get_user_license_count(OWNER), 1);
    assert_eq!(db.published_posts().get_total_count(), 0);
    // the saved draft without an event to answer ends the workflow unsaved
    let mut db = BotDatabase::new_memory();
    let mut flow = AutoPublishFlow::new(OWNER, THREAD);
    enable(&mut db, &mut flow);
    flow.step(&mut db, &catalog(), select(2, "new_license"));
    let action = flow.step(
        &mut db,
        &catalog(),
        FlowEvent::EditorFinished {
            outcome: LicenseEditorOutcome {
                state: Some(LicenseEditState::new("N".to_string())),
                interaction: None,
            },
        },
    );
    assert_finished(&action, None);
    assert_eq!(db.license().get_user_license_count(OWNER), 0);
    assert!(matches!(
        FlowState::handle_confirming_save(saved_license(&mut db)),
        FlowState::ConfirmingPublish(_)
    ));
}

#[test]
fn the_parts_of_a_step_can_be_called_alone() {
    let db = BotDatabase::new_memory();
    let mut flow = AutoPublishFlow::new(OWNER, THREAD);
    let action = flow.handle_initial_state(&db, &catalog(), Some(NOW - 10), NOW - 1000, NOW);
    assert!(matches!(action, FlowAction::SendGuidance));
    assert!(matches!(flow.state, FlowState::AwaitingGuidance));
    assert_eq!(flow.now, NOW);

    // an answer is kept, a wait that ran out puts the workflow into its last state
    flow.current_message = Some(5);
    flow.pending_interaction = Some(3);
    assert_eq!(flow.wait_for_interaction(Some(8)), Some(8));
    assert_eq!(flow.last_interaction, Some(8));
    assert!(!flow.is_done());
    assert_eq!(flow.wait_for_interaction(None), None);
    assert!(flow.is_done());
    assert_eq!(flow.pending_interaction, Some(3));
    assert_eq!(flow.last_interaction, Some(8));
    assert_eq!(flow.current_message, Some(5));

    // the end hands the flagged message over once
    assert_finished(&flow.cleanup(Ok(())), Some(5));
    assert_eq!(flow.current_message, None);
    assert_eq!(flow.phase, FlowPhase::Finished);
    let error = BotError::generic("x");
    assert_failed(&flow.cleanup(Err(error.clone())), None, &error);
}
