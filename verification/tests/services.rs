use dc_bot::database::BotDatabase;
use dc_bot::error::BotError;
use dc_bot::services::license::{LicensePublishService, LicenseService};
use dc_bot::services::published_posts::PublishedPostsService;
use dc_bot::services::user_settings::UserSettingsService;
use dc_bot::types::license::{BackupOverride, DefaultLicenseIdentifier, SystemLicense};
use dc_bot::utils::LicenseEditState;

const NOW: i64 = 1_700_000_000;

#[test]
fn test_create_license() {
    let mut service = LicenseService::new();
    let license = service
        .create(123, "Test License".to_string(), true, false, Some("Test restrictions".to_string()), true, NOW)
        .unwrap();
    assert_eq!(license.license_name, "Test License");
    assert!(license.allow_redistribution);
    assert!(!license.allow_modification);
    assert_eq!(license.restrictions_note, Some("Test restrictions".to_string()));
    assert!(license.allow_backup);
    assert_eq!(license.usage_count, 0);
    assert_eq!(license.id, 1);
    assert_eq!(license.user_id, 123);
    assert_eq!(license.created_at, NOW);
}

#[test]
fn test_get_user_licenses() {
    let mut service = LicenseService::new();
    service.create(123, "License 1".to_string(), true, true, None, false, NOW).unwrap();
    service
        .create(123, "License 2".to_string(), false, false, Some("Restrictions".to_string()), true, NOW + 1)
        .unwrap();
    let licenses = service.get_user_licenses(123);
    assert_eq!(licenses.len(), 2);
    assert_eq!(licenses[0].license_name, "License 2");
    assert_eq!(licenses[1].license_name, "License 1");
    assert_eq!(service.get_user_licenses(124).len(), 0);
}

#[test]
fn test_update_license() {
    let mut service = LicenseService::new();
    let license = service.create(123, "Original".to_string(), true, false, None, false, NOW).unwrap();
    let updated = service.update(
        license.id,
        123,
        "Updated".to_string(),
        false,
        true,
        Some("New restrictions".to_string()),
        true,
    );
    assert!(updated.is_some());
    let updated = updated.unwrap();
    assert_eq!(updated.license_name, "Updated");
    assert!(!updated.allow_redistribution);
    assert!(updated.allow_modification);
    assert_eq!(updated.restrictions_note, Some("New restrictions".to_string()));
    assert!(updated.allow_backup);
    assert_eq!(service.get_license(license.id, 123), Some(updated));
    assert_eq!(service.update(license.id, 999, "x".to_string(), true, true, None, true), None);
    assert_eq!(service.update(77, 123, "x".to_string(), true, true, None, true), None);
}

#[test]
fn test_delete_license() {
    let mut service = LicenseService::new();
    let license = service.create(123, "Test".to_string(), true, false, None, false, NOW).unwrap();
    let deleted = service.delete(license.id, 123);
    assert!(deleted);
    let licenses = service.get_user_licenses(123);
    assert_eq!(licenses.len(), 0);
    assert!(!service.delete(license.id, 123));
}

#[test]
fn test_increment_usage() {
    let mut service = LicenseService::new();
    let license = service.create(123, "Test".to_string(), true, false, None, false, NOW).unwrap();
    service.increment_usage(license.id, 123).unwrap();
    service.increment_usage(license.id, 123).unwrap();
    let updated_license = service.get_license(license.id, 123).unwrap();
    assert_eq!(updated_license.usage_count, 2);
    assert_eq!(service.get_user_total_usage(123), 2);
    // a license of somebody else is passed over
    service.increment_usage(license.id, 124).unwrap();
    assert_eq!(service.get_license(license.id, 123).unwrap().usage_count, 2);
}

#[test]
fn test_license_name_exists() {
    let mut service = LicenseService::new();
    let license = service.create(123, "Existing".to_string(), true, false, None, false, NOW).unwrap();
    assert!(service.license_name_exists(123, "Existing", None));
    assert!(!service.license_name_exists(123, "Non-existing", None));
    assert!(!service.license_name_exists(123, "Existing", Some(license.id)));
    assert!(service.license_name_exists(123, "Existing", Some(license.id + 1)));
    assert!(!service.license_name_exists(124, "Existing", None));
}

#[test]
fn test_get_user_license_count() {
    let mut service = LicenseService::new();
    assert_eq!(service.get_user_license_count(123), 0);
    service.create(123, "License 1".to_string(), true, false, None, false, NOW).unwrap();
    assert_eq!(service.get_user_license_count(123), 1);
}

#[test]
fn test_save_license_and_set_default() {
    let mut db = BotDatabase::new_memory();
    let edit_state = LicenseEditState::new("Test License".to_string());
    let (name, allow_redistribution, allow_modification, restrictions_note, allow_backup) =
        edit_state.to_user_license_fields();
    let license = db
        .license()
        .create(123, name, allow_redistribution, allow_modification, restrictions_note, allow_backup, NOW)
        .unwrap();
    assert_eq!(license.license_name, "Test License");
    assert_eq!(license.user_id, 123);
    db.user_settings()
        .set_default_license(123, Some(DefaultLicenseIdentifier::User(license.id)), None);
    let settings = db.user_settings().get(123).unwrap();
    assert_eq!(settings.default_user_license_id, Some(license.id));
}

#[test]
fn test_save_license_exceeds_limit() {
    let mut db = BotDatabase::new_memory();
    for i in 0..5 {
        db.license().create(456, format!("License {}", i), false, false, None, false, NOW).unwrap();
    }
    let count = db.license().get_user_license_count(456);
    assert_eq!(count, 5);
    let result = db.license().create(456, "License 6".to_string(), false, false, None, false, NOW);
    assert!(result.is_err());
    if let Err(BotError::GenericError { message, .. }) = result {
        assert!(message.contains("最多只能创建5个协议"));
    } else {
        panic!("Expected GenericError with correct message");
    }
    assert_eq!(db.license().get_user_license_count(456), 5);
    // another user is not held back
    assert!(db.license().create(457, "License".to_string(), false, false, None, false, NOW).is_ok());
}

#[test]
fn licenses_get_ascending_ids_and_can_be_cleared() {
    let mut service = LicenseService::new();
    let a = service.create(1, "a".to_string(), false, false, None, false, NOW).unwrap();
    let b = service.create(2, "b".to_string(), false, false, None, false, NOW).unwrap();
    let c = service.create(1, "c".to_string(), false, false, None, false, NOW).unwrap();
    assert_eq!((a.id, b.id, c.id), (1, 2, 3));
    assert_eq!(service.get_license(b.id, 1), None);
    assert_eq!(service.get_license(b.id, 2), Some(b));
    assert_eq!(service.clear_user_licenses(1), 2);
    assert_eq!(service.get_user_license_count(1), 0);
    assert_eq!(service.get_user_license_count(2), 1);
    assert_eq!(service.get_user_total_usage(1), 0);
}

#[test]
fn test_record_post() {
    let mut service = PublishedPostsService::new();
    let post = service.record(123, 456, 789, true, NOW).unwrap();
    assert_eq!(post.thread_id, 123);
    assert_eq!(post.message_id, 456);
    assert_eq!(post.user_id, 789);
    assert!(post.backup_allowed);
    assert!(matches!(service.record(123, 457, 789, true, NOW), Err(BotError::DatabaseError { .. })));
    assert_eq!(service.get_by_thread(123), Some(post));
}

#[test]
fn test_get_by_thread() {
    let mut service = PublishedPostsService::new();
    assert!(service.get_by_thread(123).is_none());
    service.record(123, 456, 789, true, NOW).unwrap();
    let post = service.get_by_thread(123);
    assert!(post.is_some());
    let post = post.unwrap();
    assert_eq!(post.thread_id, 123);
}

#[test]
fn test_update_post() {
    let mut service = PublishedPostsService::new();
    service.record(123, 456, 789, true, NOW).unwrap();
    let updated = service.update(123, 999, false, NOW + 5);
    assert!(updated.is_some());
    let updated = updated.unwrap();
    assert_eq!(updated.message_id, 999);
    assert!(!updated.backup_allowed);
    assert_eq!(updated.user_id, 789);
    assert_eq!(updated.updated_at, NOW + 5);
    assert_eq!(service.update(124, 999, false, NOW), None);
}

#[test]
fn test_has_published_post() {
    let mut service = PublishedPostsService::new();
    assert!(!service.has_published_post(123));
    service.record(123, 456, 789, true, NOW).unwrap();
    assert!(service.has_published_post(123));
}

#[test]
fn test_update_backup_permission() {
    let mut service = PublishedPostsService::new();
    service.record(123, 456, 789, true, NOW).unwrap();
    let updated = service.update_backup_permission(123, false, NOW);
    assert!(updated.is_some());
    let updated = updated.unwrap();
    assert!(!updated.backup_allowed);
    assert_eq!(updated.message_id, 456);
    assert_eq!(service.update_backup_permission(5, false, NOW), None);
}

#[test]
fn test_has_backup_permission_changed() {
    let mut service = PublishedPostsService::new();
    assert!(service.has_backup_permission_changed(123, true));
    assert!(!service.has_backup_permission_changed(123, false));
    service.record(123, 456, 789, true, NOW).unwrap();
    assert!(!service.has_backup_permission_changed(123, true));
    assert!(service.has_backup_permission_changed(123, false));
}

#[test]
fn test_record_or_update() {
    let mut service = PublishedPostsService::new();
    let post1 = service.record_or_update(123, 456, 789, true, NOW);
    assert_eq!(post1.message_id, 456);
    let post2 = service.record_or_update(123, 999, 789, false, NOW);
    assert_eq!(post2.message_id, 999);
    assert!(!post2.backup_allowed);
    assert_eq!(service.get_total_count(), 1);
}

#[test]
fn test_delete_post() {
    let mut service = PublishedPostsService::new();
    service.record(123, 456, 789, true, NOW).unwrap();
    let deleted = service.delete(123);
    assert!(deleted);
    assert!(!service.has_published_post(123));
    assert!(!service.delete(123));
    service.record(1, 2, 3, true, NOW).unwrap();
    service.record(2, 2, 3, true, NOW).unwrap();
    assert_eq!(service.clear_all(), 2);
    assert_eq!(service.get_total_count(), 0);
}

#[test]
fn test_get_or_create_settings() {
    let mut service = UserSettingsService::new();
    let settings = service.get_or_create(123);
    assert_eq!(settings.user_id, 123);
    assert_eq!(settings.auto_publish_enabled, false);
    assert_eq!(settings.default_user_license_id, None);
    assert_eq!(settings.default_system_license_name, None);
    let settings2 = service.get_or_create(123);
    assert_eq!(settings2.user_id, settings.user_id);
}

#[test]
fn test_set_auto_publish() {
    let mut service = UserSettingsService::new();
    let settings = service.set_auto_publish(123, true);
    assert_eq!(settings.auto_publish_enabled, true);
    let settings = service.set_auto_publish(123, false);
    assert_eq!(settings.auto_publish_enabled, false);
}

#[test]
fn test_set_default_license() {
    let mut service = UserSettingsService::new();
    let settings = service.set_default_license(123, Some(DefaultLicenseIdentifier::User(42)), None);
    assert_eq!(settings.default_user_license_id, Some(42));
    assert_eq!(settings.default_system_license_name, None);
    let settings = service.set_default_license(
        123,
        Some(DefaultLicenseIdentifier::System("MIT".to_string())),
        Some(false),
    );
    assert_eq!(settings.default_user_license_id, None);
    assert_eq!(settings.default_system_license_name, Some("MIT".to_string()));
    assert_eq!(settings.default_system_license_backup, Some(false));
    let settings = service.set_default_license(123, None, None);
    assert_eq!(settings.default_user_license_id, None);
    assert_eq!(settings.default_system_license_name, None);
    assert_eq!(settings.default_system_license_backup, None);
}

#[test]
fn test_toggle_auto_publish() {
    let mut service = UserSettingsService::new();
    let settings = service.get_or_create(123);
    assert_eq!(settings.auto_publish_enabled, false);
    let settings = service.toggle_auto_publish(123);
    assert_eq!(settings.auto_publish_enabled, true);
    let settings = service.toggle_auto_publish(123);
    assert_eq!(settings.auto_publish_enabled, false);
}

#[test]
fn test_is_auto_publish_enabled() {
    let mut service = UserSettingsService::new();
    assert_eq!(service.is_auto_publish_enabled(123), false);
    service.set_auto_publish(123, true);
    assert_eq!(service.is_auto_publish_enabled(123), true);
}

#[test]
fn test_get_default_license() {
    let mut service = UserSettingsService::new();
    assert_eq!(service.get_default_license(123), None);
    service.set_default_license(123, Some(DefaultLicenseIdentifier::User(42)), None);
    assert_eq!(service.get_default_license(123), Some(DefaultLicenseIdentifier::User(42)));
    service.set_default_license(
        123,
        Some(DefaultLicenseIdentifier::System("Apache-2.0".to_string())),
        None,
    );
    assert_eq!(
        service.get_default_license(123),
        Some(DefaultLicenseIdentifier::System("Apache-2.0".to_string()))
    );
    service.clear_default_license(123);
    assert_eq!(service.get_default_license(123), None);
}

#[test]
fn test_delete_settings() {
    let mut service = UserSettingsService::new();
    service.get_or_create(123);
    assert!(service.delete(123));
    assert!(service.get(123).is_none());
    assert!(!service.delete(123));
}

#[test]
fn update_settings_changes_only_what_is_named() {
    let mut service = UserSettingsService::new();
    service.set_default_license(1, Some(DefaultLicenseIdentifier::System("MIT".to_string())), Some(true));
    let row = service.update_settings(1, Some(true), None);
    assert!(row.auto_publish_enabled);
    assert_eq!(row.default_system_license_name, Some("MIT".to_string()));
    let row = service.update_settings(1, None, Some(Some(DefaultLicenseIdentifier::User(3))));
    assert!(row.auto_publish_enabled);
    assert_eq!(row.default_user_license_id, Some(3));
    assert_eq!(row.default_system_license_name, None);
    assert_eq!(row.default_system_license_backup, Some(true));
    let row = service.update_settings(1, Some(false), Some(None));
    assert!(!row.auto_publish_enabled);
    assert_eq!(row.default_license(), None);
    assert_eq!(service.get(1), Some(row));
    assert_eq!(service.get(2), None);
}

#[test]
fn backup_override_cycles_through_three_values() {
    assert_eq!(BackupOverride::from_flag(None), BackupOverride::Inherit);
    assert_eq!(BackupOverride::from_flag(Some(true)), BackupOverride::Allow);
    assert_eq!(BackupOverride::from_flag(Some(false)), BackupOverride::Forbid);
    assert_eq!(BackupOverride::Inherit.next(), BackupOverride::Allow);
    assert_eq!(BackupOverride::Allow.next(), BackupOverride::Forbid);
    assert_eq!(BackupOverride::Forbid.next(), BackupOverride::Inherit);
    assert_eq!(BackupOverride::Forbid.to_flag(), Some(false));
    assert_eq!(BackupOverride::Inherit.to_flag(), None);
    assert!(BackupOverride::Inherit.apply(true));
    assert!(!BackupOverride::Inherit.apply(false));
    assert!(BackupOverride::Allow.apply(false));
    assert!(!BackupOverride::Forbid.apply(true));
}

#[test]
fn templates_become_license_records() {
    let template = SystemLicense {
        license_name: "MIT".to_string(),
        allow_redistribution: true,
        allow_modification: false,
        restrictions_note: None,
        allow_backup: true,
    };
    let license = template.to_user_license(u64::MAX, -1, NOW);
    assert_eq!(license.id, -1);
    assert_eq!(license.user_id, -1);
    assert_eq!(license.license_name, "MIT");
    assert_eq!(license.usage_count, 0);
    assert_eq!(license.created_at, NOW);
    let back = SystemLicense::from_user_license(license.duplicate());
    assert_eq!(back.license_name, "MIT");
    assert!(back.allow_redistribution && !back.allow_modification && back.allow_backup);
    let list = vec![template.duplicate(), template];
    assert_eq!(dc_bot::types::license::find_template(&list, "MIT"), Some(0));
    assert_eq!(dc_bot::types::license::find_template(&list, "MI"), None);
}

#[test]
fn publishing_twice_notifies_only_on_a_change() {
    let mut db = BotDatabase::new_memory();
    let license = db.license().create(7, "X".to_string(), true, false, None, true, NOW).unwrap();
    assert_eq!(LicensePublishService::handle_existing_license(&db, 100), None);
    let first = LicensePublishService::publish(&mut db, 100, 1, &license, true, 7, NOW).unwrap();
    assert!(first.backup_changed);
    assert_eq!(LicensePublishService::handle_existing_license(&db, 100), Some(1));
    let second = LicensePublishService::publish(&mut db, 100, 2, &license, false, 7, NOW).unwrap();
    assert!(second.backup_changed);
    let third = LicensePublishService::publish(&mut db, 100, 3, &license, false, 7, NOW).unwrap();
    assert!(!third.backup_changed);
    assert_eq!(db.license().get_license(license.id, 7).unwrap().usage_count, 3);
    assert_eq!(db.published_posts().get_by_thread(100).unwrap().message_id, 3);
    // a first publication that forbids backups changes nothing
    let other = LicensePublishService::publish(&mut db, 101, 4, &license, false, 7, NOW).unwrap();
    assert!(!other.backup_changed);
}

#[test]
fn preview_comes_from_the_first_message() {
    assert_eq!(LicensePublishService::get_thread_first_message_content(false, "hello"), "hello");
    assert_eq!(LicensePublishService::get_thread_first_message_content(true, "hello"), "该帖子暂无文本内容");
    assert_eq!(LicensePublishService::get_thread_first_message_content(false, ""), "该帖子暂无文本内容");
}

#[test]
fn listings_are_ordered() {
    let mut service = LicenseService::new();
    let a = service.create(1, "a".to_string(), false, false, None, false, 30).unwrap();
    let b = service.create(1, "b".to_string(), false, false, None, false, 10).unwrap();
    let c = service.create(1, "c".to_string(), false, false, None, false, 20).unwrap();
    let d = service.create(1, "d".to_string(), false, false, None, false, 20).unwrap();
    let names = |list: Vec<dc_bot::types::license::UserLicense>| -> Vec<String> {
        list.into_iter().map(|l| l.license_name).collect()
    };
    assert_eq!(names(service.get_user_licenses(1)), vec!["a", "d", "c", "b"]);
    service.increment_usage(b.id, 1).unwrap();
    service.increment_usage(b.id, 1).unwrap();
    service.increment_usage(c.id, 1).unwrap();
    assert_eq!(names(service.get_user_licenses_by_usage(1)), vec!["b", "c", "a", "d"]);
    assert_eq!(names(service.get_user_licenses(1)), vec!["a", "d", "c", "b"]);
    assert_eq!(service.get_user_licenses_by_usage(2).len(), 0);
    assert_eq!(service.get_license(a.id, 1).unwrap().usage_count, 0);
    assert_eq!(service.get_license(d.id, 1).unwrap().created_at, 20);
}

#[test]
fn test_get_user_posts() {
    let mut service = PublishedPostsService::new();
    service.record(123, 456, 789, true, NOW).unwrap();
    service.record(124, 457, 789, false, NOW).unwrap();
    service.record(125, 458, 999, true, NOW).unwrap();
    let user_posts = service.get_user_posts(789);
    assert_eq!(user_posts.len(), 2);
    let other_posts = service.get_user_posts(999);
    assert_eq!(other_posts.len(), 1);
    assert_eq!(service.get_user_post_count(789), 2);
    assert_eq!(service.get_user_post_count(1), 0);
}

#[test]
fn test_get_backup_allowed_posts() {
    let mut service = PublishedPostsService::new();
    service.record(123, 456, 789, true, NOW).unwrap();
    service.record(124, 457, 789, false, NOW).unwrap();
    service.record(125, 458, 789, true, NOW).unwrap();
    let backup_posts = service.get_backup_allowed_posts();
    assert_eq!(backup_posts.len(), 2);
    assert_eq!(service.get_backup_allowed_count(), 2);
}

#[test]
fn test_get_posts_in_range() {
    let mut service = PublishedPostsService::new();
    service.record(123, 456, 789, true, NOW).unwrap();
    let posts = service.get_posts_in_range(NOW - 60, NOW + 60);
    assert_eq!(posts.len(), 1);
    let old_posts = service.get_posts_in_range(NOW - 7200, NOW - 3600);
    assert_eq!(old_posts.len(), 0);
    // the first moment belongs to the range, the second does not
    assert_eq!(service.get_posts_in_range(NOW, NOW + 1).len(), 1);
    assert_eq!(service.get_posts_in_range(NOW - 1, NOW).len(), 0);
    assert_eq!(service.get_posts_since(NOW).len(), 1);
    assert_eq!(service.get_posts_since(NOW + 1).len(), 0);
}

#[test]
fn listings_of_posts_come_latest_first() {
    let mut service = PublishedPostsService::new();
    service.record(1, 11, 7, true, 30).unwrap();
    service.record(2, 12, 7, false, 10).unwrap();
    service.record(3, 13, 8, true, 20).unwrap();
    service.record(4, 14, 7, true, 40).unwrap();
    let threads = |posts: Vec<dc_bot::services::published_posts::PublishedPost>| -> Vec<i64> {
        posts.into_iter().map(|p| p.thread_id).collect()
    };
    assert_eq!(threads(service.get_user_posts(7)), vec![4, 1, 2]);
    assert_eq!(threads(service.get_backup_allowed_posts()), vec![4, 1, 3]);
    assert_eq!(threads(service.get_recent_posts(2)), vec![4, 1]);
    assert_eq!(threads(service.get_recent_posts(0)), Vec::<i64>::new());
    assert_eq!(threads(service.get_recent_posts(9)), vec![4, 1, 3, 2]);
    assert_eq!(service.get_by_message(13).unwrap().thread_id, 3);
    assert!(service.get_by_message(99).is_none());
    service.update(2, 99, false, 50);
    assert_eq!(threads(service.get_recent_posts(1)), vec![2]);
    assert_eq!(service.get_by_message(99).unwrap().thread_id, 2);
    assert_eq!(service.delete_user_posts(7), 3);
    assert_eq!(threads(service.get_recent_posts(9)), vec![3]);
    assert_eq!(service.get_total_count(), 1);
    assert_eq!(service.delete_user_posts(7), 0);
    assert!(service.delete(3));
    assert_eq!(service.get_recent_posts(9).len(), 0);
    service.record(3, 1, 1, true, 1).unwrap();
    assert_eq!(threads(service.get_recent_posts(9)), vec![3]);
}

#[test]
fn test_get_auto_publish_users() {
    let mut service = UserSettingsService::new();
    service.set_auto_publish(123, true);
    service.set_auto_publish(456, false);
    service.set_auto_publish(789, true);
    let auto_publish_users = service.get_auto_publish_users();
    assert_eq!(auto_publish_users.len(), 2);
    assert!(auto_publish_users.contains(&123));
    assert!(auto_publish_users.contains(&789));
    assert!(!auto_publish_users.contains(&456));
    service.delete(123);
    assert_eq!(service.get_auto_publish_users(), vec![789]);
    service.set_auto_publish(123, true);
    assert_eq!(service.get_auto_publish_users(), vec![789, 123]);
}

#[test]
fn test_get_auto_publish_count() {
    let mut service = UserSettingsService::new();
    assert_eq!(service.get_auto_publish_count(), 0);
    service.set_auto_publish(123, true);
    assert_eq!(service.get_auto_publish_count(), 1);
    service.set_auto_publish(456, true);
    assert_eq!(service.get_auto_publish_count(), 2);
    service.set_auto_publish(123, false);
    assert_eq!(service.get_auto_publish_count(), 1);
}

#[test]
fn the_backup_override_is_toggled_in_three_steps() {
    let mut service = UserSettingsService::new();
    service.set_default_license(1, Some(DefaultLicenseIdentifier::System("MIT".to_string())), None);
    assert_eq!(service.toggle_system_backup(1).default_system_license_backup, Some(true));
    assert_eq!(service.toggle_system_backup(1).default_system_license_backup, Some(false));
    let row = service.toggle_system_backup(1);
    assert_eq!(row.default_system_license_backup, None);
    assert_eq!(row.default_system_license_name, Some("MIT".to_string()));
    assert_eq!(service.get(1), Some(row));
}

#[test]
fn stored_rows_can_be_put_back() {
    let mut service = LicenseService::new();
    let made = service.create(7, "a".to_string(), true, false, None, true, 5).unwrap();
    let mut used = made.duplicate();
    used.id = 40;
    used.usage_count = 3;
    let mut other = LicenseService::new();
    other.restore(made.duplicate()).unwrap();
    other.restore(used.duplicate()).unwrap();
    assert_eq!(other.get_license(made.id, 7), Some(made));
    assert_eq!(other.get_license(40, 7), Some(used.duplicate()));
    assert_eq!(other.get_license(40, 8), None);
    // ids handed out afterwards are above the ids that were put back
    let next = other.create(7, "b".to_string(), false, false, None, false, 6).unwrap();
    assert_eq!(next.id, 41);
    for id in [50, 51] {
        let mut more = used.duplicate();
        more.id = id;
        other.restore(more).unwrap();
    }
    let mut sixth = used.duplicate();
    sixth.id = 60;
    assert!(matches!(other.restore(sixth), Err(BotError::GenericError { .. })));
    assert_eq!(other.get_user_license_count(7), 5);

    let mut settings = UserSettingsService::new();
    let row = settings.set_default_license(
        3,
        Some(DefaultLicenseIdentifier::System("MIT".to_string())),
        Some(false),
    );
    let mut fresh = UserSettingsService::new();
    fresh.restore(3, row.duplicate());
    assert_eq!(fresh.get(3), Some(row.duplicate()));
    fresh.restore(3, settings.set_auto_publish(3, true));
    assert!(fresh.get(3).unwrap().auto_publish_enabled);
    assert_eq!(fresh.get_auto_publish_users(), vec![3]);
}
