use std::collections::HashSet;

use dc_bot::config::{
    add_forum, clear_forums, default_status_update_interval, is_forum_allowed, remove_forum,
};
use dc_bot::error::BotError;
use dc_bot::handlers::auto_publish::{
    handle_thread_create, has_first_message, start_flow, ThreadInfo, TriggerDecision,
    TriggerDeduplicator,
};
use dc_bot::handlers::parse_modal_custom_id;
use dc_bot::services::gateway::build_gateway_url;
use dc_bot::services::notification_service::{
    delivery_result, AuthorContext, NotificationPayload, ThreadContext,
};
use dc_bot::text::{contains, decimal, starts_with, str_eq, strip_prefix, truncate_chars};
use dc_bot::types::license::UserLicense;
use dc_bot::utils::embed::{EmbedColour, EmbedField};
use dc_bot::utils::LicenseEmbedBuilder;

#[test]
fn status_interval_defaults_to_a_minute() {
    assert_eq!(default_status_update_interval(), 60);
}

#[test]
fn an_empty_allow_list_admits_every_forum() {
    let mut allowed: HashSet<u64> = HashSet::new();
    assert!(is_forum_allowed(&allowed, 5));
    assert!(add_forum(&mut allowed, 4));
    assert!(!add_forum(&mut allowed, 4));
    assert!(!is_forum_allowed(&allowed, 5));
    assert!(add_forum(&mut allowed, 5));
    assert!(is_forum_allowed(&allowed, 5));
    assert!(remove_forum(&mut allowed, 5));
    assert!(!remove_forum(&mut allowed, 5));
    assert!(!is_forum_allowed(&allowed, 5));
    assert_eq!(clear_forums(&mut allowed), 1);
    assert!(is_forum_allowed(&allowed, 5));
}

#[test]
fn text_helpers() {
    assert_eq!(decimal(0), "0");
    assert_eq!(decimal(7), "7");
    assert_eq!(decimal(10), "10");
    assert_eq!(decimal(u64::MAX), "18446744073709551615");
    assert!(contains("abc", ""));
    assert!(contains("abc", "bc"));
    assert!(!contains("abc", "cb"));
    assert!(!contains("ab", "abc"));
    assert!(contains("协议名称", "名称"));
    assert!(starts_with("system_MIT", "system_"));
    assert!(!starts_with("sys", "system_"));
    assert!(str_eq("a", "a"));
    assert!(!str_eq("a", "ab"));
    assert!(!str_eq("ab", "ac"));
    assert_eq!(strip_prefix("system_协议", "system_"), Some("协议".to_string()));
    assert_eq!(strip_prefix("new_license", "system_"), None);
    assert_eq!(truncate_chars("abcdef", 3), "abc");
    assert_eq!(truncate_chars("协议", 3), "协议");
}

#[test]
fn gateway_addresses_get_a_scheme() {
    assert_eq!(build_gateway_url("http://a.example"), "http://a.example");
    assert_eq!(build_gateway_url("https://a.example:1"), "https://a.example:1");
    assert_eq!(build_gateway_url("localhost:50051"), "http://localhost:50051");
    assert_eq!(build_gateway_url("my.localhost.example"), "http://my.localhost.example");
    assert_eq!(build_gateway_url("127.0.0.1:1"), "http://127.0.0.1:1");
    assert_eq!(build_gateway_url("192.168.1.2"), "http://192.168.1.2");
    assert_eq!(build_gateway_url("10.0.0.1"), "http://10.0.0.1");
    assert_eq!(build_gateway_url("110.0.0.1"), "https://110.0.0.1");
    assert_eq!(build_gateway_url("gateway.example.com"), "https://gateway.example.com");
    assert_eq!(build_gateway_url(""), "https://");
}

#[test]
fn modal_ids_split_at_the_last_underscore() {
    assert_eq!(parse_modal_custom_id("edit_name_modal_123"), Some(("edit_name_modal", "123")));
    assert_eq!(parse_modal_custom_id("a_"), Some(("a", "")));
    assert_eq!(parse_modal_custom_id("_9"), Some(("", "9")));
    assert_eq!(parse_modal_custom_id("plain"), None);
    assert_eq!(parse_modal_custom_id(""), None);
}

#[test]
fn duplicate_triggers_are_refused_within_the_window() {
    let mut dedup = TriggerDeduplicator::new(300);
    assert!(dedup.admit_key(1, 1000));
    assert!(!dedup.admit_key(1, 1000));
    assert!(!dedup.admit_key(1, 1299));
    assert!(dedup.admit_key(2, 1299));
    assert!(dedup.admit_key(1, 1300));
    assert!(!dedup.admit_key(1, 1599));
    assert!(dedup.admit_key(3, u64::MAX));
    assert!(!dedup.admit_key(3, u64::MAX));
}

#[test]
fn thread_creations_are_gated() {
    let mut dedup = TriggerDeduplicator::new(300);
    let thread = ThreadInfo { id: 10, parent_id: Some(5), owner_id: Some(7) };
    let any: HashSet<u64> = HashSet::new();
    let five: HashSet<u64> = HashSet::from([5]);
    let six: HashSet<u64> = HashSet::from([6]);
    assert_eq!(handle_thread_create(&mut dedup, &any, &thread, 50), TriggerDecision::CheckFirstMessage);
    assert_eq!(handle_thread_create(&mut dedup, &any, &thread, 60), TriggerDecision::Duplicate);
    let other = ThreadInfo { id: 11, parent_id: Some(5), owner_id: Some(7) };
    assert_eq!(handle_thread_create(&mut dedup, &six, &other, 60), TriggerDecision::ForumNotAllowed);
    // the refused report has used up the window all the same
    assert_eq!(handle_thread_create(&mut dedup, &five, &other, 61), TriggerDecision::Duplicate);
    let orphan = ThreadInfo { id: 12, parent_id: None, owner_id: None };
    assert_eq!(handle_thread_create(&mut dedup, &six, &orphan, 60), TriggerDecision::CheckFirstMessage);
    assert!(has_first_message(&Ok(1)));
    assert!(!has_first_message(&Ok(0)));
    assert!(!has_first_message(&Err(BotError::generic("x"))));
    assert!(start_flow(&thread, false).is_none());
    assert!(start_flow(&orphan, true).is_none());
    let flow = start_flow(&thread, true).unwrap();
    assert_eq!(flow.owner_id, 7);
    assert_eq!(flow.thread_id, 10);
    assert!(!flow.is_done());
}

#[test]
fn notification_payload_is_built_from_ids() {
    let long: String = "字".repeat(150);
    let payload = NotificationPayload::from_discord_context(
        &ThreadContext { guild_id: 1, channel_id: 22, thread_id: 333, title: "作品" },
        4444,
        &AuthorContext { user_id: 5, username: "u", display_name: "d" },
        &long,
        "X".to_string(),
        true,
        "2024-01-01T00:00:00+00:00".to_string(),
    );
    assert_eq!(payload.event_type, "backup_permission_update");
    assert_eq!(payload.timestamp, "2024-01-01T00:00:00+00:00");
    assert_eq!(payload.guild_id, "1");
    assert_eq!(payload.channel_id, "22");
    assert_eq!(payload.thread_id, "333");
    assert_eq!(payload.message_id, "4444");
    assert_eq!(payload.author.discord_user_id, "5");
    assert_eq!(payload.author.username, "u");
    assert_eq!(payload.author.display_name, "d");
    assert_eq!(payload.work_info.title, "作品");
    assert_eq!(payload.work_info.content_preview.chars().count(), 100);
    assert_eq!(payload.work_info.license_type, "X");
    assert!(payload.work_info.backup_allowed);
    assert_eq!(payload.urls.discord_thread, "https://discord.com/channels/1/22/333");
    assert_eq!(payload.urls.direct_message, "https://discord.com/channels/1/333/4444");
}

#[test]
fn delivery_depends_on_the_status() {
    assert_eq!(delivery_result(200), Ok(()));
    assert_eq!(delivery_result(299), Ok(()));
    assert_eq!(delivery_result(199), Err(BotError::GenericError { message: "HTTP 199".to_string() }));
    assert_eq!(delivery_result(300), Err(BotError::GenericError { message: "HTTP 300".to_string() }));
    assert_eq!(delivery_result(503), Err(BotError::GenericError { message: "HTTP 503".to_string() }));
}

#[test]
fn embeds_show_licenses() {
    assert_eq!(LicenseEmbedBuilder::format_permission(true), "✅ 允许");
    assert_eq!(LicenseEmbedBuilder::format_permission(false), "❌ 不允许");
    let license = UserLicense {
        id: 1,
        user_id: 2,
        license_name: "X".to_string(),
        allow_redistribution: true,
        allow_modification: false,
        restrictions_note: Some("保留署名".to_string()),
        allow_backup: false,
        usage_count: 0,
        created_at: 0,
    };
    let embed = LicenseEmbedBuilder::create_license_embed(&license, true, "作者甲");
    assert_eq!(embed.title, "📜 授权协议");
    assert_eq!(embed.colour, EmbedColour::Blue);
    assert_eq!(embed.footer, Some("作者: 作者甲".to_string()));
    assert!(embed.timestamped);
    assert_eq!(embed.fields.len(), 5);
    assert_eq!(embed.fields[0].value, "✅ 允许");
    assert_eq!(embed.fields[1].value, "❌ 不允许");
    assert_eq!(embed.fields[2].value, "✅ 允许");
    assert_eq!(embed.fields[4].value, "保留署名");
    let preview = LicenseEmbedBuilder::create_auto_publish_preview_embed(&license, "作者甲");
    assert_eq!(preview.title, "📜 准备发布协议");
    assert_eq!(preview.colour, EmbedColour::Gold);
    assert_eq!(preview.fields[2].value, "❌ 不允许");
    let fields = vec![EmbedField { name: "n".to_string(), value: "v".to_string(), inline: true }];
    let void = LicenseEmbedBuilder::create_obsolete_license_embed("旧", "说明", &fields, Some("作者: 甲"));
    assert_eq!(void.title, "⚠️ [已作废] 旧");
    assert_eq!(void.description, "**此协议已被新协议替换**\n\n说明");
    assert_eq!(void.colour, EmbedColour::Rgb(128, 128, 128));
    assert_eq!(void.fields, fields);
    assert_eq!(void.footer, Some("作者: 甲 | 已作废".to_string()));
    let void = LicenseEmbedBuilder::create_obsolete_license_embed("旧", "", &vec![], None);
    assert_eq!(void.footer, None);
    let missing = LicenseEmbedBuilder::create_license_preview_embed("n", true, true, &None, None);
    assert_eq!(missing.fields[2].value, "❌ 不允许");
}

#[test]
fn cookies_in_the_open_are_warned_about() {
    let declaration = "我明白风险";
    let due = |content: &str| dc_bot::handlers::cookie::is_cookie_warning_due(content, declaration);
    assert!(due("my cookie: sk-ant-sid01-abc"));
    assert!(due("s k - a n t - s i d 0 1"));
    assert!(due("sk-ant\n-sid01"));
    assert!(due("sk-ant_-sid01"));
    assert!(!due("sk-ant-sid02"));
    assert!(!due("skxantxsid01"));
    assert!(!due(""));
    assert!(!due("我明白风险 sk-ant-sid01"));
    // an empty declaration excuses nothing
    assert!(dc_bot::handlers::cookie::is_cookie_warning_due("sk-ant-sid01", ""));
    let warning = dc_bot::handlers::cookie::cookie_warning(declaration);
    assert!(warning.starts_with("❌ 我们不建议在公屏发送 Cookie"));
    assert!(warning.ends_with("在你的消息中包含以下声明:\n`我明白风险`"));
    assert_eq!(warning.lines().count(), 4);
}
