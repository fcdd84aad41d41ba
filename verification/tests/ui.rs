use dc_bot::handlers::auto_publish_flow::Notice;
use dc_bot::services::system_license::SystemLicenseCache;
use dc_bot::types::license::{SystemLicense, UserLicense};
use dc_bot::utils::auto_publish_ui::Prompt;
use dc_bot::utils::editor_core::ButtonStyle;
use dc_bot::utils::embed::EmbedColour;
use dc_bot::utils::{AutoPublishUI, LicenseEmbedBuilder};

fn templates() -> Vec<SystemLicense> {
    vec![
        SystemLicense {
            license_name: "MIT".to_string(),
            allow_redistribution: true,
            allow_modification: true,
            restrictions_note: None,
            allow_backup: false,
        },
        SystemLicense {
            license_name: "CC-BY".to_string(),
            allow_redistribution: true,
            allow_modification: false,
            restrictions_note: None,
            allow_backup: true,
        },
    ]
}

fn ids(prompt: &Prompt) -> Vec<String> {
    prompt.buttons.iter().map(|b| b.custom_id.clone()).collect()
}

#[test]
fn guidance_offers_both_answers() {
    let prompt = AutoPublishUI::build_guidance_message();
    assert_eq!(prompt.content, "你好！我们发现你发了一个新帖子。你是否想开启'自动添加许可协议'的功能呢？");
    assert_eq!(ids(&prompt), vec!["enable_auto_publish_setup", "disable_auto_publish_setup"]);
    assert_eq!(prompt.buttons[0].label, "启用");
    assert_eq!(prompt.buttons[0].style, ButtonStyle::Success);
    assert_eq!(prompt.buttons[1].label, "关闭");
    assert_eq!(prompt.buttons[1].style, ButtonStyle::Danger);
    assert!(!prompt.ephemeral);
    assert!(prompt.embed.is_none() && prompt.menu.is_none());
}

#[test]
fn menus_list_the_templates() {
    let menu = AutoPublishUI::build_license_selection_menu(&templates());
    assert_eq!(menu.custom_id, "license_selection");
    assert_eq!(menu.placeholder, "请选择协议类型");
    let values: Vec<&str> = menu.options.iter().map(|o| o.value.as_str()).collect();
    assert_eq!(values, vec!["new_license", "system_MIT", "system_CC-BY"]);
    assert_eq!(menu.options[0].label, "创建新协议");
    assert_eq!(menu.options[0].description, "创建一个全新的协议");
    assert_eq!(menu.options[2].label, "CC-BY");
    assert_eq!(menu.options[2].description, "基于系统协议创建");
    let response = AutoPublishUI::create_enable_response(menu.clone());
    assert_eq!(response.content, "✅ 自动发布功能已启用！\n\n请选择你要使用的协议：");
    assert!(response.ephemeral);
    assert_eq!(response.menu, Some(menu));
    let again = AutoPublishUI::build_license_reselection_menu(&templates());
    let values: Vec<String> = again.menu.unwrap().options.iter().map(|o| o.value.clone()).collect();
    assert_eq!(values, vec!["new_license", "system_MIT", "system_CC-BY", "exit_setup"]);
    assert!(again.ephemeral);
    let empty = AutoPublishUI::build_license_selection_menu(&vec![]);
    assert_eq!(empty.options.len(), 1);
}

#[test]
fn confirmations_carry_the_expected_controls() {
    let license = UserLicense {
        id: 1,
        user_id: 2,
        license_name: "X".to_string(),
        allow_redistribution: true,
        allow_modification: false,
        restrictions_note: None,
        allow_backup: true,
        usage_count: 0,
        created_at: 0,
    };
    let prompt = AutoPublishUI::build_auto_publish_confirmation(&license, "甲");
    assert_eq!(ids(&prompt), vec!["confirm_auto_publish", "cancel_auto_publish"]);
    assert_eq!(prompt.buttons[0].label, "✅ 确认发布");
    assert_eq!(prompt.buttons[1].label, "❌ 取消");
    assert_eq!(prompt.content, "");
    let embed = prompt.embed.unwrap();
    assert_eq!(embed.title, "📜 准备发布协议");
    assert_eq!(embed.footer, Some("作者: 甲".to_string()));
    assert_eq!(embed.fields[2].value, "✅ 允许");
    let prompt = AutoPublishUI::create_new_license_publish_confirmation("X");
    assert_eq!(prompt.content, "✅ 协议「X」已创建并设置为默认协议！\n\n是否要在当前帖子中发布此协议？");
    assert_eq!(ids(&prompt), vec!["confirm_publish_new_license", "skip_publish_new_license"]);
    assert_eq!(prompt.buttons[0].label, "是的，发布");
    assert_eq!(prompt.buttons[1].label, "暂不发布");
    assert_eq!(prompt.buttons[1].style, ButtonStyle::Secondary);
    assert!(prompt.ephemeral);
}

#[test]
fn notices_have_their_sentences() {
    assert_eq!(AutoPublishUI::notice_message(Notice::Published), "✅ 协议已成功发布！");
    assert_eq!(AutoPublishUI::notice_message(Notice::PublishCancelled), "❌ 已取消发布");
    assert_eq!(AutoPublishUI::notice_message(Notice::SaveFailed), "❌ 协议保存失败，请稍后重试。");
    assert_eq!(
        AutoPublishUI::notice_message(Notice::PublishedNewLicense),
        "✅ 协议已创建、设置为默认协议，并发布到当前帖子！"
    );
    assert_eq!(
        AutoPublishUI::notice_message(Notice::SkippedNewLicense),
        "✅ 协议已创建并设置为默认协议！你可以稍后使用 `/发布协议` 或在新帖子中自动发布。"
    );
    assert_eq!(
        AutoPublishUI::notice_message(Notice::Exited),
        "好的，如果你改变主意，可以随时使用 `/自动发布设置` 手动开启。"
    );
    assert_eq!(
        AutoPublishUI::create_disable_response().content,
        "好的，如果你改变主意，可以随时使用 `/自动发布设置` 手动开启。"
    );
    assert_eq!(AutoPublishUI::create_publish_cancel_response().content, "❌ 已取消发布");
    assert!(AutoPublishUI::create_publish_cancel_response().ephemeral);
}

#[test]
fn the_cache_finds_templates_by_name() {
    let mut cache = SystemLicenseCache::new(templates());
    assert_eq!(cache.get_all().len(), 2);
    assert_eq!(cache.get_by_name("CC-BY").unwrap().license_name, "CC-BY");
    assert!(cache.get_by_name("GPL").is_none());
    cache.reload(vec![]);
    assert_eq!(cache.get_all().len(), 0);
    assert!(cache.get_by_name("MIT").is_none());
}

#[test]
fn plain_panels() {
    let manager = LicenseEmbedBuilder::create_license_manager_embed();
    assert_eq!(manager.title, "📜 协议管理");
    assert_eq!(manager.description, "选择您要管理的协议：");
    assert_eq!(manager.colour, EmbedColour::DarkBlue);
    assert!(manager.fields.is_empty());
    let none = LicenseEmbedBuilder::create_no_license_embed();
    assert_eq!(none.title, "📜 协议管理");
    assert_eq!(none.fields.len(), 1);
    assert_eq!(none.fields[0].name, "无协议");
    assert_eq!(none.fields[0].value, "您还没有创建任何协议。");
    assert!(!none.fields[0].inline);
    let deleted = LicenseEmbedBuilder::create_license_deleted_embed("甲");
    assert_eq!(deleted.title, "✅ 协议已删除");
    assert_eq!(deleted.description, "协议 '甲' 已成功删除。");
    assert_eq!(deleted.colour, EmbedColour::Green);
    let published = LicenseEmbedBuilder::create_license_published_embed("甲");
    assert_eq!(published.title, "✅ 协议已发布");
    assert_eq!(published.description, "协议 '甲' 已成功发布到当前帖子。");
    assert_eq!(published.colour, EmbedColour::DarkGreen);
    let empty = LicenseEmbedBuilder::create_settings_no_license_embed();
    assert_eq!(empty.title, "🔧 自动发布设置");
    assert_eq!(empty.description, "没有可用的协议。");
    assert_eq!(empty.colour, EmbedColour::Yellow);
    let license = UserLicense {
        id: 1,
        user_id: 2,
        license_name: "X".to_string(),
        allow_redistribution: false,
        allow_modification: true,
        restrictions_note: None,
        allow_backup: false,
        usage_count: 0,
        created_at: 0,
    };
    let detail = LicenseEmbedBuilder::create_license_detail_embed(&license);
    assert_eq!(detail.title, "📜 授权协议: X");
    assert_eq!(detail.fields[0].value, "❌ 不允许");
    assert_eq!(detail.fields[1].value, "✅ 允许");
    assert_eq!(detail.fields[2].value, "❌ 不允许");
}

#[test]
fn settings_panel_shows_the_three_way_override() {
    let on = LicenseEmbedBuilder::create_auto_publish_settings_embed(
        true,
        "MIT".to_string(),
        false,
        true,
        None,
    );
    assert_eq!(on.title, "⚙️ 自动发布设置");
    assert_eq!(on.description, "管理您的自动协议发布配置");
    assert_eq!(on.colour, EmbedColour::Rgb(76, 175, 80));
    assert_eq!(on.footer, Some("💡 点击下方按钮修改设置".to_string()));
    assert!(on.timestamped);
    assert_eq!(on.fields.len(), 4);
    assert_eq!(on.fields[0].name, "🤖 自动发布状态");
    assert_eq!(on.fields[0].value, "🟢 已启用");
    assert_eq!(on.fields[1].name, "📜 默认协议");
    assert_eq!(on.fields[1].value, "✅ MIT");
    assert_eq!(on.fields[2].name, "⚡ 跳过确认");
    assert_eq!(on.fields[2].value, "❌ 已禁用");
    assert_eq!(on.fields[3].name, "💾 备份权限");
    assert_eq!(on.fields[3].value, "🔄 使用系统默认");
    let allow = LicenseEmbedBuilder::create_auto_publish_settings_embed(
        true,
        "MIT".to_string(),
        true,
        true,
        Some(true),
    );
    assert_eq!(allow.fields[2].value, "✅ 已启用");
    assert_eq!(allow.fields[3].value, "✅ 允许备份");
    let forbid = LicenseEmbedBuilder::create_auto_publish_settings_embed(
        true,
        "MIT".to_string(),
        true,
        true,
        Some(false),
    );
    assert_eq!(forbid.fields[3].value, "❌ 禁止备份");
    let off = LicenseEmbedBuilder::create_auto_publish_settings_embed(
        false,
        "未设置".to_string(),
        false,
        false,
        Some(true),
    );
    assert_eq!(off.colour, EmbedColour::Rgb(158, 158, 158));
    assert_eq!(off.fields.len(), 3);
    assert_eq!(off.fields[0].value, "🔴 已禁用");
    assert_eq!(off.fields[1].value, "❌ 未设置");
}

#[test]
fn remaining_prompts() {
    let button = AutoPublishUI::build_publish_confirmation_button();
    assert_eq!(button.custom_id, "confirm_new_user_publish");
    assert_eq!(button.label, "✅ 确认发布");
    assert_eq!(button.style, ButtonStyle::Success);
    let cancelled = AutoPublishUI::create_cancel_edit_response();
    assert_eq!(cancelled.content, "已取消协议创建。自动发布功能已启用，但您需要手动设置默认协议。");
    assert!(cancelled.ephemeral);
    let done = AutoPublishUI::create_publish_success_edit();
    assert_eq!(done.content, "协议已创建并设置为默认协议！自动发布功能现在已完全启用。");
    assert!(done.buttons.is_empty());
    let license = UserLicense {
        id: 1,
        user_id: 2,
        license_name: "X".to_string(),
        allow_redistribution: false,
        allow_modification: true,
        restrictions_note: Some("注".to_string()),
        allow_backup: false,
        usage_count: 0,
        created_at: 0,
    };
    let prompt = AutoPublishUI::create_new_user_publish_confirmation(&license, "甲");
    assert_eq!(prompt.content, "✅ 协议创建成功！\n\n📝 现在请确认是否要将其发布到这个帖子中：");
    assert_eq!(ids(&prompt), vec!["confirm_new_user_publish"]);
    assert_eq!(prompt.embed.unwrap().fields[4].value, "注");
}
