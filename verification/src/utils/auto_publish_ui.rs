use vstd::prelude::*;
use vstd::string::*;
use crate::handlers::auto_publish_flow::{selection_of, Notice, Selection};
use crate::text::starts_with_text;
use crate::types::license::{template_position, SystemLicense, UserLicense};
use crate::utils::editor_core::{make_button, row_texts, Button, ButtonStyle, ButtonText};
use crate::utils::embed::{
    field_texts, license_field_texts, opt_text, Embed, EmbedColour, LicenseEmbedBuilder,
};

verus! {

/// One entry of a menu: what it says, the value that comes back when it is
/// chosen, and a line of explanation.
#[derive(Debug, Clone, PartialEq, Eq)]
pub struct MenuOption {
    pub label: String,
    pub value: String,
    pub description: String,
}

/// What a menu entry shows.
pub struct OptionText {
    pub label: Seq<char>,
    pub value: Seq<char>,
    pub description: Seq<char>,
}

impl View for MenuOption {
    type V = OptionText;

    open spec fn view(&self) -> OptionText {
        OptionText { label: self.label@, value: self.value@, description: self.description@ }
    }
}

/// A menu from which one entry can be chosen.
#[derive(Debug, Clone, PartialEq, Eq)]
pub struct SelectMenu {
    pub custom_id: String,
    pub placeholder: String,
    pub options: Vec<MenuOption>,
}

/// A message with controls, as plain values.
#[derive(Debug, Clone, PartialEq, Eq)]
pub struct Prompt {
    pub content: String,
    pub embed: Option<Embed>,
    pub buttons: Vec<Button>,
    pub menu: Option<SelectMenu>,
    pub ephemeral: bool,
}

/// The menu value that stands for a template.
pub open spec fn template_value(name: Seq<char>) -> Seq<char> {
    "system_"@ + name
}

/// The entry that offers a license from scratch.
pub open spec fn new_license_option() -> OptionText {
    OptionText { label: "创建新协议"@, value: "new_license"@, description: "创建一个全新的协议"@ }
}

/// The entry that offers a template.
pub open spec fn template_option(template: SystemLicense) -> OptionText {
    OptionText {
        label: template.license_name@,
        value: template_value(template.license_name@),
        description: "基于系统协议创建"@,
    }
}

/// The entry that leaves the setup.
pub open spec fn exit_option() -> OptionText {
    OptionText { label: "退出设置"@, value: "exit_setup"@, description: "暂不设置协议"@ }
}

/// The entries of the menu of templates: the new license first, then one
/// entry per template in the order of the list.
pub open spec fn selection_options(templates: Seq<SystemLicense>) -> Seq<OptionText> {
    Seq::new(
        templates.len() + 1,
        |i: int|
            if i == 0 {
                new_license_option()
            } else {
                template_option(templates[i - 1])
            },
    )
}

/// What each entry of a list shows.
pub open spec fn option_texts(options: Seq<MenuOption>) -> Seq<OptionText> {
    Seq::new(options.len(), |i: int| options[i]@)
}

/// The sentence for a notice.
pub open spec fn notice_text(notice: Notice) -> Seq<char> {
    match notice {
        Notice::Disabled => "好的，如果你改变主意，可以随时使用 `/自动发布设置` 手动开启。"@,
        Notice::Exited => "好的，如果你改变主意，可以随时使用 `/自动发布设置` 手动开启。"@,
        Notice::Published => "✅ 协议已成功发布！"@,
        Notice::PublishCancelled => "❌ 已取消发布"@,
        Notice::PublishedNewLicense => "✅ 协议已创建、设置为默认协议，并发布到当前帖子！"@,
        Notice::SkippedNewLicense => "✅ 协议已创建并设置为默认协议！你可以稍后使用 `/发布协议` 或在新帖子中自动发布。"@,
        Notice::SaveFailed => "❌ 协议保存失败，请稍后重试。"@,
    }
}

fn make_option(label: &str, value: String, description: &str) -> (o: MenuOption)
    ensures
        o@ == (OptionText { label: label@, value: value@, description: description@ }),
{
    MenuOption {
        label: String::from_str(label),
        value,
        description: String::from_str(description),
    }
}

fn plain(content: String, buttons: Vec<Button>, ephemeral: bool) -> (p: Prompt)
    ensures
        p.content == content,
        p.embed.is_none(),
        p.buttons == buttons,
        p.menu.is_none(),
        p.ephemeral == ephemeral,
{
    Prompt { content, embed: None, buttons, menu: None, ephemeral }
}

/// Builds what the workflow shows.
pub struct AutoPublishUI;

impl AutoPublishUI {
    /// The prompt that offers the feature to a new user, with a button for
    /// either answer.
    pub fn build_guidance_message() -> (p: Prompt)
        ensures
            p.content@ == "你好！我们发现你发了一个新帖子。你是否想开启'自动添加许可协议'的功能呢？"@,
            p.embed.is_none(),
            p.menu.is_none(),
            !p.ephemeral,
            row_texts(p.buttons@) == seq![
                ButtonText {
                    custom_id: "enable_auto_publish_setup"@,
                    label: "启用"@,
                    style: ButtonStyle::Success,
                },
                ButtonText {
                    custom_id: "disable_auto_publish_setup"@,
                    label: "关闭"@,
                    style: ButtonStyle::Danger,
                },
            ],
    {
        let mut buttons: Vec<Button> = Vec::new();
        buttons.push(make_button("enable_auto_publish_setup", "启用", ButtonStyle::Success));
        buttons.push(make_button("disable_auto_publish_setup", "关闭", ButtonStyle::Danger));
        proof {
            assert(row_texts(buttons@) =~= seq![
                ButtonText {
                    custom_id: "enable_auto_publish_setup"@,
                    label: "启用"@,
                    style: ButtonStyle::Success,
                },
                ButtonText {
                    custom_id: "disable_auto_publish_setup"@,
                    label: "关闭"@,
                    style: ButtonStyle::Danger,
                },
            ]);
        }
        plain(
            String::from_str(
                "你好！我们发现你发了一个新帖子。你是否想开启'自动添加许可协议'的功能呢？",
            ),
            buttons,
            false,
        )
    }

    /// The menu of templates: a license from scratch, then every template.
    pub fn build_license_selection_menu(system_licenses: &Vec<SystemLicense>) -> (menu: SelectMenu)
        requires
            system_licenses.len() < usize::MAX,
        ensures
            menu.custom_id@ == "license_selection"@,
            menu.placeholder@ == "请选择协议类型"@,
            option_texts(menu.options@) == selection_options(system_licenses@),
    {
        let mut options: Vec<MenuOption> = Vec::new();
        options.push(make_option("创建新协议", String::from_str("new_license"), "创建一个全新的协议"));
        let mut i: usize = 0;
        while i < system_licenses.len()
            invariant
                i <= system_licenses.len(),
                system_licenses.len() < usize::MAX,
                options@.len() == i + 1,
                forall|k: int|
                    0 <= k < i + 1 ==> options@[k]@ == selection_options(system_licenses@)[k],
            decreases system_licenses.len() - i,
        {
            let name = system_licenses[i].license_name.as_str();
            options.push(
                make_option(name, String::from_str("system_").concat(name), "基于系统协议创建"),
            );
            i += 1;
        }
        proof {
            assert(option_texts(options@) =~= selection_options(system_licenses@));
        }
        SelectMenu {
            custom_id: String::from_str("license_selection"),
            placeholder: String::from_str("请选择协议类型"),
            options,
        }
    }

    /// The menu that is shown after the editor was cancelled: the menu of
    /// templates and, last, the way out.
    pub fn build_license_reselection_menu(system_licenses: &Vec<SystemLicense>) -> (p: Prompt)
        requires
            system_licenses.len() < usize::MAX - 1,
        ensures
            p.content@ == "已取消编辑。请重新选择协议，或退出设置："@,
            p.ephemeral,
            p.embed.is_none(),
            p.buttons@.len() == 0,
            p.menu.is_some(),
            p.menu.unwrap().custom_id@ == "license_selection"@,
            option_texts(p.menu.unwrap().options@) == selection_options(system_licenses@).push(
                exit_option(),
            ),
    {
        let mut menu = Self::build_license_selection_menu(system_licenses);
        let ghost before = menu.options@;
        menu.options.push(make_option("退出设置", String::from_str("exit_setup"), "暂不设置协议"));
        proof {
            assert(option_texts(menu.options@) =~= option_texts(before).push(exit_option()));
        }
        Prompt {
            content: String::from_str("已取消编辑。请重新选择协议，或退出设置："),
            embed: None,
            buttons: Vec::new(),
            menu: Some(menu),
            ephemeral: true,
        }
    }

    /// The prompt that asks whether the default license shall be published:
    /// the preview of the license, and a button for either answer.
    pub fn build_auto_publish_confirmation(license: &UserLicense, display_name: &str) -> (p: Prompt)
        ensures
            p.content@.len() == 0,
            !p.ephemeral,
            p.menu.is_none(),
            p.embed.is_some(),
            p.embed.unwrap().title@ == "📜 准备发布协议"@,
            p.embed.unwrap().colour == EmbedColour::Gold,
            field_texts(p.embed.unwrap().fields@) == license_field_texts(
                license.allow_redistribution,
                license.allow_modification,
                license.allow_backup,
                opt_text(license.restrictions_note),
            ),
            row_texts(p.buttons@) == seq![
                ButtonText {
                    custom_id: "confirm_auto_publish"@,
                    label: "✅ 确认发布"@,
                    style: ButtonStyle::Success,
                },
                ButtonText {
                    custom_id: "cancel_auto_publish"@,
                    label: "❌ 取消"@,
                    style: ButtonStyle::Danger,
                },
            ],
    {
        let embed = LicenseEmbedBuilder::create_auto_publish_preview_embed(license, display_name);
        let mut buttons: Vec<Button> = Vec::new();
        buttons.push(make_button("confirm_auto_publish", "✅ 确认发布", ButtonStyle::Success));
        buttons.push(make_button("cancel_auto_publish", "❌ 取消", ButtonStyle::Danger));
        proof {
            assert(row_texts(buttons@) =~= seq![
                ButtonText {
                    custom_id: "confirm_auto_publish"@,
                    label: "✅ 确认发布"@,
                    style: ButtonStyle::Success,
                },
                ButtonText {
                    custom_id: "cancel_auto_publish"@,
                    label: "❌ 取消"@,
                    style: ButtonStyle::Danger,
                },
            ]);
        }
        Prompt { content: String::new(), embed: Some(embed), buttons, menu: None, ephemeral: false }
    }

    /// The answer to the owner who switched the feature on: the menu of
    /// templates under a line of confirmation.
    pub fn create_enable_response(select_menu: SelectMenu) -> (p: Prompt)
        ensures
            p.content@ == "✅ 自动发布功能已启用！\n\n请选择你要使用的协议："@,
            p.ephemeral,
            p.embed.is_none(),
            p.buttons@.len() == 0,
            p.menu == Some(select_menu),
    {
        Prompt {
            content: String::from_str("✅ 自动发布功能已启用！\n\n请选择你要使用的协议："),
            embed: None,
            buttons: Vec::new(),
            menu: Some(select_menu),
            ephemeral: true,
        }
    }

    /// The question whether a license that was just saved shall be
    /// published, with a button for either answer.
    pub fn create_new_license_publish_confirmation(license_name: &str) -> (p: Prompt)
        ensures
            p.content@ == "✅ 协议「"@ + license_name@
                + "」已创建并设置为默认协议！\n\n是否要在当前帖子中发布此协议？"@,
            p.ephemeral,
            p.embed.is_none(),
            p.menu.is_none(),
            row_texts(p.buttons@) == seq![
                ButtonText {
                    custom_id: "confirm_publish_new_license"@,
                    label: "是的，发布"@,
                    style: ButtonStyle::Success,
                },
                ButtonText {
                    custom_id: "skip_publish_new_license"@,
                    label: "暂不发布"@,
                    style: ButtonStyle::Secondary,
                },
            ],
    {
        let mut buttons: Vec<Button> = Vec::new();
        buttons.push(
            make_button("confirm_publish_new_license", "是的，发布", ButtonStyle::Success),
        );
        buttons.push(make_button("skip_publish_new_license", "暂不发布", ButtonStyle::Secondary));
        proof {
            assert(row_texts(buttons@) =~= seq![
                ButtonText {
                    custom_id: "confirm_publish_new_license"@,
                    label: "是的，发布"@,
                    style: ButtonStyle::Success,
                },
                ButtonText {
                    custom_id: "skip_publish_new_license"@,
                    label: "暂不发布"@,
                    style: ButtonStyle::Secondary,
                },
            ]);
        }
        let content = String::from_str("✅ 协议「").concat(license_name).concat(
            "」已创建并设置为默认协议！\n\n是否要在当前帖子中发布此协议？",
        );
        plain(content, buttons, true)
    }

    /// The sentence that tells the owner how an exchange ended.
    pub fn notice_message(notice: Notice) -> (text: String)
        ensures
            text@ == notice_text(notice),
    {
        match notice {
            Notice::Disabled => String::from_str(
                "好的，如果你改变主意，可以随时使用 `/自动发布设置` 手动开启。",
            ),
            Notice::Exited => String::from_str(
                "好的，如果你改变主意，可以随时使用 `/自动发布设置` 手动开启。",
            ),
            Notice::Published => String::from_str("✅ 协议已成功发布！"),
            Notice::PublishCancelled => String::from_str("❌ 已取消发布"),
            Notice::PublishedNewLicense => String::from_str(
                "✅ 协议已创建、设置为默认协议，并发布到当前帖子！",
            ),
            Notice::SkippedNewLicense => String::from_str(
                "✅ 协议已创建并设置为默认协议！你可以稍后使用 `/发布协议` 或在新帖子中自动发布。",
            ),
            Notice::SaveFailed => String::from_str("❌ 协议保存失败，请稍后重试。"),
        }
    }

    /// The answer to the owner who left the feature off.
    pub fn create_disable_response() -> (p: Prompt)
        ensures
            p.content@ == notice_text(Notice::Disabled),
            p.ephemeral,
            p.embed.is_none(),
            p.menu.is_none(),
            p.buttons@.len() == 0,
    {
        plain(Self::notice_message(Notice::Disabled), Vec::new(), true)
    }

    /// The answer to the owner who declined to publish.
    pub fn create_publish_cancel_response() -> (p: Prompt)
        ensures
            p.content@ == notice_text(Notice::PublishCancelled),
            p.ephemeral,
            p.embed.is_none(),
            p.menu.is_none(),
            p.buttons@.len() == 0,
    {
        plain(Self::notice_message(Notice::PublishCancelled), Vec::new(), true)
    }
}

impl AutoPublishUI {
    /// The button that confirms a publication.
    pub fn build_publish_confirmation_button() -> (b: Button)
        ensures
            b@ == (ButtonText {
                custom_id: "confirm_new_user_publish"@,
                label: "✅ 确认发布"@,
                style: ButtonStyle::Success,
            }),
    {
        make_button("confirm_new_user_publish", "✅ 确认发布", ButtonStyle::Success)
    }

    /// The answer to an owner who cancelled the creation of a license.
    pub fn create_cancel_edit_response() -> (p: Prompt)
        ensures
            p.content@ == "已取消协议创建。自动发布功能已启用，但您需要手动设置默认协议。"@,
            p.ephemeral,
            p.embed.is_none(),
            p.menu.is_none(),
            p.buttons@.len() == 0,
    {
        plain(
            String::from_str("已取消协议创建。自动发布功能已启用，但您需要手动设置默认协议。"),
            Vec::new(),
            true,
        )
    }

    /// The question whether a license that was just created shall be
    /// published, with its preview and the button that confirms.
    pub fn create_new_user_publish_confirmation(license: &UserLicense, display_name: &str) -> (p:
        Prompt)
        ensures
            p.content@ == "✅ 协议创建成功！\n\n📝 现在请确认是否要将其发布到这个帖子中："@,
            p.ephemeral,
            p.menu.is_none(),
            p.embed.is_some(),
            p.embed.unwrap().title@ == "📜 准备发布协议"@,
            field_texts(p.embed.unwrap().fields@) == license_field_texts(
                license.allow_redistribution,
                license.allow_modification,
                license.allow_backup,
                opt_text(license.restrictions_note),
            ),
            row_texts(p.buttons@) == seq![
                ButtonText {
                    custom_id: "confirm_new_user_publish"@,
                    label: "✅ 确认发布"@,
                    style: ButtonStyle::Success,
                },
            ],
    {
        let embed = LicenseEmbedBuilder::create_auto_publish_preview_embed(license, display_name);
        let mut buttons: Vec<Button> = Vec::new();
        buttons.push(Self::build_publish_confirmation_button());
        proof {
            assert(row_texts(buttons@) =~= seq![
                ButtonText {
                    custom_id: "confirm_new_user_publish"@,
                    label: "✅ 确认发布"@,
                    style: ButtonStyle::Success,
                },
            ]);
        }
        Prompt {
            content: String::from_str(
                "✅ 协议创建成功！\n\n📝 现在请确认是否要将其发布到这个帖子中：",
            ),
            embed: Some(embed),
            buttons,
            menu: None,
            ephemeral: true,
        }
    }

    /// The text that replaces the prompt once the setup is complete, with
    /// no controls left.
    pub fn create_publish_success_edit() -> (p: Prompt)
        ensures
            p.content@ == "协议已创建并设置为默认协议！自动发布功能现在已完全启用。"@,
            !p.ephemeral,
            p.embed.is_none(),
            p.menu.is_none(),
            p.buttons@.len() == 0,
    {
        plain(
            String::from_str("协议已创建并设置为默认协议！自动发布功能现在已完全启用。"),
            Vec::new(),
            false,
        )
    }
}

/// The menu and the workflow agree: the value of the first entry is read
/// as a license from scratch, and the value of the entry of a template is
/// read as that template, as long as no earlier template bears its name.
pub proof fn lemma_menu_values_are_understood(templates: Seq<SystemLicense>, position: int)
    requires
        0 <= position < templates.len(),
        template_position(templates, templates[position].license_name@) == position,
    ensures
        selection_of(selection_options(templates)[0].value, templates) == Selection::NewLicense,
        selection_of(selection_options(templates)[position + 1].value, templates)
            == Selection::Template(position),
{
    reveal_strlit("system_");
    reveal_strlit("new_license");
    let name = templates[position].license_name@;
    let value = template_value(name);
    assert(value[0] == 's');
    assert("new_license"@[0] == 'n');
    assert(value != "new_license"@);
    assert(value.subrange(0, 7) =~= "system_"@);
    assert(starts_with_text(value, "system_"@));
    assert(value.subrange(7, value.len() as int) =~= name);
}

} // verus!
