use vstd::prelude::*;
use vstd::string::*;
use crate::types::license::UserLicense;

verus! {

/// The colours that the bot's panels use.
#[derive(Debug, Clone, Copy, PartialEq, Eq, Structural)]
pub enum EmbedColour {
    DarkBlue,
    Blue,
    Green,
    DarkGreen,
    Yellow,
    Gold,
    Rgb(u8, u8, u8),
}

/// One titled entry of a panel.
#[derive(Debug, Clone, PartialEq, Eq)]
pub struct EmbedField {
    pub name: String,
    pub value: String,
    pub inline: bool,
}

/// A panel as plain values: what is shown, without how it is sent.
/// `timestamped` asks the sender to stamp the panel with the time of sending.
#[derive(Debug, Clone, PartialEq, Eq)]
pub struct Embed {
    pub title: String,
    pub description: String,
    pub colour: EmbedColour,
    pub fields: Vec<EmbedField>,
    pub footer: Option<String>,
    pub timestamped: bool,
}

/// What a field shows.
pub struct FieldText {
    pub name: Seq<char>,
    pub value: Seq<char>,
    pub inline: bool,
}

impl View for EmbedField {
    type V = FieldText;

    open spec fn view(&self) -> FieldText {
        FieldText { name: self.name@, value: self.value@, inline: self.inline }
    }
}

/// What each field of a list shows.
pub open spec fn field_texts(fields: Seq<EmbedField>) -> Seq<FieldText> {
    Seq::new(fields.len(), |i: int| fields[i]@)
}

/// The text that shows a permission.
pub open spec fn permission_text(allowed: bool) -> Seq<char> {
    if allowed {
        "✅ 允许"@
    } else {
        "❌ 不允许"@
    }
}

/// The text that shows the restrictions of a license.
pub open spec fn restrictions_text(note: Option<Seq<char>>) -> Seq<char> {
    match note {
        Some(text) => text,
        None => "无特殊限制"@,
    }
}

/// The five fields that show what a license grants: redistribution,
/// modification and backup side by side, the community's ban on commercial
/// use, and the restrictions on a line of their own.
pub open spec fn license_field_texts(
    allow_redistribution: bool,
    allow_modification: bool,
    allow_backup: bool,
    restrictions_note: Option<Seq<char>>,
) -> Seq<FieldText> {
    seq![
        FieldText {
            name: "社区内二次传播"@,
            value: permission_text(allow_redistribution),
            inline: true,
        },
        FieldText {
            name: "社区内二次修改"@,
            value: permission_text(allow_modification),
            inline: true,
        },
        FieldText { name: "管理组备份"@, value: permission_text(allow_backup), inline: true },
        FieldText {
            name: "商业化使用"@,
            value: "❌ 社区不允许任何作品用于商业化"@,
            inline: true,
        },
        FieldText {
            name: "限制条件"@,
            value: restrictions_text(restrictions_note),
            inline: false,
        },
    ]
}

/// The view of an optional string.
pub open spec fn opt_text(o: Option<String>) -> Option<Seq<char>> {
    match o {
        Some(s) => Some(s@),
        None => None,
    }
}

fn make_field(name: &str, value: &str, inline: bool) -> (f: EmbedField)
    ensures
        f@ == (FieldText { name: name@, value: value@, inline }),
{
    EmbedField { name: String::from_str(name), value: String::from_str(value), inline }
}

/// Builds the panels that show licenses.
pub struct LicenseEmbedBuilder;

impl LicenseEmbedBuilder {
    /// The text for a permission.
    pub fn format_permission(allowed: bool) -> (text: &'static str)
        ensures
            text@ == permission_text(allowed),
    {
        if allowed {
            "✅ 允许"
        } else {
            "❌ 不允许"
        }
    }

    /// Appends the five license fields to a panel and leaves the rest of it
    /// as it was.
    pub fn add_license_fields(
        embed: Embed,
        allow_redistribution: bool,
        allow_modification: bool,
        allow_backup: bool,
        restrictions_note: &Option<String>,
    ) -> (r: Embed)
        ensures
            r.title == embed.title,
            r.description == embed.description,
            r.colour == embed.colour,
            r.footer == embed.footer,
            r.timestamped == embed.timestamped,
            field_texts(r.fields@) == field_texts(embed.fields@) + license_field_texts(
                allow_redistribution,
                allow_modification,
                allow_backup,
                opt_text(*restrictions_note),
            ),
    {
        let mut r = embed;
        let ghost before = r.fields@;
        r.fields.push(
            make_field("社区内二次传播", Self::format_permission(allow_redistribution), true),
        );
        r.fields.push(
            make_field("社区内二次修改", Self::format_permission(allow_modification), true),
        );
        r.fields.push(make_field("管理组备份", Self::format_permission(allow_backup), true));
        r.fields.push(make_field("商业化使用", "❌ 社区不允许任何作品用于商业化", true));
        let note: &str = match restrictions_note {
            Some(text) => text.as_str(),
            None => "无特殊限制",
        };
        r.fields.push(make_field("限制条件", note, false));
        proof {
            assert(field_texts(r.fields@) =~= field_texts(before) + license_field_texts(
                allow_redistribution,
                allow_modification,
                allow_backup,
                opt_text(*restrictions_note),
            ));
        }
        r
    }

    /// The panel that previews a license under the given name. A missing
    /// backup flag counts as a refusal.
    pub fn create_license_preview_embed(
        name: &str,
        redis: bool,
        modify: bool,
        rest: &Option<String>,
        backup: Option<bool>,
    ) -> (r: Embed)
        ensures
            r.title@ == "📜 授权协议: "@ + name@,
            r.description@ == "本作品内容受以下授权协议保护："@,
            r.colour == EmbedColour::Blue,
            r.footer.is_none(),
            !r.timestamped,
            field_texts(r.fields@) == license_field_texts(
                redis,
                modify,
                backup.unwrap_or(false),
                opt_text(*rest),
            ),
    {
        let embed = Embed {
            title: String::from_str("📜 授权协议: ").concat(name),
            description: String::from_str("本作品内容受以下授权协议保护："),
            colour: EmbedColour::Blue,
            fields: Vec::new(),
            footer: None,
            timestamped: false,
        };
        let allow_backup = match backup {
            Some(b) => b,
            None => false,
        };
        let r = Self::add_license_fields(embed, redis, modify, allow_backup, rest);
        proof {
            assert(field_texts(Seq::<EmbedField>::empty()) + license_field_texts(
                redis,
                modify,
                allow_backup,
                opt_text(*rest),
            ) =~= license_field_texts(redis, modify, allow_backup, opt_text(*rest)));
        }
        r
    }

    /// The panel that is published into a thread: the license's fields with
    /// the backup permission that holds for this publication, signed with
    /// the author's display name.
    pub fn create_license_embed(license: &UserLicense, backup_allowed: bool, display_name: &str) -> (r:
        Embed)
        ensures
            r.title@ == "📜 授权协议"@,
            r.description@ == "本作品内容受以下授权协议保护："@,
            r.colour == EmbedColour::Blue,
            r.footer.is_some(),
            r.footer.unwrap()@ == "作者: "@ + display_name@,
            r.timestamped,
            field_texts(r.fields@) == license_field_texts(
                license.allow_redistribution,
                license.allow_modification,
                backup_allowed,
                opt_text(license.restrictions_note),
            ),
    {
        let embed = Embed {
            title: String::from_str("📜 授权协议"),
            description: String::from_str("本作品内容受以下授权协议保护："),
            colour: EmbedColour::Blue,
            fields: Vec::new(),
            footer: Some(String::from_str("作者: ").concat(display_name)),
            timestamped: true,
        };
        let r = Self::add_license_fields(
            embed,
            license.allow_redistribution,
            license.allow_modification,
            backup_allowed,
            &license.restrictions_note,
        );
        proof {
            assert(field_texts(Seq::<EmbedField>::empty()) + license_field_texts(
                license.allow_redistribution,
                license.allow_modification,
                backup_allowed,
                opt_text(license.restrictions_note),
            ) =~= license_field_texts(
                license.allow_redistribution,
                license.allow_modification,
                backup_allowed,
                opt_text(license.restrictions_note),
            ));
        }
        r
    }

    /// The panel that asks an author whether their default license shall be
    /// published into the new thread.
    pub fn create_auto_publish_preview_embed(license: &UserLicense, display_name: &str) -> (r:
        Embed)
        ensures
            r.title@ == "📜 准备发布协议"@,
            r.description@ == "检测到您启用了自动发布功能，是否要为此帖子发布以下协议？"@,
            r.colour == EmbedColour::Gold,
            r.footer.is_some(),
            r.footer.unwrap()@ == "作者: "@ + display_name@,
            r.timestamped,
            field_texts(r.fields@) == license_field_texts(
                license.allow_redistribution,
                license.allow_modification,
                license.allow_backup,
                opt_text(license.restrictions_note),
            ),
    {
        let embed = Embed {
            title: String::from_str("📜 准备发布协议"),
            description: String::from_str(
                "检测到您启用了自动发布功能，是否要为此帖子发布以下协议？",
            ),
            colour: EmbedColour::Gold,
            fields: Vec::new(),
            footer: Some(String::from_str("作者: ").concat(display_name)),
            timestamped: true,
        };
        let r = Self::add_license_fields(
            embed,
            license.allow_redistribution,
            license.allow_modification,
            license.allow_backup,
            &license.restrictions_note,
        );
        proof {
            assert(field_texts(Seq::<EmbedField>::empty()) + license_field_texts(
                license.allow_redistribution,
                license.allow_modification,
                license.allow_backup,
                opt_text(license.restrictions_note),
            ) =~= license_field_texts(
                license.allow_redistribution,
                license.allow_modification,
                license.allow_backup,
                opt_text(license.restrictions_note),
            ));
        }
        r
    }

    /// The panel that replaces a superseded announcement: the old title
    /// marked as void, a notice before the old description, the old fields
    /// unchanged, in grey, and the old footer marked as void where there was
    /// one.
    pub fn create_obsolete_license_embed(
        previous_title: &str,
        previous_description: &str,
        previous_fields: &Vec<EmbedField>,
        previous_footer: Option<&str>,
    ) -> (r: Embed)
        ensures
            r.title@ == "⚠️ [已作废] "@ + previous_title@,
            r.description@ == "**此协议已被新协议替换**\n\n"@ + previous_description@,
            r.colour == EmbedColour::Rgb(128, 128, 128),
            field_texts(r.fields@) == field_texts(previous_fields@),
            r.footer.is_some() == previous_footer.is_some(),
            r.footer.is_some() ==> r.footer.unwrap()@ == previous_footer.unwrap()@ + " | 已作废"@,
            r.timestamped,
    {
        let mut fields: Vec<EmbedField> = Vec::new();
        let mut i: usize = 0;
        while i < previous_fields.len()
            invariant
                i <= previous_fields.len(),
                fields@.len() == i,
                forall|k: int| 0 <= k < i ==> fields@[k]@ == previous_fields@[k]@,
            decreases previous_fields.len() - i,
        {
            let f = &previous_fields[i];
            fields.push(make_field(f.name.as_str(), f.value.as_str(), f.inline));
            i += 1;
        }
        let footer = match previous_footer {
            Some(text) => Some(String::from_str(text).concat(" | 已作废")),
            None => None,
        };
        proof {
            assert(field_texts(fields@) =~= field_texts(previous_fields@));
        }
        Embed {
            title: String::from_str("⚠️ [已作废] ").concat(previous_title),
            description: String::from_str("**此协议已被新协议替换**\n\n").concat(
                previous_description,
            ),
            colour: EmbedColour::Rgb(128, 128, 128),
            fields,
            footer,
            timestamped: true,
        }
    }
}

/// The field that shows whether automatic publishing is on.
pub open spec fn status_field(enabled: bool) -> FieldText {
    FieldText {
        name: "🤖 自动发布状态"@,
        value: if enabled {
            "🟢 已启用"@
        } else {
            "🔴 已禁用"@
        },
        inline: true,
    }
}

/// The field that shows the default license, by its name; the word for
/// "not set" in place of a name shows that there is none.
pub open spec fn default_license_field(license_name: Seq<char>) -> FieldText {
    FieldText {
        name: "📜 默认协议"@,
        value: if license_name == "未设置"@ {
            "❌ 未设置"@
        } else {
            "✅ "@ + license_name
        },
        inline: true,
    }
}

/// The field that shows whether the confirmation is skipped.
pub open spec fn skip_field(skip_confirmation: bool) -> FieldText {
    FieldText {
        name: "⚡ 跳过确认"@,
        value: if skip_confirmation {
            "✅ 已启用"@
        } else {
            "❌ 已禁用"@
        },
        inline: true,
    }
}

/// The field that shows the backup override of a template.
pub open spec fn backup_field(backup: Option<bool>) -> FieldText {
    FieldText {
        name: "💾 备份权限"@,
        value: match backup {
            None => "🔄 使用系统默认"@,
            Some(true) => "✅ 允许备份"@,
            Some(false) => "❌ 禁止备份"@,
        },
        inline: true,
    }
}

/// The fields of the settings panel: status, default license and skipping,
/// and the backup override where the default license is a template.
pub open spec fn settings_fields(
    enabled: bool,
    license_name: Seq<char>,
    skip_confirmation: bool,
    is_system_license: bool,
    backup: Option<bool>,
) -> Seq<FieldText> {
    let always = seq![
        status_field(enabled),
        default_license_field(license_name),
        skip_field(skip_confirmation),
    ];
    if is_system_license {
        always.push(backup_field(backup))
    } else {
        always
    }
}

fn bare(title: String, description: String, colour: EmbedColour) -> (e: Embed)
    ensures
        e.title == title,
        e.description == description,
        e.colour == colour,
        e.fields@.len() == 0,
        e.footer.is_none(),
        !e.timestamped,
{
    Embed { title, description, colour, fields: Vec::new(), footer: None, timestamped: false }
}

impl LicenseEmbedBuilder {
    /// The panel that heads the list of a user's licenses.
    pub fn create_license_manager_embed() -> (r: Embed)
        ensures
            r.title@ == "📜 协议管理"@,
            r.description@ == "选择您要管理的协议："@,
            r.colour == EmbedColour::DarkBlue,
            r.fields@.len() == 0,
            r.footer.is_none(),
            !r.timestamped,
    {
        bare(
            String::from_str("📜 协议管理"),
            String::from_str("选择您要管理的协议："),
            EmbedColour::DarkBlue,
        )
    }

    /// The panel that shows one license under its name.
    pub fn create_license_detail_embed(license: &UserLicense) -> (r: Embed)
        ensures
            r.title@ == "📜 授权协议: "@ + license.license_name@,
            r.description@ == "本作品内容受以下授权协议保护："@,
            r.colour == EmbedColour::Blue,
            r.footer.is_none(),
            !r.timestamped,
            field_texts(r.fields@) == license_field_texts(
                license.allow_redistribution,
                license.allow_modification,
                license.allow_backup,
                opt_text(license.restrictions_note),
            ),
    {
        Self::create_license_preview_embed(
            license.license_name.as_str(),
            license.allow_redistribution,
            license.allow_modification,
            &license.restrictions_note,
            Some(license.allow_backup),
        )
    }

    /// The panel that confirms a deletion.
    pub fn create_license_deleted_embed(license_name: &str) -> (r: Embed)
        ensures
            r.title@ == "✅ 协议已删除"@,
            r.description@ == "协议 '"@ + license_name@ + "' 已成功删除。"@,
            r.colour == EmbedColour::Green,
            r.fields@.len() == 0,
            r.footer.is_none(),
            !r.timestamped,
    {
        bare(
            String::from_str("✅ 协议已删除"),
            String::from_str("协议 '").concat(license_name).concat("' 已成功删除。"),
            EmbedColour::Green,
        )
    }

    /// The panel that confirms a publication.
    pub fn create_license_published_embed(license_name: &str) -> (r: Embed)
        ensures
            r.title@ == "✅ 协议已发布"@,
            r.description@ == "协议 '"@ + license_name@ + "' 已成功发布到当前帖子。"@,
            r.colour == EmbedColour::DarkGreen,
            r.fields@.len() == 0,
            r.footer.is_none(),
            !r.timestamped,
    {
        bare(
            String::from_str("✅ 协议已发布"),
            String::from_str("协议 '").concat(license_name).concat("' 已成功发布到当前帖子。"),
            EmbedColour::DarkGreen,
        )
    }

    /// The panel of a user's settings: green while the feature is on, grey
    /// while it is off.
    pub fn create_auto_publish_settings_embed(
        auto_copyright: bool,
        license_name: String,
        skip_confirmation: bool,
        is_system_license: bool,
        default_system_license_backup: Option<bool>,
    ) -> (r: Embed)
        ensures
            r.title@ == "⚙️ 自动发布设置"@,
            r.description@ == "管理您的自动协议发布配置"@,
            r.colour == if auto_copyright {
                EmbedColour::Rgb(76, 175, 80)
            } else {
                EmbedColour::Rgb(158, 158, 158)
            },
            r.footer.is_some(),
            r.footer.unwrap()@ == "💡 点击下方按钮修改设置"@,
            r.timestamped,
            field_texts(r.fields@) == settings_fields(
                auto_copyright,
                license_name@,
                skip_confirmation,
                is_system_license,
                default_system_license_backup,
            ),
    {
        let mut fields: Vec<EmbedField> = Vec::new();
        fields.push(
            make_field(
                "🤖 自动发布状态",
                if auto_copyright {
                    "🟢 已启用"
                } else {
                    "🔴 已禁用"
                },
                true,
            ),
        );
        let shown = if crate::text::str_eq(license_name.as_str(), "未设置") {
            String::from_str("❌ 未设置")
        } else {
            String::from_str("✅ ").concat(license_name.as_str())
        };
        fields.push(make_field("📜 默认协议", shown.as_str(), true));
        fields.push(
            make_field(
                "⚡ 跳过确认",
                if skip_confirmation {
                    "✅ 已启用"
                } else {
                    "❌ 已禁用"
                },
                true,
            ),
        );
        if is_system_license {
            let text = match default_system_license_backup {
                None => "🔄 使用系统默认",
                Some(true) => "✅ 允许备份",
                Some(false) => "❌ 禁止备份",
            };
            fields.push(make_field("💾 备份权限", text, true));
        }
        proof {
            assert(field_texts(fields@) =~= settings_fields(
                auto_copyright,
                license_name@,
                skip_confirmation,
                is_system_license,
                default_system_license_backup,
            ));
        }
        Embed {
            title: String::from_str("⚙️ 自动发布设置"),
            description: String::from_str("管理您的自动协议发布配置"),
            colour: if auto_copyright {
                EmbedColour::Rgb(76, 175, 80)
            } else {
                EmbedColour::Rgb(158, 158, 158)
            },
            fields,
            footer: Some(String::from_str("💡 点击下方按钮修改设置")),
            timestamped: true,
        }
    }

    /// The panel for a user who owns no license.
    pub fn create_no_license_embed() -> (r: Embed)
        ensures
            r.title@ == "📜 协议管理"@,
            r.description@ == "选择您要管理的协议："@,
            r.colour == EmbedColour::DarkBlue,
            r.footer.is_none(),
            !r.timestamped,
            field_texts(r.fields@) == seq![
                FieldText { name: "无协议"@, value: "您还没有创建任何协议。"@, inline: false },
            ],
    {
        let mut r = Self::create_license_manager_embed();
        r.fields.push(make_field("无协议", "您还没有创建任何协议。", false));
        proof {
            assert(field_texts(r.fields@) =~= seq![
                FieldText { name: "无协议"@, value: "您还没有创建任何协议。"@, inline: false },
            ]);
        }
        r
    }

    /// The settings panel for a user who has no license to choose from.
    pub fn create_settings_no_license_embed() -> (r: Embed)
        ensures
            r.title@ == "🔧 自动发布设置"@,
            r.description@ == "没有可用的协议。"@,
            r.colour == EmbedColour::Yellow,
            r.fields@.len() == 0,
            r.footer.is_none(),
            !r.timestamped,
    {
        bare(
            String::from_str("🔧 自动发布设置"),
            String::from_str("没有可用的协议。"),
            EmbedColour::Yellow,
        )
    }
}

} // verus!
