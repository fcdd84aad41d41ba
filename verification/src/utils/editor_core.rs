use vstd::prelude::*;
use vstd::string::*;
use crate::text::clone_opt_string;
use crate::types::license::SystemLicense;
use crate::utils::embed::{
    field_texts, license_field_texts, opt_text, Embed, EmbedColour, LicenseEmbedBuilder,
};

verus! {

/// The editable fields of a license while a user works on them. Nothing of
/// it is stored until the user saves.
#[derive(Debug, Clone, PartialEq, Eq)]
pub struct LicenseEditState {
    pub license_name: String,
    pub allow_redistribution: bool,
    pub allow_modification: bool,
    pub restrictions_note: Option<String>,
    pub allow_backup: bool,
}

/// What a draft holds.
pub struct DraftView {
    pub name: Seq<char>,
    pub allow_redistribution: bool,
    pub allow_modification: bool,
    pub restrictions_note: Option<Seq<char>>,
    pub allow_backup: bool,
}

impl View for LicenseEditState {
    type V = DraftView;

    open spec fn view(&self) -> DraftView {
        DraftView {
            name: self.license_name@,
            allow_redistribution: self.allow_redistribution,
            allow_modification: self.allow_modification,
            restrictions_note: opt_text(self.restrictions_note),
            allow_backup: self.allow_backup,
        }
    }
}

impl LicenseEditState {
    /// A draft with the given name that grants nothing and restricts nothing.
    pub fn new(name: String) -> (r: LicenseEditState)
        ensures
            r@ == (DraftView {
                name: name@,
                allow_redistribution: false,
                allow_modification: false,
                restrictions_note: None,
                allow_backup: false,
            }),
    {
        LicenseEditState {
            license_name: name,
            allow_redistribution: false,
            allow_modification: false,
            restrictions_note: None,
            allow_backup: false,
        }
    }

    /// A draft that holds the given fields.
    pub fn from_existing(
        name: String,
        allow_redistribution: bool,
        allow_modification: bool,
        restrictions_note: Option<String>,
        allow_backup: bool,
    ) -> (r: LicenseEditState)
        ensures
            r.license_name == name,
            r.allow_redistribution == allow_redistribution,
            r.allow_modification == allow_modification,
            r.restrictions_note == restrictions_note,
            r.allow_backup == allow_backup,
    {
        LicenseEditState {
            license_name: name,
            allow_redistribution,
            allow_modification,
            restrictions_note,
            allow_backup,
        }
    }

    /// A draft that starts from a template of the system.
    pub fn from_system_license(system_license: &SystemLicense) -> (r: LicenseEditState)
        ensures
            r.license_name == system_license.license_name,
            r.allow_redistribution == system_license.allow_redistribution,
            r.allow_modification == system_license.allow_modification,
            r.restrictions_note == system_license.restrictions_note,
            r.allow_backup == system_license.allow_backup,
    {
        LicenseEditState {
            license_name: system_license.license_name.clone(),
            allow_redistribution: system_license.allow_redistribution,
            allow_modification: system_license.allow_modification,
            restrictions_note: clone_opt_string(&system_license.restrictions_note),
            allow_backup: system_license.allow_backup,
        }
    }

    /// The fields of the draft in the order in which a license is created
    /// from them: name, redistribution, modification, restrictions, backup.
    pub fn to_user_license_fields(&self) -> (r: (String, bool, bool, Option<String>, bool))
        ensures
            r.0 == self.license_name,
            r.1 == self.allow_redistribution,
            r.2 == self.allow_modification,
            r.3 == self.restrictions_note,
            r.4 == self.allow_backup,
    {
        (
            self.license_name.clone(),
            self.allow_redistribution,
            self.allow_modification,
            clone_opt_string(&self.restrictions_note),
            self.allow_backup,
        )
    }

    /// An equal draft, owned by the caller.
    pub fn duplicate(&self) -> (r: LicenseEditState)
        ensures
            r == *self,
    {
        LicenseEditState {
            license_name: self.license_name.clone(),
            allow_redistribution: self.allow_redistribution,
            allow_modification: self.allow_modification,
            restrictions_note: clone_opt_string(&self.restrictions_note),
            allow_backup: self.allow_backup,
        }
    }
}

/// How a button looks.
#[derive(Debug, Clone, Copy, PartialEq, Eq, Structural)]
pub enum ButtonStyle {
    Primary,
    Secondary,
    Success,
    Danger,
}

/// A button of a panel: the id that comes back when it is pressed, what it
/// says, and how it looks.
#[derive(Debug, Clone, PartialEq, Eq)]
pub struct Button {
    pub custom_id: String,
    pub label: String,
    pub style: ButtonStyle,
}

/// What a button shows.
pub struct ButtonText {
    pub custom_id: Seq<char>,
    pub label: Seq<char>,
    pub style: ButtonStyle,
}

impl View for Button {
    type V = ButtonText;

    open spec fn view(&self) -> ButtonText {
        ButtonText { custom_id: self.custom_id@, label: self.label@, style: self.style }
    }
}

/// What each button of a row shows.
pub open spec fn row_texts(row: Seq<Button>) -> Seq<ButtonText> {
    Seq::new(row.len(), |i: int| row[i]@)
}

/// The toggle button of a permission: it offers to switch the permission
/// off, in green, while the permission is granted, and to switch it on, in
/// grey, while it is not.
pub open spec fn toggle_button(
    custom_id: Seq<char>,
    granted: bool,
    off_label: Seq<char>,
    on_label: Seq<char>,
) -> ButtonText {
    ButtonText {
        custom_id,
        label: if granted {
            off_label
        } else {
            on_label
        },
        style: if granted {
            ButtonStyle::Success
        } else {
            ButtonStyle::Secondary
        },
    }
}

/// The row of the two text edits.
pub open spec fn edit_row() -> Seq<ButtonText> {
    seq![
        ButtonText { custom_id: "edit_name"@, label: "编辑名称"@, style: ButtonStyle::Secondary },
        ButtonText {
            custom_id: "edit_restrictions"@,
            label: "编辑限制条件"@,
            style: ButtonStyle::Secondary,
        },
    ]
}

/// The row of the three toggles, as the draft stands.
pub open spec fn toggle_row(draft: DraftView) -> Seq<ButtonText> {
    seq![
        toggle_button(
            "toggle_redistribution"@,
            draft.allow_redistribution,
            "关闭二传"@,
            "开启二传"@,
        ),
        toggle_button(
            "toggle_modification"@,
            draft.allow_modification,
            "关闭二改"@,
            "开启二改"@,
        ),
        toggle_button("toggle_backup"@, draft.allow_backup, "关闭备份"@, "开启备份"@),
    ]
}

/// The row that ends the session.
pub open spec fn finish_row() -> Seq<ButtonText> {
    seq![
        ButtonText { custom_id: "save_license"@, label: "保存"@, style: ButtonStyle::Primary },
        ButtonText { custom_id: "cancel_license"@, label: "取消"@, style: ButtonStyle::Danger },
    ]
}

pub(crate) fn make_button(custom_id: &str, label: &str, style: ButtonStyle) -> (b: Button)
    ensures
        b@ == (ButtonText { custom_id: custom_id@, label: label@, style }),
{
    Button { custom_id: String::from_str(custom_id), label: String::from_str(label), style }
}

fn make_toggle(custom_id: &str, granted: bool, off_label: &str, on_label: &str) -> (b: Button)
    ensures
        b@ == toggle_button(custom_id@, granted, off_label@, on_label@),
{
    if granted {
        make_button(custom_id, off_label, ButtonStyle::Success)
    } else {
        make_button(custom_id, on_label, ButtonStyle::Secondary)
    }
}

/// The draft of one editing session and what is shown of it.
pub struct EditorCore {
    state: LicenseEditState,
}

impl View for EditorCore {
    type V = DraftView;

    closed spec fn view(&self) -> DraftView {
        self.state@
    }
}

impl EditorCore {
    /// The draft as a value.
    pub closed spec fn draft(self) -> LicenseEditState {
        self.state
    }

    /// What the core shows is what its draft holds.
    pub proof fn lemma_view_is_draft_view(self)
        ensures
            self@ == self.draft()@,
    {
    }

    /// A core that holds the given draft.
    pub fn new(state: LicenseEditState) -> (r: EditorCore)
        ensures
            r.draft() == state,
    {
        EditorCore { state }
    }

    /// The draft as it stands.
    pub fn get_state(&self) -> (r: &LicenseEditState)
        ensures
            *r == self.draft(),
    {
        &self.state
    }

    /// Access to the draft for changing it: the core holds afterwards what
    /// the caller left in the draft.
    pub fn get_state_mut(&mut self) -> (r: &mut LicenseEditState)
        ensures
            *r == old(self).draft(),
            final(self).draft() == *final(r),
    {
        &mut self.state
    }

    /// The preview of the draft and the three rows of buttons under it: the
    /// text edits, the toggles as the draft stands, and save and cancel.
    pub fn build_ui(&self) -> (r: (Embed, Vec<Vec<Button>>))
        ensures
            r.0.title@ == "📜 授权协议: "@ + self@.name,
            r.0.colour == EmbedColour::Blue,
            field_texts(r.0.fields@) == license_field_texts(
                self@.allow_redistribution,
                self@.allow_modification,
                self@.allow_backup,
                self@.restrictions_note,
            ),
            r.1@.len() == 3,
            row_texts(r.1@[0]@) == edit_row(),
            row_texts(r.1@[1]@) == toggle_row(self@),
            row_texts(r.1@[2]@) == finish_row(),
    {
        let embed = LicenseEmbedBuilder::create_license_preview_embed(
            self.state.license_name.as_str(),
            self.state.allow_redistribution,
            self.state.allow_modification,
            &self.state.restrictions_note,
            Some(self.state.allow_backup),
        );
        let mut row1: Vec<Button> = Vec::new();
        row1.push(make_button("edit_name", "编辑名称", ButtonStyle::Secondary));
        row1.push(make_button("edit_restrictions", "编辑限制条件", ButtonStyle::Secondary));
        let mut row2: Vec<Button> = Vec::new();
        row2.push(
            make_toggle(
                "toggle_redistribution",
                self.state.allow_redistribution,
                "关闭二传",
                "开启二传",
            ),
        );
        row2.push(
            make_toggle(
                "toggle_modification",
                self.state.allow_modification,
                "关闭二改",
                "开启二改",
            ),
        );
        row2.push(make_toggle("toggle_backup", self.state.allow_backup, "关闭备份", "开启备份"));
        let mut row3: Vec<Button> = Vec::new();
        row3.push(make_button("save_license", "保存", ButtonStyle::Primary));
        row3.push(make_button("cancel_license", "取消", ButtonStyle::Danger));
        proof {
            assert(row_texts(row1@) =~= edit_row());
            assert(row_texts(row2@) =~= toggle_row(self@));
            assert(row_texts(row3@) =~= finish_row());
        }
        let mut rows: Vec<Vec<Button>> = Vec::new();
        rows.push(row1);
        rows.push(row2);
        rows.push(row3);
        (embed, rows)
    }
}

} // verus!
