use vstd::prelude::*;
use vstd::string::*;
use crate::text::{clone_opt_string, str_eq, to_chars};
use crate::utils::editor_core::{DraftView, EditorCore, LicenseEditState};
use crate::utils::embed::opt_text;

verus! {

/// Seconds without any event after which an editing session ends.
pub const INTERACTION_TIMEOUT_SECS: u64 = 600;

/// The code with which the messaging surface says that the interaction
/// whose response is to be deleted no longer exists.
pub const UNKNOWN_INTERACTION: i64 = 10062;

/// The code for a message that no longer exists.
pub const UNKNOWN_MESSAGE: i64 = 10008;

/// Which text form, if any, is open and not yet answered.
#[derive(Debug, Clone, Copy, PartialEq, Eq, Structural)]
pub enum ModalWaitingState {
    Idle,
    WaitingForName,
    WaitingForRestrictions,
}

/// How an editing session ended. `state` holds the draft if the user saved
/// it and nothing if the user cancelled or never answered; `interaction` is
/// the last event of the user that can still be answered, and nothing after
/// a timeout.
#[derive(Debug, Clone, PartialEq, Eq)]
pub struct LicenseEditorOutcome {
    pub state: Option<LicenseEditState>,
    pub interaction: Option<u64>,
}

/// What a session ended with.
pub struct OutcomeView {
    pub state: Option<DraftView>,
    pub interaction: Option<u64>,
}

impl View for LicenseEditorOutcome {
    type V = OutcomeView;

    open spec fn view(&self) -> OutcomeView {
        OutcomeView {
            state: match self.state {
                Some(draft) => Some(draft@),
                None => None,
            },
            interaction: self.interaction,
        }
    }
}

/// What reaches the editor: a pressed button, with the handle of the event
/// and the button's id; a submitted text form, with the value of its first
/// input if it has one (the value itself may be absent); a text form that
/// was closed without an answer; or nothing at all within the session's
/// time limit.
#[derive(Debug, Clone, PartialEq, Eq)]
pub enum EditorEvent {
    Button { interaction: u64, custom_id: String },
    ModalSubmitted { input: Option<Option<String>> },
    ModalDismissed,
    TimedOut,
}

/// What an event holds.
pub enum EditorEventView {
    Button { interaction: u64, custom_id: Seq<char> },
    ModalSubmitted { input: Option<Option<Seq<char>>> },
    ModalDismissed,
    TimedOut,
}

impl View for EditorEvent {
    type V = EditorEventView;

    open spec fn view(&self) -> EditorEventView {
        match *self {
            EditorEvent::Button { interaction, custom_id } => EditorEventView::Button {
                interaction,
                custom_id: custom_id@,
            },
            EditorEvent::ModalSubmitted { input } => EditorEventView::ModalSubmitted {
                input: match input {
                    Some(value) => Some(opt_text(value)),
                    None => None,
                },
            },
            EditorEvent::ModalDismissed => EditorEventView::ModalDismissed,
            EditorEvent::TimedOut => EditorEventView::TimedOut,
        }
    }
}

/// How the editor answers a pressed button: by opening one of the two text
/// forms, filled with the draft's current text; by a bare acknowledgement;
/// or not at all.
#[derive(Debug, Clone, PartialEq, Eq)]
pub enum EditorResponse {
    NameModal { current: String },
    RestrictionsModal { current: String },
    Acknowledge,
    Nothing,
}

/// What an answer holds.
pub enum ResponseView {
    NameModal { current: Seq<char> },
    RestrictionsModal { current: Seq<char> },
    Acknowledge,
    Nothing,
}

impl View for EditorResponse {
    type V = ResponseView;

    open spec fn view(&self) -> ResponseView {
        match *self {
            EditorResponse::NameModal { current } => ResponseView::NameModal { current: current@ },
            EditorResponse::RestrictionsModal { current } => ResponseView::RestrictionsModal {
                current: current@,
            },
            EditorResponse::Acknowledge => ResponseView::Acknowledge,
            EditorResponse::Nothing => ResponseView::Nothing,
        }
    }
}

/// What the driver of a session does after an event: answer and go on
/// waiting, re-rendering the panel through the event named by `refresh` if
/// there is one; or answer, delete the panel through the event named by
/// `cleanup` as far as that works, and end with the outcome whatever came
/// of the deletion.
#[derive(Debug, Clone, PartialEq, Eq)]
pub enum EditorStep {
    Continue { response: EditorResponse, refresh: Option<u64> },
    Finished { response: EditorResponse, cleanup: u64, outcome: LicenseEditorOutcome },
}

/// What a step holds.
pub enum StepView {
    Continue { response: ResponseView, refresh: Option<u64> },
    Finished { response: ResponseView, cleanup: u64, outcome: OutcomeView },
}

impl View for EditorStep {
    type V = StepView;

    open spec fn view(&self) -> StepView {
        match *self {
            EditorStep::Continue { response, refresh } => StepView::Continue {
                response: response@,
                refresh,
            },
            EditorStep::Finished { response, cleanup, outcome } => StepView::Finished {
                response: response@,
                cleanup,
                outcome: outcome@,
            },
        }
    }
}

/// The state of an editing session: the draft and the open text form.
pub struct EditorView {
    pub draft: DraftView,
    pub waiting: ModalWaitingState,
}

/// A character that `trim` removes at either end of a text.
pub uninterp spec fn is_trimmed_char(c: char) -> bool;

/// A text holds nothing but characters that `trim` removes.
pub open spec fn is_blank(text: Seq<char>) -> bool {
    forall|i: int| 0 <= i < text.len() ==> is_trimmed_char(#[trigger] text[i])
}

/// The restriction note that a submitted text stands for: none if the text
/// is blank, the text as typed otherwise.
pub open spec fn note_of(text: Seq<char>) -> Option<Seq<char>> {
    if is_blank(text) {
        None
    } else {
        Some(text)
    }
}

/// The text of an optional value, empty if there is none.
pub open spec fn text_or_empty(value: Option<Seq<char>>) -> Seq<char> {
    match value {
        Some(text) => text,
        None => Seq::<char>::empty(),
    }
}

/// The draft after a text form was submitted while `waiting` was open.
/// A form without a text input changes nothing, and neither does a form
/// that nobody waits for.
pub open spec fn after_modal(
    draft: DraftView,
    waiting: ModalWaitingState,
    input: Option<Option<Seq<char>>>,
) -> DraftView {
    match (waiting, input) {
        (ModalWaitingState::WaitingForName, Some(value)) => DraftView {
            name: text_or_empty(value),
            ..draft
        },
        (ModalWaitingState::WaitingForRestrictions, Some(value)) => DraftView {
            restrictions_note: note_of(text_or_empty(value)),
            ..draft
        },
        _ => draft,
    }
}

/// The draft after a button was pressed: a toggle flips its permission,
/// every other button leaves the draft alone.
pub open spec fn after_button(draft: DraftView, custom_id: Seq<char>) -> DraftView {
    if custom_id == "toggle_redistribution"@ {
        DraftView { allow_redistribution: !draft.allow_redistribution, ..draft }
    } else if custom_id == "toggle_modification"@ {
        DraftView { allow_modification: !draft.allow_modification, ..draft }
    } else if custom_id == "toggle_backup"@ {
        DraftView { allow_backup: !draft.allow_backup, ..draft }
    } else {
        draft
    }
}

/// The text form that is open after a button was pressed.
pub open spec fn waiting_after_button(waiting: ModalWaitingState, custom_id: Seq<char>) -> ModalWaitingState {
    if custom_id == "edit_name"@ {
        ModalWaitingState::WaitingForName
    } else if custom_id == "edit_restrictions"@ {
        ModalWaitingState::WaitingForRestrictions
    } else {
        waiting
    }
}

/// The answer to a pressed button.
pub open spec fn response_to_button(draft: DraftView, custom_id: Seq<char>) -> ResponseView {
    if custom_id == "edit_name"@ {
        ResponseView::NameModal { current: draft.name }
    } else if custom_id == "edit_restrictions"@ {
        ResponseView::RestrictionsModal { current: text_or_empty(draft.restrictions_note) }
    } else if custom_id == "toggle_redistribution"@ || custom_id == "toggle_modification"@
        || custom_id == "toggle_backup"@ || custom_id == "save_license"@ || custom_id
        == "cancel_license"@ {
        ResponseView::Acknowledge
    } else {
        ResponseView::Nothing
    }
}

/// A button that ends the session.
pub open spec fn ends_session(custom_id: Seq<char>) -> bool {
    custom_id == "save_license"@ || custom_id == "cancel_license"@
}

/// The session after an event.
pub open spec fn editor_after(editor: EditorView, event: EditorEventView) -> EditorView {
    match event {
        EditorEventView::Button { interaction, custom_id } => EditorView {
            draft: after_button(editor.draft, custom_id),
            waiting: waiting_after_button(ModalWaitingState::Idle, custom_id),
        },
        EditorEventView::ModalSubmitted { input } => EditorView {
            draft: after_modal(editor.draft, editor.waiting, input),
            waiting: ModalWaitingState::Idle,
        },
        EditorEventView::ModalDismissed => EditorView {
            draft: editor.draft,
            waiting: ModalWaitingState::Idle,
        },
        EditorEventView::TimedOut => editor,
    }
}

/// What the driver does after an event, for a session that was opened by
/// the event `origin`.
///
/// A pressed button supersedes an open text form. Save ends the session
/// with the draft, cancel ends it without; both delete the panel through
/// the pressing event and hand that event on. Any other button goes on, and
/// the panel is re-rendered through the pressing event unless a text form
/// was opened. A submitted form re-renders the panel through `origin` if a
/// form was open, a closed one changes nothing on screen. A timeout deletes
/// the panel through `origin` and ends the session with neither draft nor
/// event.
pub open spec fn step_after(editor: EditorView, origin: u64, event: EditorEventView) -> StepView {
    match event {
        EditorEventView::Button { interaction, custom_id } => {
            if ends_session(custom_id) {
                StepView::Finished {
                    response: ResponseView::Acknowledge,
                    cleanup: interaction,
                    outcome: OutcomeView {
                        state: if custom_id == "save_license"@ {
                            Some(editor.draft)
                        } else {
                            None
                        },
                        interaction: Some(interaction),
                    },
                }
            } else {
                StepView::Continue {
                    response: response_to_button(editor.draft, custom_id),
                    refresh: if waiting_after_button(ModalWaitingState::Idle, custom_id)
                        == ModalWaitingState::Idle {
                        Some(interaction)
                    } else {
                        None
                    },
                }
            }
        },
        EditorEventView::ModalSubmitted { input } => StepView::Continue {
            response: ResponseView::Acknowledge,
            refresh: if editor.waiting == ModalWaitingState::Idle {
                None
            } else {
                Some(origin)
            },
        },
        EditorEventView::ModalDismissed => StepView::Continue {
            response: ResponseView::Nothing,
            refresh: None,
        },
        EditorEventView::TimedOut => StepView::Finished {
            response: ResponseView::Nothing,
            cleanup: origin,
            outcome: OutcomeView { state: None, interaction: None },
        },
    }
}

/// The outcome of a session that receives the events from position `from`
/// on, one after the other. Events after the one that ends the session are
/// never looked at; events that run out count as silence until the time
/// limit.
pub open spec fn session_outcome(
    editor: EditorView,
    origin: u64,
    events: Seq<EditorEventView>,
    from: int,
) -> OutcomeView
    decreases events.len() - from,
{
    if from < 0 || from >= events.len() {
        OutcomeView { state: None, interaction: None }
    } else {
        match step_after(editor, origin, events[from]) {
            StepView::Finished { outcome, .. } => outcome,
            StepView::Continue { .. } => session_outcome(
                editor_after(editor, events[from]),
                origin,
                events,
                from + 1,
            ),
        }
    }
}

/// What each event of a list is.
pub open spec fn event_views(events: Seq<EditorEvent>) -> Seq<EditorEventView> {
    Seq::new(events.len(), |i: int| events[i]@)
}

/// `char::is_whitespace` of the standard library: whether a character is
/// white space, which is what `trim` removes. The contract only gives the
/// answer a name; it says nothing about which characters these are.
#[verifier::external_body]
fn is_whitespace(c: char) -> (b: bool)
    ensures
        b == is_trimmed_char(c),
{
    c.is_whitespace()
}

/// Whether a text holds nothing but white space.
pub fn is_blank_text(text: &str) -> (b: bool)
    ensures
        b == is_blank(text@),
{
    let chars = to_chars(text);
    let mut i: usize = 0;
    while i < chars.len()
        invariant
            i <= chars.len(),
            chars@ == text@,
            forall|k: int| 0 <= k < i ==> is_trimmed_char(#[trigger] text@[k]),
        decreases chars.len() - i,
    {
        if !is_whitespace(chars[i]) {
            return false;
        }
        i += 1;
    }
    true
}

/// The messaging surface answered a deletion with the code for a response
/// or a message that no longer exists.
pub open spec fn response_already_gone(code: i64) -> bool {
    code == UNKNOWN_INTERACTION || code == UNKNOWN_MESSAGE
}

/// The editor of one draft: a session that is driven event by event.
pub struct LicenseEditor {
    core: EditorCore,
    modal_waiting: ModalWaitingState,
}

impl View for LicenseEditor {
    type V = EditorView;

    closed spec fn view(&self) -> EditorView {
        EditorView { draft: self.core@, waiting: self.modal_waiting }
    }
}

impl LicenseEditor {
    /// The draft as a value.
    pub closed spec fn draft(self) -> LicenseEditState {
        self.core.draft()
    }

    /// What the session shows of the draft is what the draft holds.
    pub proof fn lemma_view_is_draft_view(self)
        ensures
            self@.draft == self.draft()@,
    {
        self.core.lemma_view_is_draft_view();
    }

    /// A session on the given draft, with no text form open.
    pub fn new(state: LicenseEditState) -> (r: LicenseEditor)
        ensures
            r.draft() == state,
            r@ == (EditorView { draft: state@, waiting: ModalWaitingState::Idle }),
    {
        let core = EditorCore::new(state);
        proof {
            core.lemma_view_is_draft_view();
        }
        LicenseEditor { core, modal_waiting: ModalWaitingState::Idle }
    }

    /// The draft as it stands.
    pub fn get_state(&self) -> (r: &LicenseEditState)
        ensures
            *r == self.draft(),
            r@ == self@.draft,
    {
        proof {
            self.core.lemma_view_is_draft_view();
        }
        self.core.get_state()
    }

    /// The text form that is open, if any.
    pub fn waiting(&self) -> (r: ModalWaitingState)
        ensures
            r == self@.waiting,
    {
        self.modal_waiting
    }

    /// Takes a submitted text form into the draft, according to the form
    /// that was open. The session keeps waiting for the same form: the
    /// caller decides what follows.
    pub fn handle_modal_submit(&mut self, input: &Option<Option<String>>)
        ensures
            final(self)@.waiting == old(self)@.waiting,
            final(self)@.draft == after_modal(
                old(self)@.draft,
                old(self)@.waiting,
                match *input {
                    Some(value) => Some(opt_text(value)),
                    None => None,
                },
            ),
    {
        proof {
            self.core.lemma_view_is_draft_view();
        }
        match self.modal_waiting {
            ModalWaitingState::WaitingForName => {
                if let Some(value) = input {
                    let new_name = match value {
                        Some(text) => text.clone(),
                        None => String::new(),
                    };
                    let state = self.core.get_state_mut();
                    state.license_name = new_name;
                }
            },
            ModalWaitingState::WaitingForRestrictions => {
                if let Some(value) = input {
                    let text = match value {
                        Some(text) => text.clone(),
                        None => String::new(),
                    };
                    let note = if is_blank_text(text.as_str()) {
                        None
                    } else {
                        Some(text)
                    };
                    let state = self.core.get_state_mut();
                    state.restrictions_note = note;
                }
            },
            ModalWaitingState::Idle => {},
        }
        proof {
            self.core.lemma_view_is_draft_view();
        }
    }

    /// Handles a pressed button: changes the draft or opens a text form, and
    /// says how to answer the event and whether the session ends.
    pub fn handle_interaction(&mut self, custom_id: &str) -> (r: (EditorResponse, bool))
        ensures
            r.0@ == response_to_button(old(self)@.draft, custom_id@),
            r.1 == ends_session(custom_id@),
            final(self)@.draft == after_button(old(self)@.draft, custom_id@),
            final(self)@.waiting == waiting_after_button(old(self)@.waiting, custom_id@),
    {
        proof {
            self.core.lemma_view_is_draft_view();
        }
        let r = if str_eq(custom_id, "edit_name") {
            let current = self.core.get_state().license_name.clone();
            self.modal_waiting = ModalWaitingState::WaitingForName;
            (EditorResponse::NameModal { current }, false)
        } else if str_eq(custom_id, "edit_restrictions") {
            let current = match clone_opt_string(&self.core.get_state().restrictions_note) {
                Some(text) => text,
                None => String::new(),
            };
            self.modal_waiting = ModalWaitingState::WaitingForRestrictions;
            (EditorResponse::RestrictionsModal { current }, false)
        } else if str_eq(custom_id, "toggle_redistribution") {
            let state = self.core.get_state_mut();
            state.allow_redistribution = !state.allow_redistribution;
            (EditorResponse::Acknowledge, false)
        } else if str_eq(custom_id, "toggle_modification") {
            let state = self.core.get_state_mut();
            state.allow_modification = !state.allow_modification;
            (EditorResponse::Acknowledge, false)
        } else if str_eq(custom_id, "toggle_backup") {
            let state = self.core.get_state_mut();
            state.allow_backup = !state.allow_backup;
            (EditorResponse::Acknowledge, false)
        } else if str_eq(custom_id, "save_license") {
            (EditorResponse::Acknowledge, true)
        } else if str_eq(custom_id, "cancel_license") {
            (EditorResponse::Acknowledge, true)
        } else {
            (EditorResponse::Nothing, false)
        };
        proof {
            self.core.lemma_view_is_draft_view();
            lemma_button_ids_differ();
        }
        r
    }

    /// A deletion of the panel that failed is passed over: the session has
    /// ended with its outcome before the deletion is tried, and nothing
    /// that follows depends on it. This says whether the failure is worth a
    /// line in the log: not if the messaging surface answered that the
    /// panel was already gone.
    pub fn cleanup_ui(failure: Option<i64>) -> (worth_logging: bool)
        ensures
            worth_logging == !(failure.is_some() && response_already_gone(failure.unwrap())),
    {
        match failure {
            Some(code) => !(code == UNKNOWN_INTERACTION || code == UNKNOWN_MESSAGE),
            None => true,
        }
    }

    /// Takes one event and says what the driver does next.
    pub fn step(&mut self, origin: u64, event: &EditorEvent) -> (r: EditorStep)
        ensures
            r@ == step_after(old(self)@, origin, event@),
            final(self)@ == editor_after(old(self)@, event@),
    {
        proof {
            self.core.lemma_view_is_draft_view();
            lemma_button_ids_differ();
        }
        match event {
            EditorEvent::Button { interaction, custom_id } => {
                self.modal_waiting = ModalWaitingState::Idle;
                let saved = str_eq(custom_id.as_str(), "save_license");
                let before = self.core.get_state().duplicate();
                let (response, should_exit) = self.handle_interaction(custom_id.as_str());
                if should_exit {
                    let state = if saved {
                        Some(before)
                    } else {
                        None
                    };
                    EditorStep::Finished {
                        response,
                        cleanup: *interaction,
                        outcome: LicenseEditorOutcome { state, interaction: Some(*interaction) },
                    }
                } else {
                    let refresh = match self.modal_waiting {
                        ModalWaitingState::Idle => Some(*interaction),
                        _ => None,
                    };
                    EditorStep::Continue { response, refresh }
                }
            },
            EditorEvent::ModalSubmitted { input } => {
                let refresh = match self.modal_waiting {
                    ModalWaitingState::Idle => None,
                    _ => Some(origin),
                };
                self.handle_modal_submit(input);
                self.modal_waiting = ModalWaitingState::Idle;
                EditorStep::Continue { response: EditorResponse::Acknowledge, refresh }
            },
            EditorEvent::ModalDismissed => {
                self.modal_waiting = ModalWaitingState::Idle;
                EditorStep::Continue { response: EditorResponse::Nothing, refresh: None }
            },
            EditorEvent::TimedOut => EditorStep::Finished {
                response: EditorResponse::Nothing,
                cleanup: origin,
                outcome: LicenseEditorOutcome { state: None, interaction: None },
            },
        }
    }
}

/// The ids of the editor's buttons are pairwise different texts.
pub proof fn lemma_button_ids_differ()
    ensures
        "edit_name"@ != "edit_restrictions"@,
        "edit_name"@ != "save_license"@,
        "edit_name"@ != "cancel_license"@,
        "edit_restrictions"@ != "save_license"@,
        "edit_restrictions"@ != "cancel_license"@,
        "toggle_redistribution"@ != "save_license"@,
        "toggle_redistribution"@ != "cancel_license"@,
        "toggle_modification"@ != "save_license"@,
        "toggle_modification"@ != "cancel_license"@,
        "toggle_backup"@ != "save_license"@,
        "toggle_backup"@ != "cancel_license"@,
        "save_license"@ != "cancel_license"@,
        "toggle_redistribution"@ != "toggle_modification"@,
        "toggle_redistribution"@ != "toggle_backup"@,
        "toggle_modification"@ != "toggle_backup"@,
        "edit_name"@ != "toggle_redistribution"@,
        "edit_name"@ != "toggle_modification"@,
        "edit_name"@ != "toggle_backup"@,
        "edit_restrictions"@ != "toggle_redistribution"@,
        "edit_restrictions"@ != "toggle_modification"@,
        "edit_restrictions"@ != "toggle_backup"@,
{
    reveal_strlit("edit_name");
    reveal_strlit("edit_restrictions");
    reveal_strlit("toggle_redistribution");
    reveal_strlit("toggle_modification");
    reveal_strlit("toggle_backup");
    reveal_strlit("save_license");
    reveal_strlit("cancel_license");
    assert("edit_name"@[5] != "edit_restrictions"@[5]);
    assert("edit_name"@[0] != "save_license"@[0]);
    assert("edit_name"@[0] != "cancel_license"@[0]);
    assert("edit_restrictions"@[0] != "save_license"@[0]);
    assert("edit_restrictions"@[0] != "cancel_license"@[0]);
    assert("toggle_redistribution"@[0] != "save_license"@[0]);
    assert("toggle_redistribution"@[0] != "cancel_license"@[0]);
    assert("toggle_modification"@[0] != "save_license"@[0]);
    assert("toggle_modification"@[0] != "cancel_license"@[0]);
    assert("toggle_backup"@[0] != "save_license"@[0]);
    assert("toggle_backup"@[0] != "cancel_license"@[0]);
    assert("save_license"@[0] != "cancel_license"@[0]);
    assert("toggle_redistribution"@[7] != "toggle_modification"@[7]);
    assert("toggle_redistribution"@[7] != "toggle_backup"@[7]);
    assert("toggle_modification"@[7] != "toggle_backup"@[7]);
    assert("edit_name"@[0] != "toggle_redistribution"@[0]);
    assert("edit_name"@[0] != "toggle_modification"@[0]);
    assert("edit_name"@[0] != "toggle_backup"@[0]);
    assert("edit_restrictions"@[0] != "toggle_redistribution"@[0]);
    assert("edit_restrictions"@[0] != "toggle_modification"@[0]);
    assert("edit_restrictions"@[0] != "toggle_backup"@[0]);
}

/// Runs a whole session on the given draft over a recorded list of events
/// and returns how it ended.
pub fn present_license_editing_panel(
    origin: u64,
    initial_state: LicenseEditState,
    events: &Vec<EditorEvent>,
) -> (outcome: LicenseEditorOutcome)
    ensures
        outcome@ == session_outcome(
            EditorView { draft: initial_state@, waiting: ModalWaitingState::Idle },
            origin,
            event_views(events@),
            0,
        ),
{
    let mut editor = LicenseEditor::new(initial_state);
    let mut i: usize = 0;
    while i < events.len()
        invariant
            i <= events.len(),
            session_outcome(
                EditorView { draft: initial_state@, waiting: ModalWaitingState::Idle },
                origin,
                event_views(events@),
                0,
            ) == session_outcome(editor@, origin, event_views(events@), i as int),
        decreases events.len() - i,
    {
        let ghost before = editor@;
        assert(event_views(events@)[i as int] == events@[i as int]@);
        match editor.step(origin, &events[i]) {
            EditorStep::Finished { outcome, .. } => {
                return outcome;
            },
            EditorStep::Continue { .. } => {},
        }
        i += 1;
    }
    LicenseEditorOutcome { state: None, interaction: None }
}

/// Pressing the same toggle twice leaves the draft as it was.
pub proof fn lemma_toggle_twice(draft: DraftView, custom_id: Seq<char>)
    ensures
        after_button(after_button(draft, custom_id), custom_id) == draft,
{
}

/// Only save hands a draft on: a session that ends with a draft ended by
/// the save button, and the draft is the one that the editor held then.
pub proof fn lemma_only_save_keeps_draft(editor: EditorView, origin: u64, event: EditorEventView)
    ensures
        match step_after(editor, origin, event) {
            StepView::Finished { outcome, .. } => outcome.state.is_some() ==> (event matches EditorEventView::Button {
                custom_id,
                ..
            } && custom_id == "save_license"@ && outcome.state == Some(editor.draft)),
            StepView::Continue { .. } => true,
        },
{
}

/// A timeout ends the session at once, with neither draft nor event, and
/// asks for the panel to be deleted.
pub proof fn lemma_timeout_ends_session(editor: EditorView, origin: u64)
    ensures
        step_after(editor, origin, EditorEventView::TimedOut) == (StepView::Finished {
            response: ResponseView::Nothing,
            cleanup: origin,
            outcome: OutcomeView { state: None, interaction: None },
        }),
{
}

/// A pressed button is never blocked by an open text form: whatever form
/// was open, the step and the session afterwards are those of a session in
/// which none was open.
pub proof fn lemma_button_supersedes_modal(
    draft: DraftView,
    waiting: ModalWaitingState,
    origin: u64,
    interaction: u64,
    custom_id: Seq<char>,
)
    ensures
        step_after(
            EditorView { draft, waiting },
            origin,
            EditorEventView::Button { interaction, custom_id },
        ) == step_after(
            EditorView { draft, waiting: ModalWaitingState::Idle },
            origin,
            EditorEventView::Button { interaction, custom_id },
        ),
        editor_after(
            EditorView { draft, waiting },
            EditorEventView::Button { interaction, custom_id },
        ) == editor_after(
            EditorView { draft, waiting: ModalWaitingState::Idle },
            EditorEventView::Button { interaction, custom_id },
        ),
{
}

} // verus!
