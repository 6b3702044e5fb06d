//! The state behind the window and its reactions: what a click, a closed
//! dialog or a finished formatter run changes, and which outside work it
//! asks for. Dialogs, threads and the formatter process are the caller's.

use std::path::PathBuf;
use vstd::prelude::*;
use vstd::string::*;
use crate::cell::HandoffCell;
use crate::options::{invocation, invoke, FormatFlag, FormatOptions, Invocation, InvocationView};
use crate::outcome::{
    error_line,
    format_error,
    outcome_of,
    read_result,
    FormatOutcome,
    FormatOutcomeView,
    ProcessResult,
    ProcessResultView,
};

verus! {

/// How a save dialog, and the write that follows it, ended.
#[derive(Clone, Debug, PartialEq, Eq)]
pub enum SaveResult {
    /// The user chose no path.
    Cancelled,
    /// The editor's text was written to the chosen path.
    Written,
    /// The write failed; the text says why.
    Failed(String),
}

pub enum SaveResultView {
    Cancelled,
    Written,
    Failed(Seq<char>),
}

impl View for SaveResult {
    type V = SaveResultView;

    open spec fn view(&self) -> SaveResultView {
        match *self {
            SaveResult::Cancelled => SaveResultView::Cancelled,
            SaveResult::Written => SaveResultView::Written,
            SaveResult::Failed(why) => SaveResultView::Failed(why@),
        }
    }
}

/// Something that happened since the last reaction.
#[derive(Clone, Debug, PartialEq, Eq)]
pub enum Event {
    /// The user asked to open a file.
    OpenClicked,
    /// The user asked to save the editor's text.
    SaveClicked,
    /// The user clicked the checkbox of a switch.
    OptionClicked(FormatFlag),
    /// The user asked to reset the editor.
    ResetClicked,
    /// The user edited the text; this is the new text.
    EditorChanged(String),
    /// The open dialog closed, with the chosen path or without one.
    OpenDialogClosed(Option<PathBuf>),
    /// The save dialog closed and its work is done.
    SaveDialogClosed(SaveResult),
    /// The formatter run that was asked for has ended.
    FormatterFinished(ProcessResult),
}

pub enum EventView {
    OpenClicked,
    SaveClicked,
    OptionClicked(FormatFlag),
    ResetClicked,
    EditorChanged(Seq<char>),
    OpenDialogClosed(Option<PathBuf>),
    SaveDialogClosed(SaveResultView),
    FormatterFinished(ProcessResultView),
}

impl View for Event {
    type V = EventView;

    open spec fn view(&self) -> EventView {
        match *self {
            Event::OpenClicked => EventView::OpenClicked,
            Event::SaveClicked => EventView::SaveClicked,
            Event::OptionClicked(flag) => EventView::OptionClicked(flag),
            Event::ResetClicked => EventView::ResetClicked,
            Event::EditorChanged(text) => EventView::EditorChanged(text@),
            Event::OpenDialogClosed(choice) => EventView::OpenDialogClosed(choice),
            Event::SaveDialogClosed(result) => EventView::SaveDialogClosed(result@),
            Event::FormatterFinished(result) => EventView::FormatterFinished(result@),
        }
    }
}

/// The outside work that a reaction asks for.
#[derive(Clone, Debug, PartialEq, Eq)]
pub enum Action {
    /// Nothing is to be done.
    Nothing,
    /// Show the open dialog in the background.
    OpenDialog,
    /// Show the save dialog in the background, proposing this file name,
    /// and write this text to the chosen path.
    SaveDialog { suggested_name: String, contents: String },
    /// Run the formatter to completion.
    RunFormatter(Invocation),
}

pub enum ActionView {
    Nothing,
    OpenDialog,
    SaveDialog { suggested_name: Seq<char>, contents: Seq<char> },
    RunFormatter(InvocationView),
}

impl View for Action {
    type V = ActionView;

    open spec fn view(&self) -> ActionView {
        match *self {
            Action::Nothing => ActionView::Nothing,
            Action::OpenDialog => ActionView::OpenDialog,
            Action::SaveDialog { suggested_name, contents } => ActionView::SaveDialog {
                suggested_name: suggested_name@,
                contents: contents@,
            },
            Action::RunFormatter(call) => ActionView::RunFormatter(call@),
        }
    }
}

/// The text of an optional string.
pub open spec fn text_of(value: Option<String>) -> Option<Seq<char>> {
    match value {
        Some(text) => Some(text@),
        None => None,
    }
}

/// The file name that the save dialog proposes.
pub open spec fn suggested_name() -> Seq<char> {
    "formatted.lua"@
}

/// The state behind the window.
pub struct MyApp {
    binary_path: String,
    error: Option<String>,
    input_file: Option<PathBuf>,
    is_opening_input: bool,
    is_opening_output: bool,
    formatted_code: String,
    editor_code: String,
    options: FormatOptions,
}

pub struct AppView {
    /// The formatter executable, fixed when the state is made.
    pub binary_path: Seq<char>,
    /// The message of the last failure, while it is shown.
    pub error: Option<Seq<char>>,
    /// The file last chosen in the open dialog.
    pub input_file: Option<PathBuf>,
    /// Whether an open dialog is in flight.
    pub is_opening_input: bool,
    /// Whether a save dialog is in flight.
    pub is_opening_output: bool,
    /// The text of the last successful formatter run.
    pub formatted_code: Seq<char>,
    /// The text in the editor.
    pub editor_code: Seq<char>,
    pub options: FormatOptions,
}

impl View for MyApp {
    type V = AppView;

    closed spec fn view(&self) -> AppView {
        AppView {
            binary_path: self.binary_path@,
            error: text_of(self.error),
            input_file: self.input_file,
            is_opening_input: self.is_opening_input,
            is_opening_output: self.is_opening_output,
            formatted_code: self.formatted_code@,
            editor_code: self.editor_code@,
            options: self.options,
        }
    }
}

impl AppView {
    /// The state of a fresh window for the formatter at `binary_path`.
    pub open spec fn initial(binary_path: Seq<char>) -> AppView {
        AppView {
            binary_path,
            error: None,
            input_file: None,
            is_opening_input: false,
            is_opening_output: false,
            formatted_code: Seq::empty(),
            editor_code: Seq::empty(),
            options: FormatOptions::all_off(),
        }
    }

    /// The formatter run for the chosen file under the current options, or
    /// nothing where no file is chosen.
    pub open spec fn run_binary(self) -> ActionView {
        match self.input_file {
            Some(path) => ActionView::RunFormatter(
                invocation(self.binary_path, path, self.options),
            ),
            None => ActionView::Nothing,
        }
    }

    /// The state after a formatter run with `outcome`: success replaces the
    /// formatted text and the editor's text and clears the error; failure
    /// sets the error and leaves both texts alone.
    pub open spec fn apply_outcome(self, outcome: FormatOutcomeView) -> AppView {
        match outcome {
            FormatOutcomeView::Success(text) => AppView {
                formatted_code: text,
                editor_code: text,
                error: None,
                ..self
            },
            FormatOutcomeView::Error(message) => AppView { error: Some(message), ..self },
        }
    }

    /// The state after `event`, and the outside work it asks for.
    pub open spec fn update(self, event: EventView) -> (AppView, ActionView) {
        match event {
            EventView::OpenClicked => if self.is_opening_input {
                (self, ActionView::Nothing)
            } else {
                (AppView { is_opening_input: true, error: None, ..self }, ActionView::OpenDialog)
            },
            EventView::SaveClicked => if self.is_opening_output {
                (self, ActionView::Nothing)
            } else {
                (
                    AppView { is_opening_output: true, error: None, ..self },
                    ActionView::SaveDialog {
                        suggested_name: suggested_name(),
                        contents: self.editor_code,
                    },
                )
            },
            EventView::OptionClicked(flag) => {
                let next = AppView { options: self.options.toggled(flag), ..self };
                (next, next.run_binary())
            },
            EventView::ResetClicked => (
                AppView { editor_code: self.formatted_code, ..self },
                ActionView::Nothing,
            ),
            EventView::EditorChanged(text) => (
                AppView { editor_code: text, ..self },
                ActionView::Nothing,
            ),
            EventView::OpenDialogClosed(choice) => match choice {
                Some(path) => {
                    let next = AppView { input_file: Some(path), is_opening_input: false, ..self };
                    (next, next.run_binary())
                },
                None => (AppView { is_opening_input: false, ..self }, ActionView::Nothing),
            },
            EventView::SaveDialogClosed(result) => match result {
                SaveResultView::Cancelled => (
                    AppView { is_opening_output: false, ..self },
                    ActionView::Nothing,
                ),
                SaveResultView::Written => (
                    AppView { is_opening_output: false, error: None, ..self },
                    ActionView::Nothing,
                ),
                SaveResultView::Failed(why) => (
                    AppView { is_opening_output: false, error: Some(why), ..self },
                    ActionView::Nothing,
                ),
            },
            EventView::FormatterFinished(result) => (
                self.apply_outcome(outcome_of(result)),
                ActionView::Nothing,
            ),
        }
    }

    /// The line shown below the editor, if any.
    pub open spec fn visible_error(self) -> Option<Seq<char>> {
        match self.error {
            Some(message) => Some(error_line(message)),
            None => None,
        }
    }
}

impl MyApp {
    /// The state of a fresh window for the formatter at `binary_path`.
    pub fn new(binary_path: String) -> (app: MyApp)
        ensures
            app@ == AppView::initial(binary_path@),
    {
        MyApp {
            binary_path,
            error: None,
            input_file: None,
            is_opening_input: false,
            is_opening_output: false,
            formatted_code: String::new(),
            editor_code: String::new(),
            options: FormatOptions::new(),
        }
    }

    /// Describes the formatter run for the chosen file under the current
    /// options. Without a chosen file there is nothing to run.
    pub fn run_binary(&self) -> (action: Action)
        ensures
            action@ == self@.run_binary(),
    {
        match &self.input_file {
            Some(path) => Action::RunFormatter(
                invoke(self.binary_path.as_str(), path, &self.options),
            ),
            None => Action::Nothing,
        }
    }

    /// Takes in the outcome of a formatter run.
    pub fn apply_outcome(&mut self, outcome: FormatOutcome)
        ensures
            final(self)@ == old(self)@.apply_outcome(outcome@),
    {
        match outcome {
            FormatOutcome::Success(text) => {
                self.editor_code = text.clone();
                self.formatted_code = text;
                self.error = None;
            },
            FormatOutcome::Error(message) => {
                self.error = Some(message);
            },
        }
    }

    /// Reacts to `event` and says which outside work is to be done.
    pub fn update(&mut self, event: Event) -> (action: Action)
        ensures
            final(self)@ == old(self)@.update(event@).0,
            action@ == old(self)@.update(event@).1,
    {
        match event {
            Event::OpenClicked => {
                if self.is_opening_input {
                    Action::Nothing
                } else {
                    self.error = None;
                    self.is_opening_input = true;
                    Action::OpenDialog
                }
            },
            Event::SaveClicked => {
                if self.is_opening_output {
                    Action::Nothing
                } else {
                    self.error = None;
                    self.is_opening_output = true;
                    Action::SaveDialog {
                        suggested_name: String::from_str("formatted.lua"),
                        contents: self.editor_code.clone(),
                    }
                }
            },
            Event::OptionClicked(flag) => {
                self.options.toggle(flag);
                self.run_binary()
            },
            Event::ResetClicked => {
                self.editor_code = self.formatted_code.clone();
                Action::Nothing
            },
            Event::EditorChanged(text) => {
                self.editor_code = text;
                Action::Nothing
            },
            Event::OpenDialogClosed(choice) => {
                self.is_opening_input = false;
                match choice {
                    Some(path) => {
                        self.input_file = Some(path);
                        self.run_binary()
                    },
                    None => Action::Nothing,
                }
            },
            Event::SaveDialogClosed(result) => {
                self.is_opening_output = false;
                match result {
                    SaveResult::Cancelled => {},
                    SaveResult::Written => {
                        self.error = None;
                    },
                    SaveResult::Failed(why) => {
                        self.error = Some(why);
                    },
                }
                Action::Nothing
            },
            Event::FormatterFinished(result) => {
                self.apply_outcome(read_result(result));
                Action::Nothing
            },
        }
    }

    /// Polls the cell that the open dialog's thread fills when the dialog
    /// closes. The cell is left empty; what it held is reacted to as the
    /// dialog's end, and an empty cell changes nothing.
    pub fn poll_open_dialog(&mut self, cell: &mut HandoffCell<Option<PathBuf>>) -> (action: Action)
        ensures
            final(cell)@ == None::<Option<PathBuf>>,
            old(cell)@ matches Some(choice) ==> {
                let event = EventView::OpenDialogClosed(choice);
                &&& final(self)@ == old(self)@.update(event).0
                &&& action@ == old(self)@.update(event).1
            },
            old(cell)@ is None ==> final(self)@ == old(self)@ && action@ == ActionView::Nothing,
    {
        match cell.read_and_clear() {
            Some(choice) => self.update(Event::OpenDialogClosed(choice)),
            None => Action::Nothing,
        }
    }

    /// Polls the cell that the save dialog's thread fills when its work is
    /// done. The cell is left empty; what it held is reacted to as the
    /// dialog's end, and an empty cell changes nothing.
    pub fn poll_save_dialog(&mut self, cell: &mut HandoffCell<SaveResult>)
        ensures
            final(cell)@ == None::<SaveResult>,
            old(cell)@ matches Some(result) ==> final(self)@ == old(self)@.update(
                EventView::SaveDialogClosed(result@),
            ).0,
            old(cell)@ is None ==> final(self)@ == old(self)@,
    {
        match cell.read_and_clear() {
            Some(result) => {
                self.update(Event::SaveDialogClosed(result));
            },
            None => {},
        }
    }

    /// The line shown below the editor, if any.
    pub fn visible_error(&self) -> (line: Option<String>)
        ensures
            text_of(line) == self@.visible_error(),
    {
        match &self.error {
            Some(message) => Some(format_error(message.as_str())),
            None => None,
        }
    }

    pub fn binary_path(&self) -> (path: &String)
        ensures
            path@ == self@.binary_path,
    {
        &self.binary_path
    }

    pub fn error(&self) -> (error: &Option<String>)
        ensures
            text_of(*error) == self@.error,
    {
        &self.error
    }

    pub fn input_file(&self) -> (file: &Option<PathBuf>)
        ensures
            *file == self@.input_file,
    {
        &self.input_file
    }

    pub fn is_opening_input(&self) -> (pending: bool)
        ensures
            pending == self@.is_opening_input,
    {
        self.is_opening_input
    }

    pub fn is_opening_output(&self) -> (pending: bool)
        ensures
            pending == self@.is_opening_output,
    {
        self.is_opening_output
    }

    pub fn formatted_code(&self) -> (text: &String)
        ensures
            text@ == self@.formatted_code,
    {
        &self.formatted_code
    }

    pub fn editor_code(&self) -> (text: &String)
        ensures
            text@ == self@.editor_code,
    {
        &self.editor_code
    }

    pub fn options(&self) -> (options: FormatOptions)
        ensures
            options == self@.options,
    {
        self.options
    }
}

/// The two kinds of dialog that run in the background.
#[derive(Clone, Copy, Debug, PartialEq, Eq, Structural)]
pub enum DialogKind {
    Open,
    Save,
}

impl DialogKind {
    /// Whether `action` starts a dialog of this kind.
    pub open spec fn started_by(self, action: ActionView) -> bool {
        match self {
            DialogKind::Open => action is OpenDialog,
            DialogKind::Save => action is SaveDialog,
        }
    }

    /// Whether `event` reports the end of a dialog of this kind.
    pub open spec fn ended_by(self, event: EventView) -> bool {
        match self {
            DialogKind::Open => event is OpenDialogClosed,
            DialogKind::Save => event is SaveDialogClosed,
        }
    }

    /// Whether `event` is the user's request for a dialog of this kind.
    pub open spec fn requested_by(self, event: EventView) -> bool {
        match self {
            DialogKind::Open => event is OpenClicked,
            DialogKind::Save => event is SaveClicked,
        }
    }
}

impl AppView {
    /// Whether a dialog of `kind` is in flight.
    pub open spec fn pending(self, kind: DialogKind) -> bool {
        match kind {
            DialogKind::Open => self.is_opening_input,
            DialogKind::Save => self.is_opening_output,
        }
    }

    /// The state after the events of `events`, in order.
    pub open spec fn run(self, events: Seq<EventView>) -> AppView
        decreases events.len(),
    {
        if events.len() == 0 {
            self
        } else {
            self.run(events.drop_last()).update(events.last()).0
        }
    }

    /// How many dialogs of `kind` the reactions to `events` started.
    pub open spec fn started(self, events: Seq<EventView>, kind: DialogKind) -> nat
        decreases events.len(),
    {
        if events.len() == 0 {
            0
        } else {
            let before = self.started(events.drop_last(), kind);
            if kind.started_by(self.run(events.drop_last()).update(events.last()).1) {
                before + 1
            } else {
                before
            }
        }
    }
}

/// How many of `events` report the end of a dialog of `kind`.
pub open spec fn ended(events: Seq<EventView>, kind: DialogKind) -> nat
    decreases events.len(),
{
    if events.len() == 0 {
        0
    } else if kind.ended_by(events.last()) {
        ended(events.drop_last(), kind) + 1
    } else {
        ended(events.drop_last(), kind)
    }
}

/// While a dialog of some kind is in flight, a further request for that kind
/// changes nothing and starts nothing.
pub proof fn lemma_request_ignored_while_pending(
    state: AppView,
    kind: DialogKind,
    event: EventView,
)
    requires
        state.pending(kind),
        kind.requested_by(event),
    ensures
        state.update(event) == (state, ActionView::Nothing),
{
}

/// A request for a dialog that is not in flight starts exactly that dialog,
/// marks it in flight and clears the error; asked again at once, it starts no
/// second one.
pub proof fn lemma_request_starts_one(state: AppView, kind: DialogKind, event: EventView)
    requires
        !state.pending(kind),
        kind.requested_by(event),
    ensures
        kind.started_by(state.update(event).1),
        state.update(event).0.pending(kind),
        state.update(event).0.error.is_none(),
        state.update(event).0.update(event) == (state.update(event).0, ActionView::Nothing),
{
}

/// Over any sequence of events, the dialogs of one kind that were started
/// exceed those that ended by at most one, and by none once the state shows
/// none in flight.
pub proof fn lemma_single_flight(state: AppView, events: Seq<EventView>, kind: DialogKind)
    ensures
        state.started(events, kind) <= ended(events, kind) + (if state.run(events).pending(kind) {
            1nat
        } else {
            0nat
        }),
    decreases events.len(),
{
    if events.len() > 0 {
        lemma_single_flight(state, events.drop_last(), kind);
    }
}

/// The formatter executable of a state never changes.
pub proof fn lemma_tool_is_fixed(state: AppView, events: Seq<EventView>)
    ensures
        state.run(events).binary_path == state.binary_path,
    decreases events.len(),
{
    if events.len() > 0 {
        lemma_tool_is_fixed(state, events.drop_last());
    }
}

/// Right after a successful run the editor holds the formatted text, and
/// no error is shown.
pub proof fn lemma_success_fills_editor(state: AppView, text: Seq<char>)
    ensures
        state.apply_outcome(FormatOutcomeView::Success(text)).editor_code == text,
        state.apply_outcome(FormatOutcomeView::Success(text)).formatted_code == text,
        state.apply_outcome(FormatOutcomeView::Success(text)).visible_error().is_none(),
{
}

/// A failed run shows its message and leaves the editor and the formatted
/// text as they were.
pub proof fn lemma_failure_keeps_editor(state: AppView, message: Seq<char>)
    ensures
        state.apply_outcome(FormatOutcomeView::Error(message)).editor_code == state.editor_code,
        state.apply_outcome(FormatOutcomeView::Error(message)).formatted_code
            == state.formatted_code,
        state.apply_outcome(FormatOutcomeView::Error(message)).visible_error() == Some(
            error_line(message),
        ),
{
}

/// Whatever happens between two formatter results, edits of the text
/// included, the formatted text stays, and a reset makes the editor hold
/// exactly that text again.
pub proof fn lemma_reset_restores(state: AppView, events: Seq<EventView>)
    requires
        forall|i: int| 0 <= i < events.len() ==> !(#[trigger] events[i] is FormatterFinished),
    ensures
        state.run(events).formatted_code == state.formatted_code,
        state.run(events).update(EventView::ResetClicked).0.editor_code == state.formatted_code,
        state.run(events).update(EventView::ResetClicked).0.formatted_code == state.formatted_code,
    decreases events.len(),
{
    if events.len() > 0 {
        let before = events.drop_last();
        assert forall|i: int| 0 <= i < before.len() implies !(#[trigger] before[i]
            is FormatterFinished) by {
            assert(before[i] == events[i]);
        }
        lemma_reset_restores(state, before);
        assert(!(events[events.len() - 1] is FormatterFinished));
    }
}

/// A successful run puts its text into the editor; whatever follows short of
/// another formatter result, a reset brings exactly that text back.
pub proof fn lemma_reset_after_success(
    state: AppView,
    result: ProcessResultView,
    events: Seq<EventView>,
)
    requires
        outcome_of(result) is Success,
        forall|i: int| 0 <= i < events.len() ==> !(#[trigger] events[i] is FormatterFinished),
    ensures
        ({
            let text = outcome_of(result)->Success_0;
            let formatted = state.update(EventView::FormatterFinished(result)).0;
            &&& formatted.editor_code == text
            &&& formatted.formatted_code == text
            &&& formatted.run(events).update(EventView::ResetClicked).0.editor_code == text
        }),
{
    lemma_reset_restores(state.update(EventView::FormatterFinished(result)).0, events);
}

} // verus!
