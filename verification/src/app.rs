//! The application as a state machine: `update` takes the state and one event
//! of the user interface to the next state and to the action that the caller
//! is to carry out.

use crate::client::http::{memcell_views, ClientError, Memcell, MemcellView};
use crate::ui::paperclip_adjacent::{AppModel, AppState, PaperclipAdjacent};
use crate::utils::auth::{clean_digits, clean_phone_number, fmt_phone_input, format_progressive};
use vstd::prelude::*;

verus! {

/// The list takes no further note once it holds this many.
pub const MAX_MEMCELLS: usize = 10;

/// The greatest number of characters of a note that can be created.
pub const MAX_TASK_LEN: usize = 160;

/// Whether `c` is white space, as `char::is_whitespace` tells.
pub uninterp spec fn is_whitespace(c: char) -> bool;

/// `char::is_whitespace` of std: whether the character has the Unicode
/// property `White_Space`. The result depends on the character alone, and
/// `is_whitespace` is the name for it.
pub assume_specification[ char::is_whitespace ](c: char) -> (b: bool)
    ensures
        b == is_whitespace(c),
;

/// A text of white space only; trimming it leaves nothing.
pub open spec fn is_blank(s: Seq<char>) -> bool {
    forall|i: int| 0 <= i < s.len() ==> is_whitespace(#[trigger] s[i])
}

/// A text that can be created as a note: it is not blank and has at most
/// `MAX_TASK_LEN` characters.
pub open spec fn valid_task(s: Seq<char>) -> bool {
    !is_blank(s) && s.len() <= MAX_TASK_LEN
}

/// Proof that a login was granted. Only `update` makes one, and the event
/// that ends the login hands it back.
#[derive(Debug, PartialEq, Eq)]
pub struct FetchTicket {
    granted: (),
}

/// What happened in the user interface.
#[derive(Debug)]
pub enum Event {
    /// The phone field of the login screen now holds `text`.
    PhoneEdited { text: String },
    /// The login was submitted; `expected` is the configured phone number,
    /// cleaned, or `None` where none is configured.
    LoginSubmitted { expected: Option<String> },
    /// The list of notes that a granted login asked for has arrived, or
    /// could not be had.
    MemcellsFetched { ticket: FetchTicket, memcells: Result<Vec<Memcell>, ClientError> },
    /// The row `index` of the list was chosen.
    RowSelected { index: usize },
    /// The delete control of row `index` was pressed.
    DeletePressed { index: usize },
    /// The control that adds a note was pressed.
    AddPressed,
    /// The text of the selected note was changed to `text`.
    TaskEdited { text: String },
    /// The text of the form that creates a note was changed to `text`.
    NewTaskEdited { text: String },
    /// The form that creates a note was submitted.
    CreateSubmitted,
    /// The form that creates a note was cancelled.
    CreateCancelled,
}

/// An event as a mathematical value.
pub enum EventModel {
    PhoneEdited { text: Seq<char> },
    LoginSubmitted { expected: Option<Seq<char>> },
    MemcellsFetched { memcells: Result<Seq<MemcellView>, ClientError> },
    RowSelected { index: usize },
    DeletePressed { index: usize },
    AddPressed,
    TaskEdited { text: Seq<char> },
    NewTaskEdited { text: Seq<char> },
    CreateSubmitted,
    CreateCancelled,
}

impl View for Event {
    type V = EventModel;

    open spec fn view(&self) -> EventModel {
        match self {
            Event::PhoneEdited { text } => EventModel::PhoneEdited { text: text@ },
            Event::LoginSubmitted { expected } => EventModel::LoginSubmitted {
                expected: match expected {
                    Some(phone) => Some(phone@),
                    None => None,
                },
            },
            Event::MemcellsFetched { ticket, memcells } => EventModel::MemcellsFetched {
                memcells: match memcells {
                    Ok(cells) => Ok(memcell_views(cells@)),
                    Err(error) => Err(*error),
                },
            },
            Event::RowSelected { index } => EventModel::RowSelected { index: *index },
            Event::DeletePressed { index } => EventModel::DeletePressed { index: *index },
            Event::AddPressed => EventModel::AddPressed,
            Event::TaskEdited { text } => EventModel::TaskEdited { text: text@ },
            Event::NewTaskEdited { text } => EventModel::NewTaskEdited { text: text@ },
            Event::CreateSubmitted => EventModel::CreateSubmitted,
            Event::CreateCancelled => EventModel::CreateCancelled,
        }
    }
}

/// What the caller is to do after a step.
#[derive(Debug, PartialEq, Eq)]
pub enum Action {
    /// Nothing.
    Nothing,
    /// End the process with a failure: no phone number is configured.
    Exit,
    /// Fetch the list of notes, wait for it, and hand it back with the
    /// ticket as `Event::MemcellsFetched`.
    FetchMemcells(FetchTicket),
    /// Ask the server to delete the note `id`, without waiting.
    Delete { id: u32 },
    /// Ask the server to replace the text of the note `id`, without waiting.
    Update { id: u32, task: String },
    /// Ask the server to create a note, without waiting.
    Create { phone: String, task: String },
}

/// An action as a mathematical value.
pub enum ActionModel {
    Nothing,
    Exit,
    FetchMemcells,
    Delete { id: u32 },
    Update { id: u32, task: Seq<char> },
    Create { phone: Seq<char>, task: Seq<char> },
}

impl View for Action {
    type V = ActionModel;

    open spec fn view(&self) -> ActionModel {
        match self {
            Action::Nothing => ActionModel::Nothing,
            Action::Exit => ActionModel::Exit,
            Action::FetchMemcells(ticket) => ActionModel::FetchMemcells,
            Action::Delete { id } => ActionModel::Delete { id: *id },
            Action::Update { id, task } => ActionModel::Update { id: *id, task: task@ },
            Action::Create { phone, task } => ActionModel::Create { phone: phone@, task: task@ },
        }
    }
}

/// The selection after row `removed` has left the list: gone if it was that
/// row, one less if it was below it, else as before.
pub open spec fn reconcile_selection(selected: Option<usize>, removed: usize) -> Option<usize> {
    match selected {
        Some(index) => if index == removed {
            None
        } else if index > removed {
            Some((index - 1) as usize)
        } else {
            Some(index)
        },
        None => None,
    }
}

/// A step on the login screen.
pub open spec fn step_login(s: AppModel, e: EventModel) -> (AppModel, ActionModel) {
    match e {
        EventModel::PhoneEdited { text } => (
            AppModel { phone: format_progressive(text), ..s },
            ActionModel::Nothing,
        ),
        EventModel::LoginSubmitted { expected } => match expected {
            None => (s, ActionModel::Exit),
            Some(phone) => if clean_digits(s.phone) == phone {
                (s, ActionModel::FetchMemcells)
            } else {
                (AppModel { phone: Seq::empty(), ..s }, ActionModel::Nothing)
            },
        },
        EventModel::MemcellsFetched { memcells } => (
            AppModel {
                state: AppState::Main,
                memcells: match memcells {
                    Ok(cells) => cells,
                    Err(_) => s.memcells,
                },
                ..s
            },
            ActionModel::Nothing,
        ),
        _ => (s, ActionModel::Nothing),
    }
}

/// A step on the screen that lists the notes.
pub open spec fn step_main(s: AppModel, e: EventModel) -> (AppModel, ActionModel) {
    match e {
        EventModel::RowSelected { index } => if index < s.memcells.len() {
            (AppModel { selected_memcell: Some(index), ..s }, ActionModel::Nothing)
        } else {
            (s, ActionModel::Nothing)
        },
        EventModel::DeletePressed { index } => if index < s.memcells.len() {
            (
                AppModel {
                    memcells: s.memcells.remove(index as int),
                    selected_memcell: reconcile_selection(s.selected_memcell, index),
                    ..s
                },
                match s.memcells[index as int].id {
                    Some(id) => ActionModel::Delete { id },
                    None => ActionModel::Nothing,
                },
            )
        } else {
            (s, ActionModel::Nothing)
        },
        EventModel::AddPressed => if s.memcells.len() < MAX_MEMCELLS {
            (AppModel { state: AppState::CreateNew, ..s }, ActionModel::Nothing)
        } else {
            (s, ActionModel::Nothing)
        },
        EventModel::TaskEdited { text } => match s.selected_memcell {
            Some(index) => {
                let id = s.memcells[index as int].id;
                (
                    AppModel {
                        memcells: s.memcells.update(index as int, MemcellView { id, task: text }),
                        ..s
                    },
                    match id {
                        Some(id) => ActionModel::Update { id, task: text },
                        None => ActionModel::Nothing,
                    },
                )
            },
            None => (s, ActionModel::Nothing),
        },
        _ => (s, ActionModel::Nothing),
    }
}

/// A step on the screen that creates a note.
pub open spec fn step_create(s: AppModel, e: EventModel) -> (AppModel, ActionModel) {
    match e {
        EventModel::NewTaskEdited { text } => (
            AppModel { new_task: text, ..s },
            ActionModel::Nothing,
        ),
        EventModel::CreateSubmitted => if valid_task(s.new_task) {
            (
                AppModel {
                    state: AppState::Main,
                    new_task: Seq::empty(),
                    creation_error: false,
                    ..s
                },
                ActionModel::Create { phone: clean_digits(s.phone), task: s.new_task },
            )
        } else {
            (AppModel { creation_error: true, ..s }, ActionModel::Nothing)
        },
        EventModel::CreateCancelled => (
            AppModel {
                state: AppState::Main,
                new_task: Seq::empty(),
                creation_error: false,
                ..s
            },
            ActionModel::Nothing,
        ),
        _ => (s, ActionModel::Nothing),
    }
}

/// The state after the event `e` in the state `s`, and the action to carry
/// out. An event that the screen of `s` does not offer changes nothing.
pub open spec fn step(s: AppModel, e: EventModel) -> (AppModel, ActionModel) {
    match s.state {
        AppState::Login => step_login(s, e),
        AppState::Main => step_main(s, e),
        AppState::CreateNew => step_create(s, e),
    }
}

/// Whether `text` is white space only.
pub fn blank(text: &str) -> (b: bool)
    ensures
        b == is_blank(text@),
{
    for c in it: text.chars()
        invariant
            it.seq() == text@,
            is_blank(text@.take(it.index() as int)),
    {
        if !c.is_whitespace() {
            return false;
        }
        assert(is_blank(text@.take(it.index() + 1)));
    }
    assert(text@.take(text@.len() as int) == text@);
    true
}

impl PaperclipAdjacent {
    /// Whether the control that adds a note is enabled: the list holds fewer
    /// than `MAX_MEMCELLS` notes.
    pub fn can_add(&self) -> (enabled: bool)
        ensures
            enabled == (self@.memcells.len() < MAX_MEMCELLS),
    {
        self.memcells.len() < MAX_MEMCELLS
    }

    fn update_login(&mut self, event: Event) -> (action: Action)
        requires
            old(self).wf(),
            old(self).state == AppState::Login,
        ensures
            (final(self)@, action@) == step_login(old(self)@, event@),
    {
        match event {
            Event::PhoneEdited { text } => {
                self.phone = fmt_phone_input(text.as_str());
                Action::Nothing
            },
            Event::LoginSubmitted { expected } => match expected {
                None => Action::Exit,
                Some(phone) => {
                    let clean_input = clean_phone_number(self.phone.as_str());
                    if clean_input == phone {
                        Action::FetchMemcells(FetchTicket { granted: () })
                    } else {
                        self.phone = String::new();
                        Action::Nothing
                    }
                },
            },
            Event::MemcellsFetched { ticket, memcells } => {
                match memcells {
                    Ok(cells) => {
                        self.memcells = cells;
                    },
                    Err(_) => {},
                }
                self.state = AppState::Main;
                Action::Nothing
            },
            _ => Action::Nothing,
        }
    }

    fn update_main(&mut self, event: Event) -> (action: Action)
        requires
            old(self).wf(),
            old(self).state == AppState::Main,
        ensures
            (final(self)@, action@) == step_main(old(self)@, event@),
    {
        match event {
            Event::RowSelected { index } => {
                if index < self.memcells.len() {
                    self.selected_memcell = Some(index);
                }
                Action::Nothing
            },
            Event::DeletePressed { index } => {
                if index < self.memcells.len() {
                    let removed = self.memcells.remove(index);
                    self.selected_memcell = match self.selected_memcell {
                        Some(selected) => if selected == index {
                            None
                        } else if selected > index {
                            Some(selected - 1)
                        } else {
                            Some(selected)
                        },
                        None => None,
                    };
                    assert(memcell_views(self.memcells@) == memcell_views(
                        old(self).memcells@,
                    ).remove(index as int));
                    match removed.id {
                        Some(id) => Action::Delete { id },
                        None => Action::Nothing,
                    }
                } else {
                    Action::Nothing
                }
            },
            Event::AddPressed => {
                if self.memcells.len() < MAX_MEMCELLS {
                    self.state = AppState::CreateNew;
                }
                Action::Nothing
            },
            Event::TaskEdited { text } => match self.selected_memcell {
                Some(index) => {
                    let id = self.memcells[index].id;
                    let action = match id {
                        Some(id) => Action::Update { id, task: text.clone() },
                        None => Action::Nothing,
                    };
                    self.memcells[index] = Memcell { id, task: text };
                    assert(memcell_views(self.memcells@) == memcell_views(
                        old(self).memcells@,
                    ).update(index as int, MemcellView { id, task: text@ }));
                    action
                },
                None => Action::Nothing,
            },
            _ => Action::Nothing,
        }
    }

    fn update_create(&mut self, event: Event) -> (action: Action)
        requires
            old(self).wf(),
            old(self).state == AppState::CreateNew,
        ensures
            (final(self)@, action@) == step_create(old(self)@, event@),
    {
        match event {
            Event::NewTaskEdited { text } => {
                self.new_task = text;
                Action::Nothing
            },
            Event::CreateSubmitted => {
                if !blank(self.new_task.as_str()) && self.new_task.as_str().unicode_len()
                    <= MAX_TASK_LEN {
                    let task = self.new_task.clone();
                    let phone = clean_phone_number(self.phone.as_str());
                    self.creation_error = false;
                    self.new_task = String::new();
                    self.state = AppState::Main;
                    Action::Create { phone, task }
                } else {
                    self.creation_error = true;
                    Action::Nothing
                }
            },
            Event::CreateCancelled => {
                self.creation_error = false;
                self.new_task = String::new();
                self.state = AppState::Main;
                Action::Nothing
            },
            _ => Action::Nothing,
        }
    }

    /// Takes one event of the user interface: changes the state as the
    /// screen that is shown prescribes and returns what is to be done.
    pub fn update(&mut self, event: Event) -> (action: Action)
        requires
            old(self).wf(),
        ensures
            (final(self)@, action@) == step(old(self)@, event@),
            final(self).wf(),
    {
        proof {
            lemma_step_keeps_wf(self@, event@);
        }
        match self.state {
            AppState::Login => self.update_login(event),
            AppState::Main => self.update_main(event),
            AppState::CreateNew => self.update_create(event),
        }
    }
}

/// A step takes a well-formed state to a well-formed state.
pub proof fn lemma_step_keeps_wf(s: AppModel, e: EventModel)
    requires
        s.wf(),
    ensures
        step(s, e).0.wf(),
{
}

/// The screens follow one another in one order only: the login screen is
/// left for the list and never comes back, and the list and the form that
/// creates a note lead to each other.
pub proof fn lemma_step_screen_order(s: AppModel, e: EventModel)
    ensures
        s.state == AppState::Login ==> step(s, e).0.state != AppState::CreateNew,
        s.state != AppState::Login ==> step(s, e).0.state != AppState::Login,
{
}

/// No step changes the headings or the login name.
pub proof fn lemma_step_keeps_headings(s: AppModel, e: EventModel)
    ensures
        step(s, e).0.login == s.login,
        step(s, e).0.heading == s.heading,
        step(s, e).0.sub_heading == s.sub_heading,
{
}

/// Deleting row `index` takes that row out of the list and nothing else,
/// and keeps the selection on the note that it was on: a selection of the
/// deleted row is dropped, a selection below it moves up by one, a selection
/// above it stays.
pub proof fn lemma_delete_reconciles_selection(s: AppModel, index: usize)
    requires
        s.wf(),
        s.state == AppState::Main,
        index < s.memcells.len(),
    ensures
        ({
            let next = step(s, EventModel::DeletePressed { index }).0;
            &&& next.memcells == s.memcells.remove(index as int)
            &&& next.state == AppState::Main
            &&& match s.selected_memcell {
                Some(selected) => if selected == index {
                    next.selected_memcell is None
                } else if selected > index {
                    next.selected_memcell == Some((selected - 1) as usize)
                        && next.memcells[selected - 1] == s.memcells[selected as int]
                } else {
                    next.selected_memcell == Some(selected) && next.memcells[selected as int]
                        == s.memcells[selected as int]
                },
                None => next.selected_memcell is None,
            }
        }),
{
}

/// Deleting a row asks the server to delete the note exactly if the note has
/// an id.
pub proof fn lemma_delete_action(s: AppModel, index: usize)
    requires
        s.state == AppState::Main,
        index < s.memcells.len(),
    ensures
        step(s, EventModel::DeletePressed { index }).1 == match s.memcells[index as int].id {
            Some(id) => ActionModel::Delete { id },
            None => ActionModel::Nothing,
        },
{
}

/// Submitting the form with an empty text, or with one of more than
/// `MAX_TASK_LEN` characters, raises the error flag and changes nothing
/// else. Submitting a text that is not blank and no longer than that leads
/// to the list, clears the form and asks for the note to be created.
pub proof fn lemma_create_submitted(s: AppModel)
    requires
        s.state == AppState::CreateNew,
    ensures
        s.new_task.len() == 0 || s.new_task.len() > MAX_TASK_LEN ==> step(
            s,
            EventModel::CreateSubmitted,
        ) == (AppModel { creation_error: true, ..s }, ActionModel::Nothing),
        !is_blank(s.new_task) && s.new_task.len() <= MAX_TASK_LEN ==> step(
            s,
            EventModel::CreateSubmitted,
        ) == (
            AppModel {
                state: AppState::Main,
                new_task: Seq::empty(),
                creation_error: false,
                ..s
            },
            ActionModel::Create { phone: clean_digits(s.phone), task: s.new_task },
        ),
{
}

/// Cancelling the form leads to the list, clears the form and creates
/// nothing.
pub proof fn lemma_create_cancelled(s: AppModel)
    requires
        s.state == AppState::CreateNew,
    ensures
        step(s, EventModel::CreateCancelled) == (
            AppModel {
                state: AppState::Main,
                new_task: Seq::empty(),
                creation_error: false,
                ..s
            },
            ActionModel::Nothing,
        ),
{
}

/// A login whose digits are not the configured number clears the phone
/// field and stays on the login screen; one whose digits are the number asks
/// for the notes. Where no number is configured the process is to end.
pub proof fn lemma_login_submitted(s: AppModel, expected: Option<Seq<char>>)
    requires
        s.state == AppState::Login,
    ensures
        ({
            let (next, action) = step(s, EventModel::LoginSubmitted { expected });
            match expected {
                Some(phone) => if clean_digits(s.phone) == phone {
                    next == s && action == ActionModel::FetchMemcells
                } else {
                    next == (AppModel { phone: Seq::empty(), ..s }) && next.state
                        == AppState::Login && action == ActionModel::Nothing
                },
                None => next == s && action == ActionModel::Exit,
            }
        }),
{
}

/// The control that adds a note works exactly while the list holds fewer
/// than `MAX_MEMCELLS` notes; at or above that, pressing it changes nothing.
pub proof fn lemma_add_needs_room(s: AppModel)
    requires
        s.state == AppState::Main,
    ensures
        s.memcells.len() < MAX_MEMCELLS ==> step(s, EventModel::AddPressed) == (
            AppModel { state: AppState::CreateNew, ..s },
            ActionModel::Nothing,
        ),
        s.memcells.len() >= MAX_MEMCELLS ==> step(s, EventModel::AddPressed) == (
            s,
            ActionModel::Nothing,
        ),
{
}

} // verus!
