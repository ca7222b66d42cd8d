//! The application's state: which screen is shown, the notes, the selection
//! and the text buffers of the forms.

use crate::client::http::{memcell_views, Memcell, MemcellView};
use vstd::prelude::*;

verus! {

/// The screen that is shown. Exactly one is active at a time.
#[derive(Clone, Copy, Debug, PartialEq, Eq, Structural)]
pub enum AppState {
    Login,
    Main,
    CreateNew,
}

impl Default for AppState {
    fn default() -> (state: Self)
        ensures
            state == AppState::Login,
    {
        AppState::Login
    }
}

/// The whole state of the application.
#[derive(Debug)]
pub struct PaperclipAdjacent {
    pub login: String,
    pub heading: String,
    pub sub_heading: String,
    pub state: AppState,
    /// The text of the phone field of the login screen; also the owner of
    /// the notes that are created.
    pub phone: String,
    /// The notes, in the order in which the server listed them.
    pub memcells: Vec<Memcell>,
    /// The selected row of `memcells`, if any.
    pub selected_memcell: Option<usize>,
    /// The text of the form that creates a note.
    pub new_task: String,
    /// Whether the last attempt to create a note was refused.
    pub creation_error: bool,
}

/// The state of the application as a mathematical value.
pub struct AppModel {
    pub login: Seq<char>,
    pub heading: Seq<char>,
    pub sub_heading: Seq<char>,
    pub state: AppState,
    pub phone: Seq<char>,
    pub memcells: Seq<MemcellView>,
    pub selected_memcell: Option<usize>,
    pub new_task: Seq<char>,
    pub creation_error: bool,
}

impl AppModel {
    /// The selection, if there is one, is a row of the list, and nothing is
    /// selected while the login screen is shown.
    pub open spec fn wf(self) -> bool {
        match self.selected_memcell {
            Some(index) => index < self.memcells.len() && self.state != AppState::Login,
            None => true,
        }
    }
}

/// The state in which the application starts when nothing was saved.
pub open spec fn default_model() -> AppModel {
    AppModel {
        login: Seq::empty(),
        heading: "<paperclip adjacent>"@,
        sub_heading: ".:RAM for your brain:."@,
        state: AppState::Login,
        phone: Seq::empty(),
        memcells: Seq::empty(),
        selected_memcell: None,
        new_task: Seq::empty(),
        creation_error: false,
    }
}

impl View for PaperclipAdjacent {
    type V = AppModel;

    open spec fn view(&self) -> AppModel {
        AppModel {
            login: self.login@,
            heading: self.heading@,
            sub_heading: self.sub_heading@,
            state: self.state,
            phone: self.phone@,
            memcells: memcell_views(self.memcells@),
            selected_memcell: self.selected_memcell,
            new_task: self.new_task@,
            creation_error: self.creation_error,
        }
    }
}

impl Default for PaperclipAdjacent {
    fn default() -> (app: Self)
        ensures
            app@ == default_model(),
            app.wf(),
    {
        let app = PaperclipAdjacent {
            login: String::new(),
            heading: String::from_str("<paperclip adjacent>"),
            sub_heading: String::from_str(".:RAM for your brain:."),
            state: AppState::Login,
            phone: String::new(),
            memcells: Vec::new(),
            selected_memcell: None,
            new_task: String::new(),
            creation_error: false,
        };
        assert(app@.memcells == Seq::<MemcellView>::empty());
        app
    }
}

impl PaperclipAdjacent {
    /// See `AppModel::wf`.
    pub open spec fn wf(&self) -> bool {
        self@.wf()
    }

    /// The state at startup: what was saved, if anything was, else the
    /// default.
    pub fn new(saved: Option<PaperclipAdjacent>) -> (app: Self)
        ensures
            app@ == match saved {
                Some(state) => state@,
                None => default_model(),
            },
    {
        match saved {
            Some(state) => state,
            None => PaperclipAdjacent::default(),
        }
    }

    /// Whether the state is well-formed.
    pub fn is_well_formed(&self) -> (ok: bool)
        ensures
            ok == self.wf(),
    {
        match self.selected_memcell {
            Some(index) => index < self.memcells.len() && self.state != AppState::Login,
            None => true,
        }
    }
}

} // verus!
