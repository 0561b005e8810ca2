//! The application: the catalog, the query, the selection and the mode, and
//! the handlers that carry out the steps of the state machine.

use vstd::prelude::*;
use crate::catalog::{catalog_of, get_commands};
use crate::filter::{filtered_view, indices_of, names_of};
use crate::lookup::{
    check_in_tldr_cache, fetch_text, listing_failure_message, Lookup, LookupKind,
};
use crate::machine::{
    browse_step, confirm_step, event_step, filter_edit_step, initial_state, key_step, listing_step,
    output_step, overlay_step, pager_step, AppState,
};
use crate::mode::{Action, Event, Key, KeyKind, UiMode};
use crate::selection::{first_index, last_index, next_index, previous_index};

verus! {

/// No command is selected: the filtered view has no rows.
#[derive(Clone, Copy, Debug, PartialEq, Eq, Structural)]
pub struct NoSelection;

/// The application state.
#[derive(Debug)]
pub struct App {
    commands: Vec<String>,
    filter_query: String,
    selected: usize,
    mode: UiMode,
    exit: bool,
    overlay_text: String,
}

impl View for App {
    type V = AppState;

    closed spec fn view(&self) -> AppState {
        AppState {
            catalog: names_of(self.commands@),
            query: self.filter_query@,
            selected: self.selected as int,
            mode: self.mode,
            exit: self.exit,
            overlay_text: self.overlay_text@,
        }
    }
}

impl Default for App {
    /// The application over an empty catalog.
    fn default() -> (app: App)
        ensures
            app@ == initial_state(Seq::empty()),
            app@.wf(),
    {
        let commands: Vec<String> = Vec::new();
        assert(names_of(commands@) =~= Seq::empty());
        App {
            commands,
            filter_query: String::new(),
            selected: 0,
            mode: UiMode::Browse,
            exit: false,
            overlay_text: String::new(),
        }
    }
}

impl App {
    /// Every value of the type is a well-formed state.
    #[verifier::type_invariant]
    pub open spec fn well_formed(&self) -> bool {
        self@.wf()
    }

    /// The application at the start of a run, over the catalog made of the
    /// names found on the search path.
    pub fn new(found: &Vec<String>) -> (app: App)
        ensures
            app@ == initial_state(catalog_of(names_of(found@))),
            app@.wf(),
    {
        App {
            commands: get_commands(found),
            filter_query: String::new(),
            selected: 0,
            mode: UiMode::Browse,
            exit: false,
            overlay_text: String::new(),
        }
    }

    /// The filtered view: the indices of the catalog entries that match the
    /// query, in the catalog's order.
    pub fn visible(&self) -> (view: Vec<usize>)
        ensures
            indices_of(view@) == self@.visible(),
    {
        filtered_view(&self.commands, self.filter_query.as_str())
    }

    /// The selected command, or `NoSelection` where the filtered view has
    /// no rows.
    pub fn current_command(&self) -> (current: Result<String, NoSelection>)
        ensures
            current is Ok <==> self@.has_selection(),
            current matches Ok(command) ==> command@ == self@.current(),
    {
        proof {
            use_type_invariant(self);
        }
        let view = self.visible();
        if view.len() == 0 {
            Err(NoSelection)
        } else {
            proof {
                crate::filter::lemma_matching_indices(self@.catalog, self@.query);
                assert(indices_of(view@)[self.selected as int] == view@[self.selected as int]);
            }
            Ok(self.commands[view[self.selected]].clone())
        }
    }

    /// Moves the selection one row down; on the last row it stays.
    pub fn next(&mut self)
        ensures
            final(self)@ == old(self)@.select(
                next_index(old(self)@.selected, old(self)@.visible().len() as int),
            ),
            final(self)@.wf(),
    {
        proof {
            use_type_invariant(&*self);
        }
        let len = self.visible().len();
        self.selected = crate::selection::next(self.selected, len);
    }

    /// Moves the selection one row up; on the first row it stays.
    pub fn previous(&mut self)
        ensures
            final(self)@ == old(self)@.select(
                previous_index(old(self)@.selected, old(self)@.visible().len() as int),
            ),
            final(self)@.wf(),
    {
        proof {
            use_type_invariant(&*self);
        }
        let len = self.visible().len();
        self.selected = crate::selection::previous(self.selected, len);
    }

    /// Moves the selection to the first row.
    pub fn first(&mut self)
        ensures
            final(self)@ == old(self)@.select(
                first_index(old(self)@.selected, old(self)@.visible().len() as int),
            ),
            final(self)@.wf(),
    {
        proof {
            use_type_invariant(&*self);
        }
        let len = self.visible().len();
        self.selected = crate::selection::first(self.selected, len);
    }

    /// Moves the selection to the last row.
    pub fn last(&mut self)
        ensures
            final(self)@ == old(self)@.select(
                last_index(old(self)@.selected, old(self)@.visible().len() as int),
            ),
            final(self)@.wf(),
    {
        proof {
            use_type_invariant(&*self);
        }
        let len = self.visible().len();
        self.selected = crate::selection::last(self.selected, len);
    }

    /// Sets the exit flag.
    pub fn exit(&mut self)
        ensures
            final(self)@ == (AppState { exit: true, ..old(self)@ }),
            final(self)@.wf(),
    {
        proof {
            use_type_invariant(&*self);
        }
        self.exit = true;
    }

    /// Takes a new query while the filter is edited, and brings the
    /// selection back into the filtered view.
    fn set_query(&mut self, query: String)
        requires
            old(self)@.mode == UiMode::FilterEdit,
        ensures
            final(self)@ == old(self)@.edit(query@),
    {
        proof {
            use_type_invariant(&*self);
        }
        let len = filtered_view(&self.commands, query.as_str()).len();
        self.selected = crate::selection::clamp(self.selected, len);
        self.filter_query = query;
    }

    /// Handles a key in browse mode.
    fn handle_browse_key(&mut self, key: Key) -> (action: Action)
        requires
            old(self)@.mode == UiMode::Browse,
        ensures
            final(self)@ == browse_step(old(self)@, key).0,
            action@ == browse_step(old(self)@, key).1,
    {
        proof {
            use_type_invariant(&*self);
        }
        match key {
            Key::Char('q') => {
                self.exit();
                Action::Nothing
            },
            Key::Char('j') | Key::Down => {
                self.next();
                Action::Nothing
            },
            Key::Char('k') | Key::Up => {
                self.previous();
                Action::Nothing
            },
            Key::Char('g') => {
                self.first();
                Action::Nothing
            },
            Key::Char('G') => {
                self.last();
                Action::Nothing
            },
            Key::Char('/') => {
                self.mode = UiMode::FilterEdit;
                Action::Nothing
            },
            Key::Char('H') => {
                self.mode = UiMode::HelpOverlay;
                Action::Nothing
            },
            Key::Char('h') => match self.current_command() {
                Ok(command) => {
                    self.mode = UiMode::CommandHelpOverlay;
                    Action::FetchHelp(command)
                },
                Err(_) => Action::Nothing,
            },
            Key::Char('m') => match self.current_command() {
                Ok(command) => {
                    self.mode = UiMode::ManOverlay;
                    Action::FetchMan(command)
                },
                Err(_) => Action::Nothing,
            },
            Key::Char('M') => match self.current_command() {
                Ok(command) => {
                    self.mode = UiMode::ManEnter;
                    Action::EnterMan(command)
                },
                Err(_) => Action::Nothing,
            },
            Key::Char('t') => match self.current_command() {
                Ok(_) => {
                    self.mode = UiMode::TldrOverlay;
                    Action::ListTldrCache
                },
                Err(_) => Action::Nothing,
            },
            _ => Action::Nothing,
        }
    }

    /// Handles a key while the filter query is edited.
    fn handle_filter_key(&mut self, key: Key)
        requires
            old(self)@.mode == UiMode::FilterEdit,
        ensures
            final(self)@ == filter_edit_step(old(self)@, key),
    {
        proof {
            use_type_invariant(&*self);
        }
        match key {
            Key::Enter | Key::Esc => {
                self.selected = 0;
                self.mode = UiMode::Browse;
            },
            Key::Char(c) => {
                let mut query = self.filter_query.clone();
                query.push(c);
                self.set_query(query);
            },
            Key::Backspace => {
                let mut query = self.filter_query.clone();
                let _ = query.pop();
                self.set_query(query);
            },
            _ => {},
        }
    }

    /// Handles a key while an overlay is shown.
    fn handle_overlay_key(&mut self, key: Key)
        requires
            old(self)@.mode != UiMode::ManEnter,
            old(self)@.mode != UiMode::TldrConfirm,
        ensures
            final(self)@ == overlay_step(old(self)@, key),
    {
        proof {
            use_type_invariant(&*self);
        }
        match key {
            Key::Esc => {
                self.overlay_text = String::new();
                self.mode = UiMode::Browse;
            },
            _ => {},
        }
    }

    /// Handles a key at the prompt to fill the quick-reference cache.
    fn handle_confirm_key(&mut self, key: Key) -> (action: Action)
        requires
            old(self)@.mode == UiMode::TldrConfirm,
        ensures
            final(self)@ == confirm_step(old(self)@, key).0,
            action@ == confirm_step(old(self)@, key).1,
    {
        proof {
            use_type_invariant(&*self);
        }
        let current = self.current_command();
        self.mode = UiMode::Browse;
        match key {
            Key::Char('y') | Key::Char('Y') => match current {
                Ok(command) => Action::PopulateTldrCache(command),
                Err(_) => Action::Nothing,
            },
            _ => Action::Nothing,
        }
    }

    /// Handles a key press: carries out the step of the key in the active
    /// mode and returns the action that the step asks for.
    pub fn handle_key_event(&mut self, key: Key) -> (action: Action)
        ensures
            final(self)@ == key_step(old(self)@, key).0,
            action@ == key_step(old(self)@, key).1,
            final(self)@.wf(),
    {
        proof {
            use_type_invariant(&*self);
        }
        match self.mode {
            UiMode::Browse => self.handle_browse_key(key),
            UiMode::FilterEdit => {
                self.handle_filter_key(key);
                Action::Nothing
            },
            UiMode::TldrConfirm => self.handle_confirm_key(key),
            UiMode::ManEnter => Action::Nothing,
            _ => {
                self.handle_overlay_key(key);
                Action::Nothing
            },
        }
    }

    /// Takes the output of a lookup: the overlay of its kind, where it is
    /// open, shows the text from now on.
    pub fn receive_output(&mut self, kind: LookupKind, lookup: &Lookup)
        ensures
            final(self)@ == output_step(old(self)@, kind, *lookup),
            final(self)@.wf(),
    {
        proof {
            use_type_invariant(&*self);
        }
        let open = match self.mode {
            UiMode::CommandHelpOverlay => kind == LookupKind::Help,
            UiMode::ManOverlay => kind == LookupKind::Man,
            UiMode::TldrOverlay => kind == LookupKind::Tldr,
            _ => false,
        };
        if open {
            self.overlay_text = fetch_text(kind, lookup);
        }
    }

    /// Takes the listing of the quick-reference cache, where the overlay is
    /// open: shows the fixed message for a listing that could not be had,
    /// asks for the page of the selected command if it is an entry of the
    /// listing, and opens the prompt to fill the cache if it is not.
    pub fn receive_listing(&mut self, lookup: &Lookup) -> (action: Action)
        ensures
            final(self)@ == listing_step(old(self)@, *lookup).0,
            action@ == listing_step(old(self)@, *lookup).1,
            final(self)@.wf(),
    {
        proof {
            use_type_invariant(&*self);
        }
        if self.mode != UiMode::TldrOverlay {
            return Action::Nothing;
        }
        if let Some(message) = listing_failure_message(lookup) {
            self.overlay_text = message.to_owned();
            return Action::Nothing;
        }
        match self.current_command() {
            Ok(command) => {
                if check_in_tldr_cache(lookup, command.as_str()) {
                    Action::FetchTldr(command)
                } else {
                    self.overlay_text = String::new();
                    self.mode = UiMode::TldrConfirm;
                    Action::Nothing
                }
            },
            Err(_) => Action::Nothing,
        }
    }

    /// Takes the terminal back from the manual pager.
    pub fn pager_exited(&mut self)
        ensures
            final(self)@ == pager_step(old(self)@),
            final(self)@.wf(),
    {
        proof {
            use_type_invariant(&*self);
        }
        if self.mode == UiMode::ManEnter {
            self.mode = UiMode::Browse;
        }
    }

    /// Handles an event: carries out its step and returns the action that
    /// the step asks for. Of what happens to keys only a press counts, and
    /// events that are no key press and no answer to an action leave the
    /// state as it is.
    pub fn handle_event(&mut self, event: &Event) -> (action: Action)
        ensures
            final(self)@ == event_step(old(self)@, *event).0,
            action@ == event_step(old(self)@, *event).1,
            final(self)@.wf(),
    {
        proof {
            use_type_invariant(&*self);
        }
        match event {
            Event::Key(key, KeyKind::Press) => self.handle_key_event(*key),
            Event::Key(_, _) => Action::Nothing,
            Event::HelpOutput(lookup) => {
                self.receive_output(LookupKind::Help, lookup);
                Action::Nothing
            },
            Event::ManOutput(lookup) => {
                self.receive_output(LookupKind::Man, lookup);
                Action::Nothing
            },
            Event::TldrListing(lookup) => self.receive_listing(lookup),
            Event::TldrOutput(lookup) => {
                self.receive_output(LookupKind::Tldr, lookup);
                Action::Nothing
            },
            Event::PagerExited => {
                self.pager_exited();
                Action::Nothing
            },
            Event::Other => Action::Nothing,
        }
    }

    /// The catalog.
    pub fn commands(&self) -> (commands: &Vec<String>)
        ensures
            names_of(commands@) == self@.catalog,
    {
        &self.commands
    }

    /// The filter query.
    pub fn filter_query(&self) -> (query: &str)
        ensures
            query@ == self@.query,
    {
        self.filter_query.as_str()
    }

    /// The selection index.
    pub fn selected(&self) -> (index: usize)
        ensures
            index == self@.selected,
    {
        self.selected
    }

    /// The active mode.
    pub fn mode(&self) -> (mode: UiMode)
        ensures
            mode == self@.mode,
    {
        self.mode
    }

    /// The exit flag.
    pub fn should_exit(&self) -> (exit: bool)
        ensures
            exit == self@.exit,
    {
        self.exit
    }

    /// The text fetched for the overlay that is open.
    pub fn overlay_text(&self) -> (text: &str)
        ensures
            text@ == self@.overlay_text,
    {
        self.overlay_text.as_str()
    }
}

} // verus!
