//! The interface as a state machine: its state, the step that each key and
//! each event causes, and what holds of every state it reaches.

use vstd::prelude::*;
use crate::catalog::is_catalog;
use crate::filter::matching_indices;
use crate::lookup::{fetched_text, in_tldr_cache, listing_failure, Lookup, LookupKind};
use crate::mode::{
    is_overlay, lookup_shown, needs_command, reply_of, ActionView, Event, Key, KeyKind, UiMode,
};
use crate::selection::{
    clamped_index, first_index, in_range, last_index, next_index, previous_index,
};

verus! {

/// The state of the interface.
pub ghost struct AppState {
    /// The catalog of command names.
    pub catalog: Seq<Seq<char>>,
    /// The filter query.
    pub query: Seq<char>,
    /// The selection index, an offset into the filtered view.
    pub selected: int,
    /// The active mode.
    pub mode: UiMode,
    /// The exit flag.
    pub exit: bool,
    /// The text fetched for the overlay that is open.
    pub overlay_text: Seq<char>,
}

impl AppState {
    /// The filtered view: the indices of the catalog entries that match the
    /// query.
    pub open spec fn visible(self) -> Seq<int> {
        matching_indices(self.catalog, self.query)
    }

    /// A command is selected.
    pub open spec fn has_selection(self) -> bool {
        self.visible().len() > 0
    }

    /// The selected command: the catalog entry that the selection index
    /// names through the filtered view.
    pub open spec fn current(self) -> Seq<char>
        recommends
            self.has_selection(),
    {
        self.catalog[self.visible()[self.selected]]
    }

    /// The state is well formed: the catalog is one, the selection index is
    /// in range of the filtered view, a mode that acts on the selected
    /// command has one, and only a text overlay holds fetched text.
    pub open spec fn wf(self) -> bool {
        &&& is_catalog(self.catalog)
        &&& in_range(self.selected, self.visible().len() as int)
        &&& needs_command(self.mode) ==> self.has_selection()
        &&& lookup_shown(self.mode) is None ==> self.overlay_text.len() == 0
    }

    /// The state with another selection index.
    pub open spec fn select(self, index: int) -> AppState {
        AppState { selected: index, ..self }
    }

    /// The state in another mode.
    pub open spec fn enter(self, mode: UiMode) -> AppState {
        AppState { mode, ..self }
    }

    /// The state with another query, the selection index kept where it
    /// still names a row and moved to the last row where it does not.
    pub open spec fn edit(self, query: Seq<char>) -> AppState {
        AppState {
            query,
            selected: clamped_index(
                self.selected,
                matching_indices(self.catalog, query).len() as int,
            ),
            ..self
        }
    }
}

/// The state at the start of a run.
pub open spec fn initial_state(catalog: Seq<Seq<char>>) -> AppState {
    AppState {
        catalog,
        query: Seq::empty(),
        selected: 0,
        mode: UiMode::Browse,
        exit: false,
        overlay_text: Seq::empty(),
    }
}

/// The step of a key in browse mode. `j` and the down arrow move down, `k`
/// and the up arrow move up. A lookup key does nothing where no command is
/// selected.
pub open spec fn browse_step(s: AppState, key: Key) -> (AppState, ActionView) {
    let len = s.visible().len() as int;
    if key == Key::Char('q') {
        (AppState { exit: true, ..s }, ActionView::Nothing)
    } else if key == Key::Char('j') || key == Key::Down {
        (s.select(next_index(s.selected, len)), ActionView::Nothing)
    } else if key == Key::Char('k') || key == Key::Up {
        (s.select(previous_index(s.selected, len)), ActionView::Nothing)
    } else if key == Key::Char('g') {
        (s.select(first_index(s.selected, len)), ActionView::Nothing)
    } else if key == Key::Char('G') {
        (s.select(last_index(s.selected, len)), ActionView::Nothing)
    } else if key == Key::Char('/') {
        (s.enter(UiMode::FilterEdit), ActionView::Nothing)
    } else if key == Key::Char('H') {
        (s.enter(UiMode::HelpOverlay), ActionView::Nothing)
    } else if !s.has_selection() {
        (s, ActionView::Nothing)
    } else if key == Key::Char('h') {
        (s.enter(UiMode::CommandHelpOverlay), ActionView::FetchHelp(s.current()))
    } else if key == Key::Char('m') {
        (s.enter(UiMode::ManOverlay), ActionView::FetchMan(s.current()))
    } else if key == Key::Char('M') {
        (s.enter(UiMode::ManEnter), ActionView::EnterMan(s.current()))
    } else if key == Key::Char('t') {
        (s.enter(UiMode::TldrOverlay), ActionView::ListTldrCache)
    } else {
        (s, ActionView::Nothing)
    }
}

/// The step of a key while the filter query is edited: enter and escape end
/// the edit and put the selection on the first row, a character is added to
/// the query, backspace takes the last one away.
pub open spec fn filter_edit_step(s: AppState, key: Key) -> AppState {
    match key {
        Key::Enter | Key::Esc => s.enter(UiMode::Browse).select(0),
        Key::Char(c) => s.edit(s.query.push(c)),
        Key::Backspace => if s.query.len() > 0 {
            s.edit(s.query.drop_last())
        } else {
            s.edit(s.query)
        },
        _ => s,
    }
}

/// The step of a key while an overlay is shown: escape closes it.
pub open spec fn overlay_step(s: AppState, key: Key) -> AppState {
    if key == Key::Esc {
        AppState { mode: UiMode::Browse, overlay_text: Seq::empty(), ..s }
    } else {
        s
    }
}

/// The step of a key at the prompt to fill the quick-reference cache: `y`
/// and `Y` ask for it, every key leaves the prompt.
pub open spec fn confirm_step(s: AppState, key: Key) -> (AppState, ActionView) {
    if key == Key::Char('y') || key == Key::Char('Y') {
        (s.enter(UiMode::Browse), ActionView::PopulateTldrCache(s.current()))
    } else {
        (s.enter(UiMode::Browse), ActionView::Nothing)
    }
}

/// The step of a key: the state that follows and the action asked for.
pub open spec fn key_step(s: AppState, key: Key) -> (AppState, ActionView) {
    match s.mode {
        UiMode::Browse => browse_step(s, key),
        UiMode::FilterEdit => (filter_edit_step(s, key), ActionView::Nothing),
        UiMode::TldrConfirm => confirm_step(s, key),
        UiMode::ManEnter => (s, ActionView::Nothing),
        _ => (overlay_step(s, key), ActionView::Nothing),
    }
}

/// The step of fetched output: the overlay of its kind, where it is open,
/// takes the text.
pub open spec fn output_step(s: AppState, kind: LookupKind, lookup: Lookup) -> AppState {
    if lookup_shown(s.mode) == Some(kind) {
        AppState { overlay_text: fetched_text(kind, lookup), ..s }
    } else {
        s
    }
}

/// The step of the quick-reference listing, where the overlay is open: a
/// listing that could not be had is shown as its fixed message, the page is
/// asked for if the selected command is an entry of the listing, and the
/// prompt to fill the cache opens if it is not.
pub open spec fn listing_step(s: AppState, lookup: Lookup) -> (AppState, ActionView) {
    if s.mode != UiMode::TldrOverlay {
        (s, ActionView::Nothing)
    } else if let Some(message) = listing_failure(lookup) {
        (AppState { overlay_text: message, ..s }, ActionView::Nothing)
    } else if in_tldr_cache(lookup, s.current()) {
        (s, ActionView::FetchTldr(s.current()))
    } else {
        (
            AppState { mode: UiMode::TldrConfirm, overlay_text: Seq::empty(), ..s },
            ActionView::Nothing,
        )
    }
}

/// The step of the pager's exit: back to browse mode.
pub open spec fn pager_step(s: AppState) -> AppState {
    if s.mode == UiMode::ManEnter {
        s.enter(UiMode::Browse)
    } else {
        s
    }
}

/// The step of an event: the state that follows and the action asked for.
pub open spec fn event_step(s: AppState, event: Event) -> (AppState, ActionView) {
    match event {
        Event::Key(key, kind) => if kind == KeyKind::Press {
            key_step(s, key)
        } else {
            (s, ActionView::Nothing)
        },
        Event::HelpOutput(lookup) => (
            output_step(s, LookupKind::Help, lookup),
            ActionView::Nothing,
        ),
        Event::ManOutput(lookup) => (output_step(s, LookupKind::Man, lookup), ActionView::Nothing),
        Event::TldrListing(lookup) => listing_step(s, lookup),
        Event::TldrOutput(lookup) => (
            output_step(s, LookupKind::Tldr, lookup),
            ActionView::Nothing,
        ),
        Event::PagerExited => (pager_step(s), ActionView::Nothing),
        Event::Other => (s, ActionView::Nothing),
    }
}

/// The command that an action names, if it names one.
pub open spec fn command_of(action: ActionView) -> Option<Seq<char>> {
    match action {
        ActionView::FetchHelp(command) => Some(command),
        ActionView::FetchMan(command) => Some(command),
        ActionView::EnterMan(command) => Some(command),
        ActionView::FetchTldr(command) => Some(command),
        ActionView::PopulateTldrCache(command) => Some(command),
        _ => None,
    }
}

/// The state at the start of a run is well formed.
pub proof fn lemma_initial_state_wf(catalog: Seq<Seq<char>>)
    requires
        is_catalog(catalog),
    ensures
        initial_state(catalog).wf(),
{
}

/// Every event leads from a well-formed state to a well-formed state, never
/// changes the catalog, and names in its action, if it names a command, the
/// command that was selected.
pub proof fn lemma_event_step_keeps_wf(s: AppState, event: Event)
    requires
        s.wf(),
    ensures
        event_step(s, event).0.wf(),
        event_step(s, event).0.catalog == s.catalog,
        command_of(event_step(s, event).1) matches Some(command) ==> s.has_selection() && command
            == s.current(),
{
}

/// The state after a run of events.
pub open spec fn state_after(s: AppState, events: Seq<Event>) -> AppState
    decreases events.len(),
{
    if events.len() == 0 {
        s
    } else {
        event_step(state_after(s, events.drop_last()), events.last()).0
    }
}

/// Every state that a run reaches is well formed and holds the catalog
/// that the run began with.
pub proof fn lemma_every_reached_state_is_wf(catalog: Seq<Seq<char>>, events: Seq<Event>)
    requires
        is_catalog(catalog),
    ensures
        state_after(initial_state(catalog), events).wf(),
        state_after(initial_state(catalog), events).catalog == catalog,
    decreases events.len(),
{
    if events.len() > 0 {
        lemma_every_reached_state_is_wf(catalog, events.drop_last());
    }
}

/// The key moves the selection.
pub open spec fn is_movement(key: Key) -> bool {
    key == Key::Char('j') || key == Key::Down || key == Key::Char('k') || key == Key::Up || key
        == Key::Char('g') || key == Key::Char('G')
}

/// A movement key changes the selection index and nothing else, never puts
/// it out of range, and does nothing in a view without rows.
pub proof fn lemma_movement_in_range(s: AppState, key: Key)
    requires
        s.wf(),
        s.mode == UiMode::Browse,
        is_movement(key),
    ensures
        key_step(s, key).0 == s.select(key_step(s, key).0.selected),
        key_step(s, key).1 == ActionView::Nothing,
        in_range(key_step(s, key).0.selected, s.visible().len() as int),
        !s.has_selection() ==> key_step(s, key).0 == s,
{
}

/// The event of a key press.
pub open spec fn pressed(key: Key) -> Event {
    Event::Key(key, KeyKind::Press)
}

/// Leaving the edit of the filter, by enter or by escape, puts the
/// selection on the first row, and the edit is left by no other step.
pub proof fn lemma_leaving_filter_edit_resets_selection(s: AppState, event: Event)
    requires
        s.mode == UiMode::FilterEdit,
    ensures
        ({
            let next = event_step(s, event).0;
            let leaves = event == pressed(Key::Enter) || event == pressed(Key::Esc);
            &&& leaves ==> next == s.enter(UiMode::Browse).select(0)
            &&& next.mode != UiMode::FilterEdit ==> leaves
        }),
{
}

/// An overlay opens only from browse mode, or as the prompt that takes the
/// place of the quick-reference overlay: while one overlay is open no step
/// opens another beside it.
pub proof fn lemma_overlays_exclude_each_other(s: AppState, event: Event)
    requires
        is_overlay(s.mode),
    ensures
        event_step(s, event).0.mode == s.mode || event_step(s, event).0.mode == UiMode::Browse || (
        s.mode == UiMode::TldrOverlay && event_step(s, event).0.mode == UiMode::TldrConfirm),
{
}

/// In a view without rows no key opens an overlay that needs a command,
/// and no key asks for an action.
pub proof fn lemma_no_lookup_without_selection(s: AppState, key: Key)
    requires
        s.wf(),
        !s.has_selection(),
    ensures
        !needs_command(key_step(s, key).0.mode),
        key_step(s, key).1 == ActionView::Nothing,
{
}

/// The exit flag is set by `q` in browse mode and by nothing else, and once
/// set it stays set.
pub proof fn lemma_exit_flag(s: AppState, event: Event)
    ensures
        ({
            let next = event_step(s, event).0;
            let quits = s.mode == UiMode::Browse && event == pressed(Key::Char('q'));
            &&& s.exit ==> next.exit
            &&& quits ==> next.exit
            &&& next.exit && !s.exit ==> quits
        }),
{
}

/// The query changes only while the filter is edited, and an edit does not
/// leave the edit.
pub proof fn lemma_query_changes_in_filter_edit(s: AppState, event: Event)
    ensures
        event_step(s, event).0.query != s.query ==> s.mode == UiMode::FilterEdit && event_step(
            s,
            event,
        ).0.mode == UiMode::FilterEdit,
{
}

/// While a mode acts on the selected command, no step selects another.
pub proof fn lemma_command_is_kept(s: AppState, event: Event)
    requires
        needs_command(s.mode),
    ensures
        event_step(s, event).0.query == s.query,
        event_step(s, event).0.selected == s.selected,
        event_step(s, event).0.current() == s.current(),
{
}

/// The reply to an action is taken by the state that asked for it: fetched
/// text becomes the text of the overlay that the key opened, the listing of
/// the cache decides between the page and the prompt, and the pager's exit
/// gives browse mode back.
pub proof fn lemma_reply_is_taken(s: AppState, event: Event, outcome: Lookup)
    requires
        s.wf(),
    ensures
        ({
            let (asking, action) = event_step(s, event);
            let (served, then) = event_step(asking, reply_of(action, outcome));
            match action {
                ActionView::FetchHelp(_) => served == (AppState {
                    overlay_text: fetched_text(LookupKind::Help, outcome),
                    ..asking
                }) && asking.mode == UiMode::CommandHelpOverlay,
                ActionView::FetchMan(_) => served == (AppState {
                    overlay_text: fetched_text(LookupKind::Man, outcome),
                    ..asking
                }) && asking.mode == UiMode::ManOverlay,
                ActionView::FetchTldr(_) => served == (AppState {
                    overlay_text: fetched_text(LookupKind::Tldr, outcome),
                    ..asking
                }) && asking.mode == UiMode::TldrOverlay,
                ActionView::ListTldrCache => {
                    &&& asking.mode == UiMode::TldrOverlay
                    &&& listing_failure(outcome) matches Some(message) ==> served == (AppState {
                        overlay_text: message,
                        ..asking
                    }) && then == ActionView::Nothing
                    &&& in_tldr_cache(outcome, s.current()) ==> served == asking && then
                        == ActionView::FetchTldr(s.current())
                    &&& listing_failure(outcome) is None && !in_tldr_cache(outcome, s.current())
                        ==> served == asking.enter(UiMode::TldrConfirm) && then
                        == ActionView::Nothing
                },
                ActionView::EnterMan(_) => asking.mode == UiMode::ManEnter && served == s,
                ActionView::PopulateTldrCache(_) => asking.mode == UiMode::Browse && served
                    == asking,
                ActionView::Nothing => served == asking,
            }
        }),
{
    if s.mode == UiMode::Browse {
        assert(s.overlay_text =~= Seq::empty());
    }
}

/// Where the listing of the cache was had and the selected command is no
/// entry of it, `t` leads to the prompt: the listing is asked for, its
/// answer opens the prompt without asking for the page or for the cache to
/// be filled, and the selection, the query and the catalog stay as they
/// were. Every key but `y` and `Y` then gives back the state in which `t`
/// was pressed, with no action.
pub proof fn lemma_absent_command_gets_the_prompt(s: AppState, listing: Lookup, key: Key)
    requires
        s.wf(),
        s.mode == UiMode::Browse,
        s.has_selection(),
        listing_failure(listing) is None,
        !in_tldr_cache(listing, s.current()),
    ensures
        ({
            let (asking, first) = event_step(s, pressed(Key::Char('t')));
            let (prompt, second) = event_step(asking, Event::TldrListing(listing));
            let (after, third) = event_step(prompt, pressed(key));
            &&& first == ActionView::ListTldrCache
            &&& second == ActionView::Nothing
            &&& prompt == s.enter(UiMode::TldrConfirm)
            &&& key != Key::Char('y') && key != Key::Char('Y') ==> after == s && third
                == ActionView::Nothing
            &&& key == Key::Char('y') || key == Key::Char('Y') ==> after == s && third
                == ActionView::PopulateTldrCache(s.current())
        }),
{
    assert(s.overlay_text =~= Seq::empty());
}

/// A listing that could not be had opens no prompt and asks for nothing:
/// the overlay stays and shows the fixed message.
pub proof fn lemma_failed_listing_is_shown(s: AppState, listing: Lookup)
    requires
        s.mode == UiMode::TldrOverlay,
        listing_failure(listing) is Some,
    ensures
        event_step(s, Event::TldrListing(listing)).0 == (AppState {
            overlay_text: listing_failure(listing)->0,
            ..s
        }),
        event_step(s, Event::TldrListing(listing)).1 == ActionView::Nothing,
        !in_tldr_cache(listing, s.current()),
{
}

} // verus!
