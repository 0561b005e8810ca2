//! The plan of a frame: the rows of the list, the highlighted row, the
//! footer, and at most one overlay, chosen by the mode alone.

use vstd::prelude::*;
use crate::app::App;
use crate::filter::{indices_of, names_of, selected_names};
use crate::lookup::{show_text, shown_text, LookupKind};
use crate::machine::AppState;
use crate::mode::UiMode;

verus! {

/// The title of the list.
pub const TITLE: &'static str = " COMRAD ";

/// The title of the filter box.
pub const FILTER_TITLE: &'static str = " Filter ";

/// The title of the prompt to fill the quick-reference cache.
pub const CONFIRM_TITLE: &'static str = " Warning ";

/// The prompt to fill the quick-reference cache.
pub const CONFIRM_PROMPT: &'static str = " The command is not in the TLDR cache. \n \
    Press Y to add it to the cache (it might take a while)";

/// The title of the application's help.
pub const HELP_TITLE: &'static str = "Comrad Help";

/// The application's help: every key binding.
pub const HELP_TEXT: &'static str = "\
    \nYou can move down and up with j and k or using the down and up arrow keys.\n\n\
    You can go to the first entry pressing 'g' and to the last entry pressing 'G'.\n\n\
    Press '/' to enter filter mode.\n\n\
    Press 'h' to show the `--help` page of the current command.\n\n\
    Press 'm' to show the `man` page of the current command \
    (only available if you have `man` installed).\n\n\
    Press 'M' to enter the `man` page of the current command \
    (only available if you have `man` installed).\n\n\
    Press 't' to show the `tldr` page of the current command \
    (only available if you have `tldr` installed).\n\n\
    Press 'H' to show this help.\n\n\
    Press 'q' to exit comrad.\n\n\
    Press 'ESC' to go back to the commands list.\n";

/// The panes that can lie over the list.
#[derive(Clone, Copy, Debug, PartialEq, Eq, Structural)]
pub enum OverlayKind {
    /// The box that shows the live query.
    Filter,
    /// The `--help` text of the selected command.
    CommandHelp,
    /// The manual page of the selected command.
    Man,
    /// The quick-reference page of the selected command.
    Tldr,
    /// The prompt to fill the quick-reference cache.
    Confirm,
    /// The key bindings of the application.
    AppHelp,
}

/// How far a pane reaches along one axis of the screen.
#[derive(Clone, Copy, Debug, PartialEq, Eq, Structural)]
pub enum Extent {
    /// All of it.
    Full,
    /// A share of it, in hundredths, centred.
    Percent(u16),
    /// A number of cells.
    Cells(u16),
}

/// Where a pane lies on the screen.
#[derive(Clone, Copy, Debug, PartialEq, Eq, Structural)]
pub struct Placement {
    /// Its width.
    pub width: Extent,
    /// Its height.
    pub height: Extent,
}

/// The footer of the list.
#[derive(Clone, Copy, Debug, PartialEq, Eq, Structural)]
pub enum Footer {
    /// How to leave the edit of the filter.
    Filter,
    /// The key bindings of browse mode.
    General,
}

/// One key binding of a footer: what it does and the key that does it.
#[derive(Clone, Copy, Debug, PartialEq, Eq)]
pub struct Hint {
    /// What the key does.
    pub label: &'static str,
    /// The key.
    pub key: &'static str,
}

/// A pane over the list.
#[derive(Debug, PartialEq, Eq)]
pub struct Overlay {
    /// Which pane it is.
    pub kind: OverlayKind,
    /// Its title.
    pub title: String,
    /// Its text.
    pub body: String,
}

/// A pane over the list, its texts as sequences of characters.
pub ghost struct OverlayView {
    pub kind: OverlayKind,
    pub title: Seq<char>,
    pub body: Seq<char>,
}

impl View for Overlay {
    type V = OverlayView;

    open spec fn view(&self) -> OverlayView {
        OverlayView { kind: self.kind, title: self.title@, body: self.body@ }
    }
}

/// What is drawn in one frame.
#[derive(Debug, PartialEq, Eq)]
pub struct Frame {
    /// The title of the list.
    pub title: &'static str,
    /// The rows of the list: the names of the filtered view.
    pub rows: Vec<String>,
    /// The highlighted row, if the list has rows.
    pub highlighted: Option<usize>,
    /// The footer.
    pub footer: Footer,
    /// The overlay, if the mode has one.
    pub overlay: Option<Overlay>,
}

/// What is drawn in one frame, over sequences and integers.
pub ghost struct FrameView {
    pub title: Seq<char>,
    pub rows: Seq<Seq<char>>,
    pub highlighted: Option<int>,
    pub footer: Footer,
    pub overlay: Option<OverlayView>,
}

/// The model of an overlay that may be absent.
pub open spec fn overlay_model(overlay: Option<Overlay>) -> Option<OverlayView> {
    match overlay {
        Some(o) => Some(o@),
        None => None,
    }
}

impl View for Frame {
    type V = FrameView;

    open spec fn view(&self) -> FrameView {
        FrameView {
            title: self.title@,
            rows: names_of(self.rows@),
            highlighted: match self.highlighted {
                Some(i) => Some(i as int),
                None => None,
            },
            footer: self.footer,
            overlay: overlay_model(self.overlay),
        }
    }
}

/// Where each pane lies: the filter box and the prompt are small and
/// centred, the others cover the list.
pub open spec fn placement_of(kind: OverlayKind) -> Placement {
    match kind {
        OverlayKind::Filter => Placement { width: Extent::Percent(30), height: Extent::Cells(3) },
        OverlayKind::Confirm => Placement { width: Extent::Cells(80), height: Extent::Cells(5) },
        _ => Placement { width: Extent::Full, height: Extent::Full },
    }
}

/// Whether the text of a pane is centred: that of the prompt and of the
/// application's help is, fetched text is not.
pub open spec fn centres_text(kind: OverlayKind) -> bool {
    kind == OverlayKind::Confirm || kind == OverlayKind::AppHelp
}

/// The rows of the list: the names that the filtered view selects.
pub open spec fn rows_of(s: AppState) -> Seq<Seq<char>> {
    selected_names(s.catalog, s.visible())
}

/// The highlighted row: the selection index, where the list has rows.
pub open spec fn highlighted_of(s: AppState) -> Option<int> {
    if s.has_selection() {
        Some(s.selected)
    } else {
        None
    }
}

/// The footer: that of the filter while the query is edited, the general
/// one otherwise.
pub open spec fn footer_of(mode: UiMode) -> Footer {
    if mode == UiMode::FilterEdit {
        Footer::Filter
    } else {
        Footer::General
    }
}

/// The filter box, shown while the query is edited.
pub open spec fn filter_popup(s: AppState) -> Option<OverlayView> {
    if s.mode == UiMode::FilterEdit {
        Some(OverlayView { kind: OverlayKind::Filter, title: FILTER_TITLE@, body: s.query })
    } else {
        None
    }
}

/// A text overlay of the given kind: titled with the selected command, and
/// showing the fetched text or the kind's fixed message in place of none.
pub open spec fn text_overlay(s: AppState, kind: OverlayKind, lookup: LookupKind) -> OverlayView {
    OverlayView { kind, title: s.current(), body: shown_text(lookup, s.overlay_text) }
}

/// The manual overlay.
pub open spec fn man_help(s: AppState) -> Option<OverlayView> {
    if s.mode == UiMode::ManOverlay {
        Some(text_overlay(s, OverlayKind::Man, LookupKind::Man))
    } else {
        None
    }
}

/// The quick-reference overlay.
pub open spec fn tldr_help(s: AppState) -> Option<OverlayView> {
    if s.mode == UiMode::TldrOverlay {
        Some(text_overlay(s, OverlayKind::Tldr, LookupKind::Tldr))
    } else {
        None
    }
}

/// The prompt to fill the quick-reference cache.
pub open spec fn add_to_tldr_cache_prompt(s: AppState) -> Option<OverlayView> {
    if s.mode == UiMode::TldrConfirm {
        Some(
            OverlayView {
                kind: OverlayKind::Confirm,
                title: CONFIRM_TITLE@,
                body: CONFIRM_PROMPT@,
            },
        )
    } else {
        None
    }
}

/// The `--help` overlay.
pub open spec fn command_help(s: AppState) -> Option<OverlayView> {
    if s.mode == UiMode::CommandHelpOverlay {
        Some(text_overlay(s, OverlayKind::CommandHelp, LookupKind::Help))
    } else {
        None
    }
}

/// The application's help, shown whether or not a command is selected.
pub open spec fn comrad_help(s: AppState) -> Option<OverlayView> {
    if s.mode == UiMode::HelpOverlay {
        Some(OverlayView { kind: OverlayKind::AppHelp, title: HELP_TITLE@, body: HELP_TEXT@ })
    } else {
        None
    }
}

/// The overlay of a state: the one that its mode calls for.
pub open spec fn overlay_of(s: AppState) -> Option<OverlayView> {
    match s.mode {
        UiMode::FilterEdit => filter_popup(s),
        UiMode::ManOverlay => man_help(s),
        UiMode::TldrOverlay => tldr_help(s),
        UiMode::TldrConfirm => add_to_tldr_cache_prompt(s),
        UiMode::CommandHelpOverlay => command_help(s),
        UiMode::HelpOverlay => comrad_help(s),
        _ => None,
    }
}

/// The frame of a state.
pub open spec fn frame_of(s: AppState) -> FrameView {
    FrameView {
        title: TITLE@,
        rows: rows_of(s),
        highlighted: highlighted_of(s),
        footer: footer_of(s.mode),
        overlay: overlay_of(s),
    }
}

/// How many of the six overlays a state shows.
pub open spec fn overlays_shown(s: AppState) -> int {
    (if filter_popup(s) is Some { 1int } else { 0 }) + (if man_help(s) is Some { 1int } else { 0 })
        + (if tldr_help(s) is Some { 1int } else { 0 }) + (if add_to_tldr_cache_prompt(s) is Some {
        1int
    } else {
        0
    }) + (if command_help(s) is Some { 1int } else { 0 }) + (if comrad_help(s) is Some {
        1int
    } else {
        0
    })
}

/// No state shows two overlays: at most one of the six is present, it is
/// the overlay of the frame, and it is present exactly in the overlay modes.
pub proof fn lemma_at_most_one_overlay(s: AppState)
    ensures
        overlays_shown(s) <= 1,
        overlays_shown(s) == 1 <==> crate::mode::is_overlay(s.mode),
        overlays_shown(s) == 1 <==> overlay_of(s) is Some,
        filter_popup(s) is Some ==> overlay_of(s) == filter_popup(s),
        man_help(s) is Some ==> overlay_of(s) == man_help(s),
        tldr_help(s) is Some ==> overlay_of(s) == tldr_help(s),
        add_to_tldr_cache_prompt(s) is Some ==> overlay_of(s) == add_to_tldr_cache_prompt(s),
        command_help(s) is Some ==> overlay_of(s) == command_help(s),
        comrad_help(s) is Some ==> overlay_of(s) == comrad_help(s),
{
}

/// The highlighted row of a well-formed state is a row of the list, and
/// the list has as many rows as the filtered view.
pub proof fn lemma_highlight_is_a_row(s: AppState)
    requires
        s.wf(),
    ensures
        rows_of(s).len() == s.visible().len(),
        highlighted_of(s) matches Some(row) ==> 0 <= row < rows_of(s).len() && rows_of(s)[row]
            == s.current(),
{
}

/// The key bindings of a footer, each as its label and its key.
pub open spec fn hints_of(footer: Footer) -> Seq<(Seq<char>, Seq<char>)> {
    match footer {
        Footer::Filter => seq![(" Exit filter "@, "<Esc/Enter>"@)],
        Footer::General => seq![
            (" Down "@, "<j> "@),
            (" Up "@, "<k> "@),
            (" Comrad help "@, "<H> "@),
            (" Show help "@, "<h> "@),
            (" Show man "@, "<m> "@),
            (" Enter man "@, "<M> "@),
            (" Show tldr "@, "<t> "@),
            (" Filter "@, "</>"@),
            (" Quit "@, "<q> "@),
        ],
    }
}

/// The labels and keys that a vector of hints holds.
pub open spec fn hints_model(hints: Seq<Hint>) -> Seq<(Seq<char>, Seq<char>)> {
    hints.map_values(|h: Hint| (h.label@, h.key@))
}

impl Footer {
    /// The key bindings that the footer lists, in the order in which it
    /// lists them.
    pub fn hints(self) -> (hints: Vec<Hint>)
        ensures
            hints_model(hints@) == hints_of(self),
    {
        let mut hints: Vec<Hint> = Vec::new();
        match self {
            Footer::Filter => {
                hints.push(Hint { label: " Exit filter ", key: "<Esc/Enter>" });
            },
            Footer::General => {
                hints.push(Hint { label: " Down ", key: "<j> " });
                hints.push(Hint { label: " Up ", key: "<k> " });
                hints.push(Hint { label: " Comrad help ", key: "<H> " });
                hints.push(Hint { label: " Show help ", key: "<h> " });
                hints.push(Hint { label: " Show man ", key: "<m> " });
                hints.push(Hint { label: " Enter man ", key: "<M> " });
                hints.push(Hint { label: " Show tldr ", key: "<t> " });
                hints.push(Hint { label: " Filter ", key: "</>" });
                hints.push(Hint { label: " Quit ", key: "<q> " });
            },
        }
        hints
    }
}

impl OverlayKind {
    /// Whether the text of the pane is centred.
    pub fn centres_text(self) -> (centred: bool)
        ensures
            centred == centres_text(self),
    {
        match self {
            OverlayKind::Confirm | OverlayKind::AppHelp => true,
            _ => false,
        }
    }

    /// Where the pane lies on the screen.
    pub fn placement(self) -> (placement: Placement)
        ensures
            placement == placement_of(self),
    {
        match self {
            OverlayKind::Filter => Placement {
                width: Extent::Percent(30),
                height: Extent::Cells(3),
            },
            OverlayKind::Confirm => Placement {
                width: Extent::Cells(80),
                height: Extent::Cells(5),
            },
            _ => Placement { width: Extent::Full, height: Extent::Full },
        }
    }
}

impl App {
    /// The rows of the list.
    pub fn rows(&self) -> (rows: Vec<String>)
        ensures
            names_of(rows@) == rows_of(self@),
    {
        let view = self.visible();
        let commands = self.commands();
        let mut rows: Vec<String> = Vec::new();
        let mut k: usize = 0;
        proof {
            crate::filter::lemma_matching_indices(self@.catalog, self@.query);
        }
        while k < view.len()
            invariant
                k <= view.len(),
                indices_of(view@) == self@.visible(),
                names_of(commands@) == self@.catalog,
                forall|n: int|
                    0 <= n < self@.visible().len() ==> 0 <= #[trigger] self@.visible()[n]
                        < self@.catalog.len(),
                names_of(rows@) == rows_of(self@).take(k as int),
            decreases view.len() - k,
        {
            let ghost before = names_of(rows@);
            proof {
                assert(indices_of(view@)[k as int] == view@[k as int]);
            }
            rows.push(commands[view[k]].clone());
            proof {
                assert(rows_of(self@).take(k + 1) =~= before.push(rows_of(self@)[k as int]));
            }
            k += 1;
        }
        rows
    }

    /// The filter box, where the query is being edited.
    pub fn render_filter_popup(&self) -> (overlay: Option<Overlay>)
        ensures
            overlay_model(overlay) == filter_popup(self@),
    {
        match self.mode() {
            UiMode::FilterEdit => Some(
                Overlay {
                    kind: OverlayKind::Filter,
                    title: FILTER_TITLE.to_owned(),
                    body: self.filter_query().to_owned(),
                },
            ),
            _ => None,
        }
    }

    /// A text overlay for the selected command.
    fn render_text_overlay(&self, kind: OverlayKind, lookup: LookupKind) -> (overlay: Option<
        Overlay,
    >)
        requires
            self@.has_selection(),
        ensures
            overlay_model(overlay) == Some(text_overlay(self@, kind, lookup)),
    {
        match self.current_command() {
            Ok(command) => Some(
                Overlay { kind, title: command, body: show_text(lookup, self.overlay_text()) },
            ),
            Err(_) => None,
        }
    }

    /// The manual overlay, where it is open.
    pub fn render_man_help(&self) -> (overlay: Option<Overlay>)
        ensures
            overlay_model(overlay) == man_help(self@),
    {
        proof {
            use_type_invariant(self);
        }
        match self.mode() {
            UiMode::ManOverlay => self.render_text_overlay(OverlayKind::Man, LookupKind::Man),
            _ => None,
        }
    }

    /// The quick-reference overlay, where it is open.
    pub fn render_tldr_help(&self) -> (overlay: Option<Overlay>)
        ensures
            overlay_model(overlay) == tldr_help(self@),
    {
        proof {
            use_type_invariant(self);
        }
        match self.mode() {
            UiMode::TldrOverlay => self.render_text_overlay(OverlayKind::Tldr, LookupKind::Tldr),
            _ => None,
        }
    }

    /// The prompt to fill the quick-reference cache, where it is open.
    pub fn render_add_to_tldr_cache(&self) -> (overlay: Option<Overlay>)
        ensures
            overlay_model(overlay) == add_to_tldr_cache_prompt(self@),
    {
        match self.mode() {
            UiMode::TldrConfirm => Some(
                Overlay {
                    kind: OverlayKind::Confirm,
                    title: CONFIRM_TITLE.to_owned(),
                    body: CONFIRM_PROMPT.to_owned(),
                },
            ),
            _ => None,
        }
    }

    /// The `--help` overlay, where it is open.
    pub fn render_help(&self) -> (overlay: Option<Overlay>)
        ensures
            overlay_model(overlay) == command_help(self@),
    {
        proof {
            use_type_invariant(self);
        }
        match self.mode() {
            UiMode::CommandHelpOverlay => self.render_text_overlay(
                OverlayKind::CommandHelp,
                LookupKind::Help,
            ),
            _ => None,
        }
    }

    /// The application's help, where it is open.
    pub fn render_comrad_help(&self) -> (overlay: Option<Overlay>)
        ensures
            overlay_model(overlay) == comrad_help(self@),
    {
        match self.mode() {
            UiMode::HelpOverlay => Some(
                Overlay {
                    kind: OverlayKind::AppHelp,
                    title: HELP_TITLE.to_owned(),
                    body: HELP_TEXT.to_owned(),
                },
            ),
            _ => None,
        }
    }

    /// The plan of the frame: the list and, over it, the overlay of the
    /// active mode.
    pub fn render(&self) -> (frame: Frame)
        ensures
            frame@ == frame_of(self@),
    {
        proof {
            use_type_invariant(self);
        }
        let rows = self.rows();
        proof {
            assert(rows_of(self@).len() == self@.visible().len());
        }
        let highlighted = if rows.len() > 0 {
            Some(self.selected())
        } else {
            None
        };
        let footer = match self.mode() {
            UiMode::FilterEdit => Footer::Filter,
            _ => Footer::General,
        };
        let overlay = match self.mode() {
            UiMode::FilterEdit => self.render_filter_popup(),
            UiMode::ManOverlay => self.render_man_help(),
            UiMode::TldrOverlay => self.render_tldr_help(),
            UiMode::TldrConfirm => self.render_add_to_tldr_cache(),
            UiMode::CommandHelpOverlay => self.render_help(),
            UiMode::HelpOverlay => self.render_comrad_help(),
            _ => None,
        };
        Frame { title: TITLE, rows, highlighted, footer, overlay }
    }
}

} // verus!
