//! The modes of the interface, the keys it reads, the events it is handed
//! and the actions it asks for.

use vstd::prelude::*;
use crate::lookup::{Lookup, LookupKind};

verus! {

/// The mode of the interface. Exactly one is active at a time.
#[derive(Clone, Copy, Debug, PartialEq, Eq, Structural)]
pub enum UiMode {
    /// The list of commands, open to movement and to every lookup.
    Browse,
    /// The filter query is being edited.
    FilterEdit,
    /// The key bindings of the application are shown.
    HelpOverlay,
    /// The `--help` text of the selected command is shown.
    CommandHelpOverlay,
    /// The manual page of the selected command is shown.
    ManOverlay,
    /// The terminal is handed to the manual pager.
    ManEnter,
    /// The quick-reference page of the selected command is shown.
    TldrOverlay,
    /// The user is asked whether to fill the quick-reference cache.
    TldrConfirm,
}

/// A key press, as far as the interface tells keys apart.
#[derive(Clone, Copy, Debug, PartialEq, Eq, Structural)]
pub enum Key {
    /// A character key.
    Char(char),
    /// The enter key.
    Enter,
    /// The escape key.
    Esc,
    /// The backspace key.
    Backspace,
    /// The up arrow.
    Up,
    /// The down arrow.
    Down,
    /// Any other key.
    Other,
}

/// What happened to a key.
#[derive(Clone, Copy, Debug, PartialEq, Eq, Structural)]
pub enum KeyKind {
    /// It went down.
    Press,
    /// It is held down.
    Repeat,
    /// It came up.
    Release,
}

/// What the run loop hands to the interface.
#[derive(Debug, PartialEq, Eq)]
pub enum Event {
    /// Something happened to a key. Only a press counts.
    Key(Key, KeyKind),
    /// The `--help` lookup that was asked for has ended.
    HelpOutput(Lookup),
    /// The manual lookup that was asked for has ended.
    ManOutput(Lookup),
    /// The listing of the quick-reference cache that was asked for has ended.
    TldrListing(Lookup),
    /// The quick-reference lookup that was asked for has ended.
    TldrOutput(Lookup),
    /// The manual pager has given the terminal back.
    PagerExited,
    /// Anything else: a resize, the mouse.
    Other,
}

/// What the interface asks the run loop to do next.
#[derive(Debug, PartialEq, Eq)]
pub enum Action {
    /// Nothing.
    Nothing,
    /// Run the named command with `--help` and hand back its output.
    FetchHelp(String),
    /// Run the manual reader on the named command and hand back its output.
    FetchMan(String),
    /// Leave the interface, run the manual pager on the named command, come
    /// back and report that it has exited.
    EnterMan(String),
    /// List the quick-reference cache and hand back the listing.
    ListTldrCache,
    /// Run the quick-reference tool on the named command and hand back its
    /// output.
    FetchTldr(String),
    /// Leave the interface, let the quick-reference tool fetch the page of
    /// the named command, and come back.
    PopulateTldrCache(String),
}

/// An action with its command as a sequence of characters.
pub ghost enum ActionView {
    Nothing,
    FetchHelp(Seq<char>),
    FetchMan(Seq<char>),
    EnterMan(Seq<char>),
    ListTldrCache,
    FetchTldr(Seq<char>),
    PopulateTldrCache(Seq<char>),
}

impl View for Action {
    type V = ActionView;

    open spec fn view(&self) -> ActionView {
        match self {
            Action::Nothing => ActionView::Nothing,
            Action::FetchHelp(command) => ActionView::FetchHelp(command@),
            Action::FetchMan(command) => ActionView::FetchMan(command@),
            Action::EnterMan(command) => ActionView::EnterMan(command@),
            Action::ListTldrCache => ActionView::ListTldrCache,
            Action::FetchTldr(command) => ActionView::FetchTldr(command@),
            Action::PopulateTldrCache(command) => ActionView::PopulateTldrCache(command@),
        }
    }
}

/// The flag that asks a command for its help text.
pub const HELP_FLAG: &'static str = "--help";

/// The manual reader.
pub const MAN_PROGRAM: &'static str = "man";

/// The quick-reference tool.
pub const TLDR_PROGRAM: &'static str = "tldr";

/// The flag that asks the quick-reference tool for the listing of its cache.
pub const TLDR_LIST_FLAG: &'static str = "-l";

/// How an external program is given the terminal.
#[derive(Clone, Copy, Debug, PartialEq, Eq, Structural)]
pub enum Terminal {
    /// Not at all: its output is captured.
    Captured,
    /// The interface is left while the program runs, and restored after it.
    HandedOver,
    /// As `HandedOver`, and the user presses enter before the interface is
    /// restored.
    HandedOverUntilEnter,
}

/// An external program to run: its name, its arguments, and how it is given
/// the terminal.
#[derive(Debug, PartialEq, Eq)]
pub struct Invocation {
    /// The program.
    pub program: String,
    /// Its arguments.
    pub args: Vec<String>,
    /// How it is given the terminal.
    pub terminal: Terminal,
}

/// An invocation with its texts as sequences of characters.
pub ghost struct InvocationView {
    pub program: Seq<char>,
    pub args: Seq<Seq<char>>,
    pub terminal: Terminal,
}

impl View for Invocation {
    type V = InvocationView;

    open spec fn view(&self) -> InvocationView {
        InvocationView {
            program: self.program@,
            args: self.args@.map_values(|arg: String| arg@),
            terminal: self.terminal,
        }
    }
}

/// The program that carries out an action: the command itself with the help
/// flag, the manual reader or the quick-reference tool on the command, or
/// the quick-reference tool with the listing flag.
pub open spec fn invocation_of(action: ActionView) -> Option<InvocationView> {
    match action {
        ActionView::Nothing => None,
        ActionView::FetchHelp(command) => Some(
            InvocationView {
                program: command,
                args: seq![HELP_FLAG@],
                terminal: Terminal::Captured,
            },
        ),
        ActionView::FetchMan(command) => Some(
            InvocationView {
                program: MAN_PROGRAM@,
                args: seq![command],
                terminal: Terminal::Captured,
            },
        ),
        ActionView::EnterMan(command) => Some(
            InvocationView {
                program: MAN_PROGRAM@,
                args: seq![command],
                terminal: Terminal::HandedOver,
            },
        ),
        ActionView::ListTldrCache => Some(
            InvocationView {
                program: TLDR_PROGRAM@,
                args: seq![TLDR_LIST_FLAG@],
                terminal: Terminal::Captured,
            },
        ),
        ActionView::FetchTldr(command) => Some(
            InvocationView {
                program: TLDR_PROGRAM@,
                args: seq![command],
                terminal: Terminal::Captured,
            },
        ),
        ActionView::PopulateTldrCache(command) => Some(
            InvocationView {
                program: TLDR_PROGRAM@,
                args: seq![command],
                terminal: Terminal::HandedOverUntilEnter,
            },
        ),
    }
}

/// The event that reports the outcome of an action.
pub open spec fn reply_of(action: ActionView, outcome: Lookup) -> Event {
    match action {
        ActionView::FetchHelp(_) => Event::HelpOutput(outcome),
        ActionView::FetchMan(_) => Event::ManOutput(outcome),
        ActionView::EnterMan(_) => Event::PagerExited,
        ActionView::ListTldrCache => Event::TldrListing(outcome),
        ActionView::FetchTldr(_) => Event::TldrOutput(outcome),
        _ => Event::Other,
    }
}

impl Action {
    /// The program to run for the action, if it runs one.
    pub fn invocation(&self) -> (invocation: Option<Invocation>)
        ensures
            match invocation {
                Some(i) => invocation_of(self@) == Some(i@),
                None => invocation_of(self@) is None,
            },
    {
        let (program, arg, terminal) = match self {
            Action::Nothing => {
                return None;
            },
            Action::FetchHelp(command) => (
                command.clone(),
                HELP_FLAG.to_owned(),
                Terminal::Captured,
            ),
            Action::FetchMan(command) => (
                MAN_PROGRAM.to_owned(),
                command.clone(),
                Terminal::Captured,
            ),
            Action::EnterMan(command) => (
                MAN_PROGRAM.to_owned(),
                command.clone(),
                Terminal::HandedOver,
            ),
            Action::ListTldrCache => (
                TLDR_PROGRAM.to_owned(),
                TLDR_LIST_FLAG.to_owned(),
                Terminal::Captured,
            ),
            Action::FetchTldr(command) => (
                TLDR_PROGRAM.to_owned(),
                command.clone(),
                Terminal::Captured,
            ),
            Action::PopulateTldrCache(command) => (
                TLDR_PROGRAM.to_owned(),
                command.clone(),
                Terminal::HandedOverUntilEnter,
            ),
        };
        let mut args: Vec<String> = Vec::new();
        args.push(arg);
        let invocation = Invocation { program, args, terminal };
        proof {
            assert(invocation@.args =~= seq![arg@]);
        }
        Some(invocation)
    }

    /// The event that reports the outcome of the action.
    pub fn reply(&self, outcome: Lookup) -> (event: Event)
        ensures
            event == reply_of(self@, outcome),
    {
        match self {
            Action::FetchHelp(_) => Event::HelpOutput(outcome),
            Action::FetchMan(_) => Event::ManOutput(outcome),
            Action::EnterMan(_) => Event::PagerExited,
            Action::ListTldrCache => Event::TldrListing(outcome),
            Action::FetchTldr(_) => Event::TldrOutput(outcome),
            _ => Event::Other,
        }
    }
}

/// The mode acts on the selected command, so it is entered only where a
/// command is selected.
pub open spec fn needs_command(mode: UiMode) -> bool {
    mode == UiMode::CommandHelpOverlay || mode == UiMode::ManOverlay || mode == UiMode::ManEnter
        || mode == UiMode::TldrOverlay || mode == UiMode::TldrConfirm
}

/// The kind of lookup whose text the mode shows, if it shows one.
pub open spec fn lookup_shown(mode: UiMode) -> Option<LookupKind> {
    match mode {
        UiMode::CommandHelpOverlay => Some(LookupKind::Help),
        UiMode::ManOverlay => Some(LookupKind::Man),
        UiMode::TldrOverlay => Some(LookupKind::Tldr),
        _ => None,
    }
}

/// The mode draws a pane over the list.
pub open spec fn is_overlay(mode: UiMode) -> bool {
    mode == UiMode::FilterEdit || mode == UiMode::HelpOverlay || mode
        == UiMode::CommandHelpOverlay || mode == UiMode::ManOverlay || mode == UiMode::TldrOverlay
        || mode == UiMode::TldrConfirm
}

} // verus!
