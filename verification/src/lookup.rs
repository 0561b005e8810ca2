//! What came back from an external help, manual or quick-reference lookup,
//! and the text that the interface shows for it.

use vstd::prelude::*;
use vstd::utf8::{decode_utf8, valid_utf8};
use crate::listing::{listing_entries, listing_names};

verus! {

/// Shown in place of output that is not valid UTF-8.
pub const UNREADABLE_OUTPUT: &'static str = "Unexpected error when reading the output.";

/// Shown when a command gave no help text.
pub const NO_HELP: &'static str = "No help implemented for this command";

/// Shown when the manual has no page for a command.
pub const NO_MANUAL: &'static str = "No entries in the manual for this command";

/// Shown when the quick reference has no page for a command.
pub const NO_TLDR: &'static str = "No entries in tldr for this command";

/// Shown when the selected command could not be started.
pub const COMMAND_NOT_RUN: &'static str = "Error: The command could not be run.";

/// Shown when the manual reader could not be started.
pub const MAN_MISSING: &'static str = "Error: Check if MAN is installed in your system.";

/// Shown when the quick-reference tool could not be started.
pub const TLDR_MISSING: &'static str = "Error: Check if TLDR is installed in your system.";

/// Shown when the quick-reference tool failed to list its cache.
pub const TLDR_LISTING_FAILED: &'static str = "Error: TLDR could not list its cache.";

/// The three kinds of lookup.
#[derive(Clone, Copy, Debug, PartialEq, Eq, Structural)]
pub enum LookupKind {
    /// The command's own `--help` output.
    Help,
    /// The manual page.
    Man,
    /// The quick-reference page.
    Tldr,
}

/// The outcome of running an external program for a lookup.
#[derive(Debug, PartialEq, Eq)]
pub enum Lookup {
    /// The program could not be started.
    NotRun,
    /// The program ran to its end.
    Finished {
        /// Whether it reported success.
        success: bool,
        /// What it wrote to its standard output.
        stdout: Vec<u8>,
        /// What it wrote to its standard error.
        stderr: Vec<u8>,
    },
}

/// The text that stands for a lookup that could not be started.
pub open spec fn missing_message(kind: LookupKind) -> Seq<char> {
    match kind {
        LookupKind::Help => COMMAND_NOT_RUN@,
        LookupKind::Man => MAN_MISSING@,
        LookupKind::Tldr => TLDR_MISSING@,
    }
}

/// The text that stands for a lookup that gave nothing.
pub open spec fn empty_message(kind: LookupKind) -> Seq<char> {
    match kind {
        LookupKind::Help => NO_HELP@,
        LookupKind::Man => NO_MANUAL@,
        LookupKind::Tldr => NO_TLDR@,
    }
}

/// The characters of captured output: its decoding where it is valid UTF-8,
/// a fixed message where it is not.
pub open spec fn decoded(bytes: Seq<u8>) -> Seq<char> {
    if valid_utf8(bytes) {
        decode_utf8(bytes)
    } else {
        UNREADABLE_OUTPUT@
    }
}

/// The text fetched by a lookup: the decoded standard output of a program
/// that ran, whatever its exit status, and a fixed message for one that
/// could not be started.
pub open spec fn fetched_text(kind: LookupKind, lookup: Lookup) -> Seq<char> {
    match lookup {
        Lookup::NotRun => missing_message(kind),
        Lookup::Finished { stdout, .. } => decoded(stdout@),
    }
}

/// The text that an overlay shows for fetched text: the text itself, or the
/// kind's fixed message in place of an empty pane.
pub open spec fn shown_text(kind: LookupKind, text: Seq<char>) -> Seq<char> {
    if text.len() > 0 {
        text
    } else {
        empty_message(kind)
    }
}

/// The characters that `String::from_utf8_lossy` gives for a byte string.
pub uninterp spec fn lossy_text_of(bytes: Seq<u8>) -> Seq<char>;

/// The text of the quick-reference tool's listing, where the tool ran and
/// reported success.
pub open spec fn listing_of(lookup: Lookup) -> Option<Seq<char>> {
    match lookup {
        Lookup::NotRun => None,
        Lookup::Finished { success, stdout, .. } => if success {
            Some(lossy_text_of(stdout@))
        } else {
            None
        },
    }
}

/// The text that stands for a listing that could not be had: one message
/// for a tool that could not be started, another for one that failed.
pub open spec fn listing_failure(lookup: Lookup) -> Option<Seq<char>> {
    match lookup {
        Lookup::NotRun => Some(TLDR_MISSING@),
        Lookup::Finished { success, .. } => if success {
            None
        } else {
            Some(TLDR_LISTING_FAILED@)
        },
    }
}

/// A command is in the quick-reference cache when the tool listed its
/// cache and the command is one of the entries of the listing.
pub open spec fn in_tldr_cache(lookup: Lookup, command: Seq<char>) -> bool {
    match listing_of(lookup) {
        Some(text) => listing_entries(text).contains(command),
        None => false,
    }
}

/// None of the fixed messages is empty, so no overlay shows an empty pane.
pub proof fn lemma_messages_are_not_empty()
    ensures
        forall|kind: LookupKind| #[trigger] empty_message(kind).len() > 0,
        forall|kind: LookupKind| #[trigger] missing_message(kind).len() > 0,
        UNREADABLE_OUTPUT@.len() > 0,
        forall|kind: LookupKind, text: Seq<char>| #[trigger] shown_text(kind, text).len() > 0,
        forall|lookup: Lookup|
            #[trigger] listing_failure(lookup) matches Some(message) ==> message.len() > 0,
{
    reveal_strlit("Error: TLDR could not list its cache.");
    reveal_strlit("Unexpected error when reading the output.");
    reveal_strlit("No help implemented for this command");
    reveal_strlit("No entries in the manual for this command");
    reveal_strlit("No entries in tldr for this command");
    reveal_strlit("Error: The command could not be run.");
    reveal_strlit("Error: Check if MAN is installed in your system.");
    reveal_strlit("Error: Check if TLDR is installed in your system.");
}

/// `core::str::from_utf8`: `Some` exactly for valid UTF-8, and then the
/// characters that the bytes encode.
#[verifier::external_body]
pub(crate) fn utf8_text(bytes: &[u8]) -> (text: Option<String>)
    ensures
        text is Some <==> valid_utf8(bytes@),
        text matches Some(s) ==> s@ == decode_utf8(bytes@),
{
    match core::str::from_utf8(bytes) {
        Ok(s) => Some(s.to_owned()),
        Err(_) => None,
    }
}

/// `String::from_utf8_lossy`: the result is a function of the bytes alone,
/// and for valid UTF-8 it is the characters that the bytes encode.
#[verifier::external_body]
pub(crate) fn lossy_text(bytes: &[u8]) -> (text: String)
    ensures
        text@ == lossy_text_of(bytes@),
        valid_utf8(bytes@) ==> text@ == decode_utf8(bytes@),
{
    String::from_utf8_lossy(bytes).into_owned()
}

impl LookupKind {
    /// The fixed message for a lookup of this kind that could not be started.
    pub fn missing_message(self) -> (message: &'static str)
        ensures
            message@ == missing_message(self),
    {
        match self {
            LookupKind::Help => COMMAND_NOT_RUN,
            LookupKind::Man => MAN_MISSING,
            LookupKind::Tldr => TLDR_MISSING,
        }
    }

    /// The fixed message for a lookup of this kind that gave nothing.
    pub fn empty_message(self) -> (message: &'static str)
        ensures
            message@ == empty_message(self),
    {
        match self {
            LookupKind::Help => NO_HELP,
            LookupKind::Man => NO_MANUAL,
            LookupKind::Tldr => NO_TLDR,
        }
    }
}

/// Decodes captured output for display.
pub fn decode_output(bytes: &[u8]) -> (text: String)
    ensures
        text@ == decoded(bytes@),
{
    match utf8_text(bytes) {
        Some(s) => s,
        None => UNREADABLE_OUTPUT.to_owned(),
    }
}

/// The text fetched by a lookup of the given kind.
pub fn fetch_text(kind: LookupKind, lookup: &Lookup) -> (text: String)
    ensures
        text@ == fetched_text(kind, *lookup),
{
    match lookup {
        Lookup::NotRun => kind.missing_message().to_owned(),
        Lookup::Finished { stdout, .. } => decode_output(stdout.as_slice()),
    }
}

/// The text that an overlay of the given kind shows for fetched text.
pub fn show_text(kind: LookupKind, text: &str) -> (shown: String)
    ensures
        shown@ == shown_text(kind, text@),
        shown@.len() > 0,
{
    proof {
        lemma_messages_are_not_empty();
    }
    if text.is_empty() {
        kind.empty_message().to_owned()
    } else {
        text.to_owned()
    }
}

/// Whether the quick-reference tool listed its cache and the listing holds
/// `command` as one of its entries.
pub fn check_in_tldr_cache(lookup: &Lookup, command: &str) -> (present: bool)
    ensures
        present == in_tldr_cache(*lookup, command@),
        *lookup matches Lookup::Finished { success, stdout, .. } ==> (success && valid_utf8(
            stdout@,
        ) ==> present == listing_entries(decode_utf8(stdout@)).contains(command@)),
{
    match lookup {
        Lookup::NotRun => false,
        Lookup::Finished { success, stdout, .. } => {
            if *success {
                let listing = lossy_text(stdout.as_slice());
                listing_names(listing.as_str(), command)
            } else {
                false
            }
        },
    }
}

/// The fixed message for a listing that could not be had, if it could not.
pub fn listing_failure_message(lookup: &Lookup) -> (message: Option<&'static str>)
    ensures
        match message {
            Some(m) => listing_failure(*lookup) == Some(m@),
            None => listing_failure(*lookup) is None,
        },
{
    match lookup {
        Lookup::NotRun => Some(TLDR_MISSING),
        Lookup::Finished { success, .. } => {
            if *success {
                None
            } else {
                Some(TLDR_LISTING_FAILED)
            }
        },
    }
}

} // verus!
