use crate::registry::{AvailabilityResult, RegistryType};
use crate::session::{App, InputMode, Screen};
use crate::text::{contains_text, seq_contains};
use vstd::prelude::*;
use vstd::string::*;

verus! {

/// The short name of a probe error, by the words in it.
pub open spec fn error_label(err: Seq<char>) -> Seq<char> {
    if seq_contains(err, "timeout"@) || seq_contains(err, "Timeout"@) {
        "Timeout"@
    } else if seq_contains(err, "rate"@) || seq_contains(err, "429"@) {
        "Rate Limited"@
    } else if seq_contains(err, "403"@) || seq_contains(err, "Forbidden"@) {
        "Access Denied"@
    } else if seq_contains(err, "connect"@) || seq_contains(err, "network"@) {
        "Network Error"@
    } else {
        "Error"@
    }
}

pub fn short_error_label(err: &str) -> (r: &'static str)
    ensures
        r@ == error_label(err@),
{
    if contains_text(err, "timeout") || contains_text(err, "Timeout") {
        "Timeout"
    } else if contains_text(err, "rate") || contains_text(err, "429") {
        "Rate Limited"
    } else if contains_text(err, "403") || contains_text(err, "Forbidden") {
        "Access Denied"
    } else if contains_text(err, "connect") || contains_text(err, "network") {
        "Network Error"
    } else {
        "Error"
    }
}

/// The word an outcome is listed with.
pub open spec fn outcome_word(available: Option<bool>, error: Option<Seq<char>>) -> Seq<char> {
    match (available, error) {
        (Some(true), _) => "Available"@,
        (Some(false), _) => "Taken"@,
        (None, Some(e)) => error_label(e),
        (None, None) => "Unknown"@,
    }
}

pub fn outcome_status_text(result: &AvailabilityResult) -> (r: &'static str)
    ensures
        r@ == outcome_word(result.available, result@.error),
{
    match (result.available, &result.error) {
        (Some(true), _) => "Available",
        (Some(false), _) => "Taken",
        (None, Some(e)) => short_error_label(e.as_str()),
        (None, None) => "Unknown",
    }
}

/// Longest error text shown in full.
pub const SHOWN_ERROR_CHARS: usize = 40;

/// An error cut to its first characters, marked as cut.
pub open spec fn shortened(err: Seq<char>) -> Seq<char> {
    if err.len() > SHOWN_ERROR_CHARS {
        err.subrange(0, SHOWN_ERROR_CHARS as int) + "..."@
    } else {
        err
    }
}

pub fn shorten_error(err: &str) -> (r: String)
    ensures
        r@ == shortened(err@),
{
    let n = err.unicode_len();
    if n > SHOWN_ERROR_CHARS {
        let mut s = String::from_str(err.substring_char(0, SHOWN_ERROR_CHARS));
        s.append("...");
        s
    } else {
        String::from_str(err)
    }
}

/// What registering on a kind does, as the register list says it.
pub open spec fn action_label(kind: RegistryType) -> Seq<char> {
    match kind {
        RegistryType::GitHub => "Create repository"@,
        RegistryType::Npm | RegistryType::Crates | RegistryType::PyPi => "Reserve via GitHub"@,
        RegistryType::DevDomain => "Check registrar"@,
        _ => "Submission instructions"@,
    }
}

pub fn registration_action_label(kind: RegistryType) -> (r: &'static str)
    ensures
        r@ == action_label(kind),
{
    match kind {
        RegistryType::GitHub => "Create repository",
        RegistryType::Npm | RegistryType::Crates | RegistryType::PyPi => "Reserve via GitHub",
        RegistryType::DevDomain => "Check registrar",
        _ => "Submission instructions",
    }
}

/// How a register status line is shown.
#[derive(Clone, Copy, Debug, PartialEq, Eq, Structural)]
pub enum Tone {
    Failure,
    Success,
    Plain,
}

pub open spec fn tone_of(status: Option<Seq<char>>) -> Tone {
    match status {
        Some(s) => if seq_contains(s, "Error"@) {
            Tone::Failure
        } else if seq_contains(s, "Success"@) {
            Tone::Success
        } else {
            Tone::Plain
        },
        None => Tone::Plain,
    }
}

pub fn status_tone(status: &Option<String>) -> (r: Tone)
    ensures
        r == tone_of(crate::registry::opt_text(*status)),
{
    match status {
        Some(s) => if contains_text(s.as_str(), "Error") {
            Tone::Failure
        } else if contains_text(s.as_str(), "Success") {
            Tone::Success
        } else {
            Tone::Plain
        },
        None => Tone::Plain,
    }
}

/// How many outcomes carry an error.
pub open spec fn errors_in(rs: Seq<AvailabilityResult>) -> nat
    decreases rs.len(),
{
    if rs.len() == 0 {
        0
    } else {
        errors_in(rs.drop_last()) + if rs.last().error is Some {
            1nat
        } else {
            0nat
        }
    }
}

/// The hint the status bar gives for a screen and mode.
pub open spec fn hint_for(screen: Screen, mode: InputMode) -> Seq<char> {
    match (screen, mode) {
        (Screen::Search, InputMode::Normal) => "NORMAL | i,e to edit | Enter to focus"@,
        (Screen::Search, InputMode::Editing) => "EDITING | Esc to unfocus | Enter to search"@,
        (Screen::Register, _) => "\u{2191}/\u{2193} select | Enter to register | ? help"@,
        (Screen::Settings, _) => "\u{2191}/\u{2193} select | Enter/Space toggle | ? help"@,
    }
}

impl App {
    /// How many of the last results carry an error.
    pub fn error_count(&self) -> (r: usize)
        ensures
            r == errors_in(self.search_results@),
    {
        let rs = &self.search_results;
        let mut n: usize = 0;
        let mut i: usize = 0;
        while i < rs.len()
            invariant
                i <= rs@.len(),
                n == errors_in(rs@.subrange(0, i as int)),
                n <= i,
            decreases rs@.len() - i,
        {
            assert(rs@.subrange(0, i + 1).drop_last() =~= rs@.subrange(0, i as int));
            if rs[i].error.is_some() {
                n = n + 1;
            }
            i = i + 1;
        }
        assert(rs@.subrange(0, rs@.len() as int) =~= rs@);
        n
    }

    /// The hint of the status bar for the current screen and mode.
    pub fn mode_hint(&self) -> (r: &'static str)
        ensures
            r@ == hint_for(self.screen, self.input_mode),
    {
        match (self.screen, self.input_mode) {
            (Screen::Search, InputMode::Normal) => "NORMAL | i,e to edit | Enter to focus",
            (Screen::Search, InputMode::Editing) => "EDITING | Esc to unfocus | Enter to search",
            (Screen::Register, _) => "\u{2191}/\u{2193} select | Enter to register | ? help",
            (Screen::Settings, _) => "\u{2191}/\u{2193} select | Enter/Space toggle | ? help",
        }
    }
}

} // verus!
