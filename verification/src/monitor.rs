//! Which monitor to capture, and how the capture is carried out.

use vstd::prelude::*;
use crate::text::{
    all_ascii, all_digits, ascii_lowercase, decimal, decimal_text, digits_value, is_digit,
    lemma_decimal_reads_back, lowercase, parse_usize, parsed_usize, same_text, to_lowercase,
};

verus! {

/// Monitor selection options.
#[derive(Debug, Clone, Copy, PartialEq, Eq, Structural)]
pub enum MonitorSelection {
    Primary,
    Index(usize),
    All,
}

/// The selection named by an already lowercased word: `primary`, `all`, a
/// monitor number, and the primary monitor for anything else.
pub open spec fn selection_from_lowered(word: Seq<char>) -> MonitorSelection {
    if word == "primary"@ {
        MonitorSelection::Primary
    } else if word == "all"@ {
        MonitorSelection::All
    } else {
        match parsed_usize(word) {
            Some(i) => MonitorSelection::Index(i),
            None => MonitorSelection::Primary,
        }
    }
}

/// How a selection is written.
pub open spec fn selection_text(m: MonitorSelection) -> Seq<char> {
    match m {
        MonitorSelection::Primary => "primary"@,
        MonitorSelection::Index(i) => decimal(i as nat),
        MonitorSelection::All => "all"@,
    }
}

/// Parse monitor selection from string.
pub fn parse_monitor_selection(monitor: &str) -> (m: MonitorSelection)
    ensures
        m == selection_from_lowered(lowercase(monitor@)),
        all_ascii(monitor@) ==> m == selection_from_lowered(ascii_lowercase(monitor@)),
{
    let lowered = to_lowercase(monitor);
    let word = lowered.as_str();
    if same_text(word, "primary") {
        MonitorSelection::Primary
    } else if same_text(word, "all") {
        MonitorSelection::All
    } else {
        match parse_usize(word) {
            Some(i) => MonitorSelection::Index(i),
            None => MonitorSelection::Primary,
        }
    }
}

impl MonitorSelection {
    /// The selection as it is written on the command line (its display form).
    pub fn display_text(&self) -> (r: String)
        ensures
            r@ == selection_text(*self),
    {
        match self {
            MonitorSelection::Primary => String::from_str("primary"),
            MonitorSelection::Index(i) => decimal_text(*i),
            MonitorSelection::All => String::from_str("all"),
        }
    }
}

/// Capture method enum (mostly for info).
#[derive(Debug, Clone, Copy, PartialEq, Eq, Structural)]
pub enum CaptureMethod {
    Windows,
    Wsl,
    Unsupported,
}

/// How a capture method is shown to the user.
pub open spec fn capture_method_text(m: CaptureMethod) -> Seq<char> {
    match m {
        CaptureMethod::Windows => "Windows (PowerShell)"@,
        CaptureMethod::Wsl => "WSL (PowerShell)"@,
        CaptureMethod::Unsupported => "Unsupported"@,
    }
}

impl CaptureMethod {
    /// The method as it is shown to the user (its display form).
    pub fn display_text(&self) -> (r: String)
        ensures
            r@ == capture_method_text(*self),
    {
        match self {
            CaptureMethod::Windows => String::from_str("Windows (PowerShell)"),
            CaptureMethod::Wsl => String::from_str("WSL (PowerShell)"),
            CaptureMethod::Unsupported => String::from_str("Unsupported"),
        }
    }
}

/// Writing a selection and reading it back gives the same selection: the
/// written form is ASCII, lowercasing leaves it unchanged, and parsing it
/// yields the selection it came from.
pub proof fn law_selection_round_trip(m: MonitorSelection)
    ensures
        all_ascii(selection_text(m)),
        ascii_lowercase(selection_text(m)) == selection_text(m),
        selection_from_lowered(ascii_lowercase(selection_text(m))) == m,
{
    reveal_strlit("primary");
    reveal_strlit("all");
    let t = selection_text(m);
    match m {
        MonitorSelection::Index(i) => {
            lemma_decimal_reads_back(i as nat);
            assert(is_digit(t[0]));
            assert(all_ascii(t)) by {
                assert forall|k: int| 0 <= k < t.len() implies (#[trigger] t[k] as nat) < 128 by {
                    assert(is_digit(t[k]));
                }
            }
            assert(ascii_lowercase(t) =~= t) by {
                assert forall|k: int| 0 <= k < t.len() implies #[trigger] ascii_lowercase(t)[k] == t[k] by {
                    assert(is_digit(t[k]));
                }
            }
            assert(t != "primary"@);
            assert(t != "all"@);
            assert(t[0] != '+');
            assert(all_digits(t) && digits_value(t) == i);
        }
        _ => {
            assert(ascii_lowercase(t) =~= t);
        }
    }
}

} // verus!
