//! The panel that reports a jump.

use vstd::prelude::*;
use vstd::string::StringExecFns;
use crate::entry::{entry_text, EntryView};

verus! {

/// What the lower panel shows after a jump.
#[derive(Debug, Clone, PartialEq, Eq)]
pub struct RenderPayload {
    /// The name that went to the clipboard.
    pub copied: String,
    /// Whether the game window is asked for the focus.
    pub focus_steal: bool,
    /// The block of the system that the pilot leaves.
    pub current_system: String,
    /// The block of the system that the pilot jumps to.
    pub next_jump: String,
}

/// A panel as plain values.
pub ghost struct PayloadView {
    pub copied: Seq<char>,
    pub focus_steal: bool,
    pub current_system: Seq<char>,
    pub next_jump: Seq<char>,
}

impl View for RenderPayload {
    type V = PayloadView;

    open spec fn view(&self) -> PayloadView {
        PayloadView {
            copied: self.copied@,
            focus_steal: self.focus_steal,
            current_system: self.current_system@,
            next_jump: self.next_jump@,
        }
    }
}

/// The panel for a jump from `prev` to `next`.
pub open spec fn payload_of(prev: EntryView, next: EntryView, focus_steal: bool) -> PayloadView {
    PayloadView {
        copied: next.system_name,
        focus_steal,
        current_system: entry_text(prev),
        next_jump: entry_text(next),
    }
}

/// The note on the focus, where there is one.
pub open spec fn focus_note(focus_steal: bool) -> Seq<char> {
    if focus_steal {
        "\nSetting focus back to Elite Dangerous"@
    } else {
        Seq::empty()
    }
}

/// The text of a panel: what was copied, the note on the focus, then the
/// system left behind and the system ahead, each under its heading.
pub open spec fn payload_text(p: PayloadView) -> Seq<char> {
    "Copied: '\x1b[96m"@ + p.copied + "\x1b[0m' to clipboard"@ + focus_note(p.focus_steal)
        + "\n\n\x1b[37mCurrent System:\n"@ + p.current_system + "\x1b[0m\n\n\x1b[37mNext Jump:\n"@
        + p.next_jump + "\n"@
}

impl RenderPayload {
    /// Appends the text of the panel to `f`.
    pub fn fmt(&self, f: &mut String)
        ensures
            final(f)@ == old(f)@ + payload_text(self@),
    {
        f.append("Copied: '\x1b[96m");
        f.append(self.copied.as_str());
        f.append("\x1b[0m' to clipboard");
        if self.focus_steal {
            f.append("\nSetting focus back to Elite Dangerous");
        }
        f.append("\n\n\x1b[37mCurrent System:\n");
        f.append(self.current_system.as_str());
        f.append("\x1b[0m\n\n\x1b[37mNext Jump:\n");
        f.append(self.next_jump.as_str());
        f.append("\n");
    }

    /// The text of the panel.
    pub fn to_string(&self) -> (s: String)
        ensures
            s@ == payload_text(self@),
    {
        let mut s = String::new();
        self.fmt(&mut s);
        s
    }
}

} // verus!
