//! 24-bit terminal colours as escape sequences.

use vstd::prelude::*;
use vstd::string::StringExecFns;
use crate::numeral::{decimal_text, push_decimal};

verus! {

/// A 24-bit colour for the text that follows it, or for its background.
#[derive(Debug, Copy, Clone)]
pub struct TrueColor {
    pub rgb: [u8; 3],
    pub background: bool,
}

/// The escape sequence that selects the colour `r`, `g`, `b`: for the
/// background under selector 48, for the text itself under 38.
pub open spec fn color_text(r: u8, g: u8, b: u8, background: bool) -> Seq<char> {
    "\x1b["@ + (if background {
        "48"@
    } else {
        "38"@
    }) + ";2;"@ + decimal_text(r as nat) + ";"@ + decimal_text(g as nat) + ";"@ + decimal_text(
        b as nat,
    ) + "m"@
}

impl TrueColor {
    /// The escape sequence of this colour.
    pub open spec fn text(&self) -> Seq<char> {
        color_text(self.rgb[0], self.rgb[1], self.rgb[2], self.background)
    }

    /// A background colour.
    pub fn bg(r: u8, g: u8, b: u8) -> (color: Self)
        ensures
            color.rgb@ == seq![r, g, b],
            color.background,
    {
        Self { rgb: [r, g, b], background: true }
    }

    /// Appends the escape sequence of this colour to `f`.
    pub fn fmt(&self, f: &mut String)
        ensures
            final(f)@ == old(f)@ + self.text(),
    {
        let target: &str = if self.background {
            "48"
        } else {
            "38"
        };
        f.append("\x1b[");
        f.append(target);
        f.append(";2;");
        push_decimal(f, self.rgb[0] as u64);
        f.append(";");
        push_decimal(f, self.rgb[1] as u64);
        f.append(";");
        push_decimal(f, self.rgb[2] as u64);
        f.append("m");
    }

    /// The escape sequence of this colour.
    pub fn to_string(&self) -> (s: String)
        ensures
            s@ == self.text(),
    {
        let mut s = String::new();
        self.fmt(&mut s);
        s
    }
}

} // verus!
