//! Decoding the cells of a route file.

use vstd::prelude::*;
use vstd::string::StringExecFns;

verus! {

/// Why a cell of the route file could not be taken.
#[derive(Debug, Clone, PartialEq, Eq)]
pub enum InputError {
    /// A flag column held something other than `Yes` or `No`; the variant
    /// carries what it held.
    UnknownVariant(String),
}

/// What an `InputError` says to the user.
pub open spec fn input_error_text(value: Seq<char>) -> Seq<char> {
    "unknown variant `"@ + value + "`, expected `Yes` or `No`"@
}

impl InputError {
    /// What the cell held.
    pub open spec fn value(&self) -> Seq<char> {
        match self {
            InputError::UnknownVariant(value) => value@,
        }
    }

    /// The message for the user, which names what the cell held.
    pub fn message(&self) -> (s: String)
        ensures
            s@ == input_error_text(self.value()),
    {
        let mut s = String::new();
        s.append("unknown variant `");
        match self {
            InputError::UnknownVariant(value) => s.append(value.as_str()),
        }
        s.append("`, expected `Yes` or `No`");
        s
    }
}

/// What a flag cell that holds `s` means, if anything.
pub open spec fn flag_of(s: Seq<char>) -> Option<bool> {
    if s == "Yes"@ {
        Some(true)
    } else if s == "No"@ {
        Some(false)
    } else {
        None
    }
}

/// Decodes a flag cell: `Yes` is true and `No` is false, letter for
/// letter. Anything else is refused, and the error carries it.
pub fn yesno_bool(s: &str) -> (flag: Result<bool, InputError>)
    ensures
        match flag_of(s@) {
            Some(b) => flag == Ok::<bool, InputError>(b),
            None => flag is Err && flag->Err_0.value() == s@,
        },
{
    let cell = s.to_owned();
    if cell == "Yes".to_owned() {
        Ok(true)
    } else if cell == "No".to_owned() {
        Ok(false)
    } else {
        Err(InputError::UnknownVariant(cell))
    }
}

/// The two spellings of a flag mean different things.
pub proof fn lemma_flag_spellings()
    ensures
        flag_of("Yes"@) == Some(true),
        flag_of("No"@) == Some(false),
{
    reveal_strlit("Yes");
    reveal_strlit("No");
    assert("Yes"@.len() == 3);
}

} // verus!
