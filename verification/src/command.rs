//! The value a tree node carries: a command given either as a number or as
//! text.

use vstd::prelude::*;
use crate::text::{decimal_chars, usize_to_string};

verus! {

/// A command value from the automation file: numeric or textual.
#[derive(Debug)]
pub enum GenericCmd {
    Number(usize),
    Character(String),
}

impl GenericCmd {
    /// The textual form of the command: digits for a number, the text itself
    /// otherwise.
    pub open spec fn text(self) -> Seq<char> {
        match self {
            GenericCmd::Number(n) => decimal_chars(n as nat),
            GenericCmd::Character(s) => s@,
        }
    }

    /// Converts the command to the text a reader of the console sees.
    pub fn to_text(&self) -> (r: String)
        ensures
            r@ == self.text(),
    {
        match self {
            GenericCmd::Number(n) => usize_to_string(*n),
            GenericCmd::Character(s) => s.clone(),
        }
    }
}

impl Clone for GenericCmd {
    fn clone(&self) -> (r: Self)
        ensures
            r == *self,
    {
        match self {
            GenericCmd::Number(n) => GenericCmd::Number(*n),
            GenericCmd::Character(s) => GenericCmd::Character(s.clone()),
        }
    }
}

} // verus!
