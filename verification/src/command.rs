//! A registered option: its long name, its short alias (possibly empty),
//! whether it takes a value, and its documentation line.

use vstd::prelude::*;

verus! {

/// The mathematical content of a registered option.
pub ghost struct SpecCommand {
    pub long: Seq<char>,
    pub short: Seq<char>,
    pub takes_input: bool,
    pub doc: Seq<char>,
}

/// A registered option. The long name is matched after a `--` prefix or as a
/// bare word, the short alias after a single `-`; an option that takes input
/// consumes a value, one that does not is recorded by presence alone.
#[derive(Debug)]
pub struct Command {
    pub long: String,
    pub short: String,
    pub takes_input: bool,
    pub doc: String,
}

impl View for Command {
    type V = SpecCommand;

    open spec fn view(&self) -> SpecCommand {
        SpecCommand {
            long: self.long@,
            short: self.short@,
            takes_input: self.takes_input,
            doc: self.doc@,
        }
    }
}

impl Clone for Command {
    fn clone(&self) -> (r: Self)
        ensures
            r == *self,
    {
        Command {
            long: self.long.clone(),
            short: self.short.clone(),
            takes_input: self.takes_input,
            doc: self.doc.clone(),
        }
    }
}

impl Default for Command {
    fn default() -> (r: Self)
        ensures
            r@.long.len() == 0,
            r@.short.len() == 0,
            !r@.takes_input,
            r@.doc.len() == 0,
    {
        Command { long: String::new(), short: String::new(), takes_input: false, doc: String::new() }
    }
}

} // verus!
