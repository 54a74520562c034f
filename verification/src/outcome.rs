//! The outcome of one parse: a mapping of recognised options, a rendered help
//! text, or a descriptive error — exactly one of the three.

use crate::argmap::ArgMap;
use crate::argmap::map_contents;
use vstd::prelude::*;
use vstd::string::StringExecFns;

verus! {

/// The mathematical content of a parse outcome: exactly one of a mapping from
/// option names to values, a help text, or an error message.
pub ghost enum SpecOutcome {
    Values { entries: Map<Seq<char>, Seq<char>> },
    Help { text: Seq<char> },
    Error { message: Seq<char> },
}

/// The outcome of one parse. Exactly one of the three fields is set; no
/// partial mapping leaks beside a help text or an error.
#[derive(Debug)]
pub struct ParserResult {
    pub map: Option<ArgMap>,
    pub help: Option<String>,
    pub error: Option<String>,
}

impl ParserResult {
    /// Exactly one of the three fields is set.
    pub open spec fn wf(&self) -> bool {
        match (self.map, self.help, self.error) {
            (Some(_), None, None) => true,
            (None, Some(_), None) => true,
            (None, None, Some(_)) => true,
            _ => false,
        }
    }
}

impl View for ParserResult {
    type V = SpecOutcome;

    open spec fn view(&self) -> SpecOutcome {
        if self.map is Some {
            SpecOutcome::Values { entries: map_contents(self.map->0) }
        } else if self.help is Some {
            SpecOutcome::Help { text: self.help->0@ }
        } else if self.error is Some {
            SpecOutcome::Error { message: self.error->0@ }
        } else {
            SpecOutcome::Error { message: Seq::empty() }
        }
    }
}

impl ParserResult {
    /// Wraps a mapping as a successful outcome.
    pub fn from_map(map: ArgMap) -> (r: Self)
        ensures
            r.wf(),
            r@ == (SpecOutcome::Values { entries: map_contents(map) }),
    {
        Self { map: Some(map), help: None, error: None }
    }

    /// Wraps a rendered help text as an outcome.
    pub fn from_help(help: String) -> (r: Self)
        ensures
            r.wf(),
            r@ == (SpecOutcome::Help { text: help@ }),
    {
        Self { map: None, help: Some(help), error: None }
    }

    /// Wraps an error message as an outcome.
    pub fn from_error(error: String) -> (r: Self)
        ensures
            r.wf(),
            r@ == (SpecOutcome::Error { message: error@ }),
    {
        Self { map: None, help: None, error: Some(error) }
    }

    /// The mapping of a successful outcome, or nothing.
    pub fn map(&self) -> (r: Option<ArgMap>)
        ensures
            match r {
                Some(m) => self.map is Some && map_contents(m) == map_contents(self.map->0),
                None => self.map is None,
            },
    {
        match &self.map {
            Some(m) => Some(m.duplicate()),
            None => None,
        }
    }

    /// The rendered help text, or nothing.
    pub fn help(&self) -> (r: Option<String>)
        ensures
            r == self.help,
    {
        match &self.help {
            Some(h) => Some(h.clone()),
            None => None,
        }
    }

    /// The error message, or nothing.
    pub fn error(&self) -> (r: Option<String>)
        ensures
            r == self.error,
    {
        match &self.error {
            Some(e) => Some(e.clone()),
            None => None,
        }
    }
}

} // verus!
