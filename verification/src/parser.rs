//! The parser configuration, the option-table lookups, and the matching and
//! validation loop at the heart of the library.

use crate::argmap::ArgMap;
use crate::argmap::map_contents;
use crate::command::Command;
use crate::command::SpecCommand;
use crate::help::render_global;
use crate::help::render_single;
use crate::help::spec_cmd_help_line;
use crate::help::spec_global_help;
use crate::outcome::ParserResult;
use crate::outcome::SpecOutcome;
use crate::strutil::has_dash_prefix;
use crate::strutil::has_long_prefix;
use crate::strutil::starts_with_dash_prefix;
use crate::strutil::starts_with_long_prefix;
use crate::strutil::str_eq;
use crate::tokenize::spec_tokenize;
use crate::tokenize::tokenize;
use vstd::prelude::*;
use vstd::string::StrSliceExecFns;
use vstd::string::StringExecFns;

verus! {

/// The mathematical content of a parser configuration.
pub ghost struct SpecParser {
    pub name: Seq<char>,
    pub doc: Seq<char>,
    pub examples: Seq<char>,
    pub commands: Seq<SpecCommand>,
}

/// A parser for command-line arguments: a program name, a description, an
/// examples text, and the registered options, applied to one input line at a
/// time by `parse`.
pub struct Parser {
    pub commands: Vec<Command>,
    pub doc_field: String,
    pub name: String,
    pub examples: String,
}

impl View for Parser {
    type V = SpecParser;

    open spec fn view(&self) -> SpecParser {
        SpecParser {
            name: self.name@,
            doc: self.doc_field@,
            examples: self.examples@,
            commands: Seq::new(self.commands@.len(), |i: int| self.commands@[i]@),
        }
    }
}

/// Whether `key` names the option `c`, by its long name or its short alias.
pub open spec fn spec_cmd_matches(c: SpecCommand, key: Seq<char>) -> bool {
    key == c.long || key == c.short
}

/// The first registered option from position `i` on that `key` names.
pub open spec fn spec_search_from(cmds: Seq<SpecCommand>, key: Seq<char>, i: int) -> Option<
    SpecCommand,
>
    decreases cmds.len() - i,
{
    if i < 0 || i >= cmds.len() {
        None
    } else if spec_cmd_matches(cmds[i], key) {
        Some(cmds[i])
    } else {
        spec_search_from(cmds, key, i + 1)
    }
}

/// The first registered option that `key` names, in registration order.
pub open spec fn spec_search(cmds: Seq<SpecCommand>, key: Seq<char>) -> Option<SpecCommand> {
    spec_search_from(cmds, key, 0)
}

/// Whether `key` names any registered option.
pub open spec fn spec_found(cmds: Seq<SpecCommand>, key: Seq<char>) -> bool {
    spec_search(cmds, key) is Some
}

/// The first position of `c` in `t` at or after `i`, or the length of `t`
/// when `c` does not occur there.
pub open spec fn spec_find_from(t: Seq<char>, c: char, i: int) -> int
    decreases t.len() - i,
{
    if i < 0 || i >= t.len() {
        t.len() as int
    } else if t[i] == c {
        i
    } else {
        spec_find_from(t, c, i + 1)
    }
}

/// `spec_find_from` yields a position between `i` and the length of `t`; the
/// character stands there if the position is inside `t`, and nowhere before.
pub proof fn lemma_find_from(t: Seq<char>, c: char, i: int)
    requires
        0 <= i <= t.len(),
    ensures
        i <= spec_find_from(t, c, i) <= t.len(),
        spec_find_from(t, c, i) < t.len() ==> t[spec_find_from(t, c, i)] == c,
        forall|j: int| i <= j < spec_find_from(t, c, i) ==> t[j] != c,
    decreases t.len() - i,
{
    if i < t.len() && t[i] != c {
        lemma_find_from(t, c, i + 1);
    }
}

/// The candidate key of a long-form token: the characters between the `--`
/// prefix and the first `=`, or all that follow the prefix when there is
/// none.
pub open spec fn spec_long_key(t: Seq<char>) -> Seq<char>
    recommends
        has_long_prefix(t),
{
    t.subrange(2, spec_find_from(t, '=', 0))
}

/// The attached value of a long-form token: the characters after the first
/// `=`, or empty when there is none.
pub open spec fn spec_long_value(t: Seq<char>) -> Seq<char> {
    if spec_find_from(t, '=', 0) < t.len() {
        t.subrange(spec_find_from(t, '=', 0) + 1, t.len() as int)
    } else {
        Seq::empty()
    }
}

/// The key a short-form token resolves to: the long name of the option whose
/// long name or short alias is the one character after the dash, or empty
/// when no option matches.
pub open spec fn spec_short_key(cmds: Seq<SpecCommand>, t: Seq<char>) -> Seq<char>
    recommends
        t.len() >= 2,
{
    match spec_search(cmds, t.subrange(1, 2)) {
        Some(c) => c.long,
        None => Seq::empty(),
    }
}

/// The attached value of a short-form token: the characters from position 3
/// on, or empty for a shorter token. This fixed offset assumes the shape
/// `-x=value`; tokens of another shape slice accordingly.
pub open spec fn spec_short_value(t: Seq<char>) -> Seq<char> {
    if t.len() > 3 {
        t.subrange(3, t.len() as int)
    } else {
        Seq::empty()
    }
}

/// The key a bare token is looked up under: the token itself, less a leading
/// `--` or `-` if one is present.
pub open spec fn spec_flag_key(t: Seq<char>) -> Seq<char> {
    if has_long_prefix(t) {
        t.subrange(2, t.len() as int)
    } else if has_dash_prefix(t) {
        t.subrange(1, t.len() as int)
    } else {
        t
    }
}

/// The error message for a token that cannot be matched or validated.
pub open spec fn spec_invalid_argument(t: Seq<char>) -> Seq<char> {
    "Invalid argument: "@ + t
}

/// The outcome of the main classification loop over the tokens `toks` from
/// position `i` on, with the entries `m` already recorded: each token is
/// classified as a help marker, a long option, a short option or a bare
/// flag, resolved against the table `cmds`, and an adjacent token is
/// consumed as the value where one is required; afterwards a recorded help
/// marker turns the whole outcome into an error.
pub open spec fn spec_main_loop(
    cmds: Seq<SpecCommand>,
    toks: Seq<Seq<char>>,
    i: int,
    m: Map<Seq<char>, Seq<char>>,
) -> SpecOutcome
    decreases toks.len() - i,
{
    if i < 0 || i >= toks.len() {
        if m.contains_key("help"@) {
            SpecOutcome::Error { message: "Invalid usage of help flag"@ }
        } else {
            SpecOutcome::Values { entries: m }
        }
    } else {
        let t = toks[i];
        if t == "-h"@ || t == "--help"@ {
            spec_main_loop(cmds, toks, i + 1, m.insert("help"@, "present"@))
        } else if has_long_prefix(t) {
            let key = spec_long_key(t);
            let value = spec_long_value(t);
            if value.len() == 0 {
                match spec_search(cmds, key) {
                    Some(c) => {
                        if c.takes_input {
                            if i + 1 >= toks.len() {
                                SpecOutcome::Error { message: spec_invalid_argument(t) }
                            } else if has_dash_prefix(toks[i + 1]) {
                                SpecOutcome::Error { message: spec_invalid_argument(t) }
                            } else {
                                spec_main_loop(cmds, toks, i + 2, m.insert(key, toks[i + 1]))
                            }
                        } else {
                            spec_main_loop(cmds, toks, i + 1, m.insert(key, "present"@))
                        }
                    },
                    None => SpecOutcome::Error { message: spec_invalid_argument(t) },
                }
            } else {
                if spec_found(cmds, key) {
                    spec_main_loop(cmds, toks, i + 1, m.insert(key, value))
                } else {
                    SpecOutcome::Error { message: spec_invalid_argument(t) }
                }
            }
        } else if has_dash_prefix(t) {
            if t.len() < 2 {
                SpecOutcome::Error { message: spec_invalid_argument(t) }
            } else {
                let key = spec_short_key(cmds, t);
                let value = spec_short_value(t);
                if value.len() == 0 {
                    match spec_search(cmds, key) {
                        Some(c) => {
                            if c.takes_input {
                                if i + 1 >= toks.len() {
                                    SpecOutcome::Error { message: spec_invalid_argument(t) }
                                } else if has_dash_prefix(toks[i + 1]) {
                                    SpecOutcome::Error { message: spec_invalid_argument(t) }
                                } else {
                                    spec_main_loop(cmds, toks, i + 2, m.insert(key, toks[i + 1]))
                                }
                            } else {
                                spec_main_loop(cmds, toks, i + 1, m.insert(key, "present"@))
                            }
                        },
                        None => SpecOutcome::Error { message: spec_invalid_argument(t) },
                    }
                } else {
                    if spec_found(cmds, key) {
                        spec_main_loop(cmds, toks, i + 1, m.insert(key, value))
                    } else {
                        SpecOutcome::Error { message: spec_invalid_argument(t) }
                    }
                }
            }
        } else {
            let key = spec_flag_key(t);
            if spec_found(cmds, key) {
                spec_main_loop(cmds, toks, i + 1, m.insert(key, "present"@))
            } else {
                SpecOutcome::Error { message: spec_invalid_argument(t) }
            }
        }
    }
}

/// The outcome of parsing the input line `input` under the configuration
/// `p`: the line is tokenized; a token `--help` or `-h` anywhere
/// short-circuits into the global help (sole token), the help of the other
/// token's option (two tokens), or an error (any other count); otherwise the
/// main classification loop runs over the tokens.
pub open spec fn spec_parse(p: SpecParser, input: Seq<char>) -> SpecOutcome {
    let toks = spec_tokenize(input);
    if toks.contains("--help"@) || toks.contains("-h"@) {
        if toks.len() == 1 {
            SpecOutcome::Help { text: spec_global_help(p) }
        } else if toks.len() == 2 {
            let other = if toks[0] == "--help"@ || toks[0] == "-h"@ {
                toks[1]
            } else {
                toks[0]
            };
            match spec_search(p.commands, other) {
                Some(c) => SpecOutcome::Help { text: spec_cmd_help_line(c) },
                None => SpecOutcome::Error { message: "Invalid flag/option: "@ + other },
            }
        } else {
            SpecOutcome::Error { message: "Invalid usage of help flag up top"@ }
        }
    } else {
        spec_main_loop(p.commands, toks, 0, Map::empty())
    }
}

/// Whether `arg` is one of the two help markers.
fn is_help_token(arg: &str) -> (r: bool)
    ensures
        r == (arg@ == "-h"@ || arg@ == "--help"@),
{
    str_eq(arg, "-h") || str_eq(arg, "--help")
}

/// Whether any token is a help marker.
fn contains_help(args: &Vec<String>) -> (r: bool)
    ensures
        r == (args.deep_view().contains("--help"@) || args.deep_view().contains("-h"@)),
{
    let ghost dv = args.deep_view();
    let mut i: usize = 0;
    while i < args.len()
        invariant
            i <= args@.len(),
            dv == args.deep_view(),
            dv.len() == args@.len(),
            forall|j: int| 0 <= j < i ==> dv[j] != "--help"@ && dv[j] != "-h"@,
        decreases args@.len() - i,
    {
        if is_help_token(args[i].as_str()) {
            proof {
                assert(dv[i as int] == args@[i as int]@);
                if dv[i as int] == "--help"@ {
                    assert(dv.contains("--help"@));
                } else {
                    assert(dv.contains("-h"@));
                }
            }
            return true;
        }
        i += 1;
    }
    proof {
        if dv.contains("--help"@) {
            let j = choose|j: int| 0 <= j < dv.len() && dv[j] == "--help"@;
            assert(false);
        }
        if dv.contains("-h"@) {
            let j = choose|j: int| 0 <= j < dv.len() && dv[j] == "-h"@;
            assert(false);
        }
    }
    false
}

/// Builds the message `Invalid argument: <token>`.
fn invalid_argument(arg: &str) -> (r: String)
    ensures
        r@ == spec_invalid_argument(arg@),
{
    let mut out = String::from_str("Invalid argument: ");
    out.append(arg);
    out
}

impl Parser {
    /// Builds a parser for the program `name` with the description
    /// `doc_field` and the examples text `examples`, with no options
    /// registered yet.
    pub fn new(name: String, doc_field: String, examples: String) -> (p: Self)
        ensures
            p@.name == name@,
            p@.doc == doc_field@,
            p@.examples == examples@,
            p@.commands == Seq::<SpecCommand>::empty(),
    {
        let p = Parser { commands: Vec::new(), doc_field, name, examples };
        proof {
            assert(p@.commands =~= Seq::<SpecCommand>::empty());
        }
        p
    }

    /// Registers the option `name`, with the short alias `short`, the
    /// documentation line `doc`, and whether it takes a value. The caller
    /// keeps long names unique; lookup returns the first match.
    pub fn add_command(&mut self, name: String, takes_input: bool, short: String, doc: String)
        ensures
            final(self)@.commands == old(self)@.commands.push(
                (SpecCommand { long: name@, short: short@, takes_input, doc: doc@ }),
            ),
            final(self)@.name == old(self)@.name,
            final(self)@.doc == old(self)@.doc,
            final(self)@.examples == old(self)@.examples,
    {
        self.commands.push(Command { long: name, short, takes_input, doc });
        proof {
            assert(self@.commands =~= old(self)@.commands.push(self@.commands.last()));
        }
    }

    /// Looks `arg` up in the option table, matching either the long name or
    /// the short alias, in registration order.
    pub fn search(&self, arg: &str) -> (r: Option<Command>)
        ensures
            match r {
                Some(c) => spec_search(self@.commands, arg@) == Some(c@),
                None => spec_search(self@.commands, arg@) is None,
            },
    {
        let mut i: usize = 0;
        while i < self.commands.len()
            invariant
                i <= self.commands@.len(),
                spec_search_from(self@.commands, arg@, i as int) == spec_search(
                    self@.commands,
                    arg@,
                ),
            decreases self.commands@.len() - i,
        {
            let c = &self.commands[i];
            if str_eq(arg, c.long.as_str()) || str_eq(arg, c.short.as_str()) {
                return Some(c.clone());
            }
            i += 1;
        }
        None
    }

    /// Whether `arg` names a registered option, by long name or short alias.
    pub fn check(&self, arg: &str) -> (r: bool)
        ensures
            r == spec_found(self@.commands, arg@),
    {
        match self.search(arg) {
            Some(_) => true,
            None => false,
        }
    }

    /// Strips the leading `--` or `-` of `arg`, if one is present, leaving
    /// the key a bare token is looked up under.
    pub fn parse_flag(arg: &str) -> (r: &str)
        ensures
            r@ == spec_flag_key(arg@),
    {
        let n = arg.unicode_len();
        if starts_with_long_prefix(arg) {
            arg.substring_char(2, n)
        } else if starts_with_dash_prefix(arg) {
            arg.substring_char(1, n)
        } else {
            arg
        }
    }

    /// Splits a long-form token at its first `=` into the candidate key and
    /// the attached value, the value empty when there is no `=`.
    pub fn parse_long_arg(arg: &str) -> (r: (&str, &str))
        requires
            has_long_prefix(arg@),
        ensures
            r.0@ == spec_long_key(arg@),
            r.1@ == spec_long_value(arg@),
    {
        let n = arg.unicode_len();
        let mut j: usize = 0;
        while j < n && arg.get_char(j) != '='
            invariant
                n == arg@.len(),
                0 <= j <= n,
                forall|k: int| 0 <= k < j ==> arg@[k] != '=',
            decreases n - j,
        {
            j += 1;
        }
        proof {
            lemma_find_from(arg@, '=', 0);
            assert(spec_find_from(arg@, '=', 0) == j as int);
            assert(j >= 2);
        }
        let key = arg.substring_char(2, j);
        let value = if j < n {
            arg.substring_char(j + 1, n)
        } else {
            arg.substring_char(n, n)
        };
        proof {
            if j >= n {
                assert(value@ =~= Seq::<char>::empty());
            }
        }
        (key, value)
    }

    /// Parses one input line against the registered options, yielding a
    /// mapping of recognised options to their values (or `present`), a
    /// rendered help text, or a descriptive error — as `spec_parse` states,
    /// for every input.
    pub fn parse(&self, input: String) -> (r: ParserResult)
        ensures
            r.wf(),
            r@ == spec_parse(self@, input@),
    {
        let args = tokenize(input.as_str());
        let ghost toks = spec_tokenize(input@);
        let ghost cmds = self@.commands;

        if contains_help(&args) {
            if args.len() == 1 {
                return ParserResult::from_help(render_global(self));
            } else if args.len() == 2 {
                let other = if is_help_token(args[0].as_str()) {
                    &args[1]
                } else {
                    &args[0]
                };
                match self.search(other.as_str()) {
                    Some(command) => {
                        return ParserResult::from_help(render_single(&command));
                    },
                    None => {
                        let mut msg = String::from_str("Invalid flag/option: ");
                        msg.append(other.as_str());
                        return ParserResult::from_error(msg);
                    },
                }
            } else {
                return ParserResult::from_error(
                    String::from_str("Invalid usage of help flag up top"),
                );
            }
        }
        let mut result = ArgMap::new();
        proof {
            assert(map_contents(result) =~= Map::<Seq<char>, Seq<char>>::empty());
        }
        let mut i: usize = 0;
        while i < args.len()
            invariant
                i <= args@.len(),
                args.deep_view() == toks,
                toks.len() == args@.len(),
                cmds == self@.commands,
                spec_parse(self@, input@) == spec_main_loop(cmds, toks, 0, Map::empty()),
                spec_main_loop(cmds, toks, i as int, map_contents(result)) == spec_main_loop(
                    cmds,
                    toks,
                    0,
                    Map::empty(),
                ),
            decreases args@.len() - i,
        {
            let ghost m0 = map_contents(result);
            let arg = &args[i];
            proof {
                assert(arg@ == toks[i as int]);
            }
            if is_help_token(arg.as_str()) {
                result.insert(String::from_str("help"), String::from_str("present"));
            } else if starts_with_long_prefix(arg.as_str()) {
                let (key, value) = Self::parse_long_arg(arg.as_str());
                if value.is_empty() {
                    match self.search(key) {
                        Some(command) => {
                            if command.takes_input {
                                if i + 1 >= args.len() {
                                    return ParserResult::from_error(invalid_argument(arg.as_str()));
                                } else {
                                    let next_arg = &args[i + 1];
                                    proof {
                                        assert(next_arg@ == toks[i as int + 1]);
                                    }
                                    if starts_with_long_prefix(next_arg.as_str())
                                        || starts_with_dash_prefix(next_arg.as_str()) {
                                        return ParserResult::from_error(
                                            invalid_argument(arg.as_str()),
                                        );
                                    }
                                    result.insert(String::from_str(key), next_arg.clone());
                                    i += 1;
                                }
                            } else {
                                result.insert(
                                    String::from_str(key),
                                    String::from_str("present"),
                                );
                            }
                        },
                        None => {
                            return ParserResult::from_error(invalid_argument(arg.as_str()));
                        },
                    }
                } else {
                    if !self.check(key) {
                        return ParserResult::from_error(invalid_argument(arg.as_str()));
                    }
                    result.insert(String::from_str(key), String::from_str(value));
                }
            } else if starts_with_dash_prefix(arg.as_str()) {
                if arg.as_str().unicode_len() < 2 {
                    return ParserResult::from_error(invalid_argument(arg.as_str()));
                }
                let (key, value) = self.parse_short_arg(arg.clone());
                if value.as_str().is_empty() {
                    match self.search(key.as_str()) {
                        Some(command) => {
                            if command.takes_input {
                                if i + 1 >= args.len() {
                                    return ParserResult::from_error(invalid_argument(arg.as_str()));
                                } else {
                                    let next_arg = &args[i + 1];
                                    proof {
                                        assert(next_arg@ == toks[i as int + 1]);
                                    }
                                    if starts_with_long_prefix(next_arg.as_str())
                                        || starts_with_dash_prefix(next_arg.as_str()) {
                                        return ParserResult::from_error(
                                            invalid_argument(arg.as_str()),
                                        );
                                    }
                                    result.insert(key, next_arg.clone());
                                    i += 1;
                                }
                            } else {
                                result.insert(key, String::from_str("present"));
                            }
                        },
                        None => {
                            return ParserResult::from_error(invalid_argument(arg.as_str()));
                        },
                    }
                } else {
                    if !self.check(key.as_str()) {
                        return ParserResult::from_error(invalid_argument(arg.as_str()));
                    }
                    result.insert(key, value);
                }
            } else {
                let flag = Self::parse_flag(arg.as_str());
                if !self.check(flag) {
                    return ParserResult::from_error(invalid_argument(arg.as_str()));
                }
                result.insert(String::from_str(flag), String::from_str("present"));
            }
            i += 1;
        }
        if result.contains_key("help") {
            return ParserResult::from_error(String::from_str("Invalid usage of help flag"));
        }
        ParserResult::from_map(result)
    }

    /// Resolves a short-form token: the one character after the dash is
    /// looked up, and the resolved long name (or an empty key when no option
    /// matches) is paired with the value sliced from position 3 on.
    pub fn parse_short_arg(&self, arg: String) -> (r: (String, String))
        requires
            arg@.len() >= 2,
        ensures
            r.0@ == spec_short_key(self@.commands, arg@),
            r.1@ == spec_short_value(arg@),
    {
        let ch = arg.as_str().substring_char(1, 2);
        let key = match self.search(ch) {
            Some(c) => c.long,
            None => String::new(),
        };
        let n = arg.as_str().unicode_len();
        let value = if n > 3 {
            String::from_str(arg.as_str().substring_char(3, n))
        } else {
            String::new()
        };
        proof {
            if n <= 3 {
                assert(value@ =~= spec_short_value(arg@));
            }
        }
        (key, value)
    }
}

} // verus!
