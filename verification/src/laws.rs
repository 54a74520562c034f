//! General properties of the parser, stated and proved once for all inputs.

use crate::command::SpecCommand;
use crate::outcome::SpecOutcome;
use crate::parser::SpecParser;
use crate::parser::spec_cmd_matches;
use crate::parser::spec_flag_key;
use crate::parser::spec_found;
use crate::parser::spec_long_key;
use crate::parser::spec_long_value;
use crate::parser::spec_main_loop;
use crate::parser::spec_parse;
use crate::parser::spec_search;
use crate::parser::spec_search_from;
use crate::parser::spec_short_key;
use crate::parser::spec_short_value;
use crate::strutil::has_dash_prefix;
use crate::strutil::has_long_prefix;
use crate::tokenize::spec_tokenize;
use vstd::prelude::*;

verus! {

/// Whether `key` is the long name or the short alias of some registered
/// option.
pub open spec fn spec_key_registered(cmds: Seq<SpecCommand>, key: Seq<char>) -> bool {
    exists|j: int| 0 <= j < cmds.len() && spec_cmd_matches(cmds[j], key)
}

/// A successful table lookup yields a key that names a registered option.
proof fn lemma_search_registered(cmds: Seq<SpecCommand>, key: Seq<char>, i: int)
    requires
        0 <= i <= cmds.len(),
        spec_search_from(cmds, key, i) is Some,
    ensures
        spec_key_registered(cmds, key),
    decreases cmds.len() - i,
{
    if i < cmds.len() {
        if spec_cmd_matches(cmds[i], key) {
            assert(spec_key_registered(cmds, key));
        } else {
            lemma_search_registered(cmds, key, i + 1);
        }
    }
}

/// Every key the main classification loop records beyond those already in
/// `m` names a registered option or is the transient `help` marker, and a
/// recorded `help` marker never survives into a `Values` outcome.
proof fn lemma_main_loop_keys(
    cmds: Seq<SpecCommand>,
    toks: Seq<Seq<char>>,
    i: int,
    m: Map<Seq<char>, Seq<char>>,
)
    requires
        forall|k: Seq<char>| m.contains_key(k) ==> spec_key_registered(cmds, k) || k == "help"@,
    ensures
        spec_main_loop(cmds, toks, i, m) matches SpecOutcome::Values { entries } ==> ({
            &&& forall|k: Seq<char>|
                entries.contains_key(k) ==> spec_key_registered(cmds, k)
            &&& !entries.contains_key("help"@)
        }),
    decreases toks.len() - i,
{
    if 0 <= i < toks.len() {
        let t = toks[i];
        if t == "-h"@ || t == "--help"@ {
            lemma_main_loop_keys(cmds, toks, i + 1, m.insert("help"@, "present"@));
        } else if has_long_prefix(t) {
            let key = spec_long_key(t);
            let value = spec_long_value(t);
            if value.len() == 0 {
                match spec_search(cmds, key) {
                    Some(c) => {
                        lemma_search_registered(cmds, key, 0);
                        if c.takes_input {
                            if i + 1 < toks.len() && !has_dash_prefix(toks[i + 1]) {
                                lemma_main_loop_keys(cmds, toks, i + 2, m.insert(key, toks[i + 1]));
                            }
                        } else {
                            lemma_main_loop_keys(cmds, toks, i + 1, m.insert(key, "present"@));
                        }
                    },
                    None => {},
                }
            } else {
                if spec_found(cmds, key) {
                    lemma_search_registered(cmds, key, 0);
                    lemma_main_loop_keys(cmds, toks, i + 1, m.insert(key, value));
                }
            }
        } else if has_dash_prefix(t) {
            if t.len() >= 2 {
                let key = spec_short_key(cmds, t);
                let value = spec_short_value(t);
                if value.len() == 0 {
                    match spec_search(cmds, key) {
                        Some(c) => {
                            lemma_search_registered(cmds, key, 0);
                            if c.takes_input {
                                if i + 1 < toks.len() && !has_dash_prefix(toks[i + 1]) {
                                    lemma_main_loop_keys(
                                        cmds,
                                        toks,
                                        i + 2,
                                        m.insert(key, toks[i + 1]),
                                    );
                                }
                            } else {
                                lemma_main_loop_keys(cmds, toks, i + 1, m.insert(key, "present"@));
                            }
                        },
                        None => {},
                    }
                } else {
                    if spec_found(cmds, key) {
                        lemma_search_registered(cmds, key, 0);
                        lemma_main_loop_keys(cmds, toks, i + 1, m.insert(key, value));
                    }
                }
            }
        } else {
            let key = spec_flag_key(t);
            if spec_found(cmds, key) {
                lemma_search_registered(cmds, key, 0);
                lemma_main_loop_keys(cmds, toks, i + 1, m.insert(key, "present"@));
            }
        }
    }
}

/// Every key of a `Values` outcome names a registered option — by its long
/// name or by its short alias — and the transient `help` marker never
/// appears there: a help token is always intercepted into a help render or
/// an error before a mapping is returned.
pub proof fn lemma_values_keys_registered(p: SpecParser, input: Seq<char>)
    ensures
        spec_parse(p, input) matches SpecOutcome::Values { entries } ==> ({
            &&& forall|k: Seq<char>|
                entries.contains_key(k) ==> spec_key_registered(p.commands, k)
            &&& !entries.contains_key("help"@)
        }),
{
    lemma_main_loop_keys(p.commands, spec_tokenize(input), 0, Map::empty());
}

/// Parsing has no hidden state: the outcome is a function of the
/// configuration and the input line alone, so two parses of the same line
/// under an unchanged configuration yield the same outcome.
pub proof fn lemma_parse_deterministic(
    p: SpecParser,
    input: Seq<char>,
    r1: SpecOutcome,
    r2: SpecOutcome,
)
    requires
        r1 == spec_parse(p, input),
        r2 == spec_parse(p, input),
    ensures
        r1 == r2,
{
}

} // verus!
