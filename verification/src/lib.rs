//! A command-line argument parsing library: a configuration of registered
//! options (long name, optional short alias, whether a value is taken, and a
//! documentation line) is applied to one raw input line, yielding either a
//! mapping from option names to values, a rendered help text, or a
//! descriptive error.

mod argmap;
mod command;
mod help;
mod laws;
mod outcome;
mod parser;
mod strutil;
mod tokenize;

pub use argmap::ArgMap;
pub use argmap::map_contents;
pub use command::Command;
pub use command::SpecCommand;
pub use help::render_global;
pub use help::render_single;
pub use help::spec_cmd_help_line;
pub use help::spec_cmd_lines;
pub use help::spec_example_lines;
pub use help::spec_global_help;
pub use help::spec_kind_text;
pub use laws::lemma_parse_deterministic;
pub use laws::lemma_values_keys_registered;
pub use laws::spec_key_registered;
pub use outcome::ParserResult;
pub use outcome::SpecOutcome;
pub use parser::spec_invalid_argument;
pub use parser::spec_main_loop;
pub use parser::spec_parse;
pub use parser::Parser;
pub use parser::SpecParser;
pub use parser::spec_cmd_matches;
pub use parser::spec_find_from;
pub use parser::spec_flag_key;
pub use parser::spec_found;
pub use parser::spec_long_key;
pub use parser::spec_long_value;
pub use parser::spec_search;
pub use parser::spec_search_from;
pub use parser::spec_short_key;
pub use parser::spec_short_value;
pub use strutil::has_dash_prefix;
pub use strutil::has_long_prefix;
pub use strutil::str_eq;
pub use tokenize::spec_lines;
pub use tokenize::spec_tokenize;
pub use tokenize::split_lines;
pub use tokenize::tokenize;
