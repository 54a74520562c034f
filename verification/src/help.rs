//! Rendering of help text: one summary line per option, and the global form
//! with usage, description, every option's line, and the examples.

use crate::command::Command;
use crate::command::SpecCommand;
use crate::parser::Parser;
use crate::parser::SpecParser;
use crate::tokenize::spec_lines;
use crate::tokenize::split_lines;
use vstd::prelude::*;
use vstd::string::StringExecFns;

verus! {

/// The parenthesised kind of an option: whether it takes input or stands
/// alone as a flag.
pub open spec fn spec_kind_text(takes_input: bool) -> Seq<char> {
    if takes_input {
        "takes input"@
    } else {
        "flag"@
    }
}

/// The summary line of one option: its short alias, long name, documentation
/// and kind.
pub open spec fn spec_cmd_help_line(c: SpecCommand) -> Seq<char> {
    "-"@ + c.short + " --"@ + c.long + ": "@ + c.doc + " ("@ + spec_kind_text(c.takes_input)
        + ")\n"@
}

/// The first `n` option summary lines of the global help, each opened by a
/// blank line and two spaces of indentation.
pub open spec fn spec_cmd_lines(cmds: Seq<SpecCommand>, n: int) -> Seq<char>
    decreases n,
{
    if n <= 0 {
        Seq::empty()
    } else {
        spec_cmd_lines(cmds, n - 1) + "\n  "@ + spec_cmd_help_line(cmds[n - 1])
    }
}

/// The first `n` example lines of the global help, each indented by four
/// spaces.
pub open spec fn spec_example_lines(lines: Seq<Seq<char>>, n: int) -> Seq<char>
    decreases n,
{
    if n <= 0 {
        Seq::empty()
    } else {
        spec_example_lines(lines, n - 1) + "    "@ + lines[n - 1] + "\n"@
    }
}

/// The global help text: usage and description, every registered option's
/// summary line in registration order, and the examples, one per line.
pub open spec fn spec_global_help(p: SpecParser) -> Seq<char> {
    "Usage: "@ + p.name + " [OPTIONS] ...\n\n"@ + p.doc + "\n"@ + spec_cmd_lines(
        p.commands,
        p.commands.len() as int,
    ) + "Examples:\n"@ + spec_example_lines(
        spec_lines(p.examples),
        spec_lines(p.examples).len() as int,
    ) + "\n"@
}

/// Renders the summary line of one option.
pub fn render_single(command: &Command) -> (r: String)
    ensures
        r@ == spec_cmd_help_line(command@),
{
    let mut out = String::new();
    out.append("-");
    out.append(command.short.as_str());
    out.append(" --");
    out.append(command.long.as_str());
    out.append(": ");
    out.append(command.doc.as_str());
    out.append(" (");
    if command.takes_input {
        out.append("takes input");
    } else {
        out.append("flag");
    }
    out.append(")\n");
    proof {
        assert(out@ =~= spec_cmd_help_line(command@));
    }
    out
}

/// Renders the global help text of a configuration.
pub fn render_global(parser: &Parser) -> (r: String)
    ensures
        r@ == spec_global_help(parser@),
{
    let ghost p = parser@;
    let mut out = String::from_str("Usage: ");
    out.append(parser.name.as_str());
    out.append(" [OPTIONS] ...\n\n");
    out.append(parser.doc_field.as_str());
    out.append("\n");
    let ghost head = "Usage: "@ + p.name + " [OPTIONS] ...\n\n"@ + p.doc + "\n"@;
    proof {
        assert(out@ =~= head);
    }
    let mut i: usize = 0;
    while i < parser.commands.len()
        invariant
            i <= parser.commands@.len(),
            p == parser@,
            head == "Usage: "@ + p.name + " [OPTIONS] ...\n\n"@ + p.doc + "\n"@,
            out@ == head + spec_cmd_lines(p.commands, i as int),
        decreases parser.commands@.len() - i,
    {
        let line = render_single(&parser.commands[i]);
        out.append("\n  ");
        out.append(line.as_str());
        proof {
            assert(out@ =~= head + spec_cmd_lines(p.commands, i as int + 1));
        }
        i += 1;
    }
    out.append("Examples:\n");
    let ghost mid = head + spec_cmd_lines(p.commands, p.commands.len() as int) + "Examples:\n"@;
    proof {
        assert(out@ =~= mid);
    }
    let lines = split_lines(parser.examples.as_str());
    let mut j: usize = 0;
    while j < lines.len()
        invariant
            j <= lines@.len(),
            p == parser@,
            lines.deep_view() == spec_lines(p.examples),
            mid == head + spec_cmd_lines(p.commands, p.commands.len() as int) + "Examples:\n"@,
            head == "Usage: "@ + p.name + " [OPTIONS] ...\n\n"@ + p.doc + "\n"@,
            out@ == mid + spec_example_lines(spec_lines(p.examples), j as int),
        decreases lines@.len() - j,
    {
        out.append("    ");
        out.append(lines[j].as_str());
        out.append("\n");
        proof {
            assert(lines.deep_view()[j as int] == lines@[j as int]@);
            assert(out@ =~= mid + spec_example_lines(spec_lines(p.examples), j as int + 1));
        }
        j += 1;
    }
    out.append("\n");
    proof {
        assert(out@ =~= spec_global_help(p));
    }
    out
}

} // verus!
