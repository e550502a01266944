//! The layout of source text: every line trimmed and indented by the depth of
//! the blocks around it.

use vstd::prelude::*;
use vstd::string::*;
use crate::text::{chars_of, push_str, string_of, texts_of, trim_text, trimmed_of};
use crate::visitor::{deeper, indentation};

verus! {

/// Whether a trimmed line opens a block: it ends with a space and a bar.
pub open spec fn opens_block(line: Seq<char>) -> bool {
    line.len() >= 2 && line[line.len() - 2] == ' ' && line[line.len() - 1] == '|'
}

/// Whether a trimmed line closes a block: it is a caret and nothing else.
pub open spec fn closes_block(line: Seq<char>) -> bool {
    line.len() == 1 && line[0] == '^'
}

/// The depth at which a trimmed line is laid out when the lines before it
/// left the depth `indent`: a closing line stands one level higher.
pub open spec fn depth_of(line: Seq<char>, indent: usize) -> usize {
    if closes_block(line) && indent > 0 {
        (indent - 1) as usize
    } else {
        indent
    }
}

/// The layout of the lines from `from` on, at the depth `indent`. An empty
/// line stays empty; every other line is trimmed and indented by two spaces
/// for each block that is open around it.
pub open spec fn layout(lines: Seq<Seq<char>>, from: int, indent: usize) -> Seq<char>
    decreases lines.len() - from,
{
    if from < 0 || from >= lines.len() {
        Seq::empty()
    } else {
        let line = trimmed_of(lines[from]);
        if line.len() == 0 {
            "\n"@ + layout(lines, from + 1, indent)
        } else {
            let depth = depth_of(line, indent);
            indentation(depth as nat) + line + "\n"@ + layout(
                lines,
                from + 1,
                if opens_block(line) {
                    deeper(depth)
                } else {
                    depth
                },
            )
        }
    }
}

/// Lays out the lines of a source text.
pub fn format_document(lines: &Vec<String>) -> (formatted: String)
    ensures
        formatted@ == layout(texts_of(lines@), 0, 0),
{
    let mut out: Vec<char> = Vec::new();
    let mut indent: usize = 0;
    let mut i: usize = 0;
    assert(out@ + layout(texts_of(lines@), 0, 0) =~= layout(texts_of(lines@), 0, 0));
    while i < lines.len()
        invariant
            i <= lines.len(),
            layout(texts_of(lines@), 0, 0) == out@ + layout(texts_of(lines@), i as int, indent),
        decreases lines.len() - i,
    {
        let ghost before = out@;
        let ghost rest = layout(texts_of(lines@), i as int, indent);
        assert(texts_of(lines@)[i as int] == lines[i as int]@);
        let line = trim_text(lines[i].as_str());
        let chars = chars_of(line.as_str());
        let n = chars.len();
        if n == 0 {
            push_str("\n", &mut out);
            assert(out@ + layout(texts_of(lines@), i + 1, indent) =~= before + rest);
        } else {
            if n == 1 && chars[0] == '^' && indent > 0 {
                indent -= 1;
            }
            let ghost depth = indent;
            let mut level: usize = 0;
            while level < indent
                invariant
                    level <= indent,
                    out@ == before + indentation(level as nat),
                decreases indent - level,
            {
                push_str("  ", &mut out);
                assert(out@ =~= before + (indentation(level as nat) + "  "@));
                level += 1;
            }
            push_str(line.as_str(), &mut out);
            push_str("\n", &mut out);
            if n >= 2 && chars[n - 2] == ' ' && chars[n - 1] == '|' && indent < usize::MAX {
                indent += 1;
            }
            assert(out@ + layout(texts_of(lines@), i + 1, indent) =~= before + rest);
        }
        i += 1;
    }
    assert(out@ + Seq::<char>::empty() =~= out@);
    string_of(&out)
}

} // verus!
