//! The shell directive bridge.
//!
//! A child process cannot change its parent shell's working directory, so
//! the tool encodes the request as one line of standard output with a
//! fixed, greppable marker; an enclosing shell function scans for the
//! marker and performs the `cd` itself. When the tool is not running
//! under that wrapper, it must print a human-readable instruction instead
//! and report non-success, and never leak a raw directive line.

use vstd::prelude::*;
use crate::text::matches_at_spec;

verus! {

/// The fixed marker that opens a change-directory directive line.
pub open spec fn cd_marker() -> Seq<char> {
    "__WORKTRUNK_CD__"@
}

/// Hand out the marker to executable code.
pub fn cd_marker_str() -> (s: &'static str)
    ensures
        s@ == cd_marker(),
{
    "__WORKTRUNK_CD__"
}

/// A line of output is a change-directory directive when it begins with
/// the fixed marker.
pub open spec fn is_directive_line(line: Seq<char>) -> bool {
    matches_at_spec(line, 0, cd_marker())
}

/// How many of the given output lines are directive lines.
pub open spec fn directive_line_count(lines: Seq<Seq<char>>) -> nat
    decreases lines.len(),
{
    if lines.len() == 0 {
        0
    } else {
        directive_line_count(lines.drop_last()) + if is_directive_line(lines.last()) {
            1nat
        } else {
            0nat
        }
    }
}

/// Encode a change-directory request as a single directive line:
/// the marker followed immediately by the path.
pub fn format_cd_directive(path: &str) -> (line: String)
    ensures
        line@ == cd_marker() + path@,
        is_directive_line(line@),
{
    let mut line = cd_marker_str().to_owned();
    line.append(path);
    proof {
        reveal_strlit("__WORKTRUNK_CD__");
        assert((cd_marker() + path@).subrange(0, cd_marker().len() as int) =~= cd_marker());
    }
    line
}

/// What a change-directory action writes to standard output, and whether
/// it counts as a success.
pub struct DirectiveResponse {
    /// The lines to print, in order.
    pub lines: Vec<String>,
    /// Whether the invocation succeeds; a refused directive reports
    /// non-success so the caller exits non-zero.
    pub ok: bool,
}

/// Produce the output for a request to move the calling shell to `path`.
///
/// In internal mode (invoked from the shell wrapper) the output is exactly
/// one directive line. Outside internal mode no directive line is emitted
/// at all: the user gets a plain instruction and the action reports
/// non-success.
pub fn emit_change_directory(internal: bool, path: &str) -> (r: DirectiveResponse)
    ensures
        r.ok == internal,
        internal ==> r.lines@.len() == 1 && r.lines@[0]@ == cd_marker() + path@,
        !internal ==> r.lines@.len() == 1 && r.lines@[0]@ == "To change directory, run: cd "@
            + path@,
        directive_line_count(r.lines.deep_view()) == if internal {
            1nat
        } else {
            0nat
        },
{
    if internal {
        let line = format_cd_directive(path);
        let ghost line_view = line@;
        let mut lines: Vec<String> = Vec::new();
        lines.push(line);
        proof {
            assert(lines.deep_view() =~= seq![line_view]);
            assert(lines.deep_view().drop_last() =~= Seq::<Seq<char>>::empty());
            assert(directive_line_count(Seq::<Seq<char>>::empty()) == 0);
            assert(lines.deep_view().last() == line_view);
        }
        DirectiveResponse { lines, ok: true }
    } else {
        let mut line = "To change directory, run: cd ".to_owned();
        line.append(path);
        let ghost line_view = line@;
        proof {
            reveal_strlit("__WORKTRUNK_CD__");
            reveal_strlit("To change directory, run: cd ");
            if is_directive_line(line_view) {
                assert(line_view.subrange(0, cd_marker().len() as int)[0] == cd_marker()[0]);
            }
        }
        let mut lines: Vec<String> = Vec::new();
        lines.push(line);
        proof {
            assert(lines.deep_view() =~= seq![line_view]);
            assert(lines.deep_view().drop_last() =~= Seq::<Seq<char>>::empty());
            assert(directive_line_count(Seq::<Seq<char>>::empty()) == 0);
            assert(lines.deep_view().last() == line_view);
        }
        DirectiveResponse { lines, ok: false }
    }
}

} // verus!
