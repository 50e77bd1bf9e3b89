//! History summarization: the commit subjects introduced since the last
//! release marker, newest first, with graph decoration stripped.

use vstd::prelude::*;
use vstd::string::StringExecFns;
use crate::commands::{args_of, is_exec_cmd, PlannedCommand};
use crate::errors::{CustomError, CustomResult};
use crate::strutil::{
    chars_of, replace_all_s, replacen_vec, split_on, split_vec, starts_with_seq, starts_with_vec,
    string_of, trim_s, trim_vec,
};

verus! {

/// One raw log line made presentable: surrounding white space trimmed and
/// every `* ` graph marker removed.
pub open spec fn clean_line(line: Seq<char>) -> Seq<char> {
    replace_all_s(trim_s(line), seq!['*', ' '], Seq::empty())
}

/// A cleaned line left by a prior automated release: a `release/` tag line
/// or an `@<version> release` commit subject.
pub open spec fn is_marker(line: Seq<char>) -> bool {
    starts_with_seq(line, "release/"@) || starts_with_seq(line, "@"@)
}

/// The summary of the given lines: each cleaned line followed by a
/// newline, stopping at (and excluding) the first release marker.
pub open spec fn summary_lines(lines: Seq<Seq<char>>) -> Seq<char>
    decreases lines.len(),
{
    if lines.len() == 0 {
        Seq::empty()
    } else {
        let c = clean_line(lines[0]);
        if is_marker(c) {
            Seq::empty()
        } else {
            c + seq!['\n'] + summary_lines(lines.skip(1))
        }
    }
}

/// The history summary of a raw log text: its lines summarized as
/// [`summary_lines`] describes.
pub open spec fn history_summary(raw: Seq<char>) -> Seq<char> {
    summary_lines(split_on(raw, '\n'))
}

/// Summarizes the commit history of one repository.
pub struct HistoryProvider {
    /// The repository working directory.
    pub path: String,
}

impl HistoryProvider {
    /// Summarizes raw `git log` output, exactly as [`history_summary`]
    /// describes.
    pub fn provide(&self, raw_history: String) -> (r: CustomResult<String>)
        ensures
            r matches Ok(v) && v@ == history_summary(raw_history@),
    {
        self.generate_git_history_string(raw_history)
    }

    /// The call that fetches the most recent hundred commit subjects,
    /// graph-decorated, newest first, from the repository.
    pub fn history_command(&self) -> (c: PlannedCommand)
        ensures
            is_exec_cmd(
                c,
                "git"@,
                seq![
                    "log"@,
                    "--pretty=format:%s"@,
                    "--graph"@,
                    "--abbrev-commit"@,
                    "--decorate"@,
                    "--date=relative"@,
                    "-100"@,
                ],
                Some(self.path@),
                "Failed to provide history for repo"@,
            ),
    {
        let mut parts: Vec<&str> = Vec::new();
        parts.push("log");
        parts.push("--pretty=format:%s");
        parts.push("--graph");
        parts.push("--abbrev-commit");
        parts.push("--decorate");
        parts.push("--date=relative");
        parts.push("-100");
        let c = PlannedCommand {
            program: String::from_str("git"),
            args: args_of(&parts),
            dir: Some(self.path.clone()),
            on_failure: CustomError::CommandExecution(
                String::from_str("Failed to provide history for repo"),
            ),
            recover_on_new_tag: false,
        };
        proof {
            assert(c.args.deep_view() =~~= seq![
                "log"@,
                "--pretty=format:%s"@,
                "--graph"@,
                "--abbrev-commit"@,
                "--decorate"@,
                "--date=relative"@,
                "-100"@,
            ]);
        }
        c
    }

    /// Walks the log lines newest first, cleaning each, and stops the
    /// moment a prior release marker appears, exactly as
    /// [`history_summary`] describes.
    pub fn generate_git_history_string(&self, history: String) -> (r: CustomResult<String>)
        ensures
            r matches Ok(v) && v@ == history_summary(history@),
    {
        let raw = chars_of(history.as_str());
        let lines = split_vec(&raw, '\n');
        let star = chars_of("* ");
        let release_pat = chars_of("release/");
        let at_pat = chars_of("@");
        proof {
            reveal_strlit("* ");
            assert(star@ =~= seq!['*', ' ']);
        }
        let mut out: Vec<char> = Vec::new();
        let mut i: usize = 0;
        proof {
            assert(lines.deep_view().skip(0) =~= lines.deep_view());
        }
        while i < lines.len()
            invariant
                i <= lines.len(),
                star@ == seq!['*', ' '],
                release_pat@ == "release/"@,
                at_pat@ == "@"@,
                lines.deep_view().len() == lines@.len(),
                history_summary(history@) == out@ + summary_lines(lines.deep_view().skip(i as int)),
            ensures
                out@ == history_summary(history@),
            decreases lines.len() - i,
        {
            proof {
                assert(lines.deep_view()[i as int] == lines@[i as int]@);
                assert(lines.deep_view().skip(i as int)[0] == lines.deep_view()[i as int]);
                assert(lines.deep_view().skip(i as int).skip(1) =~= lines.deep_view().skip(i + 1));
            }
            let trimmed = trim_vec(&lines[i]);
            let empty: Vec<char> = Vec::new();
            let cleaned = replacen_vec(&trimmed, &star, &empty, trimmed.len());
            if starts_with_vec(&cleaned, &release_pat) || starts_with_vec(&cleaned, &at_pat) {
                proof {
                    assert(summary_lines(lines.deep_view().skip(i as int)) =~= Seq::<char>::empty());
                    assert(out@ + Seq::<char>::empty() =~= out@);
                }
                return Ok(string_of(&out));
            }
            let ghost prev = out@;
            crate::strutil::append_chars(&mut out, &cleaned);
            out.push('\n');
            proof {
                let c = clean_line(lines.deep_view()[i as int]);
                assert(out@ =~= prev + c + seq!['\n']);
                assert(summary_lines(lines.deep_view().skip(i as int)) == c + seq!['\n']
                    + summary_lines(lines.deep_view().skip(i + 1)));
                assert(prev + (c + seq!['\n'] + summary_lines(lines.deep_view().skip(i + 1))) =~= out@
                    + summary_lines(lines.deep_view().skip(i + 1)));
            }
            i += 1;
        }
        proof {
            assert(lines.deep_view().skip(lines@.len() as int) =~= Seq::<Seq<char>>::empty());
            assert(out@ + Seq::<char>::empty() =~= out@);
        }
        Ok(string_of(&out))
    }
}

} // verus!
