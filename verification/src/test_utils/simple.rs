//! The output of a command, and what can be read out of it.

use vstd::prelude::*;
use crate::text::{
    concat, contains, is_substring, lines, spec_lines, spec_split_once, split_once, text_views,
    trim, trimmed,
};

verus! {

/// What a run of the command line left behind.
#[derive(Debug)]
pub struct CommandOutput {
    pub stdout: String,
    pub stderr: String,
    pub success: bool,
    pub exit_code: Option<i32>,
}

/// Why the output is not what a test expects.
#[derive(Clone, Copy, Debug, PartialEq, Eq, Structural)]
pub enum OutputError {
    /// The command failed where it should have succeeded.
    Failed,
    /// The command succeeded where it should have failed.
    UnexpectedSuccess,
    /// No line of the output names an ID52.
    NoId52,
    /// No line of the output names a cluster.
    NoClusterId,
    /// The text does not occur in the output.
    TextMissing,
}

/// The path of the binary in a target directory.
pub fn get_malai_binary(target_dir: &str) -> (path: String)
    ensures
        path@ == target_dir@ + "/malai"@,
{
    concat(target_dir, "/malai")
}

/// The target directory to use: the workspace's where it holds the binary,
/// else the parent's where there is one and it holds the binary, else the
/// workspace's, where a build will put it.
pub fn detect_target_dir(
    workspace_target: String,
    workspace_has_binary: bool,
    parent_target: Option<String>,
    parent_has_binary: bool,
) -> (target: String)
    ensures
        target == (if workspace_has_binary {
            workspace_target
        } else {
            match parent_target {
                Some(parent) => if parent_has_binary {
                    parent
                } else {
                    workspace_target
                },
                None => workspace_target,
            }
        }),
{
    if workspace_has_binary {
        return workspace_target;
    }
    match parent_target {
        Some(parent) => {
            if parent_has_binary {
                parent
            } else {
                workspace_target
            }
        },
        None => workspace_target,
    }
}

/// The second of the fields that colons part a line into; the line must
/// hold a colon.
pub open spec fn second_field(line: Seq<char>) -> Seq<char> {
    match spec_split_once(line, ':') {
        Some((_, rest)) => match spec_split_once(rest, ':') {
            Some((field, _)) => field,
            None => rest,
        },
        None => Seq::empty(),
    }
}

/// The ID52 that the first line names which holds both `ID52` and a colon:
/// what stands after the first colon, up to the next, without the white
/// space around it.
pub open spec fn id52_in(lines: Seq<Seq<char>>) -> Option<Seq<char>>
    decreases lines.len(),
{
    if lines.len() == 0 {
        None
    } else if is_substring("ID52"@, lines[0]) && is_substring(":"@, lines[0]) {
        Some(trimmed(second_field(lines[0])))
    } else {
        id52_in(lines.drop_first())
    }
}

/// The cluster that the first line names which holds `Cluster created with
/// ID:`.
pub open spec fn cluster_id_in(lines: Seq<Seq<char>>) -> Option<Seq<char>>
    decreases lines.len(),
{
    if lines.len() == 0 {
        None
    } else if is_substring("Cluster created with ID:"@, lines[0]) {
        Some(trimmed(second_field(lines[0])))
    } else {
        cluster_id_in(lines.drop_first())
    }
}

/// A colon occurs in a line exactly where the line can be split at one.
proof fn lemma_colon_splits(line: Seq<char>)
    ensures
        is_substring(":"@, line) <==> spec_split_once(line, ':').is_some(),
    decreases line.len(),
{
    reveal_strlit(":");
    let colon = ":"@;
    assert(colon =~= seq![':']);
    lemma_position(line, ':');
    let at = crate::text::position(line, ':');
    if at < line.len() {
        assert(line.subrange(at, at + 1) =~= colon);
    } else {
        if is_substring(colon, line) {
            let i = choose|i: int|
                0 <= i && i + colon.len() <= line.len() && #[trigger] line.subrange(
                    i,
                    i + colon.len(),
                ) == colon;
            assert(line.subrange(i, i + 1)[0] == line[i]);
        }
    }
}

/// Where a character first stands, no earlier place holds it.
pub proof fn lemma_position(text: Seq<char>, c: char)
    ensures
        0 <= crate::text::position(text, c) <= text.len(),
        crate::text::position(text, c) < text.len() ==> text[crate::text::position(text, c)] == c,
        forall|j: int| 0 <= j < crate::text::position(text, c) ==> text[j] != c,
    decreases text.len(),
{
    if text.len() > 0 && text[0] != c {
        lemma_position(text.drop_first(), c);
        let rest = crate::text::position(text.drop_first(), c);
        assert forall|j: int| 0 <= j < 1 + rest implies text[j] != c by {
            if j > 0 {
                assert(text.drop_first()[j - 1] == text[j]);
            }
        }
        if rest < text.drop_first().len() {
            assert(text.drop_first()[rest] == text[rest + 1]);
        }
    }
}

fn second_field_of(line: &str) -> (field: String)
    requires
        is_substring(":"@, line@),
    ensures
        field@ == trimmed(second_field(line@)),
{
    proof {
        lemma_colon_splits(line@);
    }
    match split_once(line, ':') {
        Some((_, rest)) => match split_once(rest, ':') {
            Some((field, _)) => trim(field).to_owned(),
            None => trim(rest).to_owned(),
        },
        None => String::new(),
    }
}

fn find_id52(found: &Vec<String>) -> (id52: Option<String>)
    ensures
        match id52 {
            Some(text) => id52_in(text_views(found@)) == Some(text@),
            None => id52_in(text_views(found@)).is_none(),
        },
{
    let ghost all = text_views(found@);
    let mut i: usize = 0;
    assert(all.skip(0) =~= all);
    while i < found.len()
        invariant
            i <= found.len(),
            all == text_views(found@),
            id52_in(all) == id52_in(all.skip(i as int)),
        decreases found.len() - i,
    {
        proof {
            assert(all.skip(i as int)[0] == found@[i as int]@);
            assert(all.skip(i as int).drop_first() =~= all.skip(i + 1));
        }
        let line = found[i].as_str();
        if contains(line, "ID52") && contains(line, ":") {
            return Some(second_field_of(line));
        }
        i += 1;
    }
    assert(all.skip(found@.len() as int) =~= Seq::empty());
    None
}

fn find_cluster_id(found: &Vec<String>) -> (id: Option<String>)
    ensures
        match id {
            Some(text) => cluster_id_in(text_views(found@)) == Some(text@),
            None => cluster_id_in(text_views(found@)).is_none(),
        },
{
    let ghost all = text_views(found@);
    let mut i: usize = 0;
    assert(all.skip(0) =~= all);
    while i < found.len()
        invariant
            i <= found.len(),
            all == text_views(found@),
            cluster_id_in(all) == cluster_id_in(all.skip(i as int)),
        decreases found.len() - i,
    {
        proof {
            assert(all.skip(i as int)[0] == found@[i as int]@);
            assert(all.skip(i as int).drop_first() =~= all.skip(i + 1));
        }
        let line = found[i].as_str();
        if contains(line, "Cluster created with ID:") {
            proof {
                lemma_holds_colon(line@);
            }
            return Some(second_field_of(line));
        }
        i += 1;
    }
    assert(all.skip(found@.len() as int) =~= Seq::empty());
    None
}

/// A line that announces a cluster holds a colon.
proof fn lemma_holds_colon(line: Seq<char>)
    requires
        is_substring("Cluster created with ID:"@, line),
    ensures
        is_substring(":"@, line),
{
    reveal_strlit("Cluster created with ID:");
    reveal_strlit(":");
    let phrase = "Cluster created with ID:"@;
    let i = choose|i: int|
        0 <= i && i + phrase.len() <= line.len() && #[trigger] line.subrange(i, i + phrase.len())
            == phrase;
    let at = i + phrase.len() - 1;
    assert(line.subrange(i, i + phrase.len())[phrase.len() - 1] == ':');
    assert(line.subrange(at, at + 1) =~= ":"@);
}

impl CommandOutput {
    /// What a finished process left behind, its output already read as
    /// text.
    pub fn from_output(stdout: String, stderr: String, exit_code: Option<i32>) -> (output: Self)
        ensures
            output.stdout == stdout,
            output.stderr == stderr,
            output.exit_code == exit_code,
            output.success == (exit_code == Some(0i32)),
    {
        let success = match exit_code {
            Some(code) => code == 0,
            None => false,
        };
        CommandOutput { stdout, stderr, success, exit_code }
    }

    /// The output, where the command succeeded.
    pub fn expect_success(self) -> (checked: Result<Self, OutputError>)
        ensures
            match checked {
                Ok(same) => self.success && same == self,
                Err(error) => !self.success && error == OutputError::Failed,
            },
    {
        if self.success {
            Ok(self)
        } else {
            Err(OutputError::Failed)
        }
    }

    /// The output, where the command failed.
    pub fn expect_failure(self) -> (checked: Result<Self, OutputError>)
        ensures
            match checked {
                Ok(same) => !self.success && same == self,
                Err(error) => self.success && error == OutputError::UnexpectedSuccess,
            },
    {
        if !self.success {
            Ok(self)
        } else {
            Err(OutputError::UnexpectedSuccess)
        }
    }

    pub open spec fn spec_id52(&self) -> Option<Seq<char>> {
        match id52_in(spec_lines(self.stderr@)) {
            Some(id52) => Some(id52),
            None => id52_in(spec_lines(self.stdout@)),
        }
    }

    /// The ID52 that the output of key generation names: the error stream
    /// is searched first, then the output stream.
    pub fn extract_id52(&self) -> (id52: Result<String, OutputError>)
        ensures
            match id52 {
                Ok(text) => self.spec_id52() == Some(text@),
                Err(error) => self.spec_id52().is_none() && error == OutputError::NoId52,
            },
    {
        let from_stderr = lines(self.stderr.as_str());
        match find_id52(&from_stderr) {
            Some(found) => Ok(found),
            None => {
                let from_stdout = lines(self.stdout.as_str());
                match find_id52(&from_stdout) {
                    Some(found) => Ok(found),
                    None => Err(OutputError::NoId52),
                }
            },
        }
    }

    /// The cluster that the output of cluster creation names.
    pub fn extract_cluster_id(&self) -> (id: Result<String, OutputError>)
        ensures
            match id {
                Ok(text) => cluster_id_in(spec_lines(self.stdout@)) == Some(text@),
                Err(error) => cluster_id_in(spec_lines(self.stdout@)).is_none() && error
                    == OutputError::NoClusterId,
            },
    {
        let from_stdout = lines(self.stdout.as_str());
        match find_cluster_id(&from_stdout) {
            Some(found) => Ok(found),
            None => Err(OutputError::NoClusterId),
        }
    }

    /// Whether the text occurs in either stream.
    pub fn contains(&self, text: &str) -> (found: bool)
        ensures
            found == (is_substring(text@, self.stdout@) || is_substring(text@, self.stderr@)),
    {
        contains(self.stdout.as_str(), text) || contains(self.stderr.as_str(), text)
    }

    /// Succeeds where the text occurs in either stream.
    pub fn assert_contains(&self, text: &str) -> (checked: Result<(), OutputError>)
        ensures
            match checked {
                Ok(()) => is_substring(text@, self.stdout@) || is_substring(text@, self.stderr@),
                Err(error) => !(is_substring(text@, self.stdout@) || is_substring(
                    text@,
                    self.stderr@,
                )) && error == OutputError::TextMissing,
            },
    {
        if self.contains(text) {
            Ok(())
        } else {
            Err(OutputError::TextMissing)
        }
    }
}

} // verus!
