//! The shared vocabulary of the pipeline: the error taxonomy, the shell
//! registry (supported shells, their setup-script assets and version
//! markers), the effect port abstraction, and the in-memory recording port.

use crate::common::{CliPrompt, GetCliPromptRequestBody, GetCliPromptResponse};
use crate::text;
use vstd::prelude::*;

verus! {

/// The supported shells.  A closed set: adding one means adding a registry
/// entry (a detection rule, an asset and a version-marker extraction rule).
#[derive(Clone, Copy, Debug, PartialEq, Eq, Structural)]
pub enum ShellName {
    Fish,
    Bash,
    Zsh,
    PowerShell,
}

/// Everything a run can fail with.  Each stage returns the failure to its
/// caller, which propagates it unchanged to the top of the pipeline.
#[derive(Debug)]
pub enum Error {
    /// A shell name given on the command line is not in the registry.
    InvalidShellName,
    /// The ask holds a line-break character.
    AskContainsNewline,
    /// The ask is longer than the allowed bound.
    AskTooLong,
    /// The home directory could not be resolved.
    HomeDirNotFound,
    /// The shell is recognized but its integration is not implemented yet.
    ShellNotSupported(ShellName),
    /// No supported shell could be detected from the environment.
    NoShellDetected,
    /// A file operation failed; the message is the underlying cause.
    Io(String),
    /// The remote call failed; the message is the underlying cause.
    Remote(String),
}

impl Error {
    /// The user-facing message of this error.
    pub open spec fn message_spec(&self) -> Seq<char> {
        match self {
            Error::InvalidShellName => "Invalid shell name"@,
            Error::AskContainsNewline => "Invalid ask: new line character is not allowed"@,
            Error::AskTooLong => "Invalid ask: max length of 100 characters reached"@,
            Error::HomeDirNotFound => "Could not find home directory"@,
            Error::ShellNotSupported(name) => name.display_name_spec()
                + " shell is not yet supported"@,
            Error::NoShellDetected => "no supported shell detected"@,
            Error::Io(cause) => cause@,
            Error::Remote(cause) => cause@,
        }
    }

    /// The user-facing message of this error.
    pub fn message(&self) -> (r: String)
        ensures
            r@ == self.message_spec(),
    {
        match self {
            Error::InvalidShellName => String::from_str("Invalid shell name"),
            Error::AskContainsNewline => String::from_str(
                "Invalid ask: new line character is not allowed",
            ),
            Error::AskTooLong => String::from_str(
                "Invalid ask: max length of 100 characters reached",
            ),
            Error::HomeDirNotFound => String::from_str("Could not find home directory"),
            Error::ShellNotSupported(name) => name.display_name().concat(
                " shell is not yet supported",
            ),
            Error::NoShellDetected => String::from_str("no supported shell detected"),
            Error::Io(cause) => cause.clone(),
            Error::Remote(cause) => cause.clone(),
        }
    }
}

/// The embedded fish integration script.  Its version marker is the line
/// holding "set hey_setup_version"; the version is that line's last field.
pub const FISH_SETUP_SCRIPT: &'static str = "function hey\n    set hey_setup_version 0.1.0\n    set output (command hey-cli --shell-name fish --setup-version $hey_setup_version $argv)\n    command hey-cli --get-stdout $output\n    commandline -- (command hey-cli --get-prompt $output)\nend\n";

/// The embedded zsh integration script.  Its version marker is the line
/// holding "local hey_setup_version="; the version is the first quoted
/// stretch of that line.
pub const ZSH_SETUP_SCRIPT: &'static str = "hey() {\n    local hey_setup_version=\"0.1.0\"\n    local output\n    output=$(command hey-cli --shell-name zsh --setup-version $hey_setup_version $@)\n    command hey-cli --get-stdout $output\n    print -z $(command hey-cli --get-prompt $output)\n}\n";

impl ShellName {
    /// The snake_case name used on the command line and in log lines.
    pub open spec fn display_name_spec(&self) -> Seq<char> {
        match self {
            ShellName::Fish => "fish"@,
            ShellName::Bash => "bash"@,
            ShellName::Zsh => "zsh"@,
            ShellName::PowerShell => "power_shell"@,
        }
    }

    /// The snake_case name used on the command line and in log lines.
    pub fn display_name(&self) -> (r: String)
        ensures
            r@ == self.display_name_spec(),
    {
        match self {
            ShellName::Fish => String::from_str("fish"),
            ShellName::Bash => String::from_str("bash"),
            ShellName::Zsh => String::from_str("zsh"),
            ShellName::PowerShell => String::from_str("power_shell"),
        }
    }

    /// The registry entry whose name matches, if any.
    pub open spec fn from_name_spec(s: Seq<char>) -> Option<ShellName> {
        if s == "fish"@ {
            Some(ShellName::Fish)
        } else if s == "bash"@ {
            Some(ShellName::Bash)
        } else if s == "zsh"@ {
            Some(ShellName::Zsh)
        } else if s == "power_shell"@ {
            Some(ShellName::PowerShell)
        } else {
            None
        }
    }

    /// The registry entry whose name matches, if any.
    pub fn from_name(s: &str) -> (r: Option<ShellName>)
        ensures
            r == Self::from_name_spec(s@),
    {
        if text::str_eq(s, "fish") {
            Some(ShellName::Fish)
        } else if text::str_eq(s, "bash") {
            Some(ShellName::Bash)
        } else if text::str_eq(s, "zsh") {
            Some(ShellName::Zsh)
        } else if text::str_eq(s, "power_shell") {
            Some(ShellName::PowerShell)
        } else {
            None
        }
    }

    /// Every supported shell, in registry order.
    pub fn all() -> (r: Vec<ShellName>)
        ensures
            r@ == seq![ShellName::Fish, ShellName::Bash, ShellName::Zsh, ShellName::PowerShell],
    {
        let mut v: Vec<ShellName> = Vec::new();
        v.push(ShellName::Fish);
        v.push(ShellName::Bash);
        v.push(ShellName::Zsh);
        v.push(ShellName::PowerShell);
        proof {
            assert(v@ =~= seq![
                ShellName::Fish,
                ShellName::Bash,
                ShellName::Zsh,
                ShellName::PowerShell,
            ]);
        }
        v
    }

    /// The embedded setup-script asset for this shell, where one exists.
    pub fn setup_script_content(&self) -> (r: Option<&'static str>)
        ensures
            match self {
                ShellName::Fish => r matches Some(c) && c@ == FISH_SETUP_SCRIPT@,
                ShellName::Zsh => r matches Some(c) && c@ == ZSH_SETUP_SCRIPT@,
                ShellName::Bash | ShellName::PowerShell => r is None,
            },
    {
        match self {
            ShellName::Fish => Some(FISH_SETUP_SCRIPT),
            ShellName::Zsh => Some(ZSH_SETUP_SCRIPT),
            ShellName::Bash => None,
            ShellName::PowerShell => None,
        }
    }
}

/// The version marker of a shell's embedded asset: the per-shell extraction
/// rule applied to the asset content, or nothing for shells without an asset
/// or whose asset lacks the marker.
pub open spec fn expected_version_spec(name: ShellName) -> Option<Seq<char>> {
    match name {
        ShellName::Fish => match text::find_marker_line(
            FISH_SETUP_SCRIPT@,
            "set hey_setup_version"@,
        ) {
            Some(line) => text::last_field(line),
            None => None,
        },
        ShellName::Zsh => match text::find_marker_line(
            ZSH_SETUP_SCRIPT@,
            "local hey_setup_version="@,
        ) {
            Some(line) => text::first_quoted(line),
            None => None,
        },
        ShellName::Bash | ShellName::PowerShell => None,
    }
}

/// The shell the invoking process runs inside, together with the version of
/// the integration script already installed for it (as reported by that
/// script).  Built once per run and never mutated.
#[derive(Debug)]
pub struct Shell {
    pub setup_version: String,
    pub name: ShellName,
}

impl Shell {
    /// The version marker extracted from this shell's embedded asset: the
    /// version an up-to-date installation would report.
    pub fn expected_setup_version(&self) -> (r: Option<String>)
        ensures
            match r {
                Some(v) => expected_version_spec(self.name) == Some(v@),
                None => expected_version_spec(self.name) is None,
            },
    {
        match self.name {
            ShellName::Fish => match self.name.setup_script_content() {
                Some(content) => match text::find_marker_line_exec(
                    content,
                    "set hey_setup_version",
                ) {
                    Some(line) => text::last_field_exec(line),
                    None => None,
                },
                None => None,
            },
            ShellName::Zsh => match self.name.setup_script_content() {
                Some(content) => match text::find_marker_line_exec(
                    content,
                    "local hey_setup_version=",
                ) {
                    Some(line) => text::first_quoted_exec(line),
                    None => None,
                },
                None => None,
            },
            ShellName::Bash | ShellName::PowerShell => None,
        }
    }
}

/// The abstract state of an effect port: what the pipeline has observably
/// done so far (ordered log, one-shot final result) and what it can observe
/// (environment variables, file contents by path).
pub struct PortModel {
    pub logs: Seq<Seq<char>>,
    pub final_prompt: Option<Seq<char>>,
    pub env: Map<Seq<char>, Seq<char>>,
    pub files: Map<Seq<char>, Seq<char>>,
}

/// A file's content, or empty where the file does not exist.
pub open spec fn file_or_empty(files: Map<Seq<char>, Seq<char>>, path: Seq<char>) -> Seq<char> {
    if files.contains_key(path) {
        files[path]
    } else {
        Seq::empty()
    }
}

/// The canonical rendering of a port's state: the log lines joined with
/// newlines; then, if a final command exists, a separating newline, the
/// sentinel line, and the command.  The sentinel is the contract boundary
/// with the installed shell script, which splits the text at it.
pub open spec fn render_output(logs: Seq<Seq<char>>, final_prompt: Option<Seq<char>>) -> Seq<
    char,
> {
    text::join_char(logs, '\n') + match final_prompt {
        Some(p) => "\nhey-cli-prompt-start\n"@ + p,
        None => Seq::<char>::empty(),
    }
}

/// LAW â the rendered output splits back at the sentinel: where neither the
/// joined log text nor the command holds the sentinel, the pre-sentinel
/// segment recovers the trimmed log text and the post-sentinel segment
/// recovers the trimmed command.  This is the contract between the formatter
/// and the installed integration script, which cuts the text at the marker.
pub proof fn lemma_render_splits_at_sentinel(logs: Seq<Seq<char>>, command: Seq<char>)
    requires
        !text::contains_seq(text::join_char(logs, '\n'), "hey-cli-prompt-start"@),
        !text::contains_seq(command, "hey-cli-prompt-start"@),
    ensures
        text::contains_seq(render_output(logs, Some(command)), "hey-cli-prompt-start"@),
        text::trim_seq(
            text::before_first(render_output(logs, Some(command)), "hey-cli-prompt-start"@),
        ) == text::trim_seq(text::join_char(logs, '\n')),
        text::trim_seq(
            text::after_last(render_output(logs, Some(command)), "hey-cli-prompt-start"@),
        ) == text::trim_seq(command),
{
    let joined = text::join_char(logs, '\n');
    let sentinel = "hey-cli-prompt-start"@;
    let r = render_output(logs, Some(command));
    reveal_strlit("hey-cli-prompt-start");
    reveal_strlit("\nhey-cli-prompt-start\n");
    assert("\nhey-cli-prompt-start\n"@ =~= seq!['\n'] + sentinel + seq!['\n']);
    assert(r =~= joined + seq!['\n'] + sentinel + seq!['\n'] + command);
    let n = joined.len() as int;
    let m = sentinel.len() as int;
    assert(!sentinel.contains('\n')) by {
        if sentinel.contains('\n') {
            let i = choose|i: int| 0 <= i < sentinel.len() && sentinel[i] == '\n';
            assert(false);
        }
    }
    let i0 = n + 1;
    assert(r.subrange(i0, i0 + m) =~= sentinel);
    assert(text::match_at(r, sentinel, i0));
    assert forall|j: int| text::match_at(r, sentinel, j) implies j == i0 by {
        if j < i0 {
            if j + m <= n {
                assert(joined.subrange(j, j + m) =~= r.subrange(j, j + m));
                assert(text::match_at(joined, sentinel, j));
            } else {
                assert(j <= n < j + m);
                assert(r[n] == '\n');
                assert(r.subrange(j, j + m)[n - j] == r[n]);
                assert(sentinel[n - j] == '\n');
            }
        }
        if j > i0 {
            if j <= i0 + m {
                assert(j <= i0 + m < j + m);
                assert(r[i0 + m] == '\n');
                assert(r.subrange(j, j + m)[i0 + m - j] == r[i0 + m]);
                assert(sentinel[i0 + m - j] == '\n');
            } else {
                let k = j - (i0 + m + 1);
                assert(command.subrange(k, k + m) =~= r.subrange(j, j + m));
                assert(text::match_at(command, sentinel, k));
            }
        }
    }
    text::lemma_before_first_at(r, sentinel, i0);
    assert(text::before_first(r, sentinel) =~= joined + seq!['\n']);
    text::lemma_trim_trailing_blank(joined, '\n');
    text::lemma_after_last_at(r, sentinel, i0);
    assert(text::after_last(r, sentinel) =~= seq!['\n'] + command);
    text::lemma_trim_leading_blank('\n', command);
}

/// The sole gateway to the outside world.  The workflow stages are written
/// against this contract alone, so they behave identically over the
/// in-memory recording port and over a port doing real I/O.
pub trait PortTrait: Sized {
    /// The port's abstract state.  The default stands for ports whose state
    /// the verification never inspects; the recording port overrides it.
    open spec fn model(&self) -> PortModel {
        PortModel {
            logs: Seq::empty(),
            final_prompt: None,
            env: Map::empty(),
            files: Map::empty(),
        }
    }

    /// Appends one message to the ordered log.
    fn log(&mut self, message: &str)
        ensures
            final(self).model() == (PortModel {
                logs: old(self).model().logs.push(message@),
                ..old(self).model()
            }),
    ;

    /// Records the terminal command string.  Expected at most once per run.
    fn set_final_prompt(&mut self, prompt: String)
        ensures
            final(self).model() == (PortModel {
                final_prompt: Some(prompt@),
                ..old(self).model()
            }),
    ;

    /// Looks an environment variable up.
    fn read_env(&self, key: &str) -> (value: Option<String>)
        ensures
            match value {
                Some(v) => self.model().env.contains_key(key@) && self.model().env[key@] == v@,
                None => !self.model().env.contains_key(key@),
            },
    ;

    /// Renders the accumulated log and the optional final command.
    fn to_stdout_format(&self) -> (out: String)
        ensures
            out@ == render_output(self.model().logs, self.model().final_prompt),
    ;

    /// Replaces the file's whole content, creating the file as needed.
    fn overwrite_file(&mut self, path: &str, content: &str) -> (r: Result<(), Error>)
        ensures
            r is Ok ==> final(self).model() == (PortModel {
                files: old(self).model().files.insert(path@, content@),
                ..old(self).model()
            }),
            r is Err ==> final(self).model().logs == old(self).model().logs
                && final(self).model().final_prompt == old(self).model().final_prompt
                && final(self).model().env == old(self).model().env,
            r matches Err(e) ==> e is Io,
    ;

    /// Removes every occurrence of the pattern from the file's content,
    /// creating the file empty first where it does not exist.
    fn remove_matches_from_file_content(&mut self, path: &str, pattern: &str) -> (r: Result<
        (),
        Error,
    >)
        ensures
            r is Ok ==> final(self).model() == (PortModel {
                files: old(self).model().files.insert(
                    path@,
                    text::remove_all(
                        file_or_empty(old(self).model().files, path@),
                        pattern@,
                    ),
                ),
                ..old(self).model()
            }),
            r is Err ==> final(self).model().logs == old(self).model().logs
                && final(self).model().final_prompt == old(self).model().final_prompt
                && final(self).model().env == old(self).model().env,
            r matches Err(e) ==> e is Io,
    ;

    /// Appends the content to the file on a line of its own.  Fails where
    /// the file does not exist: callers ensure pre-creation.
    fn append_to_file(&mut self, path: &str, content: &str) -> (r: Result<(), Error>)
        ensures
            r is Ok ==> old(self).model().files.contains_key(path@) && final(self).model() == (
            PortModel {
                files: old(self).model().files.insert(
                    path@,
                    text::append_line_seq(old(self).model().files[path@], content@),
                ),
                ..old(self).model()
            }),
            r is Err ==> final(self).model().logs == old(self).model().logs
                && final(self).model().final_prompt == old(self).model().final_prompt
                && final(self).model().env == old(self).model().env,
            r matches Err(e) ==> e is Io,
    ;

    /// Deletes the file.  Fails where it does not exist.
    fn remove_file(&mut self, path: &str) -> (r: Result<(), Error>)
        ensures
            r is Ok ==> old(self).model().files.contains_key(path@) && final(self).model() == (
            PortModel {
                files: old(self).model().files.remove(path@),
                ..old(self).model()
            }),
            r is Err ==> final(self).model() == old(self).model(),
            r matches Err(e) ==> e is Io,
    ;

    /// The one network-bound operation: asks the remote service to turn the
    /// ask plus context into a command.  Nothing is promised of the answer;
    /// callers state what holds whatever came back.
    fn ask_server_for_prompt(&self, query: GetCliPromptRequestBody) -> (r: Result<
        GetCliPromptResponse,
        Error,
    >)
        ensures
            r matches Err(e) ==> e is Remote,
    ;
}

/// A pipeline stage: consumes its input state, uses the port for effects,
/// and hands the next stage's state on (or fails the run).
pub trait State<N>: Sized {
    fn next<P: PortTrait>(self, port: &mut P) -> Result<N, Error>;
}

/// An association list read as a map: a later entry overrides an earlier one
/// with the same key.
pub open spec fn assoc_view(entries: Seq<(String, String)>) -> Map<Seq<char>, Seq<char>>
    decreases entries.len(),
{
    if entries.len() == 0 {
        Map::empty()
    } else {
        assoc_view(entries.drop_last()).insert(entries.last().0@, entries.last().1@)
    }
}

/// The value stored under `key`, scanning from the most recent entry back.
fn assoc_get<'a>(entries: &'a Vec<(String, String)>, key: &str) -> (r: Option<&'a String>)
    ensures
        match r {
            Some(v) => assoc_view(entries@).contains_key(key@) && assoc_view(entries@)[key@]
                == v@,
            None => !assoc_view(entries@).contains_key(key@),
        },
{
    let ghost full = assoc_view(entries@);
    let mut j = entries.len();
    proof {
        assert(entries@.take(entries@.len() as int) =~= entries@);
    }
    loop
        invariant
            j <= entries@.len(),
            full == assoc_view(entries@),
            full.contains_key(key@) == assoc_view(entries@.take(j as int)).contains_key(key@),
            full.contains_key(key@) ==> full[key@] == assoc_view(entries@.take(j as int))[key@],
        decreases j,
    {
        if j == 0 {
            return None;
        }
        j = j - 1;
        proof {
            assert(entries@.take(j + 1).drop_last() =~= entries@.take(j as int));
            assert(entries@.take(j + 1).last() == entries@[j as int]);
        }
        if text::str_eq(entries[j].0.as_str(), key) {
            return Some(&entries[j].1);
        }
    }
}

/// Drops every entry stored under `key`.
fn assoc_remove(entries: &mut Vec<(String, String)>, key: &str)
    ensures
        assoc_view(final(entries)@) == assoc_view(old(entries)@).remove(key@),
{
    let mut kept: Vec<(String, String)> = Vec::new();
    let mut i: usize = 0;
    proof {
        assert(old(entries)@.take(0) =~= Seq::<(String, String)>::empty());
        assert(assoc_view(kept@) =~= assoc_view(old(entries)@.take(0)).remove(key@));
    }
    while i < entries.len()
        invariant
            i <= entries@.len(),
            entries@ == old(entries)@,
            assoc_view(kept@) == assoc_view(entries@.take(i as int)).remove(key@),
        decreases entries@.len() - i,
    {
        let ghost before = kept@;
        let same = text::str_eq(entries[i].0.as_str(), key);
        if !same {
            let k = entries[i].0.clone();
            let v = entries[i].1.clone();
            kept.push((k, v));
        }
        proof {
            let taken = entries@.take(i + 1);
            assert(taken.drop_last() =~= entries@.take(i as int));
            assert(taken.last() == entries@[i as int]);
            let prev = assoc_view(entries@.take(i as int));
            if same {
                assert(prev.insert(entries@[i as int].0@, entries@[i as int].1@).remove(key@)
                    =~= prev.remove(key@));
            } else {
                assert(kept@.drop_last() =~= before);
                assert(prev.insert(entries@[i as int].0@, entries@[i as int].1@).remove(key@)
                    =~= prev.remove(key@).insert(entries@[i as int].0@, entries@[i as int].1@));
            }
        }
        i = i + 1;
    }
    proof {
        assert(entries@.take(entries@.len() as int) =~= entries@);
    }
    *entries = kept;
}

/// The in-memory recording port: it buffers log lines, the final command,
/// an environment fixture and file contents instead of touching the outside
/// world, and fabricates a deterministic remote answer.  The workflow drives
/// it exactly as it drives a production port.
#[derive(Debug)]
pub struct Port {
    pub logs: Vec<String>,
    pub final_prompt: Option<String>,
    env_vars: Vec<(String, String)>,
    files: Vec<(String, String)>,
}

impl Port {
    /// A fresh port: nothing logged, no final command, no environment
    /// variables, no files.
    pub fn new() -> (r: Port)
        ensures
            r.model() == (PortModel {
                logs: Seq::<Seq<char>>::empty(),
                final_prompt: None::<Seq<char>>,
                env: Map::<Seq<char>, Seq<char>>::empty(),
                files: Map::<Seq<char>, Seq<char>>::empty(),
            }),
    {
        let r = Port { logs: Vec::new(), final_prompt: None, env_vars: Vec::new(), files: Vec::new() };
        proof {
            assert(r.logs.deep_view() =~= Seq::<Seq<char>>::empty());
        }
        r
    }

    /// Seeds one environment variable of the fixture.
    pub fn set_env_var(&mut self, key: &str, value: &str)
        ensures
            final(self).model() == (PortModel {
                env: old(self).model().env.insert(key@, value@),
                ..old(self).model()
            }),
    {
        self.env_vars.push((String::from_str(key), String::from_str(value)));
        proof {
            assert(self.env_vars@.drop_last() =~= old(self).env_vars@);
            assert(self.logs.deep_view() =~= old(self).logs.deep_view());
        }
    }

    /// Seeds one file of the fixture.
    pub fn set_file(&mut self, path: &str, content: &str)
        ensures
            final(self).model() == (PortModel {
                files: old(self).model().files.insert(path@, content@),
                ..old(self).model()
            }),
    {
        self.files.push((String::from_str(path), String::from_str(content)));
        proof {
            assert(self.files@.drop_last() =~= old(self).files@);
            assert(self.logs.deep_view() =~= old(self).logs.deep_view());
        }
    }

    /// The buffered content of a file, where one exists.
    pub fn file_content(&self, path: &str) -> (r: Option<String>)
        ensures
            match r {
                Some(c) => self.model().files.contains_key(path@) && self.model().files[path@]
                    == c@,
                None => !self.model().files.contains_key(path@),
            },
    {
        match assoc_get(&self.files, path) {
            Some(content) => Some(content.clone()),
            None => None,
        }
    }
}

impl PortTrait for Port {
    closed spec fn model(&self) -> PortModel {
        PortModel {
            logs: self.logs.deep_view(),
            final_prompt: self.final_prompt.deep_view(),
            env: assoc_view(self.env_vars@),
            files: assoc_view(self.files@),
        }
    }

    fn log(&mut self, message: &str) {
        self.logs.push(String::from_str(message));
        proof {
            assert(self.logs.deep_view() =~= old(self).logs.deep_view().push(message@));
        }
    }

    fn set_final_prompt(&mut self, prompt: String) {
        self.final_prompt = Some(prompt);
        proof {
            assert(self.logs.deep_view() =~= old(self).logs.deep_view());
        }
    }

    fn read_env(&self, key: &str) -> (value: Option<String>) {
        match assoc_get(&self.env_vars, key) {
            Some(v) => Some(v.clone()),
            None => None,
        }
    }

    fn to_stdout_format(&self) -> (out: String) {
        proof {
            reveal_strlit("\n");
        }
        let joined = text::join_char_exec(&self.logs, "\n");
        let out = match &self.final_prompt {
            Some(p) => joined.concat("\nhey-cli-prompt-start\n").concat(p.as_str()),
            None => joined,
        };
        proof {
            assert(out@ =~= render_output(self.model().logs, self.model().final_prompt));
        }
        out
    }

    fn overwrite_file(&mut self, path: &str, content: &str) -> (r: Result<(), Error>) {
        self.files.push((String::from_str(path), String::from_str(content)));
        proof {
            assert(self.files@.drop_last() =~= old(self).files@);
            assert(self.logs.deep_view() =~= old(self).logs.deep_view());
        }
        Ok(())
    }

    fn remove_matches_from_file_content(&mut self, path: &str, pattern: &str) -> (r: Result<
        (),
        Error,
    >) {
        let current: String = match assoc_get(&self.files, path) {
            Some(c) => c.clone(),
            None => String::new(),
        };
        let updated = text::remove_all_occurrences(current.as_str(), pattern);
        self.files.push((String::from_str(path), updated));
        proof {
            assert(self.files@.drop_last() =~= old(self).files@);
            assert(self.logs.deep_view() =~= old(self).logs.deep_view());
        }
        Ok(())
    }

    fn append_to_file(&mut self, path: &str, content: &str) -> (r: Result<(), Error>) {
        let current: String = match assoc_get(&self.files, path) {
            Some(c) => c.clone(),
            None => {
                return Err(Error::Io(String::from_str("file does not exist")));
            },
        };
        let updated = text::append_line_content(current.as_str(), content);
        self.files.push((String::from_str(path), updated));
        proof {
            assert(self.files@.drop_last() =~= old(self).files@);
            assert(self.logs.deep_view() =~= old(self).logs.deep_view());
        }
        Ok(())
    }

    fn remove_file(&mut self, path: &str) -> (r: Result<(), Error>) {
        let exists = match assoc_get(&self.files, path) {
            Some(_) => true,
            None => false,
        };
        if !exists {
            return Err(Error::Io(String::from_str("file does not exist")));
        }
        assoc_remove(&mut self.files, path);
        proof {
            assert(self.logs.deep_view() =~= old(self).logs.deep_view());
        }
        Ok(())
    }

    /// Fabricates a deterministic answer: a command echoing the ask back.
    fn ask_server_for_prompt(&self, query: GetCliPromptRequestBody) -> (r: Result<
        GetCliPromptResponse,
        Error,
    >)
        ensures
            r matches Ok(resp) && resp.prompt.value@ == "echo \""@ + query.ask@ + "\""@,
    {
        let value = String::from_str("echo \"").concat(query.ask.as_str()).concat("\"");
        Ok(GetCliPromptResponse { prompt: CliPrompt { value } })
    }
}

} // verus!
