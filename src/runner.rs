use vstd::prelude::*;
use vstd::string::*;

use crate::config::Config;
use crate::json::{
    json_bool, json_opt_string, json_string_list, json_string_of, push_json_bool,
    push_json_opt_string, push_json_string, push_json_string_list,
};
use crate::lines::{lines_of, split_lines};

verus! {

/// The prefix that every URI of a result carries.
pub open spec fn file_protocol() -> Seq<char> {
    seq!['f', 'i', 'l', 'e', ':', '/', '/']
}

/// A path entry as a `file://` URI: an entry that already carries the prefix
/// stays as it is, any other gets it prepended.
pub open spec fn normalize_spec(entry: Seq<char>) -> Seq<char> {
    if file_protocol().is_prefix_of(entry) {
        entry
    } else {
        file_protocol() + entry
    }
}

/// Whether `entry` starts with `file://`.
pub fn has_file_protocol(entry: &str) -> (r: bool)
    ensures
        r == file_protocol().is_prefix_of(entry@),
{
    let n = entry.unicode_len();
    if n < 7 {
        return false;
    }
    let r = entry.get_char(0) == 'f' && entry.get_char(1) == 'i' && entry.get_char(2) == 'l'
        && entry.get_char(3) == 'e' && entry.get_char(4) == ':' && entry.get_char(5) == '/'
        && entry.get_char(6) == '/';
    proof {
        if r {
            assert(file_protocol() =~= entry@.subrange(0, 7));
        }
    }
    r
}

/// Turns a path entry of a script's output into a `file://` URI.
pub fn normalize_uri(entry: &str) -> (r: String)
    ensures
        r@ == normalize_spec(entry@),
{
    if has_file_protocol(entry) {
        entry.to_string()
    } else {
        let mut r = String::from_str("file://");
        proof {
            reveal_strlit("file://");
            assert("file://"@ =~= file_protocol());
        }
        r.append(entry);
        r
    }
}

/// A normalized URI is normalized already: normalizing never adds a second
/// `file://`, and every result starts with exactly the one prefix.
pub proof fn lemma_normalize_idempotent(entry: Seq<char>)
    ensures
        file_protocol().is_prefix_of(normalize_spec(entry)),
        normalize_spec(normalize_spec(entry)) == normalize_spec(entry),
        file_protocol().is_prefix_of(entry) ==> normalize_spec(entry) == entry,
        !file_protocol().is_prefix_of(entry) ==> normalize_spec(entry).subrange(7, normalize_spec(entry).len() as int) == entry,
{
    if !file_protocol().is_prefix_of(entry) {
        let r = file_protocol() + entry;
        assert(r.subrange(0, 7) =~= file_protocol());
        assert(r.subrange(7, r.len() as int) =~= entry);
    }
}


/// What an open-file script is asked for.
#[derive(Debug, Clone, PartialEq, Eq)]
pub struct RunnerOpenFileOptions {
    pub multiple: bool,
    pub directory: bool,
}

/// What a save-file script is asked for: a destination that did not exist
/// when it was chosen.
#[derive(Debug, Clone, PartialEq, Eq)]
pub struct RunnerSaveFileOptions {
    pub recommended_path: String,
}

/// What a save-files script is asked for.
#[derive(Debug, Clone, PartialEq, Eq)]
pub struct RunnerSaveFilesOptions {
    pub current_folder: Option<String>,
    pub files: Vec<String>,
}

/// The operation a script runs for, with its options.
#[derive(Debug, Clone, PartialEq, Eq)]
pub enum SpecificRunnerArguments {
    OpenFile(RunnerOpenFileOptions),
    SaveFile(RunnerSaveFileOptions),
    SaveFiles(RunnerSaveFilesOptions),
}

/// The whole argument of one script run: the operation, the file the script
/// writes its selection to, and the terminal command of the configuration.
#[derive(Debug, Clone, PartialEq, Eq)]
pub struct RunnerArguments {
    pub specific: SpecificRunnerArguments,
    pub out_file: String,
    pub termcmd: String,
}

/// The JSON members that name the operation and give its options.
pub open spec fn specific_json(specific: SpecificRunnerArguments) -> Seq<char> {
    match specific {
        SpecificRunnerArguments::OpenFile(o) => "\"type\":\"OpenFile\",\"multiple\":"@ + json_bool(
            o.multiple,
        ) + ",\"directory\":"@ + json_bool(o.directory),
        SpecificRunnerArguments::SaveFile(o) => "\"type\":\"SaveFile\",\"recommended_path\":"@
            + json_string_of(o.recommended_path@),
        SpecificRunnerArguments::SaveFiles(o) => "\"type\":\"SaveFiles\",\"current_folder\":"@
            + json_opt_string(o.current_folder.deep_view()) + ",\"files\":"@ + json_string_list(
            o.files.deep_view(),
        ),
    }
}

/// The JSON object handed to a script as its only argument.
pub open spec fn arguments_json(a: RunnerArguments) -> Seq<char> {
    "{"@ + specific_json(a.specific) + ",\"out_file\":"@ + json_string_of(a.out_file@)
        + ",\"termcmd\":"@ + json_string_of(a.termcmd@) + "}"@
}

/// Appends the members of `specific_json`.
fn push_specific_json(out: &mut String, specific: &SpecificRunnerArguments)
    ensures
        final(out)@ == old(out)@ + specific_json(*specific),
{
    match specific {
        SpecificRunnerArguments::OpenFile(o) => {
            out.append("\"type\":\"OpenFile\",\"multiple\":");
            push_json_bool(out, o.multiple);
            out.append(",\"directory\":");
            push_json_bool(out, o.directory);
        },
        SpecificRunnerArguments::SaveFile(o) => {
            out.append("\"type\":\"SaveFile\",\"recommended_path\":");
            push_json_string(out, o.recommended_path.as_str());
        },
        SpecificRunnerArguments::SaveFiles(o) => {
            out.append("\"type\":\"SaveFiles\",\"current_folder\":");
            push_json_opt_string(out, &o.current_folder);
            out.append(",\"files\":");
            push_json_string_list(out, &o.files);
        },
    }
}

impl RunnerArguments {
    /// The arguments of one run of a script under `config`.
    pub fn new(config: &Config, specific: SpecificRunnerArguments, out_file: String) -> (r: Self)
        ensures
            r.specific == specific,
            r.out_file == out_file,
            r.termcmd@ == config.terminal_command@,
    {
        RunnerArguments { specific, out_file, termcmd: config.terminal_command.clone() }
    }

    /// The JSON text of these arguments.
    pub fn to_json(&self) -> (r: String)
        ensures
            r@ == arguments_json(*self),
    {
        let mut out = String::new();
        out.append("{");
        push_specific_json(&mut out, &self.specific);
        out.append(",\"out_file\":");
        push_json_string(&mut out, self.out_file.as_str());
        out.append(",\"termcmd\":");
        push_json_string(&mut out, self.termcmd.as_str());
        out.append("}");
        proof {
            assert(out@ =~= arguments_json(*self));
        }
        out
    }
}

/// The URIs a script selected, in the order it wrote them.
#[derive(Debug, Clone, PartialEq, Eq)]
pub struct RunnerResult {
    pub uris: Vec<String>,
}

/// Why a script run gave no result.
#[derive(Debug, Clone, PartialEq, Eq)]
pub enum RunnerError {
    /// The script could not be started.
    ProcessLaunchFailed { reason: String },
    /// The script exited unsuccessfully; its exit code and captured output.
    ScriptFailed { code: Option<i32>, stdout: String, stderr: String },
    /// The script exited successfully but left no readable output file;
    /// the file it was to write, and what the script printed.
    InvalidOutput { out_file: String, stdout: String, stderr: String },
    /// The request could not be prepared (a temporary file, a placeholder
    /// file).
    Internal { reason: String },
}

/// What became of one script run: whether it exited successfully, its exit
/// code and captured output, the file it was to write its selection to, and
/// that file's text where it could be read.
#[derive(Debug, Clone, PartialEq, Eq)]
pub struct ScriptOutcome {
    pub success: bool,
    pub code: Option<i32>,
    pub stdout: String,
    pub stderr: String,
    pub out_file: String,
    pub output: Option<String>,
}

/// A script run, ready to start: the program and its single argument, and the
/// file it writes its selection to.
#[derive(Debug, Clone, PartialEq, Eq)]
pub struct ScriptInvocation {
    pub program: String,
    pub argument: String,
    pub out_file: String,
}

/// The URIs of a script's output text: one per line, each as a `file://` URI.
pub open spec fn output_uris(content: Seq<char>) -> Seq<Seq<char>> {
    lines_of(content).map_values(|l: Seq<char>| normalize_spec(l))
}

/// The three operations of a file chooser, each answered with a list of URIs
/// (empty where nothing was selected).
pub trait Runner: Send + Sync {
    fn run_open_file(&self, options: &RunnerOpenFileOptions) -> Result<RunnerResult, RunnerError>;

    fn run_save_file(&self, options: &RunnerSaveFileOptions) -> Result<RunnerResult, RunnerError>;

    fn run_save_files(&self, options: &RunnerSaveFilesOptions) -> Result<
        RunnerResult,
        RunnerError,
    >;
}

/// Runs the scripts that a configuration names.
pub struct ConfigRunner {
    pub config: Config,
}

/// The script that the configuration names for an operation.
pub open spec fn script_for(config: Config, specific: SpecificRunnerArguments) -> Seq<char> {
    match specific {
        SpecificRunnerArguments::OpenFile(_) => config.open_file_script_path@,
        SpecificRunnerArguments::SaveFile(_) => config.save_file_script_path@,
        SpecificRunnerArguments::SaveFiles(_) => config.save_files_script_path@,
    }
}

impl ConfigRunner {
    pub fn new(config: Config) -> (r: Self)
        ensures
            r.config == config,
    {
        ConfigRunner { config }
    }

    /// Prepares a run of the script for `specific`, which is to write its
    /// selection to `out_file`: the script that the configuration names for
    /// the operation, with the JSON of the arguments as its one argument.
    pub fn prepare(&self, specific: SpecificRunnerArguments, out_file: String) -> (r:
        ScriptInvocation)
        ensures
            r.program@ == script_for(self.config, specific),
            r.argument@ == arguments_json(
                RunnerArguments { specific, out_file, termcmd: self.config.terminal_command },
            ),
            r.out_file == out_file,
    {
        let program = match &specific {
            SpecificRunnerArguments::OpenFile(_) => self.config.open_file_script_path.clone(),
            SpecificRunnerArguments::SaveFile(_) => self.config.save_file_script_path.clone(),
            SpecificRunnerArguments::SaveFiles(_) => self.config.save_files_script_path.clone(),
        };
        let args = RunnerArguments::new(&self.config, specific, out_file);
        let argument = args.to_json();
        ScriptInvocation { program, argument, out_file: args.out_file }
    }

    /// The result that a script's output text stands for.
    pub fn parse_result(content: &str) -> (r: RunnerResult)
        ensures
            r.uris.deep_view() == output_uris(content@),
    {
        let lines = split_lines(content);
        let mut uris: Vec<String> = Vec::new();
        let mut i: usize = 0;
        while i < lines.len()
            invariant
                i <= lines.len(),
                lines.deep_view() == lines_of(content@),
                uris.deep_view() =~= output_uris(content@).take(i as int),
            decreases lines.len() - i,
        {
            let u = normalize_uri(lines[i].as_str());
            let ghost prev = uris.deep_view();
            uris.push(u);
            proof {
                assert(uris.deep_view() =~= prev.push(u@));
                assert(output_uris(content@)[i as int] == normalize_spec(lines@[i as int]@));
                assert(uris.deep_view() =~= output_uris(content@).take(i + 1));
            }
            i = i + 1;
        }
        assert(output_uris(content@).take(lines.len() as int) =~= output_uris(content@));
        RunnerResult { uris }
    }

    /// Decides a script run from its outcome: an unsuccessful exit is
    /// `ScriptFailed`, whatever was written; a missing output file is
    /// `InvalidOutput`, naming the file, with what the script printed; else
    /// the output's URIs, an empty list included.
    pub fn script_result(outcome: ScriptOutcome) -> (r: Result<RunnerResult, RunnerError>)
        ensures
            !outcome.success ==> r == Err::<RunnerResult, RunnerError>(
                RunnerError::ScriptFailed {
                    code: outcome.code,
                    stdout: outcome.stdout,
                    stderr: outcome.stderr,
                },
            ),
            outcome.success && outcome.output is None ==> r == Err::<RunnerResult, RunnerError>(
                RunnerError::InvalidOutput {
                    out_file: outcome.out_file,
                    stdout: outcome.stdout,
                    stderr: outcome.stderr,
                },
            ),
            outcome.success && outcome.output is Some ==> (r matches Ok(res)
                && res.uris.deep_view() == output_uris(outcome.output->0@)),
    {
        if !outcome.success {
            return Err(
                RunnerError::ScriptFailed {
                    code: outcome.code,
                    stdout: outcome.stdout,
                    stderr: outcome.stderr,
                },
            );
        }
        match outcome.output {
            Some(content) => Ok(ConfigRunner::parse_result(content.as_str())),
            None => Err(
                RunnerError::InvalidOutput {
                    out_file: outcome.out_file,
                    stdout: outcome.stdout,
                    stderr: outcome.stderr,
                },
            ),
        }
    }
}

} // verus!
