//! Compile and run planning for each toolchain, and the classification of a
//! finished process into an execution result. Starting, feeding, polling and
//! stopping processes is left to the caller, which reports back what happened.
use crate::models::{ExecutionResult, JudgeError, Language, RunEnd, interrupted_text};
use vstd::prelude::*;

verus! {

/// What `std::path::Path::with_extension` gives for a path and an extension.
pub uninterp spec fn path_with_extension(path: Seq<char>, ext: Seq<char>) -> Seq<char>;

/// What `std::path::Path::file_stem` gives for a path.
pub uninterp spec fn path_file_stem(path: Seq<char>) -> Option<Seq<char>>;

/// What `std::path::Path::parent` gives for a path.
pub uninterp spec fn path_parent(path: Seq<char>) -> Option<Seq<char>>;

/// Relies on `std::path::Path::with_extension`: `path` with its extension
/// replaced by `ext`, under the target's path rules. It panics on an
/// extension that holds a path separator, so such an extension is refused.
#[verifier::external_body]
fn with_extension(path: &str, ext: &str) -> (r: String)
    requires
        forall|i: int| 0 <= i < ext@.len() ==> ext@[i] != '/' && ext@[i] != '\\',
    ensures
        r@ == path_with_extension(path@, ext@),
{
    std::path::Path::new(path).with_extension(ext).to_string_lossy().into_owned()
}

/// Relies on `std::path::Path::file_stem`: the file name of `path` without its extension.
#[verifier::external_body]
fn file_stem(path: &str) -> (r: Option<String>)
    ensures
        r is Some <==> path_file_stem(path@) is Some,
        r is Some ==> r->0@ == path_file_stem(path@)->0,
{
    std::path::Path::new(path).file_stem().map(|s| s.to_string_lossy().into_owned())
}

/// Relies on `std::path::Path::parent`: the directory that holds `path`.
#[verifier::external_body]
fn parent_dir(path: &str) -> (r: Option<String>)
    ensures
        r is Some <==> path_parent(path@) is Some,
        r is Some ==> r->0@ == path_parent(path@)->0,
{
    std::path::Path::new(path).parent().map(|p| p.to_string_lossy().into_owned())
}

/// Relies on `which::which`: whether an executable of that name is found on the
/// search path. The answer depends on the machine, so nothing is promised.
#[verifier::external_body]
fn on_path(name: &str) -> (r: bool) {
    which::which(name).is_ok()
}

/// A program to start, with its arguments and working directory.
#[derive(Clone, Debug)]
pub struct CommandLine {
    pub program: String,
    pub args: Vec<String>,
    /// `None`: the caller's own working directory.
    pub current_dir: Option<String>,
}

pub open spec fn strings_view(v: Seq<String>) -> Seq<Seq<char>> {
    v.map_values(|s: String| s@)
}

pub open spec fn strs_view(v: Seq<&str>) -> Seq<Seq<char>> {
    v.map_values(|s: &str| s@)
}

impl CommandLine {
    pub open spec fn args_view(&self) -> Seq<Seq<char>> {
        strings_view(self.args@)
    }

    pub open spec fn dir_view(&self) -> Option<Seq<char>> {
        match self.current_dir {
            Some(d) => Some(d@),
            None => None,
        }
    }
}

/// How to turn a source file into something that runs.
#[derive(Clone, Debug)]
pub struct BuildPlan {
    /// The compiler call; `None` where the source runs as it is.
    pub compile: Option<CommandLine>,
    /// What runs once the compiler has succeeded.
    pub artifact: String,
    pub language: Language,
}

/// Something that runs: a compiled program, or a source file for an interpreter.
#[derive(Clone, Debug)]
pub struct Artifact {
    pub path: String,
    pub language: Language,
}

/// How a process that the caller started came to an end.
#[derive(Clone, Debug)]
pub enum ProcessOutcome {
    /// It exited by itself; `code` is `None` when a signal ended it.
    Exited { code: Option<i32>, stdout: String, stderr: String },
    /// The time limit passed and the caller stopped it.
    TimedOut,
    /// Cancellation was requested and the caller stopped it.
    Cancelled,
    /// It could not be started.
    StartFailed { reason: String },
}

/// One finished process, as the caller saw it.
#[derive(Clone, Debug)]
pub struct ProcessReport {
    pub outcome: ProcessOutcome,
    /// Wall-clock time from start to end, in milliseconds.
    pub elapsed_ms: u64,
    /// Peak memory in kilobytes, where the platform tells it.
    pub memory_used: Option<u64>,
}

/// The compilers tried for a language, in order of preference.
pub open spec fn compiler_candidates(language: Language) -> Seq<Seq<char>> {
    match language {
        Language::Cpp => seq!["g++"@, "clang++"@, "cl"@],
        Language::C => seq!["gcc"@, "clang"@, "cl"@],
        Language::Rust => seq!["rustc"@],
        Language::Java => seq!["javac"@],
        Language::Python => Seq::empty(),
    }
}

/// What a successful compilation leaves, or the source itself for an interpreter.
pub open spec fn artifact_path(language: Language, source: Seq<char>) -> Seq<char> {
    match language {
        Language::Java => path_with_extension(source, "class"@),
        Language::Python => source,
        _ => path_with_extension(source, "exe"@),
    }
}

/// The compiler's arguments.
pub open spec fn compile_args(language: Language, source: Seq<char>, artifact: Seq<char>) -> Seq<
    Seq<char>,
> {
    match language {
        Language::Cpp => seq![source, "-o"@, artifact, "-O2"@, "-std=c++17"@, "-Wall"@],
        Language::C => seq![source, "-o"@, artifact, "-O2"@, "-std=c11"@, "-Wall"@],
        Language::Rust => seq![source, "-o"@, artifact, "-O"@],
        Language::Java => seq![source],
        Language::Python => Seq::empty(),
    }
}

/// `plan` compiles `source` as `language` with one of its compilers, or runs
/// `source` as it is where the language is not compiled.
pub open spec fn is_build_plan(plan: BuildPlan, source: Seq<char>, language: Language) -> bool {
    &&& plan.language == language
    &&& if !language.needs_compile() {
        plan.compile is None && plan.artifact@ == source
    } else {
        &&& plan.compile is Some
        &&& plan.artifact@ == artifact_path(language, source)
        &&& exists|i: int|
            0 <= i < compiler_candidates(language).len() && plan.compile->0.program@
                == compiler_candidates(language)[i]
        &&& plan.compile->0.args_view() == compile_args(language, source, plan.artifact@)
        &&& plan.compile->0.current_dir is None
    }
}

/// The compiler exited with code zero.
pub open spec fn compile_succeeds(outcome: ProcessOutcome) -> bool {
    outcome matches ProcessOutcome::Exited { code, .. } && code == Some(0i32)
}

/// `e` tells why a compilation that ended in `outcome` did not succeed.
pub open spec fn is_compile_error(outcome: ProcessOutcome, e: JudgeError) -> bool {
    match outcome {
        ProcessOutcome::Exited { code: _, stdout: _, stderr } => e matches JudgeError::CompilationFailed(
            m,
        ) && m@ == stderr@,
        ProcessOutcome::TimedOut => e matches JudgeError::CompilationFailed(m) && m@
            == compile_timeout_text(),
        ProcessOutcome::Cancelled => e == JudgeError::Cancelled,
        ProcessOutcome::StartFailed { reason } => e matches JudgeError::ToolchainNotFound(m) && m@
            == reason@,
    }
}

/// A class runs in the directory that holds it, or in `work_dir` where the
/// path names none.
pub open spec fn java_dir(work_dir: Seq<char>, path: Seq<char>) -> Option<Seq<char>> {
    match path_parent(path) {
        Some(p) => if p.len() > 0 {
            Some(p)
        } else {
            Some(work_dir)
        },
        None => Some(work_dir),
    }
}

/// `r` starts the artifact at `path`: through the interpreter or the virtual machine its
/// language needs, or directly; `None` when a class name cannot be read.
pub open spec fn is_run_command(
    work_dir: Seq<char>,
    path: Seq<char>,
    language: Language,
    r: Option<CommandLine>,
) -> bool {
    match language {
        Language::Python => (r matches Some(c) && c.program@ == "python"@ && c.args_view()
            == seq![path] && c.dir_view() == Some(work_dir)),
        Language::Java => match path_file_stem(path) {
            None => r is None,
            Some(stem) => (r matches Some(c) && c.program@ == "java"@ && c.args_view()
                == seq![stem] && c.dir_view() == java_dir(work_dir, path)),
        },
        _ => (r matches Some(c) && c.program@ == path && c.args_view()
            == Seq::<Seq<char>>::empty() && c.dir_view() == Some(work_dir)),
    }
}

/// The index of the first `true` in `present`, if any.
pub open spec fn is_first_available(present: Seq<bool>, r: Option<usize>) -> bool {
    match r {
        Some(i) => i < present.len() && present[i as int] && forall|j: int|
            0 <= j < i ==> !present[j],
        None => forall|j: int| 0 <= j < present.len() ==> !present[j],
    }
}

/// Picks, by preference order, the first candidate that is present.
pub fn first_available(present: &Vec<bool>) -> (r: Option<usize>)
    ensures
        is_first_available(present@, r),
{
    let mut i: usize = 0;
    while i < present.len()
        invariant
            i <= present.len(),
            forall|j: int| 0 <= j < i ==> !present@[j],
        decreases present.len() - i,
    {
        if present[i] {
            return Some(i);
        }
        i = i + 1;
    }
    None
}

fn strings_of(items: &Vec<&str>) -> (r: Vec<String>)
    ensures
        strings_view(r@) == strs_view(items@),
{
    let mut r: Vec<String> = Vec::new();
    let mut i: usize = 0;
    while i < items.len()
        invariant
            i <= items.len(),
            r@.len() == i,
            strings_view(r@) == strs_view(items@.subrange(0, i as int)),
        decreases items.len() - i,
    {
        let ghost before = r@;
        r.push(String::from_str(items[i]));
        assert(r@.drop_last() == before);
        assert forall|k: int| 0 <= k < i implies #[trigger] strings_view(r@)[k] == strs_view(
            items@.subrange(0, i + 1),
        )[k] by {
            assert(r@[k] == before[k]);
            assert(strings_view(before)[k] == strs_view(items@.subrange(0, i as int))[k]);
        }
        assert(strings_view(r@) =~= strs_view(items@.subrange(0, i + 1)));
        i = i + 1;
    }
    assert(items@.subrange(0, i as int) =~= items@);
    r
}

/// The message for a result that ran out of time.
pub open spec fn timeout_text() -> Seq<char> {
    "Timeout"@
}

pub open spec fn start_failed_text(reason: Seq<char>) -> Seq<char> {
    "Cannot start program: "@ + reason
}

pub open spec fn compile_timeout_text() -> Seq<char> {
    "Compilation timed out"@
}

/// Plans compilations and runs, and reads what came of them.
#[derive(Clone, Debug)]
pub struct Executor {
    /// Where compiled programs run.
    pub work_dir: String,
}

impl Executor {
    pub fn new(work_dir: String) -> (r: Executor)
        ensures
            r.work_dir@ == work_dir@,
    {
        Executor { work_dir }
    }

    /// What compiling `source_file` leaves: the source with the extension
    /// `class` for Java or `exe` otherwise, or the source itself where the
    /// language is not compiled.
    pub fn artifact_for(source_file: &str, language: Language) -> (r: String)
        ensures
            r@ == artifact_path(language, source_file@),
    {
        match language {
            Language::Java => {
                proof {
                    reveal_strlit("class");
                }
                with_extension(source_file, "class")
            },
            Language::Python => String::from_str(source_file),
            _ => {
                proof {
                    reveal_strlit("exe");
                }
                with_extension(source_file, "exe")
            },
        }
    }

    /// The compilers tried for `language`, in order of preference.
    pub fn compiler_names(language: Language) -> (r: Vec<&'static str>)
        ensures
            strs_view(r@) == compiler_candidates(language),
    {
        let r = match language {
            Language::Cpp => vec!["g++", "clang++", "cl"],
            Language::C => vec!["gcc", "clang", "cl"],
            Language::Rust => vec!["rustc"],
            Language::Java => vec!["javac"],
            Language::Python => Vec::new(),
        };
        assert(strs_view(r@) =~= compiler_candidates(language));
        r
    }

    /// How to compile `source_file`: the first compiler for its language found
    /// on the search path, with the arguments for that toolchain. A language
    /// that is not compiled runs from the source itself.
    pub fn compile(&self, source_file: &str, language: Language) -> (r: Result<BuildPlan, JudgeError>)
        ensures
            match r {
                Ok(plan) => is_build_plan(plan, source_file@, language),
                Err(e) => language.needs_compile() && e is ToolchainNotFound,
            },
    {
        let names = Self::compiler_names(language);
        let mut present: Vec<bool> = Vec::new();
        let mut i: usize = 0;
        while i < names.len()
            invariant
                i <= names.len(),
                present@.len() == i,
            decreases names.len() - i,
        {
            present.push(on_path(names[i]));
            i = i + 1;
        }
        self.plan_build(source_file, language, &present)
    }

    /// How to compile `source_file` when `present[i]` tells whether the
    /// `i`-th compiler for its language, by preference, can be found: with
    /// the first one present, and the arguments for that toolchain. A
    /// language that is not compiled runs from the source itself; a compiled
    /// one with no compiler present fails.
    pub fn plan_build(&self, source_file: &str, language: Language, present: &Vec<bool>) -> (r:
        Result<BuildPlan, JudgeError>)
        requires
            present@.len() == compiler_candidates(language).len(),
        ensures
            r is Ok <==> (!language.needs_compile() || exists|j: int|
                0 <= j < present@.len() && present@[j]),
            match r {
                Ok(plan) => {
                    &&& is_build_plan(plan, source_file@, language)
                    &&& language.needs_compile() ==> exists|k: usize|
                        is_first_available(present@, Some(k)) && plan.compile->0.program@
                            == compiler_candidates(language)[k as int]
                },
                Err(e) => e is ToolchainNotFound,
            },
    {
        if !language.is_compiled() {
            return Ok(
                BuildPlan { compile: None, artifact: String::from_str(source_file), language },
            );
        }
        let names = Self::compiler_names(language);
        let compiler = match first_available(present) {
            Some(k) => {
                assert(strs_view(names@)[k as int] == names@[k as int]@);
                String::from_str(names[k])
            },
            None => {
                let mut msg = String::from_str(language.display_name());
                msg.append(" compiler not found");
                return Err(JudgeError::ToolchainNotFound(msg));
            },
        };
        let artifact = Self::artifact_for(source_file, language);
        let args = match language {
            Language::Cpp => vec![source_file, "-o", artifact.as_str(), "-O2", "-std=c++17", "-Wall"],
            Language::C => vec![source_file, "-o", artifact.as_str(), "-O2", "-std=c11", "-Wall"],
            Language::Rust => vec![source_file, "-o", artifact.as_str(), "-O"],
            _ => vec![source_file],
        };
        let args = strings_of(&args);
        proof {
            let expected = compile_args(language, source_file@, artifact@);
            assert(strings_view(args@) =~= expected);
        }
        Ok(
            BuildPlan {
                compile: Some(CommandLine { program: compiler, args, current_dir: None }),
                artifact,
                language,
            },
        )
    }

    /// What came of a compilation: the artifact when the compiler exited with
    /// code zero, otherwise why not.
    pub fn compile_result(&self, build: &BuildPlan, outcome: &ProcessOutcome) -> (r: Result<
        Artifact,
        JudgeError,
    >)
        ensures
            compile_succeeds(*outcome) ==> (r matches Ok(a) && a.path@ == build.artifact@
                && a.language == build.language),
            !compile_succeeds(*outcome) ==> (r matches Err(e) && is_compile_error(*outcome, e)),
    {
        match outcome {
            ProcessOutcome::Exited { code, stdout: _, stderr } => {
                if matches!(code, Some(0i32)) {
                    Ok(Artifact { path: build.artifact.clone(), language: build.language })
                } else {
                    Err(JudgeError::CompilationFailed(stderr.clone()))
                }
            },
            ProcessOutcome::TimedOut => Err(
                JudgeError::CompilationFailed(String::from_str("Compilation timed out")),
            ),
            ProcessOutcome::Cancelled => Err(JudgeError::Cancelled),
            ProcessOutcome::StartFailed { reason } => Err(
                JudgeError::ToolchainNotFound(reason.clone()),
            ),
        }
    }

    /// How to start `artifact`: through the interpreter or the virtual machine
    /// its language needs, or directly. `None` when a class name cannot be
    /// read from the path.
    pub fn run_command(&self, artifact: &Artifact) -> (r: Option<CommandLine>)
        ensures
            is_run_command(self.work_dir@, artifact.path@, artifact.language, r),
    {
        match artifact.language {
            Language::Python => {
                let args = vec![artifact.path.clone()];
                assert(strings_view(args@) =~= seq![artifact.path@]);
                Some(
                    CommandLine {
                        program: String::from_str("python"),
                        args,
                        current_dir: Some(self.work_dir.clone()),
                    },
                )
            },
            Language::Java => {
                let stem = match file_stem(artifact.path.as_str()) {
                    Some(s) => s,
                    None => {
                        return None;
                    },
                };
                let dir = match parent_dir(artifact.path.as_str()) {
                    Some(p) => if p.unicode_len() > 0 {
                        p
                    } else {
                        self.work_dir.clone()
                    },
                    None => self.work_dir.clone(),
                };
                let ghost stem_view = stem@;
                let args = vec![stem];
                assert(strings_view(args@) =~= seq![stem_view]);
                Some(
                    CommandLine { program: String::from_str("java"), args, current_dir: Some(dir) },
                )
            },
            _ => {
                let args: Vec<String> = Vec::new();
                assert(strings_view(args@) =~= Seq::<Seq<char>>::empty());
                Some(
                    CommandLine {
                        program: artifact.path.clone(),
                        args,
                        current_dir: Some(self.work_dir.clone()),
                    },
                )
            },
        }
    }

    /// The execution result of one run of a program, from the report of the
    /// process: a cancellation, a failed start, a timeout (the time limit was
    /// passed, whether or not the program ended by itself), or a completed
    /// run whose standard output, exit code and standard error are kept.
    pub fn execute(&self, report: &ProcessReport, time_limit_ms: u64) -> (r: ExecutionResult)
        ensures
            is_execution_result(*report, time_limit_ms, r),
    {
        let elapsed = report.elapsed_ms;
        let memory_used = report.memory_used;
        match &report.outcome {
            ProcessOutcome::Cancelled => halted(
                RunEnd::Cancelled,
                String::from_str("Run interrupted by user"),
                elapsed,
                memory_used,
            ),
            ProcessOutcome::StartFailed { reason } => {
                let msg = String::from_str("Cannot start program: ").concat(reason.as_str());
                halted(RunEnd::StartFailed, msg, elapsed, memory_used)
            },
            ProcessOutcome::TimedOut => halted(
                RunEnd::TimedOut,
                String::from_str("Timeout"),
                elapsed,
                memory_used,
            ),
            ProcessOutcome::Exited { code, stdout, stderr } => {
                if elapsed > time_limit_ms {
                    halted(RunEnd::TimedOut, String::from_str("Timeout"), elapsed, memory_used)
                } else {
                    let exit_code = match code {
                        Some(c) => *c,
                        None => -1i32,
                    };
                    let error = if stderr.unicode_len() == 0 {
                        None
                    } else {
                        Some(stderr.clone())
                    };
                    ExecutionResult {
                        output: stdout.clone(),
                        exit_code,
                        execution_time: elapsed,
                        memory_used,
                        error,
                        end: RunEnd::Completed,
                    }
                }
            },
        }
    }
}

/// `r` is what a run that ended as `report` says, under `time_limit_ms`.
pub open spec fn is_execution_result(report: ProcessReport, time_limit_ms: u64, r: ExecutionResult) -> bool {
    &&& r.execution_time == report.elapsed_ms
    &&& r.memory_used == report.memory_used
    &&& match report.outcome {
        ProcessOutcome::Cancelled => spec_is_halted(r, RunEnd::Cancelled, interrupted_text()),
        ProcessOutcome::StartFailed { reason } => spec_is_halted(
            r,
            RunEnd::StartFailed,
            start_failed_text(reason@),
        ),
        ProcessOutcome::TimedOut => spec_is_halted(r, RunEnd::TimedOut, timeout_text()),
        ProcessOutcome::Exited { code, stdout, stderr } => if report.elapsed_ms
            > time_limit_ms {
            spec_is_halted(r, RunEnd::TimedOut, timeout_text())
        } else {
            &&& r.end == RunEnd::Completed
            &&& r.output@ == stdout@
            &&& r.exit_code == match code {
                Some(c) => c,
                None => -1i32,
            }
            &&& if stderr@.len() == 0 {
                r.error is None
            } else {
                r.error matches Some(e) && e@ == stderr@
            }
        },
    }
}

/// A run that did not complete: no output, exit code -1, and `message` as its error.
pub open spec fn spec_is_halted(r: ExecutionResult, end: RunEnd, message: Seq<char>) -> bool {
    &&& r.end == end
    &&& r.output@.len() == 0
    &&& r.exit_code == -1
    &&& r.error matches Some(e) && e@ == message
}

fn halted(end: RunEnd, message: String, elapsed: u64, memory_used: Option<u64>) -> (r:
    ExecutionResult)
    ensures
        spec_is_halted(r, end, message@),
        r.execution_time == elapsed,
        r.memory_used == memory_used,
{
    ExecutionResult {
        output: String::new(),
        exit_code: -1,
        execution_time: elapsed,
        memory_used,
        error: Some(message),
        end,
    }
}

/// What to do with a running process at one look.
#[derive(Clone, Copy, Debug, PartialEq, Eq, Structural)]
pub enum PollAction {
    /// It has exited: collect its output.
    Collect,
    /// Cancellation was requested: stop it.
    StopCancelled,
    /// The time limit has passed: stop it.
    StopTimedOut,
    /// Look again after the poll interval.
    Wait,
}

/// The decision at one look at a running process: an exit is collected;
/// otherwise a requested cancellation stops it, then a passed time limit
/// (`None`: no limit); otherwise it is left running.
pub fn poll_action(exited: bool, cancelled: bool, elapsed_ms: u64, limit_ms: Option<u64>) -> (r:
    PollAction)
    ensures
        r == if exited {
            PollAction::Collect
        } else if cancelled {
            PollAction::StopCancelled
        } else if limit_ms matches Some(l) && elapsed_ms > l {
            PollAction::StopTimedOut
        } else {
            PollAction::Wait
        },
{
    if exited {
        PollAction::Collect
    } else if cancelled {
        PollAction::StopCancelled
    } else {
        match limit_ms {
            Some(l) => if elapsed_ms > l {
                PollAction::StopTimedOut
            } else {
                PollAction::Wait
            },
            None => PollAction::Wait,
        }
    }
}

} // verus!
