//! The data the judge works on: test cases, their status, problems and the
//! result of one run of a program.
use vstd::prelude::*;

verus! {

/// Relies on `uuid::Uuid::new_v4`: a fresh random identifier, as its 128-bit value.
#[verifier::external_body]
fn fresh_id() -> (r: u128) {
    uuid::Uuid::new_v4().as_u128()
}

/// Relies on `chrono::Utc::now`: the current time, in milliseconds since the Unix epoch.
#[verifier::external_body]
fn now_millis() -> (r: i64) {
    chrono::Utc::now().timestamp_millis()
}

/// Where a test case stands. `Pending` is the initial state, `Running` marks a
/// run in flight, and every other status ends a run.
#[derive(Clone, Copy, Debug, PartialEq, Eq, Structural)]
pub enum TestStatus {
    Pending,
    Running,
    Accepted,
    WrongAnswer,
    RuntimeError,
    TimeLimitExceeded,
    MemoryLimitExceeded,
    CompilationError,
}

impl TestStatus {
    /// A status that ends a run.
    pub open spec fn is_terminal(self) -> bool {
        !(self is Pending || self is Running)
    }

    pub open spec fn spec_icon(self) -> Seq<char> {
        match self {
            TestStatus::Pending => "⏳"@,
            TestStatus::Running => "▶"@,
            TestStatus::Accepted => "✓"@,
            TestStatus::WrongAnswer => "✗"@,
            TestStatus::RuntimeError => "⚠"@,
            TestStatus::TimeLimitExceeded => "⏱"@,
            TestStatus::MemoryLimitExceeded => "💾"@,
            TestStatus::CompilationError => "🔨"@,
        }
    }

    pub open spec fn spec_text(self) -> Seq<char> {
        match self {
            TestStatus::Pending => "Pending"@,
            TestStatus::Running => "Running"@,
            TestStatus::Accepted => "Accepted"@,
            TestStatus::WrongAnswer => "Wrong Answer"@,
            TestStatus::RuntimeError => "Runtime Error"@,
            TestStatus::TimeLimitExceeded => "Time Limit Exceeded"@,
            TestStatus::MemoryLimitExceeded => "Memory Limit Exceeded"@,
            TestStatus::CompilationError => "Compilation Error"@,
        }
    }

    /// A one-character symbol for the status.
    pub fn icon(&self) -> (r: &str)
        ensures
            r@ == self.spec_icon(),
    {
        match self {
            TestStatus::Pending => "⏳",
            TestStatus::Running => "▶",
            TestStatus::Accepted => "✓",
            TestStatus::WrongAnswer => "✗",
            TestStatus::RuntimeError => "⚠",
            TestStatus::TimeLimitExceeded => "⏱",
            TestStatus::MemoryLimitExceeded => "💾",
            TestStatus::CompilationError => "🔨",
        }
    }

    /// The status in words.
    pub fn text(&self) -> (r: &str)
        ensures
            r@ == self.spec_text(),
    {
        match self {
            TestStatus::Pending => "Pending",
            TestStatus::Running => "Running",
            TestStatus::Accepted => "Accepted",
            TestStatus::WrongAnswer => "Wrong Answer",
            TestStatus::RuntimeError => "Runtime Error",
            TestStatus::TimeLimitExceeded => "Time Limit Exceeded",
            TestStatus::MemoryLimitExceeded => "Memory Limit Exceeded",
            TestStatus::CompilationError => "Compilation Error",
        }
    }
}

/// A language that solutions can be written in.
#[derive(Clone, Copy, Debug, PartialEq, Eq, Structural)]
pub enum Language {
    Cpp,
    Rust,
    Python,
    Java,
    C,
}

impl Language {
    pub open spec fn spec_file_extension(self) -> Seq<char> {
        match self {
            Language::Cpp => "cpp"@,
            Language::Rust => "rs"@,
            Language::Python => "py"@,
            Language::Java => "java"@,
            Language::C => "c"@,
        }
    }

    pub open spec fn spec_display_name(self) -> Seq<char> {
        match self {
            Language::Cpp => "C++"@,
            Language::Rust => "Rust"@,
            Language::Python => "Python"@,
            Language::Java => "Java"@,
            Language::C => "C"@,
        }
    }

    /// Whether a source file must be compiled before it can run.
    pub open spec fn needs_compile(self) -> bool {
        !(self is Python)
    }

    /// Whether a source file must be compiled before it can run.
    pub fn is_compiled(&self) -> (r: bool)
        ensures
            r == self.needs_compile(),
    {
        !matches!(self, Language::Python)
    }

    /// The usual extension of a source file, without the dot.
    pub fn file_extension(&self) -> (r: &str)
        ensures
            r@ == self.spec_file_extension(),
    {
        match self {
            Language::Cpp => "cpp",
            Language::Rust => "rs",
            Language::Python => "py",
            Language::Java => "java",
            Language::C => "c",
        }
    }

    /// The name shown to users.
    pub fn display_name(&self) -> (r: &str)
        ensures
            r@ == self.spec_display_name(),
    {
        match self {
            Language::Cpp => "C++",
            Language::Rust => "Rust",
            Language::Python => "Python",
            Language::Java => "Java",
            Language::C => "C",
        }
    }

    /// Every language, in the order offered to users.
    pub fn all() -> (r: Vec<Language>)
        ensures
            r@ == seq![Language::Cpp, Language::Rust, Language::Python, Language::Java, Language::C],
    {
        let r = vec![Language::Cpp, Language::Rust, Language::Python, Language::Java, Language::C];
        assert(r@ =~= seq![Language::Cpp, Language::Rust, Language::Python, Language::Java, Language::C]);
        r
    }
}

/// One sample input with its expected output, and what the last run left.
#[derive(Clone, Debug)]
pub struct TestCase {
    /// Fixed at creation, never reassigned.
    pub id: u128,
    pub input: String,
    pub expected_output: String,
    pub actual_output: Option<String>,
    pub status: TestStatus,
    /// Wall-clock time of the last run, in milliseconds.
    pub execution_time: Option<u64>,
    /// Peak memory of the last run, in kilobytes, where it is known.
    pub memory_used: Option<u64>,
    pub error_message: Option<String>,
}

impl TestCase {
    /// No result of a run is recorded.
    pub open spec fn is_clear(&self) -> bool {
        &&& self.actual_output is None
        &&& self.execution_time is None
        &&& self.memory_used is None
        &&& self.error_message is None
    }

    /// A pending test case carries no result of a run.
    pub open spec fn wf(&self) -> bool {
        self.status == TestStatus::Pending ==> self.is_clear()
    }

    /// Identity, input and expected output agree.
    pub open spec fn same_case(&self, other: &TestCase) -> bool {
        &&& self.id == other.id
        &&& self.input@ == other.input@
        &&& self.expected_output@ == other.expected_output@
    }

    /// A new pending test case with a fresh identifier.
    pub fn new(input: String, expected_output: String) -> (r: TestCase)
        ensures
            r.input@ == input@,
            r.expected_output@ == expected_output@,
            r.status == TestStatus::Pending,
            r.is_clear(),
            r.wf(),
    {
        TestCase {
            id: fresh_id(),
            input,
            expected_output,
            actual_output: None,
            status: TestStatus::Pending,
            execution_time: None,
            memory_used: None,
            error_message: None,
        }
    }

    /// Back to `Pending` with no result recorded; identity, input and expected
    /// output are kept.
    pub fn reset(&mut self)
        ensures
            final(self).same_case(old(self)),
            final(self).status == TestStatus::Pending,
            final(self).is_clear(),
            final(self).wf(),
    {
        self.actual_output = None;
        self.status = TestStatus::Pending;
        self.execution_time = None;
        self.memory_used = None;
        self.error_message = None;
    }
}

/// A problem: its statement's limits and its sample tests.
#[derive(Clone, Debug)]
pub struct Problem {
    pub id: u128,
    pub name: String,
    pub group: String,
    pub url: String,
    pub interactive: bool,
    /// In megabytes.
    pub memory_limit: u64,
    /// In milliseconds.
    pub time_limit: u64,
    pub tests: Vec<TestCase>,
    pub source_file: Option<String>,
    pub language: Language,
    /// Milliseconds since the Unix epoch.
    pub created_at: i64,
    pub last_run: Option<i64>,
}

pub const DEFAULT_MEMORY_LIMIT_MB: u64 = 256;

pub const DEFAULT_TIME_LIMIT_MS: u64 = 2000;

impl Problem {
    /// A problem with no tests, the default limits and C++ as its language.
    pub fn new(name: String, group: String, url: String) -> (r: Problem)
        ensures
            r.name@ == name@,
            r.group@ == group@,
            r.url@ == url@,
            !r.interactive,
            r.memory_limit == DEFAULT_MEMORY_LIMIT_MB,
            r.time_limit == DEFAULT_TIME_LIMIT_MS,
            r.tests@.len() == 0,
            r.source_file is None,
            r.language == Language::Cpp,
            r.last_run is None,
    {
        Problem {
            id: fresh_id(),
            name,
            group,
            url,
            interactive: false,
            memory_limit: DEFAULT_MEMORY_LIMIT_MB,
            time_limit: DEFAULT_TIME_LIMIT_MS,
            tests: Vec::new(),
            source_file: None,
            language: Language::Cpp,
            created_at: now_millis(),
            last_run: None,
        }
    }

    /// Appends a new pending test case.
    pub fn add_test(&mut self, input: String, output: String)
        ensures
            final(self).tests@.len() == old(self).tests@.len() + 1,
            final(self).tests@.drop_last() == old(self).tests@,
            final(self).tests@.last().input@ == input@,
            final(self).tests@.last().expected_output@ == output@,
            final(self).tests@.last().status == TestStatus::Pending,
            final(self).tests@.last().is_clear(),
            final(self).id == old(self).id,
            final(self).name == old(self).name,
            final(self).group == old(self).group,
            final(self).url == old(self).url,
            final(self).interactive == old(self).interactive,
            final(self).memory_limit == old(self).memory_limit,
            final(self).time_limit == old(self).time_limit,
            final(self).source_file == old(self).source_file,
            final(self).language == old(self).language,
            final(self).created_at == old(self).created_at,
            final(self).last_run == old(self).last_run,
    {
        let t = TestCase::new(input, output);
        self.tests.push(t);
        assert(self.tests@.drop_last() =~= old(self).tests@);
    }

    /// A problem as a browser extension describes it: its name, limits and tests.
    pub fn from_companion(data: CompetitiveCompanionData) -> (r: Problem)
        ensures
            r.name@ == data.name@,
            r.group@ == data.group@,
            r.url@ == data.url@,
            r.interactive == data.interactive,
            r.memory_limit == data.memory_limit,
            r.time_limit == data.time_limit,
            r.tests@.len() == data.tests@.len(),
            forall|i: int|
                0 <= i < r.tests@.len() ==> {
                    &&& (#[trigger] r.tests@[i]).input@ == data.tests@[i].input@
                    &&& r.tests@[i].expected_output@ == data.tests@[i].output@
                    &&& r.tests@[i].status == TestStatus::Pending
                    &&& r.tests@[i].is_clear()
                },
            r.source_file is None,
            r.language == Language::Cpp,
            r.last_run is None,
    {
        let CompetitiveCompanionData { name, group, url, interactive, memory_limit, time_limit, tests } =
            data;
        let mut problem = Problem::new(name, group, url);
        problem.interactive = interactive;
        problem.memory_limit = memory_limit;
        problem.time_limit = time_limit;
        let mut i: usize = 0;
        while i < tests.len()
            invariant
                i <= tests@.len(),
                problem.tests@.len() == i,
                problem.name@ == data.name@,
                problem.group@ == data.group@,
                problem.url@ == data.url@,
                problem.interactive == data.interactive,
                problem.memory_limit == data.memory_limit,
                problem.time_limit == data.time_limit,
                problem.source_file is None,
                problem.language == Language::Cpp,
                problem.last_run is None,
                tests@ == data.tests@,
                forall|j: int|
                    0 <= j < i ==> {
                        &&& (#[trigger] problem.tests@[j]).input@ == tests@[j].input@
                        &&& problem.tests@[j].expected_output@ == tests@[j].output@
                        &&& problem.tests@[j].status == TestStatus::Pending
                        &&& problem.tests@[j].is_clear()
                    },
            decreases tests@.len() - i,
        {
            let input = tests[i].input.clone();
            let output = tests[i].output.clone();
            let ghost before = problem.tests@;
            problem.add_test(input, output);
            assert forall|j: int| 0 <= j < i implies #[trigger] problem.tests@[j] == before[j] by {
                assert(problem.tests@.drop_last()[j] == problem.tests@[j]);
            }
            i = i + 1;
        }
        problem
    }
}

/// A problem as sent by the Competitive Companion browser extension.
#[derive(Clone, Debug)]
pub struct CompetitiveCompanionData {
    pub name: String,
    pub group: String,
    pub url: String,
    pub interactive: bool,
    /// In megabytes.
    pub memory_limit: u64,
    /// In milliseconds.
    pub time_limit: u64,
    pub tests: Vec<CompetitiveCompanionTest>,
}

/// One sample test as sent by the browser extension.
#[derive(Clone, Debug)]
pub struct CompetitiveCompanionTest {
    pub input: String,
    pub output: String,
}

/// How a run of a program ended.
#[derive(Clone, Copy, Debug, PartialEq, Eq, Structural)]
pub enum RunEnd {
    /// The program exited by itself within the time limit.
    Completed,
    /// The time limit passed; the program was stopped.
    TimedOut,
    /// The run was cancelled on request.
    Cancelled,
    /// The program could not be started.
    StartFailed,
}

/// What one run of a program produced.
#[derive(Clone, Debug)]
pub struct ExecutionResult {
    pub output: String,
    pub exit_code: i32,
    /// Wall-clock time, in milliseconds.
    pub execution_time: u64,
    pub memory_used: Option<u64>,
    /// Set on a timeout, a cancellation or a failed start, and to the
    /// program's standard error when that is not empty.
    pub error: Option<String>,
    pub end: RunEnd,
}

impl ExecutionResult {
    /// Exit code zero and no error.
    pub fn is_success(&self) -> (r: bool)
        ensures
            r == (self.exit_code == 0 && self.error is None),
    {
        self.exit_code == 0 && self.error.is_none()
    }
}

/// Why a judging step could not go on.
#[derive(Clone, Debug, PartialEq, Eq)]
pub enum JudgeError {
    /// No compiler for the language could be found or started.
    ToolchainNotFound(String),
    /// The compiler rejected the source; its diagnostics.
    CompilationFailed(String),
    /// Cancelled on request.
    Cancelled,
    /// No compiled program is at hand.
    NoArtifact,
}

pub open spec fn interrupted_text() -> Seq<char> {
    "Run interrupted by user"@
}

pub open spec fn no_artifact_text() -> Seq<char> {
    "No compiled executable found"@
}

impl JudgeError {
    pub open spec fn spec_message(&self) -> Seq<char> {
        match self {
            JudgeError::ToolchainNotFound(m) => m@,
            JudgeError::CompilationFailed(m) => m@,
            JudgeError::Cancelled => interrupted_text(),
            JudgeError::NoArtifact => no_artifact_text(),
        }
    }

    /// The error in words.
    pub fn message(&self) -> (r: String)
        ensures
            r@ == self.spec_message(),
    {
        match self {
            JudgeError::ToolchainNotFound(m) => m.clone(),
            JudgeError::CompilationFailed(m) => m.clone(),
            JudgeError::Cancelled => String::from_str("Run interrupted by user"),
            JudgeError::NoArtifact => String::from_str("No compiled executable found"),
        }
    }
}

} // verus!
