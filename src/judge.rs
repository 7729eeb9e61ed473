//! The judge: drives each test case through its states, one step per call.
//! The caller starts the processes that a step hands out and brings back
//! what became of them; every decision is taken here.
use crate::executor::{
    Artifact, BuildPlan, CommandLine, Executor, ProcessOutcome, ProcessReport, compile_succeeds,
    is_build_plan, is_compile_error, is_execution_result, is_run_command,
};
use crate::models::{
    ExecutionResult, JudgeError, Language, RunEnd, TestCase, TestStatus, interrupted_text,
    no_artifact_text,
};
use crate::output::{compare_output, outputs_match};
use crate::text::{decimal, decimal_string};
use vstd::prelude::*;

verus! {

pub open spec fn opt_view(o: Option<String>) -> Option<Seq<char>> {
    match o {
        Some(s) => Some(s@),
        None => None,
    }
}

/// The message of a program that exited with a code other than zero.
pub open spec fn exit_text(code: i32) -> Seq<char> {
    "Program exited abnormally, exit code: "@ + decimal(code as int)
}

/// The message of a test whose compilation failed with `e`.
pub open spec fn compile_failure_text(e: JudgeError) -> Seq<char> {
    "Compilation failed: "@ + e.spec_message()
}

/// The message of a test whose Java class name cannot be read from the path
/// of the compiled class.
pub open spec fn no_class_text() -> Seq<char> {
    "Invalid Java class name"@
}

/// The status that a run ending in `result` earns against `expected`: a
/// timeout is `TimeLimitExceeded`; a cancellation, a failed start or an exit
/// code other than zero is `RuntimeError`; otherwise the comparator decides.
pub open spec fn verdict(result: ExecutionResult, expected: Seq<char>) -> TestStatus {
    match result.end {
        RunEnd::TimedOut => TestStatus::TimeLimitExceeded,
        RunEnd::Cancelled => TestStatus::RuntimeError,
        RunEnd::StartFailed => TestStatus::RuntimeError,
        RunEnd::Completed => if result.exit_code != 0 {
            TestStatus::RuntimeError
        } else if outputs_match(expected, result.output@) {
            TestStatus::Accepted
        } else {
            TestStatus::WrongAnswer
        },
    }
}

/// The message recorded with that status: the exit code where it was not
/// zero, else the run's own error, which may be the program's standard error.
pub open spec fn verdict_message(result: ExecutionResult) -> Option<Seq<char>> {
    if result.end == RunEnd::Completed && result.exit_code != 0 {
        Some(exit_text(result.exit_code))
    } else {
        opt_view(result.error)
    }
}

/// `t` is `before` with `result` recorded.
pub open spec fn is_judged(t: TestCase, before: TestCase, result: ExecutionResult) -> bool {
    &&& t.same_case(&before)
    &&& t.status == verdict(result, before.expected_output@)
    &&& opt_view(t.actual_output) == Some(result.output@)
    &&& t.execution_time == Some(result.execution_time)
    &&& t.memory_used == result.memory_used
    &&& opt_view(t.error_message) == verdict_message(result)
}

/// `t` is `before`, cleared and then ended with `status` and `message`.
pub open spec fn is_ended(t: TestCase, before: TestCase, status: TestStatus, message: Seq<char>) -> bool {
    &&& t.same_case(&before)
    &&& t.status == status
    &&& t.actual_output is None
    &&& t.execution_time is None
    &&& t.memory_used is None
    &&& opt_view(t.error_message) == Some(message)
}

/// `t` is `before`, cleared and marked as interrupted on request.
pub open spec fn is_interrupted(t: TestCase, before: TestCase) -> bool {
    is_ended(t, before, TestStatus::RuntimeError, interrupted_text())
}

/// `t` is `before`, cleared and in flight.
pub open spec fn is_running(t: TestCase, before: TestCase) -> bool {
    &&& t.same_case(&before)
    &&& t.status == TestStatus::Running
    &&& t.is_clear()
}

/// The path that cleaning up `compiled` removes: a compiled program, never a
/// source file that runs as it is.
pub open spec fn removable(compiled: Option<Artifact>) -> Option<Seq<char>> {
    match compiled {
        Some(a) => if a.language.needs_compile() {
            Some(a.path@)
        } else {
            None
        },
        None => None,
    }
}

/// What `compile_once` hands out: a compiled program to remove before the
/// compiler runs, and how to build.
#[derive(Clone, Debug)]
pub struct CompileStep {
    pub stale: Option<String>,
    pub build: BuildPlan,
}

fn end_test(test: &mut TestCase, status: TestStatus, message: String)
    ensures
        is_ended(*final(test), *old(test), status, message@),
{
    test.reset();
    test.status = status;
    test.error_message = Some(message);
}

/// A copy of `t`, cleared and then ended with `status` and `message`.
fn ended_copy(t: &TestCase, status: TestStatus, message: String) -> (r: TestCase)
    ensures
        is_ended(r, *t, status, message@),
{
    TestCase {
        id: t.id,
        input: t.input.clone(),
        expected_output: t.expected_output.clone(),
        actual_output: None,
        status,
        execution_time: None,
        memory_used: None,
        error_message: Some(message),
    }
}

fn copy_case(t: &TestCase) -> (r: TestCase)
    ensures
        r == *t,
{
    TestCase {
        id: t.id,
        input: t.input.clone(),
        expected_output: t.expected_output.clone(),
        actual_output: match &t.actual_output {
            Some(o) => Some(o.clone()),
            None => None,
        },
        status: t.status,
        execution_time: t.execution_time,
        memory_used: t.memory_used,
        error_message: match &t.error_message {
            Some(m) => Some(m.clone()),
            None => None,
        },
    }
}

fn interrupt(test: &mut TestCase)
    ensures
        is_interrupted(*final(test), *old(test)),
        final(test).wf(),
{
    end_test(test, TestStatus::RuntimeError, JudgeError::Cancelled.message());
}

fn compile_failure_message(e: &JudgeError) -> (r: String)
    ensures
        r@ == compile_failure_text(*e),
{
    String::from_str("Compilation failed: ").concat(e.message().as_str())
}

/// Holds at most one compiled program, and judges test cases against it or
/// against a fresh compilation.
#[derive(Clone, Debug)]
pub struct Judge {
    pub executor: Executor,
    /// The program that `run_test` runs.
    pub compiled: Option<Artifact>,
    /// In milliseconds.
    pub time_limit_ms: u64,
}

/// What the caller does next for a batch judged against one compilation.
#[derive(Clone, Debug)]
pub enum BatchAction {
    /// Run the compiler of the build, then report with `batch_compiled`.
    Compile(BuildPlan),
    /// Run the command on the input of test `index` under the time limit,
    /// then report with `batch_ran`.
    Run(usize, CommandLine),
    /// Every test has ended: remove the compiled program, if any is named,
    /// and take the counts.
    Finished { remove: Option<String>, stats: JudgeStatistics },
}

/// How a batch starts: a compiled program to remove first, and the first action.
#[derive(Clone, Debug)]
pub struct BatchStart {
    pub stale: Option<String>,
    pub action: BatchAction,
}

/// `tests` is `before` with the tests from `from` to `to` left as `run_test`
/// leaves a test that it hands no command out for, and the others unchanged.
pub open spec fn skipped(
    tests: Seq<TestCase>,
    before: Seq<TestCase>,
    from: int,
    to: int,
    cancelled: bool,
) -> bool {
    &&& tests.len() == before.len()
    &&& forall|j: int| 0 <= j < tests.len() && !(from <= j < to) ==> tests[j] == before[j]
    &&& forall|j: int|
        from <= j < to ==> if cancelled {
            is_interrupted(#[trigger] tests[j], before[j])
        } else {
            is_ended(#[trigger] tests[j], before[j], TestStatus::RuntimeError, no_class_text())
        }
}

/// How a batch goes on from test `from` against the program at `path`:
/// `r` hands out the first test from there that has a command to run, now
/// `Running`, the tests before it having none and being ended; or, with no
/// such test left, the batch is over, the program released and the counts
/// taken.
pub open spec fn continues(
    work_dir: Seq<char>,
    path: Seq<char>,
    language: Language,
    compiled_after: Option<Artifact>,
    tests: Seq<TestCase>,
    before: Seq<TestCase>,
    from: int,
    cancelled: bool,
    r: BatchAction,
) -> bool {
    match r {
        BatchAction::Run(i, c) => {
            &&& from <= i < tests.len()
            &&& !cancelled
            &&& skipped(tests.update(i as int, before[i as int]), before, from, i as int, cancelled)
            &&& is_running(tests[i as int], before[i as int])
            &&& is_run_command(work_dir, path, language, Some(c))
            &&& compiled_after matches Some(a) && a.path@ == path && a.language == language
        },
        BatchAction::Finished { remove, stats } => {
            &&& skipped(tests, before, from, before.len() as int, cancelled)
            &&& compiled_after is None
            &&& opt_view(remove) == if language.needs_compile() {
                Some(path)
            } else {
                None
            }
            &&& stats.counts(tests)
        },
        BatchAction::Compile(_) => false,
    }
}

impl Judge {
    pub fn new(executor: Executor, time_limit_ms: u64) -> (r: Judge)
        ensures
            r.executor == executor,
            r.compiled is None,
            r.time_limit_ms == time_limit_ms,
    {
        Judge { executor, compiled: None, time_limit_ms }
    }

    /// Forgets the compiled program, handing back the path to remove.
    /// Safe to call with nothing compiled.
    pub fn cleanup(&mut self) -> (r: Option<String>)
        ensures
            final(self).compiled is None,
            final(self).executor == old(self).executor,
            final(self).time_limit_ms == old(self).time_limit_ms,
            opt_view(r) == removable(old(self).compiled),
    {
        let r = match &self.compiled {
            Some(a) => if a.language.is_compiled() {
                Some(a.path.clone())
            } else {
                None
            },
            None => None,
        };
        self.compiled = None;
        r
    }

    /// First step of compiling once for many runs. Nothing happens when
    /// cancellation was requested, or when no compiler is found. Otherwise the
    /// compiled program held so far is released (`stale`, to be removed before
    /// the compiler runs) and the build is handed out; a language that is not
    /// compiled is ready at once.
    pub fn compile_once(
        &mut self,
        source_file: &str,
        language: Language,
        cancelled: bool,
    ) -> (r: Result<CompileStep, JudgeError>)
        ensures
            cancelled ==> r == Err::<CompileStep, JudgeError>(JudgeError::Cancelled) && *final(self)
                == *old(self),
            !cancelled ==> match r {
                Ok(step) => {
                    &&& is_build_plan(step.build, source_file@, language)
                    &&& opt_view(step.stale) == removable(old(self).compiled)
                    &&& final(self).executor == old(self).executor
                    &&& final(self).time_limit_ms == old(self).time_limit_ms
                    &&& if step.build.compile is None {
                        final(self).compiled matches Some(a) && a.path@ == source_file@
                            && a.language == language
                    } else {
                        final(self).compiled is None
                    }
                },
                Err(e) => language.needs_compile() && e is ToolchainNotFound && *final(self)
                    == *old(self),
            },
    {
        if cancelled {
            return Err(JudgeError::Cancelled);
        }
        let build = match self.executor.compile(source_file, language) {
            Ok(b) => b,
            Err(e) => {
                return Err(e);
            },
        };
        let stale = self.cleanup();
        if build.compile.is_none() {
            self.compiled = Some(Artifact { path: build.artifact.clone(), language });
        }
        Ok(CompileStep { stale, build })
    }

    /// Second step of compiling once: records the compiled program when the
    /// compiler succeeded, otherwise says why it did not.
    pub fn finish_compile(&mut self, build: &BuildPlan, outcome: &ProcessOutcome) -> (r: Result<
        (),
        JudgeError,
    >)
        ensures
            final(self).executor == old(self).executor,
            final(self).time_limit_ms == old(self).time_limit_ms,
            compile_succeeds(*outcome) ==> (r is Ok && (final(self).compiled matches Some(a)
                && a.path@ == build.artifact@ && a.language == build.language)),
            !compile_succeeds(*outcome) ==> ((r matches Err(e) && is_compile_error(*outcome, e))
                && final(self).compiled == old(self).compiled),
    {
        match self.executor.compile_result(build, outcome) {
            Ok(a) => {
                self.compiled = Some(a);
                Ok(())
            },
            Err(e) => Err(e),
        }
    }

    /// First step of running one test against the compiled program. When
    /// cancellation was requested the test is interrupted and no process is
    /// handed out. With no compiled program the test ends in `RuntimeError`
    /// and the error is returned. Else the test is reset and marked
    /// `Running`, and the command to start is handed out; where none can be
    /// formed the test ends in `RuntimeError`.
    pub fn run_test(&self, test: &mut TestCase, cancelled: bool) -> (r: Result<
        Option<CommandLine>,
        JudgeError,
    >)
        ensures
            cancelled ==> r == Ok::<Option<CommandLine>, JudgeError>(None) && is_interrupted(
                *final(test),
                *old(test),
            ),
            self.compiled is None && !cancelled ==> r == Err::<Option<CommandLine>, JudgeError>(
                JudgeError::NoArtifact,
            ) && is_ended(*final(test), *old(test), TestStatus::RuntimeError, no_artifact_text()),
            self.compiled is Some && !cancelled ==> (r matches Ok(c) && is_run_command(
                self.executor.work_dir@,
                self.compiled->0.path@,
                self.compiled->0.language,
                c,
            ) && if c is Some {
                is_running(*final(test), *old(test))
            } else {
                is_ended(*final(test), *old(test), TestStatus::RuntimeError, no_class_text())
            }),
    {
        if cancelled {
            interrupt(test);
            return Ok(None);
        }
        let artifact = match &self.compiled {
            Some(a) => a,
            None => {
                end_test(test, TestStatus::RuntimeError, JudgeError::NoArtifact.message());
                return Err(JudgeError::NoArtifact);
            },
        };
        Ok(self.start(test, artifact))
    }

    fn start(&self, test: &mut TestCase, artifact: &Artifact) -> (r: Option<CommandLine>)
        ensures
            is_run_command(self.executor.work_dir@, artifact.path@, artifact.language, r),
            r is Some ==> is_running(*final(test), *old(test)),
            r is None ==> is_ended(
                *final(test),
                *old(test),
                TestStatus::RuntimeError,
                no_class_text(),
            ),
    {
        let command = self.executor.run_command(artifact);
        if command.is_some() {
            test.reset();
            test.status = TestStatus::Running;
        } else {
            end_test(test, TestStatus::RuntimeError, String::from_str("Invalid Java class name"));
        }
        command
    }

    /// Last step of a run: reads the report of the process and records the
    /// verdict on the test, which always ends in a terminal status. A run
    /// that passed the time limit is `TimeLimitExceeded`.
    pub fn finish_test(&self, test: &mut TestCase, report: &ProcessReport) -> (r: ExecutionResult)
        ensures
            is_execution_result(*report, self.time_limit_ms, r),
            is_judged(*final(test), *old(test), r),
            final(test).status.is_terminal(),
            (report.outcome is TimedOut || (report.outcome is Exited && report.elapsed_ms
                > self.time_limit_ms)) ==> final(test).status == TestStatus::TimeLimitExceeded,
    {
        let result = self.executor.execute(report, self.time_limit_ms);
        self.update_test_from_result(test, &result);
        result
    }

    /// Records `result` on `test`: its output, time and memory, the verdict,
    /// and the message that goes with it.
    pub fn update_test_from_result(&self, test: &mut TestCase, result: &ExecutionResult)
        ensures
            is_judged(*final(test), *old(test), *result),
            final(test).status.is_terminal(),
    {
        test.execution_time = Some(result.execution_time);
        test.memory_used = result.memory_used;
        test.actual_output = Some(result.output.clone());
        match result.end {
            RunEnd::TimedOut => {
                test.status = TestStatus::TimeLimitExceeded;
                test.error_message = result.error.clone();
            },
            RunEnd::Cancelled | RunEnd::StartFailed => {
                test.status = TestStatus::RuntimeError;
                test.error_message = result.error.clone();
            },
            RunEnd::Completed => {
                if result.exit_code != 0 {
                    test.status = TestStatus::RuntimeError;
                    test.error_message = Some(
                        String::from_str("Program exited abnormally, exit code: ").concat(
                            decimal_string(result.exit_code).as_str(),
                        ),
                    );
                } else {
                    test.error_message = result.error.clone();
                    if compare_output(test.expected_output.as_str(), result.output.as_str()) {
                        test.status = TestStatus::Accepted;
                    } else {
                        test.status = TestStatus::WrongAnswer;
                    }
                }
            },
        }
    }

    /// First step of judging one test on a fresh compilation. When
    /// cancellation was requested the test is interrupted and nothing is
    /// handed out. Else the test is reset and marked `Running` and the build
    /// is handed out; where no compiler is found the test ends in
    /// `CompilationError` instead.
    pub fn judge_test(
        &self,
        source_file: &str,
        language: Language,
        test: &mut TestCase,
        cancelled: bool,
    ) -> (r: Option<BuildPlan>)
        ensures
            cancelled ==> r is None && is_interrupted(*final(test), *old(test)),
            !cancelled ==> match r {
                Some(b) => is_build_plan(b, source_file@, language) && is_running(
                    *final(test),
                    *old(test),
                ),
                None => language.needs_compile() && exists|e: JudgeError|
                    e is ToolchainNotFound && is_ended(
                        *final(test),
                        *old(test),
                        TestStatus::CompilationError,
                        #[trigger] compile_failure_text(e),
                    ),
            },
    {
        if cancelled {
            interrupt(test);
            return None;
        }
        match self.executor.compile(source_file, language) {
            Ok(b) => {
                test.reset();
                test.status = TestStatus::Running;
                Some(b)
            },
            Err(e) => {
                end_test(test, TestStatus::CompilationError, compile_failure_message(&e));
                None
            },
        }
    }

    /// Second step of judging on a fresh compilation, once the compiler of
    /// `build` has ended as `outcome` (unused where nothing is compiled).
    /// A cancelled compilation interrupts the test and a failed one ends it in
    /// `CompilationError`; otherwise the command to start is handed out and
    /// the test stays `Running`.
    pub fn judge_compiled(
        &self,
        test: &mut TestCase,
        build: &BuildPlan,
        outcome: &ProcessOutcome,
    ) -> (r: Option<CommandLine>)
        ensures
            build.compile is None || compile_succeeds(*outcome) ==> is_run_command(
                self.executor.work_dir@,
                build.artifact@,
                build.language,
                r,
            ) && if r is Some {
                *final(test) == *old(test)
            } else {
                is_ended(*final(test), *old(test), TestStatus::RuntimeError, no_class_text())
            },
            build.compile is Some && !compile_succeeds(*outcome) ==> r is None && if outcome is Cancelled {
                is_interrupted(*final(test), *old(test))
            } else {
                exists|e: JudgeError|
                    is_compile_error(*outcome, e) && is_ended(
                        *final(test),
                        *old(test),
                        TestStatus::CompilationError,
                        #[trigger] compile_failure_text(e),
                    )
            },
    {
        let artifact = if build.compile.is_none() {
            Artifact { path: build.artifact.clone(), language: build.language }
        } else {
            match self.executor.compile_result(build, outcome) {
                Ok(a) => a,
                Err(JudgeError::Cancelled) => {
                    interrupt(test);
                    return None;
                },
                Err(e) => {
                    end_test(test, TestStatus::CompilationError, compile_failure_message(&e));
                    return None;
                },
            }
        };
        let command = self.executor.run_command(&artifact);
        if command.is_none() {
            end_test(test, TestStatus::RuntimeError, String::from_str("Invalid Java class name"));
        }
        command
    }

    /// What to remove once a test judged on the fresh compilation `build`
    /// is over: the compiled program, never a source file that runs as it is.
    pub fn artifact_to_remove(&self, build: &BuildPlan) -> (r: Option<String>)
        ensures
            opt_view(r) == if build.compile is Some {
                Some(build.artifact@)
            } else {
                None
            },
    {
        if build.compile.is_some() {
            Some(build.artifact.clone())
        } else {
            None
        }
    }

    /// Ends every test of a batch whose shared compilation failed with
    /// `error`: each is cleared and set to `CompilationError` with the
    /// compiler's message, or interrupted when the compilation was cancelled.
    /// None of them is run.
    pub fn fail_batch(&self, tests: &mut Vec<TestCase>, error: &JudgeError)
        ensures
            final(tests)@.len() == old(tests)@.len(),
            forall|i: int|
                0 <= i < final(tests)@.len() ==> if *error == JudgeError::Cancelled {
                    is_interrupted(#[trigger] final(tests)@[i], old(tests)@[i])
                } else {
                    is_ended(
                        #[trigger] final(tests)@[i],
                        old(tests)@[i],
                        TestStatus::CompilationError,
                        compile_failure_text(*error),
                    )
                },
    {
        let cancelled = matches!(error, JudgeError::Cancelled);
        let mut i: usize = 0;
        while i < tests.len()
            invariant
                cancelled == (*error == JudgeError::Cancelled),
                i <= tests@.len(),
                tests@.len() == old(tests)@.len(),
                forall|j: int| i <= j < tests@.len() ==> tests@[j] == old(tests)@[j],
                forall|j: int|
                    0 <= j < i ==> if *error == JudgeError::Cancelled {
                        is_interrupted(#[trigger] tests@[j], old(tests)@[j])
                    } else {
                        is_ended(
                            #[trigger] tests@[j],
                            old(tests)@[j],
                            TestStatus::CompilationError,
                            compile_failure_text(*error),
                        )
                    },
            decreases tests@.len() - i,
        {
            let t = if cancelled {
                ended_copy(&tests[i], TestStatus::RuntimeError, JudgeError::Cancelled.message())
            } else {
                ended_copy(&tests[i], TestStatus::CompilationError, compile_failure_message(error))
            };
            tests.set(i, t);
            i = i + 1;
        }
    }
}

/// How many of `tests` have status `status`.
pub open spec fn count_status(tests: Seq<TestCase>, status: TestStatus) -> nat
    decreases tests.len(),
{
    if tests.len() == 0 {
        0
    } else {
        count_status(tests.drop_last(), status) + if tests.last().status == status {
            1nat
        } else {
            0nat
        }
    }
}

proof fn lemma_count_status_bound(tests: Seq<TestCase>, status: TestStatus)
    ensures
        count_status(tests, status) <= tests.len(),
    decreases tests.len(),
{
    if tests.len() > 0 {
        lemma_count_status_bound(tests.drop_last(), status);
    }
}

/// Counts of the outcomes of a batch.
#[derive(Clone, Copy, Debug, PartialEq, Eq, Structural)]
pub struct JudgeStatistics {
    pub total: usize,
    pub passed: usize,
    pub wrong_answer: usize,
    pub runtime_error: usize,
    pub time_limit_exceeded: usize,
    pub memory_limit_exceeded: usize,
    pub compilation_error: usize,
}

impl JudgeStatistics {
    /// The counts for `tests` as they stand.
    pub open spec fn counts(self, tests: Seq<TestCase>) -> bool {
        &&& self.total == tests.len()
        &&& self.passed == count_status(tests, TestStatus::Accepted)
        &&& self.wrong_answer == count_status(tests, TestStatus::WrongAnswer)
        &&& self.runtime_error == count_status(tests, TestStatus::RuntimeError)
        &&& self.time_limit_exceeded == count_status(tests, TestStatus::TimeLimitExceeded)
        &&& self.memory_limit_exceeded == count_status(tests, TestStatus::MemoryLimitExceeded)
        &&& self.compilation_error == count_status(tests, TestStatus::CompilationError)
    }

    /// Counts each terminal status among `tests`.
    pub fn from_tests(tests: &Vec<TestCase>) -> (r: JudgeStatistics)
        ensures
            r.counts(tests@),
    {
        let mut r = JudgeStatistics {
            total: 0,
            passed: 0,
            wrong_answer: 0,
            runtime_error: 0,
            time_limit_exceeded: 0,
            memory_limit_exceeded: 0,
            compilation_error: 0,
        };
        let mut i: usize = 0;
        while i < tests.len()
            invariant
                i <= tests@.len(),
                r.counts(tests@.subrange(0, i as int)),
            decreases tests@.len() - i,
        {
            let ghost prefix = tests@.subrange(0, i + 1);
            proof {
                assert(prefix.drop_last() =~= tests@.subrange(0, i as int));
                lemma_count_status_bound(tests@.subrange(0, i as int), tests@[i as int].status);
            }
            r.total = r.total + 1;
            match tests[i].status {
                TestStatus::Accepted => r.passed = r.passed + 1,
                TestStatus::WrongAnswer => r.wrong_answer = r.wrong_answer + 1,
                TestStatus::RuntimeError => r.runtime_error = r.runtime_error + 1,
                TestStatus::TimeLimitExceeded => r.time_limit_exceeded = r.time_limit_exceeded + 1,
                TestStatus::MemoryLimitExceeded => r.memory_limit_exceeded = r.memory_limit_exceeded
                    + 1,
                TestStatus::CompilationError => r.compilation_error = r.compilation_error + 1,
                _ => {},
            }
            i = i + 1;
        }
        assert(tests@.subrange(0, i as int) =~= tests@);
        r
    }

    /// Every test of a non-empty batch passed.
    pub fn all_passed(&self) -> (r: bool)
        ensures
            r == (self.passed == self.total && self.total > 0),
    {
        self.passed == self.total && self.total > 0
    }
}

impl Judge {
    /// Hands out the next test from `from` on that has a command to run,
    /// marked `Running`; the tests before it that have none are ended. With
    /// no such test left the batch is over: the compiled program is released
    /// and the counts are taken.
    fn next_run(&mut self, tests: &mut Vec<TestCase>, from: usize, cancelled: bool) -> (r:
        BatchAction)
        requires
            old(self).compiled is Some,
            from <= old(tests)@.len(),
        ensures
            final(self).executor == old(self).executor,
            final(self).time_limit_ms == old(self).time_limit_ms,
            continues(
                old(self).executor.work_dir@,
                old(self).compiled->0.path@,
                old(self).compiled->0.language,
                final(self).compiled,
                final(tests)@,
                old(tests)@,
                from as int,
                cancelled,
                r,
            ),
    {
        let mut i: usize = from;
        while i < tests.len()
            invariant
                self.compiled is Some,
                *self == *old(self),
                from <= i <= tests@.len(),
                skipped(tests@, old(tests)@, from as int, i as int, cancelled),
            decreases tests@.len() - i,
        {
            let mut t = copy_case(&tests[i]);
            let step = self.run_test(&mut t, cancelled);
            let ghost before = tests@;
            tests.set(i, t);
            match step {
                Ok(Some(c)) => {
                    assert(tests@.update(i as int, old(tests)@[i as int]) =~= before);
                    return BatchAction::Run(i, c);
                },
                _ => {},
            }
            i = i + 1;
        }
        let remove = self.cleanup();
        let stats = JudgeStatistics::from_tests(tests);
        BatchAction::Finished { remove, stats }
    }

    /// Starts judging `tests`, in order, against one compilation of
    /// `source_file`. Only a missing compiler is an error, and it leaves
    /// everything as it was. A cancelled batch ends at once with every test
    /// interrupted. Otherwise the compiled program held so far is released
    /// (`stale`) and the build is handed out, or, where nothing is compiled,
    /// the first run.
    pub fn start_batch(
        &mut self,
        source_file: &str,
        language: Language,
        tests: &mut Vec<TestCase>,
        cancelled: bool,
    ) -> (r: Result<BatchStart, JudgeError>)
        ensures
            final(self).executor == old(self).executor,
            final(self).time_limit_ms == old(self).time_limit_ms,
            match r {
                Err(e) => {
                    &&& !cancelled
                    &&& language.needs_compile()
                    &&& e is ToolchainNotFound
                    &&& *final(self) == *old(self)
                    &&& final(tests)@ == old(tests)@
                },
                Ok(start) => if cancelled {
                    &&& start.stale is None
                    &&& final(self).compiled == old(self).compiled
                    &&& final(tests)@.len() == old(tests)@.len()
                    &&& forall|i: int| 0 <= i < final(tests)@.len() ==>
                        is_interrupted(#[trigger] final(tests)@[i], old(tests)@[i])
                    &&& start.action matches BatchAction::Finished { remove, stats }
                        && remove is None && stats.counts(final(tests)@)
                } else {
                    &&& opt_view(start.stale) == removable(old(self).compiled)
                    &&& language.needs_compile() ==> {
                        &&& start.action matches BatchAction::Compile(b) && is_build_plan(b, source_file@, language)
                        &&& final(self).compiled is None
                        &&& final(tests)@ == old(tests)@
                    }
                    &&& !language.needs_compile() ==> continues(
                        old(self).executor.work_dir@,
                        source_file@,
                        language,
                        final(self).compiled,
                        final(tests)@,
                        old(tests)@,
                        0,
                        false,
                        start.action,
                    )
                },
            },
    {
        if cancelled {
            self.fail_batch(tests, &JudgeError::Cancelled);
            let stats = JudgeStatistics::from_tests(tests);
            return Ok(BatchStart { stale: None, action: BatchAction::Finished { remove: None, stats } });
        }
        let step = match self.compile_once(source_file, language, false) {
            Ok(s) => s,
            Err(e) => {
                return Err(e);
            },
        };
        if step.build.compile.is_some() {
            return Ok(BatchStart { stale: step.stale, action: BatchAction::Compile(step.build) });
        }
        let action = self.next_run(tests, 0, false);
        Ok(BatchStart { stale: step.stale, action })
    }

    /// Goes on with a batch once its compiler has ended as `outcome`. A
    /// failed compilation ends the batch with every test in
    /// `CompilationError` (interrupted, where it was cancelled) and none run.
    /// Otherwise the first run is handed out.
    pub fn batch_compiled(
        &mut self,
        tests: &mut Vec<TestCase>,
        build: &BuildPlan,
        outcome: &ProcessOutcome,
        cancelled: bool,
    ) -> (r: BatchAction)
        ensures
            final(self).executor == old(self).executor,
            final(self).time_limit_ms == old(self).time_limit_ms,
            !compile_succeeds(*outcome) ==> {
                &&& r matches BatchAction::Finished { remove, stats } && remove is None
                    && stats.counts(final(tests)@)
                &&& final(tests)@.len() == old(tests)@.len()
                &&& exists|e: JudgeError| is_compile_error(*outcome, e) && forall|i: int|
                    0 <= i < final(tests)@.len() ==> if e == JudgeError::Cancelled {
                        is_interrupted(#[trigger] final(tests)@[i], old(tests)@[i])
                    } else {
                        is_ended(
                            #[trigger] final(tests)@[i],
                            old(tests)@[i],
                            TestStatus::CompilationError,
                            compile_failure_text(e),
                        )
                    }
            },
            compile_succeeds(*outcome) ==> continues(
                old(self).executor.work_dir@,
                build.artifact@,
                build.language,
                final(self).compiled,
                final(tests)@,
                old(tests)@,
                0,
                cancelled,
                r,
            ),
    {
        match self.finish_compile(build, outcome) {
            Ok(()) => self.next_run(tests, 0, cancelled),
            Err(e) => {
                self.fail_batch(tests, &e);
                let stats = JudgeStatistics::from_tests(tests);
                BatchAction::Finished { remove: None, stats }
            },
        }
    }

    /// Goes on with a batch once test `index` has run as `report`: the
    /// verdict is recorded on it and the next run is handed out, or the batch
    /// ends.
    pub fn batch_ran(
        &mut self,
        tests: &mut Vec<TestCase>,
        index: usize,
        report: &ProcessReport,
        cancelled: bool,
    ) -> (r: BatchAction)
        requires
            index < old(tests)@.len(),
        ensures
            final(self).executor == old(self).executor,
            final(self).time_limit_ms == old(self).time_limit_ms,
            final(tests)@.len() == old(tests)@.len(),
            exists|res: ExecutionResult|
                is_execution_result(*report, old(self).time_limit_ms, res) && is_judged(
                    #[trigger] final(tests)@[index as int],
                    old(tests)@[index as int],
                    res,
                ),
            forall|j: int| 0 <= j < index ==> #[trigger] final(tests)@[j] == old(tests)@[j],
            old(self).compiled is None ==> (r matches BatchAction::Finished { remove, stats }
                && remove is None && stats.counts(final(tests)@)),
            old(self).compiled is Some ==> continues(
                old(self).executor.work_dir@,
                old(self).compiled->0.path@,
                old(self).compiled->0.language,
                final(self).compiled,
                final(tests)@,
                old(tests)@.update(index as int, final(tests)@[index as int]),
                index + 1,
                cancelled,
                r,
            ),
    {
        let mut t = copy_case(&tests[index]);
        let res = self.finish_test(&mut t, report);
        tests.set(index, t);
        assert(is_judged(tests@[index as int], old(tests)@[index as int], res));
        if self.compiled.is_none() {
            let stats = JudgeStatistics::from_tests(tests);
            return BatchAction::Finished { remove: None, stats };
        }
        let ghost mid = tests@;
        assert(index < tests.len());
        let r = self.next_run(tests, index + 1, cancelled);
        proof {
            assert forall|j: int| 0 <= j <= index implies #[trigger] tests@[j] == mid[j] by {
                match r {
                    BatchAction::Run(i, c) => {
                        assert(tests@.update(i as int, mid[i as int])[j] == tests@[j]);
                    },
                    _ => {},
                }
            }
        }
        r
    }
}

} // verus!
