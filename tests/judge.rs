use cpkit::executor::{
    Artifact, BuildPlan, CommandLine, Executor, ProcessOutcome, ProcessReport, first_available,
};
use cpkit::judge::{Judge, JudgeStatistics};
use cpkit::models::{ExecutionResult, JudgeError, Language, RunEnd, TestCase, TestStatus};

fn python_judge(limit: u64) -> Judge {
    let mut judge = Judge::new(Executor::new("/work".to_string()), limit);
    let step = judge.compile_once("sum.py", Language::Python, false).unwrap();
    assert!(step.build.compile.is_none());
    assert!(step.stale.is_none());
    judge
}

fn exited(code: i32, stdout: &str, stderr: &str, elapsed_ms: u64) -> ProcessReport {
    ProcessReport {
        outcome: ProcessOutcome::Exited {
            code: Some(code),
            stdout: stdout.to_string(),
            stderr: stderr.to_string(),
        },
        elapsed_ms,
        memory_used: None,
    }
}

fn start(judge: &Judge, test: &mut TestCase) -> CommandLine {
    let cmd = judge.run_test(test, false).unwrap().unwrap();
    assert_eq!(test.status, TestStatus::Running);
    cmd
}

#[test]
fn accepted_when_output_matches() {
    let judge = python_judge(2000);
    let mut test = TestCase::new("3\n1 2 3\n".to_string(), "6".to_string());
    let cmd = start(&judge, &mut test);
    assert_eq!(cmd.program, "python");
    assert_eq!(cmd.args, vec!["sum.py".to_string()]);
    assert_eq!(cmd.current_dir, Some("/work".to_string()));
    judge.finish_test(&mut test, &exited(0, "6\n", "", 12));
    assert_eq!(test.status, TestStatus::Accepted);
    assert_eq!(test.actual_output, Some("6\n".to_string()));
    assert_eq!(test.execution_time, Some(12));
}

#[test]
fn wrong_answer_keeps_actual_output() {
    let judge = python_judge(2000);
    let mut test = TestCase::new("3\n1 2 3\n".to_string(), "5".to_string());
    start(&judge, &mut test);
    judge.finish_test(&mut test, &exited(0, "6\n", "", 10));
    assert_eq!(test.status, TestStatus::WrongAnswer);
    assert_eq!(test.actual_output, Some("6\n".to_string()));
}

#[test]
fn runtime_error_message_holds_exit_code() {
    let judge = python_judge(2000);
    let mut test = TestCase::new("".to_string(), "".to_string());
    start(&judge, &mut test);
    judge.finish_test(&mut test, &exited(1, "", "Traceback: boom", 10));
    assert_eq!(test.status, TestStatus::RuntimeError);
    let msg = test.error_message.clone().unwrap();
    assert!(msg.contains("exit code: 1"));
    assert_eq!(msg, "Program exited abnormally, exit code: 1");
    assert!(test.execution_time.is_some());
}

#[test]
fn negative_exit_code_is_written_out() {
    let judge = python_judge(2000);
    let mut test = TestCase::new("".to_string(), "".to_string());
    start(&judge, &mut test);
    judge.finish_test(&mut test, &exited(-11, "", "", 10));
    assert_eq!(
        test.error_message,
        Some("Program exited abnormally, exit code: -11".to_string())
    );
}

#[test]
fn stderr_on_success_is_advisory() {
    let judge = python_judge(2000);
    let mut test = TestCase::new("".to_string(), "ok".to_string());
    start(&judge, &mut test);
    judge.finish_test(&mut test, &exited(0, "ok\n", "debug line", 10));
    assert_eq!(test.status, TestStatus::Accepted);
    assert_eq!(test.error_message, Some("debug line".to_string()));
}

#[test]
fn endless_program_is_time_limit_exceeded() {
    let judge = python_judge(1000);
    let mut test = TestCase::new("".to_string(), "1".to_string());
    start(&judge, &mut test);
    let report = ProcessReport { outcome: ProcessOutcome::TimedOut, elapsed_ms: 1020, memory_used: None };
    let r = judge.finish_test(&mut test, &report);
    assert_eq!(test.status, TestStatus::TimeLimitExceeded);
    assert_eq!(r.end, RunEnd::TimedOut);
    assert_eq!(r.error, Some("Timeout".to_string()));
    assert_eq!(test.execution_time, Some(1020));
}

#[test]
fn late_exit_is_still_time_limit_exceeded() {
    let judge = python_judge(1000);
    let mut test = TestCase::new("".to_string(), "1".to_string());
    start(&judge, &mut test);
    judge.finish_test(&mut test, &exited(0, "1\n", "", 1001));
    assert_eq!(test.status, TestStatus::TimeLimitExceeded);
    assert_eq!(test.actual_output, Some(String::new()));
}

#[test]
fn exit_at_the_limit_is_judged() {
    let judge = python_judge(1000);
    let mut test = TestCase::new("".to_string(), "1".to_string());
    start(&judge, &mut test);
    judge.finish_test(&mut test, &exited(0, "1\n", "", 1000));
    assert_eq!(test.status, TestStatus::Accepted);
}

#[test]
fn cancelled_before_run_starts_no_process() {
    let judge = python_judge(1000);
    let mut test = TestCase::new("".to_string(), "1".to_string());
    test.status = TestStatus::Accepted;
    let r = judge.run_test(&mut test, true).unwrap();
    assert!(r.is_none());
    assert_eq!(test.status, TestStatus::RuntimeError);
    assert_eq!(test.error_message, Some("Run interrupted by user".to_string()));
    assert_eq!(test.actual_output, None);
}

#[test]
fn cancelled_during_run_is_interrupted() {
    let judge = python_judge(1000);
    let mut test = TestCase::new("".to_string(), "1".to_string());
    start(&judge, &mut test);
    let report = ProcessReport { outcome: ProcessOutcome::Cancelled, elapsed_ms: 40, memory_used: None };
    judge.finish_test(&mut test, &report);
    assert_eq!(test.status, TestStatus::RuntimeError);
    assert_eq!(test.error_message, Some("Run interrupted by user".to_string()));
}

#[test]
fn failed_start_is_runtime_error() {
    let judge = python_judge(1000);
    let mut test = TestCase::new("".to_string(), "1".to_string());
    start(&judge, &mut test);
    let report = ProcessReport {
        outcome: ProcessOutcome::StartFailed { reason: "permission denied".to_string() },
        elapsed_ms: 0,
        memory_used: None,
    };
    judge.finish_test(&mut test, &report);
    assert_eq!(test.status, TestStatus::RuntimeError);
    assert_eq!(
        test.error_message,
        Some("Cannot start program: permission denied".to_string())
    );
}

#[test]
fn run_without_compiled_program_fails() {
    let judge = Judge::new(Executor::new(".".to_string()), 1000);
    let mut test = TestCase::new("".to_string(), "".to_string());
    test.status = TestStatus::Running;
    assert!(matches!(judge.run_test(&mut test, false), Err(JudgeError::NoArtifact)));
    assert_eq!(test.status, TestStatus::RuntimeError);
    assert_eq!(test.error_message, Some("No compiled executable found".to_string()));
}

#[test]
fn judge_test_cancelled_before_compiling() {
    let judge = Judge::new(Executor::new(".".to_string()), 1000);
    let mut test = TestCase::new("".to_string(), "".to_string());
    assert!(judge.judge_test("a.cpp", Language::Cpp, &mut test, true).is_none());
    assert_eq!(test.status, TestStatus::RuntimeError);
    assert_eq!(test.error_message, Some("Run interrupted by user".to_string()));
}

#[test]
fn compile_once_cancelled_keeps_state() {
    let mut judge = python_judge(1000);
    assert!(matches!(
        judge.compile_once("b.py", Language::Python, true),
        Err(JudgeError::Cancelled)
    ));
    assert_eq!(judge.compiled.as_ref().unwrap().path, "sum.py");
}

fn cpp_build() -> BuildPlan {
    BuildPlan {
        compile: Some(CommandLine {
            program: "g++".to_string(),
            args: vec!["a.cpp".to_string()],
            current_dir: None,
        }),
        artifact: "a.exe".to_string(),
        language: Language::Cpp,
    }
}

#[test]
fn compiled_program_is_cached_and_cleaned() {
    let mut judge = Judge::new(Executor::new("/w".to_string()), 1000);
    let build = cpp_build();
    judge.finish_compile(&build, &ProcessOutcome::Exited {
        code: Some(0),
        stdout: String::new(),
        stderr: String::new(),
    })
    .unwrap();
    let mut test = TestCase::new("".to_string(), "".to_string());
    let cmd = judge.run_test(&mut test, false).unwrap().unwrap();
    assert_eq!(cmd.program, "a.exe");
    assert!(cmd.args.is_empty());
    assert_eq!(judge.cleanup(), Some("a.exe".to_string()));
    assert!(judge.compiled.is_none());
    assert_eq!(judge.cleanup(), None);
}

#[test]
fn cleanup_never_removes_interpreted_source() {
    let mut judge = python_judge(1000);
    assert_eq!(judge.cleanup(), None);
    assert!(judge.compiled.is_none());
}

#[test]
fn recompiling_hands_back_stale_program() {
    let mut judge = Judge::new(Executor::new("/w".to_string()), 1000);
    judge.compiled = Some(Artifact { path: "old.exe".to_string(), language: Language::Cpp });
    let step = judge.compile_once("new.py", Language::Python, false).unwrap();
    assert_eq!(step.stale, Some("old.exe".to_string()));
    assert_eq!(judge.compiled.as_ref().unwrap().path, "new.py");
}

#[test]
fn compile_failure_reports_compiler_message() {
    let mut judge = Judge::new(Executor::new("/w".to_string()), 1000);
    let r = judge.finish_compile(&cpp_build(), &ProcessOutcome::Exited {
        code: Some(1),
        stdout: String::new(),
        stderr: "a.cpp:1: error".to_string(),
    });
    assert_eq!(r, Err(JudgeError::CompilationFailed("a.cpp:1: error".to_string())));
    assert!(judge.compiled.is_none());
}

#[test]
fn compiler_start_failure_is_toolchain_not_found() {
    let mut judge = Judge::new(Executor::new("/w".to_string()), 1000);
    let r = judge.finish_compile(&cpp_build(), &ProcessOutcome::StartFailed {
        reason: "no such file".to_string(),
    });
    assert_eq!(r, Err(JudgeError::ToolchainNotFound("no such file".to_string())));
    let r = judge.finish_compile(&cpp_build(), &ProcessOutcome::Cancelled);
    assert_eq!(r, Err(JudgeError::Cancelled));
    let r = judge.finish_compile(&cpp_build(), &ProcessOutcome::TimedOut);
    assert_eq!(r, Err(JudgeError::CompilationFailed("Compilation timed out".to_string())));
}

#[test]
fn batch_compile_failure_marks_every_test() {
    let judge = Judge::new(Executor::new("/w".to_string()), 1000);
    let mut tests = vec![
        TestCase::new("1".to_string(), "1".to_string()),
        TestCase::new("2".to_string(), "2".to_string()),
        TestCase::new("3".to_string(), "3".to_string()),
    ];
    tests[1].status = TestStatus::Accepted;
    tests[1].actual_output = Some("2".to_string());
    let ids: Vec<u128> = tests.iter().map(|t| t.id).collect();
    judge.fail_batch(&mut tests, &JudgeError::CompilationFailed("syntax error".to_string()));
    for (t, id) in tests.iter().zip(ids) {
        assert_eq!(t.status, TestStatus::CompilationError);
        assert_eq!(t.error_message, Some("Compilation failed: syntax error".to_string()));
        assert_eq!(t.actual_output, None);
        assert_eq!(t.id, id);
    }
    let stats = JudgeStatistics::from_tests(&tests);
    assert_eq!(stats.compilation_error, 3);
    assert!(!stats.all_passed());
}

#[test]
fn batch_cancelled_compile_interrupts_tests() {
    let judge = Judge::new(Executor::new("/w".to_string()), 1000);
    let mut tests = vec![TestCase::new("1".to_string(), "1".to_string())];
    judge.fail_batch(&mut tests, &JudgeError::Cancelled);
    assert_eq!(tests[0].status, TestStatus::RuntimeError);
    assert_eq!(tests[0].error_message, Some("Run interrupted by user".to_string()));
}

#[test]
fn judge_compiled_failure_sets_compilation_error() {
    let judge = Judge::new(Executor::new("/w".to_string()), 1000);
    let mut test = TestCase::new("".to_string(), "".to_string());
    let r = judge.judge_compiled(&mut test, &cpp_build(), &ProcessOutcome::Exited {
        code: Some(1),
        stdout: String::new(),
        stderr: "expected ';'".to_string(),
    });
    assert!(r.is_none());
    assert_eq!(test.status, TestStatus::CompilationError);
    assert_eq!(test.error_message, Some("Compilation failed: expected ';'".to_string()));
}

#[test]
fn judge_compiled_success_hands_out_program() {
    let judge = Judge::new(Executor::new("/w".to_string()), 1000);
    let mut test = TestCase::new("".to_string(), "".to_string());
    test.status = TestStatus::Running;
    let cmd = judge
        .judge_compiled(&mut test, &cpp_build(), &ProcessOutcome::Exited {
            code: Some(0),
            stdout: String::new(),
            stderr: String::new(),
        })
        .unwrap();
    assert_eq!(cmd.program, "a.exe");
    assert_eq!(cmd.current_dir, Some("/w".to_string()));
    assert_eq!(test.status, TestStatus::Running);
}

#[test]
fn judge_test_for_python_needs_no_compiler() {
    let judge = Judge::new(Executor::new("/w".to_string()), 1000);
    let mut test = TestCase::new("".to_string(), "x".to_string());
    let build = judge.judge_test("s.py", Language::Python, &mut test, false).unwrap();
    assert!(build.compile.is_none());
    assert_eq!(test.status, TestStatus::Running);
    let cmd = judge.judge_compiled(&mut test, &build, &ProcessOutcome::Cancelled).unwrap();
    assert_eq!(cmd.args, vec!["s.py".to_string()]);
    judge.finish_test(&mut test, &exited(0, "x", "", 5));
    assert_eq!(test.status, TestStatus::Accepted);
}

#[test]
fn java_runs_class_in_its_directory() {
    let exec = Executor::new("/w".to_string());
    let cmd = exec
        .run_command(&Artifact { path: "src/Main.class".to_string(), language: Language::Java })
        .unwrap();
    assert_eq!(cmd.program, "java");
    assert_eq!(cmd.args, vec!["Main".to_string()]);
    assert_eq!(cmd.current_dir, Some("src".to_string()));
    let cmd = exec
        .run_command(&Artifact { path: "Main.class".to_string(), language: Language::Java })
        .unwrap();
    assert_eq!(cmd.current_dir, Some("/w".to_string()));
}

#[test]
fn compile_plan_for_cpp_when_found() {
    let exec = Executor::new(".".to_string());
    match exec.compile("dir/sol.cpp", Language::Cpp) {
        Ok(plan) => {
            let c = plan.compile.unwrap();
            assert!(["g++", "clang++", "cl"].contains(&c.program.as_str()));
            assert_eq!(plan.artifact, "dir/sol.exe");
            assert_eq!(c.args, vec!["dir/sol.cpp", "-o", "dir/sol.exe", "-O2", "-std=c++17", "-Wall"]);
        }
        Err(e) => assert!(matches!(e, JudgeError::ToolchainNotFound(_))),
    }
}

#[test]
fn compile_plan_for_python_is_the_source() {
    let exec = Executor::new(".".to_string());
    let plan = exec.compile("a.py", Language::Python).unwrap();
    assert!(plan.compile.is_none());
    assert_eq!(plan.artifact, "a.py");
}

#[test]
fn first_available_picks_by_preference() {
    assert_eq!(first_available(&vec![false, true, true]), Some(1));
    assert_eq!(first_available(&vec![true, true]), Some(0));
    assert_eq!(first_available(&vec![false, false]), None);
    assert_eq!(first_available(&vec![]), None);
}

#[test]
fn execute_classifies_signal_exit() {
    let exec = Executor::new(".".to_string());
    let report = ProcessReport {
        outcome: ProcessOutcome::Exited { code: None, stdout: "1".to_string(), stderr: String::new() },
        elapsed_ms: 7,
        memory_used: Some(2048),
    };
    let r: ExecutionResult = exec.execute(&report, 100);
    assert_eq!(r.exit_code, -1);
    assert_eq!(r.end, RunEnd::Completed);
    assert_eq!(r.memory_used, Some(2048));
    assert_eq!(r.output, "1");
    assert!(r.error.is_none());
}

#[test]
fn statistics_count_each_status() {
    let mut tests = Vec::new();
    for s in [
        TestStatus::Accepted,
        TestStatus::Accepted,
        TestStatus::WrongAnswer,
        TestStatus::RuntimeError,
        TestStatus::TimeLimitExceeded,
        TestStatus::MemoryLimitExceeded,
        TestStatus::Pending,
    ] {
        let mut t = TestCase::new(String::new(), String::new());
        t.status = s;
        tests.push(t);
    }
    let st = JudgeStatistics::from_tests(&tests);
    assert_eq!(st.total, 7);
    assert_eq!(st.passed, 2);
    assert_eq!(st.wrong_answer, 1);
    assert_eq!(st.runtime_error, 1);
    assert_eq!(st.time_limit_exceeded, 1);
    assert_eq!(st.memory_limit_exceeded, 1);
    assert_eq!(st.compilation_error, 0);
    assert!(!st.all_passed());
    let empty = JudgeStatistics::from_tests(&Vec::new());
    assert!(!empty.all_passed());
    let one = JudgeStatistics::from_tests(&vec![tests[0].clone()]);
    assert!(one.all_passed());
}

#[test]
fn artifact_names_follow_the_language() {
    assert_eq!(Executor::artifact_for("dir/sol.cpp", Language::Cpp), "dir/sol.exe");
    assert_eq!(Executor::artifact_for("a.rs", Language::Rust), "a.exe");
    assert_eq!(Executor::artifact_for("Main.java", Language::Java), "Main.class");
    assert_eq!(Executor::artifact_for("s.py", Language::Python), "s.py");
    assert!(Language::Cpp.is_compiled());
    assert!(!Language::Python.is_compiled());
}

use cpkit::judge::BatchAction;

fn drive_python_batch(tests: &mut Vec<TestCase>, outputs: &[&str]) -> JudgeStatistics {
    let mut judge = Judge::new(Executor::new("/w".to_string()), 1000);
    let start = judge.start_batch("sol.py", Language::Python, tests, false).unwrap();
    assert!(start.stale.is_none());
    let mut action = start.action;
    let mut order = Vec::new();
    loop {
        action = match action {
            BatchAction::Run(i, cmd) => {
                assert_eq!(tests[i].status, TestStatus::Running);
                assert_eq!(cmd.args, vec!["sol.py".to_string()]);
                order.push(i);
                judge.batch_ran(tests, i, &exited(0, outputs[i], "", 5), false)
            }
            BatchAction::Finished { remove, stats } => {
                assert!(remove.is_none());
                assert_eq!(order, (0..tests.len()).collect::<Vec<_>>());
                return stats;
            }
            BatchAction::Compile(_) => panic!("nothing to compile"),
        };
    }
}

#[test]
fn batch_runs_tests_in_order_and_counts() {
    let mut tests = vec![
        TestCase::new("3\n1 2 3\n".to_string(), "6".to_string()),
        TestCase::new("1\n5\n".to_string(), "5".to_string()),
        TestCase::new("2\n1 1\n".to_string(), "2".to_string()),
    ];
    let stats = drive_python_batch(&mut tests, &["6\n", "4\n", "2"]);
    assert_eq!(stats.total, 3);
    assert_eq!(stats.passed, 2);
    assert_eq!(stats.wrong_answer, 1);
    assert_eq!(tests[1].status, TestStatus::WrongAnswer);
    assert_eq!(tests[1].actual_output, Some("4\n".to_string()));
}

#[test]
fn batch_of_no_tests_finishes_at_once() {
    let mut tests = Vec::new();
    let stats = drive_python_batch(&mut tests, &[]);
    assert_eq!(stats.total, 0);
    assert!(!stats.all_passed());
}

#[test]
fn batch_compile_failure_runs_nothing() {
    let mut judge = Judge::new(Executor::new("/w".to_string()), 1000);
    let mut tests = vec![
        TestCase::new("1".to_string(), "1".to_string()),
        TestCase::new("2".to_string(), "2".to_string()),
    ];
    let action = judge.batch_compiled(
        &mut tests,
        &cpp_build(),
        &ProcessOutcome::Exited { code: Some(1), stdout: String::new(), stderr: "oops".to_string() },
        false,
    );
    match action {
        BatchAction::Finished { remove, stats } => {
            assert!(remove.is_none());
            assert_eq!(stats.compilation_error, 2);
        }
        _ => panic!("a failed compilation ends the batch"),
    }
    assert!(tests.iter().all(|t| t.status == TestStatus::CompilationError));
    assert!(judge.compiled.is_none());
}

#[test]
fn batch_after_compilation_hands_out_first_run() {
    let mut judge = Judge::new(Executor::new("/w".to_string()), 1000);
    let mut tests = vec![TestCase::new("1".to_string(), "1".to_string())];
    let ok = ProcessOutcome::Exited { code: Some(0), stdout: String::new(), stderr: String::new() };
    match judge.batch_compiled(&mut tests, &cpp_build(), &ok, false) {
        BatchAction::Run(0, cmd) => assert_eq!(cmd.program, "a.exe"),
        _ => panic!("expected the first run"),
    }
    match judge.batch_ran(&mut tests, 0, &exited(0, "1\n", "", 3), false) {
        BatchAction::Finished { remove, stats } => {
            assert_eq!(remove, Some("a.exe".to_string()));
            assert!(stats.all_passed());
        }
        _ => panic!("expected the end of the batch"),
    }
}

#[test]
fn cancelled_batch_interrupts_every_test() {
    let mut judge = Judge::new(Executor::new("/w".to_string()), 1000);
    let mut tests = vec![
        TestCase::new("1".to_string(), "1".to_string()),
        TestCase::new("2".to_string(), "2".to_string()),
    ];
    let start = judge.start_batch("a.cpp", Language::Cpp, &mut tests, true).unwrap();
    assert!(matches!(start.action, BatchAction::Finished { .. }));
    assert!(tests.iter().all(|t| t.status == TestStatus::RuntimeError
        && t.error_message.as_deref() == Some("Run interrupted by user")));
}

#[test]
fn cancel_during_batch_interrupts_remaining_tests() {
    let mut judge = python_judge(1000);
    let mut tests = vec![
        TestCase::new("1".to_string(), "1".to_string()),
        TestCase::new("2".to_string(), "2".to_string()),
        TestCase::new("3".to_string(), "3".to_string()),
    ];
    let report = ProcessReport { outcome: ProcessOutcome::Cancelled, elapsed_ms: 3, memory_used: None };
    tests[0].status = TestStatus::Running;
    match judge.batch_ran(&mut tests, 0, &report, true) {
        BatchAction::Finished { stats, .. } => assert_eq!(stats.runtime_error, 3),
        _ => panic!("a cancelled batch hands out no more runs"),
    }
    assert!(tests.iter().all(|t| t.status == TestStatus::RuntimeError));
}

#[test]
fn fresh_build_leftover_is_the_compiled_program_only() {
    let judge = Judge::new(Executor::new("/w".to_string()), 1000);
    assert_eq!(judge.artifact_to_remove(&cpp_build()), Some("a.exe".to_string()));
    let plan = Executor::new("/w".to_string()).compile("s.py", Language::Python).unwrap();
    assert_eq!(judge.artifact_to_remove(&plan), None);
}

#[test]
fn interruption_message_says_interrupted() {
    let judge = python_judge(1000);
    let mut test = TestCase::new("".to_string(), "1".to_string());
    judge.run_test(&mut test, true).unwrap();
    assert!(test.error_message.unwrap().contains("interrupted"));
}

use cpkit::executor::{poll_action, PollAction};

#[test]
fn cancelled_before_run_without_compiled_program_is_interrupted() {
    let judge = Judge::new(Executor::new(".".to_string()), 1000);
    let mut test = TestCase::new("".to_string(), "".to_string());
    assert!(matches!(judge.run_test(&mut test, true), Ok(None)));
    assert_eq!(test.status, TestStatus::RuntimeError);
    assert!(test.error_message.unwrap().contains("interrupted"));
}

#[test]
fn plan_build_takes_first_present_compiler() {
    let exec = Executor::new(".".to_string());
    assert_eq!(Executor::compiler_names(Language::Cpp), vec!["g++", "clang++", "cl"]);
    let plan = exec.plan_build("a.cpp", Language::Cpp, &vec![false, true, true]).unwrap();
    let c = plan.compile.unwrap();
    assert_eq!(c.program, "clang++");
    assert_eq!(c.args, vec!["a.cpp", "-o", "a.exe", "-O2", "-std=c++17", "-Wall"]);
    let plan = exec.plan_build("a.c", Language::C, &vec![true, true, false]).unwrap();
    assert_eq!(plan.compile.unwrap().program, "gcc");
    let plan = exec.plan_build("a.rs", Language::Rust, &vec![true]).unwrap();
    assert_eq!(plan.compile.unwrap().args, vec!["a.rs", "-o", "a.exe", "-O"]);
    let plan = exec.plan_build("Main.java", Language::Java, &vec![true]).unwrap();
    assert_eq!(plan.artifact, "Main.class");
    assert_eq!(plan.compile.unwrap().args, vec!["Main.java"]);
}

#[test]
fn plan_build_without_compiler_fails() {
    let exec = Executor::new(".".to_string());
    assert!(matches!(
        exec.plan_build("a.cpp", Language::Cpp, &vec![false, false, false]),
        Err(JudgeError::ToolchainNotFound(_))
    ));
    let plan = exec.plan_build("a.py", Language::Python, &vec![]).unwrap();
    assert!(plan.compile.is_none());
}

#[test]
fn poll_decisions() {
    assert_eq!(poll_action(true, true, 5000, Some(1000)), PollAction::Collect);
    assert_eq!(poll_action(false, true, 5000, Some(1000)), PollAction::StopCancelled);
    assert_eq!(poll_action(false, false, 1001, Some(1000)), PollAction::StopTimedOut);
    assert_eq!(poll_action(false, false, 1000, Some(1000)), PollAction::Wait);
    assert_eq!(poll_action(false, false, u64::MAX, None), PollAction::Wait);
}
