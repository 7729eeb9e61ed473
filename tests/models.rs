use cpkit::models::{
    CompetitiveCompanionData, CompetitiveCompanionTest, ExecutionResult, JudgeError, Language,
    Problem, RunEnd, TestCase, TestStatus,
};
use cpkit::text::decimal_string;

fn run_case(status: TestStatus) -> TestCase {
    let mut t = TestCase::new("1\n".to_string(), "2".to_string());
    t.status = status;
    t.actual_output = Some("x".to_string());
    t.execution_time = Some(15);
    t.memory_used = Some(1024);
    t.error_message = Some("boom".to_string());
    t
}

#[test]
fn reset_clears_run_fields_from_every_status() {
    let all = [
        TestStatus::Pending,
        TestStatus::Running,
        TestStatus::Accepted,
        TestStatus::WrongAnswer,
        TestStatus::RuntimeError,
        TestStatus::TimeLimitExceeded,
        TestStatus::MemoryLimitExceeded,
        TestStatus::CompilationError,
    ];
    for s in all {
        let mut t = run_case(s);
        let id = t.id;
        t.reset();
        assert_eq!(t.status, TestStatus::Pending);
        assert_eq!(t.actual_output, None);
        assert_eq!(t.execution_time, None);
        assert_eq!(t.memory_used, None);
        assert_eq!(t.error_message, None);
        assert_eq!(t.id, id);
        assert_eq!(t.input, "1\n");
        assert_eq!(t.expected_output, "2");
    }
}

#[test]
fn new_test_case_is_pending_with_fresh_id() {
    let a = TestCase::new("in".to_string(), "out".to_string());
    let b = TestCase::new("in".to_string(), "out".to_string());
    assert_eq!(a.status, TestStatus::Pending);
    assert_eq!(a.actual_output, None);
    assert_eq!(a.error_message, None);
    assert_ne!(a.id, b.id);
}

#[test]
fn status_text_and_icon() {
    assert_eq!(TestStatus::WrongAnswer.text(), "Wrong Answer");
    assert_eq!(TestStatus::TimeLimitExceeded.text(), "Time Limit Exceeded");
    assert_eq!(TestStatus::Pending.text(), "Pending");
    assert_eq!(TestStatus::Accepted.icon(), "✓");
    assert_eq!(TestStatus::CompilationError.icon(), "🔨");
}

#[test]
fn language_names_and_extensions() {
    assert_eq!(
        Language::all(),
        vec![Language::Cpp, Language::Rust, Language::Python, Language::Java, Language::C]
    );
    assert_eq!(Language::Cpp.file_extension(), "cpp");
    assert_eq!(Language::Python.file_extension(), "py");
    assert_eq!(Language::Cpp.display_name(), "C++");
    assert_eq!(Language::C.display_name(), "C");
}

#[test]
fn problem_defaults_and_add_test() {
    let mut p = Problem::new("A".to_string(), "Round".to_string(), "http://x".to_string());
    assert_eq!(p.memory_limit, 256);
    assert_eq!(p.time_limit, 2000);
    assert!(p.tests.is_empty());
    assert_eq!(p.language, Language::Cpp);
    assert!(p.created_at > 0);
    p.add_test("1".to_string(), "2".to_string());
    assert_eq!(p.tests.len(), 1);
    assert_eq!(p.tests[0].input, "1");
    assert_eq!(p.tests[0].expected_output, "2");
    assert_eq!(p.tests[0].status, TestStatus::Pending);
}

#[test]
fn problem_from_companion_keeps_limits_and_tests() {
    let data = CompetitiveCompanionData {
        name: "B. Sum".to_string(),
        group: "Contest".to_string(),
        url: "https://example.org/b".to_string(),
        interactive: true,
        memory_limit: 512,
        time_limit: 1000,
        tests: vec![
            CompetitiveCompanionTest { input: "3\n1 2 3\n".to_string(), output: "6\n".to_string() },
            CompetitiveCompanionTest { input: "1\n5\n".to_string(), output: "5\n".to_string() },
        ],
    };
    let p = Problem::from_companion(data);
    assert_eq!(p.name, "B. Sum");
    assert!(p.interactive);
    assert_eq!(p.memory_limit, 512);
    assert_eq!(p.time_limit, 1000);
    assert_eq!(p.tests.len(), 2);
    assert_eq!(p.tests[1].input, "1\n5\n");
    assert_eq!(p.tests[1].expected_output, "5\n");
    assert_ne!(p.tests[0].id, p.tests[1].id);
}

#[test]
fn execution_result_success() {
    let mut r = ExecutionResult {
        output: "6\n".to_string(),
        exit_code: 0,
        execution_time: 3,
        memory_used: None,
        error: None,
        end: RunEnd::Completed,
    };
    assert!(r.is_success());
    r.error = Some("warning".to_string());
    assert!(!r.is_success());
    r.error = None;
    r.exit_code = 2;
    assert!(!r.is_success());
}

#[test]
fn judge_error_messages() {
    assert_eq!(JudgeError::Cancelled.message(), "Run interrupted by user");
    assert_eq!(JudgeError::NoArtifact.message(), "No compiled executable found");
    assert_eq!(JudgeError::CompilationFailed("bad".to_string()).message(), "bad");
    assert_eq!(JudgeError::ToolchainNotFound("none".to_string()).message(), "none");
}

#[test]
fn decimal_string_values() {
    assert_eq!(decimal_string(0), "0");
    assert_eq!(decimal_string(1), "1");
    assert_eq!(decimal_string(-1), "-1");
    assert_eq!(decimal_string(139), "139");
    assert_eq!(decimal_string(i32::MAX), "2147483647");
    assert_eq!(decimal_string(i32::MIN), "-2147483648");
}

use cpkit::store::ProblemStore;

fn problem_at(name: &str, created_at: i64) -> Problem {
    let mut p = Problem::new(name.to_string(), String::new(), String::new());
    p.created_at = created_at;
    p
}

#[test]
fn store_keeps_one_problem_per_id() {
    let mut store = ProblemStore::new();
    let a = problem_at("a", 10);
    let mut a2 = a.clone();
    a2.name = "a again".to_string();
    store.add_problem(a.clone());
    store.add_problem(problem_at("b", 20));
    store.add_problem(a2);
    assert_eq!(store.count(), 2);
    assert_eq!(store.get_current_problem().unwrap().name, "a again");
    assert_eq!(store.find(a.id), Some(0));
}

#[test]
fn store_lists_newest_first() {
    let mut store = ProblemStore::new();
    store.insert(problem_at("old", 5));
    store.insert(problem_at("new", 50));
    store.insert(problem_at("mid", 20));
    store.insert(problem_at("mid too", 20));
    let order = store.get_all_problems();
    let names: Vec<&str> = order.iter().map(|&i| store.problems[i].name.as_str()).collect();
    assert_eq!(names[0], "new");
    assert_eq!(names[3], "old");
    assert_eq!(order.len(), 4);
    assert!(store.get_current_problem().is_none());
}

#[test]
fn store_delete_forgets_current() {
    let mut store = ProblemStore::new();
    let a = problem_at("a", 1);
    let b = problem_at("b", 2);
    store.add_problem(a.clone());
    store.add_problem(b.clone());
    let never_added = problem_at("c", 3);
    assert!(!store.delete_problem(never_added.id));
    assert_eq!(store.count(), 2);
    assert!(store.delete_problem(b.id));
    assert_eq!(store.current_problem, None);
    assert!(!store.delete_problem(b.id));
    assert_eq!(store.ids(), vec![a.id]);
    assert!(store.delete_problem(a.id));
    assert_eq!(store.count(), 0);
}
