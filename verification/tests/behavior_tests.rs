//! End-to-end console behaviour: the status protocol, the traversal
//! engine's cycle and exhaustion semantics, and the automation loader's
//! failure handling.

use std::cell::RefCell;
use std::rc::Rc;

use rfcaf::interface::{ConsoleFilesystem, ConsoleLog, ConsoleParser, ConsoleTerminal};
use rfcaf::{Console, ConsoleStatus, DataError, ExecuteAssets, ExecuteFile, GenericCmd, SubCmd};

struct SharedLog {
    events: Rc<RefCell<Vec<String>>>,
}

impl ConsoleLog for SharedLog {
    fn prompt_log(&self, log_info: &str) {
        self.events.borrow_mut().push(format!("prompt:{log_info}"));
    }

    fn terminal_exc_log(&self, log_info: &str) {
        self.events.borrow_mut().push(format!("term:{log_info}"));
    }

    fn file_exc_log(&self, log_info: &str) {
        self.events.borrow_mut().push(format!("file:{log_info}"));
    }

    fn err_log(&self, err_info: &DataError) {
        self.events.borrow_mut().push(format!("err:{err_info:?}"));
    }

    fn status_log(&self, previous: ConsoleStatus, current: ConsoleStatus) {
        self.events
            .borrow_mut()
            .push(format!("status:{previous:?}->{current:?}"));
    }

    fn err_invalid(&self) -> &'static str {
        "invalid input."
    }
}

struct ScriptTerm {
    lines: Vec<Result<String, String>>,
    next: usize,
}

impl ConsoleTerminal for ScriptTerm {
    fn line_read(&mut self) -> Result<String, DataError> {
        if self.next < self.lines.len() {
            let line = self.lines[self.next].clone();
            self.next += 1;
            line.map_err(DataError::IoFailure)
        } else {
            Err(DataError::IoFailure("terminal closed".to_string()))
        }
    }
}

struct StubFs {
    content: Result<String, String>,
}

impl ConsoleFilesystem for StubFs {
    fn read_to_string(&mut self, _path: &str) -> Result<String, DataError> {
        self.content.clone().map_err(DataError::IoFailure)
    }
}

struct StubParser {
    trees: Vec<Result<ExecuteFile, ()>>,
}

impl ConsoleParser for StubParser {
    fn parse(&mut self, _content: &str) -> Result<ExecuteFile, DataError> {
        if self.trees.is_empty() {
            return Err(DataError::Unknown);
        }
        self.trees.remove(0).map_err(|_| DataError::InvalidInput {
            expected: "well-formed automation content".to_string(),
            found: "unreadable content".to_string(),
        })
    }
}

type TestConsole = Console<SharedLog, ScriptTerm, StubFs, StubParser>;

fn txt(s: &str) -> GenericCmd {
    GenericCmd::Character(s.to_string())
}

fn entry(ins: GenericCmd, subs: Option<Vec<GenericCmd>>) -> ExecuteAssets {
    ExecuteAssets {
        exc_ins: ins,
        sub_cmd_assets: subs.map(|cmds| {
            cmds.into_iter().map(|sub_cmd| SubCmd { sub_cmd }).collect()
        }),
    }
}

fn tree(entries: Vec<ExecuteAssets>, cycle: Option<usize>) -> ExecuteFile {
    ExecuteFile {
        file_address: None,
        exc_ins_assets: entries,
        cycle_times: cycle,
        next_exc_ins: None,
        next_exc_cmd: None,
    }
}

fn console_with(
    lines: Vec<Result<String, String>>,
    content: Result<String, String>,
    trees: Vec<Result<ExecuteFile, ()>>,
) -> (TestConsole, Rc<RefCell<Vec<String>>>) {
    let events = Rc::new(RefCell::new(Vec::new()));
    let console = Console::new(
        SharedLog { events: Rc::clone(&events) },
        ScriptTerm { lines, next: 0 },
        StubFs { content },
        StubParser { trees },
    );
    (console, events)
}

fn lines_of(texts: &[&str]) -> Vec<Result<String, String>> {
    texts.iter().map(|t| Ok(t.to_string())).collect()
}

#[test]
fn setup_reaches_terminal_acquisition_through_invalid() {
    let (mut console, events) = console_with(lines_of(&["run"]), Ok("x".to_string()), vec![]);
    assert_eq!(console.status(), ConsoleStatus::Invalid);

    console.setup();
    assert_eq!(console.status(), ConsoleStatus::AcquireFromTerminal);

    let read = console.read("enter a command");
    assert_eq!(read.unwrap(), "run");
    assert_eq!(console.status(), ConsoleStatus::ExecuteFromTerminal);

    let log = events.borrow();
    let transitions: Vec<&String> = log.iter().filter(|e| e.starts_with("status:")).collect();
    assert_eq!(
        transitions,
        vec![
            "status:Invalid->AcquireFromTerminal",
            "status:AcquireFromTerminal->ExecuteFromTerminal",
        ]
    );
}

#[test]
fn terminal_execution_continues_without_a_file() {
    let (mut console, _) =
        console_with(lines_of(&["first", "second"]), Ok("x".to_string()), vec![]);
    console.setup();
    assert_eq!(console.read("").unwrap(), "first");
    assert_eq!(console.status(), ConsoleStatus::ExecuteFromTerminal);
    assert_eq!(console.read("").unwrap(), "second");
    assert_eq!(console.status(), ConsoleStatus::ExecuteFromTerminal);
}

#[test]
fn failed_read_normalizes_the_status() {
    let (mut console, _) = console_with(lines_of(&["bad,line"]), Ok("x".to_string()), vec![]);
    console.setup();
    let read = console.read("");
    assert!(matches!(read, Err(DataError::InvalidInput { .. })));
    assert_eq!(console.status(), ConsoleStatus::AcquireFromTerminal);
}

#[test]
fn terminal_fault_surfaces_and_normalizes() {
    let (mut console, _) = console_with(
        vec![Err("broken pipe".to_string())],
        Ok("x".to_string()),
        vec![],
    );
    console.setup();
    let read = console.read("");
    assert!(matches!(read, Err(DataError::InvalidInput { .. })));
    assert_eq!(console.status(), ConsoleStatus::AcquireFromTerminal);
}

#[test]
fn read_no_err_swallows_and_logs() {
    let (mut console, events) = console_with(lines_of(&["bad,line"]), Ok("x".to_string()), vec![]);
    console.setup();
    assert_eq!(console.read_no_err(""), "");
    assert_eq!(console.status(), ConsoleStatus::AcquireFromTerminal);
    assert!(events.borrow().iter().any(|e| e.starts_with("err:")));
}

#[test]
fn prompt_echo_accumulates_the_breadcrumb() {
    let (mut console, events) = console_with(lines_of(&["a", "b"]), Ok("x".to_string()), vec![]);
    console.setup();
    console.read("").unwrap();
    console.read("").unwrap();
    let log = events.borrow();
    let prompts: Vec<&String> = log.iter().filter(|e| e.starts_with("prompt:")).collect();
    assert_eq!(prompts, vec!["prompt:> ", "prompt:> a > "]);
}

#[test]
fn read_before_setup_fails_and_normalizes() {
    let (mut console, _) = console_with(lines_of(&["run"]), Ok("x".to_string()), vec![]);
    assert_eq!(console.status(), ConsoleStatus::Invalid);
    let read = console.read("");
    assert!(matches!(read, Err(DataError::InvalidInput { .. })));
    assert_eq!(console.status(), ConsoleStatus::AcquireFromTerminal);
}

#[test]
fn taildowm_closes_a_terminal_chain() {
    let (mut console, _) = console_with(lines_of(&["run"]), Ok("x".to_string()), vec![]);
    console.setup();
    console.read("").unwrap();
    assert_eq!(console.status(), ConsoleStatus::ExecuteFromTerminal);
    console.taildowm();
    assert_eq!(console.status(), ConsoleStatus::AcquireFromTerminal);
}

#[test]
fn prompt_resets_when_a_new_chain_begins() {
    let (mut console, events) = console_with(
        lines_of(&["r", "auto.toml"]),
        Ok("x".to_string()),
        vec![Ok(tree(
            vec![entry(txt("A"), Some(vec![txt("a1")])), entry(txt("B"), None)],
            None,
        ))],
    );
    console.setup();
    console.read("").unwrap();
    console.file_import().unwrap();
    assert_eq!(console.read("").unwrap(), "A");
    assert_eq!(console.read("").unwrap(), "a1");
    assert_eq!(console.read("").unwrap(), "B");

    let log = events.borrow();
    let prompts: Vec<&String> = log.iter().filter(|e| e.starts_with("prompt:")).collect();
    // The last three reads: the primary prompt grows while the chain runs
    // and resets once the traversal moves to the next instruction.
    let tail = &prompts[prompts.len() - 3..];
    assert_eq!(tail, ["prompt:> ", "prompt:> A > ", "prompt:> "]);
}

#[test]
fn import_primes_one_step_and_first_read_serves_the_first_instruction() {
    let (mut console, _) = console_with(
        lines_of(&["r", "auto.toml"]),
        Ok("x".to_string()),
        vec![Ok(tree(
            vec![entry(txt("A"), Some(vec![txt("a1")])), entry(txt("B"), None)],
            None,
        ))],
    );
    console.setup();
    console.read("").unwrap();
    console.file_import().unwrap();
    assert_eq!(console.status(), ConsoleStatus::AcquireFromFile);

    assert_eq!(console.read("").unwrap(), "A");
    assert_eq!(console.status(), ConsoleStatus::ExecuteFromFile);
    assert_eq!(console.read("").unwrap(), "a1");
}

#[test]
fn poll_walks_cycles_then_exhausts() {
    let (mut console, _) = console_with(
        lines_of(&["r", "auto.toml"]),
        Ok("x".to_string()),
        vec![Ok(tree(
            vec![
                entry(txt("A"), Some(vec![txt("a1"), txt("a2")])),
                entry(txt("B"), None),
            ],
            Some(2),
        ))],
    );
    console.setup();
    console.read("").unwrap();
    console.file_import().unwrap();

    let expected = ["a1", "a2", "B", "A", "a1", "a2", "B"];
    for want in expected {
        assert_eq!(console.file_poll().unwrap(), want);
    }
    assert!(matches!(console.file_poll(), Err(DataError::Exhausted)));
}

#[test]
fn poll_on_an_empty_tree_reports_corruption() {
    let (mut console, _) = console_with(vec![], Ok("x".to_string()), vec![]);
    assert!(matches!(
        console.file_poll(),
        Err(DataError::TraversalCorrupted(_))
    ));
}

#[test]
fn import_of_a_tree_without_instructions_reports_corruption() {
    let (mut console, _) = console_with(
        lines_of(&["r", "auto.toml"]),
        Ok("x".to_string()),
        vec![Ok(tree(vec![], None))],
    );
    console.setup();
    console.read("").unwrap();
    let import = console.file_import();
    assert!(matches!(import, Err(DataError::TraversalCorrupted(_))));
    assert_eq!(console.status(), ConsoleStatus::AcquireFromTerminal);
}

#[test]
fn failed_parse_leaves_the_tree_cleared() {
    let (mut console, _) = console_with(
        lines_of(&["r", "auto.toml", "auto2.toml"]),
        Ok("x".to_string()),
        vec![Ok(tree(vec![entry(txt("A"), None)], None)), Err(())],
    );
    console.setup();
    console.read("").unwrap();
    console.file_import().unwrap();
    assert_eq!(console.status(), ConsoleStatus::AcquireFromFile);

    // Exhaust the single-instruction tree; the console falls back to the
    // terminal.
    assert_eq!(console.read("").unwrap(), "A");
    assert_eq!(console.status(), ConsoleStatus::AcquireFromTerminal);

    let import = console.file_import();
    assert!(matches!(import, Err(DataError::MalformedAutomation(_))));
    assert_eq!(console.status(), ConsoleStatus::AcquireFromTerminal);

    // A stale tree would re-seed its first instruction here; a cleared one
    // reports corruption.
    assert!(matches!(
        console.file_poll(),
        Err(DataError::TraversalCorrupted(_))
    ));
}

#[test]
fn filesystem_fault_fails_the_import() {
    let (mut console, _) = console_with(
        lines_of(&["r", "auto.toml"]),
        Err("no such file".to_string()),
        vec![],
    );
    console.setup();
    console.read("").unwrap();
    let import = console.file_import();
    assert!(matches!(import, Err(DataError::IoFailure(_))));
    assert_eq!(console.status(), ConsoleStatus::AcquireFromTerminal);
}

#[test]
fn import_no_err_logs_the_failure() {
    let (mut console, events) = console_with(
        lines_of(&["r", "auto.toml"]),
        Ok("x".to_string()),
        vec![Err(())],
    );
    console.setup();
    console.read("").unwrap();
    console.file_import_no_err();
    assert_eq!(console.status(), ConsoleStatus::AcquireFromTerminal);
    assert!(events.borrow().iter().any(|e| e.starts_with("err:")));
}

#[test]
fn numeric_nodes_are_served_as_decimal_text() {
    let (mut console, _) = console_with(
        lines_of(&["r", "auto.toml"]),
        Ok("x".to_string()),
        vec![Ok(tree(
            vec![entry(GenericCmd::Number(42), Some(vec![GenericCmd::Number(7)]))],
            None,
        ))],
    );
    console.setup();
    console.read("").unwrap();
    console.file_import().unwrap();
    assert_eq!(console.read("").unwrap(), "42");
    assert_eq!(console.read("").unwrap(), "7");
}

#[test]
fn rejected_file_node_is_not_served_again() {
    let (mut console, _) = console_with(
        lines_of(&["r", "auto.toml"]),
        Ok("x".to_string()),
        vec![Ok(tree(
            vec![entry(txt("bad,cmd"), None), entry(txt("ok"), None)],
            None,
        ))],
    );
    console.setup();
    console.read("").unwrap();
    console.file_import().unwrap();

    let first = console.read("");
    assert!(matches!(first, Err(DataError::InvalidInput { .. })));
    assert_eq!(console.status(), ConsoleStatus::AcquireFromFile);
    assert_eq!(console.read("").unwrap(), "ok");
}

#[test]
fn exhausted_tree_returns_the_console_to_the_terminal() {
    let (mut console, _) = console_with(
        lines_of(&["r", "auto.toml", "typed"]),
        Ok("x".to_string()),
        vec![Ok(tree(vec![entry(txt("A"), None), entry(txt("B"), None)], None))],
    );
    console.setup();
    console.read("").unwrap();
    console.file_import().unwrap();

    assert_eq!(console.read("").unwrap(), "A");
    assert_eq!(console.status(), ConsoleStatus::AcquireFromFile);
    assert_eq!(console.read("").unwrap(), "B");
    assert_eq!(console.status(), ConsoleStatus::AcquireFromTerminal);

    // The console self-heals: the next read comes from the terminal again.
    assert_eq!(console.read("").unwrap(), "typed");
}
