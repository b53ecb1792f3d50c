//! Character validation, line trimming and command rendering.

use rfcaf::interface::{ConsoleFilesystem, ConsoleLog, ConsoleParser, ConsoleTerminal};
use rfcaf::{Console, ConsoleStatus, DataError, ExecuteFile, GenericCmd};

struct QuietLog;

impl ConsoleLog for QuietLog {
    fn prompt_log(&self, _log_info: &str) {}

    fn terminal_exc_log(&self, _log_info: &str) {}

    fn file_exc_log(&self, _log_info: &str) {}

    fn err_log(&self, _err_info: &DataError) {}

    fn status_log(&self, _previous: ConsoleStatus, _current: ConsoleStatus) {}

    fn err_invalid(&self) -> &'static str {
        "invalid input."
    }
}

struct NoTerm;

impl ConsoleTerminal for NoTerm {
    fn line_read(&mut self) -> Result<String, DataError> {
        Err(DataError::IoFailure("terminal closed".to_string()))
    }
}

struct NoFs;

impl ConsoleFilesystem for NoFs {
    fn read_to_string(&mut self, _path: &str) -> Result<String, DataError> {
        Err(DataError::IoFailure("no filesystem".to_string()))
    }
}

struct NoParser;

impl ConsoleParser for NoParser {
    fn parse(&mut self, _content: &str) -> Result<ExecuteFile, DataError> {
        Err(DataError::Unknown)
    }
}

fn plain_console() -> Console<QuietLog, NoTerm, NoFs, NoParser> {
    Console::new(QuietLog, NoTerm, NoFs, NoParser)
}

#[test]
fn check_accepts_whitelisted_text() {
    let console = plain_console();
    assert!(matches!(console.input_check("abc123"), Ok(true)));
    assert!(matches!(console.input_check("a.b+c-d|e@f g"), Ok(true)));
    assert!(matches!(console.input_check("R"), Ok(true)));
    assert!(matches!(console.input_check("0"), Ok(true)));
}

#[test]
fn check_accepts_unicode_alphanumerics() {
    let console = plain_console();
    assert!(matches!(console.input_check("caf\u{e9}"), Ok(true)));
    assert!(matches!(console.input_check("\u{547d}\u{4ee4}"), Ok(true)));
}

#[test]
fn check_rejects_empty_text() {
    let console = plain_console();
    match console.input_check("") {
        Err(DataError::InvalidInput { expected, found }) => {
            assert_eq!(expected, "specified command characters");
            assert_eq!(found, "invalid characters");
        },
        other => panic!("expected an invalid-input rejection, got {other:?}"),
    }
}

#[test]
fn check_rejects_characters_outside_the_set() {
    let console = plain_console();
    assert!(matches!(
        console.input_check("a,b"),
        Err(DataError::InvalidInput { .. })
    ));
    assert!(matches!(
        console.input_check("semi;colon"),
        Err(DataError::InvalidInput { .. })
    ));
    assert!(matches!(
        console.input_check("tab\there"),
        Err(DataError::InvalidInput { .. })
    ));
    assert!(matches!(
        console.input_check("slash/"),
        Err(DataError::InvalidInput { .. })
    ));
}

#[test]
fn parser_strips_trailing_line_breaks() {
    let console = plain_console();
    assert_eq!(console.input_parser("cmd\r\n".to_string()), "cmd");
    assert_eq!(console.input_parser("cmd\n\n\r\r".to_string()), "cmd");
    assert_eq!(console.input_parser("cmd".to_string()), "cmd");
    assert_eq!(console.input_parser("\r\n".to_string()), "");
    assert_eq!(
        console.input_parser("inner\r\nkeep\n".to_string()),
        "inner\r\nkeep"
    );
}

#[test]
fn numeric_commands_render_in_decimal() {
    assert_eq!(GenericCmd::Number(0).to_text(), "0");
    assert_eq!(GenericCmd::Number(7).to_text(), "7");
    assert_eq!(GenericCmd::Number(10).to_text(), "10");
    assert_eq!(GenericCmd::Number(907).to_text(), "907");
    assert_eq!(GenericCmd::Number(120045).to_text(), "120045");
}

#[test]
fn textual_commands_render_as_themselves() {
    assert_eq!(GenericCmd::Character("run all".to_string()).to_text(), "run all");
    assert_eq!(GenericCmd::Character(String::new()).to_text(), "");
}
