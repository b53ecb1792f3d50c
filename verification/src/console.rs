//! The console itself: the status controller, the two input sources, the
//! traversal engine and the automation loader, composed behind a small
//! facade.

use vstd::prelude::*;
use vstd::string::*;
use crate::command::GenericCmd;
use crate::error::DataError;
use crate::interface::{ConsoleFilesystem, ConsoleLog, ConsoleParser, ConsoleTerminal};
use crate::status::{
    next_status, previous_after, refresh_clears_prompt, ConsoleStatus,
};
use crate::text::{is_trailing_break, trim_crlf, valid_char, valid_text};
use crate::tree::{cycle_repeats, dec_cycle, ExecuteFile};

verus! {

/// The current status and the one it replaced, kept for change logging.
#[derive(Debug)]
struct Status {
    current: ConsoleStatus,
    previous: ConsoleStatus,
}

/// The three validity flags a read sets and every refresh consumes and
/// resets.
#[derive(Debug)]
struct ValidCheck {
    read_valid: bool,
    import_valid: bool,
    file_valid: bool,
}

/// The primary prompt and the breadcrumb prompt echoed to the operator.
#[derive(Debug)]
struct ConsolePrompt {
    main_prompt: String,
    sub_prompt: String,
}

/// The interactive console: acquires command text from the terminal or
/// from a loaded automation file, validates it, and keeps its state
/// machine in a legal status.
pub struct Console<L, T, F, P> where
    L: ConsoleLog,
    T: ConsoleTerminal,
    F: ConsoleFilesystem,
    P: ConsoleParser,
{
    status: Status,
    check: ValidCheck,

    interact: ConsolePrompt,
    log: L,
    term: T,
    files: F,
    parser: P,
    pub _input_invalid: &'static str,

    auto_exc: ExecuteFile,

    current_ins: Option<String>,
    current_cmd: Option<String>,
}

impl<L, T, F, P> Console<L, T, F, P> where
    L: ConsoleLog,
    T: ConsoleTerminal,
    F: ConsoleFilesystem,
    P: ConsoleParser,
{
    /// The status the console shows the outside.
    pub closed spec fn spec_status(self) -> ConsoleStatus {
        self.status.current
    }

    /// The status retained from before the last refresh.
    pub closed spec fn spec_previous_status(self) -> ConsoleStatus {
        self.status.previous
    }

    /// The loaded automation tree with its cursors.
    pub closed spec fn tree(self) -> ExecuteFile {
        self.auto_exc
    }

    /// The three validity flags as a tuple: read, import, file.
    pub closed spec fn flags(self) -> (bool, bool, bool) {
        (self.check.read_valid, self.check.import_valid, self.check.file_valid)
    }

    /// Whether every validity flag is down, as at the end of any refresh.
    pub open spec fn flags_reset(self) -> bool {
        self.flags() == (false, false, false)
    }

    /// Whether everything but the loaded tree and its cursors is the same
    /// as in `pre`.
    pub open spec fn unchanged_except_tree(self, pre: Self) -> bool {
        &&& self.spec_status() == pre.spec_status()
        &&& self.spec_previous_status() == pre.spec_previous_status()
        &&& self.flags() == pre.flags()
        &&& self.main_prompt() == pre.main_prompt()
        &&& self.sub_prompt() == pre.sub_prompt()
        &&& self.spec_current_ins() == pre.spec_current_ins()
        &&& self.spec_current_cmd() == pre.spec_current_cmd()
        &&& self.invalid_message() == pre.invalid_message()
    }

    /// The instruction text most recently accepted.
    pub closed spec fn spec_current_ins(self) -> Option<String> {
        self.current_ins
    }

    /// The sub-command text most recently accepted.
    pub closed spec fn spec_current_cmd(self) -> Option<String> {
        self.current_cmd
    }

    /// The primary prompt's text.
    pub closed spec fn main_prompt(self) -> Seq<char> {
        self.interact.main_prompt@
    }

    /// The breadcrumb prompt's text.
    pub closed spec fn sub_prompt(self) -> Seq<char> {
        self.interact.sub_prompt@
    }

    /// The fixed invalid-input message queried from the log at
    /// construction.
    pub closed spec fn invalid_message(self) -> &'static str {
        self._input_invalid
    }

    /// Creates a console: `Invalid` status, no tree, all flags down, the
    /// default prompt pair, and the injected collaborators.
    pub fn new(log: L, term: T, files: F, parser: P) -> (c: Self)
        ensures
            c.spec_status() is Invalid,
            c.spec_previous_status() is Invalid,
            c.flags_reset(),
            c.main_prompt() == "> "@,
            c.sub_prompt() == Seq::<char>::empty(),
            c.tree().is_cleared(),
            c.spec_current_ins() is None,
            c.spec_current_cmd() is None,
    {
        let invalid_info = log.err_invalid();

        Console {
            status: Status {
                current: ConsoleStatus::Invalid,
                previous: ConsoleStatus::Invalid,
            },
            check: ValidCheck {
                read_valid: false,
                import_valid: false,
                file_valid: false,
            },

            interact: ConsolePrompt {
                main_prompt: "> ".to_owned(),
                sub_prompt: String::new(),
            },
            log: log,
            term: term,
            files: files,
            parser: parser,
            _input_invalid: invalid_info,

            auto_exc: ExecuteFile {
                file_address: None,
                exc_ins_assets: Vec::new(),
                cycle_times: None,
                next_exc_ins: None,
                next_exc_cmd: None,
            },

            current_ins: None,
            current_cmd: None,
        }
    }

    /// Resets the prompt pair to its defaults, as when a new
    /// instruction/command chain begins.
    fn prompt_clear(&mut self)
        ensures
            final(self).main_prompt() == "> "@,
            final(self).sub_prompt() == Seq::<char>::empty(),
            final(self).status == old(self).status,
            final(self).check == old(self).check,
            final(self).auto_exc == old(self).auto_exc,
            final(self).current_ins == old(self).current_ins,
            final(self).current_cmd == old(self).current_cmd,
            final(self)._input_invalid == old(self)._input_invalid,
    {
        self.interact.main_prompt = "> ".to_owned();
        self.interact.sub_prompt = String::new();
    }

    /// Drops everything loaded from an automation file: address, entries,
    /// cycle count and both cursors.
    fn exc_clear(&mut self)
        ensures
            final(self).tree().is_cleared(),
            final(self).status == old(self).status,
            final(self).check == old(self).check,
            final(self).interact == old(self).interact,
            final(self).current_ins == old(self).current_ins,
            final(self).current_cmd == old(self).current_cmd,
            final(self)._input_invalid == old(self)._input_invalid,
    {
        self.auto_exc.file_address = None;
        self.auto_exc.exc_ins_assets.clear();
        self.auto_exc.cycle_times = None;
        self.auto_exc.next_exc_cmd = None;
        self.auto_exc.next_exc_ins = None;
    }

    /// Lowers all three validity flags, as the end of every refresh does.
    fn check_reset(&mut self)
        ensures
            final(self).flags_reset(),
            final(self).status == old(self).status,
            final(self).interact == old(self).interact,
            final(self).auto_exc == old(self).auto_exc,
            final(self).current_ins == old(self).current_ins,
            final(self).current_cmd == old(self).current_cmd,
            final(self)._input_invalid == old(self)._input_invalid,
    {
        self.check.file_valid = false;
        self.check.import_valid = false;
        self.check.read_valid = false;
    }

    /// One pass of the state machine: computes the next status from the
    /// current one, the validity flags and the cursors, resolves a
    /// resulting `Invalid` straight back to terminal acquisition, notifies
    /// the log of any change, and lowers the flags.
    fn refresh(&mut self) -> (r: Result<(), DataError>)
        ensures
            ({
                let s = old(self).spec_status();
                let rv = old(self).flags().0;
                let fv = old(self).flags().2;
                let ins = old(self).tree().next_exc_ins is Some;
                let cmd = old(self).tree().next_exc_cmd is Some;
                &&& final(self).spec_status() == next_status(s, rv, fv, ins, cmd)
                &&& final(self).spec_previous_status() == previous_after(s, rv, fv, ins, cmd)
                &&& final(self).main_prompt() == if refresh_clears_prompt(s, rv, fv, ins, cmd) {
                    "> "@
                } else {
                    old(self).main_prompt()
                }
                &&& final(self).sub_prompt() == if refresh_clears_prompt(s, rv, fv, ins, cmd) {
                    Seq::<char>::empty()
                } else {
                    old(self).sub_prompt()
                }
            }),
            !(final(self).spec_status() is Invalid),
            final(self).flags_reset(),
            final(self).auto_exc == old(self).auto_exc,
            final(self).current_ins == old(self).current_ins,
            final(self).current_cmd == old(self).current_cmd,
            final(self)._input_invalid == old(self)._input_invalid,
            r is Ok,
    {
        self.status.previous = self.status.current;
        let next = match self.status.current {
            ConsoleStatus::Invalid => ConsoleStatus::AcquireFromTerminal,
            ConsoleStatus::AcquireFromFile | ConsoleStatus::ExecuteFromFile => {
                if self.auto_exc.next_exc_cmd.is_some() {
                    ConsoleStatus::ExecuteFromFile
                } else if self.auto_exc.next_exc_ins.is_some() {
                    self.prompt_clear();
                    ConsoleStatus::AcquireFromFile
                } else {
                    ConsoleStatus::Invalid
                }
            },
            ConsoleStatus::AcquireFromTerminal => {
                if self.check.read_valid {
                    ConsoleStatus::ExecuteFromTerminal
                } else {
                    ConsoleStatus::Invalid
                }
            },
            ConsoleStatus::ExecuteFromTerminal => {
                if self.check.read_valid {
                    if self.check.file_valid {
                        if self.auto_exc.next_exc_ins.is_some() {
                            self.prompt_clear();
                            ConsoleStatus::AcquireFromFile
                        } else {
                            ConsoleStatus::Invalid
                        }
                    } else {
                        ConsoleStatus::ExecuteFromTerminal
                    }
                } else {
                    ConsoleStatus::Invalid
                }
            },
        };
        self.status.current = next;

        if matches!(self.status.current, ConsoleStatus::Invalid) {
            self.prompt_clear();
            self.status.previous = self.status.current;
            self.status.current = ConsoleStatus::AcquireFromTerminal;
        }

        if self.status.current != self.status.previous {
            self.log.status_log(self.status.previous, self.status.current);
        }

        self.check_reset();
        Ok(())
    }

    /// The traversal engine: advances the cursors one step over the loaded
    /// tree and returns the text of the node they now point at, the
    /// sub-command cursor preferred. A contradictory or out-of-range
    /// cursor clears everything loaded and fails as corrupted; running off
    /// the end of the last pass leaves the cursors cleared and fails as
    /// exhausted. Repeated calls keep advancing; this is not idempotent.
    pub fn file_poll(&mut self) -> (r: Result<String, DataError>)
        ensures
            old(self).tree().poll_corrupts() ==> {
                &&& final(self).tree().is_cleared()
                &&& r is Err
                &&& r->Err_0 is TraversalCorrupted
            },
            !old(self).tree().poll_corrupts() ==> {
                &&& final(self).tree() == old(self).tree().poll_post()
                &&& match old(self).tree().poll_output() {
                    Some(t) => r is Ok && r->Ok_0@ == t,
                    None => r is Err && r->Err_0 is Exhausted,
                }
            },
            old(self).tree().n_ins() == 0 ==> {
                &&& r is Err
                &&& r->Err_0 is TraversalCorrupted
                &&& final(self).tree().is_cleared()
            },
            final(self).unchanged_except_tree(*old(self)),
    {
        let ins_idx: Option<usize> = match &self.auto_exc.next_exc_ins {
            Some(p) => Some(p.0),
            None => None,
        };
        let cmd_idx: Option<usize> = match &self.auto_exc.next_exc_cmd {
            Some(p) => Some(p.0),
            None => None,
        };
        let n_ins: usize = self.auto_exc.exc_ins_assets.len();

        match ins_idx {
            None => match cmd_idx {
                None => {
                    if n_ins > 0 {
                        let v = self.auto_exc.exc_ins_assets[0].exc_ins.clone();
                        self.auto_exc.next_exc_ins = Some((0, v));
                    } else {
                        self.exc_clear();
                        return Err(DataError::TraversalCorrupted(
                            "failed to fetch the first instruction: the imported instruction set is corrupted, import the file again".to_owned(),
                        ));
                    }
                },
                Some(_) => {
                    self.exc_clear();
                    return Err(DataError::TraversalCorrupted(
                        "a sub-command lost its main instruction, import the file again".to_owned(),
                    ));
                },
            },
            Some(i) => {
                if i >= n_ins {
                    self.exc_clear();
                    return Err(DataError::TraversalCorrupted(
                        "failed to read the pointed-at main instruction, import the file again".to_owned(),
                    ));
                }
                match cmd_idx {
                    None => {
                        let first_sub: Option<GenericCmd> = match &self.auto_exc.exc_ins_assets[i].sub_cmd_assets {
                            Some(v) => if v.len() > 0 {
                                Some(v[0].sub_cmd.clone())
                            } else {
                                None
                            },
                            None => None,
                        };
                        if let Some(c) = first_sub {
                            self.auto_exc.next_exc_cmd = Some((0, c));
                        } else if i + 1 < n_ins {
                            let v = self.auto_exc.exc_ins_assets[i + 1].exc_ins.clone();
                            self.auto_exc.next_exc_ins = Some((i + 1, v));
                        } else {
                            self.auto_exc.next_exc_ins = None;
                            if self.cycle_step() {
                                let v = self.auto_exc.exc_ins_assets[0].exc_ins.clone();
                                self.auto_exc.next_exc_ins = Some((0, v));
                            }
                        }
                    },
                    Some(j) => {
                        let next_sub: Option<Option<GenericCmd>> = match &self.auto_exc.exc_ins_assets[i].sub_cmd_assets {
                            Some(v) => if j < v.len() && j + 1 < v.len() {
                                Some(Some(v[j + 1].sub_cmd.clone()))
                            } else {
                                Some(None)
                            },
                            None => None,
                        };
                        match next_sub {
                            None => {
                                self.exc_clear();
                                return Err(DataError::TraversalCorrupted(
                                    "the sub-command set of the pointed-at instruction is lost, import the file again".to_owned(),
                                ));
                            },
                            Some(Some(c)) => {
                                self.auto_exc.next_exc_cmd = Some((j + 1, c));
                            },
                            Some(None) => {
                                if i + 1 < n_ins {
                                    let v = self.auto_exc.exc_ins_assets[i + 1].exc_ins.clone();
                                    self.auto_exc.next_exc_ins = Some((i + 1, v));
                                    self.auto_exc.next_exc_cmd = None;
                                } else {
                                    self.auto_exc.next_exc_ins = None;
                                    self.auto_exc.next_exc_cmd = None;
                                    if self.cycle_step() {
                                        let v = self.auto_exc.exc_ins_assets[0].exc_ins.clone();
                                        self.auto_exc.next_exc_ins = Some((0, v));
                                    }
                                }
                            },
                        }
                    },
                }
            },
        }

        let out: Option<String> = match &self.auto_exc.next_exc_cmd {
            Some(p) => Some(p.1.to_text()),
            None => match &self.auto_exc.next_exc_ins {
                Some(p) => Some(p.1.to_text()),
                None => None,
            },
        };
        match out {
            Some(t) => Ok(t),
            None => Err(DataError::Exhausted),
        }
    }

    /// Strips every trailing carriage return and line feed from a line of
    /// input.
    pub fn input_parser(&self, input: String) -> (r: String)
        ensures
            r@ == trim_crlf(input@),
    {
        let s = input.as_str();
        let len: usize = s.unicode_len();
        let mut end: usize = len;
        proof {
            assert(input@.subrange(0, len as int) =~= input@);
        }
        while end > 0 && is_trailing_break(s, end)
            invariant
                end <= len,
                len == input@.len(),
                s@ == input@,
                trim_crlf(input@) == trim_crlf(input@.subrange(0, end as int)),
            decreases end,
        {
            proof {
                assert(input@.subrange(0, end as int).drop_last() =~= input@.subrange(
                    0,
                    end - 1,
                ));
            }
            end = end - 1;
        }
        let t = s.substring_char(0, end);
        proof {
            assert(t@ == input@.subrange(0, end as int));
            assert(trim_crlf(input@.subrange(0, end as int)) == input@.subrange(0, end as int));
        }
        t.to_owned()
    }

    /// Validates one line of command text against the accepted character
    /// set: alphanumeric plus `. + - | @ space`, and not empty. A rejection
    /// names the expected character class.
    pub fn input_check(&self, input: &str) -> (r: Result<bool, DataError>)
        ensures
            r is Ok <==> valid_text(input@),
            r is Ok ==> r->Ok_0 == true,
            r is Err ==> (r->Err_0 matches DataError::InvalidInput { expected, found }
                && expected@ == "specified command characters"@
                && found@ == "invalid characters"@),
    {
        let len: usize = input.unicode_len();
        if len == 0 {
            return Err(DataError::InvalidInput {
                expected: "specified command characters".to_owned(),
                found: "invalid characters".to_owned(),
            });
        }
        let mut i: usize = 0;
        while i < len
            invariant
                i <= len,
                len == input@.len(),
                forall|k: int| 0 <= k < i ==> valid_char(#[trigger] input@[k]),
            decreases len - i,
        {
            let c = input.get_char(i);
            let accepted = c.is_alphanumeric() || c == '.' || c == '+' || c == '-' || c == '|'
                || c == '@' || c == ' ';
            if !accepted {
                proof {
                    assert(!valid_char(input@[i as int]));
                }
                return Err(DataError::InvalidInput {
                    expected: "specified command characters".to_owned(),
                    found: "invalid characters".to_owned(),
                });
            }
            i = i + 1;
        }
        Ok(true)
    }

    /// Acquires one line from the terminal collaborator, trims and
    /// validates it, stores it as the current instruction or sub-command,
    /// extends the breadcrumb prompt, and echoes it to the log. A terminal
    /// fault or a rejected line is surfaced without touching the validity
    /// flags.
    fn terminal_read(&mut self, _prompt: &str) -> (r: Result<String, DataError>)
        requires
            old(self).status.current is AcquireFromTerminal || old(self).status.current
                is ExecuteFromTerminal,
        ensures
            r is Ok ==> ({
                let s = r->Ok_0;
                &&& valid_text(s@)
                &&& final(self).check == (ValidCheck { read_valid: true, ..old(self).check })
                &&& (old(self).status.current is AcquireFromTerminal ==> final(self).current_ins
                    == Some(s) && final(self).current_cmd == old(self).current_cmd)
                &&& (old(self).status.current is ExecuteFromTerminal ==> final(self).current_cmd
                    == Some(s) && final(self).current_ins == old(self).current_ins)
                &&& final(self).interact.sub_prompt@ == old(self).interact.sub_prompt@ + s@
                    + " > "@
                &&& final(self).interact.main_prompt@ == old(self).interact.main_prompt@
            }),
            r is Err ==> ({
                &&& r->Err_0 is InvalidInput
                &&& final(self).check == old(self).check
                &&& final(self).current_ins == old(self).current_ins
                &&& final(self).current_cmd == old(self).current_cmd
                &&& final(self).interact.main_prompt@ == old(self).interact.main_prompt@
                &&& final(self).interact.sub_prompt@ == old(self).interact.sub_prompt@
            }),
            final(self).status == old(self).status,
            final(self).auto_exc == old(self).auto_exc,
            final(self)._input_invalid == old(self)._input_invalid,
    {
        let line = match self.term.line_read() {
            Ok(l) => l,
            Err(_) => {
                return Err(DataError::InvalidInput {
                    expected: "terminal input".to_owned(),
                    found: "invalid input".to_owned(),
                });
            },
        };

        let input = self.input_parser(line);
        let valid = match self.input_check(input.as_str()) {
            Ok(b) => b,
            Err(e) => {
                return Err(e);
            },
        };
        self.check.read_valid = valid;

        if matches!(self.status.current, ConsoleStatus::AcquireFromTerminal) {
            self.current_ins = Some(input.clone());
        } else {
            self.current_cmd = Some(input.clone());
        }
        self.interact.sub_prompt.append(input.as_str());
        self.interact.sub_prompt.append(" > ");

        self.log.terminal_exc_log(input.as_str());

        Ok(input)
    }

    /// Serves the node the cursors point at (the instruction in file
    /// acquisition, the sub-command in file execution), advances the
    /// traversal engine before validating so a rejected node is not served
    /// again, then trims, validates, stores, extends the primary prompt
    /// and echoes, as a terminal read does.
    fn file_read(&mut self, _prompt: &str) -> (r: Result<String, DataError>)
        requires
            old(self).status.current is AcquireFromFile || old(self).status.current
                is ExecuteFromFile,
        ensures
            ({
                let pre = *old(self);
                let post = *final(self);
                let consumed = if pre.status.current is AcquireFromFile {
                    pre.auto_exc.next_exc_ins
                } else {
                    pre.auto_exc.next_exc_cmd
                };
                &&& (consumed is None ==> {
                    &&& r is Err
                    &&& r->Err_0 is Exhausted
                    &&& post.unchanged_except_tree(pre)
                    &&& post.auto_exc == pre.auto_exc
                })
                &&& (consumed is Some ==> ({
                    let t = trim_crlf((consumed->0).1.text());
                    &&& (pre.auto_exc.poll_corrupts() ==> post.auto_exc.is_cleared())
                    &&& (!pre.auto_exc.poll_corrupts() ==> post.auto_exc
                        == pre.auto_exc.poll_post())
                    &&& (valid_text(t) ==> {
                        &&& r is Ok
                        &&& r->Ok_0@ == t
                        &&& post.check == (ValidCheck { read_valid: true, ..pre.check })
                        &&& (pre.status.current is AcquireFromFile ==> post.current_ins
                            == Some(r->Ok_0) && post.current_cmd == pre.current_cmd)
                        &&& (pre.status.current is ExecuteFromFile ==> post.current_cmd
                            == Some(r->Ok_0) && post.current_ins == pre.current_ins)
                        &&& post.interact.main_prompt@ == pre.interact.main_prompt@ + t + " > "@
                        &&& post.interact.sub_prompt@ == pre.interact.sub_prompt@
                    })
                    &&& (!valid_text(t) ==> {
                        &&& r is Err
                        &&& r->Err_0 is InvalidInput
                        &&& post.check == pre.check
                        &&& post.current_ins == pre.current_ins
                        &&& post.current_cmd == pre.current_cmd
                        &&& post.interact.main_prompt@ == pre.interact.main_prompt@
                        &&& post.interact.sub_prompt@ == pre.interact.sub_prompt@
                    })
                }))
            }),
            final(self).status == old(self).status,
            final(self)._input_invalid == old(self)._input_invalid,
    {
        let text: Option<String> = if matches!(self.status.current, ConsoleStatus::AcquireFromFile) {
            match &self.auto_exc.next_exc_ins {
                Some(p) => Some(p.1.to_text()),
                None => None,
            }
        } else {
            match &self.auto_exc.next_exc_cmd {
                Some(p) => Some(p.1.to_text()),
                None => None,
            }
        };
        let raw = match text {
            Some(t) => t,
            None => {
                return Err(DataError::Exhausted);
            },
        };
        let _ = self.file_poll();

        let input = self.input_parser(raw);
        let valid = match self.input_check(input.as_str()) {
            Ok(b) => b,
            Err(e) => {
                return Err(e);
            },
        };
        self.check.read_valid = valid;

        if matches!(self.status.current, ConsoleStatus::AcquireFromFile) {
            self.current_ins = Some(input.clone());
        } else {
            self.current_cmd = Some(input.clone());
        }
        self.interact.main_prompt.append(input.as_str());
        self.interact.main_prompt.append(" > ");

        self.log.file_exc_log(input.as_str());

        Ok(input)
    }

    /// Initializes the console after construction: one refresh forces the
    /// first transition out of `Invalid` into terminal acquisition.
    pub fn setup(&mut self)
        ensures
            ({
                let s = old(self).spec_status();
                let rv = old(self).flags().0;
                let fv = old(self).flags().2;
                let ins = old(self).tree().next_exc_ins is Some;
                let cmd = old(self).tree().next_exc_cmd is Some;
                &&& final(self).spec_status() == next_status(s, rv, fv, ins, cmd)
                &&& final(self).spec_previous_status() == previous_after(s, rv, fv, ins, cmd)
                &&& final(self).main_prompt() == (if refresh_clears_prompt(s, rv, fv, ins, cmd) {
                    "> "@
                } else {
                    old(self).main_prompt()
                })
                &&& final(self).sub_prompt() == (if refresh_clears_prompt(s, rv, fv, ins, cmd) {
                    Seq::<char>::empty()
                } else {
                    old(self).sub_prompt()
                })
            }),
            !(final(self).spec_status() is Invalid),
            final(self).flags_reset(),
            final(self).tree() == old(self).tree(),
            final(self).spec_current_ins() == old(self).spec_current_ins(),
            final(self).spec_current_cmd() == old(self).spec_current_cmd(),
    {
        let _ = self.refresh();
    }

    /// Called when a set of instructions has completed execution: one
    /// refresh normalizes the status for the next round.
    pub fn taildowm(&mut self)
        ensures
            ({
                let s = old(self).spec_status();
                let rv = old(self).flags().0;
                let fv = old(self).flags().2;
                let ins = old(self).tree().next_exc_ins is Some;
                let cmd = old(self).tree().next_exc_cmd is Some;
                &&& final(self).spec_status() == next_status(s, rv, fv, ins, cmd)
                &&& final(self).spec_previous_status() == previous_after(s, rv, fv, ins, cmd)
                &&& final(self).main_prompt() == (if refresh_clears_prompt(s, rv, fv, ins, cmd) {
                    "> "@
                } else {
                    old(self).main_prompt()
                })
                &&& final(self).sub_prompt() == (if refresh_clears_prompt(s, rv, fv, ins, cmd) {
                    Seq::<char>::empty()
                } else {
                    old(self).sub_prompt()
                })
            }),
            !(final(self).spec_status() is Invalid),
            final(self).flags_reset(),
            final(self).tree() == old(self).tree(),
            final(self).spec_current_ins() == old(self).spec_current_ins(),
            final(self).spec_current_cmd() == old(self).spec_current_cmd(),
    {
        let _ = self.refresh();
    }

    /// The status the console currently shows.
    pub fn status(&self) -> (s: ConsoleStatus)
        ensures
            s == self.spec_status(),
    {
        self.status.current
    }

    /// Acquires the next command text from whichever source the current
    /// status selects, echoes the prompt first, and always finishes with a
    /// state-machine refresh, so a failed read still normalizes the
    /// status.
    pub fn read(&mut self, prompt: &str) -> (r: Result<String, DataError>)
        ensures
            !(final(self).spec_status() is Invalid),
            final(self).flags_reset(),
            r is Ok ==> valid_text(r->Ok_0@),
            old(self).spec_status() is Invalid ==> {
                &&& r is Err
                &&& r->Err_0 is InvalidInput
                &&& final(self).spec_status() is AcquireFromTerminal
                &&& final(self).tree() == old(self).tree()
            },
            (old(self).spec_status() is AcquireFromTerminal || old(self).spec_status()
                is ExecuteFromTerminal) && r is Err ==> {
                &&& r->Err_0 is InvalidInput
                &&& final(self).tree() == old(self).tree()
                &&& (old(self).flags_reset() ==> final(self).spec_status()
                    is AcquireFromTerminal)
            },
            old(self).spec_status() is AcquireFromTerminal && r is Ok ==> {
                &&& final(self).spec_status() is ExecuteFromTerminal
                &&& final(self).spec_previous_status() is AcquireFromTerminal
                &&& final(self).spec_current_ins() == Some(r->Ok_0)
                &&& final(self).tree() == old(self).tree()
            },
            old(self).spec_status() is ExecuteFromTerminal && r is Ok ==> {
                &&& final(self).spec_current_cmd() == Some(r->Ok_0)
                &&& final(self).tree() == old(self).tree()
                &&& final(self).spec_status() == (if old(self).flags().2 {
                    if old(self).tree().next_exc_ins is Some {
                        ConsoleStatus::AcquireFromFile
                    } else {
                        ConsoleStatus::AcquireFromTerminal
                    }
                } else {
                    ConsoleStatus::ExecuteFromTerminal
                })
            },
            old(self).spec_status() is AcquireFromFile || old(self).spec_status()
                is ExecuteFromFile ==> ({
                let after = final(self).tree();
                final(self).spec_status() == (if after.next_exc_cmd is Some {
                    ConsoleStatus::ExecuteFromFile
                } else if after.next_exc_ins is Some {
                    ConsoleStatus::AcquireFromFile
                } else {
                    ConsoleStatus::AcquireFromTerminal
                })
            }),
            old(self).spec_status() is AcquireFromFile || old(self).spec_status()
                is ExecuteFromFile ==> ({
                let pre_tree = old(self).tree();
                let consumed = if old(self).spec_status() is AcquireFromFile {
                    pre_tree.next_exc_ins
                } else {
                    pre_tree.next_exc_cmd
                };
                &&& (consumed is None ==> final(self).tree() == pre_tree)
                &&& (consumed is Some && pre_tree.poll_corrupts()
                    ==> final(self).tree().is_cleared())
                &&& (consumed is Some && !pre_tree.poll_corrupts() ==> final(self).tree()
                    == pre_tree.poll_post())
            }),
            old(self).spec_status() is AcquireFromFile ==> ({
                let cur = old(self).tree().next_exc_ins;
                &&& (cur is None ==> r is Err && r->Err_0 is Exhausted)
                &&& (cur is Some && valid_text(trim_crlf((cur->0).1.text())) ==> r is Ok)
                &&& (r is Ok ==> cur is Some && r->Ok_0@ == trim_crlf((cur->0).1.text())
                    && final(self).spec_current_ins() == Some(r->Ok_0))
            }),
            old(self).spec_status() is ExecuteFromFile ==> ({
                let cur = old(self).tree().next_exc_cmd;
                &&& (cur is None ==> r is Err && r->Err_0 is Exhausted)
                &&& (cur is Some && valid_text(trim_crlf((cur->0).1.text())) ==> r is Ok)
                &&& (r is Ok ==> cur is Some && r->Ok_0@ == trim_crlf((cur->0).1.text())
                    && final(self).spec_current_cmd() == Some(r->Ok_0))
            }),
    {
        let mut echo = self.interact.main_prompt.clone();
        echo.append(self.interact.sub_prompt.as_str());
        if !prompt.is_empty() {
            echo.append("\r\n");
            echo.append(prompt);
        }
        self.log.prompt_log(echo.as_str());

        let cmd = match self.status.current {
            ConsoleStatus::AcquireFromTerminal | ConsoleStatus::ExecuteFromTerminal => {
                self.terminal_read(prompt)
            },
            ConsoleStatus::AcquireFromFile | ConsoleStatus::ExecuteFromFile => {
                self.file_read(prompt)
            },
            ConsoleStatus::Invalid => {
                let _ = self.refresh();
                return Err(DataError::InvalidInput {
                    expected: "determined console status".to_owned(),
                    found: "invalid status".to_owned(),
                });
            },
        };

        let _ = self.refresh();
        cmd
    }

    /// As `read`, but swallows the failure: the error goes to the log and
    /// the caller receives the empty string. A non-empty result is exactly
    /// a successful read, and the state changes are those of `read`.
    pub fn read_no_err(&mut self, prompt: &str) -> (r: String)
        ensures
            !(final(self).spec_status() is Invalid),
            final(self).flags_reset(),
            r@.len() > 0 ==> valid_text(r@),
            old(self).spec_status() is Invalid ==> {
                &&& r@.len() == 0
                &&& final(self).spec_status() is AcquireFromTerminal
                &&& final(self).tree() == old(self).tree()
            },
            (old(self).spec_status() is AcquireFromTerminal || old(self).spec_status()
                is ExecuteFromTerminal) && r@.len() == 0 ==> {
                &&& final(self).tree() == old(self).tree()
                &&& (old(self).flags_reset() ==> final(self).spec_status()
                    is AcquireFromTerminal)
            },
            old(self).spec_status() is AcquireFromTerminal && r@.len() > 0 ==> {
                &&& final(self).spec_status() is ExecuteFromTerminal
                &&& final(self).spec_current_ins() == Some(r)
                &&& final(self).tree() == old(self).tree()
            },
            old(self).spec_status() is ExecuteFromTerminal && r@.len() > 0 ==> {
                &&& final(self).spec_current_cmd() == Some(r)
                &&& final(self).tree() == old(self).tree()
                &&& final(self).spec_status() == (if old(self).flags().2 {
                    if old(self).tree().next_exc_ins is Some {
                        ConsoleStatus::AcquireFromFile
                    } else {
                        ConsoleStatus::AcquireFromTerminal
                    }
                } else {
                    ConsoleStatus::ExecuteFromTerminal
                })
            },
            old(self).spec_status() is AcquireFromFile || old(self).spec_status()
                is ExecuteFromFile ==> ({
                let after = final(self).tree();
                final(self).spec_status() == (if after.next_exc_cmd is Some {
                    ConsoleStatus::ExecuteFromFile
                } else if after.next_exc_ins is Some {
                    ConsoleStatus::AcquireFromFile
                } else {
                    ConsoleStatus::AcquireFromTerminal
                })
            }),
            old(self).spec_status() is AcquireFromFile ==> ({
                let cur = old(self).tree().next_exc_ins;
                &&& (cur is None ==> r@.len() == 0)
                &&& (cur is Some && valid_text(trim_crlf((cur->0).1.text())) ==> r@.len() > 0)
                &&& (r@.len() > 0 ==> cur is Some && r@ == trim_crlf((cur->0).1.text())
                    && final(self).spec_current_ins() == Some(r))
            }),
            old(self).spec_status() is ExecuteFromFile ==> ({
                let cur = old(self).tree().next_exc_cmd;
                &&& (cur is None ==> r@.len() == 0)
                &&& (cur is Some && valid_text(trim_crlf((cur->0).1.text())) ==> r@.len() > 0)
                &&& (r@.len() > 0 ==> cur is Some && r@ == trim_crlf((cur->0).1.text())
                    && final(self).spec_current_cmd() == Some(r))
            }),
    {
        match self.read(prompt) {
            Ok(input) => input,
            Err(err_info) => {
                self.log.err_log(&err_info);
                String::new()
            },
        }
    }

    /// Loads an automation file: clears whatever was loaded before,
    /// acquires the path through a full read, pulls the content from the
    /// filesystem collaborator, parses it through the format collaborator,
    /// installs the tree with no cursors (the schema carries none), primes
    /// the cursor with one poll, and raises the import flags. Success
    /// leaves the cursor at the first instruction — one step ahead of the
    /// first consumption, not two. Every failure still refreshes the state
    /// machine, and a failure before the new tree is installed leaves no
    /// stale instructions behind.
    pub fn file_import(&mut self) -> (r: Result<(), DataError>)
        ensures
            !(final(self).spec_status() is Invalid),
            final(self).flags_reset(),
            r is Ok ==> ({
                let after = final(self).tree();
                &&& after.next_exc_ins == Some((0usize, after.ins_cmd(0)))
                &&& after.next_exc_cmd is None
                &&& after.n_ins() > 0
            }),
            final(self).spec_status() is AcquireFromFile ==> final(self).tree().next_exc_ins
                is Some,
            old(self).flags_reset() && r is Ok ==> final(self).spec_status()
                is AcquireFromFile,
            old(self).flags_reset() && r is Err ==> final(self).spec_status()
                is AcquireFromTerminal,
            r is Err && !(r->Err_0 is Exhausted) ==> {
                &&& final(self).tree().n_ins() == 0
                &&& final(self).tree().next_exc_ins is None
                &&& final(self).tree().next_exc_cmd is None
                &&& final(self).tree().cycle_times is None
            },
    {
        self.exc_clear();

        let path = match self.read("enter the automation file path") {
            Ok(p) => p,
            Err(e) => {
                let _ = self.refresh();
                return Err(e);
            },
        };
        self.auto_exc.file_address = Some(path.clone());
        self.check.read_valid = true;
        self.check.file_valid = true;

        let content = match self.files.read_to_string(path.as_str()) {
            Ok(c) => c,
            Err(e) => {
                let _ = self.refresh();
                return Err(e);
            },
        };

        let parsed = match self.parser.parse(content.as_str()) {
            Ok(tree) => tree,
            Err(_) => {
                let _ = self.refresh();
                return Err(DataError::MalformedAutomation(
                    "the file content is malformed; it must provide: an optional cycle count for the whole run (one pass when absent), a mandatory main instruction in each entry, and optional sub-commands in each entry".to_owned(),
                ));
            },
        };
        self.auto_exc = parsed;
        self.auto_exc.next_exc_ins = None;
        self.auto_exc.next_exc_cmd = None;

        let ghost fresh = self.auto_exc;
        match self.file_poll() {
            Ok(_) => {
                proof {
                    fresh.lemma_prime_fresh_tree();
                }
            },
            Err(e) => {
                let _ = self.refresh();
                return Err(e);
            },
        }
        self.check.import_valid = true;

        let _ = self.refresh();
        Ok(())
    }

    /// As `file_import`, but swallows the failure: the error goes to the
    /// log. From a flags-down state the console ends either acquiring from
    /// the freshly primed file or back at terminal acquisition.
    pub fn file_import_no_err(&mut self)
        ensures
            !(final(self).spec_status() is Invalid),
            final(self).flags_reset(),
            old(self).flags_reset() ==> (final(self).spec_status() is AcquireFromFile
                || final(self).spec_status() is AcquireFromTerminal),
            final(self).spec_status() is AcquireFromFile ==> final(self).tree().next_exc_ins
                is Some,
            old(self).flags_reset() && final(self).spec_status() is AcquireFromFile ==> ({
                let after = final(self).tree();
                &&& after.next_exc_ins == Some((0usize, after.ins_cmd(0)))
                &&& after.next_exc_cmd is None
            }),
    {
        match self.file_import() {
            Ok(_) => {},
            Err(err_info) => {
                self.log.err_log(&err_info);
            },
        }
    }

    /// Applies the cycle policy at the end of a pass: decrements a present
    /// cycle count (never below zero) and says whether another pass is
    /// owed.
    fn cycle_step(&mut self) -> (repeat: bool)
        ensures
            final(self).auto_exc == (ExecuteFile {
                cycle_times: dec_cycle(old(self).auto_exc.cycle_times),
                ..old(self).auto_exc
            }),
            repeat == cycle_repeats(old(self).auto_exc.cycle_times),
            final(self).status == old(self).status,
            final(self).check == old(self).check,
            final(self).interact == old(self).interact,
            final(self).current_ins == old(self).current_ins,
            final(self).current_cmd == old(self).current_cmd,
            final(self)._input_invalid == old(self)._input_invalid,
    {
        match self.auto_exc.cycle_times {
            Some(c) => {
                let nc: usize = if c == 0 {
                    0
                } else {
                    c - 1
                };
                self.auto_exc.cycle_times = Some(nc);
                nc != 0
            },
            None => false,
        }
    }
}

} // verus!
