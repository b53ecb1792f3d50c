//! The console status and its transition table.

use vstd::prelude::*;

verus! {

/// The console's position in its acquisition/execution protocol.
///
/// An acquisition status waits for the next top-level instruction, an
/// execution status waits for a sub-command of the instruction already
/// acquired; each comes in a from-file and a from-terminal flavour.
/// `Invalid` is transient only: a refresh never leaves it observable.
#[derive(Debug, Clone, Copy, PartialEq, Eq, Structural)]
pub enum ConsoleStatus {
    AcquireFromFile,
    AcquireFromTerminal,
    ExecuteFromFile,
    ExecuteFromTerminal,
    Invalid,
}

/// One raw pass of the transition table, before `Invalid` is normalized.
///
/// The inputs besides the current status are the validity flags set during
/// the read that just finished and whether the traversal cursors point at a
/// node.
pub open spec fn raw_next_status(
    current: ConsoleStatus,
    read_valid: bool,
    file_valid: bool,
    ins_some: bool,
    cmd_some: bool,
) -> ConsoleStatus {
    match current {
        ConsoleStatus::Invalid => ConsoleStatus::AcquireFromTerminal,
        ConsoleStatus::AcquireFromFile | ConsoleStatus::ExecuteFromFile => if cmd_some {
            ConsoleStatus::ExecuteFromFile
        } else if ins_some {
            ConsoleStatus::AcquireFromFile
        } else {
            ConsoleStatus::Invalid
        },
        ConsoleStatus::AcquireFromTerminal => if read_valid {
            ConsoleStatus::ExecuteFromTerminal
        } else {
            ConsoleStatus::Invalid
        },
        ConsoleStatus::ExecuteFromTerminal => if !read_valid {
            ConsoleStatus::Invalid
        } else if !file_valid {
            ConsoleStatus::ExecuteFromTerminal
        } else if ins_some {
            ConsoleStatus::AcquireFromFile
        } else {
            ConsoleStatus::Invalid
        },
    }
}

/// The status a refresh settles on: the raw transition with a resulting
/// `Invalid` immediately resolved back to terminal acquisition.
pub open spec fn next_status(
    current: ConsoleStatus,
    read_valid: bool,
    file_valid: bool,
    ins_some: bool,
    cmd_some: bool,
) -> ConsoleStatus {
    if raw_next_status(current, read_valid, file_valid, ins_some, cmd_some)
        is Invalid {
        ConsoleStatus::AcquireFromTerminal
    } else {
        raw_next_status(current, read_valid, file_valid, ins_some, cmd_some)
    }
}

/// The retained previous status after a refresh: the status the refresh
/// started from, except that a raw transition into `Invalid` records
/// `Invalid` itself before the normalization takes over.
pub open spec fn previous_after(
    current: ConsoleStatus,
    read_valid: bool,
    file_valid: bool,
    ins_some: bool,
    cmd_some: bool,
) -> ConsoleStatus {
    if raw_next_status(current, read_valid, file_valid, ins_some, cmd_some)
        is Invalid {
        ConsoleStatus::Invalid
    } else {
        current
    }
}

/// A refresh never settles on `Invalid`: whatever the table yields, the
/// settled status is a real one, and a raw transition into `Invalid` is
/// replaced by terminal acquisition in the same refresh, with the prompt
/// pair reset and `Invalid` recorded as the previous status.
pub proof fn lemma_refresh_never_invalid(
    current: ConsoleStatus,
    read_valid: bool,
    file_valid: bool,
    ins_some: bool,
    cmd_some: bool,
)
    ensures
        !(next_status(current, read_valid, file_valid, ins_some, cmd_some) is Invalid),
        raw_next_status(current, read_valid, file_valid, ins_some, cmd_some) is Invalid ==> {
            &&& next_status(current, read_valid, file_valid, ins_some, cmd_some)
                is AcquireFromTerminal
            &&& previous_after(current, read_valid, file_valid, ins_some, cmd_some) is Invalid
            &&& refresh_clears_prompt(current, read_valid, file_valid, ins_some, cmd_some)
        },
{
}

/// The start-up round trip of the status machine: a refresh from `Invalid`
/// reaches terminal acquisition, and a refresh after a valid terminal read
/// reaches terminal execution, each retaining the status it left.
pub proof fn lemma_startup_round_trip(file_valid: bool, ins_some: bool, cmd_some: bool)
    ensures
        next_status(ConsoleStatus::Invalid, false, false, ins_some, cmd_some)
            is AcquireFromTerminal,
        previous_after(ConsoleStatus::Invalid, false, false, ins_some, cmd_some) is Invalid,
        next_status(ConsoleStatus::AcquireFromTerminal, true, file_valid, ins_some, cmd_some)
            is ExecuteFromTerminal,
        previous_after(ConsoleStatus::AcquireFromTerminal, true, file_valid, ins_some, cmd_some)
            is AcquireFromTerminal,
{
}

/// Whether a refresh resets the prompt pair: on every return to file
/// acquisition (a new instruction chain begins) and on every normalization
/// out of `Invalid`.
pub open spec fn refresh_clears_prompt(
    current: ConsoleStatus,
    read_valid: bool,
    file_valid: bool,
    ins_some: bool,
    cmd_some: bool,
) -> bool {
    raw_next_status(current, read_valid, file_valid, ins_some, cmd_some)
        is Invalid || raw_next_status(current, read_valid, file_valid, ins_some, cmd_some)
        is AcquireFromFile
}

} // verus!
