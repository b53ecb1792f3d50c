//! The automation tree: an ordered list of instructions, each with an
//! optional ordered list of sub-commands, together with the traversal
//! cursors and the cycle count. The specification of one cursor-advance
//! step (`poll_post` and its companions) lives here too.

use vstd::prelude::*;
use crate::command::GenericCmd;

verus! {

/// One sub-command of an instruction.
#[derive(Debug)]
pub struct SubCmd {
    pub sub_cmd: GenericCmd,
}

/// One instruction entry: the mandatory instruction value and its optional
/// sub-commands.
#[derive(Debug)]
pub struct ExecuteAssets {
    pub exc_ins: GenericCmd,
    pub sub_cmd_assets: Option<Vec<SubCmd>>,
}

/// The loaded automation file: where it came from, the instruction entries,
/// how many passes remain, and the two traversal cursors.
///
/// `cycle_times` counts total passes; an absent count means exactly one
/// pass. Each cursor pairs an index with the value it points at;
/// `next_exc_cmd` may only be present while `next_exc_ins` is — the
/// traversal engine treats the opposite as corruption.
#[derive(Debug)]
pub struct ExecuteFile {
    pub file_address: Option<String>,
    pub exc_ins_assets: Vec<ExecuteAssets>,
    pub cycle_times: Option<usize>,
    pub next_exc_ins: Option<(usize, GenericCmd)>,
    pub next_exc_cmd: Option<(usize, GenericCmd)>,
}

/// The cycle count after one pass completes: decremented if present, never
/// below zero.
pub open spec fn dec_cycle(c: Option<usize>) -> Option<usize> {
    match c {
        Some(n) => if n == 0 {
            Some(0usize)
        } else {
            Some((n - 1) as usize)
        },
        None => None,
    }
}

/// Whether finishing a pass leaves at least one further pass to run.
pub open spec fn cycle_repeats(c: Option<usize>) -> bool {
    match c {
        Some(n) => n >= 2,
        None => false,
    }
}

impl ExecuteFile {
    /// How many instruction entries the tree holds.
    pub open spec fn n_ins(self) -> nat {
        self.exc_ins_assets@.len()
    }

    /// The instruction value of entry `i`.
    pub open spec fn ins_cmd(self, i: int) -> GenericCmd {
        self.exc_ins_assets@[i].exc_ins
    }

    /// The sub-command list of entry `i`, if the entry has one.
    pub open spec fn sub_list(self, i: int) -> Option<Vec<SubCmd>> {
        self.exc_ins_assets@[i].sub_cmd_assets
    }

    /// Whether entry `i` carries a sub-command list at all (even an empty
    /// one).
    pub open spec fn has_sub_list(self, i: int) -> bool {
        self.sub_list(i) is Some
    }

    /// How many sub-commands entry `i` has; an absent list counts as none.
    pub open spec fn n_subs(self, i: int) -> nat {
        match self.sub_list(i) {
            Some(v) => v@.len(),
            None => 0,
        }
    }

    /// The sub-command value `j` of entry `i`.
    pub open spec fn sub_cmd(self, i: int, j: int) -> GenericCmd {
        self.sub_list(i)->0@[j].sub_cmd
    }

    /// The state after everything loaded from a file is dropped: no
    /// address, no entries, no cycle count, no cursors.
    pub open spec fn is_cleared(self) -> bool {
        &&& self.file_address is None
        &&& self.n_ins() == 0
        &&& self.cycle_times is None
        &&& self.next_exc_ins is None
        &&& self.next_exc_cmd is None
    }

    /// Whether a cursor-advance step must fail on a contradiction: a
    /// sub-command cursor without an instruction cursor, an instruction
    /// cursor past the tree (a never-seeded empty tree included), or a
    /// sub-command cursor into an entry that has no sub-command list.
    pub open spec fn poll_corrupts(self) -> bool {
        match self.next_exc_ins {
            None => self.next_exc_cmd is Some || self.n_ins() == 0,
            Some((i, _)) => i >= self.n_ins() || (self.next_exc_cmd is Some
                && !self.has_sub_list(i as int)),
        }
    }

    /// The cursors and cycle count after one non-corrupt cursor-advance
    /// step. An empty cursor pair seeds the first instruction; a lone
    /// instruction cursor descends into the entry's sub-commands or moves
    /// to the next entry; a full cursor pair advances along the
    /// sub-commands first. An entry whose sub-command list is absent or
    /// empty is left as soon as it was served. On exhaustion the cycle
    /// policy applies: with passes left the first instruction is reseeded,
    /// otherwise the cursors stay cleared.
    pub open spec fn poll_post(self) -> ExecuteFile {
        match self.next_exc_ins {
            None => ExecuteFile {
                next_exc_ins: Some((0usize, self.ins_cmd(0))),
                ..self
            },
            Some((i, _)) => match self.next_exc_cmd {
                None => if self.n_subs(i as int) > 0 {
                    ExecuteFile {
                        next_exc_cmd: Some((0usize, self.sub_cmd(i as int, 0))),
                        ..self
                    }
                } else if i + 1 < self.n_ins() {
                    ExecuteFile {
                        next_exc_ins: Some(((i + 1) as usize, self.ins_cmd(i + 1))),
                        ..self
                    }
                } else if cycle_repeats(self.cycle_times) {
                    ExecuteFile {
                        next_exc_ins: Some((0usize, self.ins_cmd(0))),
                        cycle_times: dec_cycle(self.cycle_times),
                        ..self
                    }
                } else {
                    ExecuteFile {
                        next_exc_ins: None,
                        cycle_times: dec_cycle(self.cycle_times),
                        ..self
                    }
                },
                Some((j, _)) => if j + 1 < self.n_subs(i as int) {
                    ExecuteFile {
                        next_exc_cmd: Some(((j + 1) as usize, self.sub_cmd(i as int, j + 1))),
                        ..self
                    }
                } else if i + 1 < self.n_ins() {
                    ExecuteFile {
                        next_exc_ins: Some(((i + 1) as usize, self.ins_cmd(i + 1))),
                        next_exc_cmd: None,
                        ..self
                    }
                } else if cycle_repeats(self.cycle_times) {
                    ExecuteFile {
                        next_exc_ins: Some((0usize, self.ins_cmd(0))),
                        next_exc_cmd: None,
                        cycle_times: dec_cycle(self.cycle_times),
                        ..self
                    }
                } else {
                    ExecuteFile {
                        next_exc_ins: None,
                        next_exc_cmd: None,
                        cycle_times: dec_cycle(self.cycle_times),
                        ..self
                    }
                },
            },
        }
    }

    /// Priming a freshly loaded tree (no cursors yet, at least one
    /// instruction) seeds exactly the first instruction: one advance
    /// leaves the cursor one step ahead of the first consumption, not
    /// two, and touches nothing else.
    pub proof fn lemma_prime_fresh_tree(self)
        requires
            self.next_exc_ins is None,
            self.next_exc_cmd is None,
            self.n_ins() > 0,
        ensures
            !self.poll_corrupts(),
            self.poll_post().next_exc_ins == Some((0usize, self.ins_cmd(0))),
            self.poll_post().next_exc_cmd is None,
            self.poll_post().exc_ins_assets == self.exc_ins_assets,
            self.poll_post().cycle_times == self.cycle_times,
            self.poll_output() == Some(self.ins_cmd(0).text()),
    {
    }

    /// The text a non-corrupt cursor-advance step hands back: the node the
    /// advanced cursors now point at, the sub-command cursor preferred;
    /// nothing when both cursors came out empty (the tree is exhausted).
    pub open spec fn poll_output(self) -> Option<Seq<char>> {
        let p = self.poll_post();
        if p.next_exc_cmd is Some {
            Some((p.next_exc_cmd->0).1.text())
        } else if p.next_exc_ins is Some {
            Some((p.next_exc_ins->0).1.text())
        } else {
            None
        }
    }
}

} // verus!
