use crate::instructions::{step_spec, Instruction};
use crate::model::{Fault, FlowView, MachineView};
use crate::runtime::{ControlFlow, RunError, RuntimeArgs};
use vstd::prelude::*;

verus! {

/// The phases of a run: still running, ended normally because the cursor
/// left the program, or halted on the fault an instruction reported.
pub ghost enum Status {
    Running(MachineView, FlowView),
    Done(MachineView, FlowView),
    Failed(Fault, MachineView, FlowView),
}

/// One turn of the driver loop. While running, a cursor outside the
/// program ends the run normally; otherwise the driver advances the cursor
/// by one, then executes the fetched instruction, which may overwrite the
/// cursor with a jump target. A fault halts the run with the state
/// untouched and the cursor past the failed instruction.
pub open spec fn drive1(prog: Seq<Instruction>, st: Status) -> Status {
    match st {
        Status::Running(m, f) => {
            if !(0 <= f.cursor < prog.len()) {
                Status::Done(m, f)
            } else {
                let f1 = FlowView { cursor: f.cursor + 1, ..f };
                match step_spec(prog[f.cursor], m, f1) {
                    Ok(p) => Status::Running(p.0, p.1),
                    Err(e) => Status::Failed(e, m, f1),
                }
            }
        },
        _ => st,
    }
}

/// `n` turns of the driver loop.
pub open spec fn drive_n(prog: Seq<Instruction>, st: Status, n: nat) -> Status
    decreases n,
{
    if n == 0 {
        st
    } else {
        drive1(prog, drive_n(prog, st, (n - 1) as nat))
    }
}

/// The driver: holds the ordered instruction sequence, the runtime state
/// and the control flow, and executes instructions at the cursor until the
/// program ends or an instruction reports a fault.
pub struct Runner {
    pub instructions: Vec<Instruction>,
    pub runtime_args: RuntimeArgs,
    pub control_flow: ControlFlow,
}

impl Runner {
    /// A runner over `instructions` with the default machine
    /// configuration (see [`RuntimeArgs::new`]).
    pub fn new(instructions: Vec<Instruction>) -> (r: Runner)
        ensures
            r.instructions@ == instructions@,
            r.runtime_args@.accs == seq![None::<i32>, None::<i32>, None::<i32>, None::<i32>],
            r.runtime_args@.cells == Map::<Seq<char>, Option<i32>>::empty().insert(
                "a"@,
                None,
            ).insert("b"@, None).insert("c"@, None).insert("d"@, None),
            r.runtime_args@.stack == Seq::<i32>::empty(),
            r.control_flow@.labels == Map::<Seq<char>, int>::empty(),
            r.control_flow@.cursor == 0,
    {
        Runner { instructions, runtime_args: RuntimeArgs::new(), control_flow: ControlFlow::new() }
    }

    /// A runner over `instructions` with a caller-supplied machine
    /// configuration.
    pub fn new_custom(instructions: Vec<Instruction>, runtime_args: RuntimeArgs) -> (r: Runner)
        ensures
            r.instructions@ == instructions@,
            r.runtime_args == runtime_args,
            r.control_flow@.labels == Map::<Seq<char>, int>::empty(),
            r.control_flow@.cursor == 0,
    {
        Runner { instructions, runtime_args, control_flow: ControlFlow::new() }
    }

    /// Binds `label` to the instruction index `index` in the label table,
    /// replacing any earlier binding of the same label.
    pub fn add_label(&mut self, label: &str, index: usize)
        ensures
            final(self).instructions == old(self).instructions,
            final(self).runtime_args == old(self).runtime_args,
            final(self).control_flow@.labels == old(self).control_flow@.labels.insert(
                label@,
                index as int,
            ),
            final(self).control_flow@.cursor == old(self).control_flow@.cursor,
    {
        self.control_flow.insert_label(label, index);
    }

    /// Read-only access to the runtime state, for introspection by a host
    /// or a visualizer.
    pub fn runtime_args(&self) -> (r: &RuntimeArgs)
        ensures
            *r == self.runtime_args,
    {
        &self.runtime_args
    }

    /// Executes exactly one instruction. Returns `Ok(false)` when the
    /// cursor already left the program (nothing is changed), `Ok(true)`
    /// after a successful instruction, and the instruction's fault
    /// otherwise, with the state untouched and the cursor just past the
    /// failed instruction, so a host may choose to step on.
    pub fn step(&mut self) -> (r: Result<bool, RunError>)
        ensures
            final(self).instructions == old(self).instructions,
            ({
                let before = Status::Running(old(self).runtime_args@, old(self).control_flow@);
                let after = drive1(old(self).instructions@, before);
                match r {
                    Ok(false) => *final(self) == *old(self) && after == Status::Done(
                        old(self).runtime_args@,
                        old(self).control_flow@,
                    ),
                    Ok(true) => after == Status::Running(
                        final(self).runtime_args@,
                        final(self).control_flow@,
                    ),
                    Err(e) => after == Status::Failed(
                        e@,
                        final(self).runtime_args@,
                        final(self).control_flow@,
                    ),
                }
            }),
    {
        let c = self.control_flow.next_instruction_index;
        if c >= self.instructions.len() {
            return Ok(false);
        }
        self.control_flow.next_instruction_index = c + 1;
        let res = self.instructions[c].run(&mut self.runtime_args, &mut self.control_flow);
        match res {
            Ok(()) => Ok(true),
            Err(e) => Err(e),
        }
    }

    /// Executes instructions until the cursor leaves the program (`Ok`) or
    /// an instruction reports a fault (its error). Unbounded loops are a
    /// property of the loaded program, not an engine fault; only after an
    /// astronomical number of steps does the driver give up with
    /// `StepLimitExceeded`, so that every run provably ends.
    pub fn run(&mut self) -> (r: Result<(), RunError>)
        ensures
            final(self).instructions == old(self).instructions,
            ({
                let prog = old(self).instructions@;
                let init = Status::Running(old(self).runtime_args@, old(self).control_flow@);
                match r {
                    Ok(()) => exists|n: nat|
                        drive_n(prog, init, n) == Status::Done(
                            final(self).runtime_args@,
                            final(self).control_flow@,
                        ),
                    Err(e) => match e {
                        RunError::StepLimitExceeded => exists|n: nat|
                            n >= u64::MAX && drive_n(prog, init, n) == Status::Running(
                                final(self).runtime_args@,
                                final(self).control_flow@,
                            ),
                        _ => exists|n: nat|
                            drive_n(prog, init, n) == Status::Failed(
                                e@,
                                final(self).runtime_args@,
                                final(self).control_flow@,
                            ),
                    },
                }
            }),
    {
        let ghost prog = self.instructions@;
        let ghost init = Status::Running(self.runtime_args@, self.control_flow@);
        let ghost mut n: nat = 0;
        let mut fuel: u64 = u64::MAX;
        while fuel > 0
            invariant
                prog == old(self).instructions@,
                init == Status::Running(old(self).runtime_args@, old(self).control_flow@),
                self.instructions == old(self).instructions,
                self.instructions@ == prog,
                n + fuel == u64::MAX as nat,
                drive_n(prog, init, n) == Status::Running(
                    self.runtime_args@,
                    self.control_flow@,
                ),
            decreases fuel,
        {
            let r = self.step();
            match r {
                Ok(true) => {
                    proof {
                        assert(drive_n(prog, init, n + 1) == drive1(prog, drive_n(prog, init, n)));
                        n = n + 1;
                    }
                    fuel = fuel - 1;
                },
                Ok(false) => {
                    proof {
                        assert(drive_n(prog, init, n + 1) == Status::Done(
                            self.runtime_args@,
                            self.control_flow@,
                        ));
                    }
                    return Ok(());
                },
                Err(e) => {
                    proof {
                        assert(drive_n(prog, init, n + 1) == Status::Failed(
                            e@,
                            self.runtime_args@,
                            self.control_flow@,
                        ));
                    }
                    return Err(e);
                },
            }
        }
        Err(RunError::StepLimitExceeded)
    }
}

} // verus!
