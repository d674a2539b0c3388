use crate::base::{Comparison, Operation};
use crate::model::{
    acc_exists, acc_read, apply_op, assign_acc_from_acc_m, assign_acc_from_cell_m,
    assign_acc_value_m, assign_cell_from_acc_m, assign_cell_from_cell_m, assign_cell_value_m,
    calc_acc_acc_m, calc_acc_accs_m, calc_acc_cell_m, calc_acc_cells_m, calc_acc_const_m,
    calc_cell_acc_m, calc_cell_cells_m, calc_cell_const_m, cell_read, goto_if_f, pop_m, push_m,
    resolve_jump_f, Fault, FlowView, MachineView,
};
use crate::runtime::{
    reflects_check, reflects_f, reflects_m, reflects_read, ControlFlow, RunError, RuntimeArgs,
};
use vstd::prelude::*;

verus! {

/// The closed instruction set of the machine. Each variant carries only the
/// operand identifiers it needs: accumulator indices, memory-cell labels,
/// constants, an operator or comparison selector, and a jump label.
pub enum Instruction {
    /// push
    Push(),
    /// pop
    Pop(),
    /// a := x
    AssignAccumulatorValue(usize, i32),
    /// a := b
    AssignAccumulatorValueFromAccumulator(usize, usize),
    /// a := p(i)
    AssignAccumulatorValueFromMemoryCell(usize, String),
    /// p(i) := x
    AssignMemoryCellValue(String, i32),
    /// p(i) := a
    AssignMemoryCellValueFromAccumulator(String, usize),
    /// p(i) := p(j)
    AssingMemoryCellValueFromMemoryCell(String, String),
    /// a := a op x
    CalcAccumulatorWithConstant(Operation, usize, i32),
    /// a := a op b
    CalcAccumulatorWithAccumulator(Operation, usize, usize),
    /// a := b op c
    CalcAccumulatorWithAccumulators(Operation, usize, usize, usize),
    /// a := a op p(i)
    CalcAccumulatorWithMemoryCell(Operation, usize, String),
    /// a := p(i) op p(j)
    CalcAccumulatorWithMemoryCells(Operation, usize, String, String),
    /// p(i) := p(j) op x
    CalcMemoryCellWithMemoryCellConstant(Operation, String, String, i32),
    /// p(i) := p(j) op a
    CalcMemoryCellWithMemoryCellAccumulator(Operation, String, String, usize),
    /// p(i) := p(j) op p(k)
    CalcMemoryCellWithMemoryCells(Operation, String, String, String),
    /// goto label
    Goto(String),
    /// if a cmp b then goto label
    GotoIfAccumulator(Comparison, String, usize, usize),
    /// if a cmp x then goto label
    GotoIfConstant(Comparison, String, usize, i32),
    /// if a cmp p(i) then goto label
    GotoIfMemoryCell(Comparison, String, usize, String),
    /// read-only dump of the accumulators
    PrintAccumulators(),
    /// read-only dump of the memory cells
    PrintMemoryCells(),
    /// read-only dump of the stack
    PrintStack(),
}

/// Lifts a state-only transition to a full step: the control flow stays.
pub open spec fn lift_m(out: Result<MachineView, Fault>, f: FlowView) -> Result<
    (MachineView, FlowView),
    Fault,
> {
    match out {
        Ok(m2) => Ok((m2, f)),
        Err(e) => Err(e),
    }
}

/// Lifts a control-flow-only transition to a full step: the state stays.
pub open spec fn lift_f(out: Result<FlowView, Fault>, m: MachineView) -> Result<
    (MachineView, FlowView),
    Fault,
> {
    match out {
        Ok(f2) => Ok((m, f2)),
        Err(e) => Err(e),
    }
}

/// What one instruction does to the machine: either the new state and
/// control flow, or the first violated precondition, with the state and
/// control flow untouched.
pub open spec fn step_spec(i: Instruction, m: MachineView, f: FlowView) -> Result<
    (MachineView, FlowView),
    Fault,
> {
    match i {
        Instruction::Push() => lift_m(push_m(m), f),
        Instruction::Pop() => lift_m(pop_m(m), f),
        Instruction::AssignAccumulatorValue(a, v) => lift_m(assign_acc_value_m(m, a as int, v), f),
        Instruction::AssignAccumulatorValueFromAccumulator(a, b) => lift_m(
            assign_acc_from_acc_m(m, a as int, b as int),
            f,
        ),
        Instruction::AssignAccumulatorValueFromMemoryCell(a, l) => lift_m(
            assign_acc_from_cell_m(m, a as int, l@),
            f,
        ),
        Instruction::AssignMemoryCellValue(l, v) => lift_m(assign_cell_value_m(m, l@, v), f),
        Instruction::AssignMemoryCellValueFromAccumulator(l, a) => lift_m(
            assign_cell_from_acc_m(m, l@, a as int),
            f,
        ),
        Instruction::AssingMemoryCellValueFromMemoryCell(la, lb) => lift_m(
            assign_cell_from_cell_m(m, la@, lb@),
            f,
        ),
        Instruction::CalcAccumulatorWithConstant(op, a, v) => lift_m(
            calc_acc_const_m(m, op, a as int, v),
            f,
        ),
        Instruction::CalcAccumulatorWithAccumulator(op, a, b) => lift_m(
            calc_acc_acc_m(m, op, a as int, b as int),
            f,
        ),
        Instruction::CalcAccumulatorWithAccumulators(op, a, b, c) => lift_m(
            calc_acc_accs_m(m, op, a as int, b as int, c as int),
            f,
        ),
        Instruction::CalcAccumulatorWithMemoryCell(op, a, l) => lift_m(
            calc_acc_cell_m(m, op, a as int, l@),
            f,
        ),
        Instruction::CalcAccumulatorWithMemoryCells(op, a, la, lb) => lift_m(
            calc_acc_cells_m(m, op, a as int, la@, lb@),
            f,
        ),
        Instruction::CalcMemoryCellWithMemoryCellConstant(op, la, lb, v) => lift_m(
            calc_cell_const_m(m, op, la@, lb@, v),
            f,
        ),
        Instruction::CalcMemoryCellWithMemoryCellAccumulator(op, la, lb, a) => lift_m(
            calc_cell_acc_m(m, op, la@, lb@, a as int),
            f,
        ),
        Instruction::CalcMemoryCellWithMemoryCells(op, la, lb, lc) => lift_m(
            calc_cell_cells_m(m, op, la@, lb@, lc@),
            f,
        ),
        Instruction::Goto(l) => lift_f(resolve_jump_f(f, l@), m),
        Instruction::GotoIfAccumulator(c, l, a, b) => lift_f(
            goto_if_f(f, c, l@, acc_read(m, a as int), acc_read(m, b as int)),
            m,
        ),
        Instruction::GotoIfConstant(c, l, a, v) => lift_f(
            goto_if_f(f, c, l@, acc_read(m, a as int), Ok(v)),
            m,
        ),
        Instruction::GotoIfMemoryCell(c, l, a, ml) => lift_f(
            goto_if_f(f, c, l@, acc_read(m, a as int), cell_read(m, ml@)),
            m,
        ),
        Instruction::PrintAccumulators() => Ok((m, f)),
        Instruction::PrintMemoryCells() => Ok((m, f)),
        Instruction::PrintStack() => Ok((m, f)),
    }
}

/// How a full step is mirrored by an executable result: on success the new
/// state and control flow are the specified ones, on a fault both are
/// exactly what they were.
pub open spec fn reflects_step(
    r: Result<(), RunError>,
    out: Result<(MachineView, FlowView), Fault>,
    m_new: MachineView,
    f_new: FlowView,
    m_old: MachineView,
    f_old: FlowView,
) -> bool {
    match (r, out) {
        (Ok(()), Ok(p)) => m_new == p.0 && f_new == p.1,
        (Err(e), Err(fl)) => e@ == fl && m_new == m_old && f_new == f_old,
        _ => false,
    }
}

impl Instruction {
    /// Runs the instruction on the given state and control flow. All
    /// read-side preconditions are validated before anything is written, so
    /// on an error the state and the control flow are exactly as they were.
    pub fn run(&self, runtime_args: &mut RuntimeArgs, control_flow: &mut ControlFlow) -> (r:
        Result<(), RunError>)
        ensures
            reflects_step(
                r,
                step_spec(*self, old(runtime_args)@, old(control_flow)@),
                final(runtime_args)@,
                final(control_flow)@,
                old(runtime_args)@,
                old(control_flow)@,
            ),
    {
        match self {
            Self::Push() => push(runtime_args),
            Self::Pop() => pop(runtime_args),
            Self::AssignAccumulatorValue(a_idx, value) => assign_accumulator_value(
                runtime_args,
                a_idx,
                value,
            ),
            Self::AssignAccumulatorValueFromAccumulator(
                a_idx_a,
                a_idx_b,
            ) => assign_accumulator_value_from_accumulator(runtime_args, a_idx_a, a_idx_b),
            Self::AssignAccumulatorValueFromMemoryCell(
                a_idx,
                label,
            ) => assign_accumulator_value_from_memory_cell(runtime_args, a_idx, label.as_str()),
            Self::AssignMemoryCellValue(label, value) => assign_memory_cell_value(
                runtime_args,
                label.as_str(),
                value,
            ),
            Self::AssignMemoryCellValueFromAccumulator(
                label,
                a_idx,
            ) => assign_memory_cell_value_from_accumulator(runtime_args, label.as_str(), a_idx),
            Self::AssingMemoryCellValueFromMemoryCell(
                label_a,
                label_b,
            ) => assign_memory_cell_value_from_memory_cell(
                runtime_args,
                label_a.as_str(),
                label_b.as_str(),
            ),
            Self::CalcAccumulatorWithConstant(operation, a_idx, value) => calc_accumulator_with_constant(
                runtime_args,
                operation,
                a_idx,
                value,
            ),
            Self::CalcAccumulatorWithAccumulator(operation, a_idx_a, a_idx_b) => calc_accumulator_with_accumulator(
                runtime_args,
                operation,
                a_idx_a,
                a_idx_b,
            ),
            Self::CalcAccumulatorWithAccumulators(
                operation,
                a_idx_a,
                a_idx_b,
                a_idx_c,
            ) => calc_accumulator_with_accumulators(
                runtime_args,
                operation,
                a_idx_a,
                a_idx_b,
                a_idx_c,
            ),
            Self::CalcAccumulatorWithMemoryCell(operation, a_idx, label) => calc_accumulator_with_memory_cell(
                runtime_args,
                operation,
                a_idx,
                label.as_str(),
            ),
            Self::CalcAccumulatorWithMemoryCells(
                operation,
                a_idx,
                label_a,
                label_b,
            ) => calc_accumulator_with_memory_cells(
                runtime_args,
                operation,
                a_idx,
                label_a.as_str(),
                label_b.as_str(),
            ),
            Self::CalcMemoryCellWithMemoryCellConstant(
                operation,
                label_a,
                label_b,
                value,
            ) => calc_memory_cell_with_memory_cell_constant(
                runtime_args,
                operation,
                label_a.as_str(),
                label_b.as_str(),
                value,
            ),
            Self::CalcMemoryCellWithMemoryCellAccumulator(
                operation,
                label_a,
                label_b,
                a_idx,
            ) => calc_memory_cell_with_memory_cell_accumulator(
                runtime_args,
                operation,
                label_a.as_str(),
                label_b.as_str(),
                a_idx,
            ),
            Self::CalcMemoryCellWithMemoryCells(
                operation,
                label_a,
                label_b,
                label_c,
            ) => calc_memory_cell_with_memory_cells(
                runtime_args,
                operation,
                label_a.as_str(),
                label_b.as_str(),
                label_c.as_str(),
            ),
            Self::Goto(label) => goto(runtime_args, control_flow, label.as_str()),
            Self::GotoIfAccumulator(comparison, label, a_idx_a, a_idx_b) => goto_if_accumulator(
                runtime_args,
                control_flow,
                comparison,
                label.as_str(),
                a_idx_a,
                a_idx_b,
            ),
            Self::GotoIfConstant(comparison, label, a_idx, c) => goto_if_constant(
                runtime_args,
                control_flow,
                comparison,
                label.as_str(),
                a_idx,
                c,
            ),
            Self::GotoIfMemoryCell(comparison, label, a_idx, mcl) => goto_if_memory_cell(
                runtime_args,
                control_flow,
                comparison,
                label.as_str(),
                a_idx,
                mcl.as_str(),
            ),
            Self::PrintAccumulators() => Ok(()),
            Self::PrintMemoryCells() => Ok(()),
            Self::PrintStack() => Ok(()),
        }
    }
}

/// Runs code equal to **push**: appends the value of accumulator 0 to the
/// stack, or 0 while that accumulator is still undefined.
pub fn push(runtime_args: &mut RuntimeArgs) -> (r: Result<(), RunError>)
    ensures
        reflects_m(r, push_m(old(runtime_args)@), final(runtime_args)@, old(runtime_args)@),
{
    match assert_accumulator_exists(runtime_args, &0) {
        Err(e) => return Err(e),
        Ok(()) => {},
    }
    proof {
        assert(runtime_args@.accs[0] == runtime_args.accumulators@[0].data);
    }
    let v = match runtime_args.accumulators[0].data {
        Some(v) => v,
        None => 0,
    };
    runtime_args.stack.push(v);
    Ok(())
}

/// Runs code equal to **pop**: removes the top of the stack into
/// accumulator 0; an empty stack yields 0 instead of an error.
pub fn pop(runtime_args: &mut RuntimeArgs) -> (r: Result<(), RunError>)
    ensures
        reflects_m(r, pop_m(old(runtime_args)@), final(runtime_args)@, old(runtime_args)@),
{
    match assert_accumulator_exists(runtime_args, &0) {
        Err(e) => return Err(e),
        Ok(()) => {},
    }
    let v = match runtime_args.stack.pop() {
        Some(v) => v,
        None => 0,
    };
    runtime_args.set_accumulator(0, v);
    Ok(())
}

/// Runs code equal to **a := x**.
pub fn assign_accumulator_value(runtime_args: &mut RuntimeArgs, a_idx: &usize, value: &i32) -> (r:
    Result<(), RunError>)
    ensures
        reflects_m(
            r,
            assign_acc_value_m(old(runtime_args)@, *a_idx as int, *value),
            final(runtime_args)@,
            old(runtime_args)@,
        ),
{
    match assert_accumulator_exists(runtime_args, a_idx) {
        Err(e) => return Err(e),
        Ok(()) => {},
    }
    runtime_args.set_accumulator(*a_idx, *value);
    Ok(())
}

/// Runs code equal to **a := b**. The destination is validated first, then
/// the source.
pub fn assign_accumulator_value_from_accumulator(
    runtime_args: &mut RuntimeArgs,
    a_idx_a: &usize,
    a_idx_b: &usize,
) -> (r: Result<(), RunError>)
    ensures
        reflects_m(
            r,
            assign_acc_from_acc_m(old(runtime_args)@, *a_idx_a as int, *a_idx_b as int),
            final(runtime_args)@,
            old(runtime_args)@,
        ),
{
    match assert_accumulator_exists(runtime_args, a_idx_a) {
        Err(e) => return Err(e),
        Ok(()) => {},
    }
    let v = match assert_accumulator_contains_value(runtime_args, a_idx_b) {
        Err(e) => return Err(e),
        Ok(v) => v,
    };
    runtime_args.set_accumulator(*a_idx_a, v);
    Ok(())
}

/// Runs code equal to **a := p(i)**. The destination is validated first,
/// then the source.
pub fn assign_accumulator_value_from_memory_cell(
    runtime_args: &mut RuntimeArgs,
    a_idx: &usize,
    label: &str,
) -> (r: Result<(), RunError>)
    ensures
        reflects_m(
            r,
            assign_acc_from_cell_m(old(runtime_args)@, *a_idx as int, label@),
            final(runtime_args)@,
            old(runtime_args)@,
        ),
{
    match assert_accumulator_exists(runtime_args, a_idx) {
        Err(e) => return Err(e),
        Ok(()) => {},
    }
    let v = match assert_memory_cell_contains_value(runtime_args, label) {
        Err(e) => return Err(e),
        Ok(v) => v,
    };
    runtime_args.set_accumulator(*a_idx, v);
    Ok(())
}

/// Runs code equal to **p(i) := x**.
pub fn assign_memory_cell_value(runtime_args: &mut RuntimeArgs, label: &str, value: &i32) -> (r:
    Result<(), RunError>)
    ensures
        reflects_m(
            r,
            assign_cell_value_m(old(runtime_args)@, label@, *value),
            final(runtime_args)@,
            old(runtime_args)@,
        ),
{
    if runtime_args.set_cell(label, *value) {
        Ok(())
    } else {
        Err(RunError::MemoryCellNotFound(label.to_owned()))
    }
}

/// Runs code equal to **p(i) := a**. The destination is validated first,
/// then the source.
pub fn assign_memory_cell_value_from_accumulator(
    runtime_args: &mut RuntimeArgs,
    label: &str,
    a_idx: &usize,
) -> (r: Result<(), RunError>)
    ensures
        reflects_m(
            r,
            assign_cell_from_acc_m(old(runtime_args)@, label@, *a_idx as int),
            final(runtime_args)@,
            old(runtime_args)@,
        ),
{
    match assert_memory_cell_exists(runtime_args, label) {
        Err(e) => return Err(e),
        Ok(()) => {},
    }
    let v = match assert_accumulator_contains_value(runtime_args, a_idx) {
        Err(e) => return Err(e),
        Ok(v) => v,
    };
    let wrote = runtime_args.set_cell(label, v);
    proof {
        assert(wrote);
    }
    Ok(())
}

/// Runs code equal to **p(i) := p(j)**. The destination is validated
/// first, then the source.
pub fn assign_memory_cell_value_from_memory_cell(
    runtime_args: &mut RuntimeArgs,
    label_a: &str,
    label_b: &str,
) -> (r: Result<(), RunError>)
    ensures
        reflects_m(
            r,
            assign_cell_from_cell_m(old(runtime_args)@, label_a@, label_b@),
            final(runtime_args)@,
            old(runtime_args)@,
        ),
{
    match assert_memory_cell_exists(runtime_args, label_a) {
        Err(e) => return Err(e),
        Ok(()) => {},
    }
    let v = match assert_memory_cell_contains_value(runtime_args, label_b) {
        Err(e) => return Err(e),
        Ok(v) => v,
    };
    let wrote = runtime_args.set_cell(label_a, v);
    proof {
        assert(wrote);
    }
    Ok(())
}

/// Applies an operator to two operand values, reporting division by zero
/// as the run-time fault it is.
fn apply_operation(operation: &Operation, x: i32, y: i32) -> (r: Result<i32, RunError>)
    ensures
        reflects_read(r, apply_op(*operation, x, y)),
{
    match operation {
        Operation::Division => {
            if y == 0 {
                Err(RunError::DivisionByZero)
            } else {
                Ok(operation.calc(x, y))
            }
        },
        _ => Ok(operation.calc(x, y)),
    }
}

/// Runs code equal to **a := a op x**.
pub fn calc_accumulator_with_constant(
    runtime_args: &mut RuntimeArgs,
    operation: &Operation,
    a_idx: &usize,
    value: &i32,
) -> (r: Result<(), RunError>)
    ensures
        reflects_m(
            r,
            calc_acc_const_m(old(runtime_args)@, *operation, *a_idx as int, *value),
            final(runtime_args)@,
            old(runtime_args)@,
        ),
{
    let x = match assert_accumulator_contains_value(runtime_args, a_idx) {
        Err(e) => return Err(e),
        Ok(v) => v,
    };
    let res = match apply_operation(operation, x, *value) {
        Err(e) => return Err(e),
        Ok(v) => v,
    };
    runtime_args.set_accumulator(*a_idx, res);
    Ok(())
}

/// Runs code equal to **a := a op b**.
pub fn calc_accumulator_with_accumulator(
    runtime_args: &mut RuntimeArgs,
    operation: &Operation,
    a_idx_a: &usize,
    a_idx_b: &usize,
) -> (r: Result<(), RunError>)
    ensures
        reflects_m(
            r,
            calc_acc_acc_m(old(runtime_args)@, *operation, *a_idx_a as int, *a_idx_b as int),
            final(runtime_args)@,
            old(runtime_args)@,
        ),
{
    let x = match assert_accumulator_contains_value(runtime_args, a_idx_a) {
        Err(e) => return Err(e),
        Ok(v) => v,
    };
    let y = match assert_accumulator_contains_value(runtime_args, a_idx_b) {
        Err(e) => return Err(e),
        Ok(v) => v,
    };
    let res = match apply_operation(operation, x, y) {
        Err(e) => return Err(e),
        Ok(v) => v,
    };
    runtime_args.set_accumulator(*a_idx_a, res);
    Ok(())
}

/// Runs code equal to **a := b op c**. The operand sources are validated
/// first, then the destination.
pub fn calc_accumulator_with_accumulators(
    runtime_args: &mut RuntimeArgs,
    operation: &Operation,
    a_idx_a: &usize,
    a_idx_b: &usize,
    a_idx_c: &usize,
) -> (r: Result<(), RunError>)
    ensures
        reflects_m(
            r,
            calc_acc_accs_m(
                old(runtime_args)@,
                *operation,
                *a_idx_a as int,
                *a_idx_b as int,
                *a_idx_c as int,
            ),
            final(runtime_args)@,
            old(runtime_args)@,
        ),
{
    let x = match assert_accumulator_contains_value(runtime_args, a_idx_b) {
        Err(e) => return Err(e),
        Ok(v) => v,
    };
    let y = match assert_accumulator_contains_value(runtime_args, a_idx_c) {
        Err(e) => return Err(e),
        Ok(v) => v,
    };
    match assert_accumulator_exists(runtime_args, a_idx_a) {
        Err(e) => return Err(e),
        Ok(()) => {},
    }
    let res = match apply_operation(operation, x, y) {
        Err(e) => return Err(e),
        Ok(v) => v,
    };
    runtime_args.set_accumulator(*a_idx_a, res);
    Ok(())
}

/// Runs code equal to **a := a op p(i)**.
pub fn calc_accumulator_with_memory_cell(
    runtime_args: &mut RuntimeArgs,
    operation: &Operation,
    a_idx: &usize,
    label: &str,
) -> (r: Result<(), RunError>)
    ensures
        reflects_m(
            r,
            calc_acc_cell_m(old(runtime_args)@, *operation, *a_idx as int, label@),
            final(runtime_args)@,
            old(runtime_args)@,
        ),
{
    let x = match assert_accumulator_contains_value(runtime_args, a_idx) {
        Err(e) => return Err(e),
        Ok(v) => v,
    };
    let y = match assert_memory_cell_contains_value(runtime_args, label) {
        Err(e) => return Err(e),
        Ok(v) => v,
    };
    let res = match apply_operation(operation, x, y) {
        Err(e) => return Err(e),
        Ok(v) => v,
    };
    runtime_args.set_accumulator(*a_idx, res);
    Ok(())
}

/// Runs code equal to **a := p(i) op p(j)**. The operand sources are
/// validated first, then the destination.
pub fn calc_accumulator_with_memory_cells(
    runtime_args: &mut RuntimeArgs,
    operation: &Operation,
    a_idx: &usize,
    label_a: &str,
    label_b: &str,
) -> (r: Result<(), RunError>)
    ensures
        reflects_m(
            r,
            calc_acc_cells_m(old(runtime_args)@, *operation, *a_idx as int, label_a@, label_b@),
            final(runtime_args)@,
            old(runtime_args)@,
        ),
{
    let x = match assert_memory_cell_contains_value(runtime_args, label_a) {
        Err(e) => return Err(e),
        Ok(v) => v,
    };
    let y = match assert_memory_cell_contains_value(runtime_args, label_b) {
        Err(e) => return Err(e),
        Ok(v) => v,
    };
    match assert_accumulator_exists(runtime_args, a_idx) {
        Err(e) => return Err(e),
        Ok(()) => {},
    }
    let res = match apply_operation(operation, x, y) {
        Err(e) => return Err(e),
        Ok(v) => v,
    };
    runtime_args.set_accumulator(*a_idx, res);
    Ok(())
}

/// Runs code equal to **p(i) := p(j) op x**. The operand source is
/// validated first, then the destination.
pub fn calc_memory_cell_with_memory_cell_constant(
    runtime_args: &mut RuntimeArgs,
    operation: &Operation,
    label_a: &str,
    label_b: &str,
    value: &i32,
) -> (r: Result<(), RunError>)
    ensures
        reflects_m(
            r,
            calc_cell_const_m(old(runtime_args)@, *operation, label_a@, label_b@, *value),
            final(runtime_args)@,
            old(runtime_args)@,
        ),
{
    let x = match assert_memory_cell_contains_value(runtime_args, label_b) {
        Err(e) => return Err(e),
        Ok(v) => v,
    };
    match assert_memory_cell_exists(runtime_args, label_a) {
        Err(e) => return Err(e),
        Ok(()) => {},
    }
    let res = match apply_operation(operation, x, *value) {
        Err(e) => return Err(e),
        Ok(v) => v,
    };
    let wrote = runtime_args.set_cell(label_a, res);
    proof {
        assert(wrote);
    }
    Ok(())
}

/// Runs code equal to **p(i) := p(j) op a**. The operand sources are
/// validated first, then the destination.
pub fn calc_memory_cell_with_memory_cell_accumulator(
    runtime_args: &mut RuntimeArgs,
    operation: &Operation,
    label_a: &str,
    label_b: &str,
    a_idx: &usize,
) -> (r: Result<(), RunError>)
    ensures
        reflects_m(
            r,
            calc_cell_acc_m(old(runtime_args)@, *operation, label_a@, label_b@, *a_idx as int),
            final(runtime_args)@,
            old(runtime_args)@,
        ),
{
    let x = match assert_memory_cell_contains_value(runtime_args, label_b) {
        Err(e) => return Err(e),
        Ok(v) => v,
    };
    let y = match assert_accumulator_contains_value(runtime_args, a_idx) {
        Err(e) => return Err(e),
        Ok(v) => v,
    };
    match assert_memory_cell_exists(runtime_args, label_a) {
        Err(e) => return Err(e),
        Ok(()) => {},
    }
    let res = match apply_operation(operation, x, y) {
        Err(e) => return Err(e),
        Ok(v) => v,
    };
    let wrote = runtime_args.set_cell(label_a, res);
    proof {
        assert(wrote);
    }
    Ok(())
}

/// Runs code equal to **p(i) := p(j) op p(k)**. The operand sources are
/// validated first, then the destination.
pub fn calc_memory_cell_with_memory_cells(
    runtime_args: &mut RuntimeArgs,
    operation: &Operation,
    label_a: &str,
    label_b: &str,
    label_c: &str,
) -> (r: Result<(), RunError>)
    ensures
        reflects_m(
            r,
            calc_cell_cells_m(old(runtime_args)@, *operation, label_a@, label_b@, label_c@),
            final(runtime_args)@,
            old(runtime_args)@,
        ),
{
    let x = match assert_memory_cell_contains_value(runtime_args, label_b) {
        Err(e) => return Err(e),
        Ok(v) => v,
    };
    let y = match assert_memory_cell_contains_value(runtime_args, label_c) {
        Err(e) => return Err(e),
        Ok(v) => v,
    };
    match assert_memory_cell_exists(runtime_args, label_a) {
        Err(e) => return Err(e),
        Ok(()) => {},
    }
    let res = match apply_operation(operation, x, y) {
        Err(e) => return Err(e),
        Ok(v) => v,
    };
    let wrote = runtime_args.set_cell(label_a, res);
    proof {
        assert(wrote);
    }
    Ok(())
}

/// Runs code equal to **goto label**: sets the cursor to the index bound to
/// the label, and fails the run when the label is unknown.
pub fn goto(runtime_args: &mut RuntimeArgs, control_flow: &mut ControlFlow, label: &str) -> (r:
    Result<(), RunError>)
    ensures
        *final(runtime_args) == *old(runtime_args),
        reflects_f(
            r,
            resolve_jump_f(old(control_flow)@, label@),
            final(control_flow)@,
            old(control_flow)@,
        ),
{
    control_flow.resolve_jump(label)
}

/// Runs code equal to **if a cmp b then goto label**. The label is
/// resolved only when the guard holds.
pub fn goto_if_accumulator(
    runtime_args: &mut RuntimeArgs,
    control_flow: &mut ControlFlow,
    comparison: &Comparison,
    label: &str,
    a_idx_a: &usize,
    a_idx_b: &usize,
) -> (r: Result<(), RunError>)
    ensures
        *final(runtime_args) == *old(runtime_args),
        reflects_f(
            r,
            goto_if_f(
                old(control_flow)@,
                *comparison,
                label@,
                acc_read(old(runtime_args)@, *a_idx_a as int),
                acc_read(old(runtime_args)@, *a_idx_b as int),
            ),
            final(control_flow)@,
            old(control_flow)@,
        ),
{
    let a = match assert_accumulator_contains_value(runtime_args, a_idx_a) {
        Err(e) => return Err(e),
        Ok(v) => v,
    };
    let b = match assert_accumulator_contains_value(runtime_args, a_idx_b) {
        Err(e) => return Err(e),
        Ok(v) => v,
    };
    if comparison.cmp(a, b) {
        control_flow.resolve_jump(label)
    } else {
        Ok(())
    }
}

/// Runs code equal to **if a cmp x then goto label**. The label is
/// resolved only when the guard holds.
pub fn goto_if_constant(
    runtime_args: &mut RuntimeArgs,
    control_flow: &mut ControlFlow,
    comparison: &Comparison,
    label: &str,
    a_idx: &usize,
    c: &i32,
) -> (r: Result<(), RunError>)
    ensures
        *final(runtime_args) == *old(runtime_args),
        reflects_f(
            r,
            goto_if_f(
                old(control_flow)@,
                *comparison,
                label@,
                acc_read(old(runtime_args)@, *a_idx as int),
                Ok(*c),
            ),
            final(control_flow)@,
            old(control_flow)@,
        ),
{
    let a = match assert_accumulator_contains_value(runtime_args, a_idx) {
        Err(e) => return Err(e),
        Ok(v) => v,
    };
    if comparison.cmp(a, *c) {
        control_flow.resolve_jump(label)
    } else {
        Ok(())
    }
}

/// Runs code equal to **if a cmp p(i) then goto label**. The label is
/// resolved only when the guard holds.
pub fn goto_if_memory_cell(
    runtime_args: &mut RuntimeArgs,
    control_flow: &mut ControlFlow,
    comparison: &Comparison,
    label: &str,
    a_idx: &usize,
    mcl: &str,
) -> (r: Result<(), RunError>)
    ensures
        *final(runtime_args) == *old(runtime_args),
        reflects_f(
            r,
            goto_if_f(
                old(control_flow)@,
                *comparison,
                label@,
                acc_read(old(runtime_args)@, *a_idx as int),
                cell_read(old(runtime_args)@, mcl@),
            ),
            final(control_flow)@,
            old(control_flow)@,
        ),
{
    let a = match assert_accumulator_contains_value(runtime_args, a_idx) {
        Err(e) => return Err(e),
        Ok(v) => v,
    };
    let b = match assert_memory_cell_contains_value(runtime_args, mcl) {
        Err(e) => return Err(e),
        Ok(v) => v,
    };
    if comparison.cmp(a, b) {
        control_flow.resolve_jump(label)
    } else {
        Ok(())
    }
}

/// Tests if the accumulator with **index** exists.
pub fn assert_accumulator_exists(runtime_args: &mut RuntimeArgs, index: &usize) -> (r: Result<
    (),
    RunError,
>)
    ensures
        *final(runtime_args) == *old(runtime_args),
        reflects_check(r, acc_exists(old(runtime_args)@, *index as int)),
{
    proof {
        assert(runtime_args@.accs.len() == runtime_args.accumulators@.len());
    }
    if *index < runtime_args.accumulators.len() {
        Ok(())
    } else {
        Err(RunError::AccumulatorNotFound(*index))
    }
}

/// Tests if the accumulator with **index** exists and contains a value;
/// the value is returned.
pub fn assert_accumulator_contains_value(runtime_args: &mut RuntimeArgs, index: &usize) -> (r:
    Result<i32, RunError>)
    ensures
        *final(runtime_args) == *old(runtime_args),
        reflects_read(r, acc_read(old(runtime_args)@, *index as int)),
{
    proof {
        assert(runtime_args@.accs.len() == runtime_args.accumulators@.len());
    }
    if *index < runtime_args.accumulators.len() {
        proof {
            assert(runtime_args@.accs[*index as int] == runtime_args.accumulators@[*index as int].data);
        }
        match runtime_args.accumulators[*index].data {
            Some(v) => Ok(v),
            None => Err(RunError::AccumulatorUndefined(*index)),
        }
    } else {
        Err(RunError::AccumulatorNotFound(*index))
    }
}

/// Tests if the memory cell with **label** exists.
pub fn assert_memory_cell_exists(runtime_args: &mut RuntimeArgs, label: &str) -> (r: Result<
    (),
    RunError,
>)
    ensures
        *final(runtime_args) == *old(runtime_args),
        reflects_check(r, crate::model::cell_exists(old(runtime_args)@, label@)),
{
    match runtime_args.get_cell(label) {
        Some(_) => Ok(()),
        None => Err(RunError::MemoryCellNotFound(label.to_owned())),
    }
}

/// Tests if the memory cell with **label** exists and contains a value;
/// the value is returned.
pub fn assert_memory_cell_contains_value(runtime_args: &mut RuntimeArgs, label: &str) -> (r:
    Result<i32, RunError>)
    ensures
        *final(runtime_args) == *old(runtime_args),
        reflects_read(r, cell_read(old(runtime_args)@, label@)),
{
    match runtime_args.get_cell(label) {
        Some(Some(v)) => Ok(v),
        Some(None) => Err(RunError::MemoryCellUndefined(label.to_owned())),
        None => Err(RunError::MemoryCellNotFound(label.to_owned())),
    }
}

} // verus!
