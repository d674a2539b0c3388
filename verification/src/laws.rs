use crate::base::{cmp_spec, op_value, Comparison, Operation};
use crate::driver::{drive1, Status};
use crate::instructions::Instruction;
use crate::model::{
    acc_read, apply_op, goto_if_f, pop_m, push_m, resolve_jump_f, with_acc, Fault, FlowView,
    MachineView,
};
use vstd::prelude::*;

verus! {

/// Push then Pop round-trips: on a machine whose accumulator 0 holds a
/// value, pushing and then popping restores the state exactly — the
/// accumulator keeps its value and the stack is as before.
pub proof fn lemma_push_then_pop_round_trip(m: MachineView, v: i32)
    requires
        m.accs.len() > 0,
        m.accs[0] == Some(v),
    ensures
        push_m(m) == Ok::<MachineView, Fault>(MachineView { stack: m.stack.push(v), ..m }),
        pop_m(MachineView { stack: m.stack.push(v), ..m }) == Ok::<MachineView, Fault>(m),
{
    let pushed = MachineView { stack: m.stack.push(v), ..m };
    assert(pushed.stack.drop_last() =~= m.stack);
    assert(pushed.stack.last() == v);
    assert(m.accs.update(0, Some(v)) =~= m.accs);
}

/// Popping an empty stack is never a fault: whenever accumulator 0 is
/// configured, Pop on an empty stack succeeds and leaves 0 there.
pub proof fn lemma_pop_empty_stack_yields_zero(m: MachineView)
    requires
        m.accs.len() > 0,
        m.stack.len() == 0,
    ensures
        pop_m(m) == Ok::<MachineView, Fault>(with_acc(m, 0, 0)),
        with_acc(m, 0, 0).accs[0] == Some(0i32),
        with_acc(m, 0, 0).stack.len() == 0,
{
}

/// Division by zero is the one arithmetic fault: applying an operator
/// faults exactly when it is a division whose divisor is zero, and yields
/// the machine result of the operator otherwise.
pub proof fn lemma_division_by_zero_faults(op: Operation, x: i32, y: i32)
    ensures
        op is Division && y == 0 ==> apply_op(op, x, y) == Err::<i32, Fault>(
            Fault::DivisionByZero,
        ),
        !(op is Division && y == 0) ==> apply_op(op, x, y) == Ok::<i32, Fault>(
            op_value(op, x, y),
        ),
{
}

/// Whatever form a conditional jump's operands take: once both are read,
/// an unmet guard never touches the control flow — in particular, no fault
/// arises from the target label, whether or not it exists.
pub proof fn lemma_unmet_guard_is_no_jump(
    f: FlowView,
    c: Comparison,
    l: Seq<char>,
    x: i32,
    y: i32,
)
    requires
        !cmp_spec(c, x as int, y as int),
    ensures
        goto_if_f(f, c, l, Ok(x), Ok(y)) == Ok::<FlowView, Fault>(f),
{
}

/// Whatever form a conditional jump's operands take: a guard that holds
/// resolves the label exactly as an unconditional jump would.
pub proof fn lemma_met_guard_resolves_the_label(
    f: FlowView,
    c: Comparison,
    l: Seq<char>,
    x: i32,
    y: i32,
)
    requires
        cmp_spec(c, x as int, y as int),
    ensures
        goto_if_f(f, c, l, Ok(x), Ok(y)) == resolve_jump_f(f, l),
{
}

/// A conditional jump whose guard does not hold leaves the state alone and
/// lets the driver advance the cursor by exactly one — whether or not the
/// target label exists in the label table.
pub proof fn lemma_conditional_goto_false_guard(
    prog: Seq<Instruction>,
    m: MachineView,
    f: FlowView,
    cmp: Comparison,
    label: String,
    a: usize,
    v: i32,
    x: i32,
)
    requires
        0 <= f.cursor < prog.len(),
        prog[f.cursor] == Instruction::GotoIfConstant(cmp, label, a, v),
        acc_read(m, a as int) == Ok::<i32, Fault>(x),
        !cmp_spec(cmp, x as int, v as int),
    ensures
        drive1(prog, Status::Running(m, f)) == Status::Running(
            m,
            FlowView { cursor: f.cursor + 1, ..f },
        ),
{
}

/// A conditional jump whose guard holds but whose target label is unknown
/// halts the run with `LabelNotFound`, the state untouched.
pub proof fn lemma_conditional_goto_unknown_label(
    prog: Seq<Instruction>,
    m: MachineView,
    f: FlowView,
    cmp: Comparison,
    label: String,
    a: usize,
    v: i32,
    x: i32,
)
    requires
        0 <= f.cursor < prog.len(),
        prog[f.cursor] == Instruction::GotoIfConstant(cmp, label, a, v),
        acc_read(m, a as int) == Ok::<i32, Fault>(x),
        cmp_spec(cmp, x as int, v as int),
        !f.labels.contains_key(label@),
    ensures
        drive1(prog, Status::Running(m, f)) == Status::Failed(
            Fault::LabelNotFound(label@),
            m,
            FlowView { cursor: f.cursor + 1, ..f },
        ),
{
}

} // verus!
