use crate::base::{cmp_spec, op_value, Comparison, Operation};
use vstd::prelude::*;

verus! {

/// Mathematical view of the runtime state: the accumulator values by
/// position, the memory-cell values by label, and the stack contents from
/// bottom to top. A slot holds `None` while it is still undefined.
pub ghost struct MachineView {
    pub accs: Seq<Option<i32>>,
    pub cells: Map<Seq<char>, Option<i32>>,
    pub stack: Seq<i32>,
}

/// Mathematical view of the control flow: the immutable label table and the
/// cursor, the index of the next instruction the driver will execute.
pub ghost struct FlowView {
    pub labels: Map<Seq<char>, int>,
    pub cursor: int,
}

/// The reasons an instruction can refuse to run. Every fault is detected
/// before the instruction writes anything.
pub ghost enum Fault {
    AccumulatorNotFound(int),
    AccumulatorUndefined(int),
    MemoryCellNotFound(Seq<char>),
    MemoryCellUndefined(Seq<char>),
    LabelNotFound(Seq<char>),
    DivisionByZero,
    StepLimitExceeded,
}

/// Checks that accumulator `i` is configured.
pub open spec fn acc_exists(m: MachineView, i: int) -> Result<(), Fault> {
    if 0 <= i < m.accs.len() {
        Ok(())
    } else {
        Err(Fault::AccumulatorNotFound(i))
    }
}

/// Reads accumulator `i`: it must be configured and hold a value.
pub open spec fn acc_read(m: MachineView, i: int) -> Result<i32, Fault> {
    if !(0 <= i < m.accs.len()) {
        Err(Fault::AccumulatorNotFound(i))
    } else {
        match m.accs[i] {
            Some(v) => Ok(v),
            None => Err(Fault::AccumulatorUndefined(i)),
        }
    }
}

/// Checks that the memory cell labelled `l` is configured.
pub open spec fn cell_exists(m: MachineView, l: Seq<char>) -> Result<(), Fault> {
    if m.cells.contains_key(l) {
        Ok(())
    } else {
        Err(Fault::MemoryCellNotFound(l))
    }
}

/// Reads the memory cell labelled `l`: it must be configured and hold a value.
pub open spec fn cell_read(m: MachineView, l: Seq<char>) -> Result<i32, Fault> {
    if !m.cells.contains_key(l) {
        Err(Fault::MemoryCellNotFound(l))
    } else {
        match m.cells[l] {
            Some(v) => Ok(v),
            None => Err(Fault::MemoryCellUndefined(l)),
        }
    }
}

/// The state after defining accumulator `i`.
pub open spec fn with_acc(m: MachineView, i: int, v: i32) -> MachineView {
    MachineView { accs: m.accs.update(i, Some(v)), ..m }
}

/// The state after defining the memory cell labelled `l`.
pub open spec fn with_cell(m: MachineView, l: Seq<char>, v: i32) -> MachineView {
    MachineView { cells: m.cells.insert(l, Some(v)), ..m }
}

/// Applies an operator to two operand values; division by zero is the one
/// arithmetic fault.
pub open spec fn apply_op(op: Operation, x: i32, y: i32) -> Result<i32, Fault> {
    if op is Division && y == 0 {
        Err(Fault::DivisionByZero)
    } else {
        Ok(op_value(op, x, y))
    }
}

/// Push: appends the value of accumulator 0 to the stack, or 0 while that
/// accumulator is still undefined. Accumulator 0 must be configured.
pub open spec fn push_m(m: MachineView) -> Result<MachineView, Fault> {
    match acc_exists(m, 0) {
        Err(e) => Err(e),
        Ok(()) => {
            let v = match m.accs[0] {
                Some(v) => v,
                None => 0,
            };
            Ok(MachineView { stack: m.stack.push(v), ..m })
        },
    }
}

/// Pop: removes the top of the stack into accumulator 0; an empty stack
/// yields 0 instead of a fault. Accumulator 0 must be configured.
pub open spec fn pop_m(m: MachineView) -> Result<MachineView, Fault> {
    match acc_exists(m, 0) {
        Err(e) => Err(e),
        Ok(()) => {
            if m.stack.len() == 0 {
                Ok(with_acc(m, 0, 0))
            } else {
                Ok(MachineView {
                    accs: m.accs.update(0, Some(m.stack.last())),
                    stack: m.stack.drop_last(),
                    ..m
                })
            }
        },
    }
}

/// a := x.
pub open spec fn assign_acc_value_m(m: MachineView, i: int, v: i32) -> Result<MachineView, Fault> {
    match acc_exists(m, i) {
        Err(e) => Err(e),
        Ok(()) => Ok(with_acc(m, i, v)),
    }
}

/// a := b. The destination is validated first, then the source.
pub open spec fn assign_acc_from_acc_m(m: MachineView, a: int, b: int) -> Result<
    MachineView,
    Fault,
> {
    match acc_exists(m, a) {
        Err(e) => Err(e),
        Ok(()) => match acc_read(m, b) {
            Err(e) => Err(e),
            Ok(v) => Ok(with_acc(m, a, v)),
        },
    }
}

/// a := p(l). The destination is validated first, then the source.
pub open spec fn assign_acc_from_cell_m(m: MachineView, a: int, l: Seq<char>) -> Result<
    MachineView,
    Fault,
> {
    match acc_exists(m, a) {
        Err(e) => Err(e),
        Ok(()) => match cell_read(m, l) {
            Err(e) => Err(e),
            Ok(v) => Ok(with_acc(m, a, v)),
        },
    }
}

/// p(l) := x.
pub open spec fn assign_cell_value_m(m: MachineView, l: Seq<char>, v: i32) -> Result<
    MachineView,
    Fault,
> {
    match cell_exists(m, l) {
        Err(e) => Err(e),
        Ok(()) => Ok(with_cell(m, l, v)),
    }
}

/// p(l) := a. The destination is validated first, then the source.
pub open spec fn assign_cell_from_acc_m(m: MachineView, l: Seq<char>, a: int) -> Result<
    MachineView,
    Fault,
> {
    match cell_exists(m, l) {
        Err(e) => Err(e),
        Ok(()) => match acc_read(m, a) {
            Err(e) => Err(e),
            Ok(v) => Ok(with_cell(m, l, v)),
        },
    }
}

/// p(la) := p(lb). The destination is validated first, then the source.
pub open spec fn assign_cell_from_cell_m(m: MachineView, la: Seq<char>, lb: Seq<char>) -> Result<
    MachineView,
    Fault,
> {
    match cell_exists(m, la) {
        Err(e) => Err(e),
        Ok(()) => match cell_read(m, lb) {
            Err(e) => Err(e),
            Ok(v) => Ok(with_cell(m, la, v)),
        },
    }
}

/// a := a op x.
pub open spec fn calc_acc_const_m(m: MachineView, op: Operation, a: int, v: i32) -> Result<
    MachineView,
    Fault,
> {
    match acc_read(m, a) {
        Err(e) => Err(e),
        Ok(x) => match apply_op(op, x, v) {
            Err(e) => Err(e),
            Ok(r) => Ok(with_acc(m, a, r)),
        },
    }
}

/// a := a op b.
pub open spec fn calc_acc_acc_m(m: MachineView, op: Operation, a: int, b: int) -> Result<
    MachineView,
    Fault,
> {
    match acc_read(m, a) {
        Err(e) => Err(e),
        Ok(x) => match acc_read(m, b) {
            Err(e) => Err(e),
            Ok(y) => match apply_op(op, x, y) {
                Err(e) => Err(e),
                Ok(r) => Ok(with_acc(m, a, r)),
            },
        },
    }
}

/// a := b op c. The operand sources are validated first, then the
/// destination.
pub open spec fn calc_acc_accs_m(m: MachineView, op: Operation, a: int, b: int, c: int) -> Result<
    MachineView,
    Fault,
> {
    match acc_read(m, b) {
        Err(e) => Err(e),
        Ok(x) => match acc_read(m, c) {
            Err(e) => Err(e),
            Ok(y) => match acc_exists(m, a) {
                Err(e) => Err(e),
                Ok(()) => match apply_op(op, x, y) {
                    Err(e) => Err(e),
                    Ok(r) => Ok(with_acc(m, a, r)),
                },
            },
        },
    }
}

/// a := a op p(l).
pub open spec fn calc_acc_cell_m(m: MachineView, op: Operation, a: int, l: Seq<char>) -> Result<
    MachineView,
    Fault,
> {
    match acc_read(m, a) {
        Err(e) => Err(e),
        Ok(x) => match cell_read(m, l) {
            Err(e) => Err(e),
            Ok(y) => match apply_op(op, x, y) {
                Err(e) => Err(e),
                Ok(r) => Ok(with_acc(m, a, r)),
            },
        },
    }
}

/// a := p(la) op p(lb). The operand sources are validated first, then the
/// destination.
pub open spec fn calc_acc_cells_m(
    m: MachineView,
    op: Operation,
    a: int,
    la: Seq<char>,
    lb: Seq<char>,
) -> Result<MachineView, Fault> {
    match cell_read(m, la) {
        Err(e) => Err(e),
        Ok(x) => match cell_read(m, lb) {
            Err(e) => Err(e),
            Ok(y) => match acc_exists(m, a) {
                Err(e) => Err(e),
                Ok(()) => match apply_op(op, x, y) {
                    Err(e) => Err(e),
                    Ok(r) => Ok(with_acc(m, a, r)),
                },
            },
        },
    }
}

/// p(la) := p(lb) op x. The operand source is validated first, then the
/// destination.
pub open spec fn calc_cell_const_m(
    m: MachineView,
    op: Operation,
    la: Seq<char>,
    lb: Seq<char>,
    v: i32,
) -> Result<MachineView, Fault> {
    match cell_read(m, lb) {
        Err(e) => Err(e),
        Ok(x) => match cell_exists(m, la) {
            Err(e) => Err(e),
            Ok(()) => match apply_op(op, x, v) {
                Err(e) => Err(e),
                Ok(r) => Ok(with_cell(m, la, r)),
            },
        },
    }
}

/// p(la) := p(lb) op a. The operand sources are validated first, then the
/// destination.
pub open spec fn calc_cell_acc_m(
    m: MachineView,
    op: Operation,
    la: Seq<char>,
    lb: Seq<char>,
    a: int,
) -> Result<MachineView, Fault> {
    match cell_read(m, lb) {
        Err(e) => Err(e),
        Ok(x) => match acc_read(m, a) {
            Err(e) => Err(e),
            Ok(y) => match cell_exists(m, la) {
                Err(e) => Err(e),
                Ok(()) => match apply_op(op, x, y) {
                    Err(e) => Err(e),
                    Ok(r) => Ok(with_cell(m, la, r)),
                },
            },
        },
    }
}

/// p(la) := p(lb) op p(lc). The operand sources are validated first, then
/// the destination.
pub open spec fn calc_cell_cells_m(
    m: MachineView,
    op: Operation,
    la: Seq<char>,
    lb: Seq<char>,
    lc: Seq<char>,
) -> Result<MachineView, Fault> {
    match cell_read(m, lb) {
        Err(e) => Err(e),
        Ok(x) => match cell_read(m, lc) {
            Err(e) => Err(e),
            Ok(y) => match cell_exists(m, la) {
                Err(e) => Err(e),
                Ok(()) => match apply_op(op, x, y) {
                    Err(e) => Err(e),
                    Ok(r) => Ok(with_cell(m, la, r)),
                },
            },
        },
    }
}

/// Resolves a jump: on a hit the cursor moves to the stored index, on a
/// miss the run fails.
pub open spec fn resolve_jump_f(f: FlowView, l: Seq<char>) -> Result<FlowView, Fault> {
    if f.labels.contains_key(l) {
        Ok(FlowView { cursor: f.labels[l], ..f })
    } else {
        Err(Fault::LabelNotFound(l))
    }
}

/// A conditional jump: the guard operands are validated first; the label is
/// resolved only when the guard holds, so an unmet guard with an unknown
/// label is not a fault.
pub open spec fn goto_if_f(
    f: FlowView,
    c: Comparison,
    l: Seq<char>,
    x: Result<i32, Fault>,
    y: Result<i32, Fault>,
) -> Result<FlowView, Fault> {
    match x {
        Err(e) => Err(e),
        Ok(a) => match y {
            Err(e) => Err(e),
            Ok(b) => {
                if cmp_spec(c, a as int, b as int) {
                    resolve_jump_f(f, l)
                } else {
                    Ok(f)
                }
            },
        },
    }
}

} // verus!
