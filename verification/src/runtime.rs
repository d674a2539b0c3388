use crate::base::{Accumulator, MemoryCell};
use crate::model::{with_acc, with_cell, Fault, FlowView, MachineView};
use vstd::prelude::*;

verus! {

/// The reasons a run can fail. Each instruction reports the first violated
/// precondition; the driver treats any of these as fatal to the run.
#[derive(Debug, PartialEq, Eq)]
pub enum RunError {
    AccumulatorNotFound(usize),
    AccumulatorUndefined(usize),
    MemoryCellNotFound(String),
    MemoryCellUndefined(String),
    LabelNotFound(String),
    DivisionByZero,
    StepLimitExceeded,
}

impl View for RunError {
    type V = Fault;

    open spec fn view(&self) -> Fault {
        match self {
            RunError::AccumulatorNotFound(i) => Fault::AccumulatorNotFound(*i as int),
            RunError::AccumulatorUndefined(i) => Fault::AccumulatorUndefined(*i as int),
            RunError::MemoryCellNotFound(l) => Fault::MemoryCellNotFound(l@),
            RunError::MemoryCellUndefined(l) => Fault::MemoryCellUndefined(l@),
            RunError::LabelNotFound(l) => Fault::LabelNotFound(l@),
            RunError::DivisionByZero => Fault::DivisionByZero,
            RunError::StepLimitExceeded => Fault::StepLimitExceeded,
        }
    }
}

/// How a fallible state transition is mirrored by an executable result: on
/// success the new state is the specified one, on a fault the error carries
/// the specified fault and the state is exactly the old one.
pub open spec fn reflects_m(
    r: Result<(), RunError>,
    out: Result<MachineView, Fault>,
    m_new: MachineView,
    m_old: MachineView,
) -> bool {
    match (r, out) {
        (Ok(()), Ok(m2)) => m_new == m2,
        (Err(e), Err(f)) => e@ == f && m_new == m_old,
        _ => false,
    }
}

/// As [`reflects_m`], for transitions of the control flow.
pub open spec fn reflects_f(
    r: Result<(), RunError>,
    out: Result<FlowView, Fault>,
    f_new: FlowView,
    f_old: FlowView,
) -> bool {
    match (r, out) {
        (Ok(()), Ok(f2)) => f_new == f2,
        (Err(e), Err(f)) => e@ == f && f_new == f_old,
        _ => false,
    }
}

/// As [`reflects_m`], for checks that yield no value and change nothing.
pub open spec fn reflects_check(r: Result<(), RunError>, out: Result<(), Fault>) -> bool {
    match (r, out) {
        (Ok(()), Ok(())) => true,
        (Err(e), Err(f)) => e@ == f,
        _ => false,
    }
}

/// As [`reflects_m`], for reads that yield a value and change nothing.
pub open spec fn reflects_read(r: Result<i32, RunError>, out: Result<i32, Fault>) -> bool {
    match (r, out) {
        (Ok(a), Ok(b)) => a == b,
        (Err(e), Err(f)) => e@ == f,
        _ => false,
    }
}

/// The accumulator list seen as the sequence of its (optional) values.
pub open spec fn accs_view(s: Seq<Accumulator>) -> Seq<Option<i32>> {
    Seq::new(s.len(), |i: int| s[i].data)
}

/// The memory-cell list seen as a map from label to (optional) value.
/// Should two entries ever carry the same label, the earlier one wins, just
/// as every lookup returns the first match.
pub open spec fn cells_view(s: Seq<MemoryCell>) -> Map<Seq<char>, Option<i32>>
    decreases s.len(),
{
    if s.len() == 0 {
        Map::empty()
    } else {
        cells_view(s.drop_first()).insert(s[0].label@, s[0].data)
    }
}

/// The label list seen as a map from label to instruction index. The
/// earlier of two entries with one label wins, as in every lookup.
pub open spec fn labels_view(s: Seq<(String, usize)>) -> Map<Seq<char>, int>
    decreases s.len(),
{
    if s.len() == 0 {
        Map::empty()
    } else {
        labels_view(s.drop_first()).insert(s[0].0@, s[0].1 as int)
    }
}

proof fn lemma_cells_view_no_match(s: Seq<MemoryCell>, l: Seq<char>)
    requires
        forall|k: int| 0 <= k < s.len() ==> (#[trigger] s[k]).label@ != l,
    ensures
        !cells_view(s).contains_key(l),
    decreases s.len(),
{
    if s.len() > 0 {
        assert forall|k: int| 0 <= k < s.drop_first().len() implies (#[trigger] s.drop_first()[k]).label@
            != l by {
            assert(s.drop_first()[k] == s[k + 1]);
        }
        lemma_cells_view_no_match(s.drop_first(), l);
        assert(s[0].label@ != l);
    }
}

proof fn lemma_cells_view_first_match(s: Seq<MemoryCell>, j: int)
    requires
        0 <= j < s.len(),
        forall|k: int| 0 <= k < j ==> (#[trigger] s[k]).label@ != s[j].label@,
    ensures
        cells_view(s).contains_key(s[j].label@),
        cells_view(s)[s[j].label@] == s[j].data,
    decreases j,
{
    if j > 0 {
        assert(s.drop_first()[j - 1] == s[j]);
        assert forall|k: int| 0 <= k < j - 1 implies (#[trigger] s.drop_first()[k]).label@
            != s.drop_first()[j - 1].label@ by {
            assert(s.drop_first()[k] == s[k + 1]);
        }
        lemma_cells_view_first_match(s.drop_first(), j - 1);
        assert(s[0].label@ != s[j].label@);
    }
}

proof fn lemma_cells_view_update(s: Seq<MemoryCell>, j: int, c: MemoryCell)
    requires
        0 <= j < s.len(),
        forall|k: int| 0 <= k < j ==> (#[trigger] s[k]).label@ != s[j].label@,
        c.label@ == s[j].label@,
    ensures
        cells_view(s.update(j, c)) == cells_view(s).insert(c.label@, c.data),
    decreases j,
{
    let t = s.update(j, c);
    if j == 0 {
        assert(t.drop_first() =~= s.drop_first());
        assert(t[0] == c);
        assert(cells_view(t) =~= cells_view(s).insert(c.label@, c.data));
    } else {
        assert(t.drop_first() =~= s.drop_first().update(j - 1, c));
        assert(s.drop_first()[j - 1] == s[j]);
        assert forall|k: int| 0 <= k < j - 1 implies (#[trigger] s.drop_first()[k]).label@
            != s.drop_first()[j - 1].label@ by {
            assert(s.drop_first()[k] == s[k + 1]);
        }
        lemma_cells_view_update(s.drop_first(), j - 1, c);
        assert(t[0] == s[0]);
        assert(s[0].label@ != c.label@);
        assert(cells_view(t) =~= cells_view(s).insert(c.label@, c.data));
    }
}

proof fn lemma_cells_view_push(s: Seq<MemoryCell>, c: MemoryCell)
    requires
        forall|k: int| 0 <= k < s.len() ==> (#[trigger] s[k]).label@ != c.label@,
    ensures
        cells_view(s.push(c)) == cells_view(s).insert(c.label@, c.data),
    decreases s.len(),
{
    let t = s.push(c);
    if s.len() == 0 {
        assert(t.drop_first() =~= Seq::<MemoryCell>::empty());
        assert(t[0] == c);
        assert(cells_view(Seq::<MemoryCell>::empty()) == Map::<Seq<char>, Option<i32>>::empty());
        assert(cells_view(t) =~= cells_view(s).insert(c.label@, c.data));
    } else {
        assert(t.drop_first() =~= s.drop_first().push(c));
        assert forall|k: int| 0 <= k < s.drop_first().len() implies (#[trigger] s.drop_first()[k]).label@
            != c.label@ by {
            assert(s.drop_first()[k] == s[k + 1]);
        }
        lemma_cells_view_push(s.drop_first(), c);
        assert(t[0] == s[0]);
        assert(s[0].label@ != c.label@);
        assert(cells_view(t) =~= cells_view(s).insert(c.label@, c.data));
    }
}

proof fn lemma_labels_view_no_match(s: Seq<(String, usize)>, l: Seq<char>)
    requires
        forall|k: int| 0 <= k < s.len() ==> (#[trigger] s[k]).0@ != l,
    ensures
        !labels_view(s).contains_key(l),
    decreases s.len(),
{
    if s.len() > 0 {
        assert forall|k: int| 0 <= k < s.drop_first().len() implies (#[trigger] s.drop_first()[k]).0@
            != l by {
            assert(s.drop_first()[k] == s[k + 1]);
        }
        lemma_labels_view_no_match(s.drop_first(), l);
        assert(s[0].0@ != l);
    }
}

proof fn lemma_labels_view_first_match(s: Seq<(String, usize)>, j: int)
    requires
        0 <= j < s.len(),
        forall|k: int| 0 <= k < j ==> (#[trigger] s[k]).0@ != s[j].0@,
    ensures
        labels_view(s).contains_key(s[j].0@),
        labels_view(s)[s[j].0@] == s[j].1 as int,
    decreases j,
{
    if j > 0 {
        assert(s.drop_first()[j - 1] == s[j]);
        assert forall|k: int| 0 <= k < j - 1 implies (#[trigger] s.drop_first()[k]).0@
            != s.drop_first()[j - 1].0@ by {
            assert(s.drop_first()[k] == s[k + 1]);
        }
        lemma_labels_view_first_match(s.drop_first(), j - 1);
        assert(s[0].0@ != s[j].0@);
    }
}

proof fn lemma_labels_view_update(s: Seq<(String, usize)>, j: int, e: (String, usize))
    requires
        0 <= j < s.len(),
        forall|k: int| 0 <= k < j ==> (#[trigger] s[k]).0@ != s[j].0@,
        e.0@ == s[j].0@,
    ensures
        labels_view(s.update(j, e)) == labels_view(s).insert(e.0@, e.1 as int),
    decreases j,
{
    let t = s.update(j, e);
    if j == 0 {
        assert(t.drop_first() =~= s.drop_first());
        assert(t[0] == e);
        assert(labels_view(t) =~= labels_view(s).insert(e.0@, e.1 as int));
    } else {
        assert(t.drop_first() =~= s.drop_first().update(j - 1, e));
        assert(s.drop_first()[j - 1] == s[j]);
        assert forall|k: int| 0 <= k < j - 1 implies (#[trigger] s.drop_first()[k]).0@
            != s.drop_first()[j - 1].0@ by {
            assert(s.drop_first()[k] == s[k + 1]);
        }
        lemma_labels_view_update(s.drop_first(), j - 1, e);
        assert(t[0] == s[0]);
        assert(s[0].0@ != e.0@);
        assert(labels_view(t) =~= labels_view(s).insert(e.0@, e.1 as int));
    }
}

proof fn lemma_labels_view_push(s: Seq<(String, usize)>, e: (String, usize))
    requires
        forall|k: int| 0 <= k < s.len() ==> (#[trigger] s[k]).0@ != e.0@,
    ensures
        labels_view(s.push(e)) == labels_view(s).insert(e.0@, e.1 as int),
    decreases s.len(),
{
    let t = s.push(e);
    if s.len() == 0 {
        assert(t.drop_first() =~= Seq::<(String, usize)>::empty());
        assert(t[0] == e);
        assert(labels_view(Seq::<(String, usize)>::empty()) == Map::<Seq<char>, int>::empty());
        assert(labels_view(t) =~= labels_view(s).insert(e.0@, e.1 as int));
    } else {
        assert(t.drop_first() =~= s.drop_first().push(e));
        assert forall|k: int| 0 <= k < s.drop_first().len() implies (#[trigger] s.drop_first()[k]).0@
            != e.0@ by {
            assert(s.drop_first()[k] == s[k + 1]);
        }
        lemma_labels_view_push(s.drop_first(), e);
        assert(t[0] == s[0]);
        assert(s[0].0@ != e.0@);
        assert(labels_view(t) =~= labels_view(s).insert(e.0@, e.1 as int));
    }
}

/// The index of the first memory cell carrying `label`, if any.
fn find_cell(cells: &Vec<MemoryCell>, label: &str) -> (r: Option<usize>)
    ensures
        match r {
            Some(j) => 0 <= j < cells@.len() && cells@[j as int].label@ == label@ && forall|k: int|
                0 <= k < j ==> (#[trigger] cells@[k]).label@ != label@,
            None => forall|k: int|
                0 <= k < cells@.len() ==> (#[trigger] cells@[k]).label@ != label@,
        },
{
    let key: String = label.to_owned();
    let mut j: usize = 0;
    while j < cells.len()
        invariant
            j <= cells@.len(),
            key@ == label@,
            forall|k: int| 0 <= k < j ==> (#[trigger] cells@[k]).label@ != label@,
        decreases cells@.len() - j,
    {
        if cells[j].label == key {
            return Some(j);
        }
        j += 1;
    }
    None
}

/// The index of the first label-table entry carrying `label`, if any.
fn find_label(entries: &Vec<(String, usize)>, label: &str) -> (r: Option<usize>)
    ensures
        match r {
            Some(j) => 0 <= j < entries@.len() && entries@[j as int].0@ == label@ && forall|k: int|
                0 <= k < j ==> (#[trigger] entries@[k]).0@ != label@,
            None => forall|k: int| 0 <= k < entries@.len() ==> (#[trigger] entries@[k]).0@ != label@,
        },
{
    let key: String = label.to_owned();
    let mut j: usize = 0;
    while j < entries.len()
        invariant
            j <= entries@.len(),
            key@ == label@,
            forall|k: int| 0 <= k < j ==> (#[trigger] entries@[k]).0@ != label@,
        decreases entries@.len() - j,
    {
        if entries[j].0 == key {
            return Some(j);
        }
        j += 1;
    }
    None
}

/// The runtime state of the machine: the accumulator list, the memory-cell
/// store and the stack. The accumulator count and the cell label set are
/// configured before a run starts and stay fixed for its lifetime.
pub struct RuntimeArgs {
    pub accumulators: Vec<Accumulator>,
    pub memory_cells: Vec<MemoryCell>,
    pub stack: Vec<i32>,
}

impl View for RuntimeArgs {
    type V = MachineView;

    open spec fn view(&self) -> MachineView {
        MachineView {
            accs: accs_view(self.accumulators@),
            cells: cells_view(self.memory_cells@),
            stack: self.stack@,
        }
    }
}

impl RuntimeArgs {
    /// A machine with no accumulators, no memory cells and an empty stack.
    pub fn new_empty() -> (r: RuntimeArgs)
        ensures
            r@.accs == Seq::<Option<i32>>::empty(),
            r@.cells == Map::<Seq<char>, Option<i32>>::empty(),
            r@.stack == Seq::<i32>::empty(),
    {
        let r = RuntimeArgs { accumulators: Vec::new(), memory_cells: Vec::new(), stack: Vec::new() };
        proof {
            assert(r@.accs =~= Seq::<Option<i32>>::empty());
        }
        r
    }

    /// A machine with the default configuration: four accumulators and the
    /// memory cells labelled "a" through "d", all still undefined.
    pub fn new() -> (r: RuntimeArgs)
        ensures
            r@.accs == seq![None::<i32>, None::<i32>, None::<i32>, None::<i32>],
            r@.cells == Map::<Seq<char>, Option<i32>>::empty().insert("a"@, None).insert(
                "b"@,
                None,
            ).insert("c"@, None).insert("d"@, None),
            r@.stack == Seq::<i32>::empty(),
    {
        let mut r = RuntimeArgs::new_empty();
        r.add_accumulator();
        r.add_accumulator();
        r.add_accumulator();
        r.add_accumulator();
        proof {
            reveal_strlit("a");
            reveal_strlit("b");
            reveal_strlit("c");
            reveal_strlit("d");
        }
        r.add_storage_cell("a");
        r.add_storage_cell("b");
        r.add_storage_cell("c");
        r.add_storage_cell("d");
        proof {
            assert(r@.accs =~= seq![None::<i32>, None::<i32>, None::<i32>, None::<i32>]);
        }
        r
    }

    /// Appends one more (undefined) accumulator to the machine.
    pub fn add_accumulator(&mut self)
        requires
            old(self)@.accs.len() < 0x7fff_ffff,
        ensures
            final(self)@.accs == old(self)@.accs.push(None),
            final(self)@.cells == old(self)@.cells,
            final(self)@.stack == old(self)@.stack,
    {
        proof {
            assert(self@.accs.len() == self.accumulators@.len());
        }
        let id = self.accumulators.len() as i32;
        self.accumulators.push(Accumulator::new(id));
        proof {
            assert(self@.accs =~= old(self)@.accs.push(None));
        }
    }

    /// Adds the (undefined) memory cell labelled `label` to the machine; a
    /// label that is already configured is left untouched.
    pub fn add_storage_cell(&mut self, label: &str)
        ensures
            final(self)@.cells == if old(self)@.cells.contains_key(label@) {
                old(self)@.cells
            } else {
                old(self)@.cells.insert(label@, None)
            },
            final(self)@.accs == old(self)@.accs,
            final(self)@.stack == old(self)@.stack,
    {
        match find_cell(&self.memory_cells, label) {
            Some(j) => {
                proof {
                    lemma_cells_view_first_match(self.memory_cells@, j as int);
                }
            },
            None => {
                proof {
                    lemma_cells_view_no_match(self.memory_cells@, label@);
                }
                let cell = MemoryCell::new(label);
                proof {
                    lemma_cells_view_push(self.memory_cells@, cell);
                }
                self.memory_cells.push(cell);
            },
        }
    }

    /// Looks the memory cell labelled `label` up: `None` when no such cell
    /// is configured, otherwise its (optional) content.
    pub fn get_cell(&self, label: &str) -> (r: Option<Option<i32>>)
        ensures
            match r {
                Some(d) => self@.cells.contains_key(label@) && d == self@.cells[label@],
                None => !self@.cells.contains_key(label@),
            },
    {
        match find_cell(&self.memory_cells, label) {
            Some(j) => {
                proof {
                    lemma_cells_view_first_match(self.memory_cells@, j as int);
                }
                Some(self.memory_cells[j].data)
            },
            None => {
                proof {
                    lemma_cells_view_no_match(self.memory_cells@, label@);
                }
                None
            },
        }
    }

    /// Defines accumulator `i`, which must be configured.
    pub fn set_accumulator(&mut self, i: usize, v: i32)
        requires
            i < old(self)@.accs.len(),
        ensures
            final(self)@ == with_acc(old(self)@, i as int, v),
    {
        let id = self.accumulators[i].id;
        self.accumulators[i] = Accumulator { id, data: Some(v) };
        proof {
            assert(self@.accs =~= old(self)@.accs.update(i as int, Some(v)));
            assert(self@ == with_acc(old(self)@, i as int, v));
        }
    }

    /// Defines the memory cell labelled `label`; returns whether such a
    /// cell is configured, and changes nothing when none is.
    pub fn set_cell(&mut self, label: &str, v: i32) -> (r: bool)
        ensures
            r == old(self)@.cells.contains_key(label@),
            r ==> final(self)@ == with_cell(old(self)@, label@, v),
            !r ==> *final(self) == *old(self),
    {
        match find_cell(&self.memory_cells, label) {
            Some(j) => {
                proof {
                    lemma_cells_view_first_match(self.memory_cells@, j as int);
                }
                let cell = MemoryCell { label: label.to_owned(), data: Some(v) };
                proof {
                    lemma_cells_view_update(self.memory_cells@, j as int, cell);
                }
                self.memory_cells[j] = cell;
                true
            },
            None => {
                proof {
                    lemma_cells_view_no_match(self.memory_cells@, label@);
                }
                false
            },
        }
    }
}

/// The control flow of a run: the label table, built before execution and
/// read-only thereafter, and the cursor holding the index of the next
/// instruction to execute.
pub struct ControlFlow {
    pub instruction_labels: Vec<(String, usize)>,
    pub next_instruction_index: usize,
}

impl View for ControlFlow {
    type V = FlowView;

    open spec fn view(&self) -> FlowView {
        FlowView {
            labels: labels_view(self.instruction_labels@),
            cursor: self.next_instruction_index as int,
        }
    }
}

impl ControlFlow {
    /// An empty label table with the cursor at the first instruction.
    pub fn new() -> (c: ControlFlow)
        ensures
            c@.labels == Map::<Seq<char>, int>::empty(),
            c@.cursor == 0,
    {
        ControlFlow { instruction_labels: Vec::new(), next_instruction_index: 0 }
    }

    /// Binds `label` to the instruction index `index`, replacing any
    /// earlier binding of the same label.
    pub fn insert_label(&mut self, label: &str, index: usize)
        ensures
            final(self)@.labels == old(self)@.labels.insert(label@, index as int),
            final(self)@.cursor == old(self)@.cursor,
    {
        match find_label(&self.instruction_labels, label) {
            Some(j) => {
                let entry = (label.to_owned(), index);
                proof {
                    lemma_labels_view_update(self.instruction_labels@, j as int, entry);
                }
                self.instruction_labels[j] = entry;
            },
            None => {
                let entry = (label.to_owned(), index);
                proof {
                    lemma_labels_view_push(self.instruction_labels@, entry);
                }
                self.instruction_labels.push(entry);
            },
        }
    }

    /// Resolves a jump to `label`: on a hit the cursor moves to the bound
    /// index, on a miss the run fails with `LabelNotFound` and nothing
    /// changes.
    pub fn resolve_jump(&mut self, label: &str) -> (r: Result<(), RunError>)
        ensures
            reflects_f(
                r,
                crate::model::resolve_jump_f(old(self)@, label@),
                final(self)@,
                old(self)@,
            ),
            final(self).instruction_labels == old(self).instruction_labels,
    {
        match find_label(&self.instruction_labels, label) {
            Some(j) => {
                proof {
                    lemma_labels_view_first_match(self.instruction_labels@, j as int);
                }
                self.next_instruction_index = self.instruction_labels[j].1;
                Ok(())
            },
            None => {
                proof {
                    lemma_labels_view_no_match(self.instruction_labels@, label@);
                }
                Err(RunError::LabelNotFound(label.to_owned()))
            },
        }
    }
}

} // verus!
