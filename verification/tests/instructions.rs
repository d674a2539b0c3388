use alpha_machine::{
    Accumulator, Comparison, ControlFlow, Instruction, MemoryCell, Operation, RunError,
    RuntimeArgs, Runner,
};

/// Sets up runtime args in a consistent way because the default
/// configuration of memory cells and accumulators may change.
fn setup_runtime_args() -> RuntimeArgs {
    let mut args = RuntimeArgs::new();
    args.memory_cells = Vec::new();
    args.memory_cells.push(MemoryCell::new("a"));
    args.memory_cells.push(MemoryCell::new("b"));
    args.memory_cells.push(MemoryCell::new("c"));
    args.accumulators = vec![Accumulator::new(0), Accumulator::new(1), Accumulator::new(2)];
    args
}

/// Sets up runtime args where no memory cells or accumulators are set.
fn setup_empty_runtime_args() -> RuntimeArgs {
    let mut args = RuntimeArgs::new();
    args.accumulators = Vec::new();
    args.memory_cells = Vec::new();
    args
}

fn cell_value(args: &RuntimeArgs, label: &str) -> i32 {
    args.get_cell(label).unwrap().unwrap()
}

#[test]
fn test_stack() {
    let mut args = setup_runtime_args();
    let mut control_flow = ControlFlow::new();
    Instruction::AssignAccumulatorValue(0, 5).run(&mut args, &mut control_flow).unwrap();
    Instruction::Push().run(&mut args, &mut control_flow).unwrap();
    Instruction::AssignAccumulatorValue(0, 10).run(&mut args, &mut control_flow).unwrap();
    Instruction::Push().run(&mut args, &mut control_flow).unwrap();
    assert_eq!(args.stack, vec![5, 10]);
    Instruction::Pop().run(&mut args, &mut control_flow).unwrap();
    assert_eq!(args.accumulators[0].data.unwrap(), 10);
    Instruction::Pop().run(&mut args, &mut control_flow).unwrap();
    assert_eq!(args.accumulators[0].data.unwrap(), 5);
    assert_eq!(args.stack.len(), 0);
}

#[test]
fn test_assign_accumulator_value_from_accumulator() {
    let mut args = setup_runtime_args();
    let mut control_flow = ControlFlow::new();
    Instruction::AssignAccumulatorValue(0, 5).run(&mut args, &mut control_flow).unwrap();
    Instruction::AssignAccumulatorValue(1, 20).run(&mut args, &mut control_flow).unwrap();
    Instruction::AssignAccumulatorValue(2, 12).run(&mut args, &mut control_flow).unwrap();
    Instruction::AssignAccumulatorValueFromAccumulator(1, 2)
        .run(&mut args, &mut control_flow)
        .unwrap();
    Instruction::AssignAccumulatorValueFromAccumulator(0, 1)
        .run(&mut args, &mut control_flow)
        .unwrap();
    assert_eq!(args.accumulators[1].data.unwrap(), 12);
    assert_eq!(args.accumulators[2].data.unwrap(), 12);
}

#[test]
fn test_assign_accumulator_value_from_accumulator_error() {
    let mut args = setup_empty_runtime_args();
    let mut control_flow = ControlFlow::new();
    assert!(Instruction::AssignAccumulatorValueFromAccumulator(0, 1)
        .run(&mut args, &mut control_flow)
        .is_err());
    assert!(Instruction::AssignAccumulatorValueFromAccumulator(1, 0)
        .run(&mut args, &mut control_flow)
        .is_err());
}

#[test]
fn test_assign_accumulator_value_from_memory_cell() {
    let mut args = setup_runtime_args();
    let mut control_flow = ControlFlow::new();
    Instruction::AssignMemoryCellValue("a".to_string(), 10)
        .run(&mut args, &mut control_flow)
        .unwrap();
    Instruction::AssignAccumulatorValueFromMemoryCell(0, "a".to_string())
        .run(&mut args, &mut control_flow)
        .unwrap();
    assert_eq!(args.accumulators[0].data.unwrap(), 10);
}

#[test]
fn test_assign_accumulator_value_from_memory_cell_error() {
    let mut args = setup_empty_runtime_args();
    let mut control_flow = ControlFlow::new();
    args.accumulators = vec![Accumulator::new(0)];
    let err = Instruction::AssignAccumulatorValueFromMemoryCell(0, "a".to_string())
        .run(&mut args, &mut control_flow);
    assert!(err.is_err());
    assert!(matches!(err.err().unwrap(), RunError::MemoryCellNotFound(_)));
    args.memory_cells.push(MemoryCell::new("a"));
    let err = Instruction::AssignAccumulatorValueFromMemoryCell(1, "a".to_string())
        .run(&mut args, &mut control_flow);
    assert!(err.is_err());
    assert!(matches!(err.err().unwrap(), RunError::AccumulatorNotFound(_)));
}

#[test]
fn test_assign_memory_cell_value() {
    let mut args = setup_runtime_args();
    let mut control_flow = ControlFlow::new();
    Instruction::AssignMemoryCellValue("a".to_string(), 2)
        .run(&mut args, &mut control_flow)
        .unwrap();
    Instruction::AssignMemoryCellValue("b".to_string(), 20)
        .run(&mut args, &mut control_flow)
        .unwrap();
    assert_eq!(cell_value(&args, "a"), 2);
    assert_eq!(cell_value(&args, "b"), 20);
}

#[test]
fn test_assign_memory_cell_value_error() {
    let mut args = setup_empty_runtime_args();
    let mut control_flow = ControlFlow::new();
    assert!(Instruction::AssignMemoryCellValue("c".to_string(), 10)
        .run(&mut args, &mut control_flow)
        .is_err());
}

#[test]
fn test_assign_memory_cell_value_from_accumulator() {
    let mut args = setup_runtime_args();
    let mut control_flow = ControlFlow::new();
    Instruction::AssignAccumulatorValue(0, 20).run(&mut args, &mut control_flow).unwrap();
    Instruction::AssignMemoryCellValueFromAccumulator("a".to_string(), 0)
        .run(&mut args, &mut control_flow)
        .unwrap();
    assert_eq!(cell_value(&args, "a"), 20);
}

#[test]
fn test_assign_memory_cell_value_from_accumulator_error() {
    let mut args = setup_empty_runtime_args();
    let mut control_flow = ControlFlow::new();
    args.accumulators = vec![Accumulator::new(0)];
    let err = Instruction::AssignMemoryCellValueFromAccumulator("a".to_string(), 0)
        .run(&mut args, &mut control_flow);
    assert!(err.is_err());
    assert!(matches!(err.err().unwrap(), RunError::MemoryCellNotFound(_)));
    args.memory_cells.push(MemoryCell::new("a"));
    let err = Instruction::AssignMemoryCellValueFromAccumulator("a".to_string(), 1)
        .run(&mut args, &mut control_flow);
    assert!(err.is_err());
    assert!(matches!(err.err().unwrap(), RunError::AccumulatorNotFound(_)));
}

#[test]
fn test_assign_memory_cell_value_from_memory_cell() {
    let mut args = setup_runtime_args();
    let mut control_flow = ControlFlow::new();
    Instruction::AssignMemoryCellValue("a".to_string(), 20)
        .run(&mut args, &mut control_flow)
        .unwrap();
    Instruction::AssingMemoryCellValueFromMemoryCell("b".to_string(), "a".to_string())
        .run(&mut args, &mut control_flow)
        .unwrap();
    assert_eq!(cell_value(&args, "b"), 20);
}

#[test]
fn test_assign_memory_cell_value_from_memory_cell_error() {
    let mut args = setup_empty_runtime_args();
    let mut control_flow = ControlFlow::new();
    assert!(
        Instruction::AssingMemoryCellValueFromMemoryCell("a".to_string(), "b".to_string())
            .run(&mut args, &mut control_flow)
            .is_err()
    );
    assert!(
        Instruction::AssingMemoryCellValueFromMemoryCell("b".to_string(), "a".to_string())
            .run(&mut args, &mut control_flow)
            .is_err()
    );
    args.memory_cells.push(MemoryCell::new("a"));
    args.memory_cells.push(MemoryCell {
        label: "b".to_string(),
        data: Some(10),
    });
    assert!(
        Instruction::AssingMemoryCellValueFromMemoryCell("b".to_string(), "a".to_string())
            .run(&mut args, &mut control_flow)
            .is_err()
    );
    assert!(
        Instruction::AssingMemoryCellValueFromMemoryCell("a".to_string(), "b".to_string())
            .run(&mut args, &mut control_flow)
            .is_ok()
    );
}

#[test]
fn test_calc_accumulator_with_constant() {
    let mut args = setup_runtime_args();
    let control_flow = &mut ControlFlow::new();
    Instruction::AssignAccumulatorValue(0, 20).run(&mut args, control_flow).unwrap();
    Instruction::CalcAccumulatorWithConstant(Operation::Plus, 0, 20)
        .run(&mut args, control_flow)
        .unwrap();
    assert_eq!(args.accumulators[0].data.unwrap(), 40);
}

#[test]
fn test_calc_accumulator_with_accumulator() {
    let mut args = setup_runtime_args();
    let control_flow = &mut ControlFlow::new();
    Instruction::AssignAccumulatorValue(0, 20).run(&mut args, control_flow).unwrap();
    Instruction::AssignAccumulatorValue(1, 20).run(&mut args, control_flow).unwrap();
    Instruction::CalcAccumulatorWithAccumulator(Operation::Plus, 0, 1)
        .run(&mut args, control_flow)
        .unwrap();
    assert_eq!(args.accumulators[0].data.unwrap(), 40);
}

#[test]
fn test_calc_accumulator_with_accumulators() {
    let mut args = setup_runtime_args();
    let control_flow = &mut ControlFlow::new();
    Instruction::AssignAccumulatorValue(1, 20).run(&mut args, control_flow).unwrap();
    Instruction::AssignAccumulatorValue(2, 20).run(&mut args, control_flow).unwrap();
    Instruction::CalcAccumulatorWithAccumulators(Operation::Plus, 0, 1, 2)
        .run(&mut args, control_flow)
        .unwrap();
    assert_eq!(args.accumulators[0].data.unwrap(), 40);
}

#[test]
fn test_calc_accumulator_with_memory_cell() {
    let mut args = setup_runtime_args();
    let control_flow = &mut ControlFlow::new();
    Instruction::AssignAccumulatorValue(0, 20).run(&mut args, control_flow).unwrap();
    Instruction::AssignMemoryCellValue("a".to_string(), 20)
        .run(&mut args, control_flow)
        .unwrap();
    Instruction::CalcAccumulatorWithMemoryCell(Operation::Plus, 0, "a".to_string())
        .run(&mut args, control_flow)
        .unwrap();
    assert_eq!(args.accumulators[0].data.unwrap(), 40);
}

#[test]
fn test_calc_accumulator_with_memory_cells() {
    let mut args = setup_runtime_args();
    let control_flow = &mut ControlFlow::new();
    Instruction::AssignMemoryCellValue("a".to_string(), 10)
        .run(&mut args, control_flow)
        .unwrap();
    Instruction::AssignMemoryCellValue("b".to_string(), 10)
        .run(&mut args, control_flow)
        .unwrap();
    Instruction::CalcAccumulatorWithMemoryCells(Operation::Plus, 0, "a".to_string(), "b".to_string())
        .run(&mut args, control_flow)
        .unwrap();
    assert_eq!(args.accumulators[0].data.unwrap(), 20);
}

#[test]
fn test_calc_memory_cell_with_memory_cell_constant() {
    let mut args = setup_runtime_args();
    let control_flow = &mut ControlFlow::new();
    Instruction::AssignMemoryCellValue("b".to_string(), 10)
        .run(&mut args, control_flow)
        .unwrap();
    Instruction::CalcMemoryCellWithMemoryCellConstant(
        Operation::Plus,
        "a".to_string(),
        "b".to_string(),
        10,
    )
    .run(&mut args, control_flow)
    .unwrap();
    assert_eq!(cell_value(&args, "a"), 20);
}

#[test]
fn test_calc_memory_cell_with_memory_cell_accumulator() {
    let mut args = setup_runtime_args();
    let control_flow = &mut ControlFlow::new();
    Instruction::AssignAccumulatorValue(0, 20).run(&mut args, control_flow).unwrap();
    Instruction::AssignMemoryCellValue("b".to_string(), 10)
        .run(&mut args, control_flow)
        .unwrap();
    Instruction::CalcMemoryCellWithMemoryCellAccumulator(
        Operation::Plus,
        "a".to_string(),
        "b".to_string(),
        0,
    )
    .run(&mut args, control_flow)
    .unwrap();
    assert_eq!(cell_value(&args, "a"), 30);
}

#[test]
fn test_calc_memory_cell_with_memory_cells() {
    let mut args = setup_runtime_args();
    let control_flow = &mut ControlFlow::new();
    Instruction::AssignMemoryCellValue("b".to_string(), 10)
        .run(&mut args, control_flow)
        .unwrap();
    Instruction::AssignMemoryCellValue("c".to_string(), 10)
        .run(&mut args, control_flow)
        .unwrap();
    Instruction::CalcMemoryCellWithMemoryCells(
        Operation::Plus,
        "a".to_string(),
        "b".to_string(),
        "c".to_string(),
    )
    .run(&mut args, control_flow)
    .unwrap();
    assert_eq!(cell_value(&args, "a"), 20);
}

#[test]
fn test_goto() {
    let mut args = setup_empty_runtime_args();
    let mut control_flow = ControlFlow::new();
    control_flow.insert_label("loop", 5);
    Instruction::Goto("loop".to_string()).run(&mut args, &mut control_flow).unwrap();
    assert_eq!(control_flow.next_instruction_index, 5);
}

#[test]
fn test_goto_error() {
    let mut args = setup_empty_runtime_args();
    let mut control_flow = ControlFlow::new();
    assert!(Instruction::Goto("loop".to_string()).run(&mut args, &mut control_flow).is_err());
}

#[test]
fn test_goto_if_accumulator() {
    let mut args = setup_runtime_args();
    let mut control_flow = ControlFlow::new();
    control_flow.insert_label("loop", 20);
    Instruction::AssignAccumulatorValue(0, 20).run(&mut args, &mut control_flow).unwrap();
    Instruction::AssignAccumulatorValue(1, 30).run(&mut args, &mut control_flow).unwrap();
    Instruction::GotoIfAccumulator(Comparison::Less, "loop".to_string(), 0, 1)
        .run(&mut args, &mut control_flow)
        .unwrap();
    assert_eq!(control_flow.next_instruction_index, 20);
    control_flow.next_instruction_index = 0;
    Instruction::GotoIfAccumulator(Comparison::Equal, "loop".to_string(), 0, 1)
        .run(&mut args, &mut control_flow)
        .unwrap();
    assert_eq!(control_flow.next_instruction_index, 0);
    assert!(Instruction::GotoIfAccumulator(Comparison::Less, "none".to_string(), 0, 1)
        .run(&mut args, &mut control_flow)
        .is_err());
    assert!(Instruction::GotoIfAccumulator(Comparison::Equal, "none".to_string(), 0, 1)
        .run(&mut args, &mut control_flow)
        .is_ok());
}

#[test]
fn test_goto_if_constant() {
    let mut args = setup_runtime_args();
    let mut control_flow = ControlFlow::new();
    control_flow.insert_label("loop", 20);
    Instruction::AssignAccumulatorValue(0, 20).run(&mut args, &mut control_flow).unwrap();
    Instruction::GotoIfConstant(Comparison::Less, "loop".to_string(), 0, 40)
        .run(&mut args, &mut control_flow)
        .unwrap();
    assert_eq!(control_flow.next_instruction_index, 20);
    control_flow.next_instruction_index = 0;
    Instruction::GotoIfConstant(Comparison::Equal, "loop".to_string(), 0, 40)
        .run(&mut args, &mut control_flow)
        .unwrap();
    assert_eq!(control_flow.next_instruction_index, 0);
    assert!(Instruction::GotoIfConstant(Comparison::Less, "none".to_string(), 0, 40)
        .run(&mut args, &mut control_flow)
        .is_err());
    assert!(Instruction::GotoIfConstant(Comparison::Equal, "none".to_string(), 0, 40)
        .run(&mut args, &mut control_flow)
        .is_ok());
}

#[test]
fn test_goto_if_memory_cell() {
    let mut args = setup_runtime_args();
    let mut control_flow = ControlFlow::new();
    control_flow.insert_label("loop", 20);
    Instruction::AssignAccumulatorValue(0, 20).run(&mut args, &mut control_flow).unwrap();
    Instruction::AssignMemoryCellValue("a".to_string(), 50)
        .run(&mut args, &mut control_flow)
        .unwrap();
    Instruction::GotoIfMemoryCell(Comparison::Less, "loop".to_string(), 0, "a".to_string())
        .run(&mut args, &mut control_flow)
        .unwrap();
    assert_eq!(control_flow.next_instruction_index, 20);
    control_flow.next_instruction_index = 0;
    Instruction::GotoIfMemoryCell(Comparison::Equal, "loop".to_string(), 0, "a".to_string())
        .run(&mut args, &mut control_flow)
        .unwrap();
    assert_eq!(control_flow.next_instruction_index, 0);
    assert!(
        Instruction::GotoIfMemoryCell(Comparison::Less, "none".to_string(), 0, "a".to_string())
            .run(&mut args, &mut control_flow)
            .is_err()
    );
    assert!(
        Instruction::GotoIfMemoryCell(Comparison::Equal, "none".to_string(), 0, "a".to_string())
            .run(&mut args, &mut control_flow)
            .is_ok()
    );
}

#[test]
fn test_example_program_1() {
    let mut runtime_args = RuntimeArgs::new_empty();
    for _i in 1..=4 {
        runtime_args.add_accumulator();
    }
    runtime_args.add_storage_cell("a");
    runtime_args.add_storage_cell("b");
    runtime_args.add_storage_cell("c");
    runtime_args.add_storage_cell("d");
    runtime_args.add_storage_cell("w");
    runtime_args.add_storage_cell("x");
    runtime_args.add_storage_cell("y");
    runtime_args.add_storage_cell("z");
    runtime_args.add_storage_cell("h1");
    runtime_args.add_storage_cell("h2");
    runtime_args.add_storage_cell("h3");
    runtime_args.add_storage_cell("h4");
    let instructions = vec![
        Instruction::AssignMemoryCellValue("a".to_string(), 5),
        Instruction::AssignMemoryCellValue("b".to_string(), 2),
        Instruction::AssignMemoryCellValue("c".to_string(), 3),
        Instruction::AssignMemoryCellValue("d".to_string(), 9),
        Instruction::AssignMemoryCellValue("w".to_string(), 4),
        Instruction::AssignMemoryCellValue("x".to_string(), 8),
        Instruction::AssignMemoryCellValue("y".to_string(), 3),
        Instruction::AssignMemoryCellValue("z".to_string(), 2),
        Instruction::CalcMemoryCellWithMemoryCells(
            Operation::Multiplication,
            "h1".to_string(),
            "a".to_string(),
            "w".to_string(),
        ),
        Instruction::CalcMemoryCellWithMemoryCells(
            Operation::Multiplication,
            "h2".to_string(),
            "b".to_string(),
            "y".to_string(),
        ),
        Instruction::CalcMemoryCellWithMemoryCells(
            Operation::Multiplication,
            "h3".to_string(),
            "a".to_string(),
            "x".to_string(),
        ),
        Instruction::CalcMemoryCellWithMemoryCells(
            Operation::Multiplication,
            "h4".to_string(),
            "b".to_string(),
            "z".to_string(),
        ),
        Instruction::CalcMemoryCellWithMemoryCells(
            Operation::Plus,
            "a".to_string(),
            "h1".to_string(),
            "h2".to_string(),
        ),
        Instruction::CalcMemoryCellWithMemoryCells(
            Operation::Plus,
            "b".to_string(),
            "h3".to_string(),
            "h4".to_string(),
        ),
        Instruction::CalcMemoryCellWithMemoryCells(
            Operation::Multiplication,
            "h1".to_string(),
            "c".to_string(),
            "w".to_string(),
        ),
        Instruction::CalcMemoryCellWithMemoryCells(
            Operation::Multiplication,
            "h2".to_string(),
            "d".to_string(),
            "y".to_string(),
        ),
        Instruction::CalcMemoryCellWithMemoryCells(
            Operation::Multiplication,
            "h3".to_string(),
            "c".to_string(),
            "x".to_string(),
        ),
        Instruction::CalcMemoryCellWithMemoryCells(
            Operation::Multiplication,
            "h4".to_string(),
            "d".to_string(),
            "z".to_string(),
        ),
        Instruction::CalcMemoryCellWithMemoryCells(
            Operation::Plus,
            "c".to_string(),
            "h1".to_string(),
            "h2".to_string(),
        ),
        Instruction::CalcMemoryCellWithMemoryCells(
            Operation::Plus,
            "d".to_string(),
            "h3".to_string(),
            "h4".to_string(),
        ),
        Instruction::PrintMemoryCells(),
    ];
    let mut runner = Runner::new_custom(instructions, runtime_args);
    runner.run().unwrap();
    assert_eq!(runner.runtime_args().get_cell("a").unwrap().unwrap(), 26);
    assert_eq!(runner.runtime_args().get_cell("b").unwrap().unwrap(), 44);
    assert_eq!(runner.runtime_args().get_cell("c").unwrap().unwrap(), 39);
    assert_eq!(runner.runtime_args().get_cell("d").unwrap().unwrap(), 42);
}

#[test]
fn test_example_program_2() {
    let instructions = vec![
        Instruction::AssignAccumulatorValue(0, 1),
        Instruction::AssignMemoryCellValue("a".to_string(), 8),
        Instruction::CalcAccumulatorWithConstant(Operation::Multiplication, 0, 2),
        Instruction::CalcMemoryCellWithMemoryCellConstant(
            Operation::Minus,
            "a".to_string(),
            "a".to_string(),
            1,
        ),
        Instruction::AssignAccumulatorValueFromMemoryCell(1, "a".to_string()),
        Instruction::GotoIfConstant(Comparison::More, "loop".to_string(), 1, 0),
        Instruction::PrintMemoryCells(),
        Instruction::PrintAccumulators(),
    ];
    let mut runner = Runner::new(instructions);
    runner.add_label("loop", 2);
    runner.run().unwrap();
    assert_eq!(runner.runtime_args().accumulators[0].data.unwrap(), 256);
}
