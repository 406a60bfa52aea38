//! End-to-end scenarios: linking, invocation, control flow, host calls and
//! traps.

use wasmvm::ast::{
    BlockType, CodeItem, ExportDescriptor, ExportItem, GlobalItem, GlobalType, ImportDescriptor,
    ImportItem, Instruction, Module, NamedAstModule, TypeItem,
};
use wasmvm::engine::{Engine, RunOutcome};
use wasmvm::error::{EngineError, InvalidOperation};
use wasmvm::native_module::NativeModule;
use wasmvm::values::{FunctionType, Value, ValueType};

fn empty_module() -> Module {
    Module {
        type_items: vec![],
        import_items: vec![],
        export_items: vec![],
        internal_function_to_type_index_list: vec![],
        code_items: vec![],
        tables: vec![],
        memory_blocks: vec![],
        global_items: vec![],
        element_items: vec![],
        data_items: vec![],
        start_function_index: None,
    }
}

fn named(name: &str, module: Module) -> NamedAstModule {
    NamedAstModule { name: name.to_string(), module }
}

fn function_type(params: Vec<ValueType>, results: Vec<ValueType>) -> TypeItem {
    TypeItem::FunctionType(FunctionType { params, results })
}

#[test]
fn add_two_arguments() {
    // (func $add (param i32 i32) (result i32) local.get 0 local.get 1 i32.add)
    let mut module = empty_module();
    module.type_items.push(function_type(
        vec![ValueType::I32, ValueType::I32],
        vec![ValueType::I32],
    ));
    module.internal_function_to_type_index_list.push(0);
    module.code_items.push(CodeItem {
        local_variable_types: vec![],
        instruction_items: vec![
            Instruction::LocalGet(0),
            Instruction::LocalGet(1),
            Instruction::I32Add,
            Instruction::End,
        ],
    });
    module.export_items.push(ExportItem {
        name: "add".to_string(),
        export_descriptor: ExportDescriptor::FunctionIndex(0),
    });

    let mut engine = Engine::new();
    match engine.load(vec![named("m", module)]).unwrap() {
        RunOutcome::Done(_) => {}
        _ => panic!("load suspended"),
    }
    match engine
        .invoke(
            &"m".to_string(),
            &"add".to_string(),
            vec![Value::I32(2), Value::I32(3)],
        )
        .unwrap()
    {
        RunOutcome::Done(results) => assert_eq!(results, vec![Value::I32(5)]),
        _ => panic!("unexpected host call"),
    }
}

#[test]
fn loop_sums_one_to_ten() {
    // sum 1..=10 with a loop and br_if
    let mut module = empty_module();
    module
        .type_items
        .push(function_type(vec![], vec![ValueType::I32]));
    module.internal_function_to_type_index_list.push(0);
    module.code_items.push(CodeItem {
        // local 0: counter, local 1: accumulator
        local_variable_types: vec![ValueType::I32, ValueType::I32],
        instruction_items: vec![
            Instruction::Block(BlockType::ResultEmpty, 0),
            Instruction::Loop(BlockType::ResultEmpty, 1),
            Instruction::LocalGet(0),
            Instruction::I32Const(1),
            Instruction::I32Add,
            Instruction::LocalTee(0),
            Instruction::LocalGet(1),
            Instruction::I32Add,
            Instruction::LocalSet(1),
            Instruction::LocalGet(0),
            Instruction::I32Const(10),
            Instruction::I32LtU,
            Instruction::BrIf(0),
            Instruction::End,
            Instruction::End,
            Instruction::LocalGet(1),
            Instruction::End,
        ],
    });
    module.export_items.push(ExportItem {
        name: "sum10".to_string(),
        export_descriptor: ExportDescriptor::FunctionIndex(0),
    });

    let mut engine = Engine::new();
    engine.load(vec![named("m", module)]).unwrap();
    match engine
        .invoke(&"m".to_string(), &"sum10".to_string(), vec![])
        .unwrap()
    {
        RunOutcome::Done(results) => assert_eq!(results, vec![Value::I32(55)]),
        _ => panic!("unexpected host call"),
    }
}

#[test]
fn global_reexported_across_two_modules() {
    // A exports v = 41; B re-exports it; C imports from B and reads it
    let immutable_i32 = GlobalType {
        value_type: ValueType::I32,
        mutable: false,
    };

    let mut module_a = empty_module();
    module_a.global_items.push(GlobalItem {
        global_type: immutable_i32,
        initialize_instruction_items: vec![Instruction::I32Const(41), Instruction::End],
    });
    module_a.export_items.push(ExportItem {
        name: "v".to_string(),
        export_descriptor: ExportDescriptor::GlobalItemIndex(0),
    });

    let mut module_b = empty_module();
    module_b.import_items.push(ImportItem {
        module_name: "A".to_string(),
        item_name: "v".to_string(),
        import_descriptor: ImportDescriptor::GlobalType(immutable_i32),
    });
    module_b.export_items.push(ExportItem {
        name: "v".to_string(),
        export_descriptor: ExportDescriptor::GlobalItemIndex(0),
    });

    let mut module_c = empty_module();
    module_c.import_items.push(ImportItem {
        module_name: "B".to_string(),
        item_name: "v".to_string(),
        import_descriptor: ImportDescriptor::GlobalType(immutable_i32),
    });
    module_c
        .type_items
        .push(function_type(vec![], vec![ValueType::I32]));
    module_c.internal_function_to_type_index_list.push(0);
    module_c.code_items.push(CodeItem {
        local_variable_types: vec![],
        instruction_items: vec![Instruction::GlobalGet(0), Instruction::End],
    });
    module_c.export_items.push(ExportItem {
        name: "read".to_string(),
        export_descriptor: ExportDescriptor::FunctionIndex(0),
    });

    let mut engine = Engine::new();
    engine
        .load(vec![
            named("A", module_a),
            named("B", module_b),
            named("C", module_c),
        ])
        .unwrap();
    match engine
        .invoke(&"C".to_string(), &"read".to_string(), vec![])
        .unwrap()
    {
        RunOutcome::Done(results) => assert_eq!(results, vec![Value::I32(41)]),
        _ => panic!("unexpected host call"),
    }
    // the three modules alias one instance
    assert_eq!(
        engine.read_global(&"C".to_string(), 0),
        Some(Value::I32(41))
    );
    assert_eq!(
        engine.read_global(&"A".to_string(), 0),
        Some(Value::I32(41))
    );
}

fn pick_module() -> Module {
    // (func $pick (param i32) (result i32) (if (result i32) ... 7 else 9))
    let mut module = empty_module();
    module.type_items.push(function_type(
        vec![ValueType::I32],
        vec![ValueType::I32],
    ));
    module.internal_function_to_type_index_list.push(0);
    module.code_items.push(CodeItem {
        local_variable_types: vec![],
        instruction_items: vec![
            Instruction::LocalGet(0),
            Instruction::If(BlockType::ResultI32, 0),
            Instruction::I32Const(7),
            Instruction::Else,
            Instruction::I32Const(9),
            Instruction::End,
            Instruction::End,
        ],
    });
    module.export_items.push(ExportItem {
        name: "pick".to_string(),
        export_descriptor: ExportDescriptor::FunctionIndex(0),
    });
    module
}

#[test]
fn if_else_picks_by_condition() {
    let mut engine = Engine::new();
    engine.load(vec![named("m", pick_module())]).unwrap();
    match engine
        .invoke(&"m".to_string(), &"pick".to_string(), vec![Value::I32(0)])
        .unwrap()
    {
        RunOutcome::Done(results) => assert_eq!(results, vec![Value::I32(9)]),
        _ => panic!("unexpected host call"),
    }
    match engine
        .invoke(&"m".to_string(), &"pick".to_string(), vec![Value::I32(1)])
        .unwrap()
    {
        RunOutcome::Done(results) => assert_eq!(results, vec![Value::I32(7)]),
        _ => panic!("unexpected host call"),
    }
}

#[test]
fn if_without_else_on_false_falls_through() {
    let mut module = empty_module();
    module.type_items.push(function_type(
        vec![ValueType::I32],
        vec![ValueType::I32],
    ));
    module.internal_function_to_type_index_list.push(0);
    module.code_items.push(CodeItem {
        local_variable_types: vec![],
        instruction_items: vec![
            Instruction::LocalGet(0),
            Instruction::If(BlockType::ResultEmpty, 0),
            Instruction::Nop,
            Instruction::End,
            Instruction::I32Const(3),
            Instruction::End,
        ],
    });
    module.export_items.push(ExportItem {
        name: "f".to_string(),
        export_descriptor: ExportDescriptor::FunctionIndex(0),
    });
    let mut engine = Engine::new();
    engine.load(vec![named("m", module)]).unwrap();
    match engine
        .invoke(&"m".to_string(), &"f".to_string(), vec![Value::I32(0)])
        .unwrap()
    {
        RunOutcome::Done(results) => assert_eq!(results, vec![Value::I32(3)]),
        _ => panic!("unexpected host call"),
    }
}

#[test]
fn host_function_call_suspends_and_resumes() {
    // module m imports env.add1 (i32)->(i32) and calls it
    let mut native = NativeModule::new(&"env".to_string());
    native.add_function(
        &"add1".to_string(),
        vec![ValueType::I32],
        vec!["x".to_string()],
        vec![ValueType::I32],
    );

    let mut module = empty_module();
    module.type_items.push(function_type(
        vec![ValueType::I32],
        vec![ValueType::I32],
    ));
    module.import_items.push(ImportItem {
        module_name: "env".to_string(),
        item_name: "add1".to_string(),
        import_descriptor: ImportDescriptor::FunctionTypeIndex(0),
    });
    module.internal_function_to_type_index_list.push(0);
    module.code_items.push(CodeItem {
        local_variable_types: vec![],
        instruction_items: vec![
            Instruction::LocalGet(0),
            Instruction::Call(0),
            Instruction::End,
        ],
    });
    module.export_items.push(ExportItem {
        name: "go".to_string(),
        export_descriptor: ExportDescriptor::FunctionIndex(1),
    });

    let mut engine = Engine::new();
    engine.register_native_module(native);
    engine.load(vec![named("m", module)]).unwrap();
    let outcome = engine
        .invoke(&"m".to_string(), &"go".to_string(), vec![Value::I32(10)])
        .unwrap();
    let arguments = match outcome {
        RunOutcome::HostCall {
            native_module_index,
            function_index,
            arguments,
        } => {
            assert_eq!(native_module_index, 0);
            assert_eq!(function_index, 0);
            arguments
        }
        _ => panic!("expected a host call"),
    };
    assert_eq!(arguments, vec![Value::I32(10)]);
    // the host computes arg + 1
    let answer = match arguments[0] {
        Value::I32(x) => Value::I32(x + 1),
        _ => unreachable!(),
    };
    match engine.resume(Ok(vec![answer])).unwrap() {
        RunOutcome::Done(results) => assert_eq!(results, vec![Value::I32(11)]),
        _ => panic!("unexpected second host call"),
    }
}

#[test]
fn division_by_zero_traps() {
    let mut module = empty_module();
    module.type_items.push(function_type(
        vec![ValueType::I32, ValueType::I32],
        vec![ValueType::I32],
    ));
    module.internal_function_to_type_index_list.push(0);
    module.code_items.push(CodeItem {
        local_variable_types: vec![],
        instruction_items: vec![
            Instruction::LocalGet(0),
            Instruction::LocalGet(1),
            Instruction::I32DivS,
            Instruction::End,
        ],
    });
    module.export_items.push(ExportItem {
        name: "f".to_string(),
        export_descriptor: ExportDescriptor::FunctionIndex(0),
    });
    let mut engine = Engine::new();
    engine.load(vec![named("m", module)]).unwrap();
    let result = engine.invoke(
        &"m".to_string(),
        &"f".to_string(),
        vec![Value::I32(10), Value::I32(0)],
    );
    assert_eq!(
        result,
        Err(EngineError::InvalidOperation(
            InvalidOperation::IntegerDivideByZero
        ))
    );
}

#[test]
fn signed_division_overflow_traps() {
    let mut module = empty_module();
    module.type_items.push(function_type(
        vec![ValueType::I32, ValueType::I32],
        vec![ValueType::I32],
    ));
    module.internal_function_to_type_index_list.push(0);
    module.code_items.push(CodeItem {
        local_variable_types: vec![],
        instruction_items: vec![
            Instruction::LocalGet(0),
            Instruction::LocalGet(1),
            Instruction::I32DivS,
            Instruction::End,
        ],
    });
    module.export_items.push(ExportItem {
        name: "f".to_string(),
        export_descriptor: ExportDescriptor::FunctionIndex(0),
    });
    let mut engine = Engine::new();
    engine.load(vec![named("m", module)]).unwrap();
    let result = engine.invoke(
        &"m".to_string(),
        &"f".to_string(),
        vec![Value::I32(0x8000_0000), Value::I32(0xFFFF_FFFF)],
    );
    assert_eq!(
        result,
        Err(EngineError::InvalidOperation(
            InvalidOperation::IntegerOverflow
        ))
    );
}

#[test]
fn unreachable_traps() {
    let mut module = empty_module();
    module.type_items.push(function_type(vec![], vec![]));
    module.internal_function_to_type_index_list.push(0);
    module.code_items.push(CodeItem {
        local_variable_types: vec![],
        instruction_items: vec![Instruction::Unreachable, Instruction::End],
    });
    module.export_items.push(ExportItem {
        name: "f".to_string(),
        export_descriptor: ExportDescriptor::FunctionIndex(0),
    });
    let mut engine = Engine::new();
    engine.load(vec![named("m", module)]).unwrap();
    let result = engine.invoke(&"m".to_string(), &"f".to_string(), vec![]);
    assert_eq!(
        result,
        Err(EngineError::InvalidOperation(InvalidOperation::Unreachable))
    );
}

#[test]
fn wrong_argument_count_is_reported() {
    let mut engine = Engine::new();
    engine.load(vec![named("m", pick_module())]).unwrap();
    let result = engine.invoke(&"m".to_string(), &"pick".to_string(), vec![]);
    assert_eq!(
        result,
        Err(EngineError::TypeMismatch(
            wasmvm::error::TypeMismatch::InvokeArgumentCountMismatch {
                expected: 1,
                actual: 0,
            }
        ))
    );
}

#[test]
fn table_elements_are_readable_after_load() {
    // one internal function installed into the table at offset 0
    let mut module = empty_module();
    module
        .type_items
        .push(function_type(vec![], vec![ValueType::I32]));
    module.internal_function_to_type_index_list.push(0);
    module.code_items.push(CodeItem {
        local_variable_types: vec![],
        instruction_items: vec![Instruction::I32Const(7), Instruction::End],
    });
    module.tables.push(wasmvm::ast::TableType {
        limit: wasmvm::ast::Limit {
            minimum: 2,
            maximum: Some(2),
        },
    });
    module.element_items.push(wasmvm::ast::ElementItem {
        offset_instruction_items: vec![Instruction::I32Const(0), Instruction::End],
        function_indices: vec![0],
    });
    let mut engine = Engine::new();
    engine.load(vec![named("m", module)]).unwrap();
    match engine.read_table(&"m".to_string(), 0) {
        Some(Some(wasmvm::object::FunctionItem::Normal {
            vm_module_index,
            internal_function_index,
            ..
        })) => {
            assert_eq!(vm_module_index, 0);
            assert_eq!(internal_function_index, 0);
        }
        _ => panic!("the element segment must install the funcref"),
    }
    // the second slot stays null
    assert!(matches!(engine.read_table(&"m".to_string(), 1), Some(None)));
    // outside the table
    assert!(engine.read_table(&"m".to_string(), 2).is_none());
}

#[test]
fn memory_stores_and_loads_round_trip() {
    // store an i32 and load it back, with data-segment bytes visible too
    let mut module = empty_module();
    module.type_items.push(function_type(
        vec![ValueType::I32, ValueType::I32],
        vec![ValueType::I32],
    ));
    module.internal_function_to_type_index_list.push(0);
    module.code_items.push(CodeItem {
        local_variable_types: vec![],
        instruction_items: vec![
            Instruction::LocalGet(0),
            Instruction::LocalGet(1),
            Instruction::I32Store(wasmvm::ast::MemoryArg {
                align: 2,
                offset: 0,
            }),
            Instruction::LocalGet(0),
            Instruction::I32Load(wasmvm::ast::MemoryArg {
                align: 2,
                offset: 0,
            }),
            Instruction::End,
        ],
    });
    module.memory_blocks.push(wasmvm::ast::MemoryType {
        limit: wasmvm::ast::Limit {
            minimum: 1,
            maximum: Some(1),
        },
    });
    module.data_items.push(wasmvm::ast::DataItem {
        offset_instruction_items: vec![Instruction::I32Const(100), Instruction::End],
        data: vec![0xAB, 0xCD],
    });
    module.export_items.push(ExportItem {
        name: "echo".to_string(),
        export_descriptor: ExportDescriptor::FunctionIndex(0),
    });
    let mut engine = Engine::new();
    engine.load(vec![named("m", module)]).unwrap();
    match engine
        .invoke(
            &"m".to_string(),
            &"echo".to_string(),
            vec![Value::I32(8), Value::I32(0x1234_5678)],
        )
        .unwrap()
    {
        RunOutcome::Done(results) => assert_eq!(results, vec![Value::I32(0x1234_5678)]),
        _ => panic!("unexpected host call"),
    }
    assert_eq!(
        engine.read_memory(&"m".to_string(), 100, 2),
        Some(vec![0xAB, 0xCD])
    );
    // the stored value sits in little-endian order
    assert_eq!(
        engine.read_memory(&"m".to_string(), 8, 4),
        Some(vec![0x78, 0x56, 0x34, 0x12])
    );
}
