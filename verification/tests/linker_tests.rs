//! Block-layout analysis and linker behaviour on module data.

use wasmvm::ast::{
    BlockType, ExportDescriptor, ExportItem, ImportDescriptor, ImportItem, Instruction, Module,
    NamedAstModule, TypeItem,
};
use wasmvm::error::{EngineError, InvalidOperation, ObjectNotFound};
use wasmvm::linker::{get_function_block_items, link_functions, link_tables};
use wasmvm::object::BlockItem;
use wasmvm::values::{FunctionType, ValueType};

fn empty_module() -> Module {
    Module {
        type_items: vec![],
        import_items: vec![],
        export_items: vec![],
        internal_function_to_type_index_list: vec![],
        code_items: vec![],
        tables: vec![],
        memory_blocks: vec![],
        global_items: vec![],
        element_items: vec![],
        data_items: vec![],
        start_function_index: None,
    }
}

#[test]
fn block_layout_is_sorted_and_nested() {
    // the nesting of the module documentation's worked example
    let body = vec![
        Instruction::Block(BlockType::ResultEmpty, 0),
        Instruction::Loop(BlockType::ResultEmpty, 1),
        Instruction::Block(BlockType::ResultEmpty, 2),
        Instruction::End, // 2
        Instruction::End, // 1
        Instruction::Block(BlockType::ResultEmpty, 3),
        Instruction::If(BlockType::ResultEmpty, 4),
        Instruction::Block(BlockType::ResultEmpty, 5),
        Instruction::End, // 5
        Instruction::Else,
        Instruction::End, // 4
        Instruction::End, // 3
        Instruction::End, // 0
        Instruction::Block(BlockType::ResultEmpty, 6),
        Instruction::End, // 6
        Instruction::End, // function
    ];
    let items = get_function_block_items(&body).unwrap();
    assert_eq!(items.len(), 7);
    assert_eq!(
        items[0],
        BlockItem::Block {
            block_type: BlockType::ResultEmpty,
            start_address: 0,
            end_address: 12
        }
    );
    assert_eq!(
        items[1],
        BlockItem::Loop {
            block_type: BlockType::ResultEmpty,
            start_address: 1,
            end_address: 4
        }
    );
    assert_eq!(
        items[2],
        BlockItem::Block {
            block_type: BlockType::ResultEmpty,
            start_address: 2,
            end_address: 3
        }
    );
    assert_eq!(
        items[4],
        BlockItem::If {
            block_type: BlockType::ResultEmpty,
            start_address: 6,
            end_address: 10,
            alternate_address: Some(9)
        }
    );
    assert_eq!(
        items[6],
        BlockItem::Block {
            block_type: BlockType::ResultEmpty,
            start_address: 13,
            end_address: 14
        }
    );
}

#[test]
fn else_outside_an_if_is_rejected() {
    let body = vec![Instruction::Else, Instruction::End];
    assert_eq!(
        get_function_block_items(&body),
        Err(EngineError::InvalidOperation(
            InvalidOperation::InvalidInstructionStream
        ))
    );
}

#[test]
fn import_of_unknown_module_fails() {
    let mut module = empty_module();
    module.type_items.push(TypeItem::FunctionType(FunctionType {
        params: vec![],
        results: vec![],
    }));
    module.import_items.push(ImportItem {
        module_name: "ghost".to_string(),
        item_name: "f".to_string(),
        import_descriptor: ImportDescriptor::FunctionTypeIndex(0),
    });
    let result = link_functions(
        &vec![],
        &vec![NamedAstModule {
            name: "m".to_string(),
            module,
        }],
    );
    assert_eq!(
        result,
        Err(EngineError::ObjectNotFound(ObjectNotFound::ModuleNotFound(
            "ghost".to_string()
        )))
    );
}

#[test]
fn function_reexport_chain_resolves_to_definition() {
    // C defines f; B re-exports it; A imports it from B
    let unit_type = TypeItem::FunctionType(FunctionType {
        params: vec![],
        results: vec![],
    });

    let mut module_c = empty_module();
    module_c.type_items.push(unit_type.clone());
    module_c.internal_function_to_type_index_list.push(0);
    module_c.code_items.push(wasmvm::ast::CodeItem {
        local_variable_types: vec![],
        instruction_items: vec![Instruction::End],
    });
    module_c.export_items.push(ExportItem {
        name: "f".to_string(),
        export_descriptor: ExportDescriptor::FunctionIndex(0),
    });

    let mut module_b = empty_module();
    module_b.type_items.push(unit_type.clone());
    module_b.import_items.push(ImportItem {
        module_name: "C".to_string(),
        item_name: "f".to_string(),
        import_descriptor: ImportDescriptor::FunctionTypeIndex(0),
    });
    module_b.export_items.push(ExportItem {
        name: "f".to_string(),
        export_descriptor: ExportDescriptor::FunctionIndex(0),
    });

    let mut module_a = empty_module();
    module_a.type_items.push(unit_type.clone());
    module_a.import_items.push(ImportItem {
        module_name: "B".to_string(),
        item_name: "f".to_string(),
        import_descriptor: ImportDescriptor::FunctionTypeIndex(0),
    });

    let items = link_functions(
        &vec![],
        &vec![
            NamedAstModule {
                name: "A".to_string(),
                module: module_a,
            },
            NamedAstModule {
                name: "B".to_string(),
                module: module_b,
            },
            NamedAstModule {
                name: "C".to_string(),
                module: module_c,
            },
        ],
    )
    .unwrap();
    // A's import and B's import both name C's internal function
    match &items[0][0] {
        wasmvm::object::FunctionItem::Normal {
            vm_module_index,
            internal_function_index,
            ..
        } => {
            assert_eq!(*vm_module_index, 2);
            assert_eq!(*internal_function_index, 0);
        }
        _ => panic!("expected code of a decoded module"),
    }
    assert_eq!(items[0][0], items[1][0]);
}

#[test]
fn cyclic_table_import_is_rejected() {
    // two modules importing each other's table
    let table_type = wasmvm::ast::TableType {
        limit: wasmvm::ast::Limit {
            minimum: 1,
            maximum: Some(1),
        },
    };
    let mut module_a = empty_module();
    module_a.import_items.push(ImportItem {
        module_name: "B".to_string(),
        item_name: "t".to_string(),
        import_descriptor: ImportDescriptor::TableType(table_type),
    });
    module_a.export_items.push(ExportItem {
        name: "t".to_string(),
        export_descriptor: ExportDescriptor::TableIndex(0),
    });
    let mut module_b = empty_module();
    module_b.import_items.push(ImportItem {
        module_name: "A".to_string(),
        item_name: "t".to_string(),
        import_descriptor: ImportDescriptor::TableType(table_type),
    });
    module_b.export_items.push(ExportItem {
        name: "t".to_string(),
        export_descriptor: ExportDescriptor::TableIndex(0),
    });
    let result = link_tables(&vec![
        NamedAstModule {
            name: "A".to_string(),
            module: module_a,
        },
        NamedAstModule {
            name: "B".to_string(),
            module: module_b,
        },
    ]);
    match result {
        Err(e) => assert_eq!(
            e,
            EngineError::InvalidOperation(InvalidOperation::CyclicImport)
        ),
        Ok(_) => panic!("a cyclic import must be rejected"),
    }
}
