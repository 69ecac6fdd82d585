use tiny_wasm::ast::{EDesc, Export, Func, Instr, Module, ValueType};
use tiny_wasm::compiler::wasm::compile;
use tiny_wasm::runtime;
use tiny_wasm::runtime::error::RuntimeError;
use tiny_wasm::runtime::interpreter::invoke_function;
use tiny_wasm::runtime::processor::Processor;
use tiny_wasm::runtime::stack::{Stack, Stackable, Value};

fn add_module() -> Module {
    Module {
        types: vec![(vec![ValueType::I32, ValueType::I32], vec![ValueType::I32])],
        funcs: vec![Func {
            f_type: 0,
            locals: vec![],
            body: vec![Instr::LocalGet(0), Instr::LocalGet(1), Instr::I32Add],
        }],
        exports: vec![Export {
            name: "add".to_string(),
            e_desc: EDesc::FuncExport(0),
        }],
    }
}

fn func(body: Vec<Instr>) -> Func {
    Func { f_type: 0, locals: vec![], body }
}

#[test]
fn invoke_function_test() {
    let ast = Module {
        types: vec![(vec![ValueType::I32, ValueType::I32], vec![ValueType::I32])],
        funcs: vec![Func {
            f_type: 0,
            locals: vec![],
            body: vec![Instr::LocalGet(0), Instr::LocalGet(1), Instr::I32Add],
        }],
        exports: vec![Export {
            name: "add".to_string(),
            e_desc: EDesc::FuncExport(0),
        }],
    };

    let result = invoke_function(&ast, "add", &[5, 6]).unwrap();

    assert_eq!(11, result);
}

#[test]
fn invoke_add_function() {
    let wasm = vec![
        // wasm magic
        0x00, // \0
        0x61, // a
        0x73, // s
        0x6d, // m
        // wasm version
        0x01, // 1
        0x00, // 0
        0x00, // 0
        0x00, // 0
        // section "Type" (1)
        0x01, // section code
        0x07, // section size
        0x01, // num types
        // type 0
        0x60, // func
        0x02, // num params
        0x7f, // i32
        0x7f, // i32
        0x01, // num results
        0x7f, // i32
        // section "Function" (3)
        0x03, // section code
        0x02, // section size
        0x01, // num functions
        0x00, // function 0 signature index
        // section "Export" (7)
        0x07, // section export
        0x07, // section size
        0x01, // num exports
        0x03, // string length
        // "add" export name
        0x61, // a
        0x64, // d
        0x64, // d
        0x00, // 0
        // export kind
        0x00, // export func index
        // section "Code" (10)
        0x0a, // section code
        0x09, // section size
        0x01, // num function
        // function body 0
        0x07, // func body size
        0x00, // local decl count
        0x20, // local.get
        0x00, // local index
        0x20, // local.get
        0x01, // local index
        0x6a, // i32.add
        0x0b, // end
    ];

    let result = runtime::invoke_function(wasm, "add", &[1, 4]).unwrap();

    assert_eq!(5, result);
}

#[test]
fn invoke_add_on_module() {
    assert_eq!(invoke_function(&add_module(), "add", &[1, 4]), Ok(5));
}

#[test]
fn missing_export_is_not_found() {
    assert_eq!(
        invoke_function(&add_module(), "missing", &[1, 2]),
        Err(RuntimeError::ExportNotFound)
    );
}

#[test]
fn export_names_are_matched_exactly() {
    assert_eq!(invoke_function(&add_module(), "ad", &[1, 2]), Err(RuntimeError::ExportNotFound));
    assert_eq!(invoke_function(&add_module(), "addd", &[1, 2]), Err(RuntimeError::ExportNotFound));
    assert_eq!(invoke_function(&add_module(), "Add", &[1, 2]), Err(RuntimeError::ExportNotFound));
    assert_eq!(invoke_function(&add_module(), "", &[1, 2]), Err(RuntimeError::ExportNotFound));
}

#[test]
fn wrong_number_of_arguments_is_rejected() {
    assert_eq!(invoke_function(&add_module(), "add", &[1]), Err(RuntimeError::InvalidArgNumber));
    assert_eq!(
        invoke_function(&add_module(), "add", &[1, 2, 3]),
        Err(RuntimeError::InvalidArgNumber)
    );
}

#[test]
fn the_first_export_of_a_name_is_invoked() {
    let ast = Module {
        types: vec![(vec![ValueType::I32, ValueType::I32], vec![ValueType::I32])],
        funcs: vec![func(vec![Instr::LocalGet(0)]), func(vec![Instr::LocalGet(1)])],
        exports: vec![
            Export { name: "other".to_string(), e_desc: EDesc::FuncExport(0) },
            Export { name: "pick".to_string(), e_desc: EDesc::FuncExport(1) },
            Export { name: "pick".to_string(), e_desc: EDesc::FuncExport(0) },
        ],
    };
    assert_eq!(invoke_function(&ast, "pick", &[10, 20]), Ok(20));
    assert_eq!(invoke_function(&ast, "other", &[10, 20]), Ok(10));
}

#[test]
fn addition_wraps_around() {
    assert_eq!(invoke_function(&add_module(), "add", &[i32::MAX, 1]), Ok(i32::MIN));
    assert_eq!(invoke_function(&add_module(), "add", &[i32::MIN, -1]), Ok(i32::MAX));
    assert_eq!(invoke_function(&add_module(), "add", &[-5, 3]), Ok(-2));
}

#[test]
fn arguments_are_not_checked_against_value_types() {
    let mut ast = add_module();
    ast.types[0].0 = vec![ValueType::I64, ValueType::I32];
    assert_eq!(invoke_function(&ast, "add", &[5, 6]), Ok(11));
}

#[test]
fn only_the_top_of_the_stack_is_returned() {
    let mut ast = add_module();
    ast.types[0].1 = vec![ValueType::I32, ValueType::I32];
    ast.funcs[0].body = vec![Instr::LocalGet(0), Instr::LocalGet(1)];
    assert_eq!(invoke_function(&ast, "add", &[5, 6]), Ok(6));
}

#[test]
fn local_index_out_of_range_traps() {
    let mut ast = add_module();
    ast.funcs[0].body = vec![Instr::LocalGet(2)];
    assert_eq!(invoke_function(&ast, "add", &[5, 6]), Err(RuntimeError::Trap));
}

#[test]
fn addition_on_a_short_stack_traps() {
    let mut ast = add_module();
    ast.funcs[0].body = vec![Instr::LocalGet(0), Instr::I32Add];
    assert_eq!(invoke_function(&ast, "add", &[5, 6]), Err(RuntimeError::Trap));
    ast.funcs[0].body = vec![Instr::I32Add];
    assert_eq!(invoke_function(&ast, "add", &[5, 6]), Err(RuntimeError::Trap));
}

#[test]
fn empty_body_traps_for_want_of_a_result() {
    let mut ast = add_module();
    ast.funcs[0].body = vec![];
    assert_eq!(invoke_function(&ast, "add", &[5, 6]), Err(RuntimeError::Trap));
}

#[test]
fn export_of_a_missing_function_traps() {
    let mut ast = add_module();
    ast.exports[0].e_desc = EDesc::FuncExport(1);
    assert_eq!(invoke_function(&ast, "add", &[5, 6]), Err(RuntimeError::Trap));
}

#[test]
fn function_of_a_missing_type_traps() {
    let mut ast = add_module();
    ast.funcs[0].f_type = 1;
    assert_eq!(invoke_function(&ast, "add", &[5, 6]), Err(RuntimeError::Trap));
    ast.funcs[0].f_type = -1;
    assert_eq!(invoke_function(&ast, "add", &[5, 6]), Err(RuntimeError::Trap));
}

#[test]
fn invoking_undecodable_bytes_gives_the_decoder_error() {
    assert_eq!(
        runtime::invoke_function(vec![0x00, 0x61], "add", &[1, 2]),
        Err(RuntimeError::ModuleToShort)
    );
    assert_eq!(
        runtime::invoke_function(vec![0x01, 0x61, 0x73, 0x6d, 1, 0, 0, 0], "add", &[1, 2]),
        Err(RuntimeError::WrongMagicHeader)
    );
}

#[test]
fn invoking_agrees_before_and_after_a_round_trip() {
    let mut ast = add_module();
    ast.funcs.push(func(vec![
        Instr::LocalGet(0),
        Instr::LocalGet(0),
        Instr::I32Add,
        Instr::LocalGet(1),
        Instr::I32Add,
    ]));
    ast.funcs.push(func(vec![Instr::LocalGet(7)]));
    ast.exports.push(Export { name: "twice_plus".to_string(), e_desc: EDesc::FuncExport(1) });
    ast.exports.push(Export { name: "trap".to_string(), e_desc: EDesc::FuncExport(2) });
    let wasm = compile(&ast).unwrap();
    for name in ["add", "twice_plus", "trap", "missing"] {
        for params in [vec![], vec![1], vec![5, 6], vec![i32::MAX, i32::MAX], vec![1, 2, 3]] {
            assert_eq!(
                runtime::invoke_function(wasm.clone(), name, &params),
                invoke_function(&ast, name, &params)
            );
        }
    }
    assert_eq!(runtime::invoke_function(wasm.clone(), "twice_plus", &[20, 2]), Ok(42));
    assert_eq!(runtime::invoke_function(wasm, "trap", &[20, 2]), Err(RuntimeError::Trap));
}

#[test]
fn stack_is_last_in_first_out() {
    let mut stack = Stack::new();
    stack.push(1i32);
    stack.push(2i32);
    stack.push(3i32);
    assert_eq!(stack.pop::<i32>(), Ok(3));
    assert_eq!(stack.pop::<i32>(), Ok(2));
    stack.push(4i32);
    assert_eq!(stack.pop::<i32>(), Ok(4));
    assert_eq!(stack.pop::<i32>(), Ok(1));
}

#[test]
fn popping_an_empty_stack_traps() {
    let mut stack = Stack::new();
    assert_eq!(stack.pop::<i32>(), Err(RuntimeError::Trap));
    stack.push(9i32);
    assert_eq!(stack.pop::<i32>(), Ok(9));
    assert_eq!(stack.pop::<i32>(), Err(RuntimeError::Trap));
}

#[test]
fn values_convert_to_and_from_stack_entries() {
    assert_eq!(7i32.to_value(), Value::I32(7));
    assert_eq!(<i32 as Stackable>::from_value(Value::I32(-7)), Some(-7));
    assert_eq!(<i32 as Stackable>::from_value(Value::I64(7)), None);
    assert_eq!(7i64.to_value(), Value::I64(7));
    assert_eq!(<i64 as Stackable>::from_value(Value::I64(i64::MIN)), Some(i64::MIN));
    assert_eq!(<i64 as Stackable>::from_value(Value::I32(7)), None);
}

#[test]
fn popping_a_value_as_another_type_traps() {
    let mut stack = Stack::new();
    stack.push(1i32);
    stack.push(2i64);
    assert_eq!(stack.pop::<i32>(), Err(RuntimeError::Trap));
    // the entry is still there
    assert_eq!(stack.pop::<i64>(), Ok(2));
    assert_eq!(stack.pop::<i64>(), Err(RuntimeError::Trap));
    assert_eq!(stack.pop::<i32>(), Ok(1));
}

#[test]
fn processor_runs_a_body_and_yields_its_result() {
    let mut processor = Processor::new();
    let body = func(vec![Instr::LocalGet(0), Instr::LocalGet(1), Instr::I32Add]);
    assert_eq!(processor.execute_func(&body, &[5, 6]), Ok(()));
    assert_eq!(processor.get_result(), Ok(11));
    assert_eq!(processor.get_result(), Err(RuntimeError::Trap));
}

#[test]
fn processor_keeps_its_stack_between_bodies() {
    let mut processor = Processor::new();
    assert_eq!(processor.execute_func(&func(vec![Instr::LocalGet(0)]), &[40]), Ok(()));
    assert_eq!(
        processor.execute_func(&func(vec![Instr::LocalGet(0), Instr::I32Add]), &[2]),
        Ok(())
    );
    assert_eq!(processor.get_result(), Ok(42));
}

#[test]
fn processor_stops_at_the_first_trap() {
    let mut processor = Processor::new();
    let body = func(vec![Instr::LocalGet(0), Instr::I32Add, Instr::LocalGet(0)]);
    assert_eq!(processor.execute_func(&body, &[5]), Err(RuntimeError::Trap));
    // the addition popped its first operand before it found the second missing
    assert_eq!(processor.get_result(), Err(RuntimeError::Trap));
}
