use tiny_wasm::ast::{EDesc, Export, Func, Instr, Module, ValueType};
use tiny_wasm::compiler::error::EncodeError;
use tiny_wasm::compiler::leb128::from_u32;
use tiny_wasm::compiler::wasm::{
    check_indices, compile, encode_code_section, encode_export_section, encode_func_section,
    encode_type_section,
};
use tiny_wasm::op_codes::val_type;

fn add_module() -> Module {
    Module {
        types: vec![(vec![ValueType::I32, ValueType::I32], vec![ValueType::I32])],
        funcs: vec![Func {
            f_type: 0,
            locals: vec![],
            body: vec![Instr::LocalGet(0), Instr::LocalGet(1), Instr::I32Add],
        }],
        exports: vec![Export {
            name: "add".to_string(),
            e_desc: EDesc::FuncExport(0),
        }],
    }
}

#[test]
fn compile_module_with_add_function() {
    let ast = Module {
        types: vec![(vec![ValueType::I32, ValueType::I32], vec![ValueType::I32])],
        funcs: vec![Func {
            f_type: 0,
            locals: vec![],
            body: vec![Instr::LocalGet(0), Instr::LocalGet(1), Instr::I32Add],
        }],
        exports: vec![Export {
            name: "add".to_string(),
            e_desc: EDesc::FuncExport(0),
        }],
    };

    let wasm = [
        // wasm magic
        0x00, // \0
        0x61, // a
        0x73, // s
        0x6d, // m
        // wasm version
        0x01, // 1
        0x00, // 0
        0x00, // 0
        0x00, // 0
        // section "Type" (1)
        0x01, // section code
        0x07, // section size
        0x01, // num types
        // type 0
        0x60, // func
        0x02, // num params
        0x7f, // i32
        0x7f, // i32
        0x01, // num results
        0x7f, // i32
        // section "Function" (3)
        0x03, // section code
        0x02, // section size
        0x01, // num functions
        0x00, // function 0 signature index
        // section "Export" (7)
        0x07, // section export
        0x07, // section size
        0x01, // num exports
        0x03, // string length
        // "add" export name
        0x61, // a
        0x64, // d
        0x64, // d
        0x00, // 0
        // export kind
        0x00, // export func index
        // section "Code" (10)
        0x0a, // section code
        0x09, // section size
        0x01, // num function
        // function body 0
        0x07, // func body size
        0x00, // local decl count
        0x20, // local.get
        0x00, // local index
        0x20, // local.get
        0x01, // local index
        0x6a, // i32.add
        0x0b, // end
    ];

    assert_eq!(compile(&ast).unwrap(), wasm);
}

#[test]
fn from_u32_zero_is_one_zero_byte() {
    assert_eq!(from_u32(0), vec![0x00]);
}

#[test]
fn from_u32_largest_single_byte() {
    assert_eq!(from_u32(127), vec![0x7f]);
}

#[test]
fn from_u32_smallest_two_bytes() {
    assert_eq!(from_u32(128), vec![0x80, 0x01]);
}

#[test]
fn from_u32_three_hundred() {
    assert_eq!(from_u32(300), vec![0xac, 0x02]);
}

#[test]
fn from_u32_max_has_five_bytes() {
    assert_eq!(from_u32(u32::MAX), vec![0xff, 0xff, 0xff, 0xff, 0x0f]);
}

#[test]
fn val_type_bytes() {
    assert_eq!(val_type(&ValueType::I32), 0x7f);
    assert_eq!(val_type(&ValueType::I64), 0x7e);
}

#[test]
fn type_section_of_add_module() {
    assert_eq!(
        encode_type_section(&add_module()).unwrap(),
        vec![0x01, 0x07, 0x01, 0x60, 0x02, 0x7f, 0x7f, 0x01, 0x7f]
    );
}

#[test]
fn type_section_is_emitted_for_empty_type_table() {
    let ast = Module { types: vec![], funcs: vec![], exports: vec![] };
    assert_eq!(encode_type_section(&ast).unwrap(), vec![0x01, 0x01, 0x00]);
}

#[test]
fn func_section_of_add_module() {
    assert_eq!(encode_func_section(&add_module()).unwrap(), vec![0x03, 0x02, 0x01, 0x00]);
}

#[test]
fn export_section_of_add_module() {
    assert_eq!(
        encode_export_section(&add_module()).unwrap(),
        vec![0x07, 0x07, 0x01, 0x03, 0x61, 0x64, 0x64, 0x00, 0x00]
    );
}

#[test]
fn code_section_of_add_module() {
    assert_eq!(
        encode_code_section(&add_module()).unwrap(),
        vec![0x0a, 0x09, 0x01, 0x07, 0x00, 0x20, 0x00, 0x20, 0x01, 0x6a, 0x0b]
    );
}

#[test]
fn empty_module_has_only_header_and_type_section() {
    let ast = Module { types: vec![], funcs: vec![], exports: vec![] };
    assert_eq!(
        compile(&ast).unwrap(),
        vec![0x00, 0x61, 0x73, 0x6d, 0x01, 0x00, 0x00, 0x00, 0x01, 0x01, 0x00]
    );
    assert_eq!(encode_func_section(&ast).unwrap(), Vec::<u8>::new());
    assert_eq!(encode_export_section(&ast).unwrap(), Vec::<u8>::new());
    assert_eq!(encode_code_section(&ast).unwrap(), Vec::<u8>::new());
}

#[test]
fn export_name_is_encoded_as_utf8() {
    let ast = Module {
        types: vec![(vec![], vec![])],
        funcs: vec![Func { f_type: 0, locals: vec![], body: vec![] }],
        exports: vec![Export { name: "é".to_string(), e_desc: EDesc::FuncExport(0) }],
    };
    assert_eq!(
        encode_export_section(&ast).unwrap(),
        vec![0x07, 0x06, 0x01, 0x02, 0xc3, 0xa9, 0x00, 0x00]
    );
}

#[test]
fn section_size_of_128_bytes_takes_two_bytes() {
    let name = "a".repeat(124);
    let ast = Module {
        types: vec![(vec![], vec![])],
        funcs: vec![Func { f_type: 0, locals: vec![], body: vec![] }],
        exports: vec![Export { name: name.clone(), e_desc: EDesc::FuncExport(0) }],
    };
    let section = encode_export_section(&ast).unwrap();
    // count (1) + name length (1) + name (124) + kind (1) + index (1) = 128
    assert_eq!(&section[..4], &[0x07, 0x80, 0x01, 0x01]);
    assert_eq!(section.len(), 3 + 128);
    assert_eq!(section[4], 124);
    assert_eq!(&section[5..129], name.as_bytes());
}

#[test]
fn type_index_out_of_range_is_rejected() {
    let mut ast = add_module();
    ast.funcs[0].f_type = 1;
    assert!(!check_indices(&ast));
    assert_eq!(compile(&ast), Err(EncodeError::InvalidIndex));
}

#[test]
fn negative_type_index_is_rejected() {
    let mut ast = add_module();
    ast.funcs[0].f_type = -1;
    assert_eq!(compile(&ast), Err(EncodeError::InvalidIndex));
}

#[test]
fn export_of_missing_function_is_rejected() {
    let mut ast = add_module();
    ast.exports[0].e_desc = EDesc::FuncExport(1);
    assert_eq!(compile(&ast), Err(EncodeError::InvalidIndex));
}

#[test]
fn local_index_above_one_byte_is_rejected() {
    let mut ast = add_module();
    ast.funcs[0].body = vec![Instr::LocalGet(256)];
    assert_eq!(compile(&ast), Err(EncodeError::InvalidIndex));
    ast.funcs[0].body = vec![Instr::LocalGet(255)];
    assert!(check_indices(&ast));
    assert!(compile(&ast).is_ok());
}

#[test]
fn more_than_255_parameters_are_rejected() {
    let mut ast = add_module();
    ast.types[0].0 = vec![ValueType::I32; 256];
    assert_eq!(encode_type_section(&ast), Err(EncodeError::CountOverflow));
    assert_eq!(compile(&ast), Err(EncodeError::CountOverflow));
    ast.types[0].0 = vec![ValueType::I32; 255];
    assert!(compile(&ast).is_ok());
}

#[test]
fn more_than_255_results_are_rejected() {
    let mut ast = add_module();
    ast.types[0].1 = vec![ValueType::I64; 256];
    assert_eq!(compile(&ast), Err(EncodeError::CountOverflow));
}

#[test]
fn more_than_255_locals_are_rejected() {
    let mut ast = add_module();
    ast.funcs[0].locals = vec![ValueType::I32; 256];
    assert_eq!(encode_code_section(&ast), Err(EncodeError::CountOverflow));
    assert_eq!(compile(&ast), Err(EncodeError::CountOverflow));
}

#[test]
fn more_than_255_functions_are_rejected() {
    let mut ast = add_module();
    ast.funcs = (0..256)
        .map(|_| Func { f_type: 0, locals: vec![], body: vec![] })
        .collect();
    assert_eq!(encode_func_section(&ast), Err(EncodeError::CountOverflow));
    assert_eq!(encode_code_section(&ast), Err(EncodeError::CountOverflow));
    assert_eq!(compile(&ast), Err(EncodeError::CountOverflow));
}

#[test]
fn an_invalid_index_is_reported_before_a_count() {
    let mut ast = add_module();
    ast.types[0].0 = vec![ValueType::I32; 256];
    ast.exports[0].e_desc = EDesc::FuncExport(7);
    assert_eq!(compile(&ast), Err(EncodeError::InvalidIndex));
}
