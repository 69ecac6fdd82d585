use tiny_wasm::ast::{EDesc, Export, Func, Instr, Module, ValueType};
use tiny_wasm::compiler::wasm::compile;
use tiny_wasm::runtime::disassembler::{
    check_header, parse_code_section, parse_export_section, parse_func_section,
    parse_type_section, parse_wasm, read_u32,
};
use tiny_wasm::runtime::error::RuntimeError;
use tiny_wasm::runtime::reader::Reader;

fn add_wasm() -> Vec<u8> {
    vec![
        0x00, 0x61, 0x73, 0x6d, 0x01, 0x00, 0x00, 0x00, // header
        0x01, 0x07, 0x01, 0x60, 0x02, 0x7f, 0x7f, 0x01, 0x7f, // type section
        0x03, 0x02, 0x01, 0x00, // function section
        0x07, 0x07, 0x01, 0x03, 0x61, 0x64, 0x64, 0x00, 0x00, // export section
        0x0a, 0x09, 0x01, 0x07, 0x00, 0x20, 0x00, 0x20, 0x01, 0x6a, 0x0b, // code section
    ]
}

fn add_module() -> Module {
    Module {
        types: vec![(vec![ValueType::I32, ValueType::I32], vec![ValueType::I32])],
        funcs: vec![Func {
            f_type: 0,
            locals: vec![],
            body: vec![Instr::LocalGet(0), Instr::LocalGet(1), Instr::I32Add],
        }],
        exports: vec![Export {
            name: "add".to_string(),
            e_desc: EDesc::FuncExport(0),
        }],
    }
}

fn decode(wasm: Vec<u8>) -> Result<Module, RuntimeError> {
    let mut reader = Reader::new(wasm);
    parse_wasm(&mut reader)
}

#[test]
fn parse_code_section_test() {
    let wasm = vec![
        0x0a, // section code
        0x09, // section size
        0x01, // num function
        // function body 0
        0x07, // func body size
        0x00, // local decl count
        0x20, // local.get
        0x00, // local index
        0x20, // local.get
        0x01, // local index
        0x6a, // i32.add
        0x0b, // end
    ];
    let mut reader = Reader::new(wasm);

    let (locals, instructions) = parse_code_section(&mut reader).unwrap()[0].clone();

    assert_eq!(Vec::<ValueType>::new(), locals);
    assert_eq!(
        vec![Instr::LocalGet(0), Instr::LocalGet(1), Instr::I32Add],
        instructions
    );
}

#[test]
fn parse_export_section_test() {
    let wasm = vec![
        0x07, // section export
        0x07, // section size
        0x01, // num exports
        0x03, // string length
        // "add" export name
        0x61, // a
        0x64, // d
        0x64, // d
        0x00, // 0
        // export kind
        0x00, // export func index
    ];
    let mut reader = Reader::new(wasm);

    let result = parse_export_section(&mut reader).unwrap();

    assert_eq!(
        vec![Export {
            name: "add".to_string(),
            e_desc: EDesc::FuncExport(0)
        }],
        result
    );
}

#[test]
fn parse_func_section_test() {
    let wasm = vec![
        0x03, // section code
        0x02, // section size
        0x01, // num functions
        0x00, // function 0 signature index
    ];
    let mut reader = Reader::new(wasm);

    let result = parse_func_section(&mut reader).unwrap();

    assert_eq!(vec![0], result);
}

#[test]
fn parse_wasm_test() {
    let wasm = vec![
        // wasm magic
        0x00, // \0
        0x61, // a
        0x73, // s
        0x6d, // m
        // wasm version
        0x01, // 1
        0x00, // 0
        0x00, // 0
        0x00, // 0
        // section "Type" (1)
        0x01, // section code
        0x07, // section size
        0x01, // num types
        // type 0
        0x60, // func
        0x02, // num params
        0x7f, // i32
        0x7f, // i32
        0x01, // num results
        0x7f, // i32
        // section "Function" (3)
        0x03, // section code
        0x02, // section size
        0x01, // num functions
        0x00, // function 0 signature index
        // section "Export" (7)
        0x07, // section export
        0x07, // section size
        0x01, // num exports
        0x03, // string length
        // "add" export name
        0x61, // a
        0x64, // d
        0x64, // d
        0x00, // 0
        // export kind
        0x00, // export func index
        // section "Code" (10)
        0x0a, // section code
        0x09, // section size
        0x01, // num function
        // function body 0
        0x07, // func body size
        0x00, // local decl count
        0x20, // local.get
        0x00, // local index
        0x20, // local.get
        0x01, // local index
        0x6a, // i32.add
        0x0b, // end
    ];
    let mut reader = Reader::new(wasm);

    let result = parse_wasm(&mut reader).unwrap();

    assert_eq!(
        Module {
            types: vec![(vec![ValueType::I32, ValueType::I32], vec![ValueType::I32])],
            funcs: vec![Func {
                f_type: 0,
                locals: vec![],
                body: vec![Instr::LocalGet(0), Instr::LocalGet(1), Instr::I32Add],
            }],
            exports: vec![Export {
                name: "add".to_string(),
                e_desc: EDesc::FuncExport(0),
            }],
        },
        result
    );
}

#[test]
fn check_header_test() {
    let wasm = vec![
        // wasm magic
        0x00, // \0
        0x61, // a
        0x73, // s
        0x6d, // m
        // wasm version
        0x01, // 1
        0x00, // 0
        0x00, // 0
        0x00, // 0
    ];
    let mut reader = Reader::new(wasm);

    assert!(check_header(&mut reader).is_ok());
}

#[test]
fn parse_type_section_test() {
    let wasm = vec![
        // section "Type" (1)
        0x01, // section code
        0x07, // section size
        0x01, // num types
        // type 0
        0x60, // func
        0x02, // num params
        0x7f, // i32
        0x7f, // i32
        0x01, // num results
        0x7f, // i32
    ];
    let mut reader = Reader::new(wasm);

    let types = parse_type_section(&mut reader).unwrap();

    assert_eq!(
        types,
        vec![(vec![ValueType::I32, ValueType::I32], vec![ValueType::I32])]
    );
}

#[test]
fn reader_reads_in_order() {
    let mut reader = Reader::new(vec![0x2a, 0x01, 0x00, 0x00, 0x00, 0x07, 0x08, 0x09]);
    assert_eq!(reader.len(), 8);
    assert_eq!(reader.remaining(), 8);
    assert_eq!(reader.byte(), 0x2a);
    assert_eq!(reader.dword(), 1);
    assert_eq!(reader.bytes(2), &[0x07, 0x08]);
    assert_eq!(reader.remaining(), 1);
    assert_eq!(reader.len(), 8);
    assert_eq!(reader.byte(), 0x09);
    assert_eq!(reader.remaining(), 0);
}

#[test]
fn dword_is_little_endian() {
    let mut reader = Reader::new(vec![0x78, 0x56, 0x34, 0x12]);
    assert_eq!(reader.dword(), 0x1234_5678);
    let mut reader = Reader::new(vec![0xff, 0xff, 0xff, 0xff]);
    assert_eq!(reader.dword(), u32::MAX);
}

#[test]
fn read_u32_reads_variable_length_integers() {
    let mut reader = Reader::new(vec![0x00, 0x7f, 0x80, 0x01, 0xac, 0x02]);
    assert_eq!(read_u32(&mut reader), Ok(0));
    assert_eq!(read_u32(&mut reader), Ok(127));
    assert_eq!(read_u32(&mut reader), Ok(128));
    assert_eq!(read_u32(&mut reader), Ok(300));
    assert_eq!(read_u32(&mut reader), Err(RuntimeError::ModuleToShort));
}

#[test]
fn read_u32_reads_the_largest_value() {
    let mut reader = Reader::new(vec![0xff, 0xff, 0xff, 0xff, 0x0f]);
    assert_eq!(read_u32(&mut reader), Ok(u32::MAX));
    assert_eq!(reader.remaining(), 0);
}

#[test]
fn read_u32_accepts_padded_encodings() {
    let mut reader = Reader::new(vec![0x80, 0x80, 0x00]);
    assert_eq!(read_u32(&mut reader), Ok(0));
    assert_eq!(reader.remaining(), 0);
}

#[test]
fn read_u32_rejects_more_than_32_bits() {
    let mut reader = Reader::new(vec![0xff, 0xff, 0xff, 0xff, 0x10]);
    assert_eq!(read_u32(&mut reader), Err(RuntimeError::InvalidInteger));
}

#[test]
fn read_u32_rejects_a_sixth_byte() {
    let mut reader = Reader::new(vec![0x80, 0x80, 0x80, 0x80, 0x80, 0x00]);
    assert_eq!(read_u32(&mut reader), Err(RuntimeError::InvalidInteger));
}

#[test]
fn read_u32_rejects_an_unfinished_integer() {
    let mut reader = Reader::new(vec![0x80]);
    assert_eq!(read_u32(&mut reader), Err(RuntimeError::ModuleToShort));
}

#[test]
fn buffer_shorter_than_eight_bytes_is_too_short() {
    assert_eq!(decode(vec![]), Err(RuntimeError::ModuleToShort));
    assert_eq!(
        decode(vec![0x00, 0x61, 0x73, 0x6d, 0x01, 0x00, 0x00]),
        Err(RuntimeError::ModuleToShort)
    );
}

#[test]
fn wrong_magic_is_rejected() {
    let mut wasm = add_wasm();
    wasm[3] = 0x6e;
    assert_eq!(decode(wasm), Err(RuntimeError::WrongMagicHeader));
}

#[test]
fn wrong_version_is_rejected() {
    let mut wasm = add_wasm();
    wasm[4] = 0x02;
    assert_eq!(decode(wasm), Err(RuntimeError::WrongVersionHeader));
    let mut wasm = add_wasm();
    wasm[7] = 0x01;
    assert_eq!(decode(wasm), Err(RuntimeError::WrongVersionHeader));
}

#[test]
fn unexpected_section_id_is_rejected() {
    for at in [8, 17, 21, 30] {
        let mut wasm = add_wasm();
        wasm[at] = 0x0c;
        assert_eq!(decode(wasm), Err(RuntimeError::InvalidSectionCode));
    }
}

#[test]
fn reordered_sections_are_rejected() {
    let mut wasm = add_wasm()[..8].to_vec();
    wasm.extend_from_slice(&[0x03, 0x02, 0x01, 0x00]);
    wasm.extend_from_slice(&[0x01, 0x07, 0x01, 0x60, 0x02, 0x7f, 0x7f, 0x01, 0x7f]);
    assert_eq!(decode(wasm), Err(RuntimeError::InvalidSectionCode));
}

#[test]
fn missing_sections_are_rejected() {
    let wasm = add_wasm()[..17].to_vec();
    assert_eq!(decode(wasm), Err(RuntimeError::ModuleToShort));
    let ast = Module { types: vec![], funcs: vec![], exports: vec![] };
    assert_eq!(decode(compile(&ast).unwrap()), Err(RuntimeError::ModuleToShort));
}

#[test]
fn truncated_module_is_too_short() {
    let wasm = add_wasm();
    for len in 8..wasm.len() {
        assert_eq!(decode(wasm[..len].to_vec()), Err(RuntimeError::ModuleToShort));
    }
}

#[test]
fn bytes_behind_the_code_section_are_ignored() {
    let mut wasm = add_wasm();
    wasm.extend_from_slice(&[0xde, 0xad]);
    let mut reader = Reader::new(wasm);
    assert_eq!(parse_wasm(&mut reader), Ok(add_module()));
    assert_eq!(reader.remaining(), 2);
}

#[test]
fn invalid_value_type_is_rejected() {
    let mut wasm = add_wasm();
    wasm[13] = 0x7d;
    assert_eq!(decode(wasm), Err(RuntimeError::InvalidValueType));
    let mut reader = Reader::new(vec![0x0a, 0x05, 0x01, 0x03, 0x01, 0x00, 0x0b]);
    assert_eq!(parse_code_section(&mut reader), Err(RuntimeError::InvalidValueType));
}

#[test]
fn i64_value_types_are_decoded() {
    let mut reader = Reader::new(vec![0x01, 0x05, 0x01, 0x60, 0x01, 0x7e, 0x01, 0x7e]);
    assert_eq!(
        parse_type_section(&mut reader),
        Ok(vec![(vec![ValueType::I64], vec![ValueType::I64])])
    );
}

#[test]
fn local_declarations_are_decoded() {
    let mut reader = Reader::new(vec![0x0a, 0x06, 0x01, 0x04, 0x02, 0x7f, 0x7e, 0x0b]);
    assert_eq!(
        parse_code_section(&mut reader),
        Ok(vec![(vec![ValueType::I32, ValueType::I64], vec![])])
    );
}

#[test]
fn invalid_export_kind_is_rejected() {
    let mut wasm = add_wasm();
    wasm[28] = 0x01;
    assert_eq!(decode(wasm), Err(RuntimeError::InvalidExportType));
}

#[test]
fn export_function_index_is_decoded() {
    let mut reader =
        Reader::new(vec![0x07, 0x07, 0x01, 0x03, 0x61, 0x64, 0x64, 0x00, 0x05]);
    assert_eq!(
        parse_export_section(&mut reader),
        Ok(vec![Export { name: "add".to_string(), e_desc: EDesc::FuncExport(5) }])
    );
}

#[test]
fn export_name_that_is_not_utf8_is_rejected() {
    let mut wasm = add_wasm();
    wasm[25] = 0xff;
    assert_eq!(decode(wasm), Err(RuntimeError::InvalidExportName));
}

#[test]
fn export_name_of_several_bytes_per_character_is_decoded() {
    let mut reader = Reader::new(vec![0x07, 0x06, 0x01, 0x02, 0xc3, 0xa9, 0x00, 0x00]);
    assert_eq!(
        parse_export_section(&mut reader),
        Ok(vec![Export { name: "é".to_string(), e_desc: EDesc::FuncExport(0) }])
    );
}

#[test]
fn export_name_longer_than_the_buffer_is_too_short() {
    let mut reader = Reader::new(vec![0x07, 0x07, 0x01, 0x09, 0x61, 0x64, 0x64, 0x00, 0x00]);
    assert_eq!(parse_export_section(&mut reader), Err(RuntimeError::ModuleToShort));
}

#[test]
fn invalid_instruction_is_rejected() {
    let mut wasm = add_wasm();
    wasm[39] = 0x6b;
    assert_eq!(decode(wasm), Err(RuntimeError::InvalidInstruction));
}

#[test]
fn function_and_code_sections_of_different_length_are_rejected() {
    let mut wasm = add_wasm()[..17].to_vec();
    wasm.extend_from_slice(&[0x03, 0x03, 0x02, 0x00, 0x00]);
    wasm.extend_from_slice(&add_wasm()[21..]);
    assert_eq!(decode(wasm), Err(RuntimeError::FunctionCodeMismatch));
}

#[test]
fn decoding_undoes_encoding() {
    let ast = add_module();
    assert_eq!(decode(compile(&ast).unwrap()), Ok(add_module()));
}

#[test]
fn decoding_undoes_encoding_of_a_larger_module() {
    let long_body: Vec<Instr> = (0..100)
        .flat_map(|i| vec![Instr::LocalGet(i), Instr::LocalGet(255 - i), Instr::I32Add])
        .collect();
    let build = || Module {
        types: vec![
            (vec![ValueType::I32, ValueType::I32], vec![ValueType::I32]),
            (vec![], vec![]),
            (vec![ValueType::I64; 255], vec![ValueType::I32, ValueType::I64]),
        ],
        funcs: vec![
            Func { f_type: 2, locals: vec![], body: long_body.clone() },
            Func { f_type: 1, locals: vec![], body: vec![] },
            Func { f_type: 0, locals: vec![], body: vec![Instr::I32Add] },
        ],
        exports: vec![
            Export { name: "x".repeat(200), e_desc: EDesc::FuncExport(2) },
            Export { name: "größe ∑".to_string(), e_desc: EDesc::FuncExport(0) },
            Export { name: String::new(), e_desc: EDesc::FuncExport(1) },
        ],
    };
    let wasm = compile(&build()).unwrap();
    let mut reader = Reader::new(wasm);
    assert_eq!(parse_wasm(&mut reader), Ok(build()));
    assert_eq!(reader.remaining(), 0);
}
