use tiny_wasm::ast::{EDesc, Export, Func, Instr, Module, ValueType};
use tiny_wasm::compiler::wasm::compile;
use tiny_wasm::parser::ctx::{Ctx, Field};
use tiny_wasm::parser::instr::{i32_add, instrs, local_get};
use tiny_wasm::parser::module::{export, func, module};
use tiny_wasm::parser::parse;
use tiny_wasm::parser::token;
use tiny_wasm::parser::token::{keyword, param, result, symbol, ws};
use tiny_wasm::parser::types::{func_type, index, type_use, value_type, Index};
use tiny_wasm::parser::values::{id, literal, u32};
use tiny_wasm::runtime;

use tiny_wasm::ast::Instr::{I32Add, LocalGet};
use tiny_wasm::ast::ValueType::{I32, I64};

const ADD_WAT: &str = "(module
                (func $add (param $lhs i32) (param $rhs i32) (result i32)
                  local.get $lhs
                  local.get $rhs
                  i32.add)
                (export \"add\" (func $add))
            )";

fn add_module() -> Module {
    Module {
        types: vec![(vec![I32, I32], vec![I32])],
        funcs: vec![Func {
            f_type: 0,
            locals: vec![],
            body: vec![LocalGet(0), LocalGet(1), I32Add],
        }],
        exports: vec![Export {
            name: "add".to_string(),
            e_desc: EDesc::FuncExport(0),
        }],
    }
}

#[test]
fn local_get_parse() {
    let ctx = Ctx {
        locals: vec![Some("$lhs".to_string())],
        ..Ctx::new()
    };
    assert_eq!(local_get("local.get 1", &ctx), Some(("", Instr::LocalGet(1))));
    assert_eq!(
        local_get("local.get $lhs", &ctx),
        Some(("", Instr::LocalGet(0)))
    );
}

#[test]
fn i32_add_parse() {
    assert_eq!(i32_add(" i32.add "), Some(("", I32Add)));
    assert!(i32_add("local.get").is_none());
}

#[test]
fn instrs_parse() {
    let mut ctx = Ctx::new();
    assert_eq!(
        instrs(
            "local.get 1\
                i32.add\
                local.get 2",
            &mut ctx
        ),
        Some(("", vec![LocalGet(1), I32Add, LocalGet(2)]))
    );
}

#[test]
fn module_func_parse() {
    let mut ctx = Ctx::new();
    let wat = "(func $add (param $lhs i32) (param $rhs i32) (result i32)
              local.get $lhs
              local.get $rhs
              i32.add)";

    let expected = Func {
        f_type: 0,
        locals: vec![],
        body: vec![LocalGet(0), LocalGet(1), I32Add],
    };

    assert_eq!(func(wat, &mut ctx), Some(("", expected.clone())));
    assert_eq!(
        ctx,
        Ctx {
            locals: vec![Some("$lhs".to_string()), Some("$rhs".to_string())],
            types: Field {
                ids: vec![None],
                list: vec![(vec![I32, I32], vec![I32])],
            },
            funcs: Field {
                ids: vec![Some("$add".to_string())],
                list: vec![expected]
            },
            exports: Field::new()
        }
    )
}

#[test]
fn module_export_parse() {
    let mut ctx = Ctx {
        funcs: Field {
            ids: vec![Some("$add".to_string())],
            list: vec![],
        },
        ..Ctx::new()
    };
    let expected = Export {
        name: "add".to_string(),
        e_desc: EDesc::FuncExport(0),
    };
    assert_eq!(
        export("(export \"add\" (func $add))", &mut ctx),
        Some(("", expected))
    );
    assert_eq!(
        ctx,
        Ctx {
            locals: vec![],
            types: Field::new(),
            funcs: Field {
                ids: vec![Some("$add".to_string())],
                list: vec![]
            },
            exports: Field {
                ids: vec![Some("add".to_string())],
                list: vec![Export {
                    name: "add".to_string(),
                    e_desc: EDesc::FuncExport(0)
                }]
            }
        }
    )
}

#[test]
fn module_module_parse() {
    let wat = "(module
                (func $add (param $lhs i32) (param $rhs i32) (result i32)
                  local.get $lhs
                  local.get $rhs
                  i32.add)
                (export \"add\" (func $add))
            )";

    let expected = Module {
        types: vec![(vec![I32, I32], vec![I32])],
        funcs: vec![Func {
            f_type: 0,
            locals: vec![],
            body: vec![LocalGet(0), LocalGet(1), I32Add],
        }],
        exports: vec![Export {
            name: "add".to_string(),
            e_desc: EDesc::FuncExport(0),
        }],
    };

    assert_eq!(module(wat), Some(("", expected)));
}

#[test]
fn token_func_parse() {
    assert_eq!(token::func("func"), Some(("", "func")));
    assert_eq!(token::func("func foobar"), Some(("foobar", "func")));
    assert!(token::func("notfunc").is_none());
}

#[test]
fn ws_parse() {
    assert_eq!(ws("  foo"), ("foo", "  "));
    assert_eq!(ws(" \nfoo"), ("foo", " \n"));
    assert_eq!(ws("foo"), ("foo", ""));
}

#[test]
fn param_parse() {
    assert_eq!(param("param"), Some(("", "param")));
    assert_eq!(param("param123"), Some(("123", "param")));
}

#[test]
fn result_parse() {
    assert_eq!(result("result"), Some(("", "result")));
    assert_eq!(result("result123"), Some(("123", "result")));
}

#[test]
fn token_export_parse() {
    assert_eq!(token::export(" export "), Some(("", "export")));
    assert!(token::export("noexport").is_none());
}

#[test]
fn token_module_parse() {
    assert_eq!(token::module(" module "), Some(("", "module")));
    assert!(token::module("nomodule").is_none());
}

#[test]
fn func_type_parse_1() {
    let mut ctx = Ctx::new();
    assert_eq!(
        func_type("(param $lhs i32)", &mut ctx),
        Some(("", (vec![I32], vec![])))
    );
    assert_eq!(
        Ctx {
            locals: vec![Some("$lhs".to_string())],
            ..Ctx::new()
        },
        ctx
    );
}

#[test]
fn func_type_parse_2() {
    let mut ctx = Ctx::new();
    assert_eq!(
        func_type("(param $lhs i32) (param $rhs i32) ", &mut ctx),
        Some((" ", (vec![I32, I32], vec![])))
    );
    assert_eq!(
        Ctx {
            locals: vec![Some("$lhs".to_string()), Some("$rhs".to_string())],
            ..Ctx::new()
        },
        ctx
    );
}

#[test]
fn func_type_parse_3() {
    let mut ctx = Ctx::new();
    assert_eq!(
        func_type("(xparam $lhs u32)", &mut ctx),
        Some(("(xparam $lhs u32)", (vec![], vec![])))
    );
}

#[test]
fn func_type_parse_4() {
    let mut ctx = Ctx::new();
    assert_eq!(
        func_type("param $lhs u32", &mut ctx),
        Some(("param $lhs u32", (vec![], vec![])))
    );
}

#[test]
fn func_type_parse_5() {
    let mut ctx = Ctx::new();
    assert_eq!(
        func_type("(param xlhs u32)", &mut ctx),
        Some(("(param xlhs u32)", (vec![], vec![])))
    );
}

#[test]
fn func_type_parse_6() {
    let mut ctx = Ctx::new();
    assert_eq!(
        func_type("(param $lhs i32)", &mut ctx),
        Some(("", (vec![I32], vec![])))
    );
}

#[test]
fn func_type_parse_7() {
    let mut ctx = Ctx::new();
    assert_eq!(
        func_type("(param $lhs i32) (param $rhs i32) (result i64)", &mut ctx),
        Some(("", (vec![I32, I32], vec![I64])))
    );
}

#[test]
fn func_type_parse_8() {
    let mut ctx = Ctx::new();
    assert_eq!(
        func_type("(param i32) (param i32) (result i64)", &mut ctx),
        Some(("", (vec![I32, I32], vec![I64])))
    );
}

#[test]
fn value_type_parse() {
    assert_eq!(value_type("i32"), Some(("", I32)));
    assert_eq!(value_type("i64"), Some(("", I64)));
    assert!(value_type("x32").is_none());
}

#[test]
fn id_parse() {
    assert_eq!(id("$valid_id%#! foo "), Some(("foo ", "$valid_id%#!")));
    assert_eq!(id("  $valid_id%#! foo "), Some(("foo ", "$valid_id%#!")));
    assert!(id("valid_id%#! foo ").is_none());
}

#[test]
fn u32_parse() {
    assert_eq!(u32("12"), Some(("", 12)));
}

#[test]
fn literal_parse() {
    assert_eq!(
        literal("\"valid#+123\""),
        Some(("", "valid#+123".to_string()))
    );

    assert!(literal("invalid").is_none());
}

#[test]
fn ws_takes_spaces_tabs_and_line_ends_only() {
    assert_eq!(ws(" \t\r\n x \t"), ("x \t", " \t\r\n "));
    assert_eq!(ws(""), ("", ""));
    assert_eq!(ws("\u{a0}x"), ("\u{a0}x", ""));
    assert_eq!(ws("\u{b}x"), ("\u{b}x", ""));
    assert_eq!(ws("   "), ("", "   "));
}

#[test]
fn keyword_is_a_prefix_between_white_space() {
    assert_eq!(keyword("func", "  func  (x"), Some(("(x", "func")));
    assert_eq!(keyword("func", "fun"), None);
    assert_eq!(keyword("func", "Func"), None);
    assert_eq!(keyword("func", ""), None);
    assert_eq!(keyword("local.get", "local.get0"), Some(("0", "local.get")));
    assert_eq!(keyword("local.get", "localxget"), None);
}

#[test]
fn symbol_reads_one_character() {
    assert_eq!(symbol('(', "(x"), Some("x"));
    assert_eq!(symbol('(', " (x"), None);
    assert_eq!(symbol('(', ")"), None);
    assert_eq!(symbol('(', ""), None);
    assert_eq!(symbol('\u{2217}', "\u{2217}\u{2217}"), Some("\u{2217}"));
}

#[test]
fn id_needs_a_dollar_and_a_character() {
    assert_eq!(id("$"), None);
    assert_eq!(id("$ a"), None);
    assert_eq!(id("a$b"), None);
    assert_eq!(id(""), None);
    assert_eq!(id("$a"), Some(("", "$a")));
    assert_eq!(id("$$"), Some(("", "$$")));
    assert_eq!(id("$a1_B2.c)"), Some((")", "$a1_B2.c")));
}

#[test]
fn id_stops_at_characters_it_may_not_contain() {
    assert_eq!(id("$a-b"), Some(("-b", "$a")));
    assert_eq!(id("$a*b"), Some(("*b", "$a")));
    assert_eq!(id("$a'b"), Some(("'b", "$a")));
    assert_eq!(id("$a(b"), Some(("(b", "$a")));
    assert_eq!(id("$a\u{e9}b"), Some(("\u{e9}b", "$a")));
    assert_eq!(id("$\u{e9}"), None);
}

#[test]
fn id_may_contain_the_listed_symbols() {
    let symbols = "!#$%&\u{2032}\u{2217}+\u{2212}./:<=>?@\u{2216}^_`|~";
    let text = format!("${}x{} y", symbols, symbols);
    let name = format!("${}x{}", symbols, symbols);
    assert_eq!(id(&text), Some(("y", name.as_str())));
    assert_eq!(id("$\u{2212}1"), Some(("", "$\u{2212}1")));
}

#[test]
fn u32_reads_digits_only() {
    assert_eq!(u32("0"), Some(("", 0)));
    assert_eq!(u32("007x"), Some(("x", 7)));
    assert_eq!(u32("12 "), Some((" ", 12)));
    assert_eq!(u32(" 12"), None);
    assert_eq!(u32("+12"), None);
    assert_eq!(u32("-1"), None);
    assert_eq!(u32(""), None);
    assert_eq!(u32("x"), None);
    assert_eq!(u32("\u{661}"), None);
}

#[test]
fn u32_must_fit_32_bits() {
    assert_eq!(u32("4294967295"), Some(("", u32::MAX)));
    assert_eq!(u32("4294967296"), None);
    assert_eq!(u32("00000000004294967295)"), Some((")", u32::MAX)));
    assert_eq!(u32("99999999999999999999999999"), None);
}

#[test]
fn literal_is_what_stands_between_quotes() {
    assert_eq!(literal("  \"a b\"  x"), Some(("x", "a b".to_string())));
    assert_eq!(literal("\"\u{e9}\u{2217}\"\""), Some(("\"", "\u{e9}\u{2217}".to_string())));
    assert_eq!(literal("\"\""), None);
    assert_eq!(literal("\"open"), None);
    assert_eq!(literal("\""), None);
    assert_eq!(literal(""), None);
}

#[test]
fn value_type_is_read_between_white_space() {
    assert_eq!(value_type("  i64  )"), Some((")", I64)));
    assert_eq!(value_type("i32i64"), Some(("i64", I32)));
    assert_eq!(value_type("i3"), None);
    assert_eq!(value_type("I32"), None);
}

#[test]
fn index_is_a_number_or_an_identifier() {
    match index("12 )") {
        Some((rest, Index::Idx(i))) => {
            assert_eq!(rest, " )");
            assert_eq!(i, 12);
        }
        _ => panic!("a number was expected"),
    }
    match index(" $add )") {
        Some((rest, Index::Id(name))) => {
            assert_eq!(rest, ")");
            assert_eq!(name, "$add");
        }
        _ => panic!("an identifier was expected"),
    }
    assert!(index("add").is_none());
    assert!(index("4294967296").is_none());
}

#[test]
fn func_type_collects_parameters_and_results_in_any_order() {
    let mut ctx = Ctx::new();
    assert_eq!(
        func_type("(result i64) (param $a i32)(result i32)( param i64 ) x", &mut ctx),
        Some((" x", (vec![I32, I64], vec![I64, I32])))
    );
    assert_eq!(ctx.locals, vec![Some("$a".to_string()), None]);
}

#[test]
fn func_type_with_a_repeated_identifier_is_rejected() {
    let mut ctx = Ctx::new();
    assert_eq!(func_type("(param $a i32) (param i32) (param $a i64)", &mut ctx), None);
    assert_eq!(ctx, Ctx::new());
    let mut ctx = Ctx { locals: vec![None, Some("$a".to_string())], ..Ctx::new() };
    assert_eq!(func_type("(param $b i32) (param $a i64)", &mut ctx), None);
    assert_eq!(ctx.locals, vec![None, Some("$a".to_string())]);
    assert_eq!(
        func_type("(param i32) (param i64)", &mut ctx),
        Some(("", (vec![I32, I64], vec![])))
    );
    assert_eq!(ctx.locals, vec![None, Some("$a".to_string()), None, None]);
}

#[test]
fn type_use_finds_a_known_type_or_adds_it() {
    let mut ctx = Ctx::new();
    assert_eq!(type_use("(param i32) (result i32)", &mut ctx), Some(("", 0)));
    assert_eq!(type_use("(param i64)", &mut ctx), Some(("", 1)));
    assert_eq!(type_use("(param i32) (result i32)", &mut ctx), Some(("", 0)));
    assert_eq!(type_use("", &mut ctx), Some(("", 2)));
    assert_eq!(
        ctx.types,
        Field {
            ids: vec![None, None, None],
            list: vec![(vec![I32], vec![I32]), (vec![I64], vec![]), (vec![], vec![])],
        }
    );
    assert_eq!(ctx.locals, vec![None, None, None]);
}

#[test]
fn local_get_of_an_unknown_identifier_is_rejected() {
    let ctx = Ctx { locals: vec![Some("$lhs".to_string())], ..Ctx::new() };
    assert_eq!(local_get("local.get $rhs", &ctx), None);
    assert_eq!(local_get("local.get", &ctx), None);
    assert_eq!(local_get("local.set 1", &ctx), None);
}

#[test]
fn local_get_takes_the_first_local_of_a_name() {
    let ctx = Ctx {
        locals: vec![None, Some("$a".to_string()), Some("$b".to_string()), Some("$a".to_string())],
        ..Ctx::new()
    };
    assert_eq!(local_get(" local.get $a ", &ctx), Some(("", LocalGet(1))));
    assert_eq!(local_get("local.get $b)", &ctx), Some((")", LocalGet(2))));
    assert_eq!(local_get("local.get 9 x", &ctx), Some((" x", LocalGet(9))));
}

#[test]
fn instrs_need_at_least_one_instruction() {
    let ctx = Ctx::new();
    assert_eq!(instrs("", &ctx), None);
    assert_eq!(instrs(")", &ctx), None);
    assert_eq!(instrs(" i32.add )", &ctx), Some((")", vec![I32Add])));
    assert_eq!(instrs("i32.add i32.sub", &ctx), Some(("i32.sub", vec![I32Add])));
}

#[test]
fn func_without_instructions_leaves_its_traces_in_the_context() {
    let mut ctx = Ctx::new();
    assert_eq!(func("(func $f (param $a i32))", &mut ctx), None);
    assert_eq!(
        ctx,
        Ctx {
            locals: vec![Some("$a".to_string())],
            types: Field { ids: vec![None], list: vec![(vec![I32], vec![])] },
            funcs: Field { ids: vec![Some("$f".to_string())], list: vec![] },
            exports: Field::new(),
        }
    );
}

#[test]
fn func_needs_an_identifier() {
    let mut ctx = Ctx::new();
    assert_eq!(func("(func (param i32) local.get 0)", &mut ctx), None);
    assert_eq!(func(" (func $f i32.add)", &mut ctx), None);
    assert_eq!(func("(export \"f\" (func 0))", &mut ctx), None);
    assert_eq!(ctx, Ctx::new());
}

#[test]
fn second_func_shares_a_known_type() {
    let mut ctx = Ctx::new();
    assert!(func("(func $f (param $a i32) (result i32) local.get $a)", &mut ctx).is_some());
    assert_eq!(
        func("(func $g (param $b i32) (result i32) local.get $b) rest", &mut ctx),
        Some((" rest", Func { f_type: 0, locals: vec![], body: vec![LocalGet(1)] }))
    );
    assert_eq!(ctx.types.list, vec![(vec![I32], vec![I32])]);
    assert_eq!(ctx.funcs.ids, vec![Some("$f".to_string()), Some("$g".to_string())]);
    assert_eq!(ctx.funcs.list.len(), 2);
}

#[test]
fn export_by_number_and_of_an_unknown_function() {
    let mut ctx = Ctx::new();
    assert_eq!(
        export("(export \"e\" (func 3))", &mut ctx),
        Some(("", Export { name: "e".to_string(), e_desc: EDesc::FuncExport(3) }))
    );
    assert_eq!(export("(export \"e\" (func $f))", &mut ctx), None);
    assert_eq!(export("(export \"e\" (func 3 ))", &mut ctx), None);
    assert_eq!(export("(export e (func 3))", &mut ctx), None);
    assert_eq!(ctx.exports.ids, vec![Some("e".to_string())]);
}

#[test]
fn module_without_fields_is_empty() {
    assert_eq!(
        module(" ( module ) trailing"),
        Some(("", Module { types: vec![], funcs: vec![], exports: vec![] }))
    );
    assert_eq!(parse("(module)"), Some(Module { types: vec![], funcs: vec![], exports: vec![] }));
}

#[test]
fn module_that_is_not_closed_is_rejected() {
    assert_eq!(parse("(module"), None);
    assert_eq!(parse("module)"), None);
    assert_eq!(parse(""), None);
    assert_eq!(parse("(module (func $f))"), None);
    assert_eq!(parse("(module (export \"f\" (func $f)))"), None);
    assert_eq!(parse("(module (memory 1))"), None);
}

#[test]
fn parse_reads_the_add_module() {
    assert_eq!(parse(ADD_WAT), Some(add_module()));
}

#[test]
fn parse_reads_several_functions_and_exports() {
    let wat = "(module
        (func $first (param $a i32) (param $b i32) (result i32) local.get $a)
        (export \"first\" (func $first))
        (func $sum3 (param $x i32) (param $y i32) (param $z i32) (result i32)
            local.get $x local.get $y i32.add local.get $z i32.add)
        (export \"sum3\" (func 1))
        (export \"again\" (func $first)))";
    let ast = parse(wat).unwrap();
    assert_eq!(
        ast.types,
        vec![(vec![I32, I32], vec![I32]), (vec![I32, I32, I32], vec![I32])]
    );
    assert_eq!(
        ast.funcs,
        vec![
            Func { f_type: 0, locals: vec![], body: vec![LocalGet(0)] },
            Func {
                f_type: 1,
                locals: vec![],
                body: vec![LocalGet(2), LocalGet(3), I32Add, LocalGet(4), I32Add],
            },
        ]
    );
    assert_eq!(
        ast.exports,
        vec![
            Export { name: "first".to_string(), e_desc: EDesc::FuncExport(0) },
            Export { name: "sum3".to_string(), e_desc: EDesc::FuncExport(1) },
            Export { name: "again".to_string(), e_desc: EDesc::FuncExport(0) },
        ]
    );
}

#[test]
fn parsed_module_compiles_and_runs() {
    let ast = parse(ADD_WAT).unwrap();
    let wasm = compile(&ast).unwrap();
    assert_eq!(runtime::invoke_function(wasm, "add", &[5, 6]), Ok(11));
}

#[test]
fn value_types_are_told_apart() {
    assert_ne!(ValueType::I32, ValueType::I64);
}

#[test]
fn pt_parse() {
    let (_input, x) = token::pt(|i| keyword("hello", i), "( hello )").unwrap();
    assert_eq!(x, "hello");
}

#[test]
fn pt_needs_both_parentheses() {
    assert_eq!(token::pt(|i| keyword("hello", i), "( hello ) x"), Some((" x", "hello")));
    assert_eq!(token::pt(|i| keyword("hello", i), " ( hello )"), None);
    assert_eq!(token::pt(|i| keyword("hello", i), "( hello "), None);
    assert_eq!(token::pt(|i| keyword("hello", i), "( bye )"), None);
    assert_eq!(token::pt(value_type, "(i64)"), Some(("", I64)));
}

#[test]
fn bws_skips_white_space_on_both_sides() {
    assert_eq!(token::bws(u32, " \n 42 \t x "), Some(("x ", 42)));
    assert_eq!(token::bws(u32, "42"), Some(("", 42)));
    assert_eq!(token::bws(u32, " x"), None);
    assert_eq!(token::bws(|i| symbol('(', i).map(|r| (r, ())), " ( ("), Some(("(", ())));
}
