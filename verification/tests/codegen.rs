use expl_compiler::codegen::{code_gen, free_reg, get_function_label, get_reg, CodeGen};
use expl_compiler::list::{List, SymTable};
use expl_compiler::state::{install_func_to_gst, Compiler};
use expl_compiler::types::{ASTError, ASTExprType, ASTNode, ASTNodeType, LSymbol, PrimitiveType};

const HEADER_MAIN0: &str =
    "0\n2056\n0\n0\n0\n0\n0\n0\nBRKP\nMOV SP, 4095\nADD SP, 0\nMOV BP, SP\nADD SP, 1\nCALL L0\nSUB SP, 1\nPUSH R0\nINT 10";

fn int_node(v: i64) -> ASTNode {
    ASTNode::INT(v)
}

fn var(name: &str) -> ASTNode {
    ASTNode::VAR {
        name: name.to_string(),
        array_access: List::Nil,
        dot_field_access: Box::new(ASTNode::Void),
        arrow_field_access: Box::new(ASTNode::Void),
    }
}

fn binary(op: ASTNodeType, lhs: ASTNode, rhs: ASTNode) -> ASTNode {
    ASTNode::BinaryNode { op, exprtype: None, lhs: Box::new(lhs), rhs: Box::new(rhs) }
}

/// A compiler whose `main` has the locals `names`, at offsets 1, 2, ...
fn env_with_main(names: &[&str]) -> Compiler {
    let mut env = Compiler::new();
    let mut locals: SymTable<LSymbol> = SymTable::new();
    for (i, n) in names.iter().enumerate() {
        locals.insert(
            n.to_string(),
            LSymbol::Var {
                vartype: ASTExprType::Primitive(PrimitiveType::Int),
                varid: (i + 1) as i64,
                varindices: List::Nil,
            },
        );
    }
    env.function_table.insert("main#".to_string(), locals);
    env
}

fn main_node(body: ASTNode) -> ASTNode {
    ASTNode::MainNode { body: Box::new(body) }
}

#[test]
fn registers_lowest_first() {
    let mut g = CodeGen::new(Compiler::new());
    assert_eq!(get_reg(&mut g), 0);
    assert_eq!(get_reg(&mut g), 1);
    assert_eq!(get_reg(&mut g), 2);
    assert_eq!(free_reg(&mut g, 1), 21);
    assert_eq!(get_reg(&mut g), 1);
    assert_eq!(get_reg(&mut g), 3);
}

#[test]
fn registers_run_out_at_21() {
    let mut g = CodeGen::new(Compiler::new());
    for i in 0..21 {
        assert_eq!(get_reg(&mut g), i);
    }
    assert_eq!(get_reg(&mut g), 21);
    assert_eq!(free_reg(&mut g, 25), 21);
    assert_eq!(get_reg(&mut g), 21);
    free_reg(&mut g, 20);
    assert_eq!(get_reg(&mut g), 20);
}

#[test]
fn free_then_take_gives_the_same_register() {
    let mut g = CodeGen::new(Compiler::new());
    let r = get_reg(&mut g);
    let before = g.registers.clone();
    let s = get_reg(&mut g);
    free_reg(&mut g, s);
    assert_eq!(g.registers, before);
    assert_eq!(r, 0);
    assert_eq!(s, 1);
}

#[test]
fn function_labels() {
    let mut env = Compiler::new();
    assert_eq!(get_function_label(&"f".to_string(), &String::new(), &env), 10000);
    let int_t = ASTExprType::Primitive(PrimitiveType::Int);
    assert_eq!(install_func_to_gst("f".to_string(), int_t, &List::Nil, &mut env), Ok(()));
    let int_t = ASTExprType::Primitive(PrimitiveType::Int);
    assert_eq!(install_func_to_gst("g".to_string(), int_t, &List::Nil, &mut env), Ok(()));
    assert_eq!(get_function_label(&"f".to_string(), &String::new(), &env), 0);
    assert_eq!(get_function_label(&"g".to_string(), &String::new(), &env), 1);
    assert_eq!(get_function_label(&"write".to_string(), &String::new(), &env), 0);
    assert_eq!(get_function_label(&"h".to_string(), &String::new(), &env), 10000);
    assert_eq!(env.label_count, 2);
}

#[test]
fn assignment_program() {
    let mut g = CodeGen::new(env_with_main(&["a"]));
    let root = main_node(binary(ASTNodeType::Equals, var("a"), int_node(5)));
    assert_eq!(code_gen(&root, &mut g), Ok(0));
    let expected: Vec<String> = vec![
        HEADER_MAIN0,
        "L0:",
        "PUSH BP\nMOV BP, SP",
        "ADD SP, 1",
        "MOV R0, BP",
        "ADD R0, 1",
        "MOV R1, 5",
        "MOV [R0], R1",
        "PUSH R0\nINT 10",
    ]
    .into_iter()
    .map(|s| s.to_string())
    .collect();
    assert_eq!(g.lines, expected);
    assert_eq!(g.env.label_count, 1);
    assert_eq!(get_function_label(&"main".to_string(), &String::new(), &g.env), 0);
}

#[test]
fn while_break_program() {
    let mut g = CodeGen::new(env_with_main(&[]));
    let cond = binary(ASTNodeType::Lt, int_node(1), int_node(2));
    let root = main_node(ASTNode::WhileNode { expr: Box::new(cond), xdo: Box::new(ASTNode::BreakNode) });
    assert_eq!(code_gen(&root, &mut g), Ok(0));
    let expected: Vec<String> = vec![
        HEADER_MAIN0,
        "L0:",
        "PUSH BP\nMOV BP, SP",
        "ADD SP, 0",
        "L1:",
        "MOV R0, 1",
        "MOV R1, 2",
        "LT R0, R1",
        "JZ R0, L2",
        "JMP L2",
        "JMP L1",
        "L2:",
        "PUSH R0\nINT 10",
    ]
    .into_iter()
    .map(|s| s.to_string())
    .collect();
    assert_eq!(g.lines, expected);
    assert_eq!(g.env.label_count, 3);
    assert!(g.env.while_tracker.is_empty());
}

#[test]
fn write_program() {
    let mut g = CodeGen::new(env_with_main(&["x"]));
    let write = ASTNode::UnaryNode {
        op: ASTNodeType::Write,
        exprtype: None,
        ptr: Box::new(binary(ASTNodeType::Plus, var("x"), int_node(7))),
        depth: None,
    };
    assert_eq!(code_gen(&main_node(write), &mut g), Ok(0));
    let expected: Vec<String> = vec![
        HEADER_MAIN0,
        "L0:",
        "PUSH BP\nMOV BP, SP",
        "ADD SP, 1",
        "MOV R0, \"Write\"",
        "PUSH R0",
        "MOV R0, -2",
        "PUSH R0",
        "MOV R0, BP",
        "ADD R0, 1",
        "MOV R0, [R0]",
        "MOV R1, 7",
        "ADD R0, R1",
        "PUSH R0",
        "ADD SP, 2",
        "CALL 0",
        "POP R0",
        "SUB SP, 4",
        "PUSH R0\nINT 10",
    ]
    .into_iter()
    .map(|s| s.to_string())
    .collect();
    assert_eq!(g.lines, expected);
}

#[test]
fn if_else_program() {
    let mut g = CodeGen::new(env_with_main(&["a"]));
    let cond = binary(ASTNodeType::Ee, var("a"), int_node(0));
    let xif = binary(ASTNodeType::Equals, var("a"), int_node(1));
    let xelse = ASTNode::BreakpointNode;
    let root = main_node(ASTNode::IfElseNode { expr: Box::new(cond), xif: Box::new(xif), xelse: Box::new(xelse) });
    assert_eq!(code_gen(&root, &mut g), Ok(0));
    let expected: Vec<String> = vec![
        HEADER_MAIN0,
        "L0:",
        "PUSH BP\nMOV BP, SP",
        "ADD SP, 1",
        "MOV R0, BP",
        "ADD R0, 1",
        "MOV R0, [R0]",
        "MOV R1, 0",
        "EQ R0, R1",
        "JZ R0, L1",
        "MOV R0, BP",
        "ADD R0, 1",
        "MOV R1, 1",
        "MOV [R0], R1",
        "JMP L2",
        "L1:",
        "BRKP",
        "L2:",
        "PUSH R0\nINT 10",
    ]
    .into_iter()
    .map(|s| s.to_string())
    .collect();
    assert_eq!(g.lines, expected);
}

#[test]
fn error_node_stops_generation() {
    let mut g = CodeGen::new(env_with_main(&[]));
    let root = main_node(ASTNode::ErrorNode { err: ASTError::TypeError("bad type".to_string()) });
    assert_eq!(code_gen(&root, &mut g), Err("bad type".to_string()));
}

#[test]
fn live_registers_survive_a_call() {
    let mut env = env_with_main(&["a"]);
    let int_t = ASTExprType::Primitive(PrimitiveType::Int);
    assert_eq!(install_func_to_gst("g".to_string(), int_t, &List::Nil, &mut env), Ok(()));
    let call = ASTNode::FuncCallNode { fname: "g".to_string(), arglist: List::Nil };
    let root = main_node(binary(ASTNodeType::Equals, var("a"), binary(ASTNodeType::Plus, int_node(1), call)));
    let mut g = CodeGen::new(env);
    assert_eq!(code_gen(&root, &mut g), Ok(0));
    let header = HEADER_MAIN0.replace("CALL L0", "CALL L1");
    let expected: Vec<String> = vec![
        header.as_str(),
        "L1:",
        "PUSH BP\nMOV BP, SP",
        "ADD SP, 1",
        "MOV R0, BP",
        "ADD R0, 1",
        "MOV R1, 1",
        "PUSH R0",
        "PUSH R1",
        "ADD SP, 1",
        "CALL L0",
        "POP R2",
        "SUB SP, 0",
        "POP R1",
        "POP R0",
        "ADD R1, R2",
        "MOV [R0], R1",
        "PUSH R0\nINT 10",
    ]
    .into_iter()
    .map(|s| s.to_string())
    .collect();
    assert_eq!(g.lines, expected);
    assert_eq!(get_function_label(&"main".to_string(), &String::new(), &g.env), 1);
}

#[test]
fn frame_covers_array_locals() {
    let mut env = Compiler::new();
    let mut locals: SymTable<LSymbol> = SymTable::new();
    locals.insert(
        "arr".to_string(),
        LSymbol::Var { vartype: ASTExprType::Primitive(PrimitiveType::Int), varid: 1, varindices: List::from_vec(vec![3]) },
    );
    locals.insert(
        "p".to_string(),
        LSymbol::Var { vartype: ASTExprType::Primitive(PrimitiveType::Int), varid: -3, varindices: List::Nil },
    );
    env.function_table.insert("main#".to_string(), locals);
    let mut g = CodeGen::new(env);
    assert_eq!(code_gen(&main_node(ASTNode::Void), &mut g), Ok(0));
    assert_eq!(g.lines[3], "ADD SP, 3");
}
