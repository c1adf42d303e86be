use expl_compiler::list::List;
use expl_compiler::state::{getvarid, getvarindices, getvartype, varinscope, Compiler};
use expl_compiler::types::{ASTError, ASTExprType, ASTNode, ASTNodeType, PrimitiveType, STDLibFunction, VarNode};

fn int_t() -> ASTExprType {
    ASTExprType::Primitive(PrimitiveType::Int)
}

fn var(name: &str) -> ASTNode {
    ASTNode::VAR {
        name: name.to_string(),
        array_access: List::Nil,
        dot_field_access: Box::new(ASTNode::Void),
        arrow_field_access: Box::new(ASTNode::Void),
    }
}

fn binary(op: ASTNodeType, lhs: ASTNode, rhs: ASTNode) -> ASTNode {
    ASTNode::BinaryNode { op, exprtype: None, lhs: Box::new(lhs), rhs: Box::new(rhs) }
}

fn global(name: &str, t: ASTExprType, dims: Vec<usize>) -> VarNode {
    VarNode { varname: name.to_string(), vartype: t, varindices: List::from_vec(dims) }
}

#[test]
fn expression_types_are_kept() {
    let env = Compiler::new();
    let mut n = binary(ASTNodeType::Plus, ASTNode::INT(1), ASTNode::INT(2));
    assert!(matches!(n.getexprtype(&env), Ok(Some(ASTExprType::Primitive(PrimitiveType::Int)))));
    assert!(matches!(n, ASTNode::BinaryNode { exprtype: Some(ASTExprType::Primitive(PrimitiveType::Int)), .. }));
    assert!(matches!(n.getexprtype(&env), Ok(Some(ASTExprType::Primitive(PrimitiveType::Int)))));
    let mut c = binary(ASTNodeType::Gt, ASTNode::INT(1), ASTNode::INT(2));
    assert!(matches!(c.getexprtype(&env), Ok(Some(ASTExprType::Primitive(PrimitiveType::Bool)))));
    let mut s = ASTNode::STR("\"a\"".to_string());
    assert!(matches!(s.getexprtype(&env), Ok(Some(ASTExprType::Primitive(PrimitiveType::String)))));
}

#[test]
fn globals_once_installed() {
    let mut env = Compiler::new();
    assert_eq!(global("arr", int_t(), vec![3, 4]).install_to_gst(&mut env), Ok(()));
    let name = "arr".to_string();
    assert!(matches!(getvartype(&name, &env), Some(ASTExprType::Pointer(_))));
    assert_eq!(getvartype(&name, &env).unwrap().depth(), 2);
    assert_eq!(getvarid(&name, &env), Some(0));
    assert_eq!(getvarindices(&name, &env), Some(List::from_vec(vec![3, 4])));
    assert_eq!(varinscope(&name, &env), Ok(()));
    assert_eq!(env.var_id, 12);
    assert_eq!(global("n", int_t(), vec![]).install_to_gst(&mut env), Ok(()));
    assert_eq!(getvarid(&"n".to_string(), &env), Some(12));
    assert_eq!(
        global("arr", int_t(), vec![]).install_to_gst(&mut env),
        Err("Global symbol [arr] is already declared.".to_string())
    );
    assert_eq!(
        global("int", int_t(), vec![]).install_to_gst(&mut env),
        Err("Name [int]  exists as a user defined type and cannot be used to declare a global variable.".to_string())
    );
}

#[test]
fn names_in_scope() {
    let env = Compiler::new();
    assert_eq!(varinscope(&"x".to_string(), &env), Err("Symbol [x] is not declared.".to_string()));
    assert_eq!(varinscope(&"write".to_string(), &env), Err("Symbol [write] declared as a function.".to_string()));
    assert!(getvartype(&"x".to_string(), &env).is_none());
    assert!(getvarid(&"x".to_string(), &env).is_none());
}

#[test]
fn statement_checks() {
    let mut env = Compiler::new();
    let mut b = ASTNode::BreakNode;
    assert_eq!(b.validate(&mut env), Err("Break statement must be used inside a while loop.".to_string()));
    let mut c = ASTNode::ContinueNode;
    assert_eq!(c.validate(&mut env), Err("Continue statement must be used inside a while loop.".to_string()));
    let mut u = var("y");
    assert_eq!(u.validate(&mut env), Err("Symbol [y] is not declared.".to_string()));
    assert_eq!(global("a", int_t(), vec![]).install_to_gst(&mut env), Ok(()));
    let mut ok = binary(ASTNodeType::Equals, var("a"), ASTNode::INT(3));
    assert_eq!(ok.validate(&mut env), Ok(()));
    let mut bad = binary(ASTNodeType::Equals, var("a"), ASTNode::STR("\"s\"".to_string()));
    assert_eq!(bad.validate(&mut env), Err("Assignment of invalid type.".to_string()));
}

#[test]
fn default_globals_are_the_builtins() {
    let gst = expl_compiler::state::GlobalSymbolTable::default();
    let mut names = Vec::new();
    let mut cur = &gst.table.entries;
    while let List::Cons(e, rest) = cur {
        names.push(e.0.clone());
        cur = rest;
    }
    names.sort();
    assert_eq!(names, vec!["alloc", "free", "initialize", "read", "syscall", "write"]);
}

#[test]
fn parameters_sit_below_the_frame() {
    let mut env = Compiler::new();
    let mut params = List::from_vec(vec![global("a", int_t(), vec![]), global("b", int_t(), vec![])]);
    assert_eq!(expl_compiler::state::__lst_install_params(&mut params, &mut env), Ok(()));
    assert_eq!(getvarid(&"b".to_string(), &env), Some(-3));
    assert_eq!(getvarid(&"a".to_string(), &env), Some(-4));
}

#[test]
fn failed_checks_leave_the_node() {
    let mut env = Compiler::new();
    let mut call = ASTNode::StdFuncCallNode { func: STDLibFunction::Syscall, arglist: List::from_vec(vec![ASTNode::INT(1)]) };
    assert_eq!(call.validate(&mut env), Err("[Syscall] system call expects 5 arguments. ".to_string()));
    match &call {
        ASTNode::StdFuncCallNode { func: STDLibFunction::Syscall, arglist: List::Cons(a, rest) } => {
            assert!(matches!(**a, ASTNode::INT(1)));
            assert!(matches!(**rest, List::Nil));
        },
        _ => panic!("the call was not kept"),
    }
    let mut cmp = binary(ASTNodeType::Gt, ASTNode::INT(1), ASTNode::STR("a".to_string()));
    assert_eq!(cmp.validate(&mut env), Err("Boolean operator got invalid types.".to_string()));
    match &cmp {
        ASTNode::BinaryNode { op: ASTNodeType::Gt, exprtype: Some(ASTExprType::Error), lhs, rhs } => {
            assert!(matches!(**lhs, ASTNode::INT(1)));
            assert!(matches!(&**rhs, ASTNode::STR(s) if s == "a"));
        },
        _ => panic!("the comparison was not annotated"),
    }
    let bad = ASTNode::ErrorNode { err: ASTError::TypeError("no type".to_string()) };
    let mut sum = binary(ASTNodeType::Plus, binary(ASTNodeType::Plus, ASTNode::INT(1), ASTNode::INT(2)), bad);
    assert!(matches!(sum.getexprtype(&env), Err(_)));
    match &sum {
        ASTNode::BinaryNode { exprtype: None, lhs, rhs, .. } => {
            assert!(matches!(**lhs, ASTNode::BinaryNode { exprtype: Some(ASTExprType::Primitive(PrimitiveType::Int)), .. }));
            assert!(matches!(**rhs, ASTNode::ErrorNode { .. }));
        },
        _ => panic!("the sum was not kept"),
    }
}

#[test]
fn scope_lookups_agree() {
    let mut env = Compiler::new();
    assert_eq!(global("g", int_t(), vec![2]).install_to_gst(&mut env), Ok(()));
    for name in ["g", "missing", "write"] {
        let n = name.to_string();
        let in_scope = varinscope(&n, &env).is_ok();
        assert_eq!(getvarindices(&n, &env).is_some(), in_scope);
        assert_eq!(getvarid(&n, &env).is_some(), in_scope);
    }
    assert!(varinscope(&"g".to_string(), &env).is_ok());
}
