//! Typing of expressions and the semantic checks on statements.
use vstd::prelude::*;
use crate::list::{List, SymTable, DeepClone};
use crate::parserlib::{TypeTable, wrap_name};
use crate::state::{Compiler, getvartype, getvarindices, varinscope};
use crate::strs::{Out, matches_out, owned, cat, dec, usize_to_string};
use crate::types::{
    ASTError, ASTExprType, ASTNode, ASTNodeType, CSymbol, GSymbol, PrimitiveType, STDLibFunction,
    VarNode, clone_ty, clone_nodes, ty_eq, type_equal, is_prim, is_primitive,
};

verus! {

/// `t` with `n` pointer levels removed, when it has that many.
pub open spec fn deref_n(t: ASTExprType, n: nat) -> Option<ASTExprType>
    decreases n,
{
    if n == 0 {
        Some(t)
    } else {
        match t {
            ASTExprType::Pointer(p) => deref_n(*p, (n - 1) as nat),
            _ => None,
        }
    }
}

/// `a` and `b` have as many pointer levels.
pub open spec fn same_depth(a: ASTExprType, b: ASTExprType) -> bool {
    a.depth_spec() == b.depth_spec()
}

/// The type of a binary operation on operands of types `l` and `r`.
pub open spec fn binary_type(op: ASTNodeType, l: ASTExprType, r: ASTExprType) -> Option<ASTExprType> {
    let int_t = ASTExprType::Primitive(PrimitiveType::Int);
    let boolean = ASTExprType::Primitive(PrimitiveType::Bool);
    match op {
        ASTNodeType::Gt | ASTNodeType::Lt | ASTNodeType::Gte | ASTNodeType::Lte => if is_prim(
            l,
            PrimitiveType::Int,
        ) && is_prim(r, PrimitiveType::Int) {
            Some(boolean)
        } else {
            Some(ASTExprType::Error)
        },
        ASTNodeType::Ee | ASTNodeType::Ne => if is_prim(l, PrimitiveType::Null) && r is Pointer {
            Some(boolean)
        } else if l is Pointer && is_prim(r, PrimitiveType::Null) {
            Some(boolean)
        } else if is_prim(l, PrimitiveType::Int) && is_prim(r, PrimitiveType::Int) {
            Some(boolean)
        } else if is_prim(l, PrimitiveType::String) && is_prim(r, PrimitiveType::String) {
            Some(boolean)
        } else if l is Pointer && r is Pointer {
            let p1 = l->Pointer_0;
            let p2 = r->Pointer_0;
            if same_depth(*p1, *p2) && ty_eq(p1.base_spec(), p2.base_spec()) {
                Some(*p1)
            } else {
                Some(ASTExprType::Error)
            }
        } else {
            None
        },
        ASTNodeType::Mod | ASTNodeType::Star | ASTNodeType::Slash => if is_prim(
            l,
            PrimitiveType::Int,
        ) && is_prim(r, PrimitiveType::Int) {
            Some(int_t)
        } else {
            Some(ASTExprType::Error)
        },
        _ => if is_prim(l, PrimitiveType::Int) && is_prim(r, PrimitiveType::Int) {
            Some(int_t)
        } else if is_prim(l, PrimitiveType::Int) && r is Pointer {
            Some(*r->Pointer_0)
        } else if l is Pointer && is_prim(r, PrimitiveType::Int) {
            Some(*l->Pointer_0)
        } else {
            Some(ASTExprType::Error)
        },
    }
}

/// Operators whose type `binary_type` gives and whose nodes keep it.
pub open spec fn is_typed_binary(op: ASTNodeType) -> bool {
    match op {
        ASTNodeType::Gt | ASTNodeType::Lt | ASTNodeType::Gte | ASTNodeType::Lte | ASTNodeType::Ee
        | ASTNodeType::Ne | ASTNodeType::Mod | ASTNodeType::Star | ASTNodeType::Slash
        | ASTNodeType::Minus | ASTNodeType::Plus => true,
        _ => false,
    }
}

pub open spec fn void_t() -> Option<ASTExprType> {
    Some(ASTExprType::Primitive(PrimitiveType::Void))
}

/// The type of an expression node, and the node after the types computed on
/// the way are kept in its operator nodes.
pub open spec fn node_type(env: Compiler, n: ASTNode) -> (Out<Option<ASTExprType>>, ASTNode)
    decreases n, 3int,
{
    match n {
        ASTNode::StdFuncCallNode { func, arglist } => (
            match func {
                STDLibFunction::Heapset | STDLibFunction::Free | STDLibFunction::Alloc
                | STDLibFunction::Getaddr => Out::Value(Some(ASTExprType::Primitive(PrimitiveType::Int))),
                STDLibFunction::New => match arglist {
                    List::Cons(a, _) => match *a {
                        ASTNode::VAR { name, .. } => match env.type_table.lookup(name@) {
                            Some(p) => Out::Value(Some(ASTExprType::Pointer(Box::new(p)))),
                            None => Out::Value(None),
                        },
                        _ => Out::Crash,
                    },
                    List::Nil => Out::Crash,
                },
                _ => Out::Value(void_t()),
            },
            n,
        ),
        ASTNode::ErrorNode { err } => match err {
            ASTError::TypeError(s) => (Out::Fail(s@), n),
        },
        ASTNode::Null => (Out::Value(Some(ASTExprType::Primitive(PrimitiveType::Null))), n),
        ASTNode::STR(_) => (Out::Value(Some(ASTExprType::Primitive(PrimitiveType::String))), n),
        ASTNode::INT(_) => (Out::Value(Some(ASTExprType::Primitive(PrimitiveType::Int))), n),
        ASTNode::VAR { name, array_access, .. } => (
            match env.var_type_spec(name@) {
                Out::Value(Some(vt)) => match deref_n(vt, array_access.len()) {
                    Some(t) => chain_type(env, t, n),
                    None => Out::Crash,
                },
                Out::Value(None) => Out::Value(None),
                Out::Fail(e) => Out::Fail(e),
                Out::Crash => Out::Crash,
            },
            n,
        ),
        ASTNode::UnaryNode { op, exprtype, ptr, depth } => match op {
            ASTNodeType::Deref => if exprtype is None {
                let (o, p2) = node_type(env, *ptr);
                match o {
                    Out::Value(Some(t)) => if depth is None {
                        (Out::Crash, n)
                    } else {
                        match deref_n(t, depth->0 as nat) {
                            Some(t2) => (
                                Out::Value(Some(t2)),
                                ASTNode::UnaryNode { op, exprtype: Some(t2), ptr: Box::new(p2), depth },
                            ),
                            None => (Out::Crash, n),
                        }
                    },
                    Out::Value(None) => (Out::Crash, n),
                    Out::Fail(e) => (Out::Fail(e), ASTNode::UnaryNode { op, exprtype, ptr: Box::new(p2), depth }),
                    Out::Crash => (Out::Crash, n),
                }
            } else {
                (Out::Value(exprtype), n)
            },
            ASTNodeType::Ref => if exprtype is None {
                let (o, p2) = node_type(env, *ptr);
                match o {
                    Out::Value(Some(b)) => (
                        Out::Value(b.refr_spec()),
                        ASTNode::UnaryNode { op, exprtype: b.refr_spec(), ptr: Box::new(p2), depth },
                    ),
                    Out::Value(None) => (
                        Out::Value(None),
                        ASTNode::UnaryNode { op, exprtype, ptr: Box::new(p2), depth },
                    ),
                    Out::Fail(e) => (Out::Fail(e), ASTNode::UnaryNode { op, exprtype, ptr: Box::new(p2), depth }),
                    Out::Crash => (Out::Crash, n),
                }
            } else {
                (Out::Value(exprtype), n)
            },
            _ => (Out::Value(void_t()), n),
        },
        ASTNode::BinaryNode { op, exprtype, lhs, rhs } => if is_typed_binary(op) {
            if exprtype is None {
                let (ol, l2) = node_type(env, *lhs);
                match ol {
                    Out::Value(Some(lt)) => {
                        let (or, r2) = node_type(env, *rhs);
                        match or {
                            Out::Value(Some(rt)) => (
                                Out::Value(binary_type(op, lt, rt)),
                                ASTNode::BinaryNode {
                                    op,
                                    exprtype: binary_type(op, lt, rt),
                                    lhs: Box::new(l2),
                                    rhs: Box::new(r2),
                                },
                            ),
                            Out::Value(None) => (
                                Out::Value(None),
                                ASTNode::BinaryNode { op, exprtype, lhs: Box::new(l2), rhs: Box::new(r2) },
                            ),
                            Out::Fail(e) => (Out::Fail(e), ASTNode::BinaryNode { op, exprtype, lhs: Box::new(l2), rhs: Box::new(r2) }),
                            Out::Crash => (Out::Crash, n),
                        }
                    },
                    Out::Value(None) => (
                        Out::Value(None),
                        ASTNode::BinaryNode { op, exprtype, lhs: Box::new(l2), rhs },
                    ),
                    Out::Fail(e) => (Out::Fail(e), ASTNode::BinaryNode { op, exprtype, lhs: Box::new(l2), rhs }),
                    Out::Crash => (Out::Crash, n),
                }
            } else {
                (Out::Value(exprtype), n)
            }
        } else {
            (Out::Value(void_t()), n)
        },
        ASTNode::FuncCallNode { fname, .. } => (
            match env.gst.table.lookup(fname@) {
                Some(GSymbol::Func { ret_type, .. }) => Out::Value(Some(ret_type)),
                _ => Out::Value(None),
            },
            n,
        ),
        _ => (Out::Value(None), n),
    }
}

/// The type reached by following the member accesses of the variable node
/// `cur` from type `vtype`: a `.` access on `vtype` itself, then a `->`
/// access through the pointer that results.
pub open spec fn chain_type(env: Compiler, vtype: ASTExprType, cur: ASTNode) -> Out<Option<ASTExprType>>
    decreases cur, 1int,
{
    match cur {
        ASTNode::VAR { dot_field_access: dot, arrow_field_access: arrow, .. } => if *dot is Void
            && *arrow is Void {
            Out::Value(Some(vtype))
        } else {
            match *dot {
                ASTNode::VAR { name: nn, array_access: aa, arrow_field_access: a2, .. } => if !(
                aa is Nil) {
                    Out::Fail("Arrays inside structs are not implemented yet."@)
                } else {
                    match vtype.field_id_spec(nn@) {
                        Out::Fail(e) => Out::Fail(e),
                        Out::Crash => Out::Crash,
                        Out::Value(_) => match vtype.field_type_spec(nn@, env.type_table) {
                            Out::Value(t) => arrow_type(env, t, *a2),
                            _ => Out::Crash,
                        },
                    }
                },
                ASTNode::FuncCallNode { fname, arglist } => match method_type(
                    env,
                    vtype,
                    fname@,
                    arglist,
                ) {
                    Out::Value(t) => Out::Value(Some(t)),
                    _ => Out::Crash,
                },
                ASTNode::Void => arrow_type(env, vtype, *arrow),
                _ => Out::Crash,
            }
        },
        _ => Out::Crash,
    }
}

/// The type reached by the `->` access `arrow` on a value of type `vtype`,
/// and by the accesses that follow it.
pub open spec fn arrow_type(env: Compiler, vtype: ASTExprType, arrow: ASTNode) -> Out<Option<ASTExprType>>
    decreases arrow, 2int,
{
    match arrow {
        ASTNode::VAR { name: nn, array_access: aa, .. } => if !(aa is Nil) {
            Out::Fail("Arrays inside structs are not implemented yet."@)
        } else {
            match vtype {
                ASTExprType::Pointer(et) => match et.field_id_spec(nn@) {
                    Out::Fail(e) => Out::Fail(e),
                    Out::Crash => Out::Crash,
                    Out::Value(_) => match et.field_type_spec(nn@, env.type_table) {
                        Out::Value(t) => chain_type(env, t, arrow),
                        _ => Out::Crash,
                    },
                },
                _ => Out::Fail("Arrow operator expects a variable of struct_t*"@),
            }
        },
        ASTNode::FuncCallNode { fname, arglist } => match vtype {
            ASTExprType::Pointer(et) => match method_type(env, *et, fname@, arglist) {
                Out::Value(t) => Out::Value(Some(t)),
                _ => Out::Crash,
            },
            _ => Out::Fail("Arrow operator expects a variable of struct_t*"@),
        },
        _ => Out::Crash,
    }
}

/// The return type of calling the method `mname` of the class type `t` with
/// `args`.
pub open spec fn method_type(env: Compiler, t: ASTExprType, mname: Seq<char>, args: List<ASTNode>) -> Out<
    ASTExprType,
>
    decreases args, 2int,
{
    match t {
        ASTExprType::Class(c) => match c.symbol_table.table.lookup(mname) {
            Some(CSymbol::Func { ret_type, paramlist, .. }) => match args_match(
                env,
                mname,
                args,
                paramlist,
            ).0 {
                Out::Value(_) => Out::Value(ret_type),
                Out::Fail(e) => Out::Fail(e),
                Out::Crash => Out::Crash,
            },
            Some(CSymbol::Var { .. }) => Out::Fail("["@ + mname + "] is declared as a field."@),
            None => Out::Fail("Method not found."@),
        },
        _ => Out::Fail("Methods are only allowed inside classes."@),
    }
}

/// Whether the arguments of a call of `fname` have the parameters' types,
/// and the arguments after their types are kept.
pub open spec fn args_match(env: Compiler, fname: Seq<char>, args: List<ASTNode>, params: List<VarNode>) -> (
    Out<()>,
    List<ASTNode>,
)
    decreases args, 1int,
{
    if args.len() != params.len() {
        (
            Out::Fail("Function call arguments and declaration arguments dont match in length."@),
            args,
        )
    } else {
        args_match_from(env, fname, args, params, 1)
    }
}

pub open spec fn msg_arg_type(fname: Seq<char>, pos: nat) -> Seq<char> {
    "Function ["@ + fname + "] call arguments and declaration arguments dont match in type at ["@
        + dec(pos) + "] position."@
}

/// `args_match` on arguments of equal count, the first at position `pos`.
pub open spec fn args_match_from(
    env: Compiler,
    fname: Seq<char>,
    args: List<ASTNode>,
    params: List<VarNode>,
    pos: nat,
) -> (Out<()>, List<ASTNode>)
    decreases args, 0int,
{
    match args {
        List::Cons(a, ar) => match params {
            List::Cons(p, pr) => {
                let (o, a2) = node_type(env, *a);
                match o {
                    Out::Value(Some(t)) => if !ty_eq(t, p.vartype) {
                        (Out::Fail(msg_arg_type(fname, pos)), List::Cons(Box::new(a2), ar))
                    } else if pos >= i32::MAX {
                        (Out::Crash, args)
                    } else {
                        let (o2, ar2) = args_match_from(env, fname, *ar, *pr, pos + 1);
                        (o2, List::Cons(Box::new(a2), Box::new(ar2)))
                    },
                    Out::Value(None) => (Out::Crash, args),
                    Out::Fail(e) => (Out::Fail(e), List::Cons(Box::new(a2), ar)),
                    Out::Crash => (Out::Crash, args),
                }
            },
            List::Nil => (Out::Value(()), args),
        },
        List::Nil => (Out::Value(()), args),
    }
}

} // verus!

verus! {

fn deref_by_list(t: ASTExprType, l: &List<ASTNode>) -> (r: ASTExprType)
    requires
        deref_n(t, l.len()) is Some,
    ensures
        r == deref_n(t, l.len())->0,
    decreases l,
{
    match l {
        List::Nil => t,
        List::Cons(_, rest) => match t {
            ASTExprType::Pointer(p) => deref_by_list(*p, &**rest),
            _ => t,
        },
    }
}

fn deref_count(t: ASTExprType, k: usize) -> (r: ASTExprType)
    requires
        deref_n(t, k as nat) is Some,
    ensures
        r == deref_n(t, k as nat)->0,
    decreases k,
{
    if k == 0 {
        t
    } else {
        match t {
            ASTExprType::Pointer(p) => deref_count(*p, k - 1),
            _ => t,
        }
    }
}

fn same_depth_exec(a: &ASTExprType, b: &ASTExprType) -> (r: bool)
    ensures
        r == same_depth(*a, *b),
    decreases a,
{
    match a {
        ASTExprType::Pointer(x) => match b {
            ASTExprType::Pointer(y) => same_depth_exec(&**x, &**y),
            _ => false,
        },
        _ => match b {
            ASTExprType::Pointer(_) => false,
            _ => true,
        },
    }
}

fn binary_type_exec(op: ASTNodeType, l: &ASTExprType, r: &ASTExprType) -> (t: Option<ASTExprType>)
    ensures
        t == binary_type(op, *l, *r),
{
    let int_t = ASTExprType::Primitive(PrimitiveType::Int);
    let bool_t = ASTExprType::Primitive(PrimitiveType::Bool);
    match op {
        ASTNodeType::Gt | ASTNodeType::Lt | ASTNodeType::Gte | ASTNodeType::Lte => {
            if is_primitive(l, PrimitiveType::Int) && is_primitive(r, PrimitiveType::Int) {
                Some(bool_t)
            } else {
                Some(ASTExprType::Error)
            }
        },
        ASTNodeType::Ee | ASTNodeType::Ne => {
            if is_primitive(l, PrimitiveType::Null) && r.derefr().is_some() {
                Some(bool_t)
            } else if l.derefr().is_some() && is_primitive(r, PrimitiveType::Null) {
                Some(bool_t)
            } else if is_primitive(l, PrimitiveType::Int) && is_primitive(r, PrimitiveType::Int) {
                Some(bool_t)
            } else if is_primitive(l, PrimitiveType::String) && is_primitive(
                r,
                PrimitiveType::String,
            ) {
                Some(bool_t)
            } else {
                match l {
                    ASTExprType::Pointer(p1) => match r {
                        ASTExprType::Pointer(p2) => {
                            if same_depth_exec(&**p1, &**p2) && type_equal(
                                &p1.get_base_type(),
                                &p2.get_base_type(),
                            ) {
                                Some(clone_ty(&**p1))
                            } else {
                                Some(ASTExprType::Error)
                            }
                        },
                        _ => None,
                    },
                    _ => None,
                }
            }
        },
        ASTNodeType::Mod | ASTNodeType::Star | ASTNodeType::Slash => {
            if is_primitive(l, PrimitiveType::Int) && is_primitive(r, PrimitiveType::Int) {
                Some(int_t)
            } else {
                Some(ASTExprType::Error)
            }
        },
        _ => {
            if is_primitive(l, PrimitiveType::Int) && is_primitive(r, PrimitiveType::Int) {
                Some(int_t)
            } else if is_primitive(l, PrimitiveType::Int) && r.derefr().is_some() {
                r.derefr()
            } else if l.derefr().is_some() && is_primitive(r, PrimitiveType::Int) {
                l.derefr()
            } else {
                Some(ASTExprType::Error)
            }
        },
    }
}

fn is_typed_binary_exec(op: ASTNodeType) -> (r: bool)
    ensures
        r == is_typed_binary(op),
{
    match op {
        ASTNodeType::Gt | ASTNodeType::Lt | ASTNodeType::Gte | ASTNodeType::Lte | ASTNodeType::Ee
        | ASTNodeType::Ne | ASTNodeType::Mod | ASTNodeType::Star | ASTNodeType::Slash
        | ASTNodeType::Minus | ASTNodeType::Plus => true,
        _ => false,
    }
}

fn node_type_exec(n: ASTNode, env: &Compiler) -> (r: (Result<Option<ASTExprType>, String>, ASTNode))
    requires
        node_type(*env, n).0.defined(),
    ensures
        matches_out(r.0, node_type(*env, n).0),
        r.1 == node_type(*env, n).1,
    decreases n, 3int,
{
    match n {
        ASTNode::StdFuncCallNode { func, arglist } => {
            let t = match func {
                STDLibFunction::Heapset | STDLibFunction::Free | STDLibFunction::Alloc
                | STDLibFunction::Getaddr => Some(ASTExprType::Primitive(PrimitiveType::Int)),
                STDLibFunction::New => match &arglist {
                    List::Cons(a, _) => match &**a {
                        ASTNode::VAR { name, .. } => match env.type_table.table.get(name) {
                            Some(p) => Some(ASTExprType::Pointer(Box::new(clone_ty(p)))),
                            None => None,
                        },
                        _ => None,
                    },
                    List::Nil => None,
                },
                _ => Some(ASTExprType::Primitive(PrimitiveType::Void)),
            };
            (Ok(t), ASTNode::StdFuncCallNode { func, arglist })
        },
        ASTNode::ErrorNode { err } => match err {
            ASTError::TypeError(s) => {
                let e = s.clone();
                (Err(e), ASTNode::ErrorNode { err: ASTError::TypeError(s) })
            },
        },
        ASTNode::Null => (Ok(Some(ASTExprType::Primitive(PrimitiveType::Null))), ASTNode::Null),
        ASTNode::STR(s) => (Ok(Some(ASTExprType::Primitive(PrimitiveType::String))), ASTNode::STR(s)),
        ASTNode::INT(i) => (Ok(Some(ASTExprType::Primitive(PrimitiveType::Int))), ASTNode::INT(i)),
        ASTNode::VAR { .. } => {
            let r = match &n {
                ASTNode::VAR { name, array_access, .. } => {
                    match getvartype(name, env) {
                        Some(vt) => {
                            let t = deref_by_list(vt, array_access);
                            chain_exec(env, t, &n)
                        },
                        None => Ok(None),
                    }
                },
                _ => Ok(None),
            };
            (r, n)
        },
        ASTNode::UnaryNode { op, exprtype, ptr, depth } => match op {
            ASTNodeType::Deref => {
                if exprtype.is_none() {
                    let (o, p2) = node_type_exec(*ptr, env);
                    match o {
                        Ok(Some(t)) => {
                            match depth {
                                Some(d) => {
                                    let t2 = deref_count(t, d);
                                    let t3 = clone_ty(&t2);
                                    (
                                        Ok(Some(t2)),
                                        ASTNode::UnaryNode {
                                            op,
                                            exprtype: Some(t3),
                                            ptr: Box::new(p2),
                                            depth,
                                        },
                                    )
                                },
                                None => (Ok(None), ASTNode::Void),
                            }
                        },
                        Ok(None) => (Ok(None), ASTNode::Void),
                        Err(e) => (Err(e), ASTNode::UnaryNode { op, exprtype, ptr: Box::new(p2), depth }),
                    }
                } else {
                    let t = match &exprtype {
                        Some(t) => Some(clone_ty(t)),
                        None => None,
                    };
                    (Ok(t), ASTNode::UnaryNode { op, exprtype, ptr, depth })
                }
            },
            ASTNodeType::Ref => {
                if exprtype.is_none() {
                    let (o, p2) = node_type_exec(*ptr, env);
                    match o {
                        Ok(Some(b)) => {
                            let e1 = b.refr();
                            let e2 = b.refr();
                            (Ok(e2), ASTNode::UnaryNode { op, exprtype: e1, ptr: Box::new(p2), depth })
                        },
                        Ok(None) => (Ok(None), ASTNode::UnaryNode { op, exprtype, ptr: Box::new(p2), depth }),
                        Err(e) => (Err(e), ASTNode::UnaryNode { op, exprtype, ptr: Box::new(p2), depth }),
                    }
                } else {
                    let t = match &exprtype {
                        Some(t) => Some(clone_ty(t)),
                        None => None,
                    };
                    (Ok(t), ASTNode::UnaryNode { op, exprtype, ptr, depth })
                }
            },
            _ => (
                Ok(Some(ASTExprType::Primitive(PrimitiveType::Void))),
                ASTNode::UnaryNode { op, exprtype, ptr, depth },
            ),
        },
        ASTNode::BinaryNode { op, exprtype, lhs, rhs } => {
            if is_typed_binary_exec(op) {
                if exprtype.is_none() {
                    let (ol, l2) = node_type_exec(*lhs, env);
                    match ol {
                        Ok(Some(lt)) => {
                            let (or, r2) = node_type_exec(*rhs, env);
                            match or {
                                Ok(Some(rt)) => {
                                    let t1 = binary_type_exec(op, &lt, &rt);
                                    let t2 = binary_type_exec(op, &lt, &rt);
                                    (
                                        Ok(t1),
                                        ASTNode::BinaryNode {
                                            op,
                                            exprtype: t2,
                                            lhs: Box::new(l2),
                                            rhs: Box::new(r2),
                                        },
                                    )
                                },
                                Ok(None) => (
                                    Ok(None),
                                    ASTNode::BinaryNode {
                                        op,
                                        exprtype,
                                        lhs: Box::new(l2),
                                        rhs: Box::new(r2),
                                    },
                                ),
                                Err(e) => (Err(e), ASTNode::BinaryNode { op, exprtype, lhs: Box::new(l2), rhs: Box::new(r2) }),
                            }
                        },
                        Ok(None) => (Ok(None), ASTNode::BinaryNode { op, exprtype, lhs: Box::new(l2), rhs }),
                        Err(e) => (Err(e), ASTNode::BinaryNode { op, exprtype, lhs: Box::new(l2), rhs }),
                    }
                } else {
                    let t = match &exprtype {
                        Some(t) => Some(clone_ty(t)),
                        None => None,
                    };
                    (Ok(t), ASTNode::BinaryNode { op, exprtype, lhs, rhs })
                }
            } else {
                (
                    Ok(Some(ASTExprType::Primitive(PrimitiveType::Void))),
                    ASTNode::BinaryNode { op, exprtype, lhs, rhs },
                )
            }
        },
        ASTNode::FuncCallNode { fname, arglist } => {
            let t = match env.gst.table.get(&fname) {
                Some(GSymbol::Func { ret_type, .. }) => Some(clone_ty(ret_type)),
                _ => None,
            };
            (Ok(t), ASTNode::FuncCallNode { fname, arglist })
        },
        _ => (Ok(None), n),
    }
}

fn chain_exec(env: &Compiler, vtype: ASTExprType, cur: &ASTNode) -> (r: Result<Option<ASTExprType>, String>)
    requires
        chain_type(*env, vtype, *cur).defined(),
    ensures
        matches_out(r, chain_type(*env, vtype, *cur)),
    decreases *cur, 1int,
{
    match cur {
        ASTNode::VAR { dot_field_access: dot, arrow_field_access: arrow, .. } => {
            if matches!(**dot, ASTNode::Void) && matches!(**arrow, ASTNode::Void) {
                return Ok(Some(vtype));
            }
            match &**dot {
                ASTNode::VAR { name: nn, array_access: aa, arrow_field_access: a2, .. } => {
                    if !aa.is_empty() {
                        return Err(owned("Arrays inside structs are not implemented yet."));
                    }
                    match vtype.get_field_id(nn) {
                        Err(e) => Err(e),
                        Ok(_) => match vtype.get_field_type(nn, &env.type_table) {
                            Ok(t) => arrow_exec(env, t, &**a2),
                            Err(e) => Err(e),
                        },
                    }
                },
                ASTNode::FuncCallNode { fname, arglist } => {
                    match method_exec(env, &vtype, fname, arglist) {
                        Ok(t) => Ok(Some(t)),
                        Err(e) => Err(e),
                    }
                },
                ASTNode::Void => arrow_exec(env, vtype, &**arrow),
                _ => Ok(None),
            }
        },
        _ => Ok(None),
    }
}

fn arrow_exec(env: &Compiler, vtype: ASTExprType, arrow: &ASTNode) -> (r: Result<Option<ASTExprType>, String>)
    requires
        arrow_type(*env, vtype, *arrow).defined(),
    ensures
        matches_out(r, arrow_type(*env, vtype, *arrow)),
    decreases *arrow, 2int,
{
    match arrow {
        ASTNode::VAR { name: nn, array_access: aa, .. } => {
            if !aa.is_empty() {
                return Err(owned("Arrays inside structs are not implemented yet."));
            }
            match vtype {
                ASTExprType::Pointer(et) => match et.get_field_id(nn) {
                    Err(e) => Err(e),
                    Ok(_) => match et.get_field_type(nn, &env.type_table) {
                        Ok(t) => chain_exec(env, t, arrow),
                        Err(e) => Err(e),
                    },
                },
                _ => Err(owned("Arrow operator expects a variable of struct_t*")),
            }
        },
        ASTNode::FuncCallNode { fname, arglist } => match vtype {
            ASTExprType::Pointer(et) => match method_exec(env, &*et, fname, arglist) {
                Ok(t) => Ok(Some(t)),
                Err(e) => Err(e),
            },
            _ => Err(owned("Arrow operator expects a variable of struct_t*")),
        },
        _ => Ok(None),
    }
}

fn method_exec(env: &Compiler, t: &ASTExprType, mname: &String, args: &List<ASTNode>) -> (r: Result<
    ASTExprType,
    String,
>)
    requires
        method_type(*env, *t, mname@, *args).defined(),
    ensures
        matches_out(r, method_type(*env, *t, mname@, *args)),
    decreases *args, 2int,
{
    match t {
        ASTExprType::Class(c) => match c.symbol_table.table.get(mname) {
            Some(CSymbol::Func { ret_type, paramlist, .. }) => {
                let copy = clone_nodes(args);
                let (o, _) = args_exec(env, mname, copy, paramlist);
                match o {
                    Ok(()) => Ok(clone_ty(ret_type)),
                    Err(e) => Err(e),
                }
            },
            Some(CSymbol::Var { .. }) => Err(wrap_name("[", mname, "] is declared as a field.")),
            None => Err(owned("Method not found.")),
        },
        _ => Err(owned("Methods are only allowed inside classes.")),
    }
}

fn same_length<A, B>(a: &List<A>, b: &List<B>) -> (r: bool)
    ensures
        r == (a.len() == b.len()),
    decreases a,
{
    match a {
        List::Nil => b.is_empty(),
        List::Cons(_, ra) => match b {
            List::Nil => false,
            List::Cons(_, rb) => same_length(&**ra, &**rb),
        },
    }
}

fn args_exec(env: &Compiler, fname: &String, args: List<ASTNode>, params: &List<VarNode>) -> (r: (
    Result<(), String>,
    List<ASTNode>,
))
    requires
        args_match(*env, fname@, args, *params).0.defined(),
    ensures
        matches_out(r.0, args_match(*env, fname@, args, *params).0),
        r.1 == args_match(*env, fname@, args, *params).1,
    decreases args, 1int,
{
    if !same_length(&args, params) {
        return (
            Err(owned("Function call arguments and declaration arguments dont match in length.")),
            args,
        );
    }
    args_from_exec(env, fname, args, params, 1)
}

fn args_from_exec(
    env: &Compiler,
    fname: &String,
    args: List<ASTNode>,
    params: &List<VarNode>,
    pos: usize,
) -> (r: (Result<(), String>, List<ASTNode>))
    requires
        args_match_from(*env, fname@, args, *params, pos as nat).0.defined(),
        pos <= i32::MAX,
    ensures
        matches_out(r.0, args_match_from(*env, fname@, args, *params, pos as nat).0),
        r.1 == args_match_from(*env, fname@, args, *params, pos as nat).1,
    decreases args, 0int,
{
    match args {
        List::Cons(a, ar) => match params {
            List::Cons(p, pr) => {
                let (o, a2) = node_type_exec(*a, env);
                match o {
                    Ok(Some(t)) => {
                        if !type_equal(&t, &p.vartype) {
                            let e = cat(
                                cat(
                                    cat(
                                        wrap_name(
                                            "Function [",
                                            fname,
                                            "] call arguments and declaration arguments dont match in type at [",
                                        ),
                                        usize_to_string(pos).as_str(),
                                    ),
                                    "] position.",
                                ),
                                "",
                            );
                            proof {
                                reveal_strlit("");
                                assert(e@ =~= crate::validation::msg_arg_type(fname@, pos as nat));
                            }
                            (Err(e), List::Cons(Box::new(a2), ar))
                        } else {
                            let (o2, ar2) = args_from_exec(env, fname, *ar, &**pr, pos + 1);
                            (o2, List::Cons(Box::new(a2), Box::new(ar2)))
                        }
                    },
                    Ok(None) => (Ok(()), List::Nil),
                    Err(e) => (Err(e), List::Cons(Box::new(a2), ar)),
                }
            },
            List::Nil => (Ok(()), List::Cons(a, ar)),
        },
        List::Nil => (Ok(()), List::Nil),
    }
}

} // verus!

verus! {

impl ASTNode {
    /// The type of this expression, keeping the types computed on the way in
    /// its operator nodes. An `Err` is an error the compiler stops on; the
    /// types computed before it are kept all the same.
    pub fn getexprtype(&mut self, env: &Compiler) -> (r: Result<Option<ASTExprType>, String>)
        requires
            node_type(*env, *old(self)).0.defined(),
        ensures
            matches_out(r, node_type(*env, *old(self)).0),
            *final(self) == node_type(*env, *old(self)).1,
    {
        let mut n = ASTNode::Void;
        std::mem::swap(&mut n, self);
        let (r, n2) = node_type_exec(n, env);
        *self = n2;
        r
    }
}

impl ASTExprType {
    /// The return type of calling the method `mname` of this class type with
    /// `arglist`, whose types must be those of the method's parameters.
    pub fn is_method(&self, mname: &String, arglist: &List<ASTNode>, env: &Compiler) -> (r: Result<
        ASTExprType,
        String,
    >)
        requires
            method_type(*env, *self, mname@, *arglist).defined(),
        ensures
            matches_out(r, method_type(*env, *self, mname@, *arglist)),
    {
        method_exec(env, self, mname, arglist)
    }

    /// Whether calling the method `fname` of this class type with `arglist`
    /// is valid.
    pub open spec fn validate_method_spec(self, env: Compiler, fname: Seq<char>, arglist: List<ASTNode>) -> Out<
        bool,
    > {
        match self {
            ASTExprType::Class(c) => match c.symbol_table.table.lookup(fname) {
                Some(CSymbol::Func { paramlist, .. }) => match args_match(env, fname, arglist, paramlist).0 {
                    Out::Value(_) => Out::Value(true),
                    Out::Fail(e) => Out::Fail(e),
                    Out::Crash => Out::Crash,
                },
                _ => Out::Fail("Variable / Method error."@),
            },
            _ => Out::Fail("Method called to non class type."@),
        }
    }

    pub fn validate_method(&self, fname: &String, arglist: &List<ASTNode>, env: &Compiler) -> (r: Result<
        bool,
        String,
    >)
        requires
            self.validate_method_spec(*env, fname@, *arglist).defined(),
        ensures
            matches_out(r, self.validate_method_spec(*env, fname@, *arglist)),
    {
        match self {
            ASTExprType::Class(c) => match c.symbol_table.table.get(fname) {
                Some(CSymbol::Func { paramlist, .. }) => {
                    let copy = clone_nodes(arglist);
                    let (o, _) = args_exec(env, fname, copy, paramlist);
                    match o {
                        Ok(()) => Ok(true),
                        Err(e) => Err(e),
                    }
                },
                _ => Err(owned("Variable / Method error.")),
            },
            _ => Err(owned("Method called to non class type.")),
        }
    }
}

/// Checks that the arguments of a call of `fname` match the parameters in
/// count and, in order, in type; the types computed are kept in the arguments.
pub fn compare_arglist_paramlist(
    fname: &mut String,
    arglist: &mut List<ASTNode>,
    paramlist: &mut List<VarNode>,
    env: &Compiler,
) -> (r: Result<(), String>)
    requires
        args_match(*env, old(fname)@, *old(arglist), *old(paramlist)).0.defined(),
    ensures
        *final(fname) == *old(fname),
        *final(paramlist) == *old(paramlist),
        matches_out(r, args_match(*env, old(fname)@, *old(arglist), *old(paramlist)).0),
        *final(arglist) == args_match(*env, old(fname)@, *old(arglist), *old(paramlist)).1,
{
    let mut args = List::Nil;
    std::mem::swap(&mut args, arglist);
    let (r, args2) = args_exec(env, fname, args, paramlist);
    *arglist = args2;
    r
}

} // verus!

verus! {

/// `n` copies of `[]`.
pub open spec fn brackets(n: nat) -> Seq<char>
    decreases n,
{
    if n == 0 {
        Seq::empty()
    } else {
        brackets((n - 1) as nat) + "[]"@
    }
}

pub open spec fn msg_bad_index(name: Seq<char>, pos: nat) -> Seq<char> {
    "Invalid type used to index variable ["@ + name + "] at "@ + brackets(pos)
}

pub open spec fn with_flag(env: Compiler, f: bool) -> Compiler {
    Compiler { init_flag: f, ..env }
}

/// The checks of a variable's member accesses held by `holder`, starting from
/// type `t`: each `.` must name a member of a struct or class, each `->` a
/// member of what a pointer points to, and a call must be a valid method call
/// on a class.
pub open spec fn access_check(env: Compiler, name: Seq<char>, t: ASTExprType, holder: ASTNode) -> Out<()>
    decreases holder,
{
    match holder {
        ASTNode::VAR { dot_field_access: dot, arrow_field_access: arrow, .. } => if *dot is Void
            && *arrow is Void {
            Out::Value(())
        } else {
            match *dot {
                ASTNode::VAR { name: nn, array_access: aa, .. } => if !(aa is Nil) {
                    Out::Fail("Arrays inside struct is not implemented yet!"@)
                } else {
                    match t.field_id_spec(nn@) {
                        Out::Value(_) => match t.field_type_spec(nn@, env.type_table) {
                            Out::Value(t2) => access_check(env, name, t2, *dot),
                            Out::Fail(e) => Out::Fail(e),
                            Out::Crash => Out::Crash,
                        },
                        Out::Fail(e) => Out::Fail(e),
                        Out::Crash => Out::Crash,
                    }
                },
                ASTNode::FuncCallNode { fname, arglist } => if !(t is Class) {
                    Out::Fail("Type ["@ + name + "] is not a class type to call methods."@)
                } else {
                    match method_type(env, t, fname@, arglist) {
                        Out::Value(_) => Out::Value(()),
                        Out::Fail(e) => Out::Fail(e),
                        Out::Crash => Out::Crash,
                    }
                },
                ASTNode::Void => match *arrow {
                    ASTNode::VAR { name: nn, array_access: aa, .. } => if !(aa is Nil) {
                        Out::Fail("Arrays inside struct is not implemented yet!"@)
                    } else {
                        match t {
                            ASTExprType::Pointer(et) => match et.field_id_spec(nn@) {
                                Out::Value(_) => match et.field_type_spec(nn@, env.type_table) {
                                    Out::Value(t2) => access_check(env, name, t2, *arrow),
                                    Out::Fail(e) => Out::Fail(e),
                                    Out::Crash => Out::Crash,
                                },
                                Out::Fail(e) => Out::Fail(e),
                                Out::Crash => Out::Crash,
                            },
                            _ => Out::Fail("Arrow operator can only be used to pointer types"@),
                        }
                    },
                    ASTNode::FuncCallNode { fname, arglist } => match t {
                        ASTExprType::Pointer(et) => if !(*et is Class) {
                            Out::Fail("Type ["@ + name + "] is not a class type to call methods."@)
                        } else {
                            match method_type(env, *et, fname@, arglist) {
                                Out::Value(_) => Out::Value(()),
                                Out::Fail(e) => Out::Fail(e),
                                Out::Crash => Out::Crash,
                            }
                        },
                        _ => Out::Fail("Arrow operator can only be used to pointer types"@),
                    },
                    ASTNode::Void => Out::Value(()),
                    _ => Out::Fail("Arrow operator expects a field/method"@),
                },
                _ => Out::Fail("Dot operator can only be used to access [struct_t] types"@),
            }
        },
        _ => Out::Value(()),
    }
}

/// Whether `t` is `Some` of the given primitive type.
pub open spec fn is_some_prim(t: Option<ASTExprType>, p: PrimitiveType) -> bool {
    t matches Some(x) && is_prim(x, p)
}

/// The first argument's type, when computed, must have `int` as base.
pub open spec fn address_arg_check(env: Compiler, arglist: List<ASTNode>, msg: Seq<char>) -> (
    Out<()>,
    List<ASTNode>,
) {
    match arglist {
        List::Cons(a, rest) => {
            let (o, a2) = node_type(env, *a);
            match o {
                Out::Value(Some(t)) => if !is_prim(t.base_spec(), PrimitiveType::Int) {
                    (Out::Fail(msg), List::Cons(Box::new(a2), rest))
                } else {
                    (Out::Value(()), List::Cons(Box::new(a2), rest))
                },
                Out::Value(None) => (Out::Value(()), List::Cons(Box::new(a2), rest)),
                Out::Fail(e) => (Out::Fail(e), List::Cons(Box::new(a2), rest)),
                Out::Crash => (Out::Crash, arglist),
            }
        },
        List::Nil => (Out::Value(()), arglist),
    }
}

/// The checks of a node: what they give, the node after (with the types
/// computed on the way), and whether the heap has been initialized after.
pub open spec fn validate_spec(env: Compiler, n: ASTNode) -> (Out<()>, ASTNode, bool)
    decreases n, 1int,
{
    let flag = env.init_flag;
    match n {
        ASTNode::StdFuncCallNode { func, arglist } => match func {
            STDLibFunction::Syscall => if arglist.len() != 5 {
                (Out::Fail("[Syscall] system call expects 5 arguments. "@), n, flag)
            } else {
                match arglist {
                    List::Cons(a, rest) => {
                        let (o, a2) = node_type(env, *a);
                        let n2 = ASTNode::StdFuncCallNode { func, arglist: List::Cons(Box::new(a2), rest) };
                        match o {
                            Out::Value(t) => if !is_some_prim(t, PrimitiveType::Int) {
                                (Out::Fail("[Syscall] system call number must be an int type."@), n2, flag)
                            } else if !(*rest matches List::Cons(b, _) && *b is INT) {
                                (
                                    Out::Fail("[Syscall] interrupt routine number must be an integer."@),
                                    n2,
                                    flag,
                                )
                            } else {
                                (Out::Value(()), n2, flag)
                            },
                            Out::Fail(e) => (Out::Fail(e), n2, flag),
                            Out::Crash => (Out::Crash, n, flag),
                        }
                    },
                    List::Nil => (Out::Value(()), n, flag),
                }
            },
            STDLibFunction::Setaddr => if arglist.len() != 2 {
                (Out::Fail("[Setaddr] expects 2 arguments."@), n, flag)
            } else {
                let (o, l2) = address_arg_check(
                    env,
                    arglist,
                    "[Setaddr] the first argument is not a pointer or raw address expression."@,
                );
                (o, ASTNode::StdFuncCallNode { func, arglist: l2 }, flag)
            },
            STDLibFunction::Getaddr => if arglist.len() != 1 {
                (Out::Fail("[Getaddr] expects 1 argument."@), n, flag)
            } else {
                let (o, l2) = address_arg_check(
                    env,
                    arglist,
                    "[Getaddr] the first argument is not a pointer or raw address expression."@,
                );
                (o, ASTNode::StdFuncCallNode { func, arglist: l2 }, flag)
            },
            STDLibFunction::New => if arglist.len() != 1 {
                (Out::Fail("[New] expects 1 argument."@), n, flag)
            } else {
                match arglist {
                    List::Cons(a, _) => match *a {
                        ASTNode::VAR { name, array_access, dot_field_access, arrow_field_access } => if !(
                        *dot_field_access is Void && *arrow_field_access is Void
                            && array_access is Nil) {
                            (Out::Fail("[New] Expected a class_name"@), n, flag)
                        } else if env.type_table.lookup(name@) matches Some(ASTExprType::Class(_)) {
                            (Out::Value(()), n, flag)
                        } else {
                            (Out::Fail("[New] got a class_name which is not declared"@), n, flag)
                        },
                        _ => (Out::Fail("[New] Expected a declared class_name"@), n, flag),
                    },
                    List::Nil => (Out::Crash, n, flag),
                }
            },
            _ => (Out::Fail("Std function Unimplemented!"@), n, flag),
        },
        ASTNode::VAR { name, array_access, dot_field_access, arrow_field_access } => match env.in_scope_spec(
            name@,
        ) {
            Out::Fail(e) => (Out::Fail(e), n, flag),
            _ => if array_access.len() > usize::MAX {
                (Out::Crash, n, flag)
            } else if array_access.len() > env.var_indices_spec(name@)->0.len() {
                (Out::Fail("Index dimension error for variable ["@ + name@ + "]"@), n, flag)
            } else {
                let (o, aa2, f2) = index_checks(env, name@, array_access, 0);
                match o {
                    Out::Value(_) => {
                        let env2 = with_flag(env, f2);
                        match env2.var_type_spec(name@) {
                            Out::Value(Some(vt)) => match deref_n(vt, array_access.len()) {
                                Some(t) => (
                                    access_check(env2, name@, t, n),
                                    ASTNode::VAR {
                                        name,
                                        array_access: aa2,
                                        dot_field_access,
                                        arrow_field_access,
                                    },
                                    f2,
                                ),
                                None => (Out::Crash, n, f2),
                            },
                            _ => (Out::Crash, n, f2),
                        }
                    },
                    Out::Fail(e) => (
                        Out::Fail(e),
                        ASTNode::VAR { name, array_access: aa2, dot_field_access, arrow_field_access },
                        f2,
                    ),
                    Out::Crash => (Out::Crash, n, f2),
                }
            },
        },
        ASTNode::BreakNode => if env.while_tracker.len() < 2 {
            (Out::Fail("Break statement must be used inside a while loop."@), n, flag)
        } else {
            (Out::Value(()), n, flag)
        },
        ASTNode::ContinueNode => if env.while_tracker.len() < 2 {
            (Out::Fail("Continue statement must be used inside a while loop."@), n, flag)
        } else {
            (Out::Value(()), n, flag)
        },
        ASTNode::WhileNode { expr, xdo } => {
            let (o, e2) = node_type(env, *expr);
            match o {
                Out::Value(t) => if !is_some_prim(t, PrimitiveType::Bool) {
                    (Out::Fail("Invalid expression inside while's condition."@), ASTNode::WhileNode { expr: Box::new(e2), xdo }, flag)
                } else {
                    (Out::Value(()), ASTNode::WhileNode { expr: Box::new(e2), xdo }, flag)
                },
                Out::Fail(e) => (Out::Fail(e), ASTNode::WhileNode { expr: Box::new(e2), xdo }, flag),
                Out::Crash => (Out::Crash, n, flag),
            }
        },
        ASTNode::IfNode { expr, xif } => {
            let (o, e2) = node_type(env, *expr);
            match o {
                Out::Value(t) => if !is_some_prim(t, PrimitiveType::Bool) {
                    (Out::Fail("Invalid expression inside if's condition."@), ASTNode::IfNode { expr: Box::new(e2), xif }, flag)
                } else {
                    (Out::Value(()), ASTNode::IfNode { expr: Box::new(e2), xif }, flag)
                },
                Out::Fail(e) => (Out::Fail(e), ASTNode::IfNode { expr: Box::new(e2), xif }, flag),
                Out::Crash => (Out::Crash, n, flag),
            }
        },
        ASTNode::IfElseNode { expr, xif, xelse } => {
            let (o, e2) = node_type(env, *expr);
            match o {
                Out::Value(t) => if !is_some_prim(t, PrimitiveType::Bool) {
                    (
                        Out::Fail("Invalid expression inside if else's condition."@),
                        ASTNode::IfElseNode { expr: Box::new(e2), xif, xelse },
                        flag,
                    )
                } else {
                    (Out::Value(()), ASTNode::IfElseNode { expr: Box::new(e2), xif, xelse }, flag)
                },
                Out::Fail(e) => (Out::Fail(e), ASTNode::IfElseNode { expr: Box::new(e2), xif, xelse }, flag),
                Out::Crash => (Out::Crash, n, flag),
            }
        },
        ASTNode::ReturnNode { expr } => {
            let (o, e2) = node_type(env, *expr);
            let n2 = ASTNode::ReturnNode { expr: Box::new(e2) };
            match o {
                Out::Value(Some(b)) => if b.base_spec() is Class {
                    (Out::Fail("Stage 8 doesnt allow classes to be returned"@), n2, flag)
                } else if is_prim(b, PrimitiveType::Null) && env.ret_type is Pointer {
                    (Out::Value(()), n2, flag)
                } else if !ty_eq(b, env.ret_type) {
                    (Out::Fail("Invalid return type."@), n2, flag)
                } else {
                    (Out::Value(()), n2, flag)
                },
                Out::Value(None) => (Out::Crash, n, flag),
                Out::Fail(e) => (Out::Fail(e), n2, flag),
                Out::Crash => (Out::Crash, n, flag),
            }
        },
        ASTNode::UnaryNode { op, exprtype, ptr, depth } => match op {
            ASTNodeType::Free => {
                let (o, p2) = node_type(env, *ptr);
                match o {
                    Out::Value(Some(ASTExprType::Pointer(_))) => (
                        Out::Value(()),
                        ASTNode::UnaryNode { op, exprtype, ptr: Box::new(p2), depth },
                        flag,
                    ),
                    Out::Value(_) => (
                        Out::Fail("Free expects a pointer type."@),
                        ASTNode::UnaryNode { op, exprtype, ptr: Box::new(p2), depth },
                        flag,
                    ),
                    Out::Fail(e) => (Out::Fail(e), ASTNode::UnaryNode { op, exprtype, ptr: Box::new(p2), depth }, flag),
                    Out::Crash => (Out::Crash, n, flag),
                }
            },
            ASTNodeType::Initialize => if flag {
                (Out::Fail("Initialize should only be called once"@), n, flag)
            } else {
                (Out::Value(()), n, true)
            },
            ASTNodeType::Alloc => if *ptr is VAR {
                let (o, p2) = node_type(env, *ptr);
                match o {
                    Out::Value(Some(ASTExprType::Pointer(_))) => (
                        Out::Value(()),
                        ASTNode::UnaryNode { op, exprtype, ptr: Box::new(p2), depth },
                        flag,
                    ),
                    Out::Value(_) => (
                        Out::Fail("Alloc can only be used on pointer types."@),
                        ASTNode::UnaryNode { op, exprtype, ptr: Box::new(p2), depth },
                        flag,
                    ),
                    Out::Fail(e) => (Out::Fail(e), ASTNode::UnaryNode { op, exprtype, ptr: Box::new(p2), depth }, flag),
                    Out::Crash => (Out::Crash, n, flag),
                }
            } else {
                (Out::Fail("Alloc expects a declared variable."@), n, flag)
            },
            ASTNodeType::Deref => {
                let (o, p2) = node_type(env, *ptr);
                match o {
                    Out::Value(Some(pt)) => if depth is None || pt.depth_spec() > usize::MAX {
                        (Out::Crash, n, flag)
                    } else if pt.depth_spec() < depth->0 {
                        (
                            Out::Fail("Dereferencing non pointer type."@),
                            ASTNode::UnaryNode { op, exprtype, ptr: Box::new(p2), depth },
                            flag,
                        )
                    } else {
                        let (o2, n3) = node_type(
                            env,
                            ASTNode::UnaryNode { op, exprtype, ptr: Box::new(p2), depth },
                        );
                        match o2 {
                            Out::Value(_) => (Out::Value(()), n3, flag),
                            Out::Fail(e) => (Out::Fail(e), n3, flag),
                            Out::Crash => (Out::Crash, n, flag),
                        }
                    },
                    Out::Value(None) => {
                        let (o2, n3) = node_type(
                            env,
                            ASTNode::UnaryNode { op, exprtype, ptr: Box::new(p2), depth },
                        );
                        match o2 {
                            Out::Value(_) => (Out::Value(()), n3, flag),
                            Out::Fail(e) => (Out::Fail(e), n3, flag),
                            Out::Crash => (Out::Crash, n, flag),
                        }
                    },
                    Out::Fail(e) => (Out::Fail(e), ASTNode::UnaryNode { op, exprtype, ptr: Box::new(p2), depth }, flag),
                    Out::Crash => (Out::Crash, n, flag),
                }
            },
            ASTNodeType::Ref => match *ptr {
                ASTNode::VAR { name, array_access, .. } => match env.var_indices_spec(name@) {
                    Some(vi) => if array_access.len() != vi.len() {
                        (
                            Out::Fail(
                                "Reference operator can only reference to the basetype of an array."@,
                            ),
                            n,
                            flag,
                        )
                    } else {
                        (Out::Value(()), n, flag)
                    },
                    None => (Out::Crash, n, flag),
                },
                _ => (Out::Fail("Reference operator expects a declared variable."@), n, flag),
            },
            ASTNodeType::Write => {
                let (o, p2, f2) = validate_spec(env, *ptr);
                match o {
                    Out::Value(_) => {
                        let n2 = ASTNode::UnaryNode { op, exprtype, ptr: Box::new(p2), depth };
                        match p2 {
                            ASTNode::BinaryNode { exprtype: et, .. } => if is_some_prim(
                                et,
                                PrimitiveType::Bool,
                            ) || is_some_prim(et, PrimitiveType::Void) || is_some_prim(
                                et,
                                PrimitiveType::Null,
                            ) {
                                (Out::Fail("Write statement expects a str or int type."@), n2, f2)
                            } else {
                                (Out::Value(()), n2, f2)
                            },
                            _ => (Out::Value(()), n2, f2),
                        }
                    },
                    Out::Fail(e) => (Out::Fail(e), ASTNode::UnaryNode { op, exprtype, ptr: Box::new(p2), depth }, f2),
                    Out::Crash => (Out::Crash, n, f2),
                }
            },
            _ => (Out::Value(()), n, flag),
        },
        ASTNode::BinaryNode { op, exprtype, lhs, rhs } => match op {
            ASTNodeType::Equals => {
                let (ol, l2) = node_type(env, *lhs);
                match ol {
                    Out::Value(lt) => {
                        let (or, r2) = node_type(env, *rhs);
                        let n2 = ASTNode::BinaryNode { op, exprtype, lhs: Box::new(l2), rhs: Box::new(r2) };
                        match or {
                            Out::Value(rt) => if crate::types::opt_ty_eq(lt, rt) {
                                (Out::Value(()), n2, flag)
                            } else if lt matches Some(ASTExprType::Pointer(_)) && is_some_prim(
                                rt,
                                PrimitiveType::Null,
                            ) {
                                (Out::Value(()), n2, flag)
                            } else if lt matches Some(ASTExprType::Pointer(c1)) && rt matches Some(
                                ASTExprType::Pointer(c2),
                            ) && *c1 is Class && *c2 is Class {
                                let a = lt->0->Pointer_0->Class_0;
                                let c2 = *rt->0->Pointer_0;
                                if exists|fuel: nat| crate::parserlib::reaches(env.type_table, c2, a.name@, fuel) {
                                    (Out::Value(()), n2, flag)
                                } else {
                                    (Out::Crash, n, flag)
                                }
                            } else {
                                (Out::Fail("Assignment of invalid type."@), n2, flag)
                            },
                            Out::Fail(e) => (Out::Fail(e), n2, flag),
                            Out::Crash => (Out::Crash, n, flag),
                        }
                    },
                    Out::Fail(e) => (Out::Fail(e), ASTNode::BinaryNode { op, exprtype, lhs: Box::new(l2), rhs }, flag),
                    Out::Crash => (Out::Crash, n, flag),
                }
            },
            ASTNodeType::Gt | ASTNodeType::Gte | ASTNodeType::Ne | ASTNodeType::Ee | ASTNodeType::Lt
            | ASTNodeType::Lte => {
                let (o, n2) = node_type(env, n);
                match o {
                    Out::Value(t) => if !is_some_prim(t, PrimitiveType::Bool) {
                        (Out::Fail("Boolean operator got invalid types."@), n2, flag)
                    } else {
                        (Out::Value(()), n2, flag)
                    },
                    Out::Fail(e) => (Out::Fail(e), n2, flag),
                    Out::Crash => (Out::Crash, n, flag),
                }
            },
            ASTNodeType::Plus | ASTNodeType::Minus | ASTNodeType::Star | ASTNodeType::Slash
            | ASTNodeType::Mod => {
                let (o, n2) = node_type(env, n);
                match o {
                    Out::Value(t) => if t is Some && !is_some_prim(t, PrimitiveType::Void) {
                        (Out::Value(()), n2, flag)
                    } else {
                        (Out::Fail("Operator +-/*% got invalid types."@), n2, flag)
                    },
                    Out::Fail(e) => (Out::Fail(e), n2, flag),
                    Out::Crash => (Out::Crash, n, flag),
                }
            },
            _ => (Out::Value(()), n, flag),
        },
        ASTNode::FuncCallNode { fname, arglist } => match env.gst.table.lookup(fname@) {
            Some(GSymbol::Func { paramlist, .. }) => {
                let (o, l2) = args_match(env, fname@, arglist, paramlist);
                (o, ASTNode::FuncCallNode { fname, arglist: l2 }, flag)
            },
            Some(GSymbol::Var { .. }) => (
                Out::Fail("Function name ["@ + fname@ + "] is not declared"@),
                n,
                flag,
            ),
            None => (Out::Value(()), n, flag),
        },
        ASTNode::FuncDefNode { fname, ret_type: r1, paramlist: a, .. } => (
            funcdef_check(env, fname@, r1, a),
            n,
            flag,
        ),
        _ => (Out::Value(()), n, flag),
    }
}

/// The index expressions of an array access, from position `pos`: each is
/// checked and must be of type `int`.
pub open spec fn index_checks(env: Compiler, name: Seq<char>, aa: List<ASTNode>, pos: nat) -> (
    Out<()>,
    List<ASTNode>,
    bool,
)
    decreases aa, 0int,
{
    match aa {
        List::Nil => (Out::Value(()), aa, env.init_flag),
        List::Cons(a, rest) => {
            let (o, a1, f1) = validate_spec(env, *a);
            match o {
                Out::Value(_) => {
                    let env1 = with_flag(env, f1);
                    let (o2, a2) = node_type(env1, a1);
                    match o2 {
                        Out::Value(Some(t)) => if is_prim(t, PrimitiveType::Int) {
                            let (o3, rest2, f3) = index_checks(env1, name, *rest, pos + 1);
                            (o3, List::Cons(Box::new(a2), Box::new(rest2)), f3)
                        } else {
                            (Out::Fail(msg_bad_index(name, pos)), List::Cons(Box::new(a2), rest), f1)
                        },
                        Out::Value(None) => (Out::Fail(msg_bad_index(name, pos)), List::Cons(Box::new(a2), rest), f1),
                        Out::Fail(e) => (Out::Fail(e), List::Cons(Box::new(a2), rest), f1),
                        Out::Crash => (Out::Crash, aa, f1),
                    }
                },
                Out::Fail(e) => (Out::Fail(e), List::Cons(Box::new(a1), rest), f1),
                Out::Crash => (Out::Crash, aa, f1),
            }
        },
    }
}

pub open spec fn msg_ret_mismatch(f: Seq<char>) -> Seq<char> {
    "Function ["@ + f + "]'s return type doesn't match in it declaration"@
}

pub open spec fn msg_params_mismatch(f: Seq<char>) -> Seq<char> {
    "Function ["@ + f + "]'s parameter list doesn't match in it declaration"@
}

/// A method's parameter list as defined: `self`, a pointer to its class,
/// then the declared parameters.
pub open spec fn method_params_eq(a: List<VarNode>, class_t: ASTExprType, b: List<VarNode>) -> bool {
    a matches List::Cons(s, rest) && s.varname@ == "self"@ && ty_eq(
        s.vartype,
        ASTExprType::Pointer(Box::new(class_t)),
    ) && s.varindices is Nil && crate::types::varnodes_eq(*rest, b)
}

/// A function definition must match its declaration: in the class being
/// compiled, a method of that class; otherwise a global function.
pub open spec fn funcdef_check(env: Compiler, fname: Seq<char>, r1: ASTExprType, a: List<VarNode>) -> Out<()> {
    let cn = env.class_name@;
    if cn.len() > 0 {
        match env.type_table.get_spec(cn) {
            Out::Value(ASTExprType::Class(c)) => match c.symbol_table.table.lookup(fname) {
                Some(CSymbol::Func { ret_type: r2, paramlist: b, .. }) => if !ty_eq(r1, r2) {
                    Out::Fail(msg_ret_mismatch(fname))
                } else if !method_params_eq(a, ASTExprType::Class(c), b) {
                    Out::Fail(msg_params_mismatch(fname))
                } else {
                    Out::Value(())
                },
                Some(CSymbol::Var { .. }) => Out::Fail(
                    "Function ["@ + fname + "] is declared as a field."@,
                ),
                None => Out::Fail(
                    "Func with name ["@ + fname + "] is not declared in class ["@ + cn + "]"@,
                ),
            },
            Out::Value(_) => Out::Fail("Func def must be inside classdef."@),
            Out::Fail(e) => Out::Fail(e),
            Out::Crash => Out::Crash,
        }
    } else {
        match env.gst.table.lookup(fname) {
            Some(GSymbol::Var { .. }) => Out::Fail(
                "Function with name ["@ + fname + "]is already declared as a variable"@,
            ),
            Some(GSymbol::Func { ret_type: r2, paramlist: b, .. }) => if !ty_eq(r1, r2) {
                Out::Fail(msg_ret_mismatch(fname))
            } else if !crate::types::varnodes_eq(a, b) {
                Out::Fail(msg_params_mismatch(fname))
            } else {
                Out::Value(())
            },
            None => Out::Fail("Function with name ["@ + fname + "] is not declared"@),
        }
    }
}

} // verus!

verus! {

fn brackets_string(n: usize) -> (r: String)
    ensures
        r@ == brackets(n as nat),
    decreases n,
{
    if n == 0 {
        String::new()
    } else {
        cat(brackets_string(n - 1), "[]")
    }
}

fn is_some_primitive(t: &Option<ASTExprType>, p: PrimitiveType) -> (r: bool)
    ensures
        r == is_some_prim(*t, p),
{
    match t {
        Some(x) => is_primitive(x, p),
        None => false,
    }
}

fn access_exec(env: &Compiler, name: &String, t: ASTExprType, holder: &ASTNode) -> (r: Result<(), String>)
    requires
        access_check(*env, name@, t, *holder).defined(),
    ensures
        matches_out(r, access_check(*env, name@, t, *holder)),
    decreases holder,
{
    match holder {
        ASTNode::VAR { dot_field_access: dot, arrow_field_access: arrow, .. } => {
            if matches!(**dot, ASTNode::Void) && matches!(**arrow, ASTNode::Void) {
                return Ok(());
            }
            match &**dot {
                ASTNode::VAR { name: nn, array_access: aa, .. } => {
                    if !aa.is_empty() {
                        return Err(owned("Arrays inside struct is not implemented yet!"));
                    }
                    t.get_field_id(nn)?;
                    let t2 = t.get_field_type(nn, &env.type_table)?;
                    access_exec(env, name, t2, &**dot)
                },
                ASTNode::FuncCallNode { fname, arglist } => {
                    if !t.is_class() {
                        return Err(wrap_name("Type [", name, "] is not a class type to call methods."));
                    }
                    t.is_method(fname, arglist, env)?;
                    Ok(())
                },
                ASTNode::Void => {
                    match &**arrow {
                        ASTNode::VAR { name: nn, array_access: aa, .. } => {
                            if !aa.is_empty() {
                                return Err(owned("Arrays inside struct is not implemented yet!"));
                            }
                            match &t {
                                ASTExprType::Pointer(et) => {
                                    et.get_field_id(nn)?;
                                    let t2 = et.get_field_type(nn, &env.type_table)?;
                                    access_exec(env, name, t2, &**arrow)
                                },
                                _ => Err(owned("Arrow operator can only be used to pointer types")),
                            }
                        },
                        ASTNode::FuncCallNode { fname, arglist } => {
                            match &t {
                                ASTExprType::Pointer(et) => {
                                    if !et.is_class() {
                                        return Err(
                                            wrap_name(
                                                "Type [",
                                                name,
                                                "] is not a class type to call methods.",
                                            ),
                                        );
                                    }
                                    et.is_method(fname, arglist, env)?;
                                    Ok(())
                                },
                                _ => Err(owned("Arrow operator can only be used to pointer types")),
                            }
                        },
                        ASTNode::Void => Ok(()),
                        _ => Err(owned("Arrow operator expects a field/method")),
                    }
                },
                _ => Err(owned("Dot operator can only be used to access [struct_t] types")),
            }
        },
        _ => Ok(()),
    }
}

fn address_arg_exec(env: &Compiler, arglist: List<ASTNode>, msg: &str) -> (r: (Result<(), String>, List<ASTNode>))
    requires
        address_arg_check(*env, arglist, msg@).0.defined(),
    ensures
        matches_out(r.0, address_arg_check(*env, arglist, msg@).0),
        r.1 == address_arg_check(*env, arglist, msg@).1,
{
    match arglist {
        List::Cons(a, rest) => {
            let (o, a2) = node_type_exec(*a, env);
            match o {
                Ok(Some(t)) => {
                    if !is_primitive(&t.get_base_type(), PrimitiveType::Int) {
                        (Err(owned(msg)), List::Cons(Box::new(a2), rest))
                    } else {
                        (Ok(()), List::Cons(Box::new(a2), rest))
                    }
                },
                Ok(None) => (Ok(()), List::Cons(Box::new(a2), rest)),
                Err(e) => (Err(e), List::Cons(Box::new(a2), rest)),
            }
        },
        List::Nil => (Ok(()), List::Nil),
    }
}

fn self_param_matches(a: &List<VarNode>, class_t: &ASTExprType, b: &List<VarNode>) -> (r: bool)
    ensures
        r == method_params_eq(*a, *class_t, *b),
{
    proof {
        reveal_strlit("self");
    }
    match a {
        List::Cons(s, rest) => {
            let self_t = ASTExprType::Pointer(Box::new(clone_ty(class_t)));
            let self_name = owned("self");
            s.varname == self_name && type_equal(&s.vartype, &self_t) && s.varindices.is_empty()
                && crate::types::varnodes_equal(&**rest, b)
        },
        List::Nil => false,
    }
}

fn funcdef_exec(env: &Compiler, fname: &String, r1: &ASTExprType, a: &List<VarNode>) -> (r: Result<(), String>)
    ensures
        matches_out(r, funcdef_check(*env, fname@, *r1, *a)),
{
    if !env.class_name.as_str().is_empty() {
        let classentry = env.type_table.tt_get_type(&env.class_name)?;
        match &classentry {
            ASTExprType::Class(c) => {
                match c.symbol_table.table.get(fname) {
                    Some(CSymbol::Func { ret_type: r2, paramlist: b, .. }) => {
                        if !type_equal(r1, r2) {
                            return Err(
                                wrap_name("Function [", fname, "]'s return type doesn't match in it declaration"),
                            );
                        }
                        if !self_param_matches(a, &classentry, b) {
                            return Err(
                                wrap_name("Function [", fname, "]'s parameter list doesn't match in it declaration"),
                            );
                        }
                        Ok(())
                    },
                    Some(CSymbol::Var { .. }) => Err(wrap_name("Function [", fname, "] is declared as a field.")),
                    None => Err(
                        cat(
                            cat(wrap_name("Func with name [", fname, "] is not declared in class ["), env.class_name.as_str()),
                            "]",
                        ),
                    ),
                }
            },
            _ => Err(owned("Func def must be inside classdef.")),
        }
    } else {
        match env.gst.table.get(fname) {
            Some(GSymbol::Var { .. }) => Err(
                wrap_name("Function with name [", fname, "]is already declared as a variable"),
            ),
            Some(GSymbol::Func { ret_type: r2, paramlist: b, .. }) => {
                if !type_equal(r1, r2) {
                    return Err(wrap_name("Function [", fname, "]'s return type doesn't match in it declaration"));
                }
                if !crate::types::varnodes_equal(a, b) {
                    return Err(
                        wrap_name("Function [", fname, "]'s parameter list doesn't match in it declaration"),
                    );
                }
                Ok(())
            },
            None => Err(wrap_name("Function with name [", fname, "] is not declared")),
        }
    }
}

} // verus!

verus! {

fn list_longer<A, B>(a: &List<A>, b: &List<B>) -> (r: bool)
    ensures
        r == (a.len() > b.len()),
    decreases a,
{
    match a {
        List::Nil => false,
        List::Cons(_, ra) => match b {
            List::Nil => true,
            List::Cons(_, rb) => list_longer(&**ra, &**rb),
        },
    }
}

fn validate_std(n: ASTNode, env: &mut Compiler) -> (r: (Result<(), String>, ASTNode))
    requires
        validate_spec(*old(env), n).0.defined(),
        n is StdFuncCallNode,
    ensures
        matches_out(r.0, validate_spec(*old(env), n).0),
        r.1 == validate_spec(*old(env), n).1,
        *final(env) == with_flag(*old(env), validate_spec(*old(env), n).2),
{
    match n {
        ASTNode::StdFuncCallNode { func, arglist } => match func {
            STDLibFunction::Syscall => {
                if arglist.longer_than(5) || !arglist.longer_than(4) {
                    return (
                        Err(owned("[Syscall] system call expects 5 arguments. ")),
                        ASTNode::StdFuncCallNode { func, arglist },
                    );
                }
                match arglist {
                    List::Cons(a, rest) => {
                        let (o, a2) = node_type_exec(*a, env);
                        match o {
                            Ok(t) => {
                                if !is_some_primitive(&t, PrimitiveType::Int) {
                                    return (
                                        Err(owned("[Syscall] system call number must be an int type.")),
                                        ASTNode::StdFuncCallNode {
                                            func,
                                            arglist: List::Cons(Box::new(a2), rest),
                                        },
                                    );
                                }
                                let second_is_int = match &*rest {
                                    List::Cons(b, _) => match &**b {
                                        ASTNode::INT(_) => true,
                                        _ => false,
                                    },
                                    List::Nil => false,
                                };
                                if !second_is_int {
                                    return (
                                        Err(
                                            owned(
                                                "[Syscall] interrupt routine number must be an integer.",
                                            ),
                                        ),
                                        ASTNode::StdFuncCallNode {
                                            func,
                                            arglist: List::Cons(Box::new(a2), rest),
                                        },
                                    );
                                }
                                (
                                    Ok(()),
                                    ASTNode::StdFuncCallNode {
                                        func,
                                        arglist: List::Cons(Box::new(a2), rest),
                                    },
                                )
                            },
                            Err(e) => (
                                Err(e),
                                ASTNode::StdFuncCallNode { func, arglist: List::Cons(Box::new(a2), rest) },
                            ),
                        }
                    },
                    List::Nil => (Ok(()), ASTNode::StdFuncCallNode { func, arglist: List::Nil }),
                }
            },
            STDLibFunction::Setaddr => {
                if arglist.longer_than(2) || !arglist.longer_than(1) {
                    return (Err(owned("[Setaddr] expects 2 arguments.")), ASTNode::StdFuncCallNode { func, arglist });
                }
                let (o, l2) = address_arg_exec(
                    env,
                    arglist,
                    "[Setaddr] the first argument is not a pointer or raw address expression.",
                );
                (o, ASTNode::StdFuncCallNode { func, arglist: l2 })
            },
            STDLibFunction::Getaddr => {
                if arglist.longer_than(1) || !arglist.longer_than(0) {
                    return (Err(owned("[Getaddr] expects 1 argument.")), ASTNode::StdFuncCallNode { func, arglist });
                }
                let (o, l2) = address_arg_exec(
                    env,
                    arglist,
                    "[Getaddr] the first argument is not a pointer or raw address expression.",
                );
                (o, ASTNode::StdFuncCallNode { func, arglist: l2 })
            },
            STDLibFunction::New => {
                if arglist.longer_than(1) || !arglist.longer_than(0) {
                    return (Err(owned("[New] expects 1 argument.")), ASTNode::StdFuncCallNode { func, arglist });
                }
                let r = match &arglist {
                    List::Cons(a, _) => match &**a {
                        ASTNode::VAR { name, array_access, dot_field_access, arrow_field_access } => {
                            if !(matches!(**dot_field_access, ASTNode::Void) && matches!(
                                **arrow_field_access,
                                ASTNode::Void
                            ) && array_access.is_empty()) {
                                Err(owned("[New] Expected a class_name"))
                            } else {
                                match env.type_table.table.get(name) {
                                    Some(ASTExprType::Class(_)) => Ok(()),
                                    _ => Err(owned("[New] got a class_name which is not declared")),
                                }
                            }
                        },
                        _ => Err(owned("[New] Expected a declared class_name")),
                    },
                    List::Nil => Ok(()),
                };
                (r, ASTNode::StdFuncCallNode { func, arglist })
            },
            _ => (Err(owned("Std function Unimplemented!")), ASTNode::StdFuncCallNode { func, arglist }),
        },
        _ => (Ok(()), n),
    }
}

fn validate_var(n: ASTNode, env: &mut Compiler) -> (r: (Result<(), String>, ASTNode))
    requires
        validate_spec(*old(env), n).0.defined(),
        n is VAR,
    ensures
        matches_out(r.0, validate_spec(*old(env), n).0),
        r.1 == validate_spec(*old(env), n).1,
        *final(env) == with_flag(*old(env), validate_spec(*old(env), n).2),
    decreases n, 0int,
{
    match n {
        ASTNode::VAR { name, array_access, dot_field_access, arrow_field_access } => {
            match varinscope(&name, env) {
                Err(e) => {
                    return (Err(e), ASTNode::VAR { name, array_access, dot_field_access, arrow_field_access });
                },
                Ok(()) => {},
            }
            let dind = match getvarindices(&name, env) {
                Some(d) => d,
                None => List::Nil,
            };
            if array_access.longer_than(usize::MAX) {
                return (Ok(()), ASTNode::Void);
            }
            if list_longer(&array_access, &dind) {
                let e = wrap_name("Index dimension error for variable [", &name, "]");
                return (Err(e), ASTNode::VAR { name, array_access, dot_field_access, arrow_field_access });
            }
            let k = array_access.length();
            let (o, aa2) = index_exec(env, &name, array_access, 0);
            match o {
                Err(e) => (Err(e), ASTNode::VAR { name, array_access: aa2, dot_field_access, arrow_field_access }),
                Ok(()) => {
                    let vt = match getvartype(&name, env) {
                        Some(t) => t,
                        None => ASTExprType::Error,
                    };
                    let t = deref_count(vt, k);
                    let node = ASTNode::VAR {
                        name,
                        array_access: aa2,
                        dot_field_access,
                        arrow_field_access,
                    };
                    let r = match &node {
                        ASTNode::VAR { name, .. } => access_exec(env, name, t, &node),
                        _ => Ok(()),
                    };
                    (r, node)
                },
            }
        },
        _ => (Ok(()), n),
    }
}

fn validate_exec(n: ASTNode, env: &mut Compiler) -> (r: (Result<(), String>, ASTNode))
    requires
        validate_spec(*old(env), n).0.defined(),
    ensures
        matches_out(r.0, validate_spec(*old(env), n).0),
        r.1 == validate_spec(*old(env), n).1,
        *final(env) == with_flag(*old(env), validate_spec(*old(env), n).2),
    decreases n, 1int,
{
    match &n {
        ASTNode::StdFuncCallNode { .. } => validate_std(n, env),
        ASTNode::VAR { .. } => validate_var(n, env),
        ASTNode::BreakNode => {
            if env.while_tracker.len() < 2 {
                return (Err(owned("Break statement must be used inside a while loop.")), n);
            }
            (Ok(()), n)
        },
        ASTNode::ContinueNode => {
            if env.while_tracker.len() < 2 {
                return (Err(owned("Continue statement must be used inside a while loop.")), n);
            }
            (Ok(()), n)
        },
        ASTNode::WhileNode { .. } | ASTNode::IfNode { .. } | ASTNode::IfElseNode { .. } => validate_cond(n, env),
        ASTNode::ReturnNode { .. } => validate_return(n, env),
        ASTNode::UnaryNode { .. } => validate_unary(n, env),
        ASTNode::BinaryNode { .. } => validate_binary(n, env),
        ASTNode::FuncCallNode { .. } => validate_call(n, env),
        ASTNode::FuncDefNode { fname, ret_type, paramlist, .. } => {
            let r = funcdef_exec(env, fname, ret_type, paramlist);
            (r, n)
        },
        _ => (Ok(()), n),
    }
}

fn index_exec(env: &mut Compiler, name: &String, aa: List<ASTNode>, pos: usize) -> (r: (
    Result<(), String>,
    List<ASTNode>,
))
    requires
        index_checks(*old(env), name@, aa, pos as nat).0.defined(),
        pos as nat + aa.len() <= usize::MAX,
    ensures
        matches_out(r.0, index_checks(*old(env), name@, aa, pos as nat).0),
        r.1 == index_checks(*old(env), name@, aa, pos as nat).1,
        *final(env) == with_flag(*old(env), index_checks(*old(env), name@, aa, pos as nat).2),
    decreases aa, 0int,
{
    match aa {
        List::Nil => (Ok(()), List::Nil),
        List::Cons(a, rest) => {
            let (o, a1) = validate_exec(*a, env);
            match o {
                Err(e) => (Err(e), List::Cons(Box::new(a1), rest)),
                Ok(()) => {
                    let (o2, a2) = node_type_exec(a1, env);
                    match o2 {
                        Ok(Some(t)) => {
                            if is_primitive(&t, PrimitiveType::Int) {
                                let (o3, rest2) = index_exec(env, name, *rest, pos + 1);
                                (o3, List::Cons(Box::new(a2), Box::new(rest2)))
                            } else {
                                (Err(cat(wrap_name("Invalid type used to index variable [", name, "] at "), brackets_string(pos).as_str())), List::Cons(Box::new(a2), rest))
                            }
                        },
                        Ok(None) => (Err(cat(wrap_name("Invalid type used to index variable [", name, "] at "), brackets_string(pos).as_str())), List::Cons(Box::new(a2), rest)),
                        Err(e) => (Err(e), List::Cons(Box::new(a2), rest)),
                    }
                },
            }
        },
    }
}

} // verus!

verus! {

fn validate_cond(n: ASTNode, env: &mut Compiler) -> (r: (Result<(), String>, ASTNode))
    requires
        validate_spec(*old(env), n).0.defined(),
        n is WhileNode || n is IfNode || n is IfElseNode,
    ensures
        matches_out(r.0, validate_spec(*old(env), n).0),
        r.1 == validate_spec(*old(env), n).1,
        *final(env) == with_flag(*old(env), validate_spec(*old(env), n).2),
{
    match n {
        ASTNode::WhileNode { expr, xdo } => {
            let (o, e2) = node_type_exec(*expr, env);
            match o {
                Ok(t) => if !is_some_primitive(&t, PrimitiveType::Bool) {
                    (Err(owned("Invalid expression inside while's condition.")), ASTNode::WhileNode { expr: Box::new(e2), xdo })
                } else {
                    (Ok(()), ASTNode::WhileNode { expr: Box::new(e2), xdo })
                },
                Err(e) => (Err(e), ASTNode::WhileNode { expr: Box::new(e2), xdo }),
            }
        },
        ASTNode::IfNode { expr, xif } => {
            let (o, e2) = node_type_exec(*expr, env);
            match o {
                Ok(t) => if !is_some_primitive(&t, PrimitiveType::Bool) {
                    (Err(owned("Invalid expression inside if's condition.")), ASTNode::IfNode { expr: Box::new(e2), xif })
                } else {
                    (Ok(()), ASTNode::IfNode { expr: Box::new(e2), xif })
                },
                Err(e) => (Err(e), ASTNode::IfNode { expr: Box::new(e2), xif }),
            }
        },
        ASTNode::IfElseNode { expr, xif, xelse } => {
            let (o, e2) = node_type_exec(*expr, env);
            match o {
                Ok(t) => if !is_some_primitive(&t, PrimitiveType::Bool) {
                    (Err(owned("Invalid expression inside if else's condition.")), ASTNode::IfElseNode { expr: Box::new(e2), xif, xelse })
                } else {
                    (Ok(()), ASTNode::IfElseNode { expr: Box::new(e2), xif, xelse })
                },
                Err(e) => (Err(e), ASTNode::IfElseNode { expr: Box::new(e2), xif, xelse }),
            }
        },
        _ => (Ok(()), n),
    }
}

fn validate_return(n: ASTNode, env: &mut Compiler) -> (r: (Result<(), String>, ASTNode))
    requires
        validate_spec(*old(env), n).0.defined(),
        n is ReturnNode,
    ensures
        matches_out(r.0, validate_spec(*old(env), n).0),
        r.1 == validate_spec(*old(env), n).1,
        *final(env) == with_flag(*old(env), validate_spec(*old(env), n).2),
{
    match n {
        ASTNode::ReturnNode { expr } => {
            let (o, e2) = node_type_exec(*expr, env);
            match o {
                Ok(Some(b)) => {
                    if b.get_base_type().is_class() {
                        return (Err(owned("Stage 8 doesnt allow classes to be returned")), ASTNode::ReturnNode { expr: Box::new(e2) });
                    }
                    let ret_is_ptr = match &env.ret_type {
                        ASTExprType::Pointer(_) => true,
                        _ => false,
                    };
                    if is_primitive(&b, PrimitiveType::Null) && ret_is_ptr {
                        return (Ok(()), ASTNode::ReturnNode { expr: Box::new(e2) });
                    }
                    if !type_equal(&b, &env.ret_type) {
                        return (Err(owned("Invalid return type.")), ASTNode::ReturnNode { expr: Box::new(e2) });
                    }
                    (Ok(()), ASTNode::ReturnNode { expr: Box::new(e2) })
                },
                Ok(None) => (Ok(()), ASTNode::Void),
                Err(e) => (Err(e), ASTNode::ReturnNode { expr: Box::new(e2) }),
            }
        },
        _ => (Ok(()), n),
    }
}

fn validate_unary(n: ASTNode, env: &mut Compiler) -> (r: (Result<(), String>, ASTNode))
    requires
        validate_spec(*old(env), n).0.defined(),
        n is UnaryNode,
    ensures
        matches_out(r.0, validate_spec(*old(env), n).0),
        r.1 == validate_spec(*old(env), n).1,
        *final(env) == with_flag(*old(env), validate_spec(*old(env), n).2),
    decreases n, 0int,
{
    match n {
        ASTNode::UnaryNode { op, exprtype, ptr, depth } => match op {
            ASTNodeType::Free => {
                let (o, p2) = node_type_exec(*ptr, env);
                match o {
                    Ok(Some(ASTExprType::Pointer(_))) => (
                        Ok(()),
                        ASTNode::UnaryNode { op, exprtype, ptr: Box::new(p2), depth },
                    ),
                    Ok(_) => (
                        Err(owned("Free expects a pointer type.")),
                        ASTNode::UnaryNode { op, exprtype, ptr: Box::new(p2), depth },
                    ),
                    Err(e) => (Err(e), ASTNode::UnaryNode { op, exprtype, ptr: Box::new(p2), depth }),
                }
            },
            ASTNodeType::Initialize => {
                if env.init_flag {
                    return (
                        Err(owned("Initialize should only be called once")),
                        ASTNode::UnaryNode { op, exprtype, ptr, depth },
                    );
                }
                env.init_flag = true;
                (Ok(()), ASTNode::UnaryNode { op, exprtype, ptr, depth })
            },
            ASTNodeType::Alloc => {
                let is_var = match &*ptr {
                    ASTNode::VAR { .. } => true,
                    _ => false,
                };
                if !is_var {
                    return (Err(owned("Alloc expects a declared variable.")), ASTNode::UnaryNode { op, exprtype, ptr, depth });
                }
                let (o, p2) = node_type_exec(*ptr, env);
                match o {
                    Ok(Some(ASTExprType::Pointer(_))) => (
                        Ok(()),
                        ASTNode::UnaryNode { op, exprtype, ptr: Box::new(p2), depth },
                    ),
                    Ok(_) => (
                        Err(owned("Alloc can only be used on pointer types.")),
                        ASTNode::UnaryNode { op, exprtype, ptr: Box::new(p2), depth },
                    ),
                    Err(e) => (Err(e), ASTNode::UnaryNode { op, exprtype, ptr: Box::new(p2), depth }),
                }
            },
            ASTNodeType::Deref => {
                let (o, p2) = node_type_exec(*ptr, env);
                match o {
                    Ok(Some(pt)) => {
                        let d = match depth {
                            Some(d) => d,
                            None => 0,
                        };
                        if pt.depth() < d {
                            return (
                                Err(owned("Dereferencing non pointer type.")),
                                ASTNode::UnaryNode { op, exprtype, ptr: Box::new(p2), depth },
                            );
                        }
                    },
                    Ok(None) => {},
                    Err(e) => {
                        return (Err(e), ASTNode::UnaryNode { op, exprtype, ptr: Box::new(p2), depth });
                    },
                }
                let (o2, n3) = node_type_exec(ASTNode::UnaryNode { op, exprtype, ptr: Box::new(p2), depth }, env);
                match o2 {
                    Ok(_) => (Ok(()), n3),
                    Err(e) => (Err(e), n3),
                }
            },
            ASTNodeType::Ref => {
                let r = match &*ptr {
                    ASTNode::VAR { name, array_access, .. } => {
                        match getvarindices(name, env) {
                            Some(vi) => if list_longer(array_access, &vi) || list_longer(&vi, array_access) {
                                Err(owned("Reference operator can only reference to the basetype of an array."))
                            } else {
                                Ok(())
                            },
                            None => Ok(()),
                        }
                    },
                    _ => Err(owned("Reference operator expects a declared variable.")),
                };
                (r, ASTNode::UnaryNode { op, exprtype, ptr, depth })
            },
            ASTNodeType::Write => {
                let (o, p2) = validate_exec(*ptr, env);
                match o {
                    Ok(()) => {
                        let bad = match &p2 {
                            ASTNode::BinaryNode { exprtype: et, .. } => is_some_primitive(et, PrimitiveType::Bool)
                                || is_some_primitive(et, PrimitiveType::Void) || is_some_primitive(
                                et,
                                PrimitiveType::Null,
                            ),
                            _ => false,
                        };
                        if bad {
                            (
                                Err(owned("Write statement expects a str or int type.")),
                                ASTNode::UnaryNode { op, exprtype, ptr: Box::new(p2), depth },
                            )
                        } else {
                            (Ok(()), ASTNode::UnaryNode { op, exprtype, ptr: Box::new(p2), depth })
                        }
                    },
                    Err(e) => (Err(e), ASTNode::UnaryNode { op, exprtype, ptr: Box::new(p2), depth }),
                }
            },
            _ => (Ok(()), ASTNode::UnaryNode { op, exprtype, ptr, depth }),
        },
        _ => (Ok(()), n),
    }
}

fn validate_binary(n: ASTNode, env: &mut Compiler) -> (r: (Result<(), String>, ASTNode))
    requires
        validate_spec(*old(env), n).0.defined(),
        n is BinaryNode,
    ensures
        matches_out(r.0, validate_spec(*old(env), n).0),
        r.1 == validate_spec(*old(env), n).1,
        *final(env) == with_flag(*old(env), validate_spec(*old(env), n).2),
{
    let op = match &n {
        ASTNode::BinaryNode { op, .. } => *op,
        _ => ASTNodeType::Connector,
    };
    match op {
        ASTNodeType::Equals => match n {
            ASTNode::BinaryNode { op, exprtype, lhs, rhs } => {
                let (ol, l2) = node_type_exec(*lhs, env);
                let lt = match ol {
                    Ok(t) => t,
                    Err(e) => {
                        return (Err(e), ASTNode::BinaryNode { op, exprtype, lhs: Box::new(l2), rhs });
                    },
                };
                let (or, r2) = node_type_exec(*rhs, env);
                let rt = match or {
                    Ok(t) => t,
                    Err(e) => {
                        return (Err(e), ASTNode::BinaryNode { op, exprtype, lhs: Box::new(l2), rhs: Box::new(r2) });
                    },
                };
                let ghost env0 = *old(env);
                assert(*env == env0);
                let ok = if crate::types::opt_type_equal(&lt, &rt) {
                    true
                } else {
                    match &lt {
                        Some(ASTExprType::Pointer(c1)) => match &rt {
                            Some(ASTExprType::Pointer(c2)) => {
                                match &**c1 {
                                    ASTExprType::Class(a) => if c2.is_class() {
                                        let pname = a.name.clone();
                                        proof {
                                            assert(exists|fuel: nat|
                                                crate::parserlib::reaches(env0.type_table, **c2, a.name@, fuel));
                                            let f = choose|fuel: nat|
                                                crate::parserlib::reaches(env0.type_table, **c2, a.name@, fuel);
                                            assert(crate::parserlib::reaches(env.type_table, **c2, pname@, f));
                                        }
                                        let c2r: &ASTExprType = &**c2;
                                        let par: Option<String> = Some(pname);
                                        proof {
                                            let f = choose|fuel: nat|
                                                crate::parserlib::reaches(env0.type_table, **c2, a.name@, fuel);
                                            assert(crate::parserlib::reaches(env.type_table, *c2r, par->0@, f));
                                        }
                                        c2r.is_ancestor(par, &env.type_table)
                                    } else {
                                        false
                                    },
                                    _ => false,
                                }
                            },
                            Some(t) => is_primitive(t, PrimitiveType::Null),
                            None => false,
                        },
                        _ => false,
                    }
                };
                if ok {
                    (Ok(()), ASTNode::BinaryNode { op, exprtype, lhs: Box::new(l2), rhs: Box::new(r2) })
                } else {
                    (Err(owned("Assignment of invalid type.")), ASTNode::BinaryNode { op, exprtype, lhs: Box::new(l2), rhs: Box::new(r2) })
                }
            },
            _ => (Ok(()), n),
        },
        ASTNodeType::Gt | ASTNodeType::Gte | ASTNodeType::Ne | ASTNodeType::Ee | ASTNodeType::Lt
        | ASTNodeType::Lte => {
            let (o, n2) = node_type_exec(n, env);
            match o {
                Ok(t) => if !is_some_primitive(&t, PrimitiveType::Bool) {
                    (Err(owned("Boolean operator got invalid types.")), n2)
                } else {
                    (Ok(()), n2)
                },
                Err(e) => (Err(e), n2),
            }
        },
        ASTNodeType::Plus | ASTNodeType::Minus | ASTNodeType::Star | ASTNodeType::Slash
        | ASTNodeType::Mod => {
            let (o, n2) = node_type_exec(n, env);
            match o {
                Ok(t) => if t.is_some() && !is_some_primitive(&t, PrimitiveType::Void) {
                    (Ok(()), n2)
                } else {
                    (Err(owned("Operator +-/*% got invalid types.")), n2)
                },
                Err(e) => (Err(e), n2),
            }
        },
        _ => (Ok(()), n),
    }
}

fn validate_call(n: ASTNode, env: &mut Compiler) -> (r: (Result<(), String>, ASTNode))
    requires
        validate_spec(*old(env), n).0.defined(),
        n is FuncCallNode,
    ensures
        matches_out(r.0, validate_spec(*old(env), n).0),
        r.1 == validate_spec(*old(env), n).1,
        *final(env) == with_flag(*old(env), validate_spec(*old(env), n).2),
{
    match n {
        ASTNode::FuncCallNode { fname, arglist } => {
            let params = match env.gst.table.get(&fname) {
                Some(GSymbol::Func { paramlist, .. }) => crate::types::clone_varnodes(paramlist),
                Some(GSymbol::Var { .. }) => {
                    let e = wrap_name("Function name [", &fname, "] is not declared");
                    return (Err(e), ASTNode::FuncCallNode { fname, arglist });
                },
                None => {
                    return (Ok(()), ASTNode::FuncCallNode { fname, arglist });
                },
            };
            let (o, l2) = args_exec(env, &fname, arglist, &params);
            (o, ASTNode::FuncCallNode { fname, arglist: l2 })
        },
        _ => (Ok(()), n),
    }
}

impl ASTNode {
    /// The semantic checks of this node. The types computed on the way are
    /// kept in its operator nodes, and an `initialize` statement marks the
    /// heap as initialized. An `Err` is an error the compiler stops on; the
    /// node keeps the types computed before it.
    pub fn validate(&mut self, env: &mut Compiler) -> (r: Result<(), String>)
        requires
            validate_spec(*old(env), *old(self)).0.defined(),
        ensures
            matches_out(r, validate_spec(*old(env), *old(self)).0),
            *final(self) == validate_spec(*old(env), *old(self)).1,
            *final(env) == with_flag(*old(env), validate_spec(*old(env), *old(self)).2),
    {
        let mut n = ASTNode::Void;
        std::mem::swap(&mut n, self);
        let (r, n2) = validate_exec(n, env);
        *self = n2;
        r
    }
}

} // verus!

verus! {

/// The types that `getexprtype` keeps in the tree make a second call give
/// the same type and leave the tree as the first call left it.
pub proof fn lemma_getexprtype_idempotent(env: Compiler, n: ASTNode)
    requires
        node_type(env, n).0 is Value,
    ensures
        node_type(env, node_type(env, n).1) == node_type(env, n),
    decreases n,
{
    match n {
        ASTNode::UnaryNode { op, exprtype, ptr, depth } => {
            if exprtype is None && (op == ASTNodeType::Deref || op == ASTNodeType::Ref) {
                lemma_getexprtype_idempotent(env, *ptr);
            }
        },
        ASTNode::BinaryNode { op, exprtype, lhs, rhs } => {
            if exprtype is None && is_typed_binary(op) {
                lemma_getexprtype_idempotent(env, *lhs);
                if node_type(env, *lhs).0 matches Out::Value(Some(_)) {
                    lemma_getexprtype_idempotent(env, *rhs);
                }
            }
        },
        _ => {},
    }
}

} // verus!

verus! {

/// A comparison operator.
pub open spec fn is_comparison(op: ASTNodeType) -> bool {
    ||| op == ASTNodeType::Gt
    ||| op == ASTNodeType::Lt
    ||| op == ASTNodeType::Gte
    ||| op == ASTNodeType::Lte
    ||| op == ASTNodeType::Ee
    ||| op == ASTNodeType::Ne
}

/// Every comparison of two `int` operands has type `bool`, and every
/// arithmetic operator on two `int` operands has type `int`.
pub proof fn lemma_int_operands_typed(op: ASTNodeType)
    ensures
        is_comparison(op) ==> binary_type(op, ASTExprType::Primitive(PrimitiveType::Int), ASTExprType::Primitive(
            PrimitiveType::Int,
        )) == Some(ASTExprType::Primitive(PrimitiveType::Bool)),
        (op == ASTNodeType::Plus || op == ASTNodeType::Minus || op == ASTNodeType::Star || op
            == ASTNodeType::Slash || op == ASTNodeType::Mod) ==> binary_type(
            op,
            ASTExprType::Primitive(PrimitiveType::Int),
            ASTExprType::Primitive(PrimitiveType::Int),
        ) == Some(ASTExprType::Primitive(PrimitiveType::Int)),
{
}

/// A comparison whose operands both have type `int` passes the checks, and
/// the node is left with type `bool`.
pub proof fn lemma_int_comparison_validates(env: Compiler, op: ASTNodeType, l: ASTNode, r: ASTNode)
    requires
        is_comparison(op),
        node_type(env, l).0 == Out::Value(Some(ASTExprType::Primitive(PrimitiveType::Int))),
        node_type(env, r).0 == Out::Value(Some(ASTExprType::Primitive(PrimitiveType::Int))),
    ensures
        ({
            let n = ASTNode::BinaryNode { op, exprtype: None, lhs: Box::new(l), rhs: Box::new(r) };
            &&& validate_spec(env, n).0 == Out::<()>::Value(())
            &&& validate_spec(env, n).1 matches ASTNode::BinaryNode { exprtype: Some(t), .. } && is_prim(
                t,
                PrimitiveType::Bool,
            )
        }),
{
    lemma_int_operands_typed(op);
}

} // verus!
