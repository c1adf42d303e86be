//! The data model of the compiler: value types, symbol entries and the syntax tree.
use vstd::prelude::*;
use crate::list::{List, SymTable, DeepClone};
use vstd::std_specs::cmp::PartialEqSpecImpl;

verus! {

/// Operators and statement kinds carried by unary and binary nodes.
#[derive(Clone, Copy, Debug, PartialEq, Eq, Structural)]
pub enum ASTNodeType {
    Plus,
    Minus,
    Star,
    Slash,
    Mod,
    Equals,
    Read,
    Write,
    Alloc,
    Free,
    Initialize,
    Connector,
    Ref,
    Deref,
    Gt,
    Lt,
    Gte,
    Lte,
    Ee,
    Ne,
}

/// Library routines that the language provides.
#[derive(Clone, Copy, Debug, PartialEq, Eq, Structural)]
pub enum STDLibFunction {
    Heapset,
    Alloc,
    Free,
    Read,
    Write,
    Syscall,
    Setaddr,
    Getaddr,
    New,
}

#[derive(Clone, Copy, Debug, PartialEq, Eq, Structural)]
pub enum PrimitiveType {
    Int,
    String,
    Bool,
    Void,
    Null,
}

/// The declared type of a field of a user-defined type: types are named,
/// not resolved.
#[derive(Debug, PartialEq)]
pub enum FieldType {
    Primitive(PrimitiveType),
    Pointer(Box<FieldType>),
    Struct(String),
    Class(String),
}

/// A field of a user-defined type; `array_access` lists the dimensions
/// declared for an array field.
#[derive(Debug, PartialEq)]
pub struct Field {
    pub name: String,
    pub field_type: FieldType,
    pub array_access: FieldList,
}

/// A list of fields (the dimension list of an array field).
#[derive(Debug, PartialEq)]
pub enum FieldList {
    Nil,
    Cons(Box<Field>, Box<FieldList>),
}

#[derive(Debug, PartialEq)]
pub struct ASTStructType {
    pub name: String,
    pub size: usize,
    pub fields: List<Field>,
}

#[derive(Debug)]
pub struct ClassSymbolTable {
    pub table: SymTable<CSymbol>,
}

/// A class: its members, their counts, its parent and the index of its
/// virtual function table.
#[derive(Debug)]
pub struct ASTClassType {
    pub name: String,
    pub fieldsize: i64,
    pub methodsize: i64,
    pub symbol_table: ClassSymbolTable,
    pub parent: Option<String>,
    pub vft_id: usize,
}

/// The type of an expression. A pointer holds its target type.
#[derive(Debug)]
pub enum ASTExprType {
    Class(ASTClassType),
    Primitive(PrimitiveType),
    Pointer(Box<ASTExprType>),
    Struct(ASTStructType),
    Error,
}

/// A member of a class.
#[derive(Debug)]
pub enum CSymbol {
    Func { name: String, ret_type: ASTExprType, paramlist: List<VarNode>, flabel: usize, fid: i64 },
    Var { name: String, vartype: FieldType, varid: i64, varindices: List<usize> },
}

/// A declared variable or parameter: name, element type and array dimensions.
#[derive(Debug)]
pub struct VarNode {
    pub varname: String,
    pub vartype: ASTExprType,
    pub varindices: List<usize>,
}

/// An entry of a local symbol table; `varid` is the offset from the frame base.
#[derive(Debug)]
pub enum LSymbol {
    Var { vartype: ASTExprType, varid: i64, varindices: List<usize> },
}

/// An entry of the global symbol table; a variable's `varid` is its offset in
/// the static area, a function's `flabel` is its code label.
#[derive(Debug)]
pub enum GSymbol {
    Func { ret_type: ASTExprType, paramlist: List<VarNode>, flabel: usize },
    Var { vartype: ASTExprType, varid: usize, varindices: List<usize> },
}

/// Summary of a class's members.
#[derive(Debug)]
pub struct Class {
    pub symbol_table: SymTable<CSymbol>,
    pub num_methods: usize,
    pub num_fields: usize,
}

#[derive(Debug)]
pub enum ASTError {
    TypeError(String),
}

/// A node of the syntax tree. Binary and unary nodes cache their computed type
/// in `exprtype`.
#[derive(Debug)]
pub enum ASTNode {
    INT(i64),
    STR(String),
    VAR {
        name: String,
        array_access: List<ASTNode>,
        dot_field_access: Box<ASTNode>,
        arrow_field_access: Box<ASTNode>,
    },
    BinaryNode {
        op: ASTNodeType,
        exprtype: Option<ASTExprType>,
        lhs: Box<ASTNode>,
        rhs: Box<ASTNode>,
    },
    UnaryNode {
        op: ASTNodeType,
        exprtype: Option<ASTExprType>,
        ptr: Box<ASTNode>,
        depth: Option<usize>,
    },
    IfNode { expr: Box<ASTNode>, xif: Box<ASTNode> },
    IfElseNode { expr: Box<ASTNode>, xif: Box<ASTNode>, xelse: Box<ASTNode> },
    WhileNode { expr: Box<ASTNode>, xdo: Box<ASTNode> },
    ClassNode { cname: String, methods: List<ASTNode> },
    FuncDefNode {
        fname: String,
        ret_type: ASTExprType,
        body: Box<ASTNode>,
        paramlist: List<VarNode>,
    },
    FuncCallNode { fname: String, arglist: List<ASTNode> },
    StdFuncCallNode { func: STDLibFunction, arglist: List<ASTNode> },
    ErrorNode { err: ASTError },
    ReturnNode { expr: Box<ASTNode> },
    MainNode { body: Box<ASTNode> },
    BreakNode,
    BreakpointNode,
    ContinueNode,
    Void,
    Null,
}

} // verus!

verus! {

// ---------------------------------------------------------------------------
// Equality of types as the language defines it: structural, except that two
// class types are the same type when they have the same name.
// ---------------------------------------------------------------------------

pub open spec fn field_type_eq(a: FieldType, b: FieldType) -> bool
    decreases a,
{
    match a {
        FieldType::Primitive(p) => b matches FieldType::Primitive(q) && p == q,
        FieldType::Pointer(x) => match b {
            FieldType::Pointer(y) => field_type_eq(*x, *y),
            _ => false,
        },
        FieldType::Struct(s) => b matches FieldType::Struct(t) && s@ == t@,
        FieldType::Class(s) => b matches FieldType::Class(t) && s@ == t@,
    }
}

pub open spec fn field_eq(a: Field, b: Field) -> bool
    decreases a,
{
    &&& a.name@ == b.name@
    &&& field_type_eq(a.field_type, b.field_type)
    &&& field_list_eq(a.array_access, b.array_access)
}

pub open spec fn field_list_eq(a: FieldList, b: FieldList) -> bool
    decreases a,
{
    match a {
        FieldList::Nil => b is Nil,
        FieldList::Cons(x, r) => match b {
            FieldList::Cons(y, s) => field_eq(*x, *y) && field_list_eq(*r, *s),
            FieldList::Nil => false,
        },
    }
}

pub open spec fn fields_eq(a: List<Field>, b: List<Field>) -> bool
    decreases a,
{
    match a {
        List::Nil => b is Nil,
        List::Cons(x, r) => match b {
            List::Cons(y, s) => field_eq(*x, *y) && fields_eq(*r, *s),
            List::Nil => false,
        },
    }
}

pub open spec fn ty_eq(a: ASTExprType, b: ASTExprType) -> bool
    decreases a,
{
    match a {
        ASTExprType::Class(c) => b matches ASTExprType::Class(d) && c.name@ == d.name@,
        ASTExprType::Primitive(p) => b matches ASTExprType::Primitive(q) && p == q,
        ASTExprType::Pointer(x) => match b {
            ASTExprType::Pointer(y) => ty_eq(*x, *y),
            _ => false,
        },
        ASTExprType::Struct(s) => match b {
            ASTExprType::Struct(t) => s.name@ == t.name@ && s.size == t.size && fields_eq(
                s.fields,
                t.fields,
            ),
            _ => false,
        },
        ASTExprType::Error => b is Error,
    }
}

pub open spec fn opt_ty_eq(a: Option<ASTExprType>, b: Option<ASTExprType>) -> bool {
    match a {
        None => b is None,
        Some(x) => b matches Some(y) && ty_eq(x, y),
    }
}

/// `t` is the primitive type `p`.
pub open spec fn is_prim(t: ASTExprType, p: PrimitiveType) -> bool {
    t matches ASTExprType::Primitive(q) && q == p
}

pub open spec fn varnode_eq(a: VarNode, b: VarNode) -> bool {
    &&& a.varname@ == b.varname@
    &&& ty_eq(a.vartype, b.vartype)
    &&& a.varindices == b.varindices
}

pub open spec fn varnodes_eq(a: List<VarNode>, b: List<VarNode>) -> bool
    decreases a,
{
    match a {
        List::Nil => b is Nil,
        List::Cons(x, r) => match b {
            List::Cons(y, s) => varnode_eq(*x, *y) && varnodes_eq(*r, *s),
            List::Nil => false,
        },
    }
}

pub fn field_type_equal(a: &FieldType, b: &FieldType) -> (r: bool)
    ensures
        r == field_type_eq(*a, *b),
    decreases a,
{
    match a {
        FieldType::Primitive(p) => match b {
            FieldType::Primitive(q) => *p == *q,
            _ => false,
        },
        FieldType::Pointer(x) => match b {
            FieldType::Pointer(y) => field_type_equal(&**x, &**y),
            _ => false,
        },
        FieldType::Struct(s) => match b {
            FieldType::Struct(t) => *s == *t,
            _ => false,
        },
        FieldType::Class(s) => match b {
            FieldType::Class(t) => *s == *t,
            _ => false,
        },
    }
}

pub fn field_equal(a: &Field, b: &Field) -> (r: bool)
    ensures
        r == field_eq(*a, *b),
    decreases a,
{
    a.name == b.name && field_type_equal(&a.field_type, &b.field_type) && field_list_equal(
        &a.array_access,
        &b.array_access,
    )
}

pub fn field_list_equal(a: &FieldList, b: &FieldList) -> (r: bool)
    ensures
        r == field_list_eq(*a, *b),
    decreases a,
{
    match a {
        FieldList::Nil => match b {
            FieldList::Nil => true,
            _ => false,
        },
        FieldList::Cons(x, r) => match b {
            FieldList::Cons(y, s) => field_equal(&**x, &**y) && field_list_equal(&**r, &**s),
            FieldList::Nil => false,
        },
    }
}

pub fn fields_equal(a: &List<Field>, b: &List<Field>) -> (r: bool)
    ensures
        r == fields_eq(*a, *b),
    decreases a,
{
    match a {
        List::Nil => match b {
            List::Nil => true,
            _ => false,
        },
        List::Cons(x, r) => match b {
            List::Cons(y, s) => field_equal(&**x, &**y) && fields_equal(&**r, &**s),
            List::Nil => false,
        },
    }
}

/// Type equality: two class types are equal when their names are.
pub fn type_equal(a: &ASTExprType, b: &ASTExprType) -> (r: bool)
    ensures
        r == ty_eq(*a, *b),
    decreases a,
{
    match a {
        ASTExprType::Class(c) => match b {
            ASTExprType::Class(d) => c.name == d.name,
            _ => false,
        },
        ASTExprType::Primitive(p) => match b {
            ASTExprType::Primitive(q) => *p == *q,
            _ => false,
        },
        ASTExprType::Pointer(x) => match b {
            ASTExprType::Pointer(y) => type_equal(&**x, &**y),
            _ => false,
        },
        ASTExprType::Struct(s) => match b {
            ASTExprType::Struct(t) => s.name == t.name && s.size == t.size && fields_equal(
                &s.fields,
                &t.fields,
            ),
            _ => false,
        },
        ASTExprType::Error => match b {
            ASTExprType::Error => true,
            _ => false,
        },
    }
}

pub fn opt_type_equal(a: &Option<ASTExprType>, b: &Option<ASTExprType>) -> (r: bool)
    ensures
        r == opt_ty_eq(*a, *b),
{
    match a {
        None => b.is_none(),
        Some(x) => match b {
            Some(y) => type_equal(x, y),
            None => false,
        },
    }
}

/// Whether `t` is the given primitive type.
pub fn is_primitive(t: &ASTExprType, p: PrimitiveType) -> (r: bool)
    ensures
        r == is_prim(*t, p),
{
    match t {
        ASTExprType::Primitive(q) => *q == p,
        _ => false,
    }
}

pub fn usizes_equal(a: &List<usize>, b: &List<usize>) -> (r: bool)
    ensures
        r == (*a == *b),
    decreases a,
{
    match a {
        List::Nil => match b {
            List::Nil => true,
            _ => false,
        },
        List::Cons(x, r) => match b {
            List::Cons(y, s) => **x == **y && usizes_equal(&**r, &**s),
            List::Nil => false,
        },
    }
}

pub fn varnodes_equal(a: &List<VarNode>, b: &List<VarNode>) -> (r: bool)
    ensures
        r == varnodes_eq(*a, *b),
    decreases a,
{
    match a {
        List::Nil => match b {
            List::Nil => true,
            _ => false,
        },
        List::Cons(x, r) => match b {
            List::Cons(y, s) => x.varname == y.varname && type_equal(&x.vartype, &y.vartype)
                && usizes_equal(&x.varindices, &y.varindices) && varnodes_equal(&**r, &**s),
            List::Nil => false,
        },
    }
}

} // verus!

verus! {

// ---------------------------------------------------------------------------
// Deep copies that are equal to their sources.
// ---------------------------------------------------------------------------

impl DeepClone for PrimitiveType {
    fn deep_clone(&self) -> (r: Self) {
        *self
    }
}

impl DeepClone for FieldType {
    fn deep_clone(&self) -> (r: Self)
        decreases self,
    {
        match self {
            FieldType::Primitive(p) => FieldType::Primitive(*p),
            FieldType::Pointer(b) => FieldType::Pointer(Box::new((**b).deep_clone())),
            FieldType::Struct(s) => FieldType::Struct(s.clone()),
            FieldType::Class(s) => FieldType::Class(s.clone()),
        }
    }
}

pub fn clone_field(f: &Field) -> (r: Field)
    ensures
        r == *f,
    decreases f,
{
    Field {
        name: f.name.clone(),
        field_type: f.field_type.deep_clone(),
        array_access: clone_field_list(&f.array_access),
    }
}

pub fn clone_field_list(l: &FieldList) -> (r: FieldList)
    ensures
        r == *l,
    decreases l,
{
    match l {
        FieldList::Nil => FieldList::Nil,
        FieldList::Cons(x, rest) => FieldList::Cons(
            Box::new(clone_field(&**x)),
            Box::new(clone_field_list(&**rest)),
        ),
    }
}

impl DeepClone for Field {
    fn deep_clone(&self) -> (r: Self) {
        clone_field(self)
    }
}

impl DeepClone for ASTStructType {
    fn deep_clone(&self) -> (r: Self) {
        ASTStructType { name: self.name.clone(), size: self.size, fields: self.fields.deep_clone() }
    }
}

fn clone_opt_string(s: &Option<String>) -> (r: Option<String>)
    ensures
        r == *s,
{
    match s {
        Some(x) => Some(x.clone()),
        None => None,
    }
}

pub fn clone_ty(t: &ASTExprType) -> (r: ASTExprType)
    ensures
        r == *t,
    decreases t,
{
    match t {
        ASTExprType::Class(c) => ASTExprType::Class(clone_class(c)),
        ASTExprType::Primitive(p) => ASTExprType::Primitive(*p),
        ASTExprType::Pointer(b) => ASTExprType::Pointer(Box::new(clone_ty(&**b))),
        ASTExprType::Struct(s) => ASTExprType::Struct(s.deep_clone()),
        ASTExprType::Error => ASTExprType::Error,
    }
}

pub fn clone_class(c: &ASTClassType) -> (r: ASTClassType)
    ensures
        r == *c,
    decreases c,
{
    ASTClassType {
        name: c.name.clone(),
        fieldsize: c.fieldsize,
        methodsize: c.methodsize,
        symbol_table: ClassSymbolTable {
            table: SymTable { entries: clone_csym_entries(&c.symbol_table.table.entries) },
        },
        parent: clone_opt_string(&c.parent),
        vft_id: c.vft_id,
    }
}

fn clone_csym_entries(l: &List<(String, CSymbol)>) -> (r: List<(String, CSymbol)>)
    ensures
        r == *l,
    decreases l,
{
    match l {
        List::Nil => List::Nil,
        List::Cons(e, rest) => List::Cons(
            Box::new((e.0.clone(), clone_csym(&e.1))),
            Box::new(clone_csym_entries(&**rest)),
        ),
    }
}

pub fn clone_csym(s: &CSymbol) -> (r: CSymbol)
    ensures
        r == *s,
    decreases s,
{
    match s {
        CSymbol::Func { name, ret_type, paramlist, flabel, fid } => CSymbol::Func {
            name: name.clone(),
            ret_type: clone_ty(ret_type),
            paramlist: clone_varnodes(paramlist),
            flabel: *flabel,
            fid: *fid,
        },
        CSymbol::Var { name, vartype, varid, varindices } => CSymbol::Var {
            name: name.clone(),
            vartype: vartype.deep_clone(),
            varid: *varid,
            varindices: varindices.deep_clone(),
        },
    }
}

pub fn clone_varnode(v: &VarNode) -> (r: VarNode)
    ensures
        r == *v,
    decreases v,
{
    VarNode {
        varname: v.varname.clone(),
        vartype: clone_ty(&v.vartype),
        varindices: v.varindices.deep_clone(),
    }
}

pub fn clone_varnodes(l: &List<VarNode>) -> (r: List<VarNode>)
    ensures
        r == *l,
    decreases l,
{
    match l {
        List::Nil => List::Nil,
        List::Cons(x, rest) => List::Cons(
            Box::new(clone_varnode(&**x)),
            Box::new(clone_varnodes(&**rest)),
        ),
    }
}

impl DeepClone for ASTExprType {
    fn deep_clone(&self) -> (r: Self) {
        clone_ty(self)
    }
}

impl DeepClone for ASTClassType {
    fn deep_clone(&self) -> (r: Self) {
        clone_class(self)
    }
}

impl DeepClone for CSymbol {
    fn deep_clone(&self) -> (r: Self) {
        clone_csym(self)
    }
}

impl DeepClone for VarNode {
    fn deep_clone(&self) -> (r: Self) {
        clone_varnode(self)
    }
}

impl DeepClone for LSymbol {
    fn deep_clone(&self) -> (r: Self) {
        match self {
            LSymbol::Var { vartype, varid, varindices } => LSymbol::Var {
                vartype: clone_ty(vartype),
                varid: *varid,
                varindices: varindices.deep_clone(),
            },
        }
    }
}

impl DeepClone for GSymbol {
    fn deep_clone(&self) -> (r: Self) {
        match self {
            GSymbol::Func { ret_type, paramlist, flabel } => GSymbol::Func {
                ret_type: clone_ty(ret_type),
                paramlist: clone_varnodes(paramlist),
                flabel: *flabel,
            },
            GSymbol::Var { vartype, varid, varindices } => GSymbol::Var {
                vartype: clone_ty(vartype),
                varid: *varid,
                varindices: varindices.deep_clone(),
            },
        }
    }
}

fn clone_opt_ty(t: &Option<ASTExprType>) -> (r: Option<ASTExprType>)
    ensures
        r == *t,
{
    match t {
        Some(x) => Some(clone_ty(x)),
        None => None,
    }
}

pub fn clone_node(n: &ASTNode) -> (r: ASTNode)
    ensures
        r == *n,
    decreases n,
{
    match n {
        ASTNode::INT(i) => ASTNode::INT(*i),
        ASTNode::STR(s) => ASTNode::STR(s.clone()),
        ASTNode::VAR { name, array_access, dot_field_access, arrow_field_access } => ASTNode::VAR {
            name: name.clone(),
            array_access: clone_nodes(array_access),
            dot_field_access: Box::new(clone_node(&**dot_field_access)),
            arrow_field_access: Box::new(clone_node(&**arrow_field_access)),
        },
        ASTNode::BinaryNode { op, exprtype, lhs, rhs } => ASTNode::BinaryNode {
            op: *op,
            exprtype: clone_opt_ty(exprtype),
            lhs: Box::new(clone_node(&**lhs)),
            rhs: Box::new(clone_node(&**rhs)),
        },
        ASTNode::UnaryNode { op, exprtype, ptr, depth } => ASTNode::UnaryNode {
            op: *op,
            exprtype: clone_opt_ty(exprtype),
            ptr: Box::new(clone_node(&**ptr)),
            depth: *depth,
        },
        ASTNode::IfNode { expr, xif } => ASTNode::IfNode {
            expr: Box::new(clone_node(&**expr)),
            xif: Box::new(clone_node(&**xif)),
        },
        ASTNode::IfElseNode { expr, xif, xelse } => ASTNode::IfElseNode {
            expr: Box::new(clone_node(&**expr)),
            xif: Box::new(clone_node(&**xif)),
            xelse: Box::new(clone_node(&**xelse)),
        },
        ASTNode::WhileNode { expr, xdo } => ASTNode::WhileNode {
            expr: Box::new(clone_node(&**expr)),
            xdo: Box::new(clone_node(&**xdo)),
        },
        ASTNode::ClassNode { cname, methods } => ASTNode::ClassNode {
            cname: cname.clone(),
            methods: clone_nodes(methods),
        },
        ASTNode::FuncDefNode { fname, ret_type, body, paramlist } => ASTNode::FuncDefNode {
            fname: fname.clone(),
            ret_type: clone_ty(ret_type),
            body: Box::new(clone_node(&**body)),
            paramlist: clone_varnodes(paramlist),
        },
        ASTNode::FuncCallNode { fname, arglist } => ASTNode::FuncCallNode {
            fname: fname.clone(),
            arglist: clone_nodes(arglist),
        },
        ASTNode::StdFuncCallNode { func, arglist } => ASTNode::StdFuncCallNode {
            func: *func,
            arglist: clone_nodes(arglist),
        },
        ASTNode::ErrorNode { err } => match err {
            ASTError::TypeError(s) => ASTNode::ErrorNode { err: ASTError::TypeError(s.clone()) },
        },
        ASTNode::ReturnNode { expr } => ASTNode::ReturnNode { expr: Box::new(clone_node(&**expr)) },
        ASTNode::MainNode { body } => ASTNode::MainNode { body: Box::new(clone_node(&**body)) },
        ASTNode::BreakNode => ASTNode::BreakNode,
        ASTNode::BreakpointNode => ASTNode::BreakpointNode,
        ASTNode::ContinueNode => ASTNode::ContinueNode,
        ASTNode::Void => ASTNode::Void,
        ASTNode::Null => ASTNode::Null,
    }
}

pub fn clone_nodes(l: &List<ASTNode>) -> (r: List<ASTNode>)
    ensures
        r == *l,
    decreases l,
{
    match l {
        List::Nil => List::Nil,
        List::Cons(x, rest) => List::Cons(Box::new(clone_node(&**x)), Box::new(clone_nodes(&**rest))),
    }
}

} // verus!

verus! {

/// Two class types are the same class when they have the same name.
impl PartialEq for ASTClassType {
    fn eq(&self, other: &Self) -> (r: bool) {
        self.name == other.name
    }
}

impl PartialEqSpecImpl for ASTClassType {
    open spec fn obeys_eq_spec() -> bool {
        true
    }

    open spec fn eq_spec(&self, other: &Self) -> bool {
        self.name@ == other.name@
    }
}

impl Eq for ASTClassType {
}

} // verus!
