//! The state the compiler carries from declaration to declaration: the type
//! table, the global, local and per-function symbol tables, and the counters
//! that number variables, labels and classes.
use vstd::prelude::*;
use crate::list::{List, SymTable, DeepClone};
use crate::parserlib::{TypeTable, wrap_name};
use crate::strs::{Out, matches_out, owned};
use crate::types::{
    ASTExprType, ClassSymbolTable, GSymbol, LSymbol, PrimitiveType, VarNode, clone_ty,
    clone_varnodes,
};

verus! {

/// Global variables and functions by name, with the library's built-in functions.
#[derive(Debug)]
pub struct GlobalSymbolTable {
    pub table: SymTable<GSymbol>,
}

/// `g` is a built-in function returning `ret` with label 0, and with one
/// parameter of type `int` named `param`, or none.
pub open spec fn builtin_func(g: Option<GSymbol>, ret: ASTExprType, param: Option<Seq<char>>) -> bool {
    &&& g matches Some(GSymbol::Func { ret_type, paramlist, flabel })
    &&& g->0->Func_ret_type == ret
    &&& g->0->Func_flabel == 0
    &&& match param {
        None => g->0->Func_paramlist is Nil,
        Some(p) => g->0->Func_paramlist matches List::Cons(v, rest) && v.varname@ == p && v.vartype
            == ASTExprType::Primitive(PrimitiveType::Int) && v.varindices is Nil && *rest is Nil,
    }
}

/// `t` binds exactly the built-in functions: `write(int var)` and
/// `read(int var)` returning `int`, `free(int ptr)` returning a pointer to
/// `void`, `initialize()` returning `void`, `syscall()` returning `int` and
/// `alloc()` returning a pointer to `void`, all at label 0.
pub open spec fn builtins_only(t: SymTable<GSymbol>) -> bool {
    &&& builtin_func(t.lookup("write"@), ASTExprType::Primitive(PrimitiveType::Int), Some("var"@))
    &&& builtin_func(t.lookup("read"@), ASTExprType::Primitive(PrimitiveType::Int), Some("var"@))
    &&& builtin_func(
        t.lookup("free"@),
        ASTExprType::Pointer(Box::new(ASTExprType::Primitive(PrimitiveType::Void))),
        Some("ptr"@),
    )
    &&& builtin_func(t.lookup("initialize"@), ASTExprType::Primitive(PrimitiveType::Void), None)
    &&& builtin_func(t.lookup("syscall"@), ASTExprType::Primitive(PrimitiveType::Int), None)
    &&& builtin_func(
        t.lookup("alloc"@),
        ASTExprType::Pointer(Box::new(ASTExprType::Primitive(PrimitiveType::Void))),
        None,
    )
    &&& forall|q: Seq<char>|
        !(q == "write"@ || q == "read"@ || q == "free"@ || q == "initialize"@ || q == "syscall"@
            || q == "alloc"@) ==> #[trigger] t.lookup(q) is None
}

fn int_param(name: &str) -> (r: List<VarNode>)
    ensures
        r matches List::Cons(v, rest) && v.varname@ == name@ && v.vartype == ASTExprType::Primitive(
            PrimitiveType::Int,
        ) && v.varindices is Nil && *rest is Nil,
{
    List::Cons(
        Box::new(
            VarNode {
                varname: owned(name),
                vartype: ASTExprType::Primitive(PrimitiveType::Int),
                varindices: List::Nil,
            },
        ),
        Box::new(List::Nil),
    )
}

fn void_ptr() -> (r: ASTExprType)
    ensures
        r == ASTExprType::Pointer(Box::new(ASTExprType::Primitive(PrimitiveType::Void))),
{
    ASTExprType::Pointer(Box::new(ASTExprType::Primitive(PrimitiveType::Void)))
}

impl Default for GlobalSymbolTable {
    /// The table of built-in functions: `write(int var)`, `read(int var)`,
    /// `free(int ptr)`, `initialize()`, `syscall()` and `alloc()`.
    fn default() -> (r: GlobalSymbolTable)
        ensures
            r.table.wf(),
            builtins_only(r.table),
    {
        proof {
            reveal_strlit("write");
            reveal_strlit("read");
            reveal_strlit("free");
            reveal_strlit("initialize");
            reveal_strlit("syscall");
            reveal_strlit("alloc");
            reveal_strlit("var");
            reveal_strlit("ptr");
        }
        let mut table: SymTable<GSymbol> = SymTable::new();
        table.insert(
            owned("write"),
            GSymbol::Func {
                ret_type: ASTExprType::Primitive(PrimitiveType::Int),
                paramlist: int_param("var"),
                flabel: 0,
            },
        );
        table.insert(
            owned("read"),
            GSymbol::Func {
                ret_type: ASTExprType::Primitive(PrimitiveType::Int),
                paramlist: int_param("var"),
                flabel: 0,
            },
        );
        table.insert(
            owned("free"),
            GSymbol::Func { ret_type: void_ptr(), paramlist: int_param("ptr"), flabel: 0 },
        );
        table.insert(
            owned("initialize"),
            GSymbol::Func {
                ret_type: ASTExprType::Primitive(PrimitiveType::Void),
                paramlist: List::Nil,
                flabel: 0,
            },
        );
        table.insert(
            owned("syscall"),
            GSymbol::Func {
                ret_type: ASTExprType::Primitive(PrimitiveType::Int),
                paramlist: List::Nil,
                flabel: 0,
            },
        );
        table.insert(
            owned("alloc"),
            GSymbol::Func { ret_type: void_ptr(), paramlist: List::Nil, flabel: 0 },
        );
        assert("write"@[0] != "read"@[0]);
        assert("write"@[0] != "free"@[0]);
        assert("write"@[0] != "initialize"@[0]);
        assert("write"@[0] != "syscall"@[0]);
        assert("write"@[0] != "alloc"@[0]);
        assert("read"@[0] != "free"@[0]);
        assert("read"@[0] != "initialize"@[0]);
        assert("read"@[0] != "syscall"@[0]);
        assert("read"@[0] != "alloc"@[0]);
        assert("free"@[0] != "initialize"@[0]);
        assert("free"@[0] != "syscall"@[0]);
        assert("free"@[0] != "alloc"@[0]);
        assert("initialize"@[0] != "syscall"@[0]);
        assert("initialize"@[0] != "alloc"@[0]);
        assert("syscall"@[0] != "alloc"@[0]);
        GlobalSymbolTable { table }
    }
}

impl Default for ClassSymbolTable {
    /// A class with no members.
    fn default() -> (r: ClassSymbolTable)
        ensures
            r.table.entries is Nil,
    {
        ClassSymbolTable { table: SymTable::new() }
    }
}

/// Everything the compiler knows while it reads a program.
#[derive(Debug)]
pub struct Compiler {
    pub type_table: TypeTable,
    /// The local symbol table of each function, by `name#class`.
    pub function_table: SymTable<SymTable<LSymbol>>,
    pub gst: GlobalSymbolTable,
    /// The local symbol table of the function being compiled.
    pub lst: SymTable<LSymbol>,
    /// The frame offset of the next local variable.
    pub local_var_id: i64,
    /// The static address of the next global variable.
    pub var_id: usize,
    /// The return type of the function being compiled.
    pub ret_type: ASTExprType,
    /// Whether the heap has been initialized.
    pub init_flag: bool,
    /// The class being compiled, or empty.
    pub class_name: String,
    /// The parent of the class being compiled, or empty.
    pub parent_class_name: String,
    /// The next free virtual function table index.
    pub vft_id: usize,
    /// The next free code label.
    pub label_count: usize,
    /// The labels of the enclosing loops: for each loop its start, then its end.
    pub while_tracker: Vec<usize>,
}

impl Compiler {
    /// The state before any declaration.
    pub fn new() -> (r: Compiler)
        ensures
            r.type_table.table.wf(),
            r.type_table.lookup("int"@) == Some(ASTExprType::Primitive(PrimitiveType::Int)),
            r.type_table.lookup("str"@) == Some(ASTExprType::Primitive(PrimitiveType::String)),
            r.gst.table.wf(),
            builtins_only(r.gst.table),
            r.lst.entries is Nil,
            r.function_table.entries is Nil,
            r.local_var_id == 1,
            r.var_id == 0,
            r.ret_type == ASTExprType::Primitive(PrimitiveType::Null),
            r.init_flag == false,
            r.class_name@ == Seq::<char>::empty(),
            r.parent_class_name@ == Seq::<char>::empty(),
            r.vft_id == 0,
            r.label_count == 0,
            r.while_tracker@ == Seq::<usize>::empty(),
    {
        let tt = TypeTable::default();
        proof {
            reveal_strlit("int");
            reveal_strlit("str");
            assert("int"@[0] != "str"@[0]);
            assert(tt.lookup("int"@) == Some(ASTExprType::Primitive(PrimitiveType::Int)));
            assert(tt.lookup("str"@) == Some(ASTExprType::Primitive(PrimitiveType::String)));
        }
        Compiler {
            type_table: tt,
            function_table: SymTable::new(),
            gst: GlobalSymbolTable::default(),
            lst: SymTable::new(),
            local_var_id: 1,
            var_id: 0,
            ret_type: ASTExprType::Primitive(PrimitiveType::Null),
            init_flag: false,
            class_name: String::new(),
            parent_class_name: String::new(),
            vft_id: 0,
            label_count: 0,
            while_tracker: Vec::new(),
        }
    }
}

} // verus!

verus! {

/// `t` under `n` pointer levels.
pub open spec fn ptr_n(t: ASTExprType, n: nat) -> ASTExprType
    decreases n,
{
    if n == 0 {
        t
    } else {
        ptr_n(ASTExprType::Pointer(Box::new(t)), (n - 1) as nat)
    }
}

/// `acc` multiplied by each dimension in turn, or `None` when a partial
/// product does not fit in a machine word.
pub open spec fn scaled(l: List<usize>, acc: int) -> Option<int>
    decreases l,
{
    match l {
        List::Nil => Some(acc),
        List::Cons(i, rest) => if acc * (*i as int) > usize::MAX {
            None
        } else {
            scaled(*rest, acc * (*i as int))
        },
    }
}

pub(crate) fn scale(l: &List<usize>, acc: usize) -> (r: usize)
    requires
        scaled(*l, acc as int) is Some,
    ensures
        r as int == scaled(*l, acc as int)->0,
    decreases l,
{
    match l {
        List::Nil => acc,
        List::Cons(i, rest) => {
            match acc.checked_mul(**i) {
                Some(v) => scale(&**rest, v),
                None => acc,
            }
        },
    }
}

fn wrap_ptrs(t: ASTExprType, l: &List<usize>) -> (r: ASTExprType)
    ensures
        r == ptr_n(t, l.len()),
    decreases l,
{
    match l {
        List::Nil => t,
        List::Cons(_, rest) => wrap_ptrs(ASTExprType::Pointer(Box::new(t)), &**rest),
    }
}

/// The type of a declared variable of element type `t` with `n` dimensions:
/// an array is used through a pointer per dimension.
pub open spec fn array_type(t: ASTExprType, n: nat) -> Out<Option<ASTExprType>> {
    if t is Error && n > 0 {
        Out::Crash
    } else {
        Out::Value(Some(ptr_n(t, n)))
    }
}

impl Compiler {
    /// The type of the variable `name`: a local one first, then a global one.
    pub open spec fn var_type_spec(&self, name: Seq<char>) -> Out<Option<ASTExprType>> {
        match self.lst.lookup(name) {
            Some(LSymbol::Var { vartype, varindices, .. }) => array_type(vartype, varindices.len()),
            None => match self.gst.table.lookup(name) {
                Some(GSymbol::Var { vartype, varindices, .. }) => array_type(
                    vartype,
                    varindices.len(),
                ),
                _ => Out::Value(None),
            },
        }
    }

    /// The dimensions of the variable `name`.
    pub open spec fn var_indices_spec(&self, name: Seq<char>) -> Option<List<usize>> {
        match self.lst.lookup(name) {
            Some(LSymbol::Var { varindices, .. }) => Some(varindices),
            None => match self.gst.table.lookup(name) {
                Some(GSymbol::Var { varindices, .. }) => Some(varindices),
                _ => None,
            },
        }
    }

    /// The address of the variable `name`: a frame offset for a local, a
    /// static offset for a global.
    pub open spec fn var_id_spec(&self, name: Seq<char>) -> Out<Option<i64>> {
        match self.lst.lookup(name) {
            Some(LSymbol::Var { varid, .. }) => Out::Value(Some(varid)),
            None => match self.gst.table.lookup(name) {
                Some(GSymbol::Var { varid, .. }) => if varid <= i64::MAX {
                    Out::Value(Some(varid as i64))
                } else {
                    Out::Crash
                },
                _ => Out::Value(None),
            },
        }
    }

    /// Whether `name` is a variable in scope.
    pub open spec fn in_scope_spec(&self, name: Seq<char>) -> Out<()> {
        if self.lst.lookup(name) is Some {
            Out::Value(())
        } else {
            match self.gst.table.lookup(name) {
                Some(GSymbol::Var { .. }) => Out::Value(()),
                Some(GSymbol::Func { .. }) => Out::Fail(
                    "Symbol ["@ + name + "] declared as a function."@,
                ),
                None => Out::Fail("Symbol ["@ + name + "] is not declared."@),
            }
        }
    }
}

/// The type of the variable `name`: its element type under one pointer per
/// array dimension.
pub fn getvartype(name: &String, env: &Compiler) -> (r: Option<ASTExprType>)
    requires
        env.var_type_spec(name@).defined(),
    ensures
        env.var_type_spec(name@) == Out::Value(r),
{
    if let Some(LSymbol::Var { vartype, varid: _, varindices }) = env.lst.get(name) {
        return Some(wrap_ptrs(clone_ty(vartype), varindices));
    }
    if let Some(GSymbol::Var { vartype, varid: _, varindices }) = env.gst.table.get(name) {
        return Some(wrap_ptrs(clone_ty(vartype), varindices));
    }
    None
}

/// The array dimensions of the variable `name`.
pub fn getvarindices(name: &String, env: &Compiler) -> (r: Option<List<usize>>)
    ensures
        r == env.var_indices_spec(name@),
{
    if let Some(LSymbol::Var { vartype: _, varid: _, varindices }) = env.lst.get(name) {
        return Some(varindices.deep_clone());
    }
    if let Some(GSymbol::Var { vartype: _, varid: _, varindices }) = env.gst.table.get(name) {
        return Some(varindices.deep_clone());
    }
    None
}

/// The address of the variable `name`.
pub fn getvarid(name: &String, env: &Compiler) -> (r: Option<i64>)
    requires
        env.var_id_spec(name@).defined(),
    ensures
        env.var_id_spec(name@) == Out::Value(r),
{
    if let Some(LSymbol::Var { vartype: _, varid, .. }) = env.lst.get(name) {
        return Some(*varid);
    }
    if let Some(GSymbol::Var { vartype: _, varid, .. }) = env.gst.table.get(name) {
        return Some(*varid as i64);
    }
    None
}

/// Whether `name` names a variable in scope.
pub fn varinscope(name: &String, env: &Compiler) -> (r: Result<(), String>)
    ensures
        matches_out(r, env.in_scope_spec(name@)),
{
    if env.lst.contains_key(name) {
        Ok(())
    } else {
        match env.gst.table.get(name) {
            Some(GSymbol::Var { .. }) => Ok(()),
            Some(GSymbol::Func { .. }) => Err(wrap_name("Symbol [", name, "] declared as a function.")),
            None => Err(wrap_name("Symbol [", name, "] is not declared.")),
        }
    }
}

} // verus!

verus! {

/// A parameter or local variable `name` must not be a function or an
/// already declared local.
pub open spec fn locality_spec(gst: SymTable<GSymbol>, lst: SymTable<LSymbol>, name: Seq<char>) -> Out<
    (),
> {
    if gst.lookup(name) matches Some(GSymbol::Func { .. }) {
        Out::Fail("Parameter Symbol "@ + name + " is already declared as a function"@)
    } else if lst.lookup(name) is Some {
        Out::Fail("Parameter Symbol ["@ + name + "] is already declared "@)
    } else {
        Out::Value(())
    }
}

fn check_locality(gst: &SymTable<GSymbol>, lst: &SymTable<LSymbol>, name: &String) -> (r: Result<(), String>)
    ensures
        matches_out(r, locality_spec(*gst, *lst, name@)),
{
    if let Some(GSymbol::Func { .. }) = gst.get(name) {
        return Err(wrap_name("Parameter Symbol ", name, " is already declared as a function"));
    }
    if lst.contains_key(name) {
        return Err(wrap_name("Parameter Symbol [", name, "] is already declared "));
    }
    Ok(())
}

/// The number of words the global variable of type `t` takes, before its
/// dimensions are applied.
pub open spec fn global_elem_size(t: ASTExprType) -> Option<int> {
    match t {
        ASTExprType::Primitive(_) => Some(1),
        ASTExprType::Pointer(_) => Some(1),
        ASTExprType::Struct(s) => Some(s.size as int),
        ASTExprType::Class(c) => if 0 <= c.methodsize + c.fieldsize <= usize::MAX {
            Some(c.methodsize + c.fieldsize)
        } else {
            None
        },
        ASTExprType::Error => Some(0),
    }
}

/// `ret_type` or a parameter type has a class as base.
pub open spec fn has_class_base(ret_type: ASTExprType, params: List<VarNode>) -> bool {
    ret_type.base_spec() is Class || exists|i: int|
        0 <= i < params.seq().len() && (#[trigger] params.seq()[i]).vartype.base_spec() is Class
}

impl VarNode {
    /// Checks that this parameter may be declared as a local of the current function.
    pub fn validate_locality(&mut self, env: &Compiler) -> (r: Result<(), String>)
        ensures
            *final(self) == *old(self),
            matches_out(r, locality_spec(env.gst.table, env.lst, old(self).varname@)),
    {
        check_locality(&env.gst.table, &env.lst, &self.varname)
    }

    /// Declaring this variable as a local of the current function: what it
    /// gives and the state after. It takes the next frame offset, which moves
    /// on by the product of its dimensions.
    pub open spec fn install_lst_spec(self, env: Compiler) -> (Out<()>, Compiler) {
        match locality_spec(env.gst.table, env.lst, self.varname@) {
            Out::Fail(e) => (Out::Fail(e), env),
            _ => if env.type_table.has(self.varname@) {
                (
                    Out::Fail(
                        "Name ["@ + self.varname@
                            + "]  exists as a user defined type and cannot be used to declare a local variable."@,
                    ),
                    env,
                )
            } else {
                match scaled(self.varindices, 1) {
                    None => (Out::Crash, env),
                    Some(size) => if size > i64::MAX || env.local_var_id + size > i64::MAX {
                        (Out::Crash, env)
                    } else {
                        (
                            Out::Value(()),
                            Compiler {
                                lst: env.lst.with(
                                    self.varname,
                                    LSymbol::Var {
                                        vartype: self.vartype,
                                        varid: env.local_var_id,
                                        varindices: self.varindices,
                                    },
                                ),
                                local_var_id: (env.local_var_id + size) as i64,
                                ..env
                            },
                        )
                    },
                }
            },
        }
    }

    pub fn install_to_lst(&mut self, env: &mut Compiler) -> (r: Result<(), String>)
        requires
            old(self).install_lst_spec(*old(env)).0.defined(),
        ensures
            *final(self) == *old(self),
            matches_out(r, old(self).install_lst_spec(*old(env)).0),
            *final(env) == old(self).install_lst_spec(*old(env)).1,
            r is Ok ==> final(env).local_var_id == old(env).local_var_id + dims_product(old(self).varindices),
    {
        proof {
            if old(self).install_lst_spec(*old(env)).0 is Value {
                lemma_local_storage(*old(self), *old(env));
            }
        }
        self.validate_locality(env)?;
        if env.type_table.tt_exists(&self.varname) {
            return Err(
                wrap_name(
                    "Name [",
                    &self.varname,
                    "]  exists as a user defined type and cannot be used to declare a local variable.",
                ),
            );
        }
        let size = scale(&self.varindices, 1);
        env.lst.insert(
            self.varname.clone(),
            LSymbol::Var {
                vartype: clone_ty(&self.vartype),
                varid: env.local_var_id,
                varindices: self.varindices.deep_clone(),
            },
        );
        env.local_var_id = env.local_var_id + size as i64;
        Ok(())
    }

    /// Declaring this variable as a global: what it gives and the state
    /// after. It takes the next static address, which moves on by its size
    /// times the product of its dimensions.
    pub open spec fn install_gst_spec(self, env: Compiler) -> (Out<()>, Compiler) {
        if env.type_table.has(self.varname@) {
            (
                Out::Fail(
                    "Name ["@ + self.varname@
                        + "]  exists as a user defined type and cannot be used to declare a global variable."@,
                ),
                env,
            )
        } else if env.gst.table.lookup(self.varname@) is Some {
            (Out::Fail("Global symbol ["@ + self.varname@ + "] is already declared."@), env)
        } else {
            match global_elem_size(self.vartype) {
                None => (Out::Crash, env),
                Some(s0) => match scaled(self.varindices, s0) {
                    None => (Out::Crash, env),
                    Some(size) => if env.var_id + size > usize::MAX {
                        (Out::Crash, env)
                    } else {
                        (
                            Out::Value(()),
                            Compiler {
                                gst: GlobalSymbolTable {
                                    table: env.gst.table.with(
                                        self.varname,
                                        GSymbol::Var {
                                            vartype: self.vartype,
                                            varid: env.var_id,
                                            varindices: self.varindices,
                                        },
                                    ),
                                },
                                var_id: (env.var_id + size) as usize,
                                ..env
                            },
                        )
                    },
                },
            }
        }
    }

    pub fn install_to_gst(self, env: &mut Compiler) -> (r: Result<(), String>)
        requires
            self.install_gst_spec(*old(env)).0.defined(),
        ensures
            matches_out(r, self.install_gst_spec(*old(env)).0),
            *final(env) == self.install_gst_spec(*old(env)).1,
            r is Ok ==> final(env).var_id == old(env).var_id + words_per_element(self.vartype) * dims_product(
                self.varindices,
            ),
    {
        proof {
            if self.install_gst_spec(*old(env)).0 is Value {
                lemma_global_storage(self, *old(env));
            }
        }
        if env.type_table.tt_exists(&self.varname) {
            return Err(
                wrap_name(
                    "Name [",
                    &self.varname,
                    "]  exists as a user defined type and cannot be used to declare a global variable.",
                ),
            );
        }
        if env.gst.table.contains_key(&self.varname) {
            return Err(wrap_name("Global symbol [", &self.varname, "] is already declared."));
        }
        let s0: usize = match &self.vartype {
            ASTExprType::Primitive(_) => 1,
            ASTExprType::Pointer(_) => 1,
            ASTExprType::Struct(s) => s.size,
            ASTExprType::Class(c) => (c.methodsize as i128 + c.fieldsize as i128) as usize,
            ASTExprType::Error => 0,
        };
        let size = scale(&self.varindices, s0);
        let ghost old_self = self;
        let VarNode { varname, vartype, varindices } = self;
        env.gst.table.insert(varname, GSymbol::Var { vartype, varid: env.var_id, varindices });
        env.var_id = env.var_id + size;
        Ok(())
    }
}

/// Declaring the function `funcname`: what it gives and the state after. It
/// takes the next code label.
pub open spec fn install_func_spec(
    funcname: String,
    returntype: ASTExprType,
    paramlist: List<VarNode>,
    env: Compiler,
) -> (Out<()>, Compiler) {
    if has_class_base(returntype, paramlist) {
        (Out::Fail("Classes are not allowed as return types."@), env)
    } else if env.type_table.has(funcname@) {
        (
            Out::Fail(
                "Name ["@ + funcname@
                    + "]  exists as a user defined type and cannot be used to declare a function."@,
            ),
            env,
        )
    } else if env.gst.table.lookup(funcname@) is Some {
        (Out::Fail("Global symbol ["@ + funcname@ + "] is already declared."@), env)
    } else if env.label_count == usize::MAX {
        (Out::Crash, env)
    } else {
        (
            Out::Value(()),
            Compiler {
                gst: GlobalSymbolTable {
                    table: env.gst.table.with(
                        funcname,
                        GSymbol::Func {
                            ret_type: returntype,
                            paramlist,
                            flabel: env.label_count,
                        },
                    ),
                },
                label_count: (env.label_count + 1) as usize,
                ..env
            },
        )
    }
}

fn any_class_param(params: &List<VarNode>) -> (r: bool)
    ensures
        r == exists|i: int|
            0 <= i < params.seq().len() && (#[trigger] params.seq()[i]).vartype.base_spec() is Class,
    decreases params,
{
    match params {
        List::Nil => false,
        List::Cons(p, rest) => {
            let b = p.vartype.get_base_type().is_class();
            let r = any_class_param(&**rest);
            assert(params.seq() == seq![**p] + rest.seq());
            if b {
                assert(params.seq()[0] == **p);
                true
            } else {
                proof {
                    if r {
                        let i = choose|i: int|
                            0 <= i < rest.seq().len() && (#[trigger] rest.seq()[i]).vartype.base_spec() is Class;
                        assert(params.seq()[i + 1] == rest.seq()[i]);
                    } else {
                        assert forall|i: int|
                            0 <= i < params.seq().len() implies !((#[trigger] params.seq()[i]).vartype.base_spec() is Class) by {
                            if i > 0 {
                                assert(params.seq()[i] == rest.seq()[i - 1]);
                            }
                        }
                    }
                }
                r
            }
        },
    }
}

/// Declares the function `funcname` with its return type and parameters.
pub fn install_func_to_gst(
    funcname: String,
    returntype: ASTExprType,
    paramlist: &List<VarNode>,
    env: &mut Compiler,
) -> (r: Result<(), String>)
    requires
        install_func_spec(funcname, returntype, *paramlist, *old(env)).0.defined(),
    ensures
        matches_out(r, install_func_spec(funcname, returntype, *paramlist, *old(env)).0),
        *final(env) == install_func_spec(funcname, returntype, *paramlist, *old(env)).1,
{
    if returntype.get_base_type().is_class() {
        return Err(owned("Classes are not allowed as return types."));
    }
    if any_class_param(paramlist) {
        return Err(owned("Classes are not allowed as return types."));
    }
    if env.type_table.tt_exists(&funcname) {
        return Err(
            wrap_name(
                "Name [",
                &funcname,
                "]  exists as a user defined type and cannot be used to declare a function.",
            ),
        );
    }
    if env.gst.table.contains_key(&funcname) {
        return Err(wrap_name("Global symbol [", &funcname, "] is already declared."));
    }
    env.gst.table.insert(
        funcname,
        GSymbol::Func { ret_type: returntype, paramlist: clone_varnodes(paramlist), flabel: env.label_count },
    );
    env.label_count = env.label_count + 1;
    Ok(())
}

} // verus!

verus! {

/// Declaring parameters as locals, the last first, from the frame offset
/// `id` downwards: each takes the block of offsets just below the previous
/// one, sized by its type and dimensions. Gives the next free offset and the
/// local table after; a refused parameter stops the declarations.
pub open spec fn params_spec(gst: SymTable<GSymbol>, lst: SymTable<LSymbol>, params: List<VarNode>, id: i64) -> (
    Out<i64>,
    SymTable<LSymbol>,
)
    decreases params,
{
    match params {
        List::Nil => (Out::Value(id), lst),
        List::Cons(p, rest) => {
            let (o, lst1) = params_spec(gst, lst, *rest, id);
            match o {
                Out::Value(id1) => match locality_spec(gst, lst1, p.varname@) {
                    Out::Fail(e) => (Out::Fail(e), lst1),
                    _ => if p.vartype is Error || !(0 <= p.vartype.size_spec() <= usize::MAX) {
                        (Out::Crash, lst1)
                    } else {
                        match scaled(p.varindices, p.vartype.size_spec()) {
                            None => (Out::Crash, lst1),
                            Some(siz) => if siz > i64::MAX || id1 - siz < i64::MIN || id1 - (siz - 1) > i64::MAX {
                                (Out::Crash, lst1)
                            } else {
                                (
                                    Out::Value((id1 - siz) as i64),
                                    lst1.with(
                                        p.varname,
                                        LSymbol::Var {
                                            vartype: p.vartype,
                                            varid: (id1 - (siz - 1)) as i64,
                                            varindices: p.varindices,
                                        },
                                    ),
                                )
                            },
                        }
                    },
                },
                Out::Fail(e) => (Out::Fail(e), lst1),
                Out::Crash => (Out::Crash, lst1),
            }
        },
    }
}

fn install_params(gst: &SymTable<GSymbol>, lst: &mut SymTable<LSymbol>, params: &List<VarNode>, id: i64) -> (r:
    Result<i64, String>)
    requires
        params_spec(*gst, *old(lst), *params, id).0.defined(),
    ensures
        matches_out(r, params_spec(*gst, *old(lst), *params, id).0),
        *final(lst) == params_spec(*gst, *old(lst), *params, id).1,
    decreases params,
{
    match params {
        List::Nil => Ok(id),
        List::Cons(p, rest) => {
            let id1 = install_params(gst, lst, &**rest, id)?;
            check_locality(gst, lst, &p.varname)?;
            let s0 = match p.vartype.size() {
                Ok(n) => n,
                Err(e) => {
                    return Err(e);
                },
            };
            let siz = scale(&p.varindices, s0);
            lst.insert(
                p.varname.clone(),
                LSymbol::Var {
                    vartype: clone_ty(&p.vartype),
                    varid: id1 - (siz as i64 - 1),
                    varindices: p.varindices.deep_clone(),
                },
            );
            Ok(id1 - siz as i64)
        },
    }
}

/// Declares the parameters of the function being compiled as its locals,
/// below the frame base (from offset -3 down, the last parameter first).
pub fn __lst_install_params(paramlist: &mut List<VarNode>, env: &mut Compiler) -> (r: Result<(), String>)
    requires
        params_spec(old(env).gst.table, old(env).lst, *old(paramlist), -3i64).0.defined(),
    ensures
        *final(paramlist) == *old(paramlist),
        matches_out(
            r,
            match params_spec(old(env).gst.table, old(env).lst, *old(paramlist), -3i64).0 {
                Out::Value(_) => Out::Value(()),
                Out::Fail(e) => Out::Fail(e),
                Out::Crash => Out::Crash,
            },
        ),
        *final(env) == (Compiler {
            lst: params_spec(old(env).gst.table, old(env).lst, *old(paramlist), -3i64).1,
            ..*old(env)
        }),
{
    let r = install_params(&env.gst.table, &mut env.lst, paramlist, -3);
    match r {
        Ok(_) => Ok(()),
        Err(e) => Err(e),
    }
}

} // verus!

verus! {

/// A global variable that `install_to_gst` accepts is then in scope with
/// its declared type (one pointer level per dimension), its dimensions, and
/// the static address it was given, unless a local variable of the same
/// name hides it.
pub proof fn lemma_global_installed(v: VarNode, env: Compiler)
    requires
        v.install_gst_spec(env).0 == Out::<()>::Value(()),
        env.lst.lookup(v.varname@) is None,
    ensures
        v.install_gst_spec(env).1.in_scope_spec(v.varname@) == Out::<()>::Value(()),
        v.install_gst_spec(env).1.var_type_spec(v.varname@) == array_type(v.vartype, v.varindices.len()),
        v.install_gst_spec(env).1.var_indices_spec(v.varname@) == Some(v.varindices),
        env.var_id <= i64::MAX ==> v.install_gst_spec(env).1.var_id_spec(v.varname@) == Out::Value(
            Some(env.var_id as i64),
        ),
{
    let sym = GSymbol::Var { vartype: v.vartype, varid: env.var_id, varindices: v.varindices };
    crate::list::lemma_assoc_insert(env.gst.table.entries, v.varname, sym);
}

/// `getvarindices`, `varinscope` and `getvarid` agree on which names are
/// variables in scope: a name has dimensions exactly when it is in scope,
/// and then exactly when it has an address (where that address is defined).
pub proof fn lemma_scope_agrees(env: Compiler, name: Seq<char>)
    ensures
        env.var_indices_spec(name) is Some <==> env.in_scope_spec(name) is Value,
        env.var_id_spec(name).defined() ==> (env.var_id_spec(name) matches Out::Value(Some(_))
            <==> env.var_indices_spec(name) is Some),
        env.var_id_spec(name) matches Out::Value(None) ==> env.in_scope_spec(name) is Fail,
{
}

} // verus!

verus! {

/// The number of elements of an array with dimensions `l` (1 for a scalar).
pub open spec fn dims_product(l: List<usize>) -> int
    decreases l,
{
    match l {
        List::Nil => 1,
        List::Cons(i, rest) => (*i as int) * dims_product(*rest),
    }
}

proof fn lemma_scaled_product(l: List<usize>, acc: int)
    requires
        scaled(l, acc) is Some,
    ensures
        scaled(l, acc) == Some(acc * dims_product(l)),
        dims_product(l) >= 0,
    decreases l,
{
    match l {
        List::Nil => {},
        List::Cons(i, rest) => {
            lemma_scaled_product(*rest, acc * (*i as int));
            let p = dims_product(*rest);
            let k = *i as int;
            assert((acc * k) * p == acc * (k * p)) by (nonlinear_arith);
            assert(k * p >= 0) by (nonlinear_arith)
                requires
                    k >= 0,
                    p >= 0,
            ;
        },
    }
}

/// The words a global of type `t` takes per element: its size for a
/// struct, its fields and methods for a class, one word otherwise.
pub open spec fn words_per_element(t: ASTExprType) -> int {
    match t {
        ASTExprType::Struct(s) => s.size as int,
        ASTExprType::Class(c) => c.methodsize + c.fieldsize,
        ASTExprType::Error => 0,
        _ => 1,
    }
}

/// A global that is declared gets the next static address, and the next
/// address moves on by its storage: the words of its type times the number
/// of its elements.
pub proof fn lemma_global_storage(v: VarNode, env: Compiler)
    requires
        v.install_gst_spec(env).0 is Value,
    ensures
        v.install_gst_spec(env).1.gst.table.lookup(v.varname@) == Some(
            GSymbol::Var { vartype: v.vartype, varid: env.var_id, varindices: v.varindices },
        ),
        v.install_gst_spec(env).1.var_id == env.var_id + words_per_element(v.vartype) * dims_product(v.varindices),
{
    let sym = GSymbol::Var { vartype: v.vartype, varid: env.var_id, varindices: v.varindices };
    crate::list::lemma_assoc_insert(env.gst.table.entries, v.varname, sym);
    let s0 = global_elem_size(v.vartype)->0;
    lemma_scaled_product(v.varindices, s0);
    assert(s0 == words_per_element(v.vartype));
    let p = dims_product(v.varindices);
    assert(s0 * p >= 0) by (nonlinear_arith)
        requires
            s0 >= 0,
            p >= 0,
    ;
}

/// Two globals declared one after the other have disjoint storage: the
/// second starts where the storage of the first ends.
pub proof fn lemma_globals_disjoint(v1: VarNode, v2: VarNode, env: Compiler)
    requires
        v1.install_gst_spec(env).0 is Value,
        v2.install_gst_spec(v1.install_gst_spec(env).1).0 is Value,
    ensures
        ({
            let env1 = v1.install_gst_spec(env).1;
            let env2 = v2.install_gst_spec(env1).1;
            &&& env2.gst.table.lookup(v1.varname@) matches Some(GSymbol::Var { varid: a1, .. })
            &&& env2.gst.table.lookup(v2.varname@) matches Some(GSymbol::Var { varid: a2, .. })
            &&& a1 == env.var_id
            &&& a2 == a1 + words_per_element(v1.vartype) * dims_product(v1.varindices)
        }),
{
    let env1 = v1.install_gst_spec(env).1;
    lemma_global_storage(v1, env);
    lemma_global_storage(v2, env1);
    let sym = GSymbol::Var { vartype: v2.vartype, varid: env1.var_id, varindices: v2.varindices };
    crate::list::lemma_assoc_insert(env1.gst.table.entries, v2.varname, sym);
}

/// A local that is declared gets the next frame offset, and the next offset
/// moves on by the number of its elements.
pub proof fn lemma_local_storage(v: VarNode, env: Compiler)
    requires
        v.install_lst_spec(env).0 is Value,
    ensures
        v.install_lst_spec(env).1.lst.lookup(v.varname@) == Some(
            LSymbol::Var { vartype: v.vartype, varid: env.local_var_id, varindices: v.varindices },
        ),
        v.install_lst_spec(env).1.local_var_id == env.local_var_id + dims_product(v.varindices),
{
    let sym = LSymbol::Var { vartype: v.vartype, varid: env.local_var_id, varindices: v.varindices };
    crate::list::lemma_assoc_insert(env.lst.entries, v.varname, sym);
    lemma_scaled_product(v.varindices, 1);
}

/// Two locals declared one after the other occupy disjoint frame cells: the
/// second starts where the elements of the first end.
pub proof fn lemma_locals_disjoint(v1: VarNode, v2: VarNode, env: Compiler)
    requires
        v1.install_lst_spec(env).0 is Value,
        v2.install_lst_spec(v1.install_lst_spec(env).1).0 is Value,
    ensures
        ({
            let env1 = v1.install_lst_spec(env).1;
            let env2 = v2.install_lst_spec(env1).1;
            &&& env2.lst.lookup(v1.varname@) matches Some(LSymbol::Var { varid: a1, .. })
            &&& env2.lst.lookup(v2.varname@) matches Some(LSymbol::Var { varid: a2, .. })
            &&& a1 == env.local_var_id
            &&& a2 == a1 + dims_product(v1.varindices)
        }),
{
    let env1 = v1.install_lst_spec(env).1;
    lemma_local_storage(v1, env);
    lemma_local_storage(v2, env1);
    let sym = LSymbol::Var { vartype: v2.vartype, varid: env1.local_var_id, varindices: v2.varindices };
    crate::list::lemma_assoc_insert(env1.lst.entries, v2.varname, sym);
}

} // verus!
