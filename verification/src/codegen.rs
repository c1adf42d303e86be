//! Code generation: the XSM assembly of a validated syntax tree, with the
//! register file, the label counter and the loop labels as explicit state.
use vstd::prelude::*;
use crate::list::{List, SymTable, DeepClone, assoc_insert, assoc_lookup, assoc_distinct};
use crate::parserlib::TypeTable;
use crate::state::{Compiler, GlobalSymbolTable, getvarid, getvarindices, getvartype, scaled, scale, install_func_spec};
use crate::strs::{Out, matches_out, views, dec, dec_int, cat, owned, usize_to_string, i64_to_string};
use crate::types::{
    ASTError, ASTExprType, ASTNode, ASTNodeType, CSymbol, GSymbol, LSymbol, PrimitiveType,
    STDLibFunction, VarNode, clone_ty,
};
use crate::validation::deref_n;

verus! {

/// Number of general purpose registers; a register number equal to it means
/// that none was free.
pub const MAX_REGISTERS: usize = 21;

/// What the generator returns for a node that leaves no value in a register.
pub const CONN_RETURN: usize = 25;

/// Start of the static area that holds the global variables.
pub const XSM_STACK_OFFSET: i64 = 4096;

/// The label given for a function that is not declared.
pub const LABEL_NOT_FOUND: usize = 10000;

// ---------------------------------------------------------------------------
// The model of the generator's state.
// ---------------------------------------------------------------------------

/// The part of the generator's state that code generation changes: the
/// register file (in use, tracked value), the saved register files of the
/// calls being set up, the frame size of the function being compiled, the
/// label counter, the loop labels, the class being compiled, the local
/// symbol table and the lines written so far.
pub ghost struct GenView {
    pub regs: Seq<(bool, i64)>,
    pub stack: Seq<Seq<(bool, i64)>>,
    pub storage: i64,
    pub labels: usize,
    pub loops: Seq<usize>,
    pub class_name: Seq<char>,
    pub lst: SymTable<LSymbol>,
    pub lines: Seq<Seq<char>>,
}

/// The register file of a fresh frame: no register in use.
pub open spec fn fresh_regs() -> Seq<(bool, i64)> {
    Seq::new(21, |i: int| (false, 0i64))
}

/// The lowest register at or after `i` that is not in use, or 21.
pub open spec fn first_free(regs: Seq<(bool, i64)>, i: nat) -> nat
    decreases 21 - i,
{
    if i >= 21 {
        21
    } else if !regs[i as int].0 {
        i
    } else {
        first_free(regs, i + 1)
    }
}

pub open spec fn mark(regs: Seq<(bool, i64)>, i: int, b: bool) -> Seq<(bool, i64)> {
    regs.update(i, (b, regs[i].1))
}

pub open spec fn clear_all(regs: Seq<(bool, i64)>) -> Seq<(bool, i64)> {
    Seq::new(regs.len(), |i: int| (false, regs[i].1))
}

/// `pre`, the numeral of `a`, then `post`.
pub open spec fn l1(pre: Seq<char>, a: int, post: Seq<char>) -> Seq<char> {
    pre + dec_int(a) + post
}

/// `pre`, the numeral of `a`, `mid`, then the numeral of `b`.
pub open spec fn l2(pre: Seq<char>, a: int, mid: Seq<char>, b: int) -> Seq<char> {
    pre + dec_int(a) + mid + dec_int(b)
}

/// `PUSH` lines for the registers below `n` that are in use, in order.
pub open spec fn push_upto(regs: Seq<(bool, i64)>, n: nat) -> Seq<Seq<char>>
    decreases n,
{
    if n == 0 {
        Seq::empty()
    } else {
        let i = (n - 1) as nat;
        push_upto(regs, i) + if regs[i as int].0 {
            seq![l1("PUSH R"@, i as int, ""@)]
        } else {
            Seq::empty()
        }
    }
}

/// `POP` lines for the registers from 20 down to `n` that are in use,
/// except `safe`.
pub open spec fn pop_from(regs: Seq<(bool, i64)>, safe: usize, n: nat) -> Seq<Seq<char>>
    decreases 21 - n,
{
    if n >= 21 {
        Seq::empty()
    } else {
        pop_from(regs, safe, n + 1) + if regs[n as int].0 && n != safe {
            seq![l1("POP R"@, n as int, ""@)]
        } else {
            Seq::empty()
        }
    }
}

/// The three lines that copy one more word of a struct, `k` times.
pub open spec fn copy_lines(l: usize, r: usize, k: nat) -> Seq<Seq<char>>
    decreases k,
{
    if k == 0 {
        Seq::empty()
    } else {
        copy_lines(l, r, (k - 1) as nat) + seq![
            l2("MOV [R"@, l as int, "], R"@, r as int),
            l1("ADD R"@, l as int, ", 1"@),
            l1("ADD R"@, r as int, ", 1"@),
        ]
    }
}

/// `line`, `k` times.
pub open spec fn repeat_line(line: Seq<char>, k: nat) -> Seq<Seq<char>>
    decreases k,
{
    if k == 0 {
        Seq::empty()
    } else {
        repeat_line(line, (k - 1) as nat).push(line)
    }
}

impl GenView {
    pub open spec fn wf(self) -> bool {
        &&& self.regs.len() == 21
        &&& forall|i: int| 0 <= i < self.stack.len() ==> (#[trigger] self.stack[i]).len() == 21
    }

    pub open spec fn emit(self, l: Seq<char>) -> GenView {
        GenView { lines: self.lines.push(l), ..self }
    }

    pub open spec fn set_value(self, r: usize, v: i64) -> GenView {
        GenView { regs: self.regs.update(r as int, (self.regs[r as int].0, v)), ..self }
    }

    /// Takes the lowest free register; 21 when none is free.
    pub open spec fn take_reg(self) -> (usize, GenView) {
        let i = first_free(self.regs, 0);
        if i < 21 {
            (i as usize, GenView { regs: mark(self.regs, i as int, true), ..self })
        } else {
            (21usize, self)
        }
    }

    /// Frees register `r`; numbers above 21 are ignored, and 21 is out of
    /// the register file.
    pub open spec fn release(self, r: usize) -> Out<GenView> {
        if r > 21 {
            Out::Value(self)
        } else if r == 21 {
            Out::Crash
        } else {
            Out::Value(GenView { regs: mark(self.regs, r as int, false), ..self })
        }
    }

    /// Saves the register file before a call: the live registers are pushed
    /// and the file starts empty.
    pub open spec fn backup(self) -> GenView {
        GenView {
            stack: self.stack.push(self.regs),
            regs: clear_all(self.regs),
            lines: self.lines + push_upto(self.regs, 21),
            ..self
        }
    }

    /// A register for a call's result: the lowest one free in the saved file.
    pub open spec fn safe_reg(self) -> Out<(usize, GenView)> {
        if self.stack.len() == 0 {
            Out::Crash
        } else {
            let top = self.stack.last();
            let i = first_free(top, 0);
            if i >= 21 {
                Out::Fail("Out of registers"@)
            } else {
                Out::Value(
                    (
                        i as usize,
                        GenView {
                            stack: self.stack.update(self.stack.len() - 1, mark(top, i as int, true)),
                            ..self
                        },
                    ),
                )
            }
        }
    }

    /// Restores the saved register file after a call, keeping `safe` in use.
    pub open spec fn restore(self, safe: usize) -> Out<GenView> {
        if self.stack.len() == 0 || safe >= 21 {
            Out::Crash
        } else {
            let top = self.stack.last();
            Out::Value(
                GenView {
                    regs: mark(top, safe as int, true),
                    stack: self.stack.drop_last(),
                    lines: self.lines + pop_from(top, safe, 0),
                    ..self
                },
            )
        }
    }

    /// The lines of a call of the system library routine `name`, with one
    /// argument `8` when `arg`.
    pub open spec fn lib_call(self, name: Seq<char>, arg: bool) -> Out<(usize, GenView)> {
        match self.backup().safe_reg() {
            Out::Value((r, s)) => {
                let s1 = s.emit(l1("MOV R"@, r as int, ", \""@ + name + "\""@)).emit(
                    l1("PUSH R"@, r as int, ""@),
                );
                let s2 = if arg {
                    s1.emit(l1("MOV R"@, r as int, ", 8"@)).emit(l1("PUSH R"@, r as int, ""@)).emit(
                        "ADD SP, 3"@,
                    )
                } else {
                    s1.emit("ADD SP, 4"@)
                };
                let s3 = s2.emit("CALL 0"@).emit(l1("POP R"@, r as int, ""@)).emit("SUB SP, 4"@);
                match s3.restore(r) {
                    Out::Value(s4) => Out::Value((r, s4)),
                    _ => Out::Crash,
                }
            },
            Out::Fail(e) => Out::Fail(e),
            Out::Crash => Out::Crash,
        }
    }
}

/// The failure of a step that gave no value.
pub open spec fn stop<T, U>(o: Out<T>) -> Out<U> {
    match o {
        Out::Fail(e) => Out::Fail(e),
        _ => Out::Crash,
    }
}

/// The tables of `ctx` with the local symbol table `lst`.
pub open spec fn with_lst(ctx: Compiler, lst: SymTable<LSymbol>) -> Compiler {
    Compiler { lst: lst, ..ctx }
}

/// The code label of the function `fname`: a method of the class `cn` when
/// `cn` is not empty, else a global function.
pub open spec fn label_of(tt: TypeTable, gst: GlobalSymbolTable, fname: Seq<char>, cn: Seq<char>) -> Out<usize> {
    if cn.len() > 0 {
        match tt.lookup(cn) {
            Some(ASTExprType::Class(p)) => match p.symbol_table.table.lookup(fname) {
                Some(CSymbol::Func { flabel, .. }) => Out::Value(flabel),
                _ => Out::Value(LABEL_NOT_FOUND),
            },
            Some(_) => Out::Value(LABEL_NOT_FOUND),
            None => Out::Crash,
        }
    } else {
        match gst.table.lookup(fname) {
            Some(GSymbol::Func { flabel, .. }) => Out::Value(flabel),
            _ => Out::Value(LABEL_NOT_FOUND),
        }
    }
}

/// The last frame cell that the variables of `l` take, and at least 0: a
/// variable at offset `varid` takes as many cells as the product of its
/// dimensions (one for a scalar), from `varid` on. `None` when a product
/// does not fit in a machine word.
pub open spec fn frame_of(l: List<(String, LSymbol)>) -> Option<int>
    decreases l,
{
    match l {
        List::Nil => Some(0),
        List::Cons(e, rest) => match frame_of(*rest) {
            Some(m) => match e.1 {
                LSymbol::Var { varid, varindices, .. } => match scaled(varindices, 1) {
                    Some(c) => {
                        let top = varid + c - 1;
                        Some(
                            if top > m {
                                top
                            } else {
                                m
                            },
                        )
                    },
                    None => None,
                },
            },
            None => None,
        },
    }
}

/// The frame size of the function whose table key is `id` can be computed
/// and written as a machine integer.
pub open spec fn storage_fits(ft: SymTable<SymTable<LSymbol>>, id: Seq<char>) -> bool {
    match ft.lookup(id) {
        Some(t) => frame_of(t.entries) matches Some(m) && m <= i64::MAX,
        None => true,
    }
}

/// The frame size of the function whose table key is `id`: the size of its
/// local declarations, 0 when it has no table.
pub open spec fn storage_of(ft: SymTable<SymTable<LSymbol>>, id: Seq<char>) -> i64 {
    match ft.lookup(id) {
        Some(t) => match frame_of(t.entries) {
            Some(m) => if 0 <= m <= i64::MAX {
                m as i64
            } else {
                0
            },
            None => 0,
        },
        None => 0,
    }
}

/// The key of the function `fname` of the class `cn` in the function table.
pub open spec fn table_id(fname: Seq<char>, cn: Seq<char>) -> Seq<char> {
    fname + "#"@ + cn
}

/// The mnemonic of an arithmetic or comparison operator.
pub open spec fn mnemonic(op: ASTNodeType) -> Seq<char> {
    match op {
        ASTNodeType::Gt => "GT"@,
        ASTNodeType::Lt => "LT"@,
        ASTNodeType::Gte => "GE"@,
        ASTNodeType::Lte => "LE"@,
        ASTNodeType::Ee => "EQ"@,
        ASTNodeType::Ne => "NE"@,
        ASTNodeType::Plus => "ADD"@,
        ASTNodeType::Minus => "SUB"@,
        ASTNodeType::Star => "MUL"@,
        ASTNodeType::Slash => "DIV"@,
        _ => "MOD"@,
    }
}

pub open spec fn is_arith(op: ASTNodeType) -> bool {
    ||| op == ASTNodeType::Gt
    ||| op == ASTNodeType::Lt
    ||| op == ASTNodeType::Gte
    ||| op == ASTNodeType::Lte
    ||| op == ASTNodeType::Ee
    ||| op == ASTNodeType::Ne
    ||| op == ASTNodeType::Plus
    ||| op == ASTNodeType::Minus
    ||| op == ASTNodeType::Star
    ||| op == ASTNodeType::Slash
    ||| op == ASTNodeType::Mod
}

pub open spec fn flag(b: bool) -> i64 {
    if b {
        1
    } else {
        0
    }
}

/// What the XSM instruction with mnemonic `m` leaves in its first register
/// when the two registers hold `a` and `b`: a comparison gives 1 or 0, an
/// arithmetic instruction its result, and `None` where the machine traps
/// (overflow, division by zero). `None` too for any other mnemonic.
pub open spec fn xsm_result(m: Seq<char>, a: i64, b: i64) -> Option<i64> {
    if m == "GT"@ {
        Some(if a > b { 1 } else { 0 })
    } else if m == "LT"@ {
        Some(if a < b { 1 } else { 0 })
    } else if m == "GE"@ {
        Some(if a >= b { 1 } else { 0 })
    } else if m == "LE"@ {
        Some(if a <= b { 1 } else { 0 })
    } else if m == "EQ"@ {
        Some(if a == b { 1 } else { 0 })
    } else if m == "NE"@ {
        Some(if a != b { 1 } else { 0 })
    } else if m == "ADD"@ {
        if i64::MIN <= a + b <= i64::MAX { Some((a + b) as i64) } else { None }
    } else if m == "SUB"@ {
        if i64::MIN <= a - b <= i64::MAX { Some((a - b) as i64) } else { None }
    } else if m == "MUL"@ {
        if i64::MIN <= a * b <= i64::MAX { Some((a * b) as i64) } else { None }
    } else if m == "DIV"@ {
        a.checked_div(b)
    } else if m == "MOD"@ {
        a.checked_rem(b)
    } else {
        None
    }
}

/// The value the generator tracks for `a op b`; `None` where the machine
/// operation overflows or divides by zero.
pub open spec fn fold_value(op: ASTNodeType, a: i64, b: i64) -> Option<i64> {
    match op {
        ASTNodeType::Gt => Some(flag(a > b)),
        ASTNodeType::Lt => Some(flag(a < b)),
        ASTNodeType::Gte => Some(flag(a >= b)),
        ASTNodeType::Lte => Some(flag(a <= b)),
        ASTNodeType::Ee => Some(flag(a == b)),
        ASTNodeType::Ne => Some(flag(a != b)),
        ASTNodeType::Plus => a.checked_add(b),
        ASTNodeType::Minus => a.checked_sub(b),
        ASTNodeType::Star => a.checked_mul(b),
        ASTNodeType::Slash => a.checked_div(b),
        _ => a.checked_rem(b),
    }
}

} // verus!

verus! {

// ---------------------------------------------------------------------------
// What the generator writes for each node, and what it returns: the register
// that holds the node's value, 25 for a statement, or 0 for an operator
// that has no code.
// ---------------------------------------------------------------------------

/// The code for the node `n`, with `refr` asking for an address instead of
/// a value.
pub open spec fn gen(ctx: Compiler, s: GenView, n: ASTNode, refr: bool) -> (Out<usize>, GenView)
    decreases n, 5nat,
{
    match n {
        ASTNode::ClassNode { cname, methods } => {
            let s1 = GenView { class_name: cname@, ..s };
            match gen_list(ctx, s1, methods) {
                (Out::Value(_), s2) => (Out::Value(CONN_RETURN), GenView { class_name: Seq::empty(), ..s2 }),
                (o, s2) => (stop(o), s2),
            }
        },
        ASTNode::ErrorNode { err } => match err {
            ASTError::TypeError(e) => (Out::Fail(e@), s),
        },
        ASTNode::BreakpointNode => (Out::Value(CONN_RETURN), s.emit("BRKP"@)),
        ASTNode::STR(text) => {
            let (r, s1) = s.take_reg();
            if r >= 21 {
                (Out::Crash, s1)
            } else {
                (Out::Value(r), s1.emit(l1("MOV R"@, r as int, ", "@ + text@)).set_value(r, 0))
            }
        },
        ASTNode::INT(v) => {
            let (r, s1) = s.take_reg();
            if r >= 21 {
                (Out::Crash, s1)
            } else {
                (Out::Value(r), s1.emit(l2("MOV R"@, r as int, ", "@, v as int)).set_value(r, v))
            }
        },
        ASTNode::VAR { .. } => gen_var(ctx, s, n, refr),
        ASTNode::BinaryNode { .. } => gen_binary(ctx, s, n),
        ASTNode::Null => {
            let (r, s1) = s.take_reg();
            (Out::Value(r), s1.emit(l1("MOV R"@, r as int, ", \"\""@)))
        },
        ASTNode::UnaryNode { .. } => gen_unary(ctx, s, n, refr),
        ASTNode::StdFuncCallNode { .. } => gen_std(ctx, s, n),
        ASTNode::FuncCallNode { .. } => gen_call(ctx, s, n, refr),
        ASTNode::ReturnNode { expr } => match gen(ctx, s, *expr, refr) {
            (Out::Value(rv), s1) => {
                let (r, s2) = s1.take_reg();
                let s3 = s2.emit(l1("MOV R"@, r as int, ", BP"@)).emit(l1("SUB R"@, r as int, ", 2"@)).emit(
                    l2("MOV [R"@, r as int, "], R"@, rv as int),
                ).emit(l1("SUB SP, "@, s.storage as int, "\nPOP BP"@)).emit("RET"@);
                (Out::Value(CONN_RETURN), GenView { regs: fresh_regs(), ..s3 })
            },
            (o, s1) => (stop(o), s1),
        },
        ASTNode::MainNode { .. } => gen_main(ctx, s, n),
        ASTNode::FuncDefNode { .. } => gen_funcdef(ctx, s, n),
        ASTNode::IfElseNode { .. } => gen_ifelse(ctx, s, n),
        ASTNode::WhileNode { .. } => gen_while(ctx, s, n),
        ASTNode::IfNode { .. } => gen_if(ctx, s, n),
        ASTNode::BreakNode => if s.loops.len() < 1 {
            (Out::Crash, s)
        } else {
            (Out::Value(CONN_RETURN), s.emit(l1("JMP L"@, s.loops[s.loops.len() - 1] as int, ""@)))
        },
        ASTNode::ContinueNode => if s.loops.len() < 2 {
            (Out::Crash, s)
        } else {
            (Out::Value(CONN_RETURN), s.emit(l1("JMP L"@, s.loops[s.loops.len() - 2] as int, ""@)))
        },
        ASTNode::Void => (Out::Value(CONN_RETURN), s),
    }
}

/// The code for each node of `l` in turn.
pub open spec fn gen_list(ctx: Compiler, s: GenView, l: List<ASTNode>) -> (Out<()>, GenView)
    decreases l, 0nat,
{
    match l {
        List::Nil => (Out::Value(()), s),
        List::Cons(h, rest) => match gen(ctx, s, *h, false) {
            (Out::Value(_), s1) => gen_list(ctx, s1, *rest),
            (o, s1) => (stop(o), s1),
        },
    }
}

/// Pushes the value of each argument of `l` in turn.
pub open spec fn gen_args(ctx: Compiler, s: GenView, l: List<ASTNode>, refr: bool) -> (Out<()>, GenView)
    decreases l, 0nat,
{
    match l {
        List::Nil => (Out::Value(()), s),
        List::Cons(h, rest) => match gen(ctx, s, *h, refr) {
            (Out::Value(r), s1) => match s1.emit(l1("PUSH R"@, r as int, ""@)).release(r) {
                Out::Value(s2) => gen_args(ctx, s2, *rest, refr),
                _ => (Out::Crash, s1),
            },
            (o, s1) => (stop(o), s1),
        },
    }
}

/// Adds each index of `l` (the `i`-th on) to the address in `base`, scaled
/// by the dimension `dims[i]` but for the last declared dimension.
pub open spec fn gen_indices(
    ctx: Compiler,
    s: GenView,
    l: List<ASTNode>,
    i: nat,
    base: usize,
    dims: Seq<usize>,
) -> (Out<()>, GenView)
    decreases l, 0nat,
{
    match l {
        List::Nil => (Out::Value(()), s),
        List::Cons(h, rest) => match gen(ctx, s, *h, false) {
            (Out::Value(off), s1) => {
                if dims.len() == 0 || (i != dims.len() - 1 && i >= dims.len()) || off >= 21 {
                    (Out::Crash, s1)
                } else {
                    let s2 = if i != dims.len() - 1 {
                        let (m, s1a) = s1.take_reg();
                        (m, s1a.emit(l2("MUL R"@, off as int, ", "@, dims[i as int] as int)))
                    } else {
                        (22usize, s1)
                    };
                    match s2.1.release(s2.0) {
                        Out::Value(s3) => {
                            let v = s3.regs[base as int].1 + s3.regs[off as int].1;
                            if v < i64::MIN || v > i64::MAX {
                                (Out::Crash, s3)
                            } else {
                                let s4 = s3.emit(l2("ADD R"@, base as int, ", R"@, off as int)).set_value(
                                    base,
                                    v as i64,
                                );
                                match s4.release(off) {
                                    Out::Value(s5) => gen_indices(ctx, s5, *rest, i + 1, base, dims),
                                    _ => (Out::Crash, s4),
                                }
                            }
                        },
                        _ => (Out::Crash, s2.1),
                    }
                }
            },
            (o, s1) => (stop(o), s1),
        },
    }
}

/// Follows the `.` and `->` accesses below `holder` from the address in
/// `base`, of type `t`; a method call there ends the walk.
pub open spec fn gen_chain(
    ctx: Compiler,
    s: GenView,
    holder: ASTNode,
    base: usize,
    t: ASTExprType,
    refr: bool,
    fin: bool,
) -> (Out<usize>, GenView)
    decreases holder, 1nat,
{
    match holder {
        ASTNode::VAR { dot_field_access, arrow_field_access, .. } => {
            let dot = *dot_field_access;
            let arrow = *arrow_field_access;
            if dot is Void && arrow is Void {
                (
                    Out::Value(base),
                    if fin {
                        s.emit(l2("MOV R"@, base as int, ", [R"@, base as int) + "]"@)
                    } else {
                        s
                    },
                )
            } else {
                match dot {
                    ASTNode::VAR { name, .. } => match (t.field_id_spec(name@), t.field_type_spec(
                        name@,
                        ctx.type_table,
                    )) {
                        (Out::Value(off), Out::Value(t2)) => gen_chain(
                            ctx,
                            s.emit(l2("ADD R"@, base as int, ", "@, off as int)),
                            dot,
                            base,
                            t2,
                            refr,
                            fin,
                        ),
                        _ => (Out::Crash, s),
                    },
                    ASTNode::FuncCallNode { fname, arglist } => match t {
                        ASTExprType::Struct(st) => gen_method_call(
                            ctx,
                            s.backup().emit(l1("PUSH R"@, base as int, ""@)),
                            base,
                            st.name@,
                            fname@,
                            arglist,
                            refr,
                        ),
                        ASTExprType::Class(c) => gen_method_call(
                            ctx,
                            s.backup().emit(l1("PUSH R"@, base as int, ""@)),
                            base,
                            c.name@,
                            fname@,
                            arglist,
                            refr,
                        ),
                        _ => (Out::Crash, s),
                    },
                    ASTNode::Void => match t {
                        ASTExprType::Pointer(et) => {
                            let s1 = s.emit(l2("MOV R"@, base as int, ", [R"@, base as int) + "]"@);
                            match arrow {
                                ASTNode::VAR { name, .. } => match (et.field_id_spec(name@), et.field_type_spec(
                                    name@,
                                    ctx.type_table,
                                )) {
                                    (Out::Value(off), Out::Value(t2)) => gen_chain(
                                        ctx,
                                        s1.emit(l2("ADD R"@, base as int, ", "@, off as int)),
                                        arrow,
                                        base,
                                        t2,
                                        refr,
                                        fin,
                                    ),
                                    _ => (Out::Crash, s1),
                                },
                                ASTNode::FuncCallNode { fname, arglist } => match *et {
                                    ASTExprType::Struct(st) => gen_method_call(
                                        ctx,
                                        s1.backup().emit(l1("PUSH R"@, base as int, ""@)),
                                        base,
                                        st.name@,
                                        fname@,
                                        arglist,
                                        refr,
                                    ),
                                    ASTExprType::Class(c) => gen_method_call(
                                        ctx,
                                        s1.backup().emit(l1("PUSH R"@, base as int, ""@)),
                                        base,
                                        c.name@,
                                        fname@,
                                        arglist,
                                        refr,
                                    ),
                                    _ => (Out::Crash, s1),
                                },
                                _ => (Out::Crash, s1),
                            }
                        },
                        _ => (Out::Crash, s),
                    },
                    _ => (Out::Crash, s),
                }
            }
        },
        _ => (Out::Crash, s),
    }
}

/// A call of the method `fname` of the class `cn` on the object whose
/// address is in `base` (already pushed, with the live registers saved).
pub open spec fn gen_method_call(
    ctx: Compiler,
    s: GenView,
    base: usize,
    cn: Seq<char>,
    fname: Seq<char>,
    arglist: List<ASTNode>,
    refr: bool,
) -> (Out<usize>, GenView)
    decreases arglist, 1nat,
{
    match gen_args(ctx, s, arglist, refr) {
        (Out::Value(_), s1) => match label_of(ctx.type_table, ctx.gst, fname, cn) {
            Out::Value(lab) => {
                let s2 = s1.emit("ADD SP, 1"@).emit(l1("CALL L"@, lab as int, ""@));
                match s2.safe_reg() {
                    Out::Value((ret, s3)) => {
                        if arglist.len() + 1 > usize::MAX {
                            (Out::Crash, s3)
                        } else {
                            let s4 = s3.emit(l1("POP R"@, ret as int, ""@)).emit(
                                l1("SUB SP, "@, (arglist.len() + 1) as int, ""@),
                            );
                            match s4.restore(ret) {
                                Out::Value(s5) => match s5.release(base) {
                                    Out::Value(s6) => (Out::Value(ret), s6),
                                    _ => (Out::Crash, s5),
                                },
                                _ => (Out::Crash, s4),
                            }
                        }
                    },
                    o => (stop(o), s2),
                }
            },
            _ => (Out::Crash, s1),
        },
        (o, s1) => (stop(o), s1),
    }
}

} // verus!

verus! {

/// Loads the address of the variable `name` into a new register: the frame
/// base plus the offset of a local, or the static address of a global.
pub open spec fn load_var(e: Compiler, s: GenView, name: Seq<char>) -> Out<(usize, GenView)> {
    match e.lst.lookup(name) {
        Some(LSymbol::Var { varid, .. }) => {
            let (r, s1) = s.take_reg();
            let s2 = s1.emit(l1("MOV R"@, r as int, ", BP"@));
            if varid < 0 {
                if varid == i64::MIN {
                    Out::Crash
                } else {
                    Out::Value((r, s2.emit(l2("SUB R"@, r as int, ", "@, -varid))))
                }
            } else {
                Out::Value((r, s2.emit(l2("ADD R"@, r as int, ", "@, varid as int))))
            }
        },
        None => match e.gst.table.lookup(name) {
            Some(GSymbol::Var { varid, .. }) => {
                if varid > i64::MAX || XSM_STACK_OFFSET + varid > i64::MAX {
                    Out::Crash
                } else {
                    let (r, s1) = s.take_reg();
                    Out::Value((r, s1.emit(l2("MOV R"@, r as int, ", "@, XSM_STACK_OFFSET + varid))))
                }
            },
            _ => Out::Fail("Variable not declared"@),
        },
    }
}

/// Copies all but the last word of a struct variable `name` from the
/// address in `r` to the address in `l`, advancing both.
pub open spec fn copy_struct(e: Compiler, s: GenView, name: Seq<char>, l: usize, r: usize) -> Out<GenView> {
    match e.var_type_spec(name) {
        Out::Value(Some(t)) => match t {
            ASTExprType::Struct(st) => if st.size == 0 {
                Out::Crash
            } else {
                Out::Value(GenView { lines: s.lines + copy_lines(l, r, (st.size - 1) as nat), ..s })
            },
            _ => Out::Value(s),
        },
        _ => Out::Crash,
    }
}

/// A variable access: its address, each index, then each field access.
pub open spec fn gen_var(ctx: Compiler, s: GenView, n: ASTNode, refr: bool) -> (Out<usize>, GenView)
    decreases n, 4nat,
{
    match n {
        ASTNode::VAR { name, array_access, .. } => {
            let e = with_lst(ctx, s.lst);
            match (e.var_id_spec(name@), e.var_indices_spec(name@)) {
                (Out::Value(Some(varid)), Some(dims)) => match load_var(e, s, name@) {
                    Out::Value((base, s1)) => {
                        if base >= 21 || XSM_STACK_OFFSET + varid > i64::MAX || XSM_STACK_OFFSET + varid
                            < i64::MIN {
                            (Out::Crash, s1)
                        } else {
                            let s2 = s1.set_value(base, (XSM_STACK_OFFSET + varid) as i64);
                            match gen_indices(ctx, s2, array_access, 0, base, dims.seq()) {
                                (Out::Value(_), s3) => match with_lst(ctx, s3.lst).var_type_spec(name@) {
                                    Out::Value(Some(t)) => match deref_n(t, array_access.len()) {
                                        Some(t2) => gen_chain(
                                            ctx,
                                            s3,
                                            n,
                                            base,
                                            t2,
                                            refr,
                                            !refr && dims.len() == array_access.len(),
                                        ),
                                        None => (Out::Crash, s3),
                                    },
                                    _ => (Out::Crash, s3),
                                },
                                (o, s3) => (stop(o), s3),
                            }
                        }
                    },
                    o => (stop(o), s),
                },
                _ => (Out::Crash, s),
            }
        },
        _ => (Out::Crash, s),
    }
}

/// A binary node: arithmetic and comparisons leave their result in the
/// lower of the two operand registers; `=` stores; the connector runs both
/// sides in turn.
pub open spec fn gen_binary(ctx: Compiler, s: GenView, n: ASTNode) -> (Out<usize>, GenView)
    decreases n, 4nat,
{
    match n {
        ASTNode::BinaryNode { op, lhs, rhs, .. } => if is_arith(op) {
            match gen(ctx, s, *lhs, false) {
                (Out::Value(l), s1) => match gen(ctx, s1, *rhs, false) {
                    (Out::Value(r), s2) => if l >= 21 || r >= 21 {
                        (Out::Crash, s2)
                    } else {
                        match fold_value(op, s2.regs[l as int].1, s2.regs[r as int].1) {
                            Some(v) => {
                                let lo = if l <= r {
                                    l
                                } else {
                                    r
                                };
                                let hi = if l <= r {
                                    r
                                } else {
                                    l
                                };
                                let s3 = s2.emit(l2(mnemonic(op) + " R"@, l as int, ", R"@, r as int)).set_value(
                                    lo,
                                    v,
                                );
                                match s3.release(hi) {
                                    Out::Value(s4) => (Out::Value(lo), s4),
                                    _ => (Out::Crash, s3),
                                }
                            },
                            None => (Out::Crash, s2),
                        }
                    },
                    (o, s2) => (stop(o), s2),
                },
                (o, s1) => (stop(o), s1),
            }
        } else if op == ASTNodeType::Equals {
            match gen(ctx, s, *lhs, true) {
                (Out::Value(l), s1) => match gen(ctx, s1, *rhs, false) {
                    (Out::Value(r), s2) => {
                        let e = with_lst(ctx, s2.lst);
                        let copied = match *lhs {
                            ASTNode::VAR { name, .. } => copy_struct(e, s2, name@, l, r),
                            ASTNode::UnaryNode { ptr, .. } => match *ptr {
                                ASTNode::VAR { name, .. } => copy_struct(e, s2, name@, l, r),
                                _ => Out::Value(s2),
                            },
                            _ => Out::Value(s2),
                        };
                        match copied {
                            Out::Value(s3) => {
                                let s4 = s3.emit(l2("MOV [R"@, l as int, "], R"@, r as int));
                                match s4.release(l) {
                                    Out::Value(s5) => match s5.release(r) {
                                        Out::Value(s6) => (Out::Value(CONN_RETURN), s6),
                                        _ => (Out::Crash, s5),
                                    },
                                    _ => (Out::Crash, s4),
                                }
                            },
                            _ => (Out::Crash, s2),
                        }
                    },
                    (o, s2) => (stop(o), s2),
                },
                (o, s1) => (stop(o), s1),
            }
        } else if op == ASTNodeType::Connector {
            match gen(ctx, s, *lhs, false) {
                (Out::Value(a), s1) => match s1.release(a) {
                    Out::Value(s2) => match gen(ctx, s2, *rhs, false) {
                        (Out::Value(b), s3) => match s3.release(b) {
                            Out::Value(s4) => (Out::Value(CONN_RETURN), s4),
                            _ => (Out::Crash, s3),
                        },
                        (o, s3) => (stop(o), s3),
                    },
                    _ => (Out::Crash, s1),
                },
                (o, s1) => (stop(o), s1),
            }
        } else {
            (Out::Value(0), s)
        },
        _ => (Out::Crash, s),
    }
}

/// A call of the read or write routine: `name` and its code `code` are
/// pushed, then the value of `ptr` (its address when `addr`).
pub open spec fn gen_io(
    ctx: Compiler,
    s: GenView,
    n: ASTNode,
    name: Seq<char>,
    code: Seq<char>,
    addr: bool,
) -> (Out<usize>, GenView)
    decreases n, 3nat,
{
    match n {
        ASTNode::UnaryNode { ptr, .. } => {
            let (r, s1) = s.backup().take_reg();
            let s2 = s1.emit(l1("MOV R"@, r as int, ", \""@ + name + "\""@)).emit(l1("PUSH R"@, r as int, ""@)).emit(
                l1("MOV R"@, r as int, ", "@ + code),
            ).emit(l1("PUSH R"@, r as int, ""@));
            match s2.release(r) {
                Out::Value(s3) => match gen(ctx, s3, *ptr, addr) {
                    (Out::Value(v), s4) => {
                        let s5 = s4.emit(l1("PUSH R"@, v as int, ""@)).emit("ADD SP, 2"@).emit("CALL 0"@);
                        match s5.safe_reg() {
                            Out::Value((ret, s6)) => {
                                let s7 = s6.emit(l1("POP R"@, ret as int, ""@)).emit("SUB SP, 4"@);
                                match s7.restore(ret) {
                                    Out::Value(s8) => (Out::Value(ret), s8),
                                    _ => (Out::Crash, s7),
                                }
                            },
                            o => (stop(o), s5),
                        }
                    },
                    (o, s4) => (stop(o), s4),
                },
                _ => (Out::Crash, s2),
            }
        },
        _ => (Out::Crash, s),
    }
}

/// A unary node: heap routines, read and write, `&` and `*`.
pub open spec fn gen_unary(ctx: Compiler, s: GenView, n: ASTNode, refr: bool) -> (Out<usize>, GenView)
    decreases n, 4nat,
{
    match n {
        ASTNode::UnaryNode { op, ptr, depth, .. } => match op {
            ASTNodeType::Alloc => match s.lib_call("Alloc"@, true) {
                Out::Value((m, s1)) => match gen(ctx, s1, *ptr, true) {
                    (Out::Value(p), s2) => {
                        let s3 = s2.emit(l2("MOV [R"@, p as int, "], R"@, m as int));
                        match s3.release(m) {
                            Out::Value(s4) => match s4.release(p) {
                                Out::Value(s5) => (Out::Value(CONN_RETURN), s5),
                                _ => (Out::Crash, s4),
                            },
                            _ => (Out::Crash, s3),
                        }
                    },
                    (o, s2) => (stop(o), s2),
                },
                o => (stop(o), s),
            },
            ASTNodeType::Free => match gen(ctx, s, *ptr, refr) {
                (Out::Value(_), s1) => match s1.lib_call("Free"@, true) {
                    Out::Value((x, s2)) => match s2.release(x) {
                        Out::Value(s3) => (Out::Value(CONN_RETURN), s3),
                        _ => (Out::Crash, s2),
                    },
                    o => (stop(o), s1),
                },
                (o, s1) => (stop(o), s1),
            },
            ASTNodeType::Initialize => match s.lib_call("Heapset"@, false) {
                Out::Value((x, s1)) => match s1.release(x) {
                    Out::Value(s2) => (Out::Value(CONN_RETURN), s2),
                    _ => (Out::Crash, s1),
                },
                o => (stop(o), s),
            },
            ASTNodeType::Read => gen_io(ctx, s, n, "Read"@, "-1"@, true),
            ASTNodeType::Write => gen_io(ctx, s, n, "Write"@, "-2"@, false),
            ASTNodeType::Ref => if *ptr is VAR {
                gen(ctx, s, *ptr, true)
            } else {
                (Out::Crash, s)
            },
            ASTNodeType::Deref => if *ptr is VAR {
                match gen(ctx, s, *ptr, refr) {
                    (Out::Value(r), s1) => match depth {
                        Some(d) => (
                            Out::Value(r),
                            GenView {
                                lines: s1.lines + repeat_line(l2("MOV R"@, r as int, ",[R"@, r as int) + "]"@, d as nat),
                                ..s1
                            },
                        ),
                        None => (Out::Crash, s1),
                    },
                    (o, s1) => (stop(o), s1),
                }
            } else {
                (Out::Crash, s)
            },
            _ => (Out::Crash, s),
        },
        _ => (Out::Crash, s),
    }
}

} // verus!

verus! {

/// Pushes the arguments of a system call but the second (counting from
/// `c`), which must be an integer literal: the interrupt number, returned
/// (`iv` until it is seen).
pub open spec fn gen_sys_args(ctx: Compiler, s: GenView, l: List<ASTNode>, c: nat, iv: i64) -> (
    Out<i64>,
    GenView,
)
    decreases l, 0nat,
{
    match l {
        List::Nil => (Out::Value(iv), s),
        List::Cons(h, rest) => if c != 1 {
            match gen(ctx, s, *h, false) {
                (Out::Value(r), s1) => match s1.emit(l1("PUSH R"@, r as int, ""@)).release(r) {
                    Out::Value(s2) => gen_sys_args(ctx, s2, *rest, c + 1, iv),
                    _ => (Out::Crash, s1),
                },
                (o, s1) => (stop(o), s1),
            }
        } else {
            match *h {
                ASTNode::INT(p) => gen_sys_args(ctx, s, *rest, c + 1, p),
                _ => (Out::Crash, s),
            }
        },
    }
}

/// Evaluates each argument of `setaddr` (counting from `c`): the register of
/// the first goes to `r1`, that of each later one to `r2`.
pub open spec fn gen_set_args(ctx: Compiler, s: GenView, l: List<ASTNode>, c: nat, r1: usize, r2: usize) -> (
    Out<(usize, usize)>,
    GenView,
)
    decreases l, 0nat,
{
    match l {
        List::Nil => (Out::Value((r1, r2)), s),
        List::Cons(h, rest) => match gen(ctx, s, *h, false) {
            (Out::Value(r), s1) => if c == 0 {
                gen_set_args(ctx, s1, *rest, c + 1, r, r2)
            } else {
                gen_set_args(ctx, s1, *rest, c + 1, r1, r)
            },
            (o, s1) => (stop(o), s1),
        },
    }
}

/// A call of a library routine: a system call, or an address read or write.
pub open spec fn gen_std(ctx: Compiler, s: GenView, n: ASTNode) -> (Out<usize>, GenView)
    decreases n, 4nat,
{
    match n {
        ASTNode::StdFuncCallNode { func, arglist } => match func {
            STDLibFunction::Syscall => match gen_sys_args(ctx, s.backup(), arglist, 0, 0) {
                (Out::Value(iv), s1) => match s1.safe_reg() {
                    Out::Value((r, s2)) => {
                        let s3 = s2.emit("ADD SP, 1"@).emit(l1("INT "@, iv as int, ""@)).emit(
                            l1("POP R"@, r as int, ""@),
                        ).emit("SUB SP, 4"@);
                        match s3.restore(r) {
                            Out::Value(s4) => (Out::Value(r), s4),
                            _ => (Out::Crash, s3),
                        }
                    },
                    o => (stop(o), s1),
                },
                (o, s1) => (stop(o), s1),
            },
            STDLibFunction::Getaddr => match arglist {
                List::Cons(h, _) => match gen(ctx, s, *h, false) {
                    (Out::Value(r), s1) => (
                        Out::Value(r),
                        s1.emit(l2("MOV R"@, r as int, ", [R"@, r as int) + "]"@),
                    ),
                    (o, s1) => (stop(o), s1),
                },
                List::Nil => (Out::Crash, s),
            },
            STDLibFunction::Setaddr => match gen_set_args(ctx, s, arglist, 0, 5, 5) {
                (Out::Value((r1, r2)), s1) => {
                    let s2 = s1.emit(l2("MOV [R"@, r1 as int, "], R"@, r2 as int));
                    match s2.release(r1) {
                        Out::Value(s3) => match s3.release(r2) {
                            Out::Value(s4) => (Out::Value(CONN_RETURN), s4),
                            _ => (Out::Crash, s3),
                        },
                        _ => (Out::Crash, s2),
                    }
                },
                (o, s1) => (stop(o), s1),
            },
            _ => (Out::Crash, s),
        },
        _ => (Out::Crash, s),
    }
}

/// A call of a global function: live registers saved, arguments and a slot
/// for the result pushed, the call, then the result popped into a free
/// register and the registers restored.
pub open spec fn gen_call(ctx: Compiler, s: GenView, n: ASTNode, refr: bool) -> (Out<usize>, GenView)
    decreases n, 4nat,
{
    match n {
        ASTNode::FuncCallNode { fname, arglist } => match gen_args(ctx, s.backup(), arglist, refr) {
            (Out::Value(_), s1) => {
                let s2 = s1.emit("ADD SP, 1"@);
                let called = match ctx.gst.table.lookup(fname@) {
                    Some(GSymbol::Func { flabel, .. }) => Out::Value(s2.emit(l1("CALL L"@, flabel as int, ""@))),
                    Some(GSymbol::Var { .. }) => Out::Fail("Function not declared"@),
                    None => Out::Value(s2),
                };
                match called {
                    Out::Value(s3) => match s3.safe_reg() {
                        Out::Value((ret, s4)) => if arglist.len() > usize::MAX {
                            (Out::Crash, s4)
                        } else {
                            let s5 = s4.emit(l1("POP R"@, ret as int, ""@)).emit(
                                l1("SUB SP, "@, arglist.len() as int, ""@),
                            );
                            match s5.restore(ret) {
                                Out::Value(s6) => (Out::Value(ret), s6),
                                _ => (Out::Crash, s5),
                            }
                        },
                        o => (stop(o), s3),
                    },
                    o => (stop(o), s2),
                }
            },
            (o, s1) => (stop(o), s1),
        },
        _ => (Out::Crash, s),
    }
}

/// The main function: its label, its frame, then its body.
pub open spec fn gen_main(ctx: Compiler, s: GenView, n: ASTNode) -> (Out<usize>, GenView)
    decreases n, 4nat,
{
    match n {
        ASTNode::MainNode { body } => match label_of(ctx.type_table, ctx.gst, "main"@, Seq::empty()) {
            Out::Value(lab) => {
                let s1 = s.emit(l1("L"@, lab as int, ":"@));
                match ctx.function_table.lookup("main#"@) {
                    Some(local) => if !storage_fits(ctx.function_table, table_id("main"@, s1.class_name)) {
                        (Out::Crash, s1)
                    } else {
                        let st = storage_of(ctx.function_table, table_id("main"@, s1.class_name));
                        let s2 = GenView { lst: local, storage: st, ..s1 }.emit("PUSH BP\nMOV BP, SP"@).emit(
                            l1("ADD SP, "@, st as int, ""@),
                        ).backup();
                        match gen(ctx, s2, *body, false) {
                            (Out::Value(_), s3) => (Out::Value(CONN_RETURN), GenView { regs: fresh_regs(), ..s3 }),
                            (o, s3) => (stop(o), s3),
                        }
                    },
                    None => (Out::Crash, s1),
                }
            },
            o => (stop(o), s),
        },
        _ => (Out::Crash, s),
    }
}

/// A function or method definition: its label, its frame, then its body
/// when it has a local symbol table.
pub open spec fn gen_funcdef(ctx: Compiler, s: GenView, n: ASTNode) -> (Out<usize>, GenView)
    decreases n, 4nat,
{
    match n {
        ASTNode::FuncDefNode { fname, body, .. } => match label_of(ctx.type_table, ctx.gst, fname@, s.class_name) {
            Out::Value(lab) => if !storage_fits(ctx.function_table, table_id(fname@, s.class_name)) {
                (Out::Crash, s)
            } else {
                let id = table_id(fname@, s.class_name);
                let st = storage_of(ctx.function_table, id);
                let s1 = s.emit(l1("L"@, lab as int, ":\nPUSH BP\nMOV BP, SP"@)).emit(l1("ADD SP, "@, st as int, ""@));
                match ctx.function_table.lookup(id) {
                    Some(local) => match gen(ctx, GenView { lst: local, storage: st, ..s1 }, *body, false) {
                        (Out::Value(_), s2) => (Out::Value(CONN_RETURN), s2),
                        (o, s2) => (stop(o), s2),
                    },
                    None => (Out::Value(CONN_RETURN), s1),
                }
            },
            o => (stop(o), s),
        },
        _ => (Out::Crash, s),
    }
}

/// `if .. then .. else ..`: a jump past the first branch when the condition
/// is zero, and one past the second at the end of the first.
pub open spec fn gen_ifelse(ctx: Compiler, s: GenView, n: ASTNode) -> (Out<usize>, GenView)
    decreases n, 4nat,
{
    match n {
        ASTNode::IfElseNode { expr, xif, xelse } => if s.labels >= usize::MAX - 1 {
            (Out::Crash, s)
        } else {
            let l1v = s.labels;
            let l2v = (s.labels + 1) as usize;
            match gen(ctx, GenView { labels: (s.labels + 2) as usize, ..s }, *expr, false) {
                (Out::Value(c), s1) => match s1.emit(l2("JZ R"@, c as int, ", L"@, l1v as int)).release(c) {
                    Out::Value(s2) => match gen(ctx, s2, *xif, false) {
                        (Out::Value(_), s3) => match gen(
                            ctx,
                            s3.emit(l1("JMP L"@, l2v as int, ""@)).emit(l1("L"@, l1v as int, ":"@)),
                            *xelse,
                            false,
                        ) {
                            (Out::Value(_), s4) => (Out::Value(CONN_RETURN), s4.emit(l1("L"@, l2v as int, ":"@))),
                            (o, s4) => (stop(o), s4),
                        },
                        (o, s3) => (stop(o), s3),
                    },
                    _ => (Out::Crash, s1),
                },
                (o, s1) => (stop(o), s1),
            }
        },
        _ => (Out::Crash, s),
    }
}

/// The loop labels after leaving a loop: its two labels removed.
pub open spec fn pop2(l: Seq<usize>) -> Seq<usize> {
    if l.len() >= 2 {
        l.subrange(0, l.len() - 2)
    } else {
        Seq::empty()
    }
}

/// `while .. do ..`: a label before the condition, a jump out when it is
/// zero, and a jump back after the body. `break` and `continue` inside jump
/// to the two labels.
pub open spec fn gen_while(ctx: Compiler, s: GenView, n: ASTNode) -> (Out<usize>, GenView)
    decreases n, 4nat,
{
    match n {
        ASTNode::WhileNode { expr, xdo } => if s.labels >= usize::MAX - 1 {
            (Out::Crash, s)
        } else {
            let l1v = s.labels;
            let l2v = (s.labels + 1) as usize;
            let s0 = GenView { labels: (s.labels + 2) as usize, loops: s.loops.push(l1v).push(l2v), ..s }.emit(
                l1("L"@, l1v as int, ":"@),
            );
            match gen(ctx, s0, *expr, false) {
                (Out::Value(c), s1) => match s1.emit(l2("JZ R"@, c as int, ", L"@, l2v as int)).release(c) {
                    Out::Value(s2) => match gen(ctx, s2, *xdo, false) {
                        (Out::Value(_), s3) => (
                            Out::Value(CONN_RETURN),
                            GenView { loops: pop2(s3.loops), ..s3 }.emit(l1("JMP L"@, l1v as int, ""@)).emit(
                                l1("L"@, l2v as int, ":"@),
                            ),
                        ),
                        (o, s3) => (stop(o), s3),
                    },
                    _ => (Out::Crash, s1),
                },
                (o, s1) => (stop(o), s1),
            }
        },
        _ => (Out::Crash, s),
    }
}

/// `if .. then ..`: a jump past the branch when the condition is zero.
pub open spec fn gen_if(ctx: Compiler, s: GenView, n: ASTNode) -> (Out<usize>, GenView)
    decreases n, 4nat,
{
    match n {
        ASTNode::IfNode { expr, xif } => if s.labels == usize::MAX {
            (Out::Crash, s)
        } else {
            let l1v = s.labels;
            match gen(ctx, GenView { labels: (s.labels + 1) as usize, ..s }, *expr, false) {
                (Out::Value(c), s1) => match s1.emit(l2("JZ R"@, c as int, ", L"@, l1v as int)).release(c) {
                    Out::Value(s2) => match gen(ctx, s2, *xif, false) {
                        (Out::Value(_), s3) => (Out::Value(CONN_RETURN), s3.emit(l1("L"@, l1v as int, ":"@))),
                        (o, s3) => (stop(o), s3),
                    },
                    _ => (Out::Crash, s1),
                },
                (o, s1) => (stop(o), s1),
            }
        },
        _ => (Out::Crash, s),
    }
}

} // verus!

verus! {

/// The state of the code generator: the compiler's tables (of which the
/// local symbol table, the class name, the label counter and the loop labels
/// change while generating), the register file with a tracked value per
/// register, the register files saved around calls, the function being
/// compiled with its frame size, and the lines written.
pub struct CodeGen {
    pub env: Compiler,
    pub registers: Vec<(bool, i64)>,
    pub register_stack: Vec<Vec<(bool, i64)>>,
    pub frame: (String, i64),
    pub lines: Vec<String>,
}

impl View for CodeGen {
    type V = GenView;

    open spec fn view(&self) -> GenView {
        GenView {
            regs: self.registers@,
            stack: self.register_stack@.map_values(|v: Vec<(bool, i64)>| v@),
            storage: self.frame.1,
            labels: self.env.label_count,
            loops: self.env.while_tracker@,
            class_name: self.env.class_name@,
            lst: self.env.lst,
            lines: views(self.lines@),
        }
    }
}

/// `b` has the tables of `a` that code generation only reads.
pub open spec fn same_tables(a: Compiler, b: Compiler) -> bool {
    &&& b.type_table == a.type_table
    &&& b.function_table == a.function_table
    &&& b.gst == a.gst
    &&& b.local_var_id == a.local_var_id
    &&& b.var_id == a.var_id
    &&& b.ret_type == a.ret_type
    &&& b.init_flag == a.init_flag
    &&& b.parent_class_name == a.parent_class_name
    &&& b.vft_id == a.vft_id
}

fn fresh_file() -> (r: Vec<(bool, i64)>)
    ensures
        r@ == fresh_regs(),
{
    let mut r: Vec<(bool, i64)> = Vec::new();
    let mut i: usize = 0;
    while i < MAX_REGISTERS
        invariant
            i <= 21,
            r@ == Seq::new(i as nat, |j: int| (false, 0i64)),
        decreases 21 - i,
    {
        r.push((false, 0));
        i += 1;
        assert(r@ =~= Seq::new(i as nat, |j: int| (false, 0i64)));
    }
    assert(r@ =~= fresh_regs());
    r
}

impl CodeGen {
    /// A generator over the tables of `env`, with every register free and no
    /// line written.
    pub fn new(env: Compiler) -> (r: CodeGen)
        ensures
            r.env == env,
            r@ == (GenView {
                regs: fresh_regs(),
                stack: Seq::empty(),
                storage: 0,
                labels: env.label_count,
                loops: env.while_tracker@,
                class_name: env.class_name@,
                lst: env.lst,
                lines: Seq::empty(),
            }),
            r@.wf(),
    {
        let r = CodeGen {
            env,
            registers: fresh_file(),
            register_stack: Vec::new(),
            frame: (String::new(), 0),
            lines: Vec::new(),
        };
        assert(r@.stack =~= Seq::<Seq<(bool, i64)>>::empty());
        assert(r@.lines =~= Seq::<Seq<char>>::empty());
        r
    }
}

/// Appends a line.
fn write_line(g: &mut CodeGen, line: String)
    ensures
        final(g)@ == old(g)@.emit(line@),
        final(g).env == old(g).env,
        final(g).registers == old(g).registers,
        final(g).register_stack == old(g).register_stack,
        final(g).frame == old(g).frame,
{
    g.lines.push(line);
    assert(views(g.lines@) =~= views(old(g).lines@).push(line@));
    assert(g@.stack =~= old(g)@.stack);
}

/// Takes the free register with the lowest number and marks it in use; 21
/// when none is free.
pub fn get_reg(g: &mut CodeGen) -> (r: usize)
    requires
        old(g)@.wf(),
    ensures
        (r, final(g)@) == old(g)@.take_reg(),
        final(g).env == old(g).env,
        final(g)@.wf(),
        final(g).frame == old(g).frame,
{
    let mut i: usize = 0;
    while i < MAX_REGISTERS
        invariant
            i <= 21,
            *g == *old(g),
            g@.wf(),
            first_free(g@.regs, 0) == first_free(g@.regs, i as nat),
        decreases 21 - i,
    {
        if !g.registers[i].0 {
            let v = g.registers[i].1;
            g.registers.set(i, (true, v));
            assert(g@.regs =~= mark(old(g)@.regs, i as int, true));
            assert(g@.stack =~= old(g)@.stack);
            return i;
        }
        i += 1;
    }
    21
}

/// Marks `register` free. Numbers above 21 are ignored; the result is
/// always 21.
pub fn free_reg(g: &mut CodeGen, register: usize) -> (r: u64)
    requires
        old(g)@.wf(),
        register != 21,
    ensures
        r == 21,
        old(g)@.release(register) == Out::Value(final(g)@),
        final(g).env == old(g).env,
        final(g)@.wf(),
        final(g).frame == old(g).frame,
{
    if register > MAX_REGISTERS {
        return 21;
    }
    let v = g.registers[register].1;
    g.registers.set(register, (false, v));
    assert(g@.regs =~= mark(old(g)@.regs, register as int, false));
    assert(g@.stack =~= old(g)@.stack);
    21
}

/// Sets the value tracked for register `r`.
fn set_value(g: &mut CodeGen, r: usize, v: i64)
    requires
        old(g)@.wf(),
        r < 21,
    ensures
        final(g)@ == old(g)@.set_value(r, v),
        final(g).env == old(g).env,
        final(g)@.wf(),
{
    let b = g.registers[r].0;
    g.registers.set(r, (b, v));
    assert(g@.regs =~= old(g)@.set_value(r, v).regs);
    assert(g@.stack =~= old(g)@.stack);
}

/// Saves the register file before a call: each live register is pushed, in
/// increasing order, and the file starts empty.
fn __backup_registers(g: &mut CodeGen)
    requires
        old(g)@.wf(),
    ensures
        final(g)@ == old(g)@.backup(),
        final(g).env == old(g).env,
        final(g)@.wf(),
{
    let ghost regs0 = old(g)@.regs;
    let ghost lines0 = old(g)@.lines;
    let mut cleared: Vec<(bool, i64)> = Vec::new();
    let mut i: usize = 0;
    while i < MAX_REGISTERS
        invariant
            i <= 21,
            g.registers@ == regs0,
            g.env == old(g).env,
            g.register_stack == old(g).register_stack,
            g.frame == old(g).frame,
            regs0.len() == 21,
            g@.lines == lines0 + push_upto(regs0, i as nat),
            cleared@ == Seq::new(i as nat, |j: int| (false, regs0[j].1)),
        decreases 21 - i,
    {
        if g.registers[i].0 {
            let line = push_line(i);
            write_line(g, line);
        }
        cleared.push((false, g.registers[i].1));
        i += 1;
        assert(cleared@ =~= Seq::new(i as nat, |j: int| (false, regs0[j].1)));
        assert(g@.lines =~= lines0 + push_upto(regs0, i as nat));
    }
    assert(cleared@ =~= clear_all(regs0));
    let mut old_regs = cleared;
    std::mem::swap(&mut old_regs, &mut g.registers);
    g.register_stack.push(old_regs);
    assert(g@.stack =~= old(g)@.stack.push(regs0));
}

/// Takes the lowest register free in the saved file for a call's result.
fn __get_safe_register(g: &mut CodeGen) -> (r: Result<usize, String>)
    requires
        old(g)@.wf(),
        old(g)@.safe_reg().defined(),
    ensures
        r matches Ok(i) ==> old(g)@.safe_reg() == Out::Value((i, final(g)@)),
        r matches Err(e) ==> old(g)@.safe_reg() == Out::<(usize, GenView)>::Fail(e@),
        final(g).env == old(g).env,
        final(g)@.wf(),
{
    let ghost s0 = old(g)@;
    let mut top = g.register_stack.pop().unwrap();
    assert(top@ == s0.stack.last());
    assert(g@.stack =~= s0.stack.drop_last());
    let mut i: usize = 0;
    while i < MAX_REGISTERS
        invariant
            i <= 21,
            s0 == old(g)@,
            s0.wf(),
            s0.stack.len() > 0,
            top@ == s0.stack.last(),
            top@.len() == 21,
            g.env == old(g).env,
            g.registers == old(g).registers,
            g.frame == old(g).frame,
            g.lines == old(g).lines,
            g@.stack == s0.stack.drop_last(),
            g.register_stack@ == old(g).register_stack@.drop_last(),
            first_free(top@, 0) == first_free(top@, i as nat),
        decreases 21 - i,
    {
        if !top[i].0 {
            let v = top[i].1;
            top.set(i, (true, v));
            assert(top@ =~= mark(s0.stack.last(), i as int, true));
            g.register_stack.push(top);
            proof {
                let rs0 = old(g).register_stack@;
                let rs1 = g.register_stack@;
                assert(rs1 =~= rs0.drop_last().push(top));
                let want = s0.stack.update(s0.stack.len() - 1, mark(s0.stack.last(), i as int, true));
                assert forall|j: int| 0 <= j < rs1.len() implies rs1[j]@ == want[j] by {
                    if j < rs1.len() - 1 {
                        assert(rs1[j] == rs0[j]);
                    }
                }
                assert(g@.stack =~= want);
            }
            return Ok(i);
        }
        i += 1;
    }
    g.register_stack.push(top);
    proof {
        let rs0 = old(g).register_stack@;
        let rs1 = g.register_stack@;
        assert(rs1 =~= rs0.drop_last().push(top));
        assert forall|j: int| 0 <= j < rs1.len() implies rs1[j]@ == s0.stack[j] by {
            if j < rs1.len() - 1 {
                assert(rs1[j] == rs0[j]);
            }
        }
        assert(g@.stack =~= s0.stack);
    }
    Err(owned("Out of registers"))
}

/// Restores the register file saved before a call, with `safe` in use;
/// each other register in use there is popped, in decreasing order.
fn __restore_registers(g: &mut CodeGen, safe: usize)
    requires
        old(g)@.wf(),
        old(g)@.restore(safe) is Value,
    ensures
        Out::Value(final(g)@) == old(g)@.restore(safe),
        final(g).env == old(g).env,
        final(g)@.wf(),
{
    let ghost s0 = old(g)@;
    let mut top = g.register_stack.pop().unwrap();
    assert(top@ == s0.stack.last());
    assert(g@.stack =~= s0.stack.drop_last());
    let mut i: usize = MAX_REGISTERS;
    while i > 0
        invariant
            i <= 21,
            top@ == s0.stack.last(),
            top@.len() == 21,
            g.env == old(g).env,
            g@.stack == s0.stack.drop_last(),
            g@.regs == s0.regs,
            g@.storage == s0.storage,
            g@.wf(),
            g@.lines == s0.lines + pop_from(top@, safe, i as nat),
        decreases i,
    {
        i -= 1;
        if top[i].0 && i != safe {
            let line = pop_line(i);
            write_line(g, line);
        }
        assert(g@.lines =~= s0.lines + pop_from(top@, safe, i as nat));
    }
    let v = top[safe].1;
    top.set(safe, (true, v));
    assert(top@ =~= mark(s0.stack.last(), safe as int, true));
    g.registers = top;
}

/// `PUSH R<i>`.
fn push_line(i: usize) -> (r: String)
    ensures
        r@ == l1("PUSH R"@, i as int, ""@),
{
    line1("PUSH R", i, "")
}

/// `POP R<i>`.
fn pop_line(i: usize) -> (r: String)
    ensures
        r@ == l1("POP R"@, i as int, ""@),
{
    line1("POP R", i, "")
}

/// `pre`, the numeral of `a`, then `post`.
fn line1(pre: &str, a: usize, post: &str) -> (r: String)
    ensures
        r@ == l1(pre@, a as int, post@),
{
    let r = cat(cat(owned(pre), usize_to_string(a).as_str()), post);
    assert(dec_int(a as int) == dec(a as nat));
    r
}

/// `pre`, the numeral of `a`, then `post`.
fn line1i(pre: &str, a: i64, post: &str) -> (r: String)
    ensures
        r@ == l1(pre@, a as int, post@),
{
    cat(cat(owned(pre), i64_to_string(a).as_str()), post)
}

/// `pre`, the numeral of `a`, `mid`, then the numeral of `b`.
fn line2(pre: &str, a: usize, mid: &str, b: usize) -> (r: String)
    ensures
        r@ == l2(pre@, a as int, mid@, b as int),
{
    let r = cat(cat(cat(owned(pre), usize_to_string(a).as_str()), mid), usize_to_string(b).as_str());
    assert(dec_int(a as int) == dec(a as nat));
    assert(dec_int(b as int) == dec(b as nat));
    r
}

/// `pre`, the numeral of `a`, `mid`, then the numeral of `b`.
fn line2i(pre: &str, a: usize, mid: &str, b: i64) -> (r: String)
    ensures
        r@ == l2(pre@, a as int, mid@, b as int),
{
    let r = cat(cat(cat(owned(pre), usize_to_string(a).as_str()), mid), i64_to_string(b).as_str());
    assert(dec_int(a as int) == dec(a as nat));
    r
}

} // verus!

verus! {

/// The code label of the function `fname`: a method of the class
/// `classname` when that is not empty, else a global function; 10000 when
/// there is no such function.
pub fn get_function_label(fname: &String, classname: &String, env: &Compiler) -> (r: usize)
    requires
        label_of(env.type_table, env.gst, fname@, classname@).defined(),
    ensures
        label_of(env.type_table, env.gst, fname@, classname@) == Out::Value(r),
{
    if !classname.as_str().is_empty() {
        match env.type_table.table.get(classname) {
            Some(ASTExprType::Class(p)) => match p.symbol_table.table.get(fname) {
                Some(CSymbol::Func { flabel, .. }) => *flabel,
                _ => LABEL_NOT_FOUND,
            },
            _ => LABEL_NOT_FOUND,
        }
    } else {
        match env.gst.table.get(fname) {
            Some(GSymbol::Func { flabel, .. }) => *flabel,
            _ => LABEL_NOT_FOUND,
        }
    }
}

/// The key of the function `fname` of the class `classname` in the
/// function table.
fn __get_table_id(fname: &String, classname: &String) -> (r: String)
    ensures
        r@ == table_id(fname@, classname@),
{
    cat(cat(fname.clone(), "#"), classname.as_str())
}

/// The product of the dimensions of `l` times `acc`, or `None` when it
/// does not fit in a machine word.
fn scaled_checked(l: &List<usize>, acc: usize) -> (r: Option<usize>)
    ensures
        r matches Some(v) ==> scaled(*l, acc as int) == Some(v as int),
        r is None ==> scaled(*l, acc as int) is None,
    decreases l,
{
    match l {
        List::Nil => Some(acc),
        List::Cons(i, rest) => match acc.checked_mul(**i) {
            Some(v) => scaled_checked(&**rest, v),
            None => None,
        },
    }
}

fn frame_exec(l: &List<(String, LSymbol)>) -> (r: Option<i128>)
    ensures
        r matches Some(v) ==> frame_of(*l) == Some(v as int) && 0 <= v <= i64::MAX as int + usize::MAX as int,
        r is None ==> frame_of(*l) is None,
    decreases l,
{
    match l {
        List::Nil => Some(0),
        List::Cons(e, rest) => match frame_exec(&**rest) {
            Some(m) => match &e.1 {
                LSymbol::Var { varid, varindices, .. } => match scaled_checked(varindices, 1) {
                    Some(c) => {
                        let top: i128 = *varid as i128 + c as i128 - 1;
                        Some(
                            if top > m {
                                top
                            } else {
                                m
                            },
                        )
                    },
                    None => None,
                },
            },
            None => None,
        },
    }
}

/// The frame size of the function `fname` of the class being compiled: the
/// size of its local declarations, 0 when it has no local table.
fn __get_function_storage(fname: &String, env: &Compiler) -> (r: i64)
    requires
        storage_fits(env.function_table, table_id(fname@, env.class_name@)),
    ensures
        r == storage_of(env.function_table, table_id(fname@, env.class_name@)),
{
    let id = __get_table_id(fname, &env.class_name);
    match env.function_table.get(&id) {
        Some(t) => match frame_exec(&t.entries) {
            Some(m) => m as i64,
            None => 0,
        },
        None => 0,
    }
}

/// Loads the address of the variable `vname` into a new register.
fn __load_variable(g: &mut CodeGen, Ghost(ctx): Ghost<Compiler>, vname: &String) -> (r: Result<usize, String>)
    requires
        same_tables(ctx, old(g).env),
        old(g)@.wf(),
        load_var(with_lst(ctx, old(g).env.lst), old(g)@, vname@).defined(),
    ensures
        same_tables(ctx, final(g).env),
        final(g).env == old(g).env,
        final(g)@.wf(),
        r matches Ok(i) ==> load_var(with_lst(ctx, old(g).env.lst), old(g)@, vname@) == Out::Value((i, final(g)@)),
        r matches Err(e) ==> load_var(with_lst(ctx, old(g).env.lst), old(g)@, vname@) == Out::<(usize, GenView)>::Fail(e@),
{
    let local: Option<i64> = match g.env.lst.get(vname) {
        Some(LSymbol::Var { varid, .. }) => Some(*varid),
        None => None,
    };
    match local {
        Some(varid) => {
            let r = get_reg(g);
            write_line(g, line1("MOV R", r, ", BP"));
            if varid < 0 {
                write_line(g, line2i("SUB R", r, ", ", -varid));
            } else {
                write_line(g, line2i("ADD R", r, ", ", varid));
            }
            Ok(r)
        },
        None => {
            let global: Option<usize> = match g.env.gst.table.get(vname) {
                Some(GSymbol::Var { varid, .. }) => Some(*varid),
                _ => None,
            };
            match global {
                Some(varid) => {
                    let r = get_reg(g);
                    let addr: i64 = XSM_STACK_OFFSET + varid as i64;
                    write_line(g, line2i("MOV R", r, ", ", addr));
                    Ok(r)
                },
                None => Err(owned("Variable not declared")),
            }
        },
    }
}

/// Copies all but the last word of the struct variable `name`.
fn __copy_struct(g: &mut CodeGen, Ghost(ctx): Ghost<Compiler>, name: &String, left_register: usize, right_register: usize)
    requires
        same_tables(ctx, old(g).env),
        old(g)@.wf(),
        copy_struct(with_lst(ctx, old(g).env.lst), old(g)@, name@, left_register, right_register) is Value,
    ensures
        final(g).env == old(g).env,
        final(g)@.wf(),
        copy_struct(with_lst(ctx, old(g).env.lst), old(g)@, name@, left_register, right_register) == Out::Value(
            final(g)@,
        ),
{
    let t = getvartype(name, &g.env);
    match t {
        Some(ASTExprType::Struct(st)) => {
            let k: usize = st.size - 1;
            let mut j: usize = 0;
            let ghost lines0 = g@.lines;
            while j < k
                invariant
                    j <= k,
                    g.env == old(g).env,
                    g.registers == old(g).registers,
                    g.register_stack == old(g).register_stack,
                    g.frame == old(g).frame,
                    g@.lines == lines0 + copy_lines(left_register, right_register, j as nat),
                    lines0 == old(g)@.lines,
                decreases k - j,
            {
                write_line(g, line2("MOV [R", left_register, "], R", right_register));
                write_line(g, line1("ADD R", left_register, ", 1"));
                write_line(g, line1("ADD R", right_register, ", 1"));
                j += 1;
                assert(g@.lines =~= lines0 + copy_lines(left_register, right_register, j as nat));
            }
            assert(g@ == GenView { lines: old(g)@.lines + copy_lines(left_register, right_register, k as nat), ..old(g)@ });
        },
        _ => {},
    }
}

/// A call of the system library routine `name` (with the argument 8 when
/// `arg`): the result register.
fn lib_call(g: &mut CodeGen, name: &str, arg: bool) -> (r: Result<usize, String>)
    requires
        old(g)@.wf(),
        old(g)@.lib_call(name@, arg).defined(),
    ensures
        final(g).env == old(g).env,
        r matches Ok(i) ==> old(g)@.lib_call(name@, arg) == Out::Value((i, final(g)@)) && final(g)@.wf(),
        r matches Err(e) ==> old(g)@.lib_call(name@, arg) == Out::<(usize, GenView)>::Fail(e@),
{
    __backup_registers(g);
    let r = match __get_safe_register(g) {
        Ok(r) => r,
        Err(e) => {
            return Err(e);
        },
    };
    let l = cat(cat(line1("MOV R", r, ", \""), name), "\"");
    assert(l@ =~= l1("MOV R"@, r as int, ", \""@ + name@ + "\""@));
    write_line(g, l);
    write_line(g, push_line(r));
    if arg {
        write_line(g, line1("MOV R", r, ", 8"));
        write_line(g, push_line(r));
        write_line(g, owned("ADD SP, 3"));
    } else {
        write_line(g, owned("ADD SP, 4"));
    }
    write_line(g, owned("CALL 0"));
    write_line(g, pop_line(r));
    write_line(g, owned("SUB SP, 4"));
    __restore_registers(g, r);
    Ok(r)
}

/// The call of the heap allocator: the register that gets the address.
fn __xsm_alloc_syscall(g: &mut CodeGen) -> (r: Result<usize, String>)
    requires
        old(g)@.wf(),
        old(g)@.lib_call("Alloc"@, true).defined(),
    ensures
        final(g).env == old(g).env,
        r matches Ok(i) ==> old(g)@.lib_call("Alloc"@, true) == Out::Value((i, final(g)@)) && final(g)@.wf(),
        r matches Err(e) ==> old(g)@.lib_call("Alloc"@, true) == Out::<(usize, GenView)>::Fail(e@),
{
    lib_call(g, "Alloc", true)
}

/// The call of the heap's release routine.
fn __xsm_free_syscall(g: &mut CodeGen) -> (r: Result<usize, String>)
    requires
        old(g)@.wf(),
        old(g)@.lib_call("Free"@, true).defined(),
    ensures
        final(g).env == old(g).env,
        r matches Ok(i) ==> old(g)@.lib_call("Free"@, true) == Out::Value((i, final(g)@)) && final(g)@.wf(),
        r matches Err(e) ==> old(g)@.lib_call("Free"@, true) == Out::<(usize, GenView)>::Fail(e@),
{
    lib_call(g, "Free", true)
}

/// The call that initializes the heap.
fn __xsm_heapset_syscall(g: &mut CodeGen) -> (r: Result<usize, String>)
    requires
        old(g)@.wf(),
        old(g)@.lib_call("Heapset"@, false).defined(),
    ensures
        final(g).env == old(g).env,
        r matches Ok(i) ==> old(g)@.lib_call("Heapset"@, false) == Out::Value((i, final(g)@)) && final(g)@.wf(),
        r matches Err(e) ==> old(g)@.lib_call("Heapset"@, false) == Out::<(usize, GenView)>::Fail(e@),
{
    lib_call(g, "Heapset", false)
}

fn mnemonic_str(op: ASTNodeType) -> (r: &'static str)
    ensures
        r@ == mnemonic(op),
{
    match op {
        ASTNodeType::Gt => "GT",
        ASTNodeType::Lt => "LT",
        ASTNodeType::Gte => "GE",
        ASTNodeType::Lte => "LE",
        ASTNodeType::Ee => "EQ",
        ASTNodeType::Ne => "NE",
        ASTNodeType::Plus => "ADD",
        ASTNodeType::Minus => "SUB",
        ASTNodeType::Star => "MUL",
        ASTNodeType::Slash => "DIV",
        _ => "MOD",
    }
}

fn is_arith_op(op: ASTNodeType) -> (r: bool)
    ensures
        r == is_arith(op),
{
    match op {
        ASTNodeType::Gt | ASTNodeType::Lt | ASTNodeType::Gte | ASTNodeType::Lte | ASTNodeType::Ee
        | ASTNodeType::Ne | ASTNodeType::Plus | ASTNodeType::Minus | ASTNodeType::Star
        | ASTNodeType::Slash | ASTNodeType::Mod => true,
        _ => false,
    }
}

fn fold_exec(op: ASTNodeType, a: i64, b: i64) -> (r: Option<i64>)
    ensures
        r == fold_value(op, a, b),
{
    match op {
        ASTNodeType::Gt => Some(if a > b { 1 } else { 0 }),
        ASTNodeType::Lt => Some(if a < b { 1 } else { 0 }),
        ASTNodeType::Gte => Some(if a >= b { 1 } else { 0 }),
        ASTNodeType::Lte => Some(if a <= b { 1 } else { 0 }),
        ASTNodeType::Ee => Some(if a == b { 1 } else { 0 }),
        ASTNodeType::Ne => Some(if a != b { 1 } else { 0 }),
        ASTNodeType::Plus => a.checked_add(b),
        ASTNodeType::Minus => a.checked_sub(b),
        ASTNodeType::Star => a.checked_mul(b),
        ASTNodeType::Slash => a.checked_div(b),
        _ => a.checked_rem(b),
    }
}

/// `t` with one pointer level removed per element of `l`.
fn deref_each(t: ASTExprType, l: &List<ASTNode>) -> (r: Option<ASTExprType>)
    ensures
        r == deref_n(t, l.len()),
    decreases l,
{
    match l {
        List::Nil => Some(t),
        List::Cons(_, rest) => match t {
            ASTExprType::Pointer(p) => deref_each(*p, &**rest),
            _ => None,
        },
    }
}

fn same_len<A, B>(a: &List<A>, b: &List<B>) -> (r: bool)
    ensures
        r == (a.len() == b.len()),
    decreases a,
{
    match (a, b) {
        (List::Nil, List::Nil) => true,
        (List::Cons(_, ra), List::Cons(_, rb)) => same_len(&**ra, &**rb),
        _ => false,
    }
}

} // verus!

verus! {

/// The executable result `r` and final state `g2` are the outcome `out`.
pub open spec fn follows<T>(r: Result<T, String>, out: (Out<T>, GenView), g2: CodeGen) -> bool {
    &&& matches_out(r, out.0)
    &&& (r is Ok ==> g2@ == out.1 && g2@.wf())
}

/// Generates the code for `n`. An expression of literals and operators
/// leaves its value in the lowest register that was free and holds that
/// one register more.
fn __code_gen(g: &mut CodeGen, Ghost(ctx): Ghost<Compiler>, n: &ASTNode, refr: bool) -> (r: Result<usize, String>)
    requires
        same_tables(ctx, old(g).env),
        old(g)@.wf(),
        gen(ctx, old(g)@, *n, refr).0.defined(),
    ensures
        same_tables(ctx, final(g).env),
        follows(r, gen(ctx, old(g)@, *n, refr), *final(g)),
        is_arith_expr(*n) ==> (r matches Ok(v) && v == first_free(old(g)@.regs, 0) && (forall|i: int|
            0 <= i < 21 ==> #[trigger] final(g)@.regs[i].0 == (i == v || old(g)@.regs[i].0))),
    decreases *n, 5nat,
{
    proof {
        if is_arith_expr(*n) {
            lemma_expr_one_register(ctx, old(g)@, *n, refr);
        }
    }
    match n {
        ASTNode::ClassNode { cname, methods } => {
            g.env.class_name = cname.clone();
            assert(g@ == GenView { class_name: cname@, ..old(g)@ });
            match gen_list_exec(g, Ghost(ctx), methods) {
                Ok(_) => {
                    g.env.class_name = String::new();
                    Ok(CONN_RETURN)
                },
                Err(e) => Err(e),
            }
        },
        ASTNode::ErrorNode { err } => match err {
            ASTError::TypeError(e) => Err(e.clone()),
        },
        ASTNode::BreakpointNode => {
            write_line(g, owned("BRKP"));
            Ok(CONN_RETURN)
        },
        ASTNode::STR(text) => {
            let r = get_reg(g);
            let l = cat(line1("MOV R", r, ", "), text.as_str());
            assert(l@ =~= l1("MOV R"@, r as int, ", "@ + text@));
            write_line(g, l);
            set_value(g, r, 0);
            Ok(r)
        },
        ASTNode::INT(v) => {
            let r = get_reg(g);
            write_line(g, line2i("MOV R", r, ", ", *v));
            set_value(g, r, *v);
            Ok(r)
        },
        ASTNode::VAR { .. } => gen_var_exec(g, Ghost(ctx), n, refr),
        ASTNode::BinaryNode { .. } => gen_binary_exec(g, Ghost(ctx), n),
        ASTNode::Null => {
            let r = get_reg(g);
            write_line(g, line1("MOV R", r, ", \"\""));
            Ok(r)
        },
        ASTNode::UnaryNode { .. } => gen_unary_exec(g, Ghost(ctx), n, refr),
        ASTNode::StdFuncCallNode { .. } => gen_std_exec(g, Ghost(ctx), n),
        ASTNode::FuncCallNode { .. } => gen_call_exec(g, Ghost(ctx), n, refr),
        ASTNode::ReturnNode { expr } => {
            let storage = g.frame.1;
            let rv = match __code_gen(g, Ghost(ctx), &**expr, refr) {
                Ok(v) => v,
                Err(e) => {
                    return Err(e);
                },
            };
            let r = get_reg(g);
            write_line(g, line1("MOV R", r, ", BP"));
            write_line(g, line1("SUB R", r, ", 2"));
            write_line(g, line2("MOV [R", r, "], R", rv));
            write_line(g, line1i("SUB SP, ", storage, "\nPOP BP"));
            write_line(g, owned("RET"));
            g.registers = fresh_file();
            Ok(CONN_RETURN)
        },
        ASTNode::MainNode { .. } => gen_main_exec(g, Ghost(ctx), n),
        ASTNode::FuncDefNode { .. } => gen_funcdef_exec(g, Ghost(ctx), n),
        ASTNode::IfElseNode { .. } => gen_ifelse_exec(g, Ghost(ctx), n),
        ASTNode::WhileNode { .. } => gen_while_exec(g, Ghost(ctx), n),
        ASTNode::IfNode { .. } => gen_if_exec(g, Ghost(ctx), n),
        ASTNode::BreakNode => {
            let len = g.env.while_tracker.len();
            let l = g.env.while_tracker[len - 1];
            write_line(g, line1("JMP L", l, ""));
            Ok(CONN_RETURN)
        },
        ASTNode::ContinueNode => {
            let len = g.env.while_tracker.len();
            let l = g.env.while_tracker[len - 2];
            write_line(g, line1("JMP L", l, ""));
            Ok(CONN_RETURN)
        },
        ASTNode::Void => Ok(CONN_RETURN),
    }
}

fn gen_list_exec(g: &mut CodeGen, Ghost(ctx): Ghost<Compiler>, l: &List<ASTNode>) -> (r: Result<(), String>)
    requires
        same_tables(ctx, old(g).env),
        old(g)@.wf(),
        gen_list(ctx, old(g)@, *l).0.defined(),
    ensures
        same_tables(ctx, final(g).env),
        follows(r, gen_list(ctx, old(g)@, *l), *final(g)),
    decreases *l, 0nat,
{
    match l {
        List::Nil => Ok(()),
        List::Cons(h, rest) => match __code_gen(g, Ghost(ctx), &**h, false) {
            Ok(_) => gen_list_exec(g, Ghost(ctx), &**rest),
            Err(e) => Err(e),
        },
    }
}

fn __push_args(g: &mut CodeGen, Ghost(ctx): Ghost<Compiler>, l: &List<ASTNode>, refr: bool) -> (r: Result<(), String>)
    requires
        same_tables(ctx, old(g).env),
        old(g)@.wf(),
        gen_args(ctx, old(g)@, *l, refr).0.defined(),
    ensures
        same_tables(ctx, final(g).env),
        follows(r, gen_args(ctx, old(g)@, *l, refr), *final(g)),
    decreases *l, 0nat,
{
    match l {
        List::Nil => Ok(()),
        List::Cons(h, rest) => match __code_gen(g, Ghost(ctx), &**h, refr) {
            Ok(r) => {
                write_line(g, push_line(r));
                free_reg(g, r);
                __push_args(g, Ghost(ctx), &**rest, refr)
            },
            Err(e) => Err(e),
        },
    }
}

} // verus!

verus! {

fn gen_indices_exec(
    g: &mut CodeGen,
    Ghost(ctx): Ghost<Compiler>,
    l: &List<ASTNode>,
    Ghost(i): Ghost<nat>,
    base: usize,
    Ghost(dims): Ghost<Seq<usize>>,
    cur: &List<usize>,
) -> (r: Result<(), String>)
    requires
        same_tables(ctx, old(g).env),
        old(g)@.wf(),
        base < 21,
        cur.seq() == if i <= dims.len() {
            dims.subrange(i as int, dims.len() as int)
        } else {
            Seq::empty()
        },
        gen_indices(ctx, old(g)@, *l, i, base, dims).0.defined(),
    ensures
        same_tables(ctx, final(g).env),
        follows(r, gen_indices(ctx, old(g)@, *l, i, base, dims), *final(g)),
    decreases *l, 0nat,
{
    match l {
        List::Nil => Ok(()),
        List::Cons(h, rest) => {
            let off = match __code_gen(g, Ghost(ctx), &**h, false) {
                Ok(v) => v,
                Err(e) => {
                    return Err(e);
                },
            };
            let next: &List<usize> = match cur {
                List::Nil => {
                    return Err(owned(""));
                },
                List::Cons(d, tail) => {
                    proof {
                        tail.lemma_seq_len();
                        cur.lemma_seq_len();
                        assert(cur.seq() == seq![**d] + tail.seq());
                        assert(i < dims.len());
                        assert(cur.seq()[0] == dims[i as int]);
                        assert(tail.seq() =~= cur.seq().subrange(1, cur.seq().len() as int));
                        assert(tail.seq() =~= dims.subrange((i + 1) as int, dims.len() as int));
                        assert((tail.len() == 0) == (i == dims.len() - 1));
                    }
                    if !tail.is_empty() {
                        let m = get_reg(g);
                        write_line(g, line2("MUL R", off, ", ", **d));
                        free_reg(g, m);
                    }
                    &**tail
                },
            };
            let a = g.registers[base].1;
            let b = g.registers[off].1;
            let v = match a.checked_add(b) {
                Some(v) => v,
                None => {
                    return Err(owned(""));
                },
            };
            write_line(g, line2("ADD R", base, ", R", off));
            set_value(g, base, v);
            free_reg(g, off);
            gen_indices_exec(g, Ghost(ctx), &**rest, Ghost(i + 1), base, Ghost(dims), next)
        },
    }
}

fn mov_deref_line(r: usize) -> (s: String)
    ensures
        s@ == l2("MOV R"@, r as int, ", [R"@, r as int) + "]"@,
{
    cat(line2("MOV R", r, ", [R", r), "]")
}

fn gen_chain_exec(
    g: &mut CodeGen,
    Ghost(ctx): Ghost<Compiler>,
    holder: &ASTNode,
    base: usize,
    t: ASTExprType,
    refr: bool,
    fin: bool,
) -> (r: Result<usize, String>)
    requires
        same_tables(ctx, old(g).env),
        old(g)@.wf(),
        gen_chain(ctx, old(g)@, *holder, base, t, refr, fin).0.defined(),
    ensures
        same_tables(ctx, final(g).env),
        follows(r, gen_chain(ctx, old(g)@, *holder, base, t, refr, fin), *final(g)),
    decreases *holder, 1nat,
{
    match holder {
        ASTNode::VAR { dot_field_access, arrow_field_access, .. } => {
            let dot: &ASTNode = &**dot_field_access;
            let arrow: &ASTNode = &**arrow_field_access;
            let dot_void = match dot {
                ASTNode::Void => true,
                _ => false,
            };
            let arrow_void = match arrow {
                ASTNode::Void => true,
                _ => false,
            };
            if dot_void && arrow_void {
                if fin {
                    write_line(g, mov_deref_line(base));
                }
                return Ok(base);
            }
            match dot {
                ASTNode::VAR { name, .. } => {
                    let off = match t.get_field_id(name) {
                        Ok(o) => o,
                        Err(e) => {
                            return Err(e);
                        },
                    };
                    let t2 = match t.get_field_type(name, &g.env.type_table) {
                        Ok(x) => x,
                        Err(e) => {
                            return Err(e);
                        },
                    };
                    write_line(g, line2("ADD R", base, ", ", off));
                    gen_chain_exec(g, Ghost(ctx), dot, base, t2, refr, fin)
                },
                ASTNode::FuncCallNode { fname, arglist } => {
                    let cn = match t.get_type_name() {
                        Ok(c) => c,
                        Err(e) => {
                            return Err(e);
                        },
                    };
                    __backup_registers(g);
                    write_line(g, push_line(base));
                    __gen_class_func_call(g, Ghost(ctx), base, &cn, fname, arglist, refr)
                },
                ASTNode::Void => match &t {
                    ASTExprType::Pointer(et) => {
                        write_line(g, mov_deref_line(base));
                        match arrow {
                            ASTNode::VAR { name, .. } => {
                                let off = match et.get_field_id(name) {
                                    Ok(o) => o,
                                    Err(e) => {
                                        return Err(e);
                                    },
                                };
                                let t2 = match et.get_field_type(name, &g.env.type_table) {
                                    Ok(x) => x,
                                    Err(e) => {
                                        return Err(e);
                                    },
                                };
                                write_line(g, line2("ADD R", base, ", ", off));
                                gen_chain_exec(g, Ghost(ctx), arrow, base, t2, refr, fin)
                            },
                            ASTNode::FuncCallNode { fname, arglist } => {
                                let cn = match et.get_type_name() {
                                    Ok(c) => c,
                                    Err(e) => {
                                        return Err(e);
                                    },
                                };
                                __backup_registers(g);
                                write_line(g, push_line(base));
                                __gen_class_func_call(g, Ghost(ctx), base, &cn, fname, arglist, refr)
                            },
                            _ => Err(owned("")),
                        }
                    },
                    _ => Err(owned("")),
                },
                _ => Err(owned("")),
            }
        },
        _ => Err(owned("")),
    }
}

fn __gen_class_func_call(
    g: &mut CodeGen,
    Ghost(ctx): Ghost<Compiler>,
    base: usize,
    cn: &String,
    fname: &String,
    arglist: &List<ASTNode>,
    refr: bool,
) -> (r: Result<usize, String>)
    requires
        same_tables(ctx, old(g).env),
        old(g)@.wf(),
        gen_method_call(ctx, old(g)@, base, cn@, fname@, *arglist, refr).0.defined(),
    ensures
        same_tables(ctx, final(g).env),
        follows(r, gen_method_call(ctx, old(g)@, base, cn@, fname@, *arglist, refr), *final(g)),
    decreases *arglist, 1nat,
{
    match __push_args(g, Ghost(ctx), arglist, refr) {
        Ok(_) => {},
        Err(e) => {
            return Err(e);
        },
    }
    let lab = get_function_label(fname, cn, &g.env);
    write_line(g, owned("ADD SP, 1"));
    write_line(g, line1("CALL L", lab, ""));
    let ret = match __get_safe_register(g) {
        Ok(v) => v,
        Err(e) => {
            return Err(e);
        },
    };
    let k = arglist.length();
    write_line(g, pop_line(ret));
    write_line(g, line1("SUB SP, ", k + 1, ""));
    __restore_registers(g, ret);
    free_reg(g, base);
    Ok(ret)
}

fn gen_var_exec(g: &mut CodeGen, Ghost(ctx): Ghost<Compiler>, n: &ASTNode, refr: bool) -> (r: Result<usize, String>)
    requires
        same_tables(ctx, old(g).env),
        old(g)@.wf(),
        gen_var(ctx, old(g)@, *n, refr).0.defined(),
    ensures
        same_tables(ctx, final(g).env),
        follows(r, gen_var(ctx, old(g)@, *n, refr), *final(g)),
    decreases *n, 4nat,
{
    match n {
        ASTNode::VAR { name, array_access, .. } => {
            let varid = match getvarid(name, &g.env) {
                Some(v) => v,
                None => {
                    return Err(owned(""));
                },
            };
            let dims = match getvarindices(name, &g.env) {
                Some(d) => d,
                None => {
                    return Err(owned(""));
                },
            };
            let base = match __load_variable(g, Ghost(ctx), name) {
                Ok(b) => b,
                Err(e) => {
                    return Err(e);
                },
            };
            set_value(g, base, XSM_STACK_OFFSET + varid);
            proof {
                dims.lemma_seq_len();
                assert(dims.seq().subrange(0, dims.seq().len() as int) =~= dims.seq());
            }
            match gen_indices_exec(g, Ghost(ctx), array_access, Ghost(0), base, Ghost(dims.seq()), &dims) {
                Ok(_) => {},
                Err(e) => {
                    return Err(e);
                },
            }
            let t = match getvartype(name, &g.env) {
                Some(t) => t,
                None => {
                    return Err(owned(""));
                },
            };
            let t2 = match deref_each(t, array_access) {
                Some(t2) => t2,
                None => {
                    return Err(owned(""));
                },
            };
            let fin = !refr && same_len(&dims, array_access);
            gen_chain_exec(g, Ghost(ctx), n, base, t2, refr, fin)
        },
        _ => Err(owned("")),
    }
}

} // verus!

verus! {

fn gen_binary_exec(g: &mut CodeGen, Ghost(ctx): Ghost<Compiler>, n: &ASTNode) -> (r: Result<usize, String>)
    requires
        same_tables(ctx, old(g).env),
        old(g)@.wf(),
        gen_binary(ctx, old(g)@, *n).0.defined(),
    ensures
        same_tables(ctx, final(g).env),
        follows(r, gen_binary(ctx, old(g)@, *n), *final(g)),
    decreases *n, 4nat,
{
    match n {
        ASTNode::BinaryNode { op, lhs, rhs, .. } => {
            if is_arith_op(*op) {
                let l = match __code_gen(g, Ghost(ctx), &**lhs, false) {
                    Ok(v) => v,
                    Err(e) => {
                        return Err(e);
                    },
                };
                let r = match __code_gen(g, Ghost(ctx), &**rhs, false) {
                    Ok(v) => v,
                    Err(e) => {
                        return Err(e);
                    },
                };
                let a = g.registers[l].1;
                let b = g.registers[r].1;
                let v = match fold_exec(*op, a, b) {
                    Some(v) => v,
                    None => {
                        return Err(owned(""));
                    },
                };
                let pre = cat(owned(mnemonic_str(*op)), " R");
                write_line(g, line2(pre.as_str(), l, ", R", r));
                let lo = if l <= r {
                    l
                } else {
                    r
                };
                let hi = if l <= r {
                    r
                } else {
                    l
                };
                set_value(g, lo, v);
                free_reg(g, hi);
                Ok(lo)
            } else if *op == ASTNodeType::Equals {
                let l = match __code_gen(g, Ghost(ctx), &**lhs, true) {
                    Ok(v) => v,
                    Err(e) => {
                        return Err(e);
                    },
                };
                let r = match __code_gen(g, Ghost(ctx), &**rhs, false) {
                    Ok(v) => v,
                    Err(e) => {
                        return Err(e);
                    },
                };
                match &**lhs {
                    ASTNode::VAR { name, .. } => {
                        __copy_struct(g, Ghost(ctx), name, l, r);
                    },
                    ASTNode::UnaryNode { ptr, .. } => match &**ptr {
                        ASTNode::VAR { name, .. } => {
                            __copy_struct(g, Ghost(ctx), name, l, r);
                        },
                        _ => {},
                    },
                    _ => {},
                }
                write_line(g, line2("MOV [R", l, "], R", r));
                free_reg(g, l);
                free_reg(g, r);
                Ok(CONN_RETURN)
            } else if *op == ASTNodeType::Connector {
                let a = match __code_gen(g, Ghost(ctx), &**lhs, false) {
                    Ok(v) => v,
                    Err(e) => {
                        return Err(e);
                    },
                };
                free_reg(g, a);
                let b = match __code_gen(g, Ghost(ctx), &**rhs, false) {
                    Ok(v) => v,
                    Err(e) => {
                        return Err(e);
                    },
                };
                free_reg(g, b);
                Ok(CONN_RETURN)
            } else {
                Ok(0)
            }
        },
        _ => Err(owned("")),
    }
}

fn gen_io_exec(
    g: &mut CodeGen,
    Ghost(ctx): Ghost<Compiler>,
    n: &ASTNode,
    name: &str,
    code: &str,
    addr: bool,
) -> (r: Result<usize, String>)
    requires
        same_tables(ctx, old(g).env),
        old(g)@.wf(),
        gen_io(ctx, old(g)@, *n, name@, code@, addr).0.defined(),
    ensures
        same_tables(ctx, final(g).env),
        follows(r, gen_io(ctx, old(g)@, *n, name@, code@, addr), *final(g)),
    decreases *n, 3nat,
{
    match n {
        ASTNode::UnaryNode { ptr, .. } => {
            __backup_registers(g);
            let r = get_reg(g);
            let l0 = cat(cat(line1("MOV R", r, ", \""), name), "\"");
            assert(l0@ =~= l1("MOV R"@, r as int, ", \""@ + name@ + "\""@));
            write_line(g, l0);
            write_line(g, push_line(r));
            let l2s = cat(line1("MOV R", r, ", "), code);
            assert(l2s@ =~= l1("MOV R"@, r as int, ", "@ + code@));
            write_line(g, l2s);
            write_line(g, push_line(r));
            free_reg(g, r);
            let v = match __code_gen(g, Ghost(ctx), &**ptr, addr) {
                Ok(v) => v,
                Err(e) => {
                    return Err(e);
                },
            };
            write_line(g, push_line(v));
            write_line(g, owned("ADD SP, 2"));
            write_line(g, owned("CALL 0"));
            let ret = match __get_safe_register(g) {
                Ok(v) => v,
                Err(e) => {
                    return Err(e);
                },
            };
            write_line(g, pop_line(ret));
            write_line(g, owned("SUB SP, 4"));
            __restore_registers(g, ret);
            Ok(ret)
        },
        _ => Err(owned("")),
    }
}

fn gen_unary_exec(g: &mut CodeGen, Ghost(ctx): Ghost<Compiler>, n: &ASTNode, refr: bool) -> (r: Result<usize, String>)
    requires
        same_tables(ctx, old(g).env),
        old(g)@.wf(),
        gen_unary(ctx, old(g)@, *n, refr).0.defined(),
    ensures
        same_tables(ctx, final(g).env),
        follows(r, gen_unary(ctx, old(g)@, *n, refr), *final(g)),
    decreases *n, 4nat,
{
    match n {
        ASTNode::UnaryNode { op, ptr, depth, .. } => match op {
            ASTNodeType::Alloc => {
                let m = match __xsm_alloc_syscall(g) {
                    Ok(v) => v,
                    Err(e) => {
                        return Err(e);
                    },
                };
                let p = match __code_gen(g, Ghost(ctx), &**ptr, true) {
                    Ok(v) => v,
                    Err(e) => {
                        return Err(e);
                    },
                };
                write_line(g, line2("MOV [R", p, "], R", m));
                free_reg(g, m);
                free_reg(g, p);
                Ok(CONN_RETURN)
            },
            ASTNodeType::Free => {
                match __code_gen(g, Ghost(ctx), &**ptr, refr) {
                    Ok(_) => {},
                    Err(e) => {
                        return Err(e);
                    },
                }
                let x = match __xsm_free_syscall(g) {
                    Ok(v) => v,
                    Err(e) => {
                        return Err(e);
                    },
                };
                free_reg(g, x);
                Ok(CONN_RETURN)
            },
            ASTNodeType::Initialize => {
                let x = match __xsm_heapset_syscall(g) {
                    Ok(v) => v,
                    Err(e) => {
                        return Err(e);
                    },
                };
                free_reg(g, x);
                Ok(CONN_RETURN)
            },
            ASTNodeType::Read => gen_io_exec(g, Ghost(ctx), n, "Read", "-1", true),
            ASTNodeType::Write => gen_io_exec(g, Ghost(ctx), n, "Write", "-2", false),
            ASTNodeType::Ref => __code_gen(g, Ghost(ctx), &**ptr, true),
            ASTNodeType::Deref => {
                let r = match __code_gen(g, Ghost(ctx), &**ptr, refr) {
                    Ok(v) => v,
                    Err(e) => {
                        return Err(e);
                    },
                };
                let d = match depth {
                    Some(d) => *d,
                    None => {
                        return Err(owned(""));
                    },
                };
                let line = cat(line2("MOV R", r, ",[R", r), "]");
                let ghost lines0 = g@.lines;
                let ghost s1 = g@;
                let mut j: usize = 0;
                while j < d
                    invariant
                        j <= d,
                        same_tables(ctx, g.env),
                        g@ == (GenView { lines: lines0 + repeat_line(line@, j as nat), ..s1 }),
                        s1.wf(),
                    decreases d - j,
                {
                    write_line(g, line.clone());
                    j += 1;
                    assert(g@.lines =~= lines0 + repeat_line(line@, j as nat));
                }
                Ok(r)
            },
            _ => Err(owned("")),
        },
        _ => Err(owned("")),
    }
}

} // verus!

verus! {

fn gen_sys_args_exec(
    g: &mut CodeGen,
    Ghost(ctx): Ghost<Compiler>,
    l: &List<ASTNode>,
    Ghost(c): Ghost<nat>,
    seen: usize,
    iv: i64,
) -> (r: Result<i64, String>)
    requires
        same_tables(ctx, old(g).env),
        old(g)@.wf(),
        seen == if c < 2 {
            c
        } else {
            2
        },
        gen_sys_args(ctx, old(g)@, *l, c, iv).0.defined(),
    ensures
        same_tables(ctx, final(g).env),
        follows(r, gen_sys_args(ctx, old(g)@, *l, c, iv), *final(g)),
    decreases *l, 0nat,
{
    match l {
        List::Nil => Ok(iv),
        List::Cons(h, rest) => {
            let next: usize = if seen < 2 {
                seen + 1
            } else {
                2
            };
            if seen != 1 {
                let r = match __code_gen(g, Ghost(ctx), &**h, false) {
                    Ok(v) => v,
                    Err(e) => {
                        return Err(e);
                    },
                };
                write_line(g, push_line(r));
                free_reg(g, r);
                gen_sys_args_exec(g, Ghost(ctx), &**rest, Ghost(c + 1), next, iv)
            } else {
                match &**h {
                    ASTNode::INT(p) => gen_sys_args_exec(g, Ghost(ctx), &**rest, Ghost(c + 1), next, *p),
                    _ => Err(owned("")),
                }
            }
        },
    }
}

fn gen_set_args_exec(
    g: &mut CodeGen,
    Ghost(ctx): Ghost<Compiler>,
    l: &List<ASTNode>,
    Ghost(c): Ghost<nat>,
    first: bool,
    r1: usize,
    r2: usize,
) -> (r: Result<(usize, usize), String>)
    requires
        same_tables(ctx, old(g).env),
        old(g)@.wf(),
        first == (c == 0),
        gen_set_args(ctx, old(g)@, *l, c, r1, r2).0.defined(),
    ensures
        same_tables(ctx, final(g).env),
        follows(r, gen_set_args(ctx, old(g)@, *l, c, r1, r2), *final(g)),
    decreases *l, 0nat,
{
    match l {
        List::Nil => Ok((r1, r2)),
        List::Cons(h, rest) => {
            let r = match __code_gen(g, Ghost(ctx), &**h, false) {
                Ok(v) => v,
                Err(e) => {
                    return Err(e);
                },
            };
            if first {
                gen_set_args_exec(g, Ghost(ctx), &**rest, Ghost(c + 1), false, r, r2)
            } else {
                gen_set_args_exec(g, Ghost(ctx), &**rest, Ghost(c + 1), false, r1, r)
            }
        },
    }
}

fn gen_std_exec(g: &mut CodeGen, Ghost(ctx): Ghost<Compiler>, n: &ASTNode) -> (r: Result<usize, String>)
    requires
        same_tables(ctx, old(g).env),
        old(g)@.wf(),
        gen_std(ctx, old(g)@, *n).0.defined(),
    ensures
        same_tables(ctx, final(g).env),
        follows(r, gen_std(ctx, old(g)@, *n), *final(g)),
    decreases *n, 4nat,
{
    match n {
        ASTNode::StdFuncCallNode { func, arglist } => match func {
            STDLibFunction::Syscall => {
                __backup_registers(g);
                let iv = match gen_sys_args_exec(g, Ghost(ctx), arglist, Ghost(0), 0, 0) {
                    Ok(v) => v,
                    Err(e) => {
                        return Err(e);
                    },
                };
                let r = match __get_safe_register(g) {
                    Ok(v) => v,
                    Err(e) => {
                        return Err(e);
                    },
                };
                write_line(g, owned("ADD SP, 1"));
                write_line(g, line1i("INT ", iv, ""));
                write_line(g, pop_line(r));
                write_line(g, owned("SUB SP, 4"));
                __restore_registers(g, r);
                Ok(r)
            },
            STDLibFunction::Getaddr => match arglist {
                List::Cons(h, _) => {
                    let r = match __code_gen(g, Ghost(ctx), &**h, false) {
                        Ok(v) => v,
                        Err(e) => {
                            return Err(e);
                        },
                    };
                    write_line(g, mov_deref_line(r));
                    Ok(r)
                },
                List::Nil => Err(owned("")),
            },
            STDLibFunction::Setaddr => {
                let (r1, r2) = match gen_set_args_exec(g, Ghost(ctx), arglist, Ghost(0), true, 5, 5) {
                    Ok(v) => v,
                    Err(e) => {
                        return Err(e);
                    },
                };
                write_line(g, line2("MOV [R", r1, "], R", r2));
                free_reg(g, r1);
                free_reg(g, r2);
                Ok(CONN_RETURN)
            },
            _ => Err(owned("")),
        },
        _ => Err(owned("")),
    }
}

fn gen_call_exec(g: &mut CodeGen, Ghost(ctx): Ghost<Compiler>, n: &ASTNode, refr: bool) -> (r: Result<usize, String>)
    requires
        same_tables(ctx, old(g).env),
        old(g)@.wf(),
        gen_call(ctx, old(g)@, *n, refr).0.defined(),
    ensures
        same_tables(ctx, final(g).env),
        follows(r, gen_call(ctx, old(g)@, *n, refr), *final(g)),
    decreases *n, 4nat,
{
    match n {
        ASTNode::FuncCallNode { fname, arglist } => {
            __backup_registers(g);
            match __push_args(g, Ghost(ctx), arglist, refr) {
                Ok(_) => {},
                Err(e) => {
                    return Err(e);
                },
            }
            write_line(g, owned("ADD SP, 1"));
            let target: Option<Option<usize>> = match g.env.gst.table.get(fname) {
                Some(GSymbol::Func { flabel, .. }) => Some(Some(*flabel)),
                Some(GSymbol::Var { .. }) => Some(None),
                None => None,
            };
            match target {
                Some(Some(flabel)) => {
                    write_line(g, line1("CALL L", flabel, ""));
                },
                Some(None) => {
                    return Err(owned("Function not declared"));
                },
                None => {},
            }
            let ret = match __get_safe_register(g) {
                Ok(v) => v,
                Err(e) => {
                    return Err(e);
                },
            };
            let k = arglist.length();
            write_line(g, pop_line(ret));
            write_line(g, line1("SUB SP, ", k, ""));
            __restore_registers(g, ret);
            Ok(ret)
        },
        _ => Err(owned("")),
    }
}

fn gen_main_exec(g: &mut CodeGen, Ghost(ctx): Ghost<Compiler>, n: &ASTNode) -> (r: Result<usize, String>)
    requires
        same_tables(ctx, old(g).env),
        old(g)@.wf(),
        gen_main(ctx, old(g)@, *n).0.defined(),
    ensures
        same_tables(ctx, final(g).env),
        follows(r, gen_main(ctx, old(g)@, *n), *final(g)),
    decreases *n, 4nat,
{
    match n {
        ASTNode::MainNode { body } => {
            let main_name = owned("main");
            let lab = get_function_label(&main_name, &String::new(), &g.env);
            write_line(g, line1("L", lab, ":"));
            let local = match g.env.function_table.get(&owned("main#")) {
                Some(t) => t.deep_clone(),
                None => {
                    return Err(owned(""));
                },
            };
            let st = __get_function_storage(&main_name, &g.env);
            g.env.lst = local;
            g.frame = (main_name, st);
            write_line(g, owned("PUSH BP\nMOV BP, SP"));
            write_line(g, line1i("ADD SP, ", st, ""));
            __backup_registers(g);
            match __code_gen(g, Ghost(ctx), &**body, false) {
                Ok(_) => {},
                Err(e) => {
                    return Err(e);
                },
            }
            g.registers = fresh_file();
            Ok(CONN_RETURN)
        },
        _ => Err(owned("")),
    }
}

fn gen_funcdef_exec(g: &mut CodeGen, Ghost(ctx): Ghost<Compiler>, n: &ASTNode) -> (r: Result<usize, String>)
    requires
        same_tables(ctx, old(g).env),
        old(g)@.wf(),
        gen_funcdef(ctx, old(g)@, *n).0.defined(),
    ensures
        same_tables(ctx, final(g).env),
        follows(r, gen_funcdef(ctx, old(g)@, *n), *final(g)),
    decreases *n, 4nat,
{
    match n {
        ASTNode::FuncDefNode { fname, body, .. } => {
            let lab = get_function_label(fname, &g.env.class_name, &g.env);
            let st = __get_function_storage(fname, &g.env);
            write_line(g, line1("L", lab, ":\nPUSH BP\nMOV BP, SP"));
            write_line(g, line1i("ADD SP, ", st, ""));
            let id = __get_table_id(fname, &g.env.class_name);
            let local = match g.env.function_table.get(&id) {
                Some(t) => t.deep_clone(),
                None => {
                    return Ok(CONN_RETURN);
                },
            };
            g.env.lst = local;
            g.frame = (fname.clone(), st);
            match __code_gen(g, Ghost(ctx), &**body, false) {
                Ok(_) => Ok(CONN_RETURN),
                Err(e) => Err(e),
            }
        },
        _ => Err(owned("")),
    }
}

fn gen_ifelse_exec(g: &mut CodeGen, Ghost(ctx): Ghost<Compiler>, n: &ASTNode) -> (r: Result<usize, String>)
    requires
        same_tables(ctx, old(g).env),
        old(g)@.wf(),
        gen_ifelse(ctx, old(g)@, *n).0.defined(),
    ensures
        same_tables(ctx, final(g).env),
        follows(r, gen_ifelse(ctx, old(g)@, *n), *final(g)),
    decreases *n, 4nat,
{
    match n {
        ASTNode::IfElseNode { expr, xif, xelse } => {
            let l1v = g.env.label_count;
            let l2v = l1v + 1;
            g.env.label_count = l1v + 2;
            let c = match __code_gen(g, Ghost(ctx), &**expr, false) {
                Ok(v) => v,
                Err(e) => {
                    return Err(e);
                },
            };
            write_line(g, line2("JZ R", c, ", L", l1v));
            free_reg(g, c);
            match __code_gen(g, Ghost(ctx), &**xif, false) {
                Ok(_) => {},
                Err(e) => {
                    return Err(e);
                },
            }
            write_line(g, line1("JMP L", l2v, ""));
            write_line(g, line1("L", l1v, ":"));
            match __code_gen(g, Ghost(ctx), &**xelse, false) {
                Ok(_) => {},
                Err(e) => {
                    return Err(e);
                },
            }
            write_line(g, line1("L", l2v, ":"));
            Ok(CONN_RETURN)
        },
        _ => Err(owned("")),
    }
}

fn gen_while_exec(g: &mut CodeGen, Ghost(ctx): Ghost<Compiler>, n: &ASTNode) -> (r: Result<usize, String>)
    requires
        same_tables(ctx, old(g).env),
        old(g)@.wf(),
        gen_while(ctx, old(g)@, *n).0.defined(),
    ensures
        same_tables(ctx, final(g).env),
        follows(r, gen_while(ctx, old(g)@, *n), *final(g)),
    decreases *n, 4nat,
{
    match n {
        ASTNode::WhileNode { expr, xdo } => {
            let l1v = g.env.label_count;
            write_line(g, line1("L", l1v, ":"));
            let l2v = l1v + 1;
            g.env.label_count = l1v + 2;
            g.env.while_tracker.push(l1v);
            g.env.while_tracker.push(l2v);
            let c = match __code_gen(g, Ghost(ctx), &**expr, false) {
                Ok(v) => v,
                Err(e) => {
                    return Err(e);
                },
            };
            write_line(g, line2("JZ R", c, ", L", l2v));
            free_reg(g, c);
            match __code_gen(g, Ghost(ctx), &**xdo, false) {
                Ok(_) => {},
                Err(e) => {
                    return Err(e);
                },
            }
            let ghost loops3 = g@.loops;
            g.env.while_tracker.pop();
            g.env.while_tracker.pop();
            assert(g@.loops =~= pop2(loops3));
            write_line(g, line1("JMP L", l1v, ""));
            write_line(g, line1("L", l2v, ":"));
            Ok(CONN_RETURN)
        },
        _ => Err(owned("")),
    }
}

fn gen_if_exec(g: &mut CodeGen, Ghost(ctx): Ghost<Compiler>, n: &ASTNode) -> (r: Result<usize, String>)
    requires
        same_tables(ctx, old(g).env),
        old(g)@.wf(),
        gen_if(ctx, old(g)@, *n).0.defined(),
    ensures
        same_tables(ctx, final(g).env),
        follows(r, gen_if(ctx, old(g)@, *n), *final(g)),
    decreases *n, 4nat,
{
    match n {
        ASTNode::IfNode { expr, xif } => {
            let l1v = g.env.label_count;
            g.env.label_count = l1v + 1;
            let c = match __code_gen(g, Ghost(ctx), &**expr, false) {
                Ok(v) => v,
                Err(e) => {
                    return Err(e);
                },
            };
            write_line(g, line2("JZ R", c, ", L", l1v));
            free_reg(g, c);
            match __code_gen(g, Ghost(ctx), &**xif, false) {
                Ok(_) => {},
                Err(e) => {
                    return Err(e);
                },
            }
            write_line(g, line1("L", l1v, ":"));
            Ok(CONN_RETURN)
        },
        _ => Err(owned("")),
    }
}

} // verus!

verus! {

// ---------------------------------------------------------------------------
// The program header, the final exit, and the whole program.
// ---------------------------------------------------------------------------

/// The entry the header adds for `main`: a function returning `int`, with
/// no parameter, at label `l`.
pub open spec fn main_symbol(l: usize) -> GSymbol {
    GSymbol::Func { ret_type: ASTExprType::Primitive(PrimitiveType::Int), paramlist: List::Nil, flabel: l }
}

/// `acc` plus the words of static storage that the global variables of `l`
/// take (the product of an array's dimensions, one for a scalar), skipping
/// the entry named `skip`; `None` when a product or a sum does not fit in a
/// machine word.
pub open spec fn statics(l: List<(String, GSymbol)>, skip: Option<Seq<char>>, acc: int) -> Option<int>
    decreases l,
{
    match l {
        List::Nil => Some(acc),
        List::Cons(e, rest) => if skip == Some(e.0@) {
            statics(*rest, skip, acc)
        } else {
            match e.1 {
                GSymbol::Var { varindices, .. } => match scaled(varindices, 1) {
                    Some(sz) => if acc + sz > usize::MAX {
                        None
                    } else {
                        statics(*rest, skip, acc + sz)
                    },
                    None => None,
                },
                _ => statics(*rest, skip, acc),
            }
        },
    }
}

/// The header of an XSM executable followed by the start-up code: set the
/// stack above the `base` words of globals, call `main` at label `l`, then
/// exit.
pub open spec fn header_line(base: int, l: int) -> Seq<char> {
    l2(
        "0\n2056\n0\n0\n0\n0\n0\n0\nBRKP\nMOV SP, 4095\nADD SP, "@,
        base,
        "\nMOV BP, SP\nADD SP, 1\nCALL L"@,
        l,
    ) + "\nSUB SP, 1\nPUSH R0\nINT 10"@
}

/// `gst1` is `gst` with `main` bound to the function at label `l`.
pub open spec fn main_added(gst: GlobalSymbolTable, gst1: GlobalSymbolTable, l: usize) -> bool {
    exists|k: String| k@ == "main"@ && gst1 == (GlobalSymbolTable { table: gst.table.with(k, main_symbol(l)) })
}

pub open spec fn with_gst(env: Compiler, gst: GlobalSymbolTable) -> Compiler {
    Compiler { gst: gst, ..env }
}

/// The state after the header: a label taken for `main` and the header
/// line written.
pub open spec fn after_header(s: GenView, base: int) -> GenView {
    GenView { labels: (s.labels + 1) as usize, ..s }.emit(header_line(base, s.labels as int))
}

/// The code that ends the program: an exit system call.
pub open spec fn exit_call(s: GenView) -> Out<GenView> {
    let (r, s1) = s.take_reg();
    s1.emit("PUSH R0\nINT 10"@).release(r)
}

/// The code of the program `root` after its header, with the global table
/// of `ctx`: the code of `root`, then the exit; 0 when all went well.
pub open spec fn program(ctx: Compiler, s: GenView, root: ASTNode) -> (Out<usize>, GenView) {
    match gen(ctx, s, root, false) {
        (Out::Value(_), s1) => match exit_call(s1) {
            Out::Value(s2) => (Out::Value(0), s2),
            _ => (Out::Crash, s1),
        },
        (o, s1) => (stop(o), s1),
    }
}

proof fn lemma_statics_absent(l: List<(String, GSymbol)>, k: Seq<char>, acc: int)
    requires
        assoc_lookup(l, k) is None,
    ensures
        statics(l, None, acc) == statics(l, Some(k), acc),
    decreases l,
{
    match l {
        List::Nil => {},
        List::Cons(e, rest) => {
            match e.1 {
                GSymbol::Var { varindices, .. } => match scaled(varindices, 1) {
                    Some(sz) => lemma_statics_absent(*rest, k, acc + sz),
                    None => {},
                },
                _ => lemma_statics_absent(*rest, k, acc),
            }
        },
    }
}

proof fn lemma_statics_insert(l: List<(String, GSymbol)>, k: String, v: GSymbol, acc: int)
    requires
        assoc_distinct(l),
        v is Func,
    ensures
        statics(assoc_insert(l, k, v), None, acc) == statics(l, Some(k@), acc),
    decreases l,
{
    match l {
        List::Nil => {
            assert(statics(List::<(String, GSymbol)>::Nil, None, acc) == Some(acc));
        },
        List::Cons(e, rest) => {
            if e.0@ == k@ {
                lemma_statics_absent(*rest, k@, acc);
            } else {
                match e.1 {
                    GSymbol::Var { varindices, .. } => match scaled(varindices, 1) {
                        Some(sz) => lemma_statics_insert(*rest, k, v, acc + sz),
                        None => {},
                    },
                    _ => lemma_statics_insert(*rest, k, v, acc),
                }
            }
        },
    }
}

fn statics_exec(l: &List<(String, GSymbol)>, acc: usize) -> (r: usize)
    requires
        statics(*l, None, acc as int) is Some,
    ensures
        r == statics(*l, None, acc as int)->0,
    decreases l,
{
    match l {
        List::Nil => acc,
        List::Cons(e, rest) => match &e.1 {
            GSymbol::Var { varindices, .. } => {
                let size = scale(varindices, 1);
                statics_exec(&**rest, acc + size)
            },
            _ => statics_exec(&**rest, acc),
        },
    }
}

/// Writes the header: `main` gets the next label in the global table, and
/// the start-up code reserves the globals and calls it.
fn __header_gen(g: &mut CodeGen)
    requires
        old(g)@.wf(),
        old(g)@.labels < usize::MAX,
        old(g).env.gst.table.wf(),
        statics(old(g).env.gst.table.entries, Some("main"@), 0) is Some,
    ensures
        main_added(old(g).env.gst, final(g).env.gst, old(g)@.labels),
        final(g).env == with_gst(Compiler { label_count: final(g).env.label_count, ..old(g).env }, final(g).env.gst),
        final(g).env.gst.table.wf(),
        final(g)@ == after_header(old(g)@, statics(old(g).env.gst.table.entries, Some("main"@), 0)->0),
        final(g)@.wf(),
{
    let l = g.env.label_count;
    g.env.label_count = l + 1;
    let key = owned("main");
    let ghost kg = key;
    let sym = GSymbol::Func { ret_type: ASTExprType::Primitive(PrimitiveType::Int), paramlist: List::Nil, flabel: l };
    proof {
        lemma_statics_insert(old(g).env.gst.table.entries, kg, sym, 0);
    }
    g.env.gst.table.insert(key, sym);
    assert(g.env.gst == (GlobalSymbolTable { table: old(g).env.gst.table.with(kg, main_symbol(l)) }));
    let base = statics_exec(&g.env.gst.table.entries, 0);
    let line = cat(
        line2("0\n2056\n0\n0\n0\n0\n0\n0\nBRKP\nMOV SP, 4095\nADD SP, ", base, "\nMOV BP, SP\nADD SP, 1\nCALL L", l),
        "\nSUB SP, 1\nPUSH R0\nINT 10",
    );
    write_line(g, line);
}

/// Writes the exit system call that ends the program.
fn __xsm_exit_syscall(g: &mut CodeGen)
    requires
        old(g)@.wf(),
        exit_call(old(g)@) is Value,
    ensures
        exit_call(old(g)@) == Out::Value(final(g)@),
        final(g).env == old(g).env,
        final(g)@.wf(),
{
    let register = get_reg(g);
    write_line(g, owned("PUSH R0\nINT 10"));
    free_reg(g, register);
}

/// Generates the program `root`: the header, the code of the tree, and the
/// exit. The result is 0; an `Err` is an error the compiler stops on.
pub fn code_gen(root: &ASTNode, g: &mut CodeGen) -> (r: Result<usize, String>)
    requires
        old(g)@.wf(),
        old(g)@.labels < usize::MAX,
        old(g).env.gst.table.wf(),
        statics(old(g).env.gst.table.entries, Some("main"@), 0) is Some,
        forall|gst1: GlobalSymbolTable|
            #[trigger] main_added(old(g).env.gst, gst1, old(g)@.labels) ==> program(
                with_gst(old(g).env, gst1),
                after_header(old(g)@, statics(old(g).env.gst.table.entries, Some("main"@), 0)->0),
                *root,
            ).0.defined(),
    ensures
        exists|gst1: GlobalSymbolTable|
            #[trigger] main_added(old(g).env.gst, gst1, old(g)@.labels) && same_tables(
                with_gst(old(g).env, gst1),
                final(g).env,
            ) && follows(
                r,
                program(
                    with_gst(old(g).env, gst1),
                    after_header(old(g)@, statics(old(g).env.gst.table.entries, Some("main"@), 0)->0),
                    *root,
                ),
                *final(g),
            ),
{
    __header_gen(g);
    let ghost gst1 = g.env.gst;
    let ghost ctx = with_gst(old(g).env, gst1);
    assert(main_added(old(g).env.gst, gst1, old(g)@.labels));
    assert(same_tables(ctx, g.env));
    let r = match __code_gen(g, Ghost(ctx), root, false) {
        Ok(_) => {
            __xsm_exit_syscall(g);
            Ok(0)
        },
        Err(e) => Err(e),
    };
    proof {
        assert(same_tables(with_gst(old(g).env, gst1), g.env));
    }
    r
}

} // verus!

verus! {

// ---------------------------------------------------------------------------
// Laws of the register file and of labels.
// ---------------------------------------------------------------------------

proof fn lemma_first_free(regs: Seq<(bool, i64)>, i: nat)
    requires
        regs.len() == 21,
        i <= 21,
    ensures
        i <= first_free(regs, i) <= 21,
        first_free(regs, i) < 21 ==> !regs[first_free(regs, i) as int].0,
        forall|j: int| i <= j < first_free(regs, i) ==> #[trigger] regs[j].0,
    decreases 21 - i,
{
    if i < 21 && regs[i as int].0 {
        lemma_first_free(regs, i + 1);
    }
}

/// `get_reg` takes the free register with the lowest number and marks it in
/// use; it gives 21, and changes nothing, when every register is in use.
pub proof fn lemma_get_reg_lowest(s: GenView)
    requires
        s.wf(),
    ensures
        s.take_reg().0 <= 21,
        s.take_reg().0 < 21 ==> !s.regs[s.take_reg().0 as int].0 && s.take_reg().1.regs[s.take_reg().0 as int].0,
        forall|j: int| 0 <= j < s.take_reg().0 ==> #[trigger] s.regs[j].0,
        s.take_reg().0 == 21 ==> s.take_reg().1 == s,
{
    lemma_first_free(s.regs, 0);
}

/// Freeing the register that `get_reg` has just taken gives back the
/// register file as it was.
pub proof fn lemma_reg_roundtrip(s: GenView)
    requires
        s.wf(),
        s.take_reg().0 < 21,
    ensures
        s.take_reg().1.release(s.take_reg().0) == Out::Value(s),
{
    lemma_first_free(s.regs, 0);
    let r = s.take_reg().0;
    let s1 = s.take_reg().1;
    assert(mark(s1.regs, r as int, false) =~= s.regs);
}

/// Saving the registers before a call and restoring them after it gives
/// back the register file of before the call, whatever was done to the live
/// file in between, with the call's result in a register that was free
/// before; the saved files are as they were.
pub proof fn lemma_call_restores(s: GenView, between: GenView)
    requires
        s.wf(),
        s.backup().safe_reg() is Value,
        between.stack == s.backup().safe_reg()->Value_0.1.stack,
    ensures
        ({
            let r = s.backup().safe_reg()->Value_0.0;
            &&& r < 21
            &&& !s.regs[r as int].0
            &&& between.restore(r) is Value
            &&& between.restore(r)->Value_0.regs == mark(s.regs, r as int, true)
            &&& between.restore(r)->Value_0.stack == s.stack
        }),
{
    lemma_first_free(s.regs, 0);
    let r = s.backup().safe_reg()->Value_0.0;
    let top = mark(s.regs, r as int, true);
    assert(between.stack.last() == top);
    assert(mark(top, r as int, true) =~= top);
    assert(between.stack.drop_last() =~= s.stack);
}

/// A function that `install_func_to_gst` declares is then found at the label
/// it was given; the next function declared gets the next label, so each has
/// its own.
pub proof fn lemma_function_labels(
    f: String,
    rf: ASTExprType,
    pf: List<VarNode>,
    g: String,
    rg: ASTExprType,
    pg: List<VarNode>,
    env: Compiler,
)
    requires
        install_func_spec(f, rf, pf, env).0 == Out::<()>::Value(()),
        install_func_spec(g, rg, pg, install_func_spec(f, rf, pf, env).1).0 == Out::<()>::Value(()),
    ensures
        ({
            let e1 = install_func_spec(f, rf, pf, env).1;
            let e2 = install_func_spec(g, rg, pg, e1).1;
            &&& label_of(e1.type_table, e1.gst, f@, Seq::empty()) == Out::Value(env.label_count)
            &&& label_of(e2.type_table, e2.gst, f@, Seq::empty()) == Out::Value(env.label_count)
            &&& label_of(e2.type_table, e2.gst, g@, Seq::empty()) == Out::Value((env.label_count + 1) as usize)
        }),
{
    let e1 = install_func_spec(f, rf, pf, env).1;
    let sf = GSymbol::Func { ret_type: rf, paramlist: pf, flabel: env.label_count };
    crate::list::lemma_assoc_insert(env.gst.table.entries, f, sf);
    let sg = GSymbol::Func { ret_type: rg, paramlist: pg, flabel: e1.label_count };
    crate::list::lemma_assoc_insert(e1.gst.table.entries, g, sg);
    assert(g@ != f@);
}

} // verus!

verus! {

// ---------------------------------------------------------------------------
// Labels are never reused, and loops leave no labels behind.
// ---------------------------------------------------------------------------

/// `t` has taken no label back from `s` and has the loop labels of `s`.
pub open spec fn keeps_labels(s: GenView, t: GenView) -> bool {
    t.labels >= s.labels && t.loops == s.loops
}

/// Generating the code of any node never takes back a label, so each label
/// that a node defines is new, and it leaves the loop labels as they were:
/// `break` and `continue` after a loop jump out of the enclosing one.
#[verifier::spinoff_prover]
#[verifier::rlimit(40)]
pub proof fn lemma_gen_keeps_labels(ctx: Compiler, s: GenView, n: ASTNode, refr: bool)
    ensures
        gen(ctx, s, n, refr).0 is Value ==> keeps_labels(s, gen(ctx, s, n, refr).1),
    decreases n, 5nat,
{
    match n {
        ASTNode::ClassNode { cname, methods } => {
            lemma_list_keeps_labels(ctx, GenView { class_name: cname@, ..s }, methods);
        },
        ASTNode::VAR { .. } => lemma_var_keeps_labels(ctx, s, n, refr),
        ASTNode::BinaryNode { .. } => lemma_binary_keeps_labels(ctx, s, n),
        ASTNode::UnaryNode { .. } => lemma_unary_keeps_labels(ctx, s, n, refr),
        ASTNode::StdFuncCallNode { .. } => lemma_std_keeps_labels(ctx, s, n),
        ASTNode::FuncCallNode { .. } => lemma_call_keeps_labels(ctx, s, n, refr),
        ASTNode::ReturnNode { expr } => lemma_gen_keeps_labels(ctx, s, *expr, refr),
        ASTNode::MainNode { .. } => lemma_main_keeps_labels(ctx, s, n),
        ASTNode::FuncDefNode { .. } => lemma_funcdef_keeps_labels(ctx, s, n),
        ASTNode::IfElseNode { .. } => lemma_ifelse_keeps_labels(ctx, s, n),
        ASTNode::WhileNode { .. } => lemma_while_keeps_labels(ctx, s, n),
        ASTNode::IfNode { .. } => lemma_if_keeps_labels(ctx, s, n),
        _ => {},
    }
}

proof fn lemma_list_keeps_labels(ctx: Compiler, s: GenView, l: List<ASTNode>)
    ensures
        gen_list(ctx, s, l).0 is Value ==> keeps_labels(s, gen_list(ctx, s, l).1),
    decreases l, 0nat,
{
    match l {
        List::Nil => {},
        List::Cons(h, rest) => {
            lemma_gen_keeps_labels(ctx, s, *h, false);
            lemma_list_keeps_labels(ctx, gen(ctx, s, *h, false).1, *rest);
        },
    }
}

proof fn lemma_args_keeps_labels(ctx: Compiler, s: GenView, l: List<ASTNode>, refr: bool)
    ensures
        gen_args(ctx, s, l, refr).0 is Value ==> keeps_labels(s, gen_args(ctx, s, l, refr).1),
    decreases l, 0nat,
{
    match l {
        List::Nil => {},
        List::Cons(h, rest) => {
            lemma_gen_keeps_labels(ctx, s, *h, refr);
            let (o, s1) = gen(ctx, s, *h, refr);
            if let Out::Value(r) = o {
                if let Out::Value(s2) = s1.emit(l1("PUSH R"@, r as int, ""@)).release(r) {
                    lemma_args_keeps_labels(ctx, s2, *rest, refr);
                }
            }
        },
    }
}

proof fn lemma_indices_keeps_labels(
    ctx: Compiler,
    s: GenView,
    l: List<ASTNode>,
    i: nat,
    base: usize,
    dims: Seq<usize>,
)
    ensures
        gen_indices(ctx, s, l, i, base, dims).0 is Value ==> keeps_labels(s, gen_indices(ctx, s, l, i, base, dims).1),
    decreases l, 0nat,
{
    match l {
        List::Nil => {},
        List::Cons(h, rest) => {
            lemma_gen_keeps_labels(ctx, s, *h, false);
            let (o, s1) = gen(ctx, s, *h, false);
            if let Out::Value(off) = o {
                if !(dims.len() == 0 || (i != dims.len() - 1 && i >= dims.len()) || off >= 21) {
                    let s2 = if i != dims.len() - 1 {
                        let (m, s1a) = s1.take_reg();
                        (m, s1a.emit(l2("MUL R"@, off as int, ", "@, dims[i as int] as int)))
                    } else {
                        (22usize, s1)
                    };
                    if let Out::Value(s3) = s2.1.release(s2.0) {
                        let v = s3.regs[base as int].1 + s3.regs[off as int].1;
                        if !(v < i64::MIN || v > i64::MAX) {
                            let s4 = s3.emit(l2("ADD R"@, base as int, ", R"@, off as int)).set_value(base, v as i64);
                            if let Out::Value(s5) = s4.release(off) {
                                lemma_indices_keeps_labels(ctx, s5, *rest, i + 1, base, dims);
                            }
                        }
                    }
                }
            }
        },
    }
}

proof fn lemma_chain_keeps_labels(
    ctx: Compiler,
    s: GenView,
    holder: ASTNode,
    base: usize,
    t: ASTExprType,
    refr: bool,
    fin: bool,
)
    ensures
        gen_chain(ctx, s, holder, base, t, refr, fin).0 is Value ==> keeps_labels(
            s,
            gen_chain(ctx, s, holder, base, t, refr, fin).1,
        ),
    decreases holder, 1nat,
{
    match holder {
        ASTNode::VAR { dot_field_access, arrow_field_access, .. } => {
            let dot = *dot_field_access;
            let arrow = *arrow_field_access;
            if !(dot is Void && arrow is Void) {
                match dot {
                    ASTNode::VAR { name, .. } => {
                        if let (Out::Value(off), Out::Value(t2)) = (t.field_id_spec(name@), t.field_type_spec(
                            name@,
                            ctx.type_table,
                        )) {
                            lemma_chain_keeps_labels(
                                ctx,
                                s.emit(l2("ADD R"@, base as int, ", "@, off as int)),
                                dot,
                                base,
                                t2,
                                refr,
                                fin,
                            );
                        }
                    },
                    ASTNode::FuncCallNode { fname, arglist } => {
                        let s1 = s.backup().emit(l1("PUSH R"@, base as int, ""@));
                        match t {
                            ASTExprType::Struct(st) => lemma_method_keeps_labels(
                                ctx,
                                s1,
                                base,
                                st.name@,
                                fname@,
                                arglist,
                                refr,
                            ),
                            ASTExprType::Class(c) => lemma_method_keeps_labels(
                                ctx,
                                s1,
                                base,
                                c.name@,
                                fname@,
                                arglist,
                                refr,
                            ),
                            _ => {},
                        }
                    },
                    ASTNode::Void => match t {
                        ASTExprType::Pointer(et) => {
                            let s1 = s.emit(l2("MOV R"@, base as int, ", [R"@, base as int) + "]"@);
                            match arrow {
                                ASTNode::VAR { name, .. } => {
                                    if let (Out::Value(off), Out::Value(t2)) = (
                                        et.field_id_spec(name@),
                                        et.field_type_spec(name@, ctx.type_table),
                                    ) {
                                        lemma_chain_keeps_labels(
                                            ctx,
                                            s1.emit(l2("ADD R"@, base as int, ", "@, off as int)),
                                            arrow,
                                            base,
                                            t2,
                                            refr,
                                            fin,
                                        );
                                    }
                                },
                                ASTNode::FuncCallNode { fname, arglist } => {
                                    let s2 = s1.backup().emit(l1("PUSH R"@, base as int, ""@));
                                    match *et {
                                        ASTExprType::Struct(st) => lemma_method_keeps_labels(
                                            ctx,
                                            s2,
                                            base,
                                            st.name@,
                                            fname@,
                                            arglist,
                                            refr,
                                        ),
                                        ASTExprType::Class(c) => lemma_method_keeps_labels(
                                            ctx,
                                            s2,
                                            base,
                                            c.name@,
                                            fname@,
                                            arglist,
                                            refr,
                                        ),
                                        _ => {},
                                    }
                                },
                                _ => {},
                            }
                        },
                        _ => {},
                    },
                    _ => {},
                }
            }
        },
        _ => {},
    }
}

proof fn lemma_method_keeps_labels(
    ctx: Compiler,
    s: GenView,
    base: usize,
    cn: Seq<char>,
    fname: Seq<char>,
    arglist: List<ASTNode>,
    refr: bool,
)
    ensures
        gen_method_call(ctx, s, base, cn, fname, arglist, refr).0 is Value ==> keeps_labels(
            s,
            gen_method_call(ctx, s, base, cn, fname, arglist, refr).1,
        ),
    decreases arglist, 1nat,
{
    lemma_args_keeps_labels(ctx, s, arglist, refr);
}

proof fn lemma_var_keeps_labels(ctx: Compiler, s: GenView, n: ASTNode, refr: bool)
    ensures
        gen_var(ctx, s, n, refr).0 is Value ==> keeps_labels(s, gen_var(ctx, s, n, refr).1),
    decreases n, 4nat,
{
    match n {
        ASTNode::VAR { name, array_access, .. } => {
            let e = with_lst(ctx, s.lst);
            if let (Out::Value(Some(varid)), Some(dims)) = (e.var_id_spec(name@), e.var_indices_spec(name@)) {
                if let Out::Value((base, s1)) = load_var(e, s, name@) {
                    if !(base >= 21 || XSM_STACK_OFFSET + varid > i64::MAX || XSM_STACK_OFFSET + varid
                        < i64::MIN) {
                        let s2 = s1.set_value(base, (XSM_STACK_OFFSET + varid) as i64);
                        lemma_indices_keeps_labels(ctx, s2, array_access, 0, base, dims.seq());
                        let (o, s3) = gen_indices(ctx, s2, array_access, 0, base, dims.seq());
                        if let Out::Value(Some(t)) = with_lst(ctx, s3.lst).var_type_spec(name@) {
                            if let Some(t2) = deref_n(t, array_access.len()) {
                                lemma_chain_keeps_labels(
                                    ctx,
                                    s3,
                                    n,
                                    base,
                                    t2,
                                    refr,
                                    !refr && dims.len() == array_access.len(),
                                );
                            }
                        }
                    }
                }
            }
        },
        _ => {},
    }
}

proof fn lemma_binary_keeps_labels(ctx: Compiler, s: GenView, n: ASTNode)
    ensures
        gen_binary(ctx, s, n).0 is Value ==> keeps_labels(s, gen_binary(ctx, s, n).1),
    decreases n, 4nat,
{
    match n {
        ASTNode::BinaryNode { op, lhs, rhs, .. } => {
            let lrefr = op == ASTNodeType::Equals;
            lemma_gen_keeps_labels(ctx, s, *lhs, lrefr);
            lemma_gen_keeps_labels(ctx, s, *lhs, false);
            let s1 = gen(ctx, s, *lhs, lrefr).1;
            lemma_gen_keeps_labels(ctx, s1, *rhs, false);
            if let Out::Value(a) = gen(ctx, s, *lhs, false).0 {
                if let Out::Value(s2) = gen(ctx, s, *lhs, false).1.release(a) {
                    lemma_gen_keeps_labels(ctx, s2, *rhs, false);
                }
            }
        },
        _ => {},
    }
}

proof fn lemma_io_keeps_labels(
    ctx: Compiler,
    s: GenView,
    n: ASTNode,
    name: Seq<char>,
    code: Seq<char>,
    addr: bool,
)
    ensures
        gen_io(ctx, s, n, name, code, addr).0 is Value ==> keeps_labels(s, gen_io(ctx, s, n, name, code, addr).1),
    decreases n, 3nat,
{
    match n {
        ASTNode::UnaryNode { ptr, .. } => {
            let (r, s1) = s.backup().take_reg();
            let s2 = s1.emit(l1("MOV R"@, r as int, ", \""@ + name + "\""@)).emit(l1("PUSH R"@, r as int, ""@)).emit(
                l1("MOV R"@, r as int, ", "@ + code),
            ).emit(l1("PUSH R"@, r as int, ""@));
            if let Out::Value(s3) = s2.release(r) {
                lemma_gen_keeps_labels(ctx, s3, *ptr, addr);
            }
        },
        _ => {},
    }
}

proof fn lemma_unary_keeps_labels(ctx: Compiler, s: GenView, n: ASTNode, refr: bool)
    ensures
        gen_unary(ctx, s, n, refr).0 is Value ==> keeps_labels(s, gen_unary(ctx, s, n, refr).1),
    decreases n, 4nat,
{
    match n {
        ASTNode::UnaryNode { op, ptr, .. } => match op {
            ASTNodeType::Alloc => {
                if let Out::Value((m, s1)) = s.lib_call("Alloc"@, true) {
                    lemma_gen_keeps_labels(ctx, s1, *ptr, true);
                }
            },
            ASTNodeType::Free => lemma_gen_keeps_labels(ctx, s, *ptr, refr),
            ASTNodeType::Read => lemma_io_keeps_labels(ctx, s, n, "Read"@, "-1"@, true),
            ASTNodeType::Write => lemma_io_keeps_labels(ctx, s, n, "Write"@, "-2"@, false),
            ASTNodeType::Ref => lemma_gen_keeps_labels(ctx, s, *ptr, true),
            ASTNodeType::Deref => lemma_gen_keeps_labels(ctx, s, *ptr, refr),
            _ => {},
        },
        _ => {},
    }
}

proof fn lemma_sys_keeps_labels(ctx: Compiler, s: GenView, l: List<ASTNode>, c: nat, iv: i64)
    ensures
        gen_sys_args(ctx, s, l, c, iv).0 is Value ==> keeps_labels(s, gen_sys_args(ctx, s, l, c, iv).1),
    decreases l, 0nat,
{
    match l {
        List::Nil => {},
        List::Cons(h, rest) => if c != 1 {
            lemma_gen_keeps_labels(ctx, s, *h, false);
            let (o, s1) = gen(ctx, s, *h, false);
            if let Out::Value(r) = o {
                if let Out::Value(s2) = s1.emit(l1("PUSH R"@, r as int, ""@)).release(r) {
                    lemma_sys_keeps_labels(ctx, s2, *rest, c + 1, iv);
                }
            }
        } else {
            if let ASTNode::INT(p) = *h {
                lemma_sys_keeps_labels(ctx, s, *rest, c + 1, p);
            }
        },
    }
}

proof fn lemma_set_keeps_labels(ctx: Compiler, s: GenView, l: List<ASTNode>, c: nat, r1: usize, r2: usize)
    ensures
        gen_set_args(ctx, s, l, c, r1, r2).0 is Value ==> keeps_labels(s, gen_set_args(ctx, s, l, c, r1, r2).1),
    decreases l, 0nat,
{
    match l {
        List::Nil => {},
        List::Cons(h, rest) => {
            lemma_gen_keeps_labels(ctx, s, *h, false);
            let (o, s1) = gen(ctx, s, *h, false);
            if let Out::Value(r) = o {
                lemma_set_keeps_labels(ctx, s1, *rest, c + 1, r, r2);
                lemma_set_keeps_labels(ctx, s1, *rest, c + 1, r1, r);
            }
        },
    }
}

proof fn lemma_std_keeps_labels(ctx: Compiler, s: GenView, n: ASTNode)
    ensures
        gen_std(ctx, s, n).0 is Value ==> keeps_labels(s, gen_std(ctx, s, n).1),
    decreases n, 4nat,
{
    match n {
        ASTNode::StdFuncCallNode { func, arglist } => match func {
            STDLibFunction::Syscall => lemma_sys_keeps_labels(ctx, s.backup(), arglist, 0, 0),
            STDLibFunction::Getaddr => {
                if let List::Cons(h, _) = arglist {
                    lemma_gen_keeps_labels(ctx, s, *h, false);
                }
            },
            STDLibFunction::Setaddr => lemma_set_keeps_labels(ctx, s, arglist, 0, 5, 5),
            _ => {},
        },
        _ => {},
    }
}

proof fn lemma_call_keeps_labels(ctx: Compiler, s: GenView, n: ASTNode, refr: bool)
    ensures
        gen_call(ctx, s, n, refr).0 is Value ==> keeps_labels(s, gen_call(ctx, s, n, refr).1),
    decreases n, 4nat,
{
    match n {
        ASTNode::FuncCallNode { arglist, .. } => lemma_args_keeps_labels(ctx, s.backup(), arglist, refr),
        _ => {},
    }
}

proof fn lemma_main_keeps_labels(ctx: Compiler, s: GenView, n: ASTNode)
    ensures
        gen_main(ctx, s, n).0 is Value ==> keeps_labels(s, gen_main(ctx, s, n).1),
    decreases n, 4nat,
{
    match n {
        ASTNode::MainNode { body } => {
            if let Out::Value(lab) = label_of(ctx.type_table, ctx.gst, "main"@, Seq::empty()) {
                let s1 = s.emit(l1("L"@, lab as int, ":"@));
                if let Some(local) = ctx.function_table.lookup("main#"@) {
                    let st = storage_of(ctx.function_table, table_id("main"@, s1.class_name));
                    let s2 = GenView { lst: local, storage: st, ..s1 }.emit("PUSH BP\nMOV BP, SP"@).emit(
                        l1("ADD SP, "@, st as int, ""@),
                    ).backup();
                    lemma_gen_keeps_labels(ctx, s2, *body, false);
                }
            }
        },
        _ => {},
    }
}

proof fn lemma_funcdef_keeps_labels(ctx: Compiler, s: GenView, n: ASTNode)
    ensures
        gen_funcdef(ctx, s, n).0 is Value ==> keeps_labels(s, gen_funcdef(ctx, s, n).1),
    decreases n, 4nat,
{
    match n {
        ASTNode::FuncDefNode { fname, body, .. } => {
            if let Out::Value(lab) = label_of(ctx.type_table, ctx.gst, fname@, s.class_name) {
                let id = table_id(fname@, s.class_name);
                let st = storage_of(ctx.function_table, id);
                let s1 = s.emit(l1("L"@, lab as int, ":\nPUSH BP\nMOV BP, SP"@)).emit(l1("ADD SP, "@, st as int, ""@));
                if let Some(local) = ctx.function_table.lookup(id) {
                    lemma_gen_keeps_labels(ctx, GenView { lst: local, storage: st, ..s1 }, *body, false);
                }
            }
        },
        _ => {},
    }
}

proof fn lemma_ifelse_keeps_labels(ctx: Compiler, s: GenView, n: ASTNode)
    ensures
        gen_ifelse(ctx, s, n).0 is Value ==> keeps_labels(s, gen_ifelse(ctx, s, n).1),
    decreases n, 4nat,
{
    match n {
        ASTNode::IfElseNode { expr, xif, xelse } => if s.labels < usize::MAX - 1 {
            let l1v = s.labels;
            let l2v = (s.labels + 1) as usize;
            let s0 = GenView { labels: (s.labels + 2) as usize, ..s };
            lemma_gen_keeps_labels(ctx, s0, *expr, false);
            let (o, s1) = gen(ctx, s0, *expr, false);
            if let Out::Value(c) = o {
                if let Out::Value(s2) = s1.emit(l2("JZ R"@, c as int, ", L"@, l1v as int)).release(c) {
                    lemma_gen_keeps_labels(ctx, s2, *xif, false);
                    let s3 = gen(ctx, s2, *xif, false).1;
                    lemma_gen_keeps_labels(
                        ctx,
                        s3.emit(l1("JMP L"@, l2v as int, ""@)).emit(l1("L"@, l1v as int, ":"@)),
                        *xelse,
                        false,
                    );
                }
            }
        },
        _ => {},
    }
}

proof fn lemma_while_keeps_labels(ctx: Compiler, s: GenView, n: ASTNode)
    ensures
        gen_while(ctx, s, n).0 is Value ==> keeps_labels(s, gen_while(ctx, s, n).1),
    decreases n, 4nat,
{
    match n {
        ASTNode::WhileNode { expr, xdo } => if s.labels < usize::MAX - 1 {
            let l1v = s.labels;
            let l2v = (s.labels + 1) as usize;
            let s0 = GenView { labels: (s.labels + 2) as usize, loops: s.loops.push(l1v).push(l2v), ..s }.emit(
                l1("L"@, l1v as int, ":"@),
            );
            lemma_gen_keeps_labels(ctx, s0, *expr, false);
            let (o, s1) = gen(ctx, s0, *expr, false);
            if let Out::Value(c) = o {
                if let Out::Value(s2) = s1.emit(l2("JZ R"@, c as int, ", L"@, l2v as int)).release(c) {
                    lemma_gen_keeps_labels(ctx, s2, *xdo, false);
                    assert(pop2(s.loops.push(l1v).push(l2v)) =~= s.loops);
                }
            }
        },
        _ => {},
    }
}

proof fn lemma_if_keeps_labels(ctx: Compiler, s: GenView, n: ASTNode)
    ensures
        gen_if(ctx, s, n).0 is Value ==> keeps_labels(s, gen_if(ctx, s, n).1),
    decreases n, 4nat,
{
    match n {
        ASTNode::IfNode { expr, xif } => if s.labels != usize::MAX {
            let l1v = s.labels;
            let s0 = GenView { labels: (s.labels + 1) as usize, ..s };
            lemma_gen_keeps_labels(ctx, s0, *expr, false);
            let (o, s1) = gen(ctx, s0, *expr, false);
            if let Out::Value(c) = o {
                if let Out::Value(s2) = s1.emit(l2("JZ R"@, c as int, ", L"@, l1v as int)).release(c) {
                    lemma_gen_keeps_labels(ctx, s2, *xif, false);
                }
            }
        },
        _ => {},
    }
}

} // verus!

verus! {

/// An expression built from integer and string literals with arithmetic and
/// comparison operators.
pub open spec fn is_arith_expr(n: ASTNode) -> bool
    decreases n,
{
    match n {
        ASTNode::INT(_) => true,
        ASTNode::STR(_) => true,
        ASTNode::BinaryNode { op, lhs, rhs, .. } => is_arith(op) && is_arith_expr(*lhs) && is_arith_expr(*rhs),
        _ => false,
    }
}

/// The code of an expression of literals and operators, whenever it can be
/// generated (a register free for each literal, no overflow and no division
/// by zero in the values it tracks), leaves its value in the lowest register
/// that was free, holds that one register more, and frees every register it
/// used on the way.
pub proof fn lemma_expr_one_register(ctx: Compiler, s: GenView, n: ASTNode, refr: bool)
    requires
        s.wf(),
        is_arith_expr(n),
        gen(ctx, s, n, refr).0.defined(),
    ensures
        ({
            let (o, t) = gen(ctx, s, n, refr);
            &&& o is Value
            &&& o->Value_0 == first_free(s.regs, 0)
            &&& o->Value_0 < 21
            &&& t.wf()
            &&& t.stack == s.stack
            &&& forall|i: int| 0 <= i < 21 ==> #[trigger] t.regs[i].0 == (i == o->Value_0 || s.regs[i].0)
        }),
    decreases n,
{
    lemma_first_free(s.regs, 0);
    match n {
        ASTNode::BinaryNode { op, lhs, rhs, .. } => {
            assert(gen(ctx, s, n, refr) == gen_binary(ctx, s, n));
            assert(is_arith(op));
            assert(gen(ctx, s, *lhs, false).0.defined());
            lemma_expr_one_register(ctx, s, *lhs, false);
            let (ol, s1) = gen(ctx, s, *lhs, false);
            assert(gen(ctx, s1, *rhs, false).0.defined());
            let l = ol->Value_0;
            lemma_expr_one_register(ctx, s1, *rhs, false);
            let (or, s2) = gen(ctx, s1, *rhs, false);
            let r = or->Value_0;
            lemma_first_free(s1.regs, 0);
            assert(r > l) by {
                if r <= l {
                    assert(s1.regs[r as int].0);
                }
            }
            let v = fold_value(op, s2.regs[l as int].1, s2.regs[r as int].1)->0;
            let s3 = s2.emit(l2(mnemonic(op) + " R"@, l as int, ", R"@, r as int)).set_value(l, v);
            let s4 = s3.release(r)->Value_0;
            assert forall|i: int| 0 <= i < 21 implies #[trigger] s4.regs[i].0 == (i == l || s.regs[i].0) by {
                assert(s4.regs[i].0 == (s3.regs[i].0 && i != r));
            }
        },
        _ => {},
    }
}

} // verus!

verus! {

fn names_distinct<V>(l: &List<(String, V)>) -> (r: bool)
    ensures
        r == assoc_distinct(*l),
    decreases l,
{
    match l {
        List::Nil => true,
        List::Cons(e, rest) => {
            match crate::list::assoc_get(&**rest, &e.0) {
                Some(_) => false,
                None => names_distinct(&**rest),
            }
        },
    }
}

fn statics_checked(l: &List<(String, GSymbol)>, skip: &String, acc: usize) -> (r: Option<usize>)
    ensures
        r matches Some(v) ==> statics(*l, Some(skip@), acc as int) == Some(v as int),
        r is None ==> statics(*l, Some(skip@), acc as int) is None,
    decreases l,
{
    match l {
        List::Nil => Some(acc),
        List::Cons(e, rest) => {
            if e.0 == *skip {
                return statics_checked(&**rest, skip, acc);
            }
            match &e.1 {
                GSymbol::Var { varindices, .. } => match scaled_checked(varindices, 1) {
                    Some(size) => match acc.checked_add(size) {
                        Some(a) => statics_checked(&**rest, skip, a),
                        None => None,
                    },
                    None => None,
                },
                _ => statics_checked(&**rest, skip, acc),
            }
        },
    }
}

/// Whether the state meets what `code_gen` asks of its generator before
/// the tree itself: a well-formed register file, a free label for `main`, a
/// global table that binds each name once, and static storage whose size
/// fits in a machine word.
pub fn code_gen_ready(g: &CodeGen) -> (r: bool)
    ensures
        r == (g@.wf() && g@.labels < usize::MAX && g.env.gst.table.wf() && statics(
            g.env.gst.table.entries,
            Some("main"@),
            0,
        ) is Some),
{
    if g.registers.len() != MAX_REGISTERS || g.env.label_count == usize::MAX {
        return false;
    }
    let mut i: usize = 0;
    while i < g.register_stack.len()
        invariant
            i <= g.register_stack.len(),
            forall|j: int| 0 <= j < i ==> (#[trigger] g@.stack[j]).len() == 21,
        decreases g.register_stack.len() - i,
    {
        if g.register_stack[i].len() != MAX_REGISTERS {
            assert(g@.stack[i as int].len() != 21);
            return false;
        }
        i += 1;
    }
    if !names_distinct(&g.env.gst.table.entries) {
        return false;
    }
    let main = owned("main");
    statics_checked(&g.env.gst.table.entries, &main, 0).is_some()
}

} // verus!

verus! {

/// The instruction written for an arithmetic or comparison operator computes
/// what the generator tracks for it: `>=` is written as GE, `<=` as LE, and
/// so on, for every pair of operand values.
pub proof fn lemma_mnemonic_computes_value(op: ASTNodeType, a: i64, b: i64)
    requires
        is_arith(op),
    ensures
        xsm_result(mnemonic(op), a, b) == fold_value(op, a, b),
{
    reveal_strlit("GT");
    reveal_strlit("LT");
    reveal_strlit("GE");
    reveal_strlit("LE");
    reveal_strlit("EQ");
    reveal_strlit("NE");
    reveal_strlit("ADD");
    reveal_strlit("SUB");
    reveal_strlit("MUL");
    reveal_strlit("DIV");
    reveal_strlit("MOD");
    match op {
        ASTNodeType::Gt => {
            reveal_strlit("GT");
        },
        ASTNodeType::Lt => {
            reveal_strlit("LT");
            assert("LT"@[0] != "GT"@[0]);
        },
        ASTNodeType::Gte => {
            reveal_strlit("GE");
            assert("GE"@[1] != "GT"@[1]);
            assert("GE"@[0] != "LT"@[0]);
        },
        ASTNodeType::Lte => {
            reveal_strlit("LE");
            assert("LE"@[0] != "GT"@[0]);
            assert("LE"@[1] != "LT"@[1]);
            assert("LE"@[0] != "GE"@[0]);
        },
        ASTNodeType::Ee => {
            reveal_strlit("EQ");
            assert("EQ"@[0] != "GT"@[0]);
            assert("EQ"@[0] != "LT"@[0]);
            assert("EQ"@[0] != "GE"@[0]);
            assert("EQ"@[0] != "LE"@[0]);
        },
        ASTNodeType::Ne => {
            reveal_strlit("NE");
            assert("NE"@[0] != "GT"@[0]);
            assert("NE"@[0] != "LT"@[0]);
            assert("NE"@[0] != "GE"@[0]);
            assert("NE"@[0] != "LE"@[0]);
            assert("NE"@[0] != "EQ"@[0]);
        },
        ASTNodeType::Plus => {
            reveal_strlit("ADD");
            assert("ADD"@.len() != "GT"@.len());
            assert("ADD"@.len() != "LT"@.len());
            assert("ADD"@.len() != "GE"@.len());
            assert("ADD"@.len() != "LE"@.len());
            assert("ADD"@.len() != "EQ"@.len());
            assert("ADD"@.len() != "NE"@.len());
        },
        ASTNodeType::Minus => {
            reveal_strlit("SUB");
            assert("SUB"@.len() != "GT"@.len());
            assert("SUB"@.len() != "LT"@.len());
            assert("SUB"@.len() != "GE"@.len());
            assert("SUB"@.len() != "LE"@.len());
            assert("SUB"@.len() != "EQ"@.len());
            assert("SUB"@.len() != "NE"@.len());
            assert("SUB"@[0] != "ADD"@[0]);
        },
        ASTNodeType::Star => {
            reveal_strlit("MUL");
            assert("MUL"@.len() != "GT"@.len());
            assert("MUL"@.len() != "LT"@.len());
            assert("MUL"@.len() != "GE"@.len());
            assert("MUL"@.len() != "LE"@.len());
            assert("MUL"@.len() != "EQ"@.len());
            assert("MUL"@.len() != "NE"@.len());
            assert("MUL"@[0] != "ADD"@[0]);
            assert("MUL"@[0] != "SUB"@[0]);
        },
        ASTNodeType::Slash => {
            reveal_strlit("DIV");
            assert("DIV"@.len() != "GT"@.len());
            assert("DIV"@.len() != "LT"@.len());
            assert("DIV"@.len() != "GE"@.len());
            assert("DIV"@.len() != "LE"@.len());
            assert("DIV"@.len() != "EQ"@.len());
            assert("DIV"@.len() != "NE"@.len());
            assert("DIV"@[0] != "ADD"@[0]);
            assert("DIV"@[0] != "SUB"@[0]);
            assert("DIV"@[0] != "MUL"@[0]);
        },
        _ => {
            reveal_strlit("MOD");
            assert("MOD"@.len() != "GT"@.len());
            assert("MOD"@.len() != "LT"@.len());
            assert("MOD"@.len() != "GE"@.len());
            assert("MOD"@.len() != "LE"@.len());
            assert("MOD"@.len() != "EQ"@.len());
            assert("MOD"@.len() != "NE"@.len());
            assert("MOD"@[0] != "ADD"@[0]);
            assert("MOD"@[0] != "SUB"@[0]);
            assert("MOD"@[1] != "MUL"@[1]);
            assert("MOD"@[0] != "DIV"@[0]);
        },
    }
}

} // verus!
