//! The type table and the operations on types that parsing and checking use.
use vstd::prelude::*;
use crate::list::{List, SymTable, DeepClone, assoc_lookup};
use crate::strs::{Out, matches_out, views, names_contain, owned, cat, to_chars, dec, dec_int, digit_char};
use crate::types::{
    ASTClassType, ASTExprType, ASTStructType, CSymbol, ClassSymbolTable, Field, FieldType,
    PrimitiveType,
    clone_ty, clone_class, clone_csym,
};

verus! {

// ---------------------------------------------------------------------------
// Pointer structure of field types and expression types.
// ---------------------------------------------------------------------------

impl FieldType {
    /// The type at the end of all pointer levels.
    pub open spec fn base_spec(self) -> FieldType
        decreases self,
    {
        match self {
            FieldType::Pointer(p) => p.base_spec(),
            _ => self,
        }
    }

    /// The number of pointer levels.
    pub open spec fn depth_spec(self) -> nat
        decreases self,
    {
        match self {
            FieldType::Pointer(p) => p.depth_spec() + 1,
            _ => 0,
        }
    }

    /// The type with its base replaced by `b`, keeping the pointer levels.
    pub open spec fn with_base(self, b: FieldType) -> FieldType
        decreases self,
    {
        match self {
            FieldType::Pointer(p) => FieldType::Pointer(Box::new(p.with_base(b))),
            _ => b,
        }
    }

    pub fn set_base_type(&mut self, p: FieldType)
        ensures
            *final(self) == old(self).with_base(p),
        decreases *old(self),
    {
        match self {
            FieldType::Pointer(b) => {
                b.set_base_type(p);
            },
            _ => {
                *self = p;
            },
        }
    }

    pub fn get_base_type(&self) -> (r: FieldType)
        ensures
            r == self.base_spec(),
        decreases self,
    {
        match self {
            FieldType::Pointer(p) => p.get_base_type(),
            _ => self.deep_clone(),
        }
    }

    pub fn depth(&self) -> (r: usize)
        requires
            self.depth_spec() <= usize::MAX,
        ensures
            r == self.depth_spec(),
        decreases self,
    {
        match self {
            FieldType::Pointer(p) => p.depth() + 1,
            _ => 0,
        }
    }
}

impl ASTExprType {
    /// The type at the end of all pointer levels; the error type has `void` as base.
    pub open spec fn base_spec(self) -> ASTExprType
        decreases self,
    {
        match self {
            ASTExprType::Pointer(p) => p.base_spec(),
            ASTExprType::Error => ASTExprType::Primitive(PrimitiveType::Void),
            _ => self,
        }
    }

    /// The number of pointer levels.
    pub open spec fn depth_spec(self) -> nat
        decreases self,
    {
        match self {
            ASTExprType::Pointer(p) => p.depth_spec() + 1,
            _ => 0,
        }
    }

    /// The type with its base replaced by `b`; the error type stays as it is.
    pub open spec fn with_base(self, b: ASTExprType) -> ASTExprType
        decreases self,
    {
        match self {
            ASTExprType::Pointer(p) => ASTExprType::Pointer(Box::new(p.with_base(b))),
            ASTExprType::Error => self,
            _ => b,
        }
    }

    /// A pointer to this type; the error type has none.
    pub open spec fn refr_spec(self) -> Option<ASTExprType> {
        match self {
            ASTExprType::Error => None,
            _ => Some(ASTExprType::Pointer(Box::new(self))),
        }
    }

    /// The type a pointer points to; other types have none.
    pub open spec fn derefr_spec(self) -> Option<ASTExprType> {
        match self {
            ASTExprType::Pointer(p) => Some(*p),
            _ => None,
        }
    }

    pub fn set_base_type(&mut self, p: ASTExprType)
        ensures
            *final(self) == old(self).with_base(p),
        decreases *old(self),
    {
        match self {
            ASTExprType::Pointer(b) => {
                b.set_base_type(p);
            },
            ASTExprType::Error => {},
            _ => {
                *self = p;
            },
        }
    }

    pub fn get_base_type(&self) -> (r: ASTExprType)
        ensures
            r == self.base_spec(),
        decreases self,
    {
        match self {
            ASTExprType::Pointer(p) => p.get_base_type(),
            ASTExprType::Error => ASTExprType::Primitive(PrimitiveType::Void),
            _ => clone_ty(self),
        }
    }

    pub fn depth(&self) -> (r: usize)
        requires
            self.depth_spec() <= usize::MAX,
        ensures
            r == self.depth_spec(),
        decreases self,
    {
        match self {
            ASTExprType::Pointer(p) => p.depth() + 1,
            _ => 0,
        }
    }

    pub fn refr(&self) -> (r: Option<ASTExprType>)
        ensures
            r == self.refr_spec(),
    {
        match self {
            ASTExprType::Error => None,
            _ => Some(ASTExprType::Pointer(Box::new(clone_ty(self)))),
        }
    }

    pub fn derefr(&self) -> (r: Option<ASTExprType>)
        ensures
            r == self.derefr_spec(),
    {
        match self {
            ASTExprType::Pointer(p) => Some(clone_ty(&**p)),
            _ => None,
        }
    }

    /// The index of a class's virtual function table.
    pub fn get_vftid(&self) -> (r: Option<usize>)
        ensures
            r == match self {
                ASTExprType::Class(c) => Some(c.vft_id),
                _ => None::<usize>,
            },
    {
        match self {
            ASTExprType::Class(c) => Some(c.vft_id),
            _ => None,
        }
    }

    pub fn is_class(&self) -> (r: bool)
        ensures
            r == (*self is Class),
    {
        match self {
            ASTExprType::Class(_) => true,
            _ => false,
        }
    }

    /// The name of a struct or class type.
    pub fn get_type_name(&self) -> (r: Result<String, String>)
        requires
            *self is Struct || *self is Class,
        ensures
            r matches Ok(n) && n == match *self {
                ASTExprType::Struct(s) => s.name,
                ASTExprType::Class(c) => c.name,
                _ => n,
            },
    {
        match self {
            ASTExprType::Struct(s) => Ok(s.name.clone()),
            ASTExprType::Class(c) => Ok(c.name.clone()),
            _ => Ok(String::new()),
        }
    }

    /// Number of memory words a value of this type occupies: one for a
    /// primitive or a pointer, two for a pointer to a class (object and
    /// table address), the field count of a struct, and the member count of a class.
    pub open spec fn size_spec(self) -> int {
        match self {
            ASTExprType::Primitive(_) => 1,
            ASTExprType::Pointer(p) => if *p is Class {
                2
            } else {
                1
            },
            ASTExprType::Struct(s) => s.size as int,
            ASTExprType::Class(c) => c.methodsize + c.fieldsize,
            ASTExprType::Error => 0,
        }
    }

    pub fn size(&self) -> (r: Result<usize, String>)
        requires
            !(*self is Error),
            0 <= self.size_spec() <= usize::MAX,
        ensures
            r matches Ok(n) && n == self.size_spec(),
    {
        match self {
            ASTExprType::Primitive(_) => Ok(1),
            ASTExprType::Pointer(p) => match &**p {
                ASTExprType::Class(_) => Ok(2),
                _ => Ok(1),
            },
            ASTExprType::Struct(s) => Ok(s.size),
            ASTExprType::Class(c) => {
                let n: i128 = c.methodsize as i128 + c.fieldsize as i128;
                Ok(n as usize)
            },
            ASTExprType::Error => Ok(0),
        }
    }
}

} // verus!

verus! {

// ---------------------------------------------------------------------------
// Messages.
// ---------------------------------------------------------------------------

pub open spec fn msg_type_invalid(n: Seq<char>) -> Seq<char> {
    "Type ["@ + n + "] is not declared/valid."@
}

pub open spec fn msg_type_undeclared(n: Seq<char>) -> Seq<char> {
    "Type ["@ + n + "] is not declared."@
}

pub open spec fn msg_type_incomplete(n: Seq<char>) -> Seq<char> {
    "Type ["@ + n + "] is incomplete."@
}

pub open spec fn msg_type_redeclared(n: Seq<char>) -> Seq<char> {
    "Type ["@ + n + "] is already declared."@
}

pub open spec fn msg_field_repeated(t: Seq<char>, f: Seq<char>) -> Seq<char> {
    "In Type ["@ + t + "], field ["@ + f + "] is declared more than once."@
}

/// `pre` + `n` + `post` as a new string.
pub fn wrap_name(pre: &str, n: &String, post: &str) -> (r: String)
    ensures
        r@ == pre@ + n@ + post@,
{
    cat(cat(owned(pre), n.as_str()), post)
}

// ---------------------------------------------------------------------------
// The type table.
// ---------------------------------------------------------------------------

/// User-defined and built-in types by name.
#[derive(Debug)]
pub struct TypeTable {
    pub table: SymTable<ASTExprType>,
}

impl TypeTable {
    pub open spec fn lookup(&self, n: Seq<char>) -> Option<ASTExprType> {
        self.table.lookup(n)
    }

    pub open spec fn has(&self, n: Seq<char>) -> bool {
        self.lookup(n) is Some
    }

    /// The type named `n`, or the error that an unknown name gives.
    pub open spec fn get_spec(&self, n: Seq<char>) -> Out<ASTExprType> {
        match self.lookup(n) {
            Some(t) => Out::Value(t),
            None => Out::Fail(msg_type_invalid(n)),
        }
    }

    pub fn tt_get_type(&self, tname: &String) -> (r: Result<ASTExprType, String>)
        ensures
            matches_out(r, self.get_spec(tname@)),
    {
        match self.table.get(tname) {
            Some(t) => Ok(clone_ty(t)),
            None => Err(wrap_name("Type [", tname, "] is not declared/valid.")),
        }
    }

    pub fn tt_exists(&self, tname: &String) -> (r: bool)
        ensures
            r == self.has(tname@),
    {
        self.table.contains_key(tname)
    }

    /// The first entry in declaration order, if any.
    pub fn next(&mut self) -> (r: Option<(String, ASTExprType)>)
        ensures
            *final(self) == *old(self),
            r == match old(self).table.entries {
                List::Nil => None,
                List::Cons(e, _) => Some(*e),
            },
    {
        match &self.table.entries {
            List::Nil => None,
            List::Cons(e, _) => Some((e.0.clone(), clone_ty(&e.1))),
        }
    }

    /// Whether the declared type of a class field can be used: a pointer's
    /// base must be primitive or a declared struct, a struct must be declared,
    /// and a class must be declared and other than the class `this` itself.
    pub open spec fn field_type_check(&self, this: Seq<char>, t: FieldType) -> Out<()> {
        match t {
            FieldType::Primitive(_) => Out::Value(()),
            FieldType::Pointer(p) => match p.base_spec() {
                FieldType::Primitive(_) => Out::Value(()),
                FieldType::Struct(s) => if self.has(s@) {
                    Out::Value(())
                } else {
                    Out::Fail(msg_type_undeclared(s@))
                },
                _ => Out::Fail("Some error"@),
            },
            FieldType::Struct(s) => if self.has(s@) {
                Out::Value(())
            } else {
                Out::Fail(msg_type_undeclared(s@))
            },
            FieldType::Class(s) => if s@ == this {
                Out::Fail(msg_type_incomplete(s@))
            } else if self.has(s@) {
                Out::Value(())
            } else {
                Out::Fail(msg_type_undeclared(s@))
            },
        }
    }

    pub fn validate_field_type(&self, this: &String, t: &FieldType) -> (r: Result<(), String>)
        ensures
            matches_out(r, self.field_type_check(this@, *t)),
    {
        match t {
            FieldType::Primitive(_) => Ok(()),
            FieldType::Pointer(p) => {
                let base = p.get_base_type();
                match base {
                    FieldType::Primitive(_) => Ok(()),
                    FieldType::Struct(s) => {
                        if !self.table.contains_key(&s) {
                            return Err(wrap_name("Type [", &s, "] is not declared."));
                        }
                        Ok(())
                    },
                    _ => Err(owned("Some error")),
                }
            },
            FieldType::Struct(s) => {
                if !self.table.contains_key(s) {
                    return Err(wrap_name("Type [", s, "] is not declared."));
                }
                Ok(())
            },
            FieldType::Class(s) => {
                if *s == *this {
                    Err(wrap_name("Type [", s, "] is incomplete."))
                } else {
                    if !self.table.contains_key(s) {
                        return Err(wrap_name("Type [", s, "] is not declared."));
                    }
                    Ok(())
                }
            },
        }
    }
}

impl Default for TypeTable {
    /// The table of built-in types: `int` and `str`.
    fn default() -> (r: TypeTable)
        ensures
            r.table.wf(),
            forall|q: Seq<char>|
                #[trigger] r.lookup(q) == if q == "int"@ {
                    Some(ASTExprType::Primitive(PrimitiveType::Int))
                } else if q == "str"@ {
                    Some(ASTExprType::Primitive(PrimitiveType::String))
                } else {
                    None
                },
    {
        let mut table = SymTable::new();
        table.insert(owned("int"), ASTExprType::Primitive(PrimitiveType::Int));
        table.insert(owned("str"), ASTExprType::Primitive(PrimitiveType::String));
        proof {
            reveal_strlit("int");
            reveal_strlit("str");
            assert("int"@[0] != "str"@[0]);
        }
        let r = TypeTable { table };
        assert forall|q: Seq<char>|
            #[trigger] r.lookup(q) == if q == "int"@ {
                Some(ASTExprType::Primitive(PrimitiveType::Int))
            } else if q == "str"@ {
                Some(ASTExprType::Primitive(PrimitiveType::String))
            } else {
                None
            } by {
            assert(r.table.lookup(q) == r.lookup(q));
        }
        r
    }
}

// ---------------------------------------------------------------------------
// Resolving field types and looking up members.
// ---------------------------------------------------------------------------

impl FieldType {
    /// The expression type that a declared field type denotes.
    pub open spec fn resolve(self, tt: TypeTable) -> Out<ASTExprType>
        decreases self,
    {
        match self {
            FieldType::Primitive(p) => Out::Value(ASTExprType::Primitive(p)),
            FieldType::Pointer(p) => match p.resolve(tt) {
                Out::Value(t) => Out::Value(ASTExprType::Pointer(Box::new(t))),
                Out::Fail(e) => Out::Fail(e),
                Out::Crash => Out::Crash,
            },
            FieldType::Struct(n) => tt.get_spec(n@),
            FieldType::Class(n) => tt.get_spec(n@),
        }
    }

    pub fn as_astexprtype(&self, tt: &TypeTable) -> (r: Result<ASTExprType, String>)
        ensures
            matches_out(r, self.resolve(*tt)),
        decreases self,
    {
        match self {
            FieldType::Primitive(p) => Ok(ASTExprType::Primitive(*p)),
            FieldType::Pointer(p) => {
                let inner = p.as_astexprtype(tt)?;
                Ok(ASTExprType::Pointer(Box::new(inner)))
            },
            FieldType::Struct(n) => tt.tt_get_type(n),
            FieldType::Class(n) => tt.tt_get_type(n),
        }
    }
}

/// The first field named `n`.
pub open spec fn find_field(fields: List<Field>, n: Seq<char>) -> Option<Field>
    decreases fields,
{
    match fields {
        List::Nil => None,
        List::Cons(f, rest) => if f.name@ == n {
            Some(*f)
        } else {
            find_field(*rest, n)
        },
    }
}

/// The position of the first field named `n`.
pub open spec fn field_position(fields: List<Field>, n: Seq<char>) -> Option<nat>
    decreases fields,
{
    match fields {
        List::Nil => None,
        List::Cons(f, rest) => if f.name@ == n {
            Some(0)
        } else {
            match field_position(*rest, n) {
                Some(i) => Some(i + 1),
                None => None,
            }
        },
    }
}

proof fn lemma_field_position_bound(fields: List<Field>, n: Seq<char>)
    ensures
        field_position(fields, n) matches Some(i) ==> i < fields.len(),
    decreases fields,
{
    match fields {
        List::Nil => {},
        List::Cons(_, rest) => lemma_field_position_bound(*rest, n),
    }
}

fn get_field<'a>(fields: &'a List<Field>, n: &String) -> (r: Option<&'a Field>)
    ensures
        match r {
            Some(f) => find_field(*fields, n@) == Some(*f),
            None => find_field(*fields, n@) is None,
        },
    decreases fields,
{
    match fields {
        List::Nil => None,
        List::Cons(f, rest) => {
            if f.name == *n {
                Some(&**f)
            } else {
                get_field(&**rest, n)
            }
        },
    }
}

fn get_field_position(fields: &List<Field>, n: &String) -> (r: Option<usize>)
    requires
        fields.len() <= usize::MAX,
    ensures
        match r {
            Some(i) => field_position(*fields, n@) == Some(i as nat),
            None => field_position(*fields, n@) is None,
        },
    decreases fields,
{
    match fields {
        List::Nil => None,
        List::Cons(f, rest) => {
            if f.name == *n {
                Some(0)
            } else {
                proof {
                    lemma_field_position_bound(**rest, n@);
                }
                match get_field_position(&**rest, n) {
                    Some(i) => Some(i + 1),
                    None => None,
                }
            }
        },
    }
}

impl ASTExprType {
    /// The type of the member `fname` of a struct or class.
    pub open spec fn field_type_spec(self, fname: Seq<char>, tt: TypeTable) -> Out<ASTExprType> {
        match self {
            ASTExprType::Struct(s) => match find_field(s.fields, fname) {
                Some(f) => f.field_type.resolve(tt),
                None => Out::Fail(
                    "Field ["@ + fname + "] not declared inside type ["@ + s.name@ + "]"@,
                ),
            },
            ASTExprType::Class(c) => match c.symbol_table.table.lookup(fname) {
                Some(CSymbol::Var { vartype, .. }) => vartype.resolve(tt),
                Some(CSymbol::Func { ret_type, .. }) => Out::Value(ret_type),
                None => Out::Fail(
                    "Field ["@ + fname + "] not present in ["@ + c.name@ + "] class"@,
                ),
            },
            _ => Out::Fail("Expression of this type cannot be accessed."@),
        }
    }

    pub fn get_field_type(&self, fname: &String, tt: &TypeTable) -> (r: Result<ASTExprType, String>)
        ensures
            matches_out(r, self.field_type_spec(fname@, *tt)),
    {
        match self {
            ASTExprType::Struct(s) => {
                match get_field(&s.fields, fname) {
                    Some(f) => f.field_type.as_astexprtype(tt),
                    None => Err(cat(
                        cat(wrap_name("Field [", fname, "] not declared inside type ["), s.name.as_str()),
                        "]",
                    )),
                }
            },
            ASTExprType::Class(c) => {
                match c.symbol_table.table.get(fname) {
                    Some(CSymbol::Var { vartype, .. }) => vartype.as_astexprtype(tt),
                    Some(CSymbol::Func { ret_type, .. }) => Ok(clone_ty(ret_type)),
                    None => Err(cat(
                        cat(wrap_name("Field [", fname, "] not present in ["), c.name.as_str()),
                        "] class",
                    )),
                }
            },
            _ => Err(owned("Expression of this type cannot be accessed.")),
        }
    }

    /// The offset of the member `fname`: a struct field's position, a class
    /// field's id or a method's slot.
    pub open spec fn field_id_spec(self, fname: Seq<char>) -> Out<usize> {
        match self {
            ASTExprType::Struct(s) => if s.fields.len() > usize::MAX {
                Out::Crash
            } else {
                match field_position(s.fields, fname) {
                Some(i) => Out::Value(i as usize),
                None => Out::Fail(
                    "Field ["@ + fname + "] not declared inside type ["@ + fname + "]"@,
                ),
                }
            },
            ASTExprType::Class(c) => match c.symbol_table.table.lookup(fname) {
                Some(CSymbol::Var { varid, .. }) => if 0 <= varid <= usize::MAX {
                    Out::Value(varid as usize)
                } else {
                    Out::Crash
                },
                Some(CSymbol::Func { fid, .. }) => if 0 <= fid <= usize::MAX {
                    Out::Value(fid as usize)
                } else {
                    Out::Crash
                },
                None => Out::Fail("Symbol ["@ + fname + "] not declared."@),
            },
            _ => Out::Fail("Expression of this type cannot be accessed."@),
        }
    }

    pub fn get_field_id(&self, fname: &String) -> (r: Result<usize, String>)
        requires
            self.field_id_spec(fname@).defined(),
        ensures
            matches_out(r, self.field_id_spec(fname@)),
    {
        match self {
            ASTExprType::Struct(s) => {
                match get_field_position(&s.fields, fname) {
                    Some(i) => Ok(i),
                    None => Err(cat(
                        cat(wrap_name("Field [", fname, "] not declared inside type ["), fname.as_str()),
                        "]",
                    )),
                }
            },
            ASTExprType::Class(c) => {
                match c.symbol_table.table.get(fname) {
                    Some(CSymbol::Var { varid, .. }) => Ok(*varid as usize),
                    Some(CSymbol::Func { fid, .. }) => Ok(*fid as usize),
                    None => Err(wrap_name("Symbol [", fname, "] not declared.")),
                }
            },
            _ => Err(owned("Expression of this type cannot be accessed.")),
        }
    }
}

} // verus!

verus! {

/// `t` reaches the class named `target` by following parent links through
/// the type table in at most `fuel` steps.
pub open spec fn reaches(tt: TypeTable, t: ASTExprType, target: Seq<char>, fuel: nat) -> bool
    decreases fuel,
{
    match t {
        ASTExprType::Class(c) => c.name@ == target || (fuel > 0 && c.parent is Some
            && tt.lookup(c.parent->0@) is Some && reaches(
            tt,
            tt.lookup(c.parent->0@)->0,
            target,
            (fuel - 1) as nat,
        )),
        _ => false,
    }
}

impl ASTExprType {
    /// Whether the class `parent` is this class or one of its ancestors. The
    /// walk up the parent links is defined only while each parent is a
    /// declared class; it stops with `true` at the class named `parent`.
    pub fn is_ancestor(&self, parent: Option<String>, tt: &TypeTable) -> (r: bool)
        requires
            parent is Some ==> exists|fuel: nat| reaches(*tt, *self, parent->0@, fuel),
        ensures
            r == (parent is Some),
    {
        match parent {
            None => false,
            Some(target) => {
                let ghost mut fuel: nat = choose|fuel: nat| reaches(*tt, *self, target@, fuel);
                let mut cur: &ASTExprType = self;
                loop
                    invariant
                        reaches(*tt, *cur, target@, fuel),
                        parent is Some,
                    decreases fuel,
                {
                    match cur {
                        ASTExprType::Class(c) => {
                            if c.name == target {
                                return true;
                            }
                            match &c.parent {
                                Some(p) => {
                                    match tt.table.get(p) {
                                        Some(pt) => {
                                            proof {
                                                fuel = (fuel - 1) as nat;
                                            }
                                            cur = pt;
                                        },
                                        None => {
                                            return true;
                                        },
                                    }
                                },
                                None => {
                                    return true;
                                },
                            }
                        },
                        _ => {
                            return true;
                        },
                    }
                }
            },
        }
    }
}

/// The first error in the declared type of a struct field, if any.
pub open spec fn struct_field_type_error(tt: TypeTable, tname: Seq<char>, t: FieldType) -> Option<
    Seq<char>,
> {
    match t {
        FieldType::Primitive(_) => None,
        FieldType::Pointer(p) => match p.base_spec() {
            FieldType::Primitive(_) => None,
            FieldType::Struct(s) => if tt.has(s@) {
                None
            } else {
                Some(msg_type_undeclared(s@))
            },
            _ => Some("Some error"@),
        },
        FieldType::Struct(s) => if s@ == tname {
            Some(msg_type_incomplete(s@))
        } else if tt.has(s@) {
            None
        } else {
            Some(msg_type_undeclared(s@))
        },
        FieldType::Class(_) => Some("Classes are not allowed inside structs."@),
    }
}

/// The first error among struct fields, checked in order, where `seen` holds
/// the names of the fields before them.
pub open spec fn struct_fields_error(
    tt: TypeTable,
    tname: Seq<char>,
    fields: List<Field>,
    seen: Seq<Seq<char>>,
) -> Option<Seq<char>>
    decreases fields,
{
    match fields {
        List::Nil => None,
        List::Cons(f, rest) => match struct_field_type_error(tt, tname, f.field_type) {
            Some(e) => Some(e),
            None => if seen.contains(f.name@) {
                Some(msg_field_repeated(tname, f.name@))
            } else {
                struct_fields_error(tt, tname, *rest, seen.push(f.name@))
            },
        },
    }
}

impl TypeTable {
    /// The table after binding `n` to `t`.
    pub open spec fn with(self, n: String, t: ASTExprType) -> TypeTable {
        TypeTable { table: SymTable { entries: crate::list::assoc_insert(self.table.entries, n, t) } }
    }

    /// Declaring a struct: what it gives and the table after. The name is
    /// bound to the error type while the fields are checked, so a field may
    /// point to the struct itself; it stays so bound when a field is refused.
    pub open spec fn install_struct_spec(self, tname: String, fields: List<Field>) -> (
        Out<()>,
        TypeTable,
    ) {
        if self.has(tname@) {
            (Out::Fail(msg_type_redeclared(tname@)), self)
        } else if fields.len() > 8 {
            (Out::Fail("Type ["@ + tname@ + "] has more than 8 fields."@), self)
        } else {
            let pending = self.with(tname, ASTExprType::Error);
            match struct_fields_error(pending, tname@, fields, Seq::empty()) {
                Some(e) => (Out::Fail(e), pending),
                None => (
                    Out::Value(()),
                    self.with(
                        tname,
                        ASTExprType::Struct(
                            ASTStructType { name: tname, size: fields.len() as usize, fields },
                        ),
                    ),
                ),
            }
        }
    }

    fn check_struct_fields(&self, tname: &String, fields: &List<Field>, seen: &mut Vec<String>) -> (r:
        Option<String>)
        ensures
            match r {
                Some(e) => struct_fields_error(*self, tname@, *fields, views(old(seen)@)) == Some(
                    e@,
                ),
                None => struct_fields_error(*self, tname@, *fields, views(old(seen)@)) is None,
            },
        decreases fields,
    {
        match fields {
            List::Nil => None,
            List::Cons(f, rest) => {
                match &f.field_type {
                    FieldType::Primitive(_) => {},
                    FieldType::Pointer(p) => {
                        let base = p.get_base_type();
                        match base {
                            FieldType::Primitive(_) => {},
                            FieldType::Struct(s) => {
                                if !self.table.contains_key(&s) {
                                    return Some(wrap_name("Type [", &s, "] is not declared."));
                                }
                            },
                            _ => {
                                return Some(owned("Some error"));
                            },
                        }
                    },
                    FieldType::Struct(s) => {
                        if *s == *tname {
                            return Some(wrap_name("Type [", s, "] is incomplete."));
                        } else if !self.table.contains_key(s) {
                            return Some(wrap_name("Type [", s, "] is not declared."));
                        }
                    },
                    FieldType::Class(_) => {
                        return Some(owned("Classes are not allowed inside structs."));
                    },
                }
                if names_contain(seen, &f.name) {
                    return Some(
                        cat(
                            cat(wrap_name("In Type [", tname, "], field ["), f.name.as_str()),
                            "] is declared more than once.",
                        ),
                    );
                }
                let ghost before = views(seen@);
                seen.push(f.name.clone());
                assert(views(seen@) =~= before.push(f.name@));
                self.check_struct_fields(tname, &**rest, seen)
            },
        }
    }

    /// Declares the struct `tname` with the given fields.
    pub fn tinstall_struct(&mut self, tname: String, tfields: List<Field>) -> (r: Result<(), String>)
        ensures
            matches_out(r, old(self).install_struct_spec(tname, tfields).0),
            *final(self) == old(self).install_struct_spec(tname, tfields).1,
    {
        if self.table.contains_key(&tname) {
            return Err(wrap_name("Type [", &tname, "] is already declared."));
        }
        if tfields.longer_than(8) {
            return Err(wrap_name("Type [", &tname, "] has more than 8 fields."));
        }
        self.table.insert(tname.clone(), ASTExprType::Error);
        let mut seen: Vec<String> = Vec::new();
        assert(views(seen@) =~= Seq::<Seq<char>>::empty());
        match self.check_struct_fields(&tname, &tfields, &mut seen) {
            Some(e) => {
                return Err(e);
            },
            None => {},
        }
        let size = tfields.length();
        proof {
            crate::list::lemma_assoc_insert_twice(old(self).table.entries, tname, ASTExprType::Error,
                ASTExprType::Struct(ASTStructType { name: tname, size, fields: tfields }));
        }
        self.table.insert(tname.clone(), ASTExprType::Struct(ASTStructType { name: tname, size, fields: tfields }));
        Ok(())
    }
}

} // verus!

verus! {

pub open spec fn msg_class_too_large(n: Seq<char>) -> Seq<char> {
    "Type ["@ + n + "] has more than 8 ."@
}

/// Numbering the fields of a class from `id` on, adding each to `ctable`:
/// the next free id, the numbered fields and the table after. A field whose
/// type cannot be used, or whose name is taken, stops the numbering.
pub open spec fn class_fields_pass(
    tt: TypeTable,
    tname: Seq<char>,
    fields: List<CSymbol>,
    ctable: SymTable<CSymbol>,
    id: i64,
) -> (Out<i64>, List<CSymbol>, SymTable<CSymbol>)
    decreases fields,
{
    match fields {
        List::Nil => (Out::Value(id), fields, ctable),
        List::Cons(s, rest) => match *s {
            CSymbol::Var { name, vartype, varid, varindices } => if tt.field_type_check(
                tname,
                vartype,
            ) is Fail {
                (Out::Fail(tt.field_type_check(tname, vartype)->Fail_0), fields, ctable)
            } else if ctable.lookup(name@) is Some {
                (Out::Fail(msg_field_repeated(tname, name@)), fields, ctable)
            } else if id == i64::MAX {
                (Out::Crash, fields, ctable)
            } else {
                let s2 = CSymbol::Var { name, vartype, varid: id, varindices };
                let (o, rest2, ct2) = class_fields_pass(
                    tt,
                    tname,
                    *rest,
                    ctable.with(name, s2),
                    (id + 1) as i64,
                );
                (o, List::Cons(Box::new(s2), Box::new(rest2)), ct2)
            },
            CSymbol::Func { .. } => (Out::Crash, fields, ctable),
        },
    }
}

/// Declaring the fields of the class `tname`, a subclass of `pname` when
/// that is not empty: what it gives, the table after, the next free table
/// index and the fields with their ids. The class inherits the members and
/// the method count of its parent and is given the table index `vft`.
pub open spec fn install_class_fields_spec(
    tt: TypeTable,
    tname: String,
    pname: String,
    vft: usize,
    fields: List<CSymbol>,
) -> (Out<()>, TypeTable, List<CSymbol>) {
    if tt.has(tname@) {
        (Out::Fail(msg_type_redeclared(tname@)), tt, fields)
    } else if fields.len() > 8 {
        (Out::Fail(msg_class_too_large(tname@)), tt, fields)
    } else if pname@.len() != 0 && !tt.has(pname@) {
        (Out::Crash, tt, fields)
    } else if pname@.len() != 0 && !(tt.lookup(pname@)->0 is Class) {
        (Out::Fail(msg_class_too_large(tname@)), tt, fields)
    } else {
        let (ctable, methods) = if pname@.len() == 0 {
            (SymTable { entries: List::Nil }, 0i64)
        } else {
            let c = tt.lookup(pname@)->0->Class_0;
            (c.symbol_table.table, c.methodsize)
        };
        let (o, fields2, ct2) = class_fields_pass(tt, tname@, fields, ctable, 0);
        match o {
            Out::Value(n) => (
                Out::Value(()),
                tt.with(
                    tname,
                    ASTExprType::Class(
                        ASTClassType {
                            name: tname,
                            fieldsize: n,
                            methodsize: methods,
                            symbol_table: ClassSymbolTable { table: ct2 },
                            parent: if pname@.len() == 0 {
                                None
                            } else {
                                Some(pname)
                            },
                            vft_id: vft,
                        },
                    ),
                ),
                fields2,
            ),
            Out::Fail(e) => (Out::Fail(e), tt, fields2),
            Out::Crash => (Out::Crash, tt, fields2),
        }
    }
}

/// Numbering the methods of the class `tname` from slot `fid` and code label
/// `label` on, adding each to `table`: the next free slot, the numbered
/// methods, the table after and the next free label. A method whose name is
/// a field stops the numbering; a method of the same name is overridden.
pub open spec fn class_methods_pass(
    tname: Seq<char>,
    methods: List<CSymbol>,
    table: SymTable<CSymbol>,
    label: usize,
    fid: i64,
) -> (Out<i64>, List<CSymbol>, SymTable<CSymbol>, usize)
    decreases methods,
{
    match methods {
        List::Nil => (Out::Value(fid), methods, table, label),
        List::Cons(s, rest) => match *s {
            CSymbol::Func { name, ret_type, paramlist, flabel, fid: _ } => if table.lookup(
                name@,
            ) matches Some(CSymbol::Var { .. }) {
                (
                    Out::Fail(
                        "In class ["@ + tname + "], Method ["@ + name@
                            + "] is already declared as field"@,
                    ),
                    methods,
                    table,
                    label,
                )
            } else if label == usize::MAX || fid == i64::MAX {
                (Out::Crash, methods, table, label)
            } else {
                let s2 = CSymbol::Func { name, ret_type, paramlist, flabel: label, fid };
                let (o, rest2, t2, l2) = class_methods_pass(
                    tname,
                    *rest,
                    table.with(name, s2),
                    (label + 1) as usize,
                    (fid + 1) as i64,
                );
                (o, List::Cons(Box::new(s2), Box::new(rest2)), t2, l2)
            },
            CSymbol::Var { .. } => (Out::Crash, methods, table, label),
        },
    }
}

/// Declaring the methods of the class `tname`: what it gives, the table
/// after, the next free code label and the methods with their labels and slots.
pub open spec fn install_class_methods_spec(
    tt: TypeTable,
    tname: String,
    label: usize,
    methods: List<CSymbol>,
) -> (Out<()>, TypeTable, usize, List<CSymbol>) {
    match tt.get_spec(tname@) {
        Out::Value(ASTExprType::Class(c)) => {
            let (o, m2, t2, l2) = class_methods_pass(
                tname@,
                methods,
                c.symbol_table.table,
                label,
                c.methodsize,
            );
            match o {
                Out::Value(end) => if end - c.fieldsize < i64::MIN || end - c.fieldsize > i64::MAX {
                    (Out::Crash, tt, l2, m2)
                } else {
                    (
                        Out::Value(()),
                        tt.with(
                            tname,
                            ASTExprType::Class(
                                ASTClassType {
                                    name: tname,
                                    fieldsize: c.fieldsize,
                                    methodsize: (end - c.fieldsize) as i64,
                                    symbol_table: ClassSymbolTable { table: t2 },
                                    parent: c.parent,
                                    vft_id: c.vft_id,
                                },
                            ),
                        ),
                        l2,
                        m2,
                    )
                },
                Out::Fail(e) => (Out::Fail(e), tt, l2, m2),
                Out::Crash => (Out::Crash, tt, l2, m2),
            }
        },
        Out::Value(_) => (Out::Fail("not a class?."@), tt, label, methods),
        Out::Fail(e) => (Out::Fail(e), tt, label, methods),
        Out::Crash => (Out::Crash, tt, label, methods),
    }
}

impl TypeTable {
    fn class_fields_pass_exec(
        &self,
        tname: &String,
        fields: List<CSymbol>,
        ctable: &mut SymTable<CSymbol>,
        id: i64,
    ) -> (r: (Result<i64, String>, List<CSymbol>))
        requires
            class_fields_pass(*self, tname@, fields, *old(ctable), id).0.defined(),
        ensures
            matches_out(r.0, class_fields_pass(*self, tname@, fields, *old(ctable), id).0),
            r.1 == class_fields_pass(*self, tname@, fields, *old(ctable), id).1,
            *final(ctable) == class_fields_pass(*self, tname@, fields, *old(ctable), id).2,
        decreases fields,
    {
        match fields {
            List::Nil => (Ok(id), List::Nil),
            List::Cons(s, rest) => {
                match *s {
                    CSymbol::Var { name, vartype, varid, varindices } => {
                        match self.validate_field_type(tname, &vartype) {
                            Err(e) => {
                                return (
                                    Err(e),
                                    List::Cons(
                                        Box::new(CSymbol::Var { name, vartype, varid, varindices }),
                                        rest,
                                    ),
                                );
                            },
                            Ok(()) => {},
                        }
                        if ctable.contains_key(&name) {
                            let e = cat(
                                cat(wrap_name("In Type [", tname, "], field ["), name.as_str()),
                                "] is declared more than once.",
                            );
                            return (
                                Err(e),
                                List::Cons(
                                    Box::new(CSymbol::Var { name, vartype, varid, varindices }),
                                    rest,
                                ),
                            );
                        }
                        let s2 = CSymbol::Var { name, vartype, varid: id, varindices };
                        let key = match &s2 {
                            CSymbol::Var { name, .. } => name.clone(),
                            CSymbol::Func { name, .. } => name.clone(),
                        };
                        ctable.insert(key, clone_csym(&s2));
                        let (o, rest2) = self.class_fields_pass_exec(tname, *rest, ctable, id + 1);
                        (o, List::Cons(Box::new(s2), Box::new(rest2)))
                    },
                    CSymbol::Func { .. } => (Ok(id), List::Nil),
                }
            },
        }
    }

    /// Declares the fields of the class `tname` (a subclass of `pname`, or of
    /// no class when `pname` is empty), numbering them; `vft_id` is the next
    /// free virtual function table index, which this declaration takes, also
    /// when it is refused. A refused declaration leaves the table as it was,
    /// with the fields before the offending one numbered from 0.
    pub fn tinstall_class_fields(
        &mut self,
        tname: &String,
        pname: &String,
        vft_id: &mut usize,
        tfields: &mut List<CSymbol>,
    ) -> (r: Result<(), String>)
        requires
            *old(vft_id) < usize::MAX,
            install_class_fields_spec(*old(self), *tname, *pname, *old(vft_id), *old(tfields)).0.defined(),
        ensures
            *final(vft_id) == *old(vft_id) + 1,
            matches_out(
                r,
                install_class_fields_spec(*old(self), *tname, *pname, *old(vft_id), *old(tfields)).0,
            ),
            *final(self) == install_class_fields_spec(
                *old(self),
                *tname,
                *pname,
                *old(vft_id),
                *old(tfields),
            ).1,
            *final(tfields) == install_class_fields_spec(
                *old(self),
                *tname,
                *pname,
                *old(vft_id),
                *old(tfields),
            ).2,
            r is Err ==> *final(self) == *old(self),
            r is Err ==> final(tfields).len() == old(tfields).len() && exists|p: int|
                #[trigger] numbered_prefix(*final(tfields), *old(tfields), 0, p),
    {
        proof {
            if install_class_fields_spec(*old(self), *tname, *pname, *old(vft_id), *old(tfields)).0 is Fail {
                lemma_class_fields_refused(*old(self), *tname, *pname, *old(vft_id), *old(tfields));
            }
        }
        let v_ = *vft_id;
        *vft_id = *vft_id + 1;
        if self.table.contains_key(tname) {
            return Err(wrap_name("Type [", tname, "] is already declared."));
        }
        if tfields.longer_than(8) {
            return Err(wrap_name("Type [", tname, "] has more than 8 ."));
        }
        let mut methods: i64 = 0;
        let mut ctable: SymTable<CSymbol>;
        let no_parent = pname.as_str().is_empty();
        if no_parent {
            ctable = SymTable::new();
        } else {
            match self.table.get(pname) {
                Some(ASTExprType::Class(c)) => {
                    methods = c.methodsize;
                    ctable = SymTable { entries: clone_class(c).symbol_table.table.entries };
                },
                _ => {
                    return Err(wrap_name("Type [", tname, "] has more than 8 ."));
                },
            }
        }
        let mut fields = List::Nil;
        std::mem::swap(&mut fields, tfields);
        let (o, fields2) = self.class_fields_pass_exec(tname, fields, &mut ctable, 0);
        *tfields = fields2;
        let fieldid = o?;
        let parent = if no_parent {
            None
        } else {
            Some(pname.clone())
        };
        self.table.insert(
            tname.clone(),
            ASTExprType::Class(
                ASTClassType {
                    name: tname.clone(),
                    fieldsize: fieldid,
                    methodsize: methods,
                    symbol_table: ClassSymbolTable { table: ctable },
                    parent,
                    vft_id: v_,
                },
            ),
        );
        Ok(())
    }

    fn class_methods_pass_exec(
        tname: &String,
        methods: List<CSymbol>,
        table: &mut SymTable<CSymbol>,
        label: &mut usize,
        fid: i64,
    ) -> (r: (Result<i64, String>, List<CSymbol>))
        requires
            class_methods_pass(tname@, methods, *old(table), *old(label), fid).0.defined(),
        ensures
            matches_out(r.0, class_methods_pass(tname@, methods, *old(table), *old(label), fid).0),
            r.1 == class_methods_pass(tname@, methods, *old(table), *old(label), fid).1,
            *final(table) == class_methods_pass(tname@, methods, *old(table), *old(label), fid).2,
            *final(label) == class_methods_pass(tname@, methods, *old(table), *old(label), fid).3,
        decreases methods,
    {
        match methods {
            List::Nil => (Ok(fid), List::Nil),
            List::Cons(s, rest) => {
                match *s {
                    CSymbol::Func { name, ret_type, paramlist, flabel, fid: f0 } => {
                        match table.get(&name) {
                            Some(CSymbol::Var { .. }) => {
                                let e = cat(
                                    cat(wrap_name("In class [", tname, "], Method ["), name.as_str()),
                                    "] is already declared as field",
                                );
                                return (
                                    Err(e),
                                    List::Cons(
                                        Box::new(
                                            CSymbol::Func { name, ret_type, paramlist, flabel, fid: f0 },
                                        ),
                                        rest,
                                    ),
                                );
                            },
                            _ => {},
                        }
                        let s2 = CSymbol::Func { name, ret_type, paramlist, flabel: *label, fid };
                        *label = *label + 1;
                        let key = match &s2 {
                            CSymbol::Var { name, .. } => name.clone(),
                            CSymbol::Func { name, .. } => name.clone(),
                        };
                        table.insert(key, clone_csym(&s2));
                        let (o, rest2) = Self::class_methods_pass_exec(tname, *rest, table, label, fid + 1);
                        (o, List::Cons(Box::new(s2), Box::new(rest2)))
                    },
                    CSymbol::Var { .. } => (Ok(fid), List::Nil),
                }
            },
        }
    }

    /// Declares the methods of the class `tname`, giving each a code label
    /// (from `label_count` on) and a slot in the class's method table.
    pub fn tinstall_class_methods(
        &mut self,
        tname: &String,
        label_count: &mut usize,
        tmethods: &mut List<CSymbol>,
    ) -> (r: Result<(), String>)
        requires
            install_class_methods_spec(*old(self), *tname, *old(label_count), *old(tmethods)).0.defined(),
        ensures
            matches_out(
                r,
                install_class_methods_spec(*old(self), *tname, *old(label_count), *old(tmethods)).0,
            ),
            *final(self) == install_class_methods_spec(
                *old(self),
                *tname,
                *old(label_count),
                *old(tmethods),
            ).1,
            *final(label_count) == install_class_methods_spec(
                *old(self),
                *tname,
                *old(label_count),
                *old(tmethods),
            ).2,
            *final(tmethods) == install_class_methods_spec(
                *old(self),
                *tname,
                *old(label_count),
                *old(tmethods),
            ).3,
            r is Ok ==> *final(label_count) == *old(label_count) + old(tmethods).len(),
            r is Ok ==> forall|k: int|
                0 <= k < final(tmethods).len() ==> (#[trigger] final(tmethods).seq()[k] matches CSymbol::Func {
                    flabel,
                    ..
                } && flabel == *old(label_count) + k),
    {
        proof {
            if install_class_methods_spec(*old(self), *tname, *old(label_count), *old(tmethods)).0 is Value {
                lemma_class_method_labels(*old(self), *tname, *old(label_count), *old(tmethods));
            }
        }
        let classentry = self.tt_get_type(tname)?;
        let cstruct = match classentry {
            ASTExprType::Class(c) => c,
            _ => {
                return Err(owned("not a class?."));
            },
        };
        let ASTClassType { name: _, fieldsize, methodsize, symbol_table, parent, vft_id } = cstruct;
        let mut table = symbol_table.table;
        let mut methods = List::Nil;
        std::mem::swap(&mut methods, tmethods);
        let (o, methods2) = Self::class_methods_pass_exec(tname, methods, &mut table, label_count, methodsize);
        *tmethods = methods2;
        let fieldid = o?;
        self.table.insert(
            tname.clone(),
            ASTExprType::Class(
                ASTClassType {
                    name: tname.clone(),
                    fieldsize,
                    methodsize: fieldid - fieldsize,
                    symbol_table: ClassSymbolTable { table },
                    parent,
                    vft_id,
                },
            ),
        );
        Ok(())
    }
}

} // verus!

verus! {

// ---------------------------------------------------------------------------
// Literals.
// ---------------------------------------------------------------------------

pub open spec fn is_digit(c: char) -> bool {
    '0' <= c && c <= '9'
}

/// The value of a string of decimal digits.
pub open spec fn digits_value(s: Seq<char>) -> int
    decreases s.len(),
{
    if s.len() == 0 {
        0
    } else {
        digits_value(s.drop_last()) * 10 + (s.last() as int - '0' as int)
    }
}

/// `s` is one or more decimal digits.
pub open spec fn is_numeral(s: Seq<char>) -> bool {
    s.len() > 0 && forall|i: int| 0 <= i < s.len() ==> is_digit(#[trigger] s[i])
}

/// The integer that `s` writes, as `str::parse::<i64>` reads it: an
/// optional `+` or `-`, then decimal digits; `None` when `s` is not of that
/// form or the value does not fit.
pub open spec fn int_literal(s: Seq<char>) -> Option<i64> {
    let neg = s.len() > 0 && s[0] == '-';
    let d = if s.len() > 0 && (s[0] == '-' || s[0] == '+') {
        s.subrange(1, s.len() as int)
    } else {
        s
    };
    let v = if neg {
        -digits_value(d)
    } else {
        digits_value(d)
    };
    if is_numeral(d) && i64::MIN <= v <= i64::MAX {
        Some(v as i64)
    } else {
        None
    }
}

/// The count that `s` writes, as `str::parse::<usize>` reads it: an
/// optional `+`, then decimal digits; `None` when `s` is not of that form
/// or the value does not fit.
pub open spec fn usize_literal(s: Seq<char>) -> Option<usize> {
    let d = if s.len() > 0 && s[0] == '+' {
        s.subrange(1, s.len() as int)
    } else {
        s
    };
    if is_numeral(d) && digits_value(d) <= usize::MAX {
        Some(digits_value(d) as usize)
    } else {
        None
    }
}

proof fn lemma_digits_grow(s: Seq<char>, k: int)
    requires
        0 <= k <= s.len(),
        forall|i: int| 0 <= i < s.len() ==> is_digit(#[trigger] s[i]),
    ensures
        0 <= digits_value(s.subrange(0, k)) <= digits_value(s),
    decreases s.len() - k,
{
    if k < s.len() {
        lemma_digits_grow(s, k + 1);
        let t = s.subrange(0, k + 1);
        assert(t.drop_last() =~= s.subrange(0, k));
        assert(is_digit(t.last()));
    } else {
        assert(s.subrange(0, k) =~= s);
        lemma_digits_nonneg(s);
    }
}

proof fn lemma_digits_nonneg(s: Seq<char>)
    requires
        forall|i: int| 0 <= i < s.len() ==> is_digit(#[trigger] s[i]),
    ensures
        digits_value(s) >= 0,
    decreases s.len(),
{
    if s.len() > 0 {
        assert(is_digit(s.last()));
        lemma_digits_nonneg(s.drop_last());
    }
}

/// The value of the digits of `d` from `start` on, when they are all digits
/// and it is at most `u64::MAX`.
fn read_digits(d: &Vec<char>, start: usize) -> (r: Option<u64>)
    requires
        start <= d.len(),
    ensures
        r matches Some(v) ==> is_numeral(d@.subrange(start as int, d.len() as int)) && v == digits_value(
            d@.subrange(start as int, d.len() as int),
        ),
        r is None ==> !is_numeral(d@.subrange(start as int, d.len() as int)) || digits_value(
            d@.subrange(start as int, d.len() as int),
        ) > u64::MAX,
{
    let ghost s = d@.subrange(start as int, d.len() as int);
    if start == d.len() {
        return None;
    }
    let mut acc: u64 = 0;
    let mut i: usize = start;
    while i < d.len()
        invariant
            start <= i <= d.len(),
            s == d@.subrange(start as int, d.len() as int),
            forall|m: int| 0 <= m < i - start ==> is_digit(#[trigger] s[m]),
            acc == digits_value(s.subrange(0, i - start)),
        decreases d.len() - i,
    {
        let c = d[i];
        if !('0' <= c && c <= '9') {
            assert(!is_digit(s[i - start]));
            return None;
        }
        let dv: u64 = (c as u32 - '0' as u32) as u64;
        proof {
            let t = s.subrange(0, i - start + 1);
            assert(t.drop_last() =~= s.subrange(0, i - start));
            assert(t.last() == c);
        }
        let next = match acc.checked_mul(10) {
            Some(x) => x.checked_add(dv),
            None => None,
        };
        match next {
            Some(x) => {
                acc = x;
            },
            None => {
                proof {
                    let k = i - start + 1;
                    assert forall|m: int| 0 <= m < k implies is_digit(#[trigger] s.subrange(0, k)[m]) by {
                        if m < i - start {
                        } else {
                            assert(s.subrange(0, k)[m] == c);
                        }
                    }
                    if is_numeral(s) {
                        lemma_digits_grow(s, k);
                    }
                }
                return None;
            },
        }
        i += 1;
    }
    assert(s.subrange(0, i - start) =~= s);
    Some(acc)
}

/// Reads an integer literal.
pub fn parse_int(s: &str) -> (r: Result<i64, ()>)
    ensures
        r matches Ok(v) ==> int_literal(s@) == Some(v),
        r is Err ==> int_literal(s@) is None,
{
    let d = to_chars(s);
    let neg = d.len() > 0 && d[0] == '-';
    let start: usize = if d.len() > 0 && (d[0] == '-' || d[0] == '+') {
        1
    } else {
        0
    };
    assert(d@.subrange(0, d.len() as int) =~= d@);
    match read_digits(&d, start) {
        Some(m) => {
            if neg {
                if m <= 9223372036854775808u64 {
                    let v: i128 = 0 - (m as i128);
                    Ok(v as i64)
                } else {
                    Err(())
                }
            } else {
                if m <= 9223372036854775807u64 {
                    Ok(m as i64)
                } else {
                    Err(())
                }
            }
        },
        None => Err(()),
    }
}

/// Reads a count literal.
pub fn parse_usize(s: &str) -> (r: Result<usize, ()>)
    ensures
        r matches Ok(v) ==> usize_literal(s@) == Some(v),
        r is Err ==> usize_literal(s@) is None,
{
    let d = to_chars(s);
    let start: usize = if d.len() > 0 && d[0] == '+' {
        1
    } else {
        0
    };
    assert(d@.subrange(0, d.len() as int) =~= d@);
    match read_digits(&d, start) {
        Some(m) => {
            if m as u128 <= usize::MAX as u128 {
                Ok(m as usize)
            } else {
                Err(())
            }
        },
        None => Err(()),
    }
}

/// A string literal's text, as is.
pub fn parse_string(s: &str) -> (r: Result<String, ()>)
    ensures
        r matches Ok(t) && t@ == s@,
{
    Ok(owned(s))
}

// ---------------------------------------------------------------------------
// How types are written in messages.
// ---------------------------------------------------------------------------

pub open spec fn prim_text(p: PrimitiveType) -> Seq<char> {
    match p {
        PrimitiveType::Int => "int_t"@,
        PrimitiveType::String => "str_t"@,
        PrimitiveType::Bool => "bool_t"@,
        PrimitiveType::Void => "void_t"@,
        PrimitiveType::Null => "null_t"@,
    }
}

/// How a type that is not a pointer is written.
pub open spec fn base_text(t: ASTExprType) -> Seq<char> {
    match t {
        ASTExprType::Error => "ASTExprType :: Error"@,
        ASTExprType::Primitive(p) => prim_text(p),
        ASTExprType::Struct(s) => "struct_"@ + s.name@ + "_t"@,
        ASTExprType::Class(c) => "class_"@ + c.name@ + "_t"@,
        ASTExprType::Pointer(_) => Seq::empty(),
    }
}

/// How a type is written: a pointer as one `*` per pointer level of its
/// target, then its base type.
pub open spec fn type_text(t: ASTExprType) -> Seq<char> {
    match t {
        ASTExprType::Pointer(p) => Seq::new(p.depth_spec(), |i: int| '*') + base_text(p.base_spec()),
        _ => base_text(t),
    }
}

impl PrimitiveType {
    pub fn to_string(&self) -> (r: String)
        ensures
            r@ == prim_text(*self),
    {
        match self {
            PrimitiveType::Int => owned("int_t"),
            PrimitiveType::String => owned("str_t"),
            PrimitiveType::Bool => owned("bool_t"),
            PrimitiveType::Void => owned("void_t"),
            PrimitiveType::Null => owned("null_t"),
        }
    }
}

fn base_string(t: &ASTExprType) -> (r: String)
    ensures
        r@ == base_text(*t),
{
    match t {
        ASTExprType::Error => owned("ASTExprType :: Error"),
        ASTExprType::Primitive(p) => p.to_string(),
        ASTExprType::Struct(s) => cat(cat(owned("struct_"), s.name.as_str()), "_t"),
        ASTExprType::Class(c) => cat(cat(owned("class_"), c.name.as_str()), "_t"),
        ASTExprType::Pointer(_) => String::new(),
    }
}

impl ASTExprType {
    pub fn to_string(&self) -> (r: String)
        requires
            match *self {
                ASTExprType::Pointer(p) => p.depth_spec() <= usize::MAX,
                _ => true,
            },
        ensures
            r@ == type_text(*self),
    {
        match self {
            ASTExprType::Pointer(p) => {
                let n = p.depth();
                let mut stars = String::new();
                let mut i: usize = 0;
                while i < n
                    invariant
                        i <= n,
                        stars@ == Seq::new(i as nat, |j: int| '*'),
                    decreases n - i,
                {
                    stars = cat(stars, "*");
                    proof {
                        reveal_strlit("*");
                    }
                    i += 1;
                    assert(stars@ =~= Seq::new(i as nat, |j: int| '*'));
                }
                let b = p.get_base_type();
                cat(stars, base_string(&b).as_str())
            },
            _ => base_string(self),
        }
    }
}

} // verus!

verus! {

// ---------------------------------------------------------------------------
// Laws of types, the type table and literals.
// ---------------------------------------------------------------------------

/// The error type is at the end of the pointer levels of `t`.
pub open spec fn ends_in_error(t: ASTExprType) -> bool
    decreases t,
{
    match t {
        ASTExprType::Pointer(p) => ends_in_error(*p),
        ASTExprType::Error => true,
        _ => false,
    }
}

/// What `set_base_type` sets, `get_base_type` gives back, and the pointer
/// levels of the new base add to those of the type.
pub proof fn lemma_field_base_roundtrip(t: FieldType, b: FieldType)
    ensures
        t.with_base(b).base_spec() == b.base_spec(),
        t.with_base(b).depth_spec() == t.depth_spec() + b.depth_spec(),
    decreases t,
{
    match t {
        FieldType::Pointer(p) => lemma_field_base_roundtrip(*p, b),
        _ => {},
    }
}

/// What `set_base_type` sets, `get_base_type` gives back, and the pointer
/// levels of the new base add to those of the type; a type that ends in the
/// error type keeps it.
pub proof fn lemma_expr_base_roundtrip(t: ASTExprType, b: ASTExprType)
    ensures
        !ends_in_error(t) ==> t.with_base(b).base_spec() == b.base_spec(),
        !ends_in_error(t) ==> t.with_base(b).depth_spec() == t.depth_spec() + b.depth_spec(),
        ends_in_error(t) ==> t.with_base(b) == t,
    decreases t,
{
    match t {
        ASTExprType::Pointer(p) => lemma_expr_base_roundtrip(*p, b),
        _ => {},
    }
}

/// `derefr` undoes `refr`, which adds one pointer level to any type but the
/// error type.
pub proof fn lemma_refr_derefr(t: ASTExprType)
    requires
        !(t is Error),
    ensures
        t.refr_spec() is Some,
        t.refr_spec()->0.derefr_spec() == Some(t),
        t.refr_spec()->0.depth_spec() == t.depth_spec() + 1,
        t.refr_spec()->0.base_spec() == t.base_spec(),
{
}

/// A struct that `tinstall_struct` accepts is then the type of its name,
/// with its fields in order and their count as its size; every other name
/// keeps its type.
pub proof fn lemma_struct_installed(tt: TypeTable, tname: String, fields: List<Field>)
    requires
        tt.install_struct_spec(tname, fields).0 == Out::<()>::Value(()),
    ensures
        tt.install_struct_spec(tname, fields).1.get_spec(tname@) == Out::Value(
            ASTExprType::Struct(ASTStructType { name: tname, size: fields.len() as usize, fields }),
        ),
        forall|q: Seq<char>| q != tname@ ==> #[trigger] tt.install_struct_spec(tname, fields).1.lookup(q) == tt.lookup(q),
{
    let st = ASTExprType::Struct(ASTStructType { name: tname, size: fields.len() as usize, fields });
    crate::list::lemma_assoc_insert(tt.table.entries, tname, st);
}

proof fn lemma_digit_char(d: nat)
    requires
        d < 10,
    ensures
        is_digit(digit_char(d)),
        digit_char(d) as int - '0' as int == d,
{
}

/// The numeral of `n` is a string of digits that reads as `n`.
pub proof fn lemma_dec_reads_back(n: nat)
    ensures
        is_numeral(dec(n)),
        digits_value(dec(n)) == n,
    decreases n,
{
    if n < 10 {
        lemma_digit_char(n);
        assert(dec(n).drop_last() =~= Seq::<char>::empty());
        assert(digits_value(Seq::<char>::empty()) == 0);
        assert(dec(n).last() == digit_char(n));
    } else {
        lemma_dec_reads_back(n / 10);
        lemma_digit_char(n % 10);
        let s = dec(n);
        assert(s.drop_last() =~= dec(n / 10));
        assert(s.last() == digit_char(n % 10));
        assert(digits_value(s) == digits_value(dec(n / 10)) * 10 + (n % 10));
        assert((n / 10) * 10 + n % 10 == n) by (nonlinear_arith);
        assert forall|i: int| 0 <= i < s.len() implies is_digit(#[trigger] s[i]) by {
            if i < s.len() - 1 {
                assert(s[i] == dec(n / 10)[i]);
            }
        }
    }
}

/// Reading the numeral of an integer gives the integer back: `parse_int`
/// undoes the writing of an `int` literal.
pub proof fn lemma_int_literal_roundtrip(v: i64)
    ensures
        int_literal(dec_int(v as int)) == Some(v),
{
    if v < 0 {
        lemma_dec_reads_back((-v) as nat);
        let s = dec_int(v as int);
        assert(s.subrange(1, s.len() as int) =~= dec((-v) as nat));
    } else {
        lemma_dec_reads_back(v as nat);
        let s = dec(v as nat);
        assert(is_digit(s[0]));
    }
}

/// Reading the numeral of a count gives the count back.
pub proof fn lemma_usize_literal_roundtrip(n: usize)
    ensures
        usize_literal(dec(n as nat)) == Some(n),
{
    lemma_dec_reads_back(n as nat);
    assert(is_digit(dec(n as nat)[0]));
}

} // verus!

verus! {

/// The base of a type has no pointer level, and a type that is not a
/// pointer has depth 0 and is its own base (the error type has `void` as
/// base).
pub proof fn lemma_base_depth(t: ASTExprType)
    ensures
        t.base_spec().depth_spec() == 0,
        !(t is Pointer) ==> t.depth_spec() == 0,
        !(t is Pointer) && !(t is Error) ==> t.base_spec() == t,
    decreases t,
{
    if let ASTExprType::Pointer(p) = t {
        lemma_base_depth(*p);
    }
}

/// The first `p` fields of `f2` are those of `fields` numbered from `id`
/// on, and the others are as in `fields`.
pub open spec fn numbered_prefix(f2: List<CSymbol>, fields: List<CSymbol>, id: i64, p: int) -> bool {
    &&& 0 <= p <= fields.len()
    &&& forall|k: int| 0 <= k < p ==> #[trigger] f2.seq()[k] == renumbered(fields.seq()[k], (id + k) as i64)
    &&& forall|k: int| p <= k < fields.len() ==> #[trigger] f2.seq()[k] == fields.seq()[k]
}

/// A field `s` numbered `v`.
pub open spec fn renumbered(s: CSymbol, v: i64) -> CSymbol {
    match s {
        CSymbol::Var { name, vartype, varindices, .. } => CSymbol::Var { name, vartype, varid: v, varindices },
        _ => s,
    }
}

proof fn lemma_fields_pass_prefix(tt: TypeTable, tname: Seq<char>, fields: List<CSymbol>, ctable: SymTable<CSymbol>, id: i64)
    ensures
        ({
            let f2 = class_fields_pass(tt, tname, fields, ctable, id).1;
            &&& f2.len() == fields.len()
            &&& exists|p: int| #[trigger] numbered_prefix(f2, fields, id, p)
        }),
    decreases fields,
{
    fields.lemma_seq_len();
    match fields {
        List::Nil => {
            assert(class_fields_pass(tt, tname, fields, ctable, id).1 == fields);
            assert(numbered_prefix(fields, fields, id, 0));
        },
        List::Cons(s, rest) => {
            let f2 = class_fields_pass(tt, tname, fields, ctable, id).1;
            match *s {
                CSymbol::Var { name, vartype, varid, varindices } => {
                    if tt.field_type_check(tname, vartype) is Fail || ctable.lookup(name@) is Some || id == i64::MAX {
                        assert(f2 == fields);
                        assert(forall|k: int| 0 <= k < fields.len() ==> #[trigger] f2.seq()[k] == fields.seq()[k]);
                        assert(forall|k: int| 0 <= k < 0 ==> #[trigger] f2.seq()[k] == renumbered(fields.seq()[k], (id + k) as i64));
                        assert(numbered_prefix(f2, fields, id, 0));
                    } else {
                        let s2 = CSymbol::Var { name, vartype, varid: id, varindices };
                        let ct = ctable.with(name, s2);
                        lemma_fields_pass_prefix(tt, tname, *rest, ct, (id + 1) as i64);
                        let r2 = class_fields_pass(tt, tname, *rest, ct, (id + 1) as i64).1;
                        rest.lemma_seq_len();
                        r2.lemma_seq_len();
                        let p = choose|p: int| #[trigger] numbered_prefix(r2, *rest, (id + 1) as i64, p);
                        assert(f2.seq() == seq![s2] + r2.seq());
                        assert(fields.seq() == seq![*s] + rest.seq());
                        assert forall|k: int| 0 <= k < p + 1 implies #[trigger] f2.seq()[k] == renumbered(
                            fields.seq()[k],
                            (id + k) as i64,
                        ) by {
                            if k > 0 {
                                assert(f2.seq()[k] == r2.seq()[k - 1]);
                                assert(fields.seq()[k] == rest.seq()[k - 1]);
                            }
                        }
                        assert forall|k: int| p + 1 <= k < fields.len() implies #[trigger] f2.seq()[k] == fields.seq()[k] by {
                            assert(f2.seq()[k] == r2.seq()[k - 1]);
                            assert(fields.seq()[k] == rest.seq()[k - 1]);
                        }
                        assert(numbered_prefix(f2, fields, id, p + 1));
                    }
                },
                CSymbol::Func { .. } => {
                    assert(f2 == fields);
                    assert(forall|k: int| 0 <= k < fields.len() ==> #[trigger] f2.seq()[k] == fields.seq()[k]);
                    assert(forall|k: int| 0 <= k < 0 ==> #[trigger] f2.seq()[k] == renumbered(fields.seq()[k], (id + k) as i64));
                    assert(numbered_prefix(f2, fields, id, 0));
                },
            }
        },
    }
}

/// When `tinstall_class_fields` refuses a class, the type table is left as
/// it was, and the fields before the offending one have been numbered in
/// order from 0 while the others are as given (`tinstall_class_fields`
/// also uses up one table index, as its contract states).
pub proof fn lemma_class_fields_refused(tt: TypeTable, tname: String, pname: String, vft: usize, fields: List<CSymbol>)
    requires
        install_class_fields_spec(tt, tname, pname, vft, fields).0 is Fail,
    ensures
        ({
            let (o, tt2, f2) = install_class_fields_spec(tt, tname, pname, vft, fields);
            &&& tt2 == tt
            &&& f2.len() == fields.len()
            &&& exists|p: int| #[trigger] numbered_prefix(f2, fields, 0, p)
        }),
{
    fields.lemma_seq_len();
    if tt.has(tname@) || fields.len() > 8 || (pname@.len() != 0 && !(tt.lookup(pname@)->0 is Class)) {
        let f2 = fields;
        assert(forall|k: int| 0 <= k < fields.len() ==> #[trigger] f2.seq()[k] == fields.seq()[k]);
        assert(forall|k: int| 0 <= k < 0 ==> #[trigger] f2.seq()[k] == renumbered(fields.seq()[k], k as i64));
        assert(numbered_prefix(f2, fields, 0, 0));
    } else {
        let (ctable, methods) = if pname@.len() == 0 {
            (SymTable { entries: List::Nil }, 0i64)
        } else {
            let c = tt.lookup(pname@)->0->Class_0;
            (c.symbol_table.table, c.methodsize)
        };
        lemma_fields_pass_prefix(tt, tname@, fields, ctable, 0);
    }
}

} // verus!

verus! {

/// Numbering methods gives each a fresh code label and slot: the `k`-th
/// method gets label `label + k` and slot `fid + k`, and the next free label
/// is `label` plus the number of methods.
pub proof fn lemma_method_labels(
    tname: Seq<char>,
    methods: List<CSymbol>,
    table: SymTable<CSymbol>,
    label: usize,
    fid: i64,
)
    requires
        class_methods_pass(tname, methods, table, label, fid).0 is Value,
    ensures
        ({
            let (o, m2, t2, l2) = class_methods_pass(tname, methods, table, label, fid);
            &&& l2 == label + methods.len()
            &&& m2.len() == methods.len()
            &&& forall|k: int|
                0 <= k < m2.len() ==> (#[trigger] m2.seq()[k] matches CSymbol::Func { flabel, fid: f, .. }
                    && flabel == label + k && f == fid + k)
        }),
    decreases methods,
{
    match methods {
        List::Nil => {},
        List::Cons(s, rest) => match *s {
            CSymbol::Func { name, ret_type, paramlist, .. } => {
                let s2 = CSymbol::Func { name, ret_type, paramlist, flabel: label, fid };
                let t1 = table.with(name, s2);
                lemma_method_labels(tname, *rest, t1, (label + 1) as usize, (fid + 1) as i64);
                let (o, m2, t2, l2) = class_methods_pass(tname, methods, table, label, fid);
                let rest2 = class_methods_pass(tname, *rest, t1, (label + 1) as usize, (fid + 1) as i64).1;
                assert(m2 == List::Cons(Box::new(s2), Box::new(rest2)));
                rest2.lemma_seq_len();
                m2.lemma_seq_len();
                assert forall|k: int| 0 <= k < m2.len() implies (#[trigger] m2.seq()[k] matches CSymbol::Func {
                    flabel,
                    fid: f,
                    ..
                } && flabel == label + k && f == fid + k) by {
                    if k > 0 {
                        assert(m2.seq()[k] == rest2.seq()[k - 1]);
                    }
                }
            },
            CSymbol::Var { .. } => {},
        },
    }
}

/// Declaring the methods of a class gives the `k`-th method code label
/// `label + k`, and the next free label moves on by the number of methods.
pub proof fn lemma_class_method_labels(tt: TypeTable, tname: String, label: usize, methods: List<CSymbol>)
    requires
        install_class_methods_spec(tt, tname, label, methods).0 is Value,
    ensures
        ({
            let (o, tt2, l2, m2) = install_class_methods_spec(tt, tname, label, methods);
            &&& l2 == label + methods.len()
            &&& m2.len() == methods.len()
            &&& forall|k: int|
                0 <= k < m2.len() ==> (#[trigger] m2.seq()[k] matches CSymbol::Func { flabel, .. } && flabel
                    == label + k)
        }),
{
    let c = tt.get_spec(tname@)->Value_0->Class_0;
    lemma_method_labels(tname@, methods, c.symbol_table.table, label, c.methodsize);
}

} // verus!
