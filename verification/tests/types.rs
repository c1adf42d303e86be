use expl_compiler::list::List;
use expl_compiler::parserlib::TypeTable;
use expl_compiler::types::{
    ASTClassType, ASTExprType, ASTNodeType, ASTStructType, ClassSymbolTable, Field, FieldList,
    FieldType, PrimitiveType,
};
use expl_compiler::list::SymTable;

fn int_t() -> ASTExprType {
    ASTExprType::Primitive(PrimitiveType::Int)
}

fn ptr(t: ASTExprType) -> ASTExprType {
    ASTExprType::Pointer(Box::new(t))
}

fn field(name: &str, t: FieldType) -> Field {
    Field { name: name.to_string(), field_type: t, array_access: FieldList::Nil }
}

fn class(name: &str) -> ASTClassType {
    ASTClassType {
        name: name.to_string(),
        fieldsize: 0,
        methodsize: 0,
        symbol_table: ClassSymbolTable { table: SymTable::new() },
        parent: None,
        vft_id: 0,
    }
}

#[test]
fn type_names_in_messages() {
    assert_eq!(PrimitiveType::Int.to_string(), "int_t");
    assert_eq!(PrimitiveType::String.to_string(), "str_t");
    assert_eq!(PrimitiveType::Bool.to_string(), "bool_t");
    assert_eq!(PrimitiveType::Void.to_string(), "void_t");
    assert_eq!(PrimitiveType::Null.to_string(), "null_t");
    assert_eq!(int_t().to_string(), "int_t");
    assert_eq!(ptr(int_t()).to_string(), "int_t");
    assert_eq!(ptr(ptr(int_t())).to_string(), "*int_t");
    assert_eq!(ASTExprType::Error.to_string(), "ASTExprType :: Error");
    let s = ASTExprType::Struct(ASTStructType { name: "node".to_string(), size: 0, fields: List::Nil });
    assert_eq!(s.to_string(), "struct_node_t");
    assert_eq!(ASTExprType::Class(class("shape")).to_string(), "class_shape_t");
}

#[test]
fn operator_symbols() {
    assert_eq!(ASTNodeType::Plus.to_string(), "+");
    assert_eq!(ASTNodeType::Minus.to_string(), "-");
    assert_eq!(ASTNodeType::Star.to_string(), "*");
    assert_eq!(ASTNodeType::Slash.to_string(), "/");
    assert_eq!(ASTNodeType::Read.to_string(), "Read");
    assert_eq!(ASTNodeType::Write.to_string(), "Write");
    assert_eq!(ASTNodeType::Connector.to_string(), "< >");
    assert_eq!(ASTNodeType::Equals.to_string(), "=");
    assert_eq!(ASTNodeType::Gt.to_string(), "Node");
}

#[test]
fn classes_are_equal_by_name() {
    let mut a = class("shape");
    a.fieldsize = 3;
    assert!(a == class("shape"));
    assert!(a != class("circle"));
}

#[test]
fn refr_then_derefr_gives_the_type_back() {
    let t = ptr(int_t());
    let r = t.refr().unwrap();
    assert_eq!(r.depth(), 2);
    assert!(matches!(r.derefr(), Some(ASTExprType::Pointer(ref p)) if matches!(**p, ASTExprType::Primitive(PrimitiveType::Int))));
    assert!(ASTExprType::Error.refr().is_none());
    assert!(int_t().derefr().is_none());
}

#[test]
fn set_base_then_get_base() {
    let mut t = ptr(ptr(int_t()));
    t.set_base_type(ASTExprType::Primitive(PrimitiveType::Bool));
    assert_eq!(t.depth(), 2);
    assert!(matches!(t.get_base_type(), ASTExprType::Primitive(PrimitiveType::Bool)));
    let mut t = ptr(int_t());
    t.set_base_type(ptr(ASTExprType::Primitive(PrimitiveType::String)));
    assert_eq!(t.depth(), 2);
    assert!(matches!(t.get_base_type(), ASTExprType::Primitive(PrimitiveType::String)));
    let mut f = FieldType::Pointer(Box::new(FieldType::Primitive(PrimitiveType::Int)));
    f.set_base_type(FieldType::Struct("pair".to_string()));
    assert_eq!(f.depth(), 1);
    assert_eq!(f.get_base_type(), FieldType::Struct("pair".to_string()));
    assert!(matches!(ASTExprType::Error.get_base_type(), ASTExprType::Primitive(PrimitiveType::Void)));
}

#[test]
fn sizes_of_types() {
    assert_eq!(int_t().size(), Ok(1));
    assert_eq!(ptr(int_t()).size(), Ok(1));
    assert_eq!(ptr(ASTExprType::Class(class("c"))).size(), Ok(2));
    let mut c = class("c");
    c.fieldsize = 2;
    c.methodsize = 3;
    assert_eq!(ASTExprType::Class(c).size(), Ok(5));
}

#[test]
fn installed_struct_is_found() {
    let mut tt = TypeTable::default();
    assert!(tt.tt_exists(&"int".to_string()));
    assert!(!tt.tt_exists(&"pair".to_string()));
    let fields = List::from_vec(vec![
        field("a", FieldType::Primitive(PrimitiveType::Int)),
        field("b", FieldType::Primitive(PrimitiveType::String)),
    ]);
    assert_eq!(tt.tinstall_struct("pair".to_string(), fields), Ok(()));
    assert!(tt.tt_exists(&"pair".to_string()));
    let t = tt.tt_get_type(&"pair".to_string()).unwrap();
    match &t {
        ASTExprType::Struct(s) => {
            assert_eq!(s.name, "pair");
            assert_eq!(s.size, 2);
        },
        _ => panic!("not a struct"),
    }
    assert_eq!(t.get_field_id(&"a".to_string()), Ok(0));
    assert_eq!(t.get_field_id(&"b".to_string()), Ok(1));
    assert!(matches!(
        t.get_field_type(&"b".to_string(), &tt),
        Ok(ASTExprType::Primitive(PrimitiveType::String))
    ));
    assert_eq!(t.get_type_name(), Ok("pair".to_string()));
    let again = List::from_vec(vec![field("a", FieldType::Primitive(PrimitiveType::Int))]);
    assert_eq!(
        tt.tinstall_struct("pair".to_string(), again),
        Err("Type [pair] is already declared.".to_string())
    );
    assert_eq!(tt.tt_get_type(&"list".to_string()).err(), Some("Type [list] is not declared/valid.".to_string()));
}

#[test]
fn struct_field_errors() {
    let mut tt = TypeTable::default();
    let fields = List::from_vec(vec![
        field("a", FieldType::Primitive(PrimitiveType::Int)),
        field("a", FieldType::Primitive(PrimitiveType::Int)),
    ]);
    assert_eq!(
        tt.tinstall_struct("twice".to_string(), fields),
        Err("In Type [twice], field [a] is declared more than once.".to_string())
    );
    let fields = List::from_vec(vec![field("next", FieldType::Struct("self".to_string()))]);
    assert_eq!(tt.tinstall_struct("self".to_string(), fields), Err("Type [self] is incomplete.".to_string()));
    let fields = List::from_vec(vec![field("c", FieldType::Class("k".to_string()))]);
    assert_eq!(
        tt.tinstall_struct("withclass".to_string(), fields),
        Err("Classes are not allowed inside structs.".to_string())
    );
}

#[test]
fn one_element_lists() {
    let l: List<usize> = List::from(3);
    assert_eq!(l, List::Cons(Box::new(3), Box::new(List::Nil)));
    assert_eq!(l.length(), 1);
}

#[test]
fn ancestors_of_classes() {
    let mut tt = TypeTable::default();
    let mut base = class("base");
    base.parent = None;
    let mut derived = class("derived");
    derived.parent = Some("base".to_string());
    tt.table.insert("base".to_string(), ASTExprType::Class(base));
    tt.table.insert("derived".to_string(), ASTExprType::Class(derived));
    let d = tt.tt_get_type(&"derived".to_string()).unwrap();
    assert!(d.is_class());
    assert!(d.is_ancestor(Some("derived".to_string()), &tt));
    assert!(d.is_ancestor(Some("base".to_string()), &tt));
    assert!(!d.is_ancestor(None, &tt));
    assert_eq!(d.get_vftid(), Some(0));
    assert_eq!(int_t().get_vftid(), None);
}

fn class_field(name: &str, varid: i64) -> expl_compiler::types::CSymbol {
    expl_compiler::types::CSymbol::Var {
        name: name.to_string(),
        vartype: FieldType::Primitive(PrimitiveType::Int),
        varid,
        varindices: List::Nil,
    }
}

fn table_names(tt: &TypeTable) -> Vec<String> {
    let mut names = Vec::new();
    let mut cur = &tt.table.entries;
    while let List::Cons(e, rest) = cur {
        names.push(e.0.clone());
        cur = rest;
    }
    names
}

#[test]
fn refused_class_fields_keep_the_table() {
    let mut tt = TypeTable::default();
    let before = table_names(&tt);
    let mut vft: usize = 4;
    let mut fields = List::from_vec(vec![class_field("a", 7), class_field("b", 7), class_field("a", 7)]);
    let r = tt.tinstall_class_fields(&"shape".to_string(), &String::new(), &mut vft, &mut fields);
    assert!(r.is_err());
    assert_eq!(vft, 5);
    assert_eq!(table_names(&tt), before);
    assert!(!tt.tt_exists(&"shape".to_string()));
    let mut ids: Vec<i64> = Vec::new();
    let mut cur = &fields;
    while let List::Cons(s, rest) = cur {
        ids.push(match &**s {
            expl_compiler::types::CSymbol::Var { varid, .. } => *varid,
            _ => -1,
        });
        cur = rest;
    }
    assert_eq!(ids[0], 0);
    assert_eq!(ids[1], 1);
}
