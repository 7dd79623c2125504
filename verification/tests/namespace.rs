use std::collections::BTreeMap;
use std::rc::Rc;

use indexmap::IndexMap;

use fe_items::ast::{self, Node, Span};
use fe_items::context::{Analysis, FunctionBody};
use fe_items::db::{
    AnalyzerDb, ContractEntry, ContractFieldEntry, EventEntry, FunctionEntry, IngotEntry,
    ModuleConstantEntry, ModuleEntry, StructEntry, StructFieldEntry, TypeAliasEntry,
};
use fe_items::deps::{DepGraph, DepGraphWrapper};
use fe_items::diagnostics::{error, Diagnostic, Severity};
use fe_items::files::{SourceFile, SourceFileId};
use fe_items::items::{
    Class, Contract, ContractField, ContractFieldId, ContractId, Event, EventId, Function,
    FunctionId, GlobalId, Ingot, IngotId, Item, Module, ModuleConstant, ModuleConstantId,
    ModuleContext, ModuleFileContent, ModuleId, Struct, StructField, StructFieldId, StructId,
    TypeAlias, TypeAliasId, TypeDef,
};
use fe_items::sink::DiagnosticSink;
use fe_items::types::{self, Base, FixedSize, FunctionSignature, GenericType, Integer, SelfDecl, Type, TypeError};
use fe_items::builtins::{GlobalFunction, GlobalObject};

fn sp(start: usize, end: usize) -> Span {
    Span::new(start, end)
}

fn name(s: &str, start: usize) -> Node<String> {
    Node::new(s.to_string(), sp(start, start + s.len()))
}

fn ok<T>(value: T) -> Analysis<T> {
    Analysis { value, diagnostics: Rc::new(vec![]) }
}

fn reported<T>(value: T, diags: Vec<Diagnostic>) -> Analysis<T> {
    Analysis { value, diagnostics: Rc::new(diags) }
}

fn graph() -> DepGraphWrapper {
    DepGraphWrapper(Rc::new(DepGraph::new()))
}

fn signature(takes_self: bool) -> Rc<FunctionSignature> {
    Rc::new(FunctionSignature {
        self_decl: if takes_self { Some(SelfDecl::Mutable) } else { None },
        params: vec![],
        return_type: Ok(FixedSize::Base(Base::Unit)),
    })
}

fn body() -> Rc<FunctionBody> {
    Rc::new(FunctionBody { emits: vec![], string_literals: vec![], var_decl_types: vec![] })
}

fn function(
    fname: &str,
    start: usize,
    module: ModuleId,
    parent: Option<Class>,
    takes_self: bool,
    public: bool,
) -> FunctionEntry {
    let mut args = vec![];
    if takes_self {
        args.push(Node::new(ast::FunctionArg::Regular { name: name("x", start + 20) }, sp(start + 20, start + 21)));
        args.push(Node::new(ast::FunctionArg::Zelf, sp(start + 23, start + 27)));
    }
    FunctionEntry {
        data: Rc::new(Function {
            ast: Node::new(
                ast::Function {
                    pub_: if public { Some(sp(start, start + 3)) } else { None },
                    unsafe_: None,
                    name: name(fname, start + 7),
                    args,
                },
                sp(start, start + 40),
            ),
            module,
            parent,
        }),
        signature: ok(signature(takes_self)),
        body: ok(body()),
        dependency_graph: graph(),
    }
}

fn names<V: Copy>(pairs: &[(&str, V)]) -> Rc<IndexMap<String, V>> {
    let mut m = IndexMap::new();
    for (k, v) in pairs {
        m.insert(k.to_string(), *v);
    }
    Rc::new(m)
}

/// One ingot with a main module (`main`, from a file) and a sub-module
/// (`foo`, a directory).
///
/// main: contract Foo { balance, owner; fn get(self), fn make(), fn __init__; event Transfer }
///       struct Bar { x, y; fn area(self) }
///       const MAX = 10; const BAD = x; type Alias = address; fn helper()
/// foo:  fn inner()
fn sample_db() -> AnalyzerDb {
    let mut db = AnalyzerDb::new();
    let main = ModuleId(0);
    let foo = ModuleId(1);
    let foo_contract = ContractId(0);
    let bar = StructId(0);

    let mut fe_files = BTreeMap::new();
    fe_files.insert(
        7u32,
        (SourceFile { name: "src/main.fe".to_string(), content: String::new() }, ast::Module { body: vec![] }),
    );
    db.intern_ingot(IngotEntry {
        data: Rc::new(Ingot { name: "my_ingot".to_string(), global: GlobalId(0), fe_files }),
        main_module: ok(Some(main)),
        all_modules: Rc::new(vec![main, foo]),
    });

    let main_items = vec![
        ("Foo", Item::Type(TypeDef::Contract(foo_contract))),
        ("Bar", Item::Type(TypeDef::Struct(bar))),
        ("MAX", Item::Constant(ModuleConstantId(0))),
        ("BAD", Item::Constant(ModuleConstantId(1))),
        ("Alias", Item::Type(TypeDef::Alias(TypeAliasId(0)))),
        ("helper", Item::Function(FunctionId(2))),
        ("foo", Item::Module(foo)),
    ];
    db.intern_module(ModuleEntry {
        data: Rc::new(Module {
            name: "main".to_string(),
            context: ModuleContext::Ingot(IngotId(0)),
            file_content: ModuleFileContent::File { file: SourceFileId(7) },
            ast: ast::Module {
                body: vec![
                    ast::ModuleStmt::Pragma(Node::new(
                        ast::Pragma { version_requirement: name("^0.1", 7) },
                        sp(0, 11),
                    )),
                    ast::ModuleStmt::Contract(Node::new(ast::Contract { name: name("Foo", 21) }, sp(12, 200))),
                ],
            },
        }),
        pragma_checks: Rc::new(vec![None, None]),
        item_map: ok(names(&main_items)),
        all_items: Rc::new(vec![
            Item::Type(TypeDef::Contract(foo_contract)),
            Item::Type(TypeDef::Struct(bar)),
            Item::Constant(ModuleConstantId(0)),
            Item::Constant(ModuleConstantId(1)),
            Item::Type(TypeDef::Alias(TypeAliasId(0))),
            Item::Function(FunctionId(2)),
        ]),
        used_item_map: ok(Rc::new(IndexMap::new())),
        sub_modules: names(&[("foo", foo)]),
        adjacent_modules: Rc::new(IndexMap::new()),
        parent_module: None,
        contracts: Rc::new(vec![foo_contract]),
        structs: Rc::new(vec![bar]),
    });
    db.intern_module(ModuleEntry {
        data: Rc::new(Module {
            name: "foo".to_string(),
            context: ModuleContext::Ingot(IngotId(0)),
            file_content: ModuleFileContent::Dir { dir_path: "src/foo".to_string() },
            ast: ast::Module { body: vec![] },
        }),
        pragma_checks: Rc::new(vec![]),
        item_map: ok(names(&[("inner", Item::Function(FunctionId(3)))])),
        all_items: Rc::new(vec![Item::Function(FunctionId(3))]),
        used_item_map: ok(Rc::new(IndexMap::new())),
        sub_modules: Rc::new(IndexMap::new()),
        adjacent_modules: Rc::new(IndexMap::new()),
        parent_module: Some(main),
        contracts: Rc::new(vec![]),
        structs: Rc::new(vec![]),
    });

    db.intern_module_constant(ModuleConstantEntry {
        data: Rc::new(ModuleConstant {
            ast: Node::new(
                ast::ConstantDecl { name: name("MAX", 306), value: Node::new(ast::Expr::Num("10".to_string()), sp(317, 319)) },
                sp(300, 319),
            ),
            module: main,
        }),
        typ: ok(Ok(Type::Base(Base::Numeric(Integer::U256)))),
    });
    db.intern_module_constant(ModuleConstantEntry {
        data: Rc::new(ModuleConstant {
            ast: Node::new(
                ast::ConstantDecl { name: name("BAD", 326), value: Node::new(ast::Expr::Name("x".to_string()), sp(337, 338)) },
                sp(320, 338),
            ),
            module: main,
        }),
        typ: reported(Err(TypeError), vec![error("undefined type", sp(331, 334), "this type is not defined")]),
    });
    db.intern_type_alias(TypeAliasEntry {
        data: Rc::new(TypeAlias { ast: Node::new(ast::TypeAlias { name: name("Alias", 345) }, sp(340, 360)), module: main }),
        typ: ok(Ok(Type::Base(Base::Address))),
    });

    db.intern_contract(ContractEntry {
        data: Rc::new(Contract {
            name: "Foo".to_string(),
            ast: Node::new(ast::Contract { name: name("Foo", 21) }, sp(12, 200)),
            module: main,
        }),
        field_map: ok(names(&[("balance", ContractFieldId(0)), ("owner", ContractFieldId(1))])),
        all_fields: Rc::new(vec![ContractFieldId(0), ContractFieldId(1)]),
        event_map: ok(names(&[("Transfer", EventId(0))])),
        all_events: Rc::new(vec![EventId(0)]),
        init_function: ok(Some(FunctionId(4))),
        function_map: ok(names(&[("get", FunctionId(0)), ("make", FunctionId(1))])),
        public_function_map: names(&[("get", FunctionId(0))]),
        all_functions: Rc::new(vec![FunctionId(0), FunctionId(1), FunctionId(4)]),
        dependency_graph: graph(),
        runtime_dependency_graph: graph(),
    });
    db.intern_contract_field(ContractFieldEntry {
        data: Rc::new(ContractField {
            ast: Node::new(ast::Field { is_pub: false, is_const: false, name: name("balance", 30) }, sp(30, 45)),
            parent: foo_contract,
        }),
        typ: ok(Ok(Type::Base(Base::Numeric(Integer::U256)))),
    });
    db.intern_contract_field(ContractFieldEntry {
        data: Rc::new(ContractField {
            ast: Node::new(ast::Field { is_pub: true, is_const: false, name: name("owner", 50) }, sp(50, 65)),
            parent: foo_contract,
        }),
        typ: ok(Ok(Type::Base(Base::Address))),
    });

    let in_foo = Some(Class::Contract(foo_contract));
    db.intern_function(function("get", 70, main, in_foo, true, true));
    db.intern_function(function("make", 110, main, in_foo, false, false));
    db.intern_function(function("helper", 400, main, None, false, true));
    db.intern_function(function("inner", 500, foo, None, false, false));
    db.intern_function(function("__init__", 150, main, in_foo, false, true));
    db.intern_function(function("area", 250, main, Some(Class::Struct(bar)), true, true));

    db.intern_struct(StructEntry {
        data: Rc::new(Struct { ast: Node::new(ast::Struct { name: name("Bar", 207) }, sp(200, 290)), module: main }),
        typ: Rc::new(types::Struct { id: bar, name: "Bar".to_string(), field_count: 2 }),
        field_map: ok(names(&[("x", StructFieldId(0)), ("y", StructFieldId(1))])),
        all_fields: Rc::new(vec![StructFieldId(0), StructFieldId(1)]),
        function_map: ok(names(&[("area", FunctionId(5))])),
        all_functions: Rc::new(vec![FunctionId(5)]),
        dependency_graph: graph(),
    });
    for (i, f) in ["x", "y"].iter().enumerate() {
        db.intern_struct_field(StructFieldEntry {
            data: Rc::new(StructField {
                ast: Node::new(ast::Field { is_pub: true, is_const: false, name: name(f, 215 + 10 * i) }, sp(215 + 10 * i, 222 + 10 * i)),
                parent: bar,
            }),
            typ: ok(Ok(FixedSize::Base(Base::Numeric(Integer::U8)))),
        });
    }
    db.intern_event(EventEntry {
        data: Rc::new(Event { ast: Node::new(ast::Event { name: name("Transfer", 176) }, sp(170, 195)), contract: foo_contract }),
        typ: ok(Rc::new(types::Event { name: "Transfer".to_string(), fields: vec![] })),
    });
    db
}

#[test]
fn item_names() {
    let db = sample_db();
    assert_eq!(Item::Type(TypeDef::Contract(ContractId(0))).name(&db), "Foo");
    assert_eq!(Item::Function(FunctionId(1)).name(&db), "make");
    assert_eq!(Item::Module(ModuleId(1)).name(&db), "foo");
    assert_eq!(Item::Ingot(IngotId(0)).name(&db), "my_ingot");
    assert_eq!(Item::Constant(ModuleConstantId(0)).name(&db), "MAX");
    assert_eq!(Item::Event(EventId(0)).name(&db), "Transfer");
    assert_eq!(Item::Type(TypeDef::Primitive(Base::Numeric(Integer::U256))).name(&db), "u256");
    assert_eq!(Item::Type(TypeDef::Primitive(Base::Unit)).name(&db), "()");
    assert_eq!(Item::GenericType(GenericType::StorageMap).name(&db), "Map");
    assert_eq!(Item::BuiltinFunction(GlobalFunction::Keccak256).name(&db), "keccak256");
    assert_eq!(Item::Object(GlobalObject::Msg).name(&db), "msg");
}

#[test]
fn item_name_spans() {
    let db = sample_db();
    assert_eq!(Item::Type(TypeDef::Contract(ContractId(0))).name_span(&db), Some(sp(21, 24)));
    assert_eq!(Item::Function(FunctionId(0)).name_span(&db), Some(sp(77, 80)));
    assert_eq!(Item::Module(ModuleId(0)).name_span(&db), None);
    assert_eq!(Item::Type(TypeDef::Primitive(Base::Bool)).name_span(&db), None);
}

#[test]
fn item_kinds_and_builtins() {
    assert_eq!(Item::Type(TypeDef::Struct(StructId(0))).item_kind_display_name(), "type");
    assert_eq!(Item::GenericType(GenericType::Array).item_kind_display_name(), "type");
    assert_eq!(Item::BuiltinFunction(GlobalFunction::Keccak256).item_kind_display_name(), "function");
    assert_eq!(Item::Object(GlobalObject::Block).item_kind_display_name(), "object");
    assert_eq!(Item::Ingot(IngotId(0)).item_kind_display_name(), "ingot");
    assert!(Item::Type(TypeDef::Primitive(Base::Address)).is_builtin());
    assert!(!Item::Type(TypeDef::Struct(StructId(0))).is_builtin());
    assert!(Item::Object(GlobalObject::Tx).is_builtin());
    assert!(!Item::Module(ModuleId(0)).is_builtin());
    assert_eq!(Item::Type(TypeDef::Contract(ContractId(3))).as_contract(), Some(ContractId(3)));
    assert_eq!(Item::Type(TypeDef::Struct(StructId(3))).as_contract(), None);
}

#[test]
fn parents() {
    let db = sample_db();
    assert_eq!(Item::Function(FunctionId(0)).parent(&db), Some(Item::Type(TypeDef::Contract(ContractId(0)))));
    assert_eq!(Item::Function(FunctionId(2)).parent(&db), Some(Item::Module(ModuleId(0))));
    assert_eq!(Item::Function(FunctionId(5)).parent(&db), Some(Item::Type(TypeDef::Struct(StructId(0)))));
    assert_eq!(Item::Module(ModuleId(1)).parent(&db), Some(Item::Module(ModuleId(0))));
    assert_eq!(Item::Module(ModuleId(0)).parent(&db), Some(Item::Ingot(IngotId(0))));
    assert_eq!(Item::Event(EventId(0)).parent(&db), Some(Item::Type(TypeDef::Contract(ContractId(0)))));
    assert_eq!(Item::Ingot(IngotId(0)).parent(&db), None);
    assert_eq!(Item::Type(TypeDef::Primitive(Base::Bool)).parent(&db), None);
    assert_eq!(ModuleId(1).parent_module(&db), Some(ModuleId(0)));
    assert_eq!(EventId(0).module(&db), ModuleId(0));
    assert_eq!(FunctionId(0).class(&db), Some(Class::Contract(ContractId(0))));
    assert_eq!(FunctionId(3).module(&db), ModuleId(1));
}

#[test]
fn paths() {
    let db = sample_db();
    assert_eq!(*Item::Function(FunctionId(0)).path(&db), vec!["main", "Foo", "get"]);
    assert_eq!(*Item::Function(FunctionId(3)).path(&db), vec!["main", "foo", "inner"]);
    assert_eq!(*Item::Module(ModuleId(0)).path(&db), vec!["main"]);
    assert_eq!(*Item::Event(EventId(0)).path(&db), vec!["main", "Foo", "Transfer"]);
    assert_eq!(*Item::Type(TypeDef::Primitive(Base::Bool)).path(&db), vec!["bool"]);
    assert_eq!(*Item::Ingot(IngotId(0)).path(&db), vec!["my_ingot"]);
}

#[test]
fn path_extends_parent_path() {
    let db = sample_db();
    let item = Item::Function(FunctionId(5));
    let parent = item.parent(&db).unwrap();
    let mut expected = (*parent.path(&db)).clone();
    expected.push(item.name(&db));
    assert_eq!(*item.path(&db), expected);
}

fn path_of(segments: &[(&str, usize)]) -> ast::Path {
    ast::Path { segments: segments.iter().map(|(s, at)| name(s, *at)).collect() }
}

#[test]
fn resolve_paths() {
    let db = sample_db();
    let main = Item::Module(ModuleId(0));
    let found = main.resolve_path(&db, &path_of(&[("foo", 4), ("inner", 9)]));
    assert_eq!(found.value, Some(Item::Function(FunctionId(3))));
    assert!(found.diagnostics.is_empty());

    let empty = main.resolve_path(&db, &path_of(&[]));
    assert_eq!(empty.value, Some(main));
    assert!(empty.diagnostics.is_empty());

    let missing = main.resolve_path(&db, &path_of(&[("foo", 4), ("nope", 9), ("more", 15)]));
    assert_eq!(missing.value, None);
    assert_eq!(missing.diagnostics.len(), 1);
    let d = &missing.diagnostics[0];
    assert_eq!(d.severity, Severity::Error);
    assert_eq!(d.message, "unresolved path item");
    assert_eq!(d.labels.len(), 1);
    assert_eq!(d.labels[0].span, sp(9, 13));
    assert_eq!(d.labels[0].message, "not found");

    // A function has no members.
    let from_function = Item::Function(FunctionId(2)).resolve_path(&db, &path_of(&[("x", 0)]));
    assert_eq!(from_function.value, None);
}

#[test]
fn resolve_path_single_segment_agrees_with_resolve_name() {
    let db = sample_db();
    for n in ["Foo", "Bar", "helper", "missing"] {
        let by_path = Item::Module(ModuleId(0)).resolve_path(&db, &path_of(&[(n, 0)])).value;
        assert_eq!(by_path, ModuleId(0).resolve_name(&db, n));
    }
}

#[test]
fn module_queries() {
    let db = sample_db();
    let main = ModuleId(0);
    assert_eq!(main.name(&db), "main");
    assert_eq!(main.resolve_name(&db, "Bar"), Some(Item::Type(TypeDef::Struct(StructId(0)))));
    assert_eq!(main.resolve_name(&db, "inner"), None);
    assert_eq!(main.context(&db), ModuleContext::Ingot(IngotId(0)));
    assert_eq!(main.file_content(&db), ModuleFileContent::File { file: SourceFileId(7) });
    assert_eq!(main.items(&db).len(), 7);
    assert_eq!(main.all_items(&db).len(), 6);
    assert_eq!(*main.all_contracts(&db), vec![ContractId(0)]);
    assert_eq!(*main.all_structs(&db), vec![StructId(0)]);
    assert_eq!(main.sub_modules(&db).get("foo"), Some(&ModuleId(1)));
    assert_eq!(main.ast(&db), db.modules[0].data.ast);
    assert_eq!(main.data(&db).name, "main");
    assert_eq!(main.ingot_path(&db), "src/main.fe");
    assert_eq!(ModuleId(1).ingot_path(&db), "src/foo");
}

#[test]
fn ingot_queries() {
    let db = sample_db();
    assert_eq!(IngotId(0).name(&db), "my_ingot");
    assert_eq!(IngotId(0).main_module(&db), Some(ModuleId(0)));
    assert_eq!(*IngotId(0).all_modules(&db), vec![ModuleId(0), ModuleId(1)]);
}

#[test]
fn constant_queries() {
    let db = sample_db();
    let max = ModuleConstantId(0);
    assert_eq!(max.name(&db), "MAX");
    assert_eq!(max.typ(&db), Ok(Type::Base(Base::Numeric(Integer::U256))));
    assert!(max.is_base_type(&db));
    assert!(!ModuleConstantId(1).is_base_type(&db));
    assert_eq!(max.value(&db), ast::Expr::Num("10".to_string()));
    assert_eq!(max.parent(&db), Item::Module(ModuleId(0)));
    assert_eq!(max.span(&db), sp(300, 319));
    assert_eq!(max.name_span(&db), sp(306, 309));
}

#[test]
fn type_defs() {
    let db = sample_db();
    assert_eq!(
        TypeDef::Struct(StructId(0)).typ(&db),
        Ok(Type::Struct(types::Struct { id: StructId(0), name: "Bar".to_string(), field_count: 2 }))
    );
    assert_eq!(
        TypeDef::Contract(ContractId(0)).typ(&db),
        Ok(Type::Contract(types::Contract { name: "Foo".to_string(), id: ContractId(0) }))
    );
    assert_eq!(TypeDef::Alias(TypeAliasId(0)).typ(&db), Ok(Type::Base(Base::Address)));
    assert_eq!(TypeDef::Primitive(Base::Bool).typ(&db), Ok(Type::Base(Base::Bool)));
    assert_eq!(TypeDef::Alias(TypeAliasId(0)).name(&db), "Alias");
    assert_eq!(TypeDef::Primitive(Base::Numeric(Integer::I8)).name(&db), "i8");
    assert_eq!(TypeDef::Struct(StructId(0)).parent(&db), Some(Item::Module(ModuleId(0))));
    assert_eq!(TypeDef::Primitive(Base::Bool).parent(&db), None);
    assert_eq!(TypeAliasId(0).parent(&db), Item::Module(ModuleId(0)));
}

#[test]
fn contract_queries() {
    let db = sample_db();
    let foo = ContractId(0);
    assert_eq!(foo.name(&db), "Foo");
    assert_eq!(foo.module(&db), ModuleId(0));
    assert_eq!(foo.parent(&db), Item::Module(ModuleId(0)));
    assert_eq!(foo.field_type(&db, "owner"), Some((Ok(Type::Base(Base::Address)), 1)));
    assert_eq!(foo.field_type(&db, "balance"), Some((Ok(Type::Base(Base::Numeric(Integer::U256))), 0)));
    assert_eq!(foo.field_type(&db, "nothing"), None);
    assert_eq!(foo.init_function(&db), Some(FunctionId(4)));
    assert_eq!(foo.function(&db, "get"), Some(FunctionId(0)));
    assert_eq!(foo.function(&db, "__init__"), None);
    assert_eq!(foo.self_function(&db, "get"), Some(FunctionId(0)));
    assert_eq!(foo.self_function(&db, "make"), None);
    assert_eq!(foo.event(&db, "Transfer"), Some(EventId(0)));
    assert_eq!(foo.event(&db, "get"), None);
    assert_eq!(foo.public_functions(&db).len(), 1);
    assert_eq!(foo.events(&db).len(), 1);
    assert_eq!(foo.fields(&db).len(), 2);
}

#[test]
fn contract_resolve_name() {
    let db = sample_db();
    let foo = ContractId(0);
    // a function that does not take self
    assert_eq!(foo.resolve_name(&db, "make"), Some(Item::Function(FunctionId(1))));
    // a function that takes self is skipped
    assert_eq!(foo.resolve_name(&db, "get"), None);
    // an event
    assert_eq!(foo.resolve_name(&db, "Transfer"), Some(Item::Event(EventId(0))));
    // falls back to the module
    assert_eq!(foo.resolve_name(&db, "Bar"), Some(Item::Type(TypeDef::Struct(StructId(0)))));
    assert_eq!(foo.resolve_name(&db, "helper"), Some(Item::Function(FunctionId(2))));
    assert_eq!(foo.resolve_name(&db, "unknown"), None);
}

#[test]
fn function_queries() {
    let db = sample_db();
    let get = FunctionId(0);
    assert!(get.takes_self(&db));
    assert!(!FunctionId(1).takes_self(&db));
    assert_eq!(get.self_span(&db), Some(sp(93, 97)));
    assert_eq!(FunctionId(1).self_span(&db), None);
    assert!(get.is_public(&db));
    assert!(!FunctionId(1).is_public(&db));
    assert_eq!(get.pub_span(&db), Some(sp(70, 73)));
    assert_eq!(get.unsafe_span(&db), None);
    assert!(FunctionId(4).is_constructor(&db));
    assert!(!get.is_constructor(&db));
    assert_eq!(get.signature(&db).self_decl, Some(SelfDecl::Mutable));
    assert!(get.body(&db).emits.is_empty());
    assert_eq!(get.span(&db), sp(70, 110));
}

#[test]
fn class_queries() {
    let db = sample_db();
    let c = Class::Contract(ContractId(0));
    let s = Class::Struct(StructId(0));
    assert_eq!(c.kind(), "contract");
    assert_eq!(s.kind(), "struct");
    assert_eq!(c.name(&db), "Foo");
    assert_eq!(s.name(&db), "Bar");
    assert_eq!(c.function(&db, "make"), Some(FunctionId(1)));
    assert_eq!(c.self_function(&db, "make"), None);
    assert_eq!(s.self_function(&db, "area"), Some(FunctionId(5)));
    assert_eq!(s.as_item(), Item::Type(TypeDef::Struct(StructId(0))));
    assert_eq!(c.as_item(), Item::Type(TypeDef::Contract(ContractId(0))));
}

#[test]
fn struct_queries() {
    let db = sample_db();
    let bar = StructId(0);
    assert_eq!(bar.name(&db), "Bar");
    assert_eq!(bar.field(&db, "y"), Some(StructFieldId(1)));
    assert_eq!(bar.field(&db, "z"), None);
    assert_eq!(bar.field_type(&db, "x"), Some(Ok(FixedSize::Base(Base::Numeric(Integer::U8)))));
    assert_eq!(bar.field_type(&db, "z"), None);
    assert_eq!(bar.function(&db, "area"), Some(FunctionId(5)));
    assert_eq!(bar.self_function(&db, "area"), Some(FunctionId(5)));
    assert_eq!(bar.typ(&db).field_count, 2);
    assert_eq!(bar.module(&db), ModuleId(0));
    assert_eq!(StructFieldId(1).name(&db), "y");
    assert_eq!(ContractFieldId(1).name(&db), "owner");
    assert_eq!(ContractFieldId(1).typ(&db), Ok(Type::Base(Base::Address)));
    assert_eq!(EventId(0).typ(&db).name, "Transfer");
}

#[test]
fn module_diagnostics() {
    let db = sample_db();
    let diags = ModuleId(0).diagnostics(&db);
    assert_eq!(diags.len(), 2);
    assert_eq!(diags[0].message, "undefined type");
    assert_eq!(diags[1].message, "non-literal expressions not yet supported for constants");
    assert_eq!(diags[1].labels[0].span, sp(337, 338));
    assert_eq!(diags[1].labels[0].message, "not a literal");
    assert!(ModuleId(1).diagnostics(&db).is_empty());
    assert_eq!(IngotId(0).diagnostics(&db).len(), 2);
}

#[test]
fn sink_collects_in_order() {
    let db = sample_db();
    let mut sink: Vec<Diagnostic> = vec![error("first", sp(0, 1), "here")];
    Item::Constant(ModuleConstantId(1)).sink_diagnostics(&db, &mut sink);
    assert_eq!(sink.len(), 3);
    assert_eq!(sink[0].message, "first");
    assert_eq!(sink[1].message, "undefined type");
    assert_eq!(sink[2].message, "non-literal expressions not yet supported for constants");
    let mut other: Vec<Diagnostic> = vec![];
    DiagnosticSink::push_all(&mut other, &sink);
    assert_eq!(other, sink);
}

#[test]
fn global_default_is_empty() {
    assert_eq!(fe_items::items::Global::default(), fe_items::items::Global::new());
}

#[test]
fn builtins_have_no_parent() {
    let db = sample_db();
    for item in [
        Item::Type(TypeDef::Primitive(Base::Numeric(Integer::U8))),
        Item::GenericType(GenericType::String),
        Item::BuiltinFunction(GlobalFunction::Keccak256),
        Item::Object(GlobalObject::Chain),
        Item::Ingot(IngotId(0)),
    ] {
        assert_eq!(item.parent(&db), None);
        assert_eq!(*item.path(&db), vec![item.name(&db)]);
    }
}

#[test]
fn resolve_path_in_two_steps() {
    let db = sample_db();
    let main = Item::Module(ModuleId(0));
    let whole = main.resolve_path(&db, &path_of(&[("foo", 0), ("inner", 4)])).value;
    let first = main.resolve_path(&db, &path_of(&[("foo", 0)])).value.unwrap();
    let second = first.resolve_path(&db, &path_of(&[("inner", 4)])).value;
    assert_eq!(whole, second);
}

#[test]
fn items_of_items() {
    let db = sample_db();
    assert_eq!(Item::Module(ModuleId(1)).items(&db).get("inner"), Some(&Item::Function(FunctionId(3))));
    assert!(Item::Function(FunctionId(0)).items(&db).is_empty());
    assert!(Item::Object(GlobalObject::Msg).items(&db).is_empty());
}

#[test]
fn dependency_graphs_of_items() {
    let db = sample_db();
    assert!(Item::Type(TypeDef::Contract(ContractId(0))).dependency_graph(&db).is_some());
    assert!(Item::Type(TypeDef::Struct(StructId(0))).dependency_graph(&db).is_some());
    assert!(Item::Function(FunctionId(1)).dependency_graph(&db).is_some());
    assert!(Item::Module(ModuleId(0)).dependency_graph(&db).is_none());
    assert_eq!(ContractId(0).runtime_dependency_graph(&db).node_count(), 0);
}

#[test]
fn ast_copies_keep_every_statement() {
    let db = sample_db();
    let module_ast = ModuleId(0).ast(&db);
    assert_eq!(module_ast.body.len(), 2);
    assert_eq!(module_ast, db.modules[0].data.ast);
    assert_eq!(ModuleConstantId(1).value(&db), ast::Expr::Name("x".to_string()));
}

fn version_error(start: usize) -> Diagnostic {
    error("The current compiler version does not satisfy the pragma", sp(start, start + 4), "incompatible version")
}

#[test]
fn pragma_checks_come_first() {
    let mut db = sample_db();
    db.modules[0].pragma_checks = Rc::new(vec![Some(version_error(7)), None]);
    let diags = ModuleId(0).diagnostics(&db);
    assert_eq!(diags.len(), 3);
    assert_eq!(diags[0], version_error(7));
    assert_eq!(diags[1].message, "undefined type");
    assert_eq!(diags[2].message, "non-literal expressions not yet supported for constants");
}

#[test]
fn only_pragma_statements_are_checked() {
    let mut db = sample_db();
    // The second statement is a contract: what is stored for it is ignored.
    db.modules[0].pragma_checks = Rc::new(vec![None, Some(version_error(21))]);
    let diags = ModuleId(0).diagnostics(&db);
    assert_eq!(diags.len(), 2);
    assert_eq!(diags[0].message, "undefined type");
}

#[test]
fn pragma_checks_in_statement_order() {
    let mut db = sample_db();
    let module = Rc::new(Module {
        name: "main".to_string(),
        context: ModuleContext::Ingot(IngotId(0)),
        file_content: ModuleFileContent::File { file: SourceFileId(7) },
        ast: ast::Module {
            body: vec![
                ast::ModuleStmt::Pragma(Node::new(ast::Pragma { version_requirement: name("^0.1", 7) }, sp(0, 11))),
                ast::ModuleStmt::Contract(Node::new(ast::Contract { name: name("Foo", 21) }, sp(12, 200))),
                ast::ModuleStmt::Pragma(Node::new(ast::Pragma { version_requirement: name("^9.0", 207) }, sp(200, 211))),
            ],
        },
    });
    db.modules[0].data = module;
    db.modules[0].pragma_checks = Rc::new(vec![Some(version_error(7)), None, Some(version_error(207))]);
    let mut sink: Vec<Diagnostic> = vec![];
    ModuleId(0).sink_diagnostics(&db, &mut sink);
    assert_eq!(sink.len(), 4);
    assert_eq!(sink[0], version_error(7));
    assert_eq!(sink[1], version_error(207));
    assert_eq!(sink[2].message, "undefined type");
}

#[test]
fn nested_module_diagnostics() {
    let mut db = sample_db();
    let mut items = (*db.modules[0].all_items).clone();
    items.push(Item::Module(ModuleId(1)));
    db.modules[0].all_items = Rc::new(items);
    db.modules[1].item_map = reported(
        names(&[("inner", Item::Function(FunctionId(3)))]),
        vec![error("duplicate name", sp(500, 505), "defined again here")],
    );
    let diags = ModuleId(0).diagnostics(&db);
    assert_eq!(diags.len(), 3);
    assert_eq!(diags[2].message, "duplicate name");
    assert_eq!(item_sunk(&db, Item::Module(ModuleId(0))), diags);
    // The ingot lists both modules, so the nested one reports twice.
    assert_eq!(IngotId(0).diagnostics(&db).len(), 4);
}

fn item_sunk(db: &AnalyzerDb, item: Item) -> Vec<Diagnostic> {
    let mut sink: Vec<Diagnostic> = vec![];
    item.sink_diagnostics(db, &mut sink);
    sink
}

fn constant_sunk(db: &AnalyzerDb, c: ModuleConstantId) -> Vec<Diagnostic> {
    let mut sink: Vec<Diagnostic> = vec![];
    c.sink_diagnostics(db, &mut sink);
    sink
}

#[test]
fn item_diagnostics_delegate_to_the_id() {
    let db = sample_db();
    assert_eq!(item_sunk(&db, Item::Constant(ModuleConstantId(1))), constant_sunk(&db, ModuleConstantId(1)));
    assert_eq!(item_sunk(&db, Item::Module(ModuleId(0))), ModuleId(0).diagnostics(&db));
    assert_eq!(item_sunk(&db, Item::Ingot(IngotId(0))), IngotId(0).diagnostics(&db));
    assert!(item_sunk(&db, Item::Type(TypeDef::Primitive(Base::Bool))).is_empty());
    assert!(item_sunk(&db, Item::Object(GlobalObject::Msg)).is_empty());
}

fn constant_with_value(value: ast::Expr) -> ModuleConstantEntry {
    ModuleConstantEntry {
        data: Rc::new(ModuleConstant {
            ast: Node::new(
                ast::ConstantDecl { name: name("C", 306), value: Node::new(value, sp(310, 312)) },
                sp(300, 312),
            ),
            module: ModuleId(0),
        }),
        typ: ok(Ok(Type::Base(Base::Unit))),
    }
}

#[test]
fn unit_constant_is_a_literal() {
    let mut db = sample_db();
    db.module_constants[0] = constant_with_value(ast::Expr::Unit);
    assert!(constant_sunk(&db, ModuleConstantId(0)).is_empty());
    db.module_constants[0] = constant_with_value(ast::Expr::Bool(true));
    assert!(constant_sunk(&db, ModuleConstantId(0)).is_empty());
    db.module_constants[0] = constant_with_value(ast::Expr::Str("hi".to_string()));
    assert!(constant_sunk(&db, ModuleConstantId(0)).is_empty());
}

#[test]
fn empty_tuple_constant_is_not_a_literal() {
    let mut db = sample_db();
    db.module_constants[0] = constant_with_value(ast::Expr::Tuple { elts: vec![] });
    let diags = constant_sunk(&db, ModuleConstantId(0));
    assert_eq!(diags.len(), 1);
    assert_eq!(diags[0].message, "non-literal expressions not yet supported for constants");
    assert_eq!(diags[0].labels[0].span, sp(310, 312));
}

#[test]
fn contract_function_maps_are_consistent() {
    let db = sample_db();
    let foo = ContractId(0);
    let functions = foo.functions(&db);
    assert!(!functions.contains_key("__init__"));
    assert_eq!(foo.function(&db, "__init__"), None);
    for (k, f) in foo.public_functions(&db).iter() {
        assert_eq!(functions.get(k), Some(f));
        assert!(f.is_public(&db));
    }
    let init = foo.init_function(&db).unwrap();
    assert!(functions.values().all(|f| *f != init));
    for e in foo.events(&db).values() {
        assert_eq!(e.data(&db).contract, foo);
        assert_eq!(e.parent(&db), Item::Type(TypeDef::Contract(foo)));
    }
}

#[test]
fn module_diagnostics_are_each_items_own() {
    let mut db = sample_db();
    db.modules[0].pragma_checks = Rc::new(vec![Some(version_error(7)), None]);
    db.modules[0].item_map = reported(names(&[("Foo", Item::Type(TypeDef::Contract(ContractId(0))))]), vec![error("duplicate name", sp(21, 24), "defined again here")]);
    let mut expected: Vec<Diagnostic> = vec![version_error(7), error("duplicate name", sp(21, 24), "defined again here")];
    for item in db.modules[0].all_items.iter() {
        expected.extend(item_sunk(&db, *item));
    }
    assert_eq!(ModuleId(0).diagnostics(&db), expected);
    let mut by_module: Vec<Diagnostic> = vec![];
    for m in IngotId(0).all_modules(&db).iter() {
        by_module.extend(m.diagnostics(&db));
    }
    assert_eq!(IngotId(0).diagnostics(&db), by_module);
}
