//! Named items and the ids under which their data is interned.

use vstd::prelude::*;
use std::collections::BTreeMap;
use std::rc::Rc;
use indexmap::IndexMap;
use crate::ast;
use crate::ast::Span;
use crate::builtins::{
    global_function_name, global_object_name, GlobalFunction, GlobalObject, ValueMethod,
};
use crate::context::{Analysis, FunctionBody};
use crate::db::{lemma_parent_depth, AnalyzerDb};
use crate::deps::DepGraph;
use crate::diagnostics::{
    diagnostics_view, error, error_view, is_error_diagnostic, lemma_error_view, Diagnostic,
    DiagnosticView,
};
use crate::sink::DiagnosticSink;
use crate::files::{SourceFile, SourceFileId};
use crate::index_map::{
    contract_field_map_entries, contract_field_map_get_full, event_map_entries, event_map_get,
    function_map_entries, function_map_get, index_of_key, item_map_entries, item_map_get,
    item_map_new, keys_distinct, lemma_index_of_key, lookup, rc_clone, struct_field_map_entries,
    struct_field_map_get, struct_field_map_len,
};
use crate::types::{base_name, generic_type_name, Base, FixedSize, FunctionSignature, GenericType, Type, TypeError};
use crate::types;

verus! {

/// A named item. This does not include things inside of
/// a function body.
#[derive(Debug, PartialEq, Eq, Structural, Hash, PartialOrd, Ord, Clone, Copy)]
pub enum Item {
    Ingot(IngotId),
    Module(ModuleId),
    Type(TypeDef),
    // GenericType probably shouldn't be a separate category.
    // Any of the items inside TypeDef (struct, alias, etc)
    // could be optionally generic.
    GenericType(GenericType),
    // Events aren't normal types; they *could* be moved into
    // TypeDef, but it would have consequences.
    Event(EventId),
    Function(FunctionId),
    Constant(ModuleConstantId),
    // Needed until we can represent keccak256 as a FunctionId.
    // We can't represent keccak256's arg type yet.
    BuiltinFunction(GlobalFunction),
    // The globals (block, msg, etc).
    Object(GlobalObject),
}

/// The root of everything: the ingots by name.
#[derive(Debug, PartialEq, Eq, Hash, Clone)]
pub struct Global {
    ingots: BTreeMap<String, IngotId>,
}

impl Global {
    /// A global with no ingots.
    pub fn new() -> (g: Global)
        ensures
            g.ingot_map() == Map::<String, IngotId>::empty(),
    {
        Global { ingots: BTreeMap::new() }
    }

    pub closed spec fn ingot_map(&self) -> Map<String, IngotId> {
        self.ingots@
    }
}

impl Default for Global {
    fn default() -> (g: Global)
        ensures
            g.ingot_map() == Map::<String, IngotId>::empty(),
    {
        Global::new()
    }
}

#[derive(Debug, PartialEq, Eq, Structural, Hash, Copy, Clone)]
pub struct GlobalId(pub u32);

/// An ingot: a named collection of source files.
#[derive(Debug, PartialEq, Eq, Hash)]
pub struct Ingot {
    pub name: String,
    pub global: GlobalId,
    /// The files of the ingot, keyed by the number of their `SourceFileId`.
    pub fe_files: BTreeMap<u32, (SourceFile, ast::Module)>,
}

#[derive(Debug, PartialEq, Eq, Structural, PartialOrd, Ord, Hash, Copy, Clone)]
pub struct IngotId(pub u32);

/// Where a module's source comes from: a directory or a file.
#[derive(Debug, PartialEq, Eq, Hash, Clone)]
pub enum ModuleFileContent {
    Dir { dir_path: String },
    File { file: SourceFileId },
}

/// What a module belongs to.
#[derive(Debug, PartialEq, Eq, Structural, Hash, Clone, Copy)]
pub enum ModuleContext {
    Ingot(IngotId),
    Global(GlobalId),
}

#[derive(Debug, PartialEq, Eq, Hash)]
pub struct Module {
    pub name: String,
    pub context: ModuleContext,
    pub file_content: ModuleFileContent,
    pub ast: ast::Module,
}

#[derive(Debug, PartialEq, Eq, Structural, PartialOrd, Ord, Hash, Copy, Clone)]
pub struct ModuleId(pub u32);

#[derive(Debug, PartialEq, Eq, Hash)]
pub struct ModuleConstant {
    pub ast: ast::Node<ast::ConstantDecl>,
    pub module: ModuleId,
}

#[derive(Debug, PartialEq, Eq, Structural, PartialOrd, Ord, Hash, Copy, Clone)]
pub struct ModuleConstantId(pub u32);

#[derive(Debug, PartialEq, Eq, Structural, PartialOrd, Ord, Hash, Copy, Clone)]
pub enum TypeDef {
    Alias(TypeAliasId),
    Struct(StructId),
    Contract(ContractId),
    Primitive(Base),
}

#[derive(Debug, PartialEq, Eq, Hash, Clone)]
pub struct TypeAlias {
    pub ast: ast::Node<ast::TypeAlias>,
    pub module: ModuleId,
}

#[derive(Debug, PartialEq, Eq, Structural, PartialOrd, Ord, Hash, Copy, Clone)]
pub struct TypeAliasId(pub u32);

#[derive(Debug, PartialEq, Eq, Hash, Clone)]
pub struct Contract {
    pub name: String,
    pub ast: ast::Node<ast::Contract>,
    pub module: ModuleId,
}

#[derive(Debug, PartialEq, Eq, Structural, PartialOrd, Ord, Hash, Copy, Clone)]
pub struct ContractId(pub u32);

#[derive(Debug, PartialEq, Eq, Hash, Clone)]
pub struct ContractField {
    pub ast: ast::Node<ast::Field>,
    pub parent: ContractId,
}

#[derive(Debug, PartialEq, Eq, Structural, PartialOrd, Ord, Hash, Copy, Clone)]
pub struct ContractFieldId(pub u32);

#[derive(Debug, PartialEq, Eq, Hash, Clone)]
pub struct Function {
    pub ast: ast::Node<ast::Function>,
    pub module: ModuleId,
    pub parent: Option<Class>,
}

#[derive(Debug, PartialEq, Eq, Structural, PartialOrd, Ord, Hash, Copy, Clone)]
pub struct FunctionId(pub u32);

/// A `Class` is an item that can have member functions.
#[derive(Debug, PartialEq, Eq, Structural, Hash, Clone, Copy)]
pub enum Class {
    Contract(ContractId),
    Struct(StructId),
}

#[derive(Debug, PartialEq, Eq, Structural, Hash, Clone, Copy)]
pub enum MemberFunction {
    BuiltIn(ValueMethod),
    Function(FunctionId),
}

#[derive(Debug, PartialEq, Eq, Hash, Clone)]
pub struct Struct {
    pub ast: ast::Node<ast::Struct>,
    pub module: ModuleId,
}

#[derive(Default, Debug, PartialEq, Eq, Structural, PartialOrd, Ord, Hash, Copy, Clone)]
pub struct StructId(pub u32);

#[derive(Debug, PartialEq, Eq, Hash, Clone)]
pub struct StructField {
    pub ast: ast::Node<ast::Field>,
    pub parent: StructId,
}

#[derive(Debug, PartialEq, Eq, Structural, PartialOrd, Ord, Hash, Copy, Clone)]
pub struct StructFieldId(pub u32);

#[derive(Debug, PartialEq, Eq, Hash, Clone)]
pub struct Event {
    pub ast: ast::Node<ast::Event>,
    pub contract: ContractId,
}

#[derive(Debug, PartialEq, Eq, Structural, PartialOrd, Ord, Hash, Copy, Clone)]
pub struct EventId(pub u32);

/// Dependency graph edge label. "Locality" refers to the deployed state;
/// `Local` dependencies are those that will be compiled together, while
/// `External` dependencies will only be reachable via an evm CALL* op.
#[derive(Debug, Clone, Copy, PartialEq, Eq, Structural, Hash, PartialOrd, Ord)]
pub enum DepLocality {
    Local,
    External,
}

// ---------------------------------------------------------------------------
// What the database says of items.

pub open spec fn type_def_name(db: &AnalyzerDb, t: TypeDef) -> Seq<char> {
    match t {
        TypeDef::Alias(id) => db.type_alias(id).data.ast.kind.name.kind@,
        TypeDef::Struct(id) => db.struct_entry(id).data.ast.kind.name.kind@,
        TypeDef::Contract(id) => db.contract(id).data.ast.kind.name.kind@,
        TypeDef::Primitive(b) => base_name(b),
    }
}

/// The name of an item.
pub open spec fn item_name(db: &AnalyzerDb, item: Item) -> Seq<char> {
    match item {
        Item::Type(t) => type_def_name(db, t),
        Item::GenericType(g) => generic_type_name(g),
        Item::Event(id) => db.event(id).data.ast.kind.name.kind@,
        Item::Function(id) => db.function(id).data.ast.kind.name.kind@,
        Item::BuiltinFunction(f) => global_function_name(f),
        Item::Object(o) => global_object_name(o),
        Item::Constant(id) => db.module_constant(id).data.ast.kind.name.kind@,
        Item::Ingot(id) => db.ingot(id).data.name@,
        Item::Module(id) => db.module(id).data.name@,
    }
}

pub open spec fn class_item(c: Class) -> Item {
    match c {
        Class::Contract(id) => Item::Type(TypeDef::Contract(id)),
        Class::Struct(id) => Item::Type(TypeDef::Struct(id)),
    }
}

/// The parent of a module: its parent module, else the ingot it belongs to.
pub open spec fn module_parent(db: &AnalyzerDb, m: ModuleId) -> Option<Item> {
    match db.module(m).parent_module {
        Some(p) => Some(Item::Module(p)),
        None => match db.module(m).data.context {
            ModuleContext::Ingot(i) => Some(Item::Ingot(i)),
            ModuleContext::Global(_) => None,
        },
    }
}

/// The parent of a function: its class, else its module.
pub open spec fn function_parent(db: &AnalyzerDb, f: FunctionId) -> Item {
    match db.function(f).data.parent {
        Some(c) => class_item(c),
        None => Item::Module(db.function(f).data.module),
    }
}

pub open spec fn type_def_parent(db: &AnalyzerDb, t: TypeDef) -> Option<Item> {
    match t {
        TypeDef::Alias(id) => Some(Item::Module(db.type_alias(id).data.module)),
        TypeDef::Struct(id) => Some(Item::Module(db.struct_entry(id).data.module)),
        TypeDef::Contract(id) => Some(Item::Module(db.contract(id).data.module)),
        TypeDef::Primitive(_) => None,
    }
}

/// The item that an item is declared in, if any.
pub open spec fn item_parent(db: &AnalyzerDb, item: Item) -> Option<Item> {
    match item {
        Item::Type(t) => type_def_parent(db, t),
        Item::GenericType(_) => None,
        Item::Event(id) => Some(Item::Type(TypeDef::Contract(db.event(id).data.contract))),
        Item::Function(id) => Some(function_parent(db, id)),
        Item::BuiltinFunction(_) => None,
        Item::Object(_) => None,
        Item::Constant(id) => Some(Item::Module(db.module_constant(id).data.module)),
        Item::Ingot(_) => None,
        Item::Module(id) => module_parent(db, id),
    }
}

/// A measure that decreases from an item to its parent.
pub open spec fn item_rank(db: &AnalyzerDb, item: Item) -> nat {
    let n = db.modules@.len();
    match item {
        Item::Module(m) => db.depth(m),
        Item::Type(TypeDef::Primitive(_)) => 0,
        Item::Type(_) => n + 1,
        Item::Constant(_) => n + 1,
        Item::Function(f) => if db.function(f).data.parent is Some {
            n + 2
        } else {
            n + 1
        },
        Item::Event(_) => n + 2,
        _ => 0,
    }
}

pub proof fn lemma_parent_rank(db: &AnalyzerDb, item: Item)
    requires
        db.wf(),
        db.has_item(item),
    ensures
        item_parent(db, item) matches Some(p) ==> db.has_item(p) && (p !is Ingot ==> item_rank(
            db,
            p,
        ) < item_rank(db, item)),
{
    let n = db.modules@.len();
    match item {
        Item::Module(m) => {
            lemma_parent_depth(db, m);
            assert(db.module_wf(db.modules@[m.0 as int]));
        },
        Item::Type(TypeDef::Alias(id)) => {
            assert(db.has_module(db.type_aliases@[id.0 as int].data.module));
            lemma_parent_depth(db, db.type_alias(id).data.module);
        },
        Item::Type(TypeDef::Struct(id)) => {
            assert(db.struct_wf(db.structs@[id.0 as int]));
            lemma_parent_depth(db, db.struct_entry(id).data.module);
        },
        Item::Type(TypeDef::Contract(id)) => {
            assert(db.contract_wf(db.contracts@[id.0 as int]));
            lemma_parent_depth(db, db.contract(id).data.module);
        },
        Item::Constant(id) => {
            assert(db.has_module(db.module_constants@[id.0 as int].data.module));
            lemma_parent_depth(db, db.module_constant(id).data.module);
        },
        Item::Function(id) => {
            assert(db.has_module(db.functions@[id.0 as int].data.module));
            lemma_parent_depth(db, db.function(id).data.module);
        },
        Item::Event(id) => {
            assert(db.has_contract(db.events@[id.0 as int].data.contract));
        },
        _ => {},
    }
}

/// The path of an item: the names from its outermost enclosing item down to
/// its own, leaving out the ingot.
pub open spec fn item_path(db: &AnalyzerDb, item: Item) -> Seq<Seq<char>>
    decreases item_rank(db, item),
{
    if db.wf() && db.has_item(item) {
        match item_parent(db, item) {
            Some(Item::Ingot(_)) | None => seq![item_name(db, item)],
            Some(p) => {
                proof {
                    lemma_parent_rank(db, item);
                }
                item_path(db, p).push(item_name(db, item))
            },
        }
    } else {
        seq![]
    }
}

// ---------------------------------------------------------------------------
// Items.

impl Item {
    pub fn name(&self, db: &AnalyzerDb) -> (s: String)
        requires
            db.wf(),
            db.has_item(*self),
        ensures
            s@ == item_name(db, *self),
    {
        match self {
            Item::Type(id) => id.name(db),
            Item::GenericType(id) => id.name().to_owned(),
            Item::Event(id) => id.name(db),
            Item::Function(id) => id.name(db),
            Item::BuiltinFunction(id) => id.as_str().to_owned(),
            Item::Object(id) => id.as_str().to_owned(),
            Item::Constant(id) => id.name(db),
            Item::Ingot(id) => id.name(db),
            Item::Module(id) => id.name(db),
        }
    }

    pub fn name_span(&self, db: &AnalyzerDb) -> (s: Option<Span>)
        requires
            db.wf(),
            db.has_item(*self),
        ensures
            s == match *self {
                Item::Type(t) => type_def_name_span(db, t),
                Item::Event(id) => Some(db.event(id).data.ast.kind.name.span),
                Item::Function(id) => Some(db.function(id).data.ast.kind.name.span),
                Item::Constant(id) => Some(db.module_constant(id).data.ast.kind.name.span),
                _ => None,
            },
    {
        match self {
            Item::Type(id) => id.name_span(db),
            Item::GenericType(_) => None,
            Item::Event(id) => Some(id.name_span(db)),
            Item::Function(id) => Some(id.name_span(db)),
            Item::BuiltinFunction(_) => None,
            Item::Object(_) => None,
            Item::Constant(id) => Some(id.name_span(db)),
            Item::Ingot(_) => None,
            Item::Module(_) => None,
        }
    }

    /// Whether the item is provided by the language rather than declared in
    /// source: primitive and generic types, built-in functions and objects.
    pub fn is_builtin(&self) -> (b: bool)
        ensures
            b <==> match *self {
                Item::Type(TypeDef::Primitive(_)) => true,
                Item::GenericType(_) => true,
                Item::BuiltinFunction(_) => true,
                Item::Object(_) => true,
                _ => false,
            },
    {
        match self {
            Item::Type(TypeDef::Primitive(_)) => true,
            Item::Type(_) => false,
            Item::GenericType(_) => true,
            Item::Event(_) => false,
            Item::Function(_) => false,
            Item::BuiltinFunction(_) => true,
            Item::Object(_) => true,
            Item::Constant(_) => false,
            Item::Ingot(_) => false,
            Item::Module(_) => false,
        }
    }

    pub fn item_kind_display_name(&self) -> (s: &'static str)
        ensures
            s@ == item_kind_name(*self),
    {
        match self {
            Item::Type(_) => "type",
            Item::GenericType(_) => "type",
            Item::Event(_) => "event",
            Item::Function(_) => "function",
            Item::BuiltinFunction(_) => "function",
            Item::Object(_) => "object",
            Item::Constant(_) => "constant",
            Item::Ingot(_) => "ingot",
            Item::Module(_) => "module",
        }
    }

    pub fn parent(&self, db: &AnalyzerDb) -> (p: Option<Item>)
        requires
            db.wf(),
            db.has_item(*self),
        ensures
            p == item_parent(db, *self),
    {
        // Only ingots *should* be parentless, but built-in items currently don't
        match self {
            Item::Type(id) => id.parent(db),
            Item::GenericType(_) => None,
            Item::Event(id) => Some(id.parent(db)),
            Item::Function(id) => Some(id.parent(db)),
            Item::BuiltinFunction(_) => None,
            Item::Object(_) => None,
            Item::Constant(id) => Some(id.parent(db)),
            Item::Ingot(_) => None,
            Item::Module(id) => id.parent(db),
        }
    }

    /// Downcast utility function
    pub fn as_contract(&self) -> (c: Option<ContractId>)
        ensures
            c == match *self {
                Item::Type(TypeDef::Contract(id)) => Some(id),
                _ => None,
            },
    {
        match self {
            Item::Type(TypeDef::Contract(id)) => Some(*id),
            _ => None,
        }
    }
}

pub open spec fn item_kind_name(item: Item) -> Seq<char> {
    match item {
        Item::Type(_) => "type"@,
        Item::GenericType(_) => "type"@,
        Item::Event(_) => "event"@,
        Item::Function(_) => "function"@,
        Item::BuiltinFunction(_) => "function"@,
        Item::Object(_) => "object"@,
        Item::Constant(_) => "constant"@,
        Item::Ingot(_) => "ingot"@,
        Item::Module(_) => "module"@,
    }
}

pub open spec fn type_def_name_span(db: &AnalyzerDb, t: TypeDef) -> Option<Span> {
    match t {
        TypeDef::Alias(id) => Some(db.type_alias(id).data.ast.kind.name.span),
        TypeDef::Struct(id) => Some(db.struct_entry(id).data.ast.kind.name.span),
        TypeDef::Contract(id) => Some(db.contract(id).data.ast.kind.name.span),
        TypeDef::Primitive(_) => None,
    }
}

impl TypeDef {
    pub fn name(&self, db: &AnalyzerDb) -> (s: String)
        requires
            db.wf(),
            db.has_type_def(*self),
        ensures
            s@ == type_def_name(db, *self),
    {
        match self {
            TypeDef::Alias(id) => id.name(db),
            TypeDef::Struct(id) => id.name(db),
            TypeDef::Contract(id) => id.name(db),
            TypeDef::Primitive(typ) => typ.name(),
        }
    }

    pub fn name_span(&self, db: &AnalyzerDb) -> (s: Option<Span>)
        requires
            db.wf(),
            db.has_type_def(*self),
        ensures
            s == type_def_name_span(db, *self),
    {
        match self {
            TypeDef::Alias(id) => Some(id.name_span(db)),
            TypeDef::Struct(id) => Some(id.name_span(db)),
            TypeDef::Contract(id) => Some(id.name_span(db)),
            TypeDef::Primitive(_) => None,
        }
    }

    pub fn parent(&self, db: &AnalyzerDb) -> (p: Option<Item>)
        requires
            db.wf(),
            db.has_type_def(*self),
        ensures
            p == type_def_parent(db, *self),
    {
        match self {
            TypeDef::Alias(id) => Some(id.parent(db)),
            TypeDef::Struct(id) => Some(id.parent(db)),
            TypeDef::Contract(id) => Some(id.parent(db)),
            TypeDef::Primitive(_) => None,
        }
    }
}

impl IngotId {
    pub fn data(&self, db: &AnalyzerDb) -> (d: Rc<Ingot>)
        requires
            db.has_ingot(*self),
        ensures
            *d == *db.ingot(*self).data,
    {
        rc_clone(&db.ingots[self.0 as usize].data)
    }

    pub fn name(&self, db: &AnalyzerDb) -> (s: String)
        requires
            db.has_ingot(*self),
        ensures
            s@ == db.ingot(*self).data.name@,
    {
        db.ingots[self.0 as usize].data.name.clone()
    }

    pub fn main_module(&self, db: &AnalyzerDb) -> (m: Option<ModuleId>)
        requires
            db.has_ingot(*self),
        ensures
            m == db.ingot(*self).main_module.value,
    {
        db.ingots[self.0 as usize].main_module.value
    }

    pub fn all_modules(&self, db: &AnalyzerDb) -> (m: Rc<Vec<ModuleId>>)
        requires
            db.has_ingot(*self),
        ensures
            *m == *db.ingot(*self).all_modules,
    {
        rc_clone(&db.ingots[self.0 as usize].all_modules)
    }
}

fn type_result_copy(r: &Result<Type, TypeError>) -> (c: Result<Type, TypeError>)
    ensures
        c == *r,
{
    match r {
        Ok(t) => Ok(t.duplicate()),
        Err(e) => Err(*e),
    }
}

fn fixed_size_result_copy(r: &Result<FixedSize, TypeError>) -> (c: Result<FixedSize, TypeError>)
    ensures
        c == *r,
{
    match r {
        Ok(t) => Ok(t.duplicate()),
        Err(e) => Err(*e),
    }
}

/// The named items of a module.
pub open spec fn module_items(db: &AnalyzerDb, m: ModuleId) -> Seq<(Seq<char>, Item)> {
    item_map_entries(*db.module(m).item_map.value)
}

impl ModuleId {
    pub fn data(&self, db: &AnalyzerDb) -> (d: Rc<Module>)
        requires
            db.has_module(*self),
        ensures
            *d == *db.module(*self).data,
    {
        rc_clone(&db.modules[self.0 as usize].data)
    }

    pub fn name(&self, db: &AnalyzerDb) -> (s: String)
        requires
            db.has_module(*self),
        ensures
            s@ == db.module(*self).data.name@,
    {
        db.modules[self.0 as usize].data.name.clone()
    }

    pub fn file_content(&self, db: &AnalyzerDb) -> (c: ModuleFileContent)
        requires
            db.has_module(*self),
        ensures
            c == db.module(*self).data.file_content,
    {
        match &db.modules[self.0 as usize].data.file_content {
            ModuleFileContent::Dir { dir_path } => ModuleFileContent::Dir { dir_path: dir_path.clone() },
            ModuleFileContent::File { file } => ModuleFileContent::File { file: *file },
        }
    }

    pub fn context(&self, db: &AnalyzerDb) -> (c: ModuleContext)
        requires
            db.has_module(*self),
        ensures
            c == db.module(*self).data.context,
    {
        db.modules[self.0 as usize].data.context
    }

    /// Returns a map of the named items in the module
    pub fn items(&self, db: &AnalyzerDb) -> (m: Rc<IndexMap<String, Item>>)
        requires
            db.wf(),
            db.has_module(*self),
        ensures
            *m == *db.module(*self).item_map.value,
            keys_distinct(item_map_entries(*m)),
    {
        proof {
            assert(db.module_wf(db.modules@[self.0 as int]));
        }
        rc_clone(&db.modules[self.0 as usize].item_map.value)
    }

    /// Includes duplicate names
    pub fn all_items(&self, db: &AnalyzerDb) -> (v: Rc<Vec<Item>>)
        requires
            db.has_module(*self),
        ensures
            *v == *db.module(*self).all_items,
    {
        rc_clone(&db.modules[self.0 as usize].all_items)
    }

    /// Returns a `name -> (name_span, external_item)` map for all `use` statements in a module.
    pub fn used_items(&self, db: &AnalyzerDb) -> (m: Rc<IndexMap<String, (Span, Item)>>)
        requires
            db.has_module(*self),
        ensures
            *m == *db.module(*self).used_item_map.value,
    {
        rc_clone(&db.modules[self.0 as usize].used_item_map.value)
    }

    pub fn resolve_name(&self, db: &AnalyzerDb, name: &str) -> (r: Option<Item>)
        requires
            db.has_module(*self),
        ensures
            r == lookup(module_items(db, *self), name@),
    {
        item_map_get(&db.modules[self.0 as usize].item_map.value, name)
    }

    pub fn sub_modules(&self, db: &AnalyzerDb) -> (m: Rc<IndexMap<String, ModuleId>>)
        requires
            db.has_module(*self),
        ensures
            *m == *db.module(*self).sub_modules,
    {
        rc_clone(&db.modules[self.0 as usize].sub_modules)
    }

    pub fn adjacent_modules(&self, db: &AnalyzerDb) -> (m: Rc<IndexMap<String, ModuleId>>)
        requires
            db.has_module(*self),
        ensures
            *m == *db.module(*self).adjacent_modules,
    {
        rc_clone(&db.modules[self.0 as usize].adjacent_modules)
    }

    pub fn parent(&self, db: &AnalyzerDb) -> (p: Option<Item>)
        requires
            db.has_module(*self),
        ensures
            p == module_parent(db, *self),
    {
        match self.parent_module(db) {
            Some(m) => Some(Item::Module(m)),
            None => {
                if let ModuleContext::Ingot(ingot) = db.modules[self.0 as usize].data.context {
                    Some(Item::Ingot(ingot))
                } else {
                    None
                }
            },
        }
    }

    pub fn parent_module(&self, db: &AnalyzerDb) -> (p: Option<ModuleId>)
        requires
            db.has_module(*self),
        ensures
            p == db.module(*self).parent_module,
    {
        db.modules[self.0 as usize].parent_module
    }

    /// All contracts, including duplicates
    pub fn all_contracts(&self, db: &AnalyzerDb) -> (v: Rc<Vec<ContractId>>)
        requires
            db.has_module(*self),
        ensures
            *v == *db.module(*self).contracts,
    {
        rc_clone(&db.modules[self.0 as usize].contracts)
    }

    /// All structs, including duplicates
    pub fn all_structs(&self, db: &AnalyzerDb) -> (v: Rc<Vec<StructId>>)
        requires
            db.has_module(*self),
        ensures
            *v == *db.module(*self).structs,
    {
        rc_clone(&db.modules[self.0 as usize].structs)
    }
}

impl ModuleConstantId {
    pub fn data(&self, db: &AnalyzerDb) -> (d: Rc<ModuleConstant>)
        requires
            db.has_module_constant(*self),
        ensures
            *d == *db.module_constant(*self).data,
    {
        rc_clone(&db.module_constants[self.0 as usize].data)
    }

    pub fn span(&self, db: &AnalyzerDb) -> (s: Span)
        requires
            db.has_module_constant(*self),
        ensures
            s == db.module_constant(*self).data.ast.span,
    {
        db.module_constants[self.0 as usize].data.ast.span
    }

    pub fn typ(&self, db: &AnalyzerDb) -> (t: Result<Type, TypeError>)
        requires
            db.has_module_constant(*self),
        ensures
            t == db.module_constant(*self).typ.value,
    {
        type_result_copy(&db.module_constants[self.0 as usize].typ.value)
    }

    pub fn is_base_type(&self, db: &AnalyzerDb) -> (b: bool)
        requires
            db.has_module_constant(*self),
        ensures
            b <==> db.module_constant(*self).typ.value matches Ok(Type::Base(_)),
    {
        match self.typ(db) {
            Ok(Type::Base(_)) => true,
            _ => false,
        }
    }

    pub fn name(&self, db: &AnalyzerDb) -> (s: String)
        requires
            db.has_module_constant(*self),
        ensures
            s@ == db.module_constant(*self).data.ast.kind.name.kind@,
    {
        db.module_constants[self.0 as usize].data.ast.kind.name.kind.clone()
    }

    pub fn name_span(&self, db: &AnalyzerDb) -> (s: Span)
        requires
            db.has_module_constant(*self),
        ensures
            s == db.module_constant(*self).data.ast.kind.name.span,
    {
        db.module_constants[self.0 as usize].data.ast.kind.name.span
    }

    pub fn parent(&self, db: &AnalyzerDb) -> (p: Item)
        requires
            db.has_module_constant(*self),
        ensures
            p == Item::Module(db.module_constant(*self).data.module),
    {
        Item::Module(db.module_constants[self.0 as usize].data.module)
    }
}

impl TypeAliasId {
    pub fn data(&self, db: &AnalyzerDb) -> (d: Rc<TypeAlias>)
        requires
            db.has_type_alias(*self),
        ensures
            *d == *db.type_alias(*self).data,
    {
        rc_clone(&db.type_aliases[self.0 as usize].data)
    }

    pub fn span(&self, db: &AnalyzerDb) -> (s: Span)
        requires
            db.has_type_alias(*self),
        ensures
            s == db.type_alias(*self).data.ast.span,
    {
        db.type_aliases[self.0 as usize].data.ast.span
    }

    pub fn name(&self, db: &AnalyzerDb) -> (s: String)
        requires
            db.has_type_alias(*self),
        ensures
            s@ == db.type_alias(*self).data.ast.kind.name.kind@,
    {
        db.type_aliases[self.0 as usize].data.ast.kind.name.kind.clone()
    }

    pub fn name_span(&self, db: &AnalyzerDb) -> (s: Span)
        requires
            db.has_type_alias(*self),
        ensures
            s == db.type_alias(*self).data.ast.kind.name.span,
    {
        db.type_aliases[self.0 as usize].data.ast.kind.name.span
    }

    pub fn typ(&self, db: &AnalyzerDb) -> (t: Result<Type, TypeError>)
        requires
            db.has_type_alias(*self),
        ensures
            t == db.type_alias(*self).typ.value,
    {
        type_result_copy(&db.type_aliases[self.0 as usize].typ.value)
    }

    pub fn parent(&self, db: &AnalyzerDb) -> (p: Item)
        requires
            db.has_type_alias(*self),
        ensures
            p == Item::Module(db.type_alias(*self).data.module),
    {
        Item::Module(db.type_aliases[self.0 as usize].data.module)
    }
}

/// Whether a function takes `self`.
pub open spec fn takes_self(db: &AnalyzerDb, f: FunctionId) -> bool {
    db.function(f).signature.value.self_decl is Some
}

/// The functions of a contract by name; `__init__` excluded.
pub open spec fn contract_functions(db: &AnalyzerDb, c: ContractId) -> Seq<(Seq<char>, FunctionId)> {
    function_map_entries(*db.contract(c).function_map.value)
}

/// The public functions of a contract by name.
pub open spec fn contract_public_functions(db: &AnalyzerDb, c: ContractId) -> Seq<(Seq<char>, FunctionId)> {
    function_map_entries(*db.contract(c).public_function_map)
}

/// The events of a contract by name.
pub open spec fn contract_events(db: &AnalyzerDb, c: ContractId) -> Seq<(Seq<char>, EventId)> {
    event_map_entries(*db.contract(c).event_map.value)
}

/// The fields of a contract by name.
pub open spec fn contract_fields(db: &AnalyzerDb, c: ContractId) -> Seq<(Seq<char>, ContractFieldId)> {
    contract_field_map_entries(*db.contract(c).field_map.value)
}

/// What a name means inside a contract: one of its functions that does not
/// take `self`, else one of its events, else whatever the name means in
/// the contract's module.
pub open spec fn contract_resolve_name(db: &AnalyzerDb, c: ContractId, name: Seq<char>) -> Option<
    Item,
> {
    let f = lookup(contract_functions(db, c), name);
    if f is Some && !takes_self(db, f.unwrap()) {
        Some(Item::Function(f.unwrap()))
    } else {
        match lookup(contract_events(db, c), name) {
            Some(e) => Some(Item::Event(e)),
            None => lookup(module_items(db, db.contract(c).data.module), name),
        }
    }
}

impl ContractId {
    pub fn data(&self, db: &AnalyzerDb) -> (d: Rc<Contract>)
        requires
            db.has_contract(*self),
        ensures
            *d == *db.contract(*self).data,
    {
        rc_clone(&db.contracts[self.0 as usize].data)
    }

    pub fn span(&self, db: &AnalyzerDb) -> (s: Span)
        requires
            db.has_contract(*self),
        ensures
            s == db.contract(*self).data.ast.span,
    {
        db.contracts[self.0 as usize].data.ast.span
    }

    pub fn name(&self, db: &AnalyzerDb) -> (s: String)
        requires
            db.has_contract(*self),
        ensures
            s@ == db.contract(*self).data.ast.kind.name.kind@,
    {
        db.contracts[self.0 as usize].data.ast.kind.name.kind.clone()
    }

    pub fn name_span(&self, db: &AnalyzerDb) -> (s: Span)
        requires
            db.has_contract(*self),
        ensures
            s == db.contract(*self).data.ast.kind.name.span,
    {
        db.contracts[self.0 as usize].data.ast.kind.name.span
    }

    pub fn module(&self, db: &AnalyzerDb) -> (m: ModuleId)
        requires
            db.has_contract(*self),
        ensures
            m == db.contract(*self).data.module,
    {
        db.contracts[self.0 as usize].data.module
    }

    pub fn fields(&self, db: &AnalyzerDb) -> (m: Rc<IndexMap<String, ContractFieldId>>)
        requires
            db.wf(),
            db.has_contract(*self),
        ensures
            *m == *db.contract(*self).field_map.value,
            keys_distinct(contract_field_map_entries(*m)),
    {
        proof {
            assert(db.contract_wf(db.contracts@[self.0 as int]));
        }
        rc_clone(&db.contracts[self.0 as usize].field_map.value)
    }

    /// The type of the field with the given name and the field's position
    /// among the contract's fields.
    pub fn field_type(&self, db: &AnalyzerDb, name: &str) -> (r: Option<
        (Result<Type, TypeError>, usize),
    >)
        requires
            db.wf(),
            db.has_contract(*self),
        ensures
            ({
                let i = index_of_key(contract_fields(db, *self), name@);
                match r {
                    Some((typ, index)) => i >= 0 && index == i && typ == db.contract_field(
                        contract_fields(db, *self)[i].1,
                    ).typ.value,
                    None => i < 0,
                }
            }),
    {
        let entry = &db.contracts[self.0 as usize];
        match contract_field_map_get_full(&entry.field_map.value, name) {
            Some((index, field)) => {
                proof {
                    lemma_index_of_key(contract_fields(db, *self), name@);
                    assert(db.contract_wf(db.contracts@[self.0 as int]));
                }
                Some((field.typ(db), index))
            },
            None => None,
        }
    }

    pub fn resolve_name(&self, db: &AnalyzerDb, name: &str) -> (r: Option<Item>)
        requires
            db.wf(),
            db.has_contract(*self),
        ensures
            r == contract_resolve_name(db, *self, name@),
    {
        proof {
            assert(db.contract_wf(db.contracts@[self.0 as int]));
            lemma_index_of_key(contract_functions(db, *self), name@);
        }
        if let Some(f) = self.function(db, name) {
            if !f.takes_self(db) {
                return Some(Item::Function(f));
            }
        }
        match self.event(db, name) {
            Some(e) => Some(Item::Event(e)),
            None => self.module(db).resolve_name(db, name),
        }
    }

    pub fn init_function(&self, db: &AnalyzerDb) -> (f: Option<FunctionId>)
        requires
            db.wf(),
            db.has_contract(*self),
        ensures
            f == db.contract(*self).init_function.value,
            // the init function is not among the user functions
            f matches Some(init) ==> forall|i: int|
                0 <= i < contract_functions(db, *self).len() ==> (
                #[trigger] contract_functions(db, *self)[i]).1 != init,
    {
        proof {
            assert(db.contract_wf(db.contracts@[self.0 as int]));
        }
        db.contracts[self.0 as usize].init_function.value
    }

    /// User functions, public and not. Excludes `__init__`.
    pub fn functions(&self, db: &AnalyzerDb) -> (m: Rc<IndexMap<String, FunctionId>>)
        requires
            db.wf(),
            db.has_contract(*self),
        ensures
            *m == *db.contract(*self).function_map.value,
            keys_distinct(function_map_entries(*m)),
            lookup(function_map_entries(*m), "__init__"@) is None,
    {
        proof {
            assert(db.contract_wf(db.contracts@[self.0 as int]));
            lemma_init_not_a_function(db, *self);
        }
        rc_clone(&db.contracts[self.0 as usize].function_map.value)
    }

    /// Lookup a function by name. Searches all user functions, private or not. Excludes init function.
    pub fn function(&self, db: &AnalyzerDb, name: &str) -> (f: Option<FunctionId>)
        requires
            db.has_contract(*self),
        ensures
            f == lookup(contract_functions(db, *self), name@),
    {
        function_map_get(&db.contracts[self.0 as usize].function_map.value, name)
    }

    /// Excludes `__init__`.
    pub fn public_functions(&self, db: &AnalyzerDb) -> (m: Rc<IndexMap<String, FunctionId>>)
        requires
            db.wf(),
            db.has_contract(*self),
        ensures
            *m == *db.contract(*self).public_function_map,
            keys_distinct(function_map_entries(*m)),
            lookup(function_map_entries(*m), "__init__"@) is None,
            // each is one of the user functions, under the same name, and public
            forall|i: int|
                0 <= i < function_map_entries(*m).len() ==> {
                    let (name, f) = #[trigger] function_map_entries(*m)[i];
                    &&& lookup(contract_functions(db, *self), name) == Some(f)
                    &&& db.function(f).data.ast.kind.pub_ is Some
                },
    {
        proof {
            assert(db.contract_wf(db.contracts@[self.0 as int]));
            lemma_public_functions_exclude_init(db, *self);
        }
        rc_clone(&db.contracts[self.0 as usize].public_function_map)
    }

    /// Get a function that takes self by its name.
    pub fn self_function(&self, db: &AnalyzerDb, name: &str) -> (f: Option<FunctionId>)
        requires
            db.wf(),
            db.has_contract(*self),
        ensures
            ({
                let found = lookup(contract_functions(db, *self), name@);
                f == if found is Some && takes_self(db, found.unwrap()) {
                    found
                } else {
                    None
                }
            }),
    {
        proof {
            assert(db.contract_wf(db.contracts@[self.0 as int]));
            lemma_index_of_key(contract_functions(db, *self), name@);
        }
        match self.function(db, name) {
            Some(f) => if f.takes_self(db) {
                Some(f)
            } else {
                None
            },
            None => None,
        }
    }

    /// Lookup an event by name.
    pub fn event(&self, db: &AnalyzerDb, name: &str) -> (e: Option<EventId>)
        requires
            db.has_contract(*self),
        ensures
            e == lookup(contract_events(db, *self), name@),
    {
        event_map_get(&db.contracts[self.0 as usize].event_map.value, name)
    }

    /// A map of events defined within the contract.
    pub fn events(&self, db: &AnalyzerDb) -> (m: Rc<IndexMap<String, EventId>>)
        requires
            db.wf(),
            db.has_contract(*self),
        ensures
            *m == *db.contract(*self).event_map.value,
            keys_distinct(event_map_entries(*m)),
            // each event is defined within this contract
            forall|i: int|
                0 <= i < event_map_entries(*m).len() ==> db.event(
                    (#[trigger] event_map_entries(*m)[i]).1,
                ).data.contract == *self,
    {
        proof {
            assert(db.contract_wf(db.contracts@[self.0 as int]));
            assert(db.events_belong_to(*self));
        }
        let m = rc_clone(&db.contracts[self.0 as usize].event_map.value);
        assert forall|i: int| 0 <= i < event_map_entries(*m).len() implies db.event(
            (#[trigger] event_map_entries(*m)[i]).1,
        ).data.contract == *self by {
            assert(event_map_entries(*m)[i] == contract_events(db, *self)[i]);
        }
        m
    }

    pub fn parent(&self, db: &AnalyzerDb) -> (p: Item)
        requires
            db.has_contract(*self),
        ensures
            p == Item::Module(db.contract(*self).data.module),
    {
        Item::Module(db.contracts[self.0 as usize].data.module)
    }
}

impl ContractFieldId {
    pub fn name(&self, db: &AnalyzerDb) -> (s: String)
        requires
            db.has_contract_field(*self),
        ensures
            s@ == db.contract_field(*self).data.ast.kind.name.kind@,
    {
        db.contract_fields[self.0 as usize].data.ast.kind.name.kind.clone()
    }

    pub fn data(&self, db: &AnalyzerDb) -> (d: Rc<ContractField>)
        requires
            db.has_contract_field(*self),
        ensures
            *d == *db.contract_field(*self).data,
    {
        rc_clone(&db.contract_fields[self.0 as usize].data)
    }

    pub fn typ(&self, db: &AnalyzerDb) -> (t: Result<Type, TypeError>)
        requires
            db.has_contract_field(*self),
        ensures
            t == db.contract_field(*self).typ.value,
    {
        type_result_copy(&db.contract_fields[self.0 as usize].typ.value)
    }
}

/// The position of the first `self` parameter, or -1 when there is none.
pub open spec fn self_arg_index(args: Seq<ast::Node<ast::FunctionArg>>) -> int
    decreases args.len(),
{
    if args.len() == 0 {
        -1
    } else {
        let i = self_arg_index(args.drop_last());
        if i >= 0 {
            i
        } else if args.last().kind is Zelf {
            args.len() - 1
        } else {
            -1
        }
    }
}

proof fn lemma_self_arg_index(args: Seq<ast::Node<ast::FunctionArg>>)
    ensures
        ({
            let i = self_arg_index(args);
            &&& -1 <= i < args.len()
            &&& i >= 0 ==> args[i].kind is Zelf
            &&& forall|j: int| 0 <= j < args.len() && (i < 0 || j < i) ==> !(args[j].kind is Zelf)
        }),
    decreases args.len(),
{
    if args.len() > 0 {
        let prefix = args.drop_last();
        lemma_self_arg_index(prefix);
        assert forall|j: int| 0 <= j < args.len() - 1 implies args[j] == prefix[j] by {}
    }
}

impl FunctionId {
    pub fn data(&self, db: &AnalyzerDb) -> (d: Rc<Function>)
        requires
            db.has_function(*self),
        ensures
            *d == *db.function(*self).data,
    {
        rc_clone(&db.functions[self.0 as usize].data)
    }

    pub fn span(&self, db: &AnalyzerDb) -> (s: Span)
        requires
            db.has_function(*self),
        ensures
            s == db.function(*self).data.ast.span,
    {
        db.functions[self.0 as usize].data.ast.span
    }

    pub fn name(&self, db: &AnalyzerDb) -> (s: String)
        requires
            db.has_function(*self),
        ensures
            s@ == db.function(*self).data.ast.kind.name.kind@,
    {
        db.functions[self.0 as usize].data.ast.kind.name.kind.clone()
    }

    pub fn name_span(&self, db: &AnalyzerDb) -> (s: Span)
        requires
            db.has_function(*self),
        ensures
            s == db.function(*self).data.ast.kind.name.span,
    {
        db.functions[self.0 as usize].data.ast.kind.name.span
    }

    // This should probably be scrapped in favor of `parent()`
    pub fn class(&self, db: &AnalyzerDb) -> (c: Option<Class>)
        requires
            db.has_function(*self),
        ensures
            c == db.function(*self).data.parent,
    {
        db.functions[self.0 as usize].data.parent
    }

    pub fn parent(&self, db: &AnalyzerDb) -> (p: Item)
        requires
            db.has_function(*self),
        ensures
            p == function_parent(db, *self),
    {
        let data = &db.functions[self.0 as usize].data;
        match data.parent {
            Some(class) => class.as_item(),
            None => Item::Module(data.module),
        }
    }

    pub fn module(&self, db: &AnalyzerDb) -> (m: ModuleId)
        requires
            db.has_function(*self),
        ensures
            m == db.function(*self).data.module,
    {
        db.functions[self.0 as usize].data.module
    }

    pub fn takes_self(&self, db: &AnalyzerDb) -> (b: bool)
        requires
            db.has_function(*self),
        ensures
            b == takes_self(db, *self),
    {
        db.functions[self.0 as usize].signature.value.self_decl.is_some()
    }

    /// The span of the `self` parameter, if the function takes `self`.
    pub fn self_span(&self, db: &AnalyzerDb) -> (s: Option<Span>)
        requires
            db.has_function(*self),
        ensures
            ({
                let args = db.function(*self).data.ast.kind.args@;
                let i = self_arg_index(args);
                s == if takes_self(db, *self) && i >= 0 {
                    Some(args[i].span)
                } else {
                    None
                }
            }),
    {
        if self.takes_self(db) {
            let args = &db.functions[self.0 as usize].data.ast.kind.args;
            proof {
                lemma_self_arg_index(args@);
                assert(args@ == db.function(*self).data.ast.kind.args@);
            }
            let mut i: usize = 0;
            while i < args.len()
                invariant
                    takes_self(db, *self),
                    args@ == db.function(*self).data.ast.kind.args@,
                    i <= args@.len(),
                    forall|j: int| 0 <= j < i ==> !(args@[j].kind is Zelf),
                    ({
                        let k = self_arg_index(args@);
                        &&& -1 <= k < args@.len()
                        &&& k >= 0 ==> args@[k].kind is Zelf
                        &&& forall|j: int|
                            0 <= j < args@.len() && (k < 0 || j < k) ==> !(args@[j].kind is Zelf)
                    }),
                decreases args.len() - i,
            {
                if let ast::FunctionArg::Zelf = args[i].kind {
                    assert(self_arg_index(args@) == i as int);
                    return Some(args[i].span);
                }
                i = i + 1;
            }
            assert(self_arg_index(args@) < 0);
            None
        } else {
            None
        }
    }

    pub fn is_public(&self, db: &AnalyzerDb) -> (b: bool)
        requires
            db.has_function(*self),
        ensures
            b == db.function(*self).data.ast.kind.pub_ is Some,
    {
        self.pub_span(db).is_some()
    }

    pub fn is_constructor(&self, db: &AnalyzerDb) -> (b: bool)
        requires
            db.has_function(*self),
        ensures
            b == (db.function(*self).data.ast.kind.name.kind@ == "__init__"@),
    {
        self.name(db) == "__init__".to_owned()
    }

    pub fn pub_span(&self, db: &AnalyzerDb) -> (s: Option<Span>)
        requires
            db.has_function(*self),
        ensures
            s == db.function(*self).data.ast.kind.pub_,
    {
        db.functions[self.0 as usize].data.ast.kind.pub_
    }

    pub fn unsafe_span(&self, db: &AnalyzerDb) -> (s: Option<Span>)
        requires
            db.has_function(*self),
        ensures
            s == db.function(*self).data.ast.kind.unsafe_,
    {
        db.functions[self.0 as usize].data.ast.kind.unsafe_
    }

    pub fn signature(&self, db: &AnalyzerDb) -> (s: Rc<FunctionSignature>)
        requires
            db.has_function(*self),
        ensures
            *s == *db.function(*self).signature.value,
    {
        rc_clone(&db.functions[self.0 as usize].signature.value)
    }

    pub fn body(&self, db: &AnalyzerDb) -> (b: Rc<FunctionBody>)
        requires
            db.has_function(*self),
        ensures
            *b == *db.function(*self).body.value,
    {
        rc_clone(&db.functions[self.0 as usize].body.value)
    }
}

/// The functions of a class by name.
pub open spec fn class_functions(db: &AnalyzerDb, c: Class) -> Seq<(Seq<char>, FunctionId)> {
    match c {
        Class::Contract(id) => contract_functions(db, id),
        Class::Struct(id) => struct_functions(db, id),
    }
}

pub open spec fn class_name(db: &AnalyzerDb, c: Class) -> Seq<char> {
    match c {
        Class::Contract(id) => db.contract(id).data.ast.kind.name.kind@,
        Class::Struct(id) => db.struct_entry(id).data.ast.kind.name.kind@,
    }
}

impl Class {
    pub fn function(&self, db: &AnalyzerDb, name: &str) -> (f: Option<FunctionId>)
        requires
            db.has_class(*self),
        ensures
            f == lookup(class_functions(db, *self), name@),
    {
        match self {
            Class::Contract(id) => id.function(db, name),
            Class::Struct(id) => id.function(db, name),
        }
    }

    pub fn self_function(&self, db: &AnalyzerDb, name: &str) -> (f: Option<FunctionId>)
        requires
            db.wf(),
            db.has_class(*self),
        ensures
            ({
                let found = lookup(class_functions(db, *self), name@);
                f == if found is Some && takes_self(db, found.unwrap()) {
                    found
                } else {
                    None
                }
            }),
    {
        proof {
            match *self {
                Class::Contract(id) => {
                    assert(db.contract_wf(db.contracts@[id.0 as int]));
                },
                Class::Struct(id) => {
                    assert(db.struct_wf(db.structs@[id.0 as int]));
                },
            }
            lemma_index_of_key(class_functions(db, *self), name@);
        }
        let fun = match self.function(db, name) {
            Some(f) => f,
            None => {
                return None;
            },
        };
        if fun.takes_self(db) {
            Some(fun)
        } else {
            None
        }
    }

    pub fn name(&self, db: &AnalyzerDb) -> (s: String)
        requires
            db.has_class(*self),
        ensures
            s@ == class_name(db, *self),
    {
        match self {
            Class::Contract(inner) => inner.name(db),
            Class::Struct(inner) => inner.name(db),
        }
    }

    pub fn kind(&self) -> (s: &str)
        ensures
            s@ == match *self {
                Class::Contract(_) => "contract"@,
                Class::Struct(_) => "struct"@,
            },
    {
        match self {
            Class::Contract(_) => "contract",
            Class::Struct(_) => "struct",
        }
    }

    pub fn as_item(&self) -> (i: Item)
        ensures
            i == class_item(*self),
    {
        match self {
            Class::Contract(id) => Item::Type(TypeDef::Contract(*id)),
            Class::Struct(id) => Item::Type(TypeDef::Struct(*id)),
        }
    }
}

/// The functions of a struct by name.
pub open spec fn struct_functions(db: &AnalyzerDb, s: StructId) -> Seq<(Seq<char>, FunctionId)> {
    function_map_entries(*db.struct_entry(s).function_map.value)
}

/// The fields of a struct by name.
pub open spec fn struct_fields(db: &AnalyzerDb, s: StructId) -> Seq<(Seq<char>, StructFieldId)> {
    struct_field_map_entries(*db.struct_entry(s).field_map.value)
}

impl StructId {
    pub fn data(&self, db: &AnalyzerDb) -> (d: Rc<Struct>)
        requires
            db.has_struct(*self),
        ensures
            *d == *db.struct_entry(*self).data,
    {
        rc_clone(&db.structs[self.0 as usize].data)
    }

    pub fn span(&self, db: &AnalyzerDb) -> (s: Span)
        requires
            db.has_struct(*self),
        ensures
            s == db.struct_entry(*self).data.ast.span,
    {
        db.structs[self.0 as usize].data.ast.span
    }

    pub fn name(&self, db: &AnalyzerDb) -> (s: String)
        requires
            db.has_struct(*self),
        ensures
            s@ == db.struct_entry(*self).data.ast.kind.name.kind@,
    {
        db.structs[self.0 as usize].data.ast.kind.name.kind.clone()
    }

    pub fn name_span(&self, db: &AnalyzerDb) -> (s: Span)
        requires
            db.has_struct(*self),
        ensures
            s == db.struct_entry(*self).data.ast.kind.name.span,
    {
        db.structs[self.0 as usize].data.ast.kind.name.span
    }

    pub fn module(&self, db: &AnalyzerDb) -> (m: ModuleId)
        requires
            db.has_struct(*self),
        ensures
            m == db.struct_entry(*self).data.module,
    {
        db.structs[self.0 as usize].data.module
    }

    pub fn typ(&self, db: &AnalyzerDb) -> (t: Rc<types::Struct>)
        requires
            db.has_struct(*self),
        ensures
            *t == *db.struct_entry(*self).typ,
    {
        rc_clone(&db.structs[self.0 as usize].typ)
    }

    pub fn field(&self, db: &AnalyzerDb, name: &str) -> (f: Option<StructFieldId>)
        requires
            db.has_struct(*self),
        ensures
            f == lookup(struct_fields(db, *self), name@),
    {
        struct_field_map_get(&db.structs[self.0 as usize].field_map.value, name)
    }

    pub fn field_type(&self, db: &AnalyzerDb, name: &str) -> (t: Option<Result<FixedSize, TypeError>>)
        requires
            db.wf(),
            db.has_struct(*self),
        ensures
            t == match lookup(struct_fields(db, *self), name@) {
                Some(f) => Some(db.struct_field(f).typ.value),
                None => None,
            },
    {
        proof {
            assert(db.struct_wf(db.structs@[self.0 as int]));
            lemma_index_of_key(struct_fields(db, *self), name@);
        }
        match self.field(db, name) {
            Some(f) => Some(f.typ(db)),
            None => None,
        }
    }

    pub fn fields(&self, db: &AnalyzerDb) -> (m: Rc<IndexMap<String, StructFieldId>>)
        requires
            db.wf(),
            db.has_struct(*self),
        ensures
            *m == *db.struct_entry(*self).field_map.value,
            keys_distinct(struct_field_map_entries(*m)),
    {
        proof {
            assert(db.struct_wf(db.structs@[self.0 as int]));
        }
        rc_clone(&db.structs[self.0 as usize].field_map.value)
    }

    pub fn functions(&self, db: &AnalyzerDb) -> (m: Rc<IndexMap<String, FunctionId>>)
        requires
            db.wf(),
            db.has_struct(*self),
        ensures
            *m == *db.struct_entry(*self).function_map.value,
            keys_distinct(function_map_entries(*m)),
    {
        proof {
            assert(db.struct_wf(db.structs@[self.0 as int]));
        }
        rc_clone(&db.structs[self.0 as usize].function_map.value)
    }

    pub fn function(&self, db: &AnalyzerDb, name: &str) -> (f: Option<FunctionId>)
        requires
            db.has_struct(*self),
        ensures
            f == lookup(struct_functions(db, *self), name@),
    {
        function_map_get(&db.structs[self.0 as usize].function_map.value, name)
    }

    pub fn self_function(&self, db: &AnalyzerDb, name: &str) -> (f: Option<FunctionId>)
        requires
            db.wf(),
            db.has_struct(*self),
        ensures
            ({
                let found = lookup(struct_functions(db, *self), name@);
                f == if found is Some && takes_self(db, found.unwrap()) {
                    found
                } else {
                    None
                }
            }),
    {
        proof {
            assert(db.struct_wf(db.structs@[self.0 as int]));
            lemma_index_of_key(struct_functions(db, *self), name@);
        }
        match self.function(db, name) {
            Some(f) => if f.takes_self(db) {
                Some(f)
            } else {
                None
            },
            None => None,
        }
    }

    pub fn parent(&self, db: &AnalyzerDb) -> (p: Item)
        requires
            db.has_struct(*self),
        ensures
            p == Item::Module(db.struct_entry(*self).data.module),
    {
        Item::Module(db.structs[self.0 as usize].data.module)
    }
}

impl StructFieldId {
    pub fn name(&self, db: &AnalyzerDb) -> (s: String)
        requires
            db.has_struct_field(*self),
        ensures
            s@ == db.struct_field(*self).data.ast.kind.name.kind@,
    {
        db.struct_fields[self.0 as usize].data.ast.kind.name.kind.clone()
    }

    pub fn data(&self, db: &AnalyzerDb) -> (d: Rc<StructField>)
        requires
            db.has_struct_field(*self),
        ensures
            *d == *db.struct_field(*self).data,
    {
        rc_clone(&db.struct_fields[self.0 as usize].data)
    }

    pub fn typ(&self, db: &AnalyzerDb) -> (t: Result<FixedSize, TypeError>)
        requires
            db.has_struct_field(*self),
        ensures
            t == db.struct_field(*self).typ.value,
    {
        fixed_size_result_copy(&db.struct_fields[self.0 as usize].typ.value)
    }
}

impl EventId {
    pub fn name(&self, db: &AnalyzerDb) -> (s: String)
        requires
            db.has_event(*self),
        ensures
            s@ == db.event(*self).data.ast.kind.name.kind@,
    {
        db.events[self.0 as usize].data.ast.kind.name.kind.clone()
    }

    pub fn name_span(&self, db: &AnalyzerDb) -> (s: Span)
        requires
            db.has_event(*self),
        ensures
            s == db.event(*self).data.ast.kind.name.span,
    {
        db.events[self.0 as usize].data.ast.kind.name.span
    }

    pub fn data(&self, db: &AnalyzerDb) -> (d: Rc<Event>)
        requires
            db.has_event(*self),
        ensures
            *d == *db.event(*self).data,
    {
        rc_clone(&db.events[self.0 as usize].data)
    }

    pub fn typ(&self, db: &AnalyzerDb) -> (t: Rc<types::Event>)
        requires
            db.has_event(*self),
        ensures
            *t == *db.event(*self).typ.value,
    {
        rc_clone(&db.events[self.0 as usize].typ.value)
    }

    pub fn module(&self, db: &AnalyzerDb) -> (m: ModuleId)
        requires
            db.wf(),
            db.has_event(*self),
        ensures
            m == db.contract(db.event(*self).data.contract).data.module,
    {
        proof {
            assert(db.has_contract(db.events@[self.0 as int].data.contract));
        }
        db.events[self.0 as usize].data.contract.module(db)
    }

    pub fn parent(&self, db: &AnalyzerDb) -> (p: Item)
        requires
            db.has_event(*self),
        ensures
            p == Item::Type(TypeDef::Contract(db.event(*self).data.contract)),
    {
        Item::Type(TypeDef::Contract(db.events[self.0 as usize].data.contract))
    }
}

/// `t` is the type that a type definition stands for: an alias's analysed
/// type, a struct or contract type carrying the definition's id and name
/// (and, for a struct, its number of fields), or the primitive itself.
pub open spec fn is_type_def_type(db: &AnalyzerDb, td: TypeDef, t: Result<Type, TypeError>) -> bool {
    match td {
        TypeDef::Alias(id) => t == db.type_alias(id).typ.value,
        TypeDef::Struct(id) => match t {
            Ok(Type::Struct(s)) => {
                &&& s.id == id
                &&& s.name@ == db.struct_entry(id).data.ast.kind.name.kind@
                &&& s.field_count == struct_fields(db, id).len()
            },
            _ => false,
        },
        TypeDef::Contract(id) => match t {
            Ok(Type::Contract(c)) => c.id == id && c.name@ == db.contract(id).data.ast.kind.name.kind@,
            _ => false,
        },
        TypeDef::Primitive(base) => t == Ok::<Type, TypeError>(Type::Base(base)),
    }
}

impl TypeDef {
    pub fn typ(&self, db: &AnalyzerDb) -> (t: Result<Type, TypeError>)
        requires
            db.wf(),
            db.has_type_def(*self),
        ensures
            is_type_def_type(db, *self, t),
    {
        match self {
            TypeDef::Alias(id) => id.typ(db),
            TypeDef::Struct(id) => Ok(
                Type::Struct(
                    types::Struct {
                        id: *id,
                        name: id.name(db),
                        // for the EvmSized trait
                        field_count: struct_field_map_len(&db.structs[id.0 as usize].field_map.value),
                    },
                ),
            ),
            TypeDef::Contract(id) => Ok(Type::Contract(types::Contract { id: *id, name: id.name(db) })),
            TypeDef::Primitive(base) => Ok(Type::Base(*base)),
        }
    }
}

/// The named members of an item: a module's items; nothing for events,
/// functions, constants and built-ins.
pub open spec fn item_members(db: &AnalyzerDb, item: Item) -> Seq<(Seq<char>, Item)> {
    match item {
        Item::Module(m) => module_items(db, m),
        _ => Seq::empty(),
    }
}

/// Whether the named members of an item can be listed: those of ingots and
/// types cannot yet.
pub open spec fn has_members(item: Item) -> bool {
    !(item is Ingot) && !(item is Type)
}

impl Item {
    pub fn items(&self, db: &AnalyzerDb) -> (m: Rc<IndexMap<String, Item>>)
        requires
            db.wf(),
            db.has_item(*self),
            has_members(*self),
        ensures
            item_map_entries(*m) == item_members(db, *self),
    {
        match self {
            Item::Module(module) => module.items(db),
            _ => Rc::new(item_map_new()),
        }
    }
}

/// The item reached from `start` by looking up the first `k` segments of a
/// path one after the other among the members of the item reached so far,
/// or `None` once a segment is not found.
pub open spec fn path_walk(
    db: &AnalyzerDb,
    start: Item,
    segments: Seq<ast::Node<String>>,
    k: nat,
) -> Option<Item>
    decreases k,
{
    if k == 0 {
        Some(start)
    } else {
        match path_walk(db, start, segments, (k - 1) as nat) {
            Some(cur) => lookup(item_members(db, cur), segments[k - 1].kind@),
            None => None,
        }
    }
}

/// The walk along a path never asks an ingot or a type for its members.
pub open spec fn path_walk_defined(db: &AnalyzerDb, start: Item, segments: Seq<ast::Node<String>>) -> bool {
    forall|k: nat|
        k < segments.len() ==> (#[trigger] path_walk(db, start, segments, k) matches Some(cur)
            ==> has_members(cur))
}

/// `r` answers the resolution of `segments` from `start`: the item the walk
/// reaches and no diagnostic, or, when a segment is not found, no item and
/// one error on that segment.
pub open spec fn resolves_path_to(
    db: &AnalyzerDb,
    start: Item,
    segments: Seq<ast::Node<String>>,
    r: Analysis<Option<Item>>,
) -> bool {
    match path_walk(db, start, segments, segments.len()) {
        Some(item) => r.value == Some(item) && r.diagnostics@.len() == 0,
        None => {
            &&& r.value is None
            &&& r.diagnostics@.len() == 1
            &&& exists|j: nat|
                j < segments.len() && path_walk(db, start, segments, j) is Some && #[trigger] path_walk(
                    db,
                    start,
                    segments,
                    j + 1,
                ) is None && is_error_diagnostic(
                    r.diagnostics@[0],
                    "unresolved path item"@,
                    segments[j as int].span,
                    "not found"@,
                )
        },
    }
}

proof fn lemma_lookup_member_valid(db: &AnalyzerDb, cur: Item, name: Seq<char>)
    requires
        db.wf(),
        db.has_item(cur),
    ensures
        lookup(item_members(db, cur), name) matches Some(next) ==> db.has_item(next),
{
    lemma_index_of_key(item_members(db, cur), name);
    if let Item::Module(m) = cur {
        assert(db.module_wf(db.modules@[m.0 as int]));
    }
}

impl Item {
    pub fn resolve_path(&self, db: &AnalyzerDb, path: &ast::Path) -> (r: Analysis<Option<Item>>)
        requires
            db.wf(),
            db.has_item(*self),
            path_walk_defined(db, *self, path.segments@),
        ensures
            resolves_path_to(db, *self, path.segments@, r),
    {
        let mut curr_item = *self;
        let mut i: usize = 0;
        while i < path.segments.len()
            invariant
                db.wf(),
                db.has_item(*self),
                path_walk_defined(db, *self, path.segments@),
                i <= path.segments@.len(),
                path_walk(db, *self, path.segments@, i as nat) == Some(curr_item),
                db.has_item(curr_item),
            decreases path.segments@.len() - i,
        {
            let node = &path.segments[i];
            assert(path_walk(db, *self, path.segments@, i as nat) matches Some(cur) ==> has_members(cur));
            let items = curr_item.items(db);
            proof {
                lemma_lookup_member_valid(db, curr_item, node.kind@);
            }
            curr_item = match item_map_get(&*items, node.kind.as_str()) {
                Some(item) => item,
                None => {
                    let mut diagnostics: Vec<Diagnostic> = Vec::new();
                    diagnostics.push(error("unresolved path item", node.span, "not found"));
                    proof {
                        assert(path_walk(db, *self, path.segments@, (i + 1) as nat) is None);
                        lemma_walk_stays_missing(db, *self, path.segments@, (i + 1) as nat, path.segments@.len());
                    }
                    return Analysis { value: None, diagnostics: Rc::new(diagnostics) };
                },
            };
            i = i + 1;
        }
        Analysis { value: Some(curr_item), diagnostics: Rc::new(Vec::new()) }
    }
}

proof fn lemma_walk_stays_missing(db: &AnalyzerDb, start: Item, segments: Seq<ast::Node<String>>, k: nat, n: nat)
    requires
        path_walk(db, start, segments, k) is None,
        k <= n,
    ensures
        path_walk(db, start, segments, n) is None,
    decreases n - k,
{
    if k < n {
        lemma_walk_stays_missing(db, start, segments, k + 1, n);
    }
}

/// The characters of each string.
pub open spec fn strings_view(v: Seq<String>) -> Seq<Seq<char>> {
    v.map_values(|s: String| s@)
}

fn copy_strings(v: &Vec<String>) -> (c: Vec<String>)
    ensures
        strings_view(c@) == strings_view(v@),
{
    let mut c: Vec<String> = Vec::new();
    let mut i: usize = 0;
    while i < v.len()
        invariant
            i <= v@.len(),
            c@.len() == i,
            forall|j: int| 0 <= j < i ==> (#[trigger] c@[j])@ == v@[j]@,
        decreases v@.len() - i,
    {
        c.push(v[i].clone());
        i = i + 1;
    }
    assert(strings_view(c@) =~= strings_view(v@));
    c
}

impl Item {
    pub fn path(&self, db: &AnalyzerDb) -> (p: Rc<Vec<String>>)
        requires
            db.wf(),
            db.has_item(*self),
        ensures
            strings_view((*p)@) == item_path(db, *self),
        decreases item_rank(db, *self),
    {
        // The path is used to generate a yul identifier,
        // eg `foo::Bar::new` becomes `$$foo$Bar$new`.
        // Right now, the ingot name is the os path, so it could
        // be "my project/src".
        // For now, we'll just leave the ingot out of the path,
        // because we can only compile a single ingot anyway.
        proof {
            lemma_parent_rank(db, *self);
        }
        match self.parent(db) {
            Some(Item::Ingot(_)) | None => {
                let mut path: Vec<String> = Vec::new();
                path.push(self.name(db));
                assert(strings_view(path@) =~= item_path(db, *self));
                Rc::new(path)
            },
            Some(parent) => {
                let parent_path = parent.path(db);
                let mut path = copy_strings(&*parent_path);
                let ghost before = path@;
                path.push(self.name(db));
                assert(strings_view(path@) =~= strings_view(before).push(item_name(db, *self)));
                Rc::new(path)
            },
        }
    }
}

/// Whether a module's path within its ingot can be told: the module belongs
/// to an ingot, and, when it comes from a file, the ingot holds that file.
pub open spec fn has_ingot_path(db: &AnalyzerDb, m: ModuleId) -> bool {
    match db.module(m).data.context {
        ModuleContext::Ingot(ingot) => match db.module(m).data.file_content {
            ModuleFileContent::Dir { .. } => true,
            ModuleFileContent::File { file } => db.ingot(ingot).data.fe_files@.contains_key(file.0),
        },
        ModuleContext::Global(_) => false,
    }
}

/// A module's path within its ingot: its directory, or the name of its file.
pub open spec fn ingot_path_of(db: &AnalyzerDb, m: ModuleId) -> Seq<char> {
    match db.module(m).data.context {
        ModuleContext::Ingot(ingot) => match db.module(m).data.file_content {
            ModuleFileContent::Dir { dir_path } => dir_path@,
            ModuleFileContent::File { file } => db.ingot(ingot).data.fe_files@[file.0].0.name@,
        },
        ModuleContext::Global(_) => Seq::empty(),
    }
}

impl ModuleId {
    pub fn ingot_path(&self, db: &AnalyzerDb) -> (p: String)
        requires
            db.wf(),
            db.has_module(*self),
            has_ingot_path(db, *self),
        ensures
            p@ == ingot_path_of(db, *self),
    {
        proof {
            assert(db.module_wf(db.modules@[self.0 as int]));
        }
        let data = &db.modules[self.0 as usize].data;
        match data.context {
            ModuleContext::Ingot(ingot) => match &data.file_content {
                ModuleFileContent::Dir { dir_path } => dir_path.clone(),
                ModuleFileContent::File { file } => {
                    match db.ingots[ingot.0 as usize].data.fe_files.get(&file.0) {
                        Some(entry) => entry.0.name.clone(),
                        None => {
                            proof {
                                assert(false);
                            }
                            String::new()
                        },
                    }
                },
            },
            ModuleContext::Global(_) => {
                proof {
                    assert(false);
                }
                String::new()
            },
        }
    }
}

impl ModuleId {
    pub fn ast(&self, db: &AnalyzerDb) -> (m: ast::Module)
        requires
            db.has_module(*self),
        ensures
            ast::same_module(db.module(*self).data.ast, m),
    {
        ast::copy_module(&db.modules[self.0 as usize].data.ast)
    }
}

impl ModuleConstantId {
    pub fn value(&self, db: &AnalyzerDb) -> (e: ast::Expr)
        requires
            db.has_module_constant(*self),
        ensures
            ast::same_expr(
                db.module_constant(*self).data.ast.kind.value,
                ast::Node { kind: e, span: db.module_constant(*self).data.ast.kind.value.span },
            ),
    {
        ast::copy_expr(&db.module_constants[self.0 as usize].data.ast.kind.value).kind
    }
}

// ---------------------------------------------------------------------------
// Diagnostics.

/// The diagnostics of each element of `s`, one after the other.
pub open spec fn concat_map<A>(s: Seq<A>, f: spec_fn(A) -> Seq<DiagnosticView>) -> Seq<
    DiagnosticView,
>
    decreases s.len(),
{
    if s.len() == 0 {
        Seq::empty()
    } else {
        concat_map(s.drop_last(), f) + f(s.last())
    }
}

pub proof fn lemma_concat_map_step<A>(s: Seq<A>, f: spec_fn(A) -> Seq<DiagnosticView>, k: int)
    requires
        0 <= k < s.len(),
    ensures
        concat_map(s.take(k + 1), f) == concat_map(s.take(k), f) + f(s[k]),
{
    assert(s.take(k + 1).drop_last() =~= s.take(k));
}

/// What the analysis reported of the value an `Analysis` carries.
pub open spec fn reported_by<T>(a: Analysis<T>) -> Seq<DiagnosticView> {
    diagnostics_view(a.diagnostics@)
}

pub open spec fn contract_field_diagnostics(db: &AnalyzerDb, f: ContractFieldId) -> Seq<DiagnosticView> {
    reported_by(db.contract_field(f).typ)
}

pub open spec fn struct_field_diagnostics(db: &AnalyzerDb, f: StructFieldId) -> Seq<DiagnosticView> {
    reported_by(db.struct_field(f).typ)
}

pub open spec fn event_diagnostics(db: &AnalyzerDb, e: EventId) -> Seq<DiagnosticView> {
    reported_by(db.event(e).typ)
}

/// A function's diagnostics: its signature's, then its body's.
pub open spec fn function_diagnostics(db: &AnalyzerDb, f: FunctionId) -> Seq<DiagnosticView> {
    reported_by(db.function(f).signature) + reported_by(db.function(f).body)
}

pub open spec fn type_alias_diagnostics(db: &AnalyzerDb, t: TypeAliasId) -> Seq<DiagnosticView> {
    reported_by(db.type_alias(t).typ)
}

/// A contract's diagnostics: its field map's, each field's, its event map's,
/// each event's, its init function's, its function map's, each function's.
pub open spec fn contract_diagnostics(db: &AnalyzerDb, c: ContractId) -> Seq<DiagnosticView> {
    let e = db.contract(c);
    reported_by(e.field_map) + concat_map(e.all_fields@, |f: ContractFieldId| contract_field_diagnostics(db, f))
        + reported_by(e.event_map) + concat_map(e.all_events@, |v: EventId| event_diagnostics(db, v))
        + reported_by(e.init_function) + reported_by(e.function_map) + concat_map(
        e.all_functions@,
        |f: FunctionId| function_diagnostics(db, f),
    )
}

/// A struct's diagnostics: its field map's, each field's, each function's.
pub open spec fn struct_diagnostics(db: &AnalyzerDb, s: StructId) -> Seq<DiagnosticView> {
    let e = db.struct_entry(s);
    reported_by(e.field_map) + concat_map(e.all_fields@, |f: StructFieldId| struct_field_diagnostics(db, f))
        + concat_map(e.all_functions@, |f: FunctionId| function_diagnostics(db, f))
}

/// Booleans, numbers, strings and the unit value `()`.
pub open spec fn is_literal(e: ast::Expr) -> bool {
    match e {
        ast::Expr::Bool(_) | ast::Expr::Num(_) | ast::Expr::Str(_) | ast::Expr::Unit => true,
        _ => false,
    }
}

/// A constant's diagnostics: its type's, then an error if its value is not
/// a literal.
pub open spec fn constant_diagnostics(db: &AnalyzerDb, c: ModuleConstantId) -> Seq<DiagnosticView> {
    let value = db.module_constant(c).data.ast.kind.value;
    reported_by(db.module_constant(c).typ) + if is_literal(value.kind) {
        Seq::empty()
    } else {
        seq![
            error_view(
                "non-literal expressions not yet supported for constants"@,
                value.span,
                "not a literal"@,
            ),
        ]
    }
}

pub open spec fn type_def_diagnostics(db: &AnalyzerDb, t: TypeDef) -> Seq<DiagnosticView> {
    match t {
        TypeDef::Alias(id) => type_alias_diagnostics(db, id),
        TypeDef::Struct(id) => struct_diagnostics(db, id),
        TypeDef::Contract(id) => contract_diagnostics(db, id),
        TypeDef::Primitive(_) => Seq::empty(),
    }
}

/// The diagnostics of an item declared in a module.
pub open spec fn declared_item_diagnostics(db: &AnalyzerDb, item: Item) -> Seq<DiagnosticView> {
    match item {
        Item::Type(t) => type_def_diagnostics(db, t),
        Item::Event(id) => event_diagnostics(db, id),
        Item::Function(id) => function_diagnostics(db, id),
        Item::Constant(id) => constant_diagnostics(db, id),
        _ => Seq::empty(),
    }
}

/// What checking the first `n` statements of a module against the
/// compiler's version reported: for each `pragma` statement among them, in
/// order, its diagnostic if checking returned one.
pub open spec fn pragma_reports(
    body: Seq<ast::ModuleStmt>,
    checks: Seq<Option<Diagnostic>>,
    n: nat,
) -> Seq<DiagnosticView>
    decreases n,
{
    if n == 0 {
        Seq::empty()
    } else {
        let before = pragma_reports(body, checks, (n - 1) as nat);
        if body[n - 1] is Pragma && checks[n - 1] is Some {
            before.push(checks[n - 1].unwrap()@)
        } else {
            before
        }
    }
}

/// Only `pragma` statements report: where none of the first `n` statements is
/// one, they report nothing, whatever was stored for them.
pub proof fn lemma_pragma_reports_need_pragmas(
    body: Seq<ast::ModuleStmt>,
    checks: Seq<Option<Diagnostic>>,
    n: nat,
)
    requires
        n <= body.len(),
        forall|i: int| 0 <= i < n ==> !(#[trigger] body[i] is Pragma),
    ensures
        pragma_reports(body, checks, n) == Seq::<DiagnosticView>::empty(),
    decreases n,
{
    if n > 0 {
        lemma_pragma_reports_need_pragmas(body, checks, (n - 1) as nat);
        assert(!(body[n - 1] is Pragma));
    }
}

/// What checking a module's `pragma` statements reported, in statement order.
pub open spec fn module_pragma_reports(db: &AnalyzerDb, m: ModuleId) -> Seq<DiagnosticView> {
    pragma_reports(
        db.module(m).data.ast.body@,
        db.module(m).pragma_checks@,
        db.module(m).data.ast.body@.len(),
    )
}

/// Whether collecting the diagnostics of `item` ends within `fuel` levels of
/// modules and ingots: a module descends into the items it lists, an ingot
/// into its modules.
pub open spec fn listing_ends(db: &AnalyzerDb, item: Item, fuel: nat) -> bool
    decreases fuel, 1int,
{
    match item {
        Item::Module(m) => module_listing_ends(db, m, fuel),
        Item::Ingot(i) => fuel > 0 && forall|k: int|
            0 <= k < db.ingot(i).all_modules@.len() ==> module_listing_ends(
                db,
                #[trigger] db.ingot(i).all_modules@[k],
                (fuel - 1) as nat,
            ),
        _ => true,
    }
}

/// Whether collecting the diagnostics of a module ends within `fuel` levels.
pub open spec fn module_listing_ends(db: &AnalyzerDb, m: ModuleId, fuel: nat) -> bool
    decreases fuel, 0int,
{
    fuel > 0 && forall|k: int|
        0 <= k < db.module(m).all_items@.len() ==> listing_ends(
            db,
            #[trigger] db.module(m).all_items@[k],
            (fuel - 1) as nat,
        )
}

/// One level more than there are modules and ingots.
pub open spec fn listing_bound(db: &AnalyzerDb) -> nat {
    db.modules@.len() + db.ingots@.len() + 1
}

/// Collecting the diagnostics of `item` ends within `listing_bound` levels,
/// as it does wherever no chain of listings from `item` repeats an item
/// (`lemma_acyclic_listing_ends`).
pub open spec fn diagnostics_end(db: &AnalyzerDb, item: Item) -> bool {
    listing_ends(db, item, listing_bound(db))
}

/// Whether collecting the diagnostics of `a` descends directly into `b`: a
/// module into each item it lists, an ingot into each of its modules.
pub open spec fn lists_item(db: &AnalyzerDb, a: Item, b: Item) -> bool {
    match a {
        Item::Module(m) => db.module(m).all_items@.contains(b),
        Item::Ingot(i) => match b {
            Item::Module(m) => db.ingot(i).all_modules@.contains(m),
            _ => false,
        },
        _ => false,
    }
}

/// Each item of `path` lists the next.
pub open spec fn is_listing_chain(db: &AnalyzerDb, path: Seq<Item>) -> bool {
    forall|k: int| 0 < k < path.len() ==> lists_item(db, path[k - 1], #[trigger] path[k])
}

/// No chain of listings that starts at `item` passes an item twice.
pub open spec fn listings_acyclic_from(db: &AnalyzerDb, item: Item) -> bool {
    forall|path: Seq<Item>|
        path.len() >= 1 && path[0] == item && #[trigger] is_listing_chain(db, path)
            ==> path.no_duplicates()
}

/// A module or an ingot of the database.
pub open spec fn is_listing_item(db: &AnalyzerDb, item: Item) -> bool {
    match item {
        Item::Module(m) => db.has_module(m),
        Item::Ingot(i) => db.has_ingot(i),
        _ => false,
    }
}

/// Distinct modules and ingots are no more than there are.
proof fn lemma_listing_items_bounded(db: &AnalyzerDb, path: Seq<Item>)
    requires
        path.no_duplicates(),
        forall|k: int| 0 <= k < path.len() ==> is_listing_item(db, #[trigger] path[k]),
    ensures
        path.len() <= db.modules@.len() + db.ingots@.len(),
{
    let nm: int = db.modules@.len() as int;
    let n: int = nm + db.ingots@.len();
    let codes = path.map_values(
        |x: Item|
            match x {
                Item::Module(m) => m.0 as int,
                Item::Ingot(i) => nm + i.0,
                _ => 0int,
            },
    );
    assert(codes.no_duplicates()) by {
        assert forall|i: int, j: int|
            0 <= i < codes.len() && 0 <= j < codes.len() && i != j implies codes[i] != codes[j] by {
            assert(is_listing_item(db, path[i]));
            assert(is_listing_item(db, path[j]));
            assert(path[i] != path[j]);
        }
    }
    codes.unique_seq_to_set();
    vstd::set_lib::lemma_int_range(0, n);
    assert(codes.to_set().subset_of(vstd::set_lib::set_int_range(0, n))) by {
        assert forall|c: int| codes.to_set().contains(c) implies vstd::set_lib::set_int_range(
            0,
            n,
        ).contains(c) by {
            assert(codes.contains(c));
            let k = choose|k: int| 0 <= k < codes.len() && codes[k] == c;
            assert(is_listing_item(db, path[k]));
        }
    }
    vstd::set_lib::lemma_len_subset(codes.to_set(), vstd::set_lib::set_int_range(0, n));
}

/// Collecting from the last item of a chain that starts where no chain
/// repeats an item ends within the levels left beside the chain's length.
proof fn lemma_chain_listing_ends(db: &AnalyzerDb, path: Seq<Item>, fuel: nat)
    requires
        db.wf(),
        path.len() >= 1,
        is_listing_chain(db, path),
        listings_acyclic_from(db, path[0]),
        forall|k: int| 0 <= k < path.len() ==> db.has_item(#[trigger] path[k]),
        path.len() + fuel > db.modules@.len() + db.ingots@.len(),
    ensures
        listing_ends(db, path.last(), fuel),
    decreases fuel,
{
    let x = path.last();
    if x is Module || x is Ingot {
        if fuel == 0 {
            assert(path.no_duplicates());
            assert forall|k: int| 0 <= k < path.len() implies is_listing_item(db, #[trigger] path[k]) by {
                assert(db.has_item(path[k]));
                if k < path.len() - 1 {
                    assert(lists_item(db, path[k + 1 - 1], path[k + 1]));
                }
            }
            lemma_listing_items_bounded(db, path);
        }
        match x {
            Item::Module(m) => {
                assert(db.module_wf(db.modules@[m.0 as int]));
                let items = db.module(m).all_items@;
                assert forall|k: int| 0 <= k < items.len() implies listing_ends(
                    db,
                    #[trigger] items[k],
                    (fuel - 1) as nat,
                ) by {
                    let next = path.push(items[k]);
                    assert(items.contains(items[k]));
                    assert(lists_item(db, path.last(), items[k]));
                    assert(is_listing_chain(db, next)) by {
                        assert forall|j: int| 0 < j < next.len() implies lists_item(
                            db,
                            next[j - 1],
                            #[trigger] next[j],
                        ) by {
                            if j < path.len() {
                                assert(next[j] == path[j] && next[j - 1] == path[j - 1]);
                            }
                        }
                    }
                    assert(next.last() == items[k]);
                    lemma_chain_listing_ends(db, next, (fuel - 1) as nat);
                }
                assert(module_listing_ends(db, m, fuel));
            },
            Item::Ingot(i) => {
                assert(db.ingot_wf(db.ingots@[i.0 as int]));
                let modules = db.ingot(i).all_modules@;
                assert forall|k: int| 0 <= k < modules.len() implies module_listing_ends(
                    db,
                    #[trigger] modules[k],
                    (fuel - 1) as nat,
                ) by {
                    let next = path.push(Item::Module(modules[k]));
                    assert(modules.contains(modules[k]));
                    assert(lists_item(db, path.last(), Item::Module(modules[k])));
                    assert(is_listing_chain(db, next)) by {
                        assert forall|j: int| 0 < j < next.len() implies lists_item(
                            db,
                            next[j - 1],
                            #[trigger] next[j],
                        ) by {
                            if j < path.len() {
                                assert(next[j] == path[j] && next[j - 1] == path[j - 1]);
                            }
                        }
                    }
                    assert(next.last() == Item::Module(modules[k]));
                    lemma_chain_listing_ends(db, next, (fuel - 1) as nat);
                    assert(listing_ends(db, Item::Module(modules[k]), (fuel - 1) as nat));
                }
            },
            _ => {},
        }
    }
}

/// Collecting the diagnostics of an item ends wherever no chain of listings
/// from it, a module listing its items and an ingot its modules, passes an
/// item twice.
pub proof fn lemma_acyclic_listing_ends(db: &AnalyzerDb, item: Item)
    requires
        db.wf(),
        db.has_item(item),
        listings_acyclic_from(db, item),
    ensures
        diagnostics_end(db, item),
{
    let path = seq![item];
    assert(is_listing_chain(db, path));
    lemma_chain_listing_ends(db, path, listing_bound(db));
}

pub open spec fn item_diagnostics_within(db: &AnalyzerDb, item: Item, fuel: nat) -> Seq<
    DiagnosticView,
>
    decreases fuel, 2int, 0int,
{
    match item {
        Item::Module(m) => module_diagnostics_within(db, m, fuel),
        Item::Ingot(i) => ingot_diagnostics_within(db, i, fuel),
        _ => declared_item_diagnostics(db, item),
    }
}

/// A module's diagnostics: its pragmas', its item map's (duplicate names),
/// then each of its items'.
pub open spec fn module_diagnostics_within(db: &AnalyzerDb, m: ModuleId, fuel: nat) -> Seq<
    DiagnosticView,
>
    decreases fuel, 1int, 0int,
{
    module_pragma_reports(db, m) + reported_by(db.module(m).item_map) + items_diagnostics_within(
        db,
        db.module(m).all_items@,
        fuel,
    )
}

/// The diagnostics of each item of a module's list, one after the other.
pub open spec fn items_diagnostics_within(db: &AnalyzerDb, items: Seq<Item>, fuel: nat) -> Seq<
    DiagnosticView,
>
    decreases fuel, 0int, items.len(),
{
    if fuel == 0 || items.len() == 0 {
        Seq::empty()
    } else {
        items_diagnostics_within(db, items.drop_last(), fuel) + item_diagnostics_within(
            db,
            items.last(),
            (fuel - 1) as nat,
        )
    }
}

/// An ingot's diagnostics: each module's, then its main module's.
pub open spec fn ingot_diagnostics_within(db: &AnalyzerDb, i: IngotId, fuel: nat) -> Seq<
    DiagnosticView,
>
    decreases fuel, 1int, 0int,
{
    modules_diagnostics_within(db, db.ingot(i).all_modules@, fuel) + reported_by(
        db.ingot(i).main_module,
    )
}

pub open spec fn modules_diagnostics_within(db: &AnalyzerDb, modules: Seq<ModuleId>, fuel: nat) -> Seq<
    DiagnosticView,
>
    decreases fuel, 0int, modules.len(),
{
    if fuel == 0 || modules.len() == 0 {
        Seq::empty()
    } else {
        modules_diagnostics_within(db, modules.drop_last(), fuel) + module_diagnostics_within(
            db,
            modules.last(),
            (fuel - 1) as nat,
        )
    }
}

/// The diagnostics of an item.
pub open spec fn item_diagnostics(db: &AnalyzerDb, item: Item) -> Seq<DiagnosticView> {
    item_diagnostics_within(db, item, listing_bound(db))
}

/// The diagnostics of a module.
pub open spec fn module_diagnostics(db: &AnalyzerDb, m: ModuleId) -> Seq<DiagnosticView> {
    module_diagnostics_within(db, m, listing_bound(db))
}

/// The diagnostics of an ingot.
pub open spec fn ingot_diagnostics(db: &AnalyzerDb, i: IngotId) -> Seq<DiagnosticView> {
    ingot_diagnostics_within(db, i, listing_bound(db))
}

proof fn lemma_ingot_lists(db: &AnalyzerDb, i: IngotId, fuel: nat, k: int)
    requires
        listing_ends(db, Item::Ingot(i), fuel),
        0 <= k < db.ingot(i).all_modules@.len(),
    ensures
        fuel > 0,
        listing_ends(db, Item::Module(db.ingot(i).all_modules@[k]), (fuel - 1) as nat),
{
    let item = Item::Ingot(i);
    assert(item matches Item::Ingot(j) && j == i);
    assert(listing_ends(db, item, fuel) == (fuel > 0 && forall|j: int|
        0 <= j < db.ingot(i).all_modules@.len() ==> module_listing_ends(
            db,
            #[trigger] db.ingot(i).all_modules@[j],
            (fuel - 1) as nat,
        )));
    assert(module_listing_ends(db, db.ingot(i).all_modules@[k], (fuel - 1) as nat));
}

proof fn lemma_items_step(db: &AnalyzerDb, items: Seq<Item>, fuel: nat, k: int)
    requires
        fuel > 0,
        0 <= k < items.len(),
    ensures
        items_diagnostics_within(db, items.take(k + 1), fuel) == items_diagnostics_within(
            db,
            items.take(k),
            fuel,
        ) + item_diagnostics_within(db, items[k], (fuel - 1) as nat),
{
    assert(items.take(k + 1).drop_last() =~= items.take(k));
}

proof fn lemma_modules_step(db: &AnalyzerDb, modules: Seq<ModuleId>, fuel: nat, k: int)
    requires
        fuel > 0,
        0 <= k < modules.len(),
    ensures
        modules_diagnostics_within(db, modules.take(k + 1), fuel) == modules_diagnostics_within(
            db,
            modules.take(k),
            fuel,
        ) + module_diagnostics_within(db, modules[k], (fuel - 1) as nat),
{
    assert(modules.take(k + 1).drop_last() =~= modules.take(k));
}

/// Where collecting from `item` ends within `fuel` levels, more levels
/// change nothing.
proof fn lemma_item_within_stable(db: &AnalyzerDb, item: Item, fuel: nat, more: nat)
    requires
        listing_ends(db, item, fuel),
        fuel <= more,
    ensures
        listing_ends(db, item, more),
        item_diagnostics_within(db, item, fuel) == item_diagnostics_within(db, item, more),
    decreases fuel, 1int, 0int,
{
    match item {
        Item::Module(m) => {
            let items = db.module(m).all_items@;
            assert(fuel > 0);
            assert forall|k: int| 0 <= k < items.len() implies listing_ends(
                db,
                #[trigger] items[k],
                (more - 1) as nat,
            ) by {
                lemma_item_within_stable(db, items[k], (fuel - 1) as nat, (more - 1) as nat);
            }
            assert(module_listing_ends(db, m, more));
            lemma_items_within_stable(db, items, fuel, more);
        },
        Item::Ingot(i) => {
            let modules = db.ingot(i).all_modules@;
            assert(fuel > 0);
            assert forall|k: int| 0 <= k < modules.len() implies module_listing_ends(
                db,
                #[trigger] modules[k],
                (more - 1) as nat,
            ) by {
                assert(module_listing_ends(db, modules[k], (fuel - 1) as nat));
                assert(listing_ends(db, Item::Module(modules[k]), (fuel - 1) as nat));
                lemma_item_within_stable(
                    db,
                    Item::Module(modules[k]),
                    (fuel - 1) as nat,
                    (more - 1) as nat,
                );
            }
            lemma_modules_within_stable(db, modules, fuel, more);
        },
        _ => {},
    }
}

proof fn lemma_items_within_stable(db: &AnalyzerDb, items: Seq<Item>, fuel: nat, more: nat)
    requires
        fuel > 0,
        fuel <= more,
        forall|k: int| 0 <= k < items.len() ==> listing_ends(db, #[trigger] items[k], (fuel - 1) as nat),
    ensures
        items_diagnostics_within(db, items, fuel) == items_diagnostics_within(db, items, more),
    decreases fuel, 0int, items.len(),
{
    if items.len() > 0 {
        lemma_items_within_stable(db, items.drop_last(), fuel, more);
        assert(listing_ends(db, items[items.len() - 1], (fuel - 1) as nat));
        lemma_item_within_stable(db, items.last(), (fuel - 1) as nat, (more - 1) as nat);
    }
}

proof fn lemma_modules_within_stable(db: &AnalyzerDb, modules: Seq<ModuleId>, fuel: nat, more: nat)
    requires
        fuel > 0,
        fuel <= more,
        forall|k: int|
            0 <= k < modules.len() ==> module_listing_ends(db, #[trigger] modules[k], (fuel - 1) as nat),
    ensures
        modules_diagnostics_within(db, modules, fuel) == modules_diagnostics_within(db, modules, more),
    decreases fuel, 0int, modules.len(),
{
    if modules.len() > 0 {
        lemma_modules_within_stable(db, modules.drop_last(), fuel, more);
        let m = modules.last();
        assert(module_listing_ends(db, modules[modules.len() - 1], (fuel - 1) as nat));
        assert(listing_ends(db, Item::Module(m), (fuel - 1) as nat));
        lemma_item_within_stable(db, Item::Module(m), (fuel - 1) as nat, (more - 1) as nat);
    }
}

/// The listed items' share of collecting at `fuel` levels is each item's own
/// diagnostics, one after the other.
proof fn lemma_items_within_each(
    db: &AnalyzerDb,
    items: Seq<Item>,
    fuel: nat,
    f: spec_fn(Item) -> Seq<DiagnosticView>,
)
    requires
        fuel == listing_bound(db),
        forall|k: int| 0 <= k < items.len() ==> listing_ends(db, #[trigger] items[k], (fuel - 1) as nat),
        forall|x: Item| #[trigger] f(x) == item_diagnostics(db, x),
    ensures
        items_diagnostics_within(db, items, fuel) == concat_map(items, f),
    decreases items.len(),
{
    if items.len() > 0 {
        lemma_items_within_each(db, items.drop_last(), fuel, f);
        assert(listing_ends(db, items[items.len() - 1], (fuel - 1) as nat));
        lemma_item_within_stable(db, items.last(), (fuel - 1) as nat, fuel);
    }
}

proof fn lemma_modules_within_each(
    db: &AnalyzerDb,
    modules: Seq<ModuleId>,
    fuel: nat,
    f: spec_fn(ModuleId) -> Seq<DiagnosticView>,
)
    requires
        fuel == listing_bound(db),
        forall|k: int|
            0 <= k < modules.len() ==> module_listing_ends(db, #[trigger] modules[k], (fuel - 1) as nat),
        forall|m: ModuleId| #[trigger] f(m) == module_diagnostics(db, m),
    ensures
        modules_diagnostics_within(db, modules, fuel) == concat_map(modules, f),
    decreases modules.len(),
{
    if modules.len() > 0 {
        lemma_modules_within_each(db, modules.drop_last(), fuel, f);
        let m = modules.last();
        assert(module_listing_ends(db, modules[modules.len() - 1], (fuel - 1) as nat));
        assert(listing_ends(db, Item::Module(m), (fuel - 1) as nat));
        lemma_item_within_stable(db, Item::Module(m), (fuel - 1) as nat, fuel);
    }
}

/// A module's diagnostics are what checking its `pragma` statements
/// reported, then its item map's, then the diagnostics of each item it
/// lists, in order, each item's own.
pub proof fn lemma_module_diagnostics_of_items(db: &AnalyzerDb, m: ModuleId)
    requires
        db.wf(),
        db.has_module(m),
        listings_acyclic_from(db, Item::Module(m)),
    ensures
        module_diagnostics(db, m) == module_pragma_reports(db, m) + reported_by(db.module(m).item_map)
            + concat_map(db.module(m).all_items@, |x: Item| item_diagnostics(db, x)),
{
    lemma_acyclic_listing_ends(db, Item::Module(m));
    let fuel = listing_bound(db);
    assert(module_listing_ends(db, m, fuel));
    lemma_items_within_each(db, db.module(m).all_items@, fuel, |x: Item| item_diagnostics(db, x));
}

/// An ingot's diagnostics are the diagnostics of each of its modules, in
/// order, each module's own, then those of finding its main module.
pub proof fn lemma_ingot_diagnostics_of_modules(db: &AnalyzerDb, i: IngotId)
    requires
        db.wf(),
        db.has_ingot(i),
        listings_acyclic_from(db, Item::Ingot(i)),
    ensures
        ingot_diagnostics(db, i) == concat_map(
            db.ingot(i).all_modules@,
            |m: ModuleId| module_diagnostics(db, m),
        ) + reported_by(db.ingot(i).main_module),
{
    lemma_acyclic_listing_ends(db, Item::Ingot(i));
    let fuel = listing_bound(db);
    assert forall|k: int| 0 <= k < db.ingot(i).all_modules@.len() implies module_listing_ends(
        db,
        #[trigger] db.ingot(i).all_modules@[k],
        (fuel - 1) as nat,
    ) by {
        lemma_ingot_lists(db, i, fuel, k);
    }
    lemma_modules_within_each(
        db,
        db.ingot(i).all_modules@,
        fuel,
        |m: ModuleId| module_diagnostics(db, m),
    );
}

impl ContractFieldId {
    pub fn sink_diagnostics(&self, db: &AnalyzerDb, sink: &mut impl DiagnosticSink)
        requires
            db.has_contract_field(*self),
        ensures
            final(sink).reported() == old(sink).reported() + contract_field_diagnostics(db, *self),
    {
        sink.push_all(db.contract_fields[self.0 as usize].typ.diagnostics.as_slice())
    }
}

impl StructFieldId {
    pub fn sink_diagnostics(&self, db: &AnalyzerDb, sink: &mut impl DiagnosticSink)
        requires
            db.has_struct_field(*self),
        ensures
            final(sink).reported() == old(sink).reported() + struct_field_diagnostics(db, *self),
    {
        sink.push_all(db.struct_fields[self.0 as usize].typ.diagnostics.as_slice())
    }
}

impl EventId {
    pub fn sink_diagnostics(&self, db: &AnalyzerDb, sink: &mut impl DiagnosticSink)
        requires
            db.has_event(*self),
        ensures
            final(sink).reported() == old(sink).reported() + event_diagnostics(db, *self),
    {
        sink.push_all(db.events[self.0 as usize].typ.diagnostics.as_slice())
    }
}

impl FunctionId {
    pub fn sink_diagnostics(&self, db: &AnalyzerDb, sink: &mut impl DiagnosticSink)
        requires
            db.has_function(*self),
        ensures
            final(sink).reported() == old(sink).reported() + function_diagnostics(db, *self),
    {
        let entry = &db.functions[self.0 as usize];
        sink.push_all(entry.signature.diagnostics.as_slice());
        sink.push_all(entry.body.diagnostics.as_slice());
        assert(sink.reported() =~= old(sink).reported() + function_diagnostics(db, *self));
    }
}

impl TypeAliasId {
    pub fn sink_diagnostics(&self, db: &AnalyzerDb, sink: &mut impl DiagnosticSink)
        requires
            db.has_type_alias(*self),
        ensures
            final(sink).reported() == old(sink).reported() + type_alias_diagnostics(db, *self),
    {
        sink.push_all(db.type_aliases[self.0 as usize].typ.diagnostics.as_slice())
    }
}

impl ModuleConstantId {
    pub fn sink_diagnostics(&self, db: &AnalyzerDb, sink: &mut impl DiagnosticSink)
        requires
            db.has_module_constant(*self),
        ensures
            final(sink).reported() == old(sink).reported() + constant_diagnostics(db, *self),
    {
        let data = &db.module_constants[self.0 as usize];
        sink.push_all(data.typ.diagnostics.as_slice());
        let value = &data.data.ast.kind.value;
        let literal = match &value.kind {
            ast::Expr::Bool(_) | ast::Expr::Num(_) | ast::Expr::Str(_) | ast::Expr::Unit => true,
            _ => false,
        };
        if !literal {
            let d = error(
                "non-literal expressions not yet supported for constants",
                value.span,
                "not a literal",
            );
            proof {
                lemma_error_view(
                    d,
                    "non-literal expressions not yet supported for constants"@,
                    value.span,
                    "not a literal"@,
                );
            }
            sink.push(&d);
        }
        assert(sink.reported() =~= old(sink).reported() + constant_diagnostics(db, *self));
    }
}

impl ContractId {
    pub fn sink_diagnostics(&self, db: &AnalyzerDb, sink: &mut impl DiagnosticSink)
        requires
            db.wf(),
            db.has_contract(*self),
        ensures
            final(sink).reported() == old(sink).reported() + contract_diagnostics(db, *self),
    {
        proof {
            assert(db.contract_wf(db.contracts@[self.0 as int]));
        }
        let entry = &db.contracts[self.0 as usize];
        let ghost start = sink.reported();
        // fields
        sink.push_all(entry.field_map.diagnostics.as_slice());
        let fields = &entry.all_fields;
        let ghost after_map = sink.reported();
        let ghost ff = |f: ContractFieldId| contract_field_diagnostics(db, f);
        let mut k: usize = 0;
        while k < fields.len()
            invariant
                ff == (|f: ContractFieldId| contract_field_diagnostics(db, f)),
                db.contract_wf(db.contract(*self)),
                *fields == *db.contract(*self).all_fields,
                k <= fields@.len(),
                sink.reported() == after_map + concat_map(fields@.take(k as int), ff),
            decreases fields@.len() - k,
        {
            proof {
                lemma_concat_map_step(fields@, ff, k as int);
            }
            fields[k].sink_diagnostics(db, sink);
            k = k + 1;
            assert(sink.reported() =~= after_map + concat_map(fields@.take(k as int), ff));
        }
        assert(fields@.take(k as int) =~= fields@);
        // events
        sink.push_all(entry.event_map.diagnostics.as_slice());
        let events = &entry.all_events;
        let ghost after_events_map = sink.reported();
        let ghost fe = |e: EventId| event_diagnostics(db, e);
        let mut k: usize = 0;
        while k < events.len()
            invariant
                fe == (|e: EventId| event_diagnostics(db, e)),
                db.contract_wf(db.contract(*self)),
                *events == *db.contract(*self).all_events,
                k <= events@.len(),
                sink.reported() == after_events_map + concat_map(events@.take(k as int), fe),
            decreases events@.len() - k,
        {
            proof {
                lemma_concat_map_step(events@, fe, k as int);
            }
            events[k].sink_diagnostics(db, sink);
            k = k + 1;
            assert(sink.reported() =~= after_events_map + concat_map(events@.take(k as int), fe));
        }
        assert(events@.take(k as int) =~= events@);
        // functions
        sink.push_all(entry.init_function.diagnostics.as_slice());
        sink.push_all(entry.function_map.diagnostics.as_slice());
        let functions = &entry.all_functions;
        let ghost after_function_map = sink.reported();
        let ghost fnf = |f: FunctionId| function_diagnostics(db, f);
        let mut k: usize = 0;
        while k < functions.len()
            invariant
                fnf == (|f: FunctionId| function_diagnostics(db, f)),
                db.contract_wf(db.contract(*self)),
                *functions == *db.contract(*self).all_functions,
                k <= functions@.len(),
                sink.reported() == after_function_map + concat_map(functions@.take(k as int), fnf),
            decreases functions@.len() - k,
        {
            proof {
                lemma_concat_map_step(functions@, fnf, k as int);
            }
            functions[k].sink_diagnostics(db, sink);
            k = k + 1;
            assert(sink.reported() =~= after_function_map + concat_map(functions@.take(k as int), fnf));
        }
        assert(functions@.take(k as int) =~= functions@);
        assert(sink.reported() =~= start + contract_diagnostics(db, *self));
    }
}

impl StructId {
    pub fn sink_diagnostics(&self, db: &AnalyzerDb, sink: &mut impl DiagnosticSink)
        requires
            db.wf(),
            db.has_struct(*self),
        ensures
            final(sink).reported() == old(sink).reported() + struct_diagnostics(db, *self),
    {
        proof {
            assert(db.struct_wf(db.structs@[self.0 as int]));
        }
        let entry = &db.structs[self.0 as usize];
        let ghost start = sink.reported();
        sink.push_all(entry.field_map.diagnostics.as_slice());
        let fields = &entry.all_fields;
        let ghost after_map = sink.reported();
        let ghost fsf = |f: StructFieldId| struct_field_diagnostics(db, f);
        let mut k: usize = 0;
        while k < fields.len()
            invariant
                fsf == (|f: StructFieldId| struct_field_diagnostics(db, f)),
                db.struct_wf(db.struct_entry(*self)),
                *fields == *db.struct_entry(*self).all_fields,
                k <= fields@.len(),
                sink.reported() == after_map + concat_map(fields@.take(k as int), fsf),
            decreases fields@.len() - k,
        {
            proof {
                lemma_concat_map_step(fields@, fsf, k as int);
            }
            fields[k].sink_diagnostics(db, sink);
            k = k + 1;
            assert(sink.reported() =~= after_map + concat_map(fields@.take(k as int), fsf));
        }
        assert(fields@.take(k as int) =~= fields@);
        let functions = &entry.all_functions;
        let ghost after_fields = sink.reported();
        let ghost fnf = |f: FunctionId| function_diagnostics(db, f);
        let mut k: usize = 0;
        while k < functions.len()
            invariant
                fnf == (|f: FunctionId| function_diagnostics(db, f)),
                db.struct_wf(db.struct_entry(*self)),
                *functions == *db.struct_entry(*self).all_functions,
                k <= functions@.len(),
                sink.reported() == after_fields + concat_map(functions@.take(k as int), fnf),
            decreases functions@.len() - k,
        {
            proof {
                lemma_concat_map_step(functions@, fnf, k as int);
            }
            functions[k].sink_diagnostics(db, sink);
            k = k + 1;
            assert(sink.reported() =~= after_fields + concat_map(functions@.take(k as int), fnf));
        }
        assert(functions@.take(k as int) =~= functions@);
        assert(sink.reported() =~= start + struct_diagnostics(db, *self));
    }
}

impl TypeDef {
    pub fn sink_diagnostics(&self, db: &AnalyzerDb, sink: &mut impl DiagnosticSink)
        requires
            db.wf(),
            db.has_type_def(*self),
        ensures
            final(sink).reported() == old(sink).reported() + type_def_diagnostics(db, *self),
    {
        match self {
            TypeDef::Alias(id) => id.sink_diagnostics(db, sink),
            TypeDef::Struct(id) => id.sink_diagnostics(db, sink),
            TypeDef::Contract(id) => id.sink_diagnostics(db, sink),
            TypeDef::Primitive(_) => {
                assert(sink.reported() =~= old(sink).reported() + type_def_diagnostics(db, *self));
            },
        }
    }
}

fn sink_item_within(item: Item, db: &AnalyzerDb, sink: &mut impl DiagnosticSink, Ghost(fuel): Ghost<nat>)
    requires
        db.wf(),
        db.has_item(item),
        listing_ends(db, item, fuel),
    ensures
        final(sink).reported() == old(sink).reported() + item_diagnostics_within(db, item, fuel),
    decreases fuel, 2int, 0int,
{
    match item {
        Item::Type(id) => id.sink_diagnostics(db, sink),
        Item::GenericType(_) => {
            assert(sink.reported() =~= old(sink).reported() + item_diagnostics_within(db, item, fuel));
        },
        Item::Event(id) => id.sink_diagnostics(db, sink),
        Item::Function(id) => id.sink_diagnostics(db, sink),
        Item::BuiltinFunction(_) => {
            assert(sink.reported() =~= old(sink).reported() + item_diagnostics_within(db, item, fuel));
        },
        Item::Object(_) => {
            assert(sink.reported() =~= old(sink).reported() + item_diagnostics_within(db, item, fuel));
        },
        Item::Constant(id) => id.sink_diagnostics(db, sink),
        Item::Ingot(id) => sink_ingot_within(id, db, sink, Ghost(fuel)),
        Item::Module(id) => sink_module_within(id, db, sink, Ghost(fuel)),
    }
}

fn sink_module_within(m: ModuleId, db: &AnalyzerDb, sink: &mut impl DiagnosticSink, Ghost(fuel): Ghost<nat>)
    requires
        db.wf(),
        db.has_module(m),
        listing_ends(db, Item::Module(m), fuel),
    ensures
        final(sink).reported() == old(sink).reported() + module_diagnostics_within(db, m, fuel),
    decreases fuel, 1int, 0int,
{
    proof {
        assert(db.module_wf(db.modules@[m.0 as int]));
    }
    let entry = &db.modules[m.0 as usize];
    let ghost start = sink.reported();
    // version requirements of the pragmas
    let body = &entry.data.ast.body;
    let checks = &entry.pragma_checks;
    let mut i: usize = 0;
    while i < body.len()
        invariant
            checks@.len() == body@.len(),
            body@ == db.module(m).data.ast.body@,
            checks@ == db.module(m).pragma_checks@,
            i <= body@.len(),
            sink.reported() == start + pragma_reports(body@, checks@, i as nat),
        decreases body@.len() - i,
    {
        if let ast::ModuleStmt::Pragma(_) = &body[i] {
            if let Some(diag) = &checks[i] {
                sink.push(diag);
            }
        }
        i = i + 1;
        assert(sink.reported() =~= start + pragma_reports(body@, checks@, i as nat));
    }
    // duplicate item name errors
    sink.push_all(entry.item_map.diagnostics.as_slice());
    // errors for each item
    let items = &entry.all_items;
    let ghost after_map = sink.reported();
    let mut k: usize = 0;
    while k < items.len()
        invariant
            db.wf(),
            db.has_module(m),
            db.module_wf(db.module(m)),
            listing_ends(db, Item::Module(m), fuel),
            fuel > 0,
            *items == *db.module(m).all_items,
            k <= items@.len(),
            sink.reported() == after_map + items_diagnostics_within(db, items@.take(k as int), fuel),
        decreases items@.len() - k,
    {
        proof {
            lemma_items_step(db, items@, fuel, k as int);
            assert(listing_ends(db, db.module(m).all_items@[k as int], (fuel - 1) as nat));
        }
        sink_item_within(items[k], db, sink, Ghost((fuel - 1) as nat));
        k = k + 1;
        assert(sink.reported() =~= after_map + items_diagnostics_within(db, items@.take(k as int), fuel));
    }
    assert(items@.take(k as int) =~= items@);
    assert(sink.reported() =~= start + module_diagnostics_within(db, m, fuel));
}

fn sink_ingot_within(i: IngotId, db: &AnalyzerDb, sink: &mut impl DiagnosticSink, Ghost(fuel): Ghost<nat>)
    requires
        db.wf(),
        db.has_ingot(i),
        listing_ends(db, Item::Ingot(i), fuel),
    ensures
        final(sink).reported() == old(sink).reported() + ingot_diagnostics_within(db, i, fuel),
    decreases fuel, 1int, 0int,
{
    proof {
        assert(db.ingot_wf(db.ingots@[i.0 as int]));
    }
    let entry = &db.ingots[i.0 as usize];
    let ghost start = sink.reported();
    let modules = &entry.all_modules;
    let mut k: usize = 0;
    while k < modules.len()
        invariant
            db.wf(),
            db.ingot_wf(db.ingot(i)),
            listing_ends(db, Item::Ingot(i), fuel),
            fuel > 0,
            *modules == *db.ingot(i).all_modules,
            k <= modules@.len(),
            sink.reported() == start + modules_diagnostics_within(db, modules@.take(k as int), fuel),
        decreases modules@.len() - k,
    {
        proof {
            lemma_modules_step(db, modules@, fuel, k as int);
            lemma_ingot_lists(db, i, fuel, k as int);
        }
        sink_module_within(modules[k], db, sink, Ghost((fuel - 1) as nat));
        k = k + 1;
        assert(sink.reported() =~= start + modules_diagnostics_within(db, modules@.take(k as int), fuel));
    }
    assert(modules@.take(k as int) =~= modules@);
    sink.push_all(entry.main_module.diagnostics.as_slice());
    assert(sink.reported() =~= start + ingot_diagnostics_within(db, i, fuel));
}

impl Item {
    pub fn sink_diagnostics(&self, db: &AnalyzerDb, sink: &mut impl DiagnosticSink)
        requires
            db.wf(),
            db.has_item(*self),
            listings_acyclic_from(db, *self),
        ensures
            final(sink).reported() == old(sink).reported() + item_diagnostics(db, *self),
    {
        proof {
            lemma_acyclic_listing_ends(db, *self);
        }
        sink_item_within(*self, db, sink, Ghost(listing_bound(db)))
    }
}

impl ModuleId {
    pub fn diagnostics(&self, db: &AnalyzerDb) -> (d: Vec<Diagnostic>)
        requires
            db.wf(),
            db.has_module(*self),
            listings_acyclic_from(db, Item::Module(*self)),
        ensures
            diagnostics_view(d@) == module_diagnostics(db, *self),
    {
        let mut diagnostics: Vec<Diagnostic> = Vec::new();
        self.sink_diagnostics(db, &mut diagnostics);
        assert(diagnostics_view(diagnostics@) =~= module_diagnostics(db, *self));
        diagnostics
    }

    pub fn sink_diagnostics(&self, db: &AnalyzerDb, sink: &mut impl DiagnosticSink)
        requires
            db.wf(),
            db.has_module(*self),
            listings_acyclic_from(db, Item::Module(*self)),
        ensures
            final(sink).reported() == old(sink).reported() + module_diagnostics(db, *self),
    {
        proof {
            lemma_acyclic_listing_ends(db, Item::Module(*self));
        }
        sink_module_within(*self, db, sink, Ghost(listing_bound(db)))
    }
}

impl IngotId {
    pub fn diagnostics(&self, db: &AnalyzerDb) -> (d: Vec<Diagnostic>)
        requires
            db.wf(),
            db.has_ingot(*self),
            listings_acyclic_from(db, Item::Ingot(*self)),
        ensures
            diagnostics_view(d@) == ingot_diagnostics(db, *self),
    {
        let mut diagnostics: Vec<Diagnostic> = Vec::new();
        self.sink_diagnostics(db, &mut diagnostics);
        assert(diagnostics_view(diagnostics@) =~= ingot_diagnostics(db, *self));
        diagnostics
    }

    pub fn sink_diagnostics(&self, db: &AnalyzerDb, sink: &mut impl DiagnosticSink)
        requires
            db.wf(),
            db.has_ingot(*self),
            listings_acyclic_from(db, Item::Ingot(*self)),
        ensures
            final(sink).reported() == old(sink).reported() + ingot_diagnostics(db, *self),
    {
        proof {
            lemma_acyclic_listing_ends(db, Item::Ingot(*self));
        }
        sink_ingot_within(*self, db, sink, Ghost(listing_bound(db)))
    }
}

/// The diagnostics of an item are those of the id it wraps: a module's, an
/// ingot's, a type definition's, an event's, a function's or a constant's;
/// built-in items have none.
pub proof fn lemma_item_diagnostics_delegate(db: &AnalyzerDb, item: Item)
    ensures
        item_diagnostics(db, item) == match item {
            Item::Module(m) => module_diagnostics(db, m),
            Item::Ingot(i) => ingot_diagnostics(db, i),
            Item::Type(t) => type_def_diagnostics(db, t),
            Item::Event(e) => event_diagnostics(db, e),
            Item::Function(f) => function_diagnostics(db, f),
            Item::Constant(c) => constant_diagnostics(db, c),
            Item::GenericType(_) | Item::BuiltinFunction(_) | Item::Object(_) => Seq::empty(),
        },
{
}

// ---------------------------------------------------------------------------
// Dependency graphs.

impl ContractId {
    /// Dependency graph of the contract type, which consists of the field types
    /// and the dependencies of those types.
    pub fn dependency_graph(&self, db: &AnalyzerDb) -> (g: Rc<DepGraph>)
        requires
            db.has_contract(*self),
        ensures
            *g == *db.contract(*self).dependency_graph.0,
    {
        rc_clone(&db.contracts[self.0 as usize].dependency_graph.0)
    }

    /// Dependency graph of the (imaginary) `__call__` function, which
    /// dispatches to the contract's public functions.
    pub fn runtime_dependency_graph(&self, db: &AnalyzerDb) -> (g: Rc<DepGraph>)
        requires
            db.has_contract(*self),
        ensures
            *g == *db.contract(*self).runtime_dependency_graph.0,
    {
        rc_clone(&db.contracts[self.0 as usize].runtime_dependency_graph.0)
    }
}

impl StructId {
    pub fn dependency_graph(&self, db: &AnalyzerDb) -> (g: Rc<DepGraph>)
        requires
            db.has_struct(*self),
        ensures
            *g == *db.struct_entry(*self).dependency_graph.0,
    {
        rc_clone(&db.structs[self.0 as usize].dependency_graph.0)
    }
}

impl FunctionId {
    pub fn dependency_graph(&self, db: &AnalyzerDb) -> (g: Rc<DepGraph>)
        requires
            db.has_function(*self),
        ensures
            *g == *db.function(*self).dependency_graph.0,
    {
        rc_clone(&db.functions[self.0 as usize].dependency_graph.0)
    }
}

impl Item {
    /// The dependency graph of a contract, a struct or a function.
    pub fn dependency_graph(&self, db: &AnalyzerDb) -> (g: Option<Rc<DepGraph>>)
        requires
            db.wf(),
            db.has_item(*self),
        ensures
            match *self {
                Item::Type(TypeDef::Contract(id)) => g matches Some(d) && *d
                    == *db.contract(id).dependency_graph.0,
                Item::Type(TypeDef::Struct(id)) => g matches Some(d) && *d
                    == *db.struct_entry(id).dependency_graph.0,
                Item::Function(id) => g matches Some(d) && *d == *db.function(id).dependency_graph.0,
                _ => g is None,
            },
    {
        match self {
            Item::Type(TypeDef::Contract(id)) => Some(id.dependency_graph(db)),
            Item::Type(TypeDef::Struct(id)) => Some(id.dependency_graph(db)),
            Item::Function(id) => Some(id.dependency_graph(db)),
            _ => None,
        }
    }
}

// ---------------------------------------------------------------------------
// Laws.

/// An item's path is never empty and ends with the item's own name.
pub proof fn lemma_path_ends_with_name(db: &AnalyzerDb, item: Item)
    requires
        db.wf(),
        db.has_item(item),
    ensures
        item_path(db, item).len() >= 1,
        item_path(db, item).last() == item_name(db, item),
{
}

/// The path of an item declared inside another item (other than an ingot)
/// is the path of that item followed by the item's own name; the path of
/// an item with no parent, or declared directly in an ingot, is its name
/// alone.
pub proof fn lemma_path_extends_parent_path(db: &AnalyzerDb, item: Item)
    requires
        db.wf(),
        db.has_item(item),
    ensures
        match item_parent(db, item) {
            Some(Item::Ingot(_)) | None => item_path(db, item) == seq![item_name(db, item)],
            Some(p) => db.has_item(p) && item_path(db, item) == item_path(db, p).push(
                item_name(db, item),
            ),
        },
{
    lemma_parent_rank(db, item);
}

/// Built-in items and ingots have no parent.
pub proof fn lemma_builtins_have_no_parent(db: &AnalyzerDb, item: Item)
    requires
        item is Ingot || match item {
            Item::Type(TypeDef::Primitive(_)) => true,
            Item::GenericType(_) => true,
            Item::BuiltinFunction(_) => true,
            Item::Object(_) => true,
            _ => false,
        },
    ensures
        item_parent(db, item) is None,
{
}

/// Resolving the empty path gives back the item it starts from.
pub proof fn lemma_resolve_empty_path(db: &AnalyzerDb, start: Item, segments: Seq<ast::Node<String>>)
    requires
        segments.len() == 0,
    ensures
        path_walk(db, start, segments, 0) == Some(start),
        path_walk_defined(db, start, segments),
{
}

/// Resolving a one-segment path from a module looks the segment up among
/// the module's named items, as `ModuleId::resolve_name` does.
pub proof fn lemma_resolve_single_segment(db: &AnalyzerDb, m: ModuleId, segments: Seq<ast::Node<String>>)
    requires
        segments.len() == 1,
    ensures
        path_walk(db, Item::Module(m), segments, 1) == lookup(module_items(db, m), segments[0].kind@),
        path_walk_defined(db, Item::Module(m), segments),
{
    assert(path_walk(db, Item::Module(m), segments, 0) == Some(Item::Module(m)));
}

/// Walking along a path made of two parts is walking along the first part,
/// then along the second from where the first ended.
pub proof fn lemma_path_walk_concat(
    db: &AnalyzerDb,
    start: Item,
    first: Seq<ast::Node<String>>,
    second: Seq<ast::Node<String>>,
)
    ensures
        path_walk(db, start, first + second, (first.len() + second.len()) as nat) == match path_walk(
            db,
            start,
            first,
            first.len(),
        ) {
            Some(mid) => path_walk(db, mid, second, second.len()),
            None => None,
        },
    decreases second.len(),
{
    let whole = first + second;
    if second.len() == 0 {
        assert(whole =~= first);
        lemma_path_walk_prefix(db, start, whole, first, first.len());
    } else {
        let shorter = second.drop_last();
        lemma_path_walk_concat(db, start, first, shorter);
        let n = (first.len() + second.len()) as nat;
        assert((first + shorter) =~= whole.take(n - 1));
        lemma_path_walk_prefix(db, start, whole, first + shorter, (n - 1) as nat);
        lemma_path_walk_prefix(db, start, whole, first, first.len());
        match path_walk(db, start, first, first.len()) {
            Some(mid) => {
                lemma_path_walk_prefix(db, mid, second, shorter, shorter.len());
                assert(whole[n - 1] == second[second.len() - 1]);
            },
            None => {},
        }
    }
}

/// A walk along the first `k` segments only reads those segments.
proof fn lemma_path_walk_prefix(
    db: &AnalyzerDb,
    start: Item,
    a: Seq<ast::Node<String>>,
    b: Seq<ast::Node<String>>,
    k: nat,
)
    requires
        k <= a.len(),
        k <= b.len(),
        forall|i: int| 0 <= i < k ==> a[i] == b[i],
    ensures
        path_walk(db, start, a, k) == path_walk(db, start, b, k),
    decreases k,
{
    if k > 0 {
        lemma_path_walk_prefix(db, start, a, b, (k - 1) as nat);
    }
}

/// A contract's user functions do not include `__init__`: looking it up by
/// name finds nothing.
pub proof fn lemma_init_not_a_function(db: &AnalyzerDb, c: ContractId)
    requires
        db.wf(),
        db.has_contract(c),
    ensures
        lookup(contract_functions(db, c), "__init__"@) is None,
{
    assert(db.contract_wf(db.contracts@[c.0 as int]));
    lemma_index_of_key(contract_functions(db, c), "__init__"@);
}

/// A contract's public functions are user functions of it, under the same
/// names, and public; `__init__` is not among them.
pub proof fn lemma_public_functions_exclude_init(db: &AnalyzerDb, c: ContractId)
    requires
        db.wf(),
        db.has_contract(c),
    ensures
        lookup(function_map_entries(*db.contract(c).public_function_map), "__init__"@) is None,
        forall|i: int|
            0 <= i < function_map_entries(*db.contract(c).public_function_map).len() ==> {
                let (name, f) = #[trigger] function_map_entries(*db.contract(c).public_function_map)[i];
                &&& lookup(contract_functions(db, c), name) == Some(f)
                &&& db.function(f).data.ast.kind.pub_ is Some
            },
{
    assert(db.contract_wf(db.contracts@[c.0 as int]));
    let public = contract_public_functions(db, c);
    lemma_index_of_key(public, "__init__"@);
    lemma_init_not_a_function(db, c);
    let i = index_of_key(public, "__init__"@);
    if i >= 0 {
        assert(lookup(contract_functions(db, c), public[i].0) == Some(public[i].1));
    }
}

/// Every event that a contract's event map lists is defined within that
/// contract, so its parent is the contract.
pub proof fn lemma_events_belong_to_contract(db: &AnalyzerDb, c: ContractId, name: Seq<char>)
    requires
        db.wf(),
        db.has_contract(c),
    ensures
        lookup(contract_events(db, c), name) matches Some(e) ==> db.event(e).data.contract == c
            && item_parent(db, Item::Event(e)) == Some(Item::Type(TypeDef::Contract(c))),
{
    assert(db.events_belong_to(c));
    lemma_index_of_key(contract_events(db, c), name);
}

/// The init function of a contract is not one of its user functions, so
/// `ContractId::function` never finds it.
pub proof fn lemma_init_function_not_listed(db: &AnalyzerDb, c: ContractId, name: Seq<char>)
    requires
        db.wf(),
        db.has_contract(c),
    ensures
        db.contract(c).init_function.value matches Some(init) ==> lookup(
            contract_functions(db, c),
            name,
        ) != Some(init),
{
    assert(db.contract_wf(db.contracts@[c.0 as int]));
    lemma_index_of_key(contract_functions(db, c), name);
}

/// Concatenating over a sequence depends only on what the function gives for
/// each element.
proof fn lemma_concat_map_agree<A>(
    s: Seq<A>,
    f: spec_fn(A) -> Seq<DiagnosticView>,
    g: spec_fn(A) -> Seq<DiagnosticView>,
)
    requires
        forall|x: A| #[trigger] f(x) == g(x),
    ensures
        concat_map(s, f) == concat_map(s, g),
    decreases s.len(),
{
    if s.len() > 0 {
        lemma_concat_map_agree(s.drop_last(), f, g);
    }
}

/// A function reports what analysing its signature reported, then what
/// analysing its body reported, whether collected by itself or as an item.
pub proof fn lemma_function_reports_signature_then_body(db: &AnalyzerDb, f: FunctionId)
    ensures
        function_diagnostics(db, f) == reported_by(db.function(f).signature) + reported_by(
            db.function(f).body,
        ),
        item_diagnostics(db, Item::Function(f)) == reported_by(db.function(f).signature)
            + reported_by(db.function(f).body),
{
}

/// A constant reports what analysing its type reported, then, exactly when
/// its value is not a boolean, number, string or unit literal, one error
/// labelled at the value.
pub proof fn lemma_constant_reports_non_literal_value(db: &AnalyzerDb, c: ModuleConstantId)
    ensures
        ({
            let value = db.module_constant(c).data.ast.kind.value;
            let typ = reported_by(db.module_constant(c).typ);
            &&& (value.kind is Bool || value.kind is Num || value.kind is Str || value.kind is Unit)
                ==> constant_diagnostics(db, c) == typ
            &&& !(value.kind is Bool || value.kind is Num || value.kind is Str
                || value.kind is Unit) ==> constant_diagnostics(db, c) == typ.push(
                error_view(
                    "non-literal expressions not yet supported for constants"@,
                    value.span,
                    "not a literal"@,
                ),
            )
            &&& item_diagnostics(db, Item::Constant(c)) == constant_diagnostics(db, c)
        }),
{
    let value = db.module_constant(c).data.ast.kind.value;
    let typ = reported_by(db.module_constant(c).typ);
    assert(typ + Seq::<DiagnosticView>::empty() =~= typ);
    assert(typ + seq![
        error_view(
            "non-literal expressions not yet supported for constants"@,
            value.span,
            "not a literal"@,
        ),
    ] =~= typ.push(
        error_view(
            "non-literal expressions not yet supported for constants"@,
            value.span,
            "not a literal"@,
        ),
    ));
}

/// A contract reports, in order: what finding its fields reported, what
/// analysing each field's type reported, what finding its events reported,
/// what analysing each event's type reported, what finding its init
/// function reported, what finding its functions reported, and each
/// function's signature and body reports.
pub proof fn lemma_contract_reports_in_order(db: &AnalyzerDb, c: ContractId)
    ensures
        contract_diagnostics(db, c) == reported_by(db.contract(c).field_map) + concat_map(
            db.contract(c).all_fields@,
            |f: ContractFieldId| reported_by(db.contract_field(f).typ),
        ) + reported_by(db.contract(c).event_map) + concat_map(
            db.contract(c).all_events@,
            |v: EventId| reported_by(db.event(v).typ),
        ) + reported_by(db.contract(c).init_function) + reported_by(db.contract(c).function_map)
            + concat_map(
            db.contract(c).all_functions@,
            |f: FunctionId| reported_by(db.function(f).signature) + reported_by(db.function(f).body),
        ),
        item_diagnostics(db, Item::Type(TypeDef::Contract(c))) == contract_diagnostics(db, c),
{
    lemma_concat_map_agree(
        db.contract(c).all_fields@,
        |f: ContractFieldId| contract_field_diagnostics(db, f),
        |f: ContractFieldId| reported_by(db.contract_field(f).typ),
    );
    lemma_concat_map_agree(
        db.contract(c).all_events@,
        |v: EventId| event_diagnostics(db, v),
        |v: EventId| reported_by(db.event(v).typ),
    );
    lemma_concat_map_agree(
        db.contract(c).all_functions@,
        |f: FunctionId| function_diagnostics(db, f),
        |f: FunctionId| reported_by(db.function(f).signature) + reported_by(db.function(f).body),
    );
}

/// A struct reports, in order: what finding its fields reported, what
/// analysing each field's type reported, and each function's signature and
/// body reports.
pub proof fn lemma_struct_reports_in_order(db: &AnalyzerDb, s: StructId)
    ensures
        struct_diagnostics(db, s) == reported_by(db.struct_entry(s).field_map) + concat_map(
            db.struct_entry(s).all_fields@,
            |f: StructFieldId| reported_by(db.struct_field(f).typ),
        ) + concat_map(
            db.struct_entry(s).all_functions@,
            |f: FunctionId| reported_by(db.function(f).signature) + reported_by(db.function(f).body),
        ),
        item_diagnostics(db, Item::Type(TypeDef::Struct(s))) == struct_diagnostics(db, s),
{
    lemma_concat_map_agree(
        db.struct_entry(s).all_fields@,
        |f: StructFieldId| struct_field_diagnostics(db, f),
        |f: StructFieldId| reported_by(db.struct_field(f).typ),
    );
    lemma_concat_map_agree(
        db.struct_entry(s).all_functions@,
        |f: FunctionId| function_diagnostics(db, f),
        |f: FunctionId| reported_by(db.function(f).signature) + reported_by(db.function(f).body),
    );
}

/// Every item declared somewhere has that place as its parent: a constant,
/// a type alias, a struct and a contract their module, an event its
/// contract, a function its class or else its module, a module its parent
/// module or else the ingot it belongs to. Ingots, primitive types and the
/// built-ins have none.
pub proof fn lemma_parent_is_declaring_item(db: &AnalyzerDb, item: Item)
    ensures
        item matches Item::Constant(c) ==> item_parent(db, item) == Some(
            Item::Module(db.module_constant(c).data.module),
        ),
        item matches Item::Type(TypeDef::Alias(a)) ==> item_parent(db, item) == Some(
            Item::Module(db.type_alias(a).data.module),
        ),
        item matches Item::Type(TypeDef::Struct(s)) ==> item_parent(db, item) == Some(
            Item::Module(db.struct_entry(s).data.module),
        ),
        item matches Item::Type(TypeDef::Contract(c)) ==> item_parent(db, item) == Some(
            Item::Module(db.contract(c).data.module),
        ),
        item matches Item::Event(e) ==> item_parent(db, item) == Some(
            Item::Type(TypeDef::Contract(db.event(e).data.contract)),
        ),
        item matches Item::Function(f) ==> item_parent(db, item) == Some(
            match db.function(f).data.parent {
                Some(Class::Contract(c)) => Item::Type(TypeDef::Contract(c)),
                Some(Class::Struct(s)) => Item::Type(TypeDef::Struct(s)),
                None => Item::Module(db.function(f).data.module),
            },
        ),
        item matches Item::Module(m) ==> item_parent(db, item) == match db.module(m).parent_module {
            Some(p) => Some(Item::Module(p)),
            None => match db.module(m).data.context {
                ModuleContext::Ingot(i) => Some(Item::Ingot(i)),
                ModuleContext::Global(_) => None,
            },
        },
        (item is Ingot || item is GenericType || item is BuiltinFunction || item is Object
            || item matches Item::Type(TypeDef::Primitive(_))) ==> item_parent(db, item) is None,
{
}

/// The path of a constant is the path of its module followed by its name.
pub proof fn lemma_constant_path(db: &AnalyzerDb, c: ModuleConstantId)
    requires
        db.wf(),
        db.has_module_constant(c),
    ensures
        item_path(db, Item::Constant(c)) == item_path(
            db,
            Item::Module(db.module_constant(c).data.module),
        ).push(db.module_constant(c).data.ast.kind.name.kind@),
{
    lemma_parent_rank(db, Item::Constant(c));
}

/// Each `pragma` statement whose check reported a diagnostic has that
/// diagnostic among what the statements report.
pub proof fn lemma_pragma_reports_include_failed_checks(
    body: Seq<ast::ModuleStmt>,
    checks: Seq<Option<Diagnostic>>,
    n: nat,
    i: int,
)
    requires
        0 <= i < n <= body.len(),
        n <= checks.len(),
        body[i] is Pragma,
        checks[i] matches Some(d),
    ensures
        pragma_reports(body, checks, n).contains(checks[i].unwrap()@),
    decreases n,
{
    let reports = pragma_reports(body, checks, n);
    if i == n - 1 {
        assert(reports[reports.len() - 1] == checks[i].unwrap()@);
    } else {
        lemma_pragma_reports_include_failed_checks(body, checks, (n - 1) as nat, i);
        let before = pragma_reports(body, checks, (n - 1) as nat);
        let k = choose|k: int| 0 <= k < before.len() && before[k] == checks[i].unwrap()@;
        assert(reports[k] == before[k]);
    }
}

/// The name of an item is the name it was declared with: a declared item's
/// name in the syntax tree, a module's or an ingot's own name, and a
/// primitive type's keyword.
pub proof fn lemma_name_is_declared_name(db: &AnalyzerDb, item: Item)
    ensures
        item matches Item::Constant(c) ==> item_name(db, item)
            == db.module_constant(c).data.ast.kind.name.kind@,
        item matches Item::Type(TypeDef::Alias(a)) ==> item_name(db, item)
            == db.type_alias(a).data.ast.kind.name.kind@,
        item matches Item::Type(TypeDef::Struct(s)) ==> item_name(db, item)
            == db.struct_entry(s).data.ast.kind.name.kind@,
        item matches Item::Type(TypeDef::Contract(c)) ==> item_name(db, item)
            == db.contract(c).data.ast.kind.name.kind@,
        item matches Item::Type(TypeDef::Primitive(b)) ==> item_name(db, item) == base_name(b),
        item matches Item::Event(e) ==> item_name(db, item) == db.event(e).data.ast.kind.name.kind@,
        item matches Item::Function(f) ==> item_name(db, item)
            == db.function(f).data.ast.kind.name.kind@,
        item matches Item::Module(m) ==> item_name(db, item) == db.module(m).data.name@,
        item matches Item::Ingot(i) ==> item_name(db, item) == db.ingot(i).data.name@,
{
}

/// The type a struct or contract definition stands for carries the
/// definition's id and its name as an item; a struct's also counts its
/// fields. An alias stands for its analysed type, a primitive for itself.
pub proof fn lemma_type_def_type_names_the_item(
    db: &AnalyzerDb,
    td: TypeDef,
    t: Result<Type, TypeError>,
)
    requires
        is_type_def_type(db, td, t),
    ensures
        td matches TypeDef::Struct(s) ==> t matches Ok(Type::Struct(st)) && st.id == s && st.name@
            == item_name(db, Item::Type(td)) && st.field_count == struct_field_map_entries(
            *db.struct_entry(s).field_map.value,
        ).len(),
        td matches TypeDef::Contract(c) ==> t matches Ok(Type::Contract(ct)) && ct.id == c
            && ct.name@ == item_name(db, Item::Type(td)),
        td matches TypeDef::Alias(a) ==> t == db.type_alias(a).typ.value,
        td matches TypeDef::Primitive(b) ==> t == Ok::<Type, TypeError>(Type::Base(b)),
{
}

} // verus!
