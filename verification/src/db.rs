//! The analyzer database: the interned data of every item and the results of
//! the queries about them.
//!
//! An id is the position of its entry in the table of its kind. Each entry
//! holds the data that was interned under the id and what the analysis
//! computed for it, with the diagnostics each computation reported.

use vstd::prelude::*;
use std::rc::Rc;
use indexmap::IndexMap;
use crate::ast::Span;
use crate::context::{Analysis, FunctionBody};
use crate::deps::DepGraphWrapper;
use crate::diagnostics::Diagnostic;
use crate::index_map::{
    contract_field_map_entries, event_map_entries, function_map_entries, item_map_entries,
    keys_distinct, lookup, struct_field_map_entries,
};
use crate::items::{
    Class, Contract, ContractField, ContractFieldId, ContractId, Event, EventId, Function,
    FunctionId, Ingot, IngotId, Item, Module, ModuleConstant, ModuleConstantId, ModuleContext,
    ModuleId, Struct, StructField, StructFieldId, StructId, TypeAlias, TypeAliasId, TypeDef,
};
use crate::types::{FixedSize, FunctionSignature, Type, TypeError};
use crate::types;

verus! {

pub struct IngotEntry {
    pub data: Rc<Ingot>,
    pub main_module: Analysis<Option<ModuleId>>,
    pub all_modules: Rc<Vec<ModuleId>>,
}

pub struct ModuleEntry {
    pub data: Rc<Module>,
    /// For each statement of the module's syntax tree, in order, what
    /// checking it against the compiler's version returned: a diagnostic for
    /// a `pragma` whose version requirement the compiler does not meet,
    /// `None` otherwise. Only `pragma` statements are checked.
    pub pragma_checks: Rc<Vec<Option<Diagnostic>>>,
    /// The named items of the module; duplicate names are reported.
    pub item_map: Analysis<Rc<IndexMap<String, Item>>>,
    /// All items, duplicates included.
    pub all_items: Rc<Vec<Item>>,
    /// `name -> (name_span, external_item)` for all `use` statements.
    pub used_item_map: Analysis<Rc<IndexMap<String, (Span, Item)>>>,
    pub sub_modules: Rc<IndexMap<String, ModuleId>>,
    pub adjacent_modules: Rc<IndexMap<String, ModuleId>>,
    pub parent_module: Option<ModuleId>,
    pub contracts: Rc<Vec<ContractId>>,
    pub structs: Rc<Vec<StructId>>,
}

pub struct ModuleConstantEntry {
    pub data: Rc<ModuleConstant>,
    pub typ: Analysis<Result<Type, TypeError>>,
}

pub struct TypeAliasEntry {
    pub data: Rc<TypeAlias>,
    pub typ: Analysis<Result<Type, TypeError>>,
}

pub struct ContractEntry {
    pub data: Rc<Contract>,
    pub field_map: Analysis<Rc<IndexMap<String, ContractFieldId>>>,
    pub all_fields: Rc<Vec<ContractFieldId>>,
    pub event_map: Analysis<Rc<IndexMap<String, EventId>>>,
    pub all_events: Rc<Vec<EventId>>,
    pub init_function: Analysis<Option<FunctionId>>,
    /// User functions, public and not; `__init__` excluded.
    pub function_map: Analysis<Rc<IndexMap<String, FunctionId>>>,
    pub public_function_map: Rc<IndexMap<String, FunctionId>>,
    pub all_functions: Rc<Vec<FunctionId>>,
    /// The field types of the contract and their dependencies.
    pub dependency_graph: DepGraphWrapper,
    /// The dependencies of the (imaginary) `__call__` function, which
    /// dispatches to the contract's public functions.
    pub runtime_dependency_graph: DepGraphWrapper,
}

pub struct ContractFieldEntry {
    pub data: Rc<ContractField>,
    pub typ: Analysis<Result<Type, TypeError>>,
}

pub struct FunctionEntry {
    pub data: Rc<Function>,
    pub signature: Analysis<Rc<FunctionSignature>>,
    pub body: Analysis<Rc<FunctionBody>>,
    pub dependency_graph: DepGraphWrapper,
}

pub struct StructEntry {
    pub data: Rc<Struct>,
    pub typ: Rc<types::Struct>,
    pub field_map: Analysis<Rc<IndexMap<String, StructFieldId>>>,
    pub all_fields: Rc<Vec<StructFieldId>>,
    pub function_map: Analysis<Rc<IndexMap<String, FunctionId>>>,
    pub all_functions: Rc<Vec<FunctionId>>,
    pub dependency_graph: DepGraphWrapper,
}

pub struct StructFieldEntry {
    pub data: Rc<StructField>,
    pub typ: Analysis<Result<FixedSize, TypeError>>,
}

pub struct EventEntry {
    pub data: Rc<Event>,
    pub typ: Analysis<Rc<types::Event>>,
}

/// The analyzer database.
pub struct AnalyzerDb {
    pub ingots: Vec<IngotEntry>,
    pub modules: Vec<ModuleEntry>,
    pub module_constants: Vec<ModuleConstantEntry>,
    pub type_aliases: Vec<TypeAliasEntry>,
    pub contracts: Vec<ContractEntry>,
    pub contract_fields: Vec<ContractFieldEntry>,
    pub functions: Vec<FunctionEntry>,
    pub structs: Vec<StructEntry>,
    pub struct_fields: Vec<StructFieldEntry>,
    pub events: Vec<EventEntry>,
}

impl AnalyzerDb {
    pub open spec fn has_ingot(&self, id: IngotId) -> bool {
        id.0 < self.ingots@.len()
    }

    pub open spec fn has_module(&self, id: ModuleId) -> bool {
        id.0 < self.modules@.len()
    }

    pub open spec fn has_module_constant(&self, id: ModuleConstantId) -> bool {
        id.0 < self.module_constants@.len()
    }

    pub open spec fn has_type_alias(&self, id: TypeAliasId) -> bool {
        id.0 < self.type_aliases@.len()
    }

    pub open spec fn has_contract(&self, id: ContractId) -> bool {
        id.0 < self.contracts@.len()
    }

    pub open spec fn has_contract_field(&self, id: ContractFieldId) -> bool {
        id.0 < self.contract_fields@.len()
    }

    pub open spec fn has_function(&self, id: FunctionId) -> bool {
        id.0 < self.functions@.len()
    }

    pub open spec fn has_struct(&self, id: StructId) -> bool {
        id.0 < self.structs@.len()
    }

    pub open spec fn has_struct_field(&self, id: StructFieldId) -> bool {
        id.0 < self.struct_fields@.len()
    }

    pub open spec fn has_event(&self, id: EventId) -> bool {
        id.0 < self.events@.len()
    }

    pub open spec fn ingot(&self, id: IngotId) -> IngotEntry {
        self.ingots@[id.0 as int]
    }

    pub open spec fn module(&self, id: ModuleId) -> ModuleEntry {
        self.modules@[id.0 as int]
    }

    pub open spec fn module_constant(&self, id: ModuleConstantId) -> ModuleConstantEntry {
        self.module_constants@[id.0 as int]
    }

    pub open spec fn type_alias(&self, id: TypeAliasId) -> TypeAliasEntry {
        self.type_aliases@[id.0 as int]
    }

    pub open spec fn contract(&self, id: ContractId) -> ContractEntry {
        self.contracts@[id.0 as int]
    }

    pub open spec fn contract_field(&self, id: ContractFieldId) -> ContractFieldEntry {
        self.contract_fields@[id.0 as int]
    }

    pub open spec fn function(&self, id: FunctionId) -> FunctionEntry {
        self.functions@[id.0 as int]
    }

    pub open spec fn struct_entry(&self, id: StructId) -> StructEntry {
        self.structs@[id.0 as int]
    }

    pub open spec fn struct_field(&self, id: StructFieldId) -> StructFieldEntry {
        self.struct_fields@[id.0 as int]
    }

    pub open spec fn event(&self, id: EventId) -> EventEntry {
        self.events@[id.0 as int]
    }

    pub open spec fn has_type_def(&self, t: TypeDef) -> bool {
        match t {
            TypeDef::Alias(id) => self.has_type_alias(id),
            TypeDef::Struct(id) => self.has_struct(id),
            TypeDef::Contract(id) => self.has_contract(id),
            TypeDef::Primitive(_) => true,
        }
    }

    pub open spec fn has_class(&self, c: Class) -> bool {
        match c {
            Class::Contract(id) => self.has_contract(id),
            Class::Struct(id) => self.has_struct(id),
        }
    }

    /// Whether every id that the item holds is interned.
    pub open spec fn has_item(&self, item: Item) -> bool {
        match item {
            Item::Ingot(id) => self.has_ingot(id),
            Item::Module(id) => self.has_module(id),
            Item::Type(t) => self.has_type_def(t),
            Item::GenericType(_) => true,
            Item::Event(id) => self.has_event(id),
            Item::Function(id) => self.has_function(id),
            Item::Constant(id) => self.has_module_constant(id),
            Item::BuiltinFunction(_) => true,
            Item::Object(_) => true,
        }
    }

    /// The number of ancestors of a module, if its chain of parent modules
    /// ends within `fuel` steps.
    pub open spec fn module_depth(&self, m: ModuleId, fuel: nat) -> Option<nat>
        decreases fuel,
    {
        if !self.has_module(m) {
            None
        } else {
            match self.module(m).parent_module {
                None => Some(0),
                Some(p) => if fuel == 0 {
                    None
                } else {
                    match self.module_depth(p, (fuel - 1) as nat) {
                        Some(d) => Some(d + 1),
                        None => None,
                    }
                },
            }
        }
    }

    /// The number of ancestors of a module.
    pub open spec fn depth(&self, m: ModuleId) -> nat {
        self.module_depth(m, self.modules@.len()).unwrap()
    }

    pub open spec fn ingot_wf(&self, e: IngotEntry) -> bool {
        &&& (e.main_module.value matches Some(m) ==> self.has_module(m))
        &&& forall|i: int| 0 <= i < e.all_modules@.len() ==> self.has_module(#[trigger] e.all_modules@[i])
    }

    pub open spec fn module_wf(&self, e: ModuleEntry) -> bool {
        &&& keys_distinct(item_map_entries(*e.item_map.value))
        &&& e.pragma_checks@.len() == e.data.ast.body@.len()
        &&& (e.data.context matches ModuleContext::Ingot(i) ==> self.has_ingot(i))
        &&& (e.parent_module matches Some(p) ==> self.has_module(p))
        &&& forall|i: int|
            0 <= i < item_map_entries(*e.item_map.value).len() ==> self.has_item(
                #[trigger] item_map_entries(*e.item_map.value)[i].1,
            )
        &&& forall|i: int| 0 <= i < e.all_items@.len() ==> self.has_item(#[trigger] e.all_items@[i])
        &&& forall|i: int| 0 <= i < e.contracts@.len() ==> self.has_contract(#[trigger] e.contracts@[i])
        &&& forall|i: int| 0 <= i < e.structs@.len() ==> self.has_struct(#[trigger] e.structs@[i])
    }

    pub open spec fn contract_wf(&self, e: ContractEntry) -> bool {
        &&& self.has_module(e.data.module)
        &&& keys_distinct(contract_field_map_entries(*e.field_map.value))
        &&& keys_distinct(event_map_entries(*e.event_map.value))
        &&& keys_distinct(function_map_entries(*e.function_map.value))
        &&& keys_distinct(function_map_entries(*e.public_function_map))
        // `__init__` is not among the user functions
        &&& forall|i: int|
            0 <= i < function_map_entries(*e.function_map.value).len() ==> (
            #[trigger] function_map_entries(*e.function_map.value)[i]).0 != "__init__"@
        // nor is the init function, under any name
        &&& forall|i: int|
            0 <= i < function_map_entries(*e.function_map.value).len() ==> e.init_function.value
                != Some((#[trigger] function_map_entries(*e.function_map.value)[i]).1)
        // the public functions are those user functions that are public
        &&& forall|i: int|
            0 <= i < function_map_entries(*e.public_function_map).len() ==> {
                let (name, f) = #[trigger] function_map_entries(*e.public_function_map)[i];
                &&& lookup(function_map_entries(*e.function_map.value), name) == Some(f)
                &&& self.has_function(f)
                &&& self.function(f).data.ast.kind.pub_ is Some
            }
        &&& forall|i: int|
            0 <= i < contract_field_map_entries(*e.field_map.value).len()
                ==> self.has_contract_field(
                #[trigger] contract_field_map_entries(*e.field_map.value)[i].1,
            )
        &&& forall|i: int|
            0 <= i < event_map_entries(*e.event_map.value).len() ==> self.has_event(
                #[trigger] event_map_entries(*e.event_map.value)[i].1,
            )
        &&& forall|i: int|
            0 <= i < function_map_entries(*e.function_map.value).len() ==> self.has_function(
                #[trigger] function_map_entries(*e.function_map.value)[i].1,
            )
        &&& (e.init_function.value matches Some(f) ==> self.has_function(f))
        &&& forall|i: int|
            0 <= i < e.all_fields@.len() ==> self.has_contract_field(#[trigger] e.all_fields@[i])
        &&& forall|i: int| 0 <= i < e.all_events@.len() ==> self.has_event(#[trigger] e.all_events@[i])
        &&& forall|i: int|
            0 <= i < e.all_functions@.len() ==> self.has_function(#[trigger] e.all_functions@[i])
    }

    /// Every event in a contract's event map is defined within that contract.
    pub open spec fn events_belong_to(&self, c: ContractId) -> bool {
        forall|i: int|
            0 <= i < event_map_entries(*self.contract(c).event_map.value).len() ==> self.event(
                (#[trigger] event_map_entries(*self.contract(c).event_map.value)[i]).1,
            ).data.contract == c
    }

    pub open spec fn struct_wf(&self, e: StructEntry) -> bool {
        &&& self.has_module(e.data.module)
        &&& keys_distinct(struct_field_map_entries(*e.field_map.value))
        &&& keys_distinct(function_map_entries(*e.function_map.value))
        &&& forall|i: int|
            0 <= i < struct_field_map_entries(*e.field_map.value).len() ==> self.has_struct_field(
                #[trigger] struct_field_map_entries(*e.field_map.value)[i].1,
            )
        &&& forall|i: int|
            0 <= i < function_map_entries(*e.function_map.value).len() ==> self.has_function(
                #[trigger] function_map_entries(*e.function_map.value)[i].1,
            )
        &&& forall|i: int|
            0 <= i < e.all_fields@.len() ==> self.has_struct_field(#[trigger] e.all_fields@[i])
        &&& forall|i: int|
            0 <= i < e.all_functions@.len() ==> self.has_function(#[trigger] e.all_functions@[i])
    }

    /// Every id held anywhere in the database is interned, and no module is
    /// its own ancestor.
    pub open spec fn wf(&self) -> bool {
        &&& forall|i: int| 0 <= i < self.ingots@.len() ==> self.ingot_wf(#[trigger] self.ingots@[i])
        &&& forall|i: int| 0 <= i < self.modules@.len() ==> self.module_wf(#[trigger] self.modules@[i])
        &&& forall|m: ModuleId| #[trigger]
            self.has_module(m) ==> self.module_depth(m, self.modules@.len()) is Some
        &&& forall|i: int|
            0 <= i < self.module_constants@.len() ==> self.has_module(
                (#[trigger] self.module_constants@[i]).data.module,
            )
        &&& forall|i: int|
            0 <= i < self.type_aliases@.len() ==> self.has_module(
                (#[trigger] self.type_aliases@[i]).data.module,
            )
        &&& forall|i: int|
            0 <= i < self.contracts@.len() ==> self.contract_wf(#[trigger] self.contracts@[i])
        &&& forall|c: ContractId| #[trigger] self.has_contract(c) ==> self.events_belong_to(c)
        &&& forall|i: int|
            0 <= i < self.contract_fields@.len() ==> self.has_contract(
                (#[trigger] self.contract_fields@[i]).data.parent,
            )
        &&& forall|i: int|
            0 <= i < self.functions@.len() ==> {
                &&& self.has_module((#[trigger] self.functions@[i]).data.module)
                &&& (self.functions@[i].data.parent matches Some(c) ==> self.has_class(c))
            }
        &&& forall|i: int| 0 <= i < self.structs@.len() ==> self.struct_wf(#[trigger] self.structs@[i])
        &&& forall|i: int|
            0 <= i < self.struct_fields@.len() ==> self.has_struct(
                (#[trigger] self.struct_fields@[i]).data.parent,
            )
        &&& forall|i: int|
            0 <= i < self.events@.len() ==> self.has_contract(
                (#[trigger] self.events@[i]).data.contract,
            )
    }
}

pub proof fn lemma_module_depth_fuel(db: &AnalyzerDb, m: ModuleId, f: nat, g: nat)
    requires
        db.module_depth(m, f) is Some,
        f <= g,
    ensures
        db.module_depth(m, g) == db.module_depth(m, f),
        db.module_depth(m, f).unwrap() <= f,
    decreases f,
{
    if let Some(p) = db.module(m).parent_module {
        lemma_module_depth_fuel(db, p, (f - 1) as nat, (g - 1) as nat);
    }
}

/// In a well-formed database a module's parent has one ancestor fewer, and
/// no module has more ancestors than there are modules.
pub proof fn lemma_parent_depth(db: &AnalyzerDb, m: ModuleId)
    requires
        db.wf(),
        db.has_module(m),
    ensures
        db.depth(m) <= db.modules@.len(),
        db.module(m).parent_module matches Some(p) ==> db.has_module(p) && db.depth(p) + 1
            == db.depth(m),
{
    let n = db.modules@.len();
    assert(db.module_depth(m, n) is Some);
    lemma_module_depth_fuel(db, m, n, n);
    if let Some(p) = db.module(m).parent_module {
        assert(db.module_wf(db.modules@[m.0 as int]));
        assert(db.module_depth(p, (n - 1) as nat) is Some);
        lemma_module_depth_fuel(db, p, (n - 1) as nat, n);
    }
}


impl AnalyzerDb {
    /// A database with nothing interned.
    pub fn new() -> (db: AnalyzerDb)
        ensures
            db.ingots@.len() == 0,
            db.modules@.len() == 0,
            db.module_constants@.len() == 0,
            db.type_aliases@.len() == 0,
            db.contracts@.len() == 0,
            db.contract_fields@.len() == 0,
            db.functions@.len() == 0,
            db.structs@.len() == 0,
            db.struct_fields@.len() == 0,
            db.events@.len() == 0,
    {
        AnalyzerDb {
            ingots: Vec::new(),
            modules: Vec::new(),
            module_constants: Vec::new(),
            type_aliases: Vec::new(),
            contracts: Vec::new(),
            contract_fields: Vec::new(),
            functions: Vec::new(),
            structs: Vec::new(),
            struct_fields: Vec::new(),
            events: Vec::new(),
        }
    }

    /// Interns an entry under the next ingot id.
    pub fn intern_ingot(&mut self, entry: IngotEntry) -> (id: IngotId)
        requires
            old(self).ingots@.len() < u32::MAX,
        ensures
            id.0 == old(self).ingots@.len(),
            final(self).ingots@ == old(self).ingots@.push(entry),
            final(self).modules@ == old(self).modules@,
            final(self).module_constants@ == old(self).module_constants@,
            final(self).type_aliases@ == old(self).type_aliases@,
            final(self).contracts@ == old(self).contracts@,
            final(self).contract_fields@ == old(self).contract_fields@,
            final(self).functions@ == old(self).functions@,
            final(self).structs@ == old(self).structs@,
            final(self).struct_fields@ == old(self).struct_fields@,
            final(self).events@ == old(self).events@,
    {
        let id = IngotId(self.ingots.len() as u32);
        self.ingots.push(entry);
        id
    }

    /// Interns an entry under the next module id.
    pub fn intern_module(&mut self, entry: ModuleEntry) -> (id: ModuleId)
        requires
            old(self).modules@.len() < u32::MAX,
        ensures
            id.0 == old(self).modules@.len(),
            final(self).modules@ == old(self).modules@.push(entry),
            final(self).ingots@ == old(self).ingots@,
            final(self).module_constants@ == old(self).module_constants@,
            final(self).type_aliases@ == old(self).type_aliases@,
            final(self).contracts@ == old(self).contracts@,
            final(self).contract_fields@ == old(self).contract_fields@,
            final(self).functions@ == old(self).functions@,
            final(self).structs@ == old(self).structs@,
            final(self).struct_fields@ == old(self).struct_fields@,
            final(self).events@ == old(self).events@,
    {
        let id = ModuleId(self.modules.len() as u32);
        self.modules.push(entry);
        id
    }

    /// Interns an entry under the next module constant id.
    pub fn intern_module_constant(&mut self, entry: ModuleConstantEntry) -> (id: ModuleConstantId)
        requires
            old(self).module_constants@.len() < u32::MAX,
        ensures
            id.0 == old(self).module_constants@.len(),
            final(self).module_constants@ == old(self).module_constants@.push(entry),
            final(self).ingots@ == old(self).ingots@,
            final(self).modules@ == old(self).modules@,
            final(self).type_aliases@ == old(self).type_aliases@,
            final(self).contracts@ == old(self).contracts@,
            final(self).contract_fields@ == old(self).contract_fields@,
            final(self).functions@ == old(self).functions@,
            final(self).structs@ == old(self).structs@,
            final(self).struct_fields@ == old(self).struct_fields@,
            final(self).events@ == old(self).events@,
    {
        let id = ModuleConstantId(self.module_constants.len() as u32);
        self.module_constants.push(entry);
        id
    }

    /// Interns an entry under the next type alias id.
    pub fn intern_type_alias(&mut self, entry: TypeAliasEntry) -> (id: TypeAliasId)
        requires
            old(self).type_aliases@.len() < u32::MAX,
        ensures
            id.0 == old(self).type_aliases@.len(),
            final(self).type_aliases@ == old(self).type_aliases@.push(entry),
            final(self).ingots@ == old(self).ingots@,
            final(self).modules@ == old(self).modules@,
            final(self).module_constants@ == old(self).module_constants@,
            final(self).contracts@ == old(self).contracts@,
            final(self).contract_fields@ == old(self).contract_fields@,
            final(self).functions@ == old(self).functions@,
            final(self).structs@ == old(self).structs@,
            final(self).struct_fields@ == old(self).struct_fields@,
            final(self).events@ == old(self).events@,
    {
        let id = TypeAliasId(self.type_aliases.len() as u32);
        self.type_aliases.push(entry);
        id
    }

    /// Interns an entry under the next contract id.
    pub fn intern_contract(&mut self, entry: ContractEntry) -> (id: ContractId)
        requires
            old(self).contracts@.len() < u32::MAX,
        ensures
            id.0 == old(self).contracts@.len(),
            final(self).contracts@ == old(self).contracts@.push(entry),
            final(self).ingots@ == old(self).ingots@,
            final(self).modules@ == old(self).modules@,
            final(self).module_constants@ == old(self).module_constants@,
            final(self).type_aliases@ == old(self).type_aliases@,
            final(self).contract_fields@ == old(self).contract_fields@,
            final(self).functions@ == old(self).functions@,
            final(self).structs@ == old(self).structs@,
            final(self).struct_fields@ == old(self).struct_fields@,
            final(self).events@ == old(self).events@,
    {
        let id = ContractId(self.contracts.len() as u32);
        self.contracts.push(entry);
        id
    }

    /// Interns an entry under the next contract field id.
    pub fn intern_contract_field(&mut self, entry: ContractFieldEntry) -> (id: ContractFieldId)
        requires
            old(self).contract_fields@.len() < u32::MAX,
        ensures
            id.0 == old(self).contract_fields@.len(),
            final(self).contract_fields@ == old(self).contract_fields@.push(entry),
            final(self).ingots@ == old(self).ingots@,
            final(self).modules@ == old(self).modules@,
            final(self).module_constants@ == old(self).module_constants@,
            final(self).type_aliases@ == old(self).type_aliases@,
            final(self).contracts@ == old(self).contracts@,
            final(self).functions@ == old(self).functions@,
            final(self).structs@ == old(self).structs@,
            final(self).struct_fields@ == old(self).struct_fields@,
            final(self).events@ == old(self).events@,
    {
        let id = ContractFieldId(self.contract_fields.len() as u32);
        self.contract_fields.push(entry);
        id
    }

    /// Interns an entry under the next function id.
    pub fn intern_function(&mut self, entry: FunctionEntry) -> (id: FunctionId)
        requires
            old(self).functions@.len() < u32::MAX,
        ensures
            id.0 == old(self).functions@.len(),
            final(self).functions@ == old(self).functions@.push(entry),
            final(self).ingots@ == old(self).ingots@,
            final(self).modules@ == old(self).modules@,
            final(self).module_constants@ == old(self).module_constants@,
            final(self).type_aliases@ == old(self).type_aliases@,
            final(self).contracts@ == old(self).contracts@,
            final(self).contract_fields@ == old(self).contract_fields@,
            final(self).structs@ == old(self).structs@,
            final(self).struct_fields@ == old(self).struct_fields@,
            final(self).events@ == old(self).events@,
    {
        let id = FunctionId(self.functions.len() as u32);
        self.functions.push(entry);
        id
    }

    /// Interns an entry under the next struct id.
    pub fn intern_struct(&mut self, entry: StructEntry) -> (id: StructId)
        requires
            old(self).structs@.len() < u32::MAX,
        ensures
            id.0 == old(self).structs@.len(),
            final(self).structs@ == old(self).structs@.push(entry),
            final(self).ingots@ == old(self).ingots@,
            final(self).modules@ == old(self).modules@,
            final(self).module_constants@ == old(self).module_constants@,
            final(self).type_aliases@ == old(self).type_aliases@,
            final(self).contracts@ == old(self).contracts@,
            final(self).contract_fields@ == old(self).contract_fields@,
            final(self).functions@ == old(self).functions@,
            final(self).struct_fields@ == old(self).struct_fields@,
            final(self).events@ == old(self).events@,
    {
        let id = StructId(self.structs.len() as u32);
        self.structs.push(entry);
        id
    }

    /// Interns an entry under the next struct field id.
    pub fn intern_struct_field(&mut self, entry: StructFieldEntry) -> (id: StructFieldId)
        requires
            old(self).struct_fields@.len() < u32::MAX,
        ensures
            id.0 == old(self).struct_fields@.len(),
            final(self).struct_fields@ == old(self).struct_fields@.push(entry),
            final(self).ingots@ == old(self).ingots@,
            final(self).modules@ == old(self).modules@,
            final(self).module_constants@ == old(self).module_constants@,
            final(self).type_aliases@ == old(self).type_aliases@,
            final(self).contracts@ == old(self).contracts@,
            final(self).contract_fields@ == old(self).contract_fields@,
            final(self).functions@ == old(self).functions@,
            final(self).structs@ == old(self).structs@,
            final(self).events@ == old(self).events@,
    {
        let id = StructFieldId(self.struct_fields.len() as u32);
        self.struct_fields.push(entry);
        id
    }

    /// Interns an entry under the next event id.
    pub fn intern_event(&mut self, entry: EventEntry) -> (id: EventId)
        requires
            old(self).events@.len() < u32::MAX,
        ensures
            id.0 == old(self).events@.len(),
            final(self).events@ == old(self).events@.push(entry),
            final(self).ingots@ == old(self).ingots@,
            final(self).modules@ == old(self).modules@,
            final(self).module_constants@ == old(self).module_constants@,
            final(self).type_aliases@ == old(self).type_aliases@,
            final(self).contracts@ == old(self).contracts@,
            final(self).contract_fields@ == old(self).contract_fields@,
            final(self).functions@ == old(self).functions@,
            final(self).structs@ == old(self).structs@,
            final(self).struct_fields@ == old(self).struct_fields@,
    {
        let id = EventId(self.events.len() as u32);
        self.events.push(entry);
        id
    }
}

} // verus!
