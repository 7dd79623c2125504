//! The types that the analysis assigns to items.

use vstd::prelude::*;
use crate::items::{ContractId, StructId};

verus! {

#[derive(Debug, PartialEq, Eq, Structural, Hash, PartialOrd, Ord, Clone, Copy)]
pub enum Integer {
    U256,
    U128,
    U64,
    U32,
    U16,
    U8,
    I256,
    I128,
    I64,
    I32,
    I16,
    I8,
}

/// The primitive types.
#[derive(Debug, PartialEq, Eq, Structural, Hash, PartialOrd, Ord, Clone, Copy)]
pub enum Base {
    Numeric(Integer),
    Bool,
    Address,
    Unit,
}

/// How a primitive type is written in Fe source.
pub open spec fn base_name(b: Base) -> Seq<char> {
    match b {
        Base::Numeric(i) => match i {
            Integer::U256 => "u256"@,
            Integer::U128 => "u128"@,
            Integer::U64 => "u64"@,
            Integer::U32 => "u32"@,
            Integer::U16 => "u16"@,
            Integer::U8 => "u8"@,
            Integer::I256 => "i256"@,
            Integer::I128 => "i128"@,
            Integer::I64 => "i64"@,
            Integer::I32 => "i32"@,
            Integer::I16 => "i16"@,
            Integer::I8 => "i8"@,
        },
        Base::Bool => "bool"@,
        Base::Address => "address"@,
        Base::Unit => "()"@,
    }
}

impl Base {
    /// The name of the type as written in Fe source.
    pub fn name(&self) -> (s: String)
        ensures
            s@ == base_name(*self),
    {
        let n: &str = match self {
            Base::Numeric(i) => match i {
                Integer::U256 => "u256",
                Integer::U128 => "u128",
                Integer::U64 => "u64",
                Integer::U32 => "u32",
                Integer::U16 => "u16",
                Integer::U8 => "u8",
                Integer::I256 => "i256",
                Integer::I128 => "i128",
                Integer::I64 => "i64",
                Integer::I32 => "i32",
                Integer::I16 => "i16",
                Integer::I8 => "i8",
            },
            Base::Bool => "bool",
            Base::Address => "address",
            Base::Unit => "()",
        };
        n.to_owned()
    }
}

/// A fixed-size array of a primitive type.
#[derive(Debug, PartialEq, Eq, Structural, Hash, Clone, Copy)]
pub struct Array {
    pub size: usize,
    pub inner: Base,
}

/// A string with an upper bound on its length.
#[derive(Debug, PartialEq, Eq, Structural, Hash, Clone, Copy)]
pub struct FeString {
    pub max_size: usize,
}

/// A storage map from a primitive key.
#[derive(Debug, PartialEq, Eq, Hash)]
pub struct StorageMap {
    pub key: Base,
    pub value: Box<Type>,
}

/// A struct type.
#[derive(Debug, PartialEq, Eq, Hash, Clone)]
pub struct Struct {
    pub id: StructId,
    pub name: String,
    pub field_count: usize,
}

/// A contract type.
#[derive(Debug, PartialEq, Eq, Hash, Clone)]
pub struct Contract {
    pub name: String,
    pub id: ContractId,
}

/// Any type.
#[derive(Debug, PartialEq, Eq, Hash)]
pub enum Type {
    Base(Base),
    Array(Array),
    StorageMap(StorageMap),
    String(FeString),
    Contract(Contract),
    Struct(Struct),
}

/// The types whose values have a size known in advance.
#[derive(Debug, PartialEq, Eq, Hash, Clone)]
pub enum FixedSize {
    Base(Base),
    Array(Array),
    String(FeString),
    Contract(Contract),
    Struct(Struct),
}

/// A type that could not be determined; the reason has been reported as a
/// diagnostic.
#[derive(Debug, PartialEq, Eq, Structural, Hash, Clone, Copy)]
pub struct TypeError;

/// The built-in generic types.
#[derive(Debug, PartialEq, Eq, Structural, Hash, PartialOrd, Ord, Clone, Copy)]
pub enum GenericType {
    Array,
    String,
    StorageMap,
}

pub open spec fn generic_type_name(g: GenericType) -> Seq<char> {
    match g {
        GenericType::Array => "Array"@,
        GenericType::String => "String"@,
        GenericType::StorageMap => "Map"@,
    }
}

impl GenericType {
    pub fn name(&self) -> (s: &'static str)
        ensures
            s@ == generic_type_name(*self),
    {
        match self {
            GenericType::Array => "Array",
            GenericType::String => "String",
            GenericType::StorageMap => "Map",
        }
    }
}

/// How a function takes `self`.
#[derive(Debug, PartialEq, Eq, Structural, Hash, Clone, Copy)]
pub enum SelfDecl {
    Mutable,
}

#[derive(Debug, PartialEq, Eq, Hash)]
pub struct FunctionParam {
    pub name: String,
    pub typ: Result<FixedSize, TypeError>,
}

/// The signature of a function.
#[derive(Debug, PartialEq, Eq, Hash)]
pub struct FunctionSignature {
    pub self_decl: Option<SelfDecl>,
    pub params: Vec<FunctionParam>,
    pub return_type: Result<FixedSize, TypeError>,
}

#[derive(Debug, PartialEq, Eq, Hash)]
pub struct EventField {
    pub name: String,
    pub typ: Result<FixedSize, TypeError>,
    pub is_indexed: bool,
}

/// The type of an event.
#[derive(Debug, PartialEq, Eq, Hash)]
pub struct Event {
    pub name: String,
    pub fields: Vec<EventField>,
}

impl Type {
    /// A copy of the type.
    pub fn duplicate(&self) -> (t: Type)
        ensures
            t == *self,
        decreases self,
    {
        match self {
            Type::Base(b) => Type::Base(*b),
            Type::Array(a) => Type::Array(*a),
            Type::StorageMap(m) => Type::StorageMap(StorageMap { key: m.key, value: Box::new(m.value.duplicate()) }),
            Type::String(s) => Type::String(*s),
            Type::Contract(c) => Type::Contract(Contract { name: c.name.clone(), id: c.id }),
            Type::Struct(s) => Type::Struct(
                Struct { id: s.id, name: s.name.clone(), field_count: s.field_count },
            ),
        }
    }
}

impl FixedSize {
    /// A copy of the type.
    pub fn duplicate(&self) -> (t: FixedSize)
        ensures
            t == *self,
    {
        match self {
            FixedSize::Base(b) => FixedSize::Base(*b),
            FixedSize::Array(a) => FixedSize::Array(*a),
            FixedSize::String(s) => FixedSize::String(*s),
            FixedSize::Contract(c) => FixedSize::Contract(Contract { name: c.name.clone(), id: c.id }),
            FixedSize::Struct(s) => FixedSize::Struct(
                Struct { id: s.id, name: s.name.clone(), field_count: s.field_count },
            ),
        }
    }
}

} // verus!
