//! Functions, objects and methods that the language provides.

use vstd::prelude::*;

verus! {

/// Functions available in every module.
#[derive(Debug, PartialEq, Eq, Structural, Hash, PartialOrd, Ord, Clone, Copy)]
pub enum GlobalFunction {
    Keccak256,
}

pub open spec fn global_function_name(f: GlobalFunction) -> Seq<char> {
    match f {
        GlobalFunction::Keccak256 => "keccak256"@,
    }
}

impl GlobalFunction {
    pub fn as_str(&self) -> (s: &'static str)
        ensures
            s@ == global_function_name(*self),
    {
        match self {
            GlobalFunction::Keccak256 => "keccak256",
        }
    }
}

/// Objects available in every function.
#[derive(Debug, PartialEq, Eq, Structural, Hash, PartialOrd, Ord, Clone, Copy)]
pub enum GlobalObject {
    Block,
    Chain,
    Msg,
    Tx,
}

pub open spec fn global_object_name(o: GlobalObject) -> Seq<char> {
    match o {
        GlobalObject::Block => "block"@,
        GlobalObject::Chain => "chain"@,
        GlobalObject::Msg => "msg"@,
        GlobalObject::Tx => "tx"@,
    }
}

impl GlobalObject {
    pub fn as_str(&self) -> (s: &'static str)
        ensures
            s@ == global_object_name(*self),
    {
        match self {
            GlobalObject::Block => "block",
            GlobalObject::Chain => "chain",
            GlobalObject::Msg => "msg",
            GlobalObject::Tx => "tx",
        }
    }
}

/// Methods that every value has.
#[derive(Debug, PartialEq, Eq, Structural, Hash, PartialOrd, Ord, Clone, Copy)]
pub enum ValueMethod {
    Clone,
    ToMem,
    AbiEncode,
}

pub open spec fn value_method_name(m: ValueMethod) -> Seq<char> {
    match m {
        ValueMethod::Clone => "clone"@,
        ValueMethod::ToMem => "to_mem"@,
        ValueMethod::AbiEncode => "abi_encode"@,
    }
}

impl ValueMethod {
    pub fn as_str(&self) -> (s: &'static str)
        ensures
            s@ == value_method_name(*self),
    {
        match self {
            ValueMethod::Clone => "clone",
            ValueMethod::ToMem => "to_mem",
            ValueMethod::AbiEncode => "abi_encode",
        }
    }
}

} // verus!
