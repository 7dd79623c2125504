use std::rc::Rc;

use fe_items::deps::{is_local, walk_local_dependencies, DepGraph, DepGraphWrapper};
use fe_items::items::{ContractId, DepLocality, FunctionId, Item, StructId, TypeDef};

fn contract(n: u32) -> Item {
    Item::Type(TypeDef::Contract(ContractId(n)))
}

fn sample() -> DepGraph {
    let mut g = DepGraph::new();
    g.add_edge(contract(0), Item::Function(FunctionId(0)), DepLocality::Local);
    g.add_edge(contract(0), contract(1), DepLocality::External);
    g.add_edge(Item::Function(FunctionId(0)), Item::Type(TypeDef::Struct(StructId(0))), DepLocality::Local);
    g.add_edge(contract(1), Item::Function(FunctionId(1)), DepLocality::Local);
    g.add_node(Item::Function(FunctionId(9)));
    g
}

#[test]
fn walk_visits_reachable_items_root_first() {
    let g = sample();
    let order = walk_local_dependencies(&g, contract(0));
    assert_eq!(
        order,
        vec![
            contract(0),
            Item::Function(FunctionId(0)),
            contract(1),
            Item::Type(TypeDef::Struct(StructId(0))),
            Item::Function(FunctionId(1)),
        ]
    );
}

#[test]
fn walk_from_a_leaf_or_unknown_item() {
    let g = sample();
    assert_eq!(walk_local_dependencies(&g, Item::Function(FunctionId(9))), vec![Item::Function(FunctionId(9))]);
    assert_eq!(walk_local_dependencies(&g, contract(7)), vec![contract(7)]);
}

#[test]
fn wrapper_equality() {
    let a = DepGraphWrapper(Rc::new(sample()));
    let b = DepGraphWrapper(Rc::new(sample()));
    assert!(a == b);
    let mut other = sample();
    other.add_edge(contract(1), contract(0), DepLocality::External);
    assert!(a != DepGraphWrapper(Rc::new(other)));
    assert!(a != DepGraphWrapper(Rc::new(DepGraph::new())));
}

#[test]
fn locality() {
    assert!(is_local(&DepLocality::Local));
    assert!(!is_local(&DepLocality::External));
}


#[test]
fn wrapper_equality_is_reflexive_and_symmetric() {
    let a = DepGraphWrapper(Rc::new(sample()));
    assert!(a == a);
    let mut g = DepGraph::new();
    g.add_edge(contract(0), contract(1), DepLocality::Local);
    let mut h = DepGraph::new();
    h.add_edge(contract(0), contract(1), DepLocality::External);
    let (x, y) = (DepGraphWrapper(Rc::new(g)), DepGraphWrapper(Rc::new(h)));
    assert_eq!(x == y, y == x);
    assert!(x != y);
}

#[test]
fn walk_lists_children_in_neighbour_order() {
    let mut g = DepGraph::new();
    g.add_edge(contract(0), Item::Function(FunctionId(3)), DepLocality::Local);
    g.add_edge(contract(0), Item::Function(FunctionId(1)), DepLocality::External);
    g.add_edge(contract(0), Item::Function(FunctionId(2)), DepLocality::Local);
    g.add_edge(Item::Function(FunctionId(3)), Item::Function(FunctionId(7)), DepLocality::Local);
    g.add_edge(Item::Function(FunctionId(1)), Item::Function(FunctionId(6)), DepLocality::Local);
    assert_eq!(
        walk_local_dependencies(&g, contract(0)),
        vec![
            contract(0),
            Item::Function(FunctionId(3)),
            Item::Function(FunctionId(1)),
            Item::Function(FunctionId(2)),
            Item::Function(FunctionId(7)),
            Item::Function(FunctionId(6)),
        ]
    );
}
