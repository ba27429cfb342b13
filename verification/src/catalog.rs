//! What the list of records holds for a unit whose functions do not nest.
//!
//! The visitor has one slot. A function written inside another function's
//! body takes the slot from the outer one, and any item written there empties
//! it on exit. The statements below are about units in which no item, trait
//! item or impl item stands below a node that owns a function body; that is
//! the shape in which a compiler hands out its items, each on its own, with
//! nested items listed beside the function they were written in.

use vstd::prelude::*;
use crate::hir::{Crate, ImplItem, ImplItemKind, Node, TraitItem, TraitItemKind, TraitMethod};
use crate::syntax::{
    admits, admits_nodes, after_node, after_nodes, catalog, opens, supported, FunctionRecord,
    FunctionSignature, SyntaxVisitor, TraversalState,
};

verus! {

/// No item, trait item or impl item stands at the node or below it.
pub open spec fn item_free(node: Node) -> bool
    decreases node,
{
    !node.is_item_like() && item_free_nodes(node.children())
}

/// [`item_free`] for every node of a list.
pub open spec fn item_free_nodes(nodes: Seq<Node>) -> bool
    decreases nodes,
{
    nodes.len() == 0 || (item_free(nodes[0]) && item_free_nodes(nodes.drop_first()))
}

/// No item, trait item or impl item stands below a node that owns a function
/// body, at the node or below it.
pub open spec fn well_nested(node: Node) -> bool
    decreases node,
{
    if opens(node) is Some {
        item_free_nodes(node.children())
    } else {
        well_nested_nodes(node.children())
    }
}

/// [`well_nested`] for every node of a list.
pub open spec fn well_nested_nodes(nodes: Seq<Node>) -> bool
    decreases nodes,
{
    nodes.len() == 0 || (well_nested(nodes[0]) && well_nested_nodes(nodes.drop_first()))
}

/// A block marked unsafe stands at the node or below it, at any depth, and
/// not inside an item that is nested there.
pub open spec fn has_unsafe_block(node: Node) -> bool
    decreases node,
{
    match node {
        Node::Block(block) => block.rules is UnsafeBlock || any_unsafe_block(block.children@),
        Node::Other(children) => any_unsafe_block(children@),
        _ => false,
    }
}

/// [`has_unsafe_block`] for some node of a list.
pub open spec fn any_unsafe_block(nodes: Seq<Node>) -> bool
    decreases nodes,
{
    nodes.len() != 0 && (has_unsafe_block(nodes[0]) || any_unsafe_block(nodes.drop_first()))
}

/// The record that belongs to a node that owns a function body: what the node
/// opens, with the flag up if and only if the body holds a block marked
/// unsafe.
pub open spec fn record_of(node: Node) -> Option<FunctionRecord> {
    match opens(node) {
        Some(record) => Some(
            FunctionRecord { contains_unsafe: any_unsafe_block(node.children()), ..record },
        ),
        None => None,
    }
}

/// The records of the functions at a node and below it, in the order in which
/// their declarations end.
pub open spec fn declared(node: Node) -> Seq<FunctionRecord>
    decreases node,
{
    let below = declared_nodes(node.children());
    match record_of(node) {
        Some(record) => below.push(record),
        None => below,
    }
}

/// The records of the functions in a list of nodes, in declaration order.
pub open spec fn declared_nodes(nodes: Seq<Node>) -> Seq<FunctionRecord>
    decreases nodes,
{
    if nodes.len() == 0 {
        Seq::empty()
    } else {
        declared(nodes[0]) + declared_nodes(nodes.drop_first())
    }
}

/// Every block at the node or below it carries a marking that the walk
/// knows.
pub open spec fn all_supported(node: Node) -> bool
    decreases node,
{
    &&& node matches Node::Block(block) ==> supported(block.rules)
    &&& all_supported_nodes(node.children())
}

/// [`all_supported`] for every node of a list.
pub open spec fn all_supported_nodes(nodes: Seq<Node>) -> bool
    decreases nodes,
{
    nodes.len() == 0 || (all_supported(nodes[0]) && all_supported_nodes(nodes.drop_first()))
}

/// Every block below a node that owns a function body carries a marking that
/// the walk knows, at the node or below it.
pub open spec fn bodies_supported(node: Node) -> bool
    decreases node,
{
    if opens(node) is Some {
        all_supported_nodes(node.children())
    } else {
        bodies_supported_nodes(node.children())
    }
}

/// [`bodies_supported`] for every node of a list.
pub open spec fn bodies_supported_nodes(nodes: Seq<Node>) -> bool
    decreases nodes,
{
    nodes.len() == 0 || (bodies_supported(nodes[0]) && bodies_supported_nodes(
        nodes.drop_first(),
    ))
}

/// The test that a record has the given signature.
pub open spec fn has_sig(sig: FunctionSignature) -> spec_fn(FunctionRecord) -> bool {
    |record: FunctionRecord| record.sig == sig
}

/// Whether a node owns a function body of the given signature: a free item
/// that is a function, a trait method with a default body, or a method of an
/// impl block.
pub open spec fn bears(node: Node, sig: FunctionSignature) -> bool {
    match sig {
        FunctionSignature::FreeFn => node matches Node::Item(item) && item.node is Fn,
        FunctionSignature::ProvidedTraitFn => node matches Node::TraitItem(trait_item)
            && trait_item.node matches TraitItemKind::Method(_, TraitMethod::Provided(_)),
        FunctionSignature::ImplFn => node matches Node::ImplItem(impl_item)
            && impl_item.node is Method,
    }
}

/// The number of nodes, at a node and below it, that own a function body of
/// the given signature.
pub open spec fn functions_with(node: Node, sig: FunctionSignature) -> nat
    decreases node,
{
    let below = functions_with_in(node.children(), sig);
    if bears(node, sig) {
        below + 1
    } else {
        below
    }
}

/// [`functions_with`] summed over a list of nodes.
pub open spec fn functions_with_in(nodes: Seq<Node>, sig: FunctionSignature) -> nat
    decreases nodes,
{
    if nodes.len() == 0 {
        0
    } else {
        functions_with(nodes[0], sig) + functions_with_in(nodes.drop_first(), sig)
    }
}

/// The state with the flag of the open record raised if `flag` holds.
spec fn raised(state: TraversalState, flag: bool) -> TraversalState {
    match state.visiting {
        Some(record) => TraversalState {
            visiting: Some(
                FunctionRecord { contains_unsafe: record.contains_unsafe || flag, ..record },
            ),
            catalog: state.catalog,
        },
        None => state,
    }
}

/// Below a function body without nested items the walk only raises the flag.
proof fn lemma_body_node(node: Node, state: TraversalState)
    requires
        item_free(node),
        state.visiting is Some,
    ensures
        after_node(node, state) == raised(state, has_unsafe_block(node)),
    decreases node,
{
    lemma_body_nodes(node.children(), state.enter(node));
}

proof fn lemma_body_nodes(nodes: Seq<Node>, state: TraversalState)
    requires
        item_free_nodes(nodes),
        state.visiting is Some,
    ensures
        after_nodes(nodes, state) == raised(state, any_unsafe_block(nodes)),
    decreases nodes,
{
    if nodes.len() != 0 {
        lemma_body_node(nodes[0], state);
        lemma_body_nodes(nodes.drop_first(), after_node(nodes[0], state));
    }
}

/// Where no item stands, no function is declared.
proof fn lemma_item_free_declares_nothing(node: Node)
    requires
        item_free(node),
    ensures
        declared(node) == Seq::<FunctionRecord>::empty(),
    decreases node,
{
    lemma_item_free_nodes_declare_nothing(node.children());
}

proof fn lemma_item_free_nodes_declare_nothing(nodes: Seq<Node>)
    requires
        item_free_nodes(nodes),
    ensures
        declared_nodes(nodes) == Seq::<FunctionRecord>::empty(),
    decreases nodes,
{
    if nodes.len() != 0 {
        lemma_item_free_declares_nothing(nodes[0]);
        lemma_item_free_nodes_declare_nothing(nodes.drop_first());
    }
}

/// A walk through a well-nested node that starts with the slot empty ends
/// with the slot empty and has added the node's functions to the list.
pub proof fn lemma_walk_node(node: Node, state: TraversalState)
    requires
        well_nested(node),
        state.visiting is None,
    ensures
        after_node(node, state) == (TraversalState {
            visiting: None,
            catalog: state.catalog + declared(node),
        }),
    decreases node,
{
    if opens(node) is Some {
        lemma_body_nodes(node.children(), state.enter(node));
        lemma_item_free_nodes_declare_nothing(node.children());
    } else {
        lemma_walk_nodes(node.children(), state.enter(node));
    }
    assert(after_node(node, state).catalog =~= state.catalog + declared(node));
}

/// [`lemma_walk_node`] for a list of nodes.
pub proof fn lemma_walk_nodes(nodes: Seq<Node>, state: TraversalState)
    requires
        well_nested_nodes(nodes),
        state.visiting is None,
    ensures
        after_nodes(nodes, state) == (TraversalState {
            visiting: None,
            catalog: state.catalog + declared_nodes(nodes),
        }),
    decreases nodes,
{
    if nodes.len() != 0 {
        lemma_walk_node(nodes[0], state);
        lemma_walk_nodes(nodes.drop_first(), after_node(nodes[0], state));
    }
    assert(after_nodes(nodes, state).catalog =~= state.catalog + declared_nodes(nodes));
}

/// The records declared at a node and below it that have a given signature
/// are as many as the nodes there that own a function body of that signature.
proof fn lemma_count_declared(node: Node, sig: FunctionSignature)
    ensures
        declared(node).filter(has_sig(sig)).len() == functions_with(node, sig),
    decreases node,
{
    reveal(Seq::filter);
    let below = declared_nodes(node.children());
    lemma_count_declared_nodes(node.children(), sig);
    match record_of(node) {
        Some(record) => {
            assert(below.push(record).drop_last() =~= below);
        },
        None => {},
    }
}

proof fn lemma_count_declared_nodes(nodes: Seq<Node>, sig: FunctionSignature)
    ensures
        declared_nodes(nodes).filter(has_sig(sig)).len() == functions_with_in(nodes, sig),
    decreases nodes,
{
    reveal(Seq::filter);
    if nodes.len() != 0 {
        lemma_count_declared(nodes[0], sig);
        lemma_count_declared_nodes(nodes.drop_first(), sig);
        Seq::filter_distributes_over_add(
            declared(nodes[0]),
            declared_nodes(nodes.drop_first()),
            has_sig(sig),
        );
    }
}

/// Order. The list that a walk over a well-nested unit ends with holds one
/// record for each node that owns a function body, in the order in which the
/// nodes are declared, and the walk ends with no record open.
pub proof fn lemma_catalog_in_declaration_order(krate: Crate)
    requires
        well_nested_nodes(krate.items@),
    ensures
        catalog(krate) == declared_nodes(krate.items@),
        after_nodes(krate.items@, TraversalState::empty()).visiting is None,
{
    lemma_walk_nodes(krate.items@, TraversalState::empty());
    assert(Seq::<FunctionRecord>::empty() + declared_nodes(krate.items@) =~= declared_nodes(
        krate.items@,
    ));
}

/// Order, by position. In a unit whose nodes each own a function body and
/// hold no item below them, the record at each position of the list is the
/// record of the node at that position of the unit.
pub proof fn lemma_catalog_follows_positions(krate: Crate)
    requires
        forall|i: int|
            0 <= i < krate.items@.len() ==> opens(#[trigger] krate.items@[i]) is Some
                && item_free_nodes(krate.items@[i].children()),
    ensures
        catalog(krate).len() == krate.items@.len(),
        forall|i: int|
            0 <= i < krate.items@.len() ==> Some(#[trigger] catalog(krate)[i]) == record_of(
                krate.items@[i],
            ),
{
    lemma_positions(krate.items@);
    lemma_catalog_in_declaration_order(krate);
}

proof fn lemma_positions(nodes: Seq<Node>)
    requires
        forall|i: int|
            0 <= i < nodes.len() ==> opens(#[trigger] nodes[i]) is Some && item_free_nodes(
                nodes[i].children(),
            ),
    ensures
        well_nested_nodes(nodes),
        declared_nodes(nodes).len() == nodes.len(),
        forall|i: int|
            0 <= i < nodes.len() ==> Some(#[trigger] declared_nodes(nodes)[i]) == record_of(
                nodes[i],
            ),
    decreases nodes,
{
    if nodes.len() != 0 {
        let rest = nodes.drop_first();
        assert forall|i: int| 0 <= i < rest.len() implies opens(#[trigger] rest[i]) is Some
            && item_free_nodes(rest[i].children()) by {
            assert(rest[i] == nodes[i + 1]);
        }
        lemma_positions(rest);
        assert(well_nested(nodes[0]));
        lemma_item_free_nodes_declare_nothing(nodes[0].children());
        assert(declared(nodes[0]) =~= seq![record_of(nodes[0]).unwrap()]);
        assert forall|i: int| 0 <= i < nodes.len() implies Some(
            #[trigger] declared_nodes(nodes)[i],
        ) == record_of(nodes[i]) by {
            if i > 0 {
                assert(declared_nodes(nodes)[i] == declared_nodes(rest)[i - 1]);
                assert(rest[i - 1] == nodes[i]);
            }
        }
    }
}

/// Flags. A walk through a node that owns a function body and holds no item
/// below it adds exactly one record to the list, whatever the slot held
/// before: the record that the node opens, with its flag up if and only if a
/// block marked unsafe stands below the node, at any depth.
pub proof fn lemma_flag_tells_unsafe_block(node: Node, state: TraversalState)
    requires
        opens(node) is Some,
        item_free_nodes(node.children()),
    ensures
        record_of(node) is Some,
        after_node(node, state) == (TraversalState {
            visiting: None,
            catalog: state.catalog.push(record_of(node).unwrap()),
        }),
        record_of(node).unwrap().sig == opens(node).unwrap().sig,
        record_of(node).unwrap().header == opens(node).unwrap().header,
        record_of(node).unwrap().body_id == opens(node).unwrap().body_id,
        record_of(node).unwrap().contains_unsafe <==> any_unsafe_block(node.children()),
{
    lemma_body_nodes(node.children(), state.enter(node));
}

/// Counts. In the list that a walk over a well-nested unit ends with, the
/// records of a given signature are as many as the nodes of the unit that own
/// a function body of that signature.
pub proof fn lemma_count_by_signature(krate: Crate, sig: FunctionSignature)
    requires
        well_nested_nodes(krate.items@),
    ensures
        catalog(krate).filter(has_sig(sig)).len() == functions_with_in(krate.items@, sig),
{
    lemma_catalog_in_declaration_order(krate);
    lemma_count_declared_nodes(krate.items@, sig);
}

/// Free functions. A well-nested unit with exactly `n` free functions yields
/// exactly `n` records whose signature is that of a free function.
pub proof fn lemma_free_functions_counted(krate: Crate, n: nat)
    requires
        well_nested_nodes(krate.items@),
        functions_with_in(krate.items@, FunctionSignature::FreeFn) == n,
    ensures
        catalog(krate).filter(has_sig(FunctionSignature::FreeFn)).len() == n,
{
    lemma_count_by_signature(krate, FunctionSignature::FreeFn);
}

/// Trait methods. The walk through the two methods of a trait, one with a
/// default body and one without, in either order, adds exactly one record:
/// that of the method with the body, marked as a provided trait method.
pub proof fn lemma_trait_methods(required: TraitItem, provided: TraitItem, state: TraversalState)
    requires
        required.node matches TraitItemKind::Method(_, TraitMethod::Required),
        provided.node matches TraitItemKind::Method(_, TraitMethod::Provided(_)),
        item_free_nodes(required.children@),
        item_free_nodes(provided.children@),
        state.visiting is None,
    ensures
        record_of(Node::TraitItem(provided)) is Some,
        record_of(Node::TraitItem(provided)).unwrap().sig == FunctionSignature::ProvidedTraitFn,
        after_nodes(seq![Node::TraitItem(required), Node::TraitItem(provided)], state).catalog
            == state.catalog.push(record_of(Node::TraitItem(provided)).unwrap()),
        after_nodes(seq![Node::TraitItem(provided), Node::TraitItem(required)], state).catalog
            == state.catalog.push(record_of(Node::TraitItem(provided)).unwrap()),
{
    let r = Node::TraitItem(required);
    let p = Node::TraitItem(provided);
    lemma_item_free_nodes_are_well_nested(required.children@);
    lemma_walk_pair(r, p, state);
    lemma_walk_pair(p, r, state);
    lemma_item_free_nodes_declare_nothing(required.children@);
    lemma_item_free_nodes_declare_nothing(provided.children@);
    assert(declared(r) =~= Seq::empty());
    assert(declared(p) =~= seq![record_of(p).unwrap()]);
    assert(state.catalog + (declared(r) + declared(p)) =~= state.catalog.push(
        record_of(p).unwrap(),
    ));
    assert(state.catalog + (declared(p) + declared(r)) =~= state.catalog.push(
        record_of(p).unwrap(),
    ));
}

/// Impl methods. The walk through the two methods of an impl block adds
/// exactly two records, that of the first method and then that of the second,
/// each marked as an impl method.
pub proof fn lemma_impl_methods(first: ImplItem, second: ImplItem, state: TraversalState)
    requires
        first.node is Method,
        second.node is Method,
        item_free_nodes(first.children@),
        item_free_nodes(second.children@),
        state.visiting is None,
    ensures
        record_of(Node::ImplItem(first)) is Some,
        record_of(Node::ImplItem(second)) is Some,
        record_of(Node::ImplItem(first)).unwrap().sig == FunctionSignature::ImplFn,
        record_of(Node::ImplItem(second)).unwrap().sig == FunctionSignature::ImplFn,
        after_nodes(seq![Node::ImplItem(first), Node::ImplItem(second)], state).catalog
            == state.catalog.push(record_of(Node::ImplItem(first)).unwrap()).push(
            record_of(Node::ImplItem(second)).unwrap(),
        ),
{
    let a = Node::ImplItem(first);
    let b = Node::ImplItem(second);
    lemma_walk_pair(a, b, state);
    lemma_item_free_nodes_declare_nothing(first.children@);
    lemma_item_free_nodes_declare_nothing(second.children@);
    assert(declared(a) =~= seq![record_of(a).unwrap()]);
    assert(declared(b) =~= seq![record_of(b).unwrap()]);
    assert(state.catalog + (declared(a) + declared(b)) =~= state.catalog.push(
        record_of(a).unwrap(),
    ).push(record_of(b).unwrap()));
}

/// Where no item stands, nothing nests.
proof fn lemma_item_free_is_well_nested(node: Node)
    requires
        item_free(node),
    ensures
        well_nested(node),
    decreases node,
{
    lemma_item_free_nodes_are_well_nested(node.children());
}

proof fn lemma_item_free_nodes_are_well_nested(nodes: Seq<Node>)
    requires
        item_free_nodes(nodes),
    ensures
        well_nested_nodes(nodes),
    decreases nodes,
{
    if nodes.len() != 0 {
        lemma_item_free_is_well_nested(nodes[0]);
        lemma_item_free_nodes_are_well_nested(nodes.drop_first());
    }
}

/// The walk through two well-nested nodes adds the functions of the first and
/// then those of the second.
proof fn lemma_walk_pair(first: Node, second: Node, state: TraversalState)
    requires
        well_nested(first),
        well_nested(second),
        state.visiting is None,
    ensures
        after_nodes(seq![first, second], state).catalog == state.catalog + (declared(first)
            + declared(second)),
{
    let nodes = seq![first, second];
    assert(nodes.drop_first() =~= seq![second]);
    assert(nodes.drop_first().drop_first() =~= Seq::<Node>::empty());
    reveal_with_fuel(well_nested_nodes, 3);
    reveal_with_fuel(declared_nodes, 3);
    lemma_walk_nodes(nodes, state);
    assert(declared_nodes(nodes) =~= declared(first) + declared(second));
}

/// Repetition. Two walks over the same unit from the same state end in the
/// same state: the lists of two visitors that each walked the unit once hold
/// the same records in the same order.
pub proof fn lemma_walks_agree(krate: Crate, first: SyntaxVisitor, second: SyntaxVisitor)
    requires
        first@ == after_nodes(krate.items@, TraversalState::empty()),
        second@ == after_nodes(krate.items@, TraversalState::empty()),
    ensures
        first@.catalog == second@.catalog,
        first@.catalog == catalog(krate),
{
}

/// Admission, whatever the nesting. A walk that meets no block with a push or
/// pop marking at all is admitted from every state.
pub proof fn lemma_supported_is_admitted(node: Node, state: TraversalState)
    requires
        all_supported(node),
    ensures
        admits(node, state),
    decreases node,
{
    lemma_supported_nodes_are_admitted(node.children(), state.enter(node));
}

/// [`lemma_supported_is_admitted`] for a list of nodes.
pub proof fn lemma_supported_nodes_are_admitted(nodes: Seq<Node>, state: TraversalState)
    requires
        all_supported_nodes(nodes),
    ensures
        admits_nodes(nodes, state),
    decreases nodes,
{
    if nodes.len() != 0 {
        lemma_supported_is_admitted(nodes[0], state);
        lemma_supported_nodes_are_admitted(nodes.drop_first(), after_node(nodes[0], state));
    }
}

/// Below a function body without nested items, and with a record open, the
/// walk is admitted exactly where every block carries a marking that the walk
/// knows.
proof fn lemma_body_admitted(node: Node, state: TraversalState)
    requires
        item_free(node),
        state.visiting is Some,
    ensures
        admits(node, state) <==> all_supported(node),
    decreases node,
{
    lemma_body_nodes_admitted(node.children(), state.enter(node));
}

proof fn lemma_body_nodes_admitted(nodes: Seq<Node>, state: TraversalState)
    requires
        item_free_nodes(nodes),
        state.visiting is Some,
    ensures
        admits_nodes(nodes, state) <==> all_supported_nodes(nodes),
    decreases nodes,
{
    if nodes.len() != 0 {
        lemma_body_admitted(nodes[0], state);
        lemma_body_node(nodes[0], state);
        lemma_body_nodes_admitted(nodes.drop_first(), after_node(nodes[0], state));
    }
}

/// Admission of a well-nested node. A walk that starts with the slot empty is
/// admitted if and only if no block below a node that owns a function body
/// carries a push or pop marking; such a block anywhere else does no harm.
pub proof fn lemma_admitted_node(node: Node, state: TraversalState)
    requires
        well_nested(node),
        state.visiting is None,
    ensures
        admits(node, state) <==> bodies_supported(node),
    decreases node,
{
    if opens(node) is Some {
        lemma_body_nodes_admitted(node.children(), state.enter(node));
    } else {
        lemma_admitted_nodes(node.children(), state.enter(node));
    }
}

/// [`lemma_admitted_node`] for a list of nodes.
pub proof fn lemma_admitted_nodes(nodes: Seq<Node>, state: TraversalState)
    requires
        well_nested_nodes(nodes),
        state.visiting is None,
    ensures
        admits_nodes(nodes, state) <==> bodies_supported_nodes(nodes),
    decreases nodes,
{
    if nodes.len() != 0 {
        lemma_admitted_node(nodes[0], state);
        lemma_walk_node(nodes[0], state);
        lemma_admitted_nodes(nodes.drop_first(), after_node(nodes[0], state));
    }
}

/// The list never loses a record: whatever the nesting, the records closed
/// before a walk are the first records of the list after it, unchanged.
pub proof fn lemma_catalog_grows(node: Node, state: TraversalState)
    ensures
        state.catalog.is_prefix_of(after_node(node, state).catalog),
    decreases node,
{
    lemma_catalog_grows_nodes(node.children(), state.enter(node));
}

/// [`lemma_catalog_grows`] for a list of nodes.
pub proof fn lemma_catalog_grows_nodes(nodes: Seq<Node>, state: TraversalState)
    ensures
        state.catalog.is_prefix_of(after_nodes(nodes, state).catalog),
    decreases nodes,
{
    if nodes.len() != 0 {
        lemma_catalog_grows(nodes[0], state);
        lemma_catalog_grows_nodes(nodes.drop_first(), after_node(nodes[0], state));
    }
}

} // verus!
