//! The walk over a compilation unit that collects its functions.
//!
//! The visitor keeps one slot for the record that is open and the list of the
//! records that were closed. An item, a trait item or an impl item that owns a
//! function body puts a fresh record into the slot on entry, whatever the slot
//! held. Every item-like node moves the slot's record to the list on exit. A
//! block marked unsafe raises the flag of the record in the slot.

use vstd::prelude::*;
use vstd::pervasive::unreached;
use crate::hir::{
    Block, BlockCheckMode, BodyId, Crate, FnHeader, ImplItem, ImplItemKind, Item, ItemKind, Node,
    TraitItem, TraitItemKind, TraitMethod,
};

verus! {

/// The syntactic place of a function.
#[derive(Clone, Copy, Debug, PartialEq, Eq)]
pub enum FunctionSignature {
    /// A free function.
    FreeFn,
    /// A trait method with a default body.
    ProvidedTraitFn,
    /// A method of an impl block.
    ImplFn,
}

/// What a [`FunctionMemo`] holds, as a plain value.
pub struct FunctionRecord {
    pub sig: FunctionSignature,
    pub header: FnHeader,
    pub body_id: BodyId,
    pub contains_unsafe: bool,
}

/// The state of a walk: the record that is open, if any, and the records
/// closed so far, oldest first.
pub struct TraversalState {
    pub visiting: Option<FunctionRecord>,
    pub catalog: Seq<FunctionRecord>,
}

/// The record that a node opens when the walk enters it: one for a free
/// function, for a trait method with a default body and for an impl method,
/// and none for any other node.
pub open spec fn opens(node: Node) -> Option<FunctionRecord> {
    match node {
        Node::Item(item) => match item.node {
            ItemKind::Fn(header, body_id) => Some(
                FunctionRecord {
                    sig: FunctionSignature::FreeFn,
                    header,
                    body_id,
                    contains_unsafe: false,
                },
            ),
            ItemKind::Other => None,
        },
        Node::TraitItem(trait_item) => match trait_item.node {
            TraitItemKind::Method(header, TraitMethod::Provided(body_id)) => Some(
                FunctionRecord {
                    sig: FunctionSignature::ProvidedTraitFn,
                    header,
                    body_id,
                    contains_unsafe: false,
                },
            ),
            _ => None,
        },
        Node::ImplItem(impl_item) => match impl_item.node {
            ImplItemKind::Method(header, body_id) => Some(
                FunctionRecord {
                    sig: FunctionSignature::ImplFn,
                    header,
                    body_id,
                    contains_unsafe: false,
                },
            ),
            ImplItemKind::Other => None,
        },
        _ => None,
    }
}

/// Whether the pass knows what to do with a block's marking.
pub open spec fn supported(rules: BlockCheckMode) -> bool {
    rules is DefaultBlock || rules is UnsafeBlock
}

impl TraversalState {
    /// The state in which a walk starts.
    pub open spec fn empty() -> TraversalState {
        TraversalState { visiting: None, catalog: Seq::empty() }
    }

    /// The slot's record moves to the end of the list.
    pub open spec fn close(self) -> TraversalState {
        match self.visiting {
            Some(record) => TraversalState {
                visiting: None,
                catalog: self.catalog.push(record),
            },
            None => self,
        }
    }

    /// A block with the given marking is met: an unsafe one raises the flag of
    /// the open record.
    pub open spec fn mark(self, rules: BlockCheckMode) -> TraversalState {
        match self.visiting {
            Some(record) if rules is UnsafeBlock => TraversalState {
                visiting: Some(FunctionRecord { contains_unsafe: true, ..record }),
                catalog: self.catalog,
            },
            _ => self,
        }
    }

    /// What entering a node does, before its children are walked.
    pub open spec fn enter(self, node: Node) -> TraversalState {
        match node {
            Node::Block(block) => self.mark(block.rules),
            _ => match opens(node) {
                Some(record) => TraversalState { visiting: Some(record), catalog: self.catalog },
                None => self,
            },
        }
    }

    /// What leaving a node does, after its children were walked.
    pub open spec fn leave(self, node: Node) -> TraversalState {
        if node.is_item_like() {
            self.close()
        } else {
            self
        }
    }
}

/// The state after the walk has gone through a node and everything below it.
pub open spec fn after_node(node: Node, state: TraversalState) -> TraversalState
    decreases node,
{
    after_nodes(node.children(), state.enter(node)).leave(node)
}

/// The state after the walk has gone through a list of nodes, first to last.
pub open spec fn after_nodes(nodes: Seq<Node>, state: TraversalState) -> TraversalState
    decreases nodes,
{
    if nodes.len() == 0 {
        state
    } else {
        after_nodes(nodes.drop_first(), after_node(nodes[0], state))
    }
}

/// Whether the walk through a node, started in the given state, meets no
/// block with a push or pop marking while a record is open.
pub open spec fn admits(node: Node, state: TraversalState) -> bool
    decreases node,
{
    &&& node matches Node::Block(block) ==> state.visiting is Some ==> supported(block.rules)
    &&& admits_nodes(node.children(), state.enter(node))
}

/// [`admits`] for a list of nodes walked first to last.
pub open spec fn admits_nodes(nodes: Seq<Node>, state: TraversalState) -> bool
    decreases nodes,
{
    nodes.len() == 0 || {
        &&& admits(nodes[0], state)
        &&& admits_nodes(nodes.drop_first(), after_node(nodes[0], state))
    }
}

/// The list of records that a walk over a whole unit ends with.
pub open spec fn catalog(krate: Crate) -> Seq<FunctionRecord> {
    after_nodes(krate.items@, TraversalState::empty()).catalog
}

/// The records that a list of memos holds.
pub open spec fn records(memos: Seq<FunctionMemo>) -> Seq<FunctionRecord> {
    memos.map_values(|memo: FunctionMemo| memo@)
}

/// One function of the unit: where it stands, its header, its body, and
/// whether its body holds a block marked unsafe.
#[derive(Debug)]
pub struct FunctionMemo {
    sig: FunctionSignature,
    header: FnHeader,
    body_id: BodyId,
    contains_unsafe: bool,
}

impl View for FunctionMemo {
    type V = FunctionRecord;

    closed spec fn view(&self) -> FunctionRecord {
        FunctionRecord {
            sig: self.sig,
            header: self.header,
            body_id: self.body_id,
            contains_unsafe: self.contains_unsafe,
        }
    }
}

impl FunctionMemo {
    /// A record as it is when its function is entered: the flag is down.
    pub fn new(sig: FunctionSignature, header: FnHeader, body_id: BodyId) -> (memo: Self)
        ensures
            memo@ == (FunctionRecord { sig, header, body_id, contains_unsafe: false }),
    {
        FunctionMemo { sig, header, body_id, contains_unsafe: false }
    }

    /// The syntactic place of the function.
    pub fn sig(&self) -> (sig: FunctionSignature)
        ensures
            sig == self@.sig,
    {
        self.sig
    }

    /// The function's header, as the node had it when the record was opened.
    pub fn header(&self) -> (header: FnHeader)
        ensures
            header == self@.header,
    {
        self.header
    }

    /// The identifier of the function's body.
    pub fn body_id(&self) -> (body_id: BodyId)
        ensures
            body_id == self@.body_id,
    {
        self.body_id
    }

    /// Whether a block marked unsafe was met while the record was open.
    pub fn contains_unsafe(&self) -> (flag: bool)
        ensures
            flag == self@.contains_unsafe,
    {
        self.contains_unsafe
    }
}

/// The visitor that walks a unit and keeps the records.
pub struct SyntaxVisitor<'tcx> {
    tcx: &'tcx Crate,
    visiting: Option<FunctionMemo>,
    vec: Vec<FunctionMemo>,
}

impl<'tcx> View for SyntaxVisitor<'tcx> {
    type V = TraversalState;

    closed spec fn view(&self) -> TraversalState {
        TraversalState {
            visiting: match self.visiting {
                Some(memo) => Some(memo@),
                None => None,
            },
            catalog: records(self.vec@),
        }
    }
}

impl<'tcx> SyntaxVisitor<'tcx> {
    /// The unit that the visitor walks.
    pub closed spec fn krate(&self) -> Crate {
        *self.tcx
    }

    /// A visitor over a unit, with no record open and none closed.
    pub fn new(tcx: &'tcx Crate) -> (visitor: Self)
        ensures
            visitor.krate() == *tcx,
            visitor@ == TraversalState::empty(),
    {
        let visitor = SyntaxVisitor { tcx, visiting: None, vec: Vec::new() };
        assert(visitor@.catalog =~= Seq::empty());
        visitor
    }

    /// Walks the unit's nodes in declaration order and adds a record for each
    /// function to the list.
    pub fn collect_functions(&mut self)
        requires
            admits_nodes(old(self).krate().items@, old(self)@),
        ensures
            final(self)@ == after_nodes(old(self).krate().items@, old(self)@),
            final(self).krate() == old(self).krate(),
    {
        let krate = self.tcx;
        self.walk(&krate.items);
    }

    /// The records closed so far, oldest first.
    pub fn vec(&self) -> (vec: &Vec<FunctionMemo>)
        ensures
            records(vec@) == self@.catalog,
    {
        &self.vec
    }

    /// Gives up the visitor for the records closed so far, oldest first.
    pub fn into_vec(self) -> (vec: Vec<FunctionMemo>)
        ensures
            records(vec@) == self@.catalog,
    {
        self.vec
    }

    /// Whether the walk through a node, started in the visitor's present
    /// state, would meet no block with a push or pop marking while a record
    /// is open.
    pub fn accepts(&self, node: &Node) -> (ok: bool)
        ensures
            ok == admits(*node, self@),
    {
        check_node(node, self.visiting.is_some(), Ghost(self@)).0
    }

    /// [`accepts`](Self::accepts) for the whole unit: whether
    /// [`collect_functions`](Self::collect_functions) may be called.
    pub fn accepts_unit(&self) -> (ok: bool)
        ensures
            ok == admits_nodes(self.krate().items@, self@),
    {
        check_nodes(&self.tcx.items, self.visiting.is_some(), Ghost(self@)).0
    }

    /// Walks a free item: a function opens a record; the children are walked;
    /// the record in the slot is closed.
    pub fn visit_item(&mut self, item: &'tcx Item)
        requires
            admits(Node::Item(*item), old(self)@),
        ensures
            final(self)@ == after_node(Node::Item(*item), old(self)@),
            final(self).krate() == old(self).krate(),
        decreases item,
    {
        if let ItemKind::Fn(header, body_id) = &item.node {
            self.visiting = Some(FunctionMemo::new(FunctionSignature::FreeFn, *header, *body_id));
        }
        self.walk(&item.children);
        self.close();
    }

    /// Walks a trait item: a method with a default body opens a record; the
    /// children are walked; the record in the slot is closed.
    pub fn visit_trait_item(&mut self, trait_item: &'tcx TraitItem)
        requires
            admits(Node::TraitItem(*trait_item), old(self)@),
        ensures
            final(self)@ == after_node(Node::TraitItem(*trait_item), old(self)@),
            final(self).krate() == old(self).krate(),
        decreases trait_item,
    {
        if let TraitItemKind::Method(header, TraitMethod::Provided(body_id)) = &trait_item.node {
            self.visiting = Some(
                FunctionMemo::new(FunctionSignature::ProvidedTraitFn, *header, *body_id),
            );
        }
        self.walk(&trait_item.children);
        self.close();
    }

    /// Walks an impl item: a method opens a record; the children are walked;
    /// the record in the slot is closed.
    pub fn visit_impl_item(&mut self, impl_item: &'tcx ImplItem)
        requires
            admits(Node::ImplItem(*impl_item), old(self)@),
        ensures
            final(self)@ == after_node(Node::ImplItem(*impl_item), old(self)@),
            final(self).krate() == old(self).krate(),
        decreases impl_item,
    {
        if let ImplItemKind::Method(header, body_id) = &impl_item.node {
            self.visiting = Some(FunctionMemo::new(FunctionSignature::ImplFn, *header, *body_id));
        }
        self.walk(&impl_item.children);
        self.close();
    }

    /// Walks a block: while a record is open, an unsafe marking raises its
    /// flag; the children are walked.
    pub fn visit_block(&mut self, block: &'tcx Block)
        requires
            admits(Node::Block(*block), old(self)@),
        ensures
            final(self)@ == after_node(Node::Block(*block), old(self)@),
            final(self).krate() == old(self).krate(),
        decreases block,
    {
        if let Some(visiting) = self.visiting.as_mut() {
            match block.rules {
                BlockCheckMode::DefaultBlock => (),
                BlockCheckMode::UnsafeBlock(_) => visiting.contains_unsafe = true,
                _ => unreached(),
            }
        }
        self.walk(&block.children);
    }

    /// Moves the record in the slot, if there is one, to the end of the list.
    fn close(&mut self)
        ensures
            final(self)@ == old(self)@.close(),
            final(self).krate() == old(self).krate(),
    {
        if let Some(v) = self.visiting.take() {
            self.vec.push(v);
            assert(records(self.vec@) =~= records(old(self).vec@).push(v@));
        }
    }

    /// Walks one node by its kind; a node of any other kind than the four
    /// above only has its children walked.
    fn visit_node(&mut self, node: &'tcx Node)
        requires
            admits(*node, old(self)@),
        ensures
            final(self)@ == after_node(*node, old(self)@),
            final(self).krate() == old(self).krate(),
        decreases node,
    {
        match node {
            Node::Item(item) => self.visit_item(item),
            Node::TraitItem(trait_item) => self.visit_trait_item(trait_item),
            Node::ImplItem(impl_item) => self.visit_impl_item(impl_item),
            Node::Block(block) => self.visit_block(block),
            Node::Other(children) => self.walk(children),
        }
    }

    /// Walks a list of nodes, first to last.
    fn walk(&mut self, nodes: &'tcx Vec<Node>)
        requires
            admits_nodes(nodes@, old(self)@),
        ensures
            final(self)@ == after_nodes(nodes@, old(self)@),
            final(self).krate() == old(self).krate(),
        decreases nodes,
    {
        let mut i: usize = 0;
        assert(nodes@.skip(0) =~= nodes@);
        while i < nodes.len()
            invariant
                i <= nodes.len(),
                admits_nodes(nodes@.skip(i as int), self@),
                after_nodes(nodes@.skip(i as int), self@) == after_nodes(nodes@, old(self)@),
                self.krate() == old(self).krate(),
            decreases nodes.len() - i,
        {
            assert(nodes@.skip(i as int).drop_first() =~= nodes@.skip(i as int + 1));
            self.visit_node(&nodes[i]);
            i += 1;
        }
    }
}

/// Follows the walk through a node by whether a record is open. Returns
/// whether the walk is admitted and, where it is, whether a record is open
/// after it.
fn check_node(node: &Node, open: bool, Ghost(state): Ghost<TraversalState>) -> (result: (
    bool,
    bool,
))
    requires
        open == (state.visiting is Some),
    ensures
        result.0 == admits(*node, state),
        result.0 ==> result.1 == (after_node(*node, state).visiting is Some),
    decreases node,
{
    match node {
        Node::Item(item) => {
            let inner = match item.node {
                ItemKind::Fn(_, _) => true,
                ItemKind::Other => open,
            };
            (check_nodes(&item.children, inner, Ghost(state.enter(*node))).0, false)
        },
        Node::TraitItem(trait_item) => {
            let inner = match trait_item.node {
                TraitItemKind::Method(_, TraitMethod::Provided(_)) => true,
                _ => open,
            };
            (check_nodes(&trait_item.children, inner, Ghost(state.enter(*node))).0, false)
        },
        Node::ImplItem(impl_item) => {
            let inner = match impl_item.node {
                ImplItemKind::Method(_, _) => true,
                ImplItemKind::Other => open,
            };
            (check_nodes(&impl_item.children, inner, Ghost(state.enter(*node))).0, false)
        },
        Node::Block(block) => {
            let known = match block.rules {
                BlockCheckMode::DefaultBlock => true,
                BlockCheckMode::UnsafeBlock(_) => true,
                _ => false,
            };
            if open && !known {
                (false, open)
            } else {
                check_nodes(&block.children, open, Ghost(state.enter(*node)))
            }
        },
        Node::Other(children) => check_nodes(children, open, Ghost(state)),
    }
}

/// [`check_node`] for a list of nodes walked first to last.
fn check_nodes(nodes: &Vec<Node>, open: bool, Ghost(state): Ghost<TraversalState>) -> (result: (
    bool,
    bool,
))
    requires
        open == (state.visiting is Some),
    ensures
        result.0 == admits_nodes(nodes@, state),
        result.0 ==> result.1 == (after_nodes(nodes@, state).visiting is Some),
    decreases nodes,
{
    let mut now_open = open;
    let ghost mut now = state;
    let mut i: usize = 0;
    assert(nodes@.skip(0) =~= nodes@);
    while i < nodes.len()
        invariant
            i <= nodes.len(),
            now_open == (now.visiting is Some),
            admits_nodes(nodes@.skip(i as int), now) == admits_nodes(nodes@, state),
            after_nodes(nodes@.skip(i as int), now) == after_nodes(nodes@, state),
        decreases nodes.len() - i,
    {
        assert(nodes@.skip(i as int).drop_first() =~= nodes@.skip(i as int + 1));
        let (ok, next) = check_node(&nodes[i], now_open, Ghost(now));
        if !ok {
            return (false, now_open);
        }
        proof {
            now = after_node(nodes@[i as int], now);
        }
        now_open = next;
        i += 1;
    }
    (true, now_open)
}

} // verus!
