//! The intermediate representation that the pass reads.
//!
//! A compilation unit is a list of nodes in declaration order. A node is an
//! item, a trait item, an impl item, a block, or anything else that only has
//! children (a statement, an expression, a pattern, a type).

use vstd::prelude::*;

verus! {

/// Whether a function is declared `unsafe`.
#[derive(Clone, Copy, Debug, PartialEq, Eq)]
pub enum Unsafety {
    Unsafe,
    Normal,
}

/// Whether a function is declared `const`.
#[derive(Clone, Copy, Debug, PartialEq, Eq)]
pub enum Constness {
    Const,
    NotConst,
}

/// Whether a function is declared `async`.
#[derive(Clone, Copy, Debug, PartialEq, Eq)]
pub enum IsAsync {
    Async,
    NotAsync,
}

/// The calling convention of a function.
#[derive(Clone, Copy, Debug, PartialEq, Eq)]
pub enum Abi {
    Cdecl,
    Stdcall,
    Fastcall,
    Vectorcall,
    Thiscall,
    Aapcs,
    Win64,
    SysV64,
    PtxKernel,
    Msp430Interrupt,
    X86Interrupt,
    AmdGpuKernel,
    Rust,
    C,
    System,
    RustIntrinsic,
    RustCall,
    PlatformIntrinsic,
    Unadjusted,
}

/// The signature metadata of a function.
#[derive(Clone, Copy, Debug, PartialEq, Eq)]
pub struct FnHeader {
    pub unsafety: Unsafety,
    pub constness: Constness,
    pub asyncness: IsAsync,
    pub abi: Abi,
}

/// The identifier of a function body: the owner's index and the body's index
/// within the owner.
#[derive(Clone, Copy, Debug, PartialEq, Eq)]
pub struct BodyId {
    pub owner: u32,
    pub local_id: u32,
}

/// Who marked a block.
#[derive(Clone, Copy, Debug, PartialEq, Eq)]
pub enum UnsafeSource {
    CompilerGenerated,
    UserProvided,
}

/// The safety marking of a block.
#[derive(Clone, Copy, Debug, PartialEq, Eq)]
pub enum BlockCheckMode {
    DefaultBlock,
    UnsafeBlock(UnsafeSource),
    PushUnsafeBlock(UnsafeSource),
    PopUnsafeBlock(UnsafeSource),
}

/// What a free item declares, as far as the pass reads it.
#[derive(Clone, Copy, Debug, PartialEq, Eq)]
pub enum ItemKind {
    /// A function with its body.
    Fn(FnHeader, BodyId),
    /// Any other item: a module, a type, a trait, an impl block, a constant.
    Other,
}

/// The body of a trait method.
#[derive(Clone, Copy, Debug, PartialEq, Eq)]
pub enum TraitMethod {
    /// A signature without a body.
    Required,
    /// A default body.
    Provided(BodyId),
}

/// What a trait item declares.
#[derive(Clone, Copy, Debug, PartialEq, Eq)]
pub enum TraitItemKind {
    Method(FnHeader, TraitMethod),
    /// An associated constant or type.
    Other,
}

/// What an impl item declares.
#[derive(Clone, Copy, Debug, PartialEq, Eq)]
pub enum ImplItemKind {
    Method(FnHeader, BodyId),
    /// An associated constant or type.
    Other,
}

/// A free item with the nodes below it.
#[derive(Debug)]
pub struct Item {
    pub node: ItemKind,
    pub children: Vec<Node>,
}

/// An item of a trait with the nodes below it.
#[derive(Debug)]
pub struct TraitItem {
    pub node: TraitItemKind,
    pub children: Vec<Node>,
}

/// An item of an impl block with the nodes below it.
#[derive(Debug)]
pub struct ImplItem {
    pub node: ImplItemKind,
    pub children: Vec<Node>,
}

/// A block with the nodes below it.
#[derive(Debug)]
pub struct Block {
    pub rules: BlockCheckMode,
    pub children: Vec<Node>,
}

/// A node of the tree.
#[derive(Debug)]
pub enum Node {
    Item(Item),
    TraitItem(TraitItem),
    ImplItem(ImplItem),
    Block(Block),
    /// A node of any other kind, which only has children.
    Other(Vec<Node>),
}

/// A compilation unit: its nodes in declaration order.
#[derive(Debug)]
pub struct Crate {
    pub items: Vec<Node>,
}

impl Node {
    /// The nodes directly below this one, in order.
    pub open spec fn children(self) -> Seq<Node> {
        match self {
            Node::Item(item) => item.children@,
            Node::TraitItem(trait_item) => trait_item.children@,
            Node::ImplItem(impl_item) => impl_item.children@,
            Node::Block(block) => block.children@,
            Node::Other(children) => children@,
        }
    }

    /// Whether the node is an item, a trait item or an impl item.
    pub open spec fn is_item_like(self) -> bool {
        self is Item || self is TraitItem || self is ImplItem
    }
}

} // verus!
