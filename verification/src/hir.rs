//! The constructs of a program tree that the census looks at, as plain
//! values: what kind of construct a node is, and the safety that its header
//! declares.

use vstd::prelude::*;
use crate::ident::DefinitionId;

verus! {

/// The safety that a header declares.
#[derive(Clone, Copy, Debug, PartialEq, Eq, Structural)]
pub enum Safety {
    Unsafe,
    Safe,
}

impl Safety {
    pub open spec fn declares_unsafe(self) -> bool {
        self == Safety::Unsafe
    }

    #[verifier::when_used_as_spec(declares_unsafe)]
    pub fn is_unsafe(self) -> (flag: bool)
        ensures
            flag == self.declares_unsafe(),
    {
        match self {
            Safety::Unsafe => true,
            Safety::Safe => false,
        }
    }
}

/// How the statements of a block are checked.
#[derive(Clone, Copy, Debug, PartialEq, Eq, Structural)]
pub enum BlockCheckMode {
    DefaultBlock,
    UnsafeBlock,
}

/// The kind of an item, as far as the census tells items apart.
#[derive(Clone, Copy, Debug, PartialEq, Eq, Structural)]
pub enum ItemKind {
    /// An impl; `of_trait` holds the safety of the trait implementation's
    /// header where the impl implements a trait.
    Impl { of_trait: Option<Safety> },
    /// A trait definition.
    Trait { safety: Safety },
    /// Any other item: a module, a function item, a constant, a type.
    Other,
}

/// The kind of a function-like construct.
#[derive(Clone, Copy, Debug, PartialEq, Eq, Structural)]
pub enum FnKind {
    /// A free function.
    ItemFn { safety: Safety },
    /// A method of an impl or of a trait.
    Method { safety: Safety },
    /// A closure. It has no header that could declare it unsafe.
    Closure,
}

impl FnKind {
    /// Whether the construct is classified as a function at all, and if so
    /// whether its header declares it safe.
    pub open spec fn declared_safe(self) -> Option<bool> {
        match self {
            FnKind::ItemFn { safety } => Some(!safety.declares_unsafe()),
            FnKind::Method { safety } => Some(!safety.declares_unsafe()),
            FnKind::Closure => None,
        }
    }
}

/// One construct of the tree with what its visit needs.
#[derive(Clone, Copy, Debug, PartialEq, Eq, Structural)]
pub enum Construct {
    /// A block, with the definition that owns it: the function (or other
    /// item) that encloses it, closures not counting.
    Block { rules: BlockCheckMode, owner: DefinitionId },
    /// An item.
    Item { kind: ItemKind, id: DefinitionId },
    /// A function, a method or a closure.
    Function { fn_kind: FnKind, id: DefinitionId },
}

} // verus!
