//! The classification state as a mathematical value, and the rule by which
//! each visited construct changes it.

use vstd::prelude::*;
use crate::finding::Finding;
use crate::hir::BlockCheckMode;
use crate::hir::Construct;
use crate::hir::FnKind;
use crate::hir::ItemKind;
use crate::ident::DefinitionId;
use crate::ident::SourceSpan;
use crate::resolve::location_text;
use crate::resolve::lookup_name;

verus! {

/// The kind of finding that an event reports.
#[derive(Clone, Copy, Debug, PartialEq, Eq, Structural)]
pub enum UnsafeItem {
    MyUnsafeTraitImpl,
    MyUnsafeTrait,
    MyUnsafeBlock,
    MyUnsafeFn,
}

/// A function whose classification is pending: its identifier and the span
/// under which it will be reported.
#[derive(Debug)]
pub struct ItemCompilerInfo {
    pub id: DefinitionId,
    pub span: SourceSpan,
}

impl ItemCompilerInfo {
    pub fn new(id: DefinitionId, span: SourceSpan) -> (info: Self)
        ensures
            info.id == id,
            info.span == span,
    {
        ItemCompilerInfo { id, span }
    }
}

/// Whether a pending list has an entry for `id`.
pub open spec fn tracks(list: Seq<ItemCompilerInfo>, id: DefinitionId) -> bool {
    exists|i: int| 0 <= i < list.len() && (#[trigger] list[i]).id == id
}

/// Whether no identifier has two entries in a pending list.
pub open spec fn distinct_ids(list: Seq<ItemCompilerInfo>) -> bool {
    forall|i: int, j: int|
        0 <= i < j < list.len() ==> (#[trigger] list[i]).id != (#[trigger] list[j]).id
}

/// A pending list without the entries for `id`, the others in their order.
pub open spec fn without(list: Seq<ItemCompilerInfo>, id: DefinitionId) -> Seq<ItemCompilerInfo>
    decreases list.len(),
{
    if list.len() == 0 {
        list
    } else if list.last().id == id {
        without(list.drop_last(), id)
    } else {
        without(list.drop_last(), id).push(list.last())
    }
}

/// A pending list with an entry for `id` added at the end, unless it has one.
pub open spec fn with_entry(list: Seq<ItemCompilerInfo>, id: DefinitionId, span: SourceSpan) -> Seq<
    ItemCompilerInfo,
> {
    if tracks(list, id) {
        list
    } else {
        list.push(ItemCompilerInfo { id, span })
    }
}

/// A block counter after one more block. It stops at the largest value that
/// it can hold.
pub open spec fn bump(count: int) -> int {
    if count < i32::MAX {
        count + 1
    } else {
        count
    }
}

/// The finding written for a trait or a trait implementation at the moment
/// of its discovery.
pub open spec fn finding_for(
    names: Seq<(DefinitionId, String)>,
    id: DefinitionId,
    span: SourceSpan,
    is_safe: bool,
) -> Finding {
    Finding { name: lookup_name(names, id), is_safe, location: location_text(span) }
}

/// The classification state of one traversal.
pub struct Census {
    /// Findings for unsafe trait implementations, in order of discovery.
    pub unsafe_traits_impls: Seq<Finding>,
    /// Findings for unsafe traits, in order of discovery.
    pub unsafe_traits: Seq<Finding>,
    /// The functions pending as unsafe, in the order in which they became so.
    pub unsafe_fn: Seq<ItemCompilerInfo>,
    /// The functions pending as safe, in order of discovery.
    pub safe_fn: Seq<ItemCompilerInfo>,
    /// The number of unsafe blocks seen.
    pub unsafe_block_num: int,
    /// The number of other blocks seen.
    pub safe_block_num: int,
}

impl Census {
    /// The state before anything was visited.
    pub open spec fn empty() -> Census {
        Census {
            unsafe_traits_impls: Seq::empty(),
            unsafe_traits: Seq::empty(),
            unsafe_fn: Seq::empty(),
            safe_fn: Seq::empty(),
            unsafe_block_num: 0,
            safe_block_num: 0,
        }
    }

    /// A function is pending at most once, the two pending lists taken
    /// together, and the counters are in range.
    pub open spec fn well_formed(self) -> bool {
        &&& distinct_ids(self.unsafe_fn)
        &&& distinct_ids(self.safe_fn)
        &&& forall|id: DefinitionId| !(tracks(self.unsafe_fn, id) && tracks(self.safe_fn, id))
        &&& 0 <= self.unsafe_block_num <= i32::MAX
        &&& 0 <= self.safe_block_num <= i32::MAX
    }

    /// The state after `id` was found unsafe: by an unsafe block that it
    /// owns, or by its own header. It leaves the safe list and enters the
    /// unsafe list under `span`, unless it is there already: then the entry
    /// made first stays.
    pub open spec fn revoke(self, id: DefinitionId, span: SourceSpan) -> Census {
        Census {
            safe_fn: without(self.safe_fn, id),
            unsafe_fn: with_entry(self.unsafe_fn, id, span),
            ..self
        }
    }

    /// The state after a function with a safe header was seen. It enters the
    /// safe list unless it is pending already, as safe or as unsafe.
    pub open spec fn assume_safe(self, id: DefinitionId, span: SourceSpan) -> Census {
        if tracks(self.unsafe_fn, id) {
            self
        } else {
            Census { safe_fn: with_entry(self.safe_fn, id, span), ..self }
        }
    }

    /// The state after one event of the given kind.
    pub open spec fn record(
        self,
        names: Seq<(DefinitionId, String)>,
        item: UnsafeItem,
        id: DefinitionId,
        span: SourceSpan,
        safety: bool,
    ) -> Census {
        match item {
            UnsafeItem::MyUnsafeTraitImpl => Census {
                unsafe_traits_impls: self.unsafe_traits_impls.push(
                    finding_for(names, id, span, safety),
                ),
                ..self
            },
            UnsafeItem::MyUnsafeTrait => Census {
                unsafe_traits: self.unsafe_traits.push(finding_for(names, id, span, safety)),
                ..self
            },
            UnsafeItem::MyUnsafeBlock => self.revoke(id, span),
            UnsafeItem::MyUnsafeFn => if safety {
                self.assume_safe(id, span)
            } else {
                self.revoke(id, span)
            },
        }
    }

    /// The state after a block was visited.
    pub open spec fn visit_block(
        self,
        names: Seq<(DefinitionId, String)>,
        rules: BlockCheckMode,
        owner: DefinitionId,
        span: SourceSpan,
    ) -> Census {
        match rules {
            BlockCheckMode::DefaultBlock => Census {
                safe_block_num: bump(self.safe_block_num),
                ..self
            },
            BlockCheckMode::UnsafeBlock => {
                let marked = self.record(names, UnsafeItem::MyUnsafeBlock, owner, span, false);
                Census { unsafe_block_num: bump(self.unsafe_block_num), ..marked }
            },
        }
    }

    /// The state after an item was visited.
    pub open spec fn visit_item(
        self,
        names: Seq<(DefinitionId, String)>,
        kind: ItemKind,
        id: DefinitionId,
        span: SourceSpan,
    ) -> Census {
        match kind {
            ItemKind::Impl { of_trait: Some(safety) } => if safety.declares_unsafe() {
                self.record(names, UnsafeItem::MyUnsafeTraitImpl, id, span, false)
            } else {
                self
            },
            ItemKind::Trait { safety } => if safety.declares_unsafe() {
                self.record(names, UnsafeItem::MyUnsafeTrait, id, span, false)
            } else {
                self
            },
            _ => self,
        }
    }

    /// The state after a function, a method or a closure was visited.
    pub open spec fn visit_fn(
        self,
        names: Seq<(DefinitionId, String)>,
        kind: FnKind,
        id: DefinitionId,
        span: SourceSpan,
    ) -> Census {
        match kind.declared_safe() {
            Some(safety) => self.record(names, UnsafeItem::MyUnsafeFn, id, span, safety),
            None => self,
        }
    }

    /// The state after one construct was visited.
    pub open spec fn visit(
        self,
        names: Seq<(DefinitionId, String)>,
        construct: Construct,
        span: SourceSpan,
    ) -> Census {
        match construct {
            Construct::Block { rules, owner } => self.visit_block(names, rules, owner, span),
            Construct::Item { kind, id } => self.visit_item(names, kind, id, span),
            Construct::Function { fn_kind, id } => self.visit_fn(names, fn_kind, id, span),
        }
    }

    /// The state after a sequence of constructs was visited, first to last.
    pub open spec fn replay(
        self,
        names: Seq<(DefinitionId, String)>,
        visits: Seq<(Construct, SourceSpan)>,
    ) -> Census
        decreases visits.len(),
    {
        if visits.len() == 0 {
            self
        } else {
            self.replay(names, visits.drop_last()).visit(names, visits.last().0, visits.last().1)
        }
    }
}

/// Whether a visit finds `id` unsafe: an unsafe block that `id` owns, or a
/// function `id` whose header declares it unsafe.
pub open spec fn finds_unsafe(construct: Construct, id: DefinitionId) -> bool {
    match construct {
        Construct::Block { rules, owner } => rules == BlockCheckMode::UnsafeBlock && owner == id,
        Construct::Function { fn_kind, id: function } => function == id && fn_kind.declared_safe()
            == Some(false),
        _ => false,
    }
}

/// Whether a visit is that of the function `id` with a header that declares
/// it safe.
pub open spec fn declares_safe(construct: Construct, id: DefinitionId) -> bool {
    match construct {
        Construct::Function { fn_kind, id: function } => function == id && fn_kind.declared_safe()
            == Some(true),
        _ => false,
    }
}

/// Whether some visit of a sequence finds `id` unsafe.
pub open spec fn ever_finds_unsafe(visits: Seq<(Construct, SourceSpan)>, id: DefinitionId) -> bool {
    exists|k: int| 0 <= k < visits.len() && finds_unsafe((#[trigger] visits[k]).0, id)
}

/// Whether some visit of a sequence is that of the function `id` with a
/// header that declares it safe.
pub open spec fn ever_declares_safe(visits: Seq<(Construct, SourceSpan)>, id: DefinitionId) -> bool {
    exists|k: int| 0 <= k < visits.len() && declares_safe((#[trigger] visits[k]).0, id)
}

/// Whether a visit is that of a trait declared unsafe.
pub open spec fn is_unsafe_trait(construct: Construct) -> bool {
    match construct {
        Construct::Item { kind: ItemKind::Trait { safety }, id } => safety.declares_unsafe(),
        _ => false,
    }
}

/// Whether a visit is that of an implementation of a trait that is declared
/// unsafe.
pub open spec fn is_unsafe_trait_impl(construct: Construct) -> bool {
    match construct {
        Construct::Item { kind: ItemKind::Impl { of_trait: Some(safety) }, id } =>
            safety.declares_unsafe(),
        _ => false,
    }
}

/// The identifier that a construct carries: of a block its owner's.
pub open spec fn subject(construct: Construct) -> DefinitionId {
    match construct {
        Construct::Block { rules, owner } => owner,
        Construct::Item { kind, id } => id,
        Construct::Function { fn_kind, id } => id,
    }
}

/// The findings that the visits of a sequence write for unsafe traits, in
/// the order of the visits. Visits of anything else add nothing to them.
pub open spec fn trait_findings(
    names: Seq<(DefinitionId, String)>,
    visits: Seq<(Construct, SourceSpan)>,
) -> Seq<Finding>
    decreases visits.len(),
{
    if visits.len() == 0 {
        Seq::empty()
    } else if is_unsafe_trait(visits.last().0) {
        trait_findings(names, visits.drop_last()).push(
            finding_for(names, subject(visits.last().0), visits.last().1, false),
        )
    } else {
        trait_findings(names, visits.drop_last())
    }
}

/// The findings that the visits of a sequence write for unsafe trait
/// implementations, in the order of the visits. Visits of anything else add
/// nothing to them.
pub open spec fn trait_impl_findings(
    names: Seq<(DefinitionId, String)>,
    visits: Seq<(Construct, SourceSpan)>,
) -> Seq<Finding>
    decreases visits.len(),
{
    if visits.len() == 0 {
        Seq::empty()
    } else if is_unsafe_trait_impl(visits.last().0) {
        trait_impl_findings(names, visits.drop_last()).push(
            finding_for(names, subject(visits.last().0), visits.last().1, false),
        )
    } else {
        trait_impl_findings(names, visits.drop_last())
    }
}

} // verus!
