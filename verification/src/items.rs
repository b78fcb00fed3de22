//! The state of one traversal and the report that is drawn from it.

use vstd::prelude::*;
use crate::census::Census;
use crate::census::ItemCompilerInfo;
use crate::census::UnsafeItem;
use crate::census::finding_for;
use crate::census::tracks;
use crate::finding::Finding;
use crate::finding::UnsafeItemInfo;
use crate::finding::findings;
use crate::hir::BlockCheckMode;
use crate::hir::Construct;
use crate::hir::FnKind;
use crate::hir::ItemKind;
use crate::ident::DefinitionId;
use crate::ident::SourceSpan;
use crate::laws::lemma_record_well_formed;
use crate::laws::lemma_without_absent;
use crate::laws::lemma_without_remove;
use crate::resolve::Resolver;
use crate::resolve::get_file_and_line;
use crate::resolve::get_node_name;

verus! {

/// The finished report of one traversal.
#[derive(Debug)]
pub struct ItemsAnalysis {
    pub unsafe_traits_impls: Vec<UnsafeItemInfo>,
    pub unsafe_traits: Vec<UnsafeItemInfo>,
    pub unsafe_fn: Vec<UnsafeItemInfo>,
}

/// What a report says: its three lists of findings.
pub struct Report {
    pub unsafe_traits_impls: Seq<Finding>,
    pub unsafe_traits: Seq<Finding>,
    pub unsafe_fn: Seq<Finding>,
}

impl View for ItemsAnalysis {
    type V = Report;

    open spec fn view(&self) -> Report {
        Report {
            unsafe_traits_impls: findings(self.unsafe_traits_impls@),
            unsafe_traits: findings(self.unsafe_traits@),
            unsafe_fn: findings(self.unsafe_fn@),
        }
    }
}

/// The findings for a list of pending functions, entry by entry.
pub open spec fn resolved(
    names: Seq<(DefinitionId, String)>,
    pending: Seq<ItemCompilerInfo>,
    is_safe: bool,
) -> Seq<Finding> {
    Seq::new(pending.len(), |i: int| finding_for(names, pending[i].id, pending[i].span, is_safe))
}

/// The pending functions of a state in the order in which the report lists
/// them: the unsafe ones, then the safe ones.
pub open spec fn pending(census: Census) -> Seq<ItemCompilerInfo> {
    census.unsafe_fn + census.safe_fn
}

/// The report drawn from a classification state: the trait and impl
/// findings as they were written, and one finding for each pending function,
/// the unsafe ones first and then the safe ones, each group in the order in
/// which its functions entered it.
pub open spec fn assemble(names: Seq<(DefinitionId, String)>, census: Census) -> Report {
    Report {
        unsafe_traits_impls: census.unsafe_traits_impls,
        unsafe_traits: census.unsafe_traits,
        unsafe_fn: resolved(names, census.unsafe_fn, false) + resolved(
            names,
            census.safe_fn,
            true,
        ),
    }
}

/// The classification state of a traversal under way, with the resolver
/// that names what it finds.
pub struct ItemVisitor {
    pub resolver: Resolver,
    pub unsafe_traits_impls: Vec<UnsafeItemInfo>,
    pub unsafe_traits: Vec<UnsafeItemInfo>,
    pub unsafe_fn: Vec<ItemCompilerInfo>,
    pub safe_fn: Vec<ItemCompilerInfo>,
    pub unsafe_block_num: i32,
    pub safe_block_num: i32,
}

impl View for ItemVisitor {
    type V = Census;

    open spec fn view(&self) -> Census {
        Census {
            unsafe_traits_impls: findings(self.unsafe_traits_impls@),
            unsafe_traits: findings(self.unsafe_traits@),
            unsafe_fn: self.unsafe_fn@,
            safe_fn: self.safe_fn@,
            unsafe_block_num: self.unsafe_block_num as int,
            safe_block_num: self.safe_block_num as int,
        }
    }
}

/// Finds the entry of `id` in a pending list.
fn position(list: &Vec<ItemCompilerInfo>, id: DefinitionId) -> (found: Option<usize>)
    ensures
        match found {
            Some(at) => at < list.len() && list@[at as int].id == id,
            None => !tracks(list@, id),
        },
{
    let mut i: usize = 0;
    while i < list.len()
        invariant
            i <= list.len(),
            forall|j: int| 0 <= j < i ==> (#[trigger] list@[j]).id != id,
        decreases list.len() - i,
    {
        if list[i].id == id {
            return Some(i);
        }
        i += 1;
    }
    None
}

/// Writes the findings for a list of pending functions at the end of `out`.
fn resolve_pending(
    resolver: &Resolver,
    pending: &Vec<ItemCompilerInfo>,
    is_safe: bool,
    out: &mut Vec<UnsafeItemInfo>,
)
    ensures
        findings(final(out)@) == findings(old(out)@) + resolved(resolver.names@, pending@, is_safe),
{
    let mut i: usize = 0;
    assert(findings(out@) =~= findings(old(out)@) + resolved(
        resolver.names@,
        pending@.take(0),
        is_safe,
    ));
    while i < pending.len()
        invariant
            i <= pending.len(),
            findings(out@) == findings(old(out)@) + resolved(
                resolver.names@,
                pending@.take(i as int),
                is_safe,
            ),
        decreases pending.len() - i,
    {
        let ghost before = out@;
        let name = get_node_name(resolver, pending[i].id);
        let location = get_file_and_line(&pending[i].span);
        out.push(UnsafeItemInfo::new(name, is_safe, location));
        assert(findings(out@) =~= findings(old(out)@) + resolved(
            resolver.names@,
            pending@.take(i + 1),
            is_safe,
        )) by {
            assert(findings(out@) =~= findings(before).push(
                finding_for(resolver.names@, pending@[i as int].id, pending@[i as int].span, is_safe),
            ));
        }
        i += 1;
    }
    assert(pending@.take(pending.len() as int) =~= pending@);
}

impl ItemVisitor {
    /// The state with which a traversal starts.
    pub fn new(resolver: Resolver) -> (visitor: Self)
        ensures
            visitor@ == Census::empty(),
            visitor@.well_formed(),
            visitor.resolver == resolver,
    {
        let visitor = ItemVisitor {
            resolver,
            unsafe_traits_impls: Vec::new(),
            unsafe_traits: Vec::new(),
            unsafe_fn: Vec::new(),
            safe_fn: Vec::new(),
            unsafe_block_num: 0,
            safe_block_num: 0,
        };
        assert(visitor@.unsafe_traits =~= Census::empty().unsafe_traits);
        assert(visitor@.unsafe_traits_impls =~= Census::empty().unsafe_traits_impls);
        visitor
    }

    /// Moves `id` to the unsafe list: out of the safe list if it is there,
    /// and into the unsafe list under `span` unless it is there already.
    fn mark_unsafe(&mut self, id: DefinitionId, span: SourceSpan)
        requires
            old(self)@.well_formed(),
        ensures
            final(self)@ == old(self)@.revoke(id, span),
            final(self).resolver == old(self).resolver,
    {
        if let Some(index) = position(&self.safe_fn, id) {
            proof {
                lemma_without_remove(self.safe_fn@, id, index as int);
            }
            self.safe_fn.remove(index);
        } else {
            proof {
                lemma_without_absent(self.safe_fn@, id);
            }
        }
        if let None = position(&self.unsafe_fn, id) {
            self.unsafe_fn.push(ItemCompilerInfo::new(id, span));
        }
    }

    /// Takes one event into the state.
    ///
    /// A trait or a trait implementation is written to its list at once,
    /// with the safety given. An unsafe block makes its owner unsafe. A
    /// function enters the list that its header asks for, but a function
    /// that was found unsafe stays so, and none is entered twice.
    pub fn add(&mut self, unsafe_item: UnsafeItem, id: DefinitionId, span: SourceSpan, safety: bool)
        requires
            old(self)@.well_formed(),
        ensures
            final(self)@ == old(self)@.record(
                old(self).resolver.names@,
                unsafe_item,
                id,
                span,
                safety,
            ),
            final(self)@.well_formed(),
            final(self).resolver == old(self).resolver,
    {
        proof {
            lemma_record_well_formed(self@, self.resolver.names@, unsafe_item, id, span, safety);
        }
        match unsafe_item {
            UnsafeItem::MyUnsafeTraitImpl => {
                let node_name = get_node_name(&self.resolver, id);
                let file_and_line = get_file_and_line(&span);
                self.unsafe_traits_impls.push(UnsafeItemInfo::new(node_name, safety, file_and_line));
                assert(self@.unsafe_traits_impls =~= old(self)@.unsafe_traits_impls.push(
                    finding_for(self.resolver.names@, id, span, safety),
                ));
            },
            UnsafeItem::MyUnsafeTrait => {
                let node_name = get_node_name(&self.resolver, id);
                let file_and_line = get_file_and_line(&span);
                self.unsafe_traits.push(UnsafeItemInfo::new(node_name, safety, file_and_line));
                assert(self@.unsafe_traits =~= old(self)@.unsafe_traits.push(
                    finding_for(self.resolver.names@, id, span, safety),
                ));
            },
            UnsafeItem::MyUnsafeBlock => {
                self.mark_unsafe(id, span);
            },
            UnsafeItem::MyUnsafeFn => {
                if safety {
                    if position(&self.unsafe_fn, id).is_none() && position(&self.safe_fn, id).is_none() {
                        self.safe_fn.push(ItemCompilerInfo::new(id, span));
                    }
                } else {
                    self.mark_unsafe(id, span);
                }
            },
        }
    }

    /// Visits a block: counts it, and reports it to its owner if it is an
    /// unsafe block. No finding is written for a block.
    pub fn visit_block(&mut self, rules: BlockCheckMode, owner: DefinitionId, span: SourceSpan)
        requires
            old(self)@.well_formed(),
        ensures
            final(self)@ == old(self)@.visit_block(old(self).resolver.names@, rules, owner, span),
            final(self)@.well_formed(),
            final(self).resolver == old(self).resolver,
    {
        match rules {
            BlockCheckMode::DefaultBlock => {
                if self.safe_block_num < i32::MAX {
                    self.safe_block_num += 1;
                }
            },
            BlockCheckMode::UnsafeBlock => {
                self.add(UnsafeItem::MyUnsafeBlock, owner, span, false);
                if self.unsafe_block_num < i32::MAX {
                    self.unsafe_block_num += 1;
                }
            },
        }
    }

    /// Visits an item: an unsafe trait, or an unsafe implementation of a
    /// trait, is written to its list; any other item changes nothing.
    pub fn visit_item(&mut self, kind: ItemKind, id: DefinitionId, span: SourceSpan)
        requires
            old(self)@.well_formed(),
        ensures
            final(self)@ == old(self)@.visit_item(old(self).resolver.names@, kind, id, span),
            final(self)@.well_formed(),
            final(self).resolver == old(self).resolver,
    {
        match kind {
            ItemKind::Impl { of_trait } => {
                if let Some(safety) = of_trait {
                    if safety.is_unsafe() {
                        self.add(UnsafeItem::MyUnsafeTraitImpl, id, span, false);
                    }
                }
            },
            ItemKind::Trait { safety } => {
                if safety.is_unsafe() {
                    self.add(UnsafeItem::MyUnsafeTrait, id, span, false);
                }
            },
            ItemKind::Other => {},
        }
    }

    /// Visits a function or a method, which is classified by its header, or
    /// a closure, which is not classified and changes nothing.
    pub fn visit_fn(&mut self, kind: FnKind, id: DefinitionId, span: SourceSpan)
        requires
            old(self)@.well_formed(),
        ensures
            final(self)@ == old(self)@.visit_fn(old(self).resolver.names@, kind, id, span),
            final(self)@.well_formed(),
            final(self).resolver == old(self).resolver,
    {
        match kind {
            FnKind::ItemFn { safety } => {
                self.add(UnsafeItem::MyUnsafeFn, id, span, !safety.is_unsafe());
            },
            FnKind::Method { safety } => {
                self.add(UnsafeItem::MyUnsafeFn, id, span, !safety.is_unsafe());
            },
            FnKind::Closure => {},
        }
    }

    /// Visits one construct, whatever its kind.
    pub fn visit(&mut self, construct: Construct, span: SourceSpan)
        requires
            old(self)@.well_formed(),
        ensures
            final(self)@ == old(self)@.visit(old(self).resolver.names@, construct, span),
            final(self)@.well_formed(),
            final(self).resolver == old(self).resolver,
    {
        match construct {
            Construct::Block { rules, owner } => self.visit_block(rules, owner, span),
            Construct::Item { kind, id } => self.visit_item(kind, id, span),
            Construct::Function { fn_kind, id } => self.visit_fn(fn_kind, id, span),
        }
    }

    /// Draws the report from the state: resolves each pending function once,
    /// the unsafe ones first, then the safe ones.
    pub fn finish(self) -> (analysis: ItemsAnalysis)
        ensures
            analysis@ == assemble(self.resolver.names@, self@),
    {
        let mut unsafe_fn: Vec<UnsafeItemInfo> = Vec::new();
        assert(findings(unsafe_fn@) =~= Seq::empty());
        resolve_pending(&self.resolver, &self.unsafe_fn, false, &mut unsafe_fn);
        resolve_pending(&self.resolver, &self.safe_fn, true, &mut unsafe_fn);
        let analysis = ItemsAnalysis {
            unsafe_traits_impls: self.unsafe_traits_impls,
            unsafe_traits: self.unsafe_traits,
            unsafe_fn,
        };
        assert(analysis@.unsafe_fn =~= assemble(self.resolver.names@, self@).unsafe_fn);
        analysis
    }
}

} // verus!
