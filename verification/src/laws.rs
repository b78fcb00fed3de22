//! What holds of the classification state whatever is visited, and in
//! whatever order.

use vstd::prelude::*;
use crate::census::Census;
use crate::census::ItemCompilerInfo;
use crate::census::UnsafeItem;
use crate::census::bump;
use crate::census::declares_safe;
use crate::census::distinct_ids;
use crate::census::ever_declares_safe;
use crate::census::ever_finds_unsafe;
use crate::census::finding_for;
use crate::census::finds_unsafe;
use crate::census::subject;
use crate::census::tracks;
use crate::census::trait_findings;
use crate::census::trait_impl_findings;
use crate::census::with_entry;
use crate::census::without;
use crate::hir::BlockCheckMode;
use crate::hir::Construct;
use crate::hir::FnKind;
use crate::hir::ItemKind;
use crate::ident::DefinitionId;
use crate::ident::SourceSpan;
use crate::items::assemble;
use crate::items::pending;

verus! {

/// Taking out the entries of an identifier that a list does not hold leaves
/// the list as it is.
pub proof fn lemma_without_absent(list: Seq<ItemCompilerInfo>, id: DefinitionId)
    requires
        !tracks(list, id),
    ensures
        without(list, id) == list,
    decreases list.len(),
{
    if list.len() > 0 {
        let front = list.drop_last();
        assert(list[list.len() - 1].id != id);
        assert forall|i: int| 0 <= i < front.len() implies (#[trigger] front[i]).id != id by {
            assert(list[i] == front[i]);
        }
        lemma_without_absent(front, id);
        assert(front.push(list.last()) =~= list);
    }
}

/// Where no identifier occurs twice, taking out the entries of an
/// identifier removes the one entry that it has.
pub proof fn lemma_without_remove(list: Seq<ItemCompilerInfo>, id: DefinitionId, at: int)
    requires
        distinct_ids(list),
        0 <= at < list.len(),
        list[at].id == id,
    ensures
        without(list, id) == list.remove(at),
    decreases list.len(),
{
    let front = list.drop_last();
    if at == list.len() - 1 {
        assert forall|i: int| 0 <= i < front.len() implies (#[trigger] front[i]).id != id by {
            assert(list[i] == front[i]);
        }
        lemma_without_absent(front, id);
        assert(list.remove(at) =~= front);
    } else {
        assert(list[list.len() - 1].id != list[at].id);
        assert forall|i: int, j: int| 0 <= i < j < front.len() implies (#[trigger] front[i]).id != (
        #[trigger] front[j]).id by {
            assert(list[i] == front[i]);
            assert(list[j] == front[j]);
        }
        assert(front[at] == list[at]);
        lemma_without_remove(front, id, at);
        assert(front.remove(at).push(list.last()) =~= list.remove(at));
    }
}

/// What a list holds after the entries of `id` were taken out: no entry for
/// `id`, and for every other identifier what it held before, with no
/// identifier twice where none was twice before.
pub proof fn lemma_without_tracks(list: Seq<ItemCompilerInfo>, id: DefinitionId)
    requires
        distinct_ids(list),
    ensures
        distinct_ids(without(list, id)),
        !tracks(without(list, id), id),
        forall|other: DefinitionId|
            other != id ==> tracks(without(list, id), other) == tracks(list, other),
{
    let rest = without(list, id);
    if tracks(list, id) {
        let at = choose|i: int| 0 <= i < list.len() && (#[trigger] list[i]).id == id;
        lemma_without_remove(list, id, at);
        assert forall|i: int| 0 <= i < rest.len() implies (#[trigger] rest[i]).id != id by {
            if i < at {
                assert(rest[i] == list[i]);
            } else {
                assert(rest[i] == list[i + 1]);
            }
        }
        assert forall|i: int, j: int| 0 <= i < j < rest.len() implies (#[trigger] rest[i]).id != (
        #[trigger] rest[j]).id by {
            let a = if i < at { i } else { i + 1 };
            let b = if j < at { j } else { j + 1 };
            assert(rest[i] == list[a]);
            assert(rest[j] == list[b]);
        }
        assert forall|other: DefinitionId| other != id implies tracks(rest, other) == tracks(
            list,
            other,
        ) by {
            if tracks(rest, other) {
                let i = choose|i: int| 0 <= i < rest.len() && (#[trigger] rest[i]).id == other;
                let a = if i < at { i } else { i + 1 };
                assert(list[a] == rest[i]);
            }
            if tracks(list, other) {
                let a = choose|a: int| 0 <= a < list.len() && (#[trigger] list[a]).id == other;
                let i = if a < at { a } else { a - 1 };
                assert(rest[i] == list[a]);
            }
        }
    } else {
        lemma_without_absent(list, id);
    }
}

/// What a list holds after an entry for `id` was asked for: an entry for
/// `id`, and for every other identifier what it held before, with no
/// identifier twice where none was twice before. The entries that were there
/// stay where they were.
pub proof fn lemma_with_entry_tracks(list: Seq<ItemCompilerInfo>, id: DefinitionId, span: SourceSpan)
    requires
        distinct_ids(list),
    ensures
        distinct_ids(with_entry(list, id, span)),
        tracks(with_entry(list, id, span), id),
        forall|other: DefinitionId|
            other != id ==> tracks(with_entry(list, id, span), other) == tracks(list, other),
        list.len() <= with_entry(list, id, span).len(),
        forall|i: int| 0 <= i < list.len() ==> with_entry(list, id, span)[i] == list[i],
{
    let grown = with_entry(list, id, span);
    if !tracks(list, id) {
        assert(grown[list.len() as int].id == id);
        assert forall|i: int, j: int| 0 <= i < j < grown.len() implies (#[trigger] grown[i]).id != (
        #[trigger] grown[j]).id by {
            assert(grown[i] == list[i]);
            if j < list.len() {
                assert(grown[j] == list[j]);
            }
        }
        assert forall|other: DefinitionId| other != id implies tracks(grown, other) == tracks(
            list,
            other,
        ) by {
            if tracks(grown, other) {
                let i = choose|i: int| 0 <= i < grown.len() && (#[trigger] grown[i]).id == other;
                assert(list[i] == grown[i]);
            }
            if tracks(list, other) {
                let i = choose|i: int| 0 <= i < list.len() && (#[trigger] list[i]).id == other;
                assert(grown[i] == list[i]);
            }
        }
    }
}

/// Every event leaves a well-formed state well formed: a function is never
/// pending twice, nor as safe and as unsafe at once.
pub proof fn lemma_record_well_formed(
    census: Census,
    names: Seq<(DefinitionId, String)>,
    item: UnsafeItem,
    id: DefinitionId,
    span: SourceSpan,
    safety: bool,
)
    requires
        census.well_formed(),
    ensures
        census.record(names, item, id, span, safety).well_formed(),
{
    lemma_without_tracks(census.safe_fn, id);
    lemma_with_entry_tracks(census.unsafe_fn, id, span);
    lemma_with_entry_tracks(census.safe_fn, id, span);
    let after = census.record(names, item, id, span, safety);
    assert forall|other: DefinitionId|
        !(tracks(after.unsafe_fn, other) && tracks(after.safe_fn, other)) by {
        assert(!(tracks(census.unsafe_fn, other) && tracks(census.safe_fn, other)));
        assert(!(tracks(census.unsafe_fn, id) && tracks(census.safe_fn, id)));
    }
}

/// Every visit leaves a well-formed state well formed.
pub proof fn lemma_visit_well_formed(
    census: Census,
    names: Seq<(DefinitionId, String)>,
    construct: Construct,
    span: SourceSpan,
)
    requires
        census.well_formed(),
    ensures
        census.visit(names, construct, span).well_formed(),
{
    match construct {
        Construct::Block { rules, owner } => {
            lemma_record_well_formed(census, names, UnsafeItem::MyUnsafeBlock, owner, span, false);
        },
        Construct::Item { kind, id } => {
            lemma_record_well_formed(census, names, UnsafeItem::MyUnsafeTraitImpl, id, span, false);
            lemma_record_well_formed(census, names, UnsafeItem::MyUnsafeTrait, id, span, false);
        },
        Construct::Function { fn_kind, id } => {
            lemma_record_well_formed(census, names, UnsafeItem::MyUnsafeFn, id, span, true);
            lemma_record_well_formed(census, names, UnsafeItem::MyUnsafeFn, id, span, false);
        },
    }
}

/// Every sequence of visits leaves a well-formed state well formed.
pub proof fn lemma_replay_well_formed(
    census: Census,
    names: Seq<(DefinitionId, String)>,
    visits: Seq<(Construct, SourceSpan)>,
)
    requires
        census.well_formed(),
    ensures
        census.replay(names, visits).well_formed(),
    decreases visits.len(),
{
    if visits.len() > 0 {
        lemma_replay_well_formed(census, names, visits.drop_last());
        lemma_visit_well_formed(
            census.replay(names, visits.drop_last()),
            names,
            visits.last().0,
            visits.last().1,
        );
    }
}

/// Visiting one sequence and then another is visiting the two in a row.
pub proof fn lemma_replay_concat(
    census: Census,
    names: Seq<(DefinitionId, String)>,
    first: Seq<(Construct, SourceSpan)>,
    second: Seq<(Construct, SourceSpan)>,
)
    ensures
        census.replay(names, first + second) == census.replay(names, first).replay(names, second),
    decreases second.len(),
{
    if second.len() == 0 {
        assert(first + second =~= first);
    } else {
        assert((first + second).drop_last() =~= first + second.drop_last());
        assert((first + second).last() == second.last());
        lemma_replay_concat(census, names, first, second.drop_last());
    }
}


/// What one visit does to the classification of a function: the function is
/// pending as unsafe after it exactly if it was so before or the visit finds
/// it unsafe; it is pending as safe after it exactly if the visit does not
/// find it unsafe and either it was pending as safe, or the visit declares it
/// safe and it was not pending as unsafe. An entry of the unsafe list keeps
/// its place and its span.
pub proof fn lemma_visit_classifies(
    census: Census,
    names: Seq<(DefinitionId, String)>,
    construct: Construct,
    span: SourceSpan,
    id: DefinitionId,
)
    requires
        census.well_formed(),
    ensures
        tracks(census.visit(names, construct, span).unsafe_fn, id) == (tracks(census.unsafe_fn, id)
            || finds_unsafe(construct, id)),
        tracks(census.visit(names, construct, span).safe_fn, id) == (!finds_unsafe(construct, id)
            && (tracks(census.safe_fn, id) || (declares_safe(construct, id) && !tracks(
            census.unsafe_fn,
            id,
        )))),
        census.unsafe_fn.len() <= census.visit(names, construct, span).unsafe_fn.len(),
        forall|i: int|
            0 <= i < census.unsafe_fn.len() ==> census.visit(names, construct, span).unsafe_fn[i]
                == census.unsafe_fn[i],
{
    let target = subject(construct);
    lemma_without_tracks(census.safe_fn, target);
    lemma_with_entry_tracks(census.unsafe_fn, target, span);
    lemma_with_entry_tracks(census.safe_fn, target, span);
    assert(!(tracks(census.unsafe_fn, id) && tracks(census.safe_fn, id)));
    assert(!(tracks(census.unsafe_fn, target) && tracks(census.safe_fn, target)));
}

/// Whether some visit of a sequence finds a function unsafe is decided by
/// its last visit and those before it.
pub proof fn lemma_ever_unfold(visits: Seq<(Construct, SourceSpan)>, id: DefinitionId)
    requires
        visits.len() > 0,
    ensures
        ever_finds_unsafe(visits, id) == (ever_finds_unsafe(visits.drop_last(), id)
            || finds_unsafe(visits.last().0, id)),
        ever_declares_safe(visits, id) == (ever_declares_safe(visits.drop_last(), id)
            || declares_safe(visits.last().0, id)),
{
    let front = visits.drop_last();
    if ever_finds_unsafe(front, id) {
        let k = choose|k: int| 0 <= k < front.len() && finds_unsafe((#[trigger] front[k]).0, id);
        assert(visits[k] == front[k]);
    }
    if finds_unsafe(visits.last().0, id) {
        assert(visits[visits.len() - 1] == visits.last());
    }
    if ever_finds_unsafe(visits, id) {
        let k = choose|k: int| 0 <= k < visits.len() && finds_unsafe((#[trigger] visits[k]).0, id);
        if k < front.len() {
            assert(front[k] == visits[k]);
        }
    }
    if ever_declares_safe(front, id) {
        let k = choose|k: int| 0 <= k < front.len() && declares_safe((#[trigger] front[k]).0, id);
        assert(visits[k] == front[k]);
    }
    if declares_safe(visits.last().0, id) {
        assert(visits[visits.len() - 1] == visits.last());
    }
    if ever_declares_safe(visits, id) {
        let k = choose|k: int| 0 <= k < visits.len() && declares_safe((#[trigger] visits[k]).0, id);
        if k < front.len() {
            assert(front[k] == visits[k]);
        }
    }
}

/// The classification of a function after a traversal depends on which
/// visits were made, not on their order: it is pending as unsafe exactly if
/// it was so before or some visit found it unsafe, and pending as safe
/// exactly if it is not pending as unsafe and either was pending as safe
/// before or some visit declared it safe. Entries of the unsafe list keep
/// their places and spans throughout.
pub proof fn law_classification(
    census: Census,
    names: Seq<(DefinitionId, String)>,
    visits: Seq<(Construct, SourceSpan)>,
    id: DefinitionId,
)
    requires
        census.well_formed(),
    ensures
        census.replay(names, visits).well_formed(),
        tracks(census.replay(names, visits).unsafe_fn, id) == (tracks(census.unsafe_fn, id)
            || ever_finds_unsafe(visits, id)),
        tracks(census.replay(names, visits).safe_fn, id) == (!tracks(
            census.replay(names, visits).unsafe_fn,
            id,
        ) && (tracks(census.safe_fn, id) || ever_declares_safe(visits, id))),
        census.unsafe_fn.len() <= census.replay(names, visits).unsafe_fn.len(),
        forall|i: int|
            0 <= i < census.unsafe_fn.len() ==> census.replay(names, visits).unsafe_fn[i]
                == census.unsafe_fn[i],
    decreases visits.len(),
{
    if visits.len() == 0 {
        assert(!(tracks(census.unsafe_fn, id) && tracks(census.safe_fn, id)));
    } else {
        let front = visits.drop_last();
        let middle = census.replay(names, front);
        law_classification(census, names, front, id);
        lemma_visit_classifies(middle, names, visits.last().0, visits.last().1, id);
        lemma_visit_well_formed(middle, names, visits.last().0, visits.last().1);
        lemma_ever_unfold(visits, id);
    }
}

/// The report lists the pending functions one for one: the finding at a
/// place is that of the pending function at that place, and it says safe
/// exactly if the place lies behind the unsafe ones.
pub proof fn lemma_report_lists_pending(names: Seq<(DefinitionId, String)>, census: Census)
    ensures
        assemble(names, census).unsafe_fn.len() == pending(census).len(),
        forall|i: int|
            0 <= i < pending(census).len() ==> (#[trigger] assemble(names, census).unsafe_fn[i])
                == finding_for(
                names,
                pending(census)[i].id,
                pending(census)[i].span,
                i >= census.unsafe_fn.len(),
            ),
{
}

/// Whether the report drawn from a state holds exactly one finding for the
/// function `id`, which says `is_safe`.
pub open spec fn reported_once(
    names: Seq<(DefinitionId, String)>,
    census: Census,
    id: DefinitionId,
    is_safe: bool,
) -> bool {
    exists|at: int|
        0 <= at < pending(census).len() && (#[trigger] pending(census)[at]).id == id && assemble(
            names,
            census,
        ).unsafe_fn[at] == finding_for(names, id, pending(census)[at].span, is_safe) && forall|
            j: int,
        |
            0 <= j < pending(census).len() && j != at ==> (#[trigger] pending(census)[j]).id != id
}

/// A function that is pending in a well-formed state has exactly one finding
/// in the report, which says unsafe if it is pending as unsafe and safe if it
/// is pending as safe.
pub proof fn lemma_pending_is_reported_once(
    names: Seq<(DefinitionId, String)>,
    census: Census,
    id: DefinitionId,
)
    requires
        census.well_formed(),
    ensures
        tracks(census.unsafe_fn, id) ==> reported_once(names, census, id, false),
        tracks(census.safe_fn, id) ==> reported_once(names, census, id, true),
{
    let all = pending(census);
    let offset = census.unsafe_fn.len() as int;
    lemma_report_lists_pending(names, census);
    assert(!(tracks(census.unsafe_fn, id) && tracks(census.safe_fn, id)));
    if tracks(census.unsafe_fn, id) {
        let at = choose|i: int| 0 <= i < census.unsafe_fn.len() && (#[trigger] census.unsafe_fn[i]).id == id;
        assert(all[at] == census.unsafe_fn[at]);
        assert forall|j: int| 0 <= j < all.len() && j != at implies (#[trigger] all[j]).id != id by {
            if j < offset {
                assert(all[j] == census.unsafe_fn[j]);
            } else {
                assert(all[j] == census.safe_fn[j - offset]);
            }
        }
        assert(reported_once(names, census, id, false));
    }
    if tracks(census.safe_fn, id) {
        let k = choose|i: int| 0 <= i < census.safe_fn.len() && (#[trigger] census.safe_fn[i]).id == id;
        let at = offset + k;
        assert(all[at] == census.safe_fn[k]);
        assert forall|j: int| 0 <= j < all.len() && j != at implies (#[trigger] all[j]).id != id by {
            if j < offset {
                assert(all[j] == census.unsafe_fn[j]);
            } else {
                assert(all[j] == census.safe_fn[j - offset]);
            }
        }
        assert(reported_once(names, census, id, true));
    }
}

/// However many unsafe blocks a function owns, if it owns at least one the
/// report holds exactly one finding for it, and that finding says unsafe.
pub proof fn law_unsafe_blocks_give_one_unsafe_finding(
    census: Census,
    names: Seq<(DefinitionId, String)>,
    visits: Seq<(Construct, SourceSpan)>,
    id: DefinitionId,
)
    requires
        census.well_formed(),
        exists|k: int|
            0 <= k < visits.len() && (#[trigger] visits[k]).0 == (Construct::Block {
                rules: BlockCheckMode::UnsafeBlock,
                owner: id,
            }),
    ensures
        reported_once(names, census.replay(names, visits), id, false),
{
    let k = choose|k: int|
        0 <= k < visits.len() && (#[trigger] visits[k]).0 == (Construct::Block {
            rules: BlockCheckMode::UnsafeBlock,
            owner: id,
        });
    assert(finds_unsafe(visits[k].0, id));
    law_classification(census, names, visits, id);
    lemma_pending_is_reported_once(names, census.replay(names, visits), id);
}

/// A function that some visit finds unsafe, by an unsafe block that it owns
/// or by its own header, is reported as unsafe, once, whatever else is
/// visited before or after: whether its header is visited before its blocks
/// or after them, and whether or not it declares the function safe.
pub proof fn law_found_unsafe_stays_unsafe(
    census: Census,
    names: Seq<(DefinitionId, String)>,
    visits: Seq<(Construct, SourceSpan)>,
    id: DefinitionId,
)
    requires
        census.well_formed(),
        ever_finds_unsafe(visits, id),
    ensures
        tracks(census.replay(names, visits).unsafe_fn, id),
        !tracks(census.replay(names, visits).safe_fn, id),
        reported_once(names, census.replay(names, visits), id, false),
{
    law_classification(census, names, visits, id);
    lemma_pending_is_reported_once(names, census.replay(names, visits), id);
}

/// A function that is pending as unsafe never goes back: after any further
/// visits it is still pending as unsafe, at the same place and under the same
/// span, and it is not pending as safe.
pub proof fn law_unsafe_is_never_revoked(
    census: Census,
    names: Seq<(DefinitionId, String)>,
    visits: Seq<(Construct, SourceSpan)>,
    at: int,
)
    requires
        census.well_formed(),
        0 <= at < census.unsafe_fn.len(),
    ensures
        at < census.replay(names, visits).unsafe_fn.len(),
        census.replay(names, visits).unsafe_fn[at] == census.unsafe_fn[at],
        !tracks(census.replay(names, visits).safe_fn, census.unsafe_fn[at].id),
{
    law_classification(census, names, visits, census.unsafe_fn[at].id);
}

/// A function whose header declares it safe, and which no visit of a
/// traversal finds unsafe, is reported as safe, once.
pub proof fn law_safe_function_is_reported_safe(
    names: Seq<(DefinitionId, String)>,
    visits: Seq<(Construct, SourceSpan)>,
    id: DefinitionId,
)
    requires
        ever_declares_safe(visits, id),
        !ever_finds_unsafe(visits, id),
    ensures
        tracks(Census::empty().replay(names, visits).safe_fn, id),
        !tracks(Census::empty().replay(names, visits).unsafe_fn, id),
        reported_once(names, Census::empty().replay(names, visits), id, true),
{
    law_classification(Census::empty(), names, visits, id);
    lemma_pending_is_reported_once(names, Census::empty().replay(names, visits), id);
}

/// A block that is not unsafe is counted and nothing else: the report drawn
/// after its visit is the report drawn before it.
pub proof fn law_default_block_is_not_reported(
    census: Census,
    names: Seq<(DefinitionId, String)>,
    owner: DefinitionId,
    span: SourceSpan,
)
    ensures
        census.visit_block(names, BlockCheckMode::DefaultBlock, owner, span) == (Census {
            safe_block_num: bump(census.safe_block_num),
            ..census
        }),
        assemble(names, census.visit_block(names, BlockCheckMode::DefaultBlock, owner, span))
            == assemble(names, census),
{
}

/// Traits and trait implementations are listed apart from each other and
/// from the functions: the list of unsafe traits grows by the findings of the
/// unsafe traits visited, in their order, and the list of unsafe trait
/// implementations by those of the unsafe trait implementations visited,
/// whatever else is visited and however functions are classified.
pub proof fn law_traits_and_impls_are_listed_apart(
    census: Census,
    names: Seq<(DefinitionId, String)>,
    visits: Seq<(Construct, SourceSpan)>,
)
    ensures
        census.replay(names, visits).unsafe_traits == census.unsafe_traits + trait_findings(
            names,
            visits,
        ),
        census.replay(names, visits).unsafe_traits_impls == census.unsafe_traits_impls
            + trait_impl_findings(names, visits),
    decreases visits.len(),
{
    if visits.len() == 0 {
        assert(census.unsafe_traits + trait_findings(names, visits) =~= census.unsafe_traits);
        assert(census.unsafe_traits_impls + trait_impl_findings(names, visits)
            =~= census.unsafe_traits_impls);
    } else {
        let front = visits.drop_last();
        law_traits_and_impls_are_listed_apart(census, names, front);
        let middle = census.replay(names, front);
        let end = middle.visit(names, visits.last().0, visits.last().1);
        assert(end.unsafe_traits =~= census.unsafe_traits + trait_findings(names, visits));
        assert(end.unsafe_traits_impls =~= census.unsafe_traits_impls + trait_impl_findings(
            names,
            visits,
        ));
    }
}

/// The visit of an item leaves the classification of every function as it
/// was.
pub proof fn law_items_leave_functions_alone(
    census: Census,
    names: Seq<(DefinitionId, String)>,
    kind: ItemKind,
    id: DefinitionId,
    span: SourceSpan,
)
    ensures
        census.visit_item(names, kind, id, span).unsafe_fn == census.unsafe_fn,
        census.visit_item(names, kind, id, span).safe_fn == census.safe_fn,
        assemble(names, census.visit_item(names, kind, id, span)).unsafe_fn == assemble(
            names,
            census,
        ).unsafe_fn,
{
}

/// A closure is not classified: its visit changes nothing, so an unsafe
/// block inside it is reported to the block's owner, the enclosing function,
/// and the closure's own identifier is pending after the two visits only if
/// it was before.
pub proof fn law_closure_is_not_classified(
    census: Census,
    names: Seq<(DefinitionId, String)>,
    closure: DefinitionId,
    closure_span: SourceSpan,
    owner: DefinitionId,
    block_span: SourceSpan,
)
    requires
        census.well_formed(),
        closure != owner,
    ensures
        census.visit_fn(names, FnKind::Closure, closure, closure_span) == census,
        ({
            let end = census.visit_fn(names, FnKind::Closure, closure, closure_span).visit_block(
                names,
                BlockCheckMode::UnsafeBlock,
                owner,
                block_span,
            );
            &&& reported_once(names, end, owner, false)
            &&& tracks(end.unsafe_fn, closure) == tracks(census.unsafe_fn, closure)
            &&& tracks(end.safe_fn, closure) == tracks(census.safe_fn, closure)
        }),
{
    let block = Construct::Block { rules: BlockCheckMode::UnsafeBlock, owner };
    let end = census.visit(names, block, block_span);
    lemma_visit_classifies(census, names, block, block_span, owner);
    lemma_visit_classifies(census, names, block, block_span, closure);
    lemma_visit_well_formed(census, names, block, block_span);
    lemma_pending_is_reported_once(names, end, owner);
}

/// For a function that is not pending yet, its safe header and an unsafe
/// block that it owns may be visited in either order: the state is the same,
/// with the function pending as unsafe under the span of the block.
pub proof fn law_header_and_block_commute(
    census: Census,
    names: Seq<(DefinitionId, String)>,
    kind: FnKind,
    id: DefinitionId,
    header_span: SourceSpan,
    block_span: SourceSpan,
)
    requires
        census.well_formed(),
        kind.declared_safe() == Some(true),
        !tracks(census.unsafe_fn, id),
        !tracks(census.safe_fn, id),
    ensures
        census.visit_fn(names, kind, id, header_span).visit_block(
            names,
            BlockCheckMode::UnsafeBlock,
            id,
            block_span,
        ) == census.visit_block(names, BlockCheckMode::UnsafeBlock, id, block_span).visit_fn(
            names,
            kind,
            id,
            header_span,
        ),
        census.visit_fn(names, kind, id, header_span).visit_block(
            names,
            BlockCheckMode::UnsafeBlock,
            id,
            block_span,
        ).unsafe_fn == census.unsafe_fn.push(ItemCompilerInfo { id, span: block_span }),
        census.visit_fn(names, kind, id, header_span).visit_block(
            names,
            BlockCheckMode::UnsafeBlock,
            id,
            block_span,
        ).safe_fn == census.safe_fn,
{
    let entry = ItemCompilerInfo { id, span: header_span };
    let grown = census.safe_fn.push(entry);
    assert(grown.drop_last() =~= census.safe_fn);
    lemma_without_absent(census.safe_fn, id);
    assert(without(grown, id) == census.safe_fn);
    let marked = census.visit_block(names, BlockCheckMode::UnsafeBlock, id, block_span);
    assert(marked.unsafe_fn[census.unsafe_fn.len() as int].id == id);
    assert(tracks(marked.unsafe_fn, id));
}

} // verus!
