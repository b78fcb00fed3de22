//! The program tree of one compilation unit, and the walk that visits it.

use vstd::prelude::*;
use crate::census::Census;
use crate::hir::Construct;
use crate::hir::FnKind;
use crate::ident::DefinitionId;
use crate::ident::SourceSpan;
use crate::items::ItemVisitor;
use crate::items::ItemsAnalysis;
use crate::items::assemble;
use crate::laws::lemma_replay_concat;
use crate::resolve::Resolver;

verus! {

/// One construct with its span and the constructs nested in it, in source
/// order.
#[derive(Debug)]
pub struct Node {
    pub construct: Construct,
    pub span: SourceSpan,
    pub children: Vec<Node>,
}

impl Node {
    /// A construct with nothing nested in it.
    pub fn leaf(construct: Construct, span: SourceSpan) -> (node: Self)
        ensures
            node.construct == construct,
            node.span == span,
            node.children@ == Seq::<Node>::empty(),
    {
        Node { construct, span, children: Vec::new() }
    }

    /// A construct with the constructs nested in it.
    pub fn new(construct: Construct, span: SourceSpan, children: Vec<Node>) -> (node: Self)
        ensures
            node.construct == construct,
            node.span == span,
            node.children == children,
    {
        Node { construct, span, children }
    }

    /// Nests one more construct in this one, after those that are there.
    pub fn push_child(&mut self, child: Node)
        ensures
            final(self).construct == old(self).construct,
            final(self).span == old(self).span,
            final(self).children@ == old(self).children@.push(child),
    {
        self.children.push(child);
    }
}

/// The constructs of a tree in the order in which the walk visits them: a
/// construct before what is nested in it, and the nested constructs in source
/// order, each with all of its own before the next. Every construct of the
/// tree occurs once.
pub open spec fn preorder(node: Node) -> Seq<(Construct, SourceSpan)>
    decreases node, 1nat, 0nat,
{
    seq![(node.construct, node.span)] + preorder_children(node, node.children@.len())
}

/// The part of `preorder` that the first `upto` children of a node give.
pub open spec fn preorder_children(node: Node, upto: nat) -> Seq<(Construct, SourceSpan)>
    decreases node, 0nat, upto,
{
    if upto == 0 || upto > node.children@.len() {
        Seq::empty()
    } else {
        preorder_children(node, (upto - 1) as nat) + preorder(node.children@[upto - 1])
    }
}

/// Walks a tree: visits the construct at its root, then walks each nested
/// tree in turn.
pub fn walk(visitor: &mut ItemVisitor, node: &Node)
    requires
        old(visitor)@.well_formed(),
    ensures
        final(visitor)@ == old(visitor)@.replay(old(visitor).resolver.names@, preorder(*node)),
        final(visitor)@.well_formed(),
        final(visitor).resolver == old(visitor).resolver,
    decreases node,
{
    let ghost names = visitor.resolver.names@;
    let ghost start = visitor@;
    let ghost root = seq![(node.construct, node.span)];
    visitor.visit(node.construct, node.span.clone());
    proof {
        assert(root.drop_last() =~= Seq::empty());
        assert(start.replay(names, root.drop_last()) == start);
        assert(root + preorder_children(*node, 0) =~= root);
    }
    let mut i: usize = 0;
    while i < node.children.len()
        invariant
            i <= node.children.len(),
            visitor@ == start.replay(names, root + preorder_children(*node, i as nat)),
            visitor@.well_formed(),
            visitor.resolver.names@ == names,
            visitor.resolver == old(visitor).resolver,
        decreases node.children.len() - i,
    {
        let ghost before = root + preorder_children(*node, i as nat);
        walk(visitor, &node.children[i]);
        proof {
            let child = preorder(node.children@[i as int]);
            lemma_replay_concat(start, names, before, child);
            assert(before + child =~= root + preorder_children(*node, (i + 1) as nat));
        }
        i += 1;
    }
}

/// Takes the census of one compilation unit: walks its tree from a fresh
/// state and draws the report.
pub fn run_analysis(resolver: Resolver, root: &Node) -> (analysis: ItemsAnalysis)
    ensures
        analysis@ == assemble(
            resolver.names@,
            Census::empty().replay(resolver.names@, preorder(*root)),
        ),
{
    let mut visitor = ItemVisitor::new(resolver);
    walk(&mut visitor, root);
    visitor.finish()
}


/// A closure is walked for what is nested in it and for nothing else: the
/// walk of a tree with a closure at its root leaves the state that the walks
/// of the nested trees leave.
pub proof fn law_closure_is_walked_for_its_children(
    census: Census,
    names: Seq<(DefinitionId, String)>,
    node: Node,
)
    requires
        node.construct matches Construct::Function { fn_kind, id } && fn_kind == FnKind::Closure,
    ensures
        census.replay(names, preorder(node)) == census.replay(
            names,
            preorder_children(node, node.children@.len()),
        ),
{
    let root = seq![(node.construct, node.span)];
    assert(root.drop_last() =~= Seq::empty());
    assert(census.replay(names, root.drop_last()) == census);
    lemma_replay_concat(census, names, root, preorder_children(node, node.children@.len()));
}

} // verus!
