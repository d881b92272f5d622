//! Reachability in an import relation.
//!
//! An import relation gives, for each module that has been analyzed, the set
//! of modules it imports. Everything here is mathematics over that relation;
//! the module graph and its builder state their guarantees with it.

use vstd::prelude::*;

verus! {

/// An import relation: from the identifier of an analyzed module to the
/// identifiers it imports.
pub type Links = Map<Seq<char>, Set<Seq<char>>>;

/// `a` has been analyzed and imports `b`.
pub open spec fn imports(links: Links, a: Seq<char>, b: Seq<char>) -> bool {
    links.dom().contains(a) && links[a].contains(b)
}

/// `path` is a chain of imports: it is not empty and each module in it
/// imports the next.
pub open spec fn is_chain(links: Links, path: Seq<Seq<char>>) -> bool {
    &&& path.len() > 0
    &&& forall|i: int| 0 <= i < path.len() - 1 ==> imports(links, #[trigger] path[i], path[i + 1])
}

/// A chain of imports leads from `from` to `to`. Every module reaches itself.
pub open spec fn reachable(links: Links, from: Seq<char>, to: Seq<char>) -> bool {
    exists|path: Seq<Seq<char>>|
        #[trigger] is_chain(links, path) && path.first() == from && path.last() == to
}

/// Every import of an analyzed module has been analyzed too.
pub open spec fn is_closed(links: Links) -> bool {
    forall|a: Seq<char>, b: Seq<char>| #[trigger] imports(links, a, b) ==> links.dom().contains(b)
}

/// `wider` knows every module that `links` knows, with at least its imports.
pub open spec fn extends(wider: Links, links: Links) -> bool {
    forall|a: Seq<char>, b: Seq<char>| #[trigger] imports(links, a, b) ==> imports(wider, a, b)
}

/// Every module reaches itself.
pub proof fn lemma_reachable_self(links: Links, a: Seq<char>)
    ensures
        reachable(links, a, a),
{
    let path = seq![a];
    assert(is_chain(links, path));
}

/// A chain can be made one import longer.
pub proof fn lemma_reachable_step(links: Links, from: Seq<char>, a: Seq<char>, b: Seq<char>)
    requires
        reachable(links, from, a),
        imports(links, a, b),
    ensures
        reachable(links, from, b),
{
    let path = choose|path: Seq<Seq<char>>|
        #[trigger] is_chain(links, path) && path.first() == from && path.last() == a;
    let longer = path.push(b);
    assert forall|i: int| 0 <= i < longer.len() - 1 implies imports(
        links,
        #[trigger] longer[i],
        longer[i + 1],
    ) by {
        if i < path.len() - 1 {
            assert(imports(links, path[i], path[i + 1]));
        }
    }
    assert(is_chain(links, longer));
}

/// What is reachable stays reachable when the relation grows.
pub proof fn lemma_reachable_extends(wider: Links, links: Links, from: Seq<char>, to: Seq<char>)
    requires
        extends(wider, links),
        reachable(links, from, to),
    ensures
        reachable(wider, from, to),
{
    let path = choose|path: Seq<Seq<char>>|
        #[trigger] is_chain(links, path) && path.first() == from && path.last() == to;
    assert forall|i: int| 0 <= i < path.len() - 1 implies imports(
        wider,
        #[trigger] path[i],
        path[i + 1],
    ) by {
        assert(imports(links, path[i], path[i + 1]));
    }
    assert(is_chain(wider, path));
}

/// In a closed relation a chain that starts at an analyzed module stays among
/// the analyzed modules.
pub proof fn lemma_chain_stays_inside(links: Links, path: Seq<Seq<char>>, i: int)
    requires
        is_closed(links),
        is_chain(links, path),
        links.dom().contains(path.first()),
        0 <= i < path.len(),
    ensures
        links.dom().contains(path[i]),
    decreases i,
{
    if i > 0 {
        lemma_chain_stays_inside(links, path, i - 1);
        assert(imports(links, path[i - 1], path[i - 1 + 1]));
    }
}

/// A closed relation that has analyzed `from` has analyzed everything that
/// `from` reaches.
pub proof fn lemma_closed_holds_reachable(links: Links, from: Seq<char>, to: Seq<char>)
    requires
        is_closed(links),
        links.dom().contains(from),
        reachable(links, from, to),
    ensures
        links.dom().contains(to),
{
    let path = choose|path: Seq<Seq<char>>|
        #[trigger] is_chain(links, path) && path.first() == from && path.last() == to;
    lemma_chain_stays_inside(links, path, path.len() - 1);
}

} // verus!
