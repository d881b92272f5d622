//! What holds of every build, whatever the files hold and however the
//! imports are laid out.

use crate::builder::{enqueued, known, GraphBuilder};
use crate::graph::ModuleGraph;
use crate::reach::{imports, lemma_closed_holds_reachable, reachable};
use vstd::prelude::*;

verus! {

/// When nothing waits any more, the graph holds exactly the modules that the
/// entry reaches through imports: the entry itself, every import of every
/// module it holds, and no module without a chain of imports that leads to
/// it from the entry. This holds with and without cycles among the imports.
pub proof fn lemma_finished_build_is_closure(builder: GraphBuilder)
    requires
        builder.wf(),
        builder.pending().len() == 0,
    ensures
        builder.graph().contains(builder.entry()),
        builder.graph().closed(),
        forall|id: Seq<char>|
            builder.graph().contains(id) <==> reachable(
                builder.graph().links(),
                builder.entry(),
                id,
            ),
{
    let graph = builder.graph();
    let entry = builder.entry();
    let links = graph.links();
    assert(known(graph, builder.pending(), entry));
    assert forall|a: Seq<char>, b: Seq<char>| #[trigger] imports(links, a, b) implies links.dom().contains(
        b,
    ) by {
        assert(known(graph, builder.pending(), b));
    }
    assert forall|id: Seq<char>| graph.contains(id) <==> reachable(links, entry, id) by {
        if graph.contains(id) {
            assert(known(graph, builder.pending(), id));
        }
        if reachable(links, entry, id) {
            lemma_closed_holds_reachable(links, entry, id);
        }
    }
}

/// While a build runs, every module of the graph and every identifier that
/// waits is reached from the entry through imports of the graph: nothing is
/// ever loaded that the program does not need.
pub proof fn lemma_only_reachable_is_known(builder: GraphBuilder, id: Seq<char>)
    requires
        builder.wf(),
        builder.graph().contains(id) || builder.pending().contains(id),
    ensures
        reachable(builder.graph().links(), builder.entry(), id),
{
    assert(known(builder.graph(), builder.pending(), id));
}

/// A graph holds one module per identifier: two places with the same
/// identifier are the same place. Two specifiers that resolve to one
/// identifier therefore lead to one module, whoever imports them.
pub proof fn lemma_one_module_per_identifier(graph: ModuleGraph, i: int, j: int)
    requires
        graph.wf(),
        0 <= i < graph.ids().len(),
        0 <= j < graph.ids().len(),
        graph.ids()[i] == graph.ids()[j],
    ensures
        i == j,
{
}

/// The modules of a graph are no more than the identifiers there are: where
/// all identifiers come from a finite set, such as the files of a project,
/// the graph has at most as many modules as that set has members. Each round
/// of a build takes one new module into the graph, so this bounds the rounds.
pub proof fn lemma_modules_bounded(graph: ModuleGraph, universe: Set<Seq<char>>)
    requires
        graph.wf(),
        universe.finite(),
        forall|id: Seq<char>| graph.contains(id) ==> universe.contains(id),
    ensures
        graph.ids().len() <= universe.len(),
{
    let ids = graph.ids();
    ids.unique_seq_to_set();
    assert(ids.to_set().subset_of(universe)) by {
        assert forall|id: Seq<char>| ids.to_set().contains(id) implies universe.contains(id) by {
            assert(graph.contains(id));
        }
    }
    vstd::set_lib::lemma_len_subset(ids.to_set(), universe);
}

/// An import that leads to a module of the graph schedules nothing. This is
/// what ends a build on a cycle: the import that closes the cycle finds its
/// target in the graph.
pub proof fn lemma_known_target_is_not_scheduled(
    pending: Seq<Seq<char>>,
    graph: ModuleGraph,
    targets: Seq<String>,
    target: String,
)
    requires
        graph.contains(target@),
    ensures
        enqueued(pending, graph, targets.push(target)) == enqueued(pending, graph, targets),
{
    assert(targets.push(target).drop_last() =~= targets);
}

/// Scheduling keeps the work list free of repetitions and never schedules a
/// module of the graph.
pub proof fn lemma_enqueued_is_deduplicated(
    pending: Seq<Seq<char>>,
    graph: ModuleGraph,
    targets: Seq<String>,
)
    requires
        pending.no_duplicates(),
    ensures
        enqueued(pending, graph, targets).no_duplicates(),
        forall|id: Seq<char>|
            enqueued(pending, graph, targets).contains(id) && !pending.contains(id)
                ==> !graph.contains(id),
    decreases targets.len(),
{
    if targets.len() > 0 {
        lemma_enqueued_is_deduplicated(pending, graph, targets.drop_last());
        let before = enqueued(pending, graph, targets.drop_last());
        let after = enqueued(pending, graph, targets);
        let target = targets.last()@;
        if !(graph.contains(target) || before.contains(target)) {
            assert forall|i: int, j: int|
                0 <= i < after.len() && 0 <= j < after.len() && i != j implies after[i]
                != after[j] by {
                if i < before.len() && j < before.len() {
                    assert(before[i] != before[j]);
                } else if i < before.len() {
                    assert(before.contains(before[i]));
                } else {
                    assert(before.contains(before[j]));
                }
            }
            assert forall|id: Seq<char>|
                after.contains(id) && !pending.contains(id) implies !graph.contains(id) by {
                let k = choose|k: int| 0 <= k < after.len() && after[k] == id;
                if k < before.len() {
                    assert(before.contains(id));
                }
            }
        }
    }
}

} // verus!
