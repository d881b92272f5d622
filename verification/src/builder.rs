//! Building the module graph, one module at a time.
//!
//! The builder does not read the text of a module. It says which module it
//! needs next, takes the text of that module from its caller, and then
//! parses, normalizes and analyzes it, resolves its imports and schedules the
//! modules it has not seen. The caller repeats this until the builder hands
//! back the finished graph:
//!
//! ```text
//! GraphBuilder::start(ctx)
//! builder.step() -> Load(pending)      read pending.id(), then pending.provide(text, ctx)
//!                -> Done(graph, entry) every reachable module is in the graph
//! ```
//!
//! A module that is already in the graph is never asked for again, so the
//! number of modules read is the number of modules in the graph, whatever
//! cycles the imports form. Where all texts are at hand, `build` runs the
//! rounds itself.

use crate::context::CompileContext;
use crate::error::CompileError;
use crate::graph::{Module, ModuleGraph};
use crate::reach::{
    extends, imports, lemma_reachable_extends, lemma_reachable_self, lemma_reachable_step,
    reachable,
};
use crate::laws::lemma_finished_build_is_closure;
use crate::resolve::{resolve, resolve_entry};
use crate::syntax::{analyze_deps, listed_specifiers, parse, parsed_imports, transform, Ast};
use crate::table::StringMap;
use vstd::prelude::*;

verus! {

/// A work list of module identifiers that holds none twice. The identifier
/// that came last leaves first.
pub struct BuildQueue {
    queue: Vec<String>,
}

/// `y` stands in `s.push(x)` exactly if it stands in `s` or is `x`.
pub proof fn lemma_push_contains(s: Seq<Seq<char>>, x: Seq<char>, y: Seq<char>)
    ensures
        s.push(x).contains(y) <==> s.contains(y) || y == x,
{
    if s.contains(y) {
        let i = choose|i: int| 0 <= i < s.len() && s[i] == y;
        assert(s.push(x)[i] == y);
    }
    if y == x {
        assert(s.push(x)[s.len() as int] == y);
    }
    if s.push(x).contains(y) {
        let i = choose|i: int| 0 <= i < s.push(x).len() && s.push(x)[i] == y;
        if i < s.len() {
            assert(s[i] == y);
        }
    }
}

impl BuildQueue {
    /// The identifiers that wait, the next one to leave last.
    pub closed spec fn pending(&self) -> Seq<Seq<char>> {
        self.queue@.map_values(|id: String| id@)
    }

    /// No identifier waits twice.
    pub open spec fn wf(&self) -> bool {
        self.pending().no_duplicates()
    }

    /// An empty work list.
    pub fn new() -> (queue: Self)
        ensures
            queue.wf(),
            queue.pending() == Seq::<Seq<char>>::empty(),
    {
        let queue = BuildQueue { queue: Vec::new() };
        assert(queue.pending() =~= Seq::<Seq<char>>::empty());
        queue
    }

    /// The number of identifiers that wait.
    pub fn len(&self) -> (n: usize)
        ensures
            n == self.pending().len(),
    {
        self.queue.len()
    }

    /// Whether `id` waits.
    pub fn contains(&self, id: &String) -> (present: bool)
        ensures
            present == self.pending().contains(id@),
    {
        let mut i: usize = 0;
        while i < self.queue.len()
            invariant
                i <= self.queue.len(),
                forall|j: int| 0 <= j < i ==> self.pending()[j] != id@,
            decreases self.queue.len() - i,
        {
            if self.queue[i] == *id {
                assert(self.pending()[i as int] == id@);
                return true;
            }
            i += 1;
        }
        false
    }

    /// Schedules `id` unless it waits already, and says whether it did.
    pub fn push(&mut self, id: String) -> (added: bool)
        requires
            old(self).wf(),
        ensures
            final(self).wf(),
            added == !old(self).pending().contains(id@),
            final(self).pending() == if added {
                old(self).pending().push(id@)
            } else {
                old(self).pending()
            },
    {
        if self.contains(&id) {
            false
        } else {
            self.queue.push(id);
            assert(self.pending() =~= old(self).pending().push(id@));
            true
        }
    }

    /// Takes out the identifier that came last, if any waits.
    pub fn pop(&mut self) -> (id: Option<String>)
        requires
            old(self).wf(),
        ensures
            final(self).wf(),
            match id {
                Some(next) => {
                    &&& old(self).pending().len() > 0
                    &&& next@ == old(self).pending().last()
                    &&& final(self).pending() == old(self).pending().drop_last()
                },
                None => old(self).pending().len() == 0 && final(self).pending() == old(
                    self,
                ).pending(),
            },
    {
        let id = self.queue.pop();
        if id.is_some() {
            assert(self.pending() =~= old(self).pending().drop_last());
        }
        id
    }
}

/// `id` is a module of the graph or waits in the frontier.
pub open spec fn known(graph: ModuleGraph, frontier: Seq<Seq<char>>, id: Seq<char>) -> bool {
    graph.contains(id) || frontier.contains(id)
}

/// What holds between the entry, the graph built so far and the identifiers
/// that still wait:
/// the entry is known; whatever is known is reached from the entry by
/// imports of the graph; and whatever a module of the graph imports is known.
pub open spec fn frontier_ok(entry: Seq<char>, graph: ModuleGraph, frontier: Seq<Seq<char>>) -> bool {
    &&& graph.wf()
    &&& known(graph, frontier, entry)
    &&& forall|id: Seq<char>| #[trigger]
        known(graph, frontier, id) ==> reachable(graph.links(), entry, id)
    &&& forall|a: Seq<char>, b: Seq<char>| #[trigger]
        imports(graph.links(), a, b) ==> known(graph, frontier, b)
}

/// The work list after the targets of a new module were scheduled in order:
/// a target joins unless it is a module of the graph or waits already.
pub open spec fn enqueued(pending: Seq<Seq<char>>, graph: ModuleGraph, targets: Seq<String>) -> Seq<
    Seq<char>,
>
    decreases targets.len(),
{
    if targets.len() == 0 {
        pending
    } else {
        let before = enqueued(pending, graph, targets.drop_last());
        let target = targets.last()@;
        if graph.contains(target) || before.contains(target) {
            before
        } else {
            before.push(target)
        }
    }
}

/// `items` without repetitions: each one where it first occurs.
pub open spec fn distinct(items: Seq<Seq<char>>) -> Seq<Seq<char>>
    decreases items.len(),
{
    if items.len() == 0 {
        Seq::empty()
    } else {
        let before = distinct(items.drop_last());
        if before.contains(items.last()) {
            before
        } else {
            before.push(items.last())
        }
    }
}

/// What a row of specifiers and the identifiers they resolved to, place by
/// place, record: each specifier with the identifier of its last occurrence.
pub open spec fn recorded(specifiers: Seq<Seq<char>>, ids: Seq<String>) -> Map<
    Seq<char>,
    Seq<char>,
>
    decreases specifiers.len(),
{
    if specifiers.len() == 0 {
        Map::empty()
    } else {
        recorded(specifiers.drop_last(), ids.drop_last()).insert(specifiers.last(), ids.last()@)
    }
}

/// The dependency map of a module: each of `specifiers` with the identifier
/// at its place in `ids`. A specifier that occurs again keeps its place among
/// the keys and takes the later identifier.
pub fn dependency_map(specifiers: &Vec<String>, ids: &Vec<String>) -> (deps: StringMap<String>)
    requires
        specifiers.len() == ids.len(),
    ensures
        deps.wf(),
        deps.keys() == distinct(specifiers.deep_view()),
        forall|s: Seq<char>|
            deps.contains(s) <==> recorded(specifiers.deep_view(), ids@).dom().contains(s),
        forall|s: Seq<char>|
            deps.contains(s) ==> deps.get(s)@ == recorded(specifiers.deep_view(), ids@)[s],
{
    let ghost all = specifiers.deep_view();
    let mut deps: StringMap<String> = StringMap::new();
    let mut i: usize = 0;
    assert(all.take(0) =~= Seq::empty());
    assert(ids@.take(0) =~= Seq::empty());
    while i < specifiers.len()
        invariant
            i <= specifiers.len(),
            specifiers.len() == ids.len(),
            all == specifiers.deep_view(),
            deps.wf(),
            deps.keys() == distinct(all.take(i as int)),
            forall|s: Seq<char>|
                deps.contains(s) <==> recorded(all.take(i as int), ids@.take(i as int)).dom().contains(
                    s,
                ),
            forall|s: Seq<char>|
                deps.contains(s) ==> deps.get(s)@ == recorded(
                    all.take(i as int),
                    ids@.take(i as int),
                )[s],
        decreases specifiers.len() - i,
    {
        assert(all.take(i as int + 1).drop_last() =~= all.take(i as int));
        assert(ids@.take(i as int + 1).drop_last() =~= ids@.take(i as int));
        assert(all.take(i as int + 1).last() == all[i as int]);
        assert(ids@.take(i as int + 1).last() == ids@[i as int]);
        assert(all[i as int] == specifiers@[i as int]@);
        deps.insert(specifiers[i].clone(), ids[i].clone());
        i += 1;
    }
    assert(all.take(i as int) =~= all);
    assert(ids@.take(i as int) =~= ids@);
    deps
}

/// Resolves each of `specifiers` as an import of the module `importer`, in
/// order, stops at the first that names no file, and records what the
/// others resolved to.
pub fn resolve_deps(importer: &String, specifiers: &Vec<String>) -> (deps: Result<
    StringMap<String>,
    CompileError,
>)
    ensures
        match deps {
            Ok(deps) => deps.wf() && deps.keys() == distinct(specifiers.deep_view()),
            Err(e) => e matches CompileError::Resolution { importer: i, specifier: s } && i@
                == importer@ && specifiers.deep_view().contains(s@),
        },
{
    let mut ids: Vec<String> = Vec::new();
    let mut i: usize = 0;
    while i < specifiers.len()
        invariant
            i <= specifiers.len(),
            ids.len() == i,
        decreases specifiers.len() - i,
    {
        assert(specifiers.deep_view()[i as int] == specifiers@[i as int]@);
        match resolve(importer, &specifiers[i]) {
            Ok(id) => {
                ids.push(id);
            },
            Err(e) => {
                return Err(e);
            },
        }
        i += 1;
    }
    Ok(dependency_map(specifiers, &ids))
}

/// The state of a build between two modules: the entry, the graph so far and
/// the identifiers that still wait.
pub struct GraphBuilder {
    entry: String,
    graph: ModuleGraph,
    queue: BuildQueue,
}

/// A build that waits for the text of one module.
pub struct PendingModule {
    builder: GraphBuilder,
    id: String,
}

/// What a build needs next.
pub enum BuildStep {
    /// The text of the module that the value names.
    Load(PendingModule),
    /// Nothing: the graph is complete. With it comes the identifier of the
    /// entry.
    Done(ModuleGraph, String),
}

impl GraphBuilder {
    /// The identifier of the entry module.
    pub closed spec fn entry(&self) -> Seq<char> {
        self.entry@
    }

    /// The graph built so far.
    pub closed spec fn graph(&self) -> ModuleGraph {
        self.graph
    }

    /// The identifiers that wait, the next one last.
    pub closed spec fn pending(&self) -> Seq<Seq<char>> {
        self.queue.pending()
    }

    /// The build is in order: no identifier waits twice, and entry, graph and
    /// work list stand as `frontier_ok` says.
    pub open spec fn wf(&self) -> bool {
        &&& self.pending().no_duplicates()
        &&& frontier_ok(self.entry(), self.graph(), self.pending())
    }

    /// A build of the project of `ctx`. It starts at the entry module of the
    /// project, under the identifier that the resolver gives it: the graph is
    /// empty and the entry waits. Where the resolver finds no entry module,
    /// the error says that it could not be taken in.
    pub fn start(ctx: &CompileContext) -> (builder: Result<Self, CompileError>)
        ensures
            match builder {
                Ok(builder) => {
                    &&& builder.wf()
                    &&& builder.graph().ids() == Seq::<Seq<char>>::empty()
                    &&& builder.pending() == seq![builder.entry()]
                },
                Err(e) => e matches CompileError::Load { module } && module@
                    == ctx.entry_path_text(),
            },
    {
        match resolve_entry(ctx.root()) {
            Ok(entry) => Ok(GraphBuilder::new(entry)),
            Err(e) => Err(e),
        }
    }

    /// A build that starts at `entry`: the graph is empty and `entry` waits.
    fn new(entry: String) -> (builder: Self)
        ensures
            builder.wf(),
            builder.entry() == entry@,
            builder.graph().ids() == Seq::<Seq<char>>::empty(),
            builder.pending() == seq![entry@],
    {
        let ghost text = entry@;
        let graph = ModuleGraph::new();
        let mut queue = BuildQueue::new();
        let copy = entry.clone();
        queue.push(copy);
        let builder = GraphBuilder { entry, graph, queue };
        proof {
            assert(builder.pending() =~= seq![text]);
            assert(builder.pending()[0] == text);
            assert forall|id: Seq<char>| #[trigger]
                known(builder.graph(), builder.pending(), id) implies reachable(
                builder.graph().links(),
                text,
                id,
            ) by {
                lemma_reachable_self(builder.graph().links(), text);
            }
        }
        builder
    }

    /// Finds what the build needs next. Identifiers that wait but are modules
    /// of the graph by now are dropped, last first. The first that is not one
    /// is handed out for loading, and what waited before it still waits. When
    /// none is left the graph is complete: it holds the entry, it is closed,
    /// and its modules are exactly those that the entry reaches through
    /// imports.
    pub fn step(self) -> (step: BuildStep)
        requires
            self.wf(),
        ensures
            match step {
                BuildStep::Load(next) => {
                    let kept = next.pending().len() as int;
                    &&& next.wf()
                    &&& next.entry() == self.entry()
                    &&& next.graph() == self.graph()
                    &&& kept < self.pending().len()
                    &&& next.pending() == self.pending().take(kept)
                    &&& next.module_id() == self.pending()[kept]
                    &&& forall|j: int|
                        kept < j < self.pending().len() ==> self.graph().contains(
                            #[trigger] self.pending()[j],
                        )
                },
                BuildStep::Done(graph, entry) => {
                    &&& entry@ == self.entry()
                    &&& graph == self.graph()
                    &&& graph.wf()
                    &&& graph.closed()
                    &&& graph.contains(self.entry())
                    &&& forall|id: Seq<char>|
                        graph.contains(id) <==> reachable(graph.links(), self.entry(), id)
                    &&& forall|j: int|
                        0 <= j < self.pending().len() ==> graph.contains(
                            #[trigger] self.pending()[j],
                        )
                },
            },
    {
        let ghost start = self.pending();
        let GraphBuilder { entry, graph, mut queue } = self;
        assert(start.take(start.len() as int) =~= start);
        loop
            invariant
                queue.wf(),
                start == self.pending(),
                entry@ == self.entry(),
                graph == self.graph(),
                frontier_ok(entry@, graph, queue.pending()),
                queue.pending().len() <= start.len(),
                queue.pending() == start.take(queue.pending().len() as int),
                forall|j: int|
                    queue.pending().len() <= j < start.len() ==> graph.contains(
                        #[trigger] start[j],
                    ),
            decreases queue.pending().len(),
        {
            let ghost before = queue.pending();
            match queue.pop() {
                None => {
                    proof {
                        lemma_finished_build_is_closure(GraphBuilder { entry, graph, queue });
                    }
                    return BuildStep::Done(graph, entry);
                },
                Some(id) => {
                    proof {
                        assert(before.drop_last().push(id@) =~= before);
                        assert(before.drop_last() =~= start.take(before.len() - 1));
                        assert forall|x: Seq<char>|
                            before.contains(x) <==> queue.pending().contains(x) || x == id@ by {
                            lemma_push_contains(queue.pending(), id@, x);
                        }
                    }
                    if graph.contains_key(&id) {
                        proof {
                            assert forall|x: Seq<char>| #[trigger]
                                known(graph, queue.pending(), x) implies reachable(
                                graph.links(),
                                entry@,
                                x,
                            ) by {
                                assert(known(graph, before, x));
                            }
                            assert forall|a: Seq<char>, b: Seq<char>| #[trigger]
                                imports(graph.links(), a, b) implies known(
                                graph,
                                queue.pending(),
                                b,
                            ) by {
                                assert(known(graph, before, b));
                            }
                            assert(known(graph, before, entry@));
                        }
                    } else {
                        let next = PendingModule {
                            builder: GraphBuilder { entry, graph, queue },
                            id,
                        };
                        return BuildStep::Load(next);
                    }
                },
            }
        }
    }
}

impl PendingModule {
    /// The identifier of the entry module.
    pub closed spec fn entry(&self) -> Seq<char> {
        self.builder.entry()
    }

    /// The graph built so far.
    pub closed spec fn graph(&self) -> ModuleGraph {
        self.builder.graph()
    }

    /// The identifiers that wait behind the module to load.
    pub closed spec fn pending(&self) -> Seq<Seq<char>> {
        self.builder.pending()
    }

    /// The identifier of the module to load.
    pub closed spec fn module_id(&self) -> Seq<char> {
        self.id@
    }

    /// The build is in order, with the module to load counted among those
    /// that wait, and that module is not in the graph.
    pub open spec fn wf(&self) -> bool {
        &&& self.pending().no_duplicates()
        &&& !self.graph().contains(self.module_id())
        &&& frontier_ok(self.entry(), self.graph(), self.pending().push(self.module_id()))
    }

    /// The identifier of the module whose text the build waits for.
    pub fn id(&self) -> (id: &String)
        ensures
            id@ == self.module_id(),
    {
        &self.id
    }

    /// Takes the analyzed module into the graph: `ast` is its tree and `deps`
    /// holds what its import specifiers resolved to. The module joins the
    /// graph under the identifier that was handed out, and each of its
    /// targets is scheduled unless the graph holds it or it waits already.
    pub fn insert(self, ast: Ast, deps: StringMap<String>) -> (builder: GraphBuilder)
        requires
            self.wf(),
            ast.wf(),
            deps.wf(),
        ensures
            builder.wf(),
            builder.entry() == self.entry(),
            builder.graph().modules.keys() == self.graph().modules.keys().push(self.module_id()),
            builder.graph().modules.values() == self.graph().modules.values().push(
                (Module { ast, deps }),
            ),
            builder.pending() == enqueued(self.pending(), builder.graph(), deps.values()),
    {
        let PendingModule { builder, id } = self;
        let GraphBuilder { entry, mut graph, mut queue } = builder;
        let ghost id_text = id@;
        let ghost old_graph = graph;
        let ghost old_pending = queue.pending();
        let ghost module = Module { ast, deps };
        let ghost targets = deps.values();
        graph.insert(id, Module { ast, deps });
        let ghost links = graph.links();
        proof {
            assert forall|x: Seq<char>| old_pending.push(id_text).contains(x) implies known(
                graph,
                old_pending,
                x,
            ) by {
                lemma_push_contains(old_pending, id_text, x);
            }
            assert forall|a: Seq<char>, b: Seq<char>| #[trigger]
                imports(old_graph.links(), a, b) implies imports(links, a, b) by {}
            assert(extends(links, old_graph.links()));
            assert forall|x: Seq<char>| #[trigger] known(graph, old_pending, x) implies reachable(
                links,
                entry@,
                x,
            ) by {
                assert(known(old_graph, old_pending.push(id_text), x)) by {
                    lemma_push_contains(old_pending, id_text, x);
                }
                lemma_reachable_extends(links, old_graph.links(), entry@, x);
            }
            assert forall|a: Seq<char>, b: Seq<char>| #[trigger]
                imports(links, a, b) && a != id_text implies known(graph, old_pending, b) by {
                assert(imports(old_graph.links(), a, b));
                assert(known(old_graph, old_pending.push(id_text), b));
                lemma_push_contains(old_pending, id_text, b);
            }
            assert(known(graph, old_pending, entry@)) by {
                lemma_push_contains(old_pending, id_text, entry@);
            }
            assert(targets.take(0) =~= Seq::<String>::empty());
        }
        let last = graph.modules.len() - 1;
        let count = graph.modules.value_at(last).deps.len();
        let mut i: usize = 0;
        while i < count
            invariant
                graph.wf(),
                queue.wf(),
                module.deps.wf(),
                i <= count,
                count == targets.len(),
                targets == module.deps.values(),
                last == graph.modules.values().len() - 1,
                graph.modules.values()[last as int] == module,
                graph.links() == links,
                graph.contains(id_text),
                links.dom().contains(id_text),
                links[id_text] == module.targets(),
                queue.pending() == enqueued(old_pending, graph, targets.take(i as int)),
                known(graph, queue.pending(), entry@),
                forall|x: Seq<char>| #[trigger]
                    known(graph, queue.pending(), x) ==> reachable(links, entry@, x),
                forall|a: Seq<char>, b: Seq<char>| #[trigger]
                    imports(links, a, b) && a != id_text ==> known(graph, queue.pending(), b),
                forall|j: int| 0 <= j < i ==> known(graph, queue.pending(), (#[trigger] targets[j])@),
            decreases count - i,
        {
            let ghost before = queue.pending();
            let target = graph.modules.value_at(last).deps.value_at(i);
            proof {
                assert(targets.take(i as int + 1).drop_last() =~= targets.take(i as int));
                assert(targets.take(i as int + 1).last() == targets[i as int]);
                assert(target@ == targets[i as int]@);
                assert(module.targets().contains(target@));
                assert(imports(links, id_text, target@));
                assert(known(graph, before, id_text));
                lemma_reachable_step(links, entry@, id_text, target@);
            }
            if !graph.contains_key(target) {
                let copy = target.clone();
                queue.push(copy);
            }
            proof {
                assert forall|x: Seq<char>| known(graph, before, x) implies known(
                    graph,
                    queue.pending(),
                    x,
                ) by {
                    lemma_push_contains(before, target@, x);
                }
                assert forall|x: Seq<char>| #[trigger]
                    known(graph, queue.pending(), x) implies reachable(links, entry@, x) by {
                    lemma_push_contains(before, target@, x);
                    if x != target@ {
                        assert(known(graph, before, x));
                    }
                }
                assert(known(graph, queue.pending(), target@)) by {
                    lemma_push_contains(before, target@, target@);
                }
                assert forall|a: Seq<char>, b: Seq<char>| #[trigger]
                    imports(links, a, b) && a != id_text implies known(
                    graph,
                    queue.pending(),
                    b,
                ) by {
                    assert(known(graph, before, b));
                }
                assert forall|j: int| 0 <= j < i + 1 implies known(
                    graph,
                    queue.pending(),
                    (#[trigger] targets[j])@,
                ) by {
                    if j < i {
                        assert(known(graph, before, targets[j]@));
                    }
                }
                assert(known(graph, before, entry@));
            }
            i += 1;
        }
        proof {
            assert(targets.take(i as int) =~= targets);
            assert forall|a: Seq<char>, b: Seq<char>| #[trigger]
                imports(links, a, b) implies known(graph, queue.pending(), b) by {
                if a == id_text {
                    let j = choose|j: int| 0 <= j < targets.len() && (#[trigger] targets[j])@ == b;
                    assert(known(graph, queue.pending(), targets[j]@));
                }
            }
        }
        GraphBuilder { entry, graph, queue }
    }

    /// Takes the text of the module that was handed out: enters it in the
    /// registry of the context, parses it, normalizes it, collects the
    /// specifiers it imports, resolves each of them from the module's
    /// directory, and takes the module into the graph. The first failure ends
    /// the build, and the error names this module: a text for which the
    /// registry has no room could not be taken in; a text that the parser
    /// refuses gives a parse error, and no other text does.
    pub fn provide(self, source: String, ctx: &mut CompileContext) -> (next: Result<
        GraphBuilder,
        CompileError,
    >)
        requires
            self.wf(),
        ensures
            final(ctx).root_text() == old(ctx).root_text(),
            final(ctx).entered() == if old(ctx).has_room(source@) {
                old(ctx).entered() + vstd::utf8::encode_utf8(source@).len() + 1
            } else {
                old(ctx).entered()
            },
            !old(ctx).has_room(source@) ==> (next matches Err(CompileError::Load { module })
                && module@ == self.module_id()),
            old(ctx).has_room(source@) && parsed_imports(source@) is None ==> (next matches Err(
                CompileError::Parse { module },
            ) && module@ == self.module_id()),
            next matches Err(CompileError::Load { .. }) ==> !old(ctx).has_room(source@),
            next matches Err(CompileError::Parse { .. }) ==> old(ctx).has_room(source@)
                && parsed_imports(source@) is None,
            next is Ok ==> old(ctx).has_room(source@) && parsed_imports(source@) is Some,
            match next {
                Ok(builder) => {
                    let module = builder.graph().modules.values().last();
                    &&& builder.wf()
                    &&& builder.entry() == self.entry()
                    &&& builder.graph().ids() == self.graph().ids().push(self.module_id())
                    &&& builder.graph().modules.values().drop_last()
                        == self.graph().modules.values()
                    &&& module.ast.is_normalized()
                    &&& module.deps.keys() == distinct(listed_specifiers(module.ast.imports()))
                    &&& builder.pending() == enqueued(
                        self.pending(),
                        builder.graph(),
                        module.deps.values(),
                    )
                },
                Err(e) => match e {
                    CompileError::Load { module } => module@ == self.module_id(),
                    CompileError::Parse { module } => module@ == self.module_id(),
                    CompileError::Transform { module } => module@ == self.module_id(),
                    CompileError::Resolution { importer, specifier } => importer@
                        == self.module_id(),
                    _ => false,
                },
            },
    {
        let mut ast = match parse(source, &self.id, ctx) {
            Ok(ast) => ast,
            Err(e) => {
                return Err(e);
            },
        };
        match transform(&mut ast, &self.id) {
            Ok(()) => {},
            Err(e) => {
                return Err(e);
            },
        }
        let specifiers = analyze_deps(&ast);
        let deps = match resolve_deps(&self.id, &specifiers) {
            Ok(deps) => deps,
            Err(e) => {
                return Err(e);
            },
        };
        let ghost old_values = self.graph().modules.values();
        let ghost module = Module { ast, deps };
        let builder = self.insert(ast, deps);
        proof {
            assert(old_values.push(module).drop_last() =~= old_values);
        }
        Ok(builder)
    }
}

/// A row without repetitions whose members all stand in another row without
/// repetitions, while one more member of that row is missing from it, is the
/// shorter of the two.
pub proof fn lemma_shorter_without(ids: Seq<Seq<char>>, keys: Seq<Seq<char>>, id: Seq<char>)
    requires
        ids.no_duplicates(),
        keys.no_duplicates(),
        forall|x: Seq<char>| ids.contains(x) ==> keys.contains(x),
        keys.contains(id),
        !ids.contains(id),
    ensures
        ids.len() < keys.len(),
{
    let more = ids.push(id);
    assert forall|i: int, j: int| 0 <= i < more.len() && 0 <= j < more.len() && i != j implies more[i]
        != more[j] by {
        if i < ids.len() && j < ids.len() {
            assert(ids[i] != ids[j]);
        } else if i < ids.len() {
            assert(ids.contains(ids[i]));
        } else {
            assert(ids.contains(ids[j]));
        }
    }
    more.unique_seq_to_set();
    keys.unique_seq_to_set();
    assert(more.to_set().subset_of(keys.to_set())) by {
        assert forall|x: Seq<char>| more.to_set().contains(x) implies keys.to_set().contains(x) by {
            lemma_push_contains(ids, id, x);
        }
    }
    vstd::seq_lib::seq_to_set_is_finite(keys);
    vstd::set_lib::lemma_len_subset(more.to_set(), keys.to_set());
}

/// Builds the graph of the project of `ctx` from texts that are at hand:
/// `sources` holds the text of every module under its identifier.
///
/// The build starts at the entry module and runs round by round: it takes
/// the text of the module that is needed next from `sources` and hands it
/// over, until nothing is needed. Every round takes one module into the
/// graph that `sources` holds and the graph did not, so there are at most as
/// many rounds as `sources` has texts, and the build ends. It ends with the
/// graph and the identifier of its entry: the graph holds the entry, it is
/// closed, its modules are exactly those that the entry reaches through
/// imports, and each of them once. It ends with an error where the entry is
/// not found, where a module is needed that `sources` does not hold, or where
/// a module fails.
pub fn build(ctx: &mut CompileContext, sources: &StringMap<String>) -> (built: Result<
    (ModuleGraph, String),
    CompileError,
>)
    requires
        sources.wf(),
    ensures
        final(ctx).root_text() == old(ctx).root_text(),
        match built {
            Ok((graph, entry)) => {
                &&& graph.wf()
                &&& graph.closed()
                &&& graph.contains(entry@)
                &&& forall|id: Seq<char>|
                    graph.contains(id) <==> reachable(graph.links(), entry@, id)
                &&& forall|id: Seq<char>| graph.contains(id) ==> sources.contains(id)
            },
            Err(e) => match e {
                CompileError::Load { module } => true,
                CompileError::Parse { module } => sources.contains(module@),
                CompileError::Transform { module } => sources.contains(module@),
                CompileError::Resolution { importer, specifier } => sources.contains(importer@),
                _ => false,
            },
        },
{
    let mut builder = match GraphBuilder::start(ctx) {
        Ok(builder) => builder,
        Err(e) => {
            return Err(e);
        },
    };
    loop
        invariant
            sources.wf(),
            builder.wf(),
            ctx.root_text() == old(ctx).root_text(),
            forall|id: Seq<char>| builder.graph().contains(id) ==> sources.contains(id),
            builder.graph().ids().len() <= sources.keys().len(),
        decreases sources.keys().len() - builder.graph().ids().len(),
    {
        let ghost ids = builder.graph().ids();
        proof {
            assert forall|x: Seq<char>| ids.contains(x) implies sources.keys().contains(x) by {
                assert(builder.graph().contains(x));
                assert(sources.contains(x));
            }
        }
        match builder.step() {
            BuildStep::Done(graph, entry) => {
                return Ok((graph, entry));
            },
            BuildStep::Load(pending) => {
                let text = match sources.lookup(pending.id()) {
                    Some(text) => text.clone(),
                    None => {
                        return Err(CompileError::Load { module: pending.id().clone() });
                    },
                };
                proof {
                    lemma_shorter_without(ids, sources.keys(), pending.module_id());
                }
                builder = match pending.provide(text, ctx) {
                    Ok(next) => next,
                    Err(e) => {
                        return Err(e);
                    },
                };
                proof {
                    assert forall|id: Seq<char>| builder.graph().contains(id) implies sources.contains(
                        id,
                    ) by {
                        lemma_push_contains(ids, pending.module_id(), id);
                    }
                }
            },
        }
    }
}

} // verus!
