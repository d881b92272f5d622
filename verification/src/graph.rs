//! The module graph: every module that the entry reaches, once, with the
//! identifiers that its import specifiers resolve to.

use crate::reach::{is_closed, Links};
use crate::syntax::Ast;
use crate::table::StringMap;
use vstd::prelude::*;

verus! {

/// One module: its syntax tree, and for each raw import specifier the
/// identifier of the module that it names.
pub struct Module {
    pub ast: Ast,
    pub deps: StringMap<String>,
}

impl Module {
    /// The dependency map and the tree are well formed.
    pub open spec fn wf(&self) -> bool {
        self.deps.wf() && self.ast.wf()
    }

    /// The identifiers that this module imports.
    pub open spec fn targets(&self) -> Set<Seq<char>> {
        Set::new(
            |target: Seq<char>|
                exists|i: int|
                    0 <= i < self.deps.values().len() && (#[trigger] self.deps.values()[i])@
                        == target,
        )
    }
}

/// The modules found so far, keyed by identifier, in the order in which they
/// were analyzed. Nothing is ever taken out.
pub struct ModuleGraph {
    pub modules: StringMap<Module>,
}

impl ModuleGraph {
    /// No identifier occurs twice and every module is well formed.
    pub open spec fn wf(&self) -> bool {
        &&& self.modules.wf()
        &&& forall|i: int|
            0 <= i < self.modules.values().len() ==> (#[trigger] self.modules.values()[i]).wf()
    }

    /// The identifiers of the modules, oldest first.
    pub open spec fn ids(&self) -> Seq<Seq<char>> {
        self.modules.keys()
    }

    /// Whether `id` is the identifier of a module of the graph.
    pub open spec fn contains(&self, id: Seq<char>) -> bool {
        self.modules.contains(id)
    }

    /// The module with the identifier `id`.
    pub open spec fn module(&self, id: Seq<char>) -> Module
        recommends
            self.contains(id),
    {
        self.modules.get(id)
    }

    /// The import relation of the graph: each identifier with the identifiers
    /// that its module imports.
    pub open spec fn links(&self) -> Links {
        Map::new(|id: Seq<char>| self.contains(id), |id: Seq<char>| self.module(id).targets())
    }

    /// Every import of every module of the graph is a module of the graph.
    pub open spec fn closed(&self) -> bool {
        is_closed(self.links())
    }

    /// A graph without modules.
    pub fn new() -> (graph: Self)
        ensures
            graph.wf(),
            graph.ids() == Seq::<Seq<char>>::empty(),
            graph.links() == Map::<Seq<char>, Set<Seq<char>>>::empty(),
    {
        let graph = ModuleGraph { modules: StringMap::new() };
        assert(graph.links() =~= Map::<Seq<char>, Set<Seq<char>>>::empty());
        graph
    }

    /// The number of modules.
    pub fn len(&self) -> (n: usize)
        requires
            self.wf(),
        ensures
            n == self.ids().len(),
    {
        self.modules.len()
    }

    /// Whether `id` is the identifier of a module of the graph.
    pub fn contains_key(&self, id: &String) -> (present: bool)
        requires
            self.wf(),
        ensures
            present == self.contains(id@),
    {
        self.modules.contains_key(id)
    }

    /// The module with the identifier `id`, if the graph has one.
    pub fn get(&self, id: &String) -> (module: Option<&Module>)
        requires
            self.wf(),
        ensures
            match module {
                Some(m) => self.contains(id@) && *m == self.module(id@),
                None => !self.contains(id@),
            },
    {
        self.modules.lookup(id)
    }

    /// Adds the module `module` under the identifier `id`, which the graph
    /// does not hold yet. The modules that were there stay as they are.
    pub fn insert(&mut self, id: String, module: Module)
        requires
            old(self).wf(),
            module.wf(),
            !old(self).contains(id@),
        ensures
            final(self).wf(),
            final(self).modules.keys() == old(self).modules.keys().push(id@),
            final(self).modules.values() == old(self).modules.values().push(module),
            final(self).module(id@) == module,
            forall|k: Seq<char>| final(self).contains(k) <==> old(self).contains(k) || k == id@,
            forall|k: Seq<char>| old(self).contains(k) ==> final(self).module(k) == old(self).module(k),
            final(self).links() == old(self).links().insert(id@, module.targets()),
    {
        self.modules.insert(id, module);
        proof {
            let before = old(self).modules;
            let after = self.modules;
            let n = before.keys().len() as int;
            after.lemma_get_at(n);
            assert forall|k: Seq<char>| before.contains(k) implies after.contains(k) && after.get(k)
                == before.get(k) by {
                let i = before.keys().index_of(k);
                before.lemma_get_at(i);
                after.lemma_get_at(i);
            }
            assert forall|k: Seq<char>| after.contains(k) implies before.contains(k) || k == id@ by {
                let i = after.keys().index_of(k);
                if i < n {
                    assert(before.keys()[i] == k);
                }
            }
            assert(self.links() =~= old(self).links().insert(id@, module.targets()));
        }
    }
}

} // verus!
