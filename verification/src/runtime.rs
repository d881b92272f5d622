//! The generate stage: from a complete module graph to the text of the
//! bundle.
//!
//! A bundle is one script. It opens with a small loader, registers one
//! factory per module under the module's identifier, and ends by requiring
//! the entry. The loader keeps a cache of module records and enters a record
//! in it before it runs the factory, so that a module that is required
//! again while it is still running, as happens in an import cycle, gets the
//! exports it has filled so far.

use crate::error::CompileError;
use crate::graph::ModuleGraph;
use crate::syntax::{ast_to_code, replace_deps, transform_again};
use crate::table::StringMap;
use vstd::prelude::*;
use vstd::string::*;

verus! {

/// The loader that every bundle opens with: a registry of factories with
/// `define`, a cache of module records, and `requireModule`, which answers
/// from the cache, fails for a name that was never defined, and otherwise
/// caches a new record before it calls the factory.
pub const RUNTIME_PREAMBLE: &'static str =
    "\nconst modules = new Map();\nconst define = (name, moduleFactory) => {\n  modules.set(name, moduleFactory);\n};\n\nconst moduleCache = new Map();\nconst requireModule = (name) => {\n  if (moduleCache.has(name)) {\n    return moduleCache.get(name).exports;\n  }\n\n  if (!modules.has(name)) {\n    throw new Error(`Module '${name}' does not exist.`);\n  }\n\n  const moduleFactory = modules.get(name);\n  const module = {\n    exports: {},\n  };\n  moduleCache.set(name, module);\n  moduleFactory(module, module.exports, requireModule);\n  return module.exports;\n};\n        ";

/// The registration of one module: its code as the body of a factory, under
/// its identifier.
pub open spec fn define_text(id: Seq<char>, code: Seq<char>) -> Seq<char> {
    "define('"@ + id + "', function (module, exports, require) {\n"@ + code + "\n});"@
}

/// The call that starts the program: the entry is required.
pub open spec fn bootstrap_text(entry: Seq<char>) -> Seq<char> {
    "requireModule('"@ + entry + "');"@
}

/// The registrations of the modules `ids` with the code `codes`, in order,
/// each followed by a line end.
pub open spec fn defines_text(ids: Seq<Seq<char>>, codes: Seq<String>) -> Seq<char>
    decreases ids.len(),
{
    if ids.len() == 0 {
        Seq::empty()
    } else {
        defines_text(ids.drop_last(), codes.drop_last()) + define_text(ids.last(), codes.last()@)
            + "\n"@
    }
}

/// The whole bundle: the loader, a line end, the registrations, the
/// bootstrap call.
pub open spec fn bundle_text(ids: Seq<Seq<char>>, codes: Seq<String>, entry: Seq<char>) -> Seq<char> {
    RUNTIME_PREAMBLE@ + "\n"@ + defines_text(ids, codes) + bootstrap_text(entry)
}

/// The generated code of every module, keyed by identifier, in the order of
/// the graph.
pub struct Runtime {
    pub modules: StringMap<String>,
}

impl Runtime {
    /// A table without modules.
    pub fn new() -> (runtime: Self)
        ensures
            runtime.modules.wf(),
            runtime.modules.keys() == Seq::<Seq<char>>::empty(),
            runtime.modules.values() == Seq::<String>::empty(),
    {
        Runtime { modules: StringMap::new() }
    }

    /// The text of the bundle that starts at the module `entry`. The
    /// registrations come in the order of the table, so the same table gives
    /// the same text.
    pub fn render(&self, entry: &String) -> (text: String)
        requires
            self.modules.wf(),
        ensures
            text@ == bundle_text(self.modules.keys(), self.modules.values(), entry@),
    {
        let ghost ids = self.modules.keys();
        let ghost codes = self.modules.values();
        let mut text = String::from_str(RUNTIME_PREAMBLE);
        text.append("\n");
        let ghost head = text@;
        let count = self.modules.len();
        let mut i: usize = 0;
        assert(text@ =~= head + defines_text(ids.take(0), codes.take(0)));
        while i < count
            invariant
                self.modules.wf(),
                ids == self.modules.keys(),
                codes == self.modules.values(),
                count == ids.len(),
                i <= count,
                text@ == head + defines_text(ids.take(i as int), codes.take(i as int)),
            decreases count - i,
        {
            let ghost before = text@;
            let id = self.modules.key_at(i);
            let code = self.modules.value_at(i);
            text.append("define('");
            text.append(id.as_str());
            text.append("', function (module, exports, require) {\n");
            text.append(code.as_str());
            text.append("\n});");
            text.append("\n");
            proof {
                assert(ids.take(i as int + 1).drop_last() =~= ids.take(i as int));
                assert(codes.take(i as int + 1).drop_last() =~= codes.take(i as int));
                assert(ids.take(i as int + 1).last() == ids[i as int]);
                assert(codes.take(i as int + 1).last() == codes[i as int]);
                assert(text@ =~= before + define_text(id@, code@) + "\n"@);
                assert(text@ =~= head + defines_text(
                    ids.take(i as int + 1),
                    codes.take(i as int + 1),
                ));
            }
            i += 1;
        }
        assert(ids.take(i as int) =~= ids);
        assert(codes.take(i as int) =~= codes);
        let ghost body = text@;
        text.append("requireModule('");
        text.append(entry.as_str());
        text.append("');");
        assert(text@ =~= body + bootstrap_text(entry@));
        assert(text@ =~= bundle_text(ids, codes, entry@));
        text
    }
}

/// Generates the bundle for a finished build: the graph, which it uses up,
/// and the identifier of the entry, which is a module of the graph. Module by
/// module, in the order of the graph: the import sources are rewritten to
/// the identifiers they resolved to, the interop rewrite runs, and the tree
/// is printed. The text that comes back registers every module of the graph
/// under its identifier and requires the entry, which is one of them. The
/// first failure ends the stage, and the error names the module.
pub fn generate(graph: ModuleGraph, entry: &String) -> (bundle: Result<String, CompileError>)
    requires
        graph.wf(),
        graph.contains(entry@),
    ensures
        match bundle {
            Ok(text) => exists|codes: Seq<String>|
                codes.len() == graph.ids().len() && text@ == #[trigger] bundle_text(
                    graph.ids(),
                    codes,
                    entry@,
                ),
            Err(e) => match e {
                CompileError::Transform { module } => graph.contains(module@),
                CompileError::Emit { module } => graph.contains(module@),
                _ => false,
            },
        },
{
    let ghost ids = graph.ids();
    let mut work = graph;
    let mut runtime = Runtime::new();
    let count = work.modules.len();
    let mut i: usize = 0;
    while i < count
        invariant
            work.wf(),
            work.ids() == ids,
            graph.ids() == ids,
            count == ids.len(),
            i <= count,
            runtime.modules.wf(),
            runtime.modules.keys() == ids.take(i as int),
        decreases count - i,
    {
        let id = work.modules.key_at(i).clone();
        assert(ids[i as int] == id@);
        assert(graph.contains(id@));
        let module = work.modules.value_at_mut(i);
        assert(module.wf());
        replace_deps(&mut module.ast, &module.deps);
        match transform_again(&mut module.ast, &id) {
            Ok(()) => {},
            Err(e) => {
                return Err(e);
            },
        }
        let code = match ast_to_code(&module.ast, &id) {
            Ok(code) => code,
            Err(e) => {
                return Err(e);
            },
        };
        proof {
            if runtime.modules.contains(id@) {
                let j = choose|j: int| 0 <= j < i && ids.take(i as int)[j] == id@;
                assert(ids[j] == ids[i as int]);
            }
            assert(ids.take(i as int + 1) =~= ids.take(i as int).push(id@));
        }
        runtime.modules.insert(id, code);
        i += 1;
    }
    assert(ids.take(i as int) =~= ids);
    Ok(runtime.render(entry))
}

} // verus!
