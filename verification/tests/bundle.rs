use boa_engine::{Context, Source};
use module_bundler::builder::{build as build_from_texts, BuildStep, GraphBuilder};
use module_bundler::table::StringMap;
use module_bundler::context::CompileContext;
use module_bundler::error::CompileError;
use module_bundler::graph::ModuleGraph;
use module_bundler::resolve::resolve;
use module_bundler::runtime::{generate, RUNTIME_PREAMBLE};
use std::io::Write;

struct Project {
    dir: tempfile::TempDir,
    files: Vec<tempfile::NamedTempFile>,
    folders: Vec<tempfile::TempDir>,
    sources: Vec<(String, String)>,
}

fn project() -> Project {
    Project { dir: tempfile::tempdir().unwrap(), files: vec![], folders: vec![], sources: vec![] }
}

fn root_of(p: &Project) -> String {
    p.dir.path().to_string_lossy().to_string()
}

fn add_folder(p: &mut Project, name: &str) {
    let folder = tempfile::Builder::new().prefix(name).rand_bytes(0).tempdir_in(p.dir.path()).unwrap();
    p.folders.push(folder);
}

fn add_file(p: &mut Project, relative: &str, text: &str) -> String {
    let path = p.dir.path().join(relative);
    let stem = path.file_stem().unwrap().to_string_lossy().to_string();
    let mut file = tempfile::Builder::new()
        .prefix(&stem)
        .suffix(".ts")
        .rand_bytes(0)
        .tempfile_in(path.parent().unwrap())
        .unwrap();
    file.write_all(text.as_bytes()).unwrap();
    file.flush().unwrap();
    p.files.push(file);
    let id = path.to_string_lossy().to_string();
    p.sources.push((id.clone(), text.to_string()));
    id
}

fn build(p: &Project, ctx: &mut CompileContext, loads: &mut Vec<String>) -> Result<(ModuleGraph, String), CompileError> {
    let mut builder = GraphBuilder::start(ctx)?;
    loop {
        match builder.step() {
            BuildStep::Load(pending) => {
                let id = pending.id().clone();
                loads.push(id.clone());
                let text = match p.sources.iter().find(|(path, _)| *path == id) {
                    Some((_, text)) => text.clone(),
                    None => return Err(CompileError::Load { module: id }),
                };
                builder = pending.provide(text, ctx)?;
            }
            BuildStep::Done(graph, entry) => return Ok((graph, entry)),
        }
    }
}

fn ids_of(graph: &ModuleGraph) -> Vec<String> {
    (0..graph.len()).map(|i| graph.modules.key_at(i).clone()).collect()
}

fn deps_of(graph: &ModuleGraph, id: &str) -> Vec<(String, String)> {
    let module = graph.get(&id.to_string()).unwrap();
    (0..module.deps.len())
        .map(|i| (module.deps.key_at(i).clone(), module.deps.value_at(i).clone()))
        .collect()
}

fn sorted(mut ids: Vec<String>) -> Vec<String> {
    ids.sort();
    ids
}

#[test]
fn single_import_gives_two_modules_and_a_bundle_that_requires_the_entry() {
    let mut p = project();
    let index = add_file(&mut p, "index.ts", "import {x} from './a';\nconsole.log(x);\n");
    let a = add_file(&mut p, "a.ts", "export const x = 42;\n");
    let mut ctx = CompileContext::new(root_of(&p));
    assert_eq!(ctx.entry_path(), index);
    let mut loads = vec![];
    let (graph, entry) = build(&p, &mut ctx, &mut loads).unwrap();
    assert_eq!(graph.len(), 2);
    assert_eq!(ids_of(&graph), vec![index.clone(), a.clone()]);
    assert_eq!(deps_of(&graph, &index), vec![("./a".to_string(), a.clone())]);
    assert_eq!(deps_of(&graph, &a), vec![]);
    let text = generate(graph, &entry).unwrap();
    let expected = format!(
        "{}\ndefine('{}', function (module, exports, require) {{\n\"use strict\";\nObject.defineProperty(exports, \"__esModule\", {{\n    value: true\n}});\nvar _ats = require(\"{}\");\nconsole.log(_ats.x);\n\n}});\ndefine('{}', function (module, exports, require) {{\n\"use strict\";\nObject.defineProperty(exports, \"__esModule\", {{\n    value: true\n}});\nObject.defineProperty(exports, \"x\", {{\n    enumerable: true,\n    get: function() {{\n        return x;\n    }}\n}});\nconst x = 42;\n\n}});\nrequireModule('{}');",
        RUNTIME_PREAMBLE, index, a, a, index
    );
    assert_eq!(text, expected);
}

#[test]
fn acyclic_graph_holds_exactly_what_the_entry_reaches() {
    let mut p = project();
    let index = add_file(&mut p, "index.ts", "import {a} from './a';\nimport {b} from './b';\nconsole.log(a, b);\n");
    let a = add_file(&mut p, "a.ts", "import {c} from './c';\nexport const a = c + 1;\n");
    let b = add_file(&mut p, "b.ts", "import {c} from './c';\nexport const b = c + 2;\n");
    let c = add_file(&mut p, "c.ts", "export const c = 0;\n");
    let _unused = add_file(&mut p, "unused.ts", "export const u = 0;\n");
    let mut ctx = CompileContext::new(root_of(&p));
    let mut loads = vec![];
    let (graph, entry) = build(&p, &mut ctx, &mut loads).unwrap();
    assert_eq!(graph.len(), 4);
    assert_eq!(sorted(ids_of(&graph)), sorted(vec![index.clone(), a.clone(), b.clone(), c.clone()]));
    assert_eq!(loads, ids_of(&graph));
    assert_eq!(deps_of(&graph, &index), vec![("./a".to_string(), a.clone()), ("./b".to_string(), b.clone())]);
    assert_eq!(deps_of(&graph, &a), vec![("./c".to_string(), c.clone())]);
    assert_eq!(deps_of(&graph, &b), vec![("./c".to_string(), c.clone())]);
}

#[test]
fn modules_are_loaded_last_discovered_first() {
    let mut p = project();
    let index = add_file(&mut p, "index.ts", "import {a} from './a';\nimport {b} from './b';\n");
    let a = add_file(&mut p, "a.ts", "export const a = 1;\n");
    let b = add_file(&mut p, "b.ts", "export const b = 2;\n");
    let mut ctx = CompileContext::new(root_of(&p));
    let mut loads = vec![];
    let (graph, entry) = build(&p, &mut ctx, &mut loads).unwrap();
    assert_eq!(loads, vec![index.clone(), b.clone(), a.clone()]);
    assert_eq!(ids_of(&graph), vec![index, b, a]);
}

#[test]
fn import_cycle_ends_with_each_module_once() {
    let mut p = project();
    let a = add_file(&mut p, "index.ts", "import {b} from './b';\nexport const a = 1;\nconsole.log(b);\n");
    let b = add_file(&mut p, "b.ts", "import {a} from './index';\nexport const b = 2;\nconsole.log(a);\n");
    let mut ctx = CompileContext::new(root_of(&p));
    let mut loads = vec![];
    let (graph, entry) = build(&p, &mut ctx, &mut loads).unwrap();
    assert_eq!(loads, vec![a.clone(), b.clone()]);
    assert_eq!(ids_of(&graph), vec![a.clone(), b.clone()]);
    assert_eq!(deps_of(&graph, &a), vec![("./b".to_string(), b.clone())]);
    assert_eq!(deps_of(&graph, &b), vec![("./index".to_string(), a.clone())]);
    let text = generate(graph, &entry).unwrap();
    assert_eq!(text.matches("define('").count(), 2);
    assert!(text.contains(&format!("define('{}', function (module, exports, require) {{\n", a)));
    assert!(text.contains(&format!("define('{}', function (module, exports, require) {{\n", b)));
    assert!(text.contains(&format!("require(\"{}\")", a)));
    assert!(text.contains(&format!("require(\"{}\")", b)));
    assert!(text.ends_with(&format!("requireModule('{}');", a)));
}

#[test]
fn module_that_imports_itself_is_taken_once() {
    let mut p = project();
    let index = add_file(&mut p, "index.ts", "import {x} from './index';\nexport const x = 1;\n");
    let mut ctx = CompileContext::new(root_of(&p));
    let mut loads = vec![];
    let (graph, entry) = build(&p, &mut ctx, &mut loads).unwrap();
    assert_eq!(loads, vec![index.clone()]);
    assert_eq!(ids_of(&graph), vec![index]);
}

#[test]
fn two_specifiers_for_one_file_give_one_module() {
    let mut p = project();
    add_folder(&mut p, "lib");
    let index = add_file(&mut p, "index.ts", "import {a} from './lib/a';\nimport {s} from './shared';\nconsole.log(a, s);\n");
    let a = add_file(&mut p, "lib/a.ts", "import {s} from '../shared';\nexport const a = s;\n");
    let shared = add_file(&mut p, "shared.ts", "export const s = 7;\n");
    let mut ctx = CompileContext::new(root_of(&p));
    let mut loads = vec![];
    let (graph, entry) = build(&p, &mut ctx, &mut loads).unwrap();
    assert_eq!(graph.len(), 3);
    assert_eq!(sorted(ids_of(&graph)), sorted(vec![index.clone(), a.clone(), shared.clone()]));
    assert_eq!(loads.iter().filter(|id| **id == shared).count(), 1);
    assert_eq!(deps_of(&graph, &index), vec![("./lib/a".to_string(), a.clone()), ("./shared".to_string(), shared.clone())]);
    assert_eq!(deps_of(&graph, &a), vec![("../shared".to_string(), shared.clone())]);
    assert_eq!(resolve(&index, &"./shared".to_string()), resolve(&a, &"../shared".to_string()));
}

#[test]
fn repeated_specifier_is_recorded_once() {
    let mut p = project();
    let index = add_file(&mut p, "index.ts", "import {x} from './a';\nimport {y} from './a';\nconsole.log(x, y);\n");
    let a = add_file(&mut p, "a.ts", "export const x = 1;\nexport const y = 2;\n");
    let mut ctx = CompileContext::new(root_of(&p));
    let mut loads = vec![];
    let (graph, entry) = build(&p, &mut ctx, &mut loads).unwrap();
    assert_eq!(deps_of(&graph, &index), vec![("./a".to_string(), a.clone())]);
    assert_eq!(ids_of(&graph), vec![index, a]);
}

#[test]
fn missing_dependency_fails_with_importer_and_specifier() {
    let mut p = project();
    let index = add_file(&mut p, "index.ts", "import {x} from './missing';\nconsole.log(x);\n");
    let mut ctx = CompileContext::new(root_of(&p));
    let mut loads = vec![];
    let outcome = build(&p, &mut ctx, &mut loads);
    match outcome {
        Err(e) => assert_eq!(
            e,
            CompileError::Resolution { importer: index.clone(), specifier: "./missing".to_string() }
        ),
        Ok(_) => panic!("a build with a missing dependency succeeded"),
    }
    assert_eq!(loads, vec![index]);
}

#[test]
fn first_unresolved_specifier_in_source_order_is_reported() {
    let mut p = project();
    let index = add_file(&mut p, "index.ts", "import {a} from './a';\nimport {x} from './first';\nimport {y} from './second';\n");
    let _a = add_file(&mut p, "a.ts", "export const a = 1;\n");
    let mut ctx = CompileContext::new(root_of(&p));
    let mut loads = vec![];
    match build(&p, &mut ctx, &mut loads) {
        Err(e) => assert_eq!(
            e,
            CompileError::Resolution { importer: index.clone(), specifier: "./first".to_string() }
        ),
        Ok(_) => panic!("a build with missing dependencies succeeded"),
    }
}

#[test]
fn syntax_error_in_a_dependency_names_that_dependency() {
    let mut p = project();
    let index = add_file(&mut p, "index.ts", "import {x} from './broken';\n");
    let broken = add_file(&mut p, "broken.ts", "export const = ;\n");
    let mut ctx = CompileContext::new(root_of(&p));
    let mut loads = vec![];
    match build(&p, &mut ctx, &mut loads) {
        Err(e) => assert_eq!(e, CompileError::Parse { module: broken }),
        Ok(_) => panic!("a build with a syntax error succeeded"),
    }
}

#[test]
fn module_without_imports_is_a_graph_of_one() {
    let mut p = project();
    let index = add_file(&mut p, "index.ts", "console.log(1);\n");
    let mut ctx = CompileContext::new(root_of(&p));
    let mut loads = vec![];
    let (graph, entry) = build(&p, &mut ctx, &mut loads).unwrap();
    assert_eq!(ids_of(&graph), vec![index.clone()]);
    let text = generate(graph, &entry).unwrap();
    assert!(text.starts_with(RUNTIME_PREAMBLE));
    assert!(text.ends_with(&format!("\n}});\nrequireModule('{}');", index)));
}

#[test]
fn resolver_gives_the_same_identifier_twice() {
    let mut p = project();
    let index = add_file(&mut p, "index.ts", "import {x} from './a';\n");
    let a = add_file(&mut p, "a.ts", "export const x = 42;\n");
    let first = resolve(&index, &"./a".to_string());
    let second = resolve(&index, &"./a".to_string());
    assert_eq!(first, Ok(a));
    assert_eq!(first, second);
}

fn run(bundle: &str) -> Result<String, String> {
    let script = format!(
        "var __lines = [];\nvar console = {{ log: function () {{ __lines.push(Array.prototype.slice.call(arguments).join(' ')); }} }};\n{}\n__lines.join('\\n');",
        bundle
    );
    let mut context = Context::default();
    match context.eval(Source::from_bytes(script.as_bytes())) {
        Ok(value) => match value.to_string(&mut context) {
            Ok(text) => Ok(text.to_std_string_escaped()),
            Err(e) => Err(e.to_string()),
        },
        Err(e) => Err(e.to_string()),
    }
}

fn bundle_of(p: &Project) -> String {
    let mut ctx = CompileContext::new(root_of(p));
    let mut loads = vec![];
    let (graph, entry) = build(p, &mut ctx, &mut loads).unwrap();
    generate(graph, &entry).unwrap()
}

#[test]
fn bundle_of_entry_and_import_prints_42_when_run() {
    let mut p = project();
    let index = add_file(&mut p, "index.ts", "import {x} from './a';\nconsole.log(x);\n");
    let _a = add_file(&mut p, "a.ts", "export const x = 42;\n");
    assert_eq!(run(&bundle_of(&p)), Ok("42".to_string()));
}

#[test]
fn bundle_with_an_import_cycle_runs_to_the_end() {
    let mut p = project();
    let index = add_file(
        &mut p,
        "index.ts",
        "import {b} from './b';\nexport var a = 1;\nconsole.log('a sees ' + b);\n",
    );
    let _b = add_file(
        &mut p,
        "b.ts",
        "import {a} from './index';\nexport var b = 2;\nconsole.log('b sees ' + a);\n",
    );
    assert_eq!(run(&bundle_of(&p)), Ok("b sees undefined\na sees 2".to_string()));
}

#[test]
fn each_factory_runs_once_however_often_its_module_is_imported() {
    let mut p = project();
    let index = add_file(
        &mut p,
        "index.ts",
        "import {a} from './a';\nimport {b} from './b';\nconsole.log(a + b);\n",
    );
    let _a = add_file(&mut p, "a.ts", "import {c} from './c';\nexport const a = c + 1;\n");
    let _b = add_file(&mut p, "b.ts", "import {c} from './c';\nexport const b = c + 2;\n");
    let _c = add_file(&mut p, "c.ts", "console.log('c ran');\nexport const c = 10;\n");
    assert_eq!(run(&bundle_of(&p)), Ok("c ran\n23".to_string()));
}

#[test]
fn requiring_a_module_that_was_never_defined_fails_when_run() {
    let text = format!("{}\nrequireModule('/nowhere.ts');", RUNTIME_PREAMBLE);
    match run(&text) {
        Err(message) => assert!(message.contains("Module '/nowhere.ts' does not exist.")),
        Ok(_) => panic!("an undefined module was required without an error"),
    }
}

#[test]
fn entry_is_taken_under_the_identifier_of_the_resolver() {
    let mut p = project();
    let index = add_file(&mut p, "index.ts", "import {b} from './b';\nexport var a = 1;\n");
    let b = add_file(&mut p, "b.ts", "import {a} from './index';\nexport var b = a;\n");
    let mut ctx = CompileContext::new(format!("{}/.", root_of(&p)));
    assert_eq!(ctx.entry_path(), format!("{}/./index.ts", root_of(&p)));
    let mut loads = vec![];
    let (graph, entry) = build(&p, &mut ctx, &mut loads).unwrap();
    assert_eq!(entry, index);
    assert_eq!(ids_of(&graph), vec![index.clone(), b.clone()]);
    assert_eq!(loads, vec![index.clone(), b]);
    let text = generate(graph, &entry).unwrap();
    assert!(text.ends_with(&format!("requireModule('{}');", index)));
}

#[test]
fn project_without_an_entry_module_cannot_be_taken_in() {
    let p = project();
    let ctx = CompileContext::new(root_of(&p));
    match GraphBuilder::start(&ctx) {
        Err(e) => assert_eq!(e, CompileError::Load { module: format!("{}/index.ts", root_of(&p)) }),
        Ok(_) => panic!("a build without an entry module started"),
    }
}

#[test]
fn bundle_requires_an_entry_that_it_defines() {
    let mut p = project();
    let index = add_file(&mut p, "index.ts", "import {x} from './a';\nconsole.log(x);\n");
    let _a = add_file(&mut p, "a.ts", "export const x = 1;\n");
    let mut ctx = CompileContext::new(root_of(&p));
    let mut loads = vec![];
    let (graph, entry) = build(&p, &mut ctx, &mut loads).unwrap();
    assert!(graph.contains_key(&entry));
    let text = generate(graph, &entry).unwrap();
    assert!(text.contains(&format!("define('{}', function (module, exports, require) {{\n", index)));
    assert!(text.ends_with(&format!("requireModule('{}');", index)));
}

fn texts_of(p: &Project) -> StringMap<String> {
    let mut texts = StringMap::new();
    for (id, text) in &p.sources {
        texts.insert(id.clone(), text.clone());
    }
    texts
}

#[test]
fn build_from_texts_ends_with_what_the_entry_reaches() {
    let mut p = project();
    let index = add_file(&mut p, "index.ts", "import {a} from './a';\nimport {b} from './b';\nconsole.log(a, b);\n");
    let a = add_file(&mut p, "a.ts", "import {c} from './c';\nexport const a = c + 1;\n");
    let b = add_file(&mut p, "b.ts", "import {c} from './c';\nexport const b = c + 2;\n");
    let c = add_file(&mut p, "c.ts", "export const c = 0;\n");
    let _unused = add_file(&mut p, "unused.ts", "export const u = 0;\n");
    let mut ctx = CompileContext::new(root_of(&p));
    let (graph, entry) = build_from_texts(&mut ctx, &texts_of(&p)).unwrap();
    assert_eq!(entry, index);
    assert_eq!(ids_of(&graph), vec![index, b, c, a]);
}

#[test]
fn build_from_texts_ends_on_an_import_cycle() {
    let mut p = project();
    let index = add_file(&mut p, "index.ts", "import {b} from './b';\nexport var a = 1;\n");
    let b = add_file(&mut p, "b.ts", "import {a} from './index';\nexport var b = a;\n");
    let mut ctx = CompileContext::new(root_of(&p));
    let (graph, entry) = build_from_texts(&mut ctx, &texts_of(&p)).unwrap();
    assert_eq!(ids_of(&graph), vec![index.clone(), b]);
    assert_eq!(run(&generate(graph, &entry).unwrap()), Ok(String::new()));
}

#[test]
fn build_from_texts_fails_where_a_text_is_missing() {
    let mut p = project();
    let _index = add_file(&mut p, "index.ts", "import {a} from './a';\n");
    let a = add_file(&mut p, "a.ts", "export const a = 1;\n");
    let mut texts = StringMap::new();
    texts.insert(p.sources[0].0.clone(), p.sources[0].1.clone());
    let mut ctx = CompileContext::new(root_of(&p));
    match build_from_texts(&mut ctx, &texts) {
        Err(e) => assert_eq!(e, CompileError::Load { module: a }),
        Ok(_) => panic!("a build without the text of a module succeeded"),
    }
}
