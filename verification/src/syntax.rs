//! Syntax trees: parsing, the two transform stages, reading and rewriting
//! import declarations, and printing.
//!
//! The tree itself belongs to the parser crate and is opaque here. What the
//! bundler reads from it is the row of top-level items, each either an import
//! declaration with its source specifier or something else.
//!
//! A tree is only good together with the registry that holds its text, the
//! comment store that holds its comments and the arena that holds its marks.
//! So a tree keeps its own handle on each of them from the moment it is
//! parsed, and every later stage works with those.

use crate::context::{CompileContext, POSITION_LIMIT};
use crate::error::CompileError;
use crate::table::StringMap;
use swc_core::common::errors::{Handler, HANDLER};
use swc_core::common::sync::Lrc;
use swc_core::common::{FileName, Globals, Mark, SourceMap, GLOBALS};
use swc_core::ecma::ast::Module as SwcModule;
use swc_core::ecma::ast::{EsVersion, ModuleDecl, ModuleItem, Pass, Program, Str};
use swc_core::ecma::codegen::text_writer::JsWriter;
use swc_core::ecma::codegen::Config as EmitOptions;
use swc_core::ecma::codegen::Emitter;
use swc_core::ecma::parser::error::Error as ParseFailure;
use swc_core::ecma::parser::lexer::Lexer;
use swc_core::ecma::parser::{Parser, StringInput, Syntax};
use swc_core::ecma::preset_env::Config as EnvOptions;
use swc_core::ecma::preset_env::{transform_from_env, BrowserData, EnvConfig, Targets, Version};
use swc_core::ecma::transforms::base::helpers::{inject_helpers, Helpers, HELPERS};
use swc_core::ecma::transforms::base::resolver;
use swc_core::ecma::transforms::module::common_js;
use swc_node_comments::SwcComments;
use vstd::prelude::*;

verus! {

/// The syntax tree of a module, as the parser crate builds it. Opaque here.
#[verifier::external_type_specification]
#[verifier::external_body]
pub struct ExModule(SwcModule);

/// The error of the parser. Opaque here.
#[verifier::external_type_specification]
#[verifier::external_body]
pub struct ExParseError(ParseFailure);

/// The record of runtime helpers that transform passes ask for. Opaque here.
#[verifier::external_type_specification]
#[verifier::external_body]
pub struct ExHelpers(Helpers);

/// The collector of diagnostics that transform passes report to. Opaque here.
#[verifier::external_type_specification]
#[verifier::external_body]
pub struct ExHandler(Handler);

/// The error of an input or output operation. Opaque here.
#[verifier::external_type_specification]
#[verifier::external_body]
pub struct ExIoError(std::io::Error);

/// The error of a conversion from bytes that are not UTF-8. Opaque here.
#[verifier::external_type_specification]
#[verifier::external_body]
pub struct ExFromUtf8Error(std::string::FromUtf8Error);

/// The runtime that the build-time normalization levels down to: Node 18.
pub const TARGET_NODE_MAJOR: u32 = 18;

/// The minor version of the target runtime.
pub const TARGET_NODE_MINOR: u32 = 0;

/// The patch version of the target runtime.
pub const TARGET_NODE_PATCH: u32 = 0;

/// What a module body holds, item by item and in source order: for an import
/// declaration its source specifier, for any other item `None`.
pub uninterp spec fn top_level_imports(module: SwcModule) -> Seq<
    Option<Seq<char>>,
>;

/// What `Parser::parse_module` makes of the text `code`, read as an
/// ECMAScript module of the latest version: `None` where it refuses the text
/// as a syntax error, and otherwise the top-level items of the tree it
/// builds, as `top_level_imports` gives them.
pub uninterp spec fn parsed_imports(code: Seq<char>) -> Option<Seq<Option<Seq<char>>>>;

/// A tree with the registry it was parsed into, the comment store that took
/// its comments and the arena that its marks come from. Only parsing makes
/// one, so the four always belong together.
pub struct Tree {
    module: SwcModule,
    cm: Lrc<SourceMap>,
    comments: SwcComments,
    globals: Lrc<Globals>,
}

impl Tree {
    /// The top-level items of the tree in source order: the source specifier
    /// of each import declaration, `None` for every other item.
    pub closed spec fn imports(&self) -> Seq<Option<Seq<char>>> {
        top_level_imports(self.module)
    }
}

/// Parses `code` as an ECMAScript module, after entering it in the source
/// registry of the context under the custom file name `path`:
/// `SourceMap::new_source_file`, `Lexer::new`, `Parser::new_from` and
/// `Parser::parse_module`. The tree comes back with handles on the registry,
/// the comment store and the arena of the context.
///
/// The registry places the text behind the texts it holds and cuts positions
/// to 32 bits, and `StringInput::new` asserts that the text does not end
/// before it starts. The context counts the positions that its registry has
/// given out, and the text must fit under the limit.
///
/// The parser reads the text and nothing else: the file name goes to the
/// registry, the registry only places the text, and the comment store only
/// receives. So whether the text is accepted, and which top-level items the
/// tree then holds, is what `parsed_imports` names for the text. A syntax
/// error comes back as the parser's own error.
#[verifier::external_body]
fn parse_module_text(code: String, path: &String, ctx: &CompileContext) -> (parsed: Result<
    Tree,
    ParseFailure,
>)
    requires
        ctx.has_room(code@),
    ensures
        match parsed {
            Ok(tree) => parsed_imports(code@) == Some(tree.imports()),
            Err(_) => parsed_imports(code@) is None,
        },
{
    let file = ctx.cm.new_source_file(FileName::Custom(path.clone()).into(), code);
    let lexer = Lexer::new(
        Syntax::Es(Default::default()),
        EsVersion::latest(),
        StringInput::from(&*file),
        Some(&ctx.comments),
    );
    let module = Parser::new_from(lexer).parse_module()?;
    Ok(Tree { module, cm: ctx.cm.clone(), comments: ctx.comments.clone(), globals: ctx.globals.clone() })
}

/// `Mark::new()` inside `GLOBALS.set`, with the arena of the tree: a fresh
/// mark, handed out as the number that `Mark::as_u32` gives. The arena
/// starts with the root mark, which is the number 0, and a new mark is the
/// place of the entry just added, so it is not the root mark.
#[verifier::external_body]
fn fresh_mark(tree: &Tree) -> (mark: u32)
    ensures
        mark != 0,
{
    GLOBALS.set(&tree.globals, || Mark::new().as_u32())
}

/// `Helpers::new(true)` inside `GLOBALS.set`, with the arena of the tree: an
/// empty record of the runtime helpers that passes ask for, set to import
/// them rather than to inline them. The record takes a mark of its own from
/// the arena.
#[verifier::external_body]
fn fresh_helpers(tree: &Tree) -> Helpers {
    GLOBALS.set(&tree.globals, || Helpers::new(true))
}

/// `Handler::with_emitter_writer` over `std::io::sink()` and no source map: a
/// collector of diagnostics that counts them and prints nothing.
#[verifier::external_body]
fn fresh_handler() -> Handler {
    Handler::with_emitter_writer(Box::new(std::io::sink()), None)
}

/// `Handler::has_errors`: whether an error was reported to the collector.
#[verifier::external_body]
fn has_errors(handler: &Handler) -> bool {
    handler.has_errors()
}

/// Runs the pass made by `resolver(unresolved, top_level, false)` over the
/// tree, with `GLOBALS` set to its arena and `HELPERS` and `HANDLER` set.
/// `resolver` and `SyntaxContext::apply_mark` assert that a mark is not the
/// root mark, which is the number 0. Nothing is claimed of the tree.
#[verifier::external_body]
fn run_resolver(
    tree: &mut Tree,
    unresolved: u32,
    top_level: u32,
    helpers: &Helpers,
    handler: &Handler,
)
    requires
        unresolved != 0,
        top_level != 0,
{
    let mut program = Program::Module(std::mem::take(&mut tree.module));
    GLOBALS.set(&tree.globals, || HELPERS.set(helpers, || HANDLER.set(handler, || {
        resolver(Mark::from_u32(unresolved), Mark::from_u32(top_level), false).process(&mut program)
    })));
    if let Program::Module(done) = program {
        tree.module = done;
    }
}

/// Runs the pass made by `transform_from_env` over the tree, with default
/// assumptions and a configuration that is the default but for its targets,
/// which are the one Node version given as `Targets::Versions`. With targets
/// given as versions `EnvConfig::from` looks nothing up. `GLOBALS` is set to
/// the arena of the tree, and `HELPERS` and `HANDLER` are set. The pass
/// applies `unresolved` to a syntax context, which asserts that it is not the
/// root mark. Nothing is claimed of the tree.
#[verifier::external_body]
fn run_preset_env(
    tree: &mut Tree,
    unresolved: u32,
    helpers: &Helpers,
    handler: &Handler,
    major: u32,
    minor: u32,
    patch: u32,
)
    requires
        unresolved != 0,
{
    let node = Some(Version { major, minor, patch });
    let targets = Some(Targets::Versions(BrowserData { node, ..Default::default() }));
    let mut program = Program::Module(std::mem::take(&mut tree.module));
    GLOBALS.set(&tree.globals, || HELPERS.set(helpers, || HANDLER.set(handler, || {
        let config = EnvConfig::from(EnvOptions { targets, ..Default::default() });
        transform_from_env(Mark::from_u32(unresolved), Some(&tree.comments), config, Default::default()).process(&mut program)
    })));
    if let Program::Module(done) = program {
        tree.module = done;
    }
}

/// Runs the pass made by `inject_helpers(unresolved)` over the tree, with
/// `GLOBALS` set to its arena and `HELPERS` and `HANDLER` set. Where a helper
/// is in use the pass applies `unresolved` to a syntax context, which asserts
/// that it is not the root mark. Nothing is claimed of the tree.
#[verifier::external_body]
fn run_inject_helpers(tree: &mut Tree, unresolved: u32, helpers: &Helpers, handler: &Handler)
    requires
        unresolved != 0,
{
    let mut program = Program::Module(std::mem::take(&mut tree.module));
    GLOBALS.set(&tree.globals, || HELPERS.set(helpers, || HANDLER.set(handler, || {
        inject_helpers(Mark::from_u32(unresolved)).process(&mut program)
    })));
    if let Program::Module(done) = program {
        tree.module = done;
    }
}

/// Runs the pass made by `common_js` over the tree, with the default path
/// resolver, the default configuration and no extra syntax features, and with
/// `GLOBALS` set to the arena of the tree and `HELPERS` and `HANDLER` set.
/// The pass applies `unresolved` to a syntax context, which asserts that it
/// is not the root mark. Nothing is claimed of the tree.
#[verifier::external_body]
fn run_common_js(tree: &mut Tree, unresolved: u32, helpers: &Helpers, handler: &Handler)
    requires
        unresolved != 0,
{
    let mut program = Program::Module(std::mem::take(&mut tree.module));
    GLOBALS.set(&tree.globals, || HELPERS.set(helpers, || HANDLER.set(handler, || {
        common_js(Default::default(), Mark::from_u32(unresolved), Default::default(), Default::default()).process(&mut program)
    })));
    if let Program::Module(done) = program {
        tree.module = done;
    }
}

/// The length of `Module::body`: the number of top-level items.
#[verifier::external_body]
fn item_count(module: &SwcModule) -> (count: usize)
    ensures
        count == top_level_imports(*module).len(),
{
    module.body.len()
}

/// Reads the item at `index` of `Module::body`: the text of `ImportDecl::src`
/// where the item is an import declaration, `None` where it is anything else.
/// That is the entry of `top_level_imports` at `index`.
#[verifier::external_body]
fn import_source_at(module: &SwcModule, index: usize) -> (source: Option<String>)
    requires
        index < top_level_imports(*module).len(),
    ensures
        source.deep_view() == top_level_imports(*module)[index as int],
{
    match &module.body[index] {
        ModuleItem::ModuleDecl(ModuleDecl::Import(import)) => Some(import.src.value.to_string_lossy().into_owned()),
        _ => None,
    }
}

/// Assigns `ImportDecl::src` of the import declaration at `index` of
/// `Module::body` a string literal made from `target` by `Str::from`. The item
/// now reads back as `target`; the other items are not touched.
#[verifier::external_body]
fn write_import_source(module: &mut SwcModule, index: usize, target: &String)
    requires
        index < top_level_imports(*old(module)).len(),
        top_level_imports(*old(module))[index as int] is Some,
    ensures
        top_level_imports(*final(module)) == top_level_imports(*old(module)).update(
            index as int,
            Some(target@),
        ),
{
    if let ModuleItem::ModuleDecl(ModuleDecl::Import(import)) = &mut module.body[index] {
        import.src = Box::new(Str::from(target.clone()));
    }
}

/// Prints the tree with `Emitter::emit_module` into a byte buffer, through a
/// `JsWriter` with `"\n"` line ends and the default configuration, with the
/// registry and the comment store of the tree. Where the printer looks up
/// the text behind a position of the tree, it finds it in the registry that
/// the tree was parsed into. Nothing is claimed of the bytes.
#[verifier::external_body]
fn emit_module_bytes(tree: &Tree) -> Result<Vec<u8>, std::io::Error> {
    let mut buf = Vec::new();
    let mut source_map_buf = Vec::new();
    let mut emitter = Emitter {
        cfg: EmitOptions::default(),
        cm: tree.cm.clone(),
        comments: Some(&tree.comments),
        wr: Box::new(JsWriter::new(tree.cm.clone(), "\n", &mut buf, Some(&mut source_map_buf))),
    };
    emitter.emit_module(&tree.module)?;
    drop(emitter);
    Ok(buf)
}

/// `String::from_utf8`: the bytes as a string where they are valid UTF-8, the
/// conversion error where they are not.
#[verifier::external_body]
fn string_from_utf8(bytes: Vec<u8>) -> (text: Result<String, std::string::FromUtf8Error>)
    ensures
        text is Ok <==> vstd::utf8::valid_utf8(bytes@),
        text matches Ok(s) ==> vstd::utf8::encode_utf8(s@) == bytes@,
{
    String::from_utf8(bytes)
}

/// `String::len`: the length of the text in bytes, which is the length of
/// its UTF-8 encoding.
#[verifier::external_body]
fn byte_length(text: &String) -> (len: usize)
    ensures
        len == vstd::utf8::encode_utf8(text@).len(),
{
    text.len()
}

/// A parsed module, with the two marks that its passes share: one for the
/// names that no declaration in the module binds, one for its top level. The
/// tree remembers which of the two transform stages it has been through, so
/// that neither runs on it a second time.
pub struct Ast {
    tree: Tree,
    unresolved_mark: u32,
    top_level_mark: u32,
    normalized: bool,
    runtime_form: bool,
}

impl Ast {
    /// The top-level items of the tree in source order: the source specifier
    /// of each import declaration, `None` for every other item.
    pub closed spec fn imports(&self) -> Seq<Option<Seq<char>>> {
        self.tree.imports()
    }

    /// The marks as numbers, the unresolved mark first.
    pub closed spec fn marks(&self) -> (u32, u32) {
        (self.unresolved_mark, self.top_level_mark)
    }

    /// Neither mark is the root mark of the arena, which is the number 0.
    pub open spec fn wf(&self) -> bool {
        self.marks().0 != 0 && self.marks().1 != 0
    }

    /// The build-time normalization has run on the tree.
    pub closed spec fn is_normalized(&self) -> bool {
        self.normalized
    }

    /// The generate-time interop rewrite has run on the tree.
    pub closed spec fn is_runtime_form(&self) -> bool {
        self.runtime_form
    }

    /// Whether the build-time normalization has run on the tree.
    pub fn normalized(&self) -> (done: bool)
        ensures
            done == self.is_normalized(),
    {
        self.normalized
    }

    /// Whether the generate-time interop rewrite has run on the tree.
    pub fn runtime_form(&self) -> (done: bool)
        ensures
            done == self.is_runtime_form(),
    {
        self.runtime_form
    }
}

/// The specifiers among `items`, in order, with the other items left out.
pub open spec fn listed_specifiers(items: Seq<Option<Seq<char>>>) -> Seq<Seq<char>>
    decreases items.len(),
{
    if items.len() == 0 {
        Seq::empty()
    } else {
        let before = listed_specifiers(items.drop_last());
        match items.last() {
            Some(specifier) => before.push(specifier),
            None => before,
        }
    }
}

/// `items` with each specifier that `deps` knows replaced by what `deps`
/// holds for it. Unknown specifiers and items that are no import stay.
pub open spec fn rewritten_imports(items: Seq<Option<Seq<char>>>, deps: StringMap<String>) -> Seq<
    Option<Seq<char>>,
> {
    Seq::new(
        items.len(),
        |i: int|
            match items[i] {
                Some(specifier) => if deps.contains(specifier) {
                    Some(deps.get(specifier)@)
                } else {
                    Some(specifier)
                },
                None => None,
            },
    )
}

/// What the compile makes of one answer of the parser for the module
/// `path`: the tree where there is one, and otherwise the error that names
/// the module.
pub fn parse_outcome(path: &String, answer: Result<Tree, ParseFailure>) -> (outcome: Result<
    Tree,
    CompileError,
>)
    ensures
        match answer {
            Ok(tree) => outcome == Ok::<Tree, CompileError>(tree),
            Err(_) => outcome matches Err(CompileError::Parse { module }) && module@ == path@,
        },
{
    match answer {
        Ok(tree) => Ok(tree),
        Err(_) => Err(CompileError::Parse { module: path.clone() }),
    }
}

/// Parses `code`, the text of the module `path`, into a bare tree. It
/// succeeds exactly on the texts that the parser accepts, and the tree then
/// holds the top-level items that the parser reads from the text.
fn code_to_ast(code: String, path: &String, ctx: &CompileContext) -> (tree: Result<
    Tree,
    CompileError,
>)
    requires
        ctx.has_room(code@),
    ensures
        match tree {
            Ok(tree) => parsed_imports(code@) == Some(tree.imports()),
            Err(e) => {
                &&& parsed_imports(code@) is None
                &&& e matches CompileError::Parse { module } && module@ == path@
            },
        },
{
    let answer = parse_module_text(code, path, ctx);
    parse_outcome(path, answer)
}

/// Parses `content`, the text of the module `path`, and gives the tree two
/// fresh marks of the context's arena.
///
/// A text for which the registry of the context has no room left is not
/// entered, and the error says that the module could not be taken in.
/// Otherwise the text is entered and counted, and the parse succeeds exactly
/// if the parser accepts the text. The tree that comes back holds the
/// top-level items that the parser reads from the text, and no transform
/// stage has run on it. A text that the parser refuses gives the error that
/// names the module.
pub fn parse(content: String, path: &String, ctx: &mut CompileContext) -> (ast: Result<
    Ast,
    CompileError,
>)
    ensures
        final(ctx).root_text() == old(ctx).root_text(),
        !old(ctx).has_room(content@) ==> {
            &&& final(ctx).entered() == old(ctx).entered()
            &&& ast matches Err(CompileError::Load { module }) && module@ == path@
        },
        old(ctx).has_room(content@) ==> {
            &&& final(ctx).entered() == old(ctx).entered() + vstd::utf8::encode_utf8(
                content@,
            ).len() + 1
            &&& match ast {
                Ok(tree) => {
                    &&& parsed_imports(content@) == Some(tree.imports())
                    &&& tree.wf()
                    &&& !tree.is_normalized()
                    &&& !tree.is_runtime_form()
                },
                Err(e) => {
                    &&& parsed_imports(content@) is None
                    &&& e matches CompileError::Parse { module } && module@ == path@
                },
            }
        },
{
    let len = byte_length(&content);
    if !ctx.room_for(len) {
        return Err(CompileError::Load { module: path.clone() });
    }
    let parsed = code_to_ast(content, path, ctx);
    ctx.count_entered(len);
    match parsed {
        Ok(tree) => {
            let unresolved_mark = fresh_mark(&tree);
            let top_level_mark = fresh_mark(&tree);
            Ok(Ast { tree, unresolved_mark, top_level_mark, normalized: false, runtime_form: false })
        },
        Err(e) => Err(e),
    }
}

/// The build-time normalization of the module `path`: scope resolution, then
/// down-leveling for the target runtime. Both passes share one helper
/// record. A pass that reports an error stops the stage. On a tree that has
/// been normalized the stage does nothing.
pub fn transform(ast: &mut Ast, path: &String) -> (done: Result<(), CompileError>)
    requires
        old(ast).wf(),
    ensures
        final(ast).marks() == old(ast).marks(),
        final(ast).is_runtime_form() == old(ast).is_runtime_form(),
        old(ast).is_normalized() ==> done is Ok && *final(ast) == *old(ast),
        done is Ok ==> final(ast).is_normalized(),
        done is Err ==> !final(ast).is_normalized(),
        done matches Err(e) ==> e matches CompileError::Transform { module } && module@ == path@,
{
    if ast.normalized {
        return Ok(());
    }
    let helpers = fresh_helpers(&ast.tree);
    let handler = fresh_handler();
    run_resolver(&mut ast.tree, ast.unresolved_mark, ast.top_level_mark, &helpers, &handler);
    if has_errors(&handler) {
        return Err(CompileError::Transform { module: path.clone() });
    }
    run_preset_env(
        &mut ast.tree,
        ast.unresolved_mark,
        &helpers,
        &handler,
        TARGET_NODE_MAJOR,
        TARGET_NODE_MINOR,
        TARGET_NODE_PATCH,
    );
    if has_errors(&handler) {
        return Err(CompileError::Transform { module: path.clone() });
    }
    ast.normalized = true;
    Ok(())
}

/// The raw specifiers of the top-level import declarations, in source order.
pub fn analyze_deps(ast: &Ast) -> (deps: Vec<String>)
    ensures
        deps.deep_view() == listed_specifiers(ast.imports()),
{
    let ghost all = ast.imports();
    let count = item_count(&ast.tree.module);
    let mut deps: Vec<String> = Vec::new();
    let mut i: usize = 0;
    assert(all.take(0) =~= Seq::empty());
    assert(deps.deep_view() =~= Seq::empty());
    while i < count
        invariant
            i <= count,
            count == all.len(),
            all == ast.imports(),
            deps.deep_view() == listed_specifiers(all.take(i as int)),
        decreases count - i,
    {
        let ghost before = deps.deep_view();
        assert(all.take(i as int + 1).drop_last() =~= all.take(i as int));
        assert(all.take(i as int + 1).last() == all[i as int]);
        match import_source_at(&ast.tree.module, i) {
            Some(specifier) => {
                deps.push(specifier);
                assert(deps.deep_view() =~= before.push(specifier@));
            },
            None => {},
        }
        i += 1;
    }
    assert(all.take(i as int) =~= all);
    deps
}

/// Rewrites the source of every import declaration whose raw specifier is a
/// key of `deps` to the identifier that `deps` holds for it.
pub fn replace_deps(ast: &mut Ast, deps: &StringMap<String>)
    requires
        deps.wf(),
    ensures
        final(ast).marks() == old(ast).marks(),
        final(ast).is_normalized() == old(ast).is_normalized(),
        final(ast).is_runtime_form() == old(ast).is_runtime_form(),
        final(ast).imports() == rewritten_imports(old(ast).imports(), *deps),
{
    let ghost before = ast.imports();
    let count = item_count(&ast.tree.module);
    let mut i: usize = 0;
    while i < count
        invariant
            deps.wf(),
            i <= count,
            count == before.len(),
            ast.marks() == old(ast).marks(),
            ast.is_normalized() == old(ast).is_normalized(),
            ast.is_runtime_form() == old(ast).is_runtime_form(),
            ast.imports().len() == before.len(),
            forall|j: int| 0 <= j < i ==> ast.imports()[j] == rewritten_imports(before, *deps)[j],
            forall|j: int| i <= j < before.len() ==> ast.imports()[j] == before[j],
        decreases count - i,
    {
        match import_source_at(&ast.tree.module, i) {
            Some(specifier) => {
                match deps.lookup(&specifier) {
                    Some(target) => {
                        write_import_source(&mut ast.tree.module, i, target);
                    },
                    None => {},
                }
            },
            None => {},
        }
        i += 1;
    }
    assert(ast.imports() =~= rewritten_imports(before, *deps));
}

/// The generate-time interop rewrite of the module `path`: helper injection,
/// then the rewrite of import and export syntax into calls of the loader.
/// Both passes share one helper record, new for this stage. A pass that
/// reports an error stops the stage. On a tree that is in runtime form the
/// stage does nothing: the rewrite never runs twice on one module.
pub fn transform_again(ast: &mut Ast, path: &String) -> (done: Result<(), CompileError>)
    requires
        old(ast).wf(),
    ensures
        final(ast).marks() == old(ast).marks(),
        final(ast).is_normalized() == old(ast).is_normalized(),
        old(ast).is_runtime_form() ==> done is Ok && *final(ast) == *old(ast),
        done is Ok ==> final(ast).is_runtime_form(),
        done is Err ==> !final(ast).is_runtime_form(),
        done matches Err(e) ==> e matches CompileError::Transform { module } && module@ == path@,
{
    if ast.runtime_form {
        return Ok(());
    }
    let helpers = fresh_helpers(&ast.tree);
    let handler = fresh_handler();
    run_inject_helpers(&mut ast.tree, ast.unresolved_mark, &helpers, &handler);
    if has_errors(&handler) {
        return Err(CompileError::Transform { module: path.clone() });
    }
    run_common_js(&mut ast.tree, ast.unresolved_mark, &helpers, &handler);
    if has_errors(&handler) {
        return Err(CompileError::Transform { module: path.clone() });
    }
    ast.runtime_form = true;
    Ok(())
}

/// What the compile makes of one answer of the printer for the module
/// `path`: the bytes as text where the printer gave bytes and they are valid
/// UTF-8, and otherwise the error that names the module.
pub fn emitted_text(path: &String, emitted: Result<Vec<u8>, std::io::Error>) -> (code: Result<
    String,
    CompileError,
>)
    ensures
        match emitted {
            Ok(bytes) => if vstd::utf8::valid_utf8(bytes@) {
                code matches Ok(text) && vstd::utf8::encode_utf8(text@) == bytes@
            } else {
                code matches Err(CompileError::Emit { module }) && module@ == path@
            },
            Err(_) => code matches Err(CompileError::Emit { module }) && module@ == path@,
        },
{
    match emitted {
        Ok(bytes) => match string_from_utf8(bytes) {
            Ok(text) => Ok(text),
            Err(_) => Err(CompileError::Emit { module: path.clone() }),
        },
        Err(_) => Err(CompileError::Emit { module: path.clone() }),
    }
}

/// Prints the tree of the module `path` as source text, with the registry
/// and the comment store that the tree was parsed with.
pub fn ast_to_code(ast: &Ast, path: &String) -> (code: Result<String, CompileError>)
    ensures
        code matches Err(e) ==> e matches CompileError::Emit { module } && module@ == path@,
{
    let emitted = emit_module_bytes(&ast.tree);
    emitted_text(path, emitted)
}

} // verus!
