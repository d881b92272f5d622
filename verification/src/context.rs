//! The state shared by every stage of one compile.

use crate::paths::{join_path, path_join};
use swc_core::common::sync::Lrc;
use swc_core::common::{Globals, SourceMap};
use swc_node_comments::SwcComments;
use vstd::prelude::*;

verus! {

/// The source registry: every text that was parsed, with its positions. Opaque here.
#[verifier::external_type_specification]
#[verifier::external_body]
pub struct ExSourceMap(SourceMap);

/// The symbol-scope arena: the marks and syntax contexts of one compile. Opaque here.
#[verifier::external_type_specification]
#[verifier::external_body]
pub struct ExGlobals(Globals);

/// The comment store: the comments of every text that was parsed. Opaque here.
#[verifier::external_type_specification]
#[verifier::external_body]
pub struct ExSwcComments(SwcComments);

/// The registry gives every text a range of positions, one behind the other
/// with one position between them, and keeps a position in 32 bits. The
/// positions from here on are set aside for nodes that have no place in a
/// text, so no text may reach them.
pub const POSITION_LIMIT: u64 = 0xFFFE_0000;

/// Shared state of one compile: the project root, the source registry, the
/// comment store and the symbol-scope arena, and a count of the positions
/// that the registry has given out. Every tree that is parsed with a context
/// keeps its own handle on registry, comment store and arena.
pub struct CompileContext {
    pub(crate) root: String,
    pub(crate) cm: Lrc<SourceMap>,
    pub(crate) comments: SwcComments,
    pub(crate) globals: Lrc<Globals>,
    pub(crate) entered: u64,
}

/// `Default::default()` of `Lrc<SourceMap>`: an empty source registry.
#[verifier::external_body]
fn fresh_source_map() -> Lrc<SourceMap> {
    Default::default()
}

/// `SwcComments::default()`: an empty comment store.
#[verifier::external_body]
fn fresh_comments() -> SwcComments {
    Default::default()
}

/// `Globals::default()` behind a shared handle: a symbol-scope arena that
/// holds the root mark only.
#[verifier::external_body]
fn fresh_globals() -> Lrc<Globals> {
    Default::default()
}

impl CompileContext {
    /// The project root, as text.
    pub closed spec fn root_text(&self) -> Seq<char> {
        self.root@
    }

    /// The positions that the registry has given out: for every text that
    /// was entered, one more than its length in bytes.
    pub closed spec fn entered(&self) -> nat {
        self.entered as nat
    }

    /// The registry can take `text` and stay under `POSITION_LIMIT`.
    pub open spec fn has_room(&self, text: Seq<char>) -> bool {
        self.entered() + vstd::utf8::encode_utf8(text).len() + 1 < POSITION_LIMIT
    }

    /// The place where the entry module is looked for: the file `index.ts`
    /// under the root.
    pub open spec fn entry_path_text(&self) -> Seq<char> {
        path_join(self.root_text(), "index.ts"@)
    }

    /// The directory that receives the bundle: `dist` under the root.
    pub open spec fn output_dir_text(&self) -> Seq<char> {
        path_join(self.root_text(), "dist"@)
    }

    /// The file that receives the bundle: `bundle.js` in the output
    /// directory.
    pub open spec fn output_file_text(&self) -> Seq<char> {
        path_join(self.output_dir_text(), "bundle.js"@)
    }

    /// A clean context for the project under `root`: registry, comment store
    /// and arena are new, and no text has been entered.
    pub fn new(root: String) -> (ctx: CompileContext)
        ensures
            ctx.root_text() == root@,
            ctx.entered() == 0,
    {
        CompileContext {
            root,
            cm: fresh_source_map(),
            comments: fresh_comments(),
            globals: fresh_globals(),
            entered: 0,
        }
    }

    /// The project root.
    pub fn root(&self) -> (root: &String)
        ensures
            root@ == self.root_text(),
    {
        &self.root
    }

    /// Whether the registry can take a text of `len` bytes.
    pub(crate) fn room_for(&self, len: usize) -> (room: bool)
        ensures
            room == (self.entered() + len + 1 < POSITION_LIMIT),
    {
        let len = len as u64;
        len < POSITION_LIMIT && self.entered < POSITION_LIMIT - len - 1
    }

    /// Counts a text of `len` bytes as entered.
    pub(crate) fn count_entered(&mut self, len: usize)
        requires
            old(self).entered() + len + 1 < POSITION_LIMIT,
        ensures
            final(self).entered() == old(self).entered() + len + 1,
            final(self).root_text() == old(self).root_text(),
    {
        self.entered = self.entered + len as u64 + 1;
    }

    /// The place where the entry module is looked for.
    pub fn entry_path(&self) -> (path: String)
        ensures
            path@ == self.entry_path_text(),
    {
        join_path(&self.root, "index.ts")
    }

    /// The directory that receives the bundle.
    pub fn output_dir(&self) -> (dir: String)
        ensures
            dir@ == self.output_dir_text(),
    {
        join_path(&self.root, "dist")
    }

    /// The file that receives the bundle.
    pub fn output_file(&self) -> (file: String)
        ensures
            file@ == self.output_file_text(),
    {
        let dir = self.output_dir();
        join_path(&dir, "bundle.js")
    }
}

} // verus!
