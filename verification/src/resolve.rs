//! From an import specifier to the identifier of the module it names.
//!
//! The identifier of a module is the absolute, normalized path of its file,
//! in the form that the resolver gives it. Two specifiers that reach one file
//! get one identifier, which is what lets the module graph hold each module
//! once.

use crate::error::CompileError;
use crate::paths::{join_path, parent_directory, path_join, path_parent};
use oxc_resolver::{ResolveError, ResolveOptions, Resolver};
use std::path::Path;
use vstd::prelude::*;
use vstd::string::*;

verus! {

/// The error of the resolver. Opaque here.
#[verifier::external_type_specification]
#[verifier::external_body]
pub struct ExResolveError(ResolveError);

/// `Resolver::resolve` of `specifier` against `directory`, with a resolver
/// made by `Resolver::new` from the default options but for the list of file
/// extensions, and then `Resolution::full_path` as text. The answer depends
/// on the files on disk, so nothing is claimed of it.
#[verifier::external_body]
fn resolve_in_directory(
    directory: &String,
    specifier: &String,
    extensions: &Vec<String>,
) -> Result<String, ResolveError> {
    let options = ResolveOptions {
        extensions: extensions.clone(),
        ..Default::default()
    };
    let resolution = Resolver::new(options).resolve(
        Path::new(directory),
        specifier,
    )?;
    Ok(resolution.full_path().to_string_lossy().to_string())
}

/// The file extensions that name a module: `.ts` alone.
pub fn recognized_extensions() -> (extensions: Vec<String>)
    ensures
        extensions.deep_view() == seq![".ts"@],
{
    let mut extensions: Vec<String> = Vec::new();
    extensions.push(String::from_str(".ts"));
    assert(extensions.deep_view() =~= seq![".ts"@]);
    extensions
}

/// What the compile makes of one answer of the resolver: the identifier where
/// there is one, and otherwise the error that names the importing module and
/// the specifier it could not follow.
pub fn resolution_outcome(
    importer: &String,
    specifier: &String,
    answer: Result<String, ResolveError>,
) -> (outcome: Result<String, CompileError>)
    ensures
        match answer {
            Ok(id) => outcome == Ok::<String, CompileError>(id),
            Err(_) => outcome matches Err(CompileError::Resolution { importer: i, specifier: s })
                && i@ == importer@ && s@ == specifier@,
        },
{
    match answer {
        Ok(id) => Ok(id),
        Err(_) => Err(
            CompileError::Resolution { importer: importer.clone(), specifier: specifier.clone() },
        ),
    }
}

/// The identifier of the module that `dep` names when the module `path`
/// imports it. `dep` is looked up from the directory of `path`. A path
/// without a directory resolves nothing.
pub fn resolve(path: &String, dep: &String) -> (id: Result<String, CompileError>)
    ensures
        id matches Err(e) ==> e matches CompileError::Resolution { importer, specifier }
            && importer@ == path@ && specifier@ == dep@,
        path_parent(path@) is None ==> id is Err,
{
    match parent_directory(path) {
        Some(directory) => {
            let extensions = recognized_extensions();
            let answer = resolve_in_directory(&directory, dep, &extensions);
            resolution_outcome(path, dep, answer)
        },
        None => Err(CompileError::Resolution { importer: path.clone(), specifier: dep.clone() }),
    }
}

/// What the compile makes of the answer of the resolver for the entry
/// module of the project under `root`: the identifier where there is one, and
/// otherwise the error that says that the entry, looked for as `index.ts`
/// under the root, could not be taken in.
pub fn entry_outcome(root: &String, answer: Result<String, ResolveError>) -> (outcome: Result<
    String,
    CompileError,
>)
    ensures
        match answer {
            Ok(id) => outcome == Ok::<String, CompileError>(id),
            Err(_) => outcome matches Err(CompileError::Load { module }) && module@ == path_join(
                root@,
                "index.ts"@,
            ),
        },
{
    match answer {
        Ok(id) => Ok(id),
        Err(_) => Err(CompileError::Load { module: join_path(root, "index.ts") }),
    }
}

/// The identifier of the entry module of the project under `root`: the file
/// `index.ts` in the root, under the identifier that the resolver gives it.
/// That is the identifier under which an import of the entry by another
/// module reaches it too.
pub fn resolve_entry(root: &String) -> (id: Result<String, CompileError>)
    ensures
        id matches Err(e) ==> e matches CompileError::Load { module } && module@ == path_join(
            root@,
            "index.ts"@,
        ),
{
    let extensions = recognized_extensions();
    let specifier = String::from_str("./index.ts");
    let answer = resolve_in_directory(root, &specifier, &extensions);
    entry_outcome(root, answer)
}

} // verus!
