//! Why a compile stopped.

use vstd::prelude::*;
use vstd::string::*;

verus! {

/// The failure that ended a compile. Every one is fatal: a graph or a bundle
/// that is only partly built cannot run, so nothing partial is handed out.
#[derive(Debug, PartialEq, Eq)]
pub enum CompileError {
    /// The text of `module` could not be read, or the registry has no room
    /// left for it.
    Load { module: String },
    /// The text of `module` is not valid syntax.
    Parse { module: String },
    /// A normalization or interop pass reported an error in `module`.
    Transform { module: String },
    /// `specifier`, imported by `importer`, names no file.
    Resolution { importer: String, specifier: String },
    /// `module` could not be turned back into text.
    Emit { module: String },
    /// The bundle could not be written to `path`.
    Write { path: String },
}

impl CompileError {
    /// The failure in words, with the module, specifier or path it names in
    /// single quotes.
    pub open spec fn message_text(&self) -> Seq<char> {
        match self {
            CompileError::Load { module } => "cannot read module '"@ + module@ + "'"@,
            CompileError::Parse { module } => "cannot parse module '"@ + module@ + "'"@,
            CompileError::Transform { module } => "cannot transform module '"@ + module@ + "'"@,
            CompileError::Resolution { importer, specifier } => "cannot resolve '"@ + specifier@
                + "' imported by '"@ + importer@ + "'"@,
            CompileError::Emit { module } => "cannot print module '"@ + module@ + "'"@,
            CompileError::Write { path } => "cannot write '"@ + path@ + "'"@,
        }
    }

    /// The failure in words.
    pub fn message(&self) -> (text: String)
        ensures
            text@ == self.message_text(),
    {
        match self {
            CompileError::Load { module } => quoted("cannot read module '", module),
            CompileError::Parse { module } => quoted("cannot parse module '", module),
            CompileError::Transform { module } => quoted("cannot transform module '", module),
            CompileError::Resolution { importer, specifier } => {
                let mut text = String::from_str("cannot resolve '");
                text.append(specifier.as_str());
                text.append("' imported by '");
                text.append(importer.as_str());
                text.append("'");
                text
            },
            CompileError::Emit { module } => quoted("cannot print module '", module),
            CompileError::Write { path } => quoted("cannot write '", path),
        }
    }
}

/// `lead`, then `name`, then a closing single quote.
fn quoted(lead: &str, name: &String) -> (text: String)
    ensures
        text@ == lead@ + name@ + "'"@,
{
    let mut text = String::from_str(lead);
    text.append(name.as_str());
    text.append("'");
    text
}

} // verus!
