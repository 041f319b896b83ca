//! The context of a run: its arguments and the path of the backing file.

use vstd::prelude::*;
use crate::args::Args;

verus! {

/// The arguments of a run and the path of its backing file.
#[derive(Clone, Debug)]
pub struct Ctx {
    pub args: Args,
    path: String,
}

/// The path that a path argument stands for: a path without an extension
/// gets `.json` appended, any other path is taken as it is.
pub open spec fn resolved(list_path: Seq<char>, has_extension: bool) -> Seq<char> {
    if has_extension {
        list_path
    } else {
        list_path + ".json"@
    }
}

/// `Path::extension` of the standard library, on the path that `path` spells:
/// the extension of its file name, if it has one. A file name without a dot
/// has no extension, so a path without any dot has none.
#[verifier::external_body]
fn path_extension(path: &str) -> (extension: Option<String>)
    ensures
        !path@.contains('.') ==> extension is None,
{
    match std::path::Path::new(path).extension() {
        Some(found) => Some(found.to_string_lossy().into_owned()),
        None => None,
    }
}

/// The path of the backing file for a path argument with the given extension.
pub fn resolve_path(list_path: &str, extension: &Option<String>) -> (path: String)
    ensures
        path@ == resolved(list_path@, extension is Some),
{
    let mut path = list_path.to_owned();
    if extension.is_none() {
        path.append(".json");
    }
    path
}

impl Ctx {
    /// The path of the backing file; empty until it is constructed.
    pub closed spec fn spec_path(&self) -> Seq<char> {
        self.path@
    }

    /// The arguments of the run.
    pub closed spec fn spec_args(&self) -> Args {
        self.args
    }

    /// A context for these arguments, with no path yet.
    pub fn new(args: Args) -> (ctx: Self)
        ensures
            ctx.spec_args() == args,
            ctx.spec_path() == Seq::<char>::empty(),
    {
        Ctx { args, path: String::new() }
    }

    /// Sets the path of the backing file from the path argument: the argument
    /// itself, or the argument with `.json` appended when it has no extension.
    /// An argument without any dot has no extension.
    pub fn construct_path(&mut self)
        ensures
            final(self).spec_args() == old(self).spec_args(),
            !old(self).spec_args().mode.spec_list_path().contains('.') ==> final(self).spec_path()
                == resolved(old(self).spec_args().mode.spec_list_path(), false),
            final(self).spec_path() == resolved(old(self).spec_args().mode.spec_list_path(), true)
                || final(self).spec_path() == resolved(
                old(self).spec_args().mode.spec_list_path(),
                false,
            ),
    {
        let extension = path_extension(self.args.mode.list_path().as_str());
        self.path = resolve_path(self.args.mode.list_path().as_str(), &extension);
    }

    /// Whether hidden items are displayed from the start.
    pub fn display_hidden(&self) -> (flag: bool)
        ensures
            flag == self.spec_args().display_hidden,
    {
        self.args.display_hidden
    }

    /// Whether the diagnostic log panel is displayed.
    pub fn debug(&self) -> (flag: bool)
        ensures
            flag == self.spec_args().debug,
    {
        self.args.debug
    }

    /// The path of the backing file.
    pub fn get_path(&self) -> (path: &String)
        ensures
            path@ == self.spec_path(),
    {
        &self.path
    }
}

} // verus!
