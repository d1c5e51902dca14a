//! Where a service's entry module and its import map live.

use crate::config::{
    plain_failure,
    step_text,
    text_of,
    texts_of,
    ConstructionError,
    ContextError,
    Failure,
};
use vstd::prelude::*;

verus! {

/// The path that `std::path::Path::join` makes of a path and one adjoined
/// to it.
pub uninterp spec fn joined_path_text(base: Seq<char>, relative: Seq<char>) -> Seq<char>;

/// The path that `std::path::Path::parent` gives for a path: the path
/// without its last component, or nothing.
pub uninterp spec fn parent_path_text(path: Seq<char>) -> Option<Seq<char>>;

/// The text of the `file` URL that `url::Url::from_directory_path` makes of
/// a directory, or nothing where it makes none.
pub uninterp spec fn directory_url_text(directory: Seq<char>) -> Option<Seq<char>>;

/// What `url::Url::join` makes of a reference and the URL it is taken from:
/// the text of the URL, or the text of the parse error.
pub uninterp spec fn joined_url_text(base: Seq<char>, reference: Seq<char>) -> Result<
    Seq<char>,
    Seq<char>,
>;

/// `std::path::Path::join`: `relative` adjoined to `base`. The result is a
/// function of the two paths.
#[verifier::external_body]
fn join_path(base: &str, relative: &str) -> (joined: String)
    ensures
        joined@ == joined_path_text(base@, relative@),
{
    std::path::Path::new(base).join(relative).to_string_lossy().into_owned()
}

/// `std::path::Path::parent`: the path without its last component, or
/// `None` where there is none to take off. The result is a function of the
/// path.
#[verifier::external_body]
fn parent_path(path: &str) -> (parent: Option<String>)
    ensures
        text_of(parent) == parent_path_text(path@),
{
    std::path::Path::new(path).parent().map(|p| p.to_string_lossy().into_owned())
}

/// `url::Url::from_directory_path`: the `file` URL of a directory, as text,
/// or `None` where the path is not absolute. The result is a function of
/// the path.
#[verifier::external_body]
fn directory_url(directory: &str) -> (made: Option<String>)
    ensures
        text_of(made) == directory_url_text(directory@),
{
    url::Url::from_directory_path(directory).ok().map(String::from)
}

/// `url::Url::join`: `reference` parsed with `base` as its base URL. The
/// base comes as text and is read back with `url::Url::parse`; the result
/// is the URL's text, or the text of the error of whichever of the two
/// failed. It is a function of the two texts.
#[verifier::external_body]
fn join_url(base: &str, reference: &str) -> (joined: Result<String, String>)
    ensures
        texts_of(joined) == joined_url_text(base@, reference@),
{
    match url::Url::parse(base) {
        Ok(url) => url.join(reference).map(String::from).map_err(|e| e.to_string()),
        Err(e) => Err(e.to_string()),
    }
}

/// Name of the file that a service's entry module is read from.
pub fn main_module_file() -> (name: &'static str)
    ensures
        name@ == "index.ts"@,
{
    "index.ts"
}

/// The URL of the service root, given what the URL library made of the
/// root's directory.
pub open spec fn service_root_text(made: Option<Seq<char>>) -> Result<Seq<char>, Failure> {
    match made {
        Some(url) => Ok(url),
        None => Err(plain_failure(ContextError::ServiceRootNotCanonical)),
    }
}

/// The URL of the entry module, given what the URL library made of the
/// entry file's name joined to the service root.
pub open spec fn entry_text(joined: Result<Seq<char>, Seq<char>>) -> Result<Seq<char>, Failure> {
    match joined {
        Ok(url) => Ok(url),
        Err(why) => Err(Failure { kind: ContextError::InvalidMainModuleUrl, detail: why }),
    }
}

/// The directory that holds an import map, given what the path library
/// made of the map's path.
pub open spec fn import_map_directory_text(parent: Option<Seq<char>>) -> Result<
    Seq<char>,
    Failure,
> {
    match parent {
        Some(path) => Ok(path),
        None => Err(plain_failure(ContextError::ImportMapLocationInvalid)),
    }
}

/// The base URL of an import map, given what the URL library made of the
/// directory that holds the map.
pub open spec fn import_map_base_of(made: Option<Seq<char>>) -> Result<Seq<char>, Failure> {
    match made {
        Some(url) => Ok(url),
        None => Err(plain_failure(ContextError::ImportMapLocationInvalid)),
    }
}

/// The URL of the entry module of the service whose canonical root is
/// `service_root`: the file `index.ts` in that directory. A root that the
/// host could not make canonical, or that no URL can be made of, is a
/// configuration error, and so is an entry file that cannot be joined.
pub open spec fn main_module_text(service_root: Result<Seq<char>, Seq<char>>) -> Result<
    Seq<char>,
    Failure,
> {
    match service_root {
        Err(why) => Err(Failure { kind: ContextError::ServiceRootNotCanonical, detail: why }),
        Ok(root) => match service_root_text(directory_url_text(root)) {
            Err(failure) => Err(failure),
            Ok(base) => entry_text(joined_url_text(base, "index.ts"@)),
        },
    }
}

/// The base URL of the import map at `import_map_path`: the URL of the
/// directory that holds the file, the path taken from the working
/// directory.
pub open spec fn import_map_base_text(working_dir: Seq<char>, import_map_path: Seq<char>) -> Result<
    Seq<char>,
    Failure,
> {
    match import_map_directory_text(
        parent_path_text(joined_path_text(working_dir, import_map_path)),
    ) {
        Err(failure) => Err(failure),
        Ok(directory) => import_map_base_of(directory_url_text(directory)),
    }
}

/// The service root's URL, from what the URL library made of its directory:
/// the URL where there is one, a configuration error where there is none.
pub fn service_root_from(made: Option<String>) -> (root: Result<String, ConstructionError>)
    ensures
        step_text(root) == service_root_text(text_of(made)),
{
    match made {
        Some(url) => Ok(url),
        None => Err(ConstructionError::plain(ContextError::ServiceRootNotCanonical)),
    }
}

/// The entry module, from what the URL library made of the entry file's
/// name joined to the service root.
pub fn main_module_from(joined: Result<String, String>) -> (main_module: Result<
    String,
    ConstructionError,
>)
    ensures
        step_text(main_module) == entry_text(texts_of(joined)),
{
    match joined {
        Ok(url) => Ok(url),
        Err(why) => Err(ConstructionError { kind: ContextError::InvalidMainModuleUrl, detail: why }),
    }
}

/// The base URL of an import map, from what the URL library made of the
/// directory that holds the map.
pub fn import_map_base_from(made: Option<String>) -> (base: Result<String, ConstructionError>)
    ensures
        step_text(base) == import_map_base_of(text_of(made)),
{
    match made {
        Some(url) => Ok(url),
        None => Err(ConstructionError::plain(ContextError::ImportMapLocationInvalid)),
    }
}

/// Resolves the entry module of the service whose canonical root the host
/// has found: the file `index.ts` in that directory, as the text of a URL.
pub fn resolve_main_module(service_root: &Result<String, String>) -> (resolved: Result<
    String,
    ConstructionError,
>)
    ensures
        step_text(resolved) == main_module_text(texts_of(*service_root)),
{
    match service_root {
        Err(why) => Err(ConstructionError::because(ContextError::ServiceRootNotCanonical, why)),
        Ok(root) => match service_root_from(directory_url(root.as_str())) {
            Err(e) => Err(e),
            Ok(base) => main_module_from(join_url(base.as_str(), main_module_file())),
        },
    }
}

/// Resolves the base URL of the import map at `import_map_path`: the
/// directory that holds the file, taken from the working directory.
pub fn resolve_import_map_base(working_dir: &str, import_map_path: &str) -> (resolved: Result<
    String,
    ConstructionError,
>)
    ensures
        step_text(resolved) == import_map_base_text(working_dir@, import_map_path@),
{
    let file = join_path(working_dir, import_map_path);
    match import_map_directory_from(parent_path(file.as_str())) {
        Err(e) => Err(e),
        Ok(directory) => import_map_base_from(directory_url(directory.as_str())),
    }
}

/// The directory that holds an import map, from what the path library made
/// of the map's path: the directory where the path has one, a configuration
/// error where it has none.
pub fn import_map_directory_from(parent: Option<String>) -> (directory: Result<
    String,
    ConstructionError,
>)
    ensures
        step_text(directory) == import_map_directory_text(text_of(parent)),
{
    match parent {
        Some(path) => Ok(path),
        None => Err(ConstructionError::plain(ContextError::ImportMapLocationInvalid)),
    }
}

} // verus!
