//! Loading an import map and reporting what its parser complained about.

use crate::config::{text_of, texts_of, ConstructionError, ContextError, Failure};
use crate::locations::{import_map_base_text, resolve_import_map_base};
use vstd::prelude::*;
use vstd::string::StringExecFns;

verus! {

/// A parsed import map of the `import_map` crate, handed on to the module
/// loader as it is.
#[verifier::external_type_specification]
#[verifier::external_body]
pub struct ExImportMap(import_map::ImportMap);

/// An import map with the parser's complaints, each as the text it prints.
pub struct LoadedImportMap {
    /// The map, for the module loader.
    pub import_map: import_map::ImportMap,
    /// The complaints. Their order is the parser's and is not fixed.
    pub diagnostics: Vec<String>,
}

/// The error with which `import_map::parse_from_json` refuses a text as the
/// import map of a base URL, or nothing where it parses.
pub uninterp spec fn import_map_parse_error(base: Seq<char>, json: Seq<char>) -> Option<
    Seq<char>,
>;

/// `import_map::parse_from_json`: parses `json` as an import map whose
/// relative addresses are taken from `base`. The base comes as text and is
/// read back with `url::Url::parse`. Whether the text parses, and the text
/// of the error where it does not, are a function of the two texts. Entries
/// that the parser cannot use become diagnostics, not errors; of the map
/// and of the diagnostics nothing is claimed, since the diagnostics do not
/// even come in a fixed order.
#[verifier::external_body]
fn parse_import_map(base: &str, json: &str) -> (parsed: Result<LoadedImportMap, String>)
    ensures
        match parsed {
            Ok(_) => import_map_parse_error(base@, json@) is None,
            Err(why) => import_map_parse_error(base@, json@) == Some(why@),
        },
{
    match url::Url::parse(base) {
        Err(e) => Err(e.to_string()),
        Ok(url) => import_map::parse_from_json(url, json).map(
            |found|
                LoadedImportMap {
                    import_map: found.import_map,
                    diagnostics: found.diagnostics.iter().map(|d| d.to_string()).collect(),
                },
        ).map_err(|e| e.to_string()),
    }
}

/// Whether there is a map, given what the parser found wrong with the text.
pub open spec fn parsed_text(error: Option<Seq<char>>) -> Result<bool, Failure> {
    match error {
        None => Ok(true),
        Some(why) => Err(Failure { kind: ContextError::ImportMapMalformed, detail: why }),
    }
}

/// What loading an import map gives: whether there is a map, or the
/// failure. No path means no map, which is no error. A path whose file the
/// host could not read is an error with the host's text. Otherwise the map
/// is parsed against the URL of the directory that holds it.
pub open spec fn import_map_outcome(
    maybe_path: Option<Seq<char>>,
    working_dir: Seq<char>,
    text: Result<Seq<char>, Seq<char>>,
) -> Result<bool, Failure> {
    match maybe_path {
        None => Ok(false),
        Some(path) => match text {
            Err(why) => Err(Failure { kind: ContextError::ImportMapUnreadable, detail: why }),
            Ok(json) => match import_map_base_text(working_dir, path) {
                Err(failure) => Err(failure),
                Ok(base) => parsed_text(import_map_parse_error(base, json)),
            },
        },
    }
}

/// The import map to use, from what the parser made of the file: the map
/// with its diagnostics, however many there are, or a configuration error
/// with the parser's text where the parser gave up.
pub fn import_map_from(parsed: Result<LoadedImportMap, String>) -> (loaded: Result<
    Option<LoadedImportMap>,
    ConstructionError,
>)
    ensures
        match parsed {
            Ok(found) => loaded == Ok::<Option<LoadedImportMap>, ConstructionError>(Some(found)),
            Err(why) => (loaded matches Err(error) && error@ == (Failure {
                kind: ContextError::ImportMapMalformed,
                detail: why@,
            })),
        },
{
    match parsed {
        Ok(found) => Ok(Some(found)),
        Err(why) => Err(ConstructionError { kind: ContextError::ImportMapMalformed, detail: why }),
    }
}

/// Loads the import map at `maybe_path`, whose file the host has read into
/// `text`.
pub fn load_import_map(
    maybe_path: &Option<String>,
    working_dir: &str,
    text: &Result<String, String>,
) -> (loaded: Result<Option<LoadedImportMap>, ConstructionError>)
    ensures
        match loaded {
            Ok(found) => import_map_outcome(text_of(*maybe_path), working_dir@, texts_of(*text))
                == Ok::<bool, Failure>(found is Some),
            Err(error) => import_map_outcome(text_of(*maybe_path), working_dir@, texts_of(*text))
                == Err::<bool, Failure>(error@),
        },
        maybe_path is None ==> loaded matches Ok(None),
        maybe_path is Some && text is Err ==> (loaded matches Err(error) && error@.kind
            == ContextError::ImportMapUnreadable),
{
    match maybe_path {
        None => Ok(None),
        Some(path) => match text {
            Err(why) => Err(ConstructionError::because(ContextError::ImportMapUnreadable, why)),
            Ok(json) => match resolve_import_map_base(working_dir, path.as_str()) {
                Err(e) => Err(e),
                Ok(base) => import_map_from(parse_import_map(base.as_str(), json.as_str())),
            },
        },
    }
}

/// The texts of a list of strings.
pub open spec fn texts(lines: Seq<String>) -> Seq<Seq<char>> {
    lines.map_values(|line: String| line@)
}

/// The diagnostics as a list: one line each, indented and marked with a
/// dash, lines separated by a line feed.
pub open spec fn diagnostics_listing(diagnostics: Seq<Seq<char>>) -> Seq<char>
    decreases diagnostics.len(),
{
    if diagnostics.len() == 0 {
        Seq::empty()
    } else if diagnostics.len() == 1 {
        "  - "@ + diagnostics[0]
    } else {
        diagnostics_listing(diagnostics.drop_last()) + "\n"@ + "  - "@ + diagnostics.last()
    }
}

/// The warning that reports the diagnostics: a heading and the list, or
/// nothing where there are none.
pub open spec fn diagnostics_report(diagnostics: Seq<Seq<char>>) -> Option<Seq<char>> {
    if diagnostics.len() == 0 {
        None
    } else {
        Some("Import map diagnostics:\n"@ + diagnostics_listing(diagnostics))
    }
}

/// Writes the warning that reports an import map's diagnostics, for the
/// host to log. There is no warning where there are no diagnostics.
pub fn render_import_map_diagnostics(diagnostics: &Vec<String>) -> (report: Option<String>)
    ensures
        report is None <==> diagnostics@.len() == 0,
        match report {
            Some(text) => diagnostics_report(texts(diagnostics@)) == Some(text@),
            None => diagnostics_report(texts(diagnostics@)) is None,
        },
{
    if diagnostics.len() == 0 {
        return None;
    }
    let ghost all = texts(diagnostics@);
    let mut report = String::from_str("Import map diagnostics:\n");
    let mut i: usize = 0;
    while i < diagnostics.len()
        invariant
            0 <= i <= diagnostics.len(),
            all == texts(diagnostics@),
            report@ == "Import map diagnostics:\n"@ + diagnostics_listing(all.take(i as int)),
        decreases diagnostics.len() - i,
    {
        let ghost before = report@;
        if i > 0 {
            report.append("\n");
        }
        report.append("  - ");
        report.append(diagnostics[i].as_str());
        proof {
            let shorter = all.take(i as int);
            let longer = all.take(i + 1);
            assert(longer.drop_last() =~= shorter);
            assert(longer.last() == diagnostics@[i as int]@);
            if i == 0 {
                assert(diagnostics_listing(shorter) =~= Seq::<char>::empty());
                assert(longer[0] == longer.last());
            }
            assert(report@ =~= "Import map diagnostics:\n"@ + diagnostics_listing(longer));
        }
        i += 1;
    }
    assert(all.take(i as int) =~= all);
    Some(report)
}

} // verus!
