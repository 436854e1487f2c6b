//! Layered configuration: a persistent global configuration (author name,
//! default language) that a local configuration, scoped to the current
//! working directory, can override. Resolution is local-over-global; the
//! scope tag of a resolved configuration always names where it came from,
//! and a present configuration file that does not parse is fatal — never
//! silently papered over with another scope's file.
//!
//! All file reading and writing stays with the caller: this module decides,
//! from what was (or was not) read, which configuration is in effect, and
//! produces the payloads to persist.

use crate::error::NoteError;
use crate::json;
use crate::text::{bytes_eq, bytes_of, copy_bytes, join_path, joined};
use vstd::prelude::*;
use vstd::string::StringSliceAdditionalSpecFns;
use vstd::utf8::{is_ascii_chars, is_ascii_chars_encode_utf8};

verus! {

/// Where a configuration applies: to every project, or only inside one
/// working directory.
#[derive(Debug, Clone, Copy, PartialEq, Eq, Structural)]
pub enum Scope {
    Global,
    Local,
}

/// The language a project's templates are authored for.
#[derive(Debug, Clone, Copy, PartialEq, Eq, Structural)]
pub enum Language {
    English,
    Japanese,
}

impl Default for Language {
    /// The language used when none is configured.
    fn default() -> (r: Self)
        ensures
            r == Language::Japanese,
    {
        Language::Japanese
    }
}

/// The fields a configuration file persists. The scope is not among them:
/// it is implied by the file's location.
#[derive(Debug, Clone, PartialEq, Eq)]
pub struct ConfigFile {
    pub author_name: Vec<u8>,
    pub language: Language,
}

/// An in-memory configuration, tagged with the scope it was resolved for
/// (and would be saved back to).
#[derive(Debug, Clone, PartialEq, Eq)]
pub struct Config {
    pub scope: Scope,
    pub author_name: Vec<u8>,
    pub language: Language,
}

/// The file a resolution reads its fields from: the local file when local
/// scope is asked for and the file exists, the global file otherwise.
pub open spec fn effective_file(
    scope: Scope,
    local: Option<ConfigFile>,
    global: Option<ConfigFile>,
) -> Option<ConfigFile> {
    if scope == Scope::Local && local is Some {
        local
    } else {
        global
    }
}

/// The scope tag a resolution hands back: local exactly when the local file
/// was used.
pub open spec fn effective_scope(scope: Scope, local: Option<ConfigFile>) -> Scope {
    if scope == Scope::Local && local is Some {
        Scope::Local
    } else {
        Scope::Global
    }
}

/// Scope precedence. When a local configuration file exists, resolving for
/// local scope reads it, whatever the global file holds; when it does not,
/// the same resolution falls back to the global file.
pub proof fn lemma_scope_precedence(local: ConfigFile, global: ConfigFile)
    ensures
        effective_file(Scope::Local, Some(local), Some(global)) == Some(local),
        effective_file(Scope::Local, None, Some(global)) == Some(global),
{
}

impl Config {
    /// The configuration synthesized on first global access, before any file
    /// exists: empty author name, default language.
    pub fn global_default() -> (r: Config)
        ensures
            r.scope == Scope::Global,
            r.author_name@ == Seq::<u8>::empty(),
            r.language == Language::Japanese,
    {
        Config { scope: Scope::Global, author_name: Vec::new(), language: Language::Japanese }
    }

    /// The effective configuration, given what the two configuration files
    /// held (`None` where a file does not exist). The second component says
    /// whether a global file must now be created: true exactly when the
    /// resolution fell through to a global file that was not there.
    pub fn get(scope: Scope, local: Option<ConfigFile>, global: Option<ConfigFile>) -> (r: (
        Config,
        bool,
    ))
        ensures
            r.0.scope == effective_scope(scope, local),
            r.1 == (effective_file(scope, local, global) is None),
            match effective_file(scope, local, global) {
                Some(f) => r.0.author_name == f.author_name && r.0.language == f.language,
                None => r.0.author_name@ == Seq::<u8>::empty() && r.0.language
                    == Language::Japanese,
            },
    {
        if scope == Scope::Local {
            if let Some(f) = local {
                let config = Config {
                    scope: Scope::Local,
                    author_name: f.author_name,
                    language: f.language,
                };
                return (config, false);
            }
        }
        match global {
            Some(f) => {
                let config = Config {
                    scope: Scope::Global,
                    author_name: f.author_name,
                    language: f.language,
                };
                (config, false)
            },
            None => (Config::global_default(), true),
        }
    }
}

/// The canonical name of a language, as configuration files spell it.
pub fn language_name(l: Language) -> (r: &'static str)
    ensures
        l == Language::English ==> r@ == "English"@,
        l == Language::Japanese ==> r@ == "Japanese"@,
{
    match l {
        Language::English => "English",
        Language::Japanese => "Japanese",
    }
}

/// The canonical name of a language, as its bytes.
pub open spec fn language_text(l: Language) -> Seq<u8> {
    if l == Language::English {
        "English".spec_bytes()
    } else {
        "Japanese".spec_bytes()
    }
}

/// The two canonical language names differ.
proof fn lemma_language_names_differ()
    ensures
        "English".spec_bytes() != "Japanese".spec_bytes(),
{
    reveal_strlit("English");
    reveal_strlit("Japanese");
    assert(is_ascii_chars("English"@));
    assert(is_ascii_chars("Japanese"@));
    is_ascii_chars_encode_utf8("English"@);
    is_ascii_chars_encode_utf8("Japanese"@);
    assert("English".spec_bytes().len() == 7);
    assert("Japanese".spec_bytes().len() == 8);
}

/// The key of the persisted author-name field.
pub open spec fn author_key() -> Seq<u8> {
    "author_name".spec_bytes()
}

/// The key of the persisted language field.
pub open spec fn language_key() -> Seq<u8> {
    "language".spec_bytes()
}

/// The two persisted field names differ.
proof fn lemma_config_keys_differ()
    ensures
        author_key() != language_key(),
{
    reveal_strlit("author_name");
    reveal_strlit("language");
    assert(is_ascii_chars("author_name"@));
    assert(is_ascii_chars("language"@));
    is_ascii_chars_encode_utf8("author_name"@);
    is_ascii_chars_encode_utf8("language"@);
    assert(author_key().len() == 11);
    assert(language_key().len() == 8);
}

/// The top-level fields of a configuration document (empty when the
/// document is not a JSON object).
pub open spec fn config_fields(bytes: Seq<u8>) -> Map<Seq<u8>, serde_json::Value> {
    match json::json_parsed(bytes) {
        Some(v) => match json::fields_of(v) {
            Some(m) => json::map_model(m),
            None => json::empty_model(),
        },
        None => json::empty_model(),
    }
}

/// A persisted configuration document is well-formed: a JSON object whose
/// optional `author_name` field is a string and whose optional `language`
/// field names a supported language.
pub open spec fn config_ok(bytes: Seq<u8>) -> bool {
    match json::json_parsed(bytes) {
        None => false,
        Some(v) => match json::fields_of(v) {
            None => false,
            Some(m) => {
                let model = json::map_model(m);
                &&& (model.contains_key(author_key()) ==> json::string_of(model[author_key()])
                    is Some)
                &&& (model.contains_key(language_key()) ==> match json::string_of(
                    model[language_key()],
                ) {
                    Some(s) => s == "English".spec_bytes() || s == "Japanese".spec_bytes(),
                    None => false,
                })
            },
        },
    }
}

/// The author name a configuration document carries (empty when absent).
pub open spec fn config_file_author(bytes: Seq<u8>) -> Seq<u8> {
    let model = config_fields(bytes);
    if model.contains_key(author_key()) {
        match json::string_of(model[author_key()]) {
            Some(s) => s,
            None => Seq::<u8>::empty(),
        }
    } else {
        Seq::<u8>::empty()
    }
}

/// The language a configuration document carries (the default when absent).
pub open spec fn config_file_language(bytes: Seq<u8>) -> Language {
    let model = config_fields(bytes);
    if model.contains_key(language_key()) && json::string_of(model[language_key()]) == Some(
        "English".spec_bytes(),
    ) {
        Language::English
    } else {
        Language::Japanese
    }
}

/// The language a configuration file names with the given text, if any.
fn language_of_bytes(b: &Vec<u8>) -> (r: Option<Language>)
    ensures
        b@ == "English".spec_bytes() ==> r == Some(Language::English),
        b@ == "Japanese".spec_bytes() ==> r == Some(Language::Japanese),
        b@ != "English".spec_bytes() && b@ != "Japanese".spec_bytes() ==> r is None,
{
    proof {
        lemma_language_names_differ();
    }
    let english = bytes_of("English");
    if bytes_eq(b, &english) {
        return Some(Language::English);
    }
    let japanese = bytes_of("Japanese");
    if bytes_eq(b, &japanese) {
        return Some(Language::Japanese);
    }
    None
}

/// Decode a persisted configuration file. Succeeds exactly on well-formed
/// documents and hands back their fields; the optional `author_name` and
/// `language` fields default to the empty name and the default language,
/// and unknown fields are ignored.
pub fn parse_config(bytes: &Vec<u8>) -> (r: Result<ConfigFile, NoteError>)
    ensures
        r is Ok <==> config_ok(bytes@),
        r matches Ok(f) ==> f.author_name@ == config_file_author(bytes@) && f.language
            == config_file_language(bytes@),
        r matches Err(e) ==> e == NoteError::MalformedConfig,
{
    proof {
        lemma_config_keys_differ();
        lemma_language_names_differ();
    }
    let v = match json::parse_value(bytes) {
        Ok(v) => v,
        Err(_) => return Err(NoteError::MalformedConfig),
    };
    let mut obj = match json::value_into_object(v) {
        Ok(m) => m,
        Err(_) => return Err(NoteError::MalformedConfig),
    };
    let ghost model = json::map_model(obj);
    let author_key_b = bytes_of("author_name");
    let author_name = match json::map_remove(&mut obj, &author_key_b) {
        Some(av) => match json::value_into_bytes(av) {
            Ok(b) => b,
            Err(_) => return Err(NoteError::MalformedConfig),
        },
        None => Vec::new(),
    };
    let language_key_b = bytes_of("language");
    let language = match json::map_remove(&mut obj, &language_key_b) {
        Some(lv) => match json::value_into_bytes(lv) {
            Ok(b) => match language_of_bytes(&b) {
                Some(l) => l,
                None => return Err(NoteError::MalformedConfig),
            },
            Err(_) => return Err(NoteError::MalformedConfig),
        },
        None => Language::Japanese,
    };
    Ok(ConfigFile { author_name, language })
}

/// The serialized form of a configuration: a pretty-printed JSON object
/// holding exactly the author name and the language name.
pub open spec fn config_content(author: Seq<u8>, language: Language) -> Seq<u8> {
    json::pretty_bytes(
        json::object_of_model(
            json::empty_model().insert(author_key(), json::string_of_bytes(author)).insert(
                language_key(),
                json::string_of_bytes(language_text(language)),
            ),
        ),
    )
}

/// Encode a configuration as pretty-printed JSON, in the persisted shape:
/// `author_name` and `language` only, the scope being implied by where the
/// file is written.
pub fn config_to_json(config: &Config) -> (r: Vec<u8>)
    ensures
        r@ == config_content(config.author_name@, config.language),
{
    let mut obj = json::map_new();
    let author_key_b = bytes_of("author_name");
    json::map_insert(&mut obj, &author_key_b, json::value_from_bytes(&config.author_name));
    let language_key_b = bytes_of("language");
    let language_text_b = bytes_of(language_name(config.language));
    json::map_insert(&mut obj, &language_key_b, json::value_from_bytes(&language_text_b));
    let root = json::value_from_object(obj);
    match json::value_to_pretty_bytes(&root) {
        Ok(b) => b,
        Err(_) => {
            proof {
                assert(false);
            }
            Vec::new()
        },
    }
}

/// Where the global configuration file lives, under the home directory.
pub open spec fn global_config_path(home: Seq<u8>) -> Seq<u8> {
    joined(home, ".note/.note_config.json".spec_bytes())
}

/// Where the local configuration file lives, under the working directory.
pub open spec fn local_config_path(cwd: Seq<u8>) -> Seq<u8> {
    joined(cwd, ".note_config.json".spec_bytes())
}

impl Config {
    /// The file this configuration persists to — implied by its scope —
    /// and the serialized content to write there.
    pub fn save_payload(&self, home: &Vec<u8>, cwd: &Vec<u8>) -> (r: (Vec<u8>, Vec<u8>))
        ensures
            r.0@ == if self.scope == Scope::Global {
                global_config_path(home@)
            } else {
                local_config_path(cwd@)
            },
            r.1@ == config_content(self.author_name@, self.language),
    {
        let path = match self.scope {
            Scope::Global => {
                let rel = bytes_of(".note/.note_config.json");
                join_path(home, &rel)
            },
            Scope::Local => {
                let rel = bytes_of(".note_config.json");
                join_path(cwd, &rel)
            },
        };
        let content = config_to_json(self);
        (path, content)
    }

    /// The first-ever global resolution creates the global configuration
    /// file: the default configuration, the path to establish it at, and
    /// the serialized default configuration to write there.
    pub fn create_global_config_file(home: &Vec<u8>) -> (r: (Config, Vec<u8>, Vec<u8>))
        ensures
            r.0.scope == Scope::Global,
            r.0.author_name@ == Seq::<u8>::empty(),
            r.0.language == Language::Japanese,
            r.1@ == global_config_path(home@),
            r.2@ == config_content(Seq::<u8>::empty(), Language::Japanese),
    {
        let config = Config::global_default();
        let rel = bytes_of(".note/.note_config.json");
        let path = join_path(home, &rel);
        let content = config_to_json(&config);
        (config, path, content)
    }

    /// Resolve the effective configuration from the raw contents of the two
    /// configuration files (`None` where a file does not exist). Succeeds
    /// exactly when every configuration file it reads is well-formed: a
    /// present file that does not parse is fatal, with no fallback. The
    /// boolean asks the caller to create the global file, as in
    /// [`Config::get`].
    pub fn resolve(scope: Scope, local_bytes: Option<&Vec<u8>>, global_bytes: Option<&Vec<u8>>) -> (
        r: Result<(Config, bool), NoteError>)
        ensures
            match r {
                Ok(p) => {
                    &&& (scope == Scope::Local ==> match local_bytes {
                        Some(lb) => {
                            &&& config_ok(lb@)
                            &&& p.0.scope == Scope::Local
                            &&& p.0.author_name@ == config_file_author(lb@)
                            &&& p.0.language == config_file_language(lb@)
                            &&& !p.1
                        },
                        None => true,
                    })
                    &&& ((scope == Scope::Global || local_bytes is None) ==> match global_bytes {
                        Some(gb) => {
                            &&& config_ok(gb@)
                            &&& p.0.scope == Scope::Global
                            &&& p.0.author_name@ == config_file_author(gb@)
                            &&& p.0.language == config_file_language(gb@)
                            &&& !p.1
                        },
                        None => {
                            &&& p.0.scope == Scope::Global
                            &&& p.0.author_name@ == Seq::<u8>::empty()
                            &&& p.0.language == Language::Japanese
                            &&& p.1
                        },
                    })
                },
                Err(e) => {
                    &&& e == NoteError::MalformedConfig
                    &&& (match local_bytes {
                        Some(lb) => scope == Scope::Local && !config_ok(lb@),
                        None => false,
                    } || match global_bytes {
                        Some(gb) => (scope == Scope::Global || local_bytes is None) && !config_ok(
                            gb@,
                        ),
                        None => false,
                    })
                },
            },
    {
        let local_file: Option<ConfigFile> = if scope == Scope::Local {
            match local_bytes {
                Some(b) => match parse_config(b) {
                    Ok(f) => Some(f),
                    Err(e) => return Err(e),
                },
                None => None,
            }
        } else {
            None
        };
        let use_local = local_file.is_some();
        let global_file: Option<ConfigFile> = if use_local {
            None
        } else {
            match global_bytes {
                Some(b) => match parse_config(b) {
                    Ok(f) => Some(f),
                    Err(e) => return Err(e),
                },
                None => None,
            }
        };
        Ok(Config::get(scope, local_file, global_file))
    }
}

/// How a configuration command changes the current configuration: a present
/// override replaces the corresponding field, an absent one carries the
/// field over; the result is always tagged with the targeted scope.
#[derive(Debug, Clone)]
pub struct ConfigOverrides {
    pub local: bool,
    pub author_name: Option<Vec<u8>>,
    pub language: Option<Language>,
}

/// The scope a configuration command targets.
pub open spec fn target_scope(local: bool) -> Scope {
    if local {
        Scope::Local
    } else {
        Scope::Global
    }
}

/// The current configuration with any present override applied: a new
/// configuration tagged with the targeted scope, each overridden field
/// replaced and each absent field carried over unchanged. Pure — no file
/// is touched here.
pub fn get_new_config(current: &Config, overrides: ConfigOverrides) -> (r: Config)
    ensures
        r.scope == target_scope(overrides.local),
        (overrides.author_name matches Some(a) ==> r.author_name == a),
        (overrides.author_name is None ==> r.author_name@ == current.author_name@),
        (overrides.language matches Some(l) ==> r.language == l),
        (overrides.language is None ==> r.language == current.language),
{
    let scope = if overrides.local {
        Scope::Local
    } else {
        Scope::Global
    };
    let author_name = match overrides.author_name {
        Some(a) => a,
        None => copy_bytes(&current.author_name),
    };
    let language = match overrides.language {
        Some(l) => l,
        None => current.language,
    };
    Config { scope, author_name, language }
}

} // verus!
