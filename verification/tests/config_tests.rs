use note::config::{
    get_new_config, parse_config, Config, ConfigFile, ConfigOverrides, Language, Scope,
};
use note::error::NoteError;

fn b(s: &str) -> Vec<u8> {
    s.as_bytes().to_vec()
}

#[test]
fn global_default_is_empty_author_japanese() {
    let c = Config::global_default();
    assert_eq!(c.scope, Scope::Global);
    assert_eq!(c.author_name, b(""));
    assert_eq!(c.language, Language::Japanese);
}

#[test]
fn language_default_is_japanese() {
    assert_eq!(Language::default(), Language::Japanese);
}

#[test]
fn local_scope_prefers_local_file() {
    let local = ConfigFile { author_name: b("local author"), language: Language::English };
    let global = ConfigFile { author_name: b("global author"), language: Language::Japanese };
    let (c, created) = Config::get(Scope::Local, Some(local), Some(global));
    assert_eq!(c.scope, Scope::Local);
    assert_eq!(c.author_name, b("local author"));
    assert_eq!(c.language, Language::English);
    assert!(!created);
}

#[test]
fn local_scope_falls_back_to_global_without_local_file() {
    let global = ConfigFile { author_name: b("global author"), language: Language::Japanese };
    let (c, created) = Config::get(Scope::Local, None, Some(global));
    assert_eq!(c.scope, Scope::Global);
    assert_eq!(c.author_name, b("global author"));
    assert!(!created);
}

#[test]
fn global_scope_ignores_local_file() {
    let local = ConfigFile { author_name: b("local author"), language: Language::English };
    let global = ConfigFile { author_name: b("global author"), language: Language::Japanese };
    let (c, _) = Config::get(Scope::Global, Some(local), Some(global));
    assert_eq!(c.scope, Scope::Global);
    assert_eq!(c.author_name, b("global author"));
}

#[test]
fn missing_global_file_synthesizes_default_and_asks_creation() {
    let (c, created) = Config::get(Scope::Global, None, None);
    assert_eq!(c.scope, Scope::Global);
    assert_eq!(c.author_name, b(""));
    assert_eq!(c.language, Language::Japanese);
    assert!(created);
}

#[test]
fn resolve_reads_local_config_bytes() {
    let local = b("{\"author_name\": \"Ada\", \"language\": \"English\"}");
    let global = b("{\"author_name\": \"Grace\", \"language\": \"Japanese\"}");
    let r = Config::resolve(Scope::Local, Some(&local), Some(&global)).unwrap();
    assert_eq!(r.0.scope, Scope::Local);
    assert_eq!(r.0.author_name, b("Ada"));
    assert_eq!(r.0.language, Language::English);
    assert!(!r.1);
}

#[test]
fn resolve_without_local_file_reads_global() {
    let global = b("{\"author_name\": \"Grace\", \"language\": \"Japanese\"}");
    let r = Config::resolve(Scope::Local, None, Some(&global)).unwrap();
    assert_eq!(r.0.scope, Scope::Global);
    assert_eq!(r.0.author_name, b("Grace"));
    assert!(!r.1);
}

#[test]
fn resolve_malformed_local_is_fatal() {
    let local = b("{ not json");
    let r = Config::resolve(Scope::Local, Some(&local), None);
    assert_eq!(r.unwrap_err(), NoteError::MalformedConfig);
}

#[test]
fn parse_config_defaults_for_missing_fields() {
    let f = parse_config(&b("{}")).unwrap();
    assert_eq!(f.author_name, b(""));
    assert_eq!(f.language, Language::Japanese);
}

#[test]
fn parse_config_ignores_unknown_fields() {
    let f = parse_config(&b("{\"author_name\": \"Ada\", \"note\": 1}")).unwrap();
    assert_eq!(f.author_name, b("Ada"));
}

#[test]
fn parse_config_rejects_unknown_language() {
    let r = parse_config(&b("{\"language\": \"Klingon\"}"));
    assert_eq!(r.unwrap_err(), NoteError::MalformedConfig);
}

#[test]
fn parse_config_rejects_non_object() {
    let r = parse_config(&b("[1, 2]"));
    assert_eq!(r.unwrap_err(), NoteError::MalformedConfig);
}

#[test]
fn parse_config_rejects_wrong_field_type() {
    let r = parse_config(&b("{\"author_name\": 7}"));
    assert_eq!(r.unwrap_err(), NoteError::MalformedConfig);
}

#[test]
fn config_json_round_trips_through_parse() {
    let c = Config { scope: Scope::Local, author_name: b("Ada"), language: Language::English };
    let json = note::config::config_to_json(&c);
    let f = parse_config(&json).unwrap();
    assert_eq!(f.author_name, b("Ada"));
    assert_eq!(f.language, Language::English);
    // the scope is implied by the file's location, never persisted
    let v: serde_json::Value = serde_json::from_slice(&json).unwrap();
    assert!(v.get("scope").is_none());
}

#[test]
fn save_payload_paths_follow_scope() {
    let home = b("/home/ada");
    let cwd = b("/home/ada/work");
    let g = Config { scope: Scope::Global, author_name: b(""), language: Language::Japanese };
    let (path, _) = g.save_payload(&home, &cwd);
    assert_eq!(path, b("/home/ada/.note/.note_config.json"));
    let l = Config { scope: Scope::Local, author_name: b(""), language: Language::Japanese };
    let (path, _) = l.save_payload(&home, &cwd);
    assert_eq!(path, b("/home/ada/work/.note_config.json"));
}

#[test]
fn create_global_config_file_writes_default_at_global_path() {
    let home = b("/home/ada");
    let (c, path, content) = Config::create_global_config_file(&home);
    assert_eq!(c.scope, Scope::Global);
    assert_eq!(c.author_name, b(""));
    assert_eq!(path, b("/home/ada/.note/.note_config.json"));
    let f = parse_config(&content).unwrap();
    assert_eq!(f.author_name, b(""));
    assert_eq!(f.language, Language::Japanese);
}

#[test]
fn get_new_config_no_overrides_carries_fields_to_target_scope() {
    let c = Config { scope: Scope::Local, author_name: b("Ada"), language: Language::English };
    let o = ConfigOverrides { local: false, author_name: None, language: None };
    let r = get_new_config(&c, o);
    assert_eq!(r.scope, Scope::Global);
    assert_eq!(r.author_name, b("Ada"));
    assert_eq!(r.language, Language::English);
}

#[test]
fn get_new_config_targets_local_scope() {
    let c = Config { scope: Scope::Global, author_name: b("Ada"), language: Language::English };
    let o = ConfigOverrides { local: true, author_name: None, language: None };
    let r = get_new_config(&c, o);
    assert_eq!(r.scope, Scope::Local);
    assert_eq!(r.author_name, b("Ada"));
}

#[test]
fn get_new_config_author_override_sets_scope() {
    let c = Config { scope: Scope::Global, author_name: b("Ada"), language: Language::English };
    let o = ConfigOverrides { local: true, author_name: Some(b("Grace")), language: None };
    let r = get_new_config(&c, o);
    assert_eq!(r.scope, Scope::Local);
    assert_eq!(r.author_name, b("Grace"));
    assert_eq!(r.language, Language::English);
}

#[test]
fn get_new_config_language_override_sets_scope() {
    let c = Config { scope: Scope::Local, author_name: b("Ada"), language: Language::English };
    let o = ConfigOverrides { local: false, author_name: None, language: Some(Language::Japanese) };
    let r = get_new_config(&c, o);
    assert_eq!(r.scope, Scope::Global);
    assert_eq!(r.author_name, b("Ada"));
    assert_eq!(r.language, Language::Japanese);
}

#[test]
fn resolve_malformed_global_is_fatal() {
    let global = b("not json");
    let r = Config::resolve(Scope::Global, None, Some(&global));
    assert_eq!(r.unwrap_err(), NoteError::MalformedConfig);
}
