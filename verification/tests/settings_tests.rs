use note::error::NoteError;
use note::settings::{parse_settings, rewrite_settings, settings_artifact, settings_to_json};

fn b(s: &str) -> Vec<u8> {
    s.as_bytes().to_vec()
}

fn settings_template() -> Vec<u8> {
    b(r#"{
  "latex-workshop.latex.tools": [
    {
      "name": "latexmk",
      "command": "latexmk",
      "args": ["-interaction=nonstopmode", "-r", "OLD_RC", "%DOC%"],
      "env": {"PATH": "/usr/bin"}
    },
    {
      "name": "cleaner",
      "command": "latexmk",
      "args": ["-c"],
      "env": {}
    }
  ],
  "latex-workshop.latex.outDir": "OLD_OUT",
  "editor.rulers": [80],
  "custom.note": "keep me"
}"#)
}

#[test]
fn parse_settings_reads_fields() {
    let s = parse_settings(&settings_template()).unwrap();
    assert_eq!(s.out_dir, b("OLD_OUT"));
    assert_eq!(s.tools.len(), 2);
    assert_eq!(s.tools[0].name, b("latexmk"));
    assert_eq!(s.tools[0].args[1], b("-r"));
    assert_eq!(s.tools[0].env, vec![(b("PATH"), b("/usr/bin"))]);
    assert_eq!(s.tools[1].args, vec![b("-c")]);
}

#[test]
fn parse_settings_rejects_bad_json() {
    assert_eq!(parse_settings(&b("{ nope")).unwrap_err(), NoteError::MalformedSettings);
}

#[test]
fn parse_settings_rejects_missing_out_dir() {
    let t = b(r#"{"latex-workshop.latex.tools": []}"#);
    assert_eq!(parse_settings(&t).unwrap_err(), NoteError::MalformedSettings);
}

#[test]
fn parse_settings_rejects_wrongly_typed_args() {
    let t = b(
        r#"{
  "latex-workshop.latex.tools": [
    {"name": "n", "command": "c", "args": [1], "env": {}}
  ],
  "latex-workshop.latex.outDir": "o"
}"#,
    );
    assert_eq!(parse_settings(&t).unwrap_err(), NoteError::MalformedSettings);
}

#[test]
fn rewrite_settings_points_at_project() {
    let s = parse_settings(&settings_template()).unwrap();
    let t = rewrite_settings(s, &b("/w/thesis/out"), &b("/w/thesis/.latexmkrc")).unwrap();
    assert_eq!(t.out_dir, b("/w/thesis/out"));
    // the argument after the first "-r" is replaced, everything else kept
    assert_eq!(
        t.tools[0].args,
        vec![b("-interaction=nonstopmode"), b("-r"), b("/w/thesis/.latexmkrc"), b("%DOC%")]
    );
    assert_eq!(t.tools[1].args, vec![b("-c")]);
}

#[test]
fn rewrite_settings_missing_flag_is_rejected() {
    let t = b(
        r#"{
  "latex-workshop.latex.tools": [
    {"name": "n", "command": "c", "args": ["-c"], "env": {}}
  ],
  "latex-workshop.latex.outDir": "o"
}"#,
    );
    let s = parse_settings(&t).unwrap();
    let r = rewrite_settings(s, &b("out"), &b("rc"));
    assert_eq!(r.unwrap_err(), NoteError::MissingPathFlag);
}

#[test]
fn rewrite_settings_flag_in_last_position_is_rejected() {
    // a trailing "-r" has no argument after it to rewrite
    let t = b(
        r#"{
  "latex-workshop.latex.tools": [
    {"name": "n", "command": "c", "args": ["-c", "-r"], "env": {}}
  ],
  "latex-workshop.latex.outDir": "o"
}"#,
    );
    let s = parse_settings(&t).unwrap();
    assert_eq!(rewrite_settings(s, &b("out"), &b("rc")).unwrap_err(), NoteError::MissingPathFlag);
}

#[test]
fn rewrite_settings_no_tools_is_rejected() {
    let t = b(r#"{"latex-workshop.latex.tools": [], "latex-workshop.latex.outDir": "o"}"#);
    let s = parse_settings(&t).unwrap();
    assert_eq!(rewrite_settings(s, &b("out"), &b("rc")).unwrap_err(), NoteError::MissingPathFlag);
}

#[test]
fn rewrite_settings_only_first_flag_rewritten() {
    let t = b(
        r#"{
  "latex-workshop.latex.tools": [
    {"name": "n", "command": "c", "args": ["-r", "first", "-r", "second"], "env": {}}
  ],
  "latex-workshop.latex.outDir": "o"
}"#,
    );
    let s = parse_settings(&t).unwrap();
    let r = rewrite_settings(s, &b("out"), &b("rc")).unwrap();
    assert_eq!(r.tools[0].args, vec![b("-r"), b("rc"), b("-r"), b("second")]);
}

#[test]
fn unknown_fields_survive_rewrite_round_trip() {
    let rewritten =
        settings_artifact(&settings_template(), &b("/w/thesis/out"), &b("/w/thesis/.latexmkrc"))
            .unwrap();
    let v: serde_json::Value = serde_json::from_slice(&rewritten).unwrap();
    assert_eq!(v.get("custom.note").unwrap(), &serde_json::Value::String("keep me".to_string()));
    let rulers = v.get("editor.rulers").unwrap();
    assert_eq!(rulers.as_array().unwrap().len(), 1);
    assert_eq!(rulers.as_array().unwrap()[0].as_i64(), Some(80));
}

#[test]
fn rewritten_artifact_carries_new_paths() {
    let rewritten =
        settings_artifact(&settings_template(), &b("/w/thesis/out"), &b("/w/thesis/.latexmkrc"))
            .unwrap();
    let v: serde_json::Value = serde_json::from_slice(&rewritten).unwrap();
    assert_eq!(v.get("latex-workshop.latex.outDir").unwrap().as_str(), Some("/w/thesis/out"));
    let args = v.get("latex-workshop.latex.tools").unwrap().as_array().unwrap()[0]
        .get("args")
        .unwrap()
        .as_array()
        .unwrap()
        .clone();
    assert_eq!(args[1].as_str(), Some("-r"));
    assert_eq!(args[2].as_str(), Some("/w/thesis/.latexmkrc"));
}

#[test]
fn serialization_round_trips_through_parse() {
    let s = parse_settings(&settings_template()).unwrap();
    let json = settings_to_json(s);
    let again = parse_settings(&json).unwrap();
    assert_eq!(again.out_dir, b("OLD_OUT"));
    assert_eq!(again.tools.len(), 2);
    assert_eq!(again.tools[0].env, vec![(b("PATH"), b("/usr/bin"))]);
}

#[test]
fn settings_artifact_propagates_malformed_template() {
    let r = settings_artifact(&b("not json"), &b("o"), &b("r"));
    assert_eq!(r.unwrap_err(), NoteError::MalformedSettings);
}

#[test]
fn settings_artifact_is_deterministic() {
    let once = settings_artifact(&settings_template(), &b("o"), &b("r")).unwrap();
    let again = settings_artifact(&settings_template(), &b("o"), &b("r")).unwrap();
    assert_eq!(once, again);
}
