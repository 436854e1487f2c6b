use note::config::{Config, Language, Scope};
use note::error::NoteError;
use note::project::{create, CreateOutcome, ProjectSpec};
use note::template::{LangTemplates, TemplateStore};

fn b(s: &str) -> Vec<u8> {
    s.as_bytes().to_vec()
}

fn settings_template() -> Vec<u8> {
    b(r#"{
  "latex-workshop.latex.tools": [
    {"name": "latexmk", "command": "latexmk", "args": ["-r", "OLD_RC"], "env": {}}
  ],
  "latex-workshop.latex.outDir": "OLD_OUT",
  "custom.note": "keep me"
}"#)
}

fn tex_template(greeting: &str) -> Vec<u8> {
    let mut t = String::new();
    t.push_str("\\documentclass{article}\n");
    t.push_str("\\author{template author}\n");
    t.push_str("\\addbibresource{template.bib}\n");
    t.push_str(greeting);
    t.into_bytes()
}

fn store() -> TemplateStore {
    TemplateStore {
        settings: settings_template(),
        bib: b("% bibliography stub\n"),
        gitignore: b("out/\n"),
        readme: b("# CAPITALIZED_PROJECT_NAME\nBuild PROJECT_NAME from src/SOURCE_FILE.tex\n"),
        english: Some(LangTemplates {
            latexmkrc: b("$pdf_mode = 1;\n"),
            tex_template: tex_template("hello\n"),
        }),
        japanese: Some(LangTemplates {
            latexmkrc: b("$latex = 'uplatex';\n"),
            tex_template: tex_template("konnichiwa\n"),
        }),
    }
}

fn ada_config() -> Config {
    Config { scope: Scope::Global, author_name: b("Ada"), language: Language::Japanese }
}

fn created_plan(r: Result<CreateOutcome, NoteError>) -> note::project::ProjectPlan {
    match r.unwrap() {
        CreateOutcome::Created(plan) => plan,
        CreateOutcome::AlreadyExists => panic!("expected a fresh plan"),
    }
}

#[test]
fn create_plans_exactly_the_fixed_tree() {
    for language in [Language::English, Language::Japanese] {
        let project = ProjectSpec::new(&b("/w"), &b("thesis"), language);
        let plan = created_plan(create(&project, &ada_config(), &store(), false));
        assert_eq!(plan.root, b("/w/thesis"));
        assert_eq!(plan.subdirs, vec![b(".vscode"), b("src"), b("out"), b("bib")]);
        let paths: Vec<Vec<u8>> = plan.files.iter().map(|f| f.path.clone()).collect();
        assert_eq!(
            paths,
            vec![
                b(".vscode/settings.json"),
                b(".latexmkrc"),
                b("src/thesis.tex"),
                b("bib/thesis.bib"),
                b(".gitignore"),
                b("README.md"),
            ]
        );
    }
}

#[test]
fn create_existing_directory_is_nonfatal_early_exit() {
    let project = ProjectSpec::new(&b("/w"), &b("thesis"), Language::Japanese);
    let r = create(&project, &ada_config(), &store(), true).unwrap();
    assert!(matches!(r, CreateOutcome::AlreadyExists));
}

#[test]
fn create_twice_second_run_reports_already_exists() {
    let project = ProjectSpec::new(&b("/w"), &b("thesis"), Language::Japanese);
    // first run: the directory is fresh and a full plan comes back
    let first = create(&project, &ada_config(), &store(), false).unwrap();
    assert!(matches!(first, CreateOutcome::Created(_)));
    // second run: the directory now exists; no plan, so nothing is written
    // and the first run's tree stays as it was
    let second = create(&project, &ada_config(), &store(), true).unwrap();
    assert!(matches!(second, CreateOutcome::AlreadyExists));
}

#[test]
fn create_thesis_japanese_end_to_end() {
    let project = ProjectSpec::new(&b("/w"), &b("thesis"), Language::Japanese);
    let plan = created_plan(create(&project, &ada_config(), &store(), false));

    let tex = String::from_utf8(plan.files[2].content.clone()).unwrap();
    assert!(tex.contains("\\author{Ada}"));
    assert!(tex.contains("\\addbibresource{../bib/thesis.bib}"));
    assert!(tex.contains("konnichiwa"));

    let settings: serde_json::Value = serde_json::from_slice(&plan.files[0].content).unwrap();
    assert_eq!(
        settings.get("latex-workshop.latex.outDir").unwrap().as_str(),
        Some("/w/thesis/out")
    );
    let args = settings.get("latex-workshop.latex.tools").unwrap().as_array().unwrap()[0]
        .get("args")
        .unwrap()
        .as_array()
        .unwrap()
        .clone();
    assert_eq!(args[0].as_str(), Some("-r"));
    assert_eq!(args[1].as_str(), Some("/w/thesis/.latexmkrc"));

    assert_eq!(plan.files[1].content, b("$latex = 'uplatex';\n"));
    assert_eq!(plan.files[3].content, b("% bibliography stub\n"));
    assert_eq!(plan.files[4].content, b("out/\n"));
    assert_eq!(
        plan.files[5].content,
        b("# Thesis\nBuild thesis from src/thesis.tex\n")
    );
}

#[test]
fn create_english_takes_the_english_bundle() {
    let project = ProjectSpec::new(&b("/w"), &b("notes"), Language::English);
    let plan = created_plan(create(&project, &ada_config(), &store(), false));
    assert_eq!(plan.files[1].content, b("$pdf_mode = 1;\n"));
    let tex = String::from_utf8(plan.files[2].content.clone()).unwrap();
    assert!(tex.contains("hello"));
    assert!(tex.contains("\\author{Ada}"));
}

#[test]
fn create_unsupported_language_fails_immediately() {
    let mut s = store();
    s.english = None;
    let project = ProjectSpec::new(&b("/w"), &b("thesis"), Language::English);
    let r = create(&project, &ada_config(), &s, false);
    assert_eq!(r.unwrap_err(), NoteError::UnsupportedLanguage);
}

#[test]
fn create_missing_anchor_fails_and_plans_nothing() {
    let mut s = store();
    s.settings = b(
        r#"{
  "latex-workshop.latex.tools": [
    {"name": "latexmk", "command": "latexmk", "args": ["-c"], "env": {}}
  ],
  "latex-workshop.latex.outDir": "OLD_OUT"
}"#,
    );
    let project = ProjectSpec::new(&b("/w"), &b("thesis"), Language::Japanese);
    let r = create(&project, &ada_config(), &s, false);
    // the named malformed-settings condition surfaces and no plan exists,
    // so no file of the project tree is ever written
    assert_eq!(r.unwrap_err(), NoteError::MissingPathFlag);
}

#[test]
fn create_malformed_settings_template_fails() {
    let mut s = store();
    s.settings = b("not json at all");
    let project = ProjectSpec::new(&b("/w"), &b("thesis"), Language::Japanese);
    assert_eq!(
        create(&project, &ada_config(), &s, false).unwrap_err(),
        NoteError::MalformedSettings
    );
}

#[test]
fn error_messages_name_the_condition() {
    assert_eq!(
        NoteError::MissingPathFlag.message(),
        "\"-r\" option not found in templates/.vscode/settings.json."
    );
    assert_eq!(NoteError::MalformedSettings.message(), "malformed settings template");
}
