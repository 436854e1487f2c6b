//! The materializer: from a project specification, a resolved
//! configuration and the template store, compute the complete plan of one
//! new project tree — the subdirectories to create and every file with its
//! full content. The caller performs the filesystem work; a plan is only
//! handed out when every rewrite succeeded, so a failed run writes nothing.

use crate::config::Config;
use crate::error::NoteError;
use crate::rewrite::{
    anchored_result, replace_all_literal, replace_all_spec, replace_first_anchored,
    uppercase_first, uppercase_first_spec,
};
use crate::settings::{settings_artifact, settings_has_flag, settings_ok, settings_result};
use crate::template::{ArtifactKind, TemplateStore};
use crate::text::{bytes_of, copy_bytes, join_path, joined, push_all};
use vstd::prelude::*;
use vstd::string::StringSliceAdditionalSpecFns;

verus! {

use crate::config::Language;

/// What one invocation creates: the project's name, its root directory
/// (the name under the working directory), and its language.
pub struct ProjectSpec {
    pub name: Vec<u8>,
    pub root: Vec<u8>,
    pub language: Language,
}

impl ProjectSpec {
    /// The specification for a new project named `name` under `cwd`.
    pub fn new(cwd: &Vec<u8>, name: &Vec<u8>, language: Language) -> (r: ProjectSpec)
        requires
            name@.len() > 0,
        ensures
            r.name@ == name@,
            r.root@ == joined(cwd@, name@),
            r.language == language,
    {
        ProjectSpec { name: copy_bytes(name), root: join_path(cwd, name), language }
    }
}

/// One file of the plan: a path relative to the project root, and the full
/// content to write there.
#[derive(Debug)]
pub struct PlannedFile {
    pub path: Vec<u8>,
    pub content: Vec<u8>,
}

/// Everything `create` decides: the root to create, the subdirectories
/// under it, and the artifact files in their fixed order.
#[derive(Debug)]
pub struct ProjectPlan {
    pub root: Vec<u8>,
    pub subdirs: Vec<Vec<u8>>,
    pub files: Vec<PlannedFile>,
}

/// How a create invocation ended short of an error: a fresh plan, or the
/// non-fatal report that the project directory already exists (in which
/// case nothing is to be written).
#[derive(Debug)]
pub enum CreateOutcome {
    AlreadyExists,
    Created(ProjectPlan),
}

/// The bibliography reference written into the document template:
/// `../bib/<name>.bib`, relative to the source directory.
pub open spec fn bib_reference(name: Seq<u8>) -> Seq<u8> {
    "../bib/".spec_bytes() + name + ".bib".spec_bytes()
}

/// The document template with its author field set to `author` and its
/// bibliography-resource field pointed at the project's bibliography.
pub open spec fn tex_result(template: Seq<u8>, author: Seq<u8>, name: Seq<u8>) -> Seq<u8> {
    anchored_result(
        anchored_result(template, "author".spec_bytes(), author),
        "addbibresource".spec_bytes(),
        bib_reference(name),
    )
}

/// The readme with the placeholder tokens substituted; the longest token
/// goes first, so no placeholder is rewritten inside another's replacement.
pub open spec fn readme_result(template: Seq<u8>, name: Seq<u8>) -> Seq<u8> {
    replace_all_spec(
        replace_all_spec(
            replace_all_spec(
                template,
                "CAPITALIZED_PROJECT_NAME".spec_bytes(),
                uppercase_first_spec(name),
            ),
            "PROJECT_NAME".spec_bytes(),
            name,
        ),
        "SOURCE_FILE".spec_bytes(),
        name,
    )
}

/// Where the document source is written, relative to the project root.
pub open spec fn tex_rel_path(name: Seq<u8>) -> Seq<u8> {
    "src/".spec_bytes() + name + ".tex".spec_bytes()
}

/// Where the bibliography stub is written, relative to the project root.
pub open spec fn bib_rel_path(name: Seq<u8>) -> Seq<u8> {
    "bib/".spec_bytes() + name + ".bib".spec_bytes()
}

/// Compute the plan of one new project. `root_exists` reports whether the
/// project directory is already there; if so the outcome is the non-fatal
/// early exit and nothing is planned. Otherwise the plan holds exactly the
/// fixed subdirectory set and the six artifacts in their fixed order, each
/// with its rewritten content.
pub fn create(project: &ProjectSpec, config: &Config, store: &TemplateStore, root_exists: bool) -> (
    r: Result<CreateOutcome, NoteError>)
    requires
        project.name@.len() > 0,
    ensures
        root_exists <==> r == Ok::<CreateOutcome, NoteError>(CreateOutcome::AlreadyExists),
        !root_exists && store.bundle_of(project.language) is None ==> r == Err::<CreateOutcome, NoteError>(
            NoteError::UnsupportedLanguage,
        ),
        !root_exists && store.bundle_of(project.language) is Some && settings_ok(store.settings@)
            && settings_has_flag(store.settings@) ==> (r matches Ok(o) && o is Created),
        match r {
            Ok(CreateOutcome::AlreadyExists) => root_exists,
            Ok(CreateOutcome::Created(plan)) => {
                &&& !root_exists
                &&& store.bundle_of(project.language) is Some
                &&& plan.root@ == project.root@
                &&& plan.subdirs@.len() == 4
                &&& plan.subdirs@[0]@ == ".vscode".spec_bytes()
                &&& plan.subdirs@[1]@ == "src".spec_bytes()
                &&& plan.subdirs@[2]@ == "out".spec_bytes()
                &&& plan.subdirs@[3]@ == "bib".spec_bytes()
                &&& plan.files@.len() == 6
                &&& plan.files@[0].path@ == ".vscode/settings.json".spec_bytes()
                &&& plan.files@[0].content@ == settings_result(
                    store.settings@,
                    joined(project.root@, "out".spec_bytes()),
                    joined(project.root@, ".latexmkrc".spec_bytes()),
                )
                &&& plan.files@[1].path@ == ".latexmkrc".spec_bytes()
                &&& plan.files@[1].content@ == store.latexmkrc_of(project.language)
                &&& plan.files@[2].path@ == tex_rel_path(project.name@)
                &&& plan.files@[2].content@ == tex_result(
                    store.tex_template_of(project.language),
                    config.author_name@,
                    project.name@,
                )
                &&& plan.files@[3].path@ == bib_rel_path(project.name@)
                &&& plan.files@[3].content@ == store.bib@
                &&& plan.files@[4].path@ == ".gitignore".spec_bytes()
                &&& plan.files@[4].content@ == store.gitignore@
                &&& plan.files@[5].path@ == "README.md".spec_bytes()
                &&& plan.files@[5].content@ == readme_result(store.readme@, project.name@)
            },
            Err(e) => {
                &&& !root_exists
                &&& (e == NoteError::UnsupportedLanguage <==> store.bundle_of(project.language)
                    is None)
                &&& (e == NoteError::MalformedSettings ==> !settings_ok(store.settings@))
                &&& (e == NoteError::MissingPathFlag ==> settings_ok(store.settings@)
                    && !settings_has_flag(store.settings@))
                &&& (e == NoteError::UnsupportedLanguage || e == NoteError::MalformedSettings || e
                    == NoteError::MissingPathFlag)
            },
        },
{
    if root_exists {
        return Ok(CreateOutcome::AlreadyExists);
    }
    if !store.supports(project.language) {
        return Err(NoteError::UnsupportedLanguage);
    }
    let mut subdirs: Vec<Vec<u8>> = Vec::new();
    subdirs.push(bytes_of(".vscode"));
    subdirs.push(bytes_of("src"));
    subdirs.push(bytes_of("out"));
    subdirs.push(bytes_of("bib"));

    let mut files: Vec<PlannedFile> = Vec::new();

    // editor settings: wire in the output directory and the build-recipe path
    let settings_template = match store.fetch(ArtifactKind::EditorSettings, project.language) {
        Ok(b) => b,
        Err(e) => return Err(e),
    };
    let out_rel = bytes_of("out");
    let out_dir = join_path(&project.root, &out_rel);
    let rc_rel = bytes_of(".latexmkrc");
    let rc_path = join_path(&project.root, &rc_rel);
    let settings_content = match settings_artifact(settings_template, &out_dir, &rc_path) {
        Ok(b) => b,
        Err(e) => return Err(e),
    };
    files.push(PlannedFile { path: bytes_of(".vscode/settings.json"), content: settings_content });

    // build recipe: the language's variant, verbatim
    let latexmkrc = match store.fetch(ArtifactKind::BuildRecipe, project.language) {
        Ok(b) => b,
        Err(e) => return Err(e),
    };
    files.push(PlannedFile { path: bytes_of(".latexmkrc"), content: copy_bytes(latexmkrc) });

    // document template: author and bibliography reference rewritten
    let tex_template = match store.fetch(ArtifactKind::DocumentTemplate, project.language) {
        Ok(b) => b,
        Err(e) => return Err(e),
    };
    let author_field = bytes_of("author");
    let with_author = replace_first_anchored(tex_template, &author_field, &config.author_name);
    let bib_field = bytes_of("addbibresource");
    let mut bib_ref = bytes_of("../bib/");
    push_all(&mut bib_ref, &project.name);
    let bib_suffix = bytes_of(".bib");
    push_all(&mut bib_ref, &bib_suffix);
    assert(bib_ref@ == bib_reference(project.name@));
    let tex_content = replace_first_anchored(&with_author, &bib_field, &bib_ref);
    let mut tex_path = bytes_of("src/");
    push_all(&mut tex_path, &project.name);
    let tex_suffix = bytes_of(".tex");
    push_all(&mut tex_path, &tex_suffix);
    files.push(PlannedFile { path: tex_path, content: tex_content });

    // bibliography stub: verbatim
    let bib = match store.fetch(ArtifactKind::Bibliography, project.language) {
        Ok(b) => b,
        Err(e) => return Err(e),
    };
    let mut bib_path = bytes_of("bib/");
    push_all(&mut bib_path, &project.name);
    let bib_path_suffix = bytes_of(".bib");
    push_all(&mut bib_path, &bib_path_suffix);
    files.push(PlannedFile { path: bib_path, content: copy_bytes(bib) });

    // gitignore: verbatim
    let gitignore = match store.fetch(ArtifactKind::GitIgnore, project.language) {
        Ok(b) => b,
        Err(e) => return Err(e),
    };
    files.push(PlannedFile { path: bytes_of(".gitignore"), content: copy_bytes(gitignore) });

    // readme: placeholder tokens substituted, longest first
    let readme = match store.fetch(ArtifactKind::Readme, project.language) {
        Ok(b) => b,
        Err(e) => return Err(e),
    };
    let cap_name = uppercase_first(&project.name);
    let cap_token = bytes_of("CAPITALIZED_PROJECT_NAME");
    let readme1 = replace_all_literal(readme, &cap_token, &cap_name);
    let name_token = bytes_of("PROJECT_NAME");
    let readme2 = replace_all_literal(&readme1, &name_token, &project.name);
    let source_token = bytes_of("SOURCE_FILE");
    let readme3 = replace_all_literal(&readme2, &source_token, &project.name);
    files.push(PlannedFile { path: bytes_of("README.md"), content: readme3 });

    Ok(
        CreateOutcome::Created(
            ProjectPlan { root: copy_bytes(&project.root), subdirs, files },
        ),
    )
}

} // verus!
