//! The template store: the immutable payloads a project is materialized
//! from, keyed by logical name and, where templates are authored per
//! language, by language. A language with no authored templates yields the
//! unsupported-variant error instead of silently falling back.

use crate::config::Language;
use crate::error::NoteError;
use vstd::prelude::*;

verus! {

/// The templates that exist once per supported language.
pub struct LangTemplates {
    pub latexmkrc: Vec<u8>,
    pub tex_template: Vec<u8>,
}

/// All template payloads: the language-agnostic ones, and an optional
/// bundle per language. A missing bundle means the language variant is not
/// authored.
pub struct TemplateStore {
    pub settings: Vec<u8>,
    pub bib: Vec<u8>,
    pub gitignore: Vec<u8>,
    pub readme: Vec<u8>,
    pub english: Option<LangTemplates>,
    pub japanese: Option<LangTemplates>,
}

/// The logical name of one artifact written into a new project tree.
#[derive(Debug, Clone, Copy, PartialEq, Eq, Structural)]
pub enum ArtifactKind {
    EditorSettings,
    BuildRecipe,
    DocumentTemplate,
    Bibliography,
    GitIgnore,
    Readme,
}

impl TemplateStore {
    /// The language's template bundle, if the variant is authored.
    pub open spec fn bundle_of(&self, language: Language) -> Option<LangTemplates> {
        match language {
            Language::English => self.english,
            Language::Japanese => self.japanese,
        }
    }

    /// The build-recipe payload for a language (empty when not authored).
    pub open spec fn latexmkrc_of(&self, language: Language) -> Seq<u8> {
        match self.bundle_of(language) {
            Some(b) => b.latexmkrc@,
            None => Seq::<u8>::empty(),
        }
    }

    /// The document-template payload for a language (empty when not
    /// authored).
    pub open spec fn tex_template_of(&self, language: Language) -> Seq<u8> {
        match self.bundle_of(language) {
            Some(b) => b.tex_template@,
            None => Seq::<u8>::empty(),
        }
    }

    /// The payload `fetch` hands back, if the artifact is available for the
    /// language.
    pub open spec fn artifact_of(&self, kind: ArtifactKind, language: Language) -> Option<Vec<u8>> {
        match kind {
            ArtifactKind::EditorSettings => Some(self.settings),
            ArtifactKind::BuildRecipe => match self.bundle_of(language) {
                Some(b) => Some(b.latexmkrc),
                None => None,
            },
            ArtifactKind::DocumentTemplate => match self.bundle_of(language) {
                Some(b) => Some(b.tex_template),
                None => None,
            },
            ArtifactKind::Bibliography => Some(self.bib),
            ArtifactKind::GitIgnore => Some(self.gitignore),
            ArtifactKind::Readme => Some(self.readme),
        }
    }

    /// Whether templates are authored for the language.
    pub fn supports(&self, language: Language) -> (r: bool)
        ensures
            r == (self.bundle_of(language) is Some),
    {
        match language {
            Language::English => self.english.is_some(),
            Language::Japanese => self.japanese.is_some(),
        }
    }

    /// The template payload for one artifact of one language. Fails with
    /// the unsupported-variant error exactly when the artifact is authored
    /// per language and the language's bundle is missing; never mutates the
    /// store.
    pub fn fetch(&self, kind: ArtifactKind, language: Language) -> (r: Result<&Vec<u8>, NoteError>)
        ensures
            match r {
                Ok(b) => self.artifact_of(kind, language) == Some(*b),
                Err(e) => e == NoteError::UnsupportedLanguage && self.artifact_of(kind, language)
                    is None,
            },
    {
        match kind {
            ArtifactKind::EditorSettings => Ok(&self.settings),
            ArtifactKind::BuildRecipe => match language {
                Language::English => match &self.english {
                    Some(b) => Ok(&b.latexmkrc),
                    None => Err(NoteError::UnsupportedLanguage),
                },
                Language::Japanese => match &self.japanese {
                    Some(b) => Ok(&b.latexmkrc),
                    None => Err(NoteError::UnsupportedLanguage),
                },
            },
            ArtifactKind::DocumentTemplate => match language {
                Language::English => match &self.english {
                    Some(b) => Ok(&b.tex_template),
                    None => Err(NoteError::UnsupportedLanguage),
                },
                Language::Japanese => match &self.japanese {
                    Some(b) => Ok(&b.tex_template),
                    None => Err(NoteError::UnsupportedLanguage),
                },
            },
            ArtifactKind::Bibliography => Ok(&self.bib),
            ArtifactKind::GitIgnore => Ok(&self.gitignore),
            ArtifactKind::Readme => Ok(&self.readme),
        }
    }
}

} // verus!
