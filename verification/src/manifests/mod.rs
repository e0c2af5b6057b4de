//! Manifests and where they come from.
use crate::errors::ContentError;
use vstd::prelude::*;

pub mod providers;

verus! {

/// A file below the manifest's files directory, as it was read.
#[derive(Clone, Debug, PartialEq, Eq)]
pub struct SourceFile {
    /// The path of the file, relative to that directory.
    pub name: String,
    pub contents: String,
}

/// A template as the engine rendered it for this run.
#[derive(Clone, Debug, PartialEq, Eq)]
pub struct Rendering {
    /// The name of the template: the path of its file, as a source file has it.
    pub name: String,
    /// What the template rendered to; nothing where the engine failed.
    pub text: Option<String>,
}

/// What planning reads of the manifest that declared an action: its files as
/// they are, and those of its templates that were rendered. Rendering is the
/// engine's work and is done before planning; `templates_needed` says for which
/// templates.
#[derive(Clone, Debug, PartialEq, Eq)]
pub struct Manifest {
    /// The files of the manifest, in the order in which they were read.
    pub files: Vec<SourceFile>,
    /// The renderings, in the order in which they were made.
    pub rendered: Vec<Rendering>,
}

/// A source file as contracts speak of it.
pub struct SourceFileView {
    pub name: Seq<char>,
    pub contents: Seq<char>,
}

/// A rendering as contracts speak of it.
pub struct RenderingView {
    pub name: Seq<char>,
    pub text: Option<Seq<char>>,
}

/// A manifest as contracts speak of it.
pub struct ManifestView {
    pub files: Seq<SourceFileView>,
    pub rendered: Seq<RenderingView>,
}

impl DeepView for SourceFile {
    type V = SourceFileView;

    open spec fn deep_view(&self) -> SourceFileView {
        SourceFileView { name: self.name@, contents: self.contents@ }
    }
}

impl View for SourceFile {
    type V = SourceFileView;

    open spec fn view(&self) -> SourceFileView {
        self.deep_view()
    }
}

impl DeepView for Rendering {
    type V = RenderingView;

    open spec fn deep_view(&self) -> RenderingView {
        RenderingView { name: self.name@, text: crate::atoms::text_of(self.text) }
    }
}

impl View for Rendering {
    type V = RenderingView;

    open spec fn view(&self) -> RenderingView {
        self.deep_view()
    }
}

impl View for Manifest {
    type V = ManifestView;

    open spec fn view(&self) -> ManifestView {
        ManifestView { files: self.files.deep_view(), rendered: self.rendered.deep_view() }
    }
}

/// Contents as contracts speak of them.
pub open spec fn text_or_error(contents: Result<String, ContentError>) -> Result<
    Seq<char>,
    ContentError,
> {
    match contents {
        Ok(text) => Ok(text@),
        Err(error) => Err(error),
    }
}

/// Whether `files[i]` is the first file called `name`.
pub open spec fn first_named(files: Seq<SourceFileView>, name: Seq<char>, i: int) -> bool {
    &&& 0 <= i < files.len()
    &&& files[i].name == name
    &&& forall|j: int| 0 <= j < i ==> (#[trigger] files[j]).name != name
}

/// What the file called `name` holds among `files`: the first of that name
/// counts, and a name that no file has is a `ContentError::Source`.
pub open spec fn source_in(files: Seq<SourceFileView>, name: Seq<char>) -> Result<
    Seq<char>,
    ContentError,
> {
    if exists|i: int| first_named(files, name, i) {
        Ok(files[choose|i: int| first_named(files, name, i)].contents)
    } else {
        Err(ContentError::Source)
    }
}

/// Whether `rendered[i]` is the first rendering of the template called `name`.
pub open spec fn first_rendering(rendered: Seq<RenderingView>, name: Seq<char>, i: int) -> bool {
    &&& 0 <= i < rendered.len()
    &&& rendered[i].name == name
    &&& forall|j: int| 0 <= j < i ==> (#[trigger] rendered[j]).name != name
}

/// What the template called `name` rendered to: the first rendering of that
/// name counts. A template that the engine failed on, or that was not rendered
/// at all, is a `ContentError::Render`.
pub open spec fn rendered_in(rendered: Seq<RenderingView>, name: Seq<char>) -> Result<
    Seq<char>,
    ContentError,
> {
    if exists|i: int| first_rendering(rendered, name, i) {
        match rendered[choose|i: int| first_rendering(rendered, name, i)].text {
            Some(text) => Ok(text),
            None => Err(ContentError::Render),
        }
    } else {
        Err(ContentError::Render)
    }
}

impl Manifest {
    /// What the source file called `name` holds.
    pub open spec fn source(&self, name: Seq<char>) -> Result<Seq<char>, ContentError> {
        source_in(self@.files, name)
    }

    /// What the template called `name` rendered to.
    pub open spec fn rendering(&self, name: Seq<char>) -> Result<Seq<char>, ContentError> {
        rendered_in(self@.rendered, name)
    }

    /// The contents of the source file called `name`.
    pub fn load(&self, name: &str) -> (contents: Result<String, ContentError>)
        ensures
            text_or_error(contents) == self.source(name@),
    {
        let wanted = name.to_owned();
        let mut i: usize = 0;
        while i < self.files.len()
            invariant
                i <= self.files.len(),
                wanted@ == name@,
                forall|j: int| 0 <= j < i ==> (#[trigger] self@.files[j]).name != name@,
            decreases self.files.len() - i,
        {
            if self.files[i].name == wanted {
                assert(first_named(self@.files, name@, i as int));
                return Ok(self.files[i].contents.clone());
            }
            i = i + 1;
        }
        Err(ContentError::Source)
    }

    /// The text that the template called `name` was rendered to.
    pub fn render(&self, name: &str) -> (contents: Result<String, ContentError>)
        ensures
            text_or_error(contents) == self.rendering(name@),
    {
        let wanted = name.to_owned();
        let mut i: usize = 0;
        while i < self.rendered.len()
            invariant
                i <= self.rendered.len(),
                wanted@ == name@,
                forall|j: int| 0 <= j < i ==> (#[trigger] self@.rendered[j]).name != name@,
            decreases self.rendered.len() - i,
        {
            if self.rendered[i].name == wanted {
                assert(first_rendering(self@.rendered, name@, i as int));
                return match &self.rendered[i].text {
                    Some(text) => Ok(text.clone()),
                    None => Err(ContentError::Render),
                };
            }
            i = i + 1;
        }
        Err(ContentError::Render)
    }
}

} // verus!
