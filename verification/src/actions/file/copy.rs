//! Copying a file of the manifest to the machine.
use crate::atoms::{command, text_of, Atom, AtomView};
use crate::errors::{ContentError, SchemaError};
use crate::manifests::{rendered_in, source_in, text_or_error, Manifest, ManifestView};
use crate::outside::{parent_directory, path_parent};
use vstd::prelude::*;

verus! {

/// Copies a file of the manifest to a path of the machine, rendered first where
/// it is a template.
#[derive(Clone, Debug, PartialEq)]
pub struct FileCopy {
    /// The name of the source among the manifest's files.
    pub from: String,
    /// The path to write.
    pub to: String,
    /// The permission bits of the written file.
    pub chmod: u32,
    /// Whether the source is a template.
    pub template: bool,
}

/// A file copy as a manifest spells it: any field may be absent, and `chmod` is
/// the decimal reading of digits that were meant as octal.
#[derive(Clone, Debug, PartialEq)]
pub struct RawFileCopy {
    pub from: Option<String>,
    pub to: Option<String>,
    pub chmod: Option<u32>,
    pub template: Option<bool>,
}

/// Where a copy gets its contents from.
#[derive(Clone, Debug, PartialEq, Eq)]
pub enum ContentSource {
    /// The template of this name, as the engine renders it.
    Template(String),
    /// The source file of this name, as it is.
    File(String),
}

/// The source of contents as contracts speak of it.
pub enum ContentSourceView {
    Template(Seq<char>),
    File(Seq<char>),
}

impl View for ContentSource {
    type V = ContentSourceView;

    open spec fn view(&self) -> ContentSourceView {
        match *self {
            ContentSource::Template(name) => ContentSourceView::Template(name@),
            ContentSource::File(name) => ContentSourceView::File(name@),
        }
    }
}

/// A file copy as contracts speak of it.
pub struct FileCopyView {
    pub from: Seq<char>,
    pub to: Seq<char>,
    pub chmod: u32,
    pub template: bool,
}

/// A manifest entry as contracts speak of it.
pub struct RawFileCopyView {
    pub from: Option<Seq<char>>,
    pub to: Option<Seq<char>>,
    pub chmod: Option<u32>,
    pub template: Option<bool>,
}

impl View for FileCopy {
    type V = FileCopyView;

    open spec fn view(&self) -> FileCopyView {
        FileCopyView { from: self.from@, to: self.to@, chmod: self.chmod, template: self.template }
    }
}

impl View for RawFileCopy {
    type V = RawFileCopyView;

    open spec fn view(&self) -> RawFileCopyView {
        RawFileCopyView {
            from: text_of(self.from),
            to: text_of(self.to),
            chmod: self.chmod,
            template: self.template,
        }
    }
}

/// Whether every decimal digit of `literal` is an octal digit.
pub open spec fn octal_digits_only(literal: nat) -> bool
    decreases literal,
{
    if literal < 10 {
        literal < 8
    } else {
        literal % 10 < 8 && octal_digits_only(literal / 10)
    }
}

/// The number that the decimal digits of `literal` spell when they are read in
/// base 8: `644` spells 6 * 64 + 4 * 8 + 4.
pub open spec fn octal_value(literal: nat) -> nat
    decreases literal,
{
    if literal < 10 {
        literal
    } else {
        8 * octal_value(literal / 10) + literal % 10
    }
}

/// Reading digits in base 8 never gives more than reading them in base 10.
pub proof fn lemma_octal_value_bounded(literal: nat)
    ensures
        octal_value(literal) <= literal,
    decreases literal,
{
    if literal >= 10 {
        lemma_octal_value_bounded(literal / 10);
    }
}

/// Decodes a permission mode that was written with octal digits and read as a
/// decimal number. A literal with a digit 8 or 9 is refused.
pub fn from_octal(literal: u32) -> (mode: Result<u32, SchemaError>)
    ensures
        octal_digits_only(literal as nat) ==> mode == Ok::<u32, SchemaError>(
            octal_value(literal as nat) as u32,
        ),
        !octal_digits_only(literal as nat) ==> mode == Err::<u32, SchemaError>(
            SchemaError::InvalidChmod,
        ),
    decreases literal,
{
    if literal < 10 {
        if literal < 8 {
            Ok(literal)
        } else {
            Err(SchemaError::InvalidChmod)
        }
    } else {
        let digit: u32 = literal % 10;
        if digit >= 8 {
            return Err(SchemaError::InvalidChmod);
        }
        match from_octal(literal / 10) {
            Ok(high) => {
                proof {
                    lemma_octal_value_bounded((literal / 10) as nat);
                }
                Ok(high * 8 + digit)
            },
            Err(error) => Err(error),
        }
    }
}

/// The mode of a copy that names none: `rw-r--r--`.
pub fn default_chmod() -> (mode: u32)
    ensures
        mode == 0o644,
        mode == octal_value(644),
{
    assert(octal_value(644) == 420) by {
        reveal_with_fuel(octal_value, 3);
    }
    0o644
}

/// A copy that does not say whether its source is a template copies it as it is.
pub fn default_template() -> (template: bool)
    ensures
        !template,
{
    false
}

/// A plan or the reason why there is none, as contracts speak of it.
pub open spec fn outcome_view(outcome: Result<Vec<Atom>, ContentError>) -> Result<
    Seq<AtomView>,
    ContentError,
> {
    match outcome {
        Ok(plan) => Ok(plan.deep_view()),
        Err(error) => Err(error),
    }
}

/// A copy has a plan exactly where its contents were resolved, and the plan is
/// always the same four atoms in the same order: make the directory above the
/// destination, create the file, set its mode, write its contents.
pub proof fn copy_plans_have_four_atoms(
    copy: FileCopyView,
    parent: Seq<char>,
    contents: Result<Seq<char>, ContentError>,
)
    ensures
        copy.copy_outcome(parent, contents) is Ok <==> contents is Ok,
        copy.copy_outcome(parent, contents) matches Ok(plan) ==> {
            &&& plan.len() == 4
            &&& plan[0] == command("mkdir"@, seq!["-p"@, parent])
            &&& plan[1] == AtomView::Create { path: copy.to }
            &&& plan[2] == AtomView::Chmod { path: copy.to, mode: copy.chmod }
            &&& plan[3] == AtomView::SetContents { path: copy.to, contents: contents->Ok_0 }
        },
{
}

impl RawFileCopyView {
    /// The mode that the entry asks for: what its literal decodes to, `rw-r--r--`
    /// where it has none.
    pub open spec fn mode(self) -> Result<u32, SchemaError> {
        match self.chmod {
            None => Ok(0o644u32),
            Some(literal) => if octal_digits_only(literal as nat) {
                Ok(octal_value(literal as nat) as u32)
            } else {
                Err(SchemaError::InvalidChmod)
            },
        }
    }

    /// The file copy that the entry declares. `from` and `to` are required, and a
    /// missing `from` is reported before a missing `to`, and that before a bad
    /// `chmod`; `template` is false where absent.
    pub open spec fn decoded(self) -> Result<FileCopyView, SchemaError> {
        if self.from is None {
            Err(SchemaError::MissingFrom)
        } else if self.to is None {
            Err(SchemaError::MissingTo)
        } else if self.mode() is Err {
            Err(SchemaError::InvalidChmod)
        } else {
            Ok(
                FileCopyView {
                    from: self.from->0,
                    to: self.to->0,
                    chmod: self.mode()->Ok_0,
                    template: self.template == Some(true),
                },
            )
        }
    }
}

impl FileCopyView {
    /// Where the copy gets its contents from: `from` names a template where
    /// `template` is set, a source file otherwise.
    pub open spec fn source(self) -> ContentSourceView {
        if self.template {
            ContentSourceView::Template(self.from)
        } else {
            ContentSourceView::File(self.from)
        }
    }

    /// What the destination is to hold, going by `manifest`: what the template
    /// rendered to, or what the source file holds.
    pub open spec fn contents(self, manifest: ManifestView) -> Result<Seq<char>, ContentError> {
        match self.source() {
            ContentSourceView::Template(name) => rendered_in(manifest.rendered, name),
            ContentSourceView::File(name) => source_in(manifest.files, name),
        }
    }

    /// What planning the copy below `parent` comes to, going by `manifest`.
    pub open spec fn outcome(self, manifest: ManifestView, parent: Seq<char>) -> Result<
        Seq<AtomView>,
        ContentError,
    > {
        self.copy_outcome(parent, self.contents(manifest))
    }

    /// The four atoms of a copy, given the directory above the destination and
    /// what the file is to hold: make that directory, create the file, set its
    /// mode, write its contents.
    pub open spec fn copy_plan(self, parent: Seq<char>, contents: Seq<char>) -> Seq<AtomView> {
        seq![
            command("mkdir"@, seq!["-p"@, parent]),
            AtomView::Create { path: self.to },
            AtomView::Chmod { path: self.to, mode: self.chmod },
            AtomView::SetContents { path: self.to, contents },
        ]
    }

    /// What planning comes to once the contents are resolved: the four atoms, or
    /// the error that kept the contents away.
    pub open spec fn copy_outcome(
        self,
        parent: Seq<char>,
        contents: Result<Seq<char>, ContentError>,
    ) -> Result<Seq<AtomView>, ContentError> {
        match contents {
            Ok(contents) => Ok(self.copy_plan(parent, contents)),
            Err(error) => Err(error),
        }
    }
}

/// A decoded entry as contracts speak of it.
pub open spec fn decoded_view(copy: Result<FileCopy, SchemaError>) -> Result<
    FileCopyView,
    SchemaError,
> {
    match copy {
        Ok(copy) => Ok(copy@),
        Err(error) => Err(error),
    }
}

impl FileCopy {
    /// Reads a file copy from the fields of its manifest entry.
    pub fn from_raw(raw: RawFileCopy) -> (copy: Result<FileCopy, SchemaError>)
        ensures
            decoded_view(copy) == raw@.decoded(),
    {
        let from = match raw.from {
            Some(from) => from,
            None => { return Err(SchemaError::MissingFrom); },
        };
        let to = match raw.to {
            Some(to) => to,
            None => { return Err(SchemaError::MissingTo); },
        };
        let chmod = match raw.chmod {
            Some(literal) => match from_octal(literal) {
                Ok(mode) => mode,
                Err(error) => { return Err(error); },
            },
            None => default_chmod(),
        };
        let template = match raw.template {
            Some(template) => template,
            None => default_template(),
        };
        Ok(FileCopy { from, to, chmod, template })
    }

    /// Where the copy gets its contents from.
    pub fn source(&self) -> (source: ContentSource)
        ensures
            source@ == self@.source(),
    {
        if self.template {
            ContentSource::Template(self.from.clone())
        } else {
            ContentSource::File(self.from.clone())
        }
    }

    /// The directory above the destination, if the destination has one.
    pub fn destination_parent(&self) -> (parent: Option<String>)
        ensures
            text_of(parent) == path_parent(self.to@),
    {
        parent_directory(self.to.as_str())
    }

    /// The plan that writes `contents` to the destination below `parent`.
    pub fn atoms(&self, parent: String, contents: String) -> (plan: Vec<Atom>)
        ensures
            plan.deep_view() == self@.copy_plan(parent@, contents@),
    {
        let arguments = vec!["-p".to_owned(), parent];
        assert(arguments.deep_view() =~= seq!["-p"@, parent@]);
        let plan = vec![
            Atom::exec("mkdir", arguments),
            Atom::Create { path: self.to.clone() },
            Atom::Chmod { path: self.to.clone(), mode: self.chmod },
            Atom::SetContents { path: self.to.clone(), contents },
        ];
        assert(plan.deep_view() =~= self@.copy_plan(parent@, contents@));
        plan
    }

    /// What the destination is to hold: the rendering of the template where the
    /// source is one, the source file as it is otherwise.
    pub fn contents(&self, manifest: &Manifest) -> (contents: Result<String, ContentError>)
        ensures
            text_or_error(contents) == self@.contents(manifest@),
    {
        match self.source() {
            ContentSource::Template(name) => manifest.render(name.as_str()),
            ContentSource::File(name) => manifest.load(name.as_str()),
        }
    }

    /// The plan for contents that were resolved already, or the error that the
    /// resolution ended in.
    pub fn plan_with(&self, parent: String, contents: Result<String, ContentError>) -> (plan:
        Result<Vec<Atom>, ContentError>)
        ensures
            outcome_view(plan) == self@.copy_outcome(parent@, text_or_error(contents)),
    {
        match contents {
            Ok(contents) => Ok(self.atoms(parent, contents)),
            Err(error) => Err(error),
        }
    }

    /// Plans the copy of a file whose destination has a directory above it: the
    /// four atoms around the contents that `manifest` has for it, or the error
    /// that kept the contents away.
    pub fn plan(&self, manifest: &Manifest) -> (plan: Result<Vec<Atom>, ContentError>)
        requires
            path_parent(self.to@) is Some,
        ensures
            outcome_view(plan) == self@.outcome(manifest@, path_parent(self.to@)->0),
    {
        let contents = self.contents(manifest);
        let parent = self.destination_parent().unwrap();
        self.plan_with(parent, contents)
    }

    /// Plans the copy of a file wherever its destination lies: `None` where the
    /// destination has no directory above it, the outcome of `plan` otherwise.
    pub fn checked_plan(&self, manifest: &Manifest) -> (plan: Option<
        Result<Vec<Atom>, ContentError>,
    >)
        ensures
            plan is None <==> path_parent(self.to@) is None,
            plan matches Some(outcome) ==> outcome_view(outcome) == self@.outcome(
                manifest@,
                path_parent(self.to@)->0,
            ),
    {
        if self.destination_parent().is_some() {
            Some(self.plan(manifest))
        } else {
            None
        }
    }
}

} // verus!
