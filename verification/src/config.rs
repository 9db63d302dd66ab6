//! The configuration model: what a document declares, the rules that a
//! declaration must meet, and the typed configuration that a valid one gives.

use vstd::prelude::*;
use crate::dind::{DindMode, DindPolicy};
use crate::errors::{LaunchError, LaunchErrorModel, Rule};
use crate::paths::{absolute, is_absolute};
use crate::syntax::{document_of, lemma_parse_errors, parse_document, Document, DocumentModel, Field, FieldModel, Section, SectionModel};
use crate::text::{chars_of, option_view, same, split, views};
use crate::volumes::{VolumeDecl, VolumeDeclModel};

verus! {

/// Where the image of the container comes from.
#[derive(Clone, Debug, PartialEq, Eq)]
pub enum ImageSource {
    /// An image that is pulled by its reference.
    Pull { reference: String },
    /// An image that is built from a context directory.
    Build { context: String, dockerfile: Option<String> },
}

/// The model of an `ImageSource`.
pub enum ImageSourceModel {
    Pull { reference: Seq<char> },
    Build { context: Seq<char>, dockerfile: Option<Seq<char>> },
}

impl View for ImageSource {
    type V = ImageSourceModel;

    open spec fn view(&self) -> ImageSourceModel {
        match *self {
            ImageSource::Pull { reference } => ImageSourceModel::Pull { reference: reference@ },
            ImageSource::Build { context, dockerfile } => ImageSourceModel::Build {
                context: context@,
                dockerfile: option_view(dockerfile),
            },
        }
    }
}

/// A variable of the calling environment that the container is to get.
#[derive(Clone, Debug, PartialEq, Eq)]
pub struct Passthrough {
    pub name: String,
    /// Whether the launch may go on when the variable is not set.
    pub optional: bool,
}

/// The model of a `Passthrough`.
pub struct PassthroughModel {
    pub name: Seq<char>,
    pub optional: bool,
}

impl View for Passthrough {
    type V = PassthroughModel;

    open spec fn view(&self) -> PassthroughModel {
        PassthroughModel { name: self.name@, optional: self.optional }
    }
}

/// A configuration.
#[derive(Clone, Debug, PartialEq, Eq)]
pub struct Config {
    pub image: ImageSource,
    pub volumes: Vec<VolumeDecl>,
    /// The shell that runs inside the container.
    pub shell: String,
    pub dind: Option<DindPolicy>,
    pub environment: Vec<Passthrough>,
    pub entrypoint: Option<String>,
}

/// The model of a `Config`.
pub struct ConfigModel {
    pub image: ImageSourceModel,
    pub volumes: Seq<VolumeDeclModel>,
    pub shell: Seq<char>,
    pub dind: Option<DindPolicy>,
    pub environment: Seq<PassthroughModel>,
    pub entrypoint: Option<Seq<char>>,
}

impl View for Config {
    type V = ConfigModel;

    open spec fn view(&self) -> ConfigModel {
        ConfigModel {
            image: self.image@,
            volumes: views(self.volumes@),
            shell: self.shell@,
            dind: self.dind,
            environment: views(self.environment@),
            entrypoint: option_view(self.entrypoint),
        }
    }
}

impl ConfigModel {
    /// What every configuration that passed validation meets: the image source
    /// is named, each volume has a host path and an absolute container path,
    /// each passthrough names a variable, and the shell is named.
    pub open spec fn well_formed(self) -> bool {
        &&& match self.image {
            ImageSourceModel::Pull { reference } => reference.len() > 0,
            ImageSourceModel::Build { context, dockerfile } => context.len() > 0,
        }
        &&& forall|i: int|
            0 <= i < self.volumes.len() ==> {
                &&& (#[trigger] self.volumes[i]).host.len() > 0
                &&& self.volumes[i].container matches Some(c) && is_absolute(c)
            }
        &&& forall|i: int|
            0 <= i < self.environment.len() ==> (#[trigger] self.environment[i]).name.len() > 0
        &&& self.shell.len() > 0
    }
}

/// A place in a document where fields stand.
#[derive(Clone, Copy, Debug, PartialEq, Eq, Structural)]
pub enum Place {
    /// Before the first section.
    Root,
    /// In a `[volume]` section.
    Volume,
    /// In an `[env]` section.
    Environment,
}

/// The shell of a configuration that names none.
pub const DEFAULT_SHELL: &'static str = "sh";

/// Whether `key` is one of the keys of `place`.
pub open spec fn allowed(place: Place, key: Seq<char>) -> bool {
    match place {
        Place::Root => key == "image"@ || key == "build"@ || key == "dockerfile"@ || key
            == "shell"@ || key == "entrypoint"@ || key == "dind"@ || key == "dind_mode"@ || key
            == "dind_fallback"@,
        Place::Volume => key == "host"@ || key == "container"@ || key == "mode"@ || key
            == "switch"@ || key == "create"@,
        Place::Environment => key == "name"@ || key == "optional"@,
    }
}

/// Whether `name` is one of the shells that validation recognises.
pub open spec fn recognized(name: Seq<char>) -> bool {
    name == "sh"@ || name == "bash"@ || name == "zsh"@ || name == "fish"@ || name == "dash"@
        || name == "ash"@ || name == "ksh"@
}

/// The first index at or after `from` whose field has the key `key`, or the
/// number of fields.
pub open spec fn position(fields: Seq<FieldModel>, key: Seq<char>, from: int) -> int
    decreases fields.len() - from,
{
    if from < 0 || from >= fields.len() {
        fields.len() as int
    } else if fields[from].key == key {
        from
    } else {
        position(fields, key, from + 1)
    }
}

/// The value of the first field with the key `key`; empty if there is none.
pub open spec fn value(fields: Seq<FieldModel>, key: Seq<char>) -> Seq<char> {
    let k = position(fields, key, 0);
    if k < fields.len() {
        fields[k].value
    } else {
        Seq::empty()
    }
}

/// Whether `key` has a value: a key without one counts as not written.
pub open spec fn given(fields: Seq<FieldModel>, key: Seq<char>) -> bool {
    value(fields, key).len() > 0
}

/// The value of `key`, if it has one.
pub open spec fn optional(fields: Seq<FieldModel>, key: Seq<char>) -> Option<Seq<char>> {
    if given(fields, key) {
        Some(value(fields, key))
    } else {
        None
    }
}

/// Whether `key` is switched on: its value is `true`.
pub open spec fn flag(fields: Seq<FieldModel>, key: Seq<char>) -> bool {
    value(fields, key) == "true"@
}

/// Whether `key` has a value that is neither `true` nor `false`.
pub open spec fn bad_flag(fields: Seq<FieldModel>, key: Seq<char>) -> bool {
    given(fields, key) && value(fields, key) != "true"@ && value(fields, key) != "false"@
}

/// Whether `key` has a value that is neither `a` nor `b`.
pub open spec fn bad_choice(fields: Seq<FieldModel>, key: Seq<char>, a: Seq<char>, b: Seq<char>) -> bool {
    given(fields, key) && value(fields, key) != a && value(fields, key) != b
}

/// Whether some field has a key that `place` does not allow.
pub open spec fn unknown(fields: Seq<FieldModel>, place: Place) -> bool {
    exists|i: int| 0 <= i < fields.len() && !allowed(place, (#[trigger] fields[i]).key)
}

/// Whether two fields have the same key.
pub open spec fn repeated(fields: Seq<FieldModel>) -> bool {
    exists|i: int, j: int|
        0 <= i < j < fields.len() && (#[trigger] fields[i]).key == (#[trigger] fields[j]).key
}

/// The shell that the root fields name, or the default shell.
pub open spec fn shell_of(root: Seq<FieldModel>) -> Seq<char> {
    if given(root, "shell"@) {
        value(root, "shell"@)
    } else {
        "sh"@
    }
}

/// The first rule that the fields before all sections break, if any. The
/// shell is held to the recognised ones only when `check_shell` is set.
pub open spec fn root_fault(root: Seq<FieldModel>, check_shell: bool) -> Option<Rule> {
    if given(root, "image"@) && (given(root, "build"@) || given(root, "dockerfile"@)) {
        Some(Rule::ImageAmbiguous)
    } else if !given(root, "image"@) && !given(root, "build"@) {
        Some(Rule::ImageMissing)
    } else if unknown(root, Place::Root) {
        Some(Rule::UnknownKey)
    } else if repeated(root) {
        Some(Rule::RepeatedKey)
    } else if bad_flag(root, "dind"@) || bad_flag(root, "dind_fallback"@) || bad_choice(
        root,
        "dind_mode"@,
        "sibling"@,
        "nested"@,
    ) {
        Some(Rule::InvalidValue)
    } else if check_shell && !recognized(shell_of(root)) {
        Some(Rule::UnknownShell)
    } else {
        None
    }
}

/// The first rule that the fields of a `[volume]` section break, if any.
pub open spec fn volume_fault(fields: Seq<FieldModel>) -> Option<Rule> {
    if unknown(fields, Place::Volume) {
        Some(Rule::UnknownKey)
    } else if repeated(fields) {
        Some(Rule::RepeatedKey)
    } else if bad_choice(fields, "mode"@, "rw"@, "ro"@) || bad_flag(fields, "switch"@) || bad_flag(
        fields,
        "create"@,
    ) {
        Some(Rule::InvalidValue)
    } else if !given(fields, "host"@) {
        Some(Rule::VolumeWithoutHostPath)
    } else if !given(fields, "container"@) {
        Some(Rule::VolumeWithoutContainerPath)
    } else if !is_absolute(value(fields, "container"@)) {
        Some(Rule::ContainerPathNotAbsolute)
    } else {
        None
    }
}

/// The first rule that the fields of an `[env]` section break, if any.
pub open spec fn environment_fault(fields: Seq<FieldModel>) -> Option<Rule> {
    if unknown(fields, Place::Environment) {
        Some(Rule::UnknownKey)
    } else if repeated(fields) {
        Some(Rule::RepeatedKey)
    } else if bad_flag(fields, "optional"@) {
        Some(Rule::InvalidValue)
    } else if !given(fields, "name"@) {
        Some(Rule::UnnamedVariable)
    } else {
        None
    }
}

/// The first rule that a section breaks, if any.
pub open spec fn section_fault(section: SectionModel) -> Option<Rule> {
    if section.name == "volume"@ {
        volume_fault(section.fields)
    } else if section.name == "env"@ {
        environment_fault(section.fields)
    } else {
        Some(Rule::UnknownSection)
    }
}

/// The rule that the first faulty section among the first `n` breaks, if any.
pub open spec fn sections_fault(sections: Seq<SectionModel>, n: int) -> Option<Rule>
    decreases n,
{
    if n <= 0 {
        None
    } else {
        match sections_fault(sections, n - 1) {
            Some(r) => Some(r),
            None => section_fault(sections[n - 1]),
        }
    }
}

/// The first rule that a document breaks, if any: the fields before all
/// sections are held to their rules first, then each section in order.
pub open spec fn fault(doc: DocumentModel, check_shell: bool) -> Option<Rule> {
    match root_fault(doc.fields, check_shell) {
        Some(r) => Some(r),
        None => sections_fault(doc.sections, doc.sections.len() as int),
    }
}

/// The volume that the fields of a `[volume]` section declare.
pub open spec fn volume_of(fields: Seq<FieldModel>) -> VolumeDeclModel {
    VolumeDeclModel {
        host: value(fields, "host"@),
        container: Some(value(fields, "container"@)),
        read_only: value(fields, "mode"@) == "ro"@,
        switch: flag(fields, "switch"@),
        create: flag(fields, "create"@),
    }
}

/// The passthrough that the fields of an `[env]` section declare.
pub open spec fn passthrough_of(fields: Seq<FieldModel>) -> PassthroughModel {
    PassthroughModel { name: value(fields, "name"@), optional: flag(fields, "optional"@) }
}

/// The volumes that the first `n` sections declare, in order.
pub open spec fn volumes_of(sections: Seq<SectionModel>, n: int) -> Seq<VolumeDeclModel>
    decreases n,
{
    if n <= 0 {
        Seq::empty()
    } else if sections[n - 1].name == "volume"@ {
        volumes_of(sections, n - 1).push(volume_of(sections[n - 1].fields))
    } else {
        volumes_of(sections, n - 1)
    }
}

/// The passthroughs that the first `n` sections declare, in order.
pub open spec fn passthroughs_of(sections: Seq<SectionModel>, n: int) -> Seq<PassthroughModel>
    decreases n,
{
    if n <= 0 {
        Seq::empty()
    } else if sections[n - 1].name == "env"@ {
        passthroughs_of(sections, n - 1).push(passthrough_of(sections[n - 1].fields))
    } else {
        passthroughs_of(sections, n - 1)
    }
}

/// The image source that the root fields declare.
pub open spec fn image_of(root: Seq<FieldModel>) -> ImageSourceModel {
    if given(root, "image"@) {
        ImageSourceModel::Pull { reference: value(root, "image"@) }
    } else {
        ImageSourceModel::Build {
            context: value(root, "build"@),
            dockerfile: optional(root, "dockerfile"@),
        }
    }
}

/// The docker-in-docker policy that the root fields declare: none unless
/// `dind` has a value; sibling mode unless `dind_mode` says `nested`.
pub open spec fn policy_of(root: Seq<FieldModel>) -> Option<DindPolicy> {
    if given(root, "dind"@) {
        Some(
            DindPolicy {
                enabled: flag(root, "dind"@),
                mode: if value(root, "dind_mode"@) == "nested"@ {
                    DindMode::Nested
                } else {
                    DindMode::Sibling
                },
                fallback: flag(root, "dind_fallback"@),
            },
        )
    } else {
        None
    }
}

/// The configuration that a document declares.
pub open spec fn config_of(doc: DocumentModel) -> ConfigModel {
    ConfigModel {
        image: image_of(doc.fields),
        volumes: volumes_of(doc.sections, doc.sections.len() as int),
        shell: shell_of(doc.fields),
        dind: policy_of(doc.fields),
        environment: passthroughs_of(doc.sections, doc.sections.len() as int),
        entrypoint: optional(doc.fields, "entrypoint"@),
    }
}

/// What validation gives: the first rule that the document breaks, or the
/// configuration that it declares.
pub open spec fn validated(doc: DocumentModel, check_shell: bool) -> Result<
    ConfigModel,
    LaunchErrorModel,
> {
    match fault(doc, check_shell) {
        Some(rule) => Err(LaunchErrorModel::ConfigValidation { rule }),
        None => Ok(config_of(doc)),
    }
}

/// What loading a configuration text gives: the syntax error of the text, or
/// what validation gives for its document.
pub open spec fn loaded(text: Seq<char>, check_shell: bool) -> Result<
    ConfigModel,
    LaunchErrorModel,
> {
    match document_of(text) {
        Err(e) => Err(e),
        Ok(doc) => validated(doc, check_shell),
    }
}

/// The model of a result that holds a configuration.
pub open spec fn config_outcome(r: Result<Config, LaunchError>) -> Result<
    ConfigModel,
    LaunchErrorModel,
> {
    match r {
        Ok(c) => Ok(c@),
        Err(e) => Err(e@),
    }
}

/// A document that gives both an image to pull and a build context breaks the
/// rule against ambiguous images, whatever else it holds.
pub proof fn law_ambiguous_image(doc: DocumentModel, check_shell: bool)
    requires
        given(doc.fields, "image"@),
        given(doc.fields, "build"@),
    ensures
        validated(doc, check_shell) == Err::<ConfigModel, LaunchErrorModel>(
            LaunchErrorModel::ConfigValidation { rule: Rule::ImageAmbiguous },
        ),
{
}

/// In sections without fault, every volume has a host path and an absolute
/// container path, and every passthrough names its variable.
pub proof fn lemma_sections_well_formed(sections: Seq<SectionModel>, n: int)
    requires
        0 <= n <= sections.len(),
        sections_fault(sections, n) is None,
    ensures
        forall|i: int|
            0 <= i < volumes_of(sections, n).len() ==> {
                &&& (#[trigger] volumes_of(sections, n)[i]).host.len() > 0
                &&& volumes_of(sections, n)[i].container matches Some(c) && is_absolute(c)
            },
        forall|i: int|
            0 <= i < passthroughs_of(sections, n).len() ==> (#[trigger] passthroughs_of(
                sections,
                n,
            )[i]).name.len() > 0,
    decreases n,
{
    if n > 0 {
        reveal_strlit("volume");
        reveal_strlit("env");
        assert("volume"@.len() == 6 && "env"@.len() == 3);
        lemma_sections_well_formed(sections, n - 1);
        let last = sections[n - 1];
        assert(sections_fault(sections, n - 1) is None);
        assert(section_fault(last) is None);
        let all = passthroughs_of(sections, n);
        let rest = passthroughs_of(sections, n - 1);
        assert forall|i: int| 0 <= i < all.len() implies (#[trigger] all[i]).name.len() > 0 by {
            if last.name == "env"@ {
                assert(last.name != "volume"@);
                assert(environment_fault(last.fields) is None);
                assert(all == rest.push(passthrough_of(last.fields)));
                if i < rest.len() {
                    assert(all[i] == rest[i]);
                } else {
                    assert(given(last.fields, "name"@));
                }
            } else {
                assert(all == rest);
            }
        }
    }
}

/// A configuration that passed validation is well-formed.
pub proof fn law_valid_is_well_formed(doc: DocumentModel, check_shell: bool)
    ensures
        validated(doc, check_shell) matches Ok(config) ==> config.well_formed(),
{
    if validated(doc, check_shell) is Ok {
        lemma_sections_well_formed(doc.sections, doc.sections.len() as int);
        reveal_strlit("sh");
    }
}

/// Sections of which none is a `[volume]` section declare no volume.
pub proof fn lemma_no_volume_sections(sections: Seq<SectionModel>, n: int)
    requires
        0 <= n <= sections.len(),
        forall|i: int| 0 <= i < n ==> (#[trigger] sections[i]).name != "volume"@,
    ensures
        volumes_of(sections, n).len() == 0,
    decreases n,
{
    if n > 0 {
        lemma_no_volume_sections(sections, n - 1);
    }
}

/// A text whose document gives both an image to pull and a build context is
/// rejected as ambiguous; a text without `[volume]` section, if it is valid,
/// gives a configuration without volumes.
pub proof fn law_loaded(text: Seq<char>, check_shell: bool)
    ensures
        document_of(text) matches Ok(doc) ==> {
            &&& given(doc.fields, "image"@) && given(doc.fields, "build"@) ==> loaded(
                text,
                check_shell,
            ) == Err::<ConfigModel, LaunchErrorModel>(
                LaunchErrorModel::ConfigValidation { rule: Rule::ImageAmbiguous },
            )
            &&& (forall|i: int|
                0 <= i < doc.sections.len() ==> (#[trigger] doc.sections[i]).name != "volume"@)
                ==> (loaded(text, check_shell) matches Ok(config) ==> config.volumes.len() == 0)
        },
        loaded(text, check_shell) matches Ok(config) ==> config.well_formed(),
        loaded(text, check_shell) matches Err(e) ==> e is ConfigParse || e is ConfigValidation,
{
    if let Ok(doc) = document_of(text) {
        law_valid_is_well_formed(doc, check_shell);
        if forall|i: int|
            0 <= i < doc.sections.len() ==> (#[trigger] doc.sections[i]).name != "volume"@ {
            lemma_no_volume_sections(doc.sections, doc.sections.len() as int);
        }
    } else {
        lemma_parse_errors(split(text, '\n'), split(text, '\n').len() as int);
    }
}

/// The value of the first field with the key `key`; empty if there is none.
pub fn lookup<'a>(fields: &'a Vec<Field>, key: &str) -> (v: &'a str)
    ensures
        v@ == value(views(fields@), key@),
{
    let mut i: usize = 0;
    while i < fields.len()
        invariant
            i <= fields.len(),
            position(views(fields@), key@, 0) == position(views(fields@), key@, i as int),
        decreases fields.len() - i,
    {
        if same(fields[i].key.as_str(), key) {
            return fields[i].value.as_str();
        }
        i += 1;
    }
    proof {
        reveal_strlit("");
        assert(""@ =~= Seq::<char>::empty());
    }
    ""
}

fn is_given(fields: &Vec<Field>, key: &str) -> (r: bool)
    ensures
        r == given(views(fields@), key@),
{
    !lookup(fields, key).is_empty()
}

fn is_on(fields: &Vec<Field>, key: &str) -> (r: bool)
    ensures
        r == flag(views(fields@), key@),
{
    same(lookup(fields, key), "true")
}

fn read_optional(fields: &Vec<Field>, key: &str) -> (r: Option<String>)
    ensures
        option_view(r) == optional(views(fields@), key@),
{
    let v = lookup(fields, key);
    if v.is_empty() {
        None
    } else {
        Some(v.to_owned())
    }
}

fn has_bad_flag(fields: &Vec<Field>, key: &str) -> (r: bool)
    ensures
        r == bad_flag(views(fields@), key@),
{
    let v = lookup(fields, key);
    !v.is_empty() && !same(v, "true") && !same(v, "false")
}

fn has_bad_choice(fields: &Vec<Field>, key: &str, a: &str, b: &str) -> (r: bool)
    ensures
        r == bad_choice(views(fields@), key@, a@, b@),
{
    let v = lookup(fields, key);
    !v.is_empty() && !same(v, a) && !same(v, b)
}

/// Whether `key` is one of the keys of `place`.
pub fn is_allowed(place: Place, key: &str) -> (r: bool)
    ensures
        r == allowed(place, key@),
{
    match place {
        Place::Root => same(key, "image") || same(key, "build") || same(key, "dockerfile") || same(
            key,
            "shell",
        ) || same(key, "entrypoint") || same(key, "dind") || same(key, "dind_mode") || same(
            key,
            "dind_fallback",
        ),
        Place::Volume => same(key, "host") || same(key, "container") || same(key, "mode") || same(
            key,
            "switch",
        ) || same(key, "create"),
        Place::Environment => same(key, "name") || same(key, "optional"),
    }
}

/// Whether `name` is one of the shells that validation recognises.
pub fn is_recognized(name: &str) -> (r: bool)
    ensures
        r == recognized(name@),
{
    same(name, "sh") || same(name, "bash") || same(name, "zsh") || same(name, "fish") || same(
        name,
        "dash",
    ) || same(name, "ash") || same(name, "ksh")
}

fn has_unknown(fields: &Vec<Field>, place: Place) -> (r: bool)
    ensures
        r == unknown(views(fields@), place),
{
    let ghost m = views(fields@);
    let mut i: usize = 0;
    while i < fields.len()
        invariant
            i <= fields.len(),
            m == views(fields@),
            forall|k: int| 0 <= k < i ==> allowed(place, (#[trigger] m[k]).key),
        decreases fields.len() - i,
    {
        if !is_allowed(place, fields[i].key.as_str()) {
            assert(!allowed(place, m[i as int].key));
            return true;
        }
        i += 1;
    }
    false
}

fn has_repeated(fields: &Vec<Field>) -> (r: bool)
    ensures
        r == repeated(views(fields@)),
{
    let ghost m = views(fields@);
    let mut j: usize = 0;
    while j < fields.len()
        invariant
            j <= fields.len(),
            m == views(fields@),
            forall|a: int, b: int|
                0 <= a < b < j ==> (#[trigger] m[a]).key != (#[trigger] m[b]).key,
        decreases fields.len() - j,
    {
        let mut i: usize = 0;
        while i < j
            invariant
                i <= j < fields.len(),
                m == views(fields@),
                forall|a: int| 0 <= a < i ==> (#[trigger] m[a]).key != m[j as int].key,
            decreases j - i,
        {
            if same(fields[i].key.as_str(), fields[j].key.as_str()) {
                assert(m[i as int].key == m[j as int].key);
                return true;
            }
            i += 1;
        }
        j += 1;
    }
    false
}

fn check_root(root: &Vec<Field>, check_shell: bool) -> (r: Option<Rule>)
    ensures
        r == root_fault(views(root@), check_shell),
{
    let image = is_given(root, "image");
    if image && (is_given(root, "build") || is_given(root, "dockerfile")) {
        return Some(Rule::ImageAmbiguous);
    }
    if !image && !is_given(root, "build") {
        return Some(Rule::ImageMissing);
    }
    if has_unknown(root, Place::Root) {
        return Some(Rule::UnknownKey);
    }
    if has_repeated(root) {
        return Some(Rule::RepeatedKey);
    }
    if has_bad_flag(root, "dind") || has_bad_flag(root, "dind_fallback") || has_bad_choice(
        root,
        "dind_mode",
        "sibling",
        "nested",
    ) {
        return Some(Rule::InvalidValue);
    }
    if check_shell {
        let known = if is_given(root, "shell") {
            is_recognized(lookup(root, "shell"))
        } else {
            is_recognized(DEFAULT_SHELL)
        };
        if !known {
            return Some(Rule::UnknownShell);
        }
    }
    None
}

fn check_volume(fields: &Vec<Field>) -> (r: Option<Rule>)
    ensures
        r == volume_fault(views(fields@)),
{
    if has_unknown(fields, Place::Volume) {
        return Some(Rule::UnknownKey);
    }
    if has_repeated(fields) {
        return Some(Rule::RepeatedKey);
    }
    if has_bad_choice(fields, "mode", "rw", "ro") || has_bad_flag(fields, "switch") || has_bad_flag(
        fields,
        "create",
    ) {
        return Some(Rule::InvalidValue);
    }
    if !is_given(fields, "host") {
        return Some(Rule::VolumeWithoutHostPath);
    }
    if !is_given(fields, "container") {
        return Some(Rule::VolumeWithoutContainerPath);
    }
    let container = chars_of(lookup(fields, "container"));
    if !absolute(&container) {
        return Some(Rule::ContainerPathNotAbsolute);
    }
    None
}

fn check_environment(fields: &Vec<Field>) -> (r: Option<Rule>)
    ensures
        r == environment_fault(views(fields@)),
{
    if has_unknown(fields, Place::Environment) {
        return Some(Rule::UnknownKey);
    }
    if has_repeated(fields) {
        return Some(Rule::RepeatedKey);
    }
    if has_bad_flag(fields, "optional") {
        return Some(Rule::InvalidValue);
    }
    if !is_given(fields, "name") {
        return Some(Rule::UnnamedVariable);
    }
    None
}

fn check_section(section: &Section) -> (r: Option<Rule>)
    ensures
        r == section_fault(section@),
{
    if same(section.name.as_str(), "volume") {
        check_volume(&section.fields)
    } else if same(section.name.as_str(), "env") {
        check_environment(&section.fields)
    } else {
        Some(Rule::UnknownSection)
    }
}

fn read_volume(fields: &Vec<Field>) -> (d: VolumeDecl)
    ensures
        d@ == volume_of(views(fields@)),
{
    VolumeDecl {
        host: lookup(fields, "host").to_owned(),
        container: Some(lookup(fields, "container").to_owned()),
        read_only: same(lookup(fields, "mode"), "ro"),
        switch: is_on(fields, "switch"),
        create: is_on(fields, "create"),
    }
}

fn read_passthrough(fields: &Vec<Field>) -> (p: Passthrough)
    ensures
        p@ == passthrough_of(views(fields@)),
{
    Passthrough { name: lookup(fields, "name").to_owned(), optional: is_on(fields, "optional") }
}

fn read_image(root: &Vec<Field>) -> (image: ImageSource)
    ensures
        image@ == image_of(views(root@)),
{
    if is_given(root, "image") {
        ImageSource::Pull { reference: lookup(root, "image").to_owned() }
    } else {
        ImageSource::Build {
            context: lookup(root, "build").to_owned(),
            dockerfile: read_optional(root, "dockerfile"),
        }
    }
}

fn read_policy(root: &Vec<Field>) -> (policy: Option<DindPolicy>)
    ensures
        policy == policy_of(views(root@)),
{
    if is_given(root, "dind") {
        Some(
            DindPolicy {
                enabled: is_on(root, "dind"),
                mode: if same(lookup(root, "dind_mode"), "nested") {
                    DindMode::Nested
                } else {
                    DindMode::Sibling
                },
                fallback: is_on(root, "dind_fallback"),
            },
        )
    } else {
        None
    }
}

/// Once a section is faulty, later sections change nothing.
pub proof fn lemma_fault_stays(sections: Seq<SectionModel>, k: int, n: int)
    requires
        0 <= k <= n,
        sections_fault(sections, k) is Some,
    ensures
        sections_fault(sections, n) == sections_fault(sections, k),
    decreases n - k,
{
    if k < n {
        lemma_fault_stays(sections, k, n - 1);
    }
}

/// Holds a document to the rules and gives the configuration that it declares,
/// or the first rule that it breaks.
pub fn validate(doc: &Document, check_shell: bool) -> (out: Result<Config, LaunchError>)
    ensures
        config_outcome(out) == validated(doc@, check_shell),
        out matches Ok(config) ==> config@.well_formed(),
{
    let ghost m = doc@;
    proof {
        law_valid_is_well_formed(m, check_shell);
    }
    if let Some(rule) = check_root(&doc.fields, check_shell) {
        return Err(LaunchError::ConfigValidation { rule });
    }
    let mut volumes: Vec<VolumeDecl> = Vec::new();
    let mut environment: Vec<Passthrough> = Vec::new();
    let mut i: usize = 0;
    assert(views(volumes@) =~= Seq::<VolumeDeclModel>::empty());
    assert(views(environment@) =~= Seq::<PassthroughModel>::empty());
    while i < doc.sections.len()
        invariant
            i <= doc.sections.len(),
            m == doc@,
            root_fault(m.fields, check_shell) is None,
            sections_fault(m.sections, i as int) is None,
            views(volumes@) == volumes_of(m.sections, i as int),
            views(environment@) == passthroughs_of(m.sections, i as int),
        decreases doc.sections.len() - i,
    {
        let section = &doc.sections[i];
        assert(section@ == m.sections[i as int]);
        if let Some(rule) = check_section(section) {
            proof {
                assert(sections_fault(m.sections, i + 1) == Some(rule));
                lemma_fault_stays(m.sections, i + 1, m.sections.len() as int);
            }
            return Err(LaunchError::ConfigValidation { rule });
        }
        proof {
            reveal_strlit("volume");
            reveal_strlit("env");
        }
        if same(section.name.as_str(), "volume") {
            let ghost before = volumes@;
            let decl = read_volume(&section.fields);
            volumes.push(decl);
            assert(views(volumes@) =~= views(before).push(decl@));
            assert(m.sections[i as int].name != "env"@) by {
                assert("volume"@.len() == 6 && "env"@.len() == 3);
            }
        } else {
            let ghost before = environment@;
            let pass = read_passthrough(&section.fields);
            environment.push(pass);
            assert(views(environment@) =~= views(before).push(pass@));
            assert(m.sections[i as int].name == "env"@);
        }
        i += 1;
    }
    let shell = if is_given(&doc.fields, "shell") {
        lookup(&doc.fields, "shell").to_owned()
    } else {
        DEFAULT_SHELL.to_owned()
    };
    Ok(
        Config {
            image: read_image(&doc.fields),
            volumes,
            shell,
            dind: read_policy(&doc.fields),
            environment,
            entrypoint: read_optional(&doc.fields, "entrypoint"),
        },
    )
}

/// Reads a configuration from its text: the syntax first, then the rules.
pub fn load(text: &str, check_shell: bool) -> (out: Result<Config, LaunchError>)
    ensures
        config_outcome(out) == loaded(text@, check_shell),
        out matches Ok(config) ==> config@.well_formed(),
{
    match parse_document(text) {
        Err(e) => Err(e),
        Ok(doc) => validate(&doc, check_shell),
    }
}

} // verus!
