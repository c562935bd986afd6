//! The declarative description of an asset collection, field by field, and
//! the entries for the registry that it compiles to.

use crate::angle::{Angle, angle_of_name, angle_of_variant};
use crate::ident::{act_id, capitalize_first_letter, capitalized, get_act_id, same_text};
use crate::registry::FieldEntry;
use crate::sheet::{ImageId, LayoutId};
use vstd::prelude::*;

verus! {

/// The value of an annotation as it was written.
#[derive(Debug)]
pub enum Literal {
    /// A string literal.
    Str(String),
    /// An integer literal.
    Int(u64),
    /// Anything else.
    Other,
}

/// One `key = value` of a `textureview` attribute.
#[derive(Debug)]
pub struct Annotation {
    pub key: String,
    pub value: Literal,
}

/// The arguments of one `textureview` attribute: a list of annotations, or
/// something that is no such list.
#[derive(Debug)]
pub enum AttributeArgs {
    Parsed(Vec<Annotation>),
    Malformed,
}

/// One field of a collection: its name, its type as written, and its
/// `textureview` attributes in the order in which they stand.
#[derive(Debug)]
pub struct FieldDecl {
    pub name: String,
    pub ty: String,
    pub attributes: Vec<AttributeArgs>,
}

/// The shape of the type that a collection is declared as.
#[derive(Debug)]
pub enum Shape {
    /// A struct with named fields, in declaration order.
    Named(Vec<FieldDecl>),
    /// A tuple struct.
    Unnamed,
    /// A struct without fields.
    Unit,
    /// An enum or a union.
    NotAStruct,
}

/// What a field supplies to its entry.
#[derive(Clone, Copy, Debug, PartialEq, Eq, Structural)]
pub enum FieldKind {
    /// The field holds an image.
    Image,
    /// The field holds a texture atlas layout.
    AtlasLayout,
    /// The field holds neither and supplies nothing.
    Inert,
}

/// One field, compiled: the ids and the angle that its entry names, and
/// what the field supplies.
#[derive(Clone, Copy, Debug, PartialEq, Eq)]
pub struct CompiledField {
    pub actor: Option<u64>,
    pub action: Option<u64>,
    pub angle: Option<Angle>,
    pub kind: FieldKind,
}

/// A name of an actor or action that a collection uses, the enum variant
/// that stands for it, and its id.
#[derive(Debug, PartialEq, Eq)]
pub struct NamedId {
    pub name: String,
    pub variant: String,
    pub id: u64,
}

/// A `NamedId` as plain values.
pub struct NamedIdView {
    pub name: Seq<char>,
    pub variant: Seq<char>,
    pub id: u64,
}

impl View for NamedId {
    type V = NamedIdView;

    open spec fn view(&self) -> NamedIdView {
        NamedIdView { name: self.name@, variant: self.variant@, id: self.id }
    }
}

/// A collection, compiled: one compiled field per declared field, in
/// declaration order, and the distinct actor and action names in the order in
/// which they were first seen.
#[derive(Debug)]
pub struct CompiledCollection {
    pub fields: Vec<CompiledField>,
    pub actors: Vec<NamedId>,
    pub actions: Vec<NamedId>,
}

/// A `CompiledCollection` as plain values.
pub struct CompiledView {
    pub fields: Seq<CompiledField>,
    pub actors: Seq<NamedIdView>,
    pub actions: Seq<NamedIdView>,
}

impl View for CompiledCollection {
    type V = CompiledView;

    open spec fn view(&self) -> CompiledView {
        CompiledView {
            fields: self.fields@,
            actors: names_view(self.actors@),
            actions: names_view(self.actions@),
        }
    }
}

/// Why a collection cannot be compiled.
#[derive(Clone, Copy, Debug, PartialEq, Eq)]
pub enum ConfigurationError {
    /// The collection is not a struct with named fields.
    UnsupportedShape,
    /// An attribute of the field with this index is no list of annotations.
    MalformedAnnotation { field: usize },
    /// An `angle` annotation of the field with this index names no angle.
    UnknownAngle { field: usize },
}

/// What is wrong with a field.
#[derive(Clone, Copy, Debug, PartialEq, Eq)]
pub enum Fault {
    Malformed,
    UnknownAngle,
}

/// The views of a list of names.
pub open spec fn names_view(names: Seq<NamedId>) -> Seq<NamedIdView> {
    names.map_values(|n: NamedId| n@)
}

/// Whether `name` is among `names`.
pub open spec fn is_noted(names: Seq<NamedIdView>, name: Seq<char>) -> bool {
    exists|i: int| 0 <= i < names.len() && (#[trigger] names[i]).name == name
}

/// `names` with `name` added at the end, together with its variant and id,
/// unless it is among them already.
pub open spec fn noted_as(
    names: Seq<NamedIdView>,
    name: Seq<char>,
    variant: Seq<char>,
    id: u64,
) -> Seq<NamedIdView> {
    if is_noted(names, name) {
        names
    } else {
        names.push(NamedIdView { name, variant, id })
    }
}

/// `names` with `name` added at the end unless it is among them already.
/// Its variant is the name with a capital first letter, its id the hash of
/// the name.
pub open spec fn noted(names: Seq<NamedIdView>, name: Seq<char>) -> Seq<NamedIdView> {
    noted_as(names, name, capitalized(name), act_id(name))
}

/// The angle that a string names: the variant that the string spells once
/// its first letter is a capital, else the angle of that lower-case name.
pub open spec fn angle_named(text: Seq<char>) -> Option<Angle> {
    angle_spelled(capitalized(text), text)
}

/// The angle whose variant is `capital`, else the one whose lower-case name
/// is `text`.
pub open spec fn angle_spelled(capital: Seq<char>, text: Seq<char>) -> Option<Angle> {
    match angle_of_variant(capital) {
        Some(angle) => Some(angle),
        None => angle_of_name(text),
    }
}

/// The kind that a `type` annotation names.
pub open spec fn kind_named(text: Seq<char>) -> FieldKind {
    if text == "image"@ {
        FieldKind::Image
    } else if text == "atlas_layout"@ {
        FieldKind::AtlasLayout
    } else {
        FieldKind::Inert
    }
}

/// The kind that goes with the type of a field, written token by token.
pub open spec fn kind_of_type(ty: Seq<char>) -> FieldKind {
    if ty == "Handle < Image >"@ {
        FieldKind::Image
    } else if ty == "Handle < TextureAtlasLayout >"@ {
        FieldKind::AtlasLayout
    } else {
        FieldKind::Inert
    }
}

/// The state of the compiler inside a field: what the field's annotations
/// have said so far, and the names seen so far in the whole collection.
pub struct Draft {
    pub actor: Option<u64>,
    pub action: Option<u64>,
    pub angle: Option<Angle>,
    pub kind: Option<FieldKind>,
    pub actors: Vec<NamedId>,
    pub actions: Vec<NamedId>,
}

/// A `Draft` as plain values.
pub struct DraftView {
    pub actor: Option<u64>,
    pub action: Option<u64>,
    pub angle: Option<Angle>,
    pub kind: Option<FieldKind>,
    pub actors: Seq<NamedIdView>,
    pub actions: Seq<NamedIdView>,
}

impl View for Draft {
    type V = DraftView;

    open spec fn view(&self) -> DraftView {
        DraftView {
            actor: self.actor,
            action: self.action,
            angle: self.angle,
            kind: self.kind,
            actors: names_view(self.actors@),
            actions: names_view(self.actions@),
        }
    }
}

/// The draft at the start of a field: nothing said yet, the names kept.
pub open spec fn field_started(actors: Seq<NamedIdView>, actions: Seq<NamedIdView>) -> DraftView {
    DraftView { actor: None, action: None, angle: None, kind: None, actors, actions }
}

/// The draft after one annotation. `actor` and `action` take a name, which
/// is noted and stands for its id, or a number. `angle` takes the name of an
/// angle, and `type` the name of a kind. A later annotation replaces what an
/// earlier one with the same key said. Other keys, and values of another
/// form, say nothing. `None` where an `angle` names no angle.
pub open spec fn annotation_applied(draft: DraftView, annotation: Annotation) -> Option<
    DraftView,
> {
    let key = annotation.key@;
    if key == "actor"@ {
        match annotation.value {
            Literal::Str(name) => Some(
                DraftView {
                    actor: Some(act_id(name@)),
                    actors: noted(draft.actors, name@),
                    ..draft
                },
            ),
            Literal::Int(id) => Some(DraftView { actor: Some(id), ..draft }),
            Literal::Other => Some(draft),
        }
    } else if key == "action"@ {
        match annotation.value {
            Literal::Str(name) => Some(
                DraftView {
                    action: Some(act_id(name@)),
                    actions: noted(draft.actions, name@),
                    ..draft
                },
            ),
            Literal::Int(id) => Some(DraftView { action: Some(id), ..draft }),
            Literal::Other => Some(draft),
        }
    } else if key == "angle"@ {
        match annotation.value {
            Literal::Str(text) => match angle_named(text@) {
                Some(angle) => Some(DraftView { angle: Some(angle), ..draft }),
                None => None,
            },
            _ => Some(draft),
        }
    } else if key == "type"@ {
        match annotation.value {
            Literal::Str(text) => Some(DraftView { kind: Some(kind_named(text@)), ..draft }),
            _ => Some(draft),
        }
    } else {
        Some(draft)
    }
}

/// The draft after a list of annotations, taken in order; `None` where one
/// of them names no angle.
pub open spec fn annotations_applied(draft: DraftView, annotations: Seq<Annotation>) -> Option<
    DraftView,
>
    decreases annotations.len(),
{
    if annotations.len() == 0 {
        Some(draft)
    } else {
        match annotations_applied(draft, annotations.drop_last()) {
            Some(before) => annotation_applied(before, annotations.last()),
            None => None,
        }
    }
}

/// The draft after the attributes of a field, taken in order, or the first
/// fault found in them.
pub open spec fn attributes_applied(draft: DraftView, attributes: Seq<AttributeArgs>) -> Result<
    DraftView,
    Fault,
>
    decreases attributes.len(),
{
    if attributes.len() == 0 {
        Ok(draft)
    } else {
        match attributes_applied(draft, attributes.drop_last()) {
            Ok(before) => match attributes.last() {
                AttributeArgs::Parsed(annotations) => match annotations_applied(
                    before,
                    annotations@,
                ) {
                    Some(after) => Ok(after),
                    None => Err(Fault::UnknownAngle),
                },
                AttributeArgs::Malformed => Err(Fault::Malformed),
            },
            Err(fault) => Err(fault),
        }
    }
}

/// The compiled field that a draft amounts to at the end of a field of type
/// `ty`: a `type` annotation decides the kind, else the type of the field.
pub open spec fn field_of_draft(draft: DraftView, ty: Seq<char>) -> CompiledField {
    CompiledField {
        actor: draft.actor,
        action: draft.action,
        angle: draft.angle,
        kind: match draft.kind {
            Some(kind) => kind,
            None => kind_of_type(ty),
        },
    }
}

/// The error that a fault in the field with index `field` amounts to.
pub open spec fn error_of_fault(fault: Fault, field: usize) -> ConfigurationError {
    match fault {
        Fault::Malformed => ConfigurationError::MalformedAnnotation { field },
        Fault::UnknownAngle => ConfigurationError::UnknownAngle { field },
    }
}

/// The collection compiled from a list of fields, or the error of the first
/// field that has a fault.
pub open spec fn fields_compiled(fields: Seq<FieldDecl>) -> Result<
    CompiledView,
    ConfigurationError,
>
    decreases fields.len(),
{
    if fields.len() == 0 {
        Ok(CompiledView { fields: Seq::empty(), actors: Seq::empty(), actions: Seq::empty() })
    } else {
        match fields_compiled(fields.drop_last()) {
            Ok(before) => match attributes_applied(
                field_started(before.actors, before.actions),
                fields.last().attributes@,
            ) {
                Ok(draft) => Ok(
                    CompiledView {
                        fields: before.fields.push(field_of_draft(draft, fields.last().ty@)),
                        actors: draft.actors,
                        actions: draft.actions,
                    },
                ),
                Err(fault) => Err(error_of_fault(fault, (fields.len() - 1) as usize)),
            },
            Err(error) => Err(error),
        }
    }
}

/// The collection compiled from a declaration: that of its fields where it
/// is a struct with named fields, else an error.
pub open spec fn collection_compiled(shape: Shape) -> Result<CompiledView, ConfigurationError> {
    match shape {
        Shape::Named(fields) => fields_compiled(fields@),
        _ => Err(ConfigurationError::UnsupportedShape),
    }
}

/// The entry that a compiled field makes with the asset that the field
/// holds: the asset is its image or its layout, as the kind says, or neither.
pub open spec fn entry_of(field: CompiledField, asset: u64) -> FieldEntry {
    (
        field.actor,
        field.action,
        field.angle,
        if field.kind == FieldKind::Image {
            Some(ImageId(asset))
        } else {
            None
        },
        if field.kind == FieldKind::AtlasLayout {
            Some(LayoutId(asset))
        } else {
            None
        },
    )
}

impl CompiledField {
    /// The entry to register for this field, given the asset that the field
    /// holds.
    pub fn entry(&self, asset: u64) -> (entry: FieldEntry)
        ensures
            entry == entry_of(*self, asset),
    {
        let image = match self.kind {
            FieldKind::Image => Some(ImageId(asset)),
            _ => None,
        };
        let layout = match self.kind {
            FieldKind::AtlasLayout => Some(LayoutId(asset)),
            _ => None,
        };
        (self.actor, self.action, self.angle, image, layout)
    }
}

/// Adds a name with its variant and id at the end of `names`, unless the
/// name is among them already.
pub fn note_name(names: &mut Vec<NamedId>, name: &str, variant: String, id: u64)
    ensures
        names_view(final(names)@) == noted_as(names_view(old(names)@), name@, variant@, id),
{
    let mut i: usize = 0;
    while i < names.len()
        invariant
            i <= names.len(),
            names@ == old(names)@,
            forall|j: int| 0 <= j < i ==> (#[trigger] names_view(names@)[j]).name != name@,
        decreases names.len() - i,
    {
        if same_text(names[i].name.as_str(), name) {
            assert(names_view(names@)[i as int].name == name@);
            return ;
        }
        i += 1;
    }
    let ghost before = names_view(names@);
    let entry = NamedId { name: name.to_owned(), variant, id };
    names.push(entry);
    assert(names_view(names@) =~= before.push(entry@));
}

/// Gives the number that stands for the name of an actor or action, and
/// notes the name among `names` if it is new.
pub fn numberize(names: &mut Vec<NamedId>, key: &str) -> (id: u64)
    ensures
        id == act_id(key@),
        names_view(final(names)@) == noted(names_view(old(names)@), key@),
{
    let id = get_act_id(key);
    let variant = capitalize_first_letter(key);
    note_name(names, key, variant, id);
    id
}

/// The angle that an `angle` annotation names, given the annotation's text
/// with a capital first letter and as it stands.
pub fn angle_from_spelling(capital: &str, text: &str) -> (angle: Option<Angle>)
    ensures
        angle == angle_spelled(capital@, text@),
{
    match Angle::from_variant_name(capital) {
        Some(angle) => Some(angle),
        None => Angle::from_name(text),
    }
}

/// The angle that an `angle` annotation names; `None` where it names none.
pub fn parse_angle(text: &str) -> (angle: Option<Angle>)
    ensures
        angle == angle_named(text@),
{
    let capital = capitalize_first_letter(text);
    angle_from_spelling(capital.as_str(), text)
}

/// The kind that a `type` annotation names: `image`, `atlas_layout`, or
/// nothing that the registry holds.
pub fn parse_kind(text: &str) -> (kind: FieldKind)
    ensures
        kind == kind_named(text@),
{
    if same_text(text, "image") {
        FieldKind::Image
    } else if same_text(text, "atlas_layout") {
        FieldKind::AtlasLayout
    } else {
        FieldKind::Inert
    }
}

/// The kind that goes with a field's type.
pub fn kind_from_type(ty: &str) -> (kind: FieldKind)
    ensures
        kind == kind_of_type(ty@),
{
    if same_text(ty, "Handle < Image >") {
        FieldKind::Image
    } else if same_text(ty, "Handle < TextureAtlasLayout >") {
        FieldKind::AtlasLayout
    } else {
        FieldKind::Inert
    }
}

impl Draft {
    /// Takes one annotation into the draft. Returns `false`, and leaves the
    /// draft as it is, where the annotation is an `angle` that names no angle.
    pub fn apply(&mut self, annotation: &Annotation) -> (known: bool)
        ensures
            match annotation_applied(old(self)@, *annotation) {
                Some(after) => known && final(self)@ == after,
                None => !known && final(self)@ == old(self)@,
            },
    {
        let key = annotation.key.as_str();
        if same_text(key, "actor") {
            match &annotation.value {
                Literal::Str(name) => {
                    let id = numberize(&mut self.actors, name.as_str());
                    self.actor = Some(id);
                },
                Literal::Int(id) => {
                    self.actor = Some(*id);
                },
                Literal::Other => {},
            }
        } else if same_text(key, "action") {
            match &annotation.value {
                Literal::Str(name) => {
                    let id = numberize(&mut self.actions, name.as_str());
                    self.action = Some(id);
                },
                Literal::Int(id) => {
                    self.action = Some(*id);
                },
                Literal::Other => {},
            }
        } else if same_text(key, "angle") {
            match &annotation.value {
                Literal::Str(text) => {
                    match parse_angle(text.as_str()) {
                        Some(angle) => {
                            self.angle = Some(angle);
                        },
                        None => {
                            return false;
                        },
                    }
                },
                _ => {},
            }
        } else if same_text(key, "type") {
            match &annotation.value {
                Literal::Str(text) => {
                    self.kind = Some(parse_kind(text.as_str()));
                },
                _ => {},
            }
        }
        true
    }

    /// Takes a list of annotations into the draft, in order, up to the first
    /// `angle` that names no angle. Returns whether there was none such.
    pub fn apply_all(&mut self, annotations: &Vec<Annotation>) -> (known: bool)
        ensures
            known == annotations_applied(old(self)@, annotations@) is Some,
            known ==> final(self)@ == annotations_applied(old(self)@, annotations@)->0,
    {
        let mut i: usize = 0;
        while i < annotations.len()
            invariant
                i <= annotations.len(),
                annotations_applied(old(self)@, annotations@.take(i as int)) == Some(self@),
            decreases annotations.len() - i,
        {
            proof {
                let next = annotations@.take(i + 1);
                assert(next.drop_last() =~= annotations@.take(i as int));
                assert(next.last() == annotations@[i as int]);
            }
            if !self.apply(&annotations[i]) {
                proof {
                    lemma_fault_stays(old(self)@, annotations@, i + 1);
                }
                return false;
            }
            i += 1;
        }
        assert(annotations@.take(annotations.len() as int) =~= annotations@);
        true
    }

    /// Takes the attributes of a field into the draft, in order, up to the
    /// first fault: an attribute that is no list of annotations, or an `angle`
    /// that names no angle.
    pub fn apply_attributes(&mut self, attributes: &Vec<AttributeArgs>) -> (outcome: Result<
        (),
        Fault,
    >)
        ensures
            match attributes_applied(old(self)@, attributes@) {
                Ok(after) => outcome is Ok && final(self)@ == after,
                Err(fault) => outcome == Err::<(), Fault>(fault),
            },
    {
        let mut i: usize = 0;
        while i < attributes.len()
            invariant
                i <= attributes.len(),
                attributes_applied(old(self)@, attributes@.take(i as int)) == Ok::<
                    DraftView,
                    Fault,
                >(self@),
            decreases attributes.len() - i,
        {
            proof {
                let next = attributes@.take(i + 1);
                assert(next.drop_last() =~= attributes@.take(i as int));
                assert(next.last() == attributes@[i as int]);
            }
            match &attributes[i] {
                AttributeArgs::Parsed(annotations) => {
                    if !self.apply_all(annotations) {
                        proof {
                            lemma_first_fault_stays(old(self)@, attributes@, i + 1);
                        }
                        return Err(Fault::UnknownAngle);
                    }
                },
                AttributeArgs::Malformed => {
                    proof {
                        lemma_first_fault_stays(old(self)@, attributes@, i + 1);
                    }
                    return Err(Fault::Malformed);
                },
            }
            i += 1;
        }
        assert(attributes@.take(attributes.len() as int) =~= attributes@);
        Ok(())
    }
}

/// Compiles the fields of a collection, in declaration order, into one
/// compiled field each and the lists of the actor and action names that the
/// annotations use. Stops at the first field that has a fault and returns the
/// error for it.
pub fn compile_fields(fields: &Vec<FieldDecl>) -> (compiled: Result<
    CompiledCollection,
    ConfigurationError,
>)
    ensures
        match fields_compiled(fields@) {
            Ok(view) => compiled matches Ok(collection) && collection@ == view,
            Err(error) => compiled matches Err(e) && e == error,
        },
{
    let mut draft = Draft {
        actor: None,
        action: None,
        angle: None,
        kind: None,
        actors: Vec::new(),
        actions: Vec::new(),
    };
    let mut out: Vec<CompiledField> = Vec::new();
    assert(names_view(draft.actors@) =~= Seq::empty());
    assert(names_view(draft.actions@) =~= Seq::empty());
    let mut i: usize = 0;
    while i < fields.len()
        invariant
            i <= fields.len(),
            fields_compiled(fields@.take(i as int)) == Ok::<CompiledView, ConfigurationError>(
                CompiledView {
                    fields: out@,
                    actors: names_view(draft.actors@),
                    actions: names_view(draft.actions@),
                },
            ),
        decreases fields.len() - i,
    {
        proof {
            let next = fields@.take(i + 1);
            assert(next.drop_last() =~= fields@.take(i as int));
            assert(next.last() == fields@[i as int]);
        }
        draft.actor = None;
        draft.action = None;
        draft.angle = None;
        draft.kind = None;
        assert(draft@ == field_started(names_view(draft.actors@), names_view(draft.actions@)));
        match draft.apply_attributes(&fields[i].attributes) {
            Ok(()) => {},
            Err(fault) => {
                proof {
                    lemma_first_error_stays(fields@, i + 1);
                }
                return Err(
                    match fault {
                        Fault::Malformed => ConfigurationError::MalformedAnnotation { field: i },
                        Fault::UnknownAngle => ConfigurationError::UnknownAngle { field: i },
                    },
                );
            },
        }
        let kind = match draft.kind {
            Some(kind) => kind,
            None => kind_from_type(fields[i].ty.as_str()),
        };
        out.push(
            CompiledField { actor: draft.actor, action: draft.action, angle: draft.angle, kind },
        );
        i += 1;
    }
    assert(fields@.take(fields.len() as int) =~= fields@);
    Ok(CompiledCollection { fields: out, actors: draft.actors, actions: draft.actions })
}

/// Compiles the declaration of a collection. Only a struct with named
/// fields can be compiled; its fields are compiled as `compile_fields` does.
pub fn compile_collection(shape: &Shape) -> (compiled: Result<
    CompiledCollection,
    ConfigurationError,
>)
    ensures
        match collection_compiled(*shape) {
            Ok(view) => compiled matches Ok(collection) && collection@ == view,
            Err(error) => compiled matches Err(e) && e == error,
        },
{
    match shape {
        Shape::Named(fields) => compile_fields(fields),
        _ => Err(ConfigurationError::UnsupportedShape),
    }
}

/// Once a prefix of the annotations names no angle, neither does the whole.
proof fn lemma_fault_stays(draft: DraftView, annotations: Seq<Annotation>, n: int)
    requires
        0 <= n <= annotations.len(),
        annotations_applied(draft, annotations.take(n)) is None,
    ensures
        annotations_applied(draft, annotations) is None,
    decreases annotations.len() - n,
{
    if n == annotations.len() {
        assert(annotations.take(n) =~= annotations);
    } else {
        let next = annotations.take(n + 1);
        assert(next.drop_last() =~= annotations.take(n));
        lemma_fault_stays(draft, annotations, n + 1);
    }
}

/// Once a prefix of the attributes has a fault, the whole has that fault.
proof fn lemma_first_fault_stays(draft: DraftView, attributes: Seq<AttributeArgs>, n: int)
    requires
        0 <= n <= attributes.len(),
        attributes_applied(draft, attributes.take(n)) is Err,
    ensures
        attributes_applied(draft, attributes) == attributes_applied(draft, attributes.take(n)),
    decreases attributes.len() - n,
{
    if n == attributes.len() {
        assert(attributes.take(n) =~= attributes);
    } else {
        let next = attributes.take(n + 1);
        assert(next.drop_last() =~= attributes.take(n));
        lemma_first_fault_stays(draft, attributes, n + 1);
    }
}

/// Once a prefix of the fields has an error, the whole has that error.
proof fn lemma_first_error_stays(fields: Seq<FieldDecl>, n: int)
    requires
        0 <= n <= fields.len(),
        fields_compiled(fields.take(n)) is Err,
    ensures
        fields_compiled(fields) == fields_compiled(fields.take(n)),
    decreases fields.len() - n,
{
    if n == fields.len() {
        assert(fields.take(n) =~= fields);
    } else {
        let next = fields.take(n + 1);
        assert(next.drop_last() =~= fields.take(n));
        lemma_first_error_stays(fields, n + 1);
    }
}

} // verus!
