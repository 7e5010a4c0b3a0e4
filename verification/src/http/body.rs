//! What a request carries: bodies, the parts of a form, and the plain
//! description of the host values that they are handed over as.
use crate::outside::text_eq;
use vstd::prelude::*;
use vstd::string::StringExecFns;

verus! {

/// The content of a file part: a path on the host's side, or the content
/// itself.
#[derive(Debug, Clone, PartialEq, Eq)]
pub enum FilePartFile<T> {
    Path(String),
    File(T),
}

/// A file sent as one field of a form.
#[derive(Debug, Clone, PartialEq, Eq)]
pub struct FilePart<T> {
    pub file: FilePartFile<T>,
    pub file_name: Option<String>,
    pub mime: Option<String>,
}

/// One field of a form.
#[derive(Debug, Clone, PartialEq, Eq)]
pub enum Part {
    String(String),
    Bytes(Vec<u8>),
    File(FilePart<Vec<u8>>),
}

/// The mathematical content of a file's content.
pub enum FilePartFileView {
    Path(Seq<char>),
    File(Seq<u8>),
}

/// The mathematical content of a [`FilePart`] of bytes.
pub struct FilePartView {
    pub file: FilePartFileView,
    pub file_name: Option<Seq<char>>,
    pub mime: Option<Seq<char>>,
}

/// The mathematical content of a [`Part`].
pub enum PartView {
    String(Seq<char>),
    Bytes(Seq<u8>),
    File(FilePartView),
}

/// The mathematical content of an optional text.
pub open spec fn spec_text_view(text: Option<String>) -> Option<Seq<char>> {
    match text {
        Some(text) => Some(text@),
        None => None,
    }
}

impl View for FilePart<Vec<u8>> {
    type V = FilePartView;

    open spec fn view(&self) -> FilePartView {
        FilePartView {
            file: match self.file {
                FilePartFile::Path(path) => FilePartFileView::Path(path@),
                FilePartFile::File(content) => FilePartFileView::File(content@),
            },
            file_name: spec_text_view(self.file_name),
            mime: spec_text_view(self.mime),
        }
    }
}

impl View for Part {
    type V = PartView;

    open spec fn view(&self) -> PartView {
        match self {
            Part::String(text) => PartView::String(text@),
            Part::Bytes(bytes) => PartView::Bytes(bytes@),
            Part::File(file) => PartView::File(file@),
        }
    }
}

/// A host value without structure, as the library hands it over.
#[derive(Debug, Clone, PartialEq, Eq)]
pub enum RawValue {
    Undefined,
    Text(String),
    Bytes(Vec<u8>),
}

/// The mathematical content of a [`RawValue`].
pub enum RawValueView {
    Undefined,
    Text(Seq<char>),
    Bytes(Seq<u8>),
}

impl View for RawValue {
    type V = RawValueView;

    open spec fn view(&self) -> RawValueView {
        match self {
            RawValue::Undefined => RawValueView::Undefined,
            RawValue::Text(text) => RawValueView::Text(text@),
            RawValue::Bytes(bytes) => RawValueView::Bytes(bytes@),
        }
    }
}

/// One property of a host object.
#[derive(Debug, Clone, PartialEq, Eq)]
pub struct RawEntry {
    pub key: String,
    pub value: RawValue,
}

impl View for RawEntry {
    type V = (Seq<char>, RawValueView);

    open spec fn view(&self) -> (Seq<char>, RawValueView) {
        (self.key@, self.value@)
    }
}

/// A form field on the host's side: a plain value, or an object that
/// describes a file.
#[derive(Debug, Clone, PartialEq, Eq)]
pub enum RawPart {
    Value(RawValue),
    Object(Vec<RawEntry>),
}

/// The mathematical content of a [`RawPart`].
pub enum RawPartView {
    Value(RawValueView),
    Object(Seq<(Seq<char>, RawValueView)>),
}

impl View for RawPart {
    type V = RawPartView;

    open spec fn view(&self) -> RawPartView {
        match self {
            RawPart::Value(value) => RawPartView::Value(value@),
            RawPart::Object(entries) => RawPartView::Object(
                Seq::new(entries@.len(), |i: int| entries@[i]@),
            ),
        }
    }
}

/// The host value for an optional string: the string, or `undefined`.
pub open spec fn spec_optional_text(text: Option<String>) -> RawValueView {
    match text {
        Some(text) => RawValueView::Text(text@),
        None => RawValueView::Undefined,
    }
}

fn optional_text(text: &Option<String>) -> (value: RawValue)
    ensures
        value@ == spec_optional_text(*text),
{
    match text {
        Some(text) => RawValue::Text(text.clone()),
        None => RawValue::Undefined,
    }
}

fn clone_bytes(bytes: &Vec<u8>) -> (copy: Vec<u8>)
    ensures
        copy@ == bytes@,
{
    let mut copy: Vec<u8> = Vec::new();
    let mut i: usize = 0;
    while i < bytes.len()
        invariant
            i <= bytes@.len(),
            copy@ == bytes@.subrange(0, i as int),
        decreases bytes@.len() - i,
    {
        copy.push(bytes[i]);
        i += 1;
        assert(copy@ =~= bytes@.subrange(0, i as int));
    }
    assert(bytes@.subrange(0, bytes@.len() as int) =~= bytes@);
    copy
}

impl FilePart<Vec<u8>> {
    /// The file itself as a host value: the path as text, or the content as
    /// bytes.
    pub open spec fn spec_file_value(self) -> RawValueView {
        match self.file {
            FilePartFile::Path(path) => RawValueView::Text(path@),
            FilePartFile::File(content) => RawValueView::Bytes(content@),
        }
    }

    /// The host object that describes this file: its name, its MIME type
    /// and the file, each absent option as `undefined`.
    pub open spec fn spec_js_value(self) -> Seq<(Seq<char>, RawValueView)> {
        seq![
            ("fileName"@, spec_optional_text(self.file_name)),
            ("mime"@, spec_optional_text(self.mime)),
            ("file"@, self.spec_file_value()),
        ]
    }

    pub fn into_js_value(&self) -> (object: RawPart)
        ensures
            object@ == RawPartView::Object(self.spec_js_value()),
    {
        let mut entries: Vec<RawEntry> = Vec::new();
        entries.push(
            RawEntry { key: String::from_str("fileName"), value: optional_text(&self.file_name) },
        );
        entries.push(RawEntry { key: String::from_str("mime"), value: optional_text(&self.mime) });
        let file = match &self.file {
            FilePartFile::Path(path) => RawValue::Text(path.clone()),
            FilePartFile::File(content) => RawValue::Bytes(clone_bytes(content)),
        };
        entries.push(RawEntry { key: String::from_str("file"), value: file });
        let object = RawPart::Object(entries);
        assert(object@->Object_0 =~= self.spec_js_value());
        object
    }
}

impl Part {
    /// The host value for this field.
    pub open spec fn spec_js_value(self) -> RawPartView {
        match self {
            Part::String(text) => RawPartView::Value(RawValueView::Text(text@)),
            Part::Bytes(bytes) => RawPartView::Value(RawValueView::Bytes(bytes@)),
            Part::File(file) => RawPartView::Object(file.spec_js_value()),
        }
    }

    pub fn into_js_value(&self) -> (value: RawPart)
        ensures
            value@ == self.spec_js_value(),
    {
        match self {
            Part::String(text) => RawPart::Value(RawValue::Text(text.clone())),
            Part::Bytes(bytes) => RawPart::Value(RawValue::Bytes(clone_bytes(bytes))),
            Part::File(file) => file.into_js_value(),
        }
    }
}

impl From<String> for Part {
    fn from(value: String) -> (part: Part)
    {
        Part::String(value)
    }
}

impl vstd::std_specs::convert::FromSpecImpl<String> for Part {
    open spec fn obeys_from_spec() -> bool {
        true
    }

    open spec fn from_spec(value: String) -> Part {
        Part::String(value)
    }
}

impl From<Vec<u8>> for Part {
    fn from(value: Vec<u8>) -> (part: Part)
    {
        Part::Bytes(value)
    }
}

impl vstd::std_specs::convert::FromSpecImpl<Vec<u8>> for Part {
    open spec fn obeys_from_spec() -> bool {
        true
    }

    open spec fn from_spec(value: Vec<u8>) -> Part {
        Part::Bytes(value)
    }
}

impl From<FilePart<Vec<u8>>> for Part {
    fn from(value: FilePart<Vec<u8>>) -> (part: Part)
    {
        Part::File(value)
    }
}

impl vstd::std_specs::convert::FromSpecImpl<FilePart<Vec<u8>>> for Part {
    open spec fn obeys_from_spec() -> bool {
        true
    }

    open spec fn from_spec(value: FilePart<Vec<u8>>) -> Part {
        Part::File(value)
    }
}

/// One named field of a form.
#[derive(Debug, Clone, PartialEq, Eq)]
pub struct FormField {
    pub name: String,
    pub part: Part,
}

/// The fields of a form, each under a name of its own, in the order in
/// which they were first given.
#[derive(Debug, Clone, PartialEq, Eq)]
pub struct Form {
    fields: Vec<FormField>,
}

impl Form {
    /// The fields in their order.
    pub closed spec fn spec_fields(self) -> Seq<FormField> {
        self.fields@
    }

    /// No two fields share a name.
    pub open spec fn spec_names_distinct(fields: Seq<FormField>) -> bool {
        forall|i: int, j: int|
            0 <= i < j < fields.len() ==> (#[trigger] fields[i]).name@ != (
            #[trigger] fields[j]).name@
    }

    pub open spec fn well_formed(self) -> bool {
        Self::spec_names_distinct(self.spec_fields())
    }

    /// Whether a field of that name is there.
    pub open spec fn spec_contains(self, name: Seq<char>) -> bool {
        exists|i: int| 0 <= i < self.spec_fields().len() && self.spec_fields()[i].name@ == name
    }

    pub fn new() -> (form: Form)
        ensures
            form.well_formed(),
            form.spec_fields().len() == 0,
    {
        Form { fields: Vec::new() }
    }

    pub fn len(&self) -> (count: usize)
        ensures
            count == self.spec_fields().len(),
    {
        self.fields.len()
    }

    pub fn fields(&self) -> (fields: &Vec<FormField>)
        ensures
            fields@ == self.spec_fields(),
    {
        &self.fields
    }

    /// Where the field of that name is, if there is one.
    fn position(&self, name: &str) -> (found: Option<usize>)
        ensures
            match found {
                Some(i) => i < self.spec_fields().len() && self.spec_fields()[i as int].name@
                    == name@,
                None => !self.spec_contains(name@),
            },
    {
        let mut i: usize = 0;
        while i < self.fields.len()
            invariant
                i <= self.fields@.len(),
                forall|j: int| 0 <= j < i ==> (#[trigger] self.fields@[j]).name@ != name@,
            decreases self.fields@.len() - i,
        {
            if text_eq(self.fields[i].name.as_str(), name) {
                return Some(i);
            }
            i += 1;
        }
        None
    }

    /// The part under that name.
    pub fn get(&self, name: &str) -> (part: Option<&Part>)
        ensures
            match part {
                Some(found) => exists|i: int|
                    0 <= i < self.spec_fields().len() && self.spec_fields()[i].name@ == name@
                        && self.spec_fields()[i].part == *found,
                None => !self.spec_contains(name@),
            },
    {
        match self.position(name) {
            Some(i) => Some(&self.fields[i].part),
            None => None,
        }
    }

    /// Puts the part under the name. A field of that name keeps its place
    /// and its name and gets the new part, and the part it had is handed
    /// back; a new name is added behind the others.
    pub fn insert(&mut self, name: String, part: Part) -> (replaced: Option<Part>)
        requires
            old(self).well_formed(),
        ensures
            final(self).well_formed(),
            ({
                let before = old(self).spec_fields();
                let after = final(self).spec_fields();
                match replaced {
                    Some(had) => exists|i: int|
                        0 <= i < before.len() && before[i].name@ == name@ && before[i].part == had
                            && after == before.update(
                            i,
                            (FormField { name: before[i].name, part }),
                        ),
                    None => !old(self).spec_contains(name@) && after == before.push(
                        (FormField { name, part }),
                    ),
                }
            }),
    {
        match self.position(name.as_str()) {
            Some(i) => {
                let ghost before = self.fields@;
                let had = self.fields.remove(i);
                self.fields.insert(i, FormField { name: had.name, part });
                assert(self.fields@ =~= before.update(
                    i as int,
                    (FormField { name: before[i as int].name, part }),
                ));
                Some(had.part)
            },
            None => {
                self.fields.push(FormField { name, part });
                None
            },
        }
    }
}

/// What a request carries: bytes, a form, or text.
#[derive(Debug, Clone, PartialEq, Eq)]
pub enum Body {
    Bytes(Vec<u8>),
    Form(Form),
    Text(String),
}

/// One named field of a form, as a host value.
#[derive(Debug, Clone, PartialEq, Eq)]
pub struct RawField {
    pub name: String,
    pub part: RawPart,
}

impl View for RawField {
    type V = (Seq<char>, RawPartView);

    open spec fn view(&self) -> (Seq<char>, RawPartView) {
        (self.name@, self.part@)
    }
}

/// A body as the host's constructors take it.
#[derive(Debug, Clone, PartialEq, Eq)]
pub enum RawBody {
    Bytes(Vec<u8>),
    Form(Vec<RawField>),
    Text(String),
}

/// The mathematical content of a [`RawBody`].
pub enum RawBodyView {
    Bytes(Seq<u8>),
    Form(Seq<(Seq<char>, RawPartView)>),
    Text(Seq<char>),
}

impl View for RawBody {
    type V = RawBodyView;

    open spec fn view(&self) -> RawBodyView {
        match self {
            RawBody::Bytes(bytes) => RawBodyView::Bytes(bytes@),
            RawBody::Form(fields) => RawBodyView::Form(
                Seq::new(fields@.len(), |i: int| fields@[i]@),
            ),
            RawBody::Text(text) => RawBodyView::Text(text@),
        }
    }
}

/// The host object for a form: each field under its name, in order.
pub open spec fn spec_form_object(fields: Seq<FormField>) -> Seq<(Seq<char>, RawPartView)> {
    Seq::new(fields.len(), |i: int| (fields[i].name@, fields[i].part.spec_js_value()))
}

fn body_form_to_object(fields: &Vec<FormField>) -> (object: Vec<RawField>)
    ensures
        object@.len() == fields@.len(),
        forall|i: int|
            0 <= i < fields@.len() ==> (#[trigger] object@[i])@ == spec_form_object(fields@)[i],
{
    let mut object: Vec<RawField> = Vec::new();
    let mut i: usize = 0;
    while i < fields.len()
        invariant
            i <= fields@.len(),
            object@.len() == i,
            forall|j: int| 0 <= j < i ==> (#[trigger] object@[j])@ == spec_form_object(fields@)[j],
        decreases fields@.len() - i,
    {
        let field = &fields[i];
        object.push(RawField { name: field.name.clone(), part: field.part.into_js_value() });
        i += 1;
    }
    object
}

impl Default for Body {
    fn default() -> (body: Body)
        ensures
            body matches Body::Bytes(bytes) && bytes@.len() == 0,
    {
        Body::Bytes(Vec::new())
    }
}

impl Body {
    /// This body as the host takes it: the same bytes or text, or the
    /// object for the form.
    pub open spec fn spec_into_raw(self) -> RawBodyView {
        match self {
            Body::Bytes(bytes) => RawBodyView::Bytes(bytes@),
            Body::Form(form) => RawBodyView::Form(spec_form_object(form.spec_fields())),
            Body::Text(text) => RawBodyView::Text(text@),
        }
    }

    /// A body is well formed when its form, if it is one, is.
    pub open spec fn well_formed(self) -> bool {
        self matches Body::Form(form) ==> form.well_formed()
    }

    pub fn into_raw(&self) -> (raw: RawBody)
        ensures
            raw@ == self.spec_into_raw(),
    {
        match self {
            Body::Bytes(bytes) => RawBody::Bytes(clone_bytes(bytes)),
            Body::Form(form) => {
                let raw = RawBody::Form(body_form_to_object(form.fields()));
                assert(raw@->Form_0 =~= spec_form_object(form.spec_fields()));
                raw
            },
            Body::Text(text) => RawBody::Text(text.clone()),
        }
    }
}

impl From<Body> for RawBody {
    /// The body as the host takes it. The host values are new, which no
    /// spec function can name, so the contract stands here and not in
    /// `from_spec`.
    fn from(value: Body) -> (raw: RawBody)
        ensures
            raw@ == value.spec_into_raw(),
    {
        value.into_raw()
    }
}

impl vstd::std_specs::convert::FromSpecImpl<Body> for RawBody {
    open spec fn obeys_from_spec() -> bool {
        false
    }

    open spec fn from_spec(value: Body) -> RawBody {
        arbitrary()
    }
}

} // verus!
