//! Reading the parts of a form and the options of a client from JSON. A
//! part carries no tag: which of its variants a value is shows in its shape
//! alone. A string is text, an array of bytes is bytes, and an object with
//! a `file` is a file; a value of any other shape, or of one of these
//! shapes gone wrong inside, is no part at all.
use super::body::{
    spec_text_view, FilePart, FilePartFile, FilePartFileView, FilePartView, Part, PartView,
};
use super::raw::{ClientsOptions, ConnectTimout};
use crate::outside::{
    json_as_array, json_as_str, json_as_u64, json_get, json_is_null, json_is_object,
    spec_json_array, spec_json_field, spec_json_is_null, spec_json_is_object, spec_json_str,
    spec_json_u64,
};
use serde_json::Value;
use vstd::prelude::*;
use vstd::string::StringExecFns;

verus! {

/// Whether a JSON value is a byte: an unsigned integer below 256.
pub open spec fn spec_is_byte(value: Value) -> bool {
    spec_json_u64(value) matches Some(number) && number <= 255
}

/// The bytes that the elements of an array are, where each of them is one.
pub open spec fn spec_bytes(items: Seq<Value>) -> Option<Seq<u8>> {
    if forall|i: int| 0 <= i < items.len() ==> spec_is_byte(#[trigger] items[i]) {
        Some(Seq::new(items.len(), |i: int| spec_json_u64(items[i])->Some_0 as u8))
    } else {
        None
    }
}

/// The optional text under a name in an object: absent where the field is
/// missing or `null`, the text where the field is a string. A field of
/// another shape spoils the object, and there is no answer.
pub open spec fn spec_optional_text(object: Value, key: Seq<char>) -> Option<Option<Seq<char>>> {
    match spec_json_field(object, key) {
        None => Some(None),
        Some(field) => if spec_json_is_null(field) {
            Some(None)
        } else {
            match spec_json_str(field) {
                Some(text) => Some(Some(text)),
                None => None,
            }
        },
    }
}

/// The content of a file: a string is a path, an array of bytes is the
/// content itself.
pub open spec fn spec_file_content(value: Value) -> Option<FilePartFileView> {
    match spec_json_str(value) {
        Some(path) => Some(FilePartFileView::Path(path)),
        None => match spec_json_array(value) {
            Some(items) => match spec_bytes(items) {
                Some(bytes) => Some(FilePartFileView::File(bytes)),
                None => None,
            },
            None => None,
        },
    }
}

/// The file that an object with a `file` describes.
pub open spec fn spec_file_part(object: Value) -> Option<FilePartView> {
    match spec_json_field(object, "file"@) {
        None => None,
        Some(content) => match (
            spec_file_content(content),
            spec_optional_text(object, "fileName"@),
            spec_optional_text(object, "mime"@),
        ) {
            (Some(file), Some(file_name), Some(mime)) => Some(
                FilePartView { file, file_name, mime },
            ),
            _ => None,
        },
    }
}

/// The part that a JSON value is, by its shape.
pub open spec fn spec_part(value: Value) -> Option<PartView> {
    match spec_json_str(value) {
        Some(text) => Some(PartView::String(text)),
        None => match spec_json_array(value) {
            Some(items) => match spec_bytes(items) {
                Some(bytes) => Some(PartView::Bytes(bytes)),
                None => None,
            },
            None => match spec_file_part(value) {
                Some(file) => Some(PartView::File(file)),
                None => None,
            },
        },
    }
}

fn read_bytes(items: &Vec<Value>) -> (bytes: Option<Vec<u8>>)
    ensures
        bytes.is_some() == spec_bytes(items@).is_some(),
        bytes matches Some(read) ==> Some(read@) == spec_bytes(items@),
{
    let mut read: Vec<u8> = Vec::new();
    let mut i: usize = 0;
    while i < items.len()
        invariant
            i <= items@.len(),
            read@.len() == i,
            forall|j: int| 0 <= j < i ==> spec_is_byte(#[trigger] items@[j]),
            forall|j: int| 0 <= j < i ==> read@[j] == spec_json_u64(items@[j])->Some_0 as u8,
        decreases items@.len() - i,
    {
        match json_as_u64(&items[i]) {
            Some(number) => {
                if number > 255 {
                    assert(!spec_is_byte(items@[i as int]));
                    return None;
                }
                read.push(number as u8);
            },
            None => {
                assert(!spec_is_byte(items@[i as int]));
                return None;
            },
        }
        i += 1;
    }
    assert(read@ =~= spec_bytes(items@)->Some_0);
    Some(read)
}

fn read_optional_text(object: &Value, key: &str) -> (text: Option<Option<String>>)
    ensures
        text.is_some() == spec_optional_text(*object, key@).is_some(),
        text matches Some(read) ==> Some(spec_text_view(read)) == spec_optional_text(
            *object,
            key@,
        ),
{
    match json_get(object, key) {
        None => Some(None),
        Some(field) => {
            if json_is_null(field) {
                Some(None)
            } else {
                match json_as_str(field) {
                    Some(found) => Some(Some(String::from_str(found))),
                    None => None,
                }
            }
        },
    }
}

fn read_file_content(value: &Value) -> (file: Option<FilePartFile<Vec<u8>>>)
    ensures
        file.is_some() == spec_file_content(*value).is_some(),
        file matches Some(FilePartFile::Path(path)) ==> spec_file_content(*value) == Some(
            FilePartFileView::Path(path@),
        ),
        file matches Some(FilePartFile::File(content)) ==> spec_file_content(*value) == Some(
            FilePartFileView::File(content@),
        ),
{
    match json_as_str(value) {
        Some(path) => Some(FilePartFile::Path(String::from_str(path))),
        None => match json_as_array(value) {
            Some(items) => match read_bytes(items) {
                Some(bytes) => Some(FilePartFile::File(bytes)),
                None => None,
            },
            None => None,
        },
    }
}

impl FilePart<Vec<u8>> {
    /// Reads the file that an object describes: its `file` as a path or as
    /// content, and its `fileName` and `mime` where it has them.
    pub fn from_json(object: &Value) -> (file: Option<FilePart<Vec<u8>>>)
        ensures
            file.is_some() == spec_file_part(*object).is_some(),
            file matches Some(read) ==> Some(read@) == spec_file_part(*object),
    {
        let content = match json_get(object, "file") {
            Some(content) => content,
            None => {
                return None;
            },
        };
        let file = match read_file_content(content) {
            Some(file) => file,
            None => {
                return None;
            },
        };
        let file_name = match read_optional_text(object, "fileName") {
            Some(file_name) => file_name,
            None => {
                return None;
            },
        };
        let mime = match read_optional_text(object, "mime") {
            Some(mime) => mime,
            None => {
                return None;
            },
        };
        Some(FilePart { file, file_name, mime })
    }
}

impl Part {
    /// Reads the part that a JSON value is, by its shape.
    pub fn from_json(value: &Value) -> (part: Option<Part>)
        ensures
            part.is_some() == spec_part(*value).is_some(),
            part matches Some(read) ==> Some(read@) == spec_part(*value),
    {
        match json_as_str(value) {
            Some(text) => Some(Part::String(String::from_str(text))),
            None => match json_as_array(value) {
                Some(items) => match read_bytes(items) {
                    Some(bytes) => Some(Part::Bytes(bytes)),
                    None => None,
                },
                None => match FilePart::from_json(value) {
                    Some(file) => Some(Part::File(file)),
                    None => None,
                },
            },
        }
    }
}


/// The field under a name in an object, where it is there and not `null`.
pub open spec fn spec_present_field(object: Value, key: Seq<char>) -> Option<Value> {
    match spec_json_field(object, key) {
        Some(field) => if spec_json_is_null(field) {
            None
        } else {
            Some(field)
        },
        None => None,
    }
}

fn present_field<'a>(object: &'a Value, key: &str) -> (field: Option<&'a Value>)
    ensures
        field matches Some(found) ==> spec_present_field(*object, key@) == Some(*found),
        field.is_none() ==> spec_present_field(*object, key@).is_none(),
{
    match json_get(object, key) {
        Some(field) => if json_is_null(field) {
            None
        } else {
            Some(field)
        },
        None => None,
    }
}

impl ClientsOptions {
    /// The most redirections, as the object gives them: none where the
    /// field is missing or `null`, the count where it is an unsigned
    /// integer of 32 bits. Any other field spoils the object.
    pub open spec fn spec_max_redirection(object: Value) -> Option<Option<u32>> {
        match spec_present_field(object, "maxRedirection"@) {
            None => Some(None),
            Some(field) => match spec_json_u64(field) {
                Some(count) => if count <= u32::MAX {
                    Some(Some(count as u32))
                } else {
                    None
                },
                None => None,
            },
        }
    }

    /// The connection timeout, as the object gives it: none where the
    /// field is missing or `null`, the timeout where the field is one in
    /// either of its shapes. Any other field spoils the object.
    pub open spec fn spec_connect_timout(object: Value) -> Option<Option<ConnectTimout>> {
        match spec_present_field(object, "connectTimout"@) {
            None => Some(None),
            Some(field) => match ConnectTimout::spec_from_json(field) {
                Some(timeout) => Some(Some(timeout)),
                None => None,
            },
        }
    }

    /// The options that a JSON value is: an object, with each of the two
    /// settings absent or well formed.
    pub open spec fn spec_from_json(value: Value) -> Option<ClientsOptions> {
        if spec_json_is_object(value) {
            match (Self::spec_max_redirection(value), Self::spec_connect_timout(value)) {
                (Some(max_redirection), Some(connect_timout)) => Some(
                    ClientsOptions { max_redirection, connect_timout },
                ),
                _ => None,
            }
        } else {
            None
        }
    }

    /// Reads the options of a client from JSON. The connection timeout is
    /// read in either of its shapes.
    pub fn from_json(value: &Value) -> (options: Option<ClientsOptions>)
        ensures
            options == Self::spec_from_json(*value),
    {
        if !json_is_object(value) {
            return None;
        }
        let max_redirection = match present_field(value, "maxRedirection") {
            None => None,
            Some(field) => match json_as_u64(field) {
                Some(count) => {
                    if count > 0xffff_ffff {
                        return None;
                    }
                    Some(count as u32)
                },
                None => {
                    return None;
                },
            },
        };
        let connect_timout = match present_field(value, "connectTimout") {
            None => None,
            Some(field) => match ConnectTimout::from_json(field) {
                Some(timeout) => Some(timeout),
                None => {
                    return None;
                },
            },
        };
        Some(ClientsOptions { max_redirection, connect_timout })
    }
}

} // verus!
