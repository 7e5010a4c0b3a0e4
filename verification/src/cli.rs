//! What the host matched of the arguments that the application was started
//! with.
use crate::outside::{
    json_as_array, json_as_bool, json_as_str, spec_json_array, spec_json_bool, spec_json_str,
};
use serde_json::Value;
use std::collections::HashMap;
use vstd::prelude::*;
use vstd::string::StringExecFns;

verus! {

/// The value of one matched argument.
#[derive(Debug, Clone, PartialEq, Eq)]
pub enum ArgMatchValue {
    String(String),
    Boolean(bool),
    Strings(Vec<String>),
}

/// One matched argument: how often it occurred, and its value if it has
/// one.
#[derive(Debug, Clone)]
pub struct ArgMatch {
    pub occurences: usize,
    pub value: Option<ArgMatchValue>,
}

/// The matched arguments, by name, and the matched subcommand.
#[derive(Debug)]
pub struct CliMatches {
    pub args: HashMap<String, ArgMatch>,
    pub subcommand: Option<Box<SubcommandMatch>>,
}

/// A matched subcommand and what was matched below it.
#[derive(Debug)]
pub struct SubcommandMatch {
    pub name: String,
    pub matches: Box<CliMatches>,
}

/// The mathematical content of an [`ArgMatchValue`].
pub enum ArgMatchValueView {
    String(Seq<char>),
    Boolean(bool),
    Strings(Seq<Seq<char>>),
}

impl View for ArgMatchValue {
    type V = ArgMatchValueView;

    open spec fn view(&self) -> ArgMatchValueView {
        match self {
            ArgMatchValue::String(text) => ArgMatchValueView::String(text@),
            ArgMatchValue::Boolean(truth) => ArgMatchValueView::Boolean(*truth),
            ArgMatchValue::Strings(texts) => ArgMatchValueView::Strings(
                Seq::new(texts@.len(), |i: int| texts@[i]@),
            ),
        }
    }
}

/// The texts that the elements of an array are, where each of them is a
/// string.
pub open spec fn spec_texts(items: Seq<Value>) -> Option<Seq<Seq<char>>> {
    if forall|i: int| 0 <= i < items.len() ==> spec_json_str(#[trigger] items[i]).is_some() {
        Some(Seq::new(items.len(), |i: int| spec_json_str(items[i])->Some_0))
    } else {
        None
    }
}

/// The value of an argument that a JSON value is, by its shape: a string,
/// a truth value, or an array of strings.
pub open spec fn spec_arg_match_value(value: Value) -> Option<ArgMatchValueView> {
    match spec_json_str(value) {
        Some(text) => Some(ArgMatchValueView::String(text)),
        None => match spec_json_bool(value) {
            Some(truth) => Some(ArgMatchValueView::Boolean(truth)),
            None => match spec_json_array(value) {
                Some(items) => match spec_texts(items) {
                    Some(texts) => Some(ArgMatchValueView::Strings(texts)),
                    None => None,
                },
                None => None,
            },
        },
    }
}

fn read_texts(items: &Vec<Value>) -> (texts: Option<Vec<String>>)
    ensures
        texts.is_some() == spec_texts(items@).is_some(),
        texts matches Some(read) ==> Some(Seq::new(read@.len(), |i: int| read@[i]@))
            == spec_texts(items@),
{
    let mut read: Vec<String> = Vec::new();
    let mut i: usize = 0;
    while i < items.len()
        invariant
            i <= items@.len(),
            read@.len() == i,
            forall|j: int| 0 <= j < i ==> spec_json_str(#[trigger] items@[j]) == Some(read@[j]@),
        decreases items@.len() - i,
    {
        match json_as_str(&items[i]) {
            Some(text) => read.push(String::from_str(text)),
            None => {
                return None;
            },
        }
        i += 1;
    }
    assert(Seq::new(read@.len(), |i: int| read@[i]@) =~= spec_texts(items@)->Some_0);
    Some(read)
}

impl ArgMatchValue {
    /// Reads the value of an argument from JSON, by its shape.
    pub fn from_json(value: &Value) -> (found: Option<ArgMatchValue>)
        ensures
            found.is_some() == spec_arg_match_value(*value).is_some(),
            found matches Some(read) ==> Some(read@) == spec_arg_match_value(*value),
    {
        match json_as_str(value) {
            Some(text) => Some(ArgMatchValue::String(String::from_str(text))),
            None => match json_as_bool(value) {
                Some(truth) => Some(ArgMatchValue::Boolean(truth)),
                None => match json_as_array(value) {
                    Some(items) => match read_texts(items) {
                        Some(texts) => Some(ArgMatchValue::Strings(texts)),
                        None => None,
                    },
                    None => None,
                },
            },
        }
    }
}

} // verus!
