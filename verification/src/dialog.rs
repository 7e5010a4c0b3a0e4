//! The options and results of the host's native dialogs.
use vstd::prelude::*;

verus! {

#[derive(Debug, Clone, Copy, PartialEq, Eq, Structural, PartialOrd, Ord, Hash)]
pub enum DialogType {
    Info,
    Warning,
    Error,
}

impl Default for DialogType {
    fn default() -> (kind: DialogType)
        ensures
            kind == DialogType::Info,
    {
        DialogType::Info
    }
}

impl DialogType {
    /// The name under which the kind crosses to the host.
    pub open spec fn spec_name(self) -> Seq<char> {
        match self {
            DialogType::Info => "info"@,
            DialogType::Warning => "warning"@,
            DialogType::Error => "error"@,
        }
    }

    pub fn name(&self) -> (name: &'static str)
        ensures
            name@ == self.spec_name(),
    {
        match self {
            DialogType::Info => "info",
            DialogType::Warning => "warning",
            DialogType::Error => "error",
        }
    }
}

/// Whether an optional text says nothing: it is absent or empty. Such a
/// text is left out of what goes to the host.
pub open spec fn spec_option_string_data(data: Option<String>) -> bool {
    match data {
        Some(text) => text@.len() == 0,
        None => true,
    }
}

pub fn option_string_data(data: &Option<String>) -> (silent: bool)
    ensures
        silent == spec_option_string_data(*data),
{
    match data {
        Some(text) => text.as_str().is_empty(),
        None => true,
    }
}

/// The options of a dialog with two buttons: only a title, or the full
/// set.
#[derive(Debug, Clone, PartialEq, Eq, PartialOrd, Ord, Hash)]
pub enum ConfirmDialogOptions {
    Title(String),
    Options {
        /// The label of the cancel button.
        cancel_label: Option<String>,
        /// The label of the confirm button.
        ok_label: Option<String>,
        /// The title of the dialog.
        title: Option<String>,
        /// The kind of the dialog.
        _type: Option<DialogType>,
    },
}

/// The options of a dialog with one button: only a title, or the full set.
#[derive(Debug, Clone, PartialEq, Eq, PartialOrd, Ord, Hash)]
pub enum MessageDialogOptions {
    Title(String),
    Options {
        /// The label of the confirm button.
        ok_label: Option<String>,
        /// The title of the dialog.
        title: Option<String>,
        /// The kind of the dialog.
        _type: Option<DialogType>,
    },
}

impl ConfirmDialogOptions {
    /// The same options for a dialog with one button: the label of the
    /// cancel button is dropped.
    pub open spec fn spec_into_message(self) -> MessageDialogOptions {
        match self {
            ConfirmDialogOptions::Title(title) => MessageDialogOptions::Title(title),
            ConfirmDialogOptions::Options { cancel_label, ok_label, title, _type } => {
                MessageDialogOptions::Options { ok_label, title, _type }
            },
        }
    }
}

impl MessageDialogOptions {
    /// The same options for a dialog with two buttons, with no label for
    /// the cancel button.
    pub open spec fn spec_into_confirm(self) -> ConfirmDialogOptions {
        match self {
            MessageDialogOptions::Title(title) => ConfirmDialogOptions::Title(title),
            MessageDialogOptions::Options { ok_label, title, _type } => {
                ConfirmDialogOptions::Options { cancel_label: None, ok_label, title, _type }
            },
        }
    }

    /// Options for one button survive the way through options for two
    /// buttons unchanged.
    pub proof fn lemma_confirm_round_trip(options: MessageDialogOptions)
        ensures
            options.spec_into_confirm().spec_into_message() == options,
    {
    }

    /// Options for two buttons lose exactly the label of the cancel button
    /// on the way through options for one.
    pub proof fn lemma_message_round_trip(options: ConfirmDialogOptions)
        ensures
            options.spec_into_message().spec_into_confirm() == match options {
                ConfirmDialogOptions::Title(title) => ConfirmDialogOptions::Title(title),
                ConfirmDialogOptions::Options { cancel_label, ok_label, title, _type } => {
                    ConfirmDialogOptions::Options { cancel_label: None, ok_label, title, _type }
                },
            },
    {
    }
}

impl From<String> for ConfirmDialogOptions {
    fn from(value: String) -> (options: ConfirmDialogOptions)
    {
        ConfirmDialogOptions::Title(value)
    }
}

impl vstd::std_specs::convert::FromSpecImpl<String> for ConfirmDialogOptions {
    open spec fn obeys_from_spec() -> bool {
        true
    }

    open spec fn from_spec(value: String) -> ConfirmDialogOptions {
        ConfirmDialogOptions::Title(value)
    }
}

impl Default for ConfirmDialogOptions {
    fn default() -> (options: ConfirmDialogOptions)
        ensures
            options == (ConfirmDialogOptions::Options {
                cancel_label: None,
                ok_label: None,
                title: None,
                _type: None,
            }),
    {
        ConfirmDialogOptions::Options {
            cancel_label: None,
            ok_label: None,
            title: None,
            _type: None,
        }
    }
}

impl From<String> for MessageDialogOptions {
    fn from(value: String) -> (options: MessageDialogOptions)
    {
        MessageDialogOptions::Title(value)
    }
}

impl vstd::std_specs::convert::FromSpecImpl<String> for MessageDialogOptions {
    open spec fn obeys_from_spec() -> bool {
        true
    }

    open spec fn from_spec(value: String) -> MessageDialogOptions {
        MessageDialogOptions::Title(value)
    }
}

impl From<ConfirmDialogOptions> for MessageDialogOptions {
    fn from(value: ConfirmDialogOptions) -> (options: MessageDialogOptions)
    {
        match value {
            ConfirmDialogOptions::Title(title) => MessageDialogOptions::Title(title),
            ConfirmDialogOptions::Options { cancel_label, ok_label, title, _type } => {
                MessageDialogOptions::Options { ok_label, title, _type }
            },
        }
    }
}

impl vstd::std_specs::convert::FromSpecImpl<ConfirmDialogOptions> for MessageDialogOptions {
    open spec fn obeys_from_spec() -> bool {
        true
    }

    open spec fn from_spec(value: ConfirmDialogOptions) -> MessageDialogOptions {
        value.spec_into_message()
    }
}

impl From<MessageDialogOptions> for ConfirmDialogOptions {
    fn from(value: MessageDialogOptions) -> (options: ConfirmDialogOptions)
    {
        match value {
            MessageDialogOptions::Title(title) => ConfirmDialogOptions::Title(title),
            MessageDialogOptions::Options { ok_label, title, _type } => {
                ConfirmDialogOptions::Options { cancel_label: None, ok_label, title, _type }
            },
        }
    }
}

impl vstd::std_specs::convert::FromSpecImpl<MessageDialogOptions> for ConfirmDialogOptions {
    open spec fn obeys_from_spec() -> bool {
        true
    }

    open spec fn from_spec(value: MessageDialogOptions) -> ConfirmDialogOptions {
        value.spec_into_confirm()
    }
}

/// The file extensions that a file dialog offers under one name.
#[derive(Debug, Clone, PartialEq, Eq, Hash)]
pub struct DialogFilter {
    pub extensions: Vec<String>,
    pub name: String,
}

/// The options of the dialog that opens files or directories.
#[derive(Debug, Clone, PartialEq, Eq, Hash)]
pub struct OpenDialogOptions {
    /// The directory or file that the dialog starts at.
    pub default_path: Option<String>,
    /// Whether directories are selected and not files.
    pub directory: Option<bool>,
    pub filters: Option<Vec<DialogFilter>>,
    /// Whether more than one entry may be selected.
    pub multiple: Option<bool>,
    /// Whether a selected directory will be read with what is below it.
    pub recursive: Option<bool>,
    pub title: Option<String>,
}

impl Default for OpenDialogOptions {
    fn default() -> (options: OpenDialogOptions)
        ensures
            options.default_path.is_none(),
            options.directory.is_none(),
            options.filters.is_none(),
            options.multiple.is_none(),
            options.recursive.is_none(),
            options.title.is_none(),
    {
        OpenDialogOptions {
            default_path: None,
            directory: None,
            filters: None,
            multiple: None,
            recursive: None,
            title: None,
        }
    }
}

/// The options of the dialog that chooses where to save.
#[derive(Debug, Clone, PartialEq, Eq, Hash)]
pub struct SaveDialogOptions {
    /// The directory or file that the dialog starts at.
    pub default_path: Option<String>,
    pub filters: Option<Vec<DialogFilter>>,
    pub title: Option<String>,
}

impl Default for SaveDialogOptions {
    fn default() -> (options: SaveDialogOptions)
        ensures
            options.default_path.is_none(),
            options.filters.is_none(),
            options.title.is_none(),
    {
        SaveDialogOptions { default_path: None, filters: None, title: None }
    }
}

/// What the open dialog came back with.
#[derive(Debug, Clone, PartialEq, Eq, Hash)]
pub enum OpenReturnType {
    Single(String),
    Multiple(Vec<String>),
}

impl OpenReturnType {
    /// Every selected path, in order: the one path alone, or all of them.
    pub fn to_vec(self) -> (paths: Vec<String>)
        ensures
            match self {
                OpenReturnType::Single(path) => paths@ == seq![path],
                OpenReturnType::Multiple(items) => paths == items,
            },
    {
        match self {
            OpenReturnType::Single(path) => {
                let mut paths: Vec<String> = Vec::new();
                paths.push(path);
                assert(paths@ =~= seq![path]);
                paths
            },
            OpenReturnType::Multiple(items) => items,
        }
    }
}

} // verus!
