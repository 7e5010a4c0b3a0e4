//! The options and entries of the host's file system calls.
use vstd::prelude::*;

verus! {

/// The directories that the host knows by number.
#[derive(Debug, Clone, Copy, PartialEq, Eq, Structural, PartialOrd, Ord, Hash)]
pub enum BaseDirectory {
    Audio,
    Cache,
    Config,
    Data,
    LocalData,
    Desktop,
    Document,
    Download,
    Executable,
    Font,
    Home,
    Picture,
    Public,
    Runtime,
    Template,
    Video,
    Resource,
    App,
    Log,
    Temp,
    AppConfig,
    AppData,
    AppLocalData,
    AppCache,
    AppLog,
}

impl BaseDirectory {
    /// The number the host knows the directory by: the variants count from
    /// one in their order.
    pub open spec fn spec_repr(self) -> u8 {
        match self {
            BaseDirectory::Audio => 1,
            BaseDirectory::Cache => 2,
            BaseDirectory::Config => 3,
            BaseDirectory::Data => 4,
            BaseDirectory::LocalData => 5,
            BaseDirectory::Desktop => 6,
            BaseDirectory::Document => 7,
            BaseDirectory::Download => 8,
            BaseDirectory::Executable => 9,
            BaseDirectory::Font => 10,
            BaseDirectory::Home => 11,
            BaseDirectory::Picture => 12,
            BaseDirectory::Public => 13,
            BaseDirectory::Runtime => 14,
            BaseDirectory::Template => 15,
            BaseDirectory::Video => 16,
            BaseDirectory::Resource => 17,
            BaseDirectory::App => 18,
            BaseDirectory::Log => 19,
            BaseDirectory::Temp => 20,
            BaseDirectory::AppConfig => 21,
            BaseDirectory::AppData => 22,
            BaseDirectory::AppLocalData => 23,
            BaseDirectory::AppCache => 24,
            BaseDirectory::AppLog => 25,
        }
    }

    /// The directory with the given number, if there is one.
    pub open spec fn spec_from_repr(code: u8) -> Option<BaseDirectory> {
        if 1 <= code <= 25 {
            Some(choose|dir: BaseDirectory| dir.spec_repr() == code)
        } else {
            None
        }
    }

    pub fn repr(&self) -> (code: u8)
        ensures
            code == self.spec_repr(),
            1 <= code <= 25,
    {
        match self {
            BaseDirectory::Audio => 1,
            BaseDirectory::Cache => 2,
            BaseDirectory::Config => 3,
            BaseDirectory::Data => 4,
            BaseDirectory::LocalData => 5,
            BaseDirectory::Desktop => 6,
            BaseDirectory::Document => 7,
            BaseDirectory::Download => 8,
            BaseDirectory::Executable => 9,
            BaseDirectory::Font => 10,
            BaseDirectory::Home => 11,
            BaseDirectory::Picture => 12,
            BaseDirectory::Public => 13,
            BaseDirectory::Runtime => 14,
            BaseDirectory::Template => 15,
            BaseDirectory::Video => 16,
            BaseDirectory::Resource => 17,
            BaseDirectory::App => 18,
            BaseDirectory::Log => 19,
            BaseDirectory::Temp => 20,
            BaseDirectory::AppConfig => 21,
            BaseDirectory::AppData => 22,
            BaseDirectory::AppLocalData => 23,
            BaseDirectory::AppCache => 24,
            BaseDirectory::AppLog => 25,
        }
    }

    pub fn from_repr(code: u8) -> (dir: Option<BaseDirectory>)
        ensures
            dir.is_some() <==> 1 <= code <= 25,
            dir matches Some(found) ==> found.spec_repr() == code,
            dir == Self::spec_from_repr(code),
    {
        let found = match code {
            1 => BaseDirectory::Audio,
            2 => BaseDirectory::Cache,
            3 => BaseDirectory::Config,
            4 => BaseDirectory::Data,
            5 => BaseDirectory::LocalData,
            6 => BaseDirectory::Desktop,
            7 => BaseDirectory::Document,
            8 => BaseDirectory::Download,
            9 => BaseDirectory::Executable,
            10 => BaseDirectory::Font,
            11 => BaseDirectory::Home,
            12 => BaseDirectory::Picture,
            13 => BaseDirectory::Public,
            14 => BaseDirectory::Runtime,
            15 => BaseDirectory::Template,
            16 => BaseDirectory::Video,
            17 => BaseDirectory::Resource,
            18 => BaseDirectory::App,
            19 => BaseDirectory::Log,
            20 => BaseDirectory::Temp,
            21 => BaseDirectory::AppConfig,
            22 => BaseDirectory::AppData,
            23 => BaseDirectory::AppLocalData,
            24 => BaseDirectory::AppCache,
            25 => BaseDirectory::AppLog,
            _ => {
                return None;
            },
        };
        proof {
            Self::lemma_repr_is_injective(
                found,
                choose|dir: BaseDirectory| dir.spec_repr() == code,
            );
        }
        Some(found)
    }

    /// No two directories share a number.
    pub proof fn lemma_repr_is_injective(a: BaseDirectory, b: BaseDirectory)
        ensures
            a.spec_repr() == b.spec_repr() ==> a == b,
    {
    }

    /// Reading back the number of a directory gives the directory.
    pub proof fn lemma_repr_round_trip(dir: BaseDirectory)
        ensures
            Self::spec_from_repr(dir.spec_repr()) == Some(dir),
    {
        Self::lemma_repr_is_injective(
            dir,
            choose|other: BaseDirectory| other.spec_repr() == dir.spec_repr(),
        );
    }
}

/// One entry of a directory listing.
#[derive(Debug)]
pub struct FileEntry {
    /// What is below the entry, if it is a directory.
    pub children: Option<Vec<FileEntry>>,
    /// The name of the entry; none where the path ends in `..`.
    pub name: Option<String>,
    pub path: String,
}

/// A file to write, with its content as bytes.
#[derive(Debug, Clone, PartialEq, Eq, Hash)]
pub struct FsBinaryFileOption {
    pub contents: Vec<u8>,
    pub path: String,
}

#[derive(Debug, Clone, PartialEq, Eq, Hash)]
pub struct FsDirOptions {
    pub dir: Option<BaseDirectory>,
    pub recursive: Option<bool>,
}

#[derive(Debug, Clone, PartialEq, Eq, Hash)]
pub struct FsOptions {
    /// Whether the content is added to the file and does not replace it.
    pub append: Option<bool>,
    pub dir: Option<BaseDirectory>,
}

/// A file to write, with its content as text.
#[derive(Debug, Clone, PartialEq, Eq, Hash)]
pub struct FsTextFileOption {
    pub contents: String,
    pub path: String,
}

} // verus!
