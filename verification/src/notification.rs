//! Notifications: what one shows, and whether showing them is permitted.
use vstd::prelude::*;
use vstd::string::StringExecFns;

verus! {

/// What a notification shows.
#[derive(Debug, Clone)]
pub struct Options {
    pub body: Option<String>,
    pub icon: Option<String>,
    pub sound: Option<String>,
    pub title: String,
}

impl From<&str> for Options {
    /// A notification that shows the title and nothing else. The title is a
    /// new text, which no spec function can name, so the contract stands
    /// here and not in `from_spec`.
    fn from(value: &str) -> (options: Options)
        ensures
            options.title@ == value@,
            options.body.is_none(),
            options.icon.is_none(),
            options.sound.is_none(),
    {
        Options { body: None, icon: None, sound: None, title: String::from_str(value) }
    }
}

impl vstd::std_specs::convert::FromSpecImpl<&str> for Options {
    open spec fn obeys_from_spec() -> bool {
        false
    }

    open spec fn from_spec(value: &str) -> Options {
        arbitrary()
    }
}

#[derive(Debug, Clone, Copy, PartialEq, Eq, Structural, PartialOrd, Ord, Hash)]
pub enum Permission {
    Granted,
    Denied,
    Default,
}

impl Default for Permission {
    fn default() -> (permission: Permission)
        ensures
            permission == Permission::Default,
    {
        Permission::Default
    }
}

impl Permission {
    /// The name under which the host reports the permission.
    pub open spec fn spec_name(self) -> Seq<char> {
        match self {
            Permission::Granted => "granted"@,
            Permission::Denied => "denied"@,
            Permission::Default => "default"@,
        }
    }

    pub fn name(&self) -> (name: &'static str)
        ensures
            name@ == self.spec_name(),
    {
        match self {
            Permission::Granted => "granted",
            Permission::Denied => "denied",
            Permission::Default => "default",
        }
    }

    /// Every permission, in declaration order.
    pub fn all_variants() -> (all: Vec<Permission>)
        ensures
            all@ == seq![Permission::Granted, Permission::Denied, Permission::Default],
    {
        vec![Permission::Granted, Permission::Denied, Permission::Default]
    }
}

} // verus!
