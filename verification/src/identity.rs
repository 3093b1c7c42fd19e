//! The identity the planning service is queried with: the process-wide
//! username cell, the path of the configuration file it is loaded from, and
//! what that file's contents yield.
//!
//! Reading the file, and asking the host for its installation root, are the
//! I/O side's work; this module decides what is read and where from.

use vstd::prelude::*;

use crate::text::{trim_text, trimmed};

verus! {

/// The process-wide username cell: set at startup and by the explicit
/// reload action, read once per fetch. The caller wraps it in its own
/// mutual exclusion, independent of the handoff slot's.
pub struct IdentityCell {
    username: Option<String>,
}

impl IdentityCell {
    /// The username currently stored, if any.
    pub closed spec fn spec_username(&self) -> Option<String> {
        self.username
    }

    pub fn new() -> (s: Self)
        ensures
            s.spec_username() is None,
    {
        IdentityCell { username: None }
    }

    /// Overwrite the stored username.
    pub fn set_username(&mut self, username: String)
        ensures
            final(self).spec_username() == Some(username),
    {
        self.username = Some(username);
    }

    /// The stored username, if any.
    pub fn get_username(&self) -> (r: Option<String>)
        ensures
            r == self.spec_username(),
    {
        match &self.username {
            None => None,
            Some(u) => Some(u.clone()),
        }
    }
}

/// The plugin's directory under the host's installation root: the root with
/// `Resources/plugins/flightstream_rs` appended, inserting a separator where
/// the root does not already end in one.
pub open spec fn plugin_path_spec(system_path: Seq<char>) -> Seq<char> {
    let base = if system_path.len() > 0 && system_path.last() == '/' {
        system_path
    } else {
        system_path + "/"@
    };
    base + "Resources/plugins/flightstream_rs"@
}

/// The username configuration file's fixed place under the host's
/// installation root.
pub open spec fn username_file_spec(system_path: Seq<char>) -> Seq<char> {
    plugin_path_spec(system_path) + "/username.txt"@
}

/// The plugin's directory under the host's installation root `system_path`.
pub fn get_plugin_path(system_path: &str) -> (r: String)
    ensures
        r@ == plugin_path_spec(system_path@),
{
    let n = system_path.unicode_len();
    let mut r = String::from_str(system_path);
    if n == 0 || system_path.get_char(n - 1) != '/' {
        r.append("/");
    }
    r.append("Resources/plugins/flightstream_rs");
    r
}

/// Where the username configuration file lives under the host's
/// installation root `system_path`.
pub fn username_file_path(system_path: &str) -> (r: String)
    ensures
        r@ == username_file_spec(system_path@),
{
    let mut r = get_plugin_path(system_path);
    r.append("/username.txt");
    r
}

/// The identity a configuration file's contents yield: the single line with
/// leading and trailing white space removed.
pub fn identity_from_config(contents: &str) -> (r: String)
    ensures
        r@ == trimmed(contents@),
{
    String::from_str(trim_text(contents))
}

} // verus!
