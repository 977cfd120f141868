//! What an invocation supplies.

use vstd::prelude::*;

verus! {

/// The model of an optional string.
pub open spec fn optional_view(text: Option<String>) -> Option<Seq<char>> {
    match text {
        Some(s) => Some(s@),
        None => None,
    }
}

/// A copy of an optional string.
pub fn clone_optional(text: &Option<String>) -> (r: Option<String>)
    ensures
        r == *text,
{
    match text {
        Some(s) => Some(s.clone()),
        None => None,
    }
}

/// The settings that every mode of the program takes.
#[derive(Debug, Clone, PartialEq)]
pub struct Args {
    /// Path of the main configuration file.
    pub config: String,
    /// Path of the directory that holds one file per certificate.
    pub config_dir: String,
    /// Path of the data directory.
    pub data_dir: String,
    /// Path of the directory that challenge proofs are served from.
    pub chall_dir: String,
    /// Overrides the contact address of the main file.
    pub acme_email: Option<String>,
    /// Directory URL of the certificate authority.
    pub acme_url: String,
}

/// The model of [`Args`].
pub struct ArgsModel {
    pub config: Seq<char>,
    pub config_dir: Seq<char>,
    pub data_dir: Seq<char>,
    pub chall_dir: Seq<char>,
    pub acme_email: Option<Seq<char>>,
    pub acme_url: Seq<char>,
}

impl View for Args {
    type V = ArgsModel;

    open spec fn view(&self) -> ArgsModel {
        ArgsModel {
            config: self.config@,
            config_dir: self.config_dir@,
            data_dir: self.data_dir@,
            chall_dir: self.chall_dir@,
            acme_email: optional_view(self.acme_email),
            acme_url: self.acme_url@,
        }
    }
}

/// The settings of the daemon mode.
#[derive(Debug, Clone, PartialEq)]
pub struct DaemonArgs {
    /// Address to listen on.
    pub bind_addr: String,
    /// Unprivileged user to run as once the socket is open.
    pub user: Option<String>,
}

} // verus!
