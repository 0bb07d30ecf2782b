//! The server's configuration: three optional settings, each with a default.

use vstd::prelude::*;

verus! {

/// Port used when none is given.
pub const DEFAULT_PORT: u16 = 8080;

/// URL prefix under which the files are reachable when none is given.
pub open spec fn default_mount_path() -> Seq<char> {
    "/static"@
}

/// Directory that is served when none is given.
pub open spec fn default_relative_path() -> Seq<char> {
    "."@
}

/// The settings as they were given; an omitted one is `None`.
#[derive(Clone)]
pub struct Config {
    pub port: Option<u16>,
    pub mount_path: Option<String>,
    pub serve_from: Option<String>,
}

/// The settings in effect: every omitted one replaced by its default.
pub struct Effective {
    pub port: u16,
    pub mount_path: Seq<char>,
    pub serve_from: Seq<char>,
}

impl View for Config {
    type V = Effective;

    open spec fn view(&self) -> Effective {
        Effective {
            port: match self.port {
                Some(p) => p,
                None => DEFAULT_PORT,
            },
            mount_path: match self.mount_path {
                Some(p) => p@,
                None => default_mount_path(),
            },
            serve_from: match self.serve_from {
                Some(p) => p@,
                None => default_relative_path(),
            },
        }
    }
}

impl Config {
    /// Keeps the three settings exactly as given.
    pub fn new(port: Option<u16>, mount_path: Option<String>, serve_from: Option<String>) -> (c:
        Config)
        ensures
            c.port == port,
            c.mount_path == mount_path,
            c.serve_from == serve_from,
    {
        Config { port, mount_path, serve_from }
    }

    /// The port to listen on.
    pub fn get_port_or_default(&self) -> (port: u16)
        ensures
            port == self@.port,
    {
        match self.port {
            Some(p) => p,
            None => DEFAULT_PORT,
        }
    }

    /// The URL prefix under which the files are reachable.
    pub fn get_mount_path_or_default(&self) -> (path: &str)
        ensures
            path@ == self@.mount_path,
    {
        match self.mount_path.as_ref() {
            Some(p) => p.as_str(),
            None => "/static",
        }
    }

    /// The directory that is served.
    pub fn get_relative_path_or_default(&self) -> (path: &str)
        ensures
            path@ == self@.serve_from,
    {
        match self.serve_from.as_ref() {
            Some(p) => p.as_str(),
            None => ".",
        }
    }
}

/// Each effective setting is the given value where one was given, and the
/// default where it was omitted.
pub proof fn lemma_effective_settings(c: Config)
    ensures
        c.port matches Some(p) ==> c@.port == p,
        c.port is None ==> c@.port == 8080,
        c.mount_path matches Some(m) ==> c@.mount_path == m@,
        c.mount_path is None ==> c@.mount_path == seq!['/', 's', 't', 'a', 't', 'i', 'c'],
        c.serve_from matches Some(s) ==> c@.serve_from == s@,
        c.serve_from is None ==> c@.serve_from == seq!['.'],
{
    reveal_strlit("/static");
    reveal_strlit(".");
    assert("/static"@ =~= seq!['/', 's', 't', 'a', 't', 'i', 'c']);
    assert("."@ =~= seq!['.']);
}

} // verus!
