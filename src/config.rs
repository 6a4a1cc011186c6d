//! The server's configuration, as read from its file and the command line.
use vstd::prelude::*;
use vstd::string::*;
use crate::paths::{resolve_path, resolve_from};

verus! {

/// A route: requests with this method on this path pattern render this template.
pub struct Route {
    pub method: String,
    pub path: String,
    pub template: String,
}

/// What the configuration file may set.
pub struct Config {
    pub all: Option<bool>,
    pub ignore: Option<Vec<String>>,
    pub cors: Option<Vec<String>>,
    pub port: Option<u16>,
    pub cert: Option<String>,
    pub key: Option<String>,
    pub assets: Option<String>,
    pub templates: Option<String>,
    pub data: Option<String>,
    pub routes: Option<Vec<Route>>,
    /// Seconds to wait for the answer of an outbound request; without it, no limit.
    pub timeout: Option<u64>,
}

/// The languages a configuration file may be written in.
#[derive(PartialEq, Eq, Structural, Clone, Copy, Debug)]
pub enum ConfigFormat {
    Json,
    Toml,
}

/// The language of a configuration file, by its extension.
pub open spec fn format_of(extension: Seq<char>) -> Option<ConfigFormat> {
    if extension == "json"@ {
        Some(ConfigFormat::Json)
    } else if extension == "toml"@ {
        Some(ConfigFormat::Toml)
    } else {
        None
    }
}

/// The language of a configuration file with this extension, if it is one that is read.
pub fn config_format(extension: &str) -> (r: Option<ConfigFormat>)
    ensures
        r == format_of(extension@),
{
    let e = String::from_str(extension);
    if e.eq(&String::from_str("json")) {
        Some(ConfigFormat::Json)
    } else if e.eq(&String::from_str("toml")) {
        Some(ConfigFormat::Toml)
    } else {
        None
    }
}

pub open spec fn path_view(p: Option<String>) -> Option<Seq<char>> {
    match p {
        Some(s) => Some(s@),
        None => None,
    }
}

pub open spec fn resolved_view(dir: Seq<char>, p: Option<String>) -> Option<Seq<char>> {
    match p {
        Some(s) => Some(resolve_path(dir, s@)),
        None => None,
    }
}

fn resolve_option(dir: &str, p: Option<String>) -> (r: Option<String>)
    ensures
        path_view(r) == resolved_view(dir@, p),
{
    match p {
        Some(s) => Some(resolve_from(dir, s.as_str())),
        None => None,
    }
}

impl Config {
    /// A configuration that sets nothing.
    pub fn empty() -> (r: Config)
        ensures
            r.all is None && r.ignore is None && r.cors is None && r.port is None,
            r.cert is None && r.key is None && r.assets is None,
            r.templates is None && r.data is None && r.routes is None && r.timeout is None,
    {
        Config {
            all: None,
            ignore: None,
            cors: None,
            port: None,
            cert: None,
            key: None,
            assets: None,
            templates: None,
            data: None,
            routes: None,
            timeout: None,
        }
    }

    /// Takes the paths of the file (templates, data, assets, certificate and key) from
    /// the directory `dir` that holds it.
    pub fn relative_to(self, dir: &str) -> (r: Config)
        ensures
            path_view(r.templates) == resolved_view(dir@, self.templates),
            path_view(r.assets) == resolved_view(dir@, self.assets),
            path_view(r.cert) == resolved_view(dir@, self.cert),
            path_view(r.key) == resolved_view(dir@, self.key),
            path_view(r.data) == resolved_view(dir@, self.data),
            r.all == self.all && r.ignore == self.ignore && r.cors == self.cors,
            r.port == self.port && r.routes == self.routes && r.timeout == self.timeout,
    {
        let Config { all, ignore, cors, port, cert, key, assets, templates, data, routes, timeout } = self;
        Config {
            all,
            ignore,
            cors,
            port,
            cert: resolve_option(dir, cert),
            key: resolve_option(dir, key),
            assets: resolve_option(dir, assets),
            templates: resolve_option(dir, templates),
            data: resolve_option(dir, data),
            routes,
            timeout,
        }
    }
}

/// The port to listen on: the command line's, else the file's, else 3000.
pub fn listen_port(cli: Option<u16>, config: Option<u16>) -> (r: u16)
    ensures
        r == match cli {
            Some(p) => p,
            None => match config {
                Some(p) => p,
                None => 3000,
            },
        },
{
    match cli {
        Some(p) => p,
        None => match config {
            Some(p) => p,
            None => 3000,
        },
    }
}

/// The patterns of hidden asset paths: the command line's pattern followed by the
/// file's patterns; without a pattern on the command line, none.
pub fn ignore_globs(cli: Option<String>, config: &Option<Vec<String>>) -> (r: Vec<String>)
    ensures
        cli is None ==> r@.len() == 0,
        cli matches Some(g) ==> r@ == seq![g] + match config {
            Some(c) => c@,
            None => Seq::<String>::empty(),
        },
{
    let mut r: Vec<String> = Vec::new();
    if let Some(g) = cli {
        r.push(g);
        if let Some(globs) = config {
            let mut i: usize = 0;
            while i < globs.len()
                invariant
                    i <= globs@.len(),
                    r@ == seq![g] + globs@.subrange(0, i as int),
                decreases globs.len() - i,
            {
                r.push(globs[i].clone());
                assert(globs@.subrange(0, i + 1) =~= globs@.subrange(0, i as int).push(globs@[i as int]));
                i = i + 1;
            }
            assert(globs@.subrange(0, globs@.len() as int) =~= globs@);
        } else {
            assert(r@ =~= seq![g] + Seq::<String>::empty());
        }
    }
    r
}

} // verus!
