//! Cluster connection settings: the set of named clusters, how one is picked
//! by name, where the settings file is looked for, and the URL text a
//! cluster is reached at.

use vstd::prelude::*;
use vstd::string::StringExecFns;
use crate::text::{decimal_digits, usize_to_string};

verus! {

/// The scheme a cluster is reached through.
#[derive(Debug, Clone, Copy, PartialEq, Eq, Structural)]
pub enum Protocol {
    Http,
    Https,
}

impl Protocol {
    /// The scheme's text.
    pub open spec fn spec_str(self) -> Seq<char> {
        match self {
            Protocol::Http => "http"@,
            Protocol::Https => "https"@,
        }
    }

    /// The scheme's text.
    pub fn as_str(&self) -> (r: &'static str)
        ensures
            r@ == self.spec_str(),
    {
        match self {
            Protocol::Http => "http",
            Protocol::Https => "https",
        }
    }
}

/// How to reach one cluster. A missing port defaults to 9200, a missing
/// protocol to HTTPS.
#[derive(Debug)]
pub struct Cluster {
    pub host: String,
    pub port: Option<usize>,
    pub protocol: Option<Protocol>,
}

impl Cluster {
    /// The port the cluster is reached at.
    pub open spec fn spec_port(self) -> usize {
        match self.port {
            Option::Some(p) => p,
            Option::None => 9200,
        }
    }

    /// The protocol the cluster is reached through.
    pub open spec fn spec_protocol(self) -> Protocol {
        match self.protocol {
            Option::Some(p) => p,
            Option::None => Protocol::Https,
        }
    }

    /// The URL text for this cluster.
    pub open spec fn spec_url(self) -> Seq<char> {
        self.spec_protocol().spec_str() + "://"@ + self.host@ + ":"@ + decimal_digits(
            self.spec_port() as nat,
        )
    }

    /// Renders `protocol://host:port`, with the defaults for missing parts.
    pub fn url(&self) -> (r: String)
        ensures
            r@ == self.spec_url(),
    {
        let protocol = match self.protocol {
            Option::Some(p) => p,
            Option::None => Protocol::Https,
        };
        let port: usize = match self.port {
            Option::Some(p) => p,
            Option::None => 9200,
        };
        let mut r = String::from_str(protocol.as_str());
        r.append("://");
        r.append(self.host.as_str());
        r.append(":");
        let port_text = usize_to_string(port);
        r.append(port_text.as_str());
        proof {
            assert(r@ =~= self.spec_url());
        }
        r
    }
}

/// The cluster stored under `name`: the first entry with that name, if any.
pub open spec fn lookup(entries: Seq<(String, Cluster)>, name: Seq<char>) -> Option<Cluster>
    decreases entries.len(),
{
    if entries.len() == 0 {
        Option::None
    } else if entries[0].0@ == name {
        Option::Some(entries[0].1)
    } else {
        lookup(entries.skip(1), name)
    }
}

/// A name no cluster is stored under, reported with the names that would
/// have been accepted.
#[derive(Debug)]
pub struct UnknownClusterError {
    pub name: String,
    pub valid_names: Vec<String>,
}

/// The set of known clusters, each under its name, in the order the
/// settings file gave them.
#[derive(Debug)]
pub struct Config {
    clusters: Vec<(String, Cluster)>,
}

/// A matching entry before `i` would shadow `i`; without one, the lookup
/// resolves to entry `i` itself.
proof fn lemma_lookup_first_match(entries: Seq<(String, Cluster)>, name: Seq<char>, i: int)
    requires
        0 <= i < entries.len(),
        forall|j: int| 0 <= j < i ==> entries[j].0@ != name,
        entries[i].0@ == name,
    ensures
        lookup(entries, name) == Option::Some(entries[i].1),
    decreases i,
{
    if i > 0 {
        lemma_lookup_first_match(entries.skip(1), name, i - 1);
    }
}

/// Without a matching entry the lookup resolves to nothing.
proof fn lemma_lookup_none(entries: Seq<(String, Cluster)>, name: Seq<char>)
    requires
        forall|j: int| 0 <= j < entries.len() ==> entries[j].0@ != name,
    ensures
        lookup(entries, name) is None,
    decreases entries.len(),
{
    if entries.len() > 0 {
        lemma_lookup_none(entries.skip(1), name);
    }
}

impl Config {
    /// The stored entries, in order.
    pub closed spec fn entries(self) -> Seq<(String, Cluster)> {
        self.clusters@
    }

    /// Builds the configuration from named clusters.
    pub fn new(clusters: Vec<(String, Cluster)>) -> (c: Config)
        ensures
            c.entries() == clusters@,
    {
        Config { clusters }
    }

    /// The names under which clusters are stored, in storage order.
    pub fn get_valid_cluster_names(&self) -> (names: Vec<String>)
        ensures
            names@.len() == self.entries().len(),
            forall|i: int| 0 <= i < names@.len() ==> (#[trigger] names@[i])@ == self.entries()[i].0@,
    {
        let mut names: Vec<String> = Vec::new();
        let n = self.clusters.len();
        let mut i: usize = 0;
        while i < n
            invariant
                i <= n,
                n == self.clusters.len(),
                names@.len() == i,
                forall|j: int| 0 <= j < i ==> (#[trigger] names@[j])@ == self.clusters@[j].0@,
            decreases n - i,
        {
            names.push(self.clusters[i].0.clone());
            i = i + 1;
        }
        names
    }

    /// Picks the cluster stored under `name`. Exactly the stored names
    /// succeed; an unknown name is reported together with the names that
    /// would have been accepted.
    pub fn get_cluster_by_name(&self, name: &str) -> (r: Result<&Cluster, UnknownClusterError>)
        ensures
            match r {
                Result::Ok(c) => lookup(self.entries(), name@) == Option::Some(*c),
                Result::Err(e) => {
                    &&& lookup(self.entries(), name@) is None
                    &&& e.name@ == name@
                    &&& e.valid_names@.len() == self.entries().len()
                    &&& forall|i: int|
                        0 <= i < e.valid_names@.len() ==> (#[trigger] e.valid_names@[i])@
                            == self.entries()[i].0@
                },
            },
    {
        let owned = name.to_owned();
        let n = self.clusters.len();
        let mut i: usize = 0;
        while i < n
            invariant
                i <= n,
                n == self.clusters.len(),
                owned@ == name@,
                forall|j: int| 0 <= j < i ==> self.clusters@[j].0@ != name@,
            decreases n - i,
        {
            if self.clusters[i].0 == owned {
                proof {
                    lemma_lookup_first_match(self.clusters@, name@, i as int);
                }
                return Result::Ok(&self.clusters[i].1);
            }
            i = i + 1;
        }
        proof {
            lemma_lookup_none(self.clusters@, name@);
        }
        Result::Err(
            UnknownClusterError { name: owned, valid_names: self.get_valid_cluster_names() },
        )
    }
}

/// Loading the settings file can fail before any file is read: with no
/// explicit path and no home directory there is nowhere to look.
#[derive(Debug, Clone, Copy, PartialEq, Eq, Structural)]
pub enum ConfigPathError {
    HomeDirectoryUnknown,
}

/// The settings file under a home directory.
pub open spec fn default_config_path(home: Seq<char>) -> Seq<char> {
    home + "/.escli/config.yaml"@
}

/// Where the settings file is looked for: an explicitly given path wins;
/// otherwise `.escli/config.yaml` under the home directory; with neither,
/// the lookup fails.
pub fn config_file_path(explicit: Option<&String>, home_dir: Option<&String>) -> (r: Result<
    String,
    ConfigPathError,
>)
    ensures
        match r {
            Result::Ok(path) => match explicit {
                Option::Some(p) => path@ == p@,
                Option::None => home_dir matches Option::Some(h) && path@ == default_config_path(
                    h@,
                ),
            },
            Result::Err(e) => {
                &&& explicit is None
                &&& home_dir is None
                &&& e == ConfigPathError::HomeDirectoryUnknown
            },
        },
{
    match explicit {
        Option::Some(p) => Result::Ok(p.clone()),
        Option::None => match home_dir {
            Option::Some(h) => {
                let mut path = h.clone();
                path.append("/.escli/config.yaml");
                Result::Ok(path)
            },
            Option::None => Result::Err(ConfigPathError::HomeDirectoryUnknown),
        },
    }
}

} // verus!
