//! Docker-compose documents: a table of named services.

use vstd::prelude::*;
use crate::string_map::StringMap;

verus! {

/// One service of a docker-compose document.
pub struct DockerComposeService {
    pub image: String,
    pub platform: Option<String>,
    pub ports: Option<Vec<String>>,
    pub volumes: Option<Vec<String>>,
    pub depends_on: Option<Vec<String>>,
    pub restart: Option<String>,
    pub environment: Option<StringMap<String>>,
    pub extra_hosts: Option<Vec<String>>,
}

/// What a service holds, as mathematical values.
pub struct ServiceView {
    pub image: Seq<char>,
    pub platform: Option<Seq<char>>,
    pub ports: Option<Seq<Seq<char>>>,
    pub volumes: Option<Seq<Seq<char>>>,
    pub depends_on: Option<Seq<Seq<char>>>,
    pub restart: Option<Seq<char>>,
    pub environment: Option<Map<Seq<char>, Seq<char>>>,
    pub extra_hosts: Option<Seq<Seq<char>>>,
}

/// The view of an optional string table.
pub open spec fn env_view(env: Option<StringMap<String>>) -> Option<Map<Seq<char>, Seq<char>>> {
    match env {
        Some(m) => Some(m@),
        None => None,
    }
}

impl View for DockerComposeService {
    type V = ServiceView;

    open spec fn view(&self) -> ServiceView {
        ServiceView {
            image: self.image@,
            platform: self.platform.deep_view(),
            ports: self.ports.deep_view(),
            volumes: self.volumes.deep_view(),
            depends_on: self.depends_on.deep_view(),
            restart: self.restart.deep_view(),
            environment: env_view(self.environment),
            extra_hosts: self.extra_hosts.deep_view(),
        }
    }
}

/// A copy of a list of strings.
pub fn clone_strings(v: &Vec<String>) -> (r: Vec<String>)
    ensures
        r.deep_view() == v.deep_view(),
{
    let n = v.len();
    let mut r: Vec<String> = Vec::new();
    let mut i: usize = 0;
    while i < n
        invariant
            n == v@.len(),
            i <= n,
            r@ == v@.subrange(0, i as int),
        decreases n - i,
    {
        r.push(v[i].clone());
        proof {
            assert(r@ =~= v@.subrange(0, i + 1));
        }
        i = i + 1;
    }
    proof {
        assert(r@ =~= v@);
    }
    r
}

fn clone_opt_string(s: &Option<String>) -> (r: Option<String>)
    ensures
        r.deep_view() == s.deep_view(),
{
    match s {
        Some(x) => Some(x.clone()),
        None => None,
    }
}

fn clone_opt_strings(v: &Option<Vec<String>>) -> (r: Option<Vec<String>>)
    ensures
        r.deep_view() == v.deep_view(),
{
    match v {
        Some(x) => Some(clone_strings(x)),
        None => None,
    }
}

impl Clone for DockerComposeService {
    /// A copy that holds the same values.
    fn clone(&self) -> (r: Self)
        ensures
            r@ == self@,
    {
        let environment = match &self.environment {
            Some(m) => Some(m.clone()),
            None => None,
        };
        DockerComposeService {
            image: self.image.clone(),
            platform: clone_opt_string(&self.platform),
            ports: clone_opt_strings(&self.ports),
            volumes: clone_opt_strings(&self.volumes),
            depends_on: clone_opt_strings(&self.depends_on),
            restart: clone_opt_string(&self.restart),
            environment,
            extra_hosts: clone_opt_strings(&self.extra_hosts),
        }
    }
}

/// A docker-compose document.
pub struct DockerComposeConfig {
    pub services: StringMap<DockerComposeService>,
}

} // verus!
