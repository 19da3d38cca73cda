//! The probed environment: which commands, user services, environment
//! variables and filesystem paths exist, captured as a snapshot so that the
//! readiness logic built on these signals is a pure function of it.

use vstd::prelude::*;

use crate::text::pair_views;
use crate::text::str_eq;
use crate::text::string_views;
use crate::text::vec_contains_str;

verus! {

/// The first value bound to `key` in the environment list, if any.
pub open spec fn env_lookup_from(
    env: Seq<(Seq<char>, Seq<char>)>,
    key: Seq<char>,
    i: int,
) -> Option<Seq<char>>
    decreases env.len() - i,
{
    if i < 0 || i >= env.len() {
        None
    } else if env[i].0 == key {
        Some(env[i].1)
    } else {
        env_lookup_from(env, key, i + 1)
    }
}

/// A snapshot of the boolean-producing environment probes: the commands that
/// resolve, the user services that are active, the environment variables that
/// are set, and the filesystem paths that exist.
pub struct SystemAdapter {
    pub commands: Vec<String>,
    pub services: Vec<String>,
    pub env: Vec<(String, String)>,
    pub paths: Vec<String>,
}

impl SystemAdapter {
    pub open spec fn has_command(&self, name: Seq<char>) -> bool {
        string_views(self.commands@).contains(name)
    }

    pub open spec fn has_service(&self, service: Seq<char>) -> bool {
        string_views(self.services@).contains(service)
    }

    pub open spec fn has_path(&self, path: Seq<char>) -> bool {
        string_views(self.paths@).contains(path)
    }

    pub open spec fn env_lookup(&self, key: Seq<char>) -> Option<Seq<char>> {
        env_lookup_from(pair_views(self.env@), key, 0)
    }

    pub fn new(
        commands: Vec<String>,
        services: Vec<String>,
        env: Vec<(String, String)>,
        paths: Vec<String>,
    ) -> (r: SystemAdapter)
        ensures
            r.commands == commands,
            r.services == services,
            r.env == env,
            r.paths == paths,
    {
        SystemAdapter { commands, services, env, paths }
    }

    /// Whether `name` resolves to an executable command.
    pub fn command_exists(&self, name: &str) -> (r: bool)
        ensures
            r == self.has_command(name@),
    {
        vec_contains_str(&self.commands, name)
    }

    /// Whether the user service `service` is active.
    pub fn service_is_active(&self, service: &str) -> (r: bool)
        ensures
            r == self.has_service(service@),
    {
        vec_contains_str(&self.services, service)
    }

    /// The value of the environment variable `key`, if it is set.
    pub fn env_var(&self, key: &str) -> (r: Option<String>)
        ensures
            match r {
                Some(v) => self.env_lookup(key@) == Some(v@),
                None => self.env_lookup(key@) is None,
            },
    {
        let ghost ev = pair_views(self.env@);
        let mut i: usize = 0;
        while i < self.env.len()
            invariant
                0 <= i <= self.env@.len(),
                ev == pair_views(self.env@),
                env_lookup_from(ev, key@, 0) == env_lookup_from(ev, key@, i as int),
            decreases self.env@.len() - i,
        {
            if str_eq(self.env[i].0.as_str(), key) {
                return Some(self.env[i].1.clone());
            }
            i += 1;
        }
        None
    }

    /// Whether the filesystem path `path` exists.
    pub fn path_exists(&self, path: &str) -> (r: bool)
        ensures
            r == self.has_path(path@),
    {
        vec_contains_str(&self.paths, path)
    }

    /// Whether any of the given paths exists.
    pub fn any_path_exists(&self, paths: &[&str]) -> (r: bool)
        ensures
            r == exists|k: int| 0 <= k < paths@.len() && self.has_path(paths@[k]@),
    {
        let n = paths.len();
        let mut i: usize = 0;
        while i < n
            invariant
                0 <= i <= n,
                n == paths@.len(),
                forall|k: int| 0 <= k < i ==> !self.has_path(paths@[k]@),
            decreases n - i,
        {
            if self.path_exists(paths[i]) {
                return true;
            }
            i += 1;
        }
        false
    }
}

} // verus!
