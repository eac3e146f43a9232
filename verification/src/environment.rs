//! Environment discovery.  An environment is a named, platform-scoped
//! configuration derived from the project's manifest; the evaluator is asked
//! a query — built here — against the manifest, restricted to the caller's
//! target platform, and its JSON answer is decoded and turned into
//! [`Environment`] values.  Environments are read-only projections: they are
//! built fresh on every query and carry only read-only repository access.

use vstd::prelude::*;

use crate::access::GitAccess;
use crate::access::ReadOnly;
use crate::project::Project;

verus! {

/// Declares `serde_json::Value` so the evaluator's decoded JSON answer can
/// be carried into the functions that inspect it.
#[verifier::external_type_specification]
#[verifier::external_body]
pub struct ExValue(serde_json::Value);

/// The boolean a JSON value decodes to, when it is one: a function of the
/// value alone.
pub uninterp spec fn json_bool_of(v: serde_json::Value) -> Option<bool>;

/// Relies on `serde_json::Value::as_bool`: returns the boolean exactly when
/// the value is a JSON boolean, and nothing otherwise.
#[verifier::external_body]
fn json_as_bool(v: &serde_json::Value) -> (r: Option<bool>)
    ensures
        r == json_bool_of(*v),
{
    v.as_bool()
}

/// The string list a JSON value decodes to, when it is an array of strings:
/// a function of the value alone, in array order.
pub uninterp spec fn json_strings_of(v: serde_json::Value) -> Option<Seq<Seq<char>>>;

pub open spec fn view_opt_names(r: Option<Vec<String>>) -> Option<Seq<Seq<char>>> {
    match r {
        Some(names) => Some(names@.map(|i: int, s: String| s@)),
        None => None,
    }
}

/// Relies on `serde_json::from_value::<Vec<String>>`: decodes exactly the
/// JSON arrays whose elements are all strings, in array order.
#[verifier::external_body]
fn json_as_string_list(v: serde_json::Value) -> (r: Option<Vec<String>>)
    ensures
        view_opt_names(r) == json_strings_of(v),
{
    serde_json::from_value::<Vec<String>>(v).ok()
}

/// Failure of an environment discovery query.
#[derive(Debug)]
pub enum GetEnvironmentsError {
    /// The evaluator failed to run the query.
    ListEnvironments(String),
    /// The evaluator answered, but not with a value of the expected shape.
    Decode,
}

/// A named, platform-scoped environment of one project.  Read-only: it holds
/// a fresh read-only clone of the owning project's repository access, so no
/// write capability can leak into it.
#[derive(Debug)]
pub struct Environment<'flox, G> {
    pub name: String,
    pub system: String,
    pub project: Project<'flox, G, ReadOnly<G>>,
}

/// The attribute path under which a manifest declares its environments.
pub fn environments_attr_path() -> (r: String)
    ensures
        r@ == "floxEnvs"@,
{
    "floxEnvs".to_owned()
}

/// The query asking whether `system`'s environment set contains `name`.
pub fn environment_exists_expr(system: &str, name: &str) -> (r: String)
    ensures
        r@ == "systems: (systems.\""@ + system@ + "\" or {}) ? \""@ + name@ + "\""@,
{
    let mut s = "systems: (systems.\"".to_owned();
    s.append(system);
    s.append("\" or {}) ? \"");
    s.append(name);
    s.append("\"");
    proof {
        assert(s@ =~= "systems: (systems.\""@ + system@ + "\" or {}) ? \""@ + name@ + "\""@);
    }
    s
}

/// The query listing the names of `system`'s environments, in the manifest's
/// discovery order.
pub fn environments_list_expr(system: &str) -> (r: String)
    ensures
        r@ == "systems: builtins.attrNames (systems.\""@ + system@ + "\" or {})"@,
{
    let mut s = "systems: builtins.attrNames (systems.\"".to_owned();
    s.append(system);
    s.append("\" or {})");
    proof {
        assert(s@ =~= "systems: builtins.attrNames (systems.\""@ + system@ + "\" or {})"@);
    }
    s
}

/// The fields an environment of this project must carry: the queried name,
/// the caller's platform, the owning project's location, and a repository
/// handle cloned from the owner's original one.
pub open spec fn is_env_of<G: Clone, Access: GitAccess<G>>(
    env: Environment<'_, G>,
    p: Project<'_, G, Access>,
    name: Seq<char>,
) -> bool {
    env.name@ == name && env.system@ == p.flox.system@ && env.project.flox == p.flox
        && env.project.subdir@ == p.subdir@ && env.project.workdir@ == p.workdir@ && cloned::<G>(
        p.git.origin_git(),
        env.project.git.git,
    )
}

impl<'flox, G: Clone, Access: GitAccess<G>> Project<'flox, G, Access> {
    /// The environment named `name`, given whether the evaluator found it in
    /// this platform's environment set.
    pub fn environment_from_exists(&self, name: &str, exists: bool) -> (r: Option<
        Environment<'flox, G>,
    >)
        ensures
            !exists ==> r is None,
            exists ==> (r matches Some(env) && is_env_of(env, *self, name@)),
    {
        if exists {
            Some(
                Environment {
                    name: name.to_owned(),
                    system: self.flox.system.clone(),
                    project: Project::new(
                        self.flox,
                        self.git.read_only(),
                        self.subdir.clone(),
                        self.workdir.clone(),
                    ),
                },
            )
        } else {
            None
        }
    }

    /// One environment per discovered name, in the order the evaluator
    /// listed them.
    pub fn environments_from_names(&self, names: Vec<String>) -> (r: Vec<Environment<'flox, G>>)
        ensures
            r@.len() == names@.len(),
            forall|i: int|
                0 <= i < names@.len() ==> is_env_of(#[trigger] r@[i], *self, names@[i]@),
    {
        let n = names.len();
        let mut out: Vec<Environment<'flox, G>> = Vec::new();
        let mut i: usize = 0;
        while i < n
            invariant
                n == names@.len(),
                i <= n,
                out@.len() == i,
                forall|j: int| 0 <= j < i ==> is_env_of(#[trigger] out@[j], *self, names@[j]@),
            decreases n - i,
        {
            let name = names[i].clone();
            out.push(
                Environment {
                    name,
                    system: self.flox.system.clone(),
                    project: Project::new(
                        self.flox,
                        self.git.read_only(),
                        self.subdir.clone(),
                        self.workdir.clone(),
                    ),
                },
            );
            i = i + 1;
        }
        out
    }

    /// Look up one environment by name.  `eval` is the outcome of running
    /// [`environment_exists_expr`] through the evaluator: a failed run is
    /// surfaced as a discovery error, an answer that is not a JSON boolean
    /// as the decode error — never as a fallback result — and a boolean
    /// answer decides between the found environment and `None`.
    pub fn environment(&self, name: &str, eval: Result<serde_json::Value, String>) -> (r: Result<
        Option<Environment<'flox, G>>,
        GetEnvironmentsError,
    >)
        ensures
            eval matches Err(e) ==> (r matches Err(GetEnvironmentsError::ListEnvironments(m))
                && m == e),
            eval matches Ok(v) ==> (json_bool_of(v) is None <==> r == Err::<
                Option<Environment<'flox, G>>,
                GetEnvironmentsError,
            >(GetEnvironmentsError::Decode)),
            eval matches Ok(v) ==> (json_bool_of(v) matches Some(b) ==> (r matches Ok(o) && (b
                ==> (o matches Some(env) && is_env_of(env, *self, name@))) && (!b ==> o is None))),
    {
        match eval {
            Err(e) => Err(GetEnvironmentsError::ListEnvironments(e)),
            Ok(v) => match json_as_bool(&v) {
                None => Err(GetEnvironmentsError::Decode),
                Some(exists) => Ok(self.environment_from_exists(name, exists)),
            },
        }
    }

    /// List this project's environments.  `eval` is the outcome of running
    /// [`environments_list_expr`] through the evaluator: a failed run is
    /// surfaced as a discovery error, an answer that is not an array of
    /// strings as the decode error — never as a fallback result — and a
    /// decoded name list becomes one environment per name, in order.  In
    /// particular, a manifest declaring no environment for this platform
    /// yields the empty list.
    pub fn environments(&self, eval: Result<serde_json::Value, String>) -> (r: Result<
        Vec<Environment<'flox, G>>,
        GetEnvironmentsError,
    >)
        ensures
            eval matches Err(e) ==> (r matches Err(GetEnvironmentsError::ListEnvironments(m))
                && m == e),
            eval matches Ok(v) ==> (json_strings_of(v) is None <==> r == Err::<
                Vec<Environment<'flox, G>>,
                GetEnvironmentsError,
            >(GetEnvironmentsError::Decode)),
            eval matches Ok(v) ==> (json_strings_of(v) matches Some(ss) ==> (r matches Ok(envs)
                && envs@.len() == ss.len() && forall|i: int|
                0 <= i < ss.len() ==> is_env_of(#[trigger] envs@[i], *self, ss[i]))),
    {
        match eval {
            Err(e) => Err(GetEnvironmentsError::ListEnvironments(e)),
            Ok(v) => match json_as_string_list(v) {
                None => Err(GetEnvironmentsError::Decode),
                Some(names) => {
                    let ghost ss = json_strings_of(v).unwrap();
                    proof {
                        assert(ss =~= names@.map(|i: int, s: String| s@));
                    }
                    let envs = self.environments_from_names(names);
                    Ok(envs)
                },
            },
        }
    }
}

} // verus!
