//! The environment mapper: from prefixed environment variables to the
//! canonical keys of a configuration payload.
use vstd::prelude::*;
use crate::value::{ConfigKey, ConfigValueView, RepoConfigValue};

verus! {

/// The lowercase form of a string, as `str::to_lowercase` of the standard
/// library computes it.
pub uninterp spec fn lowercase_of(s: Seq<char>) -> Seq<char>;

/// Calls `str::to_lowercase`. The contract only names the result: it is the
/// lowercase form of `s`, a function of `s` alone.
#[verifier::external_body]
pub(crate) fn to_lowercase(s: &str) -> (r: String)
    ensures
        r@ == lowercase_of(s@),
{
    s.to_lowercase()
}

/// The variables of an environment as pairs of name and value.
pub open spec fn variables(env: Seq<(String, String)>) -> Seq<(Seq<char>, Seq<char>)> {
    Seq::new(env.len(), |i: int| (env[i].0@, env[i].1@))
}

/// The canonical key that a variable named `name` sets, if it sets one. Names
/// are compared in lowercase, so `TURBO_API` and `turbo_api` are one name.
pub open spec fn variable_key(name: Seq<char>) -> Option<ConfigKey> {
    let lower = lowercase_of(name);
    if lower == "turbo_api"@ {
        Some(ConfigKey::ApiUrl)
    } else if lower == "turbo_login"@ {
        Some(ConfigKey::LoginUrl)
    } else if lower == "turbo_team"@ {
        Some(ConfigKey::TeamSlug)
    } else if lower == "turbo_teamid"@ {
        Some(ConfigKey::TeamId)
    } else {
        None
    }
}

/// The payload that an environment yields: a canonical key is set to the
/// value of the last variable that maps to it, and is absent if there is none.
pub open spec fn mapped_environment(env: Seq<(Seq<char>, Seq<char>)>) -> ConfigValueView
    decreases env.len(),
{
    if env.len() == 0 {
        ConfigValueView::empty()
    } else {
        let rest = mapped_environment(env.drop_last());
        match variable_key(env.last().0) {
            Some(key) => rest.set(key, Some(env.last().1)),
            None => rest,
        }
    }
}

/// A key to which no variable of the environment maps is absent from the
/// mapped payload.
pub proof fn absent_variable_gives_absent_key(env: Seq<(Seq<char>, Seq<char>)>, key: ConfigKey)
    requires
        forall|i: int| 0 <= i < env.len() ==> variable_key((#[trigger] env[i]).0) != Some(key),
    ensures
        mapped_environment(env).get(key) is None,
    decreases env.len(),
{
    if env.len() > 0 {
        absent_variable_gives_absent_key(env.drop_last(), key);
    }
}

/// A key to which a variable maps holds the value of the last such variable.
pub proof fn last_variable_wins(env: Seq<(Seq<char>, Seq<char>)>, key: ConfigKey, i: int)
    requires
        0 <= i < env.len(),
        variable_key(env[i].0) == Some(key),
        forall|j: int| i < j < env.len() ==> variable_key((#[trigger] env[j]).0) != Some(key),
    ensures
        mapped_environment(env).get(key) == Some(env[i].1),
    decreases env.len(),
{
    if i < env.len() - 1 {
        last_variable_wins(env.drop_last(), key, i);
    }
}

/// Which canonical key the variable `name` sets, if any.
pub fn key_of_variable(name: &str) -> (r: Option<ConfigKey>)
    ensures
        r == variable_key(name@),
{
    let lower = to_lowercase(name);
    if lower == "turbo_api".to_owned() {
        Some(ConfigKey::ApiUrl)
    } else if lower == "turbo_login".to_owned() {
        Some(ConfigKey::LoginUrl)
    } else if lower == "turbo_team".to_owned() {
        Some(ConfigKey::TeamSlug)
    } else if lower == "turbo_teamid".to_owned() {
        Some(ConfigKey::TeamId)
    } else {
        None
    }
}

/// Maps the variables of `env` to a payload. Variables that are not one of
/// the four known names contribute nothing; an empty value is still a value.
pub fn map_environment(env: &Vec<(String, String)>) -> (r: RepoConfigValue)
    ensures
        r@ == mapped_environment(variables(env@)),
{
    let ghost vars = variables(env@);
    let mut mapped = RepoConfigValue::empty();
    let mut i: usize = 0;
    proof {
        assert(vars.take(0) =~= Seq::empty());
    }
    while i < env.len()
        invariant
            i <= env.len(),
            vars == variables(env@),
            mapped@ == mapped_environment(vars.take(i as int)),
        decreases env.len() - i,
    {
        let entry = &env[i];
        let key = key_of_variable(entry.0.as_str());
        proof {
            assert(vars.take(i + 1).drop_last() =~= vars.take(i as int));
            assert(vars.take(i + 1).last() == (entry.0@, entry.1@));
        }
        match key {
            Some(ConfigKey::ApiUrl) => {
                mapped.apiurl = Some(entry.1.clone());
            },
            Some(ConfigKey::LoginUrl) => {
                mapped.loginurl = Some(entry.1.clone());
            },
            Some(ConfigKey::TeamSlug) => {
                mapped.teamslug = Some(entry.1.clone());
            },
            Some(ConfigKey::TeamId) => {
                mapped.teamid = Some(entry.1.clone());
            },
            None => {},
        }
        i += 1;
    }
    proof {
        assert(vars.take(env.len() as int) =~= vars);
    }
    mapped
}

} // verus!
