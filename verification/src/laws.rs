//! What holds of every load and of every mutation, stated over the views.
use vstd::prelude::*;
use crate::document::written_document;
use crate::env::mapped_environment;
use crate::repo::{RepoConfigLoaderView, RepoConfigView, DEFAULT_API_URL, DEFAULT_LOGIN_URL};
use crate::value::{ConfigKey, ConfigValueView};

verus! {

/// The first of three layers in which `key` is set, highest first.
pub open spec fn first_set(
    key: ConfigKey,
    high: ConfigValueView,
    middle: ConfigValueView,
    low: ConfigValueView,
) -> Option<Seq<char>> {
    if high.get(key) is Some {
        high.get(key)
    } else if middle.get(key) is Some {
        middle.get(key)
    } else {
        low.get(key)
    }
}

/// Precedence of the layers: the value in use under a key is the override
/// where one was given, else the value of the mapped environment where it has
/// one, else the value on disk, else absent. The one exception is left out by
/// the precondition: the team id of a load that overrides the team slug.
pub proof fn override_precedence(
    loader: RepoConfigLoaderView,
    disk: ConfigValueView,
    process_environment: Seq<(Seq<char>, Seq<char>)>,
    key: ConfigKey,
)
    requires
        !(key == ConfigKey::TeamId && loader.teamslug is Some),
    ensures
        loader.resolved(disk, process_environment).config.get(key) == first_set(
            key,
            loader.overrides(),
            mapped_environment(loader.environment_in_use(process_environment)),
            disk,
        ),
{
}

/// Precedence for the two endpoints, which are never absent: the override,
/// else the environment, else the disk, else the built-in default.
pub proof fn endpoint_precedence(
    loader: RepoConfigLoaderView,
    disk: ConfigValueView,
    process_environment: Seq<(Seq<char>, Seq<char>)>,
)
    ensures
        loader.resolved(disk, process_environment).api_url() == (match first_set(
            ConfigKey::ApiUrl,
            loader.overrides(),
            mapped_environment(loader.environment_in_use(process_environment)),
            disk,
        ) {
            Some(url) => url,
            None => DEFAULT_API_URL@,
        }),
        loader.resolved(disk, process_environment).login_url() == (match first_set(
            ConfigKey::LoginUrl,
            loader.overrides(),
            mapped_environment(loader.environment_in_use(process_environment)),
            disk,
        ) {
            Some(url) => url,
            None => DEFAULT_LOGIN_URL@,
        }),
{
}

/// A load that overrides the team slug yields no team id, whatever the disk
/// and the environment hold, and yields the overriding slug.
pub proof fn team_slug_override_clears_team_id(
    loader: RepoConfigLoaderView,
    disk: ConfigValueView,
    process_environment: Seq<(Seq<char>, Seq<char>)>,
)
    requires
        loader.teamslug is Some,
    ensures
        loader.resolved(disk, process_environment).config.teamid is None,
        loader.resolved(disk, process_environment).config.teamslug == loader.teamslug,
{
}

/// A payload names a team in at most one way: by slug or by id, not by both.
pub open spec fn names_one_team(value: ConfigValueView) -> bool {
    !(value.teamslug is Some && value.teamid is Some)
}

/// After a change of the team id both payloads name a team in at most one
/// way, and so does the payload in use of a load that overrides the team
/// slug.
pub proof fn team_identity_is_exclusive(
    config: RepoConfigView,
    team_id: Option<Seq<char>>,
    loader: RepoConfigLoaderView,
    disk: ConfigValueView,
    process_environment: Seq<(Seq<char>, Seq<char>)>,
)
    ensures
        names_one_team(config.with_team_id(team_id).disk_config),
        names_one_team(config.with_team_id(team_id).config),
        loader.teamslug is Some ==> names_one_team(
            loader.resolved(disk, process_environment).config,
        ),
{
}

/// A configuration after the team id was set to each of `team_ids` in turn.
pub open spec fn with_team_ids(
    config: RepoConfigView,
    team_ids: Seq<Option<Seq<char>>>,
) -> RepoConfigView
    decreases team_ids.len(),
{
    if team_ids.len() == 0 {
        config
    } else {
        with_team_ids(config, team_ids.drop_last()).with_team_id(team_ids.last())
    }
}

/// After any sequence of at least one change of the team id, the team slug is
/// absent and the team id is the last one given, in the persisted payload and
/// in the payload in use alike; the endpoints and the path are as before.
pub proof fn team_id_after_changes(config: RepoConfigView, team_ids: Seq<Option<Seq<char>>>)
    requires
        team_ids.len() > 0,
    ensures
        with_team_ids(config, team_ids).disk_config.teamslug is None,
        with_team_ids(config, team_ids).config.teamslug is None,
        with_team_ids(config, team_ids).disk_config.teamid == team_ids.last(),
        with_team_ids(config, team_ids).config.teamid == team_ids.last(),
        with_team_ids(config, team_ids).disk_config.apiurl == config.disk_config.apiurl,
        with_team_ids(config, team_ids).disk_config.loginurl == config.disk_config.loginurl,
        with_team_ids(config, team_ids).config.apiurl == config.config.apiurl,
        with_team_ids(config, team_ids).config.loginurl == config.config.loginurl,
        with_team_ids(config, team_ids).path == config.path,
    decreases team_ids.len(),
{
    if team_ids.len() > 1 {
        team_id_after_changes(config, team_ids.drop_last());
    } else {
        assert(with_team_ids(config, team_ids.drop_last()) == config);
    }
}

/// Resolving again from the payload that a change of the team id persisted:
/// where the new request overrides no team slug and its environment sets
/// neither the team slug nor the team id, the team id in use is the one that
/// was set, and there is no team slug.
pub proof fn reload_after_team_id_change(
    config: RepoConfigView,
    team_id: Option<Seq<char>>,
    loader: RepoConfigLoaderView,
    process_environment: Seq<(Seq<char>, Seq<char>)>,
)
    requires
        loader.teamslug is None,
        mapped_environment(loader.environment_in_use(process_environment)).teamslug is None,
        mapped_environment(loader.environment_in_use(process_environment)).teamid is None,
    ensures
        loader.resolved(
            config.with_team_id(team_id).disk_config,
            process_environment,
        ).config.teamid == team_id,
        loader.resolved(
            config.with_team_id(team_id).disk_config,
            process_environment,
        ).config.teamslug is None,
{
}

/// The persisted payload of a load is the disk payload itself: neither the
/// environment nor an override reaches it, so two loads of one document that
/// differ in both persist the same document.
pub proof fn disk_shadow_ignores_layers(
    disk: ConfigValueView,
    first: RepoConfigLoaderView,
    first_environment: Seq<(Seq<char>, Seq<char>)>,
    second: RepoConfigLoaderView,
    second_environment: Seq<(Seq<char>, Seq<char>)>,
)
    ensures
        first.resolved(disk, first_environment).disk_config == disk,
        second.resolved(disk, second_environment).disk_config == disk,
        written_document(first.resolved(disk, first_environment).disk_config) == written_document(
            second.resolved(disk, second_environment).disk_config,
        ),
{
}

/// A change of the team id persists, besides the team identity, exactly what
/// was on disk before: no value of the payload in use reaches the persisted
/// one.
pub proof fn team_id_change_persists_disk_only(
    config: RepoConfigView,
    other: RepoConfigView,
    team_id: Option<Seq<char>>,
)
    requires
        config.disk_config == other.disk_config,
    ensures
        config.with_team_id(team_id).disk_config == other.with_team_id(team_id).disk_config,
        config.with_team_id(team_id).disk_config.apiurl == config.disk_config.apiurl,
        config.with_team_id(team_id).disk_config.loginurl == config.disk_config.loginurl,
{
}

} // verus!
