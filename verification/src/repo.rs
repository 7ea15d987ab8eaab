//! The configuration object and its loader.
use vstd::prelude::*;
use std::path::PathBuf;
use crate::document::{
    document_value, parse_document, render_document, written_document, LoadError, PersistError,
};
use crate::env::{map_environment, mapped_environment, variables};
use crate::value::{
    borrowed_view, copy_text, merge_sources, merged_three, payloads, text_view, ConfigKey,
    ConfigValueView, RepoConfigValue,
};

verus! {

/// `std::path::PathBuf`, carried through as an opaque value.
#[verifier::external_type_specification]
#[verifier::external_body]
pub struct ExPathBuf(std::path::PathBuf);

/// `PathBuf::clone` of the standard library. Nothing is claimed of the copy.
pub assume_specification[ <std::path::PathBuf as Clone>::clone ](
    path: &std::path::PathBuf,
) -> (r: std::path::PathBuf)
;

/// The API endpoint that is used where none is configured.
pub const DEFAULT_API_URL: &'static str = "https://vercel.com/api";

/// The login endpoint that is used where none is configured.
pub const DEFAULT_LOGIN_URL: &'static str = "https://vercel.com";

/// The mathematical value of a configuration.
pub struct RepoConfigView {
    /// What the document on disk holds, and nothing else.
    pub disk_config: ConfigValueView,
    /// The value in use: disk, environment and overrides merged.
    pub config: ConfigValueView,
    /// Where the document is kept.
    pub path: PathBuf,
}

/// The mathematical value of a loader: the request it stands for.
pub struct RepoConfigLoaderView {
    pub path: PathBuf,
    pub api: Option<Seq<char>>,
    pub login: Option<Seq<char>>,
    pub teamslug: Option<Seq<char>>,
    pub environment: Option<Seq<(Seq<char>, Seq<char>)>>,
}

impl RepoConfigLoaderView {
    /// The payload of the explicit overrides. No override exists for the team
    /// id.
    pub open spec fn overrides(self) -> ConfigValueView {
        ConfigValueView {
            apiurl: self.api,
            loginurl: self.login,
            teamslug: self.teamslug,
            teamid: None,
        }
    }

    /// The environment that is mapped: the injected one where there is one,
    /// else the environment of the process.
    pub open spec fn environment_in_use(
        self,
        process_environment: Seq<(Seq<char>, Seq<char>)>,
    ) -> Seq<(Seq<char>, Seq<char>)> {
        match self.environment {
            Some(injected) => injected,
            None => process_environment,
        }
    }

    /// The value in use: the overrides over the mapped environment over the
    /// disk payload; and where a team slug was given as an override, no team
    /// id, since a stored id may belong to another team.
    pub open spec fn effective(
        self,
        disk: ConfigValueView,
        process_environment: Seq<(Seq<char>, Seq<char>)>,
    ) -> ConfigValueView {
        let environment = mapped_environment(self.environment_in_use(process_environment));
        let merged = self.overrides().over(environment.over(disk));
        if self.teamslug is Some {
            merged.set(ConfigKey::TeamId, None)
        } else {
            merged
        }
    }

    /// The configuration that this request resolves to.
    pub open spec fn resolved(
        self,
        disk: ConfigValueView,
        process_environment: Seq<(Seq<char>, Seq<char>)>,
    ) -> RepoConfigView {
        RepoConfigView {
            disk_config: disk,
            config: self.effective(disk, process_environment),
            path: self.path,
        }
    }
}

impl RepoConfigView {
    /// The API endpoint in use.
    pub open spec fn api_url(self) -> Seq<char> {
        match self.config.apiurl {
            Some(url) => url,
            None => DEFAULT_API_URL@,
        }
    }

    /// The login endpoint in use.
    pub open spec fn login_url(self) -> Seq<char> {
        match self.config.loginurl {
            Some(url) => url,
            None => DEFAULT_LOGIN_URL@,
        }
    }

    /// This configuration after the team id was set to `team_id`: in both
    /// payloads the team slug is cleared and the team id replaced.
    pub open spec fn with_team_id(self, team_id: Option<Seq<char>>) -> RepoConfigView {
        RepoConfigView {
            disk_config: self.disk_config.set(ConfigKey::TeamSlug, None).set(
                ConfigKey::TeamId,
                team_id,
            ),
            config: self.config.set(ConfigKey::TeamSlug, None).set(ConfigKey::TeamId, team_id),
            path: self.path,
        }
    }
}

/// The view of an optional environment.
pub open spec fn environment_view(environment: Option<Vec<(String, String)>>) -> Option<
    Seq<(Seq<char>, Seq<char>)>,
> {
    match environment {
        Some(env) => Some(variables(env@)),
        None => None,
    }
}

/// A repository's configuration: the payload of the document on disk, the
/// payload in use, and the document's path.
#[derive(Clone, Debug, PartialEq, Eq)]
pub struct RepoConfig {
    disk_config: RepoConfigValue,
    config: RepoConfigValue,
    path: PathBuf,
}

/// A request to load a configuration: the document's path, the explicit
/// overrides, and optionally an environment to use in place of the process's.
#[derive(Clone, Debug)]
pub struct RepoConfigLoader {
    path: PathBuf,
    api: Option<String>,
    login: Option<String>,
    teamslug: Option<String>,
    environment: Option<Vec<(String, String)>>,
}

impl View for RepoConfig {
    type V = RepoConfigView;

    closed spec fn view(&self) -> RepoConfigView {
        RepoConfigView {
            disk_config: self.disk_config@,
            config: self.config@,
            path: self.path,
        }
    }
}

impl View for RepoConfigLoader {
    type V = RepoConfigLoaderView;

    closed spec fn view(&self) -> RepoConfigLoaderView {
        RepoConfigLoaderView {
            path: self.path,
            api: text_view(self.api),
            login: text_view(self.login),
            teamslug: text_view(self.teamslug),
            environment: environment_view(self.environment),
        }
    }
}

impl RepoConfig {
    /// The API endpoint: the configured one, else the built-in default.
    pub fn api_url(&self) -> (r: &str)
        ensures
            r@ == self@.api_url(),
    {
        match &self.config.apiurl {
            Some(url) => url.as_str(),
            None => DEFAULT_API_URL,
        }
    }

    /// The login endpoint: the configured one, else the built-in default.
    pub fn login_url(&self) -> (r: &str)
        ensures
            r@ == self@.login_url(),
    {
        match &self.config.loginurl {
            Some(url) => url.as_str(),
            None => DEFAULT_LOGIN_URL,
        }
    }

    /// The team slug in use, if any. There is no default.
    pub fn team_slug(&self) -> (r: Option<&str>)
        ensures
            borrowed_view(r) == self@.config.teamslug,
    {
        match &self.config.teamslug {
            Some(slug) => Some(slug.as_str()),
            None => None,
        }
    }

    /// The team id in use, if any. There is no default.
    pub fn team_id(&self) -> (r: Option<&str>)
        ensures
            borrowed_view(r) == self@.config.teamid,
    {
        match &self.config.teamid {
            Some(id) => Some(id.as_str()),
            None => None,
        }
    }

    /// The path of the document that persists this configuration.
    pub fn path(&self) -> (r: &PathBuf)
        ensures
            *r == self@.path,
    {
        &self.path
    }

    /// The payload that is persisted.
    pub fn disk_config(&self) -> (r: &RepoConfigValue)
        ensures
            r@ == self@.disk_config,
    {
        &self.disk_config
    }

    /// Sets the team id and clears the team slug, which may belong to another
    /// team, in the payload in use and in the persisted payload alike. Returns
    /// the document to write at `path()`, for every value of `team_id`: the
    /// call does not fail on what is passed.
    pub fn set_team_id(&mut self, team_id: Option<String>) -> (r: Result<String, PersistError>)
        ensures
            final(self)@ == old(self)@.with_team_id(text_view(team_id)),
            r matches Ok(text) && text@ == written_document(final(self)@.disk_config),
    {
        self.disk_config.teamslug = None;
        self.config.teamslug = None;
        self.disk_config.teamid = copy_text(&team_id);
        self.config.teamid = team_id;
        self.write_to_disk()
    }

    /// The document that persists this configuration: the disk payload alone,
    /// never a value that came from the environment or from an override.
    pub fn write_to_disk(&self) -> (r: Result<String, PersistError>)
        ensures
            r matches Ok(text) && text@ == written_document(self@.disk_config),
    {
        render_document(&self.disk_config)
    }
}

impl RepoConfigLoader {
    /// A request for the document at `path`, with no override and no injected
    /// environment.
    pub fn new(path: PathBuf) -> (r: Self)
        ensures
            r@ == (RepoConfigLoaderView {
                path,
                api: None,
                login: None,
                teamslug: None,
                environment: None,
            }),
    {
        Self { path, api: None, login: None, teamslug: None, environment: None }
    }

    /// The path of the document that this request reads.
    pub fn path(&self) -> (r: &PathBuf)
        ensures
            *r == self@.path,
    {
        &self.path
    }

    /// Sets or clears the override of the API endpoint.
    pub fn with_api(self, api: Option<String>) -> (r: Self)
        ensures
            r@ == (RepoConfigLoaderView { api: text_view(api), ..self@ }),
    {
        let mut next = self;
        next.api = api;
        next
    }

    /// Sets or clears the override of the login endpoint.
    pub fn with_login(self, login: Option<String>) -> (r: Self)
        ensures
            r@ == (RepoConfigLoaderView { login: text_view(login), ..self@ }),
    {
        let mut next = self;
        next.login = login;
        next
    }

    /// Sets or clears the override of the team slug.
    pub fn with_team_slug(self, team_slug: Option<String>) -> (r: Self)
        ensures
            r@ == (RepoConfigLoaderView { teamslug: text_view(team_slug), ..self@ }),
    {
        let mut next = self;
        next.teamslug = team_slug;
        next
    }

    /// Injects an environment to map in place of the process's, or removes it.
    /// The environment is a list, so that it is fixed which of two variables
    /// wins whose names differ in letter case only: the later one.
    pub fn with_environment(self, environment: Option<Vec<(String, String)>>) -> (r: Self)
        ensures
            r@ == (RepoConfigLoaderView { environment: environment_view(environment), ..self@ }),
    {
        let mut next = self;
        next.environment = environment;
        next
    }

    /// Resolves the request against a disk payload that was already read and
    /// the environment of the process: the payload in use is the overrides
    /// over the mapped environment over `disk`, without a team id where a team
    /// slug was overridden; the persisted payload is `disk` as it stands.
    pub fn resolve(self, disk: RepoConfigValue, process_environment: &Vec<(String, String)>) -> (r:
        RepoConfig)
        ensures
            r@ == self@.resolved(disk@, variables(process_environment@)),
    {
        let has_teamslug_override = self.teamslug.is_some();
        let environment = match &self.environment {
            Some(injected) => map_environment(injected),
            None => map_environment(process_environment),
        };
        let overrides = RepoConfigValue {
            apiurl: self.api,
            loginurl: self.login,
            teamslug: self.teamslug,
            teamid: None,
        };
        let mut sources: Vec<RepoConfigValue> = Vec::new();
        sources.push(disk.duplicate());
        sources.push(environment);
        sources.push(overrides);
        proof {
            assert(payloads(sources@) =~= seq![disk@, environment@, overrides@]);
            merged_three(disk@, environment@, overrides@);
        }
        let mut config = merge_sources(&sources);
        if has_teamslug_override {
            config.teamid = None;
        }
        RepoConfig { disk_config: disk, config, path: self.path }
    }

    /// Loads the configuration from the text of the document at the path, or
    /// `None` where there is no such file, and the environment of the process.
    /// A missing document is an empty one. Fails exactly where the document
    /// cannot be read as a payload; otherwise the result is what `resolve`
    /// gives for the payload that the document holds.
    pub fn load(self, document: Option<&str>, process_environment: &Vec<(String, String)>) -> (r:
        Result<RepoConfig, LoadError>)
        ensures
            match document_value(borrowed_view(document)) {
                Some(disk) => r matches Ok(loaded) && loaded@ == self@.resolved(
                    disk,
                    variables(process_environment@),
                ),
                None => r matches Err(e) && e == LoadError::MalformedInput,
            },
    {
        match parse_document(document) {
            Ok(disk) => Ok(self.resolve(disk, process_environment)),
            Err(e) => Err(e),
        }
    }
}

} // verus!
