//! The payload of a configuration: four optional strings.
use vstd::prelude::*;

verus! {

/// The mathematical value of a configuration payload. `None` means "not set
/// at this layer", which is distinct from the empty string.
pub struct ConfigValueView {
    pub apiurl: Option<Seq<char>>,
    pub loginurl: Option<Seq<char>>,
    pub teamslug: Option<Seq<char>>,
    pub teamid: Option<Seq<char>>,
}

/// The four canonical keys of a configuration payload.
#[derive(Clone, Copy, Debug, PartialEq, Eq, Structural)]
pub enum ConfigKey {
    ApiUrl,
    LoginUrl,
    TeamSlug,
    TeamId,
}

/// The view of an optional string.
pub open spec fn text_view(s: Option<String>) -> Option<Seq<char>> {
    match s {
        Some(t) => Some(t@),
        None => None,
    }
}

/// The view of an optional borrowed string.
pub open spec fn borrowed_view(s: Option<&str>) -> Option<Seq<char>> {
    match s {
        Some(t) => Some(t@),
        None => None,
    }
}

impl ConfigValueView {
    /// The payload in which no key is set.
    pub open spec fn empty() -> ConfigValueView {
        ConfigValueView { apiurl: None, loginurl: None, teamslug: None, teamid: None }
    }

    /// The value stored under `key`.
    pub open spec fn get(self, key: ConfigKey) -> Option<Seq<char>> {
        match key {
            ConfigKey::ApiUrl => self.apiurl,
            ConfigKey::LoginUrl => self.loginurl,
            ConfigKey::TeamSlug => self.teamslug,
            ConfigKey::TeamId => self.teamid,
        }
    }

    /// This payload with `key` set to `value`, the other keys unchanged.
    pub open spec fn set(self, key: ConfigKey, value: Option<Seq<char>>) -> ConfigValueView {
        match key {
            ConfigKey::ApiUrl => ConfigValueView { apiurl: value, ..self },
            ConfigKey::LoginUrl => ConfigValueView { loginurl: value, ..self },
            ConfigKey::TeamSlug => ConfigValueView { teamslug: value, ..self },
            ConfigKey::TeamId => ConfigValueView { teamid: value, ..self },
        }
    }

    /// This payload laid over `lower`: a key set here wins, a key absent here
    /// shows what `lower` holds.
    pub open spec fn over(self, lower: ConfigValueView) -> ConfigValueView {
        ConfigValueView {
            apiurl: if self.apiurl is Some { self.apiurl } else { lower.apiurl },
            loginurl: if self.loginurl is Some { self.loginurl } else { lower.loginurl },
            teamslug: if self.teamslug is Some { self.teamslug } else { lower.teamslug },
            teamid: if self.teamid is Some { self.teamid } else { lower.teamid },
        }
    }
}

/// A configuration payload: each key is either absent or a string.
#[derive(Clone, Debug, PartialEq, Eq)]
pub struct RepoConfigValue {
    pub apiurl: Option<String>,
    pub loginurl: Option<String>,
    pub teamslug: Option<String>,
    pub teamid: Option<String>,
}

impl View for RepoConfigValue {
    type V = ConfigValueView;

    open spec fn view(&self) -> ConfigValueView {
        ConfigValueView {
            apiurl: text_view(self.apiurl),
            loginurl: text_view(self.loginurl),
            teamslug: text_view(self.teamslug),
            teamid: text_view(self.teamid),
        }
    }
}

/// A copy of an optional string.
pub fn copy_text(s: &Option<String>) -> (r: Option<String>)
    ensures
        text_view(r) == text_view(*s),
{
    match s {
        Some(t) => Some(t.clone()),
        None => None,
    }
}

/// `upper` if it is set, else `lower`.
pub fn pick(upper: Option<String>, lower: Option<String>) -> (r: Option<String>)
    ensures
        r == (if upper is Some { upper } else { lower }),
{
    match upper {
        Some(t) => Some(t),
        None => lower,
    }
}

impl Default for RepoConfigValue {
    /// The payload in which no key is set.
    fn default() -> (r: RepoConfigValue)
        ensures
            r@ == ConfigValueView::empty(),
    {
        RepoConfigValue { apiurl: None, loginurl: None, teamslug: None, teamid: None }
    }
}

impl RepoConfigValue {
    /// The payload in which no key is set.
    pub fn empty() -> (r: RepoConfigValue)
        ensures
            r@ == ConfigValueView::empty(),
    {
        RepoConfigValue { apiurl: None, loginurl: None, teamslug: None, teamid: None }
    }

    /// A copy of this payload.
    pub fn duplicate(&self) -> (r: RepoConfigValue)
        ensures
            r@ == self@,
    {
        RepoConfigValue {
            apiurl: copy_text(&self.apiurl),
            loginurl: copy_text(&self.loginurl),
            teamslug: copy_text(&self.teamslug),
            teamid: copy_text(&self.teamid),
        }
    }

    /// Lays `self` over `lower`, key by key: a key set in `self` wins.
    pub fn overlay(self, lower: RepoConfigValue) -> (r: RepoConfigValue)
        ensures
            r@ == self@.over(lower@),
    {
        RepoConfigValue {
            apiurl: pick(self.apiurl, lower.apiurl),
            loginurl: pick(self.loginurl, lower.loginurl),
            teamslug: pick(self.teamslug, lower.teamslug),
            teamid: pick(self.teamid, lower.teamid),
        }
    }
}

/// The payloads of a list of sources.
pub open spec fn payloads(sources: Seq<RepoConfigValue>) -> Seq<ConfigValueView> {
    Seq::new(sources.len(), |i: int| sources[i]@)
}

/// The merged view of a list of sources, lowest precedence first: each source
/// is laid over what the sources before it give.
pub open spec fn merged(sources: Seq<ConfigValueView>) -> ConfigValueView
    decreases sources.len(),
{
    if sources.len() == 0 {
        ConfigValueView::empty()
    } else {
        sources.last().over(merged(sources.drop_last()))
    }
}

/// A key that no source sets is absent from the merged view.
pub proof fn merged_absent(sources: Seq<ConfigValueView>, key: ConfigKey)
    requires
        forall|i: int| 0 <= i < sources.len() ==> (#[trigger] sources[i]).get(key) is None,
    ensures
        merged(sources).get(key) is None,
    decreases sources.len(),
{
    if sources.len() > 0 {
        merged_absent(sources.drop_last(), key);
    }
}

/// A key that some source sets holds, in the merged view, the value of the
/// highest source that sets it.
pub proof fn merged_highest_wins(sources: Seq<ConfigValueView>, key: ConfigKey, i: int)
    requires
        0 <= i < sources.len(),
        sources[i].get(key) is Some,
        forall|j: int| i < j < sources.len() ==> (#[trigger] sources[j]).get(key) is None,
    ensures
        merged(sources).get(key) == sources[i].get(key),
    decreases sources.len(),
{
    if i < sources.len() - 1 {
        merged_highest_wins(sources.drop_last(), key, i);
    }
}

/// Three sources merge to the highest over the middle one over the lowest.
pub proof fn merged_three(low: ConfigValueView, middle: ConfigValueView, high: ConfigValueView)
    ensures
        merged(seq![low, middle, high]) == high.over(middle.over(low)),
{
    let three = seq![low, middle, high];
    let two = seq![low, middle];
    let one = seq![low];
    assert(three.drop_last() =~= two);
    assert(two.drop_last() =~= one);
    assert(one.drop_last() =~= Seq::empty());
    assert(merged(one.drop_last()) == ConfigValueView::empty());
    assert(merged(one) == low.over(ConfigValueView::empty()));
    assert(merged(two) == middle.over(merged(one)));
    assert(merged(three) == high.over(merged(two)));
}

/// Merges a list of sources, lowest precedence first: each key comes from the
/// highest source in which it is set, and is absent where no source sets it.
pub fn merge_sources(sources: &Vec<RepoConfigValue>) -> (r: RepoConfigValue)
    ensures
        r@ == merged(payloads(sources@)),
{
    let ghost all = payloads(sources@);
    let mut merged_value = RepoConfigValue::empty();
    let mut i: usize = 0;
    proof {
        assert(all.take(0) =~= Seq::empty());
    }
    while i < sources.len()
        invariant
            i <= sources.len(),
            all == payloads(sources@),
            merged_value@ == merged(all.take(i as int)),
        decreases sources.len() - i,
    {
        proof {
            assert(all.take(i + 1).drop_last() =~= all.take(i as int));
            assert(all.take(i + 1).last() == sources@[i as int]@);
        }
        merged_value = sources[i].duplicate().overlay(merged_value);
        i += 1;
    }
    proof {
        assert(all.take(sources.len() as int) =~= all);
    }
    merged_value
}

} // verus!
