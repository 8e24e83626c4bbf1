//! The model provider profile read from the Codex configuration.
use vstd::prelude::*;

use crate::config::opt_view;
use crate::paths::{home_dir, join_path, joined_path};
use crate::runtime::{key_index, table_find};
use crate::text::{blank, is_blank, trim, trimmed, views};

verus! {

/// The provider a session reports.
#[derive(Debug, Clone, Default)]
pub struct ProviderProfile {
    pub provider_name: String,
    pub model: String,
    pub base_url: String,
    pub api_key_present: bool,
    pub wire_api: String,
    pub source_path: String,
}

/// The parts of a Codex configuration the profile reads.
#[derive(Debug, Clone, Default)]
pub struct CodexConfig {
    pub model_provider: String,
    pub model: String,
    /// Providers by name, in name order.
    pub model_providers: Vec<(String, CodexProvider)>,
}

#[derive(Debug, Clone, Default)]
pub struct CodexProvider {
    pub base_url: String,
    pub wire_api: String,
    pub api_key: String,
    pub experimental_bearer_token: String,
}

/// The profile of a parsed configuration read from `source_path`: the
/// configured provider (trimmed name; an unknown one has empty settings),
/// its model, URL and wire API, and whether a key or bearer token is set.
pub fn build_profile(parsed: CodexConfig, source_path: String) -> (r: ProviderProfile)
    ensures
        r.provider_name@ == trim(parsed.model_provider@),
        r.model == parsed.model,
        r.source_path == source_path,
        match key_index(parsed.model_providers@, trim(parsed.model_provider@)) {
            Some(i) => {
                let p = parsed.model_providers@[i].1;
                &&& r.base_url == p.base_url
                &&& r.wire_api == p.wire_api
                &&& r.api_key_present == (!blank(p.api_key@) || !blank(p.experimental_bearer_token@))
            },
            None => r.base_url@.len() == 0 && r.wire_api@.len() == 0 && !r.api_key_present,
        },
{
    let name = trimmed(parsed.model_provider.as_str());
    match table_find(&parsed.model_providers, name.as_str()) {
        Some(i) => {
            let p = &parsed.model_providers[i].1;
            let present = !is_blank(p.api_key.as_str()) || !is_blank(
                p.experimental_bearer_token.as_str(),
            );
            let base_url = p.base_url.clone();
            let wire_api = p.wire_api.clone();
            ProviderProfile {
                provider_name: name,
                model: parsed.model,
                base_url,
                api_key_present: present,
                wire_api,
                source_path,
            }
        },
        None => ProviderProfile {
            provider_name: name,
            model: parsed.model,
            base_url: String::new(),
            api_key_present: false,
            wire_api: String::new(),
            source_path,
        },
    }
}

/// The first occurrences of each path, in order.
pub open spec fn first_occurrences(s: Seq<Seq<char>>) -> Seq<Seq<char>>
    decreases s.len(),
{
    if s.len() == 0 {
        Seq::empty()
    } else {
        let rest = first_occurrences(s.drop_last());
        if rest.contains(s.last()) {
            rest
        } else {
            rest.push(s.last())
        }
    }
}

/// Whether a list holds a text.
pub fn list_contains(list: &Vec<String>, t: &str) -> (r: bool)
    ensures
        r == views(list@).contains(t@),
{
    let mut j: usize = 0;
    while j < list.len()
        invariant
            j <= list.len(),
            forall|k: int| 0 <= k < j ==> views(list@)[k] != t@,
        decreases list.len() - j,
    {
        if crate::text::same(list[j].as_str(), t) {
            assert(views(list@)[j as int] == t@);
            return true;
        }
        j = j + 1;
    }
    false
}

/// Drops the later repetitions of candidate paths.
pub fn unique_paths(values: Vec<String>) -> (r: Vec<String>)
    ensures
        views(r@) == first_occurrences(views(values@)),
        views(r@).no_duplicates(),
{
    let mut unique: Vec<String> = Vec::new();
    let mut i: usize = 0;
    while i < values.len()
        invariant
            i <= values.len(),
            views(unique@) == first_occurrences(views(values@).subrange(0, i as int)),
            views(unique@).no_duplicates(),
        decreases values.len() - i,
    {
        let ghost pre = views(values@).subrange(0, i as int);
        assert(views(values@).subrange(0, i + 1).drop_last() =~= pre);
        assert(views(values@).subrange(0, i + 1).last() == values@[i as int]@);
        let found = list_contains(&unique, values[i].as_str());
        if !found {
            let ghost before = views(unique@);
            unique.push(values[i].clone());
            assert(views(unique@) =~= before.push(values@[i as int]@));
        }
        i = i + 1;
    }
    assert(views(values@).subrange(0, values.len() as int) =~= views(values@));
    unique
}

/// The one-element list of a present text, or the empty list.
pub open spec fn listed(o: Option<Seq<char>>) -> Seq<Seq<char>> {
    match o {
        Some(x) => seq![x],
        None => Seq::empty(),
    }
}

/// Where a Codex configuration may be, in the order they are tried: an
/// explicit path, `$CODEX_CONFIG`, `config.toml` under `$CODEX_HOME`, and
/// `.codex/config.toml` under the home directory, each only when given.
pub open spec fn candidate_list(
    explicit: Option<Seq<char>>,
    codex_config: Option<Seq<char>>,
    codex_home: Option<Seq<char>>,
    home: Option<Seq<char>>,
) -> Seq<Seq<char>> {
    listed(explicit) + listed(codex_config) + listed(
        match codex_home {
            Some(c) => Some(joined_path(c, "config.toml"@)),
            None => None,
        },
    ) + listed(
        match home {
            Some(h) => Some(joined_path(joined_path(h, ".codex"@), "config.toml"@)),
            None => None,
        },
    )
}

fn push_some(values: &mut Vec<String>, o: Option<String>)
    ensures
        views(final(values)@) == views(old(values)@) + listed(opt_view(o)),
{
    match o {
        Some(x) => {
            let ghost before = views(values@);
            values.push(x);
            assert(views(values@) =~= before + listed(opt_view(o)));
        },
        None => {
            assert(views(values@) =~= views(values@) + listed(opt_view(o)));
        },
    }
}

/// The candidate configuration paths, given the environment's values and
/// the home directory, without repetitions (the first of equal texts stays).
pub fn candidate_paths_in(
    explicit: Option<String>,
    codex_config: Option<String>,
    codex_home: Option<String>,
    home: Option<String>,
) -> (r: Vec<String>)
    ensures
        views(r@) == first_occurrences(
            candidate_list(opt_view(explicit), opt_view(codex_config), opt_view(codex_home), opt_view(home)),
        ),
{
    let ghost ce = opt_view(explicit);
    let ghost cc = opt_view(codex_config);
    let ghost ch = opt_view(codex_home);
    let ghost hm = opt_view(home);
    let mut values: Vec<String> = Vec::new();
    push_some(&mut values, explicit);
    push_some(&mut values, codex_config);
    let from_codex_home = match codex_home {
        Some(c) => Some(join_path(c.as_str(), "config.toml")),
        None => None,
    };
    push_some(&mut values, from_codex_home);
    let from_home = match home {
        Some(h) => {
            let d = join_path(h.as_str(), ".codex");
            Some(join_path(d.as_str(), "config.toml"))
        },
        None => None,
    };
    push_some(&mut values, from_home);
    assert(views(values@) =~= candidate_list(ce, cc, ch, hm));
    unique_paths(values)
}

/// The candidate configuration paths, given the environment's values,
/// against the current home directory.
pub fn candidate_paths(
    explicit: Option<String>,
    codex_config: Option<String>,
    codex_home: Option<String>,
) -> (r: Vec<String>)
    ensures
        exists|h: Option<Seq<char>>|
            views(r@) == first_occurrences(
                candidate_list(opt_view(explicit), opt_view(codex_config), opt_view(codex_home), h),
            ),
{
    let home = home_dir();
    let ghost hm = opt_view(home);
    let r = candidate_paths_in(explicit, codex_config, codex_home, home);
    assert(views(r@) == first_occurrences(
        candidate_list(opt_view(explicit), opt_view(codex_config), opt_view(codex_home), hm),
    ));
    r
}

} // verus!
