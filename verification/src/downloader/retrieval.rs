//! The provider-info request of a series and turning its answer into seasons.
use std::collections::HashMap;
use vstd::prelude::*;

use super::types::{Episode, Season, Seasons};
use crate::text::{decimal, owned, push_decimal};

verus! {

broadcast use vstd::std_specs::hash::group_hash_axioms;

/// One episode as the provider-info answer lists it.
#[derive(Debug, Clone)]
pub struct EpisodeResponse {
    pub uuid: String,
    pub title: String,
    pub episode_number: u32,
    pub season_number: u32,
    /// May be missing.
    pub duration_secs: Option<u64>,
    /// `mp4` or `mkv`: varies per episode and must be respected.
    pub container_extension: String,
}

/// The episode that a listed episode becomes.
pub open spec fn to_episode(r: EpisodeResponse) -> Episode {
    Episode {
        uuid: r.uuid,
        episode_number: r.episode_number,
        title: r.title,
        container_extension: r.container_extension,
        seconds: r.duration_secs,
    }
}

/// All listed episodes, group after group, each group in its own order.
pub open spec fn all_responses(groups: Seq<Vec<EpisodeResponse>>) -> Seq<EpisodeResponse>
    decreases groups.len(),
{
    if groups.len() == 0 {
        Seq::empty()
    } else {
        all_responses(groups.drop_last()) + groups.last()@
    }
}

/// The season numbers that occur in `listed`.
pub open spec fn season_numbers(listed: Seq<EpisodeResponse>) -> Set<u32>
    decreases listed.len(),
{
    if listed.len() == 0 {
        Set::empty()
    } else {
        season_numbers(listed.drop_last()).insert(listed.last().season_number)
    }
}

/// The episodes of `listed` that belong to season `season`, in the order of
/// `listed`.
pub open spec fn season_episodes(listed: Seq<EpisodeResponse>, season: u32) -> Seq<Episode>
    decreases listed.len(),
{
    if listed.len() == 0 {
        Seq::empty()
    } else if listed.last().season_number == season {
        season_episodes(listed.drop_last(), season).push(to_episode(listed.last()))
    } else {
        season_episodes(listed.drop_last(), season)
    }
}

/// Whether `seasons` holds exactly the seasons of `listed`, each with its
/// episodes in the order of `listed`.
pub open spec fn seasons_of(seasons: Map<u32, Season>, listed: Seq<EpisodeResponse>) -> bool {
    &&& seasons.dom() == season_numbers(listed)
    &&& forall|k: u32| #[trigger]
        seasons.contains_key(k) ==> seasons[k].episodes@ == season_episodes(listed, k)
}

proof fn lemma_absent_season_is_empty(listed: Seq<EpisodeResponse>, season: u32)
    requires
        !season_numbers(listed).contains(season),
    ensures
        season_episodes(listed, season).len() == 0,
    decreases listed.len(),
{
    if listed.len() > 0 {
        lemma_absent_season_is_empty(listed.drop_last(), season);
    }
}

fn episode_of(r: &EpisodeResponse) -> (e: Episode)
    ensures
        e == to_episode(*r),
{
    Episode {
        uuid: r.uuid.clone(),
        episode_number: r.episode_number,
        title: r.title.clone(),
        container_extension: r.container_extension.clone(),
        seconds: r.duration_secs,
    }
}

/// Sorts the listed episodes into seasons by their season number; within a
/// season they keep the order in which they are listed. The groups are the
/// per-season lists of the answer in the order its map was walked.
pub fn collect_seasons(groups: &Vec<Vec<EpisodeResponse>>) -> (seasons: Seasons)
    ensures
        seasons_of(seasons@, all_responses(groups@)),
{
    let mut seasons: Seasons = HashMap::new();
    let mut i: usize = 0;
    assert(groups@.take(0) =~= Seq::<Vec<EpisodeResponse>>::empty());
    while i < groups.len()
        invariant
            i <= groups@.len(),
            seasons_of(seasons@, all_responses(groups@.take(i as int))),
        decreases groups@.len() - i,
    {
        let group = &groups[i];
        let ghost before = all_responses(groups@.take(i as int));
        let mut j: usize = 0;
        assert(group@.take(0) =~= Seq::<EpisodeResponse>::empty());
        assert(before + group@.take(0) =~= before);
        while j < group.len()
            invariant
                i < groups@.len(),
                group == groups@[i as int],
                j <= group@.len(),
                seasons_of(seasons@, before + group@.take(j as int)),
            decreases group@.len() - j,
        {
            let r = &group[j];
            let ghost listed = before + group@.take(j as int);
            let ghost next = before + group@.take(j + 1);
            assert(next =~= listed.push(*r));
            assert(next.drop_last() =~= listed);
            let season_number = r.season_number;
            let mut season = match seasons.remove(&season_number) {
                Some(s) => s,
                None => Season { episodes: Vec::new() },
            };
            proof {
                if !season_numbers(listed).contains(season_number) {
                    lemma_absent_season_is_empty(listed, season_number);
                }
            }
            assert(season.episodes@ == season_episodes(listed, season_number));
            season.episodes.push(episode_of(r));
            seasons.insert(season_number, season);
            assert(seasons@.dom() =~= season_numbers(next));
            j = j + 1;
        }
        assert(group@.take(group@.len() as int) =~= group@);
        assert(groups@.take(i + 1).drop_last() =~= groups@.take(i as int));
        i = i + 1;
    }
    assert(groups@.take(groups@.len() as int) =~= groups@);
    seasons
}

/// Every listed episode lands in the season of its number, and each season
/// holds only episodes listed with its number.
pub proof fn lemma_seasons_hold_their_episodes(listed: Seq<EpisodeResponse>)
    ensures
        forall|i: int|
            0 <= i < listed.len() ==> season_numbers(listed).contains(#[trigger] listed[i].season_number)
                && season_episodes(listed, listed[i].season_number).contains(to_episode(listed[i])),
        forall|k: u32, e: Episode|
            #[trigger] season_episodes(listed, k).contains(e) ==> exists|i: int|
                0 <= i < listed.len() && #[trigger] listed[i].season_number == k && to_episode(listed[i]) == e,
    decreases listed.len(),
{
    if listed.len() > 0 {
        let prefix = listed.drop_last();
        let last = listed.last();
        lemma_seasons_hold_their_episodes(prefix);
        assert forall|i: int|
            0 <= i < listed.len() implies season_numbers(listed).contains(#[trigger] listed[i].season_number)
                && season_episodes(listed, listed[i].season_number).contains(to_episode(listed[i])) by {
            let k = listed[i].season_number;
            if i < listed.len() - 1 {
                assert(prefix[i] == listed[i]);
                let found = season_episodes(prefix, k);
                let j = choose|j: int| 0 <= j < found.len() && found[j] == to_episode(listed[i]);
                if last.season_number == k {
                    assert(season_episodes(listed, k)[j] == found[j]);
                }
            } else {
                let found = season_episodes(listed, k);
                assert(found[found.len() - 1] == to_episode(last));
            }
        }
        assert forall|k: u32, e: Episode|
            #[trigger] season_episodes(listed, k).contains(e) implies exists|i: int|
                0 <= i < listed.len() && #[trigger] listed[i].season_number == k && to_episode(listed[i]) == e by {
            let found = season_episodes(listed, k);
            let j = choose|j: int| 0 <= j < found.len() && found[j] == e;
            if last.season_number == k && j == found.len() - 1 {
                assert(listed[listed.len() - 1].season_number == k);
            } else {
                assert(season_episodes(prefix, k)[j] == e);
                assert(season_episodes(prefix, k).contains(e));
                let i = choose|i: int|
                    0 <= i < prefix.len() && #[trigger] prefix[i].season_number == k && to_episode(prefix[i]) == e;
                assert(listed[i] == prefix[i]);
            }
        }
    }
}

/// Whether episode `e` carries the fields of listed episode `r`: its uuid,
/// title, episode number, container extension, and its length as the
/// listed `duration_secs`.
pub open spec fn carries_fields(e: Episode, r: EpisodeResponse) -> bool {
    &&& e.uuid@ == r.uuid@
    &&& e.title@ == r.title@
    &&& e.episode_number == r.episode_number
    &&& e.container_extension@ == r.container_extension@
    &&& e.seconds == r.duration_secs
}

/// Whether the season of listed episode `i` holds an episode that carries
/// all its fields.
pub open spec fn found_with_fields(listed: Seq<EpisodeResponse>, i: int) -> bool {
    exists|e: Episode|
        #![trigger carries_fields(e, listed[i])]
        season_episodes(listed, listed[i].season_number).contains(e) && carries_fields(e, listed[i])
}

/// Each episode in a season carries all the fields of an episode listed
/// with that season number, its length included, whatever its container;
/// and each listed episode is found, with all its fields, in the season of
/// its number.
pub proof fn lemma_season_episodes_keep_fields(listed: Seq<EpisodeResponse>)
    ensures
        forall|k: u32, e: Episode|
            #![trigger season_episodes(listed, k).contains(e)]
            season_episodes(listed, k).contains(e) ==> exists|i: int|
                #![trigger carries_fields(e, listed[i])]
                0 <= i < listed.len() && listed[i].season_number == k && carries_fields(e, listed[i]),
        forall|i: int| 0 <= i < listed.len() ==> #[trigger] found_with_fields(listed, i),
{
    assert forall|k: u32, e: Episode|
        #![trigger season_episodes(listed, k).contains(e)]
        season_episodes(listed, k).contains(e) implies exists|i: int|
            #![trigger carries_fields(e, listed[i])]
            0 <= i < listed.len() && listed[i].season_number == k && carries_fields(e, listed[i]) by {
        lemma_season_episode_is_listed(listed, k, e);
    }
    assert forall|i: int| 0 <= i < listed.len() implies #[trigger] found_with_fields(listed, i) by {
        lemma_listed_episode_is_found(listed, i);
    }
}

proof fn lemma_season_episode_is_listed(listed: Seq<EpisodeResponse>, k: u32, e: Episode)
    requires
        season_episodes(listed, k).contains(e),
    ensures
        exists|i: int|
            #![trigger carries_fields(e, listed[i])]
            0 <= i < listed.len() && listed[i].season_number == k && carries_fields(e, listed[i]),
{
    lemma_seasons_hold_their_episodes(listed);
    let i = choose|i: int|
        0 <= i < listed.len() && #[trigger] listed[i].season_number == k && to_episode(listed[i]) == e;
    assert(carries_fields(e, listed[i]));
}

proof fn lemma_listed_episode_is_found(listed: Seq<EpisodeResponse>, i: int)
    requires
        0 <= i < listed.len(),
    ensures
        found_with_fields(listed, i),
{
    lemma_seasons_hold_their_episodes(listed);
    let r = listed[i];
    assert(season_episodes(listed, r.season_number).contains(to_episode(r)));
    assert(carries_fields(to_episode(r), listed[i]));
}

/// Why the episodes of a series could not be retrieved.
#[derive(Debug, Clone)]
pub enum RetrieveError {
    FailedToSetupHTTP { error_type: String },
    GETProviderInfoFailed { error_type: String },
    ProviderInfoReturnedErrorStatus { status_code: u16, error_type: String },
    ProviderInfoContainsNoBody,
    FailedToParseJSON { error_type: String },
}

/// The text that describes a retrieval error to the user.
pub open spec fn retrieve_error_text(e: RetrieveError) -> Seq<char> {
    match e {
        RetrieveError::FailedToSetupHTTP { error_type } => "Failed to set up HTTP client with error: "@
            + error_type@ + "."@,
        RetrieveError::GETProviderInfoFailed { error_type } =>
            "Failed to retrieve episodes from Dispatcharr with error: "@ + error_type@ + "."@,
        RetrieveError::ProviderInfoReturnedErrorStatus { status_code, error_type } =>
            "Failed to retrieve episodes from Dispatcharr with error code: "@ + decimal(
            status_code as nat,
        ) + ". Additional context: "@ + error_type@ + "."@,
        RetrieveError::ProviderInfoContainsNoBody =>
            "Failed to retrieve episodes from Dispatcharr, because response does not contain HTTP body."@,
        RetrieveError::FailedToParseJSON { error_type } => "Failed to parse episode response JSON, error: "@
            + error_type@ + "."@,
    }
}

impl RetrieveError {
    /// The text that describes this error to the user.
    pub fn message(&self) -> (text: String)
        ensures
            text@ == retrieve_error_text(*self),
    {
        match self {
            RetrieveError::FailedToSetupHTTP { error_type } => {
                let mut text = owned("Failed to set up HTTP client with error: ");
                text.append(error_type.as_str());
                text.append(".");
                text
            },
            RetrieveError::GETProviderInfoFailed { error_type } => {
                let mut text = owned("Failed to retrieve episodes from Dispatcharr with error: ");
                text.append(error_type.as_str());
                text.append(".");
                text
            },
            RetrieveError::ProviderInfoReturnedErrorStatus { status_code, error_type } => {
                let mut text = owned("Failed to retrieve episodes from Dispatcharr with error code: ");
                push_decimal(&mut text, *status_code as u64);
                text.append(". Additional context: ");
                text.append(error_type.as_str());
                text.append(".");
                text
            },
            RetrieveError::ProviderInfoContainsNoBody => owned(
                "Failed to retrieve episodes from Dispatcharr, because response does not contain HTTP body.",
            ),
            RetrieveError::FailedToParseJSON { error_type } => {
                let mut text = owned("Failed to parse episode response JSON, error: ");
                text.append(error_type.as_str());
                text.append(".");
                text
            },
        }
    }
}

/// The provider-info address of series `series_id` on the instance at
/// `base_url`, asking for the episodes too.
pub open spec fn provider_info_address(base_url: Seq<char>, series_id: u64) -> Seq<char> {
    base_url + "/api/vod/series/"@ + decimal(series_id as nat) + "/provider-info/?include_episodes=true"@
}

/// Builds the provider-info address: see `provider_info_address`.
pub fn provider_info_url(base_url: &str, series_id: u64) -> (url: String)
    ensures
        url@ == provider_info_address(base_url@, series_id),
{
    let mut url = owned(base_url);
    url.append("/api/vod/series/");
    push_decimal(&mut url, series_id);
    url.append("/provider-info/?include_episodes=true");
    url
}

} // verus!
