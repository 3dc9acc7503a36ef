//! How a human is laid out in the key-value cache, and how it is read back.
//! Talking to the cache server is the caller's part.
use vstd::prelude::*;
use vstd::string::*;
use crate::api::models::{Episode, Human, episode_name, law_episode_name_round_trip, parse_episode};

verus! {

/// The cache key of one attribute of the human with id `id`.
pub open spec fn cache_key(id: Seq<char>, attribute: Seq<char>) -> Seq<char> {
    id + "-"@ + attribute
}

/// What is written to the cache for one human: each attribute under its
/// key.
pub struct CacheEntries {
    pub name_key: String,
    pub name: String,
    pub home_planet_key: String,
    pub home_planet: String,
    pub appears_in_key: String,
    pub films: Vec<String>,
}

/// The cache key of one attribute of the human with id `id`.
pub fn entry_key(id: &str, attribute: &str) -> (k: String)
    ensures
        k@ == cache_key(id@, attribute@),
{
    let mut k = String::from_str(id);
    k.append("-");
    k.append(attribute);
    k
}

/// What caching `human` writes: its name under `<id>-name`, its home
/// planet under `<id>-home_planet`, and the names of its films, in order,
/// under `<id>-appears_in`.
pub fn cache_human(human: &Human) -> (entries: CacheEntries)
    ensures
        entries.name_key@ == cache_key(human.id@, "name"@),
        entries.name == human.name,
        entries.home_planet_key@ == cache_key(human.id@, "home_planet"@),
        entries.home_planet == human.home_planet,
        entries.appears_in_key@ == cache_key(human.id@, "appears_in"@),
        entries.films@.len() == human.appears_in@.len(),
        forall|i: int|
            0 <= i < human.appears_in@.len() ==> #[trigger] entries.films@[i]@ == episode_name(
                human.appears_in@[i],
            ),
{
    let mut films: Vec<String> = Vec::new();
    let n = human.appears_in.len();
    for i in 0..n
        invariant
            n == human.appears_in@.len(),
            films@.len() == i,
            forall|j: int|
                0 <= j < i ==> #[trigger] films@[j]@ == episode_name(human.appears_in@[j]),
    {
        films.push(human.appears_in[i].to_string());
    }
    CacheEntries {
        name_key: entry_key(human.id.as_str(), "name"),
        name: human.name.clone(),
        home_planet_key: entry_key(human.id.as_str(), "home_planet"),
        home_planet: human.home_planet.clone(),
        appears_in_key: entry_key(human.id.as_str(), "appears_in"),
        films,
    }
}

/// The films of a cached human: the one episode that the cached text names,
/// or none where it names no episode.
pub open spec fn cached_films(films: Seq<char>) -> Seq<Episode> {
    match parse_episode(films) {
        Some(e) => seq![e],
        None => Seq::empty(),
    }
}

/// The human read back from the cache: the id asked for, the cached name
/// and home planet, and the episode that the cached film text names.
pub fn get_human_from_cache(id: String, name: String, home_planet: String, films: &str) -> (human: Human)
    ensures
        human.id == id,
        human.name == name,
        human.home_planet == home_planet,
        human.appears_in@ == cached_films(films@),
{
    let mut appears_in: Vec<Episode> = Vec::new();
    match Episode::from_string(films) {
        Ok(episode) => appears_in.push(episode),
        Err(_) => {},
    }
    proof {
        assert(appears_in@ =~= cached_films(films@));
    }
    Human { id, name, appears_in, home_planet }
}

/// A film cached by its name is read back as that film.
pub proof fn law_cached_film_reads_back(episode: Episode)
    ensures
        cached_films(episode_name(episode)) == seq![episode],
{
    law_episode_name_round_trip(episode);
}
} // verus!
