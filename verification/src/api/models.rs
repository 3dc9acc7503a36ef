//! The service's data: films, humans and stored credentials.
use vstd::prelude::*;
use vstd::string::*;
use crate::text::str_equal;

verus! {

/// A film of the saga.
#[derive(Clone, Copy, Debug, PartialEq, Eq, Structural)]
pub enum Episode {
    NewHope,
    Empire,
    Jedi,
}

/// The name under which an episode is written.
pub open spec fn episode_name(episode: Episode) -> Seq<char> {
    match episode {
        Episode::NewHope => "NewHope"@,
        Episode::Empire => "Empire"@,
        Episode::Jedi => "Jedi"@,
    }
}

/// The episode written as `text`, if any.
pub open spec fn parse_episode(text: Seq<char>) -> Option<Episode> {
    if text == episode_name(Episode::NewHope) {
        Some(Episode::NewHope)
    } else if text == episode_name(Episode::Empire) {
        Some(Episode::Empire)
    } else if text == episode_name(Episode::Jedi) {
        Some(Episode::Jedi)
    } else {
        None
    }
}

/// The first part of the message for a text that names no episode.
pub const INVALID_EPISODE: &'static str = "Received invalid episode: ";

impl Episode {
    /// The episode's name.
    pub fn to_string(&self) -> (name: String)
        ensures
            name@ == episode_name(*self),
    {
        String::from_str(
            match self {
                Episode::NewHope => "NewHope",
                Episode::Empire => "Empire",
                Episode::Jedi => "Jedi",
            },
        )
    }

    /// The episode named `value`; for any other text, an error message that
    /// quotes it.
    pub fn from_string(value: &str) -> (episode: Result<Episode, String>)
        ensures
            match parse_episode(value@) {
                Some(e) => episode == Ok::<Episode, String>(e),
                None => episode matches Err(message) && message@ == INVALID_EPISODE@ + value@,
            },
    {
        if str_equal(value, "NewHope") {
            Ok(Episode::NewHope)
        } else if str_equal(value, "Empire") {
            Ok(Episode::Empire)
        } else if str_equal(value, "Jedi") {
            Ok(Episode::Jedi)
        } else {
            let mut message = String::from_str(INVALID_EPISODE);
            message.append(value);
            Err(message)
        }
    }
}

/// Reading back an episode's name gives the episode.
pub proof fn law_episode_name_round_trip(episode: Episode)
    ensures
        parse_episode(episode_name(episode)) == Some(episode),
{
    reveal_strlit("NewHope");
    reveal_strlit("Empire");
    reveal_strlit("Jedi");
    assert("NewHope"@.len() != "Empire"@.len());
    assert("NewHope"@.len() != "Jedi"@.len());
    assert("Empire"@.len() != "Jedi"@.len());
}

/// A humanoid creature in the Star Wars universe.
#[derive(Clone, Debug, PartialEq, Eq)]
pub struct Human {
    pub id: String,
    pub name: String,
    pub appears_in: Vec<Episode>,
    pub home_planet: String,
}

/// A humanoid creature in the Star Wars universe, before it has an id.
#[derive(Clone, Debug, PartialEq, Eq)]
pub struct NewHuman {
    pub name: String,
    pub appears_in: Vec<Episode>,
    pub home_planet: String,
}

/// Stored credentials (hashed password and user name) for the specified user.
#[derive(Clone, Debug, PartialEq, Eq)]
pub struct Credentials {
    pub username: String,
    pub password: String,
}

} // verus!
