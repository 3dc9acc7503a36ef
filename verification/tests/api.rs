use by_the_peoples::api::routes::hello_world;
use by_the_peoples::api::cache::{cache_human, get_human_from_cache};
use by_the_peoples::api::connection::{graphql, uri};
use by_the_peoples::api::graph_ql::{Auth, Mutation, Query};
use by_the_peoples::api::models::{Episode, Human, NewHuman};
use by_the_peoples::api_server;

#[test]
fn episodes_are_written_by_name() {
    assert_eq!(Episode::NewHope.to_string(), "NewHope");
    assert_eq!(Episode::Empire.to_string(), "Empire");
    assert_eq!(Episode::Jedi.to_string(), "Jedi");
}

#[test]
fn episode_names_read_back() {
    for episode in [Episode::NewHope, Episode::Empire, Episode::Jedi] {
        assert_eq!(Episode::from_string(&episode.to_string()), Ok(episode));
    }
}

#[test]
fn unknown_episodes_are_refused_with_the_text() {
    assert_eq!(
        Episode::from_string("Phantom"),
        Err(String::from("Received invalid episode: Phantom"))
    );
    assert_eq!(
        Episode::from_string("jedi"),
        Err(String::from("Received invalid episode: jedi"))
    );
}

#[test]
fn the_service_listens_where_the_variables_say() {
    assert_eq!(uri(None, None), "0.0.0.0:3000");
    assert_eq!(uri(Some(String::from("10.0.0.1")), Some(String::from("80"))), "10.0.0.1:80");
    assert_eq!(graphql(None, Some(String::from("8000"))), "http://0.0.0.0:8000/graphql");
}

#[test]
fn the_first_server_listens_on_port_80_by_default() {
    assert_eq!(api_server::uri(None, None), "0.0.0.0:80");
    assert_eq!(api_server::uri(Some(String::from("127.0.0.1")), None), "127.0.0.1:80");
}

fn luke() -> Human {
    Human {
        id: String::from("1000"),
        name: String::from("Luke"),
        appears_in: vec![Episode::NewHope, Episode::Jedi],
        home_planet: String::from("Tatooine"),
    }
}

#[test]
fn a_human_is_cached_under_its_id() {
    let entries = cache_human(&luke());
    assert_eq!(entries.name_key, "1000-name");
    assert_eq!(entries.name, "Luke");
    assert_eq!(entries.home_planet_key, "1000-home_planet");
    assert_eq!(entries.home_planet, "Tatooine");
    assert_eq!(entries.appears_in_key, "1000-appears_in");
    assert_eq!(entries.films, vec![String::from("NewHope"), String::from("Jedi")]);
}

#[test]
fn a_cached_human_is_read_back_with_the_named_film() {
    let human = get_human_from_cache(
        String::from("1000"),
        String::from("Luke"),
        String::from("Tatooine"),
        "Empire",
    );
    assert_eq!(human.id, "1000");
    assert_eq!(human.appears_in, vec![Episode::Empire]);
    let unknown = get_human_from_cache(String::from("1"), String::from("x"), String::from("y"), "NewHopeJedi");
    assert!(unknown.appears_in.is_empty());
}

#[test]
fn created_humans_get_the_fixed_id() {
    let new_human = NewHuman {
        name: String::from("Leia"),
        appears_in: vec![Episode::Empire],
        home_planet: String::from("Alderaan"),
    };
    let human = Mutation.create_human(&new_human);
    assert_eq!(human.id, "1234");
    assert_eq!(human.name, "Leia");
    assert_eq!(human.appears_in, vec![Episode::Empire]);
    assert_eq!(human.home_planet, "Alderaan");
    let created = api_server::Mutation.createHuman(new_human);
    assert_eq!(created.id, "1234");
    assert_eq!(created.name, "Leia");
}

#[test]
fn the_fixed_queries_answer_their_records() {
    let credentials = Query.credentials().get_credentials("anyone");
    assert_eq!(credentials.username, "testing");
    assert_eq!(credentials.password, "hashedPassword");
    let _ = Auth;
    let human = api_server::Query.human("42");
    assert_eq!(human.id, "1234");
    assert_eq!(human.name, "Luke");
    assert_eq!(human.appears_in, vec![Episode::NewHope]);
    assert_eq!(human.home_planet, "Mars");
}

#[test]
fn hello_world_counts_visitors() {
    let mut counter: i32 = 0;
    assert_eq!(hello_world("by the peoples", &mut counter), "Welcome to by the peoples! you're visitor #1");
    assert_eq!(counter, 1);
    assert_eq!(hello_world("by the peoples", &mut counter), "Welcome to by the peoples! you're visitor #2");
    let mut below: i32 = -13;
    assert_eq!(hello_world("app", &mut below), "Welcome to app! you're visitor #-12");
    let mut many: i32 = 2_147_483_646;
    assert_eq!(hello_world("app", &mut many), "Welcome to app! you're visitor #2147483647");
}
