use by_the_peoples::database::{Configuration, Error, BUILD_FAILURE, POOL_SIZE, TIME_OUT};

#[test]
fn credentials_are_built_correctly() {
    let user = "postgres";
    let host = "localhost";
    let port = "8989";
    let password = "secret";
    let database = "auth";
    let config = Configuration {
        user,
        host,
        port,
        password,
        database,
    };
    let built = config.build().unwrap();
    assert_eq!(
        built,
        format!(
            "dbname={} host={} password='{}' user={} port={} connect_timeout={}",
            database, host, password, user, port, TIME_OUT
        )
        .parse::<tokio_postgres::Config>()
        .unwrap()
    )
}

#[test]
fn the_connection_text_lists_every_setting() {
    let config = Configuration {
        user: "postgres",
        host: "localhost",
        port: "5432",
        password: "secret",
        database: "auth",
    };
    assert_eq!(
        config.connection_string(),
        "dbname=auth host=localhost password='secret' user=postgres port=5432 connect_timeout=10"
    );
    assert_eq!(POOL_SIZE, 15);
}

#[test]
fn a_configuration_the_driver_refuses_is_an_error() {
    let config = Configuration {
        user: "postgres",
        host: "localhost",
        port: "not a port",
        password: "secret",
        database: "auth",
    };
    match config.build() {
        Err(Error::Error(message)) => assert_eq!(message, BUILD_FAILURE),
        Ok(_) => panic!("the driver accepted an invalid port"),
    }
}

#[test]
fn database_errors_carry_their_message() {
    let error = Error::from_message("Failed to connect");
    assert_eq!(error.to_string(), "Failed to connect");
}
