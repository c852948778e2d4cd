use dbgate::commands::init::{select_database, Database};

#[test]
fn config_template_text() {
    let text = dbgate::config_text::get_config_file_text();
    let expected = "# Edit this configuration file accroding to your needs to run the executable.\n# The configuration file is in YAML format.\n\n\n# Choose the database you want to connect to \ndatabase: \"\" # Current Supported Databases are : Mongodb\nuri: \"\" # Add your database connection string here  \n\nauth_header: \"\" # Add your auth header here if you want to use it. None by default. \n\napi_key: \"\" # Add your api key here \n";
    assert_eq!(text, expected);
}

#[test]
fn init_template_text() {
    let text = dbgate::commands::config_text::get_config_file_text();
    let expected = "# Edit this configuration file accroding to your needs to run the executable.\n# The configuration file is in YAML format.\n\n\n# Choose the database you want to connect to \ndatabase: \"\" # Current Supported Databases are : Mongodb\nuri: \"\" # Add your database connection string here \n\nauth_header: \"\" # Add your auth header here if you want to use it. None by default. \n\napi_key: \"\" # Add your api key here \n";
    assert_eq!(text, expected);
}

#[test]
fn select_database_recognises_the_three_backends() {
    match select_database("Mongodb", String::from("mongodb://localhost")) {
        Some(Database::Mongodb { uri }) => assert_eq!(uri, "mongodb://localhost"),
        other => panic!("unexpected selection: {:?}", other),
    }
    match select_database("Postgres", String::from("postgres://localhost")) {
        Some(Database::Postgres { uri }) => assert_eq!(uri, "postgres://localhost"),
        other => panic!("unexpected selection: {:?}", other),
    }
    match select_database("MySQL", String::from("mysql://localhost")) {
        Some(Database::MySQL { uri }) => assert_eq!(uri, "mysql://localhost"),
        other => panic!("unexpected selection: {:?}", other),
    }
}

#[test]
fn select_database_refuses_unknown_names() {
    assert!(select_database("mongodb", String::from("x")).is_none());
    assert!(select_database("", String::from("x")).is_none());
    assert!(select_database("SQLite", String::from("x")).is_none());
}
