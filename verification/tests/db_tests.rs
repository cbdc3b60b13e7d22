use movie_bot::db::{add_movie_query, changed_any, create_database_query, create_list_query, delete_list_query, delete_movie_query, get_movie_by_name_query, get_movies_query, get_movies_short_query, list_table_name, show_tables_query, table_listed, watch_movie_query};
use movie_bot::movie::Movie;

fn s(x: &str) -> String {
    x.to_string()
}

#[test]
fn table_names_join_guild_and_list() {
    assert_eq!(list_table_name(81384788765712384, &s("films")), "81384788765712384_films");
    assert_eq!(list_table_name(0, &s("")), "0_");
}

#[test]
fn simple_statements() {
    assert_eq!(create_database_query(&s("movies")), "CREATE DATABASE IF NOT EXISTS movies");
    assert_eq!(delete_list_query(&s("1_films")), "DROP TABLE 1_films");
    assert_eq!(delete_movie_query(&s("1_films"), &s("Alien")), "DELETE FROM 1_films WHERE title = \"Alien\"");
    assert_eq!(get_movie_by_name_query(&s("1_films"), &s("Alien")), "SELECT * FROM 1_films WHERE title = \"Alien\"");
    assert_eq!(get_movies_query(&s("1_films")), "SELECT * FROM 1_films");
    assert_eq!(get_movies_short_query(&s("1_films")), "SELECT title, adder, year, imdbid, watched FROM 1_films");
    assert_eq!(show_tables_query(), "SHOW TABLES");
}

#[test]
fn create_list_statement() {
    let q = create_list_query(&s("1_films"));
    assert!(q.starts_with("\nCREATE TABLE IF NOT EXISTS 1_films (id INT NOT NULL AUTO_INCREMENT, title VARCHAR(255) NOT NULL,\nadder"));
    assert!(q.ends_with("genre VARCHAR(255) NOT NULL, watched BOOLEAN NOT NULL, PRIMARY KEY (id))"));
}

#[test]
fn insert_and_update_statements() {
    let mut m = Movie::new(s("Alien"), s("ann"), Some(s("Ridley Scott")), None, None, None, None, None, None, Some(1979));
    assert_eq!(
        add_movie_query(&s("1_films"), &m),
        "INSERT INTO 1_films (title, adder, director, actors, language, country, metascore, imdbrating, imdbid, year, runtime, genre, watched)\nVALUES (\"Alien\",\"ann\",\"Ridley Scott\",\"NULL\",\"NULL\",\"NULL\",\"NULL\",\"NULL\",\"NULL\", 1979, 0, \"NULL\", false)"
    );
    assert_eq!(watch_movie_query(&s("1_films"), &m), "UPDATE 1_films SET watched = \"0\" WHERE title = \"Alien\"");
    m.watched = true;
    assert_eq!(watch_movie_query(&s("1_films"), &m), "UPDATE 1_films SET watched = \"1\" WHERE title = \"Alien\"");
    assert!(add_movie_query(&s("t"), &m).ends_with(", 1979, 0, \"NULL\", true)"));
}

#[test]
fn rows_and_tables() {
    assert!(!changed_any(0));
    assert!(changed_any(3));
    let tables = vec![s("1_films"), s("1_series")];
    assert!(table_listed(&tables, &s("1_series")));
    assert!(!table_listed(&tables, &s("2_films")));
    assert!(!table_listed(&vec![], &s("x")));
}
