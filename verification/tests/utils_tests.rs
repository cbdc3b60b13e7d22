use movie_bot::movie::Movie;
use movie_bot::utils::{create_movie_card, help_card, imdburl, is_imdbid, split_string};

fn words(v: &[&str]) -> Vec<String> {
    v.iter().map(|s| s.to_string()).collect()
}

#[test]
fn split_string_splits_on_white_space() {
    assert_eq!(split_string("!add_movie list Alien".to_string()), words(&["!add_movie", "list", "Alien"]));
    assert_eq!(split_string("  a \t b\n".to_string()), words(&["a", "b"]));
    assert_eq!(split_string("".to_string()), Vec::<String>::new());
    assert_eq!(split_string("   ".to_string()), Vec::<String>::new());
}

#[test]
fn split_string_keeps_quoted_phrases_whole() {
    assert_eq!(
        split_string("!add_movie films \"The Godfather\" 1972".to_string()),
        words(&["!add_movie", "films", "The Godfather", "1972"])
    );
    assert_eq!(split_string("\"a b\"c".to_string()), words(&["a b", "c"]));
    assert_eq!(split_string("x\"a b\"".to_string()), words(&["x\"a", "b\""]));
}

#[test]
fn split_string_edge_cases_of_quotes() {
    // An empty pair of quotes is no quoted phrase: it is part of a plain word.
    assert_eq!(split_string("\"\" x".to_string()), words(&["\"\"", "x"]));
    // A quote that is never closed starts a plain word.
    assert_eq!(split_string("\"open ended".to_string()), words(&["\"open", "ended"]));
    // Quoted phrases may hold any white space.
    assert_eq!(split_string("\"a\tb\nc\"".to_string()), words(&["a\tb\nc"]));
    assert_eq!(split_string("\u{3000}x\u{a0}y".to_string()), words(&["x", "y"]));
}

#[test]
fn split_string_round_trips_quoted_words() {
    let ws = words(&["list", "The Godfather Part II", "x", "a  b"]);
    let line = ws.iter().map(|w| format!("\"{}\"", w)).collect::<Vec<_>>().join(" ");
    assert_eq!(split_string(line), ws);
}

#[test]
fn split_string_round_trips_plain_words() {
    let ws = words(&["!watch", "films", "Alien", "1979"]);
    assert_eq!(split_string(ws.join(" ")), ws);
}

#[test]
fn is_imdbid_finds_ids() {
    assert!(is_imdbid(&"tt0068646".to_string()));
    assert!(is_imdbid(&"see tt1234567 here".to_string()));
    assert!(!is_imdbid(&"tt123456".to_string()));
    assert!(!is_imdbid(&"The Godfather".to_string()));
    assert!(!is_imdbid(&"".to_string()));
}

#[test]
fn imdburl_prefixes_the_title_address() {
    assert_eq!(imdburl(&"tt0068646".to_string()), "https://www.imdb.com/title/tt0068646");
    assert_eq!(imdburl(&"".to_string()), "https://www.imdb.com/title/");
}

#[test]
fn movie_card_lists_the_fields() {
    let m = Movie::new(
        "Alien".to_string(),
        "ann".to_string(),
        Some("Ridley Scott".to_string()),
        Some("Sigourney Weaver".to_string()),
        Some("English".to_string()),
        None,
        Some("89".to_string()),
        Some("8.5".to_string()),
        Some("tt0078748".to_string()),
        Some(1979),
    );
    assert_eq!(
        create_movie_card(&m),
        "**Alien**\nYear: 1979\nDirector: Ridley Scott\nActors: Sigourney Weaver\nLanguage: English\nCountry: NULL\nMetascore: 89\nIMDB Rating: 8.5\nhttps://www.imdb.com/title/tt0078748\n"
    );
}

#[test]
fn help_card_lists_the_commands() {
    let card = help_card();
    assert!(card.starts_with("Get started by creating a list with `!create_list {list_name}`"));
    assert!(card.contains("Remember to use quotes when typing titles with multiple words.\n\n**Commands:**\n`!search {movie_name}` - Search for movie\n"));
    assert!(card.ends_with("`!delete_list {list_name}` - Delete a list\n`!help` - Show this message\n"));
    assert_eq!(card.lines().count(), 14);
}
