use movie_bot::http::{id_url, movie_from_omdb_body, movie_from_reply, movie_request_url, title_url, OmdbError, OmdbReply};

fn s(x: &str) -> String {
    x.to_string()
}

#[test]
fn request_urls() {
    assert_eq!(title_url(&s("Alien"), Some(1979), &s("KEY")), "http://www.omdbapi.com/?t=Alien&y=1979&apikey=KEY");
    assert_eq!(title_url(&s("Alien"), None, &s("KEY")), "http://www.omdbapi.com/?t=Alien&apikey=KEY");
    assert_eq!(id_url(&s("tt0078748"), &s("KEY")), "http://www.omdbapi.com/?i=tt0078748&apikey=KEY");
}

#[test]
fn request_url_goes_by_id_for_imdb_ids() {
    assert_eq!(movie_request_url(&s("tt0078748"), Some(1979), &s("K")), "http://www.omdbapi.com/?i=tt0078748&apikey=K");
    assert_eq!(movie_request_url(&s("The Thing"), Some(1982), &s("K")), "http://www.omdbapi.com/?t=The Thing&y=1982&apikey=K");
}

const GODFATHER: &str = r#"{"Title":"The Godfather","Year":"1972","Rated":"R","Director":"Francis Ford Coppola","Actors":"Marlon Brando, Al Pacino, James Caan","Language":"English, Italian, Latin","Country":"United States","Metascore":"100","imdbRating":"9.2","imdbID":"tt0068646","Response":"True"}"#;

#[test]
fn body_describes_a_movie() {
    let m = movie_from_omdb_body(GODFATHER, &s("ann")).ok().unwrap();
    assert_eq!(m.title, "The Godfather");
    assert_eq!(m.adder, "ann");
    assert_eq!(m.director, "Francis Ford Coppola");
    assert_eq!(m.actors, "Marlon Brando, Al Pacino, James Caan");
    assert_eq!(m.language, "English, Italian, Latin");
    assert_eq!(m.country, "United States");
    assert_eq!(m.metascore, "100");
    assert_eq!(m.imdbrating, "9.2");
    assert_eq!(m.imdbid, "tt0068646");
    assert_eq!(m.year, 1972);
    assert!(!m.watched);
}

#[test]
fn body_members_keep_their_json_text_without_quotes() {
    let body = r#"{"Response":"True","Year":"2001","Title":"Say \"Hi\"","Director":null,"Metascore":7,"imdbRating":"N/A"}"#;
    let m = movie_from_omdb_body(body, &s("bob")).ok().unwrap();
    assert_eq!(m.title, "Say \\Hi\\");
    assert_eq!(m.director, "null");
    assert_eq!(m.actors, "null");
    assert_eq!(m.metascore, "7");
    assert_eq!(m.imdbrating, "N/A");
    assert_eq!(m.year, 2001);
}

#[test]
fn body_that_says_false_is_not_found() {
    let body = r#"{"Response":"False","Error":"Movie not found!"}"#;
    assert_eq!(movie_from_omdb_body(body, &s("bob")).err(), Some(OmdbError::NotFound));
}

#[test]
fn body_that_is_no_json_is_refused() {
    assert_eq!(movie_from_omdb_body("<html>", &s("bob")).err(), Some(OmdbError::InvalidJson));
    assert_eq!(movie_from_omdb_body("", &s("bob")).err(), Some(OmdbError::InvalidJson));
}

#[test]
fn body_with_a_bad_year_is_refused() {
    let body = r#"{"Response":"True","Title":"Show","Year":"2019–"}"#;
    assert_eq!(movie_from_omdb_body(body, &s("bob")).err(), Some(OmdbError::InvalidYear));
    let missing = r#"{"Response":"True","Title":"Show"}"#;
    assert_eq!(movie_from_omdb_body(missing, &s("bob")).err(), Some(OmdbError::InvalidYear));
}

#[test]
fn reply_fields_become_a_movie() {
    let reply = OmdbReply {
        response: s("\"True\""),
        year: s("\"1979\""),
        title: s("\"Alien\""),
        director: s("\"Ridley Scott\""),
        actors: s("\"Sigourney Weaver\""),
        language: s("\"English\""),
        country: s("\"UK\""),
        metascore: s("\"89\""),
        imdb_rating: s("\"8.5\""),
        imdb_id: s("\"tt0078748\""),
    };
    let m = movie_from_reply(&reply, &s("ann")).ok().unwrap();
    assert_eq!(m.title, "Alien");
    assert_eq!(m.country, "UK");
    assert_eq!(m.year, 1979);
    let mut gone = reply;
    gone.response = s("\"False\"");
    assert_eq!(movie_from_reply(&gone, &s("ann")).err(), Some(OmdbError::NotFound));
}
