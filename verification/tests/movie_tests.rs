use movie_bot::movie::{Movie, MovieList};

fn movie(title: &str) -> Movie {
    Movie::new(title.to_string(), "bob".to_string(), None, None, None, None, None, None, None, None)
}

#[test]
fn new_fills_missing_fields() {
    let m = movie("Heat");
    assert_eq!(m.title, "Heat");
    assert_eq!(m.adder, "bob");
    for f in [&m.director, &m.actors, &m.language, &m.country, &m.metascore, &m.imdbrating, &m.imdbid] {
        assert_eq!(f, "NULL");
    }
    assert_eq!(m.year, 0);
    assert!(!m.watched);
    let full = Movie::new(
        "Heat".to_string(),
        "bob".to_string(),
        Some("Michael Mann".to_string()),
        Some("Al Pacino".to_string()),
        Some("English".to_string()),
        Some("USA".to_string()),
        Some("76".to_string()),
        Some("8.3".to_string()),
        Some("tt0113277".to_string()),
        Some(1995),
    );
    assert_eq!(full.director, "Michael Mann");
    assert_eq!(full.country, "USA");
    assert_eq!(full.imdbid, "tt0113277");
    assert_eq!(full.year, 1995);
    assert!(!full.watched);
}

#[test]
fn movies_are_equal_by_title() {
    let a = movie("Heat");
    let mut b = movie("Heat");
    b.year = 1995;
    b.watched = true;
    assert!(a == b);
    assert!(a != movie("Alien"));
}

#[test]
fn list_add_then_get() {
    let mut l = MovieList::new("films".to_string(), "ann".to_string());
    assert_eq!(l.title(), "films");
    assert_eq!(l.creator(), "ann");
    assert!(l.get_movie("Heat".to_string()).is_none());
    l.add_movie(movie("Heat"));
    l.add_movie(movie("Alien"));
    assert_eq!(l.get_movie("Heat".to_string()).unwrap().title, "Heat");
    assert_eq!(l.get_movie("Alien".to_string()).unwrap().title, "Alien");
    assert!(l.get_movie("Up".to_string()).is_none());
    assert_eq!(l.movies().len(), 2);
}

#[test]
fn list_get_finds_the_first_of_a_title() {
    let mut l = MovieList::new("films".to_string(), "ann".to_string());
    let mut first = movie("Heat");
    first.year = 1995;
    l.add_movie(first);
    l.add_movie(movie("Heat"));
    assert_eq!(l.get_movie("Heat".to_string()).unwrap().year, 1995);
}

#[test]
fn list_remove_undoes_add() {
    let mut l = MovieList::new("films".to_string(), "ann".to_string());
    l.add_movie(movie("Alien"));
    l.add_movie(movie("Heat"));
    l.remove_movie(movie("Heat"));
    let titles: Vec<&String> = l.movies().iter().map(|m| &m.title).collect();
    assert_eq!(titles, vec!["Alien"]);
    assert!(l.get_movie("Heat".to_string()).is_none());
}

#[test]
fn list_remove_takes_the_first_of_a_title() {
    let mut l = MovieList::new("films".to_string(), "ann".to_string());
    let mut first = movie("Heat");
    first.year = 1995;
    l.add_movie(movie("Alien"));
    l.add_movie(first);
    l.add_movie(movie("Heat"));
    l.remove_movie(movie("Heat"));
    assert_eq!(l.movies().len(), 2);
    assert_eq!(l.get_movie("Heat".to_string()).unwrap().year, 0);
    assert_eq!(l.movies()[0].title, "Alien");
}
