use movie_bot::commands::{guild_needed, ids_fit_u32, is_number_word, is_yes, resume, start, Command, Effect, Feedback, Mark, Session};
use movie_bot::movie::Movie;
use movie_bot::utils::split_string;

fn s(x: &str) -> String {
    x.to_string()
}

fn args(line: &str) -> Vec<String> {
    split_string(s(line))
}

fn reply_text(e: &Effect) -> Option<String> {
    match e {
        Effect::Reply(t) => Some(t.clone()),
        _ => None,
    }
}

fn movie(title: &str) -> Movie {
    Movie::new(s(title), s("ann"), None, None, None, None, None, None, None, Some(1979))
}

const GUILD: Option<u64> = Some(42);

#[test]
fn wrong_arity_is_invalid_arguments() {
    for (cmd, line) in [
        (Command::CreateList, "!create_list"),
        (Command::ShowList, "!show_list a b"),
        (Command::AddMovie, "!add_movie films"),
        (Command::Search, "!search"),
        (Command::Watch, "!watch films"),
        (Command::Unwatch, "!unwatch a b c"),
        (Command::Remove, "!rm"),
        (Command::DeleteList, "!delete_list"),
    ] {
        let (session, effect) = start(cmd, args(line), None, s("ann"));
        assert!(matches!(session, Session::Finished));
        assert_eq!(reply_text(&effect), Some(s("Invalid arguments")), "{}", line);
    }
}

#[test]
fn create_list_flow() {
    let (session, effect) = start(Command::CreateList, args("!create_list films"), GUILD, s("ann"));
    match &effect {
        Effect::CreateTable { table } => assert_eq!(table, "42_films"),
        _ => panic!("expected a table to be created"),
    }
    let (session, effect) = resume(session, Feedback::Done);
    assert!(matches!(session, Session::Finished));
    assert_eq!(reply_text(&effect), Some(s("Created list films")));
}

#[test]
fn show_list_flow() {
    let (session, effect) = start(Command::ShowList, args("!ls films"), GUILD, s("ann"));
    assert!(matches!(&effect, Effect::CheckTable { table } if table == "42_films"));
    let (_, missing) = resume(session, Feedback::Exists(false));
    assert_eq!(reply_text(&missing), Some(s("List films does not exist")));

    let (session, _) = start(Command::ShowList, args("!ls films"), GUILD, s("ann"));
    let (session, effect) = resume(session, Feedback::Exists(true));
    assert!(matches!(&effect, Effect::LoadMovies { table } if table == "42_films"));
    let (_, none) = resume(session, Feedback::Movies(None));
    assert_eq!(reply_text(&none), Some(s("No movies in list")));

    let (session, _) = start(Command::ShowList, args("!ls films"), GUILD, s("ann"));
    let (session, _) = resume(session, Feedback::Exists(true));
    let (session, effect) = resume(session, Feedback::Movies(Some(vec![movie("Alien")])));
    assert!(matches!(session, Session::Finished));
    match effect {
        Effect::ShowMovies { list, movies } => {
            assert_eq!(list, "films");
            assert_eq!(movies.len(), 1);
        },
        _ => panic!("expected the list to be shown"),
    }
}

#[test]
fn add_movie_flow() {
    let (_, bad) = start(Command::AddMovie, args("!add films Alien 19x9"), None, s("ann"));
    assert_eq!(reply_text(&bad), Some(s("Invalid year")));

    let (session, effect) = start(Command::AddMovie, args("!add films \"The Thing\" 1982"), GUILD, s("ann"));
    assert!(matches!(&effect, Effect::CheckTable { table } if table == "42_films"));
    let (session, effect) = resume(session, Feedback::Exists(true));
    match &effect {
        Effect::FetchMovie { title, adder, year } => {
            assert_eq!(title, "The Thing");
            assert_eq!(adder, "ann");
            assert_eq!(*year, Some(1982));
        },
        _ => panic!("expected a fetch"),
    }
    let (session, effect) = resume(session, Feedback::Fetched(Some(movie("The Thing (1982)"))));
    assert!(matches!(&effect, Effect::StoreMovie { table, movie } if table == "42_films" && movie.title == "The Thing (1982)"));
    let (session, effect) = resume(session, Feedback::Done);
    assert!(matches!(session, Session::Finished));
    assert_eq!(reply_text(&effect), Some(s("Added movie The Thing (1982) to list films")));
}

#[test]
fn add_movie_without_year_and_failures() {
    let (session, _) = start(Command::AddMovie, args("!add films Alien"), GUILD, s("ann"));
    let (session, effect) = resume(session, Feedback::Exists(true));
    assert!(matches!(&effect, Effect::FetchMovie { year: None, .. }));
    let (_, effect) = resume(session, Feedback::Fetched(None));
    assert_eq!(reply_text(&effect), Some(s("Movie Alien not found")));

    let (session, _) = start(Command::AddMovie, args("!add films Alien"), GUILD, s("ann"));
    let (_, effect) = resume(session, Feedback::Exists(false));
    assert_eq!(reply_text(&effect), Some(s("List films does not exist")));
}

#[test]
fn search_flow() {
    let (_, bad) = start(Command::Search, args("!search Alien soon"), None, s("ann"));
    assert_eq!(reply_text(&bad), Some(s("Invalid year")));
    let (session, effect) = start(Command::Search, args("!movie Alien 1979"), None, s("ann"));
    assert!(matches!(&effect, Effect::FetchMovie { title, adder, year: Some(1979) } if title == "Alien" && adder == "None"));
    let (session, effect) = resume(session, Feedback::Fetched(Some(movie("Alien"))));
    assert!(matches!(session, Session::Finished));
    match effect {
        Effect::Say(card) => assert!(card.starts_with("**Alien**\nYear: 1979\n")),
        _ => panic!("expected a card"),
    }
    let (session, _) = start(Command::Search, args("!movie Alien"), None, s("ann"));
    let (_, effect) = resume(session, Feedback::Fetched(None));
    assert_eq!(reply_text(&effect), Some(s("Movie Alien not found")));
}

#[test]
fn watch_by_title_flow() {
    let (session, effect) = start(Command::Watch, args("!w films Alien"), GUILD, s("ann"));
    assert!(matches!(&effect, Effect::LoadMovie { table, title } if table == "42_films" && title == "Alien"));
    let (session, effect) = resume(session, Feedback::Loaded(movie("Alien")));
    assert!(matches!(&effect, Effect::SaveWatched { movie, .. } if movie.watched));
    let (_, effect) = resume(session, Feedback::Changed(true));
    assert_eq!(reply_text(&effect), Some(s("Watched movie Alien from list films")));
}

#[test]
fn unwatch_reports_like_watch() {
    let (session, _) = start(Command::Unwatch, args("!uw films Alien"), GUILD, s("ann"));
    let mut seen = movie("Alien");
    seen.watched = true;
    let (session, effect) = resume(session, Feedback::Loaded(seen));
    assert!(matches!(&effect, Effect::SaveWatched { movie, .. } if !movie.watched));
    let (_, effect) = resume(session, Feedback::Changed(true));
    assert_eq!(reply_text(&effect), Some(s("Watched movie Alien from list films")));
    let (session, _) = start(Command::Unwatch, args("!uw films Alien"), GUILD, s("ann"));
    let (session, _) = resume(session, Feedback::Loaded(movie("Alien")));
    let (_, effect) = resume(session, Feedback::Changed(false));
    assert_eq!(reply_text(&effect), Some(s("Movie Alien not found in list films")));
}

#[test]
fn movie_ids_are_looked_up() {
    let (session, effect) = start(Command::Remove, args("!rm films 12"), GUILD, s("ann"));
    assert!(matches!(&effect, Effect::LookupId { table, id: 12 } if table == "42_films"));
    assert!(matches!(&session, Session::Resolving { mark: Mark::Removed, .. }));
    let (session, effect) = resume(session, Feedback::Title(Some(s("Alien"))));
    assert!(matches!(&effect, Effect::DeleteMovie { table, title } if table == "42_films" && title == "Alien"));
    let (_, effect) = resume(session, Feedback::Changed(true));
    assert_eq!(reply_text(&effect), Some(s("Removed movie Alien from list films")));

    let (session, _) = start(Command::Watch, args("!w films 7"), GUILD, s("ann"));
    let (_, effect) = resume(session, Feedback::Title(None));
    assert_eq!(reply_text(&effect), Some(s("Invalid movie id")));
}

#[test]
fn remove_of_a_missing_movie() {
    let (session, _) = start(Command::Remove, args("!rm films Up"), GUILD, s("ann"));
    let (_, effect) = resume(session, Feedback::Changed(false));
    assert_eq!(reply_text(&effect), Some(s("Movie Up not found in list films")));
}

#[test]
fn delete_list_flow() {
    let (session, effect) = start(Command::DeleteList, args("!delete_list films"), GUILD, s("ann"));
    assert!(matches!(&effect, Effect::CheckTable { table } if table == "42_films"));
    let (_, effect) = resume(session, Feedback::Exists(false));
    assert_eq!(reply_text(&effect), Some(s("List films doesn't exist to begin with")));

    let (session, _) = start(Command::DeleteList, args("!delete_list films"), GUILD, s("ann"));
    let (session, effect) = resume(session, Feedback::Exists(true));
    assert!(matches!(&effect, Effect::Confirm { question } if question == "Are you absolutely sure you want to delete list films? (yes/no)"));
    let (session, effect) = resume(session, Feedback::Answer(Some(s("YeS"))));
    assert!(matches!(&effect, Effect::DropTable { table } if table == "42_films"));
    let (session, effect) = resume(session, Feedback::Done);
    assert!(matches!(&effect, Effect::CheckTable { table } if table == "42_films"));
    let (_, effect) = resume(session, Feedback::Exists(false));
    assert_eq!(reply_text(&effect), Some(s("Deleted list films")));
}

#[test]
fn delete_list_refused_or_unanswered() {
    let (session, _) = start(Command::DeleteList, args("!delete_list films"), GUILD, s("ann"));
    let (session, _) = resume(session, Feedback::Exists(true));
    let (session, effect) = resume(session, Feedback::Answer(Some(s("no"))));
    assert!(matches!(session, Session::Finished));
    assert_eq!(reply_text(&effect), Some(s("Aborting")));

    let (session, _) = start(Command::DeleteList, args("!delete_list films"), GUILD, s("ann"));
    let (session, _) = resume(session, Feedback::Exists(true));
    let (session, effect) = resume(session, Feedback::Answer(None));
    assert!(matches!(&effect, Effect::DropTable { .. }));
    let (session, _) = resume(session, Feedback::Done);
    let (_, effect) = resume(session, Feedback::Exists(true));
    assert_eq!(reply_text(&effect), Some(s("List films not found")));
}

#[test]
fn unexpected_feedback_stops() {
    let (session, _) = start(Command::CreateList, args("!create_list films"), GUILD, s("ann"));
    let (session, effect) = resume(session, Feedback::Exists(true));
    assert!(matches!(session, Session::Finished));
    assert!(matches!(effect, Effect::Stop));
    let (_, effect) = resume(Session::Finished, Feedback::Done);
    assert!(matches!(effect, Effect::Stop));
}

#[test]
fn preconditions_of_start() {
    assert!(guild_needed(Command::AddMovie, &args("!add films Alien")));
    assert!(!guild_needed(Command::AddMovie, &args("!add films Alien 19x9")));
    assert!(guild_needed(Command::AddMovie, &args("!add films Alien 1979")));
    assert!(!guild_needed(Command::Search, &args("!search Alien")));
    assert!(!guild_needed(Command::CreateList, &args("!create_list")));
    assert!(ids_fit_u32(Command::Watch, &args("!w films 4294967295")));
    assert!(!ids_fit_u32(Command::Watch, &args("!w films 4294967296")));
    assert!(ids_fit_u32(Command::Search, &args("!search 99999999999")));
    assert!(is_number_word(&s("0123")));
    assert!(!is_number_word(&s("")));
    assert!(!is_number_word(&s("+1")));
    assert!(is_yes(&s("yes")));
    assert!(!is_yes(&s("Yes")));
}
