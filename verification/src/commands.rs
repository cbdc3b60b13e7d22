//! The chat commands of the bot, as state machines: each command starts
//! from its argument words, then asks for outside work (the database, the
//! movie service, the chat) one effect at a time, and decides from each
//! outcome what to do next.

use vstd::prelude::*;
use vstd::string::StringExecFns;
use crate::db::{list_table_name, table_name};
use crate::movie::Movie;
use crate::text::{all_ascii_digits, parse_u32, parse_u32_spec};
use crate::utils::{create_movie_card, movie_card, string_views};

verus! {

/// The commands that work on movie lists or movies.
#[derive(PartialEq, Eq, Structural, Clone, Copy, Debug)]
pub enum Command {
    CreateList,
    ShowList,
    AddMovie,
    Search,
    Watch,
    Unwatch,
    Remove,
    DeleteList,
}

/// What a command does to the movie that its argument names.
#[derive(PartialEq, Eq, Structural, Clone, Copy, Debug)]
pub enum Mark {
    Watched,
    Unwatched,
    Removed,
}

/// Where a command stands, and what it waits for.
pub enum Session {
    /// Nothing more to do.
    Finished,
    /// Waits for the table of `list` to be created.
    Creating { list: String },
    /// Waits to learn whether `table` exists, to show `list`.
    Showing { list: String, table: String },
    /// Waits for the movies of `list`.
    Listing { list: String },
    /// Waits to learn whether `table` exists, to add `title` to `list`.
    Adding { list: String, table: String, title: String, adder: String, year: Option<u32> },
    /// Waits for the movie service's answer about `title`, to add it.
    Fetching { list: String, table: String, title: String },
    /// Waits for the movie service's answer about `title`, to show it.
    Searching { title: String },
    /// Waits for the movie titled `title` to be stored in `list`.
    Storing { list: String, title: String },
    /// Waits for the title of a movie given by its id.
    Resolving { list: String, table: String, mark: Mark },
    /// Waits for the stored movie, to mark it watched or not.
    Loading { list: String, table: String, watched: bool },
    /// Waits to learn whether the mark of the movie titled `title` changed.
    Saving { list: String, title: String },
    /// Waits to learn whether the movie titled `title` was deleted.
    Deleting { list: String, title: String },
    /// Waits to learn whether `table` exists, to delete `list`.
    Dropping { list: String, table: String },
    /// Waits for the user's answer to the question whether to delete.
    Confirming { list: String, table: String },
    /// Waits for `table` to be dropped.
    Dropped { list: String, table: String },
    /// Waits to learn whether `table` still exists after the drop.
    Verifying { list: String },
}

/// Outside work that a command asks for.
pub enum Effect {
    /// Answer the user's message with this text; the command is done.
    Reply(String),
    /// Post this text in the channel; the command is done.
    Say(String),
    /// Post the movies of `list` in the channel; the command is done.
    ShowMovies { list: String, movies: Vec<Movie> },
    /// Create table `table`; then report `Done`.
    CreateTable { table: String },
    /// Report with `Exists` whether table `table` exists.
    CheckTable { table: String },
    /// Report with `Movies` the movies stored in `table` (`None` when they
    /// cannot be read).
    LoadMovies { table: String },
    /// Ask the movie service about `title`; report with `Fetched`.
    FetchMovie { title: String, adder: String, year: Option<u32> },
    /// Store `movie` in `table`; then report `Done`.
    StoreMovie { table: String, movie: Movie },
    /// Report with `Title` the title of the movie with id `id` in `table`.
    LookupId { table: String, id: u32 },
    /// Report with `Loaded` the movie titled `title` in `table`.
    LoadMovie { table: String, title: String },
    /// Store whether `movie` is watched; report with `Changed`.
    SaveWatched { table: String, movie: Movie },
    /// Delete the movies titled `title`; report with `Changed`.
    DeleteMovie { table: String, title: String },
    /// Answer the user with `question` and wait a while for the user's next
    /// message; report it with `Answer` (`None` when none came in time).
    Confirm { question: String },
    /// Drop table `table`; then report `Done`.
    DropTable { table: String },
    /// Nothing to do; the command is done.
    Stop,
}

/// What outside work reports back.
pub enum Feedback {
    Done,
    Exists(bool),
    Movies(Option<Vec<Movie>>),
    Fetched(Option<Movie>),
    Title(Option<String>),
    Loaded(Movie),
    Changed(bool),
    Answer(Option<String>),
}

pub enum SessionView {
    Finished,
    Creating { list: Seq<char> },
    Showing { list: Seq<char>, table: Seq<char> },
    Listing { list: Seq<char> },
    Adding { list: Seq<char>, table: Seq<char>, title: Seq<char>, adder: Seq<char>, year: Option<u32> },
    Fetching { list: Seq<char>, table: Seq<char>, title: Seq<char> },
    Searching { title: Seq<char> },
    Storing { list: Seq<char>, title: Seq<char> },
    Resolving { list: Seq<char>, table: Seq<char>, mark: Mark },
    Loading { list: Seq<char>, table: Seq<char>, watched: bool },
    Saving { list: Seq<char>, title: Seq<char> },
    Deleting { list: Seq<char>, title: Seq<char> },
    Dropping { list: Seq<char>, table: Seq<char> },
    Confirming { list: Seq<char>, table: Seq<char> },
    Dropped { list: Seq<char>, table: Seq<char> },
    Verifying { list: Seq<char> },
}

pub enum EffectView {
    Reply(Seq<char>),
    Say(Seq<char>),
    ShowMovies { list: Seq<char>, movies: Seq<Movie> },
    CreateTable { table: Seq<char> },
    CheckTable { table: Seq<char> },
    LoadMovies { table: Seq<char> },
    FetchMovie { title: Seq<char>, adder: Seq<char>, year: Option<u32> },
    StoreMovie { table: Seq<char>, movie: Movie },
    LookupId { table: Seq<char>, id: u32 },
    LoadMovie { table: Seq<char>, title: Seq<char> },
    SaveWatched { table: Seq<char>, movie: Movie },
    DeleteMovie { table: Seq<char>, title: Seq<char> },
    Confirm { question: Seq<char> },
    DropTable { table: Seq<char> },
    Stop,
}

pub enum FeedbackView {
    Done,
    Exists(bool),
    Movies(Option<Seq<Movie>>),
    Fetched(Option<Movie>),
    Title(Option<Seq<char>>),
    Loaded(Movie),
    Changed(bool),
    Answer(Option<Seq<char>>),
}

impl View for Session {
    type V = SessionView;

    open spec fn view(&self) -> SessionView {
        match self {
            Session::Finished => SessionView::Finished,
            Session::Creating { list } => SessionView::Creating { list: list@ },
            Session::Showing { list, table } => SessionView::Showing { list: list@, table: table@ },
            Session::Listing { list } => SessionView::Listing { list: list@ },
            Session::Adding { list, table, title, adder, year } => SessionView::Adding {
                list: list@,
                table: table@,
                title: title@,
                adder: adder@,
                year: *year,
            },
            Session::Fetching { list, table, title } => SessionView::Fetching {
                list: list@,
                table: table@,
                title: title@,
            },
            Session::Searching { title } => SessionView::Searching { title: title@ },
            Session::Storing { list, title } => SessionView::Storing { list: list@, title: title@ },
            Session::Resolving { list, table, mark } => SessionView::Resolving {
                list: list@,
                table: table@,
                mark: *mark,
            },
            Session::Loading { list, table, watched } => SessionView::Loading {
                list: list@,
                table: table@,
                watched: *watched,
            },
            Session::Saving { list, title } => SessionView::Saving { list: list@, title: title@ },
            Session::Deleting { list, title } => SessionView::Deleting { list: list@, title: title@ },
            Session::Dropping { list, table } => SessionView::Dropping { list: list@, table: table@ },
            Session::Confirming { list, table } => SessionView::Confirming {
                list: list@,
                table: table@,
            },
            Session::Dropped { list, table } => SessionView::Dropped { list: list@, table: table@ },
            Session::Verifying { list } => SessionView::Verifying { list: list@ },
        }
    }
}

impl View for Effect {
    type V = EffectView;

    open spec fn view(&self) -> EffectView {
        match self {
            Effect::Reply(t) => EffectView::Reply(t@),
            Effect::Say(t) => EffectView::Say(t@),
            Effect::ShowMovies { list, movies } => EffectView::ShowMovies {
                list: list@,
                movies: movies@,
            },
            Effect::CreateTable { table } => EffectView::CreateTable { table: table@ },
            Effect::CheckTable { table } => EffectView::CheckTable { table: table@ },
            Effect::LoadMovies { table } => EffectView::LoadMovies { table: table@ },
            Effect::FetchMovie { title, adder, year } => EffectView::FetchMovie {
                title: title@,
                adder: adder@,
                year: *year,
            },
            Effect::StoreMovie { table, movie } => EffectView::StoreMovie {
                table: table@,
                movie: *movie,
            },
            Effect::LookupId { table, id } => EffectView::LookupId { table: table@, id: *id },
            Effect::LoadMovie { table, title } => EffectView::LoadMovie {
                table: table@,
                title: title@,
            },
            Effect::SaveWatched { table, movie } => EffectView::SaveWatched {
                table: table@,
                movie: *movie,
            },
            Effect::DeleteMovie { table, title } => EffectView::DeleteMovie {
                table: table@,
                title: title@,
            },
            Effect::Confirm { question } => EffectView::Confirm { question: question@ },
            Effect::DropTable { table } => EffectView::DropTable { table: table@ },
            Effect::Stop => EffectView::Stop,
        }
    }
}

impl View for Feedback {
    type V = FeedbackView;

    open spec fn view(&self) -> FeedbackView {
        match self {
            Feedback::Done => FeedbackView::Done,
            Feedback::Exists(b) => FeedbackView::Exists(*b),
            Feedback::Movies(m) => FeedbackView::Movies(
                match m {
                    Some(v) => Some(v@),
                    None => None,
                },
            ),
            Feedback::Fetched(m) => FeedbackView::Fetched(*m),
            Feedback::Title(t) => FeedbackView::Title(
                match t {
                    Some(s) => Some(s@),
                    None => None,
                },
            ),
            Feedback::Loaded(m) => FeedbackView::Loaded(*m),
            Feedback::Changed(b) => FeedbackView::Changed(*b),
            Feedback::Answer(a) => FeedbackView::Answer(
                match a {
                    Some(s) => Some(s@),
                    None => None,
                },
            ),
        }
    }
}

} // verus!

verus! {

pub open spec fn invalid_arguments() -> (SessionView, EffectView) {
    (SessionView::Finished, EffectView::Reply("Invalid arguments"@))
}

/// A word made of ASCII digits only (`^[0-9]+$`): a movie id.
pub open spec fn is_number(s: Seq<char>) -> bool {
    s.len() > 0 && all_ascii_digits(s)
}

/// Whether the command reads the guild's id to name a table, given its
/// argument words (the first word is the command itself).
pub open spec fn needs_guild(command: Command, args: Seq<Seq<char>>) -> bool {
    match command {
        Command::CreateList | Command::ShowList | Command::DeleteList => args.len() == 2,
        Command::AddMovie => args.len() == 3 || (args.len() == 4 && parse_u32_spec(args[3])
            is Some),
        Command::Watch | Command::Unwatch | Command::Remove => args.len() == 3,
        Command::Search => false,
    }
}

/// A movie id that names a movie must fit in a `u32`.
pub open spec fn ids_fit(command: Command, args: Seq<Seq<char>>) -> bool {
    match command {
        Command::Watch | Command::Unwatch | Command::Remove => args.len() == 3 && is_number(
            args[2],
        ) ==> parse_u32_spec(args[2]) is Some,
        _ => true,
    }
}

/// The next step of watch, unwatch or remove once the movie's title is known.
pub open spec fn act_on_title(mark: Mark, list: Seq<char>, table: Seq<char>, title: Seq<char>) -> (
    SessionView,
    EffectView,
) {
    match mark {
        Mark::Watched => (
            SessionView::Loading { list, table, watched: true },
            EffectView::LoadMovie { table, title },
        ),
        Mark::Unwatched => (
            SessionView::Loading { list, table, watched: false },
            EffectView::LoadMovie { table, title },
        ),
        Mark::Removed => (
            SessionView::Deleting { list, title },
            EffectView::DeleteMovie { table, title },
        ),
    }
}

pub open spec fn mark_of(command: Command) -> Mark {
    match command {
        Command::Watch => Mark::Watched,
        Command::Unwatch => Mark::Unwatched,
        _ => Mark::Removed,
    }
}

/// The first step of a command, from its argument words (the first word is
/// the command itself), the guild's id and the name of the message's author.
pub open spec fn first_step(command: Command, args: Seq<Seq<char>>, guild: Option<u64>, author: Seq<char>) -> (
    SessionView,
    EffectView,
) {
    let g = guild->0;
    match command {
        Command::CreateList => if args.len() == 2 {
            (
                SessionView::Creating { list: args[1] },
                EffectView::CreateTable { table: table_name(g, args[1]) },
            )
        } else {
            invalid_arguments()
        },
        Command::ShowList => if args.len() == 2 {
            (
                SessionView::Showing { list: args[1], table: table_name(g, args[1]) },
                EffectView::CheckTable { table: table_name(g, args[1]) },
            )
        } else {
            invalid_arguments()
        },
        Command::AddMovie => if args.len() == 4 && parse_u32_spec(args[3]) is None {
            (SessionView::Finished, EffectView::Reply("Invalid year"@))
        } else if args.len() == 3 || args.len() == 4 {
            (
                SessionView::Adding {
                    list: args[1],
                    table: table_name(g, args[1]),
                    title: args[2],
                    adder: author,
                    year: if args.len() == 4 {
                        parse_u32_spec(args[3])
                    } else {
                        None
                    },
                },
                EffectView::CheckTable { table: table_name(g, args[1]) },
            )
        } else {
            invalid_arguments()
        },
        Command::Search => if args.len() == 3 && parse_u32_spec(args[2]) is None {
            (SessionView::Finished, EffectView::Reply("Invalid year"@))
        } else if args.len() == 2 || args.len() == 3 {
            (
                SessionView::Searching { title: args[1] },
                EffectView::FetchMovie {
                    title: args[1],
                    adder: "None"@,
                    year: if args.len() == 3 {
                        parse_u32_spec(args[2])
                    } else {
                        None
                    },
                },
            )
        } else {
            invalid_arguments()
        },
        Command::Watch | Command::Unwatch | Command::Remove => if args.len() == 3 {
            let table = table_name(g, args[1]);
            if is_number(args[2]) {
                (
                    SessionView::Resolving { list: args[1], table, mark: mark_of(command) },
                    EffectView::LookupId { table, id: parse_u32_spec(args[2])->0 },
                )
            } else {
                act_on_title(mark_of(command), args[1], table, args[2])
            }
        } else {
            invalid_arguments()
        },
        Command::DeleteList => if args.len() == 2 {
            (
                SessionView::Dropping { list: args[1], table: table_name(g, args[1]) },
                EffectView::CheckTable { table: table_name(g, args[1]) },
            )
        } else {
            invalid_arguments()
        },
    }
}

/// Decides `is_number`.
pub fn is_number_word(s: &String) -> (r: bool)
    ensures
        r == is_number(s@),
{
    let cs = crate::text::chars_of(s.as_str());
    if cs.len() == 0 {
        return false;
    }
    let mut i: usize = 0;
    while i < cs.len()
        invariant
            i <= cs.len(),
            cs@ == s@,
            forall|k: int| 0 <= k < i ==> crate::text::is_ascii_digit(#[trigger] cs@[k]),
        decreases cs.len() - i,
    {
        if !('0' <= cs[i] && cs[i] <= '9') {
            assert(!crate::text::is_ascii_digit(s@[i as int]));
            return false;
        }
        i = i + 1;
    }
    true
}

/// Decides `needs_guild`.
pub fn guild_needed(command: Command, args: &Vec<String>) -> (r: bool)
    ensures
        r == needs_guild(command, string_views(args@)),
{
    let n = args.len();
    match command {
        Command::CreateList | Command::ShowList | Command::DeleteList => n == 2,
        Command::AddMovie => n == 3 || (n == 4 && parse_u32(args[3].as_str()).is_some()),
        Command::Watch | Command::Unwatch | Command::Remove => n == 3,
        Command::Search => false,
    }
}

/// Decides `ids_fit`.
pub fn ids_fit_u32(command: Command, args: &Vec<String>) -> (r: bool)
    ensures
        r == ids_fit(command, string_views(args@)),
{
    match command {
        Command::Watch | Command::Unwatch | Command::Remove => {
            if args.len() == 3 && is_number_word(&args[2]) {
                parse_u32(args[2].as_str()).is_some()
            } else {
                true
            }
        },
        _ => true,
    }
}

fn invalid() -> (r: (Session, Effect))
    ensures
        (r.0@, r.1@) == invalid_arguments(),
{
    (Session::Finished, Effect::Reply(String::from_str("Invalid arguments")))
}

fn on_title(mark: Mark, list: String, table: String, title: String) -> (r: (Session, Effect))
    ensures
        (r.0@, r.1@) == act_on_title(mark, list@, table@, title@),
{
    match mark {
        Mark::Watched => (
            Session::Loading { list, table: table.clone(), watched: true },
            Effect::LoadMovie { table, title },
        ),
        Mark::Unwatched => (
            Session::Loading { list, table: table.clone(), watched: false },
            Effect::LoadMovie { table, title },
        ),
        Mark::Removed => (
            Session::Deleting { list, title: title.clone() },
            Effect::DeleteMovie { table, title },
        ),
    }
}

/// Starts `command` on its argument words; `author` names who sent it.
/// The guild's id must be there when the command reads it, and a movie id
/// must fit in a `u32`.
pub fn start(command: Command, args: Vec<String>, guild: Option<u64>, author: String) -> (r: (Session, Effect))
    requires
        needs_guild(command, string_views(args@)) ==> guild is Some,
        ids_fit(command, string_views(args@)),
    ensures
        (r.0@, r.1@) == first_step(command, string_views(args@), guild, author@),
{
    let ghost a = string_views(args@);
    let n = args.len();
    assert(a.len() == n);
    assert(forall|i: int| 0 <= i < n ==> a[i] == (#[trigger] args@[i])@);
    match command {
        Command::CreateList => {
            if n == 2 {
                let list = args[1].clone();
                let table = list_table_name(guild.unwrap(), &list);
                (Session::Creating { list }, Effect::CreateTable { table })
            } else {
                invalid()
            }
        },
        Command::ShowList => {
            if n == 2 {
                let list = args[1].clone();
                let table = list_table_name(guild.unwrap(), &list);
                (Session::Showing { list, table: table.clone() }, Effect::CheckTable { table })
            } else {
                invalid()
            }
        },
        Command::DeleteList => {
            if n == 2 {
                let list = args[1].clone();
                let table = list_table_name(guild.unwrap(), &list);
                (Session::Dropping { list, table: table.clone() }, Effect::CheckTable { table })
            } else {
                invalid()
            }
        },
        Command::AddMovie => {
            if n == 3 || n == 4 {
                let year = if n == 4 {
                    let y = parse_u32(args[3].as_str());
                    if y.is_none() {
                        return (Session::Finished, Effect::Reply(String::from_str("Invalid year")));
                    }
                    y
                } else {
                    None
                };
                let list = args[1].clone();
                let table = list_table_name(guild.unwrap(), &list);
                (
                    Session::Adding {
                        list,
                        table: table.clone(),
                        title: args[2].clone(),
                        adder: author,
                        year,
                    },
                    Effect::CheckTable { table },
                )
            } else {
                invalid()
            }
        },
        Command::Search => {
            if n == 2 || n == 3 {
                let year = if n == 3 {
                    let y = parse_u32(args[2].as_str());
                    if y.is_none() {
                        return (Session::Finished, Effect::Reply(String::from_str("Invalid year")));
                    }
                    y
                } else {
                    None
                };
                (
                    Session::Searching { title: args[1].clone() },
                    Effect::FetchMovie {
                        title: args[1].clone(),
                        adder: String::from_str("None"),
                        year,
                    },
                )
            } else {
                invalid()
            }
        },
        Command::Watch | Command::Unwatch | Command::Remove => {
            if n == 3 {
                let mark = match command {
                    Command::Watch => Mark::Watched,
                    Command::Unwatch => Mark::Unwatched,
                    _ => Mark::Removed,
                };
                let list = args[1].clone();
                let table = list_table_name(guild.unwrap(), &list);
                if is_number_word(&args[2]) {
                    let id = parse_u32(args[2].as_str()).unwrap();
                    (Session::Resolving { list, table: table.clone(), mark }, Effect::LookupId { table, id })
                } else {
                    on_title(mark, list, table, args[2].clone())
                }
            } else {
                invalid()
            }
        },
    }
}

} // verus!

verus! {

/// Names what `str::to_lowercase` gives: the lowercase equivalent of `s`
/// by Unicode's `Lowercase` property.
pub uninterp spec fn lowercase(s: Seq<char>) -> Seq<char>;

/// `str::to_lowercase`. The contract only ties the result to the argument:
/// Unicode's case mapping is not stated.
#[verifier::external_body]
fn to_lowercase(s: &str) -> (r: String)
    ensures
        r@ == lowercase(s@),
{
    s.to_lowercase()
}

/// Whether an answer, already in lowercase, agrees to the deletion.
pub fn is_yes(lowered: &String) -> (r: bool)
    ensures
        r == (lowered@ == "yes"@),
{
    *lowered == String::from_str("yes")
}

pub open spec fn no_list_msg(list: Seq<char>) -> Seq<char> {
    "List "@ + list + " does not exist"@
}

pub open spec fn not_found_msg(title: Seq<char>) -> Seq<char> {
    "Movie "@ + title + " not found"@
}

pub open spec fn not_in_list_msg(title: Seq<char>, list: Seq<char>) -> Seq<char> {
    "Movie "@ + title + " not found in list "@ + list
}

pub open spec fn delete_question(list: Seq<char>) -> Seq<char> {
    "Are you absolutely sure you want to delete list "@ + list + "? (yes/no)"@
}

pub open spec fn finish_with(text: Seq<char>) -> (SessionView, EffectView) {
    (SessionView::Finished, EffectView::Reply(text))
}

/// The step that follows outcome `f` of the outside work that session `s`
/// waits for. An outcome of another kind than the one awaited stops.
pub open spec fn next_step(s: SessionView, f: FeedbackView) -> (SessionView, EffectView) {
    match (s, f) {
        (SessionView::Creating { list }, FeedbackView::Done) => finish_with("Created list "@ + list),
        (SessionView::Showing { list, table }, FeedbackView::Exists(e)) => if e {
            (SessionView::Listing { list }, EffectView::LoadMovies { table })
        } else {
            finish_with(no_list_msg(list))
        },
        (SessionView::Listing { list }, FeedbackView::Movies(ms)) => match ms {
            Some(movies) => (SessionView::Finished, EffectView::ShowMovies { list, movies }),
            None => finish_with("No movies in list"@),
        },
        (SessionView::Adding { list, table, title, adder, year }, FeedbackView::Exists(e)) => if e {
            (SessionView::Fetching { list, table, title }, EffectView::FetchMovie { title, adder, year })
        } else {
            finish_with(no_list_msg(list))
        },
        (SessionView::Fetching { list, table, title }, FeedbackView::Fetched(m)) => match m {
            Some(movie) => (
                SessionView::Storing { list, title: movie.title@ },
                EffectView::StoreMovie { table, movie },
            ),
            None => finish_with(not_found_msg(title)),
        },
        (SessionView::Storing { list, title }, FeedbackView::Done) => finish_with(
            "Added movie "@ + title + " to list "@ + list,
        ),
        (SessionView::Searching { title }, FeedbackView::Fetched(m)) => match m {
            Some(movie) => (SessionView::Finished, EffectView::Say(movie_card(movie))),
            None => finish_with(not_found_msg(title)),
        },
        (SessionView::Resolving { list, table, mark }, FeedbackView::Title(t)) => match t {
            Some(title) => act_on_title(mark, list, table, title),
            None => finish_with("Invalid movie id"@),
        },
        (SessionView::Loading { list, table, watched }, FeedbackView::Loaded(movie)) => (
            SessionView::Saving { list, title: movie.title@ },
            EffectView::SaveWatched { table, movie: Movie { watched, ..movie } },
        ),
        (SessionView::Saving { list, title }, FeedbackView::Changed(c)) => if c {
            finish_with("Watched movie "@ + title + " from list "@ + list)
        } else {
            finish_with(not_in_list_msg(title, list))
        },
        (SessionView::Deleting { list, title }, FeedbackView::Changed(c)) => if c {
            finish_with("Removed movie "@ + title + " from list "@ + list)
        } else {
            finish_with(not_in_list_msg(title, list))
        },
        (SessionView::Dropping { list, table }, FeedbackView::Exists(e)) => if e {
            (
                SessionView::Confirming { list, table },
                EffectView::Confirm { question: delete_question(list) },
            )
        } else {
            finish_with("List "@ + list + " doesn't exist to begin with"@)
        },
        (SessionView::Confirming { list, table }, FeedbackView::Answer(a)) => if a is Some
            && lowercase(a->0) != "yes"@ {
            finish_with("Aborting"@)
        } else {
            (SessionView::Dropped { list, table }, EffectView::DropTable { table })
        },
        (SessionView::Dropped { list, table }, FeedbackView::Done) => (
            SessionView::Verifying { list },
            EffectView::CheckTable { table },
        ),
        (SessionView::Verifying { list }, FeedbackView::Exists(e)) => if e {
            finish_with("List "@ + list + " not found"@)
        } else {
            finish_with("Deleted list "@ + list)
        },
        _ => (SessionView::Finished, EffectView::Stop),
    }
}

fn reply(text: String) -> (r: (Session, Effect))
    ensures
        (r.0@, r.1@) == finish_with(text@),
{
    (Session::Finished, Effect::Reply(text))
}

fn text2(a: &str, x: &str) -> (r: String)
    ensures
        r@ == a@ + x@,
{
    let mut r = String::from_str(a);
    r.append(x);
    r
}

fn text3(a: &str, x: &str, b: &str) -> (r: String)
    ensures
        r@ == a@ + x@ + b@,
{
    let mut r = String::from_str(a);
    r.append(x);
    r.append(b);
    r
}

fn text4(a: &str, x: &str, b: &str, y: &str) -> (r: String)
    ensures
        r@ == a@ + x@ + b@ + y@,
{
    let mut r = String::from_str(a);
    r.append(x);
    r.append(b);
    r.append(y);
    r
}

/// Goes on with `session` once outside work reports `feedback`.
pub fn resume(session: Session, feedback: Feedback) -> (r: (Session, Effect))
    ensures
        (r.0@, r.1@) == next_step(session@, feedback@),
{
    match (session, feedback) {
        (Session::Creating { list }, Feedback::Done) => reply(text2("Created list ", list.as_str())),
        (Session::Showing { list, table }, Feedback::Exists(e)) => {
            if e {
                (Session::Listing { list }, Effect::LoadMovies { table })
            } else {
                reply(text3("List ", list.as_str(), " does not exist"))
            }
        },
        (Session::Listing { list }, Feedback::Movies(ms)) => match ms {
            Some(movies) => (Session::Finished, Effect::ShowMovies { list, movies }),
            None => reply(String::from_str("No movies in list")),
        },
        (Session::Adding { list, table, title, adder, year }, Feedback::Exists(e)) => {
            if e {
                (
                    Session::Fetching { list, table, title: title.clone() },
                    Effect::FetchMovie { title, adder, year },
                )
            } else {
                reply(text3("List ", list.as_str(), " does not exist"))
            }
        },
        (Session::Fetching { list, table, title }, Feedback::Fetched(m)) => match m {
            Some(movie) => (
                Session::Storing { list, title: movie.title.clone() },
                Effect::StoreMovie { table, movie },
            ),
            None => reply(text3("Movie ", title.as_str(), " not found")),
        },
        (Session::Storing { list, title }, Feedback::Done) => reply(
            text4("Added movie ", title.as_str(), " to list ", list.as_str()),
        ),
        (Session::Searching { title }, Feedback::Fetched(m)) => match m {
            Some(movie) => (Session::Finished, Effect::Say(create_movie_card(&movie))),
            None => reply(text3("Movie ", title.as_str(), " not found")),
        },
        (Session::Resolving { list, table, mark }, Feedback::Title(t)) => match t {
            Some(title) => on_title(mark, list, table, title),
            None => reply(String::from_str("Invalid movie id")),
        },
        (Session::Loading { list, table, watched }, Feedback::Loaded(movie)) => {
            let mut movie = movie;
            movie.watched = watched;
            (Session::Saving { list, title: movie.title.clone() }, Effect::SaveWatched { table, movie })
        },
        (Session::Saving { list, title }, Feedback::Changed(c)) => {
            if c {
                reply(text4("Watched movie ", title.as_str(), " from list ", list.as_str()))
            } else {
                reply(text4("Movie ", title.as_str(), " not found in list ", list.as_str()))
            }
        },
        (Session::Deleting { list, title }, Feedback::Changed(c)) => {
            if c {
                reply(text4("Removed movie ", title.as_str(), " from list ", list.as_str()))
            } else {
                reply(text4("Movie ", title.as_str(), " not found in list ", list.as_str()))
            }
        },
        (Session::Dropping { list, table }, Feedback::Exists(e)) => {
            if e {
                let question = text3(
                    "Are you absolutely sure you want to delete list ",
                    list.as_str(),
                    "? (yes/no)",
                );
                (Session::Confirming { list, table }, Effect::Confirm { question })
            } else {
                reply(text3("List ", list.as_str(), " doesn't exist to begin with"))
            }
        },
        (Session::Confirming { list, table }, Feedback::Answer(a)) => {
            let refused = match &a {
                Some(answer) => !is_yes(&to_lowercase(answer.as_str())),
                None => false,
            };
            if refused {
                reply(String::from_str("Aborting"))
            } else {
                (Session::Dropped { list, table: table.clone() }, Effect::DropTable { table })
            }
        },
        (Session::Dropped { list, table }, Feedback::Done) => (
            Session::Verifying { list },
            Effect::CheckTable { table },
        ),
        (Session::Verifying { list }, Feedback::Exists(e)) => {
            if e {
                reply(text3("List ", list.as_str(), " not found"))
            } else {
                reply(text2("Deleted list ", list.as_str()))
            }
        },
        _ => (Session::Finished, Effect::Stop),
    }
}

} // verus!

verus! {

/// How many more outcomes a session can wait for before it is finished.
pub open spec fn steps_left(s: SessionView) -> nat {
    match s {
        SessionView::Finished => 0,
        SessionView::Creating { .. } => 1,
        SessionView::Showing { .. } => 2,
        SessionView::Listing { .. } => 1,
        SessionView::Adding { .. } => 3,
        SessionView::Fetching { .. } => 2,
        SessionView::Storing { .. } => 1,
        SessionView::Searching { .. } => 1,
        SessionView::Resolving { .. } => 3,
        SessionView::Loading { .. } => 2,
        SessionView::Saving { .. } => 1,
        SessionView::Deleting { .. } => 1,
        SessionView::Dropping { .. } => 4,
        SessionView::Confirming { .. } => 3,
        SessionView::Dropped { .. } => 2,
        SessionView::Verifying { .. } => 1,
    }
}

/// Whether an effect ends the command: a message to the chat, or nothing.
pub open spec fn is_final(e: EffectView) -> bool {
    e is Reply || e is Say || e is ShowMovies || e is Stop
}

/// Law: every command ends. A command starts at most four outcomes away
/// from its end, each outcome brings it closer, and it posts to the chat
/// exactly when it ends.
pub proof fn law_commands_end(
    command: Command,
    args: Seq<Seq<char>>,
    guild: Option<u64>,
    author: Seq<char>,
    s: SessionView,
    f: FeedbackView,
)
    ensures
        steps_left(first_step(command, args, guild, author).0) <= 4,
        is_final(first_step(command, args, guild, author).1) <==> first_step(
            command,
            args,
            guild,
            author,
        ).0 is Finished,
        next_step(s, f).0 is Finished || steps_left(next_step(s, f).0) < steps_left(s),
        is_final(next_step(s, f).1) <==> next_step(s, f).0 is Finished,
{
}

/// Law: a command with the wrong number of arguments is answered
/// "Invalid arguments" and does nothing else.
pub proof fn law_wrong_arity_is_refused(
    command: Command,
    args: Seq<Seq<char>>,
    guild: Option<u64>,
    author: Seq<char>,
)
    requires
        match command {
            Command::CreateList | Command::ShowList | Command::DeleteList => args.len() != 2,
            Command::AddMovie => args.len() != 3 && args.len() != 4,
            Command::Search => args.len() != 2 && args.len() != 3,
            Command::Watch | Command::Unwatch | Command::Remove => args.len() != 3,
        },
    ensures
        first_step(command, args, guild, author) == invalid_arguments(),
{
}

/// Law: a list's table is dropped only right after the user was asked, and
/// only when the user did not answer with something other than "yes"
/// (in any case); no command drops a table at its start.
pub proof fn law_drop_only_after_confirmation(
    command: Command,
    args: Seq<Seq<char>>,
    guild: Option<u64>,
    author: Seq<char>,
    s: SessionView,
    f: FeedbackView,
)
    ensures
        !(first_step(command, args, guild, author).1 is DropTable),
        next_step(s, f).1 is DropTable ==> (s is Confirming && (f matches FeedbackView::Answer(a) && (
        a is None || lowercase(a->0) == "yes"@))),
{
}

/// Law: watch and unwatch take the same path; they differ only in the mark
/// that they store, and they report the same.
pub proof fn law_watch_unwatch_agree(
    args: Seq<Seq<char>>,
    guild: Option<u64>,
    author: Seq<char>,
    list: Seq<char>,
    table: Seq<char>,
    movie: Movie,
    c: bool,
)
    ensures
        first_step(Command::Watch, args, guild, author).1 == first_step(
            Command::Unwatch,
            args,
            guild,
            author,
        ).1,
        next_step(SessionView::Loading { list, table, watched: true }, FeedbackView::Loaded(movie)).1
            == (EffectView::SaveWatched { table, movie: Movie { watched: true, ..movie } }),
        next_step(SessionView::Loading { list, table, watched: false }, FeedbackView::Loaded(movie)).1
            == (EffectView::SaveWatched { table, movie: Movie { watched: false, ..movie } }),
        next_step(SessionView::Loading { list, table, watched: true }, FeedbackView::Loaded(movie)).0
            == next_step(
            SessionView::Loading { list, table, watched: false },
            FeedbackView::Loaded(movie),
        ).0,
{
}

} // verus!

verus! {

/// Law: watch, unwatch and remove act on the movie that their third word
/// names, by title or, when the word is a number, by the movie id it gives;
/// watch then stores the movie as watched and unwatch as not watched, by
/// either path, and remove deletes it. The reply names the movie and list.
pub proof fn law_marks_follow_the_command(
    command: Command,
    args: Seq<Seq<char>>,
    guild: Option<u64>,
    author: Seq<char>,
    looked_up: Seq<char>,
    movie: Movie,
    changed: bool,
)
    requires
        command == Command::Watch || command == Command::Unwatch || command == Command::Remove,
        args.len() == 3,
    ensures
        ({
            let table = table_name(guild->0, args[1]);
            let by_id = is_number(args[2]);
            let named = if by_id {
                looked_up
            } else {
                args[2]
            };
            let first = first_step(command, args, guild, author);
            let known = if by_id {
                next_step(first.0, FeedbackView::Title(Some(looked_up)))
            } else {
                first
            };
            &&& by_id ==> first.1 == EffectView::LookupId {
                table,
                id: parse_u32_spec(args[2])->0,
            }
            &&& by_id ==> next_step(first.0, FeedbackView::Title(None)) == finish_with(
                "Invalid movie id"@,
            )
            &&& command == Command::Remove ==> known.1 == (EffectView::DeleteMovie {
                table,
                title: named,
            }) && next_step(known.0, FeedbackView::Changed(changed)).1 == EffectView::Reply(
                if changed {
                    "Removed movie "@ + named + " from list "@ + args[1]
                } else {
                    "Movie "@ + named + " not found in list "@ + args[1]
                },
            )
            &&& command != Command::Remove ==> {
                let saved = next_step(known.0, FeedbackView::Loaded(movie));
                &&& known.1 == (EffectView::LoadMovie { table, title: named })
                &&& saved.1 == (EffectView::SaveWatched {
                    table,
                    movie: Movie { watched: command == Command::Watch, ..movie },
                })
                &&& next_step(saved.0, FeedbackView::Changed(changed)).1 == EffectView::Reply(
                    if changed {
                        "Watched movie "@ + movie.title@ + " from list "@ + args[1]
                    } else {
                        "Movie "@ + movie.title@ + " not found in list "@ + args[1]
                    },
                )
            }
        }),
{
}

/// Law: showing a list whose table exists posts every movie that the
/// table holds, in the order the database gives them, watched or not.
pub proof fn law_show_list_shows_every_movie(
    args: Seq<Seq<char>>,
    guild: Option<u64>,
    author: Seq<char>,
    movies: Seq<Movie>,
)
    requires
        args.len() == 2,
    ensures
        ({
            let table = table_name(guild->0, args[1]);
            let first = first_step(Command::ShowList, args, guild, author);
            let loading = next_step(first.0, FeedbackView::Exists(true));
            &&& first.1 == (EffectView::CheckTable { table })
            &&& next_step(first.0, FeedbackView::Exists(false)) == finish_with(no_list_msg(args[1]))
            &&& loading.1 == (EffectView::LoadMovies { table })
            &&& next_step(loading.0, FeedbackView::Movies(Some(movies))) == (
            SessionView::Finished,
            EffectView::ShowMovies { list: args[1], movies },
            )
            &&& next_step(loading.0, FeedbackView::Movies(None)) == finish_with(
                "No movies in list"@,
            )
        }),
{
}

/// Law: adding a movie asks the movie service about the title and year that
/// the command gives, on behalf of its author, stores exactly the movie
/// that comes back in the list's table, and names it in the reply.
pub proof fn law_add_movie_stores_what_was_found(
    args: Seq<Seq<char>>,
    guild: Option<u64>,
    author: Seq<char>,
    movie: Movie,
)
    requires
        args.len() == 3 || (args.len() == 4 && parse_u32_spec(args[3]) is Some),
    ensures
        ({
            let table = table_name(guild->0, args[1]);
            let first = first_step(Command::AddMovie, args, guild, author);
            let fetching = next_step(first.0, FeedbackView::Exists(true));
            let storing = next_step(fetching.0, FeedbackView::Fetched(Some(movie)));
            &&& first.1 == (EffectView::CheckTable { table })
            &&& fetching.1 == (EffectView::FetchMovie {
                title: args[2],
                adder: author,
                year: if args.len() == 4 {
                    parse_u32_spec(args[3])
                } else {
                    None
                },
            })
            &&& storing.1 == (EffectView::StoreMovie { table, movie })
            &&& next_step(storing.0, FeedbackView::Done) == finish_with(
                "Added movie "@ + movie.title@ + " to list "@ + args[1],
            )
            &&& next_step(fetching.0, FeedbackView::Fetched(None)) == finish_with(
                not_found_msg(args[2]),
            )
        }),
{
}

} // verus!

verus! {

/// Law: creating a list creates the table of that list in the guild and
/// then confirms with the list's name.
pub proof fn law_create_list_creates_its_table(args: Seq<Seq<char>>, guild: Option<u64>, author: Seq<char>)
    requires
        args.len() == 2,
    ensures
        ({
            let first = first_step(Command::CreateList, args, guild, author);
            &&& first.1 == (EffectView::CreateTable { table: table_name(guild->0, args[1]) })
            &&& next_step(first.0, FeedbackView::Done) == finish_with("Created list "@ + args[1])
        }),
{
}

/// Law: deleting a list checks that its table exists, asks the user, drops
/// that same table unless the user answered something other than "yes",
/// and then reports by checking the table again.
pub proof fn law_delete_list_drops_its_table(
    args: Seq<Seq<char>>,
    guild: Option<u64>,
    author: Seq<char>,
    answer: Option<Seq<char>>,
    still_there: bool,
)
    requires
        args.len() == 2,
    ensures
        ({
            let table = table_name(guild->0, args[1]);
            let first = first_step(Command::DeleteList, args, guild, author);
            let asking = next_step(first.0, FeedbackView::Exists(true));
            let after = next_step(asking.0, FeedbackView::Answer(answer));
            let agreed = answer is None || lowercase(answer->0) == "yes"@;
            &&& first.1 == (EffectView::CheckTable { table })
            &&& next_step(first.0, FeedbackView::Exists(false)) == finish_with(
                "List "@ + args[1] + " doesn't exist to begin with"@,
            )
            &&& asking.1 == (EffectView::Confirm { question: delete_question(args[1]) })
            &&& !agreed ==> after == finish_with("Aborting"@)
            &&& agreed ==> {
                let verifying = next_step(after.0, FeedbackView::Done);
                &&& after.1 == (EffectView::DropTable { table })
                &&& verifying.1 == (EffectView::CheckTable { table })
                &&& next_step(verifying.0, FeedbackView::Exists(still_there)) == finish_with(
                    if still_there {
                        "List "@ + args[1] + " not found"@
                    } else {
                        "Deleted list "@ + args[1]
                    },
                )
            }
        }),
{
}

/// Law: a search asks the movie service about the title and year that the
/// command gives, and posts the card of the movie that comes back.
pub proof fn law_search_shows_the_found_movie(
    args: Seq<Seq<char>>,
    guild: Option<u64>,
    author: Seq<char>,
    movie: Movie,
)
    requires
        args.len() == 2 || (args.len() == 3 && parse_u32_spec(args[2]) is Some),
    ensures
        ({
            let first = first_step(Command::Search, args, guild, author);
            &&& first.1 == (EffectView::FetchMovie {
                title: args[1],
                adder: "None"@,
                year: if args.len() == 3 {
                    parse_u32_spec(args[2])
                } else {
                    None
                },
            })
            &&& next_step(first.0, FeedbackView::Fetched(Some(movie))) == (
            SessionView::Finished,
            EffectView::Say(movie_card(movie)),
            )
            &&& next_step(first.0, FeedbackView::Fetched(None)) == finish_with(not_found_msg(args[1]))
        }),
{
}

/// Law: a year that is not a number is refused before anything else, by
/// add_movie and by search.
pub proof fn law_bad_year_is_refused(args: Seq<Seq<char>>, guild: Option<u64>, author: Seq<char>)
    ensures
        args.len() == 4 && parse_u32_spec(args[3]) is None ==> first_step(
            Command::AddMovie,
            args,
            guild,
            author,
        ) == finish_with("Invalid year"@),
        args.len() == 3 && parse_u32_spec(args[2]) is None ==> first_step(
            Command::Search,
            args,
            guild,
            author,
        ) == finish_with("Invalid year"@),
{
}

} // verus!
