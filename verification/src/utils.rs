//! Helpers of the chat commands: splitting a command line, recognising IMDb
//! ids, and the texts that the bot posts about a movie.

use vstd::prelude::*;
use vstd::string::StringExecFns;
use crate::movie::Movie;
use crate::text::{chars_of, decimal, decimal_string, string_from_chars, white_space};
use crate::tokens::{find_quote, find_word_end, lemma_next_quote_bounds, lemma_word_end_bounds, tokens, tokens_from};

verus! {

/// The views of a list of strings.
pub open spec fn string_views(v: Seq<String>) -> Seq<Seq<char>> {
    v.map_values(|t: String| t@)
}

/// Splits a command line into its words; a phrase in double quotes is one
/// word, without its quotes.
pub fn split_string(s: String) -> (r: Vec<String>)
    ensures
        string_views(r@) == tokens(s@),
{
    let cs = chars_of(s.as_str());
    let n = cs.len();
    let mut out: Vec<String> = Vec::new();
    let mut i: usize = 0;
    while i < n
        invariant
            n == cs.len(),
            cs@ == s@,
            i <= n,
            tokens(cs@) == string_views(out@) + tokens_from(cs@, i as int),
        decreases n - i,
    {
        let ghost before = string_views(out@);
        if white_space(cs[i]) {
            i = i + 1;
        } else {
            let mut done = false;
            if cs[i] == '"' {
                let q = find_quote(&cs, i + 1);
                proof {
                    lemma_next_quote_bounds(cs@, i + 1);
                }
                if i + 1 < q && q < n {
                    let w = string_from_chars(&cs.as_slice()[i + 1..q]);
                    out.push(w);
                    assert(string_views(out@) == before.push(cs@.subrange(i + 1, q as int)));
                    i = q + 1;
                    done = true;
                }
            }
            if !done {
                let e = find_word_end(&cs, i);
                proof {
                    lemma_word_end_bounds(cs@, i as int);
                }
                let w = string_from_chars(&cs.as_slice()[i..e]);
                out.push(w);
                assert(string_views(out@) == before.push(cs@.subrange(i as int, e as int)));
                i = e;
            }
        }
    }
    assert(string_views(out@) + tokens_from(cs@, n as int) == string_views(out@));
    out
}


/// Names what `regex::Regex::new(pattern)` followed by `Regex::is_match` on
/// `haystack` gives: `None` when the pattern does not compile.
pub uninterp spec fn regex_match(pattern: Seq<char>, haystack: Seq<char>) -> Option<bool>;

/// Compiles `pattern` with `regex::Regex::new` and, when that succeeds,
/// reports whether `Regex::is_match` finds a match of it anywhere in
/// `haystack`. The contract only ties the result to the two arguments: the
/// regular-expression semantics are not stated.
#[verifier::external_body]
fn regex_is_match(pattern: &str, haystack: &str) -> (r: Option<bool>)
    ensures
        r == regex_match(pattern@, haystack@),
{
    match regex::Regex::new(pattern) {
        Ok(re) => Some(re.is_match(haystack)),
        Err(_) => None,
    }
}

/// Whether `s` holds an IMDb id: `tt` followed by seven digits, anywhere in it.
pub fn is_imdbid(s: &String) -> (r: bool)
    ensures
        r == (regex_match("tt\\d{7}"@, s@) == Some(true)),
{
    match regex_is_match("tt\\d{7}", s.as_str()) {
        Some(b) => b,
        None => false,
    }
}

/// The address of a title page on IMDb.
pub open spec fn imdb_url(id: Seq<char>) -> Seq<char> {
    "https://www.imdb.com/title/"@ + id
}

/// The address of the IMDb page of the title with id `id`.
pub fn imdburl(id: &String) -> (r: String)
    ensures
        r@ == imdb_url(id@),
{
    let mut r = String::from_str("https://www.imdb.com/title/");
    r.append(id.as_str());
    r
}

/// A line of a card: a label, a value and a line break.
pub open spec fn card_line(label: Seq<char>, value: Seq<char>) -> Seq<char> {
    label + value + "\n"@
}

/// The card that describes a movie in the chat: its title in bold, then
/// one line per field, then its IMDb address.
pub open spec fn movie_card(m: Movie) -> Seq<char> {
    card_line("**"@, m.title@ + "**"@)
        + card_line("Year: "@, decimal(m.year as nat))
        + card_line("Director: "@, m.director@)
        + card_line("Actors: "@, m.actors@)
        + card_line("Language: "@, m.language@)
        + card_line("Country: "@, m.country@)
        + card_line("Metascore: "@, m.metascore@)
        + card_line("IMDB Rating: "@, m.imdbrating@)
        + card_line(""@, imdb_url(m.imdbid@))
}

fn push_line(card: &mut String, label: &str, value: &str)
    ensures
        final(card)@ == old(card)@ + card_line(label@, value@),
{
    card.append(label);
    card.append(value);
    card.append("\n");
}

/// The card that describes `movie` in the chat.
pub fn create_movie_card(movie: &Movie) -> (card: String)
    ensures
        card@ == movie_card(*movie),
{
    let mut card = String::new();
    let mut title = movie.title.clone();
    title.append("**");
    push_line(&mut card, "**", title.as_str());
    let year = decimal_string(movie.year as u64);
    push_line(&mut card, "Year: ", year.as_str());
    push_line(&mut card, "Director: ", movie.director.as_str());
    push_line(&mut card, "Actors: ", movie.actors.as_str());
    push_line(&mut card, "Language: ", movie.language.as_str());
    push_line(&mut card, "Country: ", movie.country.as_str());
    push_line(&mut card, "Metascore: ", movie.metascore.as_str());
    push_line(&mut card, "IMDB Rating: ", movie.imdbrating.as_str());
    let url = imdburl(&movie.imdbid);
    push_line(&mut card, "", url.as_str());
    assert(card@ == movie_card(*movie));
    card
}

} // verus!

verus! {

/// The text that the help command posts: an introduction, then one line
/// per command.
pub open spec fn help_text() -> Seq<char> {
    "Get started by creating a list with `!create_list {list_name}` and adding movies with `!add_movie {list_name} {movie_name}`. After watching a movie mark it watched rather then removing from list with `!watch {list_name} {movie_name}`. Remember to use quotes when typing titles with multiple words.\n"@
        + "\n"@
        + "**Commands:**\n"@
        + "`!search {movie_name}` - Search for movie\n"@
        + "`!search {movie_name} {year}` - Search for movie with year\n"@
        + "`!create_list {list_name}` - Create a list\n"@
        + "`!add_movie {list_name} {movie_name}` - Add a movie to a list\n"@
        + "`!add_movie {list_name} {movie_name} {year}` - Add a movie to a list with year\n"@
        + "`!remove_movie {list_name} {movie_name}` - Remove a movie from a list\n"@
        + "`!watch {list_name} {movie_name}` - Mark a movie as watched\n"@
        + "`!unwatch {list_name} {movie_name}` - Mark a movie as unwatched\n"@
        + "`!list_movies {list_name}` - List all movies in a list\n"@
        + "`!delete_list {list_name}` - Delete a list\n"@
        + "`!help` - Show this message\n"@
}

/// The help card of the bot.
pub fn help_card() -> (card: String)
    ensures
        card@ == help_text(),
{
    let mut card = String::new();
    card.append("Get started by creating a list with `!create_list {list_name}` and adding movies with `!add_movie {list_name} {movie_name}`. After watching a movie mark it watched rather then removing from list with `!watch {list_name} {movie_name}`. Remember to use quotes when typing titles with multiple words.\n");
    card.append("\n");
    card.append("**Commands:**\n");
    card.append("`!search {movie_name}` - Search for movie\n");
    card.append("`!search {movie_name} {year}` - Search for movie with year\n");
    card.append("`!create_list {list_name}` - Create a list\n");
    card.append("`!add_movie {list_name} {movie_name}` - Add a movie to a list\n");
    card.append("`!add_movie {list_name} {movie_name} {year}` - Add a movie to a list with year\n");
    card.append("`!remove_movie {list_name} {movie_name}` - Remove a movie from a list\n");
    card.append("`!watch {list_name} {movie_name}` - Mark a movie as watched\n");
    card.append("`!unwatch {list_name} {movie_name}` - Mark a movie as unwatched\n");
    card.append("`!list_movies {list_name}` - List all movies in a list\n");
    card.append("`!delete_list {list_name}` - Delete a list\n");
    card.append("`!help` - Show this message\n");
    card
}

} // verus!
