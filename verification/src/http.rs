//! The movie database (OMDb) side of the bot: the request addresses, and
//! the reading of a reply into a movie.

use vstd::prelude::*;
use vstd::string::StringExecFns;
use crate::movie::Movie;
use crate::text::{decimal, parse_u32, parse_u32_spec, push_decimal, remove_quotes, without_quotes};
use crate::utils::{is_imdbid, regex_match};

verus! {

/// The address that asks OMDb for a title by name, and by year when given.
pub open spec fn title_request_url(name: Seq<char>, year: Option<u32>, key: Seq<char>) -> Seq<char> {
    match year {
        Some(y) => "http://www.omdbapi.com/?t="@ + name + "&y="@ + decimal(y as nat) + "&apikey="@ + key,
        None => "http://www.omdbapi.com/?t="@ + name + "&apikey="@ + key,
    }
}

/// The address that asks OMDb for a title by its IMDb id.
pub open spec fn id_request_url(id: Seq<char>, key: Seq<char>) -> Seq<char> {
    "http://www.omdbapi.com/?i="@ + id + "&apikey="@ + key
}

/// The address for a title by name (and year), with API key `key`.
pub fn title_url(name: &String, year: Option<u32>, key: &String) -> (r: String)
    ensures
        r@ == title_request_url(name@, year, key@),
{
    let mut r = String::from_str("http://www.omdbapi.com/?t=");
    r.append(name.as_str());
    match year {
        Some(y) => {
            r.append("&y=");
            push_decimal(&mut r, y as u64);
        },
        None => {},
    }
    r.append("&apikey=");
    r.append(key.as_str());
    r
}

/// The address for a title by IMDb id, with API key `key`.
pub fn id_url(id: &String, key: &String) -> (r: String)
    ensures
        r@ == id_request_url(id@, key@),
{
    let mut r = String::from_str("http://www.omdbapi.com/?i=");
    r.append(id.as_str());
    r.append("&apikey=");
    r.append(key.as_str());
    r
}

/// The address to ask OMDb about `name`: by id when `name` holds an IMDb
/// id (the year is then not sent), else by title and year.
pub fn movie_request_url(name: &String, year: Option<u32>, key: &String) -> (r: String)
    ensures
        regex_match("tt\\d{7}"@, name@) == Some(true) ==> r@ == id_request_url(name@, key@),
        regex_match("tt\\d{7}"@, name@) != Some(true) ==> r@ == title_request_url(name@, year, key@),
{
    if is_imdbid(name) {
        id_url(name, key)
    } else {
        title_url(name, year, key)
    }
}

/// Names what `serde_json::from_str::<serde_json::Value>(text)` followed by
/// indexing the value with `key` and `Value::to_string` gives: `None` when
/// `text` is not JSON.
pub uninterp spec fn json_member(text: Seq<char>, key: Seq<char>) -> Option<Seq<char>>;

/// Parses `text` with `serde_json::from_str` into a `serde_json::Value`
/// and gives the compact JSON text (`Value::to_string`) of its member `key`
/// (`null` when the value is no object or has no such member); `None` when
/// `text` is not JSON. The contract only ties the result to the arguments:
/// the JSON grammar and its printing are not stated.
#[verifier::external_body]
fn json_member_text(text: &str, key: &str) -> (r: Option<String>)
    ensures
        match r {
            Some(s) => json_member(text@, key@) == Some(s@),
            None => json_member(text@, key@) is None,
        },
{
    match serde_json::from_str::<serde_json::Value>(text) {
        Ok(v) => Some(v[key].to_string()),
        Err(_) => None,
    }
}

/// The members of an OMDb reply that the bot reads, each as the JSON text
/// of the member's value (a string value keeps its quotes).
pub struct OmdbFields {
    pub response: Seq<char>,
    pub year: Seq<char>,
    pub title: Seq<char>,
    pub director: Seq<char>,
    pub actors: Seq<char>,
    pub language: Seq<char>,
    pub country: Seq<char>,
    pub metascore: Seq<char>,
    pub imdb_rating: Seq<char>,
    pub imdb_id: Seq<char>,
}

/// The members of an OMDb reply, as JSON texts.
pub struct OmdbReply {
    pub response: String,
    pub year: String,
    pub title: String,
    pub director: String,
    pub actors: String,
    pub language: String,
    pub country: String,
    pub metascore: String,
    pub imdb_rating: String,
    pub imdb_id: String,
}

impl View for OmdbReply {
    type V = OmdbFields;

    open spec fn view(&self) -> OmdbFields {
        OmdbFields {
            response: self.response@,
            year: self.year@,
            title: self.title@,
            director: self.director@,
            actors: self.actors@,
            language: self.language@,
            country: self.country@,
            metascore: self.metascore@,
            imdb_rating: self.imdb_rating@,
            imdb_id: self.imdb_id@,
        }
    }
}

/// Why a reply gave no movie.
#[derive(PartialEq, Eq, Structural, Clone, Copy, Debug)]
pub enum OmdbError {
    /// The reply says `"Response": "False"`: OMDb knows no such movie.
    NotFound,
    /// The reply is not JSON.
    InvalidJson,
    /// The reply's year is not a number that fits in a `u32`.
    InvalidYear,
}

/// The reply says that OMDb found no movie: its `Response` member is the
/// JSON string `"False"`. A JSON text that starts with a quote is a
/// string, and its quotes and escapes are fixed by its content, so this is
/// the same as the member being the string `False`.
pub open spec fn says_not_found(f: OmdbFields) -> bool {
    f.response == "\"False\""@
}

/// The year that a reply gives, read from its `Year` text without quotes.
pub open spec fn reply_year(f: OmdbFields) -> Option<u32> {
    parse_u32_spec(without_quotes(f.year))
}

/// `m` is the movie that reply `f` describes, added by `adder`: each text
/// field is the member's JSON text with its quotes taken out.
pub open spec fn describes(m: Movie, f: OmdbFields, adder: Seq<char>) -> bool {
    &&& m.title@ == without_quotes(f.title)
    &&& m.adder@ == adder
    &&& m.director@ == without_quotes(f.director)
    &&& m.actors@ == without_quotes(f.actors)
    &&& m.language@ == without_quotes(f.language)
    &&& m.country@ == without_quotes(f.country)
    &&& m.metascore@ == without_quotes(f.metascore)
    &&& m.imdbrating@ == without_quotes(f.imdb_rating)
    &&& m.imdbid@ == without_quotes(f.imdb_id)
    &&& reply_year(f) == Some(m.year)
    &&& !m.watched
}

/// The movie that an OMDb reply describes; `NotFound` when the reply says
/// there is none. A reply that does describe a movie must give a year.
pub fn movie_from_reply(reply: &OmdbReply, adder: &String) -> (r: Result<Movie, OmdbError>)
    requires
        !says_not_found(reply@) ==> reply_year(reply@) is Some,
    ensures
        says_not_found(reply@) ==> r == Err::<Movie, OmdbError>(OmdbError::NotFound),
        !says_not_found(reply@) ==> (r matches Ok(m) && describes(m, reply@, adder@)),
{
    if reply.response == String::from_str("\"False\"") {
        return Err(OmdbError::NotFound);
    }
    let year = parse_u32(remove_quotes(reply.year.as_str()).as_str());
    let year = match year {
        Some(y) => y,
        None => 0,
    };
    let movie = Movie::new(
        remove_quotes(reply.title.as_str()),
        adder.clone(),
        Some(remove_quotes(reply.director.as_str())),
        Some(remove_quotes(reply.actors.as_str())),
        Some(remove_quotes(reply.language.as_str())),
        Some(remove_quotes(reply.country.as_str())),
        Some(remove_quotes(reply.metascore.as_str())),
        Some(remove_quotes(reply.imdb_rating.as_str())),
        Some(remove_quotes(reply.imdb_id.as_str())),
        Some(year),
    );
    Ok(movie)
}

/// The members that the bot reads from an OMDb reply body, as JSON texts;
/// `None` when the body is not JSON.
pub open spec fn omdb_fields(body: Seq<char>) -> Option<OmdbFields> {
    let get = |key: Seq<char>| json_member(body, key);
    if get("Response"@) is Some && get("Year"@) is Some && get("Title"@) is Some && get(
        "Director"@,
    ) is Some && get("Actors"@) is Some && get("Language"@) is Some && get("Country"@) is Some
        && get("Metascore"@) is Some && get("imdbRating"@) is Some && get("imdbID"@) is Some {
        Some(
            OmdbFields {
                response: get("Response"@)->0,
                year: get("Year"@)->0,
                title: get("Title"@)->0,
                director: get("Director"@)->0,
                actors: get("Actors"@)->0,
                language: get("Language"@)->0,
                country: get("Country"@)->0,
                metascore: get("Metascore"@)->0,
                imdb_rating: get("imdbRating"@)->0,
                imdb_id: get("imdbID"@)->0,
            },
        )
    } else {
        None
    }
}

/// The movie that an OMDb reply body describes, added by `adder`.
pub fn movie_from_omdb_body(body: &str, adder: &String) -> (r: Result<Movie, OmdbError>)
    ensures
        match omdb_fields(body@) {
            None => r == Err::<Movie, OmdbError>(OmdbError::InvalidJson),
            Some(f) => if says_not_found(f) {
                r == Err::<Movie, OmdbError>(OmdbError::NotFound)
            } else if reply_year(f) is None {
                r == Err::<Movie, OmdbError>(OmdbError::InvalidYear)
            } else {
                r matches Ok(m) && describes(m, f, adder@)
            },
        },
{
    let response = json_member_text(body, "Response");
    let year = json_member_text(body, "Year");
    let title = json_member_text(body, "Title");
    let director = json_member_text(body, "Director");
    let actors = json_member_text(body, "Actors");
    let language = json_member_text(body, "Language");
    let country = json_member_text(body, "Country");
    let metascore = json_member_text(body, "Metascore");
    let imdb_rating = json_member_text(body, "imdbRating");
    let imdb_id = json_member_text(body, "imdbID");
    match (response, year, title, director, actors, language, country, metascore, imdb_rating, imdb_id) {
        (
            Some(response),
            Some(year),
            Some(title),
            Some(director),
            Some(actors),
            Some(language),
            Some(country),
            Some(metascore),
            Some(imdb_rating),
            Some(imdb_id),
        ) => {
            let reply = OmdbReply {
                response,
                year,
                title,
                director,
                actors,
                language,
                country,
                metascore,
                imdb_rating,
                imdb_id,
            };
            assert(omdb_fields(body@) == Some(reply@));
            let not_found = reply.response == String::from_str("\"False\"");
            if !not_found && parse_u32(remove_quotes(reply.year.as_str()).as_str()).is_none() {
                return Err(OmdbError::InvalidYear);
            }
            movie_from_reply(&reply, adder)
        },
        _ => Err(OmdbError::InvalidJson),
    }
}

} // verus!

verus! {

/// Law: a movie read from an OMDb reply body takes each text field from the
/// body's member of the same name (`Title`, `Director`, ..., `imdbID`), as
/// that member's JSON text without quotes, its year from the member `Year`,
/// and the adder given; a reply is "not found" exactly when its member
/// `Response` is the JSON string `"False"`.
pub proof fn law_movie_fields_come_from_their_members(body: Seq<char>, adder: Seq<char>, m: Movie)
    ensures
        omdb_fields(body) matches Some(f) ==> (says_not_found(f) <==> json_member(body, "Response"@)
            == Some("\"False\""@)),
        omdb_fields(body) matches Some(f) ==> describes(m, f, adder) ==> {
            &&& m.title@ == without_quotes(json_member(body, "Title"@)->0)
            &&& m.director@ == without_quotes(json_member(body, "Director"@)->0)
            &&& m.actors@ == without_quotes(json_member(body, "Actors"@)->0)
            &&& m.language@ == without_quotes(json_member(body, "Language"@)->0)
            &&& m.country@ == without_quotes(json_member(body, "Country"@)->0)
            &&& m.metascore@ == without_quotes(json_member(body, "Metascore"@)->0)
            &&& m.imdbrating@ == without_quotes(json_member(body, "imdbRating"@)->0)
            &&& m.imdbid@ == without_quotes(json_member(body, "imdbID"@)->0)
            &&& parse_u32_spec(without_quotes(json_member(body, "Year"@)->0)) == Some(m.year)
            &&& m.adder@ == adder
            &&& !m.watched
        },
        omdb_fields(body) is None ==> json_member(body, "Response"@) is None || json_member(
            body,
            "Year"@,
        ) is None || json_member(body, "Title"@) is None || json_member(body, "Director"@) is None
            || json_member(body, "Actors"@) is None || json_member(body, "Language"@) is None
            || json_member(body, "Country"@) is None || json_member(body, "Metascore"@) is None
            || json_member(body, "imdbRating"@) is None || json_member(body, "imdbID"@) is None,
{
}

} // verus!
