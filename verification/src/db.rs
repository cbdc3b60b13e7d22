//! The SQL statements that keep movie lists in a MySQL database, one table
//! per list, and the reading of what the database answers.

use vstd::prelude::*;
use vstd::string::StringExecFns;
use crate::movie::Movie;
use crate::text::{decimal, push_decimal};

verus! {

/// The table of list `list` of the guild with id `guild`: `{guild}_{list}`.
pub open spec fn table_name(guild: u64, list: Seq<char>) -> Seq<char> {
    decimal(guild as nat) + "_"@ + list
}

/// The name of the table that holds list `list` of guild `guild`.
pub fn list_table_name(guild: u64, list: &String) -> (r: String)
    ensures
        r@ == table_name(guild, list@),
{
    let mut r = String::new();
    push_decimal(&mut r, guild);
    r.append("_");
    r.append(list.as_str());
    r
}

fn prefixed(head: &str, name: &str) -> (r: String)
    ensures
        r@ == head@ + name@,
{
    let mut r = String::from_str(head);
    r.append(name);
    r
}

fn statement(head: &str, name: &str, tail: &str) -> (r: String)
    ensures
        r@ == head@ + name@ + tail@,
{
    let mut r = String::from_str(head);
    r.append(name);
    r.append(tail);
    r
}

pub open spec fn create_database_sql(database: Seq<char>) -> Seq<char> {
    "CREATE DATABASE IF NOT EXISTS "@ + database
}

/// The statement that creates database `database` unless it exists.
pub fn create_database_query(database: &String) -> (r: String)
    ensures
        r@ == create_database_sql(database@),
{
    prefixed("CREATE DATABASE IF NOT EXISTS ", database.as_str())
}

/// The columns of a list's table: each name with the rest of its
/// declaration (its type, then the separator that follows it).
pub open spec fn column_decls() -> Seq<(Seq<char>, Seq<char>)> {
    seq![
        ("id"@, " INT NOT NULL AUTO_INCREMENT, "@),
        ("title"@, " VARCHAR(255) NOT NULL,\n"@),
        ("adder"@, " VARCHAR(255) NOT NULL, "@),
        ("director"@, " VARCHAR(255) NOT NULL, "@),
        ("actors"@, " VARCHAR(511) NOT NULL, "@),
        ("language"@, " VARCHAR(255) NOT NULL,\n"@),
        ("country"@, " VARCHAR(255) NOT NULL, "@),
        ("metascore"@, " VARCHAR(255) NOT NULL, "@),
        ("imdbrating"@, " VARCHAR(255) NOT NULL,\n"@),
        ("imdbid"@, " VARCHAR(255) NOT NULL, "@),
        ("year"@, " INT UNSIGNED NOT NULL, "@),
        ("runtime"@, " INT UNSIGNED NOT NULL,\n"@),
        ("genre"@, " VARCHAR(255) NOT NULL, "@),
        ("watched"@, " BOOLEAN NOT NULL, "@),
    ]
}

/// `text` followed by the declarations `ds`, each name then its type.
pub open spec fn with_decls(text: Seq<char>, ds: Seq<(Seq<char>, Seq<char>)>) -> Seq<char>
    decreases ds.len(),
{
    if ds.len() == 0 {
        text
    } else {
        with_decls(text, ds.drop_last()) + ds.last().0 + ds.last().1
    }
}

pub open spec fn create_list_sql(table: Seq<char>) -> Seq<char> {
    with_decls("\nCREATE TABLE IF NOT EXISTS "@ + table + " ("@, column_decls()) + "PRIMARY KEY (id))"@
}

/// The statement that creates the table of a list unless it exists.
#[verifier::rlimit(40)]
pub fn create_list_query(table: &String) -> (r: String)
    ensures
        r@ == create_list_sql(table@),
{
    let mut r = String::from_str("\nCREATE TABLE IF NOT EXISTS ");
    r.append(table.as_str());
    r.append(" (");
    let ghost head = r@;
    r.append("id");
    r.append(" INT NOT NULL AUTO_INCREMENT, ");
    r.append("title");
    r.append(" VARCHAR(255) NOT NULL,\n");
    r.append("adder");
    r.append(" VARCHAR(255) NOT NULL, ");
    r.append("director");
    r.append(" VARCHAR(255) NOT NULL, ");
    r.append("actors");
    r.append(" VARCHAR(511) NOT NULL, ");
    r.append("language");
    r.append(" VARCHAR(255) NOT NULL,\n");
    r.append("country");
    r.append(" VARCHAR(255) NOT NULL, ");
    r.append("metascore");
    r.append(" VARCHAR(255) NOT NULL, ");
    r.append("imdbrating");
    r.append(" VARCHAR(255) NOT NULL,\n");
    r.append("imdbid");
    r.append(" VARCHAR(255) NOT NULL, ");
    r.append("year");
    r.append(" INT UNSIGNED NOT NULL, ");
    r.append("runtime");
    r.append(" INT UNSIGNED NOT NULL,\n");
    r.append("genre");
    r.append(" VARCHAR(255) NOT NULL, ");
    r.append("watched");
    r.append(" BOOLEAN NOT NULL, ");
    proof {
        let d14 = column_decls();
        let d13 = d14.drop_last();
        assert(d13.len() == 13 && d13[12] == ("genre"@, " VARCHAR(255) NOT NULL, "@));
        let d12 = d13.drop_last();
        assert(d12.len() == 12 && d12[11] == ("runtime"@, " INT UNSIGNED NOT NULL,\n"@));
        let d11 = d12.drop_last();
        assert(d11.len() == 11 && d11[10] == ("year"@, " INT UNSIGNED NOT NULL, "@));
        let d10 = d11.drop_last();
        assert(d10.len() == 10 && d10[9] == ("imdbid"@, " VARCHAR(255) NOT NULL, "@));
        let d9 = d10.drop_last();
        assert(d9.len() == 9 && d9[8] == ("imdbrating"@, " VARCHAR(255) NOT NULL,\n"@));
        let d8 = d9.drop_last();
        assert(d8.len() == 8 && d8[7] == ("metascore"@, " VARCHAR(255) NOT NULL, "@));
        let d7 = d8.drop_last();
        assert(d7.len() == 7 && d7[6] == ("country"@, " VARCHAR(255) NOT NULL, "@));
        let d6 = d7.drop_last();
        assert(d6.len() == 6 && d6[5] == ("language"@, " VARCHAR(255) NOT NULL,\n"@));
        let d5 = d6.drop_last();
        assert(d5.len() == 5 && d5[4] == ("actors"@, " VARCHAR(511) NOT NULL, "@));
        let d4 = d5.drop_last();
        assert(d4.len() == 4 && d4[3] == ("director"@, " VARCHAR(255) NOT NULL, "@));
        let d3 = d4.drop_last();
        assert(d3.len() == 3 && d3[2] == ("adder"@, " VARCHAR(255) NOT NULL, "@));
        let d2 = d3.drop_last();
        assert(d2.len() == 2 && d2[1] == ("title"@, " VARCHAR(255) NOT NULL,\n"@));
        let d1 = d2.drop_last();
        assert(d1.len() == 1 && d1[0] == ("id"@, " INT NOT NULL AUTO_INCREMENT, "@));
        assert(with_decls(head, d1.drop_last()) == head);
        assert(with_decls(head, d1) == head + "id"@ + " INT NOT NULL AUTO_INCREMENT, "@);
        assert(with_decls(head, d2) == head + "id"@ + " INT NOT NULL AUTO_INCREMENT, "@ + "title"@ + " VARCHAR(255) NOT NULL,\n"@);
        assert(with_decls(head, d3) == head + "id"@ + " INT NOT NULL AUTO_INCREMENT, "@ + "title"@ + " VARCHAR(255) NOT NULL,\n"@ + "adder"@ + " VARCHAR(255) NOT NULL, "@);
        assert(with_decls(head, d4) == head + "id"@ + " INT NOT NULL AUTO_INCREMENT, "@ + "title"@ + " VARCHAR(255) NOT NULL,\n"@ + "adder"@ + " VARCHAR(255) NOT NULL, "@ + "director"@ + " VARCHAR(255) NOT NULL, "@);
        assert(with_decls(head, d5) == head + "id"@ + " INT NOT NULL AUTO_INCREMENT, "@ + "title"@ + " VARCHAR(255) NOT NULL,\n"@ + "adder"@ + " VARCHAR(255) NOT NULL, "@ + "director"@ + " VARCHAR(255) NOT NULL, "@ + "actors"@ + " VARCHAR(511) NOT NULL, "@);
        assert(with_decls(head, d6) == head + "id"@ + " INT NOT NULL AUTO_INCREMENT, "@ + "title"@ + " VARCHAR(255) NOT NULL,\n"@ + "adder"@ + " VARCHAR(255) NOT NULL, "@ + "director"@ + " VARCHAR(255) NOT NULL, "@ + "actors"@ + " VARCHAR(511) NOT NULL, "@ + "language"@ + " VARCHAR(255) NOT NULL,\n"@);
        assert(with_decls(head, d7) == head + "id"@ + " INT NOT NULL AUTO_INCREMENT, "@ + "title"@ + " VARCHAR(255) NOT NULL,\n"@ + "adder"@ + " VARCHAR(255) NOT NULL, "@ + "director"@ + " VARCHAR(255) NOT NULL, "@ + "actors"@ + " VARCHAR(511) NOT NULL, "@ + "language"@ + " VARCHAR(255) NOT NULL,\n"@ + "country"@ + " VARCHAR(255) NOT NULL, "@);
        assert(with_decls(head, d8) == head + "id"@ + " INT NOT NULL AUTO_INCREMENT, "@ + "title"@ + " VARCHAR(255) NOT NULL,\n"@ + "adder"@ + " VARCHAR(255) NOT NULL, "@ + "director"@ + " VARCHAR(255) NOT NULL, "@ + "actors"@ + " VARCHAR(511) NOT NULL, "@ + "language"@ + " VARCHAR(255) NOT NULL,\n"@ + "country"@ + " VARCHAR(255) NOT NULL, "@ + "metascore"@ + " VARCHAR(255) NOT NULL, "@);
        assert(with_decls(head, d9) == head + "id"@ + " INT NOT NULL AUTO_INCREMENT, "@ + "title"@ + " VARCHAR(255) NOT NULL,\n"@ + "adder"@ + " VARCHAR(255) NOT NULL, "@ + "director"@ + " VARCHAR(255) NOT NULL, "@ + "actors"@ + " VARCHAR(511) NOT NULL, "@ + "language"@ + " VARCHAR(255) NOT NULL,\n"@ + "country"@ + " VARCHAR(255) NOT NULL, "@ + "metascore"@ + " VARCHAR(255) NOT NULL, "@ + "imdbrating"@ + " VARCHAR(255) NOT NULL,\n"@);
        assert(with_decls(head, d10) == head + "id"@ + " INT NOT NULL AUTO_INCREMENT, "@ + "title"@ + " VARCHAR(255) NOT NULL,\n"@ + "adder"@ + " VARCHAR(255) NOT NULL, "@ + "director"@ + " VARCHAR(255) NOT NULL, "@ + "actors"@ + " VARCHAR(511) NOT NULL, "@ + "language"@ + " VARCHAR(255) NOT NULL,\n"@ + "country"@ + " VARCHAR(255) NOT NULL, "@ + "metascore"@ + " VARCHAR(255) NOT NULL, "@ + "imdbrating"@ + " VARCHAR(255) NOT NULL,\n"@ + "imdbid"@ + " VARCHAR(255) NOT NULL, "@);
        assert(with_decls(head, d11) == head + "id"@ + " INT NOT NULL AUTO_INCREMENT, "@ + "title"@ + " VARCHAR(255) NOT NULL,\n"@ + "adder"@ + " VARCHAR(255) NOT NULL, "@ + "director"@ + " VARCHAR(255) NOT NULL, "@ + "actors"@ + " VARCHAR(511) NOT NULL, "@ + "language"@ + " VARCHAR(255) NOT NULL,\n"@ + "country"@ + " VARCHAR(255) NOT NULL, "@ + "metascore"@ + " VARCHAR(255) NOT NULL, "@ + "imdbrating"@ + " VARCHAR(255) NOT NULL,\n"@ + "imdbid"@ + " VARCHAR(255) NOT NULL, "@ + "year"@ + " INT UNSIGNED NOT NULL, "@);
        assert(with_decls(head, d12) == head + "id"@ + " INT NOT NULL AUTO_INCREMENT, "@ + "title"@ + " VARCHAR(255) NOT NULL,\n"@ + "adder"@ + " VARCHAR(255) NOT NULL, "@ + "director"@ + " VARCHAR(255) NOT NULL, "@ + "actors"@ + " VARCHAR(511) NOT NULL, "@ + "language"@ + " VARCHAR(255) NOT NULL,\n"@ + "country"@ + " VARCHAR(255) NOT NULL, "@ + "metascore"@ + " VARCHAR(255) NOT NULL, "@ + "imdbrating"@ + " VARCHAR(255) NOT NULL,\n"@ + "imdbid"@ + " VARCHAR(255) NOT NULL, "@ + "year"@ + " INT UNSIGNED NOT NULL, "@ + "runtime"@ + " INT UNSIGNED NOT NULL,\n"@);
        assert(with_decls(head, d13) == head + "id"@ + " INT NOT NULL AUTO_INCREMENT, "@ + "title"@ + " VARCHAR(255) NOT NULL,\n"@ + "adder"@ + " VARCHAR(255) NOT NULL, "@ + "director"@ + " VARCHAR(255) NOT NULL, "@ + "actors"@ + " VARCHAR(511) NOT NULL, "@ + "language"@ + " VARCHAR(255) NOT NULL,\n"@ + "country"@ + " VARCHAR(255) NOT NULL, "@ + "metascore"@ + " VARCHAR(255) NOT NULL, "@ + "imdbrating"@ + " VARCHAR(255) NOT NULL,\n"@ + "imdbid"@ + " VARCHAR(255) NOT NULL, "@ + "year"@ + " INT UNSIGNED NOT NULL, "@ + "runtime"@ + " INT UNSIGNED NOT NULL,\n"@ + "genre"@ + " VARCHAR(255) NOT NULL, "@);
        assert(with_decls(head, d14) == head + "id"@ + " INT NOT NULL AUTO_INCREMENT, "@ + "title"@ + " VARCHAR(255) NOT NULL,\n"@ + "adder"@ + " VARCHAR(255) NOT NULL, "@ + "director"@ + " VARCHAR(255) NOT NULL, "@ + "actors"@ + " VARCHAR(511) NOT NULL, "@ + "language"@ + " VARCHAR(255) NOT NULL,\n"@ + "country"@ + " VARCHAR(255) NOT NULL, "@ + "metascore"@ + " VARCHAR(255) NOT NULL, "@ + "imdbrating"@ + " VARCHAR(255) NOT NULL,\n"@ + "imdbid"@ + " VARCHAR(255) NOT NULL, "@ + "year"@ + " INT UNSIGNED NOT NULL, "@ + "runtime"@ + " INT UNSIGNED NOT NULL,\n"@ + "genre"@ + " VARCHAR(255) NOT NULL, "@ + "watched"@ + " BOOLEAN NOT NULL, "@);
    }
    r.append("PRIMARY KEY (id))");
    r
}

pub open spec fn delete_list_sql(table: Seq<char>) -> Seq<char> {
    "DROP TABLE "@ + table
}

/// The statement that drops the table of a list.
pub fn delete_list_query(table: &String) -> (r: String)
    ensures
        r@ == delete_list_sql(table@),
{
    prefixed("DROP TABLE ", table.as_str())
}

/// How `{}` prints a `bool`.
pub open spec fn bool_text(b: bool) -> Seq<char> {
    if b {
        "true"@
    } else {
        "false"@
    }
}

/// The statement that inserts `m` into a list's table. The table has a
/// `runtime` and a `genre` column that a movie does not carry: they get the
/// values that stand for missing data, `0` and `"NULL"`.
pub open spec fn add_movie_sql(table: Seq<char>, m: Movie) -> Seq<char> {
    "INSERT INTO "@ + table + " ("@ + "title"@ + ", "@ + "adder"@ + ", "@ + "director"@ + ", "@ + "actors"@ + ", "@ + "language"@ + ", "@ + "country"@ + ", "@ + "metascore"@ + ", "@ + "imdbrating"@ + ", "@ + "imdbid"@ + ", "@ + "year"@ + ", "@ + "runtime"@ + ", "@ + "genre"@ + ", "@ + "watched"@ + ")\nVALUES ("@ + sql_string(m.title@) + ","@ + sql_string(m.adder@) + ","@ + sql_string(m.director@) + ","@ + sql_string(m.actors@) + ","@ + sql_string(m.language@) + ","@ + sql_string(m.country@) + ","@ + sql_string(m.metascore@) + ","@ + sql_string(m.imdbrating@) + ","@ + sql_string(m.imdbid@) + ", "@ + decimal(m.year as nat) + ", "@ + "0"@ + ", "@ + sql_string("NULL"@) + ", "@ + bool_text(m.watched) + ")"@
}

fn push_sql_string(r: &mut String, v: &str)
    ensures
        final(r)@ == old(r)@ + sql_string(v@),
{
    r.append("\"");
    r.append(v);
    r.append("\"");
    assert(r@ =~= old(r)@ + sql_string(v@));
}

/// The statement that inserts `movie` into the table `table`.
pub fn add_movie_query(table: &String, movie: &Movie) -> (r: String)
    ensures
        r@ == add_movie_sql(table@, *movie),
{
    let mut r = String::from_str("INSERT INTO ");
    r.append(table.as_str());
    r.append(" (");
    r.append("title");
    r.append(", ");
    r.append("adder");
    r.append(", ");
    r.append("director");
    r.append(", ");
    r.append("actors");
    r.append(", ");
    r.append("language");
    r.append(", ");
    r.append("country");
    r.append(", ");
    r.append("metascore");
    r.append(", ");
    r.append("imdbrating");
    r.append(", ");
    r.append("imdbid");
    r.append(", ");
    r.append("year");
    r.append(", ");
    r.append("runtime");
    r.append(", ");
    r.append("genre");
    r.append(", ");
    r.append("watched");
    r.append(")\nVALUES (");
    push_sql_string(&mut r, movie.title.as_str());
    r.append(",");
    push_sql_string(&mut r, movie.adder.as_str());
    r.append(",");
    push_sql_string(&mut r, movie.director.as_str());
    r.append(",");
    push_sql_string(&mut r, movie.actors.as_str());
    r.append(",");
    push_sql_string(&mut r, movie.language.as_str());
    r.append(",");
    push_sql_string(&mut r, movie.country.as_str());
    r.append(",");
    push_sql_string(&mut r, movie.metascore.as_str());
    r.append(",");
    push_sql_string(&mut r, movie.imdbrating.as_str());
    r.append(",");
    push_sql_string(&mut r, movie.imdbid.as_str());
    r.append(", ");
    push_decimal(&mut r, movie.year as u64);
    r.append(", ");
    r.append("0");
    r.append(", ");
    push_sql_string(&mut r, "NULL");
    r.append(", ");
    if movie.watched {
        r.append("true");
    } else {
        r.append("false");
    }
    r.append(")");
    r
}

/// The statement that sets whether the movie titled like `m` is watched,
/// to `m.watched` (written `1` or `0`).
pub open spec fn watch_movie_sql(table: Seq<char>, m: Movie) -> Seq<char> {
    "UPDATE "@ + table + " SET watched = \""@ + (if m.watched {
        "1"@
    } else {
        "0"@
    }) + "\" WHERE title = \""@ + m.title@ + "\""@
}

/// The statement that stores whether `movie` is watched.
pub fn watch_movie_query(table: &String, movie: &Movie) -> (r: String)
    ensures
        r@ == watch_movie_sql(table@, *movie),
{
    let mut r = String::from_str("UPDATE ");
    r.append(table.as_str());
    r.append(" SET watched = \"");
    if movie.watched {
        r.append("1");
    } else {
        r.append("0");
    }
    r.append("\" WHERE title = \"");
    r.append(movie.title.as_str());
    r.append("\"");
    r
}

pub open spec fn delete_movie_sql(table: Seq<char>, title: Seq<char>) -> Seq<char> {
    "DELETE FROM "@ + table + " WHERE title = \""@ + title + "\""@
}

/// The statement that deletes the movies titled `title`.
pub fn delete_movie_query(table: &String, title: &String) -> (r: String)
    ensures
        r@ == delete_movie_sql(table@, title@),
{
    let mut r = statement("DELETE FROM ", table.as_str(), " WHERE title = \"");
    r.append(title.as_str());
    r.append("\"");
    r
}

pub open spec fn movie_by_name_sql(table: Seq<char>, title: Seq<char>) -> Seq<char> {
    "SELECT * FROM "@ + table + " WHERE title = \""@ + title + "\""@
}

/// The statement that selects the movies titled `title`.
pub fn get_movie_by_name_query(table: &String, title: &String) -> (r: String)
    ensures
        r@ == movie_by_name_sql(table@, title@),
{
    let mut r = statement("SELECT * FROM ", table.as_str(), " WHERE title = \"");
    r.append(title.as_str());
    r.append("\"");
    r
}

pub open spec fn movies_sql(table: Seq<char>) -> Seq<char> {
    "SELECT * FROM "@ + table
}

/// The statement that selects every movie of a list.
pub fn get_movies_query(table: &String) -> (r: String)
    ensures
        r@ == movies_sql(table@),
{
    prefixed("SELECT * FROM ", table.as_str())
}

pub open spec fn movies_short_sql(table: Seq<char>) -> Seq<char> {
    "SELECT title, adder, year, imdbid, watched FROM "@ + table
}

/// The statement that selects the short form of every movie of a list.
pub fn get_movies_short_query(table: &String) -> (r: String)
    ensures
        r@ == movies_short_sql(table@),
{
    prefixed("SELECT title, adder, year, imdbid, watched FROM ", table.as_str())
}

/// The statement that lists the tables of the database.
pub fn show_tables_query() -> (r: String)
    ensures
        r@ == "SHOW TABLES"@,
{
    String::from_str("SHOW TABLES")
}

/// Whether a statement changed anything, from the number of rows it
/// affected.
pub fn changed_any(rows_affected: u64) -> (r: bool)
    ensures
        r == (rows_affected > 0),
{
    rows_affected > 0
}

/// Whether `table` is among the names that `SHOW TABLES` listed.
pub fn table_listed(tables: &Vec<String>, table: &String) -> (r: bool)
    ensures
        r == exists|i: int| 0 <= i < tables@.len() && (#[trigger] tables@[i])@ == table@,
{
    let mut i: usize = 0;
    while i < tables.len()
        invariant
            i <= tables.len(),
            forall|k: int| 0 <= k < i ==> (#[trigger] tables@[k])@ != table@,
        decreases tables.len() - i,
    {
        if tables[i] == *table {
            return true;
        }
        i = i + 1;
    }
    false
}

} // verus!

verus! {

/// The columns that an insert fills, in the order the statement names them.
pub open spec fn insert_columns() -> Seq<Seq<char>> {
    seq![
        "title"@, "adder"@, "director"@, "actors"@, "language"@, "country"@, "metascore"@,
        "imdbrating"@, "imdbid"@, "year"@, "runtime"@, "genre"@, "watched"@,
    ]
}

/// Text written as an SQL string: between double quotes.
pub open spec fn sql_string(v: Seq<char>) -> Seq<char> {
    "\""@ + v + "\""@
}

/// The SQL text of the value that column `c` of a list's table gets when
/// movie `m` is stored: each text column gets the movie's field of that
/// name as a string.
pub open spec fn column_value(m: Movie, c: Seq<char>) -> Seq<char> {
    if c == "title"@ {
        sql_string(m.title@)
    } else if c == "adder"@ {
        sql_string(m.adder@)
    } else if c == "director"@ {
        sql_string(m.director@)
    } else if c == "actors"@ {
        sql_string(m.actors@)
    } else if c == "language"@ {
        sql_string(m.language@)
    } else if c == "country"@ {
        sql_string(m.country@)
    } else if c == "metascore"@ {
        sql_string(m.metascore@)
    } else if c == "imdbrating"@ {
        sql_string(m.imdbrating@)
    } else if c == "imdbid"@ {
        sql_string(m.imdbid@)
    } else if c == "year"@ {
        decimal(m.year as nat)
    } else if c == "runtime"@ {
        "0"@
    } else if c == "genre"@ {
        sql_string("NULL"@)
    } else if c == "watched"@ {
        bool_text(m.watched)
    } else {
        Seq::empty()
    }
}

/// `text` followed by the column names `cs`, separated by `, `.
#[verifier::opaque]
pub open spec fn with_names(text: Seq<char>, cs: Seq<Seq<char>>) -> Seq<char>
    decreases cs.len(),
{
    if cs.len() == 0 {
        text
    } else if cs.len() == 1 {
        text + cs[0]
    } else {
        with_names(text, cs.drop_last()) + ", "@ + cs.last()
    }
}

/// What stands before the value at position `k` (from 1 on) in the value
/// list: `,` between the leading string values, `, ` from the year on.
pub open spec fn value_separator(k: int) -> Seq<char> {
    if k < 9 {
        ","@
    } else {
        ", "@
    }
}

/// `text` followed by the values that the columns `cs` get for movie `m`,
/// in the same order.
#[verifier::opaque]
pub open spec fn with_values(text: Seq<char>, m: Movie, cs: Seq<Seq<char>>) -> Seq<char>
    decreases cs.len(),
{
    if cs.len() == 0 {
        text
    } else if cs.len() == 1 {
        text + column_value(m, cs[0])
    } else {
        with_values(text, m, cs.drop_last()) + value_separator(cs.len() - 1) + column_value(
            m,
            cs.last(),
        )
    }
}

proof fn lemma_column_values(m: Movie)
    ensures
        column_value(m, "title"@) == sql_string(m.title@),
        column_value(m, "adder"@) == sql_string(m.adder@),
        column_value(m, "director"@) == sql_string(m.director@),
        column_value(m, "actors"@) == sql_string(m.actors@),
        column_value(m, "language"@) == sql_string(m.language@),
        column_value(m, "country"@) == sql_string(m.country@),
        column_value(m, "metascore"@) == sql_string(m.metascore@),
        column_value(m, "imdbrating"@) == sql_string(m.imdbrating@),
        column_value(m, "imdbid"@) == sql_string(m.imdbid@),
        column_value(m, "year"@) == decimal(m.year as nat),
        column_value(m, "runtime"@) == "0"@,
        column_value(m, "genre"@) == sql_string("NULL"@),
        column_value(m, "watched"@) == bool_text(m.watched),
{
    reveal_strlit("title");
    reveal_strlit("adder");
    reveal_strlit("director");
    reveal_strlit("actors");
    reveal_strlit("language");
    reveal_strlit("country");
    reveal_strlit("metascore");
    reveal_strlit("imdbrating");
    reveal_strlit("imdbid");
    reveal_strlit("year");
    reveal_strlit("runtime");
    reveal_strlit("genre");
    reveal_strlit("watched");
    assert("title"@.len() == 5);
    assert("title"@[0] == 't');
    assert("adder"@.len() == 5);
    assert("adder"@[0] == 'a');
    assert("director"@.len() == 8);
    assert("director"@[0] == 'd');
    assert("actors"@.len() == 6);
    assert("actors"@[0] == 'a');
    assert("language"@.len() == 8);
    assert("language"@[0] == 'l');
    assert("country"@.len() == 7);
    assert("country"@[0] == 'c');
    assert("metascore"@.len() == 9);
    assert("metascore"@[0] == 'm');
    assert("imdbrating"@.len() == 10);
    assert("imdbrating"@[0] == 'i');
    assert("imdbid"@.len() == 6);
    assert("imdbid"@[0] == 'i');
    assert("year"@.len() == 4);
    assert("year"@[0] == 'y');
    assert("runtime"@.len() == 7);
    assert("runtime"@[0] == 'r');
    assert("genre"@.len() == 5);
    assert("genre"@[0] == 'g');
    assert("watched"@.len() == 7);
    assert("watched"@[0] == 'w');
}

proof fn lemma_with_column_names(text: Seq<char>)
    ensures
        with_names(text, insert_columns()) == text + "title"@ + ", "@ + "adder"@ + ", "@ + "director"@ + ", "@ + "actors"@ + ", "@ + "language"@ + ", "@ + "country"@ + ", "@ + "metascore"@ + ", "@ + "imdbrating"@ + ", "@ + "imdbid"@ + ", "@ + "year"@ + ", "@ + "runtime"@ + ", "@ + "genre"@ + ", "@ + "watched"@,
{
    reveal(with_names);
    let p13 = insert_columns();
    let p12 = p13.drop_last();
    assert(p12.len() == 12 && p12[11] == "genre"@);
    let p11 = p12.drop_last();
    assert(p11.len() == 11 && p11[10] == "runtime"@);
    let p10 = p11.drop_last();
    assert(p10.len() == 10 && p10[9] == "year"@);
    let p9 = p10.drop_last();
    assert(p9.len() == 9 && p9[8] == "imdbid"@);
    let p8 = p9.drop_last();
    assert(p8.len() == 8 && p8[7] == "imdbrating"@);
    let p7 = p8.drop_last();
    assert(p7.len() == 7 && p7[6] == "metascore"@);
    let p6 = p7.drop_last();
    assert(p6.len() == 6 && p6[5] == "country"@);
    let p5 = p6.drop_last();
    assert(p5.len() == 5 && p5[4] == "language"@);
    let p4 = p5.drop_last();
    assert(p4.len() == 4 && p4[3] == "actors"@);
    let p3 = p4.drop_last();
    assert(p3.len() == 3 && p3[2] == "director"@);
    let p2 = p3.drop_last();
    assert(p2.len() == 2 && p2[1] == "adder"@);
    let p1 = p2.drop_last();
    assert(p1.len() == 1 && p1[0] == "title"@);
    assert(with_names(text, p1) == text + "title"@);
    assert(with_names(text, p2) == text + "title"@ + ", "@ + "adder"@);
    assert(with_names(text, p3) == text + "title"@ + ", "@ + "adder"@ + ", "@ + "director"@);
    assert(with_names(text, p4) == text + "title"@ + ", "@ + "adder"@ + ", "@ + "director"@ + ", "@ + "actors"@);
    assert(with_names(text, p5) == text + "title"@ + ", "@ + "adder"@ + ", "@ + "director"@ + ", "@ + "actors"@ + ", "@ + "language"@);
    assert(with_names(text, p6) == text + "title"@ + ", "@ + "adder"@ + ", "@ + "director"@ + ", "@ + "actors"@ + ", "@ + "language"@ + ", "@ + "country"@);
    assert(with_names(text, p7) == text + "title"@ + ", "@ + "adder"@ + ", "@ + "director"@ + ", "@ + "actors"@ + ", "@ + "language"@ + ", "@ + "country"@ + ", "@ + "metascore"@);
    assert(with_names(text, p8) == text + "title"@ + ", "@ + "adder"@ + ", "@ + "director"@ + ", "@ + "actors"@ + ", "@ + "language"@ + ", "@ + "country"@ + ", "@ + "metascore"@ + ", "@ + "imdbrating"@);
    assert(with_names(text, p9) == text + "title"@ + ", "@ + "adder"@ + ", "@ + "director"@ + ", "@ + "actors"@ + ", "@ + "language"@ + ", "@ + "country"@ + ", "@ + "metascore"@ + ", "@ + "imdbrating"@ + ", "@ + "imdbid"@);
    assert(with_names(text, p10) == text + "title"@ + ", "@ + "adder"@ + ", "@ + "director"@ + ", "@ + "actors"@ + ", "@ + "language"@ + ", "@ + "country"@ + ", "@ + "metascore"@ + ", "@ + "imdbrating"@ + ", "@ + "imdbid"@ + ", "@ + "year"@);
    assert(with_names(text, p11) == text + "title"@ + ", "@ + "adder"@ + ", "@ + "director"@ + ", "@ + "actors"@ + ", "@ + "language"@ + ", "@ + "country"@ + ", "@ + "metascore"@ + ", "@ + "imdbrating"@ + ", "@ + "imdbid"@ + ", "@ + "year"@ + ", "@ + "runtime"@);
    assert(with_names(text, p12) == text + "title"@ + ", "@ + "adder"@ + ", "@ + "director"@ + ", "@ + "actors"@ + ", "@ + "language"@ + ", "@ + "country"@ + ", "@ + "metascore"@ + ", "@ + "imdbrating"@ + ", "@ + "imdbid"@ + ", "@ + "year"@ + ", "@ + "runtime"@ + ", "@ + "genre"@);
    assert(with_names(text, p13) == text + "title"@ + ", "@ + "adder"@ + ", "@ + "director"@ + ", "@ + "actors"@ + ", "@ + "language"@ + ", "@ + "country"@ + ", "@ + "metascore"@ + ", "@ + "imdbrating"@ + ", "@ + "imdbid"@ + ", "@ + "year"@ + ", "@ + "runtime"@ + ", "@ + "genre"@ + ", "@ + "watched"@);
}

#[verifier::rlimit(40)]
proof fn lemma_with_column_values(text: Seq<char>, m: Movie)
    ensures
        with_values(text, m, insert_columns()) == text + sql_string(m.title@) + ","@ + sql_string(m.adder@) + ","@ + sql_string(m.director@) + ","@ + sql_string(m.actors@) + ","@ + sql_string(m.language@) + ","@ + sql_string(m.country@) + ","@ + sql_string(m.metascore@) + ","@ + sql_string(m.imdbrating@) + ","@ + sql_string(m.imdbid@) + ", "@ + decimal(m.year as nat) + ", "@ + "0"@ + ", "@ + sql_string("NULL"@) + ", "@ + bool_text(m.watched),
{
    reveal(with_values);
    lemma_column_values(m);
    let p13 = insert_columns();
    let p12 = p13.drop_last();
    assert(p12.len() == 12 && p12[11] == "genre"@);
    let p11 = p12.drop_last();
    assert(p11.len() == 11 && p11[10] == "runtime"@);
    let p10 = p11.drop_last();
    assert(p10.len() == 10 && p10[9] == "year"@);
    let p9 = p10.drop_last();
    assert(p9.len() == 9 && p9[8] == "imdbid"@);
    let p8 = p9.drop_last();
    assert(p8.len() == 8 && p8[7] == "imdbrating"@);
    let p7 = p8.drop_last();
    assert(p7.len() == 7 && p7[6] == "metascore"@);
    let p6 = p7.drop_last();
    assert(p6.len() == 6 && p6[5] == "country"@);
    let p5 = p6.drop_last();
    assert(p5.len() == 5 && p5[4] == "language"@);
    let p4 = p5.drop_last();
    assert(p4.len() == 4 && p4[3] == "actors"@);
    let p3 = p4.drop_last();
    assert(p3.len() == 3 && p3[2] == "director"@);
    let p2 = p3.drop_last();
    assert(p2.len() == 2 && p2[1] == "adder"@);
    let p1 = p2.drop_last();
    assert(p1.len() == 1 && p1[0] == "title"@);
    assert(with_values(text, m, p1) == text + sql_string(m.title@));
    assert(with_values(text, m, p2) == text + sql_string(m.title@) + ","@ + sql_string(m.adder@));
    assert(with_values(text, m, p3) == text + sql_string(m.title@) + ","@ + sql_string(m.adder@) + ","@ + sql_string(m.director@));
    assert(with_values(text, m, p4) == text + sql_string(m.title@) + ","@ + sql_string(m.adder@) + ","@ + sql_string(m.director@) + ","@ + sql_string(m.actors@));
    assert(with_values(text, m, p5) == text + sql_string(m.title@) + ","@ + sql_string(m.adder@) + ","@ + sql_string(m.director@) + ","@ + sql_string(m.actors@) + ","@ + sql_string(m.language@));
    assert(with_values(text, m, p6) == text + sql_string(m.title@) + ","@ + sql_string(m.adder@) + ","@ + sql_string(m.director@) + ","@ + sql_string(m.actors@) + ","@ + sql_string(m.language@) + ","@ + sql_string(m.country@));
    assert(with_values(text, m, p7) == text + sql_string(m.title@) + ","@ + sql_string(m.adder@) + ","@ + sql_string(m.director@) + ","@ + sql_string(m.actors@) + ","@ + sql_string(m.language@) + ","@ + sql_string(m.country@) + ","@ + sql_string(m.metascore@));
    assert(with_values(text, m, p8) == text + sql_string(m.title@) + ","@ + sql_string(m.adder@) + ","@ + sql_string(m.director@) + ","@ + sql_string(m.actors@) + ","@ + sql_string(m.language@) + ","@ + sql_string(m.country@) + ","@ + sql_string(m.metascore@) + ","@ + sql_string(m.imdbrating@));
    assert(with_values(text, m, p9) == text + sql_string(m.title@) + ","@ + sql_string(m.adder@) + ","@ + sql_string(m.director@) + ","@ + sql_string(m.actors@) + ","@ + sql_string(m.language@) + ","@ + sql_string(m.country@) + ","@ + sql_string(m.metascore@) + ","@ + sql_string(m.imdbrating@) + ","@ + sql_string(m.imdbid@));
    assert(with_values(text, m, p10) == text + sql_string(m.title@) + ","@ + sql_string(m.adder@) + ","@ + sql_string(m.director@) + ","@ + sql_string(m.actors@) + ","@ + sql_string(m.language@) + ","@ + sql_string(m.country@) + ","@ + sql_string(m.metascore@) + ","@ + sql_string(m.imdbrating@) + ","@ + sql_string(m.imdbid@) + ", "@ + decimal(m.year as nat));
    assert(with_values(text, m, p11) == text + sql_string(m.title@) + ","@ + sql_string(m.adder@) + ","@ + sql_string(m.director@) + ","@ + sql_string(m.actors@) + ","@ + sql_string(m.language@) + ","@ + sql_string(m.country@) + ","@ + sql_string(m.metascore@) + ","@ + sql_string(m.imdbrating@) + ","@ + sql_string(m.imdbid@) + ", "@ + decimal(m.year as nat) + ", "@ + "0"@);
    assert(with_values(text, m, p12) == text + sql_string(m.title@) + ","@ + sql_string(m.adder@) + ","@ + sql_string(m.director@) + ","@ + sql_string(m.actors@) + ","@ + sql_string(m.language@) + ","@ + sql_string(m.country@) + ","@ + sql_string(m.metascore@) + ","@ + sql_string(m.imdbrating@) + ","@ + sql_string(m.imdbid@) + ", "@ + decimal(m.year as nat) + ", "@ + "0"@ + ", "@ + sql_string("NULL"@));
    assert(with_values(text, m, p13) == text + sql_string(m.title@) + ","@ + sql_string(m.adder@) + ","@ + sql_string(m.director@) + ","@ + sql_string(m.actors@) + ","@ + sql_string(m.language@) + ","@ + sql_string(m.country@) + ","@ + sql_string(m.metascore@) + ","@ + sql_string(m.imdbrating@) + ","@ + sql_string(m.imdbid@) + ", "@ + decimal(m.year as nat) + ", "@ + "0"@ + ", "@ + sql_string("NULL"@) + ", "@ + bool_text(m.watched));
}

/// Law: the insert statement names the columns of `insert_columns` and
/// gives the values in the same order: the k-th value is the value of the
/// movie's field that the k-th column names.
pub proof fn law_insert_values_match_columns(table: Seq<char>, m: Movie)
    ensures
        add_movie_sql(table, m) == with_values(
            with_names("INSERT INTO "@ + table + " ("@, insert_columns()) + ")\nVALUES ("@,
            m,
            insert_columns(),
        ) + ")"@,
{
    let names = "INSERT INTO "@ + table + " ("@;
    lemma_with_column_names(names);
    lemma_with_column_values(with_names(names, insert_columns()) + ")\nVALUES ("@, m);
}

} // verus!

verus! {

/// Whether `c` stands in `sql` as a whole word followed by a space: right
/// after a space, a line break or an opening parenthesis. In a `CREATE
/// TABLE` statement this is how column `c` is declared with its type.
pub open spec fn declares(sql: Seq<char>, c: Seq<char>) -> bool {
    exists|i: int|
        0 < i && i + c.len() < sql.len() && #[trigger] sql.subrange(i, i + c.len()) == c
            && sql[i + c.len()] == ' ' && (sql[i - 1] == ' ' || sql[i - 1] == '\n' || sql[i
            - 1] == '(')
}

/// Appending text keeps every declaration.
proof fn lemma_declares_append(s: Seq<char>, x: Seq<char>, c: Seq<char>)
    requires
        declares(s, c),
    ensures
        declares(s + x, c),
{
    let i = choose|i: int|
        0 < i && i + c.len() < s.len() && #[trigger] s.subrange(i, i + c.len()) == c
            && s[i + c.len()] == ' ' && (s[i - 1] == ' ' || s[i - 1] == '\n' || s[i - 1] == '(');
    assert((s + x).subrange(i, i + c.len()) =~= s.subrange(i, i + c.len()));
}

pub open spec fn ends_in_separator(s: Seq<char>) -> bool {
    s.len() > 0 && (s.last() == ' ' || s.last() == '\n' || s.last() == '(')
}

/// Every declaration of `ds` stands in `with_decls(text, ds)`.
proof fn lemma_with_decls_declares(text: Seq<char>, ds: Seq<(Seq<char>, Seq<char>)>, k: int)
    requires
        ends_in_separator(text),
        0 <= k < ds.len(),
        forall|j: int| 0 <= j < ds.len() ==> (#[trigger] ds[j]).1.len() > 0 && ds[j].1[0] == ' '
            && ends_in_separator(ds[j].1),
    ensures
        declares(with_decls(text, ds), ds[k].0),
        ends_in_separator(with_decls(text, ds)),
    decreases ds.len(),
{
    let init = ds.drop_last();
    let a = with_decls(text, init);
    let (c, t) = ds.last();
    assert(ds[ds.len() - 1] == ds.last());
    if init.len() > 0 {
        lemma_with_decls_declares(text, init, 0);
    }
    assert(ends_in_separator(a));
    let s = a + c + t;
    assert(with_decls(text, ds) == s);
    assert(s.last() == t.last());
    if k == ds.len() - 1 {
        let i = a.len() as int;
        assert(s.subrange(i, i + c.len()) =~= c);
        assert(s[i + c.len()] == t[0]);
        assert(s[i - 1] == a.last());
    } else {
        assert(ds[k] == init[k]);
        lemma_with_decls_declares(text, init, k);
        lemma_declares_append(a, c, ds[k].0);
        lemma_declares_append(a + c, t, ds[k].0);
    }
}

/// Law: the table of a list declares every column that the insert
/// statement of a movie fills, so a stored movie has a column for each of
/// its values.
pub proof fn law_list_table_declares_insert_columns(table: Seq<char>)
    ensures
        forall|k: int| 0 <= k < insert_columns().len() ==> declares(
            create_list_sql(table),
            #[trigger] insert_columns()[k],
        ),
{
    let ds = column_decls();
    let head = "\nCREATE TABLE IF NOT EXISTS "@ + table + " ("@;
    reveal_strlit(" (");
    assert(head.last() == '(');
    reveal_strlit(" INT NOT NULL AUTO_INCREMENT, ");
    reveal_strlit(" VARCHAR(255) NOT NULL,\n");
    reveal_strlit(" VARCHAR(255) NOT NULL, ");
    reveal_strlit(" VARCHAR(511) NOT NULL, ");
    reveal_strlit(" INT UNSIGNED NOT NULL, ");
    reveal_strlit(" INT UNSIGNED NOT NULL,\n");
    reveal_strlit(" BOOLEAN NOT NULL, ");
    assert forall|j: int| 0 <= j < ds.len() implies (#[trigger] ds[j]).1.len() > 0 && ds[j].1[0]
        == ' ' && ends_in_separator(ds[j].1) by {}
    assert forall|k: int| 0 <= k < insert_columns().len() implies declares(
        create_list_sql(table),
        #[trigger] insert_columns()[k],
    ) by {
        assert(insert_columns()[k] == ds[k + 1].0);
        lemma_with_decls_declares(head, ds, k + 1);
        lemma_declares_append(with_decls(head, ds), "PRIMARY KEY (id))"@, ds[k + 1].0);
    }
}

} // verus!

verus! {

/// Law: different guilds, or different list names, never share a table.
pub proof fn law_table_names_are_distinct(g1: u64, l1: Seq<char>, g2: u64, l2: Seq<char>)
    requires
        table_name(g1, l1) == table_name(g2, l2),
    ensures
        g1 == g2,
        l1 == l2,
{
    reveal_strlit("_");
    crate::text::lemma_decimal_digits(g1 as nat);
    crate::text::lemma_decimal_digits(g2 as nat);
    let a = decimal(g1 as nat);
    let b = decimal(g2 as nat);
    let s = table_name(g1, l1);
    assert(s == a + "_"@ + l1);
    assert(s == b + "_"@ + l2);
    if a.len() < b.len() {
        assert(s[a.len() as int] == '_');
        assert(s[a.len() as int] == b[a.len() as int]);
        assert(crate::text::is_ascii_digit(b[a.len() as int]));
    }
    if b.len() < a.len() {
        assert(s[b.len() as int] == '_');
        assert(s[b.len() as int] == a[b.len() as int]);
        assert(crate::text::is_ascii_digit(a[b.len() as int]));
    }
    assert(a =~= s.take(a.len() as int));
    assert(b =~= s.take(b.len() as int));
    assert(l1 =~= s.skip(a.len() as int + 1));
    assert(l2 =~= s.skip(b.len() as int + 1));
}

} // verus!
