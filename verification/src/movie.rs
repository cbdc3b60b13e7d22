//! Movies and movie lists.

use vstd::prelude::*;
use vstd::string::StringExecFns;
use vstd::std_specs::cmp::PartialEqSpec;

verus! {

/// A movie as the bot stores it: the metadata that the movie database
/// returned, who added it, and whether the list has watched it.
pub struct Movie {
    pub title: String,
    pub adder: String,
    pub director: String,
    pub actors: String,
    pub language: String,
    pub country: String,
    pub metascore: String,
    pub imdbrating: String,
    pub imdbid: String,
    pub year: u32,
    pub watched: bool,
}

/// The text that stands for a missing field.
pub open spec fn or_null(field: Option<String>) -> Seq<char> {
    match field {
        Some(s) => s@,
        None => "NULL"@,
    }
}

fn null_default(field: Option<String>) -> (s: String)
    ensures
        s@ == or_null(field),
{
    match field {
        Some(s) => s,
        None => String::from_str("NULL"),
    }
}

impl Movie {
    /// A movie that nobody has watched yet; a missing text field reads
    /// `"NULL"` and a missing year reads `0`.
    pub fn new(
        title: String,
        adder: String,
        director: Option<String>,
        actors: Option<String>,
        language: Option<String>,
        country: Option<String>,
        metascore: Option<String>,
        imdbrating: Option<String>,
        imdbid: Option<String>,
        year: Option<u32>,
    ) -> (m: Movie)
        ensures
            m.title == title,
            m.adder == adder,
            m.director@ == or_null(director),
            m.actors@ == or_null(actors),
            m.language@ == or_null(language),
            m.country@ == or_null(country),
            m.metascore@ == or_null(metascore),
            m.imdbrating@ == or_null(imdbrating),
            m.imdbid@ == or_null(imdbid),
            m.year == (match year {
                Some(y) => y,
                None => 0,
            }),
            !m.watched,
    {
        Movie {
            title: title,
            adder: adder,
            director: null_default(director),
            actors: null_default(actors),
            language: null_default(language),
            country: null_default(country),
            metascore: null_default(metascore),
            imdbrating: null_default(imdbrating),
            imdbid: null_default(imdbid),
            year: match year {
                Some(y) => y,
                None => 0,
            },
            watched: false,
        }
    }
}

/// Two movies are the same movie when their titles are equal.
impl PartialEq for Movie {
    fn eq(&self, other: &Self) -> (r: bool) {
        self.title == other.title
    }
}

impl vstd::std_specs::cmp::PartialEqSpecImpl for Movie {
    open spec fn obeys_eq_spec() -> bool {
        true
    }

    open spec fn eq_spec(&self, other: &Movie) -> bool {
        self.title@ == other.title@
    }
}

} // verus!

verus! {

/// The index of the first movie titled `title` in `s`, or `s.len()`.
pub open spec fn title_index(s: Seq<Movie>, title: Seq<char>) -> int
    decreases s.len(),
{
    if s.len() == 0 {
        0
    } else if s[0].title@ == title {
        0
    } else {
        1 + title_index(s.drop_first(), title)
    }
}

pub open spec fn has_title(s: Seq<Movie>, title: Seq<char>) -> bool {
    exists|i: int| 0 <= i < s.len() && (#[trigger] s[i]).title@ == title
}

/// `title_index` is the first index whose movie has the title.
pub proof fn lemma_title_index(s: Seq<Movie>, title: Seq<char>)
    ensures
        0 <= title_index(s, title) <= s.len(),
        title_index(s, title) < s.len() ==> s[title_index(s, title)].title@ == title,
        forall|k: int| 0 <= k < title_index(s, title) ==> (#[trigger] s[k]).title@ != title,
        has_title(s, title) <==> title_index(s, title) < s.len(),
    decreases s.len(),
{
    if s.len() > 0 && s[0].title@ != title {
        let t = s.drop_first();
        lemma_title_index(t, title);
        assert forall|k: int| 0 <= k < title_index(s, title) implies (#[trigger] s[k]).title@
            != title by {
            if k > 0 {
                assert(s[k] == t[k - 1]);
            }
        }
        if has_title(s, title) {
            let i = choose|i: int| 0 <= i < s.len() && (#[trigger] s[i]).title@ == title;
            assert(t[i - 1] == s[i]);
        }
        if title_index(s, title) < s.len() {
            assert(s[title_index(s, title)] == t[title_index(t, title)]);
        }
    }
}

/// What a movie list holds.
pub struct MovieListView {
    pub title: Seq<char>,
    pub creator: Seq<char>,
    pub movies: Seq<Movie>,
}

impl MovieListView {
    /// The list with `m` added at its end.
    pub open spec fn added(self, m: Movie) -> MovieListView {
        MovieListView { movies: self.movies.push(m), ..self }
    }

    /// The first movie titled `title`, if any.
    pub open spec fn find(self, title: Seq<char>) -> Option<Movie> {
        let i = title_index(self.movies, title);
        if i < self.movies.len() {
            Some(self.movies[i])
        } else {
            None
        }
    }

    /// The list without its first movie that has the title of `m`.
    pub open spec fn removed(self, m: Movie) -> MovieListView {
        MovieListView { movies: self.movies.remove(title_index(self.movies, m.title@)), ..self }
    }
}

/// A named list of movies, made by a user.
pub struct MovieList {
    title: String,
    creator: String,
    movies: Vec<Movie>,
}

impl View for MovieList {
    type V = MovieListView;

    closed spec fn view(&self) -> MovieListView {
        MovieListView { title: self.title@, creator: self.creator@, movies: self.movies@ }
    }
}

impl MovieList {
    /// An empty list.
    pub fn new(title: String, creator: String) -> (l: MovieList)
        ensures
            l@.title == title@,
            l@.creator == creator@,
            l@.movies == Seq::<Movie>::empty(),
    {
        MovieList { title, creator, movies: Vec::new() }
    }

    /// A list with the given title, creator and movies.
    pub fn from_parts(title: String, creator: String, movies: Vec<Movie>) -> (l: MovieList)
        ensures
            l@ == (MovieListView { title: title@, creator: creator@, movies: movies@ }),
    {
        MovieList { title, creator, movies }
    }

    /// The list's title.
    pub fn title(&self) -> (t: &String)
        ensures
            t@ == self@.title,
    {
        &self.title
    }

    /// Who made the list.
    pub fn creator(&self) -> (c: &String)
        ensures
            c@ == self@.creator,
    {
        &self.creator
    }

    /// The movies of the list, in the order they were added.
    pub fn movies(&self) -> (m: &Vec<Movie>)
        ensures
            m@ == self@.movies,
    {
        &self.movies
    }

    /// Adds `movie` at the end of the list.
    pub fn add_movie(&mut self, movie: Movie)
        ensures
            final(self)@ == old(self)@.added(movie),
    {
        self.movies.push(movie);
    }

    fn position_of_title(&self, title: &String) -> (i: usize)
        ensures
            i == title_index(self@.movies, title@),
    {
        proof {
            lemma_title_index(self@.movies, title@);
        }
        let mut i: usize = 0;
        while i < self.movies.len()
            invariant
                0 <= i <= self.movies@.len(),
                self@.movies == self.movies@,
                0 <= title_index(self@.movies, title@) <= self@.movies.len(),
                title_index(self@.movies, title@) < self@.movies.len() ==> self@.movies[title_index(self@.movies, title@)].title@ == title@,
                forall|k: int| 0 <= k < title_index(self@.movies, title@) ==> (#[trigger] self@.movies[k]).title@ != title@,
                forall|k: int| 0 <= k < i ==> (#[trigger] self@.movies[k]).title@ != title@,
            decreases self.movies.len() - i,
        {
            if self.movies[i].title == *title {
                return i;
            }
            i = i + 1;
        }
        i
    }

    /// Removes the first movie that has the title of `movie`; the list must
    /// hold one.
    pub fn remove_movie(&mut self, movie: Movie)
        requires
            has_title(old(self)@.movies, movie.title@),
        ensures
            final(self)@ == old(self)@.removed(movie),
    {
        proof {
            lemma_title_index(self@.movies, movie.title@);
        }
        let index = self.position_of_title(&movie.title);
        self.movies.remove(index);
    }

    /// The first movie titled `title`, if any.
    pub fn get_movie(&self, title: String) -> (r: Option<&Movie>)
        ensures
            match r {
                Some(m) => self@.find(title@) == Some(*m),
                None => self@.find(title@) is None,
            },
    {
        let i = self.position_of_title(&title);
        if i < self.movies.len() {
            Some(&self.movies[i])
        } else {
            None
        }
    }
}

} // verus!

verus! {

proof fn lemma_title_index_push(s: Seq<Movie>, m: Movie, title: Seq<char>)
    ensures
        title_index(s, title) < s.len() ==> title_index(s.push(m), title) == title_index(s, title),
        title_index(s, title) == s.len() && m.title@ == title ==> title_index(s.push(m), title) == s.len(),
        title_index(s, title) == s.len() && m.title@ != title ==> title_index(s.push(m), title) == s.len() + 1,
    decreases s.len(),
{
    if s.len() > 0 {
        assert(s.push(m).drop_first() == s.drop_first().push(m));
        lemma_title_index_push(s.drop_first(), m, title);
    } else {
        assert(s.push(m).drop_first() == Seq::<Movie>::empty());
        assert(title_index(Seq::<Movie>::empty(), title) == 0);
    }
}

/// Law: right after a movie is added, looking its title up finds a movie;
/// when no movie of the list had that title before, it finds the added one.
pub proof fn law_find_after_add(v: MovieListView, m: Movie)
    ensures
        v.added(m).find(m.title@) is Some,
        !has_title(v.movies, m.title@) ==> v.added(m).find(m.title@) == Some(m),
{
    lemma_title_index(v.movies, m.title@);
    lemma_title_index_push(v.movies, m, m.title@);
}

/// Law: adding a movie does not change what a lookup of another title finds.
pub proof fn law_add_keeps_other_titles(v: MovieListView, m: Movie, title: Seq<char>)
    requires
        m.title@ != title,
    ensures
        v.added(m).find(title) == v.find(title),
{
    lemma_title_index(v.movies, title);
    lemma_title_index_push(v.movies, m, title);
}

/// Law: removing a movie right after adding it gives back the list, when the
/// list held no movie of that title before.
pub proof fn law_remove_undoes_add(v: MovieListView, m: Movie)
    requires
        !has_title(v.movies, m.title@),
    ensures
        v.added(m).removed(m) == v,
{
    lemma_title_index(v.movies, m.title@);
    lemma_title_index_push(v.movies, m, m.title@);
    assert(v.movies.push(m).remove(v.movies.len() as int) == v.movies);
}

/// Law: removing a movie that the list holds takes out exactly one movie,
/// the one that a lookup of its title finds, and keeps the others in order.
pub proof fn law_remove_takes_found(v: MovieListView, m: Movie)
    requires
        has_title(v.movies, m.title@),
    ensures
        v.removed(m).movies.len() == v.movies.len() - 1,
        v.find(m.title@) is Some,
        v.removed(m).movies.to_multiset().insert(v.find(m.title@)->0) == v.movies.to_multiset(),
{
    lemma_title_index(v.movies, m.title@);
    let i = title_index(v.movies, m.title@);
    v.movies.to_multiset_ensures();
    assert(v.movies == v.movies.remove(i).insert(i, v.movies[i]));
    v.movies.remove(i).to_multiset_ensures();
    vstd::seq_lib::lemma_seq_union_to_multiset_commutative::<Movie>(v.movies.take(i), v.movies.skip(i + 1));
    assert(v.movies.remove(i) == v.movies.take(i) + v.movies.skip(i + 1));
    assert(v.movies == v.movies.take(i) + (seq![v.movies[i]] + v.movies.skip(i + 1)));
    vstd::seq_lib::lemma_multiset_commutative(v.movies.take(i), seq![v.movies[i]] + v.movies.skip(i + 1));
    vstd::seq_lib::lemma_multiset_commutative(seq![v.movies[i]], v.movies.skip(i + 1));
    vstd::seq_lib::lemma_multiset_commutative(v.movies.take(i), v.movies.skip(i + 1));
    assert(seq![v.movies[i]].to_multiset() =~= vstd::multiset::Multiset::empty().insert(v.movies[i])) by {
        seq![v.movies[i]].to_multiset_ensures();
        assert(seq![v.movies[i]] == Seq::<Movie>::empty().push(v.movies[i]));
        Seq::<Movie>::empty().to_multiset_ensures();
    }
}

/// Law: movies compare equal exactly when their titles are equal, so `==`
/// on movies is reflexive, symmetric and transitive.
pub proof fn law_movie_eq_is_title_eq(a: Movie, b: Movie, c: Movie)
    ensures
        a.eq_spec(&a),
        a.eq_spec(&b) == b.eq_spec(&a),
        a.eq_spec(&b) && b.eq_spec(&c) ==> a.eq_spec(&c),
        a.eq_spec(&b) <==> a.title@ == b.title@,
{
}

} // verus!

verus! {

/// Law: removing a movie takes out the first movie of the list that has its
/// title and nothing else: the movies before it and after it stay, in the
/// order they were added.
pub proof fn law_remove_keeps_order(v: MovieListView, m: Movie, i: int)
    requires
        0 <= i < v.movies.len(),
        v.movies[i].title@ == m.title@,
        forall|k: int| 0 <= k < i ==> (#[trigger] v.movies[k]).title@ != m.title@,
    ensures
        v.removed(m).movies == v.movies.take(i) + v.movies.skip(i + 1),
        v.removed(m).title == v.title,
        v.removed(m).creator == v.creator,
{
    lemma_title_index(v.movies, m.title@);
    assert(title_index(v.movies, m.title@) == i);
    assert(v.movies.remove(i) =~= v.movies.take(i) + v.movies.skip(i + 1));
}

/// Law: a lookup finds the first movie of the list with the title, and
/// finds nothing when no movie has it.
pub proof fn law_find_is_first(v: MovieListView, title: Seq<char>, i: int)
    requires
        0 <= i < v.movies.len(),
        v.movies[i].title@ == title,
        forall|k: int| 0 <= k < i ==> (#[trigger] v.movies[k]).title@ != title,
    ensures
        v.find(title) == Some(v.movies[i]),
        forall|t: Seq<char>| !has_title(v.movies, t) ==> #[trigger] v.find(t) is None,
{
    lemma_title_index(v.movies, title);
    assert forall|t: Seq<char>| !has_title(v.movies, t) implies #[trigger] v.find(t) is None by {
        lemma_title_index(v.movies, t);
    }
}

} // verus!

verus! {

/// Law: adding a movie puts it after every movie already in the list,
/// which keep their order, and leaves the list's title and creator.
pub proof fn law_add_appends(v: MovieListView, m: Movie)
    ensures
        v.added(m).movies.len() == v.movies.len() + 1,
        v.added(m).movies.last() == m,
        v.added(m).movies.take(v.movies.len() as int) == v.movies,
        v.added(m).title == v.title,
        v.added(m).creator == v.creator,
{
    assert(v.movies.push(m).take(v.movies.len() as int) =~= v.movies);
}

} // verus!
