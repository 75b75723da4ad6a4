//! Entity descriptors for the catalog types.
//!
//! Each entity type (book, author, sequence, genre) implements the
//! [`UpdateModel`] capability: the target index name, the extraction
//! query, the row-to-record mapping, and the index configuration
//! (searchable fields, filterable fields, ranking rules). Raw rows are
//! carried as plain column values; running the query against the store
//! is I/O and stays outside the library.

use vstd::prelude::*;

verus! {

/// A single column value of a raw extracted row.
#[derive(Debug)]
pub enum ColumnValue {
    Int(i32),
    BigInt(i64),
    Text(String),
    IntArray(Vec<i32>),
    TextArray(Vec<String>),
}

/// One raw row from an extraction query, as plain column values in
/// query order.
#[derive(Debug)]
pub struct SourceRow {
    pub columns: Vec<ColumnValue>,
}

/// A row whose column shape does not match the entity's extraction
/// query: a fatal defect of that row's pipeline, never swallowed.
#[derive(Debug)]
pub enum RowError {
    ShapeMismatch,
}

/// The capability contract of one catalog entity type: how to extract
/// its rows and how to configure its search index.
pub trait UpdateModel: Sized {
    /// The target index name.
    spec fn spec_index() -> Seq<char>;

    /// The extraction query text.
    spec fn spec_query() -> Seq<char>;

    /// Whether a raw row has the column shape this entity's extraction
    /// query returns.
    spec fn row_ok(row: SourceRow) -> bool;

    /// The record a well-shaped row maps to.
    spec fn record_of(row: SourceRow) -> Self;

    /// The record's primary key: the upsert key in the search index.
    spec fn key(self) -> int;

    /// The declared searchable fields.
    spec fn spec_searchable() -> Seq<Seq<char>>;

    /// The declared filterable fields.
    spec fn spec_filterable() -> Seq<Seq<char>>;

    /// The declared ranking rules, in tie-break precedence order.
    spec fn spec_ranking() -> Seq<Seq<char>>;

    fn get_index() -> (r: String)
        ensures
            r@ == Self::spec_index(),
    ;

    fn get_query() -> (r: String)
        ensures
            r@ == Self::spec_query(),
    ;

    /// Maps a raw row to a record. Succeeds exactly on rows of the
    /// shape the entity's extraction query returns.
    fn from_row(row: SourceRow) -> (r: Result<Self, RowError>)
        ensures
            r is Ok <==> Self::row_ok(row),
            r matches Ok(v) ==> v == Self::record_of(row),
    ;

    fn get_searchanble_attributes() -> (r: Vec<String>)
        ensures
            r.deep_view() == Self::spec_searchable(),
    ;

    fn get_filterable_attributes() -> (r: Vec<String>)
        ensures
            r.deep_view() == Self::spec_filterable(),
    ;

    fn get_ranking_rules() -> (r: Vec<String>)
        ensures
            r.deep_view() == Self::spec_ranking(),
    ;
}

#[derive(Debug)]
pub struct Book {
    pub id: i32,
    pub title: String,
    pub lang: String,
    pub genres: Vec<i32>,
}

impl UpdateModel for Book {
    open spec fn spec_index() -> Seq<char> {
        "books"@
    }

    open spec fn spec_query() -> Seq<char> {
        "SELECT id, title, lang, array(SELECT id FROM book_genres WHERE book = books.id) FROM books WHERE is_deleted = 'f';"@
    }

    open spec fn row_ok(row: SourceRow) -> bool {
        &&& row.columns@.len() == 4
        &&& row.columns@[0] is Int
        &&& row.columns@[1] is Text
        &&& row.columns@[2] is Text
        &&& row.columns@[3] is IntArray
    }

    open spec fn record_of(row: SourceRow) -> Book {
        Book {
            id: row.columns@[0]->Int_0,
            title: row.columns@[1]->Text_0,
            lang: row.columns@[2]->Text_0,
            genres: row.columns@[3]->IntArray_0,
        }
    }

    open spec fn key(self) -> int {
        self.id as int
    }

    open spec fn spec_searchable() -> Seq<Seq<char>> {
        seq!["title"@]
    }

    open spec fn spec_filterable() -> Seq<Seq<char>> {
        seq!["lang"@, "genres"@]
    }

    open spec fn spec_ranking() -> Seq<Seq<char>> {
        seq!["words"@, "typo"@, "proximity"@, "attribute"@, "sort"@, "exactness"@]
    }

    fn get_index() -> (r: String) {
        "books".to_string()
    }

    fn get_query() -> (r: String) {
        "SELECT id, title, lang, array(SELECT id FROM book_genres WHERE book = books.id) FROM books WHERE is_deleted = 'f';".to_string()
    }

    fn from_row(row: SourceRow) -> (r: Result<Book, RowError>) {
        let mut cols = row.columns;
        if cols.len() != 4 {
            return Err(RowError::ShapeMismatch);
        }
        let genres = match cols.pop().unwrap() {
            ColumnValue::IntArray(v) => v,
            _ => return Err(RowError::ShapeMismatch),
        };
        let lang = match cols.pop().unwrap() {
            ColumnValue::Text(v) => v,
            _ => return Err(RowError::ShapeMismatch),
        };
        let title = match cols.pop().unwrap() {
            ColumnValue::Text(v) => v,
            _ => return Err(RowError::ShapeMismatch),
        };
        let id = match cols.pop().unwrap() {
            ColumnValue::Int(v) => v,
            _ => return Err(RowError::ShapeMismatch),
        };
        Ok(Book { id, title, lang, genres })
    }

    fn get_searchanble_attributes() -> (r: Vec<String>) {
        let r = vec!["title".to_string()];
        proof {
            assert(r.deep_view() =~= Self::spec_searchable());
        }
        r
    }

    fn get_filterable_attributes() -> (r: Vec<String>) {
        let r = vec!["lang".to_string(), "genres".to_string()];
        proof {
            assert(r.deep_view() =~= Self::spec_filterable());
        }
        r
    }

    fn get_ranking_rules() -> (r: Vec<String>) {
        let r = vec![
            "words".to_string(),
            "typo".to_string(),
            "proximity".to_string(),
            "attribute".to_string(),
            "sort".to_string(),
            "exactness".to_string(),
        ];
        proof {
            assert(r.deep_view() =~= Self::spec_ranking());
        }
        r
    }
}

#[derive(Debug)]
pub struct Author {
    pub id: i32,
    pub first_name: String,
    pub last_name: String,
    pub middle_name: String,
    pub author_langs: Vec<String>,
    pub translator_langs: Vec<String>,
    pub books_count: i64,
}

impl UpdateModel for Author {
    open spec fn spec_index() -> Seq<char> {
        "authors"@
    }

    open spec fn spec_query() -> Seq<char> {
        "
        SELECT id, first_name, last_name, middle_name,
        array(
          SELECT DISTINCT lang FROM book_authors
          LEFT JOIN books ON book = books.id
          WHERE authors.id = book_authors.author
          AND books.is_deleted = 'f'
        ) AS author_langs,
        array(
          SELECT DISTINCT lang FROM translations
          LEFT JOIN books ON book = books.id
          WHERE authors.id = translations.author
          AND books.is_deleted = 'f'
        ) AS translator_langs,
        (
          SELECT count(books.id) FROM book_authors
          LEFT JOIN books ON book = books.id
          WHERE authors.id = book_authors.author
          AND books.is_deleted = 'f'
        ) AS books_count
        FROM authors;
        "@
    }

    open spec fn row_ok(row: SourceRow) -> bool {
        &&& row.columns@.len() == 7
        &&& row.columns@[0] is Int
        &&& row.columns@[1] is Text
        &&& row.columns@[2] is Text
        &&& row.columns@[3] is Text
        &&& row.columns@[4] is TextArray
        &&& row.columns@[5] is TextArray
        &&& row.columns@[6] is BigInt
    }

    open spec fn record_of(row: SourceRow) -> Author {
        Author {
            id: row.columns@[0]->Int_0,
            first_name: row.columns@[1]->Text_0,
            last_name: row.columns@[2]->Text_0,
            middle_name: row.columns@[3]->Text_0,
            author_langs: row.columns@[4]->TextArray_0,
            translator_langs: row.columns@[5]->TextArray_0,
            books_count: row.columns@[6]->BigInt_0,
        }
    }

    open spec fn key(self) -> int {
        self.id as int
    }

    open spec fn spec_searchable() -> Seq<Seq<char>> {
        seq!["first_name"@, "last_name"@, "middle_name"@]
    }

    open spec fn spec_filterable() -> Seq<Seq<char>> {
        seq!["author_langs"@, "translator_langs"@]
    }

    open spec fn spec_ranking() -> Seq<Seq<char>> {
        seq![
            "words"@,
            "typo"@,
            "proximity"@,
            "attribute"@,
            "sort"@,
            "exactness"@,
            "books_count:desc"@,
        ]
    }

    fn get_index() -> (r: String) {
        "authors".to_string()
    }

    fn get_query() -> (r: String) {
        "
        SELECT id, first_name, last_name, middle_name,
        array(
          SELECT DISTINCT lang FROM book_authors
          LEFT JOIN books ON book = books.id
          WHERE authors.id = book_authors.author
          AND books.is_deleted = 'f'
        ) AS author_langs,
        array(
          SELECT DISTINCT lang FROM translations
          LEFT JOIN books ON book = books.id
          WHERE authors.id = translations.author
          AND books.is_deleted = 'f'
        ) AS translator_langs,
        (
          SELECT count(books.id) FROM book_authors
          LEFT JOIN books ON book = books.id
          WHERE authors.id = book_authors.author
          AND books.is_deleted = 'f'
        ) AS books_count
        FROM authors;
        ".to_string()
    }

    fn from_row(row: SourceRow) -> (r: Result<Author, RowError>) {
        let mut cols = row.columns;
        if cols.len() != 7 {
            return Err(RowError::ShapeMismatch);
        }
        let books_count = match cols.pop().unwrap() {
            ColumnValue::BigInt(v) => v,
            _ => return Err(RowError::ShapeMismatch),
        };
        let translator_langs = match cols.pop().unwrap() {
            ColumnValue::TextArray(v) => v,
            _ => return Err(RowError::ShapeMismatch),
        };
        let author_langs = match cols.pop().unwrap() {
            ColumnValue::TextArray(v) => v,
            _ => return Err(RowError::ShapeMismatch),
        };
        let middle_name = match cols.pop().unwrap() {
            ColumnValue::Text(v) => v,
            _ => return Err(RowError::ShapeMismatch),
        };
        let last_name = match cols.pop().unwrap() {
            ColumnValue::Text(v) => v,
            _ => return Err(RowError::ShapeMismatch),
        };
        let first_name = match cols.pop().unwrap() {
            ColumnValue::Text(v) => v,
            _ => return Err(RowError::ShapeMismatch),
        };
        let id = match cols.pop().unwrap() {
            ColumnValue::Int(v) => v,
            _ => return Err(RowError::ShapeMismatch),
        };
        Ok(Author {
            id,
            first_name,
            last_name,
            middle_name,
            author_langs,
            translator_langs,
            books_count,
        })
    }

    fn get_searchanble_attributes() -> (r: Vec<String>) {
        let r = vec![
            "first_name".to_string(),
            "last_name".to_string(),
            "middle_name".to_string(),
        ];
        proof {
            assert(r.deep_view() =~= Self::spec_searchable());
        }
        r
    }

    fn get_filterable_attributes() -> (r: Vec<String>) {
        let r = vec!["author_langs".to_string(), "translator_langs".to_string()];
        proof {
            assert(r.deep_view() =~= Self::spec_filterable());
        }
        r
    }

    fn get_ranking_rules() -> (r: Vec<String>) {
        let r = vec![
            "words".to_string(),
            "typo".to_string(),
            "proximity".to_string(),
            "attribute".to_string(),
            "sort".to_string(),
            "exactness".to_string(),
            "books_count:desc".to_string(),
        ];
        proof {
            assert(r.deep_view() =~= Self::spec_ranking());
        }
        r
    }
}

#[derive(Debug)]
pub struct Sequence {
    pub id: i32,
    pub name: String,
    pub langs: Vec<String>,
    pub books_count: i64,
}

impl UpdateModel for Sequence {
    open spec fn spec_index() -> Seq<char> {
        "sequences"@
    }

    open spec fn spec_query() -> Seq<char> {
        "
        SELECT id, name,
          array(
            SELECT DISTINCT lang FROM book_sequences
            LEFT JOIN books ON book = books.id
            WHERE sequences.id = book_sequences.sequence
              AND books.is_deleted = 'f'
          ) as langs,
          (SELECT count(books.id) FROM book_sequences
           LEFT JOIN books ON book = books.id
           WHERE sequences.id = book_sequences.sequence
             AND books.is_deleted = 'f') as books_count
        FROM sequences;
        "@
    }

    open spec fn row_ok(row: SourceRow) -> bool {
        &&& row.columns@.len() == 4
        &&& row.columns@[0] is Int
        &&& row.columns@[1] is Text
        &&& row.columns@[2] is TextArray
        &&& row.columns@[3] is BigInt
    }

    open spec fn record_of(row: SourceRow) -> Sequence {
        Sequence {
            id: row.columns@[0]->Int_0,
            name: row.columns@[1]->Text_0,
            langs: row.columns@[2]->TextArray_0,
            books_count: row.columns@[3]->BigInt_0,
        }
    }

    open spec fn key(self) -> int {
        self.id as int
    }

    open spec fn spec_searchable() -> Seq<Seq<char>> {
        seq!["name"@]
    }

    open spec fn spec_filterable() -> Seq<Seq<char>> {
        seq!["langs"@]
    }

    open spec fn spec_ranking() -> Seq<Seq<char>> {
        seq![
            "words"@,
            "typo"@,
            "proximity"@,
            "attribute"@,
            "sort"@,
            "exactness"@,
            "books_count:desc"@,
        ]
    }

    fn get_index() -> (r: String) {
        "sequences".to_string()
    }

    fn get_query() -> (r: String) {
        "
        SELECT id, name,
          array(
            SELECT DISTINCT lang FROM book_sequences
            LEFT JOIN books ON book = books.id
            WHERE sequences.id = book_sequences.sequence
              AND books.is_deleted = 'f'
          ) as langs,
          (SELECT count(books.id) FROM book_sequences
           LEFT JOIN books ON book = books.id
           WHERE sequences.id = book_sequences.sequence
             AND books.is_deleted = 'f') as books_count
        FROM sequences;
        ".to_string()
    }

    fn from_row(row: SourceRow) -> (r: Result<Sequence, RowError>) {
        let mut cols = row.columns;
        if cols.len() != 4 {
            return Err(RowError::ShapeMismatch);
        }
        let books_count = match cols.pop().unwrap() {
            ColumnValue::BigInt(v) => v,
            _ => return Err(RowError::ShapeMismatch),
        };
        let langs = match cols.pop().unwrap() {
            ColumnValue::TextArray(v) => v,
            _ => return Err(RowError::ShapeMismatch),
        };
        let name = match cols.pop().unwrap() {
            ColumnValue::Text(v) => v,
            _ => return Err(RowError::ShapeMismatch),
        };
        let id = match cols.pop().unwrap() {
            ColumnValue::Int(v) => v,
            _ => return Err(RowError::ShapeMismatch),
        };
        Ok(Sequence { id, name, langs, books_count })
    }

    fn get_searchanble_attributes() -> (r: Vec<String>) {
        let r = vec!["name".to_string()];
        proof {
            assert(r.deep_view() =~= Self::spec_searchable());
        }
        r
    }

    fn get_filterable_attributes() -> (r: Vec<String>) {
        let r = vec!["langs".to_string()];
        proof {
            assert(r.deep_view() =~= Self::spec_filterable());
        }
        r
    }

    fn get_ranking_rules() -> (r: Vec<String>) {
        let r = vec![
            "words".to_string(),
            "typo".to_string(),
            "proximity".to_string(),
            "attribute".to_string(),
            "sort".to_string(),
            "exactness".to_string(),
            "books_count:desc".to_string(),
        ];
        proof {
            assert(r.deep_view() =~= Self::spec_ranking());
        }
        r
    }
}

#[derive(Debug)]
pub struct Genre {
    pub id: i32,
    pub description: String,
    pub meta: String,
    pub langs: Vec<String>,
    pub books_count: i64,
}

impl UpdateModel for Genre {
    open spec fn spec_index() -> Seq<char> {
        "genres"@
    }

    open spec fn spec_query() -> Seq<char> {
        "
        SELECT id, description, meta,
        array(
            SELECT DISTINCT lang FROM book_genres
            LEFT JOIN books ON book = books.id
            WHERE genres.id = book_genres.genre
            AND books.is_deleted = 'f'
        ) as langs,
        (
            SELECT count(*) FROM book_genres
            LEFT JOIN books ON book = books.id
            WHERE genres.id = book_genres.genre
            AND books.is_deleted = 'f'
        ) as books_count
        FROM genres;
        "@
    }

    open spec fn row_ok(row: SourceRow) -> bool {
        &&& row.columns@.len() == 5
        &&& row.columns@[0] is Int
        &&& row.columns@[1] is Text
        &&& row.columns@[2] is Text
        &&& row.columns@[3] is TextArray
        &&& row.columns@[4] is BigInt
    }

    open spec fn record_of(row: SourceRow) -> Genre {
        Genre {
            id: row.columns@[0]->Int_0,
            description: row.columns@[1]->Text_0,
            meta: row.columns@[2]->Text_0,
            langs: row.columns@[3]->TextArray_0,
            books_count: row.columns@[4]->BigInt_0,
        }
    }

    open spec fn key(self) -> int {
        self.id as int
    }

    open spec fn spec_searchable() -> Seq<Seq<char>> {
        seq!["description"@]
    }

    open spec fn spec_filterable() -> Seq<Seq<char>> {
        seq!["langs"@]
    }

    open spec fn spec_ranking() -> Seq<Seq<char>> {
        seq![
            "words"@,
            "typo"@,
            "proximity"@,
            "attribute"@,
            "sort"@,
            "exactness"@,
            "books_count:desc"@,
        ]
    }

    fn get_index() -> (r: String) {
        "genres".to_string()
    }

    fn get_query() -> (r: String) {
        "
        SELECT id, description, meta,
        array(
            SELECT DISTINCT lang FROM book_genres
            LEFT JOIN books ON book = books.id
            WHERE genres.id = book_genres.genre
            AND books.is_deleted = 'f'
        ) as langs,
        (
            SELECT count(*) FROM book_genres
            LEFT JOIN books ON book = books.id
            WHERE genres.id = book_genres.genre
            AND books.is_deleted = 'f'
        ) as books_count
        FROM genres;
        ".to_string()
    }

    fn from_row(row: SourceRow) -> (r: Result<Genre, RowError>) {
        let mut cols = row.columns;
        if cols.len() != 5 {
            return Err(RowError::ShapeMismatch);
        }
        let books_count = match cols.pop().unwrap() {
            ColumnValue::BigInt(v) => v,
            _ => return Err(RowError::ShapeMismatch),
        };
        let langs = match cols.pop().unwrap() {
            ColumnValue::TextArray(v) => v,
            _ => return Err(RowError::ShapeMismatch),
        };
        let meta = match cols.pop().unwrap() {
            ColumnValue::Text(v) => v,
            _ => return Err(RowError::ShapeMismatch),
        };
        let description = match cols.pop().unwrap() {
            ColumnValue::Text(v) => v,
            _ => return Err(RowError::ShapeMismatch),
        };
        let id = match cols.pop().unwrap() {
            ColumnValue::Int(v) => v,
            _ => return Err(RowError::ShapeMismatch),
        };
        Ok(Genre { id, description, meta, langs, books_count })
    }

    fn get_searchanble_attributes() -> (r: Vec<String>) {
        let r = vec!["description".to_string()];
        proof {
            assert(r.deep_view() =~= Self::spec_searchable());
        }
        r
    }

    fn get_filterable_attributes() -> (r: Vec<String>) {
        let r = vec!["langs".to_string()];
        proof {
            assert(r.deep_view() =~= Self::spec_filterable());
        }
        r
    }

    fn get_ranking_rules() -> (r: Vec<String>) {
        let r = vec![
            "words".to_string(),
            "typo".to_string(),
            "proximity".to_string(),
            "attribute".to_string(),
            "sort".to_string(),
            "exactness".to_string(),
            "books_count:desc".to_string(),
        ];
        proof {
            assert(r.deep_view() =~= Self::spec_ranking());
        }
        r
    }
}

} // verus!
