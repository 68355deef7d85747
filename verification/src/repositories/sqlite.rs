//! The repository that keeps its records in an SQLite database.
//!
//! The database holds a table `pokemons (number, name)` and a table
//! `types (pokemon_number, name)` whose rows belong to a row of the first.
//! What the database holds is outside this program, so the contracts here say
//! what is handed to it and what is made of each of its answers.

use crate::domain::entities::{
    lemma_name_round_trip, name_of_type, names_of_types, texts, type_named, types_named, valid_name,
    valid_number, valid_record, valid_types, Pokemon, PokemonData, PokemonName, PokemonNumber,
    PokemonTypes,
};
use crate::repositories::pokemon::{
    ascending, data_of, distinct_numbers, insert_sorted, lemma_same_records_push, same_records,
    DeleteError, FetchAllError, FetchOneError, InsertError, Repository,
};
use vstd::prelude::*;

verus! {

/// `rusqlite::Connection`, an open database. Nothing is known of what is in
/// one.
#[verifier::external_type_specification]
#[verifier::external_body]
pub struct ExConnection(rusqlite::Connection);

/// `rusqlite::Statement`, a statement that a connection has prepared.
#[verifier::external_type_specification]
#[verifier::external_body]
pub struct ExStatement<'conn>(rusqlite::Statement<'conn>);

/// `rusqlite::Transaction`, a transaction under way on a connection. One
/// that is dropped without a commit is rolled back.
#[verifier::external_type_specification]
#[verifier::external_body]
pub struct ExTransaction<'conn>(rusqlite::Transaction<'conn>);

/// `rusqlite::Connection::open_with_flags`, asked for an existing database
/// that can be read and written. Nothing is claimed of the result.
#[verifier::external_body]
fn open_read_write(path: &str) -> Result<rusqlite::Connection, ()> {
    rusqlite::Connection::open_with_flags(path, rusqlite::OpenFlags::SQLITE_OPEN_READ_WRITE)
        .map_err(|_| ())
}

/// `rusqlite::Connection::execute`: runs one statement, with the number and
/// then the text, where given, as its positional parameters, and answers how
/// many rows changed. A failure comes with the message that SQLite gave, where
/// it is a failure that SQLite itself reported (`SqliteFailure`) and it gave
/// one. Nothing is claimed of the result.
#[verifier::external_body]
fn execute(conn: &rusqlite::Connection, sql: &str, number: Option<u16>, text: Option<String>) -> Result<
    usize,
    Option<String>,
> {
    let number = number.map(rusqlite::types::Value::from);
    let text = text.map(rusqlite::types::Value::from);
    match conn.execute(sql, rusqlite::params_from_iter(number.into_iter().chain(text))) {
        Ok(rows) => Ok(rows),
        Err(rusqlite::Error::SqliteFailure(_, message)) => Err(message),
        Err(_) => Err(None),
    }
}

/// `rusqlite::Connection::prepare`. Nothing is claimed of the result.
#[verifier::external_body]
fn prepare<'conn>(conn: &'conn rusqlite::Connection, sql: &str) -> Result<
    rusqlite::Statement<'conn>,
    (),
> {
    conn.prepare(sql).map_err(|_| ())
}

/// `rusqlite::Statement::query_map` on rows of an integer and a text: runs
/// the statement with the numbers as its positional parameters and collects
/// the two columns of every row. Nothing is claimed of the result.
#[verifier::external_body]
fn query_pokemon_rows(stmt: &mut rusqlite::Statement<'_>, params: Vec<u16>) -> Result<
    Vec<(u16, String)>,
    (),
> {
    match stmt.query_map(rusqlite::params_from_iter(params), |row| Ok((row.get(0)?, row.get(1)?))) {
        Ok(rows) => rows.collect::<Result<Vec<(u16, String)>, _>>().map_err(|_| ()),
        Err(_) => Err(()),
    }
}

/// `rusqlite::Statement::query_map` on rows of one text: runs the statement
/// with the number as its one parameter and collects the column of every row.
/// Nothing is claimed of the result.
#[verifier::external_body]
fn query_type_rows(stmt: &mut rusqlite::Statement<'_>, number: u16) -> Result<Vec<String>, ()> {
    match stmt.query_map([number], |row| row.get(0)) {
        Ok(rows) => rows.collect::<Result<Vec<String>, _>>().map_err(|_| ()),
        Err(_) => Err(()),
    }
}

/// `rusqlite::Connection::transaction`. Nothing is claimed of the result.
#[verifier::external_body]
fn begin<'conn>(conn: &'conn mut rusqlite::Connection) -> Result<
    rusqlite::Transaction<'conn>,
    (),
> {
    conn.transaction().map_err(|_| ())
}

/// The connection that a transaction runs on: `Deref` of
/// `rusqlite::Transaction`.
#[verifier::external_body]
fn connection_of<'a>(transaction: &'a rusqlite::Transaction<'_>) -> &'a rusqlite::Connection {
    transaction
}

/// `rusqlite::Transaction::commit`. Nothing is claimed of the result.
#[verifier::external_body]
fn commit(transaction: rusqlite::Transaction<'_>) -> Result<(), ()> {
    transaction.commit().map_err(|_| ())
}

/// The message with which SQLite refuses a second row under one number.
pub open spec fn conflict_message() -> Seq<char> {
    "UNIQUE constraint failed: pokemons.number"@
}

/// Why an insert failed, by the message that came with the failure: a
/// conflict where the message is that of a number used twice, else unknown.
pub fn insert_error(message: Option<String>) -> (e: InsertError)
    ensures
        e == (if message matches Some(m) && m@ == conflict_message() {
            InsertError::Conflict
        } else {
            InsertError::Unknown
        }),
{
    match message {
        Some(m) => {
            if m == "UNIQUE constraint failed: pokemons.number".to_owned() {
                InsertError::Conflict
            } else {
                InsertError::Unknown
            }
        },
        None => InsertError::Unknown,
    }
}

/// Whether the raw data of a stored row, with the rows of its categories, is
/// a valid record.
pub open spec fn valid_row(number: u16, name: Seq<char>, types: Seq<String>) -> bool {
    &&& valid_number(number)
    &&& valid_name(name)
    &&& valid_types(types)
}

/// Validates the raw data of a stored row again: the record it makes where
/// all three parts are valid, else nothing.
pub fn stored_pokemon(number: u16, name: String, types: Vec<String>) -> (r: Option<Pokemon>)
    ensures
        r is Some <==> valid_row(number, name@, types@),
        r matches Some(p) ==> p@ == (PokemonData {
            number,
            name: name@,
            types: types_named(types@),
        }),
        r matches Some(p) ==> valid_record(p@),
{
    match (PokemonNumber::try_from(number), PokemonName::try_from(name), PokemonTypes::try_from(types)) {
        (Ok(number), Ok(name), Ok(types)) => Some(Pokemon::new(number, name, types)),
        _ => None,
    }
}

/// A row that holds what `insert` writes for a record validates to that same
/// record: the number and the name as they are, and the categories read back
/// from their names.
pub proof fn lemma_written_row_reads_back(entity: PokemonData, names: Seq<String>)
    requires
        valid_number(entity.number),
        valid_name(entity.name),
        entity.types.len() > 0,
        texts(names) == names_of_types(entity.types),
    ensures
        valid_row(entity.number, entity.name, names),
        types_named(names) == entity.types,
{
    assert(texts(names).len() == names.len());
    assert(names_of_types(entity.types).len() == entity.types.len());
    assert forall|i: int| 0 <= i < names.len() implies type_named(#[trigger] names[i]@) == Some(
        entity.types[i],
    ) by {
        assert(texts(names)[i] == names_of_types(entity.types)[i]);
        lemma_name_round_trip(entity.types[i]);
    }
    assert(types_named(names) =~= entity.types);
}

/// What a delete did, by the number of rows that left: not found where none
/// did.
pub fn delete_outcome(rows: usize) -> (r: Result<(), DeleteError>)
    ensures
        r == (if rows == 0 {
            Err::<(), DeleteError>(DeleteError::NotFound)
        } else {
            Ok::<(), DeleteError>(())
        }),
{
    if rows == 0 {
        Err(DeleteError::NotFound)
    } else {
        Ok(())
    }
}

/// The statement that reads rows of the table of records, with its
/// parameters: the row under a number, or every row where no number is given.
pub fn pokemon_select(number: Option<u16>) -> (q: (&'static str, Vec<u16>))
    ensures
        number matches Some(n) ==> q.0@ == "select number, name from pokemons where number = ?"@
            && q.1@ == seq![n],
        number is None ==> q.0@ == "select number, name from pokemons"@ && q.1@
            == Seq::<u16>::empty(),
{
    let mut params: Vec<u16> = Vec::new();
    match number {
        Some(number) => {
            params.push(number);
            assert(params@ =~= seq![number]);
            ("select number, name from pokemons where number = ?", params)
        },
        None => ("select number, name from pokemons", params),
    }
}

/// The statement that writes one row: into the table of records for the row
/// of the record itself, else into the table of categories. Its parameters
/// are the number and then the text of the row.
pub fn write_statement(parent: bool) -> (q: &'static str)
    ensures
        parent ==> q@ == "insert into pokemons (number, name) values (?, ?)"@,
        !parent ==> q@ == "insert into types (pokemon_number, name) values (?, ?)"@,
{
    if parent {
        "insert into pokemons (number, name) values (?, ?)"
    } else {
        "insert into types (pokemon_number, name) values (?, ?)"
    }
}

/// The rows that an insert writes, in the order in which it writes them:
/// first the row of the record itself, marked `true`, with the number and the
/// name; then one row for each category, in order, with the number and the
/// name of the category.
pub fn rows_to_write(number: &PokemonNumber, name: &PokemonName, types: &PokemonTypes) -> (plan:
    Vec<(bool, u16, String)>)
    ensures
        plan@.len() == 1 + types@.len(),
        plan@[0].0 && plan@[0].1 == number@ && plan@[0].2@ == name@,
        forall|i: int|
            0 <= i < types@.len() ==> {
                &&& !(#[trigger] plan@[i + 1]).0
                &&& plan@[i + 1].1 == number@
                &&& plan@[i + 1].2@ == name_of_type(types@[i])
            },
{
    let n = number.clone().to_u16();
    let names = types.clone().to_vec_string();
    assert(texts(names@).len() == names_of_types(types@).len());
    let mut plan: Vec<(bool, u16, String)> = Vec::new();
    plan.push((true, n, name.clone().to_string()));
    let mut i: usize = 0;
    while i < names.len()
        invariant
            0 <= i <= names@.len(),
            names@.len() == types@.len(),
            texts(names@) == names_of_types(types@),
            plan@.len() == 1 + i,
            plan@[0].0 && plan@[0].1 == number@ && plan@[0].2@ == name@,
            n == number@,
            forall|k: int|
                0 <= k < i ==> {
                    &&& !(#[trigger] plan@[k + 1]).0
                    &&& plan@[k + 1].1 == number@
                    &&& plan@[k + 1].2@ == name_of_type(types@[k])
                },
        decreases names@.len() - i,
    {
        assert(texts(names@)[i as int] == names_of_types(types@)[i as int]);
        plan.push((false, n, names[i].clone()));
        i += 1;
    }
    plan
}

/// Why a write failed, by the row it was writing and the message that came
/// with the failure: for the row of the record itself, what `insert_error`
/// makes of the message; for the row of a category, unknown.
pub fn write_error(parent: bool, message: Option<String>) -> (e: InsertError)
    ensures
        e == (if parent && (message matches Some(m) && m@ == conflict_message()) {
            InsertError::Conflict
        } else {
            InsertError::Unknown
        }),
{
    if parent {
        insert_error(message)
    } else {
        InsertError::Unknown
    }
}

/// The record that a row of the table of records makes with the rows of
/// its categories.
pub open spec fn row_record(row: (u16, String, Vec<String>)) -> PokemonData {
    PokemonData { number: row.0, name: row.1@, types: types_named(row.2@) }
}

/// The records that rows make, one for one.
pub open spec fn row_records(rows: Seq<(u16, String, Vec<String>)>) -> Seq<PokemonData> {
    Seq::new(rows.len(), |i: int| row_record(rows[i]))
}

/// Whether rows make a list of records: each of them is valid, and no two
/// share a number.
pub open spec fn listable(rows: Seq<(u16, String, Vec<String>)>) -> bool {
    &&& forall|i: int|
        0 <= i < rows.len() ==> valid_row((#[trigger] rows[i]).0, rows[i].1@, rows[i].2@)
    &&& distinct_numbers(row_records(rows))
}

/// A copy of a list of texts.
fn copied(names: &Vec<String>) -> (copy: Vec<String>)
    ensures
        copy@ == names@,
{
    let mut copy: Vec<String> = Vec::new();
    let mut i: usize = 0;
    while i < names.len()
        invariant
            0 <= i <= names@.len(),
            copy@ == names@.subrange(0, i as int),
        decreases names@.len() - i,
    {
        copy.push(names[i].clone());
        assert(copy@ =~= names@.subrange(0, i + 1));
        i += 1;
    }
    assert(copy@ =~= names@);
    copy
}

/// What a fetch of every record makes of the rows it read, each with the
/// rows of its categories: the records they make, by strictly growing number,
/// where each row is valid and no two share a number; else the one error.
pub fn listed(rows: Vec<(u16, String, Vec<String>)>) -> (r: Result<Vec<Pokemon>, FetchAllError>)
    ensures
        r is Ok <==> listable(rows@),
        r matches Ok(all) ==> ascending(data_of(all@)) && same_records(
            data_of(all@),
            row_records(rows@),
        ),
{
    let ghost records = row_records(rows@);
    let mut pokemons: Vec<Pokemon> = Vec::new();
    let mut i: usize = 0;
    while i < rows.len()
        invariant
            0 <= i <= rows@.len(),
            records == row_records(rows@),
            forall|k: int| 0 <= k < i ==> valid_row((#[trigger] rows@[k]).0, rows@[k].1@, rows@[k].2@),
            distinct_numbers(records.subrange(0, i as int)),
            ascending(data_of(pokemons@)),
            same_records(data_of(pokemons@), records.subrange(0, i as int)),
        decreases rows@.len() - i,
    {
        let ghost before = data_of(pokemons@);
        let ghost seen = records.subrange(0, i as int);
        let pokemon = match stored_pokemon(rows[i].0, rows[i].1.clone(), copied(&rows[i].2)) {
            Some(pokemon) => pokemon,
            None => {
                return Err(FetchAllError::Unknown);
            },
        };
        let ghost entity = pokemon@;
        assert(entity == records[i as int]);
        if !insert_sorted(&mut pokemons, pokemon) {
            proof {
                // a row read earlier has the number of this one
                let k = choose|k: int| 0 <= k < before.len() && (#[trigger] before[k]).number
                    == entity.number;
                assert(seen.contains(before[k]));
                let j = choose|j: int| 0 <= j < seen.len() && seen[j] == before[k];
                assert(records[j].number == records[i as int].number);
            }
            return Err(FetchAllError::Unknown);
        }
        proof {
            let next = records.subrange(0, i + 1);
            assert(next =~= seen.push(entity));
            lemma_same_records_push(data_of(pokemons@), before, seen, entity);
            assert forall|a: int, b: int| 0 <= a < b < next.len() implies (#[trigger] next[a]).number
                != (#[trigger] next[b]).number by {
                if b == i {
                    assert(before.contains(seen[a]));
                    let m = choose|m: int| 0 <= m < before.len() && before[m] == seen[a];
                    assert(before[m].number != entity.number);
                } else {
                    assert(seen[a].number != seen[b].number);
                }
            }
        }
        i += 1;
    }
    assert(records.subrange(0, i as int) =~= records);
    Ok(pokemons)
}

/// The statement that reads the category names stored for a number, which is
/// its one parameter.
pub fn type_select() -> (q: &'static str)
    ensures
        q@ == "select name from types where pokemon_number = ?"@,
{
    "select name from types where pokemon_number = ?"
}

/// The statement that removes the row of a record, with its one parameter,
/// the number of the record.
pub fn delete_call(number: &PokemonNumber) -> (q: (&'static str, u16))
    ensures
        q.0@ == "delete from pokemons where number = ?"@,
        q.1 == number@,
{
    ("delete from pokemons where number = ?", number.clone().to_u16())
}

/// What a fetch of one record makes of the row it read, with the rows of
/// its categories: the record they make where the row is valid, else the
/// error for stored data that cannot be trusted.
pub fn fetched(number: u16, name: String, types: Vec<String>) -> (r: Result<Pokemon, FetchOneError>)
    ensures
        valid_row(number, name@, types@) ==> (r matches Ok(p) && p@ == row_record(
            (number, name, types),
        )),
        !valid_row(number, name@, types@) ==> r matches Err(FetchOneError::Unknown),
{
    match stored_pokemon(number, name, types) {
        Some(pokemon) => Ok(pokemon),
        None => Err(FetchOneError::Unknown),
    }
}

/// What a fetch of one record makes of the rows that its query gave: not
/// found where there is none, else the first of them.
pub fn first_row(rows: Vec<(u16, String)>) -> (r: Result<(u16, String), FetchOneError>)
    ensures
        rows@.len() == 0 ==> r == Err::<(u16, String), FetchOneError>(FetchOneError::NotFound),
        rows@.len() > 0 ==> r == Ok::<(u16, String), FetchOneError>(rows@[0]),
{
    let mut rows = rows;
    if rows.len() == 0 {
        Err(FetchOneError::NotFound)
    } else {
        Ok(rows.remove(0))
    }
}

/// A repository on an open SQLite database.
pub struct SqliteRepository {
    connection: rusqlite::Connection,
}

impl SqliteRepository {
    /// Opens the database at a path for reading and writing and switches the
    /// checking of foreign keys on. Fails where either step does.
    pub fn try_new(path: &str) -> (r: Result<Self, ()>) {
        let connection = match open_read_write(path) {
            Ok(connection) => connection,
            _ => {
                return Err(());
            },
        };
        match execute(&connection, "pragma foreign_keys = 1", None, None) {
            Ok(_) => Ok(Self { connection }),
            _ => Err(()),
        }
    }

    /// The rows of the table of records: the one with the number, or all of
    /// them where no number is given.
    fn fetch_pokemon_rows(conn: &rusqlite::Connection, number: Option<u16>) -> (r: Result<
        Vec<(u16, String)>,
        (),
    >) {
        let (query, params) = pokemon_select(number);
        let mut stmt = match prepare(conn, query) {
            Ok(stmt) => stmt,
            _ => {
                return Err(());
            },
        };
        match query_pokemon_rows(&mut stmt, params) {
            Ok(rows) => Ok(rows),
            _ => Err(()),
        }
    }

    /// The category names stored for a number.
    fn fetch_type_rows(conn: &rusqlite::Connection, number: u16) -> (r: Result<Vec<String>, ()>) {
        let mut stmt = match prepare(conn, type_select()) {
            Ok(stmt) => stmt,
            _ => {
                return Err(());
            },
        };
        match query_type_rows(&mut stmt, number) {
            Ok(rows) => Ok(rows),
            _ => Err(()),
        }
    }
}

impl Repository for SqliteRepository {
    /// A record that comes back is the one that was handed in.
    open spec fn inserted(
        &self,
        after: &Self,
        entity: PokemonData,
        outcome: Result<PokemonData, InsertError>,
    ) -> bool {
        outcome matches Ok(stored) ==> stored == entity
    }

    /// The database decides which records come. Each has passed validation
    /// again, and they come by strictly growing number.
    open spec fn fetched_all(&self, outcome: Result<Seq<PokemonData>, FetchAllError>) -> bool {
        outcome matches Ok(all) ==> ascending(all) && forall|i: int|
            0 <= i < all.len() ==> valid_record(#[trigger] all[i])
    }

    /// The database decides whether a record comes. One that does has passed
    /// validation again.
    open spec fn fetched_one(&self, number: u16, outcome: Result<PokemonData, FetchOneError>) -> bool {
        outcome matches Ok(found) ==> valid_record(found)
    }

    /// The database decides.
    open spec fn deleted(&self, after: &Self, number: u16, outcome: Result<(), DeleteError>) -> bool {
        true
    }

    fn insert(&mut self, number: PokemonNumber, name: PokemonName, types: PokemonTypes) -> (r:
        Result<Pokemon, InsertError>)
    {
        let plan = rows_to_write(&number, &name, &types);
        let transaction = match begin(&mut self.connection) {
            Ok(transaction) => transaction,
            _ => {
                return Err(InsertError::Unknown);
            },
        };
        let mut i: usize = 0;
        while i < plan.len()
            invariant
                0 <= i <= plan@.len(),
            decreases plan@.len() - i,
        {
            let parent = plan[i].0;
            match execute(
                connection_of(&transaction),
                write_statement(parent),
                Some(plan[i].1),
                Some(plan[i].2.clone()),
            ) {
                Ok(_) => {},
                Err(message) => {
                    return Err(write_error(parent, message));
                },
            };
            i += 1;
        }
        match commit(transaction) {
            Ok(_) => Ok(Pokemon::new(number, name, types)),
            _ => Err(InsertError::Unknown),
        }
    }

    fn fetch_all(&self) -> (r: Result<Vec<Pokemon>, FetchAllError>) {
        let pokemon_rows = match Self::fetch_pokemon_rows(&self.connection, None) {
            Ok(pokemon_rows) => pokemon_rows,
            _ => {
                return Err(FetchAllError::Unknown);
            },
        };
        let mut rows: Vec<(u16, String, Vec<String>)> = Vec::new();
        let mut i: usize = 0;
        while i < pokemon_rows.len()
            invariant
                0 <= i <= pokemon_rows@.len(),
            decreases pokemon_rows@.len() - i,
        {
            let number = pokemon_rows[i].0;
            let type_rows = match Self::fetch_type_rows(&self.connection, number) {
                Ok(type_rows) => type_rows,
                _ => {
                    return Err(FetchAllError::Unknown);
                },
            };
            rows.push((number, pokemon_rows[i].1.clone(), type_rows));
            i += 1;
        }
        let all = listed(rows);
        proof {
            if all is Ok {
                let records = data_of(all->Ok_0@);
                assert forall|k: int| 0 <= k < records.len() implies valid_record(
                    #[trigger] records[k],
                ) by {
                    assert(row_records(rows@).contains(records[k]));
                    let j = choose|j: int|
                        0 <= j < row_records(rows@).len() && row_records(rows@)[j] == records[k];
                    assert(valid_row(rows@[j].0, rows@[j].1@, rows@[j].2@));
                }
            }
        }
        all
    }

    fn fetch_one(&self, number: PokemonNumber) -> (r: Result<Pokemon, FetchOneError>) {
        let pokemon_rows = match Self::fetch_pokemon_rows(&self.connection, Some(number.to_u16())) {
            Ok(pokemon_rows) => pokemon_rows,
            _ => {
                return Err(FetchOneError::Unknown);
            },
        };
        let (stored, name) = match first_row(pokemon_rows) {
            Ok(row) => row,
            Err(error) => {
                return Err(error);
            },
        };
        let type_rows = match Self::fetch_type_rows(&self.connection, stored) {
            Ok(type_rows) => type_rows,
            _ => {
                return Err(FetchOneError::Unknown);
            },
        };
        fetched(stored, name, type_rows)
    }

    fn delete(&mut self, number: PokemonNumber) -> (r: Result<(), DeleteError>) {
        let (statement, parameter) = delete_call(&number);
        match execute(&self.connection, statement, Some(parameter), None) {
            Ok(rows) => delete_outcome(rows),
            _ => Err(DeleteError::Unknown),
        }
    }
}

} // verus!
