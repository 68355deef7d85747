//! The use case that fetches one record by its number.

use crate::domain::entities::{
    text_of, texts, valid_number, Pokemon, PokemonData, PokemonNumber, PokemonText,
};
use crate::repositories::pokemon::{one_outcome, FetchOneError, Repository};
use vstd::prelude::*;

verus! {

/// The raw number of the record to fetch, as a caller supplies it.
#[derive(Debug)]
pub struct Request {
    pub number: u16,
}

impl Request {
    /// The request for the record stored under a number.
    pub fn new(number: PokemonNumber) -> (req: Self)
        ensures
            req.number == number@,
    {
        Self { number: number.to_u16() }
    }
}

/// Why the record could not be fetched.
#[derive(Debug, PartialEq, Eq)]
pub enum Error {
    Unknown,
    BadRequest,
    NotFound,
}

/// The record, as plain values.
#[derive(Debug)]
pub struct Response {
    pub number: u16,
    pub name: String,
    pub types: Vec<String>,
}

impl View for Response {
    type V = PokemonText;

    open spec fn view(&self) -> PokemonText {
        PokemonText { number: self.number, name: self.name@, types: texts(self.types@) }
    }
}

/// The answer that goes with each result of the repository.
pub open spec fn answer_to(outcome: Result<PokemonData, FetchOneError>) -> Result<
    PokemonText,
    Error,
> {
    match outcome {
        Ok(p) => Ok(text_of(p)),
        Err(FetchOneError::NotFound) => Err(Error::NotFound),
        Err(FetchOneError::Unknown) => Err(Error::Unknown),
    }
}

/// The result of the use case, by what its response reads as.
pub open spec fn answer_of(res: Result<Response, Error>) -> Result<PokemonText, Error> {
    match res {
        Ok(r) => Ok(r@),
        Err(e) => Err(e),
    }
}

/// Turns what the repository answered into the use case's result.
pub fn respond(outcome: Result<Pokemon, FetchOneError>) -> (res: Result<Response, Error>)
    ensures
        answer_of(res) == answer_to(one_outcome(outcome)),
{
    match outcome {
        Ok(Pokemon { number, name, types }) => Ok(
            Response {
                number: number.to_u16(),
                name: name.to_string(),
                types: types.to_vec_string(),
            },
        ),
        Err(FetchOneError::NotFound) => Err(Error::NotFound),
        Err(FetchOneError::Unknown) => Err(Error::Unknown),
    }
}

/// Fetches the record stored under the number of a request.
///
/// A number that is not valid is answered `BadRequest` and the repository is
/// not asked. For any other the repository is asked once, and the result is
/// the answer that goes with what it gave.
pub fn execute<R: Repository>(repo: &R, req: Request) -> (res: Result<Response, Error>)
    ensures
        !valid_number(req.number) ==> res matches Err(Error::BadRequest),
        valid_number(req.number) ==> exists|outcome: Result<PokemonData, FetchOneError>|
            #[trigger] repo.fetched_one(req.number, outcome) && answer_of(res) == answer_to(
                outcome,
            ),
{
    match PokemonNumber::try_from(req.number) {
        Ok(number) => {
            let outcome = repo.fetch_one(number);
            respond(outcome)
        },
        _ => Err(Error::BadRequest),
    }
}

} // verus!
