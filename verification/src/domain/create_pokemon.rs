//! The use case that creates a record.

use crate::domain::entities::{
    types_named, valid_name, valid_number, valid_types, Pokemon, PokemonData, PokemonName,
    PokemonNumber, PokemonTypes,
};
use crate::repositories::pokemon::{one_outcome, record, InsertError, Repository};
use vstd::prelude::*;

verus! {

/// The raw data of a record to create, as a caller supplies it.
#[derive(Debug)]
pub struct Request {
    pub number: u16,
    pub name: String,
    pub types: Vec<String>,
}

/// What became of a request.
#[derive(Debug, PartialEq, Eq)]
pub enum Response {
    Created(u16),
    BadRequest,
    Conflict,
    Error,
}

/// Whether each of the three fields of a request is valid.
pub open spec fn acceptable(req: Request) -> bool {
    &&& valid_number(req.number)
    &&& valid_name(req.name@)
    &&& valid_types(req.types@)
}

/// The record that an acceptable request asks for.
pub open spec fn requested(req: Request) -> PokemonData {
    PokemonData { number: req.number, name: req.name@, types: types_named(req.types@) }
}

/// The response that goes with each result of the repository.
pub open spec fn response_to(outcome: Result<PokemonData, InsertError>) -> Response {
    match outcome {
        Ok(p) => Response::Created(p.number),
        Err(InsertError::Conflict) => Response::Conflict,
        Err(InsertError::Unknown) => Response::Error,
    }
}

/// Turns what the repository answered to an insert into a response.
pub fn respond(outcome: Result<Pokemon, InsertError>) -> (res: Response)
    ensures
        res == response_to(one_outcome(outcome)),
{
    match outcome {
        Ok(pokemon) => Response::Created(pokemon.number.to_u16()),
        Err(InsertError::Conflict) => Response::Conflict,
        Err(InsertError::Unknown) => Response::Error,
    }
}

/// Creates the record that a request describes.
///
/// A request with an invalid field is answered `BadRequest` and the repository
/// is not touched. Any other request is handed to the repository once, as the
/// record it asks for, and the response is the one that goes with the
/// repository's result. A number that comes back as created is the request's.
pub fn execute<R: Repository>(repo: &mut R, req: Request) -> (res: Response)
    ensures
        !acceptable(req) ==> res == Response::BadRequest && *final(repo) == *old(repo),
        acceptable(req) ==> exists|outcome: Result<PokemonData, InsertError>|
            #[trigger] old(repo).inserted(final(repo), requested(req), outcome) && res
                == response_to(outcome),
        res matches Response::Created(n) ==> n == req.number,
{
    match (
        PokemonNumber::try_from(req.number),
        PokemonName::try_from(req.name),
        PokemonTypes::try_from(req.types),
    ) {
        (Ok(number), Ok(name), Ok(types)) => {
            let ghost entity = record(number, name, types);
            let outcome = repo.insert(number, name, types);
            assert(entity == requested(req));
            assert(old(repo).inserted(repo, requested(req), one_outcome(outcome)));
            respond(outcome)
        },
        _ => Response::BadRequest,
    }
}

} // verus!
