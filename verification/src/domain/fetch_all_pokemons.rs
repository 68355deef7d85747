//! The use case that lists every record.

use crate::domain::entities::{text_of, texts, Pokemon, PokemonData, PokemonText};
use crate::repositories::pokemon::{all_outcome, data_of, FetchAllError, Repository};
use vstd::prelude::*;

verus! {

/// Why the records could not be listed.
#[derive(Debug, PartialEq, Eq)]
pub enum Error {
    Unknown,
}

/// One record of the list, as plain values.
#[derive(Debug)]
pub struct Response {
    pub number: u16,
    pub name: String,
    pub types: Vec<String>,
}

impl View for Response {
    type V = PokemonText;

    open spec fn view(&self) -> PokemonText {
        PokemonText { number: self.number, name: self.name@, types: texts(self.types@) }
    }
}

/// What a list of responses reads as, one for one.
pub open spec fn texts_of(rs: Seq<Response>) -> Seq<PokemonText> {
    Seq::new(rs.len(), |i: int| rs[i]@)
}

/// The answer that goes with each result of the repository: the records in
/// the repository's order, each written out, or the one error.
pub open spec fn answer_to(outcome: Result<Seq<PokemonData>, FetchAllError>) -> Result<
    Seq<PokemonText>,
    Error,
> {
    match outcome {
        Ok(all) => Ok(Seq::new(all.len(), |i: int| text_of(all[i]))),
        Err(FetchAllError::Unknown) => Err(Error::Unknown),
    }
}

/// The result of the use case, by what its responses read as.
pub open spec fn answer_of(res: Result<Vec<Response>, Error>) -> Result<Seq<PokemonText>, Error> {
    match res {
        Ok(rs) => Ok(texts_of(rs@)),
        Err(e) => Err(e),
    }
}

/// Turns what the repository answered into the use case's result.
pub fn respond(outcome: Result<Vec<Pokemon>, FetchAllError>) -> (res: Result<Vec<Response>, Error>)
    ensures
        answer_of(res) == answer_to(all_outcome(outcome)),
{
    match outcome {
        Ok(pokemons) => {
            let mut responses: Vec<Response> = Vec::new();
            let mut i: usize = 0;
            while i < pokemons.len()
                invariant
                    0 <= i <= pokemons@.len(),
                    responses@.len() == i,
                    forall|k: int| 0 <= k < i ==> (#[trigger] responses@[k])@ == text_of(pokemons@[k]@),
                decreases pokemons@.len() - i,
            {
                let p = pokemons[i].clone();
                responses.push(
                    Response {
                        number: p.number.to_u16(),
                        name: p.name.to_string(),
                        types: p.types.to_vec_string(),
                    },
                );
                i += 1;
            }
            assert(texts_of(responses@) =~= Seq::new(
                data_of(pokemons@).len(),
                |i: int| text_of(data_of(pokemons@)[i]),
            ));
            Ok(responses)
        },
        Err(FetchAllError::Unknown) => Err(Error::Unknown),
    }
}

/// Lists every record of the repository, in the repository's order.
///
/// The repository is asked once, and the result is the answer that goes with
/// what it gave.
pub fn execute<R: Repository>(repo: &R) -> (res: Result<Vec<Response>, Error>)
    ensures
        exists|outcome: Result<Seq<PokemonData>, FetchAllError>|
            #[trigger] repo.fetched_all(outcome) && answer_of(res) == answer_to(outcome),
        res matches Ok(rs) ==> forall|i: int, j: int|
            0 <= i < j < rs@.len() ==> (#[trigger] rs@[i]).number < (#[trigger] rs@[j]).number,
{
    let outcome = repo.fetch_all();
    let ghost all = all_outcome(outcome);
    let res = respond(outcome);
    proof {
        if res is Ok {
            let rs = res->Ok_0;
            let records = all->Ok_0;
            assert(texts_of(rs@) == Seq::new(records.len(), |i: int| text_of(records[i])));
            assert forall|i: int, j: int| 0 <= i < j < rs@.len() implies (#[trigger] rs@[i]).number
                < (#[trigger] rs@[j]).number by {
                assert(texts_of(rs@)[i] == text_of(records[i]));
                assert(texts_of(rs@)[j] == text_of(records[j]));
                assert(records[i].number < records[j].number);
            }
        }
    }
    res
}

} // verus!
