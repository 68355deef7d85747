use pokedex::domain::entities::{PokemonName, PokemonNumber, PokemonTypes};
use pokedex::domain::fetch_pokemon::{execute, respond, Error, Request};
use pokedex::repositories::pokemon::{FetchOneError, InMemoryRepository, Repository};

#[test]
fn fetch_pokemon_it_should_return_an_unknown_error_when_an_unexpected_error_happens() {
    let repo = InMemoryRepository::new().with_error();
    let req = Request::new(PokemonNumber::pikachu());
    let res = execute(&repo, req);
    match res {
        Err(Error::Unknown) => {}
        _ => unreachable!(),
    };
}

#[test]
fn it_should_return_a_bad_request_error_when_request_is_invalid() {
    let repo = InMemoryRepository::new();
    let req = Request { number: 900 };

    let res = execute(&repo, req);

    match res {
        Err(Error::BadRequest) => {}
        _ => unreachable!(),
    }
}

#[test]
fn it_should_return_a_not_found_error_when_the_repo_does_not_contain_the_pokemon() {
    let repo = InMemoryRepository::new();
    let req = Request::new(PokemonNumber::pikachu());

    let res = execute(&repo, req);

    match res {
        Err(Error::NotFound) => {}
        _ => unreachable!(),
    }
}

#[test]
fn it_should_return_the_pokemon_otherwise() {
    let mut repo = InMemoryRepository::new();
    repo.insert(
        PokemonNumber::pikachu(),
        PokemonName::pikachu(),
        PokemonTypes::pikachu(),
    )
    .ok();

    let req = Request::new(PokemonNumber::pikachu());

    let res = execute(&repo, req);

    match res {
        Ok(res) => {
            assert_eq!(res.number, PokemonNumber::pikachu().to_u16());
            assert_eq!(res.name, PokemonName::pikachu().to_string());
            assert_eq!(res.types, PokemonTypes::pikachu().to_vec_string());
        }
        _ => unreachable!(),
    }
}

#[test]
fn fetch_rejects_numbers_out_of_range() {
    let repo = InMemoryRepository::new();
    assert_eq!(execute(&repo, Request { number: 0 }).err(), Some(Error::BadRequest));
    assert_eq!(execute(&repo, Request { number: 899 }).err(), Some(Error::BadRequest));
    assert_eq!(execute(&repo, Request { number: u16::MAX }).err(), Some(Error::BadRequest));
    assert_eq!(execute(&repo, Request { number: 1 }).err(), Some(Error::NotFound));
    assert_eq!(execute(&repo, Request { number: 898 }).err(), Some(Error::NotFound));
}

#[test]
fn fetch_respond_maps_each_outcome() {
    let pokemon = pokedex::domain::entities::Pokemon::new(
        PokemonNumber::charmander(),
        PokemonName::charmander(),
        PokemonTypes::charmander(),
    );
    let res = respond(Ok(pokemon)).ok().unwrap();
    assert_eq!(res.number, 3);
    assert_eq!(res.name, "Charmander");
    assert_eq!(res.types, vec!["Fire".to_string()]);
    assert_eq!(respond(Err(FetchOneError::NotFound)).err(), Some(Error::NotFound));
    assert_eq!(respond(Err(FetchOneError::Unknown)).err(), Some(Error::Unknown));
}
