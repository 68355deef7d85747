use pokedex::domain::entities::{PokemonName, PokemonNumber, PokemonTypes};
use pokedex::domain::fetch_all_pokemons::{execute, respond, Error};
use pokedex::repositories::pokemon::{FetchAllError, InMemoryRepository, Repository};

#[test]
fn fetch_all_pokemons_it_should_return_an_unknown_error_when_an_unexpected_error_happens() {
    let repo = InMemoryRepository::new().with_error();
    let res = execute(&repo);

    match res {
        Err(Error::Unknown) => {}
        _ => unreachable!(),
    };
}

#[test]
fn it_should_return_all_the_pokemons_ordered_by_increasing_number_otherwise() {
    let mut repo = InMemoryRepository::new();
    repo.insert(
        PokemonNumber::pikachu(),
        PokemonName::pikachu(),
        PokemonTypes::pikachu(),
    )
    .ok();

    repo.insert(
        PokemonNumber::charmander(),
        PokemonName::charmander(),
        PokemonTypes::charmander(),
    )
    .ok();

    let res = execute(&repo);

    match res {
        Ok(res) => {
            assert_eq!(res[0].number, PokemonNumber::charmander().to_u16());
            assert_eq!(res[0].name, PokemonName::charmander().to_string());
            assert_eq!(res[0].types, PokemonTypes::charmander().to_vec_string());
            assert_eq!(res[1].number, PokemonNumber::pikachu().to_u16());
            assert_eq!(res[1].name, PokemonName::pikachu().to_string());
            assert_eq!(res[1].types, PokemonTypes::pikachu().to_vec_string());
        }
        _ => unreachable!(),
    };
}

#[test]
fn fetch_all_lists_by_number_whatever_the_order_of_insertion() {
    let mut repo = InMemoryRepository::new();
    for n in [500u16, 2, 898, 1, 250, 3, 100] {
        let types = PokemonTypes::try_from(vec!["Fire".to_string(), "Electric".to_string()]).unwrap();
        let name = PokemonName::try_from(format!("creature {}", n)).unwrap();
        assert!(repo.insert(PokemonNumber::try_from(n).unwrap(), name, types).is_ok());
    }
    let res = execute(&repo).ok().unwrap();
    let numbers: Vec<u16> = res.iter().map(|r| r.number).collect();
    assert_eq!(numbers, vec![1, 2, 3, 100, 250, 500, 898]);
    assert_eq!(res[3].name, "creature 100");
    assert_eq!(res[3].types, vec!["Fire".to_string(), "Electric".to_string()]);
}

#[test]
fn fetch_all_of_an_empty_repository_is_empty() {
    let repo = InMemoryRepository::new();
    assert_eq!(execute(&repo).ok().unwrap().len(), 0);
}

#[test]
fn respond_keeps_the_order_it_is_given() {
    let records = vec![
        PokemonNumber::pikachu(),
        PokemonNumber::charmander(),
    ];
    let mut pokemons = Vec::new();
    for number in records {
        pokemons.push(pokedex::domain::entities::Pokemon::new(
            number,
            PokemonName::pikachu(),
            PokemonTypes::pikachu(),
        ));
    }
    let res = respond(Ok(pokemons)).ok().unwrap();
    assert_eq!(res.len(), 2);
    assert_eq!(res[0].number, 25);
    assert_eq!(res[1].number, 3);
    assert_eq!(respond(Err(FetchAllError::Unknown)).err(), Some(Error::Unknown));
}
