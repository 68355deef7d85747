use pokedex::domain::create_pokemon::{execute, respond, Request, Response};
use pokedex::domain::entities::{Pokemon, PokemonName, PokemonNumber, PokemonTypes};
use pokedex::domain::fetch_pokemon;
use pokedex::repositories::pokemon::{InMemoryRepository, InsertError, Repository};

#[test]
fn should_return_number() {
    let mut repo = InMemoryRepository::new();

    let n = 25;
    let q = Request {
        number: n,
        name: "Pikachu".to_string(),
        types: vec!["Electric".to_string()],
    };

    let res = execute(&mut repo, q);

    match res {
        Response::Created(res_numb) => assert_eq!(res_numb, n),
        _ => assert!(false),
    }
}

#[test]
fn should_return_bad_request() {
    let mut repo = InMemoryRepository::new();

    let q = Request {
        number: 25,
        name: "".to_string(),
        types: vec!["Electric".to_string()],
    };

    let res = execute(&mut repo, q);

    match res {
        Response::BadRequest => assert!(true),
        _ => assert!(false),
    }
}

#[test]
fn should_return_conflict_exist() {
    let number = PokemonNumber::try_from(25).unwrap();
    let name = PokemonName::try_from("Pikachu".to_string()).unwrap();
    let types = PokemonTypes::try_from(vec!["Electric".to_string()]).unwrap();

    let mut repo = InMemoryRepository::new();

    repo.insert(number, name, types).ok();

    let req = Request {
        number: 25,
        name: String::from("Charmander"),
        types: vec![String::from("Fire")],
    };

    let res = execute(&mut repo, req);

    match res {
        Response::Conflict => {}
        _ => unreachable!(),
    }
}

#[test]
fn should_return_error_when_unexpected_error_happends() {
    let mut repo = InMemoryRepository::new().with_error();
    let number = 25;
    let req = Request {
        number,
        name: String::from("Pikachu"),
        types: vec![String::from("Electric")],
    };

    let res = execute(&mut repo, req);

    match res {
        Response::Error => {}
        _ => unreachable!(),
    };
}

#[test]
fn bad_request_leaves_the_repository_alone() {
    let mut repo = InMemoryRepository::new();
    let bad_number = Request { number: 0, name: "Pikachu".to_string(), types: vec!["Electric".to_string()] };
    assert_eq!(execute(&mut repo, bad_number), Response::BadRequest);
    let too_large = Request { number: 899, name: "Pikachu".to_string(), types: vec!["Electric".to_string()] };
    assert_eq!(execute(&mut repo, too_large), Response::BadRequest);
    let no_types = Request { number: 25, name: "Pikachu".to_string(), types: vec![] };
    assert_eq!(execute(&mut repo, no_types), Response::BadRequest);
    let unknown_type = Request {
        number: 25,
        name: "Pikachu".to_string(),
        types: vec!["Electric".to_string(), "Water".to_string()],
    };
    assert_eq!(execute(&mut repo, unknown_type), Response::BadRequest);
    assert_eq!(repo.fetch_all().ok().unwrap().len(), 0);
}

#[test]
fn conflict_keeps_the_first_record() {
    let mut repo = InMemoryRepository::new();
    let first = Request { number: 25, name: "Pikachu".to_string(), types: vec!["Electric".to_string()] };
    assert_eq!(execute(&mut repo, first), Response::Created(25));
    let second = Request { number: 25, name: "Charmander".to_string(), types: vec!["Fire".to_string()] };
    assert_eq!(execute(&mut repo, second), Response::Conflict);

    let res = fetch_pokemon::execute(&repo, fetch_pokemon::Request { number: 25 }).ok().unwrap();
    assert_eq!(res.number, 25);
    assert_eq!(res.name, "Pikachu");
    assert_eq!(res.types, vec!["Electric".to_string()]);
    assert_eq!(repo.fetch_all().ok().unwrap().len(), 1);
}

#[test]
fn respond_maps_each_outcome() {
    let pokemon = Pokemon::new(PokemonNumber::charmander(), PokemonName::charmander(), PokemonTypes::charmander());
    assert_eq!(respond(Ok(pokemon)), Response::Created(3));
    assert_eq!(respond(Err(InsertError::Conflict)), Response::Conflict);
    assert_eq!(respond(Err(InsertError::Unknown)), Response::Error);
}
