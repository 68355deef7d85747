use pokedex::domain::entities::{Pokemon, PokemonName, PokemonNumber, PokemonTypes};
use pokedex::repositories::pokemon::{
    insert_sorted, DeleteError, FetchAllError, FetchOneError, InMemoryRepository, InsertError,
    Repository,
};

fn number(n: u16) -> PokemonNumber {
    PokemonNumber::try_from(n).unwrap()
}

fn summary(p: Pokemon) -> (u16, String, Vec<String>) {
    (p.number.to_u16(), p.name.to_string(), p.types.to_vec_string())
}

fn contents(repo: &InMemoryRepository) -> Vec<(u16, String, Vec<String>)> {
    repo.fetch_all().ok().unwrap().into_iter().map(summary).collect()
}

#[test]
fn second_insert_under_one_number_is_a_conflict_and_changes_nothing() {
    let mut repo = InMemoryRepository::new();
    let first = repo.insert(number(25), PokemonName::pikachu(), PokemonTypes::pikachu());
    assert_eq!(first.ok().map(summary), Some((25, "Pikachu".to_string(), vec!["Electric".to_string()])));
    let after_first = contents(&repo);

    let second = repo.insert(number(25), PokemonName::charmander(), PokemonTypes::charmander());
    assert_eq!(second.err(), Some(InsertError::Conflict));
    assert_eq!(contents(&repo), after_first);
    assert_eq!(
        repo.fetch_one(number(25)).ok().map(summary),
        Some((25, "Pikachu".to_string(), vec!["Electric".to_string()]))
    );
}

#[test]
fn insert_then_fetch_gives_the_record_back() {
    let mut repo = InMemoryRepository::new();
    repo.insert(number(3), PokemonName::charmander(), PokemonTypes::charmander()).ok();
    repo.insert(number(25), PokemonName::pikachu(), PokemonTypes::pikachu()).ok();
    assert_eq!(
        repo.fetch_one(number(3)).ok().map(summary),
        Some((3, "Charmander".to_string(), vec!["Fire".to_string()]))
    );
    assert_eq!(repo.fetch_one(number(4)).err(), Some(FetchOneError::NotFound));
}

#[test]
fn fetch_all_is_strictly_ascending() {
    let mut repo = InMemoryRepository::new();
    for n in [77u16, 5, 898, 1, 400, 399, 401, 2] {
        assert!(repo.insert(number(n), PokemonName::pikachu(), PokemonTypes::pikachu()).is_ok());
    }
    let all = contents(&repo);
    let numbers: Vec<u16> = all.iter().map(|r| r.0).collect();
    assert_eq!(numbers, vec![1, 2, 5, 77, 399, 400, 401, 898]);
}

#[test]
fn delete_removes_the_record_and_only_it() {
    let mut repo = InMemoryRepository::new();
    for n in [25u16, 3, 100] {
        repo.insert(number(n), PokemonName::pikachu(), PokemonTypes::pikachu()).ok();
    }
    assert_eq!(repo.delete(number(7)), Err(DeleteError::NotFound));
    assert_eq!(contents(&repo).len(), 3);
    assert_eq!(repo.delete(number(3)), Ok(()));
    let numbers: Vec<u16> = contents(&repo).iter().map(|r| r.0).collect();
    assert_eq!(numbers, vec![25, 100]);
    assert_eq!(repo.delete(number(3)), Err(DeleteError::NotFound));
    assert_eq!(repo.fetch_one(number(3)).err(), Some(FetchOneError::NotFound));
    assert!(repo.insert(number(3), PokemonName::charmander(), PokemonTypes::charmander()).is_ok());
}

#[test]
fn failing_repository_answers_unknown_and_keeps_its_records() {
    let mut repo = InMemoryRepository::new();
    repo.insert(number(25), PokemonName::pikachu(), PokemonTypes::pikachu()).ok();
    let mut repo = repo.with_error();
    assert_eq!(
        repo.insert(number(3), PokemonName::charmander(), PokemonTypes::charmander()).err(),
        Some(InsertError::Unknown)
    );
    assert_eq!(
        repo.insert(number(25), PokemonName::charmander(), PokemonTypes::charmander()).err(),
        Some(InsertError::Unknown)
    );
    assert_eq!(repo.fetch_all().err(), Some(FetchAllError::Unknown));
    assert_eq!(repo.fetch_one(number(25)).err(), Some(FetchOneError::Unknown));
    assert_eq!(repo.delete(number(25)), Err(DeleteError::Unknown));
    assert_eq!(repo.delete(number(3)), Err(DeleteError::Unknown));
}

#[test]
fn insert_sorted_keeps_the_order_and_refuses_a_number_twice() {
    let mut sorted: Vec<Pokemon> = Vec::new();
    for n in [25u16, 3, 100, 4] {
        let pokemon = Pokemon::new(number(n), PokemonName::pikachu(), PokemonTypes::pikachu());
        assert!(insert_sorted(&mut sorted, pokemon));
    }
    let again = Pokemon::new(number(25), PokemonName::charmander(), PokemonTypes::charmander());
    assert!(!insert_sorted(&mut sorted, again));
    let all: Vec<(u16, String, Vec<String>)> = sorted.into_iter().map(summary).collect();
    let numbers: Vec<u16> = all.iter().map(|r| r.0).collect();
    assert_eq!(numbers, vec![3, 4, 25, 100]);
    assert_eq!(all[2].1, "Pikachu");
}
