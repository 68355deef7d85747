use pokedex::domain::entities::{Pokemon, PokemonName, PokemonNumber, PokemonType, PokemonTypes};

#[test]
fn number_is_accepted_strictly_between_0_and_899() {
    for n in 0..=u16::MAX {
        let parsed = PokemonNumber::try_from(n);
        assert_eq!(parsed.is_ok(), 0 < n && n < 899);
        if let Ok(number) = parsed {
            assert_eq!(number.clone().to_u16(), n);
            assert_eq!(u16::from(number), n);
        }
    }
}

#[test]
fn number_boundaries() {
    assert!(PokemonNumber::try_from(0).is_err());
    assert!(PokemonNumber::try_from(1).is_ok());
    assert!(PokemonNumber::try_from(898).is_ok());
    assert!(PokemonNumber::try_from(899).is_err());
    assert!(PokemonNumber::try_from(900).is_err());
}

#[test]
fn numbers_compare_by_value() {
    assert!(PokemonNumber::pikachu() == PokemonNumber::try_from(25).unwrap());
    assert!(PokemonNumber::pikachu() != PokemonNumber::charmander());
}

#[test]
fn name_is_accepted_when_not_empty() {
    assert!(PokemonName::try_from(String::new()).is_err());
    assert_eq!(PokemonName::try_from("a".to_string()).unwrap().to_string(), "a");
    assert_eq!(PokemonName::try_from(" ".to_string()).unwrap().to_string(), " ");
    assert_eq!(PokemonName::try_from("Pikachu".to_string()).unwrap().to_string(), "Pikachu");
    assert_eq!(PokemonName::pikachu().to_string(), "Pikachu");
    assert_eq!(PokemonName::charmander().clone().to_string(), "Charmander");
}

#[test]
fn type_names_are_the_closed_vocabulary() {
    assert_eq!(PokemonType::try_from("Electric".to_string()), Ok(PokemonType::Electric));
    assert_eq!(PokemonType::try_from("Fire".to_string()), Ok(PokemonType::Fire));
    assert_eq!(PokemonType::try_from("fire".to_string()), Err(()));
    assert_eq!(PokemonType::try_from("Water".to_string()), Err(()));
    assert_eq!(PokemonType::try_from(String::new()), Err(()));
    assert_eq!(PokemonType::Electric.get_value(), "Electric");
    assert_eq!(PokemonType::Fire.get_value(), "Fire");
}

#[test]
fn types_are_accepted_when_not_empty_and_all_known() {
    assert!(PokemonTypes::try_from(vec![]).is_err());
    assert!(PokemonTypes::try_from(vec!["Water".to_string()]).is_err());
    assert!(PokemonTypes::try_from(vec!["Electric".to_string(), "Water".to_string()]).is_err());
    assert!(PokemonTypes::try_from(vec!["Water".to_string(), "Electric".to_string()]).is_err());
    let both = PokemonTypes::try_from(vec!["Fire".to_string(), "Electric".to_string(), "Fire".to_string()]).unwrap();
    assert_eq!(
        both.clone().to_vec_string(),
        vec!["Fire".to_string(), "Electric".to_string(), "Fire".to_string()]
    );
    assert_eq!(PokemonTypes::pikachu().to_vec_string(), vec!["Electric".to_string()]);
    assert_eq!(PokemonTypes::charmander().to_vec_string(), vec!["Fire".to_string()]);
}

#[test]
fn a_record_keeps_its_parts() {
    let p = Pokemon::new(PokemonNumber::pikachu(), PokemonName::pikachu(), PokemonTypes::pikachu());
    let q = p.clone();
    assert_eq!(q.number.to_u16(), 25);
    assert_eq!(q.name.to_string(), "Pikachu");
    assert_eq!(q.types.to_vec_string(), vec!["Electric".to_string()]);
    assert_eq!(p.number.to_u16(), 25);
}
