//! Validated entities and the use cases that work on them.

pub mod entities;
pub mod create_pokemon;
pub mod fetch_all_pokemons;
pub mod fetch_pokemon;
