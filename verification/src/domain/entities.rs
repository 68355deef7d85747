//! The validated values a creature record is made of.
//!
//! Each value type keeps its validity as a type invariant: a value that exists
//! is valid, and the only way to build one from raw data is its `try_from`.

use vstd::prelude::*;

verus! {

/// The national number of a creature: an integer strictly between 0 and 899.
#[derive(Debug)]
pub struct PokemonNumber(u16);

/// Whether a raw integer is an acceptable number.
pub open spec fn valid_number(n: u16) -> bool {
    0 < n < 899
}

impl View for PokemonNumber {
    type V = u16;

    closed spec fn view(&self) -> u16 {
        self.0
    }
}

impl PokemonNumber {
    #[verifier::type_invariant]
    spec fn inv(self) -> bool {
        valid_number(self.0)
    }

    /// Validates a raw integer: accepted exactly when it lies strictly
    /// between 0 and 899.
    pub fn try_from(n: u16) -> (r: Result<Self, ()>)
        ensures
            r is Ok <==> valid_number(n),
            r matches Ok(number) ==> number@ == n,
    {
        if n > 0 && n < 899 {
            Ok(Self(n))
        } else {
            Err(())
        }
    }

    /// The raw integer behind the number.
    pub fn to_u16(self) -> (n: u16)
        ensures
            n == self@,
            valid_number(n),
    {
        proof {
            use_type_invariant(&self);
        }
        self.0
    }
}

impl PokemonNumber {
    /// The number of Pikachu.
    pub fn pikachu() -> (number: Self)
        ensures
            number@ == 25,
    {
        Self(25)
    }

    /// The number of Charmander.
    pub fn charmander() -> (number: Self)
        ensures
            number@ == 3,
    {
        Self(3)
    }
}

impl From<PokemonNumber> for u16 {
    fn from(n: PokemonNumber) -> (raw: u16) {
        n.0
    }
}

impl vstd::std_specs::convert::FromSpecImpl<PokemonNumber> for u16 {
    open spec fn obeys_from_spec() -> bool {
        true
    }

    open spec fn from_spec(n: PokemonNumber) -> u16 {
        n@
    }
}

impl Clone for PokemonNumber {
    fn clone(&self) -> (r: Self)
        ensures
            r@ == self@,
    {
        proof {
            use_type_invariant(self);
        }
        Self(self.0)
    }
}

impl PartialEq for PokemonNumber {
    fn eq(&self, other: &Self) -> (r: bool) {
        self.0 == other.0
    }
}

impl vstd::std_specs::cmp::PartialEqSpecImpl for PokemonNumber {
    open spec fn obeys_eq_spec() -> bool {
        true
    }

    open spec fn eq_spec(&self, other: &Self) -> bool {
        self@ == other@
    }
}

/// The display name of a creature: any text but the empty one.
#[derive(Debug)]
pub struct PokemonName(String);

/// Whether a raw text is an acceptable name.
pub open spec fn valid_name(s: Seq<char>) -> bool {
    s.len() > 0
}

impl View for PokemonName {
    type V = Seq<char>;

    closed spec fn view(&self) -> Seq<char> {
        self.0@
    }
}

impl PokemonName {
    #[verifier::type_invariant]
    spec fn inv(self) -> bool {
        valid_name(self.0@)
    }

    /// Validates a raw text: accepted exactly when it is not empty.
    pub fn try_from(n: String) -> (r: Result<Self, ()>)
        ensures
            r is Ok <==> valid_name(n@),
            r matches Ok(name) ==> name@ == n@,
    {
        if n.as_str().is_empty() {
            Err(())
        } else {
            Ok(Self(n))
        }
    }

    /// The text behind the name.
    pub fn to_string(self) -> (s: String)
        ensures
            s@ == self@,
            valid_name(s@),
    {
        proof {
            use_type_invariant(&self);
        }
        self.0
    }
}

impl PokemonName {
    /// The name of Pikachu.
    pub fn pikachu() -> (name: Self)
        ensures
            name@ == "Pikachu"@,
    {
        proof {
            reveal_strlit("Pikachu");
        }
        Self("Pikachu".to_owned())
    }

    /// The name of Charmander.
    pub fn charmander() -> (name: Self)
        ensures
            name@ == "Charmander"@,
    {
        proof {
            reveal_strlit("Charmander");
        }
        Self("Charmander".to_owned())
    }
}

impl Clone for PokemonName {
    fn clone(&self) -> (r: Self)
        ensures
            r@ == self@,
    {
        proof {
            use_type_invariant(self);
        }
        Self(self.0.clone())
    }
}

/// A category a creature belongs to. The vocabulary is closed.
#[derive(Clone, Copy, PartialEq, Eq, Structural, Debug)]
pub enum PokemonType {
    Electric,
    Fire,
}

/// The text under which a category is written.
pub open spec fn name_of_type(t: PokemonType) -> Seq<char> {
    match t {
        PokemonType::Electric => "Electric"@,
        PokemonType::Fire => "Fire"@,
    }
}

/// The category that a text names, if it names one.
pub open spec fn type_named(s: Seq<char>) -> Option<PokemonType> {
    if s == "Electric"@ {
        Some(PokemonType::Electric)
    } else if s == "Fire"@ {
        Some(PokemonType::Fire)
    } else {
        None
    }
}

/// Reading back the name of a category gives that category.
pub proof fn lemma_name_round_trip(t: PokemonType)
    ensures
        type_named(name_of_type(t)) == Some(t),
{
    reveal_strlit("Electric");
    reveal_strlit("Fire");
    assert("Electric"@.len() != "Fire"@.len());
}

impl PokemonType {
    /// The name of the category, as text.
    pub fn get_value(self) -> (s: String)
        ensures
            s@ == name_of_type(self),
    {
        match self {
            PokemonType::Electric => "Electric".to_owned(),
            PokemonType::Fire => "Fire".to_owned(),
        }
    }

    /// Reads a category name: accepted exactly when it is one of the
    /// vocabulary's names.
    pub fn try_from(t: String) -> (r: Result<Self, ()>)
        ensures
            r is Ok <==> type_named(t@) is Some,
            r matches Ok(pt) ==> type_named(t@) == Some(pt),
    {
        if t == "Electric".to_owned() {
            Ok(PokemonType::Electric)
        } else if t == "Fire".to_owned() {
            Ok(PokemonType::Fire)
        } else {
            Err(())
        }
    }
}

/// The categories of a creature, in the order given: at least one.
#[derive(Debug)]
pub struct PokemonTypes(Vec<PokemonType>);

/// Whether a raw list of texts is an acceptable list of categories: it is
/// not empty and each text names a category.
pub open spec fn valid_types(ts: Seq<String>) -> bool {
    &&& ts.len() > 0
    &&& forall|i: int| 0 <= i < ts.len() ==> type_named(#[trigger] ts[i]@) is Some
}

/// The categories that a list of texts names, one for one.
pub open spec fn types_named(ts: Seq<String>) -> Seq<PokemonType> {
    Seq::new(ts.len(), |i: int| type_named(ts[i]@).unwrap())
}

/// The names of a list of categories, one for one.
pub open spec fn names_of_types(ts: Seq<PokemonType>) -> Seq<Seq<char>> {
    Seq::new(ts.len(), |i: int| name_of_type(ts[i]))
}

/// The texts of a list of strings, one for one.
pub open spec fn texts(ts: Seq<String>) -> Seq<Seq<char>> {
    Seq::new(ts.len(), |i: int| ts[i]@)
}

impl View for PokemonTypes {
    type V = Seq<PokemonType>;

    closed spec fn view(&self) -> Seq<PokemonType> {
        self.0@
    }
}

impl PokemonTypes {
    #[verifier::type_invariant]
    spec fn inv(self) -> bool {
        self.0@.len() > 0
    }

    /// Validates a raw list of category names: accepted exactly when the list
    /// is not empty and every element names a category. Nothing is kept of a
    /// list that is refused.
    pub fn try_from(ts: Vec<String>) -> (r: Result<Self, ()>)
        ensures
            r is Ok <==> valid_types(ts@),
            r matches Ok(types) ==> types@ == types_named(ts@),
    {
        if ts.len() == 0 {
            Err(())
        } else {
            let mut pts: Vec<PokemonType> = Vec::new();
            let mut i: usize = 0;
            while i < ts.len()
                invariant
                    0 <= i <= ts.len(),
                    pts@.len() == i,
                    forall|k: int| 0 <= k < i ==> type_named(#[trigger] ts@[k]@) == Some(pts@[k]),
                decreases ts.len() - i,
            {
                match PokemonType::try_from(ts[i].clone()) {
                    Ok(pt) => pts.push(pt),
                    _ => {
                        return Err(());
                    },
                }
                i += 1;
            }
            assert(pts@ =~= types_named(ts@));
            Ok(Self(pts))
        }
    }

    /// The names of the categories, in order.
    pub fn to_vec_string(self) -> (names: Vec<String>)
        ensures
            texts(names@) == names_of_types(self@),
            names@.len() > 0,
    {
        proof {
            use_type_invariant(&self);
        }
        let mut names: Vec<String> = Vec::new();
        let mut i: usize = 0;
        while i < self.0.len()
            invariant
                0 <= i <= self.0@.len(),
                names@.len() == i,
                forall|k: int| 0 <= k < i ==> (#[trigger] names@[k])@ == name_of_type(self.0@[k]),
            decreases self.0@.len() - i,
        {
            names.push(self.0[i].get_value());
            i += 1;
        }
        assert(texts(names@) =~= names_of_types(self@));
        names
    }
}

impl PokemonTypes {
    /// The categories of Pikachu.
    pub fn pikachu() -> (types: Self)
        ensures
            types@ == seq![PokemonType::Electric],
    {
        let mut pts: Vec<PokemonType> = Vec::new();
        pts.push(PokemonType::Electric);
        assert(pts@ =~= seq![PokemonType::Electric]);
        Self(pts)
    }

    /// The categories of Charmander.
    pub fn charmander() -> (types: Self)
        ensures
            types@ == seq![PokemonType::Fire],
    {
        let mut pts: Vec<PokemonType> = Vec::new();
        pts.push(PokemonType::Fire);
        assert(pts@ =~= seq![PokemonType::Fire]);
        Self(pts)
    }
}

impl Clone for PokemonTypes {
    fn clone(&self) -> (r: Self)
        ensures
            r@ == self@,
    {
        proof {
            use_type_invariant(self);
        }
        let mut pts: Vec<PokemonType> = Vec::new();
        let mut i: usize = 0;
        while i < self.0.len()
            invariant
                0 <= i <= self.0@.len(),
                pts@ == self.0@.subrange(0, i as int),
            decreases self.0@.len() - i,
        {
            pts.push(self.0[i]);
            assert(pts@ =~= self.0@.subrange(0, i + 1));
            i += 1;
        }
        assert(pts@ =~= self.0@);
        Self(pts)
    }
}

/// What a creature record holds, as plain mathematical values.
pub struct PokemonData {
    pub number: u16,
    pub name: Seq<char>,
    pub types: Seq<PokemonType>,
}

/// Whether each of the three parts of a record is valid: the number in
/// range, the name not empty, and at least one category.
pub open spec fn valid_record(p: PokemonData) -> bool {
    &&& valid_number(p.number)
    &&& valid_name(p.name)
    &&& p.types.len() > 0
}

/// What a creature record reads as once its categories are written out.
pub struct PokemonText {
    pub number: u16,
    pub name: Seq<char>,
    pub types: Seq<Seq<char>>,
}

/// A record with its categories written out.
pub open spec fn text_of(p: PokemonData) -> PokemonText {
    PokemonText { number: p.number, name: p.name, types: names_of_types(p.types) }
}

/// A creature record. Its three parts are valid by their types, so a record
/// is never half valid.
#[derive(Debug)]
pub struct Pokemon {
    pub number: PokemonNumber,
    pub name: PokemonName,
    pub types: PokemonTypes,
}

impl View for Pokemon {
    type V = PokemonData;

    open spec fn view(&self) -> PokemonData {
        PokemonData { number: self.number@, name: self.name@, types: self.types@ }
    }
}

impl Pokemon {
    /// Puts the three validated parts together.
    pub fn new(number: PokemonNumber, name: PokemonName, types: PokemonTypes) -> (p: Self)
        ensures
            p.number == number,
            p.name == name,
            p.types == types,
    {
        Self { number, name, types }
    }
}

impl Clone for Pokemon {
    fn clone(&self) -> (r: Self)
        ensures
            r@ == self@,
    {
        Self { number: self.number.clone(), name: self.name.clone(), types: self.types.clone() }
    }
}

} // verus!
