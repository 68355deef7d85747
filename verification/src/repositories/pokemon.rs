//! The storage contract and the store that keeps its records in memory.

use crate::domain::entities::{Pokemon, PokemonData, PokemonName, PokemonNumber, PokemonTypes};
pub use crate::repositories::sqlite::SqliteRepository;
use vstd::prelude::*;

verus! {

/// Why all the records could not be fetched.
#[derive(Clone, Copy, PartialEq, Eq, Structural, Debug)]
pub enum FetchAllError {
    Unknown,
}

/// Why one record could not be fetched.
#[derive(Clone, Copy, PartialEq, Eq, Structural, Debug)]
pub enum FetchOneError {
    NotFound,
    Unknown,
}

/// Why a record could not be inserted.
#[derive(Clone, Copy, PartialEq, Eq, Structural, Debug)]
pub enum InsertError {
    Conflict,
    Unknown,
}

/// Why a record could not be deleted.
#[derive(Clone, Copy, PartialEq, Eq, Structural, Debug)]
pub enum DeleteError {
    NotFound,
    Unknown,
}

/// The record that three validated parts make.
pub open spec fn record(number: PokemonNumber, name: PokemonName, types: PokemonTypes) -> PokemonData {
    PokemonData { number: number@, name: name@, types: types@ }
}

/// What a list of records holds, one for one.
pub open spec fn data_of(ps: Seq<Pokemon>) -> Seq<PokemonData> {
    Seq::new(ps.len(), |i: int| ps[i]@)
}

/// The result of an operation that hands out one record, by what it holds.
pub open spec fn one_outcome<E>(r: Result<Pokemon, E>) -> Result<PokemonData, E> {
    match r {
        Ok(p) => Ok(p@),
        Err(e) => Err(e),
    }
}

/// The result of an operation that hands out many records, by what they hold.
pub open spec fn all_outcome<E>(r: Result<Vec<Pokemon>, E>) -> Result<Seq<PokemonData>, E> {
    match r {
        Ok(ps) => Ok(data_of(ps@)),
        Err(e) => Err(e),
    }
}

/// Whether some record of the list has the number.
pub open spec fn has_number(s: Seq<PokemonData>, n: u16) -> bool {
    exists|i: int| 0 <= i < s.len() && (#[trigger] s[i]).number == n
}

/// Whether place `i` holds the first record of the list that has the number.
pub open spec fn is_first_with(s: Seq<PokemonData>, n: u16, i: int) -> bool {
    &&& 0 <= i < s.len()
    &&& s[i].number == n
    &&& forall|k: int| 0 <= k < i ==> (#[trigger] s[k]).number != n
}

/// Whether no two records of the list share a number.
pub open spec fn distinct_numbers(s: Seq<PokemonData>) -> bool {
    forall|i: int, j: int|
        0 <= i < j < s.len() ==> (#[trigger] s[i]).number != (#[trigger] s[j]).number
}

/// Whether the numbers of the list grow strictly from each record to the next.
pub open spec fn ascending(s: Seq<PokemonData>) -> bool {
    forall|i: int, j: int|
        0 <= i < j < s.len() ==> (#[trigger] s[i]).number < (#[trigger] s[j]).number
}

/// Whether two lists hold the same records, whatever their order.
pub open spec fn same_records(a: Seq<PokemonData>, b: Seq<PokemonData>) -> bool {
    &&& a.len() == b.len()
    &&& forall|i: int| 0 <= i < a.len() ==> b.contains(#[trigger] a[i])
    &&& forall|i: int| 0 <= i < b.len() ==> a.contains(#[trigger] b[i])
}

/// A place where records are kept under their numbers.
///
/// Each operation has a relation that says which results, and which changes of
/// the repository, the implementation allows on given arguments. A repository
/// whose records live outside the program allows more than one result.
pub trait Repository {
    /// Whether `insert` of `entity` may turn `self` into `after` with `outcome`.
    spec fn inserted(
        &self,
        after: &Self,
        entity: PokemonData,
        outcome: Result<PokemonData, InsertError>,
    ) -> bool;

    /// Whether `fetch_all` may give `outcome`.
    spec fn fetched_all(&self, outcome: Result<Seq<PokemonData>, FetchAllError>) -> bool;

    /// Whether `fetch_one` of `number` may give `outcome`.
    spec fn fetched_one(&self, number: u16, outcome: Result<PokemonData, FetchOneError>) -> bool;

    /// Whether `delete` of `number` may turn `self` into `after` with `outcome`.
    spec fn deleted(&self, after: &Self, number: u16, outcome: Result<(), DeleteError>) -> bool;

    /// Stores a new record made of the three parts and hands it back.
    fn insert(&mut self, number: PokemonNumber, name: PokemonName, types: PokemonTypes) -> (r:
        Result<Pokemon, InsertError>)
        ensures
            old(self).inserted(final(self), record(number, name, types), one_outcome(r)),
            r matches Ok(p) ==> p@ == record(number, name, types),
    ;

    /// All the records, by strictly growing number.
    fn fetch_all(&self) -> (r: Result<Vec<Pokemon>, FetchAllError>)
        ensures
            self.fetched_all(all_outcome(r)),
            r matches Ok(all) ==> ascending(data_of(all@)),
    ;

    /// The record stored under a number.
    fn fetch_one(&self, number: PokemonNumber) -> (r: Result<Pokemon, FetchOneError>)
        ensures
            self.fetched_one(number@, one_outcome(r)),
    ;

    /// Removes the record stored under a number.
    fn delete(&mut self, number: PokemonNumber) -> (r: Result<(), DeleteError>)
        ensures
            old(self).deleted(final(self), number@, r),
    ;
}

/// Puts a record into a list that is in strictly growing order of number, at
/// the place that keeps the order. A record whose number the list already
/// has is not put in, and the list stays as it is.
pub fn insert_sorted(sorted: &mut Vec<Pokemon>, pokemon: Pokemon) -> (placed: bool)
    requires
        ascending(data_of(old(sorted)@)),
    ensures
        placed == !has_number(data_of(old(sorted)@), pokemon@.number),
        placed ==> ascending(data_of(final(sorted)@)) && same_records(
            data_of(final(sorted)@),
            data_of(old(sorted)@).push(pokemon@),
        ),
        !placed ==> final(sorted)@ == old(sorted)@,
{
    let n = pokemon.number.clone().to_u16();
    let ghost before = data_of(sorted@);
    let mut at: usize = 0;
    while at < sorted.len() && sorted[at].number.clone().to_u16() < n
        invariant
            0 <= at <= sorted@.len(),
            before == data_of(sorted@),
            forall|k: int| 0 <= k < at ==> (#[trigger] before[k]).number < n,
        decreases sorted@.len() - at,
    {
        at += 1;
    }
    if at < sorted.len() && sorted[at].number.clone().to_u16() == n {
        assert(before[at as int].number == n);
        return false;
    }
    proof {
        assert forall|k: int| 0 <= k < before.len() implies (#[trigger] before[k]).number != n by {
            if k > at {
                assert(before[at as int].number < before[k].number);
            }
        }
    }
    sorted.insert(at, pokemon);
    proof {
        let now = data_of(sorted@);
        let all = before.push(pokemon@);
        assert(now =~= before.insert(at as int, pokemon@));
        assert forall|a: int, b: int| 0 <= a < b < now.len() implies (#[trigger] now[a]).number
            < (#[trigger] now[b]).number by {
            if a < at && b > at {
                assert(a == b - 1 || before[a].number < before[b - 1].number);
            } else if a == at {
                assert(at == b - 1 || before[at as int].number < before[b - 1].number);
            } else if b == at {
            } else if b < at {
                assert(before[a].number < before[b].number);
            } else {
                assert(before[a - 1].number < before[b - 1].number);
            }
        }
        assert forall|k: int| 0 <= k < now.len() implies all.contains(#[trigger] now[k]) by {
            if k == at {
                assert(all[before.len() as int] == now[k]);
            } else if k < at {
                assert(all[k] == now[k]);
            } else {
                assert(all[k - 1] == now[k]);
            }
        }
        assert forall|k: int| 0 <= k < all.len() implies now.contains(#[trigger] all[k]) by {
            if k == before.len() {
                assert(now[at as int] == all[k]);
            } else if k < at {
                assert(now[k] == all[k]);
            } else {
                assert(now[k + 1] == all[k]);
            }
        }
    }
    true
}

/// Two lists that hold the same records still do once a record is added to
/// both: to the first anywhere, to the second at the end.
pub proof fn lemma_same_records_push(
    now: Seq<PokemonData>,
    before: Seq<PokemonData>,
    seen: Seq<PokemonData>,
    entity: PokemonData,
)
    requires
        same_records(now, before.push(entity)),
        same_records(before, seen),
    ensures
        same_records(now, seen.push(entity)),
{
    let all = before.push(entity);
    let next = seen.push(entity);
    assert forall|k: int| 0 <= k < now.len() implies next.contains(#[trigger] now[k]) by {
        assert(all.contains(now[k]));
        let j = choose|j: int| 0 <= j < all.len() && all[j] == now[k];
        if j == before.len() {
            assert(next[seen.len() as int] == entity);
        } else {
            assert(seen.contains(before[j]));
            let m = choose|m: int| 0 <= m < seen.len() && seen[m] == before[j];
            assert(next[m] == now[k]);
        }
    }
    assert forall|k: int| 0 <= k < next.len() implies now.contains(#[trigger] next[k]) by {
        if k == seen.len() {
            assert(all[before.len() as int] == entity);
            assert(now.contains(all[before.len() as int]));
        } else {
            assert(before.contains(seen[k]));
            let m = choose|m: int| 0 <= m < before.len() && before[m] == seen[k];
            assert(all[m] == seen[k]);
            assert(now.contains(all[m]));
        }
    }
}

/// A repository that keeps its records in a list, in the order in which they
/// came. No two of them share a number.
///
/// An operation that changes the list borrows the repository exclusively, so
/// a check and the change that follows it are never parted. A program that
/// shares one repository between threads keeps it behind a single lock.
pub struct InMemoryRepository {
    error: bool,
    pokemons: Vec<Pokemon>,
}

impl View for InMemoryRepository {
    type V = Seq<PokemonData>;

    closed spec fn view(&self) -> Seq<PokemonData> {
        data_of(self.pokemons@)
    }
}

impl InMemoryRepository {
    #[verifier::type_invariant]
    spec fn inv(self) -> bool {
        distinct_numbers(data_of(self.pokemons@))
    }

    /// Whether the repository was told to fail at every operation.
    pub closed spec fn failing(&self) -> bool {
        self.error
    }

    /// An empty repository that works.
    pub fn new() -> (repo: Self)
        ensures
            repo@ == Seq::<PokemonData>::empty(),
            !repo.failing(),
            distinct_numbers(repo@),
    {
        let repo = Self { error: false, pokemons: Vec::new() };
        assert(repo@ =~= Seq::<PokemonData>::empty());
        repo
    }

    /// The same repository, told to fail at every operation from now on.
    pub fn with_error(self) -> (repo: Self)
        ensures
            repo@ == self@,
            repo.failing(),
            distinct_numbers(repo@),
    {
        proof {
            use_type_invariant(&self);
        }
        Self { error: true, pokemons: self.pokemons }
    }

    /// Takes the list out and leaves an empty one, so that the list can be
    /// changed while the repository stays valid at every step.
    fn take_records(&mut self) -> (records: Vec<Pokemon>)
        ensures
            data_of(records@) == old(self)@,
            distinct_numbers(data_of(records@)),
            final(self).failing() == old(self).failing(),
    {
        proof {
            use_type_invariant(&*self);
        }
        let mut records: Vec<Pokemon> = Vec::new();
        std::mem::swap(&mut self.pokemons, &mut records);
        records
    }

    /// Puts a list in the place of the present one.
    fn put_records(&mut self, records: Vec<Pokemon>)
        requires
            distinct_numbers(data_of(records@)),
        ensures
            final(self)@ == data_of(records@),
            final(self).failing() == old(self).failing(),
    {
        let mut records = records;
        std::mem::swap(&mut self.pokemons, &mut records);
    }

    /// The place of the record with the number, if there is one.
    fn position(&self, number: u16) -> (r: Option<usize>)
        ensures
            r is Some <==> has_number(self@, number),
            r matches Some(i) ==> is_first_with(self@, number, i as int),
    {
        let mut i: usize = 0;
        while i < self.pokemons.len()
            invariant
                0 <= i <= self.pokemons@.len(),
                forall|k: int| 0 <= k < i ==> (#[trigger] self@[k]).number != number,
            decreases self.pokemons@.len() - i,
        {
            if self.pokemons[i].number.clone().to_u16() == number {
                assert(self@[i as int].number == number);
                return Some(i);
            }
            i += 1;
        }
        None
    }
}

impl Repository for InMemoryRepository {
    /// A failing repository answers `Unknown` and a number already stored
    /// answers `Conflict`, both without any change; else the record is added
    /// at the end. Afterwards no two records share a number.
    open spec fn inserted(
        &self,
        after: &Self,
        entity: PokemonData,
        outcome: Result<PokemonData, InsertError>,
    ) -> bool {
        &&& after.failing() == self.failing()
        &&& distinct_numbers(after@)
        &&& if self.failing() {
            outcome == Err::<PokemonData, InsertError>(InsertError::Unknown) && after@ == self@
        } else if has_number(self@, entity.number) {
            outcome == Err::<PokemonData, InsertError>(InsertError::Conflict) && after@ == self@
        } else {
            outcome == Ok::<PokemonData, InsertError>(entity) && after@ == self@.push(entity)
        }
    }

    /// A failing repository answers `Unknown`; else the answer holds the
    /// stored records, each once, by strictly growing number.
    open spec fn fetched_all(&self, outcome: Result<Seq<PokemonData>, FetchAllError>) -> bool {
        if self.failing() {
            outcome == Err::<Seq<PokemonData>, FetchAllError>(FetchAllError::Unknown)
        } else {
            outcome matches Ok(all) && ascending(all) && same_records(all, self@)
        }
    }

    /// A failing repository answers `Unknown`; else the answer is the stored
    /// record with the number, or `NotFound` where there is none.
    open spec fn fetched_one(&self, number: u16, outcome: Result<PokemonData, FetchOneError>) -> bool {
        if self.failing() {
            outcome == Err::<PokemonData, FetchOneError>(FetchOneError::Unknown)
        } else if has_number(self@, number) {
            outcome matches Ok(found) && exists|i: int|
                is_first_with(self@, number, i) && found == #[trigger] self@[i]
        } else {
            outcome == Err::<PokemonData, FetchOneError>(FetchOneError::NotFound)
        }
    }

    /// A failing repository answers `Unknown` and a number not stored answers
    /// `NotFound`, both without any change; else the record with the number
    /// leaves and the others keep their order. Afterwards no two records
    /// share a number.
    open spec fn deleted(&self, after: &Self, number: u16, outcome: Result<(), DeleteError>) -> bool {
        &&& after.failing() == self.failing()
        &&& distinct_numbers(after@)
        &&& if self.failing() {
            outcome == Err::<(), DeleteError>(DeleteError::Unknown) && after@ == self@
        } else if has_number(self@, number) {
            &&& outcome == Ok::<(), DeleteError>(())
            &&& exists|i: int|
                is_first_with(self@, number, i) && after@ == #[trigger] self@.remove(i)
        } else {
            outcome == Err::<(), DeleteError>(DeleteError::NotFound) && after@ == self@
        }
    }

    fn insert(&mut self, number: PokemonNumber, name: PokemonName, types: PokemonTypes) -> (r:
        Result<Pokemon, InsertError>)
    {
        proof {
            use_type_invariant(&*self);
        }
        if self.error {
            return Err(InsertError::Unknown);
        }
        if self.position(number.clone().to_u16()).is_some() {
            return Err(InsertError::Conflict);
        }
        let pokemon = Pokemon::new(number, name, types);
        let ghost before = self@;
        let mut records = self.take_records();
        records.push(pokemon.clone());
        proof {
            let now = data_of(records@);
            assert(now =~= before.push(pokemon@));
            assert forall|i: int, j: int| 0 <= i < j < now.len() implies (#[trigger] now[i]).number
                != (#[trigger] now[j]).number by {
                if j == before.len() {
                    assert(before[i].number != pokemon@.number);
                }
            }
        }
        self.put_records(records);
        Ok(pokemon)
    }

    fn fetch_all(&self) -> (r: Result<Vec<Pokemon>, FetchAllError>) {
        proof {
            use_type_invariant(self);
        }
        if self.error {
            return Err(FetchAllError::Unknown);
        }
        let mut sorted: Vec<Pokemon> = Vec::new();
        let mut i: usize = 0;
        while i < self.pokemons.len()
            invariant
                0 <= i <= self.pokemons@.len(),
                distinct_numbers(self@),
                self@ == data_of(self.pokemons@),
                ascending(data_of(sorted@)),
                same_records(data_of(sorted@), self@.subrange(0, i as int)),
            decreases self.pokemons@.len() - i,
        {
            let pokemon = self.pokemons[i].clone();
            let ghost before = data_of(sorted@);
            let ghost seen = self@.subrange(0, i as int);
            proof {
                // the records already placed have numbers other than this one
                assert forall|k: int| 0 <= k < before.len() implies (#[trigger] before[k]).number
                    != pokemon@.number by {
                    assert(seen.contains(before[k]));
                    let j = choose|j: int| 0 <= j < seen.len() && seen[j] == before[k];
                    assert(self@[j].number != self@[i as int].number);
                }
            }
            let placed = insert_sorted(&mut sorted, pokemon);
            proof {
                assert(self@.subrange(0, i + 1) =~= seen.push(pokemon@));
                lemma_same_records_push(data_of(sorted@), before, seen, pokemon@);
            }
            i += 1;
        }
        assert(self@.subrange(0, i as int) =~= self@);
        Ok(sorted)
    }

    fn fetch_one(&self, number: PokemonNumber) -> (r: Result<Pokemon, FetchOneError>) {
        if self.error {
            return Err(FetchOneError::Unknown);
        }
        match self.position(number.to_u16()) {
            Some(index) => {
                let pokemon = self.pokemons[index].clone();
                assert(self@[index as int] == pokemon@);
                Ok(pokemon)
            },
            None => Err(FetchOneError::NotFound),
        }
    }

    fn delete(&mut self, number: PokemonNumber) -> (r: Result<(), DeleteError>) {
        proof {
            use_type_invariant(&*self);
        }
        if self.error {
            return Err(DeleteError::Unknown);
        }
        let index = match self.position(number.to_u16()) {
            Some(index) => index,
            None => {
                return Err(DeleteError::NotFound);
            },
        };
        let ghost before = self@;
        let mut records = self.take_records();
        records.remove(index);
        proof {
            let now = data_of(records@);
            assert(now =~= before.remove(index as int));
            assert forall|i: int, j: int| 0 <= i < j < now.len() implies (#[trigger] now[i]).number
                != (#[trigger] now[j]).number by {
                let a = if i < index { i } else { i + 1 };
                let b = if j < index { j } else { j + 1 };
                assert(before[a].number != before[b].number);
            }
            assert(is_first_with(before, number@, index as int));
        }
        self.put_records(records);
        Ok(())
    }
}

/// A second insert under a number that an insert has just stored is refused
/// as a conflict, and leaves the repository as the first insert left it.
pub proof fn lemma_second_insert_conflicts(
    start: InMemoryRepository,
    middle: InMemoryRepository,
    end: InMemoryRepository,
    first: PokemonData,
    second: PokemonData,
    outcome: Result<PokemonData, InsertError>,
)
    requires
        start.inserted(&middle, first, Ok(first)),
        second.number == first.number,
        middle.inserted(&end, second, outcome),
    ensures
        outcome == Err::<PokemonData, InsertError>(InsertError::Conflict),
        end@ == middle@,
{
    assert(middle@[start@.len() as int].number == second.number);
}

/// Whatever the order in which records were inserted, what `fetch_all` gives
/// is in strictly growing order of number and holds each stored record, and
/// only one list does so.
pub proof fn lemma_fetch_all_ascending(
    repo: InMemoryRepository,
    all: Seq<PokemonData>,
    other: Seq<PokemonData>,
)
    requires
        repo.fetched_all(Ok(all)),
        repo.fetched_all(Ok(other)),
    ensures
        ascending(all),
        same_records(all, repo@),
        other == all,
{
    lemma_ascending_unique(all, other, repo@);
}

/// Two lists in strictly growing order that hold the same records as a third
/// are the same list.
pub proof fn lemma_ascending_unique(a: Seq<PokemonData>, b: Seq<PokemonData>, s: Seq<PokemonData>)
    requires
        ascending(a),
        ascending(b),
        same_records(a, s),
        same_records(b, s),
    ensures
        a == b,
{
    assert forall|i: int| 0 <= i < a.len() implies b.contains(#[trigger] a[i]) by {
        assert(s.contains(a[i]));
    }
    assert forall|i: int| 0 <= i < b.len() implies a.contains(#[trigger] b[i]) by {
        assert(s.contains(b[i]));
    }
    lemma_ascending_same(a, b);
}

/// Two lists in strictly growing order that hold the same records are the
/// same list.
pub proof fn lemma_ascending_same(a: Seq<PokemonData>, b: Seq<PokemonData>)
    requires
        ascending(a),
        ascending(b),
        same_records(a, b),
    ensures
        a == b,
    decreases a.len(),
{
    if a.len() > 0 {
        let last = a.len() - 1;
        // the record with the greatest number ends both lists
        assert(b.contains(a[last]));
        let ib = choose|i: int| 0 <= i < b.len() && b[i] == a[last];
        assert(a.contains(b[last]));
        let ia = choose|i: int| 0 <= i < a.len() && a[i] == b[last];
        assert(ib == last) by {
            if ib < last {
                assert(b[ib].number < b[last].number);
                if ia < last {
                    assert(a[ia].number < a[last].number);
                }
            }
        }
        let a0 = a.drop_last();
        let b0 = b.drop_last();
        assert forall|i: int| 0 <= i < a0.len() implies b0.contains(#[trigger] a0[i]) by {
            assert(a0[i] == a[i]);
            assert(b.contains(a[i]));
            let j = choose|j: int| 0 <= j < b.len() && b[j] == a[i];
            if j == last {
                assert(a[i].number < a[last].number);
            }
            assert(b0[j] == a0[i]);
        }
        assert forall|i: int| 0 <= i < b0.len() implies a0.contains(#[trigger] b0[i]) by {
            assert(b0[i] == b[i]);
            assert(a.contains(b[i]));
            let j = choose|j: int| 0 <= j < a.len() && a[j] == b[i];
            if j == last {
                assert(b[i].number < b[last].number);
            }
            assert(a0[j] == b0[i]);
        }
        assert(ascending(a0)) by {
            assert forall|i: int, j: int| 0 <= i < j < a0.len() implies (#[trigger] a0[i]).number
                < (#[trigger] a0[j]).number by {
                assert(a[i].number < a[j].number);
            }
        }
        assert(ascending(b0)) by {
            assert forall|i: int, j: int| 0 <= i < j < b0.len() implies (#[trigger] b0[i]).number
                < (#[trigger] b0[j]).number by {
                assert(b[i].number < b[j].number);
            }
        }
        lemma_ascending_same(a0, b0);
        assert(a =~= a0.push(a[last]));
        assert(b =~= b0.push(b[last]));
    } else {
        assert(a =~= b);
    }
}

/// A record that an insert has stored is what a fetch under its number gives.
pub proof fn lemma_insert_then_fetch(
    start: InMemoryRepository,
    end: InMemoryRepository,
    entity: PokemonData,
    outcome: Result<PokemonData, FetchOneError>,
)
    requires
        start.inserted(&end, entity, Ok(entity)),
        end.fetched_one(entity.number, outcome),
    ensures
        outcome == Ok::<PokemonData, FetchOneError>(entity),
{
    let last = start@.len() as int;
    assert(end@[last] == entity);
    let found = outcome->Ok_0;
    let i = choose|i: int| is_first_with(end@, entity.number, i) && found == #[trigger] end@[i];
    if i < last {
        assert(start@[i].number == entity.number);
    }
}

/// Once a record has been deleted, a fetch under its number finds nothing.
pub proof fn lemma_delete_then_fetch(
    start: InMemoryRepository,
    end: InMemoryRepository,
    number: u16,
    outcome: Result<PokemonData, FetchOneError>,
)
    requires
        distinct_numbers(start@),
        start.deleted(&end, number, Ok(())),
        end.fetched_one(number, outcome),
    ensures
        outcome == Err::<PokemonData, FetchOneError>(FetchOneError::NotFound),
{
    let i = choose|i: int| is_first_with(start@, number, i) && end@ == #[trigger] start@.remove(i);
    assert forall|k: int| 0 <= k < end@.len() implies (#[trigger] end@[k]).number != number by {
        if k < i {
            assert(end@[k] == start@[k]);
            assert(start@[k].number != start@[i].number);
        } else {
            assert(end@[k] == start@[k + 1]);
            assert(start@[i].number != start@[k + 1].number);
        }
    }
}

/// A repository told to fail answers `Unknown` to every operation and keeps
/// what it holds.
pub proof fn lemma_failing_changes_nothing(
    repo: InMemoryRepository,
    after: InMemoryRepository,
    entity: PokemonData,
    number: u16,
    insert: Result<PokemonData, InsertError>,
    all: Result<Seq<PokemonData>, FetchAllError>,
    one: Result<PokemonData, FetchOneError>,
    delete: Result<(), DeleteError>,
)
    requires
        repo.failing(),
    ensures
        repo.inserted(&after, entity, insert) ==> insert == Err::<PokemonData, InsertError>(
            InsertError::Unknown,
        ) && after@ == repo@ && after.failing(),
        repo.fetched_all(all) ==> all == Err::<Seq<PokemonData>, FetchAllError>(
            FetchAllError::Unknown,
        ),
        repo.fetched_one(number, one) ==> one == Err::<PokemonData, FetchOneError>(
            FetchOneError::Unknown,
        ),
        repo.deleted(&after, number, delete) ==> delete == Err::<(), DeleteError>(
            DeleteError::Unknown,
        ) && after@ == repo@ && after.failing(),
{
}

} // verus!
