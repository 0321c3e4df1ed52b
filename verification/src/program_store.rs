//! The catalog of training programs: each program is kept under its id, and no
//! id is kept twice.

use vstd::prelude::*;
use crate::error::ControlError;
use crate::training_program::ProgramView;
use crate::training_program::TrainingProgram;

verus! {

/// The programs that can be started, keyed by id.
pub struct ProgramStore {
    programs: Vec<TrainingProgram>,
}

/// The text behind an optional reference to a string.
pub open spec fn text_of_ref(s: Option<&String>) -> Option<Seq<char>> {
    match s {
        Some(t) => Some(t@),
        None => None,
    }
}

/// Whether `id` is the id of the program that is running; `active` is that id, if one runs.
pub open spec fn is_active(active: Option<Seq<char>>, id: Seq<char>) -> bool {
    active == Some(id)
}

/// `listing` names every program of `catalog` once, as the catalog has it, and nothing else.
pub open spec fn is_listing(listing: Seq<ProgramView>, catalog: Map<Seq<char>, ProgramView>) -> bool {
    &&& forall|i: int|
        0 <= i < listing.len() ==> catalog.contains_key((#[trigger] listing[i]).id)
            && catalog[listing[i].id] == listing[i]
    &&& forall|id: Seq<char>| #[trigger]
        catalog.contains_key(id) ==> exists|i: int|
            0 <= i < listing.len() && (#[trigger] listing[i]).id == id
    &&& forall|i: int, j: int|
        0 <= i < j < listing.len() ==> (#[trigger] listing[i]).id != (#[trigger] listing[j]).id
}

/// Each program of `catalog` is kept under its own id, is valid, and has a
/// total duration that fits in a `u32`.
pub open spec fn catalog_wf(catalog: Map<Seq<char>, ProgramView>) -> bool {
    forall|id: Seq<char>| #[trigger]
        catalog.contains_key(id) ==> catalog[id].id == id && catalog[id].is_valid()
            && catalog[id].fits()
}

/// What `create` answers for `program`, given the catalog it meets.
pub open spec fn create_outcome(catalog: Map<Seq<char>, ProgramView>, program: ProgramView) -> Result<
    (),
    ControlError,
> {
    if !program.is_valid() {
        Err(ControlError::ValidationError)
    } else if catalog.contains_key(program.id) {
        Err(ControlError::Conflict)
    } else {
        Ok(())
    }
}

/// What `update` answers for `program`, given the catalog it meets and the id of
/// the running program. The running program is never touched, whatever is handed in.
pub open spec fn update_outcome(
    catalog: Map<Seq<char>, ProgramView>,
    program: ProgramView,
    active: Option<Seq<char>>,
) -> Result<(), ControlError> {
    if is_active(active, program.id) {
        Err(ControlError::Conflict)
    } else if !program.is_valid() {
        Err(ControlError::ValidationError)
    } else if !catalog.contains_key(program.id) {
        Err(ControlError::NotFound)
    } else {
        Ok(())
    }
}

/// What `delete` answers for `id`, given the catalog it meets and the id of the
/// running program.
pub open spec fn delete_outcome(
    catalog: Map<Seq<char>, ProgramView>,
    id: Seq<char>,
    active: Option<Seq<char>>,
) -> Result<(), ControlError> {
    if is_active(active, id) {
        Err(ControlError::Conflict)
    } else if !catalog.contains_key(id) {
        Err(ControlError::NotFound)
    } else {
        Ok(())
    }
}

impl View for ProgramStore {
    type V = Map<Seq<char>, ProgramView>;

    closed spec fn view(&self) -> Map<Seq<char>, ProgramView> {
        Map::new(|id: Seq<char>| self.holds(id), |id: Seq<char>| self.programs[self.position(id)]@)
    }
}

impl ProgramStore {
    /// Some stored program has the id `id`.
    spec fn holds(self, id: Seq<char>) -> bool {
        exists|i: int| 0 <= i < self.programs.len() && (#[trigger] self.programs[i])@.id == id
    }

    /// Where the program with the id `id` is stored.
    spec fn position(self, id: Seq<char>) -> int {
        choose|i: int| 0 <= i < self.programs.len() && (#[trigger] self.programs[i])@.id == id
    }

    /// No id is stored twice.
    pub closed spec fn ids_distinct(self) -> bool {
        forall|i: int, j: int|
            0 <= i < j < self.programs.len() ==> (#[trigger] self.programs[i])@.id != (
            #[trigger] self.programs[j])@.id
    }

    /// The invariant of the catalog: no id is stored twice, each program is kept
    /// under its own id, and each is valid with a total duration that fits in a `u32`.
    pub open spec fn wf(self) -> bool {
        &&& self.ids_distinct()
        &&& catalog_wf(self@)
    }

    /// The program stored at `i` is the one that the catalog has under its id.
    proof fn lemma_entry(self, i: int)
        requires
            self.ids_distinct(),
            0 <= i < self.programs.len(),
        ensures
            self.holds(self.programs[i]@.id),
            self.position(self.programs[i]@.id) == i,
            self@.contains_key(self.programs[i]@.id),
            self@[self.programs[i]@.id] == self.programs[i]@,
    {
        let id = self.programs[i]@.id;
        let p = self.position(id);
        assert(0 <= p < self.programs.len() && self.programs[p]@.id == id);
        if p < i {
            assert(self.programs[p]@.id != self.programs[i]@.id);
        }
        if i < p {
            assert(self.programs[i]@.id != self.programs[p]@.id);
        }
    }

    /// A key of the catalog is the id of the program at its position.
    proof fn lemma_key(self, id: Seq<char>)
        requires
            self@.contains_key(id),
        ensures
            0 <= self.position(id) < self.programs.len(),
            self.programs[self.position(id)]@.id == id,
            self@[id] == self.programs[self.position(id)]@,
    {
        assert(self.holds(id));
    }

    /// An empty catalog.
    pub fn new() -> (store: Self)
        ensures
            store.wf(),
            store@ == Map::<Seq<char>, ProgramView>::empty(),
    {
        let store = ProgramStore { programs: Vec::new() };
        assert(store@ =~= Map::<Seq<char>, ProgramView>::empty());
        store
    }

    /// Where the program with the id `id` is stored, if it is.
    fn find(&self, id: &String) -> (found: Option<usize>)
        ensures
            match found {
                Some(i) => i < self.programs.len() && self.programs[i as int]@.id == id@,
                None => !self.holds(id@),
            },
    {
        let mut i: usize = 0;
        while i < self.programs.len()
            invariant
                0 <= i <= self.programs.len(),
                forall|j: int| 0 <= j < i ==> (#[trigger] self.programs[j])@.id != id@,
            decreases self.programs.len() - i,
        {
            if self.programs[i].id == *id {
                return Some(i);
            }
            i += 1;
        }
        None
    }

    /// Whether a program is stored under `id`.
    pub fn contains(&self, id: &str) -> (found: bool)
        ensures
            found == self@.contains_key(id@),
    {
        let key = id.to_owned();
        self.find(&key).is_some()
    }

    /// A copy of the program stored under `id`.
    pub fn get(&self, id: &str) -> (found: Option<TrainingProgram>)
        requires
            self.wf(),
        ensures
            match found {
                Some(program) => self@.contains_key(id@) && program@ == self@[id@],
                None => !self@.contains_key(id@),
            },
    {
        let key = id.to_owned();
        match self.find(&key) {
            Some(i) => {
                proof {
                    self.lemma_entry(i as int);
                }
                Some(self.programs[i].clone())
            },
            None => None,
        }
    }

    /// Copies of all stored programs, each once.
    pub fn list(&self) -> (listing: Vec<TrainingProgram>)
        requires
            self.wf(),
        ensures
            is_listing(listing@.map_values(|p: TrainingProgram| p@), self@),
    {
        let mut listing: Vec<TrainingProgram> = Vec::new();
        let mut i: usize = 0;
        while i < self.programs.len()
            invariant
                0 <= i <= self.programs.len(),
                listing.len() == i,
                forall|j: int| 0 <= j < i ==> (#[trigger] listing[j])@ == self.programs[j]@,
            decreases self.programs.len() - i,
        {
            listing.push(self.programs[i].clone());
            i += 1;
        }
        proof {
            let views = listing@.map_values(|p: TrainingProgram| p@);
            assert forall|j: int| 0 <= j < views.len() implies self@.contains_key(
                (#[trigger] views[j]).id,
            ) && self@[views[j].id] == views[j] by {
                self.lemma_entry(j);
            }
            assert forall|id: Seq<char>| #[trigger] self@.contains_key(id) implies exists|j: int|
                0 <= j < views.len() && (#[trigger] views[j]).id == id by {
                self.lemma_key(id);
                assert(views[self.position(id)].id == id);
            }
            assert forall|j: int, k: int| 0 <= j < k < views.len() implies (#[trigger] views[j]).id
                != (#[trigger] views[k]).id by {
                assert(self.programs[j]@.id != self.programs[k]@.id);
            }
        }
        listing
    }

    /// Stores a new program. An invalid program is refused, and so is one whose
    /// id is taken.
    pub fn create(&mut self, program: TrainingProgram) -> (outcome: Result<(), ControlError>)
        requires
            old(self).wf(),
            program@.fits(),
        ensures
            final(self).wf(),
            outcome == create_outcome(old(self)@, program@),
            final(self)@ == (if outcome is Ok {
                old(self)@.insert(program@.id, program@)
            } else {
                old(self)@
            }),
    {
        if !program.is_valid() {
            return Err(ControlError::ValidationError);
        }
        if self.find(&program.id).is_some() {
            return Err(ControlError::Conflict);
        }
        let ghost before = *self;
        let ghost added = program@;
        self.programs.push(program);
        proof {
            let after = *self;
            assert(after.programs@.len() == before.programs@.len() + 1);
            assert(forall|i: int|
                0 <= i < before.programs.len() ==> after.programs[i] == before.programs[i]);
            assert(after.programs[before.programs.len() as int]@ == added);
            assert(after.ids_distinct()) by {
                assert forall|i: int, j: int| 0 <= i < j < after.programs.len() implies (
                #[trigger] after.programs[i])@.id != (#[trigger] after.programs[j])@.id by {
                    if j < before.programs.len() {
                        assert(before.programs[i]@.id != before.programs[j]@.id);
                    } else {
                        assert(before.programs[i]@.id != added.id);
                    }
                }
            }
            assert forall|id: Seq<char>| after@.contains_key(id) <==> (id == added.id
                || before@.contains_key(id)) by {
                if after@.contains_key(id) {
                    after.lemma_key(id);
                    let p = after.position(id);
                    if p < before.programs.len() {
                        assert(before.programs[p]@.id == id);
                    }
                }
                if before@.contains_key(id) {
                    before.lemma_key(id);
                    assert(after.programs[before.position(id)]@.id == id);
                }
                if id == added.id {
                    assert(after.programs[before.programs.len() as int]@.id == id);
                }
            }
            assert forall|id: Seq<char>| after@.contains_key(id) implies after@[id]
                == before@.insert(added.id, added)[id] by {
                after.lemma_key(id);
                let p = after.position(id);
                if p < before.programs.len() {
                    before.lemma_entry(p);
                }
            }
            assert(after@ =~= before@.insert(added.id, added));
        }
        Ok(())
    }

    /// Replaces the stored program that has the id of `program`. The running
    /// program is refused, then an invalid program, then an unknown id.
    pub fn update(&mut self, program: TrainingProgram, active: Option<&String>) -> (outcome: Result<
        (),
        ControlError,
    >)
        requires
            old(self).wf(),
            program@.fits(),
        ensures
            final(self).wf(),
            outcome == update_outcome(old(self)@, program@, text_of_ref(active)),
            final(self)@ == (if outcome is Ok {
                old(self)@.insert(program@.id, program@)
            } else {
                old(self)@
            }),
    {
        if let Some(running) = active {
            if *running == program.id {
                return Err(ControlError::Conflict);
            }
        }
        if !program.is_valid() {
            return Err(ControlError::ValidationError);
        }
        let at = match self.find(&program.id) {
            Some(i) => i,
            None => {
                return Err(ControlError::NotFound);
            },
        };
        let ghost before = *self;
        let ghost changed = program@;
        self.programs[at] = program;
        proof {
            let after = *self;
            before.lemma_entry(at as int);
            assert(after.programs@.len() == before.programs@.len());
            assert(forall|i: int|
                0 <= i < before.programs.len() && i != at ==> after.programs[i]
                    == before.programs[i]);
            assert(after.programs[at as int]@ == changed);
            assert(after.ids_distinct()) by {
                assert forall|i: int, j: int| 0 <= i < j < after.programs.len() implies (
                #[trigger] after.programs[i])@.id != (#[trigger] after.programs[j])@.id by {
                    assert(before.programs[i]@.id != before.programs[j]@.id);
                }
            }
            assert forall|id: Seq<char>| after@.contains_key(id) <==> before@.contains_key(id) by {
                if after@.contains_key(id) {
                    after.lemma_key(id);
                    assert(before.programs[after.position(id)]@.id == id);
                }
                if before@.contains_key(id) {
                    before.lemma_key(id);
                    assert(after.programs[before.position(id)]@.id == id);
                }
            }
            assert forall|id: Seq<char>| after@.contains_key(id) implies after@[id]
                == before@.insert(changed.id, changed)[id] by {
                after.lemma_key(id);
                let p = after.position(id);
                before.lemma_entry(p);
            }
            assert(after@ =~= before@.insert(changed.id, changed));
        }
        Ok(())
    }

    /// Removes the program stored under `id`. The running program is refused,
    /// then an unknown id.
    pub fn delete(&mut self, id: &str, active: Option<&String>) -> (outcome: Result<(), ControlError>)
        requires
            old(self).wf(),
        ensures
            final(self).wf(),
            outcome == delete_outcome(old(self)@, id@, text_of_ref(active)),
            final(self)@ == (if outcome is Ok {
                old(self)@.remove(id@)
            } else {
                old(self)@
            }),
    {
        let key = id.to_owned();
        if let Some(running) = active {
            if *running == key {
                return Err(ControlError::Conflict);
            }
        }
        let at = match self.find(&key) {
            Some(i) => i,
            None => {
                return Err(ControlError::NotFound);
            },
        };
        let ghost before = *self;
        self.programs.remove(at);
        proof {
            let after = *self;
            before.lemma_entry(at as int);
            assert(after.programs@ == before.programs@.remove(at as int));
            assert(forall|i: int| 0 <= i < at ==> after.programs[i] == before.programs[i]);
            assert(forall|i: int|
                at <= i < after.programs.len() ==> after.programs[i] == before.programs[i + 1]);
            assert(after.ids_distinct()) by {
                assert forall|i: int, j: int| 0 <= i < j < after.programs.len() implies (
                #[trigger] after.programs[i])@.id != (#[trigger] after.programs[j])@.id by {
                    let bi = if i < at { i } else { i + 1 };
                    let bj = if j < at { j } else { j + 1 };
                    assert(before.programs[bi]@.id != before.programs[bj]@.id);
                }
            }
            assert forall|k: Seq<char>| after@.contains_key(k) <==> (k != id@
                && before@.contains_key(k)) by {
                if after@.contains_key(k) {
                    after.lemma_key(k);
                    let p = after.position(k);
                    let bp = if p < at { p } else { p + 1 };
                    assert(before.programs[bp]@.id == k);
                    if k == id@ {
                        before.lemma_entry(bp);
                    }
                }
                if k != id@ && before@.contains_key(k) {
                    before.lemma_key(k);
                    let bp = before.position(k);
                    let p = if bp < at { bp } else { bp - 1 };
                    assert(after.programs[p]@.id == k);
                }
            }
            assert forall|k: Seq<char>| after@.contains_key(k) implies after@[k]
                == before@.remove(id@)[k] by {
                after.lemma_key(k);
                let p = after.position(k);
                let bp = if p < at { p } else { p + 1 };
                before.lemma_entry(bp);
            }
            assert(after@ =~= before@.remove(id@));
        }
        Ok(())
    }
}

} // verus!
