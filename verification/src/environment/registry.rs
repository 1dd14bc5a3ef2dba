use crate::assoc::{
    assoc_map, distinct_keys, has_key, lemma_assoc_dom, lemma_assoc_len, lemma_assoc_remove,
    lemma_assoc_update, lemma_assoc_value,
};
use crate::environment::handle::{EnvironmentHandle, HandleView};
use crate::text::text_eq;
use vstd::prelude::*;
use vstd::string::StringExecFns;

verus! {

/// The content of a registry: the handle kept under each environment id.
pub type RegistryView = Map<Seq<char>, HandleView>;

/// Why a registry operation was refused.
#[derive(Debug, PartialEq, Eq)]
pub enum RegistryError {
    /// An environment with this id is registered already.
    AlreadyExists(String),
    /// No environment with this id is registered.
    NotFound(String),
}

/// The mathematical counterpart of [`RegistryError`].
pub enum RegistryErrorView {
    AlreadyExists(Seq<char>),
    NotFound(Seq<char>),
}

impl View for RegistryError {
    type V = RegistryErrorView;

    open spec fn view(&self) -> RegistryErrorView {
        match self {
            RegistryError::AlreadyExists(id) => RegistryErrorView::AlreadyExists(id@),
            RegistryError::NotFound(id) => RegistryErrorView::NotFound(id@),
        }
    }
}

/// The text of a refusal.
pub open spec fn error_message(e: RegistryErrorView) -> Seq<char> {
    match e {
        RegistryErrorView::AlreadyExists(id) => "Environment '"@ + id + "' already exists"@,
        RegistryErrorView::NotFound(id) => "Environment '"@ + id + "' not found"@,
    }
}

impl RegistryError {
    /// The refusal in words.
    pub fn message(&self) -> (r: String)
        ensures
            r@ == error_message(self@),
    {
        let mut out = String::from_str("Environment '");
        match self {
            RegistryError::AlreadyExists(id) => {
                out.append(id.as_str());
                out.append("' already exists");
            },
            RegistryError::NotFound(id) => {
                out.append(id.as_str());
                out.append("' not found");
            },
        }
        out
    }
}

/// Registering `handle`: refused when its id is taken, an insert otherwise.
pub open spec fn spec_register(m: RegistryView, handle: HandleView) -> (RegistryView, Result<
    (),
    RegistryErrorView,
>) {
    if m.contains_key(handle.env_id) {
        (m, Err(RegistryErrorView::AlreadyExists(handle.env_id)))
    } else {
        (m.insert(handle.env_id, handle), Ok(()))
    }
}

/// Looking an id up.
pub open spec fn spec_get(m: RegistryView, env_id: Seq<char>) -> Result<
    HandleView,
    RegistryErrorView,
> {
    if m.contains_key(env_id) {
        Ok(m[env_id])
    } else {
        Err(RegistryErrorView::NotFound(env_id))
    }
}

/// Updating: the stored handle is replaced as a whole.
pub open spec fn spec_update(m: RegistryView, handle: HandleView) -> (RegistryView, Result<
    (),
    RegistryErrorView,
>) {
    if m.contains_key(handle.env_id) {
        (m.insert(handle.env_id, handle), Ok(()))
    } else {
        (m, Err(RegistryErrorView::NotFound(handle.env_id)))
    }
}

/// Removing: the handle leaves the registry and is handed back.
pub open spec fn spec_remove(m: RegistryView, env_id: Seq<char>) -> (RegistryView, Result<
    HandleView,
    RegistryErrorView,
>) {
    if m.contains_key(env_id) {
        (m.remove(env_id), Ok(m[env_id]))
    } else {
        (m, Err(RegistryErrorView::NotFound(env_id)))
    }
}

/// Each handle of a list under its own id.
pub open spec fn keyed(handles: Seq<EnvironmentHandle>) -> Seq<(Seq<char>, HandleView)> {
    handles.map_values(|h: EnvironmentHandle| (h@.env_id, h@))
}

/// A list of handles is a snapshot of `m` when it holds every handle of `m`
/// once and nothing else, in whatever order.
pub open spec fn is_snapshot(handles: Seq<EnvironmentHandle>, m: RegistryView) -> bool {
    &&& distinct_keys(keyed(handles))
    &&& assoc_map(keyed(handles)) == m
    &&& handles.len() == m.len()
}

/// A list of ids is a snapshot of the ids of `m` when it names each
/// environment of `m` once and nothing else, in whatever order.
pub open spec fn is_id_snapshot(ids: Seq<String>, m: RegistryView) -> bool {
    &&& forall|i: int, j: int| 0 <= i < j < ids.len() ==> (#[trigger] ids[i])@ != (#[trigger] ids[j])@
    &&& forall|id: Seq<char>|
        m.contains_key(id) <==> exists|i: int| 0 <= i < ids.len() && (#[trigger] ids[i])@ == id
    &&& ids.len() == m.len()
}

/// Every handle is kept under its own id.
pub open spec fn well_keyed(m: RegistryView) -> bool {
    forall|id: Seq<char>| m.contains_key(id) ==> (#[trigger] m[id]).env_id == id
}

/// The map of a list of handles keeps every handle under its own id.
pub proof fn lemma_keyed_is_well_keyed(handles: Seq<EnvironmentHandle>)
    ensures
        well_keyed(assoc_map(keyed(handles))),
    decreases handles.len(),
{
    if handles.len() > 0 {
        lemma_keyed_is_well_keyed(handles.drop_last());
        assert(keyed(handles).drop_last() =~= keyed(handles.drop_last()));
    }
}

/// Registry for managing active environments: at most one handle per
/// environment id.
pub struct EnvironmentRegistry {
    environments: Vec<EnvironmentHandle>,
}

impl View for EnvironmentRegistry {
    type V = RegistryView;

    closed spec fn view(&self) -> RegistryView {
        assoc_map(keyed(self.environments@))
    }
}

impl EnvironmentRegistry {
    #[verifier::type_invariant]
    spec fn no_id_twice(self) -> bool {
        distinct_keys(keyed(self.environments@))
    }

    /// Create a new empty registry.
    pub fn new() -> (r: Self)
        ensures
            r@ == RegistryView::empty(),
    {
        let r = EnvironmentRegistry { environments: Vec::new() };
        assert(keyed(r.environments@) =~= Seq::empty());
        r
    }

    fn position(&self, env_id: &str) -> (r: Option<usize>)
        ensures
            match r {
                Some(i) => i < self.environments@.len() && self.environments@[i as int]@.env_id
                    == env_id@ && self@.contains_key(env_id@) && self@[env_id@]
                    == self.environments@[i as int]@,
                None => !self@.contains_key(env_id@),
            },
    {
        proof {
            use_type_invariant(self);
            lemma_assoc_dom(keyed(self.environments@));
        }
        let mut i: usize = 0;
        while i < self.environments.len()
            invariant
                i <= self.environments@.len(),
                distinct_keys(keyed(self.environments@)),
                forall|k: int| 0 <= k < i ==> self.environments@[k]@.env_id != env_id@,
            decreases self.environments@.len() - i,
        {
            if text_eq(self.environments[i].env_id.as_str(), env_id) {
                proof {
                    let pairs = keyed(self.environments@);
                    assert(pairs[i as int] == (
                        self.environments@[i as int]@.env_id,
                        self.environments@[i as int]@,
                    ));
                    assert forall|j: int| i < j < pairs.len() implies (#[trigger] pairs[j]).0
                        != pairs[i as int].0 by {
                        assert(pairs[i as int].0 != pairs[j].0);
                    }
                    lemma_assoc_value(pairs, i as int);
                }
                return Some(i);
            }
            i += 1;
        }
        proof {
            let pairs = keyed(self.environments@);
            assert forall|k: int| 0 <= k < pairs.len() implies (#[trigger] pairs[k]).0 != env_id@ by {
                assert(pairs[k].0 == self.environments@[k]@.env_id);
            }
        }
        None
    }

    /// Takes every handle out, leaving the registry empty.
    fn take_all(&mut self) -> (handles: Vec<EnvironmentHandle>)
        ensures
            final(self)@ == RegistryView::empty(),
            handles@ == old(self).environments@,
            distinct_keys(keyed(handles@)),
            assoc_map(keyed(handles@)) == old(self)@,
    {
        proof {
            use_type_invariant(&*self);
        }
        let mut taken = EnvironmentRegistry::new();
        std::mem::swap(self, &mut taken);
        let EnvironmentRegistry { environments } = taken;
        environments
    }

    /// Register a new environment. The check for the id and the insert are
    /// one step: of any number of registrations under one id the first wins
    /// and the others are refused.
    pub fn register(&mut self, handle: EnvironmentHandle) -> (r: Result<(), RegistryError>)
        ensures
            final(self)@ == spec_register(old(self)@, handle@).0,
            match r {
                Ok(()) => spec_register(old(self)@, handle@).1 == Ok::<(), RegistryErrorView>(()),
                Err(e) => spec_register(old(self)@, handle@).1 == Err::<(), RegistryErrorView>(e@),
            },
    {
        match self.position(handle.env_id.as_str()) {
            Some(_) => Err(RegistryError::AlreadyExists(handle.env_id.clone())),
            None => {
                let mut environments = self.take_all();
                let ghost before = keyed(environments@);
                proof {
                    lemma_assoc_dom(before);
                }
                environments.push(handle);
                proof {
                    let after = keyed(environments@);
                    assert(after =~= before.push((handle@.env_id, handle@)));
                    assert(after.drop_last() =~= before);
                    assert forall|i: int, j: int| 0 <= i < j < after.len() implies (
                    #[trigger] after[i]).0 != (#[trigger] after[j]).0 by {
                        if j < before.len() {
                            assert(before[i].0 != before[j].0);
                        } else {
                            assert(before[i].0 != handle@.env_id);
                        }
                    }
                }
                *self = EnvironmentRegistry { environments };
                Ok(())
            },
        }
    }

    /// Tells whether an environment with this id is registered.
    pub fn contains(&self, env_id: &str) -> (r: bool)
        ensures
            r == self@.contains_key(env_id@),
    {
        self.position(env_id).is_some()
    }

    /// Get a copy of an environment's handle by id.
    pub fn get(&self, env_id: &str) -> (r: Result<EnvironmentHandle, RegistryError>)
        ensures
            well_keyed(self@),
            match r {
                Ok(handle) => spec_get(self@, env_id@) == Ok::<HandleView, RegistryErrorView>(
                    handle@,
                ),
                Err(e) => spec_get(self@, env_id@) == Err::<HandleView, RegistryErrorView>(e@),
            },
    {
        proof {
            lemma_keyed_is_well_keyed(self.environments@);
        }
        match self.position(env_id) {
            Some(i) => Ok(self.environments[i].clone()),
            None => Err(RegistryError::NotFound(String::from_str(env_id))),
        }
    }

    /// Update an environment: the stored handle is replaced by `handle` as
    /// a whole.
    pub fn update(&mut self, handle: EnvironmentHandle) -> (r: Result<(), RegistryError>)
        ensures
            final(self)@ == spec_update(old(self)@, handle@).0,
            match r {
                Ok(()) => spec_update(old(self)@, handle@).1 == Ok::<(), RegistryErrorView>(()),
                Err(e) => spec_update(old(self)@, handle@).1 == Err::<(), RegistryErrorView>(e@),
            },
    {
        match self.position(handle.env_id.as_str()) {
            None => Err(RegistryError::NotFound(handle.env_id.clone())),
            Some(i) => {
                let mut environments = self.take_all();
                let ghost before = keyed(environments@);
                proof {
                    assert(before[i as int].0 == handle@.env_id);
                    lemma_assoc_update(before, i as int, handle@);
                }
                environments.set(i, handle);
                assert(keyed(environments@) =~= before.update(i as int, (handle@.env_id, handle@)));
                *self = EnvironmentRegistry { environments };
                Ok(())
            },
        }
    }

    /// Remove an environment and hand its handle back.
    pub fn remove(&mut self, env_id: &str) -> (r: Result<EnvironmentHandle, RegistryError>)
        ensures
            final(self)@ == spec_remove(old(self)@, env_id@).0,
            match r {
                Ok(handle) => spec_remove(old(self)@, env_id@).1 == Ok::<
                    HandleView,
                    RegistryErrorView,
                >(handle@),
                Err(e) => spec_remove(old(self)@, env_id@).1 == Err::<HandleView, RegistryErrorView>(
                    e@,
                ),
            },
    {
        match self.position(env_id) {
            None => Err(RegistryError::NotFound(String::from_str(env_id))),
            Some(i) => {
                let mut environments = self.take_all();
                let ghost before = keyed(environments@);
                proof {
                    assert(before[i as int] == (environments@[i as int]@.env_id, environments@[i as int]@));
                    lemma_assoc_remove(before, i as int);
                }
                let handle = environments.remove(i);
                assert(keyed(environments@) =~= before.remove(i as int));
                *self = EnvironmentRegistry { environments };
                Ok(handle)
            },
        }
    }

    /// Get the count of registered environments.
    pub fn count(&self) -> (n: usize)
        ensures
            self@.dom().finite(),
            well_keyed(self@),
            n == self@.len(),
    {
        proof {
            lemma_keyed_is_well_keyed(self.environments@);
            use_type_invariant(self);
            lemma_assoc_len(keyed(self.environments@));
        }
        self.environments.len()
    }
    /// List all environment ids, in no particular order.
    pub fn list(&self) -> (ids: Vec<String>)
        ensures
            is_id_snapshot(ids@, self@),
    {
        proof {
            use_type_invariant(self);
            lemma_assoc_len(keyed(self.environments@));
            lemma_assoc_dom(keyed(self.environments@));
        }
        let mut ids: Vec<String> = Vec::new();
        let mut i: usize = 0;
        while i < self.environments.len()
            invariant
                i <= self.environments@.len(),
                ids@.len() == i,
                forall|k: int| 0 <= k < i ==> (#[trigger] ids@[k])@ == self.environments@[k]@.env_id,
            decreases self.environments@.len() - i,
        {
            ids.push(self.environments[i].env_id.clone());
            i += 1;
        }
        proof {
            let pairs = keyed(self.environments@);
            assert forall|i: int, j: int| 0 <= i < j < ids@.len() implies (#[trigger] ids@[i])@ != (
            #[trigger] ids@[j])@ by {
                assert(pairs[i].0 != pairs[j].0);
            }
            assert forall|id: Seq<char>|
                self@.contains_key(id) <==> exists|i: int|
                    0 <= i < ids@.len() && (#[trigger] ids@[i])@ == id by {
                if has_key(pairs, id) {
                    let i = choose|i: int| 0 <= i < pairs.len() && (#[trigger] pairs[i]).0 == id;
                    assert(ids@[i]@ == id);
                }
                if exists|i: int| 0 <= i < ids@.len() && (#[trigger] ids@[i])@ == id {
                    let i = choose|i: int| 0 <= i < ids@.len() && (#[trigger] ids@[i])@ == id;
                    assert(pairs[i].0 == id);
                }
            }
        }
        ids
    }

    /// Get a copy of every handle, in no particular order.
    pub fn list_all(&self) -> (handles: Vec<EnvironmentHandle>)
        ensures
            is_snapshot(handles@, self@),
    {
        proof {
            use_type_invariant(self);
            lemma_assoc_len(keyed(self.environments@));
        }
        let mut handles: Vec<EnvironmentHandle> = Vec::new();
        let mut i: usize = 0;
        while i < self.environments.len()
            invariant
                i <= self.environments@.len(),
                handles@.len() == i,
                forall|k: int| 0 <= k < i ==> (#[trigger] handles@[k])@ == self.environments@[k]@,
            decreases self.environments@.len() - i,
        {
            handles.push(self.environments[i].clone());
            i += 1;
        }
        assert(keyed(handles@) =~= keyed(self.environments@));
        handles
    }

    /// Clear all environments in one step and hand every removed handle
    /// back. Nothing outside the registry is torn down.
    pub fn clear(&mut self) -> (handles: Vec<EnvironmentHandle>)
        ensures
            final(self)@ == RegistryView::empty(),
            is_snapshot(handles@, old(self)@),
    {
        let handles = self.take_all();
        proof {
            lemma_assoc_len(keyed(handles@));
        }
        handles
    }
}

impl Default for EnvironmentRegistry {
    fn default() -> (r: Self)
        ensures
            r@ == RegistryView::empty(),
    {
        Self::new()
    }
}

} // verus!
