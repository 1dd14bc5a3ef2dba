use crate::environment::handle::{EnvironmentHandle, HandleView};
use crate::environment::registry::{
    is_id_snapshot, is_snapshot, spec_get, spec_register, spec_remove, spec_update, well_keyed,
    RegistryErrorView, RegistryView,
};
use vstd::prelude::*;

verus! {

/// The registry after a run of registrations, one after the other, and how
/// many of them were accepted.
pub open spec fn register_all(m: RegistryView, attempts: Seq<HandleView>) -> (RegistryView, nat)
    decreases attempts.len(),
{
    if attempts.len() == 0 {
        (m, 0)
    } else {
        let (before, accepted) = register_all(m, attempts.drop_last());
        let (after, outcome) = spec_register(before, attempts.last());
        (after, if outcome is Ok { accepted + 1 } else { accepted })
    }
}

/// Uniqueness: registrations take effect one at a time, so competing ones
/// arrive in some order. Whatever that order, of the registrations under one
/// free id exactly one is accepted, the first, and every later one is
/// refused as already existing; the id is then held once, by the first
/// handle.
pub proof fn lemma_register_exactly_once(
    m: RegistryView,
    attempts: Seq<HandleView>,
    env_id: Seq<char>,
)
    requires
        attempts.len() > 0,
        forall|i: int| 0 <= i < attempts.len() ==> (#[trigger] attempts[i]).env_id == env_id,
        !m.contains_key(env_id),
    ensures
        register_all(m, attempts).1 == 1,
        register_all(m, attempts).0 == m.insert(env_id, attempts[0]),
        forall|i: int|
            1 <= i < attempts.len() ==> spec_register(
                register_all(m, attempts.take(i)).0,
                #[trigger] attempts[i],
            ).1 == Err::<(), RegistryErrorView>(RegistryErrorView::AlreadyExists(env_id)),
    decreases attempts.len(),
{
    let front = attempts.drop_last();
    if attempts.len() == 1 {
        assert(front =~= Seq::empty());
        assert(register_all(m, front) == (m, 0nat));
        assert(attempts.last() == attempts[0]);
    } else {
        assert forall|i: int| 0 <= i < front.len() implies (#[trigger] front[i]).env_id == env_id by {
            assert(front[i] == attempts[i]);
        }
        lemma_register_exactly_once(m, front, env_id);
        assert(front[0] == attempts[0]);
        assert forall|i: int| 1 <= i < attempts.len() implies spec_register(
            register_all(m, attempts.take(i)).0,
            #[trigger] attempts[i],
        ).1 == Err::<(), RegistryErrorView>(RegistryErrorView::AlreadyExists(env_id)) by {
            if i < front.len() {
                assert(front.take(i) =~= attempts.take(i));
                assert(front[i] == attempts[i]);
            } else {
                assert(attempts.take(i) =~= front);
            }
        }
    }
}

/// A registration under an id that is taken changes nothing.
pub proof fn lemma_register_taken_id(m: RegistryView, handle: HandleView)
    requires
        m.contains_key(handle.env_id),
    ensures
        spec_register(m, handle) == (
            m,
            Err::<(), RegistryErrorView>(RegistryErrorView::AlreadyExists(handle.env_id)),
        ),
{
}

/// Round trip: a handle that was registered is read back equal in every
/// field.
pub proof fn lemma_register_then_get(m: RegistryView, handle: HandleView)
    requires
        !m.contains_key(handle.env_id),
    ensures
        spec_register(m, handle).1 == Ok::<(), RegistryErrorView>(()),
        spec_get(spec_register(m, handle).0, handle.env_id) == Ok::<HandleView, RegistryErrorView>(
            handle,
        ),
{
}

/// Full-replace update: after an update the stored handle is the given one
/// in every field, so the fields that the caller changed are changed and the
/// fields it left alone are as they were in its copy; every other
/// environment is untouched.
pub proof fn lemma_update_replaces(m: RegistryView, handle: HandleView)
    requires
        m.contains_key(handle.env_id),
    ensures
        spec_update(m, handle).1 == Ok::<(), RegistryErrorView>(()),
        spec_get(spec_update(m, handle).0, handle.env_id) == Ok::<HandleView, RegistryErrorView>(
            handle,
        ),
        spec_update(m, handle).0.dom() == m.dom(),
        forall|other: Seq<char>|
            other != handle.env_id ==> spec_get(spec_update(m, handle).0, other) == spec_get(
                m,
                other,
            ),
{
    assert(m.insert(handle.env_id, handle).dom() =~= m.dom());
}

/// An update with a modified copy changes exactly what the copy changed:
/// every field in which the copy agrees with the stored handle is afterwards
/// as it was.
pub proof fn lemma_update_keeps_unmodified_fields(m: RegistryView, copy: HandleView)
    requires
        well_keyed(m),
        m.contains_key(copy.env_id),
    ensures
        ({
            let before = m[copy.env_id];
            let after = spec_update(m, copy).0[copy.env_id];
            &&& after.env_id == before.env_id
            &&& copy.container_id == before.container_id ==> after.container_id
                == before.container_id
            &&& copy.project_root == before.project_root ==> after.project_root
                == before.project_root
            &&& copy.mount_path == before.mount_path ==> after.mount_path == before.mount_path
            &&& copy.created_at == before.created_at ==> after.created_at == before.created_at
            &&& copy.status == before.status ==> after.status == before.status
            &&& copy.image == before.image ==> after.image == before.image
            &&& copy.env_vars == before.env_vars ==> after.env_vars == before.env_vars
        }),
{
}

/// An update of an environment that is not registered changes nothing.
pub proof fn lemma_update_unknown(m: RegistryView, handle: HandleView)
    requires
        !m.contains_key(handle.env_id),
    ensures
        spec_update(m, handle) == (
            m,
            Err::<(), RegistryErrorView>(RegistryErrorView::NotFound(handle.env_id)),
        ),
{
}

/// Exactly-once removal: the first removal hands the handle back, a second
/// one fails as not found, and so does a lookup.
pub proof fn lemma_remove_exactly_once(m: RegistryView, env_id: Seq<char>)
    requires
        m.contains_key(env_id),
    ensures
        spec_remove(m, env_id).1 == Ok::<HandleView, RegistryErrorView>(m[env_id]),
        spec_remove(spec_remove(m, env_id).0, env_id).1 == Err::<HandleView, RegistryErrorView>(
            RegistryErrorView::NotFound(env_id),
        ),
        spec_remove(spec_remove(m, env_id).0, env_id).0 == spec_remove(m, env_id).0,
        spec_get(spec_remove(m, env_id).0, env_id) == Err::<HandleView, RegistryErrorView>(
            RegistryErrorView::NotFound(env_id),
        ),
{
}

/// Atomic clear: the handles that a clear hands back are as many as were
/// registered, and what is left has no environment, so that its count is 0
/// and every listing of it is empty.
pub proof fn lemma_clear_leaves_nothing(
    before: RegistryView,
    removed: Seq<EnvironmentHandle>,
    ids_after: Seq<String>,
    handles_after: Seq<EnvironmentHandle>,
)
    requires
        is_snapshot(removed, before),
        is_id_snapshot(ids_after, RegistryView::empty()),
        is_snapshot(handles_after, RegistryView::empty()),
    ensures
        removed.len() == before.len(),
        RegistryView::empty().len() == 0,
        ids_after.len() == 0,
        handles_after.len() == 0,
{
}

} // verus!
