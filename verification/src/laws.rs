use vstd::prelude::*;
use crate::registry::UserService;
use crate::user::UserView;

verus! {

/// A run of creations starting from the mapping `m`, in which each created
/// record's identifier was fresh: absent from the mapping at its creation.
/// Freshness is exactly what a non-colliding identifier generator gives; it is
/// the hypothesis under which the uniqueness and absence laws hold.
pub open spec fn fresh_run(m: Map<Seq<char>, UserView>, us: Seq<UserView>) -> bool
    decreases us.len(),
{
    us.len() == 0 || {
        &&& !m.contains_key(us[0].id)
        &&& fresh_run(m.insert(us[0].id, us[0]), us.drop_first())
    }
}

/// The registry's mapping after a run of creations starting from `m`, each
/// inserting its record under the record's own identifier, as the contract of
/// create describes.
pub open spec fn run_result(m: Map<Seq<char>, UserView>, us: Seq<UserView>) -> Map<
    Seq<char>,
    UserView,
>
    decreases us.len(),
{
    if us.len() == 0 {
        m
    } else {
        run_result(m.insert(us[0].id, us[0]), us.drop_first())
    }
}

/// An identifier already present before a fresh run differs from every
/// identifier issued along it.
proof fn lemma_fresh_run_avoids(m: Map<Seq<char>, UserView>, us: Seq<UserView>, k: Seq<char>)
    requires
        fresh_run(m, us),
        m.contains_key(k),
    ensures
        forall|i: int| 0 <= i < us.len() ==> (#[trigger] us[i]).id != k,
    decreases us.len(),
{
    if us.len() > 0 {
        let m1 = m.insert(us[0].id, us[0]);
        lemma_fresh_run_avoids(m1, us.drop_first(), k);
        assert forall|i: int| 0 <= i < us.len() implies (#[trigger] us[i]).id != k by {
            if i > 0 {
                assert(us.drop_first()[i - 1] == us[i]);
            }
        }
    }
}

/// Uniqueness: along any run of creations in which each generated identifier
/// was fresh, the returned identifiers are pairwise distinct.
pub proof fn lemma_unique_ids(m: Map<Seq<char>, UserView>, us: Seq<UserView>)
    requires
        fresh_run(m, us),
    ensures
        forall|i: int, j: int|
            0 <= i < j < us.len() ==> (#[trigger] us[i]).id != (#[trigger] us[j]).id,
    decreases us.len(),
{
    if us.len() > 0 {
        let m1 = m.insert(us[0].id, us[0]);
        lemma_fresh_run_avoids(m1, us.drop_first(), us[0].id);
        lemma_unique_ids(m1, us.drop_first());
        assert forall|i: int, j: int|
            0 <= i < j < us.len() implies (#[trigger] us[i]).id != (#[trigger] us[j]).id by {
            assert(us.drop_first()[j - 1] == us[j]);
            if i > 0 {
                assert(us.drop_first()[i - 1] == us[i]);
            }
        }
    }
}

/// Absence: an identifier absent at the start of a run and never issued along
/// it is absent afterwards, so a lookup of it returns the absent result.
pub proof fn lemma_absent(m: Map<Seq<char>, UserView>, us: Seq<UserView>, k: Seq<char>)
    requires
        !m.contains_key(k),
        forall|i: int| 0 <= i < us.len() ==> (#[trigger] us[i]).id != k,
    ensures
        !run_result(m, us).contains_key(k),
    decreases us.len(),
{
    if us.len() > 0 {
        let m1 = m.insert(us[0].id, us[0]);
        let rest = us.drop_first();
        assert forall|i: int| 0 <= i < rest.len() implies (#[trigger] rest[i]).id != k by {
            assert(rest[i] == us[i + 1]);
        }
        lemma_absent(m1, us.drop_first(), k);
    }
}

/// Round-trip: after a creation, the returned identifier is present in the
/// registry's mapping and maps to exactly the returned record; a lookup of it
/// therefore yields a record equal to the created one, field for field.
pub proof fn lemma_round_trip(m: Map<Seq<char>, UserView>, u: UserView)
    ensures
        m.insert(u.id, u).contains_key(u.id),
        m.insert(u.id, u)[u.id] == u,
{
}

/// Non-interference: a creation leaves every record under a different
/// identifier exactly as it was, so earlier records remain reachable and
/// unchanged.
pub proof fn lemma_non_interference(m: Map<Seq<char>, UserView>, u: UserView, k: Seq<char>)
    requires
        m.contains_key(k),
        k != u.id,
    ensures
        m.insert(u.id, u).contains_key(k),
        m.insert(u.id, u)[k] == m[k],
{
}

/// Monotonic timestamps: for two successive creations — each stamping its
/// record with the registry's latest timestamp, which a creation never
/// decreases — the second record's timestamp is not earlier than the first's.
pub proof fn lemma_monotonic_timestamps(
    s0: UserService,
    u1: UserView,
    s1: UserService,
    u2: UserView,
    s2: UserService,
)
    requires
        u1.created_at == s1.last_created(),
        s1.last_created() >= s0.last_created(),
        u2.created_at == s2.last_created(),
        s2.last_created() >= s1.last_created(),
    ensures
        u2.created_at >= u1.created_at,
{
}

} // verus!
