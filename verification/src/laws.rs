//! What holds of the registry in every state.
//!
//! Each law is a proof function over the model: its parameters are the state
//! and the identifiers that the law speaks of, and its `ensures` is the law.
//! The operations of the registry change the storage exactly as the model's
//! `registered`, `removed` and `record_added` say, so what is proved here of
//! those holds of every call.

use crate::keys::keys_are_distinct;
use crate::model::{
    consistent, established, grant_path, granted, has_room, patients_of, providers_of,
    record_added, records_of, registered, registry_typed, related, related_agents,
    relationship_path, removed, with_entry, without, AgentId, Ledger, RecordId, Stored,
};
use vstd::prelude::*;

verus! {

/// A list with one more entry holds what it held, and the entry.
proof fn pushed_holds<A>(list: Seq<A>, entry: A)
    ensures
        forall|other: A| list.push(entry).contains(other) <==> list.contains(other) || other == entry,
        list.no_duplicates() && !list.contains(entry) ==> list.push(entry).no_duplicates(),
{
    let more = list.push(entry);
    assert(more[list.len() as int] == entry);
    assert forall|other: A| list.contains(other) implies more.contains(other) by {
        let i = choose|i: int| 0 <= i < list.len() && list[i] == other;
        assert(more[i] == other);
    }
    assert forall|other: A| more.contains(other) implies list.contains(other) || other
        == entry by {
        let i = choose|i: int| 0 <= i < more.len() && more[i] == other;
        if i < list.len() {
            assert(list[i] == other);
        }
    }
}

/// A list without an agent holds the other agents that it held and not that
/// one, and holds none twice if it held none twice.
proof fn without_holds(list: Seq<AgentId>, agent: AgentId)
    ensures
        forall|other: AgentId|
            without(list, agent).contains(other) <==> list.contains(other) && other != agent,
        list.no_duplicates() ==> without(list, agent).no_duplicates(),
        !list.contains(agent) ==> without(list, agent) == list,
    decreases list.len(),
{
    reveal(Seq::filter);
    if list.len() > 0 {
        let front = list.drop_last();
        let last = list.last();
        without_holds(front, agent);
        pushed_holds(front, last);
        pushed_holds(without(front, agent), last);
        assert(front.push(last) =~= list);
        if list.no_duplicates() {
            assert(front.no_duplicates()) by {
                assert forall|i: int, j: int|
                    0 <= i < front.len() && 0 <= j < front.len() && i != j implies front[i]
                    != front[j] by {
                    assert(list[i] != list[j]);
                }
            }
            assert(!front.contains(last)) by {
                if front.contains(last) {
                    let i = choose|i: int| 0 <= i < front.len() && front[i] == last;
                    assert(list[i] == list[list.len() - 1]);
                }
            }
        }
        if !list.contains(agent) {
            assert(!front.contains(agent));
            assert(last != agent);
        }
        let kept = without(front, agent);
        assert(without(list, agent) == if last != agent {
            kept.push(last)
        } else {
            kept
        });
        assert forall|other: AgentId|
            without(list, agent).contains(other) <==> list.contains(other) && other != agent by {
            assert(list.contains(other) <==> front.contains(other) || other == last);
            assert(kept.contains(other) <==> front.contains(other) && other != agent);
            assert(kept.push(last).contains(other) <==> kept.contains(other) || other == last);
        }
    } else {
        assert(without(list, agent) =~= list);
    }
}

/// Nothing is registered, granted or listed before the first call.
pub proof fn nothing_holds_at_first(patient: AgentId, provider: AgentId, record: RecordId)
    ensures
        consistent(Ledger::empty()),
        !related(Map::empty(), patient, provider),
        !granted(Map::empty(), patient, provider, record),
        providers_of(Map::empty(), patient) == Seq::<AgentId>::empty(),
        patients_of(Map::empty(), provider) == Seq::<AgentId>::empty(),
        records_of(Map::empty(), patient, provider) == Seq::<RecordId>::empty(),
{
}

/// Registering a relationship leaves every key with a value of its
/// namespace's shape.
pub proof fn registered_keeps_types(s: Ledger, patient: AgentId, provider: AgentId)
    requires
        registry_typed(s),
    ensures
        registry_typed(registered(s, patient, provider)),
{
    keys_are_distinct();
}

/// Removing a relationship leaves every key with a value of its namespace's
/// shape.
pub proof fn removed_keeps_types(s: Ledger, patient: AgentId, provider: AgentId)
    requires
        registry_typed(s),
    ensures
        registry_typed(removed(s, patient, provider)),
{
    keys_are_distinct();
}

/// Granting a record leaves every key with a value of its namespace's shape.
pub proof fn record_added_keeps_types(
    s: Ledger,
    patient: AgentId,
    provider: AgentId,
    record: RecordId,
)
    requires
        registry_typed(s),
    ensures
        registry_typed(record_added(s, patient, provider, record)),
{
    keys_are_distinct();
}

/// What registering changes: the flag of the pair, the providers of the
/// patient and the patients of the provider. Everything else reads as
/// before.
pub proof fn register_changes_its_pair_only(s: Ledger, patient: AgentId, provider: AgentId)
    ensures
        forall|p: AgentId, q: AgentId|
            #[trigger] established(registered(s, patient, provider), p, q) == (established(s, p, q)
                || (p == patient && q == provider)),
        forall|p: AgentId|
            p != patient ==> #[trigger] providers_of(registered(s, patient, provider), p)
                == providers_of(s, p),
        forall|q: AgentId|
            q != provider ==> #[trigger] patients_of(registered(s, patient, provider), q)
                == patients_of(s, q),
        providers_of(registered(s, patient, provider), patient) == with_entry(
            providers_of(s, patient),
            provider,
        ),
        patients_of(registered(s, patient, provider), provider) == with_entry(
            patients_of(s, provider),
            patient,
        ),
        forall|p: AgentId, q: AgentId, r: RecordId|
            #[trigger] granted(registered(s, patient, provider), p, q, r) == granted(s, p, q, r),
        forall|p: AgentId, q: AgentId|
            #[trigger] records_of(registered(s, patient, provider), p, q) == records_of(s, p, q),
{
    keys_are_distinct();
}

/// What removing changes: the flag of the pair, the providers of the patient
/// and the patients of the provider. Everything else reads as before; grants
/// and lists of records stay.
pub proof fn remove_changes_its_pair_only(s: Ledger, patient: AgentId, provider: AgentId)
    ensures
        forall|p: AgentId, q: AgentId|
            #[trigger] established(removed(s, patient, provider), p, q) == (established(s, p, q)
                && !(p == patient && q == provider)),
        forall|p: AgentId|
            p != patient ==> #[trigger] providers_of(removed(s, patient, provider), p)
                == providers_of(s, p),
        forall|q: AgentId|
            q != provider ==> #[trigger] patients_of(removed(s, patient, provider), q)
                == patients_of(s, q),
        providers_of(removed(s, patient, provider), patient) == without(
            providers_of(s, patient),
            provider,
        ),
        patients_of(removed(s, patient, provider), provider) == without(
            patients_of(s, provider),
            patient,
        ),
        forall|p: AgentId, q: AgentId, r: RecordId|
            #[trigger] granted(removed(s, patient, provider), p, q, r) == granted(s, p, q, r),
        forall|p: AgentId, q: AgentId|
            #[trigger] records_of(removed(s, patient, provider), p, q) == records_of(s, p, q),
{
    keys_are_distinct();
}

/// What granting a record changes: the grant of the triple and the records of
/// the pair. Everything else reads as before.
pub proof fn add_record_changes_its_triple_only(
    s: Ledger,
    patient: AgentId,
    provider: AgentId,
    record: RecordId,
)
    ensures
        forall|p: AgentId, q: AgentId, r: RecordId|
            #[trigger] granted(record_added(s, patient, provider, record), p, q, r) == (granted(
                s,
                p,
                q,
                r,
            ) || (p == patient && q == provider && r == record)),
        forall|p: AgentId, q: AgentId|
            !(p == patient && q == provider) ==> #[trigger] records_of(
                record_added(s, patient, provider, record),
                p,
                q,
            ) == records_of(s, p, q),
        records_of(record_added(s, patient, provider, record), patient, provider) == with_entry(
            records_of(s, patient, provider),
            record,
        ),
        forall|p: AgentId, q: AgentId|
            #[trigger] established(record_added(s, patient, provider, record), p, q)
                == established(s, p, q),
        forall|p: AgentId|
            #[trigger] providers_of(record_added(s, patient, provider, record), p) == providers_of(
                s,
                p,
            ),
        forall|q: AgentId|
            #[trigger] patients_of(record_added(s, patient, provider, record), q) == patients_of(
                s,
                q,
            ),
{
    keys_are_distinct();
}

/// Registering keeps the flag, the indices and the lists in agreement.
pub proof fn registered_keeps_consistency(s: Ledger, patient: AgentId, provider: AgentId)
    requires
        consistent(s),
    ensures
        consistent(registered(s, patient, provider)),
{
    registered_keeps_types(s, patient, provider);
    register_changes_its_pair_only(s, patient, provider);
    pushed_holds(providers_of(s, patient), provider);
    pushed_holds(patients_of(s, provider), patient);
}

/// Removing keeps the flag, the indices and the lists in agreement.
pub proof fn removed_keeps_consistency(s: Ledger, patient: AgentId, provider: AgentId)
    requires
        consistent(s),
    ensures
        consistent(removed(s, patient, provider)),
{
    removed_keeps_types(s, patient, provider);
    remove_changes_its_pair_only(s, patient, provider);
    without_holds(providers_of(s, patient), provider);
    without_holds(patients_of(s, provider), patient);
}

/// Granting a record keeps the flag, the indices and the lists in agreement.
pub proof fn record_added_keeps_consistency(
    s: Ledger,
    patient: AgentId,
    provider: AgentId,
    record: RecordId,
)
    requires
        consistent(s),
    ensures
        consistent(record_added(s, patient, provider, record)),
{
    record_added_keeps_types(s, patient, provider, record);
    add_record_changes_its_triple_only(s, patient, provider, record);
    pushed_holds(records_of(s, patient, provider), record);
}

/// After registering, the two agents are related, the provider is among the
/// patient's providers and the patient among the provider's patients.
pub proof fn register_establishes(s: Ledger, patient: AgentId, provider: AgentId)
    ensures
        established(registered(s, patient, provider), patient, provider),
        related(registered(s, patient, provider), patient, provider),
        providers_of(registered(s, patient, provider), patient).contains(provider),
        patients_of(registered(s, patient, provider), provider).contains(patient),
{
    register_changes_its_pair_only(s, patient, provider);
    pushed_holds(providers_of(s, patient), provider);
    pushed_holds(patients_of(s, provider), patient);
}

/// Registering twice gives the state that registering once gives.
pub proof fn register_is_idempotent(s: Ledger, patient: AgentId, provider: AgentId)
    ensures
        registered(registered(s, patient, provider), patient, provider) == registered(
            s,
            patient,
            provider,
        ),
{
    keys_are_distinct();
    register_establishes(s, patient, provider);
    let once = registered(s, patient, provider);
    assert(once.insert(relationship_path(patient, provider), Stored::Flag(true)) =~= once);
}

/// Removing what is not established leaves every query as it was.
pub proof fn remove_of_absent_reads_the_same(s: Ledger, patient: AgentId, provider: AgentId)
    requires
        consistent(s),
        !established(s, patient, provider),
    ensures
        forall|p: AgentId, q: AgentId|
            #[trigger] established(removed(s, patient, provider), p, q) == established(s, p, q),
        forall|p: AgentId|
            #[trigger] providers_of(removed(s, patient, provider), p) == providers_of(s, p),
        forall|q: AgentId|
            #[trigger] patients_of(removed(s, patient, provider), q) == patients_of(s, q),
        forall|p: AgentId, q: AgentId, r: RecordId|
            #[trigger] granted(removed(s, patient, provider), p, q, r) == granted(s, p, q, r),
        forall|p: AgentId, q: AgentId|
            #[trigger] records_of(removed(s, patient, provider), p, q) == records_of(s, p, q),
{
    remove_changes_its_pair_only(s, patient, provider);
    without_holds(providers_of(s, patient), provider);
    without_holds(patients_of(s, provider), patient);
    assert(providers_of(s, patient).contains(provider) <==> established(s, patient, provider));
    assert(patients_of(s, provider).contains(patient) <==> established(s, patient, provider));
}

/// A repeated call finds its entry in the list, so it needs no room: after
/// registering, each index has its entry, and after granting, the list of
/// records has the record.
pub proof fn repeated_call_needs_no_room(
    s: Ledger,
    patient: AgentId,
    provider: AgentId,
    record: RecordId,
)
    ensures
        has_room(providers_of(registered(s, patient, provider), patient), provider),
        has_room(patients_of(registered(s, patient, provider), provider), patient),
        has_room(records_of(record_added(s, patient, provider, record), patient, provider), record),
{
    register_establishes(s, patient, provider);
    add_record_changes_its_triple_only(s, patient, provider, record);
    pushed_holds(records_of(s, patient, provider), record);
}

/// Removing twice gives the state that removing once gives.
pub proof fn remove_is_idempotent(s: Ledger, patient: AgentId, provider: AgentId)
    ensures
        removed(removed(s, patient, provider), patient, provider) == removed(s, patient, provider),
{
    keys_are_distinct();
    remove_changes_its_pair_only(s, patient, provider);
    let once = removed(s, patient, provider);
    without_holds(providers_of(s, patient), provider);
    without_holds(patients_of(s, provider), patient);
    without_holds(providers_of(once, patient), provider);
    without_holds(patients_of(once, provider), patient);
    assert(once.remove(relationship_path(patient, provider)) =~= once);
    assert(removed(once, patient, provider) =~= once);
}

/// After registering and granting, the provider has access and the record is
/// listed exactly once; granting it again changes nothing.
pub proof fn added_record_is_listed_once(
    s: Ledger,
    patient: AgentId,
    provider: AgentId,
    record: RecordId,
)
    requires
        consistent(s),
    ensures
        granted(
            record_added(registered(s, patient, provider), patient, provider, record),
            patient,
            provider,
            record,
        ),
        records_of(
            record_added(registered(s, patient, provider), patient, provider, record),
            patient,
            provider,
        ).contains(record),
        records_of(
            record_added(registered(s, patient, provider), patient, provider, record),
            patient,
            provider,
        ).no_duplicates(),
        record_added(
            record_added(registered(s, patient, provider), patient, provider, record),
            patient,
            provider,
            record,
        ) == record_added(registered(s, patient, provider), patient, provider, record),
{
    let u = registered(s, patient, provider);
    registered_keeps_consistency(s, patient, provider);
    record_added_keeps_consistency(u, patient, provider, record);
    add_record_is_idempotent(u, patient, provider, record);
    add_record_changes_its_triple_only(u, patient, provider, record);
    let t = record_added(u, patient, provider, record);
    assert(records_of(t, patient, provider).contains(record) <==> granted(
        t,
        patient,
        provider,
        record,
    ));
}

/// Granting twice gives the state that granting once gives.
pub proof fn add_record_is_idempotent(
    s: Ledger,
    patient: AgentId,
    provider: AgentId,
    record: RecordId,
)
    ensures
        record_added(record_added(s, patient, provider, record), patient, provider, record)
            == record_added(s, patient, provider, record),
{
    keys_are_distinct();
    add_record_changes_its_triple_only(s, patient, provider, record);
    pushed_holds(records_of(s, patient, provider), record);
    let once = record_added(s, patient, provider, record);
    assert(records_of(once, patient, provider).contains(record));
    assert(once.insert(grant_path(patient, provider, record), Stored::Flag(true)) =~= once);
}

/// A grant reaches no other triple: what was not granted to another
/// provider, of another patient or for another record is not granted
/// afterwards.
pub proof fn grant_reaches_no_other(
    s: Ledger,
    patient: AgentId,
    provider: AgentId,
    record: RecordId,
    other_patient: AgentId,
    other_provider: AgentId,
    other_record: RecordId,
)
    requires
        !granted(s, other_patient, other_provider, other_record),
        other_patient != patient || other_provider != provider || other_record != record,
    ensures
        !granted(
            record_added(s, patient, provider, record),
            other_patient,
            other_provider,
            other_record,
        ),
{
    add_record_changes_its_triple_only(s, patient, provider, record);
}

/// After removing, the relationship is not established, neither agent is in
/// the other's index, and every grant stands as before. The two are then
/// unrelated unless the relationship in the other direction is established.
pub proof fn remove_unlinks(s: Ledger, patient: AgentId, provider: AgentId)
    ensures
        !established(removed(s, patient, provider), patient, provider),
        related(removed(s, patient, provider), patient, provider) == (patient != provider
            && established(s, provider, patient)),
        !providers_of(removed(s, patient, provider), patient).contains(provider),
        !patients_of(removed(s, patient, provider), provider).contains(patient),
        forall|p: AgentId, q: AgentId, r: RecordId|
            #[trigger] granted(removed(s, patient, provider), p, q, r) == granted(s, p, q, r),
        forall|p: AgentId, q: AgentId|
            #[trigger] records_of(removed(s, patient, provider), p, q) == records_of(s, p, q),
{
    remove_changes_its_pair_only(s, patient, provider);
    without_holds(providers_of(s, patient), provider);
    without_holds(patients_of(s, provider), patient);
}

/// The related agents of an agent are its providers, then its patients:
/// neither half holds an agent twice, and an agent of both halves comes
/// twice.
pub proof fn related_agents_keep_both_halves(s: Ledger, agent: AgentId)
    requires
        consistent(s),
    ensures
        related_agents(s, agent) == providers_of(s, agent) + patients_of(s, agent),
        related_agents(s, agent).len() == providers_of(s, agent).len() + patients_of(
            s,
            agent,
        ).len(),
        providers_of(s, agent).no_duplicates(),
        patients_of(s, agent).no_duplicates(),
        forall|other: AgentId|
            related_agents(s, agent).contains(other) <==> established(s, agent, other)
                || established(s, other, agent),
{
    let providers = providers_of(s, agent);
    let patients = patients_of(s, agent);
    let all = related_agents(s, agent);
    assert forall|other: AgentId|
        all.contains(other) <==> established(s, agent, other) || established(
            s,
            other,
            agent,
        ) by {
        assert(providers.contains(other) <==> established(s, agent, other));
        assert(patients.contains(other) <==> established(s, other, agent));
        if providers.contains(other) {
            let i = choose|i: int| 0 <= i < providers.len() && providers[i] == other;
            assert(all[i] == other);
        }
        if patients.contains(other) {
            let i = choose|i: int| 0 <= i < patients.len() && patients[i] == other;
            assert(all[providers.len() + i] == other);
        }
        if all.contains(other) {
            let i = choose|i: int| 0 <= i < all.len() && all[i] == other;
            if i < providers.len() {
                assert(providers[i] == other);
            } else {
                assert(patients[i - providers.len()] == other);
            }
        }
    }
}

/// Whether two agents are related does not depend on their order, and
/// registering in one direction relates them in both.
pub proof fn relationship_is_directionless(s: Ledger, a: AgentId, b: AgentId)
    ensures
        related(s, a, b) == related(s, b, a),
        related(registered(s, a, b), a, b),
        related(registered(s, a, b), b, a),
{
    register_establishes(s, a, b);
}

/// Registering is directed: it leaves the providers of the provider and the
/// patients of the patient as they were, so the patient does not become a
/// provider of its provider.
pub proof fn register_is_directed(s: Ledger, a: AgentId, b: AgentId)
    requires
        a != b,
    ensures
        providers_of(registered(s, a, b), b) == providers_of(s, b),
        patients_of(registered(s, a, b), a) == patients_of(s, a),
        established(registered(s, a, b), b, a) == established(s, b, a),
        consistent(s) && !established(s, b, a) ==> !providers_of(registered(s, a, b), b).contains(
            a,
        ),
{
    register_changes_its_pair_only(s, a, b);
    if consistent(s) {
        assert(providers_of(s, b).contains(a) <==> established(s, b, a));
    }
}

} // verus!
