//! The composite key encoder.
//!
//! A key is made of the tag of its namespace and the identifiers that it is
//! about, in a fixed order, and lies in the host of the environment, where
//! the identifiers must lie too. The same identifiers always give the same key,
//! and two keys are equal only if they have the same tag and the same
//! identifiers: `keys_are_distinct` proves it.

use crate::host::{
    address_strkey, agent_home, agent_key, env_home, key_home, key_parts, new_symbol,
    record_bytes, record_home, tagged_agent_key, tagged_grant_key, tagged_pair_key,
};
use crate::model::{
    grant_path, grant_tag, patients_path, patients_tag, providers_path, providers_tag,
    records_path, records_tag, relationship_path, relationship_tag, role_path, AgentId, RecordId,
};
use soroban_sdk::{Address, BytesN, Env, Val};
use vstd::prelude::*;

verus! {

/// The key of the flag of the relationship from `patient` to `provider`.
pub fn relationship_key(env: &Env, patient: &Address, provider: &Address) -> (key: soroban_sdk::Vec<
    Val,
>)
    requires
        agent_home(*patient) == env_home(*env),
        agent_home(*provider) == env_home(*env),
    ensures
        key_home(key) == env_home(*env),
        key_parts(key) == relationship_path(address_strkey(*patient), address_strkey(*provider)),
{
    proof {
        reveal_strlit("REL");
    }
    let tag = new_symbol(env, "REL");
    tagged_pair_key(env, &tag, patient, provider)
}

/// The key of the list of providers of `patient`.
pub fn providers_key(env: &Env, patient: &Address) -> (key: soroban_sdk::Vec<Val>)
    requires
        agent_home(*patient) == env_home(*env),
    ensures
        key_home(key) == env_home(*env),
        key_parts(key) == providers_path(address_strkey(*patient)),
{
    proof {
        reveal_strlit("PPIDX");
    }
    let tag = new_symbol(env, "PPIDX");
    tagged_agent_key(env, &tag, patient)
}

/// The key of the list of patients of `provider`.
pub fn patients_key(env: &Env, provider: &Address) -> (key: soroban_sdk::Vec<Val>)
    requires
        agent_home(*provider) == env_home(*env),
    ensures
        key_home(key) == env_home(*env),
        key_parts(key) == patients_path(address_strkey(*provider)),
{
    proof {
        reveal_strlit("PRIDX");
    }
    let tag = new_symbol(env, "PRIDX");
    tagged_agent_key(env, &tag, provider)
}

/// The key of the flag that grants `provider` access to `record` of
/// `patient`.
pub fn grant_key(env: &Env, patient: &Address, provider: &Address, record: &BytesN<32>) -> (key:
    soroban_sdk::Vec<Val>)
    requires
        agent_home(*patient) == env_home(*env),
        agent_home(*provider) == env_home(*env),
        record_home(*record) == env_home(*env),
    ensures
        key_home(key) == env_home(*env),
        key_parts(key) == grant_path(
            address_strkey(*patient),
            address_strkey(*provider),
            record_bytes(*record),
        ),
{
    proof {
        reveal_strlit("REC");
    }
    let tag = new_symbol(env, "REC");
    tagged_grant_key(env, &tag, patient, provider, record)
}

/// The key of the list of records granted from `patient` to `provider`.
pub fn records_key(env: &Env, patient: &Address, provider: &Address) -> (key: soroban_sdk::Vec<
    Val,
>)
    requires
        agent_home(*patient) == env_home(*env),
        agent_home(*provider) == env_home(*env),
    ensures
        key_home(key) == env_home(*env),
        key_parts(key) == records_path(address_strkey(*patient), address_strkey(*provider)),
{
    proof {
        reveal_strlit("IDX");
    }
    let tag = new_symbol(env, "IDX");
    tagged_pair_key(env, &tag, patient, provider)
}

/// The key of the role of `agent`.
pub fn role_key(env: &Env, agent: &Address) -> (key: soroban_sdk::Vec<Val>)
    requires
        agent_home(*agent) == env_home(*env),
    ensures
        key_home(key) == env_home(*env),
        key_parts(key) == role_path(address_strkey(*agent)),
{
    agent_key(env, agent)
}

/// The five tags differ from one another.
pub proof fn tags_are_distinct()
    ensures
        relationship_tag() != providers_tag(),
        relationship_tag() != patients_tag(),
        relationship_tag() != grant_tag(),
        relationship_tag() != records_tag(),
        providers_tag() != patients_tag(),
        providers_tag() != grant_tag(),
        providers_tag() != records_tag(),
        patients_tag() != grant_tag(),
        patients_tag() != records_tag(),
        grant_tag() != records_tag(),
{
    reveal_strlit("REL");
    reveal_strlit("PPIDX");
    reveal_strlit("PRIDX");
    reveal_strlit("REC");
    reveal_strlit("IDX");
    assert(relationship_tag()[2] != grant_tag()[2]);
    assert(relationship_tag()[0] != records_tag()[0]);
    assert(providers_tag()[1] != patients_tag()[1]);
    assert(grant_tag()[0] != records_tag()[0]);
}

/// Two keys are equal only if they belong to the same namespace and are made
/// of the same identifiers.
pub proof fn keys_are_distinct()
    ensures
        forall|p: AgentId, q: AgentId, p2: AgentId, q2: AgentId|
            #[trigger] relationship_path(p, q) == #[trigger] relationship_path(p2, q2) ==> p == p2
                && q == q2,
        forall|p: AgentId, p2: AgentId|
            #[trigger] providers_path(p) == #[trigger] providers_path(p2) ==> p == p2,
        forall|q: AgentId, q2: AgentId|
            #[trigger] patients_path(q) == #[trigger] patients_path(q2) ==> q == q2,
        forall|p: AgentId, q: AgentId, r: RecordId, p2: AgentId, q2: AgentId, r2: RecordId|
            #[trigger] grant_path(p, q, r) == #[trigger] grant_path(p2, q2, r2) ==> p == p2 && q
                == q2 && r == r2,
        forall|p: AgentId, q: AgentId, p2: AgentId, q2: AgentId|
            #[trigger] records_path(p, q) == #[trigger] records_path(p2, q2) ==> p == p2 && q
                == q2,
        forall|a: AgentId, a2: AgentId| #[trigger] role_path(a) == #[trigger] role_path(a2) ==> a == a2,
        forall|p: AgentId, q: AgentId, a: AgentId|
            #[trigger] relationship_path(p, q) != #[trigger] providers_path(a),
        forall|p: AgentId, q: AgentId, a: AgentId|
            #[trigger] relationship_path(p, q) != #[trigger] patients_path(a),
        forall|p: AgentId, q: AgentId, p2: AgentId, q2: AgentId, r: RecordId|
            #[trigger] relationship_path(p, q) != #[trigger] grant_path(p2, q2, r),
        forall|p: AgentId, q: AgentId, p2: AgentId, q2: AgentId|
            #[trigger] relationship_path(p, q) != #[trigger] records_path(p2, q2),
        forall|a: AgentId, b: AgentId| #[trigger] providers_path(a) != #[trigger] patients_path(b),
        forall|a: AgentId, p: AgentId, q: AgentId, r: RecordId|
            #[trigger] providers_path(a) != #[trigger] grant_path(p, q, r),
        forall|a: AgentId, p: AgentId, q: AgentId|
            #[trigger] providers_path(a) != #[trigger] records_path(p, q),
        forall|a: AgentId, p: AgentId, q: AgentId, r: RecordId|
            #[trigger] patients_path(a) != #[trigger] grant_path(p, q, r),
        forall|a: AgentId, p: AgentId, q: AgentId|
            #[trigger] patients_path(a) != #[trigger] records_path(p, q),
        forall|p: AgentId, q: AgentId, r: RecordId, p2: AgentId, q2: AgentId|
            #[trigger] grant_path(p, q, r) != #[trigger] records_path(p2, q2),
{
    tags_are_distinct();
    assert forall|p: AgentId, q: AgentId, p2: AgentId, q2: AgentId|
        #[trigger] relationship_path(p, q) == #[trigger] relationship_path(p2, q2) implies p == p2
        && q == q2 by {
        assert(relationship_path(p, q)[1] == relationship_path(p2, q2)[1]);
        assert(relationship_path(p, q)[2] == relationship_path(p2, q2)[2]);
    }
    assert forall|p: AgentId, p2: AgentId|
        #[trigger] providers_path(p) == #[trigger] providers_path(p2) implies p == p2 by {
        assert(providers_path(p)[1] == providers_path(p2)[1]);
    }
    assert forall|q: AgentId, q2: AgentId|
        #[trigger] patients_path(q) == #[trigger] patients_path(q2) implies q == q2 by {
        assert(patients_path(q)[1] == patients_path(q2)[1]);
    }
    assert forall|p: AgentId, q: AgentId, r: RecordId, p2: AgentId, q2: AgentId, r2: RecordId|
        #[trigger] grant_path(p, q, r) == #[trigger] grant_path(p2, q2, r2) implies p == p2 && q
        == q2 && r == r2 by {
        assert(grant_path(p, q, r)[1] == grant_path(p2, q2, r2)[1]);
        assert(grant_path(p, q, r)[2] == grant_path(p2, q2, r2)[2]);
        assert(grant_path(p, q, r)[3] == grant_path(p2, q2, r2)[3]);
    }
    assert forall|p: AgentId, q: AgentId, p2: AgentId, q2: AgentId|
        #[trigger] records_path(p, q) == #[trigger] records_path(p2, q2) implies p == p2 && q
        == q2 by {
        assert(records_path(p, q)[1] == records_path(p2, q2)[1]);
        assert(records_path(p, q)[2] == records_path(p2, q2)[2]);
    }
    assert forall|a: AgentId, a2: AgentId| #[trigger]
        role_path(a) == #[trigger] role_path(a2) implies a == a2 by {
        assert(role_path(a)[0] == role_path(a2)[0]);
    }
    assert forall|p: AgentId, q: AgentId, a: AgentId|
        #[trigger] relationship_path(p, q) != #[trigger] providers_path(a) by {
        assert(relationship_path(p, q).len() != providers_path(a).len());
    }
    assert forall|p: AgentId, q: AgentId, a: AgentId|
        #[trigger] relationship_path(p, q) != #[trigger] patients_path(a) by {
        assert(relationship_path(p, q).len() != patients_path(a).len());
    }
    assert forall|p: AgentId, q: AgentId, p2: AgentId, q2: AgentId, r: RecordId|
        #[trigger] relationship_path(p, q) != #[trigger] grant_path(p2, q2, r) by {
        assert(relationship_path(p, q).len() != grant_path(p2, q2, r).len());
    }
    assert forall|p: AgentId, q: AgentId, p2: AgentId, q2: AgentId|
        #[trigger] relationship_path(p, q) != #[trigger] records_path(p2, q2) by {
        assert(relationship_path(p, q)[0] != records_path(p2, q2)[0]);
    }
    assert forall|a: AgentId, b: AgentId| #[trigger]
        providers_path(a) != #[trigger] patients_path(b) by {
        assert(providers_path(a)[0] != patients_path(b)[0]);
    }
    assert forall|a: AgentId, p: AgentId, q: AgentId, r: RecordId|
        #[trigger] providers_path(a) != #[trigger] grant_path(p, q, r) by {
        assert(providers_path(a).len() != grant_path(p, q, r).len());
    }
    assert forall|a: AgentId, p: AgentId, q: AgentId|
        #[trigger] providers_path(a) != #[trigger] records_path(p, q) by {
        assert(providers_path(a).len() != records_path(p, q).len());
    }
    assert forall|a: AgentId, p: AgentId, q: AgentId, r: RecordId|
        #[trigger] patients_path(a) != #[trigger] grant_path(p, q, r) by {
        assert(patients_path(a).len() != grant_path(p, q, r).len());
    }
    assert forall|a: AgentId, p: AgentId, q: AgentId|
        #[trigger] patients_path(a) != #[trigger] records_path(p, q) by {
        assert(patients_path(a).len() != records_path(p, q).len());
    }
    assert forall|p: AgentId, q: AgentId, r: RecordId, p2: AgentId, q2: AgentId|
        #[trigger] grant_path(p, q, r) != #[trigger] records_path(p2, q2) by {
        assert(grant_path(p, q, r).len() != records_path(p2, q2).len());
    }
}

} // verus!
