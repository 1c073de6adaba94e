//! The relationship registry and its access index.

use crate::host::{
    address_strkey, agent_home, agents_contains, agents_get, agents_home, agents_in, agents_len,
    agents_push, env_home, erase, in_contract, instance_storage, key_home, key_parts, no_agents,
    no_records, only_agents, only_records, read_agents, read_flag, read_records, record_bytes,
    record_home, records_get, records_home, records_in, records_len, records_push, same_agent,
    same_record, write_agents, write_flag, write_records,
};
use crate::keys::{
    grant_key, keys_are_distinct, patients_key, providers_key, records_key, relationship_key,
};
use crate::laws::{record_added_keeps_types, registered_keeps_types, removed_keeps_types};
use crate::model::{
    agents_at, agents_or_nothing, established, granted, has_room, patients_of, providers_of,
    record_added, records_at, records_of, records_or_nothing, registered, registry_typed,
    related, related_agents, removed, with_agent, without, without_agent,
};
use soroban_sdk::{Address, BytesN, Env, Val};
use vstd::prelude::*;

verus! {

/// Why the registry rejects a call.
#[derive(Debug, Clone, Copy, PartialEq, Eq)]
pub enum RegistryError {
    /// A record was to be granted under a relationship that is not
    /// established.
    NoRelationship,
}

impl RegistryError {
    /// The reason, in words.
    pub fn reason(&self) -> (text: &'static str)
        ensures
            text@ == "No relationship established"@,
    {
        "No relationship established"
    }
}

/// The list of agents stored under `key`; empty where nothing is stored.
fn load_agents(env: &Env, key: &soroban_sdk::Vec<Val>) -> (list: soroban_sdk::Vec<Address>)
    requires
        in_contract(*env),
        key_home(*key) == env_home(*env),
        agents_or_nothing(instance_storage(*env), key_parts(*key)),
    ensures
        agents_home(list) == env_home(*env),
        only_agents(list),
        agents_in(list) == agents_at(instance_storage(*env), key_parts(*key)),
{
    match read_agents(env, key) {
        Some(list) => list,
        None => no_agents(env),
    }
}

/// The list of records stored under `key`; empty where nothing is stored.
fn load_records(env: &Env, key: &soroban_sdk::Vec<Val>) -> (list: soroban_sdk::Vec<BytesN<32>>)
    requires
        in_contract(*env),
        key_home(*key) == env_home(*env),
        records_or_nothing(instance_storage(*env), key_parts(*key)),
    ensures
        records_home(list) == env_home(*env),
        only_records(list),
        records_in(list) == records_at(instance_storage(*env), key_parts(*key)),
{
    match read_records(env, key) {
        Some(list) => list,
        None => no_records(env),
    }
}

/// Appends `agent` to the list under `key` and stores the list, unless the
/// list has the agent.
fn index_agent(env: &mut Env, key: &soroban_sdk::Vec<Val>, agent: &Address)
    requires
        in_contract(*old(env)),
        key_home(*key) == env_home(*old(env)),
        agent_home(*agent) == env_home(*old(env)),
        agents_or_nothing(instance_storage(*old(env)), key_parts(*key)),
        has_room(agents_at(instance_storage(*old(env)), key_parts(*key)), address_strkey(*agent)),
    ensures
        in_contract(*final(env)),
        env_home(*final(env)) == env_home(*old(env)),
        instance_storage(*final(env)) == with_agent(
            instance_storage(*old(env)),
            key_parts(*key),
            address_strkey(*agent),
        ),
{
    let mut list = load_agents(env, key);
    if !agents_contains(&list, agent) {
        agents_push(&mut list, agent);
        write_agents(env, key, &list);
    }
}

/// Stores the list under `key` again, without `agent`.
fn unindex_agent(env: &mut Env, key: &soroban_sdk::Vec<Val>, agent: &Address)
    requires
        in_contract(*old(env)),
        key_home(*key) == env_home(*old(env)),
        agents_or_nothing(instance_storage(*old(env)), key_parts(*key)),
    ensures
        in_contract(*final(env)),
        env_home(*final(env)) == env_home(*old(env)),
        instance_storage(*final(env)) == without_agent(
            instance_storage(*old(env)),
            key_parts(*key),
            address_strkey(*agent),
        ),
{
    let list = load_agents(env, key);
    let mut kept = no_agents(env);
    let len = agents_len(&list);
    let mut i: u32 = 0;
    proof {
        reveal(Seq::filter);
        assert(agents_in(list).take(0) =~= Seq::<Seq<char>>::empty());
    }
    while i < len
        invariant
            i <= len,
            len == agents_in(list).len(),
            only_agents(list),
            only_agents(kept),
            agents_home(kept) == agents_home(list),
            agents_in(kept).len() <= i,
            agents_in(kept) == without(agents_in(list).take(i as int), address_strkey(*agent)),
        decreases len - i,
    {
        let item = agents_get(&list, i).unwrap();
        proof {
            reveal(Seq::filter);
            let next = agents_in(list).take(i + 1);
            assert(next.drop_last() =~= agents_in(list).take(i as int));
            assert(next.last() == agents_in(list)[i as int]);
        }
        if !same_agent(&item, agent) {
            agents_push(&mut kept, &item);
        }
        i += 1;
    }
    proof {
        assert(agents_in(list).take(len as int) =~= agents_in(list));
    }
    write_agents(env, key, &kept);
}

/// Whether `list` holds `record`.
fn holds_record(list: &soroban_sdk::Vec<BytesN<32>>, record: &BytesN<32>) -> (found: bool)
    requires
        only_records(*list),
    ensures
        found == records_in(*list).contains(record_bytes(*record)),
{
    let len = records_len(list);
    let mut i: u32 = 0;
    while i < len
        invariant
            i <= len,
            len == records_in(*list).len(),
            only_records(*list),
            forall|j: int| 0 <= j < i ==> records_in(*list)[j] != record_bytes(*record),
        decreases len - i,
    {
        let item = records_get(list, i).unwrap();
        if same_record(&item, record) {
            return true;
        }
        i += 1;
    }
    false
}

/// The operations of the relationship registry.
pub struct RelationshipContract;

impl RelationshipContract {
    /// Establishes the relationship from `patient` to `provider`: sets its
    /// flag and enters each of the two in the other's index, unless it is
    /// there.
    pub fn register_relationship(env: &mut Env, patient: Address, provider: Address)
        requires
            in_contract(*old(env)),
            agent_home(patient) == env_home(*old(env)),
            agent_home(provider) == env_home(*old(env)),
            registry_typed(instance_storage(*old(env))),
            has_room(
                providers_of(instance_storage(*old(env)), address_strkey(patient)),
                address_strkey(provider),
            ),
            has_room(
                patients_of(instance_storage(*old(env)), address_strkey(provider)),
                address_strkey(patient),
            ),
        ensures
            in_contract(*final(env)),
            env_home(*final(env)) == env_home(*old(env)),
            registry_typed(instance_storage(*final(env))),
            instance_storage(*final(env)) == registered(
                instance_storage(*old(env)),
                address_strkey(patient),
                address_strkey(provider),
            ),
    {
        proof {
            keys_are_distinct();
            registered_keeps_types(
                instance_storage(*old(env)),
                address_strkey(patient),
                address_strkey(provider),
            );
        }
        let key = relationship_key(env, &patient, &provider);
        write_flag(env, &key, true);
        let providers = providers_key(env, &patient);
        index_agent(env, &providers, &provider);
        let patients = patients_key(env, &provider);
        index_agent(env, &patients, &patient);
    }

    /// Grants `provider` access to `record_hash` of `patient` and enters the
    /// record in the list of the relationship, unless it is there. Rejects the
    /// call, and changes nothing, where the relationship is not established.
    pub fn add_record(
        env: &mut Env,
        patient: Address,
        provider: Address,
        record_hash: BytesN<32>,
    ) -> (outcome: Result<(), RegistryError>)
        requires
            in_contract(*old(env)),
            agent_home(patient) == env_home(*old(env)),
            agent_home(provider) == env_home(*old(env)),
            record_home(record_hash) == env_home(*old(env)),
            registry_typed(instance_storage(*old(env))),
            established(
                instance_storage(*old(env)),
                address_strkey(patient),
                address_strkey(provider),
            ) ==> has_room(
                records_of(
                    instance_storage(*old(env)),
                    address_strkey(patient),
                    address_strkey(provider),
                ),
                record_bytes(record_hash),
            ),
        ensures
            in_contract(*final(env)),
            env_home(*final(env)) == env_home(*old(env)),
            registry_typed(instance_storage(*final(env))),
            outcome is Ok <==> established(
                instance_storage(*old(env)),
                address_strkey(patient),
                address_strkey(provider),
            ),
            outcome is Ok ==> instance_storage(*final(env)) == record_added(
                instance_storage(*old(env)),
                address_strkey(patient),
                address_strkey(provider),
                record_bytes(record_hash),
            ),
            outcome is Err ==> outcome == Err::<(), RegistryError>(RegistryError::NoRelationship)
                && instance_storage(*final(env)) == instance_storage(*old(env)),
    {
        proof {
            keys_are_distinct();
            record_added_keeps_types(
                instance_storage(*old(env)),
                address_strkey(patient),
                address_strkey(provider),
                record_bytes(record_hash),
            );
        }
        let relationship = relationship_key(env, &patient, &provider);
        if read_flag(env, &relationship) != Some(true) {
            return Err(RegistryError::NoRelationship);
        }
        let grant = grant_key(env, &patient, &provider, &record_hash);
        write_flag(env, &grant, true);
        let index = records_key(env, &patient, &provider);
        let mut list = load_records(env, &index);
        if !holds_record(&list, &record_hash) {
            records_push(&mut list, &record_hash);
            write_records(env, &index, &list);
        }
        Ok(())
    }

    /// Whether `provider` may access `record_hash` of `patient`.
    pub fn has_access(env: &Env, patient: Address, provider: Address, record_hash: BytesN<32>) -> (access:
        bool)
        requires
            in_contract(*env),
            agent_home(patient) == env_home(*env),
            agent_home(provider) == env_home(*env),
            record_home(record_hash) == env_home(*env),
            registry_typed(instance_storage(*env)),
        ensures
            access == granted(
                instance_storage(*env),
                address_strkey(patient),
                address_strkey(provider),
                record_bytes(record_hash),
            ),
    {
        let grant = grant_key(env, &patient, &provider, &record_hash);
        match read_flag(env, &grant) {
            Some(flag) => flag,
            None => false,
        }
    }

    /// The records granted from `patient` to `provider`, in the order in
    /// which they were added.
    pub fn list_records(env: &Env, patient: Address, provider: Address) -> (list: soroban_sdk::Vec<
        BytesN<32>,
    >)
        requires
            in_contract(*env),
            agent_home(patient) == env_home(*env),
            agent_home(provider) == env_home(*env),
            registry_typed(instance_storage(*env)),
        ensures
            records_home(list) == env_home(*env),
            only_records(list),
            records_in(list) == records_of(
                instance_storage(*env),
                address_strkey(patient),
                address_strkey(provider),
            ),
    {
        let index = records_key(env, &patient, &provider);
        load_records(env, &index)
    }

    /// The providers of `patient`, in the order in which they were
    /// registered.
    pub fn list_patient_providers(env: &Env, patient: Address) -> (list: soroban_sdk::Vec<Address>)
        requires
            in_contract(*env),
            agent_home(patient) == env_home(*env),
            registry_typed(instance_storage(*env)),
        ensures
            agents_home(list) == env_home(*env),
            only_agents(list),
            agents_in(list) == providers_of(instance_storage(*env), address_strkey(patient)),
    {
        let index = providers_key(env, &patient);
        load_agents(env, &index)
    }

    /// The patients of `provider`, in the order in which they were
    /// registered.
    pub fn list_provider_patients(env: &Env, provider: Address) -> (list: soroban_sdk::Vec<Address>)
        requires
            in_contract(*env),
            agent_home(provider) == env_home(*env),
            registry_typed(instance_storage(*env)),
        ensures
            agents_home(list) == env_home(*env),
            only_agents(list),
            agents_in(list) == patients_of(instance_storage(*env), address_strkey(provider)),
    {
        let index = patients_key(env, &provider);
        load_agents(env, &index)
    }

    /// The providers of `agent`, then its patients. An agent that is in both
    /// lists comes twice.
    pub fn list_related_agents(env: &Env, agent: Address) -> (list: soroban_sdk::Vec<Address>)
        requires
            in_contract(*env),
            agent_home(agent) == env_home(*env),
            registry_typed(instance_storage(*env)),
            related_agents(instance_storage(*env), address_strkey(agent)).len() <= u32::MAX,
        ensures
            agents_home(list) == env_home(*env),
            only_agents(list),
            agents_in(list) == related_agents(instance_storage(*env), address_strkey(agent)),
    {
        let providers_index = providers_key(env, &agent);
        let providers = load_agents(env, &providers_index);
        let patients_index = patients_key(env, &agent);
        let patients = load_agents(env, &patients_index);
        let mut all = no_agents(env);
        let providers_len = agents_len(&providers);
        let mut i: u32 = 0;
        while i < providers_len
            invariant
                i <= providers_len,
                providers_len == agents_in(providers).len(),
                only_agents(providers),
                only_agents(all),
                agents_home(all) == agents_home(providers),
                agents_in(all) == agents_in(providers).take(i as int),
            decreases providers_len - i,
        {
            let item = agents_get(&providers, i).unwrap();
            agents_push(&mut all, &item);
            i += 1;
            proof {
                assert(agents_in(all) =~= agents_in(providers).take(i as int));
            }
        }
        proof {
            assert(agents_in(all) =~= agents_in(providers));
        }
        let patients_len = agents_len(&patients);
        let mut j: u32 = 0;
        while j < patients_len
            invariant
                j <= patients_len,
                patients_len == agents_in(patients).len(),
                only_agents(patients),
                only_agents(all),
                agents_home(all) == agents_home(patients),
                agents_in(providers).len() + agents_in(patients).len() <= u32::MAX,
                agents_in(all) == agents_in(providers) + agents_in(patients).take(j as int),
            decreases patients_len - j,
        {
            let item = agents_get(&patients, j).unwrap();
            agents_push(&mut all, &item);
            j += 1;
            proof {
                assert(agents_in(all) =~= agents_in(providers) + agents_in(patients).take(
                    j as int,
                ));
            }
        }
        proof {
            assert(agents_in(patients).take(patients_len as int) =~= agents_in(patients));
        }
        all
    }

    /// Whether the two agents are related, whichever of them is the patient.
    pub fn has_relationship(env: &Env, agent1: Address, agent2: Address) -> (found: bool)
        requires
            in_contract(*env),
            agent_home(agent1) == env_home(*env),
            agent_home(agent2) == env_home(*env),
            registry_typed(instance_storage(*env)),
        ensures
            found == related(
                instance_storage(*env),
                address_strkey(agent1),
                address_strkey(agent2),
            ),
    {
        let forth = relationship_key(env, &agent1, &agent2);
        let back = relationship_key(env, &agent2, &agent1);
        let has_forth = read_flag(env, &forth);
        let has_back = read_flag(env, &back);
        has_forth == Some(true) || has_back == Some(true)
    }

    /// Removes the relationship from `patient` to `provider`: clears its flag
    /// and stores each of the two indices again without its entry. Grants and
    /// the list of records stay as they are.
    pub fn remove_relationship(env: &mut Env, patient: Address, provider: Address)
        requires
            in_contract(*old(env)),
            agent_home(patient) == env_home(*old(env)),
            agent_home(provider) == env_home(*old(env)),
            registry_typed(instance_storage(*old(env))),
        ensures
            in_contract(*final(env)),
            env_home(*final(env)) == env_home(*old(env)),
            registry_typed(instance_storage(*final(env))),
            instance_storage(*final(env)) == removed(
                instance_storage(*old(env)),
                address_strkey(patient),
                address_strkey(provider),
            ),
    {
        proof {
            keys_are_distinct();
            removed_keeps_types(
                instance_storage(*old(env)),
                address_strkey(patient),
                address_strkey(provider),
            );
        }
        let key = relationship_key(env, &patient, &provider);
        erase(env, &key);
        let providers = providers_key(env, &patient);
        unindex_agent(env, &providers, &provider);
        let patients = patients_key(env, &provider);
        unindex_agent(env, &patients, &patient);
    }
}

} // verus!
