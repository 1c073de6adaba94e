//! The role registry: one role per agent, the last one written.

use crate::host::{
    address_strkey, agent_home, env_home, erase, in_contract, instance_storage, new_symbol,
    read_role, same_symbol, symbol_fits, symbol_text, write_role,
};
use crate::keys::role_key;
use crate::model::{patient_role, provider_role, role_of, role_path, roles_typed, Stored};
use soroban_sdk::{Address, Env, Symbol};
use vstd::prelude::*;

verus! {

/// The operations of the role registry.
pub struct AgentContract;

impl AgentContract {
    /// Gives `agent` the role `role`, in place of any role it had.
    pub fn register_agent(env: &mut Env, agent: Address, role: Symbol)
        requires
            in_contract(*old(env)),
            agent_home(agent) == env_home(*old(env)),
            symbol_fits(role, *old(env)),
        ensures
            in_contract(*final(env)),
            env_home(*final(env)) == env_home(*old(env)),
            instance_storage(*final(env)) == instance_storage(*old(env)).insert(
                role_path(address_strkey(agent)),
                Stored::Role(symbol_text(role)),
            ),
            roles_typed(instance_storage(*old(env))) ==> roles_typed(instance_storage(*final(env))),
    {
        let key = role_key(env, &agent);
        write_role(env, &key, &role);
    }

    /// The role of `agent`, which must have one.
    pub fn get_role(env: &Env, agent: Address) -> (role: Symbol)
        requires
            in_contract(*env),
            agent_home(agent) == env_home(*env),
            role_of(instance_storage(*env), address_strkey(agent)) is Some,
        ensures
            symbol_fits(role, *env),
            Some(symbol_text(role)) == role_of(instance_storage(*env), address_strkey(agent)),
    {
        let key = role_key(env, &agent);
        read_role(env, &key).unwrap()
    }

    /// Whether `agent` is a patient: its role is `PAT`, or it has no role.
    pub fn is_patient(env: &Env, agent: Address) -> (yes: bool)
        requires
            in_contract(*env),
            agent_home(agent) == env_home(*env),
            roles_typed(instance_storage(*env)),
        ensures
            yes == (role_of(instance_storage(*env), address_strkey(agent)) is None || role_of(
                instance_storage(*env),
                address_strkey(agent),
            ) == Some(patient_role())),
    {
        proof {
            reveal_strlit("PAT");
        }
        let key = role_key(env, &agent);
        let patient = new_symbol(env, "PAT");
        match read_role(env, &key) {
            Some(role) => same_symbol(&role, &patient),
            None => true,
        }
    }

    /// Whether `agent` is a provider: its role is `PRO`, or it has no role.
    pub fn is_provider(env: &Env, agent: Address) -> (yes: bool)
        requires
            in_contract(*env),
            agent_home(agent) == env_home(*env),
            roles_typed(instance_storage(*env)),
        ensures
            yes == (role_of(instance_storage(*env), address_strkey(agent)) is None || role_of(
                instance_storage(*env),
                address_strkey(agent),
            ) == Some(provider_role())),
    {
        proof {
            reveal_strlit("PRO");
        }
        let key = role_key(env, &agent);
        let provider = new_symbol(env, "PRO");
        match read_role(env, &key) {
            Some(role) => same_symbol(&role, &provider),
            None => true,
        }
    }

    /// Takes the role of `agent` away.
    pub fn delete_agent(env: &mut Env, agent: Address)
        requires
            in_contract(*old(env)),
            agent_home(agent) == env_home(*old(env)),
        ensures
            in_contract(*final(env)),
            env_home(*final(env)) == env_home(*old(env)),
            instance_storage(*final(env)) == instance_storage(*old(env)).remove(
                role_path(address_strkey(agent)),
            ),
            roles_typed(instance_storage(*old(env))) ==> roles_typed(instance_storage(*final(env))),
    {
        let key = role_key(env, &agent);
        erase(env, &key);
    }
}

} // verus!
