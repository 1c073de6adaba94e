use access_registry::AgentContract;
use soroban_sdk::testutils::{Address as _, ContractFunctionSet, EnvTestConfig};
use soroban_sdk::{Address, Env, Symbol, Val};

/// A deployed contract without functions: it is there for its storage.
struct RoleStore;

impl ContractFunctionSet for RoleStore {
    fn call(&self, _func: &str, _env: Env, _args: &[Val]) -> Option<Val> {
        None
    }
}

/// A role registry in an environment of its own; every call is one
/// invocation.
struct Roles {
    env: Env,
    id: Address,
}

impl Roles {
    fn new() -> Roles {
        let env = Env::new_with_config(EnvTestConfig {
            capture_snapshot_at_drop: false,
        });
        let id = env.register(RoleStore, ());
        Roles { env, id }
    }

    fn agent(&self) -> Address {
        Address::generate(&self.env)
    }

    fn symbol(&self, text: &str) -> Symbol {
        Symbol::new(&self.env, text)
    }

    fn register(&self, agent: &Address, role: &str) {
        let mut env = self.env.clone();
        let role = self.symbol(role);
        self.env.as_contract(&self.id, || {
            AgentContract::register_agent(&mut env, agent.clone(), role)
        })
    }

    fn delete(&self, agent: &Address) {
        let mut env = self.env.clone();
        self.env
            .as_contract(&self.id, || AgentContract::delete_agent(&mut env, agent.clone()))
    }

    fn role(&self, agent: &Address) -> Symbol {
        self.env
            .as_contract(&self.id, || AgentContract::get_role(&self.env, agent.clone()))
    }

    fn is_patient(&self, agent: &Address) -> bool {
        self.env
            .as_contract(&self.id, || AgentContract::is_patient(&self.env, agent.clone()))
    }

    fn is_provider(&self, agent: &Address) -> bool {
        self.env
            .as_contract(&self.id, || AgentContract::is_provider(&self.env, agent.clone()))
    }
}

#[test]
fn role_is_the_one_registered() {
    let r = Roles::new();
    let (a, b) = (r.agent(), r.agent());
    r.register(&a, "PAT");
    r.register(&b, "PRO");
    assert_eq!(r.role(&a), r.symbol("PAT"));
    assert_eq!(r.role(&b), r.symbol("PRO"));
}

#[test]
fn last_role_written_wins() {
    let r = Roles::new();
    let a = r.agent();
    r.register(&a, "PAT");
    r.register(&a, "PRO");
    assert_eq!(r.role(&a), r.symbol("PRO"));
    assert!(r.is_provider(&a));
    assert!(!r.is_patient(&a));
}

#[test]
fn patient_is_a_patient_and_no_provider() {
    let r = Roles::new();
    let a = r.agent();
    r.register(&a, "PAT");
    assert!(r.is_patient(&a));
    assert!(!r.is_provider(&a));
}

#[test]
fn provider_is_a_provider_and_no_patient() {
    let r = Roles::new();
    let a = r.agent();
    r.register(&a, "PRO");
    assert!(r.is_provider(&a));
    assert!(!r.is_patient(&a));
}

#[test]
fn agent_without_role_passes_both_checks() {
    let r = Roles::new();
    let a = r.agent();
    assert!(r.is_patient(&a));
    assert!(r.is_provider(&a));
}

#[test]
fn other_role_is_neither_patient_nor_provider() {
    let r = Roles::new();
    let (a, b) = (r.agent(), r.agent());
    r.register(&a, "ADMIN");
    r.register(&b, "caregiver_of_the_ward");
    assert!(!r.is_patient(&a));
    assert!(!r.is_provider(&a));
    assert!(!r.is_patient(&b));
    assert!(!r.is_provider(&b));
    assert_eq!(r.role(&b), r.symbol("caregiver_of_the_ward"));
}

#[test]
fn deleted_agent_has_no_role() {
    let r = Roles::new();
    let (a, b) = (r.agent(), r.agent());
    r.register(&a, "PRO");
    r.register(&b, "PAT");
    assert!(!r.is_patient(&a));
    r.delete(&a);
    assert!(r.is_patient(&a));
    assert!(r.is_provider(&a));
    assert_eq!(r.role(&b), r.symbol("PAT"));
    r.delete(&a);
    assert!(r.is_patient(&a));
}

#[test]
fn roles_of_agents_are_separate() {
    let r = Roles::new();
    let (a, b) = (r.agent(), r.agent());
    r.register(&a, "PRO");
    assert!(r.is_patient(&b));
    assert!(r.is_provider(&b));
    assert!(!r.is_patient(&a));
}
