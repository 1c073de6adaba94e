use access_registry::keys::{
    grant_key, patients_key, providers_key, records_key, relationship_key, role_key,
};
use access_registry::{RegistryError, RelationshipContract};
use soroban_sdk::testutils::{Address as _, ContractFunctionSet, EnvTestConfig};
use soroban_sdk::{Address, BytesN, Env, Symbol, TryFromVal, Val};

/// A deployed contract without functions: it is there for its storage.
struct Deployed;

impl ContractFunctionSet for Deployed {
    fn call(&self, _func: &str, _env: Env, _args: &[Val]) -> Option<Val> {
        None
    }
}

/// A registry in an environment of its own; every call is one invocation.
struct Registry {
    env: Env,
    id: Address,
}

impl Registry {
    fn new() -> Registry {
        let env = Env::new_with_config(EnvTestConfig {
            capture_snapshot_at_drop: false,
        });
        let id = env.register(Deployed, ());
        Registry { env, id }
    }

    fn agent(&self) -> Address {
        Address::generate(&self.env)
    }

    fn record(&self, byte: u8) -> BytesN<32> {
        BytesN::from_array(&self.env, &[byte; 32])
    }

    fn register(&self, patient: &Address, provider: &Address) {
        let mut env = self.env.clone();
        self.env.as_contract(&self.id, || {
            RelationshipContract::register_relationship(
                &mut env,
                patient.clone(),
                provider.clone(),
            )
        })
    }

    fn remove(&self, patient: &Address, provider: &Address) {
        let mut env = self.env.clone();
        self.env.as_contract(&self.id, || {
            RelationshipContract::remove_relationship(&mut env, patient.clone(), provider.clone())
        })
    }

    fn add_record(
        &self,
        patient: &Address,
        provider: &Address,
        record: &BytesN<32>,
    ) -> Result<(), RegistryError> {
        let mut env = self.env.clone();
        self.env.as_contract(&self.id, || {
            RelationshipContract::add_record(
                &mut env,
                patient.clone(),
                provider.clone(),
                record.clone(),
            )
        })
    }

    fn has_access(&self, patient: &Address, provider: &Address, record: &BytesN<32>) -> bool {
        self.env.as_contract(&self.id, || {
            RelationshipContract::has_access(
                &self.env,
                patient.clone(),
                provider.clone(),
                record.clone(),
            )
        })
    }

    fn has_relationship(&self, a: &Address, b: &Address) -> bool {
        self.env.as_contract(&self.id, || {
            RelationshipContract::has_relationship(&self.env, a.clone(), b.clone())
        })
    }

    fn records(&self, patient: &Address, provider: &Address) -> Vec<BytesN<32>> {
        self.env.as_contract(&self.id, || {
            RelationshipContract::list_records(&self.env, patient.clone(), provider.clone())
                .iter()
                .collect()
        })
    }

    fn providers(&self, patient: &Address) -> Vec<Address> {
        self.env.as_contract(&self.id, || {
            RelationshipContract::list_patient_providers(&self.env, patient.clone())
                .iter()
                .collect()
        })
    }

    fn patients(&self, provider: &Address) -> Vec<Address> {
        self.env.as_contract(&self.id, || {
            RelationshipContract::list_provider_patients(&self.env, provider.clone())
                .iter()
                .collect()
        })
    }

    fn related(&self, agent: &Address) -> Vec<Address> {
        self.env.as_contract(&self.id, || {
            RelationshipContract::list_related_agents(&self.env, agent.clone())
                .iter()
                .collect()
        })
    }
}

#[test]
fn nothing_is_related_before_registration() {
    let r = Registry::new();
    let (p, q) = (r.agent(), r.agent());
    assert!(!r.has_relationship(&p, &q));
    assert!(!r.has_relationship(&q, &p));
    assert_eq!(r.providers(&p), vec![]);
    assert_eq!(r.patients(&q), vec![]);
    assert_eq!(r.related(&p), vec![]);
}

#[test]
fn registration_relates_and_indexes_both_sides() {
    let r = Registry::new();
    let (p, q) = (r.agent(), r.agent());
    r.register(&p, &q);
    assert!(r.has_relationship(&p, &q));
    assert_eq!(r.providers(&p), vec![q.clone()]);
    assert_eq!(r.patients(&q), vec![p.clone()]);
}

#[test]
fn registering_twice_is_registering_once() {
    let r = Registry::new();
    let (p, q) = (r.agent(), r.agent());
    r.register(&p, &q);
    let providers = r.providers(&p);
    let patients = r.patients(&q);
    r.register(&p, &q);
    assert_eq!(r.providers(&p), providers);
    assert_eq!(r.patients(&q), patients);
    assert_eq!(r.providers(&p).len(), 1);
    assert_eq!(r.patients(&q).len(), 1);
    assert!(r.has_relationship(&p, &q));
}

#[test]
fn indices_keep_the_order_of_registration() {
    let r = Registry::new();
    let p = r.agent();
    let (q1, q2, q3) = (r.agent(), r.agent(), r.agent());
    r.register(&p, &q2);
    r.register(&p, &q1);
    r.register(&p, &q3);
    r.register(&p, &q1);
    assert_eq!(r.providers(&p), vec![q2.clone(), q1.clone(), q3.clone()]);
    assert_eq!(r.patients(&q1), vec![p.clone()]);
    assert_eq!(r.patients(&q2), vec![p.clone()]);
    assert_eq!(r.patients(&q3), vec![p.clone()]);
}

#[test]
fn record_without_relationship_is_rejected() {
    let r = Registry::new();
    let (p, q) = (r.agent(), r.agent());
    let rec = r.record(7);
    assert_eq!(r.add_record(&p, &q, &rec), Err(RegistryError::NoRelationship));
    assert!(!r.has_access(&p, &q, &rec));
    assert_eq!(r.records(&p, &q), Vec::<BytesN<32>>::new());
}

#[test]
fn record_under_the_reverse_relationship_is_rejected() {
    let r = Registry::new();
    let (p, q) = (r.agent(), r.agent());
    let rec = r.record(7);
    r.register(&q, &p);
    assert_eq!(r.add_record(&p, &q, &rec), Err(RegistryError::NoRelationship));
    assert!(!r.has_access(&p, &q, &rec));
    assert_eq!(r.add_record(&q, &p, &rec), Ok(()));
    assert!(r.has_access(&q, &p, &rec));
    assert!(!r.has_access(&p, &q, &rec));
}

#[test]
fn added_record_is_granted_and_listed_once() {
    let r = Registry::new();
    let (p, q) = (r.agent(), r.agent());
    let rec = r.record(1);
    r.register(&p, &q);
    assert_eq!(r.add_record(&p, &q, &rec), Ok(()));
    assert!(r.has_access(&p, &q, &rec));
    assert_eq!(r.records(&p, &q), vec![rec.clone()]);
    assert_eq!(r.add_record(&p, &q, &rec), Ok(()));
    assert!(r.has_access(&p, &q, &rec));
    assert_eq!(r.records(&p, &q), vec![rec.clone()]);
}

#[test]
fn records_keep_the_order_in_which_they_were_added() {
    let r = Registry::new();
    let (p, q) = (r.agent(), r.agent());
    let (a, b, c) = (r.record(3), r.record(1), r.record(2));
    r.register(&p, &q);
    assert_eq!(r.add_record(&p, &q, &a), Ok(()));
    assert_eq!(r.add_record(&p, &q, &b), Ok(()));
    assert_eq!(r.add_record(&p, &q, &a), Ok(()));
    assert_eq!(r.add_record(&p, &q, &c), Ok(()));
    assert_eq!(r.records(&p, &q), vec![a.clone(), b.clone(), c.clone()]);
}

#[test]
fn access_is_for_one_record_and_one_provider() {
    let r = Registry::new();
    let (p, q, q2) = (r.agent(), r.agent(), r.agent());
    let (rec, never) = (r.record(1), r.record(2));
    r.register(&p, &q);
    r.register(&p, &q2);
    assert_eq!(r.add_record(&p, &q, &rec), Ok(()));
    assert!(r.has_access(&p, &q, &rec));
    assert!(!r.has_access(&p, &q, &never));
    assert!(!r.has_access(&p, &q2, &rec));
    assert!(!r.has_access(&q, &p, &rec));
    assert_eq!(r.records(&p, &q2), Vec::<BytesN<32>>::new());
}

#[test]
fn removal_unlinks_and_keeps_grants() {
    let r = Registry::new();
    let (p, q) = (r.agent(), r.agent());
    let rec = r.record(9);
    r.register(&p, &q);
    assert_eq!(r.add_record(&p, &q, &rec), Ok(()));
    r.remove(&p, &q);
    assert!(!r.has_relationship(&p, &q));
    assert_eq!(r.providers(&p), vec![]);
    assert_eq!(r.patients(&q), vec![]);
    assert!(r.has_access(&p, &q, &rec));
    assert_eq!(r.records(&p, &q), vec![rec.clone()]);
}

#[test]
fn record_after_removal_is_rejected() {
    let r = Registry::new();
    let (p, q) = (r.agent(), r.agent());
    let (old, new) = (r.record(1), r.record(2));
    r.register(&p, &q);
    assert_eq!(r.add_record(&p, &q, &old), Ok(()));
    r.remove(&p, &q);
    assert_eq!(r.add_record(&p, &q, &new), Err(RegistryError::NoRelationship));
    assert!(!r.has_access(&p, &q, &new));
    assert_eq!(r.records(&p, &q), vec![old.clone()]);
}

#[test]
fn registering_again_finds_the_old_grants() {
    let r = Registry::new();
    let (p, q) = (r.agent(), r.agent());
    let rec = r.record(4);
    r.register(&p, &q);
    assert_eq!(r.add_record(&p, &q, &rec), Ok(()));
    r.remove(&p, &q);
    r.register(&p, &q);
    assert!(r.has_relationship(&p, &q));
    assert!(r.has_access(&p, &q, &rec));
    assert_eq!(r.records(&p, &q), vec![rec.clone()]);
    assert_eq!(r.providers(&p), vec![q.clone()]);
    assert_eq!(r.patients(&q), vec![p.clone()]);
}

#[test]
fn removal_keeps_the_other_entries_in_order() {
    let r = Registry::new();
    let p = r.agent();
    let (q1, q2, q3) = (r.agent(), r.agent(), r.agent());
    r.register(&p, &q1);
    r.register(&p, &q2);
    r.register(&p, &q3);
    r.remove(&p, &q2);
    assert_eq!(r.providers(&p), vec![q1.clone(), q3.clone()]);
    assert_eq!(r.patients(&q1), vec![p.clone()]);
    assert_eq!(r.patients(&q2), vec![]);
    assert_eq!(r.patients(&q3), vec![p.clone()]);
    assert!(r.has_relationship(&p, &q1));
    assert!(!r.has_relationship(&p, &q2));
    assert!(r.has_relationship(&p, &q3));
}

#[test]
fn removal_of_what_was_never_registered_changes_no_answer() {
    let r = Registry::new();
    let (p, q, other) = (r.agent(), r.agent(), r.agent());
    r.register(&p, &other);
    r.remove(&p, &q);
    r.remove(&p, &q);
    assert!(!r.has_relationship(&p, &q));
    assert_eq!(r.providers(&p), vec![other.clone()]);
    assert_eq!(r.patients(&q), vec![]);
    assert_eq!(r.patients(&other), vec![p.clone()]);
}

#[test]
fn removal_stores_the_emptied_indices() {
    let r = Registry::new();
    let (p, q) = (r.agent(), r.agent());
    let stored = |key: &soroban_sdk::Vec<Val>| {
        r.env
            .as_contract(&r.id, || r.env.storage().instance().has(key))
    };
    assert!(!stored(&providers_key(&r.env, &p)));
    assert!(!stored(&relationship_key(&r.env, &p, &q)));
    r.remove(&p, &q);
    assert!(stored(&providers_key(&r.env, &p)));
    assert!(stored(&patients_key(&r.env, &q)));
    assert!(!stored(&relationship_key(&r.env, &p, &q)));
    assert!(!stored(&providers_key(&r.env, &q)));
    r.register(&p, &q);
    assert!(stored(&relationship_key(&r.env, &p, &q)));
    assert!(!stored(&records_key(&r.env, &p, &q)));
    assert!(!stored(&grant_key(&r.env, &p, &q, &r.record(1))));
    assert_eq!(r.add_record(&p, &q, &r.record(1)), Ok(()));
    assert!(stored(&records_key(&r.env, &p, &q)));
    assert!(stored(&grant_key(&r.env, &p, &q, &r.record(1))));
    assert!(!stored(&grant_key(&r.env, &p, &q, &r.record(2))));
    r.remove(&p, &q);
    assert!(!stored(&relationship_key(&r.env, &p, &q)));
    assert!(stored(&providers_key(&r.env, &p)));
    assert_eq!(r.providers(&p), vec![]);
}

#[test]
fn related_agents_are_providers_then_patients() {
    let r = Registry::new();
    let a = r.agent();
    let (x, y, z) = (r.agent(), r.agent(), r.agent());
    r.register(&a, &x);
    r.register(&y, &a);
    r.register(&a, &z);
    assert_eq!(r.related(&a), vec![x.clone(), z.clone(), y.clone()]);
}

#[test]
fn agent_of_both_halves_is_listed_twice() {
    let r = Registry::new();
    let (a, x) = (r.agent(), r.agent());
    r.register(&a, &x);
    r.register(&x, &a);
    assert_eq!(r.related(&a), vec![x.clone(), x.clone()]);
    assert_eq!(r.related(&x), vec![a.clone(), a.clone()]);
}

#[test]
fn relationship_check_ignores_direction() {
    let r = Registry::new();
    let (a, b) = (r.agent(), r.agent());
    r.register(&a, &b);
    assert!(r.has_relationship(&a, &b));
    assert!(r.has_relationship(&b, &a));
    assert_eq!(r.providers(&b), vec![]);
    assert_eq!(r.patients(&a), vec![]);
    assert_eq!(r.providers(&a), vec![b.clone()]);
}

#[test]
fn removal_of_one_direction_leaves_the_other() {
    let r = Registry::new();
    let (a, b) = (r.agent(), r.agent());
    r.register(&a, &b);
    r.register(&b, &a);
    r.remove(&a, &b);
    assert!(r.has_relationship(&a, &b));
    assert!(r.has_relationship(&b, &a));
    assert_eq!(r.providers(&a), vec![]);
    assert_eq!(r.providers(&b), vec![a.clone()]);
    assert_eq!(r.patients(&a), vec![b.clone()]);
    assert_eq!(r.patients(&b), vec![]);
    r.remove(&b, &a);
    assert!(!r.has_relationship(&a, &b));
}

#[test]
fn agent_may_be_its_own_provider() {
    let r = Registry::new();
    let a = r.agent();
    r.register(&a, &a);
    assert!(r.has_relationship(&a, &a));
    assert_eq!(r.providers(&a), vec![a.clone()]);
    assert_eq!(r.patients(&a), vec![a.clone()]);
    assert_eq!(r.related(&a), vec![a.clone(), a.clone()]);
    r.remove(&a, &a);
    assert!(!r.has_relationship(&a, &a));
    assert_eq!(r.related(&a), vec![]);
}

#[test]
fn rejection_has_its_reason() {
    assert_eq!(RegistryError::NoRelationship.reason(), "No relationship established");
}

#[test]
fn same_identifiers_give_the_same_key() {
    let r = Registry::new();
    let (p, q) = (r.agent(), r.agent());
    let rec = r.record(5);
    assert_eq!(relationship_key(&r.env, &p, &q), relationship_key(&r.env, &p, &q));
    assert_eq!(providers_key(&r.env, &p), providers_key(&r.env, &p));
    assert_eq!(patients_key(&r.env, &q), patients_key(&r.env, &q));
    assert_eq!(grant_key(&r.env, &p, &q, &rec), grant_key(&r.env, &p, &q, &rec));
    assert_eq!(records_key(&r.env, &p, &q), records_key(&r.env, &p, &q));
    assert_eq!(role_key(&r.env, &p), role_key(&r.env, &p));
}

#[test]
fn different_identifiers_or_namespaces_give_different_keys() {
    let r = Registry::new();
    let (p, q) = (r.agent(), r.agent());
    let (rec, other) = (r.record(5), r.record(6));
    assert_ne!(relationship_key(&r.env, &p, &q), relationship_key(&r.env, &q, &p));
    assert_ne!(relationship_key(&r.env, &p, &q), records_key(&r.env, &p, &q));
    assert_ne!(providers_key(&r.env, &p), patients_key(&r.env, &p));
    assert_ne!(providers_key(&r.env, &p), providers_key(&r.env, &q));
    assert_ne!(providers_key(&r.env, &p), role_key(&r.env, &p));
    assert_ne!(grant_key(&r.env, &p, &q, &rec), grant_key(&r.env, &p, &q, &other));
    assert_ne!(grant_key(&r.env, &p, &q, &rec), grant_key(&r.env, &q, &p, &rec));
}

#[test]
fn key_is_the_tag_and_the_identifiers_in_order() {
    let r = Registry::new();
    let (p, q) = (r.agent(), r.agent());
    let rec = r.record(5);
    let key = grant_key(&r.env, &p, &q, &rec);
    assert_eq!(key.len(), 4);
    assert_eq!(
        Symbol::try_from_val(&r.env, &key.get(0).unwrap()).unwrap(),
        Symbol::new(&r.env, "REC")
    );
    assert_eq!(Address::try_from_val(&r.env, &key.get(1).unwrap()).unwrap(), p);
    assert_eq!(Address::try_from_val(&r.env, &key.get(2).unwrap()).unwrap(), q);
    assert_eq!(BytesN::<32>::try_from_val(&r.env, &key.get(3).unwrap()).unwrap(), rec);
    let tags = [
        (relationship_key(&r.env, &p, &q), "REL", 3),
        (providers_key(&r.env, &p), "PPIDX", 2),
        (patients_key(&r.env, &p), "PRIDX", 2),
        (records_key(&r.env, &p, &q), "IDX", 3),
    ];
    for (key, tag, len) in tags {
        assert_eq!(key.len(), len);
        assert_eq!(
            Symbol::try_from_val(&r.env, &key.get(0).unwrap()).unwrap(),
            Symbol::new(&r.env, tag)
        );
    }
    let role = role_key(&r.env, &p);
    assert_eq!(role.len(), 1);
    assert_eq!(Address::try_from_val(&r.env, &role.get(0).unwrap()).unwrap(), p);
}
