//! The mathematical model of the registry.
//!
//! A contract instance keeps a map from composite keys to values. This module
//! describes that map with `Seq`, `Map` and plain values: what a key is made
//! of, what each namespace holds, what every query reads from the map and what
//! every operation turns the map into. The executable code states its
//! contracts over these functions, and the laws of the registry are proved
//! about them.

use vstd::prelude::*;

verus! {

/// An agent, as the text of its address.
pub type AgentId = Seq<char>;

/// A record identifier, as its 32 bytes.
pub type RecordId = Seq<u8>;

/// One component of a composite key.
pub enum KeyPart {
    /// The namespace tag, as its text.
    Tag(Seq<char>),
    /// An agent.
    Agent(AgentId),
    /// A record identifier.
    Record(RecordId),
}

/// A composite key: its components in order.
pub type StoreKey = Seq<KeyPart>;

/// A stored value, by what it can be read as. Each value of the host reads
/// as one of these and no other. The host keeps one empty vector, whatever
/// items it was made for: it reads as `Agents` of the empty sequence.
pub enum Stored {
    /// A boolean.
    Flag(bool),
    /// A vector whose items are all addresses; the empty vector too.
    Agents(Seq<AgentId>),
    /// A vector of at least one item, whose items are all 32-byte strings.
    Records(Seq<RecordId>),
    /// A symbol, as its text.
    Role(Seq<char>),
    /// A value of any other shape.
    Other,
}

/// The contents of one contract instance's storage.
pub type Ledger = Map<StoreKey, Stored>;

/// Tag of the namespace of relationship flags.
pub open spec fn relationship_tag() -> Seq<char> {
    "REL"@
}

/// Tag of the namespace that maps a patient to its providers.
pub open spec fn providers_tag() -> Seq<char> {
    "PPIDX"@
}

/// Tag of the namespace that maps a provider to its patients.
pub open spec fn patients_tag() -> Seq<char> {
    "PRIDX"@
}

/// Tag of the namespace of record grants.
pub open spec fn grant_tag() -> Seq<char> {
    "REC"@
}

/// Tag of the namespace that maps a relationship to its records.
pub open spec fn records_tag() -> Seq<char> {
    "IDX"@
}

/// Text of the role of a patient.
pub open spec fn patient_role() -> Seq<char> {
    "PAT"@
}

/// Text of the role of a provider.
pub open spec fn provider_role() -> Seq<char> {
    "PRO"@
}

/// Key of the flag of the relationship from `patient` to `provider`.
pub open spec fn relationship_path(patient: AgentId, provider: AgentId) -> StoreKey {
    seq![KeyPart::Tag(relationship_tag()), KeyPart::Agent(patient), KeyPart::Agent(provider)]
}

/// Key of the list of providers of `patient`.
pub open spec fn providers_path(patient: AgentId) -> StoreKey {
    seq![KeyPart::Tag(providers_tag()), KeyPart::Agent(patient)]
}

/// Key of the list of patients of `provider`.
pub open spec fn patients_path(provider: AgentId) -> StoreKey {
    seq![KeyPart::Tag(patients_tag()), KeyPart::Agent(provider)]
}

/// Key of the flag that grants `provider` access to `record` of `patient`.
pub open spec fn grant_path(patient: AgentId, provider: AgentId, record: RecordId) -> StoreKey {
    seq![
        KeyPart::Tag(grant_tag()),
        KeyPart::Agent(patient),
        KeyPart::Agent(provider),
        KeyPart::Record(record),
    ]
}

/// Key of the list of records granted from `patient` to `provider`.
pub open spec fn records_path(patient: AgentId, provider: AgentId) -> StoreKey {
    seq![KeyPart::Tag(records_tag()), KeyPart::Agent(patient), KeyPart::Agent(provider)]
}

/// Key of the role of `agent` in the role registry.
pub open spec fn role_path(agent: AgentId) -> StoreKey {
    seq![KeyPart::Agent(agent)]
}

/// The boolean stored at `key`, if one is.
pub open spec fn flag_at(s: Ledger, key: StoreKey) -> Option<bool> {
    match s.get(key) {
        Some(Stored::Flag(b)) => Some(b),
        _ => None,
    }
}

/// The agents stored at `key`; none where nothing is stored.
pub open spec fn agents_at(s: Ledger, key: StoreKey) -> Seq<AgentId> {
    match s.get(key) {
        Some(Stored::Agents(list)) => list,
        _ => Seq::empty(),
    }
}

/// The records stored at `key`; none where nothing is stored.
pub open spec fn records_at(s: Ledger, key: StoreKey) -> Seq<RecordId> {
    match s.get(key) {
        Some(Stored::Records(list)) => list,
        _ => Seq::empty(),
    }
}

/// The role stored at `key`, if one is.
pub open spec fn role_at(s: Ledger, key: StoreKey) -> Option<Seq<char>> {
    match s.get(key) {
        Some(Stored::Role(text)) => Some(text),
        _ => None,
    }
}

/// Nothing is stored at `key`, or a boolean is.
pub open spec fn flag_or_nothing(s: Ledger, key: StoreKey) -> bool {
    s.contains_key(key) ==> s[key] is Flag
}

/// Nothing is stored at `key`, or a list of agents is.
pub open spec fn agents_or_nothing(s: Ledger, key: StoreKey) -> bool {
    s.contains_key(key) ==> s[key] is Agents
}

/// Nothing is stored at `key`, or a list of records is.
pub open spec fn records_or_nothing(s: Ledger, key: StoreKey) -> bool {
    s.contains_key(key) ==> s[key] is Records
}

/// Nothing is stored at `key`, or a role is.
pub open spec fn role_or_nothing(s: Ledger, key: StoreKey) -> bool {
    s.contains_key(key) ==> s[key] is Role
}

/// Every key of the relationship registry holds a value of its namespace's
/// shape, or nothing.
pub open spec fn registry_typed(s: Ledger) -> bool {
    &&& forall|p: AgentId, q: AgentId| flag_or_nothing(s, #[trigger] relationship_path(p, q))
    &&& forall|p: AgentId| agents_or_nothing(s, #[trigger] providers_path(p))
    &&& forall|q: AgentId| agents_or_nothing(s, #[trigger] patients_path(q))
    &&& forall|p: AgentId, q: AgentId, r: RecordId|
        flag_or_nothing(s, #[trigger] grant_path(p, q, r))
    &&& forall|p: AgentId, q: AgentId| records_or_nothing(s, #[trigger] records_path(p, q))
}

/// Every key of the role registry holds a role, or nothing.
pub open spec fn roles_typed(s: Ledger) -> bool {
    forall|a: AgentId| role_or_nothing(s, #[trigger] role_path(a))
}

/// The relationship from `patient` to `provider` is established.
pub open spec fn established(s: Ledger, patient: AgentId, provider: AgentId) -> bool {
    s.get(relationship_path(patient, provider)) == Some(Stored::Flag(true))
}

/// The two agents are related, whichever of them is the patient.
pub open spec fn related(s: Ledger, a: AgentId, b: AgentId) -> bool {
    established(s, a, b) || established(s, b, a)
}

/// `provider` may access `record` of `patient`.
pub open spec fn granted(s: Ledger, patient: AgentId, provider: AgentId, record: RecordId) -> bool {
    s.get(grant_path(patient, provider, record)) == Some(Stored::Flag(true))
}

/// The providers of `patient`, in the order in which they were registered.
pub open spec fn providers_of(s: Ledger, patient: AgentId) -> Seq<AgentId> {
    agents_at(s, providers_path(patient))
}

/// The patients of `provider`, in the order in which they were registered.
pub open spec fn patients_of(s: Ledger, provider: AgentId) -> Seq<AgentId> {
    agents_at(s, patients_path(provider))
}

/// The records granted from `patient` to `provider`, in the order in which
/// they were added.
pub open spec fn records_of(s: Ledger, patient: AgentId, provider: AgentId) -> Seq<RecordId> {
    records_at(s, records_path(patient, provider))
}

/// The providers of `agent`, then its patients.
pub open spec fn related_agents(s: Ledger, agent: AgentId) -> Seq<AgentId> {
    providers_of(s, agent) + patients_of(s, agent)
}

/// The role of `agent`, if one is registered.
pub open spec fn role_of(s: Ledger, agent: AgentId) -> Option<Seq<char>> {
    role_at(s, role_path(agent))
}

/// `list` without every occurrence of `agent`, the rest in order.
pub open spec fn without(list: Seq<AgentId>, agent: AgentId) -> Seq<AgentId> {
    list.filter(|other: AgentId| other != agent)
}

/// `list` can take `entry`: it has it already, or is shorter than the longest
/// vector that a host holds.
pub open spec fn has_room<A>(list: Seq<A>, entry: A) -> bool {
    list.contains(entry) || list.len() < u32::MAX
}

/// `list` with `entry` as its last item, unless the list has it.
pub open spec fn with_entry<A>(list: Seq<A>, entry: A) -> Seq<A> {
    if list.contains(entry) {
        list
    } else {
        list.push(entry)
    }
}

/// `s` with `agent` appended to the list at `key`, unless the list has it;
/// nothing is stored where it has it.
pub open spec fn with_agent(s: Ledger, key: StoreKey, agent: AgentId) -> Ledger {
    if agents_at(s, key).contains(agent) {
        s
    } else {
        s.insert(key, Stored::Agents(agents_at(s, key).push(agent)))
    }
}

/// `s` with the list at `key` replaced by itself without `agent`.
pub open spec fn without_agent(s: Ledger, key: StoreKey, agent: AgentId) -> Ledger {
    s.insert(key, Stored::Agents(without(agents_at(s, key), agent)))
}

/// `s` with `record` appended to the list at `key`, unless the list has it;
/// nothing is stored where it has it.
pub open spec fn with_record(s: Ledger, key: StoreKey, record: RecordId) -> Ledger {
    if records_at(s, key).contains(record) {
        s
    } else {
        s.insert(key, Stored::Records(records_at(s, key).push(record)))
    }
}

/// The ledger after the relationship from `patient` to `provider` is
/// registered: the flag is set, and each of the two indices gains its entry
/// unless it has it.
pub open spec fn registered(s: Ledger, patient: AgentId, provider: AgentId) -> Ledger {
    with_agent(
        with_agent(
            s.insert(relationship_path(patient, provider), Stored::Flag(true)),
            providers_path(patient),
            provider,
        ),
        patients_path(provider),
        patient,
    )
}

/// The ledger after the relationship from `patient` to `provider` is removed:
/// the flag is gone, and each of the two indices is stored again without its
/// entry. Grants and the list of records stay.
pub open spec fn removed(s: Ledger, patient: AgentId, provider: AgentId) -> Ledger {
    without_agent(
        without_agent(
            s.remove(relationship_path(patient, provider)),
            providers_path(patient),
            provider,
        ),
        patients_path(provider),
        patient,
    )
}

/// The ledger after `record` is granted from `patient` to `provider`: the
/// grant is set, and the list of records gains `record` unless it has it.
pub open spec fn record_added(
    s: Ledger,
    patient: AgentId,
    provider: AgentId,
    record: RecordId,
) -> Ledger {
    with_record(
        s.insert(grant_path(patient, provider, record), Stored::Flag(true)),
        records_path(patient, provider),
        record,
    )
}

/// The flag, the two indices and the list of records agree, and no list holds
/// an entry twice.
pub open spec fn consistent(s: Ledger) -> bool {
    &&& registry_typed(s)
    &&& forall|p: AgentId| (#[trigger] providers_of(s, p)).no_duplicates()
    &&& forall|q: AgentId| (#[trigger] patients_of(s, q)).no_duplicates()
    &&& forall|p: AgentId, q: AgentId| (#[trigger] records_of(s, p, q)).no_duplicates()
    &&& forall|p: AgentId, q: AgentId|
        providers_of(s, p).contains(q) <==> #[trigger] established(s, p, q)
    &&& forall|p: AgentId, q: AgentId|
        patients_of(s, q).contains(p) <==> #[trigger] established(s, p, q)
    &&& forall|p: AgentId, q: AgentId, r: RecordId|
        records_of(s, p, q).contains(r) <==> #[trigger] granted(s, p, q, r)
}

} // verus!
