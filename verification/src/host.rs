//! The boundary to the Soroban SDK.
//!
//! Everything in this module is believed, not proved: the SDK's types, names
//! for what its values hold, and one small function around each SDK call
//! that the registry makes. Each contract says what the SDK's source shows of
//! the call.
//!
//! The SDK changes the storage through a shared handle. Here a call that
//! writes takes the environment by `&mut`, so that a contract can speak of
//! the storage before and after it.
//!
//! A value of the SDK is a handle into the object table of one host, and the
//! SDK hands it to the host that a call goes to without asking where it is
//! from. So each contract requires that the values handed to a call have
//! their home in the host of the call, and says where the home of what comes
//! back is. A vector of the SDK may hold items of any type, whatever its type
//! parameter says; the contracts that read an item require that the items are
//! what the type says, and those that make a vector say that they are.
//!
//! The host's resource budget is left out, as contracts on allocation leave
//! out the size of memory.

use crate::model::{
    agents_or_nothing, flag_at, flag_or_nothing, records_or_nothing, role_or_nothing, KeyPart,
    StoreKey, Stored,
};
use soroban_sdk::{Address, BytesN, Env, IntoVal, Symbol, Val};
use vstd::prelude::*;

verus! {

/// `soroban_sdk::Env`, the handle to the host. Opaque.
#[verifier::external_type_specification]
#[verifier::external_body]
pub struct ExEnv(Env);

/// `soroban_sdk::Address`, the identifier of an agent. Opaque.
#[verifier::external_type_specification]
#[verifier::external_body]
pub struct ExAddress(Address);

/// `soroban_sdk::Symbol`, a short text of letters, digits and `_`. Opaque.
#[verifier::external_type_specification]
#[verifier::external_body]
pub struct ExSymbol(Symbol);

/// `soroban_sdk::Val`, the host's raw value. Opaque; it only occurs as the
/// item type of a key.
#[verifier::external_type_specification]
#[verifier::external_body]
pub struct ExVal(Val);

/// `soroban_sdk::BytesN`, a byte string of fixed length. Opaque.
#[verifier::external_type_specification]
#[verifier::external_body]
pub struct ExBytesN<const N: usize>(BytesN<N>);

/// `soroban_sdk::Vec`, the host's vector. Opaque.
#[verifier::external_type_specification]
#[verifier::external_body]
#[verifier::reject_recursive_types(T)]
pub struct ExVec<T>(soroban_sdk::Vec<T>);

/// The host that an environment is a handle to. Two environments have the
/// same home exactly if they are handles to one host.
pub uninterp spec fn env_home(env: Env) -> int;

/// The host in whose object table an address lies.
pub uninterp spec fn agent_home(a: Address) -> int;

/// The host in whose object table a record identifier lies.
pub uninterp spec fn record_home(r: BytesN<32>) -> int;

/// The host in whose object table a symbol lies; `None` for a short symbol,
/// which holds its characters itself and is the same in every host.
pub uninterp spec fn symbol_home(s: Symbol) -> Option<int>;

/// The host in whose object table a vector of addresses lies.
pub uninterp spec fn agents_home(list: soroban_sdk::Vec<Address>) -> int;

/// The host in whose object table a vector of record identifiers lies.
pub uninterp spec fn records_home(list: soroban_sdk::Vec<BytesN<32>>) -> int;

/// The host in whose object table a key lies.
pub uninterp spec fn key_home(key: soroban_sdk::Vec<Val>) -> int;

/// The strkey of an address, the text that `Address::to_string` gives. Two
/// addresses are the same agent exactly if their strkeys are equal.
pub uninterp spec fn address_strkey(a: Address) -> Seq<char>;

/// The 32 bytes of a record identifier, as `BytesN::to_array` gives them.
pub uninterp spec fn record_bytes(r: BytesN<32>) -> Seq<u8>;

/// The characters of a symbol.
pub uninterp spec fn symbol_text(s: Symbol) -> Seq<char>;

/// Whether every item of the vector is an address.
pub uninterp spec fn only_agents(list: soroban_sdk::Vec<Address>) -> bool;

/// Whether every item of the vector is a byte string of 32 bytes.
pub uninterp spec fn only_records(list: soroban_sdk::Vec<BytesN<32>>) -> bool;

/// The items of a vector of addresses, each as its strkey.
pub uninterp spec fn agents_in(list: soroban_sdk::Vec<Address>) -> Seq<Seq<char>>;

/// The items of a vector of record identifiers, each as its bytes.
pub uninterp spec fn records_in(list: soroban_sdk::Vec<BytesN<32>>) -> Seq<Seq<u8>>;

/// The items of a vector that was made as a key, each as the plain value of
/// the symbol, address or byte string that it was made from.
pub uninterp spec fn key_parts(key: soroban_sdk::Vec<Val>) -> StoreKey;

/// Whether a contract is executing in the environment. Instance storage
/// exists only then.
pub uninterp spec fn in_contract(env: Env) -> bool;

/// The instance storage of the contract that is executing in the
/// environment: the value under each key that is made of symbols, addresses
/// and byte strings, keys and values as plain values.
pub uninterp spec fn instance_storage(env: Env) -> Map<StoreKey, Stored>;

/// The symbol can be handed to the host of the environment: it is a short
/// symbol, or its home is that host.
pub open spec fn symbol_fits(s: Symbol, env: Env) -> bool {
    symbol_home(s) is None || symbol_home(s) == Some(env_home(env))
}

/// A character that a symbol may hold.
pub open spec fn symbol_char(c: char) -> bool {
    c == '_' || ('0' <= c && c <= '9') || ('A' <= c && c <= 'Z') || ('a' <= c && c <= 'z')
}

/// A text that a symbol can hold: at most 32 characters, each a letter, a
/// digit or `_`.
pub open spec fn symbol_sized(text: Seq<char>) -> bool {
    &&& text.len() <= 32
    &&& forall|i: int| 0 <= i < text.len() ==> symbol_char(#[trigger] text[i])
}

/// `Symbol::new`. It panics on a text that no symbol can hold, which the
/// `requires` leaves out; the symbol it makes has the characters of the text,
/// and is short or lies in the host of the environment.
#[verifier::external_body]
pub(crate) fn new_symbol(env: &Env, text: &str) -> (symbol: Symbol)
    requires
        symbol_sized(text@),
    ensures
        symbol_text(symbol) == text@,
        symbol_home(symbol) is None || symbol_home(symbol) == Some(env_home(*env)),
{
    Symbol::new(env, text)
}

/// `==` on `Symbol`: true exactly if the two have the same characters,
/// wherever their homes are.
#[verifier::external_body]
pub(crate) fn same_symbol(a: &Symbol, b: &Symbol) -> (same: bool)
    ensures
        same == (symbol_text(*a) == symbol_text(*b)),
{
    a == b
}

/// `==` on `Address`: true exactly if the two have the same strkey, wherever
/// their homes are.
#[verifier::external_body]
pub(crate) fn same_agent(a: &Address, b: &Address) -> (same: bool)
    ensures
        same == (address_strkey(*a) == address_strkey(*b)),
{
    a == b
}

/// `==` on `BytesN<32>`: true exactly if the two hold the same bytes,
/// wherever their homes are.
#[verifier::external_body]
pub(crate) fn same_record(a: &BytesN<32>, b: &BytesN<32>) -> (same: bool)
    ensures
        same == (record_bytes(*a) == record_bytes(*b)),
{
    a == b
}

/// The conversion of a one-element tuple to `Vec<Val>`: a key in the host of
/// the environment, whose only part is the agent.
#[verifier::external_body]
pub(crate) fn agent_key(env: &Env, agent: &Address) -> (key: soroban_sdk::Vec<Val>)
    requires
        agent_home(*agent) == env_home(*env),
    ensures
        key_home(key) == env_home(*env),
        key_parts(key) == seq![KeyPart::Agent(address_strkey(*agent))],
{
    (agent.clone(),).into_val(env)
}

/// The conversion of a tuple of a symbol and an address to `Vec<Val>`: a key
/// in the host of the environment, of the tag and the agent, in this order.
#[verifier::external_body]
pub(crate) fn tagged_agent_key(env: &Env, tag: &Symbol, agent: &Address) -> (key: soroban_sdk::Vec<
    Val,
>)
    requires
        symbol_fits(*tag, *env),
        agent_home(*agent) == env_home(*env),
    ensures
        key_home(key) == env_home(*env),
        key_parts(key) == seq![
            KeyPart::Tag(symbol_text(*tag)),
            KeyPart::Agent(address_strkey(*agent)),
        ],
{
    (tag.clone(), agent.clone()).into_val(env)
}

/// The conversion of a tuple of a symbol and two addresses to `Vec<Val>`: a
/// key in the host of the environment, of the tag and the two agents, in this
/// order.
#[verifier::external_body]
pub(crate) fn tagged_pair_key(env: &Env, tag: &Symbol, first: &Address, second: &Address) -> (key:
    soroban_sdk::Vec<Val>)
    requires
        symbol_fits(*tag, *env),
        agent_home(*first) == env_home(*env),
        agent_home(*second) == env_home(*env),
    ensures
        key_home(key) == env_home(*env),
        key_parts(key) == seq![
            KeyPart::Tag(symbol_text(*tag)),
            KeyPart::Agent(address_strkey(*first)),
            KeyPart::Agent(address_strkey(*second)),
        ],
{
    (tag.clone(), first.clone(), second.clone()).into_val(env)
}

/// The conversion of a tuple of a symbol, two addresses and a byte string to
/// `Vec<Val>`: a key in the host of the environment, of the tag, the two
/// agents and the record, in this order.
#[verifier::external_body]
pub(crate) fn tagged_grant_key(
    env: &Env,
    tag: &Symbol,
    first: &Address,
    second: &Address,
    record: &BytesN<32>,
) -> (key: soroban_sdk::Vec<Val>)
    requires
        symbol_fits(*tag, *env),
        agent_home(*first) == env_home(*env),
        agent_home(*second) == env_home(*env),
        record_home(*record) == env_home(*env),
    ensures
        key_home(key) == env_home(*env),
        key_parts(key) == seq![
            KeyPart::Tag(symbol_text(*tag)),
            KeyPart::Agent(address_strkey(*first)),
            KeyPart::Agent(address_strkey(*second)),
            KeyPart::Record(record_bytes(*record)),
        ],
{
    (tag.clone(), first.clone(), second.clone(), record.clone()).into_val(env)
}

/// `Vec::new` for addresses: a vector without items, in the host of the
/// environment.
#[verifier::external_body]
pub(crate) fn no_agents(env: &Env) -> (list: soroban_sdk::Vec<Address>)
    ensures
        agents_home(list) == env_home(*env),
        only_agents(list),
        agents_in(list) == Seq::<Seq<char>>::empty(),
{
    soroban_sdk::Vec::new(env)
}

/// `Vec::len` for addresses: the number of items.
#[verifier::external_body]
pub(crate) fn agents_len(list: &soroban_sdk::Vec<Address>) -> (len: u32)
    ensures
        len == agents_in(*list).len(),
{
    list.len()
}

/// `Vec::get` for addresses: the item at the position, or `None` past the
/// end; the item lies where the vector lies. It panics on an item that is no
/// address, which the `requires` leaves out.
#[verifier::external_body]
pub(crate) fn agents_get(list: &soroban_sdk::Vec<Address>, i: u32) -> (item: Option<Address>)
    requires
        only_agents(*list),
    ensures
        item is Some <==> i < agents_in(*list).len(),
        item is Some ==> address_strkey(item.unwrap()) == agents_in(*list)[i as int],
        item is Some ==> agent_home(item.unwrap()) == agents_home(*list),
{
    list.get(i)
}

/// `Vec::contains` for addresses: whether some item is the agent.
#[verifier::external_body]
pub(crate) fn agents_contains(list: &soroban_sdk::Vec<Address>, agent: &Address) -> (found: bool)
    requires
        agent_home(*agent) == agents_home(*list),
    ensures
        found == agents_in(*list).contains(address_strkey(*agent)),
{
    list.contains(agent)
}

/// `Vec::push_back` for addresses: the agent becomes the last item, the
/// others stay, and the vector stays where it lies. The host fails where the
/// length would pass `u32::MAX`, which the `requires` leaves out.
#[verifier::external_body]
pub(crate) fn agents_push(list: &mut soroban_sdk::Vec<Address>, agent: &Address)
    requires
        only_agents(*old(list)),
        agent_home(*agent) == agents_home(*old(list)),
        agents_in(*old(list)).len() < u32::MAX,
    ensures
        agents_home(*final(list)) == agents_home(*old(list)),
        only_agents(*final(list)),
        agents_in(*final(list)) == agents_in(*old(list)).push(address_strkey(*agent)),
{
    list.push_back(agent.clone())
}

/// `Vec::new` for record identifiers: a vector without items, in the host of
/// the environment.
#[verifier::external_body]
pub(crate) fn no_records(env: &Env) -> (list: soroban_sdk::Vec<BytesN<32>>)
    ensures
        records_home(list) == env_home(*env),
        only_records(list),
        records_in(list) == Seq::<Seq<u8>>::empty(),
{
    soroban_sdk::Vec::new(env)
}

/// `Vec::len` for record identifiers: the number of items.
#[verifier::external_body]
pub(crate) fn records_len(list: &soroban_sdk::Vec<BytesN<32>>) -> (len: u32)
    ensures
        len == records_in(*list).len(),
{
    list.len()
}

/// `Vec::get` for record identifiers: the item at the position, or `None`
/// past the end; the item lies where the vector lies. It panics on an item
/// that is no byte string of 32 bytes, which the `requires` leaves out.
#[verifier::external_body]
pub(crate) fn records_get(list: &soroban_sdk::Vec<BytesN<32>>, i: u32) -> (item: Option<
    BytesN<32>,
>)
    requires
        only_records(*list),
    ensures
        item is Some <==> i < records_in(*list).len(),
        item is Some ==> record_bytes(item.unwrap()) == records_in(*list)[i as int],
        item is Some ==> record_home(item.unwrap()) == records_home(*list),
{
    list.get(i)
}

/// `Vec::push_back` for record identifiers: the record becomes the last
/// item, the others stay, and the vector stays where it lies. The host fails
/// where the length would pass `u32::MAX`, which the `requires` leaves out.
#[verifier::external_body]
pub(crate) fn records_push(list: &mut soroban_sdk::Vec<BytesN<32>>, record: &BytesN<32>)
    requires
        only_records(*old(list)),
        record_home(*record) == records_home(*old(list)),
        records_in(*old(list)).len() < u32::MAX,
    ensures
        records_home(*final(list)) == records_home(*old(list)),
        only_records(*final(list)),
        records_in(*final(list)) == records_in(*old(list)).push(record_bytes(*record)),
{
    list.push_back(record.clone())
}

/// `Instance::get` read as `bool`: the boolean under the key, or `None`
/// where nothing is stored. It panics on a value that is no boolean, which
/// the `requires` leaves out.
#[verifier::external_body]
pub(crate) fn read_flag(env: &Env, key: &soroban_sdk::Vec<Val>) -> (found: Option<bool>)
    requires
        in_contract(*env),
        key_home(*key) == env_home(*env),
        flag_or_nothing(instance_storage(*env), key_parts(*key)),
    ensures
        found == flag_at(instance_storage(*env), key_parts(*key)),
{
    env.storage().instance().get(key)
}

/// `Instance::get` read as a vector of addresses: the list under the key, in
/// the host of the environment, or `None` where nothing is stored. The
/// `requires` leaves out a value that is no vector of addresses.
#[verifier::external_body]
pub(crate) fn read_agents(env: &Env, key: &soroban_sdk::Vec<Val>) -> (found: Option<
    soroban_sdk::Vec<Address>,
>)
    requires
        in_contract(*env),
        key_home(*key) == env_home(*env),
        agents_or_nothing(instance_storage(*env), key_parts(*key)),
    ensures
        found is None <==> !instance_storage(*env).contains_key(key_parts(*key)),
        found is Some ==> instance_storage(*env)[key_parts(*key)] == Stored::Agents(
            agents_in(found.unwrap()),
        ),
        found is Some ==> only_agents(found.unwrap()),
        found is Some ==> agents_home(found.unwrap()) == env_home(*env),
{
    env.storage().instance().get(key)
}

/// `Instance::get` read as a vector of record identifiers: the list under the
/// key, in the host of the environment, or `None` where nothing is stored.
/// The `requires` leaves out a value that is no vector of record identifiers
/// with an item.
#[verifier::external_body]
pub(crate) fn read_records(env: &Env, key: &soroban_sdk::Vec<Val>) -> (found: Option<
    soroban_sdk::Vec<BytesN<32>>,
>)
    requires
        in_contract(*env),
        key_home(*key) == env_home(*env),
        records_or_nothing(instance_storage(*env), key_parts(*key)),
    ensures
        found is None <==> !instance_storage(*env).contains_key(key_parts(*key)),
        found is Some ==> instance_storage(*env)[key_parts(*key)] == Stored::Records(
            records_in(found.unwrap()),
        ),
        found is Some ==> only_records(found.unwrap()),
        found is Some ==> records_home(found.unwrap()) == env_home(*env),
{
    env.storage().instance().get(key)
}

/// `Instance::get` read as `Symbol`: the symbol under the key, short or in
/// the host of the environment, or `None` where nothing is stored. It panics
/// on a value that is no symbol, which the `requires` leaves out.
#[verifier::external_body]
pub(crate) fn read_role(env: &Env, key: &soroban_sdk::Vec<Val>) -> (found: Option<Symbol>)
    requires
        in_contract(*env),
        key_home(*key) == env_home(*env),
        role_or_nothing(instance_storage(*env), key_parts(*key)),
    ensures
        found is None <==> !instance_storage(*env).contains_key(key_parts(*key)),
        found is Some ==> instance_storage(*env)[key_parts(*key)] == Stored::Role(
            symbol_text(found.unwrap()),
        ),
        found is Some ==> symbol_home(found.unwrap()) is None || symbol_home(found.unwrap())
            == Some(env_home(*env)),
{
    env.storage().instance().get(key)
}

/// `Instance::set` with a `bool`: the key holds the boolean afterwards, and
/// every other key holds what it held.
#[verifier::external_body]
pub(crate) fn write_flag(env: &mut Env, key: &soroban_sdk::Vec<Val>, flag: bool)
    requires
        in_contract(*old(env)),
        key_home(*key) == env_home(*old(env)),
    ensures
        in_contract(*final(env)),
        env_home(*final(env)) == env_home(*old(env)),
        instance_storage(*final(env)) == instance_storage(*old(env)).insert(
            key_parts(*key),
            Stored::Flag(flag),
        ),
{
    env.storage().instance().set(key, &flag)
}

/// `Instance::set` with a vector of addresses, empty or not: the key holds
/// the list afterwards, and every other key holds what it held.
#[verifier::external_body]
pub(crate) fn write_agents(
    env: &mut Env,
    key: &soroban_sdk::Vec<Val>,
    list: &soroban_sdk::Vec<Address>,
)
    requires
        in_contract(*old(env)),
        key_home(*key) == env_home(*old(env)),
        agents_home(*list) == env_home(*old(env)),
        only_agents(*list),
    ensures
        in_contract(*final(env)),
        env_home(*final(env)) == env_home(*old(env)),
        instance_storage(*final(env)) == instance_storage(*old(env)).insert(
            key_parts(*key),
            Stored::Agents(agents_in(*list)),
        ),
{
    env.storage().instance().set(key, list)
}

/// `Instance::set` with a vector of record identifiers that has an item: the
/// key holds the list afterwards, and every other key holds what it held.
/// The `requires` leaves the empty vector out, which is stored as the empty
/// vector of any items and reads as an empty list of agents.
#[verifier::external_body]
pub(crate) fn write_records(
    env: &mut Env,
    key: &soroban_sdk::Vec<Val>,
    list: &soroban_sdk::Vec<BytesN<32>>,
)
    requires
        in_contract(*old(env)),
        key_home(*key) == env_home(*old(env)),
        records_home(*list) == env_home(*old(env)),
        only_records(*list),
        records_in(*list).len() > 0,
    ensures
        in_contract(*final(env)),
        env_home(*final(env)) == env_home(*old(env)),
        instance_storage(*final(env)) == instance_storage(*old(env)).insert(
            key_parts(*key),
            Stored::Records(records_in(*list)),
        ),
{
    env.storage().instance().set(key, list)
}

/// `Instance::set` with a `Symbol`: the key holds the symbol afterwards, and
/// every other key holds what it held.
#[verifier::external_body]
pub(crate) fn write_role(env: &mut Env, key: &soroban_sdk::Vec<Val>, role: &Symbol)
    requires
        in_contract(*old(env)),
        key_home(*key) == env_home(*old(env)),
        symbol_fits(*role, *old(env)),
    ensures
        in_contract(*final(env)),
        env_home(*final(env)) == env_home(*old(env)),
        instance_storage(*final(env)) == instance_storage(*old(env)).insert(
            key_parts(*key),
            Stored::Role(symbol_text(*role)),
        ),
{
    env.storage().instance().set(key, role)
}

/// `Instance::remove`: the key holds nothing afterwards, and every other key
/// holds what it held.
#[verifier::external_body]
pub(crate) fn erase(env: &mut Env, key: &soroban_sdk::Vec<Val>)
    requires
        in_contract(*old(env)),
        key_home(*key) == env_home(*old(env)),
    ensures
        in_contract(*final(env)),
        env_home(*final(env)) == env_home(*old(env)),
        instance_storage(*final(env)) == instance_storage(*old(env)).remove(key_parts(*key)),
{
    env.storage().instance().remove(key)
}

} // verus!
