//! Names of the variables and registry entries that the two ends of a
//! session exchange.

use crate::text::{decimal, lemma_decimal_injective, push_decimal};
use vstd::prelude::*;

verus! {

/// `prefix` followed by the decimal form of `id`.
pub open spec fn numbered_key(prefix: Seq<char>, id: nat) -> Seq<char> {
    prefix + decimal(id)
}

/// Different numbers give different variables: no two commands, outputs
/// or interrupts of a session share a variable.
pub proof fn lemma_numbered_keys_distinct(prefix: Seq<char>, a: nat, b: nat)
    requires
        a != b,
    ensures
        numbered_key(prefix, a) != numbered_key(prefix, b),
{
    if numbered_key(prefix, a) == numbered_key(prefix, b) {
        let ka = numbered_key(prefix, a);
        assert(ka.skip(prefix.len() as int) =~= decimal(a));
        assert(numbered_key(prefix, b).skip(prefix.len() as int) =~= decimal(b));
        lemma_decimal_injective(a, b);
    }
}

fn numbered(prefix: &str, id: u64) -> (key: String)
    ensures
        key@ == numbered_key(prefix@, id as nat),
{
    let mut key = String::new();
    key.append(prefix);
    push_decimal(&mut key, id);
    key
}

/// The variable that carries the `id`-th command of a session.
pub fn command_key(id: u64) -> (key: String)
    ensures
        key@ == numbered_key("command:"@, id as nat),
{
    numbered("command:", id)
}

/// The variable that carries the `id`-th piece of shell output.
pub fn output_key(id: u64) -> (key: String)
    ensures
        key@ == numbered_key("output:"@, id as nat),
{
    numbered("output:", id)
}

/// The variable that carries the `id`-th interrupt (Ctrl-C) of a session.
pub fn ctrlc_key(id: u64) -> (key: String)
    ensures
        key@ == numbered_key("ctrlc:"@, id as nat),
{
    numbered("ctrlc:", id)
}

/// The entry in which the messaging bot stores the approver's answer to
/// the question that carries `token`.
pub fn callback_key(token: &str) -> (key: String)
    ensures
        key@ == "tg_bot:callback:"@ + token@,
{
    let mut key = String::new();
    key.append("tg_bot:callback:");
    key.append(token);
    key
}

/// The registry entry that holds the core address of user `user_id`.
pub fn known_core_addr_key(user_id: &str) -> (key: String)
    ensures
        key@ == "_internal:known_users:"@ + user_id@ + ":core_addr"@,
{
    let mut key = String::new();
    key.append("_internal:known_users:");
    key.append(user_id);
    key.append(":core_addr");
    key
}

/// The registry entry that holds the guest token of user `user_id`.
pub fn known_guest_jwt_key(user_id: &str) -> (key: String)
    ensures
        key@ == "_internal:known_users:"@ + user_id@ + ":guest_jwt"@,
{
    let mut key = String::new();
    key.append("_internal:known_users:");
    key.append(user_id);
    key.append(":guest_jwt");
    key
}

} // verus!
