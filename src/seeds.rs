use vstd::prelude::*;
use crate::address::{
    AccountId, create_program_address, try_find_program_address, program_address_of,
    found_address_of, seeds_view,
};

verus! {

/// The namespace tag of team records: "team".
pub open spec fn team_tag() -> Seq<u8> {
    seq![116u8, 101u8, 97u8, 109u8]
}

/// The namespace tag of vaults: "vault".
pub open spec fn vault_tag() -> Seq<u8> {
    seq![118u8, 97u8, 117u8, 108u8, 116u8]
}

/// The namespace tag of task records: "task".
pub open spec fn task_tag() -> Seq<u8> {
    seq![116u8, 97u8, 115u8, 107u8]
}

/// The eight little-endian bytes of `x`.
pub open spec fn le_bytes(x: u64) -> Seq<u8> {
    seq![
        (x % 0x100) as u8,
        ((x / 0x100) % 0x100) as u8,
        ((x / 0x1_0000) % 0x100) as u8,
        ((x / 0x100_0000) % 0x100) as u8,
        ((x / 0x1_0000_0000) % 0x100) as u8,
        ((x / 0x100_0000_0000) % 0x100) as u8,
        ((x / 0x1_0000_0000_0000) % 0x100) as u8,
        ((x / 0x100_0000_0000_0000) % 0x100) as u8,
    ]
}

pub open spec fn team_seeds(authority: Seq<u8>, team_id: u64) -> Seq<Seq<u8>> {
    seq![team_tag(), authority, le_bytes(team_id)]
}

pub open spec fn vault_seeds(team_address: Seq<u8>) -> Seq<Seq<u8>> {
    seq![vault_tag(), team_address]
}

pub open spec fn task_seeds(team_address: Seq<u8>, task_id: u64) -> Seq<Seq<u8>> {
    seq![task_tag(), team_address, le_bytes(task_id)]
}

/// Whether `vault` re-derives from the team's address and its recorded
/// capability byte.
pub open spec fn vault_derives(program: Seq<u8>, team_address: Seq<u8>, bump: u8, vault: Seq<u8>) -> bool {
    program_address_of(vault_seeds(team_address).push(seq![bump]), program) == Some(vault)
}

pub open spec fn found_view(r: Option<(AccountId, u8)>) -> Option<(Seq<u8>, u8)> {
    match r {
        Some((a, b)) => Some((a@, b)),
        None => None,
    }
}

fn le_bytes_of(x: u64) -> (r: Vec<u8>)
    ensures
        r@ == le_bytes(x),
{
    let r = vec![
        (x % 0x100) as u8,
        ((x / 0x100) % 0x100) as u8,
        ((x / 0x1_0000) % 0x100) as u8,
        ((x / 0x100_0000) % 0x100) as u8,
        ((x / 0x1_0000_0000) % 0x100) as u8,
        ((x / 0x100_0000_0000) % 0x100) as u8,
        ((x / 0x1_0000_0000_0000) % 0x100) as u8,
        ((x / 0x100_0000_0000_0000) % 0x100) as u8,
    ];
    assert(r@ =~= le_bytes(x));
    r
}

fn key_bytes(a: &AccountId) -> (r: Vec<u8>)
    ensures
        r@ == a@,
{
    let mut r: Vec<u8> = Vec::new();
    let mut i: usize = 0;
    while i < 32
        invariant
            i <= 32,
            r@ =~= a@.subrange(0, i as int),
        decreases 32 - i,
    {
        r.push(a.bytes[i]);
        i = i + 1;
    }
    assert(r@ =~= a@);
    r
}

/// Finds the team record's address and capability byte for `(authority, team_id)`.
pub fn find_team_address(program: &AccountId, authority: &AccountId, team_id: u64) -> (r: Option<(AccountId, u8)>)
    ensures
        found_view(r) == found_address_of(team_seeds(authority@, team_id), program@),
{
    let tag: Vec<u8> = vec![116u8, 101u8, 97u8, 109u8];
    let seeds: Vec<Vec<u8>> = vec![tag, key_bytes(authority), le_bytes_of(team_id)];
    assert(seeds_view(seeds@) =~= team_seeds(authority@, team_id));
    try_find_program_address(&seeds, program)
}

/// Finds the vault's address and capability byte for a team record's address.
pub fn find_vault_address(program: &AccountId, team_address: &AccountId) -> (r: Option<(AccountId, u8)>)
    ensures
        found_view(r) == found_address_of(vault_seeds(team_address@), program@),
        r matches Some((v, b)) ==> vault_derives(program@, team_address@, b, v@),
{
    let tag: Vec<u8> = vec![118u8, 97u8, 117u8, 108u8, 116u8];
    let seeds: Vec<Vec<u8>> = vec![tag, key_bytes(team_address)];
    assert(seeds_view(seeds@) =~= vault_seeds(team_address@));
    try_find_program_address(&seeds, program)
}

/// Finds the task record's address and capability byte for `(team, task_id)`.
pub fn find_task_address(program: &AccountId, team_address: &AccountId, task_id: u64) -> (r: Option<(AccountId, u8)>)
    ensures
        found_view(r) == found_address_of(task_seeds(team_address@, task_id), program@),
{
    let tag: Vec<u8> = vec![116u8, 97u8, 115u8, 107u8];
    let seeds: Vec<Vec<u8>> = vec![tag, key_bytes(team_address), le_bytes_of(task_id)];
    assert(seeds_view(seeds@) =~= task_seeds(team_address@, task_id));
    try_find_program_address(&seeds, program)
}

/// Re-derives the vault from the team's address and recorded capability
/// byte, and compares it with the supplied vault address.
pub fn vault_matches(program: &AccountId, team_address: &AccountId, bump: u8, vault: &AccountId) -> (r: bool)
    ensures
        r == vault_derives(program@, team_address@, bump, vault@),
{
    let tag: Vec<u8> = vec![118u8, 97u8, 117u8, 108u8, 116u8];
    let last: Vec<u8> = vec![bump];
    assert(last@ =~= seq![bump]);
    let seeds: Vec<Vec<u8>> = vec![tag, key_bytes(team_address), last];
    assert(seeds_view(seeds@) =~= vault_seeds(team_address@).push(seq![bump]));
    match create_program_address(&seeds, program) {
        Some(derived) => derived == *vault,
        None => false,
    }
}

} // verus!
