//! The mock account records that the harness hands to the program, as plain
//! values.

use vstd::prelude::*;
use vstd::string::*;

verus! {

/// A mock account record.
#[derive(Debug, Clone, PartialEq, Eq)]
pub struct MockAccount {
    pub key: [u8; 32],
    pub is_signer: bool,
    pub is_writable: bool,
    pub lamports: u64,
    pub data: Vec<u8>,
    pub owner: [u8; 32],
    pub executable: bool,
    pub rent_epoch: u64,
}

/// The balance of every mock account.
pub const MOCK_LAMPORTS: u64 = 1_000_000;

/// The size of the payload of a data account.
pub const DATA_SIZE: usize = 64;

/// The key made of a label: the first 32 bytes of the label, filled up with
/// zeros.
pub open spec fn label_key(label: Seq<u8>) -> Seq<u8> {
    Seq::new(32, |i: int| if i < label.len() { label[i] } else { 0u8 })
}

/// The payload of a data account: the discriminator of its record type,
/// then zeros up to the payload's size.
pub open spec fn data_payload(discriminator: Seq<u8>) -> Seq<u8> {
    Seq::new(DATA_SIZE as nat, |i: int| if i < discriminator.len() { discriminator[i] } else { 0u8 })
}

/// The identity of the system program: all zeros.
pub open spec fn system_program_key() -> Seq<u8> {
    Seq::new(32, |i: int| 0u8)
}

/// The key that stands for `label`.
pub fn mock_pubkey(label: &str) -> (r: [u8; 32])
    ensures
        r@ == label_key(label.spec_bytes()),
{
    let bytes = label.as_bytes();
    let mut key: [u8; 32] = [0u8; 32];
    let mut i: usize = 0;
    while i < 32 && i < bytes.len()
        invariant
            i <= 32,
            i <= bytes@.len(),
            key@.len() == 32,
            bytes@ == label.spec_bytes(),
            forall|k: int| 0 <= k < i ==> key@[k] == bytes@[k],
            forall|k: int| i <= k < 32 ==> key@[k] == 0u8,
        decreases 32 - i,
    {
        key[i] = bytes[i];
        i += 1;
    }
    assert(key@.len() == 32);
    assert forall|k: int| 0 <= k < 32 implies key@[k] == label_key(label.spec_bytes())[k] by {
        if k < i {
            assert(key@[k] == bytes@[k]);
        }
    }
    assert(key@ =~= label_key(label.spec_bytes()));
    key
}

/// The record of a signer: it signs, is writable and carries no payload.
pub fn mock_signer_account(label: &str) -> (r: MockAccount)
    ensures
        r.key@ == label_key(label.spec_bytes()),
        r.owner@ == r.key@,
        r.is_signer,
        r.is_writable,
        !r.executable,
        r.lamports == MOCK_LAMPORTS,
        r.data@.len() == 0,
        r.rent_epoch == 0,
{
    let key = mock_pubkey(label);
    MockAccount {
        key: key,
        is_signer: true,
        is_writable: true,
        lamports: MOCK_LAMPORTS,
        data: Vec::new(),
        owner: key,
        executable: false,
        rent_epoch: 0,
    }
}

/// The record of a data account at `address`, owned by the program: its
/// payload opens with the discriminator of its record type.
pub fn mock_pda_account(address: [u8; 32], program_id: [u8; 32], discriminator: [u8; 8]) -> (r:
    MockAccount)
    ensures
        r.key == address,
        r.owner == program_id,
        !r.is_signer,
        r.is_writable,
        !r.executable,
        r.lamports == MOCK_LAMPORTS,
        r.data@ == data_payload(discriminator@),
        r.data@.subrange(0, 8) == discriminator@,
        r.rent_epoch == 0,
{
    let mut data: Vec<u8> = Vec::new();
    let mut i: usize = 0;
    while i < DATA_SIZE
        invariant
            i <= DATA_SIZE,
            data@.len() == i,
            forall|k: int| 0 <= k < i ==> data@[k] == data_payload(discriminator@)[k],
        decreases DATA_SIZE - i,
    {
        if i < 8 {
            data.push(discriminator[i]);
        } else {
            data.push(0u8);
        }
        i += 1;
    }
    assert(data@ =~= data_payload(discriminator@));
    assert(data@.subrange(0, 8) =~= discriminator@);
    MockAccount {
        key: address,
        is_signer: false,
        is_writable: true,
        lamports: MOCK_LAMPORTS,
        data: data,
        owner: program_id,
        executable: false,
        rent_epoch: 0,
    }
}

/// The record of the system program: its well-known identity, executable,
/// neither signer nor writable.
pub fn mock_system_program(program_id: [u8; 32]) -> (r: MockAccount)
    ensures
        r.key@ == system_program_key(),
        r.owner == program_id,
        !r.is_signer,
        !r.is_writable,
        r.executable,
        r.lamports == MOCK_LAMPORTS,
        r.data@ == Seq::new(10, |i: int| 0u8),
        r.rent_epoch == 0,
{
    let key: [u8; 32] = [0u8; 32];
    assert(key@ =~= system_program_key());
    let mut data: Vec<u8> = Vec::new();
    let mut i: usize = 0;
    while i < 10
        invariant
            i <= 10,
            data@.len() == i,
            forall|k: int| 0 <= k < i ==> data@[k] == 0u8,
        decreases 10 - i,
    {
        data.push(0u8);
        i += 1;
    }
    assert(data@ =~= Seq::new(10, |i: int| 0u8));
    MockAccount {
        key: key,
        is_signer: false,
        is_writable: false,
        lamports: MOCK_LAMPORTS,
        data: data,
        owner: program_id,
        executable: true,
        rent_epoch: 0,
    }
}

} // verus!
