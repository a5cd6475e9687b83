//! The persisted agent record and its fixed-size byte layout.

use vstd::prelude::*;
use vstd::utf8::*;
use crate::accounts::AccountView;
use crate::address::Address;
use crate::pda::{registry_address, spec_registry_address, PREFIX};
use crate::codec::{
    push_bytes, push_i64_le, push_str_field, push_zeros, read_i64_le, read_str,
    i64_from_le, i64_le_bytes, lemma_i64_round_trip, lemma_u32_round_trip, spec_read_str, str_field,
    u32_le_bytes, zeros,
};
use crate::errors::{AgentMailProgramError, ProgramError};

verus! {

broadcast use {encode_utf8_valid_utf8, encode_utf8_decode_utf8};

/// Byte length of a record, which is what a record slot stores:
/// bump (1), version (1), reserved (6), authority (32), name field (4 + 64),
/// inbox URL field (4 + 256), created_at (8), updated_at (8).
pub const DATA_LEN: usize = 384;

/// Byte length of a record in the typed-account envelope: a discriminator
/// byte and a version byte in front of the record.
pub const LEN: usize = 386;

/// Tag that marks an account as holding an agent record.
pub const DISCRIMINATOR: u8 = 1;

/// Current layout version of the record.
pub const VERSION: u8 = 1;

/// Largest name, in UTF-8 bytes.
pub const MAX_NAME_LEN: usize = 64;

/// Largest inbox URL, in UTF-8 bytes.
pub const MAX_INBOX_URL_LEN: usize = 256;

/// Offsets of the fields inside the record.
pub const AUTHORITY_OFFSET: usize = 8;
pub const NAME_OFFSET: usize = 40;
pub const INBOX_URL_OFFSET: usize = 108;
pub const CREATED_AT_OFFSET: usize = 368;
pub const UPDATED_AT_OFFSET: usize = 376;

/// What a record holds, as mathematical values.
pub struct RegistryRecord {
    pub bump: u8,
    pub version: u8,
    pub authority: Seq<u8>,
    pub name: Seq<char>,
    pub inbox_url: Seq<char>,
    pub created_at: i64,
    pub updated_at: i64,
}

impl RegistryRecord {
    /// The record's invariants on its fields: the current version, a 32-byte
    /// key and strings that fit their fields.
    pub open spec fn wf(self) -> bool {
        &&& self.version == VERSION
        &&& self.authority.len() == 32
        &&& encode_utf8(self.name).len() <= MAX_NAME_LEN
        &&& encode_utf8(self.inbox_url).len() <= MAX_INBOX_URL_LEN
    }
}

/// The record's bytes: every field in order, the reserved bytes zero, each
/// string in a fixed field whose unused tail is zero.
pub open spec fn encode_record(r: RegistryRecord) -> Seq<u8> {
    seq![r.bump, r.version] + zeros(6) + r.authority + str_field(r.name, MAX_NAME_LEN as nat)
        + str_field(r.inbox_url, MAX_INBOX_URL_LEN as nat) + i64_le_bytes(r.created_at)
        + i64_le_bytes(r.updated_at)
}

/// Reads a record from its bytes. The length must be exactly `DATA_LEN`
/// (else `InvalidAccountSize`) and the version byte the current version
/// (else `InvalidAccountData`, so that zeroed storage is never taken for a
/// record); each string's length prefix is checked against its capacity before its
/// bytes are read, and the bytes must be UTF-8. The reserved bytes and the
/// bytes past each string are not read.
pub open spec fn decode_record(b: Seq<u8>) -> Result<RegistryRecord, ProgramError> {
    if b.len() != DATA_LEN {
        Err(AgentMailProgramError::InvalidAccountSize.spec_into())
    } else if b[1] != VERSION {
        Err(ProgramError::InvalidAccountData)
    } else {
        match spec_read_str(
            b,
            NAME_OFFSET as int,
            MAX_NAME_LEN as int,
            AgentMailProgramError::InvalidNameLength.spec_into(),
        ) {
            Err(e) => Err(e),
            Ok((name, _)) => match spec_read_str(
                b,
                INBOX_URL_OFFSET as int,
                MAX_INBOX_URL_LEN as int,
                AgentMailProgramError::InvalidInboxUrlLength.spec_into(),
            ) {
                Err(e) => Err(e),
                Ok((inbox_url, _)) => Ok(
                    RegistryRecord {
                        bump: b[0],
                        version: b[1],
                        authority: b.subrange(AUTHORITY_OFFSET as int, NAME_OFFSET as int),
                        name,
                        inbox_url,
                        created_at: i64_from_le(
                            b.subrange(CREATED_AT_OFFSET as int, UPDATED_AT_OFFSET as int),
                        ),
                        updated_at: i64_from_le(
                            b.subrange(UPDATED_AT_OFFSET as int, DATA_LEN as int),
                        ),
                    },
                ),
            },
        }
    }
}

/// Decoding an encoded record gives the record back.
pub proof fn lemma_round_trip(r: RegistryRecord)
    requires
        r.wf(),
    ensures
        decode_record(encode_record(r)) == Ok::<RegistryRecord, ProgramError>(r),
{
    let b = encode_record(r);
    let nb = encode_utf8(r.name);
    let ub = encode_utf8(r.inbox_url);
    lemma_u32_round_trip(nb.len() as u32);
    lemma_u32_round_trip(ub.len() as u32);
    lemma_i64_round_trip(r.created_at);
    lemma_i64_round_trip(r.updated_at);
    assert(b.subrange(40, 44) =~= u32_le_bytes(nb.len() as u32));
    assert(b.subrange(44, 44 + nb.len() as int) =~= nb);
    assert(b.subrange(108, 112) =~= u32_le_bytes(ub.len() as u32));
    assert(b.subrange(112, 112 + ub.len() as int) =~= ub);
    assert(b.subrange(8, 40) =~= r.authority);
    assert(b.subrange(368, 376) =~= i64_le_bytes(r.created_at));
    assert(b.subrange(376, 384) =~= i64_le_bytes(r.updated_at));
}

/// A record in the typed-account envelope: the discriminator and version
/// bytes, then the record.
pub open spec fn encode_account(r: RegistryRecord) -> Seq<u8> {
    seq![DISCRIMINATOR, VERSION] + encode_record(r)
}

/// Reads a record from the typed-account envelope. The length must be
/// exactly `LEN` (else
/// `InvalidAccountSize`) and the two header bytes must be the discriminator
/// and the version (else `InvalidAccountData`); the rest is read as a record.
pub open spec fn decode_account(b: Seq<u8>) -> Result<RegistryRecord, ProgramError> {
    if b.len() != LEN {
        Err(AgentMailProgramError::InvalidAccountSize.spec_into())
    } else if b[0] != DISCRIMINATOR || b[1] != VERSION {
        Err(ProgramError::InvalidAccountData)
    } else {
        decode_record(b.subrange(2, LEN as int))
    }
}

/// Reading an enveloped record gives the record back.
pub proof fn lemma_account_round_trip(r: RegistryRecord)
    requires
        r.wf(),
    ensures
        decode_account(encode_account(r)) == Ok::<RegistryRecord, ProgramError>(r),
{
    lemma_round_trip(r);
    assert(encode_account(r).subrange(2, LEN as int) =~= encode_record(r));
}

/// Zeroed storage, of any length, is never read as a record: its version
/// byte is not a record's.
pub proof fn lemma_zeroed_record_rejected(n: nat)
    ensures
        decode_record(zeros(n)) is Err,
        decode_account(zeros(n)) is Err,
{
}

/// An agent's record, as the program holds it between decoding and encoding.
#[derive(Clone, Debug)]
pub struct AgentRegistry {
    /// Bump that, with the seed prefix and the authority, derives the
    /// record's address.
    pub bump: u8,
    pub version: u8,
    /// The key that alone may change or close the record.
    pub authority: Address,
    pub name: String,
    pub inbox_url: String,
    pub created_at: i64,
    pub updated_at: i64,
}

impl View for AgentRegistry {
    type V = RegistryRecord;

    open spec fn view(&self) -> RegistryRecord {
        RegistryRecord {
            bump: self.bump,
            version: self.version,
            authority: self.authority@,
            name: self.name@,
            inbox_url: self.inbox_url@,
            created_at: self.created_at,
            updated_at: self.updated_at,
        }
    }
}

/// Checks the typed-account envelope of a given kind of record: exact length
/// `len` (else `InvalidAccountSize`), then the discriminator and version
/// bytes (else `InvalidAccountData`).
pub fn check_header(data: &[u8], discriminator: u8, version: u8, len: usize) -> (r: Result<
    (),
    ProgramError,
>)
    requires
        len >= 2,
    ensures
        r == if data@.len() != len {
            Err(AgentMailProgramError::InvalidAccountSize.spec_into())
        } else if data@[0] != discriminator || data@[1] != version {
            Err(ProgramError::InvalidAccountData)
        } else {
            Ok::<(), ProgramError>(())
        },
{
    if data.len() != len {
        return Err(AgentMailProgramError::InvalidAccountSize.into());
    }
    if data[0] != discriminator || data[1] != version {
        return Err(ProgramError::InvalidAccountData);
    }
    Ok(())
}

impl AgentRegistry {
    pub const DATA_LEN: usize = DATA_LEN;

    pub const LEN: usize = LEN;

    pub const DISCRIMINATOR: u8 = DISCRIMINATOR;

    pub const VERSION: u8 = VERSION;

    pub const MAX_NAME_LEN: usize = MAX_NAME_LEN;

    pub const MAX_INBOX_URL_LEN: usize = MAX_INBOX_URL_LEN;

    pub const PREFIX: [u8; 9] = PREFIX;

    /// A fresh record: the current version, both timestamps equal to
    /// `timestamp`. Fails with `NameTooLong` or `InboxUrlTooLong`, in that
    /// order, when a string does not fit its field.
    pub fn new(bump: u8, authority: Address, name: &str, inbox_url: &str, timestamp: i64) -> (r:
        Result<AgentRegistry, ProgramError>)
        ensures
            encode_utf8(name@).len() > MAX_NAME_LEN ==> r == Err::<AgentRegistry, ProgramError>(
                AgentMailProgramError::NameTooLong.spec_into(),
            ),
            encode_utf8(name@).len() <= MAX_NAME_LEN && encode_utf8(inbox_url@).len()
                > MAX_INBOX_URL_LEN ==> r == Err::<AgentRegistry, ProgramError>(
                AgentMailProgramError::InboxUrlTooLong.spec_into(),
            ),
            encode_utf8(name@).len() <= MAX_NAME_LEN && encode_utf8(inbox_url@).len()
                <= MAX_INBOX_URL_LEN ==> (r matches Ok(reg) && reg@ == (RegistryRecord {
                bump,
                version: VERSION,
                authority: authority@,
                name: name@,
                inbox_url: inbox_url@,
                created_at: timestamp,
                updated_at: timestamp,
            })),
            r matches Ok(reg) ==> reg@.wf(),
    {
        let mut registry = AgentRegistry {
            bump,
            version: VERSION,
            authority,
            name: String::new(),
            inbox_url: String::new(),
            created_at: timestamp,
            updated_at: timestamp,
        };
        match registry.set_name(name) {
            Ok(()) => {},
            Err(e) => {
                return Err(e);
            },
        }
        match registry.set_inbox_url(inbox_url) {
            Ok(()) => {},
            Err(e) => {
                return Err(e);
            },
        }
        assert(registry@ == (RegistryRecord {
            bump,
            version: VERSION,
            authority: authority@,
            name: name@,
            inbox_url: inbox_url@,
            created_at: timestamp,
            updated_at: timestamp,
        }));
        Ok(registry)
    }

    /// Replaces the name. A name over `MAX_NAME_LEN` bytes fails with
    /// `NameTooLong` and leaves the record as it was.
    pub fn set_name(&mut self, name: &str) -> (r: Result<(), ProgramError>)
        ensures
            encode_utf8(name@).len() > MAX_NAME_LEN ==> r == Err::<(), ProgramError>(
                AgentMailProgramError::NameTooLong.spec_into(),
            ) && *final(self) == *old(self),
            encode_utf8(name@).len() <= MAX_NAME_LEN ==> r is Ok && final(self)@ == (
            RegistryRecord { name: name@, ..old(self)@ }),
    {
        if name.as_bytes().len() > MAX_NAME_LEN {
            return Err(AgentMailProgramError::NameTooLong.into());
        }
        self.name = name.to_owned();
        Ok(())
    }

    /// Replaces the inbox URL. A URL over `MAX_INBOX_URL_LEN` bytes fails
    /// with `InboxUrlTooLong` and leaves the record as it was.
    pub fn set_inbox_url(&mut self, inbox_url: &str) -> (r: Result<(), ProgramError>)
        ensures
            encode_utf8(inbox_url@).len() > MAX_INBOX_URL_LEN ==> r == Err::<(), ProgramError>(
                AgentMailProgramError::InboxUrlTooLong.spec_into(),
            ) && *final(self) == *old(self),
            encode_utf8(inbox_url@).len() <= MAX_INBOX_URL_LEN ==> r is Ok && final(self)@ == (
            RegistryRecord { inbox_url: inbox_url@, ..old(self)@ }),
    {
        if inbox_url.as_bytes().len() > MAX_INBOX_URL_LEN {
            return Err(AgentMailProgramError::InboxUrlTooLong.into());
        }
        self.inbox_url = inbox_url.to_owned();
        Ok(())
    }

    /// The name.
    pub fn get_name(&self) -> (r: Result<String, ProgramError>)
        ensures
            r matches Ok(s) && s@ == self.name@,
    {
        Ok(self.name.clone())
    }

    /// The inbox URL.
    pub fn get_inbox_url(&self) -> (r: Result<String, ProgramError>)
        ensures
            r matches Ok(s) && s@ == self.inbox_url@,
    {
        Ok(self.inbox_url.clone())
    }

    /// Sets the time of the last change.
    pub fn touch(&mut self, timestamp: i64)
        ensures
            final(self)@ == (RegistryRecord { updated_at: timestamp, ..old(self)@ }),
    {
        self.updated_at = timestamp;
    }

    /// Succeeds exactly when `provided_authority` is the record's authority;
    /// otherwise fails with `InvalidAuthority`.
    pub fn validate_authority(&self, provided_authority: &Address) -> (r: Result<(), ProgramError>)
        ensures
            r == if self.authority@ == provided_authority@ {
                Ok::<(), ProgramError>(())
            } else {
                Err(AgentMailProgramError::InvalidAuthority.spec_into())
            },
    {
        if !self.authority.equals(provided_authority) {
            return Err(AgentMailProgramError::InvalidAuthority.into());
        }
        Ok(())
    }

    /// The record's bytes, as a record slot stores them.
    pub fn to_bytes_inner(&self) -> (r: Vec<u8>)
        requires
            self@.wf(),
        ensures
            r@ == encode_record(self@),
            r@.len() == DATA_LEN,
    {
        let mut data: Vec<u8> = Vec::with_capacity(DATA_LEN);
        data.push(self.bump);
        data.push(self.version);
        push_zeros(&mut data, 6);
        push_bytes(&mut data, self.authority.bytes.as_slice());
        push_str_field(&mut data, self.name.as_str(), MAX_NAME_LEN);
        push_str_field(&mut data, self.inbox_url.as_str(), MAX_INBOX_URL_LEN);
        push_i64_le(&mut data, self.created_at);
        push_i64_le(&mut data, self.updated_at);
        assert(data@ =~= encode_record(self@));
        data
    }

    /// The record in the typed-account envelope: header, then record.
    pub fn to_bytes(&self) -> (r: Vec<u8>)
        requires
            self@.wf(),
        ensures
            r@ == encode_account(self@),
            r@.len() == LEN,
    {
        let inner = self.to_bytes_inner();
        let mut data: Vec<u8> = Vec::with_capacity(LEN);
        data.push(DISCRIMINATOR);
        data.push(VERSION);
        push_bytes(&mut data, inner.as_slice());
        assert(data@ =~= encode_account(self@));
        data
    }

    /// Reads a record from the typed-account envelope: header, then record.
    pub fn from_bytes(data: &[u8]) -> (r: Result<AgentRegistry, ProgramError>)
        ensures
            match decode_account(data@) {
                Ok(rec) => r matches Ok(reg) && reg@ == rec,
                Err(e) => r == Err::<AgentRegistry, ProgramError>(e),
            },
    {
        match check_header(data, DISCRIMINATOR, VERSION, LEN) {
            Ok(()) => {},
            Err(e) => {
                return Err(e);
            },
        }
        let inner = &data[2..LEN];
        Self::from_bytes_inner(inner)
    }

    /// The seeds of the record's address, without the bump.
    pub fn seeds(&self) -> (r: Vec<Vec<u8>>)
        ensures
            r@.len() == 2,
            r@[0]@ == PREFIX@,
            r@[1]@ == self.authority@,
    {
        let mut prefix: Vec<u8> = Vec::new();
        push_bytes(&mut prefix, PREFIX.as_slice());
        let mut key: Vec<u8> = Vec::new();
        push_bytes(&mut key, self.authority.bytes.as_slice());
        let mut seeds: Vec<Vec<u8>> = Vec::new();
        seeds.push(prefix);
        seeds.push(key);
        seeds
    }

    /// The seeds that sign for the record's address: prefix, authority, bump.
    pub fn seeds_with_bump(&self, bump: u8) -> (r: Vec<Vec<u8>>)
        ensures
            r@.len() == 3,
            r@[0]@ == PREFIX@,
            r@[1]@ == self.authority@,
            r@[2]@ == seq![bump],
    {
        let mut seeds = self.seeds();
        let mut b: Vec<u8> = Vec::new();
        b.push(bump);
        seeds.push(b);
        seeds
    }

    /// Succeeds exactly when `account` sits at the address derived from the
    /// record's authority, `bump` and `program_id`; otherwise, and when that
    /// bump derives no address, fails with `InvalidSeeds`.
    pub fn validate_pda(&self, account: &AccountView, program_id: &Address, bump: u8) -> (r: Result<
        (),
        ProgramError,
    >)
        ensures
            r == if spec_registry_address(self.authority@, bump, program_id@) == Some(
                account.address@,
            ) {
                Ok::<(), ProgramError>(())
            } else {
                Err(ProgramError::InvalidSeeds)
            },
    {
        match registry_address(&self.authority, bump, program_id) {
            Some(expected) => {
                if !account.address.equals(&expected) {
                    return Err(ProgramError::InvalidSeeds);
                }
                Ok(())
            },
            None => Err(ProgramError::InvalidSeeds),
        }
    }

    /// Reads the record stored in `data` (a record slot's bytes) and checks,
    /// with the bump stored in it, that it lives at `account`'s address.
    pub fn from_account(data: &[u8], account: &AccountView, program_id: &Address) -> (r: Result<
        AgentRegistry,
        ProgramError,
    >)
        ensures
            match decode_record(data@) {
                Ok(rec) => if spec_registry_address(rec.authority, rec.bump, program_id@) == Some(
                    account.address@,
                ) {
                    r matches Ok(reg) && reg@ == rec
                } else {
                    r == Err::<AgentRegistry, ProgramError>(ProgramError::InvalidSeeds)
                },
                Err(e) => r == Err::<AgentRegistry, ProgramError>(e),
            },
    {
        let state = match Self::from_bytes_inner(data) {
            Ok(s) => s,
            Err(e) => {
                return Err(e);
            },
        };
        match state.validate_pda(account, program_id, state.bump) {
            Ok(()) => Ok(state),
            Err(e) => Err(e),
        }
    }

    /// Reads a record from its bytes, as a record slot stores them.
    pub fn from_bytes_inner(data: &[u8]) -> (r: Result<AgentRegistry, ProgramError>)
        ensures
            match decode_record(data@) {
                Ok(rec) => r matches Ok(reg) && reg@ == rec,
                Err(e) => r == Err::<AgentRegistry, ProgramError>(e),
            },
    {
        if data.len() != DATA_LEN {
            return Err(AgentMailProgramError::InvalidAccountSize.into());
        }
        if data[1] != VERSION {
            return Err(ProgramError::InvalidAccountData);
        }
        let name = match read_str(
            data,
            NAME_OFFSET,
            MAX_NAME_LEN,
            AgentMailProgramError::InvalidNameLength.into(),
        ) {
            Ok((s, _)) => s,
            Err(e) => {
                return Err(e);
            },
        };
        let inbox_url = match read_str(
            data,
            INBOX_URL_OFFSET,
            MAX_INBOX_URL_LEN,
            AgentMailProgramError::InvalidInboxUrlLength.into(),
        ) {
            Ok((s, _)) => s,
            Err(e) => {
                return Err(e);
            },
        };
        let mut key: [u8; 32] = [0u8; 32];
        let mut i: usize = 0;
        while i < 32
            invariant
                i <= 32,
                data@.len() == DATA_LEN,
                forall|j: int| 0 <= j < i ==> key@[j] == data@[AUTHORITY_OFFSET + j],
            decreases 32 - i,
        {
            key[i] = data[AUTHORITY_OFFSET + i];
            i = i + 1;
        }
        let authority = Address::new_from_array(key);
        assert(authority@ =~= data@.subrange(AUTHORITY_OFFSET as int, NAME_OFFSET as int));
        Ok(
            AgentRegistry {
                bump: data[0],
                version: data[1],
                authority,
                name,
                inbox_url,
                created_at: read_i64_le(data, CREATED_AT_OFFSET),
                updated_at: read_i64_le(data, UPDATED_AT_OFFSET),
            },
        )
    }
}

} // verus!
