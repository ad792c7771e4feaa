use vstd::prelude::*;
use crate::error::VaultError;

verus! {

/// Length of the header that precedes an encoded account record.
pub const HEADER_LEN: usize = 8;

/// Length of an encoded vault record: two 32-byte identities.
pub const VAULT_RECORD_LEN: usize = 64;

/// A type tag stored in the first byte of an account region.
pub trait Discriminator {
    spec fn spec_discriminator() -> u8;

    fn discriminator() -> (r: u8)
        ensures
            r == Self::spec_discriminator(),
    ;
}

/// Decoding of an account record from its whole region, header included.
pub trait AccountDeserialize: Sized {
    spec fn decodes_to(data: Seq<u8>, r: Result<Self, VaultError>) -> bool;

    fn try_from_bytes(data: &[u8]) -> (r: Result<Self, VaultError>)
        ensures
            Self::decodes_to(data@, r),
    ;
}

/// The persisted vault record: which token it holds and who may move it.
#[derive(Clone, Copy, Debug, PartialEq, Eq)]
pub struct VaultAccount {
    pub mint: [u8; 32],
    pub authority: [u8; 32],
}

/// Mathematical model of a vault record.
pub struct VaultRecord {
    pub mint: Seq<u8>,
    pub authority: Seq<u8>,
}

impl View for VaultAccount {
    type V = VaultRecord;

    open spec fn view(&self) -> VaultRecord {
        VaultRecord { mint: self.mint@, authority: self.authority@ }
    }
}

/// The discriminator byte of a vault record region. It is non-zero, so a
/// freshly allocated, all-zero region is never taken for a record.
pub open spec fn vault_discriminator() -> u8 {
    1
}

/// The fixed-width encoding of a record: mint, then authority.
pub open spec fn encode_record(v: VaultRecord) -> Seq<u8> {
    v.mint + v.authority
}

/// What a region decodes to. The discriminator is checked before anything
/// else is read; the length must then be exactly header plus record.
pub open spec fn decode_region(data: Seq<u8>) -> Result<VaultRecord, VaultError> {
    if data.len() == 0 {
        Err(VaultError::Corrupt)
    } else if data[0] != vault_discriminator() {
        Err(VaultError::TypeMismatch)
    } else if data.len() != HEADER_LEN + VAULT_RECORD_LEN {
        Err(VaultError::Corrupt)
    } else {
        Ok(VaultRecord { mint: data.subrange(8, 40), authority: data.subrange(40, 72) })
    }
}

/// The 32 bytes of `data` that start at `off`, as a key.
pub fn key_at(data: &[u8], off: usize) -> (r: [u8; 32])
    requires
        off + 32 <= data@.len(),
    ensures
        r@ == data@.subrange(off as int, off + 32),
{
    let n = data.len();
    let mut r: [u8; 32] = [0u8; 32];
    let mut i: usize = 0;
    while i < 32
        invariant
            off + 32 <= data@.len(),
            n == data@.len(),
            0 <= i <= 32,
            r@.len() == 32,
            forall|j: int| 0 <= j < i ==> r@[j] == data@[off + j],
        decreases 32 - i,
    {
        r[i] = data[off + i];
        i = i + 1;
    }
    assert(r@ =~= data@.subrange(off as int, off + 32));
    r
}

/// Whether two keys hold the same bytes.
pub fn keys_equal(a: &[u8; 32], b: &[u8; 32]) -> (r: bool)
    ensures
        r == (a@ == b@),
{
    let mut i: usize = 0;
    while i < 32
        invariant
            0 <= i <= 32,
            a@.len() == 32,
            b@.len() == 32,
            forall|j: int| 0 <= j < i ==> a@[j] == b@[j],
        decreases 32 - i,
    {
        if a[i] != b[i] {
            assert(a@[i as int] != b@[i as int]);
            return false;
        }
        i = i + 1;
    }
    assert(a@ =~= b@);
    true
}

impl Discriminator for VaultAccount {
    open spec fn spec_discriminator() -> u8 {
        vault_discriminator()
    }

    fn discriminator() -> (r: u8) {
        1
    }
}

impl AccountDeserialize for VaultAccount {
    open spec fn decodes_to(data: Seq<u8>, r: Result<VaultAccount, VaultError>) -> bool {
        match r {
            Ok(v) => decode_region(data) == Ok::<VaultRecord, VaultError>(v@),
            Err(e) => decode_region(data) == Err::<VaultRecord, VaultError>(e),
        }
    }

    fn try_from_bytes(data: &[u8]) -> (r: Result<VaultAccount, VaultError>) {
        if data.len() == 0 {
            return Err(VaultError::Corrupt);
        }
        if data[0] != Self::discriminator() {
            return Err(VaultError::TypeMismatch);
        }
        if data.len() != HEADER_LEN + VAULT_RECORD_LEN {
            return Err(VaultError::Corrupt);
        }
        let mint = key_at(data, 8);
        let authority = key_at(data, 40);
        Ok(VaultAccount { mint, authority })
    }
}

impl VaultAccount {
    /// Size in bytes of the encoded record, header excluded.
    pub fn size() -> (r: usize)
        ensures
            r == VAULT_RECORD_LEN,
    {
        VAULT_RECORD_LEN
    }

    /// The record's fixed-width encoding.
    pub fn to_bytes(&self) -> (r: Vec<u8>)
        ensures
            r@ == encode_record(self@),
    {
        let mut r: Vec<u8> = Vec::new();
        let mut i: usize = 0;
        while i < 32
            invariant
                0 <= i <= 32,
                self.mint@.len() == 32,
                r@ =~= self.mint@.subrange(0, i as int),
            decreases 32 - i,
        {
            r.push(self.mint[i]);
            i = i + 1;
        }
        i = 0;
        while i < 32
            invariant
                0 <= i <= 32,
                self.mint@.len() == 32,
                self.authority@.len() == 32,
                r@ =~= self.mint@ + self.authority@.subrange(0, i as int),
            decreases 32 - i,
        {
            r.push(self.authority[i]);
            i = i + 1;
        }
        assert(self.authority@.subrange(0, 32) =~= self.authority@);
        r
    }

    /// Writes this record into a freshly allocated vault region: the
    /// discriminator into the first byte and the encoded record after the
    /// header. The reserved header bytes are left as they were. A region of
    /// any other length than header plus record is refused and left alone.
    pub fn init_region(&self, data: &mut Vec<u8>) -> (r: Result<(), VaultError>)
        ensures
            old(data)@.len() != HEADER_LEN + VAULT_RECORD_LEN ==> r == Err::<(), VaultError>(
                VaultError::Corrupt,
            ) && final(data)@ == old(data)@,
            old(data)@.len() == HEADER_LEN + VAULT_RECORD_LEN ==> r is Ok && final(data)@
                == seq![vault_discriminator()] + old(data)@.subrange(1, 8) + encode_record(
                self@,
            ),
    {
        if data.len() != HEADER_LEN + VAULT_RECORD_LEN {
            return Err(VaultError::Corrupt);
        }
        let bytes = self.to_bytes();
        data.set(0, Self::discriminator());
        let mut i: usize = 0;
        while i < VAULT_RECORD_LEN
            invariant
                0 <= i <= VAULT_RECORD_LEN,
                bytes@ == encode_record(self@),
                bytes@.len() == VAULT_RECORD_LEN,
                data@.len() == HEADER_LEN + VAULT_RECORD_LEN,
                data@[0] == vault_discriminator(),
                forall|j: int| 1 <= j < 8 ==> data@[j] == old(data)@[j],
                forall|j: int| 0 <= j < i ==> data@[8 + j] == bytes@[j],
            decreases VAULT_RECORD_LEN - i,
        {
            data.set(HEADER_LEN + i, bytes[i]);
            i = i + 1;
        }
        assert(data@ =~= seq![vault_discriminator()] + old(data)@.subrange(1, 8) + encode_record(
            self@,
        ));
        Ok(())
    }
}

/// The program address and bump that solana_program derives from a list
/// holding one seed and a program id; `None` where no bump gives an address
/// off the curve.
pub uninterp spec fn program_address_of(seed: Seq<u8>, program_id: Seq<u8>) -> Option<(Seq<u8>, u8)>;

/// The seed of the vault's derived address: the bytes of "vault".
pub open spec fn vault_seed() -> Seq<u8> {
    seq![118u8, 97u8, 117u8, 108u8, 116u8]
}

/// The vault's derived address and bump for a program id.
pub open spec fn vault_address_of(program_id: Seq<u8>) -> Option<(Seq<u8>, u8)> {
    program_address_of(vault_seed(), program_id)
}

/// An address and bump, with the address as a sequence of bytes.
pub open spec fn address_view(r: Option<([u8; 32], u8)>) -> Option<(Seq<u8>, u8)> {
    match r {
        Some((a, b)) => Some((a@, b)),
        None => None,
    }
}

/// Relies on solana_program's `Pubkey::try_find_program_address`, called
/// with the single seed `seed`: its result depends on the seed and the
/// program id alone.
#[verifier::external_body]
fn try_find_program_address(seed: &Vec<u8>, program_id: &[u8; 32]) -> (r: Option<([u8; 32], u8)>)
    ensures
        address_view(r) == program_address_of(seed@, program_id@),
{
    let id = solana_program::pubkey::Pubkey::new_from_array(*program_id);
    match solana_program::pubkey::Pubkey::try_find_program_address(&[seed.as_slice()], &id) {
        Some((address, bump)) => Some((address.to_bytes(), bump)),
        None => None,
    }
}

/// The bytes of the vault seed, for signing on the vault's behalf.
pub fn vault_seed_bytes() -> (r: Vec<u8>)
    ensures
        r@ == vault_seed(),
{
    let mut r: Vec<u8> = Vec::new();
    r.push(118u8);
    r.push(97u8);
    r.push(117u8);
    r.push(108u8);
    r.push(116u8);
    assert(r@ =~= vault_seed());
    r
}

/// Derives the vault's address and bump afresh from the program id.
pub fn find_vault_address(program_id: &[u8; 32]) -> (r: Option<([u8; 32], u8)>)
    ensures
        address_view(r) == vault_address_of(program_id@),
{
    let seed = vault_seed_bytes();
    try_find_program_address(&seed, program_id)
}

/// Deriving the vault address is deterministic: two derivations for the
/// same program id give the same address and the same bump.
pub proof fn derivation_is_deterministic(
    id1: [u8; 32],
    id2: [u8; 32],
    r1: Option<([u8; 32], u8)>,
    r2: Option<([u8; 32], u8)>,
)
    requires
        id1@ == id2@,
        address_view(r1) == vault_address_of(id1@),
        address_view(r2) == vault_address_of(id2@),
    ensures
        r1 == r2,
{
    broadcast use vstd::array::group_array_axioms;
    if let (Some((a1, b1)), Some((a2, b2))) = (r1, r2) {
        assert(a1@ == a2@);
        assert(a1 =~= a2);
    }
}

/// A record's region decodes back to the same record, whatever the reserved
/// header bytes hold.
pub proof fn decode_after_encode(v: VaultRecord, reserved: Seq<u8>)
    requires
        v.mint.len() == 32,
        v.authority.len() == 32,
        reserved.len() == 7,
    ensures
        decode_region(seq![vault_discriminator()] + reserved + encode_record(v)) == Ok::<
            VaultRecord,
            VaultError,
        >(v),
{
    let d = seq![vault_discriminator()] + reserved + encode_record(v);
    assert(d.subrange(8, 40) =~= v.mint);
    assert(d.subrange(40, 72) =~= v.authority);
}

/// A region whose first byte is not the vault discriminator never decodes;
/// in particular an all-zero, uninitialized region is refused.
pub proof fn foreign_region_is_rejected(data: Seq<u8>)
    requires
        data.len() > 0,
        data[0] != vault_discriminator(),
    ensures
        decode_region(data) == Err::<VaultRecord, VaultError>(VaultError::TypeMismatch),
{
}

} // verus!
