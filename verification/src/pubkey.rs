//! Account addresses as plain 32-byte values, and the well-known program ids.
use vstd::prelude::*;

verus! {

/// A 32-byte account address.
#[derive(Clone, Copy, Debug, PartialEq, Eq)]
pub struct Pubkey {
    pub bytes: [u8; 32],
}

impl View for Pubkey {
    type V = Seq<u8>;

    open spec fn view(&self) -> Seq<u8> {
        self.bytes@
    }
}

impl Pubkey {
    /// Wraps raw address bytes.
    pub fn new_from_array(bytes: [u8; 32]) -> (r: Pubkey)
        ensures
            r.bytes == bytes,
    {
        Pubkey { bytes }
    }

    /// The raw address bytes.
    pub fn to_bytes(&self) -> (r: [u8; 32])
        ensures
            r == self.bytes,
    {
        self.bytes
    }

    /// The address bytes as an owned seed.
    pub fn to_vec(&self) -> (r: Vec<u8>)
        ensures
            r@ == self@,
    {
        vstd::slice::slice_to_vec(self.bytes.as_slice())
    }

    /// Byte-wise equality of two addresses.
    pub fn key_eq(&self, other: &Pubkey) -> (r: bool)
        ensures
            r == (self@ == other@),
    {
        let mut i: usize = 0;
        while i < 32
            invariant
                0 <= i <= 32,
                self@.len() == 32,
                other@.len() == 32,
                forall|j: int| 0 <= j < i ==> self@[j] == other@[j],
            decreases 32 - i,
        {
            if self.bytes[i] != other.bytes[i] {
                return false;
            }
            i = i + 1;
        }
        assert(self@ =~= other@);
        true
    }
}

/// Address of the SPL token program (`TokenkegQfeZyiNwAJbNbGKPFXCWuBvf9Ss623VQ5DA`).
pub open spec fn token_program_id() -> Seq<u8> {
    seq![
        6u8, 221, 246, 225, 215, 101, 161, 147, 217, 203, 225, 70, 206, 235, 121, 172,
        28, 180, 133, 237, 95, 91, 55, 145, 58, 140, 245, 133, 126, 255, 0, 169,
    ]
}

/// Address of the associated token account program
/// (`ATokenGPvbdGVxr1b2hvZbsiqW5xWH25efTNsLJA8knL`).
pub open spec fn associated_token_program_id() -> Seq<u8> {
    seq![
        140u8, 151, 37, 143, 78, 36, 137, 241, 187, 61, 16, 41, 20, 142, 13, 131,
        11, 90, 19, 153, 218, 255, 16, 132, 4, 142, 123, 216, 219, 233, 248, 89,
    ]
}

/// Address of the system program (all zero bytes).
pub open spec fn system_program_id() -> Seq<u8> {
    Seq::new(32, |i: int| 0u8)
}

/// Address under which this escrow program is deployed
/// (`6iEFedqxjyCaJPcBZzp1w7D3TT8wPRCdvveMZe8FcgCm`).
pub open spec fn roast_program_id() -> Seq<u8> {
    seq![
        84u8, 218, 59, 135, 6, 107, 113, 126, 203, 45, 206, 23, 70, 189, 163, 231,
        154, 83, 227, 37, 186, 118, 75, 61, 241, 103, 110, 66, 166, 10, 142, 30,
    ]
}

/// The SPL token program's address.
pub fn token_program_key() -> (r: Pubkey)
    ensures
        r@ == token_program_id(),
{
    let r = Pubkey {
        bytes: [
            6u8, 221, 246, 225, 215, 101, 161, 147, 217, 203, 225, 70, 206, 235, 121, 172,
            28, 180, 133, 237, 95, 91, 55, 145, 58, 140, 245, 133, 126, 255, 0, 169,
        ],
    };
    assert(r@ =~= token_program_id());
    r
}

/// The associated token account program's address.
pub fn associated_token_program_key() -> (r: Pubkey)
    ensures
        r@ == associated_token_program_id(),
{
    let r = Pubkey {
        bytes: [
            140u8, 151, 37, 143, 78, 36, 137, 241, 187, 61, 16, 41, 20, 142, 13, 131,
            11, 90, 19, 153, 218, 255, 16, 132, 4, 142, 123, 216, 219, 233, 248, 89,
        ],
    };
    assert(r@ =~= associated_token_program_id());
    r
}

/// The system program's address.
pub fn system_program_key() -> (r: Pubkey)
    ensures
        r@ == system_program_id(),
{
    let r = Pubkey { bytes: [0u8; 32] };
    assert(r@ =~= system_program_id());
    r
}

/// The address under which this escrow program is deployed.
pub fn roast_program_key() -> (r: Pubkey)
    ensures
        r@ == roast_program_id(),
{
    let r = Pubkey {
        bytes: [
            84u8, 218, 59, 135, 6, 107, 113, 126, 203, 45, 206, 23, 70, 189, 163, 231,
            154, 83, 227, 37, 186, 118, 75, 61, 241, 103, 110, 66, 166, 10, 142, 30,
        ],
    };
    assert(r@ =~= roast_program_id());
    r
}

} // verus!
