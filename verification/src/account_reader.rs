//! Reading the fields of an account one after the other.

use vstd::prelude::*;

use anchor_lang::AnchorDeserialize;

use crate::error::Error;
use crate::pubkey::Pubkey;

verus! {

/// The number that bytes stand for, the least significant byte first.
pub open spec fn le_value(bytes: Seq<u8>) -> nat
    decreases bytes.len(),
{
    if bytes.len() == 0 {
        0
    } else {
        bytes[0] as nat + 256 * le_value(bytes.drop_first())
    }
}

/// What is left of an input after a read of `size` bytes succeeded, and whether
/// one succeeds.
pub open spec fn advanced(before: Seq<u8>, after: Seq<u8>, size: nat, success: bool) -> bool {
    &&& success == (size <= before.len())
    &&& success ==> after == before.skip(size as int)
}

/// `u8::deserialize` of `AnchorDeserialize`: takes one byte off the input, and
/// fails if there is none.
#[verifier::external_body]
fn deserialize_u8(input: &mut &[u8]) -> (value: Option<u8>)
    ensures
        advanced(old(input)@, final(input)@, 1, value is Some),
        value matches Some(byte) ==> byte == old(input)@[0],
{
    u8::deserialize(input).ok()
}

/// `u32::deserialize` of `AnchorDeserialize`: takes four bytes off the input,
/// the least significant first, and fails if there are fewer.
#[verifier::external_body]
fn deserialize_u32(input: &mut &[u8]) -> (value: Option<u32>)
    ensures
        advanced(old(input)@, final(input)@, 4, value is Some),
        value matches Some(number) ==> number == le_value(old(input)@.take(4)),
{
    u32::deserialize(input).ok()
}

/// `u64::deserialize` of `AnchorDeserialize`: takes eight bytes off the input,
/// the least significant first, and fails if there are fewer.
#[verifier::external_body]
fn deserialize_u64(input: &mut &[u8]) -> (value: Option<u64>)
    ensures
        advanced(old(input)@, final(input)@, 8, value is Some),
        value matches Some(number) ==> number == le_value(old(input)@.take(8)),
{
    u64::deserialize(input).ok()
}

/// `u128::deserialize` of `AnchorDeserialize`: takes sixteen bytes off the
/// input, the least significant first, and fails if there are fewer.
#[verifier::external_body]
fn deserialize_u128(input: &mut &[u8]) -> (value: Option<u128>)
    ensures
        advanced(old(input)@, final(input)@, 16, value is Some),
        value matches Some(number) ==> number == le_value(old(input)@.take(16)),
{
    u128::deserialize(input).ok()
}

/// `<[u8; 8]>::deserialize` of `AnchorDeserialize`: takes eight bytes off the
/// input as they are, and fails if there are fewer.
#[verifier::external_body]
fn deserialize_8_bytes(input: &mut &[u8]) -> (value: Option<[u8; 8]>)
    ensures
        advanced(old(input)@, final(input)@, 8, value is Some),
        value matches Some(bytes) ==> bytes@ == old(input)@.take(8),
{
    <[u8; 8]>::deserialize(input).ok()
}

/// `<[u8; 32]>::deserialize` of `AnchorDeserialize`: takes thirty-two bytes off
/// the input as they are, and fails if there are fewer.
#[verifier::external_body]
fn deserialize_32_bytes(input: &mut &[u8]) -> (value: Option<[u8; 32]>)
    ensures
        advanced(old(input)@, final(input)@, 32, value is Some),
        value matches Some(bytes) ==> bytes@ == old(input)@.take(32),
{
    <[u8; 32]>::deserialize(input).ok()
}

/// A place in the data of an account.
pub struct AccountReader<'a> {
    /// The data from this place on.
    rest: &'a [u8],
    /// All of the data.
    data: Ghost<Seq<u8>>,
    /// How much of the data is before this place.
    position: Ghost<int>,
}

impl<'a> AccountReader<'a> {
    pub closed spec fn data(self) -> Seq<u8> {
        self.data@
    }

    pub closed spec fn position(self) -> int {
        self.position@
    }

    pub closed spec fn well_formed(self) -> bool {
        &&& 0 <= self.position@ <= self.data@.len()
        &&& self.rest@ == self.data@.skip(self.position@)
    }

    /// The `size` bytes from this place on.
    pub open spec fn next_bytes(self, size: int) -> Seq<u8> {
        self.data().subrange(self.position(), self.position() + size)
    }

    /// What a read of `size` bytes does to the place: it moves on if that many
    /// are left.
    pub open spec fn reads<T>(self, after: AccountReader<'a>, size: int, result: Result<T, Error>)
        -> bool {
        &&& result is Ok <==> self.position() + size <= self.data().len()
        &&& result matches Err(error) ==> error == Error::UnexpectedLengthOfInput
        &&& result is Ok ==> {
            &&& after.well_formed()
            &&& after.data() == self.data()
            &&& after.position() == self.position() + size
        }
    }

    /// The start of the data.
    pub fn new(data: &'a [u8]) -> (reader: Self)
        ensures
            reader.well_formed(),
            reader.data() == data@,
            reader.position() == 0,
    {
        assert(data@.skip(0) =~= data@);
        AccountReader { rest: data, data: Ghost(data@), position: Ghost(0) }
    }

    /// Reads one byte.
    pub fn read_u8(&mut self) -> (result: Result<u8, Error>)
        requires
            old(self).well_formed(),
        ensures
            old(self).reads(*final(self), 1, result),
            result matches Ok(value) ==> value == old(self).data()[old(self).position()],
    {
        match deserialize_u8(&mut self.rest) {
            Some(value) => {
                proof {
                    lemma_advance(self.data@, self.position@, 1);
                    self.position@ = self.position@ + 1;
                }
                Ok(value)
            },
            None => Err(Error::UnexpectedLengthOfInput),
        }
    }

    /// Reads a `u32`, the least significant byte first.
    pub fn read_u32(&mut self) -> (result: Result<u32, Error>)
        requires
            old(self).well_formed(),
        ensures
            old(self).reads(*final(self), 4, result),
            result matches Ok(value) ==> value == le_value(old(self).next_bytes(4)),
    {
        match deserialize_u32(&mut self.rest) {
            Some(value) => {
                proof {
                    lemma_advance(self.data@, self.position@, 4);
                    self.position@ = self.position@ + 4;
                }
                Ok(value)
            },
            None => Err(Error::UnexpectedLengthOfInput),
        }
    }

    /// Reads a `u64`, the least significant byte first.
    pub fn read_u64(&mut self) -> (result: Result<u64, Error>)
        requires
            old(self).well_formed(),
        ensures
            old(self).reads(*final(self), 8, result),
            result matches Ok(value) ==> value == le_value(old(self).next_bytes(8)),
    {
        match deserialize_u64(&mut self.rest) {
            Some(value) => {
                proof {
                    lemma_advance(self.data@, self.position@, 8);
                    self.position@ = self.position@ + 8;
                }
                Ok(value)
            },
            None => Err(Error::UnexpectedLengthOfInput),
        }
    }

    /// Reads a `u128`, the least significant byte first.
    pub fn read_u128(&mut self) -> (result: Result<u128, Error>)
        requires
            old(self).well_formed(),
        ensures
            old(self).reads(*final(self), 16, result),
            result matches Ok(value) ==> value == le_value(old(self).next_bytes(16)),
    {
        match deserialize_u128(&mut self.rest) {
            Some(value) => {
                proof {
                    lemma_advance(self.data@, self.position@, 16);
                    self.position@ = self.position@ + 16;
                }
                Ok(value)
            },
            None => Err(Error::UnexpectedLengthOfInput),
        }
    }

    /// Reads eight bytes as they are.
    pub fn read_8_bytes(&mut self) -> (result: Result<[u8; 8], Error>)
        requires
            old(self).well_formed(),
        ensures
            old(self).reads(*final(self), 8, result),
            result matches Ok(value) ==> value@ == old(self).next_bytes(8),
    {
        match deserialize_8_bytes(&mut self.rest) {
            Some(value) => {
                proof {
                    lemma_advance(self.data@, self.position@, 8);
                    self.position@ = self.position@ + 8;
                }
                Ok(value)
            },
            None => Err(Error::UnexpectedLengthOfInput),
        }
    }

    /// Reads an address.
    pub fn read_pubkey(&mut self) -> (result: Result<Pubkey, Error>)
        requires
            old(self).well_formed(),
        ensures
            old(self).reads(*final(self), 32, result),
            result matches Ok(value) ==> value@ == old(self).next_bytes(32),
    {
        match deserialize_32_bytes(&mut self.rest) {
            Some(value) => {
                proof {
                    lemma_advance(self.data@, self.position@, 32);
                    self.position@ = self.position@ + 32;
                }
                Ok(Pubkey { bytes: value })
            },
            None => Err(Error::UnexpectedLengthOfInput),
        }
    }
}

proof fn lemma_advance(data: Seq<u8>, position: int, size: int)
    requires
        0 <= position <= position + size <= data.len(),
    ensures
        data.skip(position).skip(size) == data.skip(position + size),
        data.skip(position).take(size) == data.subrange(position, position + size),
{
    assert(data.skip(position).skip(size) =~= data.skip(position + size));
    assert(data.skip(position).take(size) =~= data.subrange(position, position + size));
}

} // verus!
