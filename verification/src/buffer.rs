//! Forward reading from a [`bytes::Bytes`] buffer.
//!
//! The decoder borrows the caller's buffer and reads it front to back. What
//! the buffer still holds is modelled as a sequence of bytes; every read
//! hands out its head and leaves its tail. The read operations themselves
//! belong to the `bytes` crate: their contracts below are taken on trust
//! from that crate's source.

use vstd::prelude::*;
use bytes::Buf;
use bytes::Bytes;
use bytes::TryGetError;

verus! {

/// `bytes::Bytes`, the buffer that frames are read from. Nothing of its
/// inside is known here; what it holds is spoken of through [`unread`].
#[verifier::external_type_specification]
#[verifier::external_body]
pub struct ExBytes(bytes::Bytes);

/// `bytes::TryGetError`, the error of a read from a buffer that holds too
/// little. Nothing is said of what it holds.
#[verifier::external_type_specification]
#[verifier::external_body]
pub struct ExTryGetError(bytes::TryGetError);

/// The bytes that `buffer` has yet to hand out, in reading order.
pub uninterp spec fn unread(buffer: Bytes) -> Seq<u8>;

/// The array of the first three bytes of `s`.
pub open spec fn array3(s: Seq<u8>) -> [u8; 3] {
    [s[0], s[1], s[2]]
}

/// The array of the first six bytes of `s`.
pub open spec fn array6(s: Seq<u8>) -> [u8; 6] {
    [s[0], s[1], s[2], s[3], s[4], s[5]]
}

/// The array of the first seven bytes of `s`.
pub open spec fn array7(s: Seq<u8>) -> [u8; 7] {
    [s[0], s[1], s[2], s[3], s[4], s[5], s[6]]
}

/// The array of the first ten bytes of `s`.
pub open spec fn array10(s: Seq<u8>) -> [u8; 10] {
    [s[0], s[1], s[2], s[3], s[4], s[5], s[6], s[7], s[8], s[9]]
}

/// The array of the first thirteen bytes of `s`.
pub open spec fn array13(s: Seq<u8>) -> [u8; 13] {
    [s[0], s[1], s[2], s[3], s[4], s[5], s[6], s[7], s[8], s[9], s[10], s[11], s[12]]
}

/// `Bytes::copy_from_slice`: a fresh buffer that holds a copy of `bytes`,
/// none of it read yet.
#[verifier::external_body]
pub(crate) fn copy_from_slice(bytes: &[u8]) -> (r: Bytes)
    ensures
        unread(r) == bytes@,
{
    Bytes::copy_from_slice(bytes)
}

/// `Buf::remaining` on `Bytes`: the number of bytes not yet read. The
/// crate returns the length of the buffer, which is the length of what is
/// modelled as unread.
#[verifier::external_body]
pub(crate) fn remaining(buffer: &Bytes) -> (n: usize)
    ensures
        n == unread(*buffer).len(),
{
    buffer.remaining()
}

/// `Buf::try_get_u8`: with at least one byte unread it returns the first
/// and advances past it; with none it returns an error and leaves the
/// buffer as it was.
#[verifier::external_body]
pub(crate) fn try_get_u8(buffer: &mut Bytes) -> (r: Result<u8, TryGetError>)
    ensures
        unread(*old(buffer)).len() >= 1 ==> r == Ok::<u8, TryGetError>(unread(*old(buffer))[0])
            && unread(*final(buffer)) == unread(*old(buffer)).skip(1),
        unread(*old(buffer)).len() == 0 ==> r is Err && unread(*final(buffer)) == unread(
            *old(buffer),
        ),
{
    buffer.try_get_u8()
}

/// `Buf::get_u8`: returns the first unread byte and advances past it. The
/// crate panics on an empty buffer, which the precondition rules out.
#[verifier::external_body]
pub(crate) fn get_u8(buffer: &mut Bytes) -> (r: u8)
    requires
        unread(*old(buffer)).len() >= 1,
    ensures
        r == unread(*old(buffer))[0],
        unread(*final(buffer)) == unread(*old(buffer)).skip(1),
{
    buffer.get_u8()
}

/// `Buf::copy_to_slice` into a fresh array of `N` bytes: the array receives
/// the first `N` unread bytes and the buffer advances past them. The crate
/// panics with fewer than `N` bytes unread, which the precondition rules
/// out.
#[verifier::external_body]
pub(crate) fn get_bytes<const N: usize>(buffer: &mut Bytes) -> (r: [u8; N])
    requires
        unread(*old(buffer)).len() >= N,
    ensures
        r@ == unread(*old(buffer)).take(N as int),
        unread(*final(buffer)) == unread(*old(buffer)).skip(N as int),
{
    let mut r = [0u8; N];
    buffer.copy_to_slice(&mut r);
    r
}

/// Reads three bytes.
pub(crate) fn read3(buffer: &mut Bytes) -> (r: [u8; 3])
    requires
        unread(*old(buffer)).len() >= 3,
    ensures
        r == array3(unread(*old(buffer))),
        unread(*final(buffer)) == unread(*old(buffer)).skip(3),
{
    let r: [u8; 3] = get_bytes(buffer);
    assert(r =~= array3(unread(*old(buffer))));
    r
}

/// Reads seven bytes.
pub(crate) fn read7(buffer: &mut Bytes) -> (r: [u8; 7])
    requires
        unread(*old(buffer)).len() >= 7,
    ensures
        r == array7(unread(*old(buffer))),
        unread(*final(buffer)) == unread(*old(buffer)).skip(7),
{
    let r: [u8; 7] = get_bytes(buffer);
    assert(r =~= array7(unread(*old(buffer))));
    r
}

/// Reads ten bytes.
pub(crate) fn read10(buffer: &mut Bytes) -> (r: [u8; 10])
    requires
        unread(*old(buffer)).len() >= 10,
    ensures
        r == array10(unread(*old(buffer))),
        unread(*final(buffer)) == unread(*old(buffer)).skip(10),
{
    let r: [u8; 10] = get_bytes(buffer);
    assert(r =~= array10(unread(*old(buffer))));
    r
}

/// Reads thirteen bytes.
pub(crate) fn read13(buffer: &mut Bytes) -> (r: [u8; 13])
    requires
        unread(*old(buffer)).len() >= 13,
    ensures
        r == array13(unread(*old(buffer))),
        unread(*final(buffer)) == unread(*old(buffer)).skip(13),
{
    let r: [u8; 13] = get_bytes(buffer);
    assert(r =~= array13(unread(*old(buffer))));
    r
}

} // verus!
