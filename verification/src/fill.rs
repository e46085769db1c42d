//! What a chunk holds: zero bytes, or fresh bytes from the system's secure
//! random source before every write.

use vstd::prelude::*;

verus! {

/// How the chunk is filled.
#[derive(Clone, Copy, Debug, PartialEq, Eq, Structural)]
pub enum Mode {
    /// The chunk is all zero bytes and is never touched.
    Zero,
    /// The chunk is filled anew from the secure random source before every write.
    Random,
}

/// The secure random source could not deliver: the code it gave.
#[derive(Clone, Copy, Debug, PartialEq, Eq, Structural)]
pub struct EntropyError {
    pub code: u32,
}

/// The error type of the `getrandom` crate, carried from its call to `error_code`.
#[verifier::external_type_specification]
#[verifier::external_body]
pub struct ExGetrandomError(getrandom::Error);

/// Calls `getrandom::getrandom` on the whole of `buf`. Believed of it: the
/// buffer keeps its length, and on an empty buffer the call succeeds, as its
/// documentation says. Nothing is claimed of the bytes, nor of when the call
/// succeeds on a buffer that is not empty.
#[verifier::external_body]
fn system_random(buf: &mut Vec<u8>) -> (r: Result<(), getrandom::Error>)
    ensures
        final(buf)@.len() == old(buf)@.len(),
        old(buf)@.len() == 0 ==> r.is_ok(),
{
    getrandom::getrandom(buf.as_mut_slice())
}

/// Calls `getrandom::Error::code`, which hands out a `NonZeroU32`. Believed of
/// it: the code is not zero.
#[verifier::external_body]
fn error_code(error: &getrandom::Error) -> (code: u32)
    ensures
        code != 0,
{
    error.code().get()
}

/// The chunk of `len` zero bytes.
pub open spec fn zeros(len: nat) -> Seq<u8> {
    Seq::new(len, |i: int| 0u8)
}

/// Makes `buf` ready for the next write. In `Zero` mode nothing is touched and
/// nothing can fail. In `Random` mode every byte is drawn anew; where the
/// random source fails, so does this, with the source's code, and the chunk
/// must not be written. A chunk of no bytes needs no random source: there
/// nothing fails in either mode. Whether the source delivers for a chunk that
/// holds bytes is not known beforehand; [`entropy_outcome`] says what becomes
/// of each answer of the source.
pub fn fill_chunk(buf: &mut Vec<u8>, mode: Mode) -> (r: Result<(), EntropyError>)
    ensures
        final(buf)@.len() == old(buf)@.len(),
        mode == Mode::Zero || old(buf)@.len() == 0 ==> r.is_ok() && final(buf)@ == old(buf)@,
        r matches Err(e) ==> e.code != 0,
{
    match mode {
        Mode::Zero => Ok(()),
        Mode::Random => {
            let drawn = system_random(buf);
            assert(old(buf)@.len() == 0 ==> buf@ =~= old(buf)@);
            entropy_outcome(drawn)
        },
    }
}

/// What the random source's answer means for the chunk: the chunk is ready
/// exactly when the source delivered, and a failure carries the source's
/// code, which is never zero.
pub fn entropy_outcome(drawn: Result<(), getrandom::Error>) -> (r: Result<(), EntropyError>)
    ensures
        r.is_ok() == drawn.is_ok(),
        r matches Err(e) ==> e.code != 0,
{
    match drawn {
        Ok(()) => Ok(()),
        Err(error) => Err(EntropyError { code: error_code(&error) }),
    }
}

} // verus!
