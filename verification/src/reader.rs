//! Decisions of the background master reader.
//!
//! The reader repeatedly attempts a bounded read on the master
//! descriptor.  Every successful read — the empty one included — is
//! emitted as one record holding a lossy text rendering and the exact
//! bytes in hexadecimal.  The error number of a vacated terminal is
//! the normal end of the session and stops the activity quietly; any
//! other error stops it as a transport failure.

use vstd::prelude::*;

use crate::hex::hex_dump;
use crate::hex::spec_hex_dump;

verus! {

/// The Linux error number reported on a master read once every
/// slave-side writer is gone: the vacated-terminal condition.
pub const VACATED_ERRNO: i32 = 5;

/// The lossy UTF-8 text that a byte sequence renders to.
pub uninterp spec fn lossy_text_of(bytes: Seq<u8>) -> Seq<char>;

/// Relies on String::from_utf8_lossy: the rendered text depends on
/// the bytes alone.
#[verifier::external_body]
fn lossy_text(bytes: &[u8]) -> (r: String)
    ensures
        r@ == lossy_text_of(bytes@),
{
    String::from_utf8_lossy(bytes).into_owned()
}

/// One emitted record: what one read returned, as lossy text and as
/// the exact byte values in hexadecimal.
pub struct ReadRecord {
    /// The lossy UTF-8 rendering of the bytes read.
    pub text: String,
    /// The bytes read, rendered as a hex line.
    pub hex: Vec<u8>,
}

/// What the background reader does after one read attempt.
pub enum ReaderStep {
    /// Bytes arrived (possibly none): emit this record and read on.
    Emit(ReadRecord),
    /// The terminal is vacated: the normal end of the session; stop
    /// without raising an error.
    StopVacated,
    /// A real transport failure with this error number: stop and
    /// report it.
    StopFailure(i32),
}

/// Decide the reader's next step from the outcome of one master read.
/// Data — empty data included — is emitted as one record; the
/// vacated-terminal error number ends the activity quietly; every
/// other error ends it as a failure carrying its error number.
pub fn reader_step(outcome: Result<&[u8], i32>) -> (step: ReaderStep)
    ensures
        outcome matches Ok(data) ==> step matches ReaderStep::Emit(rec) && rec.text@
            == lossy_text_of(data@) && rec.hex@ == spec_hex_dump(data@),
        outcome matches Err(e) ==> (if e == VACATED_ERRNO {
            step is StopVacated
        } else {
            step == ReaderStep::StopFailure(e)
        }),
{
    match outcome {
        Ok(data) => ReaderStep::Emit(
            ReadRecord { text: lossy_text(data), hex: hex_dump(data) },
        ),
        Err(e) => {
            if e == VACATED_ERRNO {
                ReaderStep::StopVacated
            } else {
                ReaderStep::StopFailure(e)
            }
        },
    }
}

} // verus!
