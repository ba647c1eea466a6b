//! Recording the guest's captured output streams: each stream is drained
//! after the execution unit has fully terminated, and every non-empty drain
//! is kept as one distinct chunk.

use vstd::prelude::*;
use crate::data::VmResultStatus;

verus! {

/// The chunks one drain contributes: one chunk holding the drained text when
/// there is any, none for an empty drain, and none when the drain failed.
pub open spec fn spec_drained_chunks(read: Option<String>) -> Seq<String> {
    match read {
        Some(text) => if text@.len() == 0 {
            Seq::<String>::empty()
        } else {
            seq![text]
        },
        None => Seq::<String>::empty(),
    }
}

/// Records one drain of a captured stream. `read` is the text the drain
/// produced, or `None` when the stream could not be read. A non-empty drain
/// is appended as one chunk, so distinct flush events stay distinct; an
/// empty drain leaves no empty chunk; a failed drain changes nothing and
/// reports the stream-read failure.
pub fn record_drain(chunks: &mut Vec<String>, read: Option<String>) -> (outcome: Result<
    (),
    VmResultStatus,
>)
    ensures
        final(chunks)@ == old(chunks)@ + spec_drained_chunks(read),
        outcome == match read {
            Some(_) => Ok::<(), VmResultStatus>(()),
            None => Err::<(), VmResultStatus>(VmResultStatus::StreamReadFailure),
        },
{
    let ghost target: Seq<String> = old(chunks)@ + spec_drained_chunks(read);
    match read {
        None => {
            proof {
                assert(target =~= old(chunks)@);
            }
            Err(VmResultStatus::StreamReadFailure)
        },
        Some(text) => {
            if text.as_str().is_empty() {
                proof {
                    assert(target =~= old(chunks)@);
                }
            } else {
                chunks.push(text);
                proof {
                    assert(target =~= chunks@);
                }
            }
            Ok(())
        },
    }
}

} // verus!
