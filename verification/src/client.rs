//! The sandbox-side interpretation of what comes back over the channel.
//!
//! The descriptor-transfer primitive reports one receive as a raw triple:
//! its return code, the errno it left behind, and the descriptor slot it
//! filled.  Classifying that triple is a decision of the library; the
//! receive itself is not.

use vstd::prelude::*;

verus! {

/// The return code the descriptor-transfer primitive uses for a denial
/// instead of a transferred descriptor.
pub const DENIAL_MARKER: i32 = -127;

/// What one descriptor-or-denial receive yielded.
#[derive(Debug, PartialEq, Eq, Clone, Copy)]
pub enum OpenReply {
    /// A transferred descriptor, now owned by this side.
    Descriptor(i32),
    /// The broker's unified denial: policy refusal or open failure, the two
    /// indistinguishable on the wire by design.
    Denied,
    /// The receive itself failed.
    Failure,
}

/// Classify the raw result of one descriptor-or-denial receive.
pub fn interpret_recvmsg(ret: i32, errno: i32, fd: i32) -> (r: OpenReply)
    ensures
        ret == DENIAL_MARKER ==> r is Denied,
        ret != DENIAL_MARKER && (ret < 0 || errno != 0 || fd < 0) ==> r is Failure,
        ret != DENIAL_MARKER && ret >= 0 && errno == 0 && fd >= 0 ==> r == OpenReply::Descriptor(
            fd,
        ),
{
    if ret == DENIAL_MARKER {
        OpenReply::Denied
    } else if ret < 0 || errno != 0 || fd < 0 {
        OpenReply::Failure
    } else {
        OpenReply::Descriptor(fd)
    }
}

} // verus!
