use vstd::prelude::*;

use std::sync::mpsc::RecvError;

use crate::error::MadError;
use crate::frame::Frame;

verus! {

#[verifier::external_type_specification]
#[verifier::external_body]
pub struct ExRecvError(std::sync::mpsc::RecvError);

/// Why a decoder handed out no frame.
pub enum Error {
    /// libmad reported an error.
    Mad(MadError),
    /// The decoding side has finished and nothing more will come.
    Recv(RecvError),
}

/// What the decoding side's message `received` means for the decoder.
pub open spec fn classified(received: Result<Result<Frame, MadError>, RecvError>) -> Result<Frame, Error> {
    match received {
        Err(e) => Err(Error::Recv(e)),
        Ok(Err(e)) => Err(Error::Mad(e)),
        Ok(Ok(f)) => Ok(f),
    }
}

/// What the decoder yields for the classified message `r`.
pub open spec fn yielded(r: Result<Frame, Error>) -> Option<Result<Frame, MadError>> {
    match r {
        Err(Error::Recv(_)) => None,
        Err(Error::Mad(e)) => Some(Err(e)),
        Ok(f) => Some(Ok(f)),
    }
}

/// Classifies what the decoding side sent (or that it has finished).
pub fn frame_from_received(received: Result<Result<Frame, MadError>, RecvError>) -> (r: Result<Frame, Error>)
    ensures
        r == classified(received),
{
    match received {
        Err(e) => Err(Error::Recv(e)),
        Ok(Err(e)) => Err(Error::Mad(e)),
        Ok(Ok(frame)) => Ok(frame),
    }
}

/// The next item a decoder yields: nothing once the decoding side has finished,
/// else the frame or libmad's error.
pub fn next_item(r: Result<Frame, Error>) -> (item: Option<Result<Frame, MadError>>)
    ensures
        item == yielded(r),
{
    match r {
        Err(Error::Recv(_)) => None,
        Err(Error::Mad(e)) => Some(Err(e)),
        Ok(frame) => Some(Ok(frame)),
    }
}

/// A decoder yields exactly what the decoding side sent, in the same form, and
/// ends its iteration once the decoding side has finished.
pub proof fn law_items_are_what_was_sent(received: Result<Result<Frame, MadError>, RecvError>)
    ensures
        yielded(classified(received)) == match received {
            Err(_) => None,
            Ok(sent) => Some(sent),
        },
{
}

} // verus!
