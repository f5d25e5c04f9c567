//! The one-line-at-a-time consumption mode.
use vstd::prelude::*;
use crate::buffer::NextLine;

verus! {

/// Why a single-line read gave no line.
pub enum ReadError {
    /// The watcher's sequence of lines ended, which it never does in normal
    /// operation.
    Ended,
    /// The watcher failed, with its message.
    Watch(String),
}

/// Turns what the watcher handed back into the reader's answer: the line's
/// text and its file's path, or the reason why there is none.
pub fn read_result(next: NextLine) -> (r: Result<(String, String), ReadError>)
    ensures
        match next {
            NextLine::Line(e) => r matches Ok((content, source)) && content@ == e.content@
                && source@ == e.source@,
            NextLine::Ended => r matches Err(ReadError::Ended),
            NextLine::Failed(m) => r matches Err(ReadError::Watch(w)) && w@ == m@,
        },
{
    match next {
        NextLine::Line(e) => Ok((e.content, e.source)),
        NextLine::Ended => Err(ReadError::Ended),
        NextLine::Failed(m) => Err(ReadError::Watch(m)),
    }
}

} // verus!
