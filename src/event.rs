use vstd::prelude::*;

verus! {

/// One line read from a watched file, with the path of that file.
pub struct LineEvent {
    pub content: String,
    pub source: String,
}

impl LineEvent {
    pub fn new(content: String, source: String) -> (r: LineEvent)
        ensures
            r.content@ == content@,
            r.source@ == source@,
    {
        LineEvent { content, source }
    }
}

} // verus!
