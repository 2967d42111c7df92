use vstd::prelude::*;

verus! {

/// What a check decides: acceptance, or a rejection with its message.
pub enum Verdict {
    Accepted,
    Rejected(Seq<char>),
}

/// The result `r` of a check is the one that `v` describes.
pub open spec fn follows(r: Result<(), String>, v: Verdict) -> bool {
    match v {
        Verdict::Accepted => r is Ok,
        Verdict::Rejected(message) => r matches Err(e) && e@ == message,
    }
}

} // verus!
