//! The semantic rules that a decoded message must meet before it is relayed,
//! kept apart from the codec so that rules can be added without touching it.
//! Today a message that decodes is accepted as it is.

use crate::message::Message;
use vstd::prelude::*;

verus! {

/// A semantic rule that a decoded message breaks.
#[derive(Clone, Debug)]
pub struct ValidationError {
    /// The rule that was broken, in words.
    pub rule: String,
}

/// Checks a decoded message against the semantic rules; every structurally
/// complete message passes unchanged.
pub fn validate(m: Message) -> (r: Result<Message, ValidationError>)
    ensures
        r matches Ok(v) && v@ == m@,
{
    Ok(m)
}

} // verus!
