//! Causes of an operation failing for reasons other than the caller's request.

use vstd::prelude::*;
use vstd::string::*;
use crate::identity::{user_id_text, uuid_hyphenated};

verus! {

/// Why an operation failed internally.
#[derive(Clone, Debug, PartialEq, Eq)]
pub enum Fault {
    /// Outside work (database, mail, hashing, signing, configuration) failed
    /// with this message.
    Outside(String),
    /// The reply handed to an operation does not answer the work it asked for.
    UnexpectedReply,
    /// The owner of a stored token no longer exists.
    MissingUser(u128),
    /// An expiry instant does not fit the clock's range.
    ExpiryOutOfRange,
}

impl Fault {
    /// The text of the fault.
    pub open spec fn message_spec(&self) -> Seq<char> {
        match self {
            Fault::Outside(m) => m@,
            Fault::UnexpectedReply => "the reply does not answer the requested work"@,
            Fault::MissingUser(id) => "User with id '"@ + uuid_hyphenated(*id) + "' is missing,"@,
            Fault::ExpiryOutOfRange => "expiry time out of range"@,
        }
    }

    pub fn message(&self) -> (m: String)
        ensures
            m@ == self.message_spec(),
    {
        match self {
            Fault::Outside(m) => m.clone(),
            Fault::UnexpectedReply => String::from_str("the reply does not answer the requested work"),
            Fault::MissingUser(id) => {
                let mut m = String::from_str("User with id '");
                let id_text = user_id_text(*id);
                m.append(id_text.as_str());
                m.append("' is missing,");
                m
            },
            Fault::ExpiryOutOfRange => String::from_str("expiry time out of range"),
        }
    }
}

} // verus!
