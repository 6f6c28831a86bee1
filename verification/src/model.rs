use vstd::prelude::*;

use crate::values::{BirthDate, Email, NonEmptyString};

verus! {

/// First and last name, each known non-empty.
#[derive(Clone, Debug)]
pub struct FullName {
    pub first_name: NonEmptyString,
    pub last_name: NonEmptyString,
}

/// The delivery medium an address belongs to.
#[derive(Clone, Copy, PartialEq, Eq, Structural, Debug)]
pub enum ChannelKind {
    Email,
    Slack,
}

/// Where a greeting is delivered: a mail address or a chat handle.
#[derive(Debug)]
pub enum Address {
    Email(Email),
    Slack(String),
}

impl Address {
    /// The channel this address belongs to.
    pub open spec fn channel_spec(&self) -> ChannelKind {
        match self {
            Address::Email(_) => ChannelKind::Email,
            Address::Slack(_) => ChannelKind::Slack,
        }
    }

    pub fn channel(&self) -> (c: ChannelKind)
        ensures
            c == self.channel_spec(),
    {
        match self {
            Address::Email(_) => ChannelKind::Email,
            Address::Slack(_) => ChannelKind::Slack,
        }
    }
}

impl Clone for Address {
    fn clone(&self) -> (r: Self)
        ensures
            r == *self,
    {
        match self {
            Address::Email(e) => Address::Email(e.clone()),
            Address::Slack(h) => Address::Slack(h.clone()),
        }
    }
}

/// One employee record: already-validated values only, borrowed read-only
/// by the dispatch engine.
#[derive(Clone, Debug)]
pub struct Employee {
    pub name: FullName,
    pub address: Address,
    pub birth_date: BirthDate,
}

/// What is said in a greeting; both parts are known non-empty.
#[derive(Clone, Debug)]
pub struct Message {
    pub subject: NonEmptyString,
    pub body: NonEmptyString,
}

impl Message {
    /// The fixed birthday greeting; its construction is proven never to
    /// fail, since the literal is non-empty.
    pub fn greeting() -> (m: Message)
        ensures
            m.subject@ == "Happy birthday"@,
            m.body@ == "Happy birthday"@,
            m.subject@.len() > 0,
            m.body@.len() > 0,
    {
        proof {
            reveal_strlit("Happy birthday");
        }
        Message {
            subject: NonEmptyString::from_nonempty("Happy birthday".to_owned()),
            body: NonEmptyString::from_nonempty("Happy birthday".to_owned()),
        }
    }
}

/// One message paired with one destination, built fresh for exactly one
/// delivery attempt.
#[derive(Clone, Debug)]
pub struct Envelope {
    pub to: Address,
    pub message: Message,
}

} // verus!
