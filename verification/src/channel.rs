use vstd::prelude::*;

use crate::model::{Address, ChannelKind, Envelope};

verus! {

/// Why one delivery attempt failed.
#[derive(Clone, Debug, PartialEq, Eq)]
pub enum DeliveryError {
    /// The transport refused or could not reach the destination.
    TransportFailure(String),
    /// `send` was asked to deliver an envelope its channel cannot address.
    WrongChannel,
}

/// One pluggable delivery channel. A handler says which envelopes it can
/// address, and delivers those it can; the engine selects by that
/// capability before any delivery attempt.
pub trait ChannelHandler {
    /// Which addresses this handler's channel covers.
    spec fn can_handle_spec(&self, to: Address) -> bool;

    /// Pure capability check used for selection; no side effects.
    fn can_handle(&self, envelope: &Envelope) -> (r: bool)
        ensures
            r == self.can_handle_spec(envelope.to),
    ;

    /// Attempt delivery. Meant to be called only after `can_handle`
    /// answered true for the same envelope; a handler handed a foreign
    /// envelope must refuse it with `WrongChannel` rather than deliver.
    fn send(&self, envelope: &Envelope) -> (r: Result<(), DeliveryError>)
        ensures
            !self.can_handle_spec(envelope.to) ==> r == Err::<(), DeliveryError>(
                DeliveryError::WrongChannel,
            ),
    ;
}

/// Delivers greetings to chat handles. The transport itself is out of
/// scope, so a matching envelope is accepted as delivered.
#[derive(Clone, Copy, Debug)]
pub struct SlackService;

impl ChannelHandler for SlackService {
    open spec fn can_handle_spec(&self, to: Address) -> bool {
        to.channel_spec() == ChannelKind::Slack
    }

    fn can_handle(&self, envelope: &Envelope) -> (r: bool) {
        match &envelope.to {
            Address::Slack(_) => true,
            Address::Email(_) => false,
        }
    }

    fn send(&self, envelope: &Envelope) -> (r: Result<(), DeliveryError>) {
        match &envelope.to {
            Address::Slack(_) => Ok(()),
            Address::Email(_) => Err(DeliveryError::WrongChannel),
        }
    }
}

/// Delivers greetings to mail addresses. The transport itself is out of
/// scope, so a matching envelope is accepted as delivered.
#[derive(Clone, Copy, Debug)]
pub struct EmailService;

impl ChannelHandler for EmailService {
    open spec fn can_handle_spec(&self, to: Address) -> bool {
        to.channel_spec() == ChannelKind::Email
    }

    fn can_handle(&self, envelope: &Envelope) -> (r: bool) {
        match &envelope.to {
            Address::Email(_) => true,
            Address::Slack(_) => false,
        }
    }

    fn send(&self, envelope: &Envelope) -> (r: Result<(), DeliveryError>) {
        match &envelope.to {
            Address::Email(_) => Ok(()),
            Address::Slack(_) => Err(DeliveryError::WrongChannel),
        }
    }
}

} // verus!
