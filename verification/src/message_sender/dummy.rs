use vstd::prelude::*;

use super::{MessageSender, PublishRequest, PublishRequestView};
use crate::message::{Message, MessageView};

verus! {

/// A sender that publishes nothing.
pub struct DummyMessageSender {}

impl DummyMessageSender {
    /// The sender.
    pub fn new() -> Self {
        DummyMessageSender {  }
    }
}

impl MessageSender for DummyMessageSender {
    open spec fn transmits(&self, message: MessageView) -> Option<PublishRequestView> {
        None
    }

    fn send_text_message(&self, message: Message) -> (request: Option<PublishRequest>) {
        None
    }
}

} // verus!
