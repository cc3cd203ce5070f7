//! The message as the gateway reads and rewrites it: the header fields that
//! decide where it goes, and the payload that it carries along untouched.

use crate::correlation::{CorrelationRecord, CorrelationView};
use vstd::prelude::*;

verus! {

/// The four kinds of message on the bus.
#[derive(Clone, Copy, Debug, PartialEq, Eq, Structural)]
pub enum MessageKind {
    MethodCall,
    MethodReturn,
    Error,
    Signal,
}

/// What the gateway does with a message, as its header alone decides.
#[derive(Clone, Copy, Debug, PartialEq, Eq, Structural)]
pub enum Handling {
    /// A signal that the gateway keeps to itself.
    Filtered,
    /// A reply: it goes where its correlation record says.
    Reply,
    /// A message to a named destination: the owner of the service is looked up.
    Addressed,
    /// Anything else, such as a broadcast signal: it passes as it is addressed.
    PassThrough,
}

/// A message of the bus. The body is opaque to the gateway: raw bytes and the
/// signature that types them.
#[derive(Clone, Debug, PartialEq, Eq)]
pub struct Message {
    pub kind: MessageKind,
    pub serial: u32,
    pub reply_serial: Option<u32>,
    pub sender: Option<String>,
    pub destination: Option<String>,
    pub interface: Option<String>,
    pub member: Option<String>,
    pub signature: String,
    pub body: Vec<u8>,
}

/// A message as a mathematical value.
pub struct MessageView {
    pub kind: MessageKind,
    pub serial: u32,
    pub reply_serial: Option<u32>,
    pub sender: Option<Seq<char>>,
    pub destination: Option<Seq<char>>,
    pub interface: Option<Seq<char>>,
    pub member: Option<Seq<char>>,
    pub signature: Seq<char>,
    pub body: Seq<u8>,
}

impl View for Message {
    type V = MessageView;

    open spec fn view(&self) -> MessageView {
        MessageView {
            kind: self.kind,
            serial: self.serial,
            reply_serial: self.reply_serial,
            sender: self.sender.deep_view(),
            destination: self.destination.deep_view(),
            interface: self.interface.deep_view(),
            member: self.member.deep_view(),
            signature: self.signature@,
            body: self.body@,
        }
    }
}

/// The member name of the signal that the gateway never forwards.
pub open spec fn filtered_member() -> Seq<char> {
    "NameAcquired"@
}

impl MessageView {
    /// Serials on the bus are never zero.
    pub open spec fn well_formed(self) -> bool {
        self.serial != 0 && self.reply_serial != Some(0u32)
    }

    /// The message is the signal that the gateway never forwards: its member
    /// is `NameAcquired`, whatever else its header says.
    pub open spec fn is_filtered(self) -> bool {
        self.member == Some(filtered_member())
    }

    /// What the gateway does with the message.
    pub open spec fn handling(self) -> Handling {
        if self.is_filtered() {
            Handling::Filtered
        } else if self.reply_serial is Some {
            Handling::Reply
        } else if self.destination is Some && self.interface is Some {
            Handling::Addressed
        } else {
            Handling::PassThrough
        }
    }

    /// The record that leads a reply to this message back to where the
    /// message came from.
    pub open spec fn origin(self) -> CorrelationView {
        CorrelationView { destination: self.sender, serial: self.serial }
    }

    /// This reply, addressed as the record of the answered message says: to
    /// the recorded sender, if there is one, and in reply to the recorded
    /// serial.
    pub open spec fn answering(self, record: CorrelationView) -> MessageView {
        MessageView {
            destination: if record.destination is Some {
                record.destination
            } else {
                self.destination
            },
            reply_serial: Some(record.serial),
            ..self
        }
    }

    /// This message, addressed to `owner`.
    pub open spec fn addressed_to(self, owner: Seq<char>) -> MessageView {
        MessageView { destination: Some(owner), ..self }
    }

    /// This message as it leaves the gateway: under the serial `serial`, and
    /// sent by `own_address` if the gateway's connection has one.
    pub open spec fn stamped(self, serial: u32, own_address: Option<Seq<char>>) -> MessageView {
        MessageView {
            serial: serial,
            sender: if own_address is Some {
                own_address
            } else {
                self.sender
            },
            ..self
        }
    }
}

/// A copy of an optional text.
pub fn clone_text(text: &Option<String>) -> (copy: Option<String>)
    ensures
        copy.deep_view() == text.deep_view(),
{
    match text {
        Some(value) => Some(value.clone()),
        None => None,
    }
}

impl Message {
    /// Tells whether both serials of the message are valid on the bus.
    pub fn is_well_formed(&self) -> (valid: bool)
        ensures
            valid == self@.well_formed(),
    {
        self.serial != 0 && match self.reply_serial {
            Some(serial) => serial != 0,
            None => true,
        }
    }

    /// Tells whether the message is the signal that the gateway never
    /// forwards.
    pub fn is_filtered(&self) -> (filtered: bool)
        ensures
            filtered == self@.is_filtered(),
    {
        match &self.member {
            Some(member) => {
                let name = "NameAcquired".to_owned();
                *member == name
            },
            None => false,
        }
    }

    /// What the gateway does with the message.
    pub fn handling(&self) -> (handling: Handling)
        ensures
            handling == self@.handling(),
    {
        if self.is_filtered() {
            Handling::Filtered
        } else if self.reply_serial.is_some() {
            Handling::Reply
        } else if self.destination.is_some() && self.interface.is_some() {
            Handling::Addressed
        } else {
            Handling::PassThrough
        }
    }

    /// The record that leads a reply to this message back to where the
    /// message came from.
    pub fn origin(&self) -> (record: CorrelationRecord)
        ensures
            record@ == self@.origin(),
    {
        CorrelationRecord { destination: clone_text(&self.sender), serial: self.serial }
    }

    /// This reply, addressed as `record` says.
    pub fn answering(self, record: CorrelationRecord) -> (reply: Message)
        ensures
            reply@ == self@.answering(record@),
    {
        let destination = match record.destination {
            Some(address) => Some(address),
            None => self.destination,
        };
        Message {
            kind: self.kind,
            serial: self.serial,
            reply_serial: Some(record.serial),
            sender: self.sender,
            destination: destination,
            interface: self.interface,
            member: self.member,
            signature: self.signature,
            body: self.body,
        }
    }

    /// This message, addressed to `owner`.
    pub fn addressed_to(self, owner: String) -> (message: Message)
        ensures
            message@ == self@.addressed_to(owner@),
    {
        Message {
            kind: self.kind,
            serial: self.serial,
            reply_serial: self.reply_serial,
            sender: self.sender,
            destination: Some(owner),
            interface: self.interface,
            member: self.member,
            signature: self.signature,
            body: self.body,
        }
    }

    /// This message as it leaves the gateway: under the serial `serial`, and
    /// sent by `own_address` if there is one.
    pub fn stamped(self, serial: u32, own_address: Option<String>) -> (message: Message)
        ensures
            message@ == self@.stamped(serial, own_address.deep_view()),
    {
        let sender = match own_address {
            Some(address) => Some(address),
            None => self.sender,
        };
        Message {
            kind: self.kind,
            serial: serial,
            reply_serial: self.reply_serial,
            sender: sender,
            destination: self.destination,
            interface: self.interface,
            member: self.member,
            signature: self.signature,
            body: self.body,
        }
    }
}

} // verus!
