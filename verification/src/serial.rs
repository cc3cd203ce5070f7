//! Serials for the messages that the gateway sends.

use vstd::prelude::*;

verus! {

/// `zbus::message::PrimaryHeader::new` and `PrimaryHeader::serial_num`: the
/// next value of the counter from which `zbus` numbers every message that this
/// process sends, so that the gateway's serials never meet those of the
/// connection's own calls. The counter skips zero. Which value comes is not
/// stated: it depends on how many messages the process has made so far.
#[verifier::external_body]
pub(crate) fn next_serial() -> (serial: u32)
    ensures
        serial != 0,
{
    zbus::message::PrimaryHeader::new(zbus::message::Type::MethodCall, 100).serial_num().get()
}

} // verus!
