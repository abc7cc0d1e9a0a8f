//! Packet identities written as text.

use resol_vbus::ToPacketId;
use vstd::prelude::*;

verus! {

/// What `resol_vbus`'s `to_packet_id` reads from a packet identity written
/// as text, such as `00_0010_7210_10_0100`: channel, destination address,
/// source address and command, or `None` where it rejects the text.
pub uninterp spec fn parsed_packet_id(text: Seq<char>) -> Option<(u8, u16, u16, u16)>;

/// `<str as ToPacketId>::to_packet_id`: the four parts of the identity, or
/// the message of the crate's error.
#[verifier::external_body]
pub(crate) fn parse_packet_id(text: &str) -> (id: Result<(u8, u16, u16, u16), String>)
    ensures
        match id {
            Ok(parts) => parsed_packet_id(text@) == Some(parts),
            Err(_) => parsed_packet_id(text@) is None,
        },
{
    match text.to_packet_id() {
        Ok(id) => Ok((id.0, id.1, id.2, id.3)),
        Err(err) => Err(format!("{}", err)),
    }
}

} // verus!
