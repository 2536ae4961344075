//! The board's side of the link: commands assembled from the bytes read from
//! the UART in a fixed-size packet buffer, and log events with messages of
//! bounded length.
use vstd::prelude::*;

use crate::command::{DeviceEvent, LogMessageLevel};
use crate::packet::{find_zero, first_zero};
use crate::text::utf8_len;

verus! {

#[verifier::external_type_specification]
#[verifier::external_body]
#[verifier::reject_recursive_types(T)]
pub struct ExHeaplessVec<T, const N: usize>(heapless::Vec<T, N>);

#[verifier::external_type_specification]
#[verifier::external_body]
pub struct ExHeaplessString<const N: usize>(heapless::String<N>);

/// The number of bytes a packet buffer holds.
pub const PACKET_CAPACITY: usize = 256;

/// The bytes held by a packet buffer.
pub uninterp spec fn packet_bytes(v: heapless::Vec<u8, 256>) -> Seq<u8>;

/// The text held by a bounded string.
pub uninterp spec fn short_text(s: heapless::String<128>) -> Seq<char>;

/// `heapless::Vec::new`: an empty buffer.
#[verifier::external_body]
fn packet_new() -> (v: heapless::Vec<u8, 256>)
    ensures
        packet_bytes(v) == Seq::<u8>::empty(),
{
    heapless::Vec::new()
}

/// `heapless::Vec::extend_from_slice`: appends `data` when it fits within the
/// capacity and reports whether it did; otherwise the buffer is unchanged.
#[verifier::external_body]
fn packet_extend(v: &mut heapless::Vec<u8, 256>, data: &[u8]) -> (fits: bool)
    ensures
        fits == (packet_bytes(*old(v)).len() + data@.len() <= PACKET_CAPACITY),
        fits ==> packet_bytes(*final(v)) == packet_bytes(*old(v)) + data@,
        !fits ==> packet_bytes(*final(v)) == packet_bytes(*old(v)),
{
    v.extend_from_slice(data).is_ok()
}

/// `heapless::Vec::as_slice`: the bytes held.
#[verifier::external_body]
fn packet_as_slice(v: &heapless::Vec<u8, 256>) -> (s: &[u8])
    ensures
        s@ == packet_bytes(*v),
{
    v.as_slice()
}

/// `heapless::Vec::from_slice`: a buffer holding `data`, when it fits.
#[verifier::external_body]
fn packet_from_slice(data: &[u8]) -> (r: Option<heapless::Vec<u8, 256>>)
    ensures
        r is Some <==> data@.len() <= PACKET_CAPACITY,
        r matches Some(v) ==> packet_bytes(v) == data@,
{
    heapless::Vec::from_slice(data).ok()
}

/// `heapless::String::try_from(&str)`: the text, when its UTF-8 encoding fits
/// in 128 bytes.
#[verifier::external_body]
fn short_string(text: &str) -> (r: Option<heapless::String<128>>)
    ensures
        r is Some <==> utf8_len(text@) <= 128,
        r matches Some(s) ==> short_text(s) == text@,
{
    heapless::String::try_from(text).ok()
}

/// The bytes held after `data` arrived: appended when they fit, dropped
/// otherwise.
pub open spec fn after_arrival(held: Seq<u8>, data: Seq<u8>) -> Seq<u8> {
    if held.len() + data.len() <= PACKET_CAPACITY {
        held + data
    } else {
        held
    }
}

/// Collects the bytes of the commands the host sends; a command ends with a
/// zero byte.
pub struct CommandAssembler {
    packet: heapless::Vec<u8, 256>,
}

impl CommandAssembler {
    /// The bytes received and not yet taken as a command.
    pub closed spec fn held(&self) -> Seq<u8> {
        packet_bytes(self.packet)
    }

    /// Nothing received yet.
    pub fn new() -> (a: CommandAssembler)
        ensures
            a.held() == Seq::<u8>::empty(),
    {
        CommandAssembler { packet: packet_new() }
    }

    /// Takes in the bytes of one read. An empty read does nothing. Otherwise
    /// the bytes are kept when the buffer has room for all of them, and the
    /// first complete command (the bytes before the first zero) is handed out
    /// and removed with its zero.
    pub fn receive(&mut self, data: &[u8]) -> (cmd: Option<Vec<u8>>)
        requires
            old(self).held().len() <= PACKET_CAPACITY,
        ensures
            final(self).held().len() <= PACKET_CAPACITY,
            data@.len() == 0 ==> cmd is None && final(self).held() == old(self).held(),
            data@.len() > 0 ==> {
                let all = after_arrival(old(self).held(), data@);
                match first_zero(all) {
                    Some(p) => cmd matches Some(c) && c@ == all.take(p) && final(self).held()
                        == all.skip(p + 1),
                    None => cmd is None && final(self).held() == all,
                }
            },
    {
        if data.len() == 0 {
            return None;
        }
        let _fits = packet_extend(&mut self.packet, data);
        let held = packet_as_slice(&self.packet);
        match find_zero(held) {
            None => None,
            Some(end) => {
                let mut cmd: Vec<u8> = Vec::new();
                let mut i: usize = 0;
                while i < end
                    invariant
                        i <= end,
                        end < held@.len(),
                        cmd@ == held@.take(i as int),
                    decreases end - i,
                {
                    cmd.push(held[i]);
                    proof {
                        assert(cmd@ =~= held@.take(i + 1));
                    }
                    i = i + 1;
                }
                let rest = &held[end + 1..held.len()];
                match packet_from_slice(rest) {
                    Some(p) => {
                        self.packet = p;
                    },
                    None => {},
                }
                proof {
                    assert(rest@ == held@.skip(end + 1));
                }
                Some(cmd)
            },
        }
    }
}

/// A log event of the board; the message must fit in 128 bytes.
pub fn log_event(level: LogMessageLevel, message: &str) -> (e: DeviceEvent<heapless::String<128>>)
    requires
        utf8_len(message@) <= 128,
    ensures
        e matches DeviceEvent::LogMessage { level: l, message: m } && l == level && short_text(m)
            == message@,
{
    match short_string(message) {
        Some(m) => DeviceEvent::LogMessage { level, message: m },
        None => DeviceEvent::InitSignature,
    }
}

} // verus!
