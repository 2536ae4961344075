//! Framing of the serial link between host and controller board.
//!
//! Every packet is terminated by a zero byte. The board announces itself with
//! the signature `MICROSCOPE_COM_v0.1` (a packet of its own); the host drops
//! everything up to and including the first signature and its terminator, then
//! splits the stream into packets at the zero bytes.
use vstd::prelude::*;

use crate::command::Error;

verus! {

/// The signature the board sends when the link starts.
pub const COM_INIT_STR: &'static str = "MICROSCOPE_COM_v0.1";

/// The bytes of the signature (ASCII).
pub open spec fn init_signature() -> Seq<u8> {
    seq![
        77u8, 73u8, 67u8, 82u8, 79u8, 83u8, 67u8, 79u8, 80u8, 69u8, 95u8, 67u8, 79u8, 77u8, 95u8,
        118u8, 48u8, 46u8, 49u8,
    ]
}

fn init_signature_bytes() -> (v: Vec<u8>)
    ensures
        v@ == init_signature(),
{
    let v: Vec<u8> = vec![
        77u8, 73u8, 67u8, 82u8, 79u8, 83u8, 67u8, 79u8, 80u8, 69u8, 95u8, 67u8, 79u8, 77u8, 95u8,
        118u8, 48u8, 46u8, 49u8,
    ];
    proof {
        assert(v@ =~= init_signature());
    }
    v
}

/// Writes the signature packet (without its terminator) at the start of
/// `buffer` and returns its length; fails when the buffer is too small.
pub fn encode_init_signature(buffer: &mut [u8]) -> (r: Result<usize, Error>)
    ensures
        old(buffer)@.len() >= 19 ==> r == Ok::<usize, Error>(19) && final(buffer)@ == init_signature()
            + old(buffer)@.skip(19),
        old(buffer)@.len() < 19 ==> r == Err::<usize, Error>(Error::BufferTooSmall)
            && final(buffer)@ == old(buffer)@,
{
    let msg = init_signature_bytes();
    if buffer.len() >= msg.len() {
        let mut i: usize = 0;
        while i < msg.len()
            invariant
                msg@ == init_signature(),
                i <= msg.len(),
                buffer@.len() == old(buffer)@.len(),
                buffer@.len() >= 19,
                buffer@ == msg@.take(i as int) + old(buffer)@.skip(i as int),
            decreases msg.len() - i,
        {
            buffer[i] = msg[i];
            i = i + 1;
            proof {
                assert(buffer@ =~= msg@.take(i as int) + old(buffer)@.skip(i as int));
            }
        }
        proof {
            assert(msg@.take(19) == msg@);
        }
        Ok(msg.len())
    } else {
        Err(Error::BufferTooSmall)
    }
}

/// The position of the first zero byte, if any.
pub open spec fn first_zero(data: Seq<u8>) -> Option<int> {
    if exists|k: int| 0 <= k < data.len() && data[k] == 0 && forall|m: int| 0 <= m < k ==> data[m] != 0 {
        Some(
            choose|k: int|
                0 <= k < data.len() && data[k] == 0 && forall|m: int| 0 <= m < k ==> data[m] != 0,
        )
    } else {
        None
    }
}

/// The position of the first zero byte in `data`, if any.
pub fn find_zero(data: &[u8]) -> (r: Option<usize>)
    ensures
        r matches Some(k) ==> k < data@.len() && first_zero(data@) == Some(k as int),
        r is None ==> first_zero(data@) is None,
{
    let mut i: usize = 0;
    while i < data.len()
        invariant
            i <= data.len(),
            forall|m: int| 0 <= m < i ==> data@[m] != 0,
        decreases data.len() - i,
    {
        if data[i] == 0 {
            proof {
                let w = choose|w: int|
                    0 <= w < data@.len() && data@[w] == 0 && forall|m: int|
                        0 <= m < w ==> data@[m] != 0;
                if w < i {
                    assert(data@[w] != 0);
                }
                if i < w {
                    assert(data@[i as int] != 0);
                }
            }
            return Some(i);
        }
        i = i + 1;
    }
    proof {
        if exists|k: int|
            0 <= k < data@.len() && data@[k] == 0 && forall|m: int| 0 <= m < k ==> data@[m] != 0 {
            let w = choose|w: int|
                0 <= w < data@.len() && data@[w] == 0 && forall|m: int| 0 <= m < w ==> data@[m] != 0;
            assert(data@[w] != 0);
        }
    }
    None
}

/// The length of a COBS-encoded packet: the bytes before its zero terminator.
/// An encoding without terminator did not fit its buffer.
pub fn cobs_frame_length(encoded: &[u8]) -> (r: Result<usize, Error>)
    ensures
        match first_zero(encoded@) {
            Some(k) => r == Ok::<usize, Error>(k as usize),
            None => r == Err::<usize, Error>(Error::BufferTooSmall),
        },
{
    match find_zero(encoded) {
        Some(pos) => Ok(pos),
        None => Err(Error::BufferTooSmall),
    }
}

/// The signature occurs in `buf` at position `i`.
pub open spec fn signature_at(buf: Seq<u8>, i: int) -> bool {
    0 <= i && i + 19 <= buf.len() && buf.subrange(i, i + 19) == init_signature()
}

/// The position of the first signature in `buf`, if any.
pub open spec fn first_signature(buf: Seq<u8>) -> Option<int> {
    if exists|k: int| signature_at(buf, k) && forall|m: int| 0 <= m < k ==> !signature_at(buf, m) {
        Some(choose|k: int| signature_at(buf, k) && forall|m: int| 0 <= m < k ==> !signature_at(buf, m))
    } else {
        None
    }
}

/// The position of the first signature in `buf`, if any.
pub fn find_signature(buf: &[u8]) -> (r: Option<usize>)
    ensures
        r matches Some(i) ==> first_signature(buf@) == Some(i as int),
        r is None ==> first_signature(buf@) is None,
{
    let sig = init_signature_bytes();
    if buf.len() < sig.len() {
        proof {
            if exists|k: int|
                signature_at(buf@, k) && forall|m: int| 0 <= m < k ==> !signature_at(buf@, m) {
                let w = choose|w: int|
                    signature_at(buf@, w) && forall|m: int| 0 <= m < w ==> !signature_at(buf@, m);
                assert(signature_at(buf@, w));
            }
        }
        return None;
    }
    let n = buf.len() - sig.len() + 1;
    let mut i: usize = 0;
    while i < n
        invariant
            sig@ == init_signature(),
            sig.len() == 19,
            n == buf@.len() - 18,
            i <= n,
            forall|m: int| 0 <= m < i ==> !signature_at(buf@, m),
        decreases n - i,
    {
        let mut j: usize = 0;
        let mut same = true;
        while j < sig.len()
            invariant
                sig@ == init_signature(),
                sig.len() == 19,
                i + 19 <= buf.len(),
                j <= sig.len(),
                same == forall|m: int| 0 <= m < j ==> buf@[i + m] == sig@[m],
            decreases sig.len() - j,
        {
            if buf[i + j] != sig[j] {
                same = false;
            }
            j = j + 1;
        }
        if same {
            proof {
                assert(buf@.subrange(i as int, i + 19) =~= init_signature());
                assert(signature_at(buf@, i as int));
                let w = choose|w: int|
                    signature_at(buf@, w) && forall|m: int| 0 <= m < w ==> !signature_at(buf@, m);
                if w < i {
                    assert(!signature_at(buf@, w));
                }
                if i < w {
                    assert(!signature_at(buf@, i as int));
                }
            }
            return Some(i);
        }
        proof {
            let m = choose|m: int| 0 <= m < j && buf@[i + m] != sig@[m];
            assert(buf@.subrange(i as int, i + 19)[m] != init_signature()[m]);
        }
        i = i + 1;
    }
    proof {
        if exists|k: int|
            signature_at(buf@, k) && forall|m: int| 0 <= m < k ==> !signature_at(buf@, m) {
            let w = choose|w: int|
                signature_at(buf@, w) && forall|m: int| 0 <= m < w ==> !signature_at(buf@, m);
            assert(w < n);
            assert(!signature_at(buf@, w));
        }
    }
    None
}

/// The receiving side of the link: bytes read from the port but not yet
/// consumed, and whether the board's signature has been seen.
pub struct PacketReader {
    buffer: Vec<u8>,
    signature_received: bool,
}

impl PacketReader {
    /// The pending bytes.
    pub closed spec fn pending(&self) -> Seq<u8> {
        self.buffer@
    }

    /// Whether the signature has been seen.
    pub closed spec fn synced(&self) -> bool {
        self.signature_received
    }

    /// A reader that has seen nothing yet.
    pub fn new() -> (r: PacketReader)
        ensures
            r.pending() == Seq::<u8>::empty(),
            !r.synced(),
    {
        PacketReader { buffer: Vec::new(), signature_received: false }
    }

    /// Whether the signature has been seen.
    pub fn is_synced(&self) -> (b: bool)
        ensures
            b == self.synced(),
    {
        self.signature_received
    }

    /// The number of pending bytes.
    pub fn pending_len(&self) -> (n: usize)
        ensures
            n == self.pending().len(),
    {
        self.buffer.len()
    }

    /// Where the signature starts among the pending bytes, if it is there.
    pub fn signature_position(&self) -> (r: Option<usize>)
        ensures
            r matches Some(i) ==> first_signature(self.pending()) == Some(i as int),
            r is None ==> first_signature(self.pending()) is None,
    {
        find_signature(self.buffer.as_slice())
    }

    /// Adds bytes read from the port.
    pub fn feed(&mut self, data: &[u8])
        ensures
            final(self).pending() == old(self).pending() + data@,
            final(self).synced() == old(self).synced(),
    {
        let ghost start = self.buffer@;
        let mut i: usize = 0;
        while i < data.len()
            invariant
                i <= data.len(),
                self.buffer@ == start + data@.take(i as int),
                self.signature_received == old(self).signature_received,
            decreases data.len() - i,
        {
            self.buffer.push(data[i]);
            i = i + 1;
            proof {
                assert(self.buffer@ == start + data@.take(i as int));
            }
        }
        proof {
            assert(data@.take(data@.len() as int) == data@);
        }
    }

    /// The pending bytes from position `from` on, as the new pending bytes.
    fn drop_front(&mut self, from: usize)
        requires
            from <= old(self).buffer@.len(),
        ensures
            final(self).buffer@ == old(self).buffer@.skip(from as int),
            final(self).signature_received == old(self).signature_received,
    {
        let mut rest: Vec<u8> = Vec::new();
        let mut i: usize = from;
        while i < self.buffer.len()
            invariant
                from <= i <= self.buffer@.len(),
                rest@ == self.buffer@.subrange(from as int, i as int),
            decreases self.buffer.len() - i,
        {
            rest.push(self.buffer[i]);
            i = i + 1;
            proof {
                assert(rest@ == self.buffer@.subrange(from as int, i as int));
            }
        }
        self.buffer = rest;
    }

    /// Looks for the board's signature. Before it is seen, everything up to
    /// the first signature and the byte after it (its terminator) is dropped
    /// once the signature is found. Needs at least a signature's worth of
    /// pending bytes, and the terminator of a found signature.
    pub fn verify_signature(&mut self) -> (b: bool)
        requires
            !old(self).synced() ==> old(self).pending().len() >= 19,
            !old(self).synced() ==> (first_signature(old(self).pending()) matches Some(i) ==> i + 19
                < old(self).pending().len()),
        ensures
            old(self).synced() ==> b && *final(self) == *old(self),
            !old(self).synced() ==> match first_signature(old(self).pending()) {
                Some(i) => b && final(self).synced() && final(self).pending()
                    == old(self).pending().skip(i + 20),
                None => !b && !final(self).synced() && final(self).pending() == old(self).pending(),
            },
    {
        if self.signature_received {
            return true;
        }
        let sig = init_signature_bytes();
        let n = self.buffer.len() - sig.len() + 1;
        let mut i: usize = 0;
        while i < n
            invariant
                sig@ == init_signature(),
                sig.len() == 19,
                n == self.buffer@.len() - 18,
                n == self.buffer.len() - 18,
                !self.signature_received,
                !old(self).signature_received,
                self.buffer@ == old(self).buffer@,
                i <= n,
                forall|m: int| 0 <= m < i ==> !signature_at(self.buffer@, m),
                first_signature(self.buffer@) matches Some(k) ==> k + 19 < self.buffer@.len(),
            decreases n - i,
        {
            let mut j: usize = 0;
            let mut same = true;
            while j < sig.len()
                invariant
                    sig@ == init_signature(),
                    sig.len() == 19,
                    i + 19 <= self.buffer.len(),
                    j <= sig.len(),
                    same == forall|m: int| 0 <= m < j ==> self.buffer@[i + m] == sig@[m],
                decreases sig.len() - j,
            {
                if self.buffer[i + j] != sig[j] {
                    same = false;
                }
                j = j + 1;
            }
            if same {
                proof {
                    assert(self.buffer@.subrange(i as int, i + 19) =~= init_signature());
                    assert(signature_at(self.buffer@, i as int));
                    let w = choose|w: int|
                        signature_at(self.buffer@, w) && forall|m: int|
                            0 <= m < w ==> !signature_at(self.buffer@, m);
                    if w < i {
                        assert(!signature_at(self.buffer@, w));
                    }
                    if i < w {
                        assert(!signature_at(self.buffer@, i as int));
                    }
                    assert(first_signature(self.buffer@) == Some(i as int));
                    assert(i + 19 < self.buffer@.len());
                }
                self.drop_front(i + sig.len() + 1);
                self.signature_received = true;
                return true;
            }
            proof {
                let m = choose|m: int| 0 <= m < j && self.buffer@[i + m] != sig@[m];
                assert(self.buffer@.subrange(i as int, i + 19)[m] != init_signature()[m]);
            }
            i = i + 1;
        }
        proof {
            if exists|k: int|
                signature_at(self.buffer@, k) && forall|m: int| 0 <= m < k ==> !signature_at(self.buffer@, m) {
                let w = choose|w: int|
                    signature_at(self.buffer@, w) && forall|m: int|
                        0 <= m < w ==> !signature_at(self.buffer@, m);
                assert(w < n);
                assert(!signature_at(self.buffer@, w));
            }
        }
        false
    }

    /// The next complete packet (with its zero terminator), once the signature
    /// has been seen; the packet is removed from the pending bytes.
    pub fn next_packet(&mut self) -> (r: Option<Vec<u8>>)
        requires
            !old(self).synced() ==> old(self).pending().len() >= 19,
            !old(self).synced() ==> (first_signature(old(self).pending()) matches Some(i) ==> i + 19
                < old(self).pending().len()),
        ensures
            ({
                let after_sync = if old(self).synced() {
                    old(self).pending()
                } else {
                    match first_signature(old(self).pending()) {
                        Some(i) => old(self).pending().skip(i + 20),
                        None => old(self).pending(),
                    }
                };
                let synced = old(self).synced() || first_signature(old(self).pending()) is Some;
                &&& final(self).synced() == synced
                &&& if !synced {
                    r is None && final(self).pending() == old(self).pending()
                } else {
                    match first_zero(after_sync) {
                        Some(p) => r matches Some(packet) && packet@ == after_sync.take(p + 1)
                            && final(self).pending() == after_sync.skip(p + 1),
                        None => r is None && final(self).pending() == after_sync,
                    }
                }
            }),
    {
        if !self.verify_signature() {
            return None;
        }
        match find_zero(self.buffer.as_slice()) {
            Some(pos) => {
                let mut packet: Vec<u8> = Vec::new();
                let mut i: usize = 0;
                while i <= pos
                    invariant
                        pos < self.buffer.len(),
                        i <= pos + 1,
                        packet@ == self.buffer@.take(i as int),
                    decreases pos + 1 - i,
                {
                    packet.push(self.buffer[i]);
                    i = i + 1;
                    proof {
                        assert(packet@ == self.buffer@.take(i as int));
                    }
                }
                self.drop_front(pos + 1);
                Some(packet)
            },
            None => None,
        }
    }
}

proof fn lemma_signature_at_start(tail: Seq<u8>)
    ensures
        signature_at(init_signature() + tail, 0),
{
    let sig = init_signature();
    let stream = sig + tail;
    assert(stream.subrange(0, 19) =~= sig);
}

proof fn lemma_signature_first(tail: Seq<u8>)
    ensures
        first_signature(init_signature() + tail) == Some(0int),
{
    let stream = init_signature() + tail;
    lemma_signature_at_start(tail);
    assert(exists|k: int|
        signature_at(stream, k) && forall|m: int| 0 <= m < k ==> !signature_at(stream, m)) by {
        assert(forall|m: int| 0 <= m < 0 ==> !signature_at(stream, m));
    }
    let w = choose|w: int|
        signature_at(stream, w) && forall|m: int| 0 <= m < w ==> !signature_at(stream, m);
    if w > 0 {
        assert(!signature_at(stream, 0));
    }
}

proof fn lemma_first_zero_at_end(packet: Seq<u8>, rest: Seq<u8>)
    requires
        packet.len() > 0,
        packet.last() == 0,
        forall|i: int| 0 <= i < packet.len() - 1 ==> packet[i] != 0,
    ensures
        first_zero(packet + rest) == Some(packet.len() - 1),
{
    let both = packet + rest;
    let z = packet.len() - 1;
    assert(both[z] == 0);
    assert forall|m: int| 0 <= m < z implies both[m] != 0 by {
        assert(both[m] == packet[m]);
    }
    let k = choose|k: int| 0 <= k < both.len() && both[k] == 0 && forall|m: int| 0 <= m < k ==> both[m] != 0;
    if k < z {
        assert(both[k] != 0);
    }
    if z < k {
        assert(both[z] != 0);
    }
}

/// What the board writes is what the host reads: after the signature and its
/// terminator, a packet that ends with its only zero byte is found as the
/// first packet of the stream, and what follows it stays pending.
pub proof fn lemma_link_roundtrip(packet: Seq<u8>, rest: Seq<u8>)
    requires
        packet.len() > 0,
        packet.last() == 0,
        forall|i: int| 0 <= i < packet.len() - 1 ==> packet[i] != 0,
    ensures
        first_signature(init_signature() + seq![0u8] + packet + rest) == Some(0int),
        (init_signature() + seq![0u8] + packet + rest).skip(20) == packet + rest,
        first_zero(packet + rest) == Some(packet.len() - 1),
        (packet + rest).take(packet.len() as int) == packet,
        (packet + rest).skip(packet.len() as int) == rest,
{
    let tail = seq![0u8] + packet + rest;
    lemma_signature_first(tail);
    assert(init_signature() + seq![0u8] + packet + rest =~= init_signature() + tail);
    assert((init_signature() + tail).skip(20) =~= packet + rest);
    lemma_first_zero_at_end(packet, rest);
    assert((packet + rest).take(packet.len() as int) =~= packet);
    assert((packet + rest).skip(packet.len() as int) =~= rest);
}

} // verus!
