//! TCP framing: DNS messages on a stream, each prefixed by a two-byte
//! big-endian length.
//!
//! The framer accumulates whatever the socket delivered and hands out every
//! complete message, in order, however the stream was cut into reads: a
//! message split across two reads is reassembled, and two messages arriving
//! in one read both come out.

use vstd::prelude::*;

verus! {

/// The length the first two bytes announce.
pub open spec fn frame_len(buf: Seq<u8>) -> int
    recommends
        buf.len() >= 2,
{
    buf[0] * 256 + buf[1]
}

/// A buffer too short to contain its first message: the length prefix is
/// incomplete, or announces more bytes than have arrived.
pub open spec fn incomplete(buf: Seq<u8>) -> bool {
    buf.len() < 2 || buf.len() < 2 + frame_len(buf)
}

/// The complete messages at the front of `buf`, in order, and the residue
/// that awaits more bytes.
pub open spec fn split_frames(buf: Seq<u8>) -> (Seq<Seq<u8>>, Seq<u8>)
    decreases buf.len(),
{
    if incomplete(buf) {
        (Seq::empty(), buf)
    } else {
        let n = frame_len(buf);
        let rest = split_frames(buf.skip(2 + n));
        (seq![buf.subrange(2, 2 + n)] + rest.0, rest.1)
    }
}

/// Reassembles length-prefixed messages from stream reads.
pub struct TcpFramer {
    buf: Vec<u8>,
}

impl TcpFramer {
    /// The bytes received and not yet handed out as a message.
    pub closed spec fn residue(&self) -> Seq<u8> {
        self.buf@
    }

    /// Between calls the residue is always less than one message.
    pub open spec fn wf(&self) -> bool {
        incomplete(self.residue())
    }

    /// A fresh framer with nothing buffered.
    pub fn new() -> (r: TcpFramer)
        ensures
            r.residue() == Seq::<u8>::empty(),
            r.wf(),
    {
        TcpFramer { buf: Vec::new() }
    }

    /// Takes one read's worth of stream bytes and hands out every message
    /// that is now complete, in arrival order; the tail of an unfinished
    /// message stays buffered for the next read.
    pub fn push(&mut self, data: &[u8]) -> (msgs: Vec<Vec<u8>>)
        requires
            old(self).wf(),
        ensures
            ({
                let combined = old(self).residue() + data@;
                &&& msgs@.map_values(|m: Vec<u8>| m@) == split_frames(combined).0
                &&& final(self).residue() == split_frames(combined).1
                &&& final(self).wf()
            }),
    {
        let ghost combined = old(self).residue() + data@;
        let mut d: usize = 0;
        while d < data.len()
            invariant
                0 <= d <= data@.len(),
                self.buf@ == old(self).residue() + data@.take(d as int),
            decreases data@.len() - d,
        {
            self.buf.push(data[d]);
            proof {
                assert(data@.take(d + 1) =~= data@.take(d as int) + seq![data@[d as int]]);
                assert(self.buf@ =~= old(self).residue() + data@.take(d + 1));
            }
            d += 1;
        }
        proof {
            assert(data@.take(data@.len() as int) =~= data@);
            assert(self.buf@ == combined);
        }
        let mut msgs: Vec<Vec<u8>> = Vec::new();
        proof {
            assert(msgs@.map_values(|m: Vec<u8>| m@) =~= Seq::<Seq<u8>>::empty());
            assert(msgs@.map_values(|m: Vec<u8>| m@) + split_frames(self.buf@).0 =~= split_frames(
                self.buf@,
            ).0);
        }
        loop
            invariant
                combined == old(self).residue() + data@,
                split_frames(combined).0 == msgs@.map_values(|m: Vec<u8>| m@) + split_frames(
                    self.buf@,
                ).0,
                split_frames(combined).1 == split_frames(self.buf@).1,
            decreases self.buf@.len(),
        {
            let blen = self.buf.len();
            if blen < 2 {
                proof {
                    assert(split_frames(self.buf@).0 =~= Seq::<Seq<u8>>::empty());
                    assert(msgs@.map_values(|m: Vec<u8>| m@) + Seq::<Seq<u8>>::empty()
                        =~= msgs@.map_values(|m: Vec<u8>| m@));
                }
                return msgs;
            }
            let n: usize = (self.buf[0] as usize) * 256 + (self.buf[1] as usize);
            if blen < 2 + n {
                proof {
                    assert(incomplete(self.buf@));
                    assert(split_frames(self.buf@).0 =~= Seq::<Seq<u8>>::empty());
                    assert(msgs@.map_values(|m: Vec<u8>| m@) + Seq::<Seq<u8>>::empty()
                        =~= msgs@.map_values(|m: Vec<u8>| m@));
                }
                return msgs;
            }
            // one complete message: bytes 2 .. 2 + n
            let mut msg: Vec<u8> = Vec::new();
            let mut i: usize = 2;
            while i < 2 + n
                invariant
                    n <= 65535,
                    2 <= i <= 2 + n,
                    2 + n <= self.buf@.len(),
                    msg@ == self.buf@.subrange(2, i as int),
                decreases 2 + n - i,
            {
                msg.push(self.buf[i]);
                proof {
                    assert(self.buf@.subrange(2, i + 1) =~= self.buf@.subrange(2, i as int)
                        + seq![self.buf@[i as int]]);
                }
                i += 1;
            }
            let mut rest: Vec<u8> = Vec::new();
            let mut j: usize = 2 + n;
            while j < self.buf.len()
                invariant
                    n <= 65535,
                    2 + n <= j <= self.buf@.len(),
                    rest@ == self.buf@.subrange(2 + n, j as int),
                decreases self.buf@.len() - j,
            {
                rest.push(self.buf[j]);
                proof {
                    assert(self.buf@.subrange(2 + n, j + 1) =~= self.buf@.subrange(
                        2 + n,
                        j as int,
                    ) + seq![self.buf@[j as int]]);
                }
                j += 1;
            }
            let ghost prev = self.buf@;
            let ghost prev_msgs = msgs@;
            proof {
                assert(!incomplete(prev));
                assert(frame_len(prev) == n);
                assert(rest@ =~= prev.skip(2 + n));
                assert(msg@ =~= prev.subrange(2, 2 + n));
            }
            msgs.push(msg);
            self.buf = rest;
            proof {
                assert(msgs@.map_values(|m: Vec<u8>| m@) =~= prev_msgs.map_values(
                    |m: Vec<u8>| m@,
                ) + seq![prev.subrange(2, 2 + n)]);
                assert(split_frames(prev).0 == seq![prev.subrange(2, 2 + n)] + split_frames(
                    self.buf@,
                ).0);
                assert(prev_msgs.map_values(|m: Vec<u8>| m@) + split_frames(prev).0
                    =~= msgs@.map_values(|m: Vec<u8>| m@) + split_frames(self.buf@).0);
                assert(split_frames(combined).0 =~= msgs@.map_values(|m: Vec<u8>| m@)
                    + split_frames(self.buf@).0);
            }
        }
    }
}

} // verus!
