//! Receiving a print stream over a socket.
//!
//! The stream ends with PJL's universal exit language `%-12345X`, or when
//! the sender closes the connection. Only the last few bytes are kept to
//! look for the end marker; the stream itself goes to a file.
use vstd::prelude::*;
use crate::text::{dec, push_dec};

verus! {

/// How many of the latest bytes are kept.
pub const TAIL_LEN: usize = 10;

/// The universal exit language `%-12345X` that ends a print job.
pub open spec fn uel() -> Seq<u8> {
    seq![37u8, 45u8, 49u8, 50u8, 51u8, 52u8, 53u8, 88u8]
}

/// The last `n` bytes of `s` (all of `s` when it is shorter).
pub open spec fn last_n(s: Seq<u8>, n: nat) -> Seq<u8> {
    if s.len() <= n {
        s
    } else {
        s.skip(s.len() - n)
    }
}

/// `s` ends with `suffix`.
pub open spec fn ends_with(s: Seq<u8>, suffix: Seq<u8>) -> bool {
    suffix.len() <= s.len() && s.skip(s.len() - suffix.len()) == suffix
}

/// The address the server listens on.
pub open spec fn listen_address_of(port: u32) -> Seq<char> {
    "127.0.0.1:"@ + dec(port as nat)
}

/// The address the server listens on: the loopback interface at `port`.
pub fn listen_address(port: u32) -> (r: String)
    ensures
        r@ == listen_address_of(port),
{
    let mut s = String::new();
    s.append("127.0.0.1:");
    push_dec(&mut s, port as u128);
    s
}

/// What the server keeps while a stream comes in: the latest bytes and the
/// number of bytes received.
pub struct StreamTail {
    pub data: Vec<u8>,
    pub bytes_received: usize,
}

impl StreamTail {
    /// At most `TAIL_LEN` bytes are kept, and no more than were received.
    pub open spec fn wf(&self) -> bool {
        &&& self.data@.len() <= TAIL_LEN
        &&& self.data@.len() <= self.bytes_received
    }

    /// Nothing received yet.
    pub fn new() -> (t: StreamTail)
        ensures
            t.wf(),
            t.data@ == Seq::<u8>::empty(),
            t.bytes_received == 0,
    {
        StreamTail { data: Vec::new(), bytes_received: 0 }
    }

    /// Takes in the next chunk of the stream and tells whether the stream
    /// now ends with the end marker.
    pub fn push_chunk(&mut self, chunk: &[u8]) -> (done: bool)
        requires
            old(self).wf(),
            old(self).bytes_received + chunk@.len() <= usize::MAX,
        ensures
            final(self).wf(),
            final(self).data@ == last_n(old(self).data@ + chunk@, TAIL_LEN as nat),
            final(self).bytes_received == old(self).bytes_received + chunk@.len(),
            done == ends_with(final(self).data@, uel()),
    {
        let ghost all = self.data@ + chunk@;
        let d = self.data.len();
        let c = chunk.len();
        let total = d + c;
        let start = if total > TAIL_LEN {
            total - TAIL_LEN
        } else {
            0
        };
        let mut kept: Vec<u8> = Vec::new();
        let mut k: usize = start;
        while k < total
            invariant
                d == self.data@.len(),
                c == chunk@.len(),
                total == d + c,
                all == self.data@ + chunk@,
                start <= k <= total,
                kept@ == all.subrange(start as int, k as int),
            decreases total - k,
        {
            let b = if k < d {
                self.data[k]
            } else {
                chunk[k - d]
            };
            assert(b == all[k as int]);
            kept.push(b);
            assert(kept@ =~= all.subrange(start as int, k + 1));
            k = k + 1;
        }
        assert(kept@ =~= last_n(all, TAIL_LEN as nat));
        self.data = kept;
        self.bytes_received = self.bytes_received + c;
        let n = self.data.len();
        let done = n >= 8 && self.data[n - 8] == 37 && self.data[n - 7] == 45 && self.data[n - 6]
            == 49 && self.data[n - 5] == 50 && self.data[n - 4] == 51 && self.data[n - 3] == 52
            && self.data[n - 2] == 53 && self.data[n - 1] == 88;
        proof {
            let s = self.data@;
            if n >= 8 {
                if done {
                    assert(s.skip(n - 8) =~= uel());
                } else {
                    if s.skip(n - 8) == uel() {
                        assert(s.skip(n - 8)[0] == s[n - 8]);
                        assert(s.skip(n - 8)[7] == s[n - 1]);
                        assert(s.skip(n - 8)[1] == s[n - 7]);
                        assert(s.skip(n - 8)[2] == s[n - 6]);
                        assert(s.skip(n - 8)[3] == s[n - 5]);
                        assert(s.skip(n - 8)[4] == s[n - 4]);
                        assert(s.skip(n - 8)[5] == s[n - 3]);
                        assert(s.skip(n - 8)[6] == s[n - 2]);
                    }
                }
            }
        }
        done
    }
}

/// Keeping only the latest bytes loses nothing the end-marker check needs:
/// the kept bytes after a chunk are the latest bytes of the whole stream,
/// and they end with the marker exactly when the whole stream does.
pub proof fn law_tail_tracks_stream(before: Seq<u8>, chunk: Seq<u8>)
    ensures
        last_n(last_n(before, TAIL_LEN as nat) + chunk, TAIL_LEN as nat) == last_n(
            before + chunk,
            TAIL_LEN as nat,
        ),
        ends_with(last_n(before + chunk, TAIL_LEN as nat), uel()) == ends_with(
            before + chunk,
            uel(),
        ),
{
    let n = TAIL_LEN as nat;
    let t = last_n(before, n);
    let all = before + chunk;
    assert(last_n(t + chunk, n) =~= last_n(all, n)) by {
        if before.len() > n {
            assert(t + chunk =~= all.skip(before.len() - n));
        }
    }
    let w = last_n(all, n);
    if all.len() > n {
        if uel().len() <= w.len() {
            assert(w.skip(w.len() - uel().len()) =~= all.skip(all.len() - uel().len()));
        }
    }
}

} // verus!
