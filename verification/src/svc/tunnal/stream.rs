//! A stream that opens a tunnel through an upstream proxy: it waits for the
//! handshake, then for the proxy's response head, then carries the stream.

use vstd::prelude::*;
use crate::svc::tunnal::{parse_reply_head, spec_reply_head};

verus! {

/// Where a tunnel stream stands.
#[allow(non_camel_case_types)]
pub enum HttpTunnalState {
    WAIT_HANDSHAKE,
    WAIT_RESPONSE,
    STREAM,
    EXCEPTION(String),
}

/// A tunnel stream over `io`: the bytes read so far of the response head
/// (`raw`, of which `head_len` are taken as the head) and its state.
pub struct HttpTunnalStream<IO> {
    pub head_len: i32,
    pub raw: Vec<u8>,
    pub io: IO,
    pub state: HttpTunnalState,
}

/// The blank line that ends a response head occurs at position `i`.
pub open spec fn head_end_at(buf: Seq<u8>, i: int) -> bool {
    &&& 0 <= i
    &&& i + 4 <= buf.len()
    &&& buf[i] == 13u8
    &&& buf[i + 1] == 10u8
    &&& buf[i + 2] == 13u8
    &&& buf[i + 3] == 10u8
}

impl<IO> HttpTunnalStream<IO> {
    /// The stream waits for the upstream proxy's response.
    pub fn wants_response(&self) -> (res: bool)
        ensures
            res == (self.state is WAIT_RESPONSE),
    {
        match self.state {
            HttpTunnalState::WAIT_RESPONSE => true,
            _ => false,
        }
    }

    /// The stream waits for the handshake.
    pub fn wants_handshake(&self) -> (res: bool)
        ensures
            res == (self.state is WAIT_HANDSHAKE),
    {
        match self.state {
            HttpTunnalState::WAIT_HANDSHAKE => true,
            _ => false,
        }
    }

    /// The stream after its head (the first `head_len` bytes of `raw`) is
    /// read: a malformed head puts it in `EXCEPTION` with the parse error's
    /// text; otherwise it is unchanged.
    pub open spec fn after_head(&self, next: &Self) -> bool {
        &&& next.head_len == self.head_len
        &&& next.raw@ == self.raw@
        &&& next.io == self.io
        &&& match spec_reply_head(self.raw@.take(self.head_len as int)).error {
            Some(m) => next.state matches HttpTunnalState::EXCEPTION(s) && s@ == m,
            None => next.state == self.state,
        }
    }

    /// Reads the response head.
    pub fn head(&mut self)
        requires
            0 <= old(self).head_len <= old(self).raw@.len(),
        ensures
            old(self).after_head(&*final(self)),
    {
        let n = self.head_len as usize;
        let parsed = parse_reply_head(vstd::slice::slice_subrange(self.raw.as_slice(), 0, n));
        assert(self.raw@.subrange(0, n as int) =~= self.raw@.take(self.head_len as int));
        match parsed.error {
            Some(m) => {
                self.state = HttpTunnalState::EXCEPTION(m);
            },
            None => {},
        }
    }

    /// Looks in `buf`, from position `head_len` on, for the blank line that
    /// ends the response head, and reads the head when it is there.
    pub fn handle_response(&mut self, buf: &[u8])
        requires
            0 <= old(self).head_len <= old(self).raw@.len(),
        ensures
            (exists|i: int| old(self).head_len <= i && head_end_at(buf@, i)) ==> old(self).after_head(&*final(self)),
            !(exists|i: int| old(self).head_len <= i && head_end_at(buf@, i)) ==> *final(self) == *old(self),
    {
        let ghost start = *self;
        let mut i: usize = self.head_len as usize;
        let mut found = false;
        while i < buf.len() && buf.len() - i >= 4
            invariant
                start.head_len <= i,
                0 <= start.head_len <= start.raw@.len(),
                self.head_len == start.head_len,
                self.raw@ == start.raw@,
                found ==> start.after_head(&*self),
                !found ==> *self == start,
                found == (exists|j: int| start.head_len <= j < i && head_end_at(buf@, j)),
            decreases buf.len() - i,
        {
            if buf[i] == 13u8 && buf[i + 1] == 10u8 && buf[i + 2] == 13u8 && buf[i + 3] == 10u8 {
                self.head();
                assert(head_end_at(buf@, i as int));
                found = true;
            }
            i = i + 1;
        }
        assert forall|j: int| start.head_len <= j && head_end_at(buf@, j) implies j < i by {}
    }
}

} // verus!
