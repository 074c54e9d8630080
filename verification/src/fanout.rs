//! Fan-out of outbound messages to many remote viewer connections, with a
//! per-connection backpressure rule: a connection whose outbound queue is
//! nearly full is asked to reconnect instead of receiving the payload.

use vstd::prelude::*;

verus! {

/// Capacity of each connection's outbound queue.
pub const CLIENT_QUEUE_CAPACITY: usize = 20;

/// Below this remaining capacity the fan-out sheds load.
pub const CLIENT_QUEUE_LOW_WATER: usize = 5;

/// What the fan-out should send to one connection.
#[derive(Clone, Copy, PartialEq, Eq, Structural, Debug)]
pub enum FanoutAction {
    /// The queue has room: send the real payload.
    SendPayload,
    /// The queue is nearly full: send the reconnect sentinel instead.
    RequestReconnect,
}

/// The backpressure rule: shed load exactly when the connection's remaining
/// queue capacity has dropped below the low-water mark.
pub fn fanout_action(remaining_capacity: usize) -> (r: FanoutAction)
    ensures
        r is RequestReconnect <==> remaining_capacity < CLIENT_QUEUE_LOW_WATER,
{
    if remaining_capacity < CLIENT_QUEUE_LOW_WATER {
        FanoutAction::RequestReconnect
    } else {
        FanoutAction::SendPayload
    }
}

/// The registry of connected remote viewers.  `T` is the per-connection
/// transmitter handle owned by the transport.
pub struct ClientSharedState<T> {
    pub counter: usize,
    pub transmitters: Vec<(usize, T)>,
}

impl<T> ClientSharedState<T> {
    /// Registered identifiers are unique and below the counter.
    pub open spec fn wf(self) -> bool {
        &&& forall|i: int|
            0 <= i < self.transmitters@.len() ==> (#[trigger] self.transmitters@[i]).0
                < self.counter
        &&& forall|i: int, j: int|
            0 <= i < j < self.transmitters@.len() ==> (#[trigger] self.transmitters@[i]).0 != (
            #[trigger] self.transmitters@[j]).0
    }

    /// Some connection is registered under this identifier.
    pub open spec fn has_id(self, id: usize) -> bool {
        exists|i: int| 0 <= i < self.transmitters@.len() && (#[trigger] self.transmitters@[i]).0
            == id
    }

    pub fn new() -> (r: Self)
        ensures
            r.wf(),
            r.counter == 0,
            r.transmitters@.len() == 0,
    {
        ClientSharedState { counter: 0, transmitters: Vec::new() }
    }

    /// Registers a connection and returns its fresh identifier.
    pub fn register_client(&mut self, transmitter: T) -> (id: usize)
        requires
            old(self).wf(),
            old(self).counter < usize::MAX,
        ensures
            final(self).wf(),
            id == old(self).counter,
            final(self).counter == old(self).counter + 1,
            final(self).transmitters@ == old(self).transmitters@.push((id, transmitter)),
    {
        let id = self.counter;
        self.counter = self.counter + 1;
        self.transmitters.push((id, transmitter));
        id
    }

    /// Removes the connection registered under `id`, if any.
    pub fn unregister_client(&mut self, id: usize)
        requires
            old(self).wf(),
        ensures
            final(self).wf(),
            final(self).counter == old(self).counter,
            !final(self).has_id(id),
            !old(self).has_id(id) ==> final(self).transmitters@ == old(self).transmitters@,
            old(self).has_id(id) ==> final(self).transmitters@.len() == old(
                self,
            ).transmitters@.len() - 1,
            forall|i: int|
                0 <= i < old(self).transmitters@.len() && (#[trigger] old(
                    self,
                ).transmitters@[i].0) != id ==> final(self).transmitters@.contains(
                    old(self).transmitters@[i],
                ),
    {
        let n = self.transmitters.len();
        let mut i: usize = 0;
        while i < n
            invariant
                old(self).wf(),
                i <= n,
                n == self.transmitters@.len(),
                self.transmitters@ == old(self).transmitters@,
                self.counter == old(self).counter,
                forall|j: int| 0 <= j < i ==> (#[trigger] self.transmitters@[j]).0 != id,
            decreases n - i,
        {
            if self.transmitters[i].0 == id {
                let ghost pre = self.transmitters@;
                let ghost ri = i as int;
                self.transmitters.remove(i);
                proof {
                    assert(pre[ri].0 == id);
                    assert(self.transmitters@ == pre.remove(ri));
                    assert forall|k: int|
                        0 <= k < pre.len() && (#[trigger] pre[k]).0 != id implies self
                        .transmitters@.contains(pre[k]) by {
                        if k < ri {
                            assert(self.transmitters@[k] == pre[k]);
                        } else if k > ri {
                            assert(self.transmitters@[k - 1] == pre[k]);
                        }
                    }
                    assert forall|k: int|
                        0 <= k < self.transmitters@.len() implies (#[trigger] self
                        .transmitters@[k]).0 != id by {
                        if k < ri {
                            assert(self.transmitters@[k] == pre[k]);
                        } else {
                            assert(self.transmitters@[k] == pre[k + 1]);
                            assert((old(self).transmitters@[ri]).0 != (old(
                                self,
                            ).transmitters@[k + 1]).0);
                        }
                    }
                    assert forall|a: int, b: int|
                        0 <= a < b < self.transmitters@.len() implies (#[trigger] self
                        .transmitters@[a]).0 != (#[trigger] self.transmitters@[b]).0 by {
                        let a0 = if a < ri { a } else { a + 1 };
                        let b0 = if b < ri { b } else { b + 1 };
                        assert(self.transmitters@[a] == pre[a0]);
                        assert(self.transmitters@[b] == pre[b0]);
                        assert((old(self).transmitters@[a0]).0 != (old(
                            self,
                        ).transmitters@[b0]).0);
                    }
                    assert forall|k: int|
                        0 <= k < self.transmitters@.len() implies (#[trigger] self
                        .transmitters@[k]).0 < self.counter by {
                        if k < ri {
                            assert(self.transmitters@[k] == pre[k]);
                        } else {
                            assert(self.transmitters@[k] == pre[k + 1]);
                        }
                    }
                }
                return ;
            }
            i = i + 1;
        }
    }
}

} // verus!
