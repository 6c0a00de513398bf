use vstd::prelude::*;

verus! {

/// A component that processes typed messages one at a time, in arrival
/// order, each producing a reply.
pub trait Handler<Message> {
    type Reply;

    fn handle(&mut self, message: Message) -> Self::Reply;
}

} // verus!
