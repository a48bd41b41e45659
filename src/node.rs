use vstd::prelude::*;
use crate::event::{
    decode, encode_output, envelope, lemma_round_trip, parse, Event, Message, ProtocolError,
};
use crate::function::InvokeError;

verus! {

/// One message to send to one downstream peer.
pub struct Delivery {
    pub address: String,
    pub message: Vec<u8>,
}

/// What a node does with an envelope it has received.
pub enum Step {
    /// Run the function on these samples, then hand the result to `complete`.
    Invoke(Vec<u32>),
    /// Send these bytes back on the same connection.
    Reply(Vec<u8>),
}

/// `d` sends the `Output` envelope of `s` once to each of `peers`, in their order.
pub open spec fn fans_out(d: Seq<Delivery>, peers: Seq<String>, s: Seq<u32>) -> bool {
    &&& d.len() == peers.len()
    &&& forall|i: int|
        0 <= i < d.len() ==> (#[trigger] d[i]).address@ == peers[i]@ && d[i].message@ == envelope(
            Message::Output(s),
        )
}

/// The state a node owns: its current output and the peers it feeds.
pub struct Node {
    outputs: Vec<u32>,
    downstream: Vec<String>,
}

impl Node {
    /// The current output.
    pub closed spec fn state(&self) -> Seq<u32> {
        self.outputs@
    }

    /// The downstream peers, in the order they are served.
    pub closed spec fn peers(&self) -> Seq<String> {
        self.downstream@
    }

    pub fn new(initial: Vec<u32>, downstream: Vec<String>) -> (r: Node)
        ensures
            r.state() == initial@,
            r.peers() == downstream@,
    {
        Node { outputs: initial, downstream }
    }

    /// The current output.
    pub fn outputs(&self) -> (r: &Vec<u32>)
        ensures
            r@ == self.state(),
    {
        &self.outputs
    }

    /// The downstream peers.
    pub fn downstream(&self) -> (r: &Vec<String>)
        ensures
            r@ == self.peers(),
    {
        &self.downstream
    }

    /// The current output as one `Output` envelope for each downstream peer,
    /// in their order.
    pub fn propagate(&self) -> (r: Vec<Delivery>)
        ensures
            fans_out(r@, self.peers(), self.state()),
    {
        let mut out: Vec<Delivery> = Vec::new();
        let mut i: usize = 0;
        while i < self.downstream.len()
            invariant
                i <= self.downstream.len(),
                out@.len() == i,
                forall|k: int|
                    0 <= k < i ==> (#[trigger] out@[k]).address@ == self.downstream@[k]@
                        && out@[k].message@ == envelope(Message::Output(self.outputs@)),
            decreases self.downstream.len() - i,
        {
            let address = self.downstream[i].clone();
            let message = encode_output(&self.outputs);
            out.push(Delivery { address, message });
            i = i + 1;
        }
        out
    }

    /// What a node sends when it starts: its initial output to every peer,
    /// or nothing when that output is empty.
    pub fn announce(&self) -> (r: Vec<Delivery>)
        ensures
            self.state().len() == 0 ==> r@.len() == 0,
            self.state().len() > 0 ==> fans_out(r@, self.peers(), self.state()),
    {
        if self.outputs.len() == 0 {
            Vec::new()
        } else {
            self.propagate()
        }
    }

    /// Reads an envelope. An `Output` asks for the function to run on its
    /// samples; a `RequestOutput` is answered with the current output, which it
    /// leaves as it was; anything else is refused.
    pub fn receive(&self, bytes: &Vec<u8>) -> (r: Result<Step, ProtocolError>)
        ensures
            match parse(bytes@) {
                Ok((Message::Output(s), _)) => r matches Ok(Step::Invoke(v)) && v@ == s,
                Ok((Message::RequestOutput, _)) => r matches Ok(Step::Reply(b)) && b@ == envelope(
                    Message::Output(self.state()),
                ),
                Err(e) => r == Err::<Step, ProtocolError>(e),
            },
    {
        match decode(bytes) {
            Ok((Event::Output(v), _)) => Ok(Step::Invoke(v)),
            Ok((Event::RequestOutput, _)) => Ok(Step::Reply(encode_output(&self.outputs))),
            Err(e) => Err(e),
        }
    }

    /// Takes the outcome of an invocation. A result becomes the current
    /// output and is sent to every peer; a failure leaves the node as it was
    /// and sends nothing.
    pub fn complete(&mut self, result: Result<Vec<u32>, InvokeError>) -> (r: Result<
        Vec<Delivery>,
        InvokeError,
    >)
        ensures
            final(self).peers() == old(self).peers(),
            match result {
                Ok(v) => final(self).state() == v@ && (r matches Ok(d) && fans_out(
                    d@,
                    old(self).peers(),
                    v@,
                )),
                Err(e) => final(self).state() == old(self).state() && r == Err::<
                    Vec<Delivery>,
                    InvokeError,
                >(e),
            },
    {
        match result {
            Ok(v) => {
                self.outputs = v;
                Ok(self.propagate())
            },
            Err(e) => Err(e),
        }
    }
}

/// The answer to a query decodes, on the asking side, to the node's current
/// output exactly; since answering takes the node by shared reference, every
/// later query is answered from that same output.
pub proof fn lemma_query_answer(n: Node, b: Seq<u8>, answer: Seq<u8>)
    requires
        parse(b) matches Ok((Message::RequestOutput, _)),
        answer == envelope(Message::Output(n.state())),
        n.state().len() <= u64::MAX,
    ensures
        parse(answer) == Ok::<(Message, nat), ProtocolError>((Message::Output(n.state()), answer.len())),
{
    lemma_round_trip(Message::Output(n.state()), Seq::empty());
    assert(answer + Seq::<u8>::empty() =~= answer);
}

} // verus!
