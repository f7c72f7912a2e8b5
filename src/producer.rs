//! The producing side of a chat stream: whole-object buffering for the
//! native family, and the rules that decide when the producer stops and
//! what it reports.
use vstd::prelude::*;

use crate::decode::{emitted, native_frame_signal, native_signal, Signal};
use crate::error::ClientError;
use crate::wire::{text_of, NativeChunk};

verus! {

/// Holds native-family bytes across chunk boundaries until they parse as
/// one whole object.
pub struct ObjectBuffer {
    pending: Vec<u8>,
}

impl ObjectBuffer {
    /// The bytes received since the last object that parsed.
    pub closed spec fn pending(&self) -> Seq<u8> {
        self.pending@
    }

    pub fn new() -> (r: ObjectBuffer)
        ensures
            r.pending() == Seq::<u8>::empty(),
    {
        ObjectBuffer { pending: Vec::new() }
    }

    /// Takes the next chunk and returns every byte held so far: the text to
    /// try to parse as one object.
    pub fn push(&mut self, chunk: &[u8]) -> (candidate: Vec<u8>)
        ensures
            candidate@ == old(self).pending() + chunk@,
            final(self).pending() == candidate@,
    {
        let mut i: usize = 0;
        let ghost start = self.pending@;
        while i < chunk.len()
            invariant
                i <= chunk@.len(),
                self.pending@ == start + chunk@.subrange(0, i as int),
            decreases chunk@.len() - i,
        {
            self.pending.push(chunk[i]);
            i = i + 1;
            assert(self.pending@ =~= start + chunk@.subrange(0, i as int));
        }
        assert(chunk@.subrange(0, i as int) =~= chunk@);
        let mut candidate: Vec<u8> = Vec::new();
        let mut j: usize = 0;
        while j < self.pending.len()
            invariant
                j <= self.pending@.len(),
                candidate@ == self.pending@.subrange(0, j as int),
            decreases self.pending@.len() - j,
        {
            candidate.push(self.pending[j]);
            j = j + 1;
            assert(candidate@ =~= self.pending@.subrange(0, j as int));
        }
        assert(self.pending@.subrange(0, j as int) =~= self.pending@);
        candidate
    }

    /// Settles the last candidate: when it parsed, the held bytes are
    /// released and its signal returned; otherwise they are kept for the
    /// next chunk.
    pub fn settle(&mut self, parsed: Option<NativeChunk>) -> (r: Option<Signal>)
        ensures
            parsed is None ==> r is None && final(self).pending() == old(self).pending(),
            parsed matches Some(c) ==> (r matches Some(s) && s@ == native_frame_signal(c)
                && final(self).pending() == Seq::<u8>::empty()),
    {
        match parsed {
            None => None,
            Some(c) => {
                self.pending.clear();
                Some(native_signal(&c))
            },
        }
    }
}

/// What a stream that closes without a terminal signal amounts to.
#[derive(Debug, Clone, Copy, PartialEq, Eq, Structural)]
pub enum IncompletePolicy {
    /// The content received so far stands as the answer.
    AcceptPartial,
    /// The stream fails with [`ClientError::Incomplete`].
    Reject,
}

/// Where a producer stands.
#[derive(Debug, Clone)]
pub enum ProducerState {
    /// Forwarding deltas.
    Running,
    /// A terminal signal came.
    Finished,
    /// The receiving side went away; the producer stops quietly.
    Cancelled,
    /// The stream closed without a terminal signal.
    Closed,
    /// The request or the transport failed.
    Failed(ClientError),
}

/// The result that a producer that ended in `state` reports.
pub open spec fn outcome_of(state: ProducerState, policy: IncompletePolicy) -> Result<(), ClientError> {
    match state {
        ProducerState::Closed => if policy == IncompletePolicy::AcceptPartial {
            Ok(())
        } else {
            Err(ClientError::Incomplete)
        },
        ProducerState::Failed(e) => Err(e),
        _ => Ok(()),
    }
}

/// What can happen to a producer: a decoded signal (terminal or not), the
/// report of a delivery, the stream closing, or a failure.
pub enum ProducerEvent {
    Signal(bool),
    Delivery(bool),
    Close,
    Error(ClientError),
}

/// The state a producer moves to from `state` on `e`.
pub open spec fn step(state: ProducerState, e: ProducerEvent) -> ProducerState {
    match e {
        ProducerEvent::Delivery(delivered) => if delivered {
            state
        } else {
            ProducerState::Cancelled
        },
        ProducerEvent::Signal(terminal) => if state is Running && terminal {
            ProducerState::Finished
        } else {
            state
        },
        ProducerEvent::Close => if state is Running {
            ProducerState::Closed
        } else {
            state
        },
        ProducerEvent::Error(err) => if state is Running {
            ProducerState::Failed(err)
        } else {
            state
        },
    }
}

/// The state after a run of events.
pub open spec fn run(state: ProducerState, events: Seq<ProducerEvent>) -> ProducerState
    decreases events.len(),
{
    if events.len() == 0 {
        state
    } else {
        run(step(state, events[0]), events.drop_first())
    }
}

/// The decisions of the context that decodes a chat stream and forwards
/// its deltas to the consumer.
pub struct Producer {
    pub state: ProducerState,
}

impl Producer {
    pub fn new() -> (r: Producer)
        ensures
            r.state is Running,
    {
        Producer { state: ProducerState::Running }
    }

    pub fn is_running(&self) -> (r: bool)
        ensures
            r == (self.state is Running),
    {
        match self.state {
            ProducerState::Running => true,
            _ => false,
        }
    }

    /// Takes the next decoded signal and returns the delta to forward.
    /// Once the producer has stopped nothing more is forwarded.
    pub fn on_signal(&mut self, sig: Signal) -> (r: Option<String>)
        ensures
            final(self).state == step(old(self).state, ProducerEvent::Signal(sig.terminal)),
            old(self).state is Running ==> text_of(r) == text_of(sig.delta),
            !(old(self).state is Running) ==> r is None,
    {
        if !self.is_running() {
            return None;
        }
        if sig.terminal {
            self.state = ProducerState::Finished;
        }
        sig.delta
    }

    /// Reports whether the last forwarded delta reached the queue. A
    /// refused delivery means that the receiver is gone: the producer is
    /// cancelled.
    pub fn on_delivery(&mut self, delivered: bool)
        ensures
            final(self).state == step(old(self).state, ProducerEvent::Delivery(delivered)),
    {
        if !delivered {
            self.state = ProducerState::Cancelled;
        }
    }

    /// The stream closed. A producer still running saw no terminal signal.
    pub fn on_close(&mut self)
        ensures
            final(self).state == step(old(self).state, ProducerEvent::Close),
    {
        if self.is_running() {
            self.state = ProducerState::Closed;
        }
    }

    /// The request or the transport failed.
    pub fn on_error(&mut self, e: ClientError)
        ensures
            final(self).state == step(old(self).state, ProducerEvent::Error(e)),
    {
        if self.is_running() {
            self.state = ProducerState::Failed(e);
        }
    }

    /// The result that the producing context returns once it has stopped.
    pub fn outcome(self, policy: IncompletePolicy) -> (r: Result<(), ClientError>)
        ensures
            r == outcome_of(self.state, policy),
    {
        match self.state {
            ProducerState::Closed => if policy == IncompletePolicy::AcceptPartial {
                Ok(())
            } else {
                Err(ClientError::Incomplete)
            },
            ProducerState::Failed(e) => Err(e),
            _ => Ok(()),
        }
    }
}

/// Once its receiver is gone a producer stays stopped, forwards nothing
/// more, and ends without raising an error, whatever happens next and
/// whatever the policy for incomplete streams.
pub proof fn lemma_receiver_gone_is_quiet(
    state: ProducerState,
    delivered: bool,
    later: Seq<ProducerEvent>,
    policy: IncompletePolicy,
)
    requires
        !delivered,
    ensures
        run(step(state, ProducerEvent::Delivery(delivered)), later) is Cancelled,
        outcome_of(run(step(state, ProducerEvent::Delivery(delivered)), later), policy) is Ok,
{
    lemma_cancelled_stays(later);
}

proof fn lemma_cancelled_stays(later: Seq<ProducerEvent>)
    ensures
        run(ProducerState::Cancelled, later) is Cancelled,
    decreases later.len(),
{
    if later.len() > 0 {
        assert(step(ProducerState::Cancelled, later[0]) is Cancelled);
        lemma_cancelled_stays(later.drop_first());
    }
}

/// The deltas that a producer in `state` forwards for the signals `sigs`
/// when every delivery succeeds.
pub open spec fn forwarded(state: ProducerState, sigs: Seq<(Option<Seq<char>>, bool)>) -> Seq<
    Seq<char>,
>
    decreases sigs.len(),
{
    if sigs.len() == 0 || !(state is Running) {
        Seq::empty()
    } else {
        let head = match sigs[0].0 {
            Some(d) => seq![d],
            None => Seq::empty(),
        };
        head + forwarded(step(state, ProducerEvent::Signal(sigs[0].1)), sigs.drop_first())
    }
}

/// A fresh producer whose deliveries all succeed forwards exactly the
/// deltas of the stream: those of each signal up to and including the
/// first terminal one.
pub proof fn lemma_producer_forwards_emitted(sigs: Seq<(Option<Seq<char>>, bool)>)
    ensures
        forwarded(ProducerState::Running, sigs) == emitted(sigs),
    decreases sigs.len(),
{
    if sigs.len() > 0 {
        lemma_producer_forwards_emitted(sigs.drop_first());
        let head = match sigs[0].0 {
            Some(d) => seq![d],
            None => Seq::<Seq<char>>::empty(),
        };
        if sigs[0].1 {
            assert(forwarded(ProducerState::Finished, sigs.drop_first()) =~= Seq::<Seq<char>>::empty());
            assert(head + Seq::<Seq<char>>::empty() =~= head);
        }
    }
}

} // verus!
