//! A promise that is kept or broken by a callback.
use vstd::prelude::*;

use webrtc::peer_connection::RTCPeerConnection;

use crate::error::TransportError;
use crate::rtc;
use crate::types::PeerConnectionState;

verus! {

/// The state behind a promise. `W` wakes whoever waits for it.
#[derive(Debug)]
pub struct PromiseState<W> {
    pub completed: bool,
    pub successed: Option<bool>,
    pub waker: Option<W>,
}

impl<W> Default for PromiseState<W> {
    fn default() -> (promise: PromiseState<W>)
        ensures
            promise == PromiseState::<W>::pending(),
            promise.wf(),
    {
        PromiseState { completed: false, successed: None, waker: None }
    }
}

impl<W> PromiseState<W> {
    /// A promise that nobody waits for and that has no outcome.
    pub open spec fn pending() -> PromiseState<W> {
        PromiseState { completed: false, successed: None, waker: None }
    }

    /// A promise has an outcome once it is completed, and then nobody waits for it.
    pub open spec fn wf(self) -> bool {
        &&& self.completed <==> self.successed is Some
        &&& self.completed ==> self.waker is None
    }

    /// The promise after an attempt to give it an outcome: only a promise that someone waits for
    /// takes one.
    pub open spec fn settled(self, success: bool) -> PromiseState<W> {
        if self.waker is Some {
            PromiseState { completed: true, successed: Some(success), waker: None }
        } else {
            self
        }
    }

    /// The promise after somebody asked for its outcome.
    pub open spec fn polled(self, waker: W) -> PromiseState<W> {
        if self.completed {
            self
        } else {
            PromiseState { waker: Some(waker), ..self }
        }
    }

    /// The answer to somebody who asks for the outcome.
    pub open spec fn outcome(self) -> Option<Result<(), TransportError>> {
        if !self.completed {
            None
        } else if self.successed == Some(true) {
            Some(Ok(()))
        } else {
            Some(Err(TransportError::PromiseStateFailed))
        }
    }

    /// The outcome that a change of the peer connection's state gives to the promise of a
    /// connection.
    pub open spec fn verdict(state: PeerConnectionState) -> Option<bool> {
        match state {
            PeerConnectionState::Connected => Some(true),
            PeerConnectionState::Failed => Some(false),
            _ => None,
        }
    }

    /// The promise of a connection after a change of the peer connection's state.
    pub open spec fn changed(self, state: PeerConnectionState) -> PromiseState<W> {
        match Self::verdict(state) {
            Some(success) => self.settled(success),
            None => self,
        }
    }

    /// The promise of a connection after the peer connection went through the given states.
    pub open spec fn changed_by(self, states: Seq<PeerConnectionState>) -> PromiseState<W>
        decreases states.len(),
    {
        if states.len() == 0 {
            self
        } else {
            self.changed_by(states.drop_last()).changed(states.last())
        }
    }

    /// Gives the promise an outcome if somebody waits for it. The result is to be woken.
    pub fn settle(&mut self, success: bool) -> (woken: Option<W>)
        ensures
            *final(self) == old(self).settled(success),
            woken == old(self).waker,
            old(self).wf() ==> final(self).wf(),
    {
        match self.waker.take() {
            Some(waker) => {
                self.completed = true;
                self.successed = Some(success);
                Some(waker)
            },
            None => None,
        }
    }

    /// Answers somebody who asks for the outcome. Until there is one, `waker` is kept.
    pub fn poll(&mut self, waker: W) -> (outcome: Option<Result<(), TransportError>>)
        ensures
            *final(self) == old(self).polled(waker),
            outcome == old(self).outcome(),
            old(self).wf() ==> final(self).wf(),
    {
        if self.completed {
            match self.successed {
                Some(true) => Some(Ok(())),
                _ => Some(Err(TransportError::PromiseStateFailed)),
            }
        } else {
            self.waker = Some(waker);
            None
        }
    }

    /// Keeps the promise of an open data channel. The result is to be woken.
    pub fn on_open(&mut self) -> (woken: Option<W>)
        ensures
            *final(self) == old(self).settled(true),
            woken == old(self).waker,
            old(self).wf() ==> final(self).wf(),
    {
        self.settle(true)
    }

    /// Keeps the promise of a connection when the peer connection is connected, breaks it when it
    /// has failed, and leaves it alone in every other state. The result is to be woken.
    pub fn on_peer_connection_state_change(&mut self, state: PeerConnectionState) -> (woken: Option<
        W,
    >)
        ensures
            *final(self) == old(self).changed(state),
            woken == (if Self::verdict(state) is Some {
                old(self).waker
            } else {
                None
            }),
            old(self).wf() ==> final(self).wf(),
    {
        match state {
            PeerConnectionState::Connected => self.settle(true),
            PeerConnectionState::Failed => self.settle(false),
            _ => None,
        }
    }

    /// The promise of a connection after its handler was registered with a peer connection in the
    /// given state, and who is to be woken.
    pub open spec fn registered(self, current: PeerConnectionState) -> (PromiseState<W>, Option<W>) {
        if current is Connected {
            (self.settled(true), self.waker)
        } else {
            (self, None)
        }
    }

    /// Keeps the promise of a connection that was already connected when the handler was
    /// registered. The result is to be woken.
    pub fn on_registered(&mut self, current: PeerConnectionState) -> (woken: Option<W>)
        ensures
            (*final(self), woken) == old(self).registered(current),
            old(self).wf() ==> final(self).wf(),
    {
        if current == PeerConnectionState::Connected {
            self.settle(true)
        } else {
            None
        }
    }

    /// Asks the peer connection for its state, now that the handler is registered with it. The
    /// result is to be woken.
    pub fn handler_registered(&mut self, connection: &RTCPeerConnection) -> (woken: Option<W>)
        ensures
            exists|current: PeerConnectionState|
                {
                    &&& #[trigger] rtc::answers_connection_state(connection, current)
                    &&& (*final(self), woken) == old(self).registered(current)
                },
            old(self).wf() ==> final(self).wf(),
    {
        let current = rtc::connection_state(connection);
        assert(rtc::answers_connection_state(connection, current));
        self.on_registered(current)
    }
}

/// An outcome that arrives before anybody waits is lost.
pub proof fn law_unawaited_outcome_is_lost<W>(promise: PromiseState<W>, success: bool)
    requires
        promise.wf(),
        promise.waker is None,
    ensures
        promise.settled(success) == promise,
{
}

/// A promise that nobody has waited for yet is as it was after its handler is registered, whatever
/// the state of the peer connection.
pub proof fn law_registration_leaves_fresh_promise<W>(current: PeerConnectionState)
    ensures
        PromiseState::<W>::pending().registered(current) == (
            PromiseState::<W>::pending(),
            None::<W>,
        ),
{
}

/// Whoever waits for a promise learns the outcome that settles it, however the promise is polled
/// or settled afterwards.
pub proof fn law_first_outcome_stands<W>(
    promise: PromiseState<W>,
    waiting: W,
    again: W,
    first: bool,
    second: bool,
)
    requires
        promise.wf(),
        !promise.completed,
    ensures
        ({
            let kept = promise.polled(waiting).settled(first);
            &&& kept.outcome() == Some(
                if first {
                    Ok::<(), TransportError>(())
                } else {
                    Err(TransportError::PromiseStateFailed)
                },
            )
            &&& kept.polled(again) == kept
            &&& kept.settled(second) == kept
        }),
{
}

/// States in which nothing is decided leave the promise of a connection as it is.
pub proof fn law_undecided_states_change_nothing<W>(
    promise: PromiseState<W>,
    states: Seq<PeerConnectionState>,
)
    requires
        forall|i: int|
            0 <= i < states.len() ==> PromiseState::<W>::verdict(#[trigger] states[i]) is None,
    ensures
        promise.changed_by(states) == promise,
    decreases states.len(),
{
    if states.len() > 0 {
        assert(states.last() == states[states.len() - 1]);
        assert forall|i: int| 0 <= i < states.drop_last().len() implies PromiseState::<W>::verdict(
            #[trigger] states.drop_last()[i],
        ) is None by {
            assert(states.drop_last()[i] == states[i]);
        }
        law_undecided_states_change_nothing(promise, states.drop_last());
    }
}

/// The first state in which something is decided gives an awaited promise of a connection its
/// outcome, whatever states follow.
pub proof fn law_first_decisive_state_decides<W>(
    promise: PromiseState<W>,
    states: Seq<PeerConnectionState>,
    first: int,
)
    requires
        promise.wf(),
        promise.waker is Some,
        0 <= first < states.len(),
        PromiseState::<W>::verdict(states[first]) is Some,
        forall|i: int|
            0 <= i < first ==> PromiseState::<W>::verdict(#[trigger] states[i]) is None,
    ensures
        promise.changed_by(states) == promise.settled(
            PromiseState::<W>::verdict(states[first])->0,
        ),
    decreases states.len(),
{
    let before = states.drop_last();
    assert forall|i: int| 0 <= i < first implies PromiseState::<W>::verdict(
        #[trigger] before[i],
    ) is None by {
        assert(before[i] == states[i]);
    }
    if first == states.len() - 1 {
        law_undecided_states_change_nothing(promise, before);
    } else {
        assert(before[first] == states[first]);
        law_first_decisive_state_decides(promise, before, first);
    }
}

/// Only two states decide: connected keeps the promise of a connection, failed breaks it.
pub proof fn law_states_that_decide<W>(state: PeerConnectionState)
    ensures
        PromiseState::<W>::verdict(state) == Some(true) <==> state
            == PeerConnectionState::Connected,
        PromiseState::<W>::verdict(state) == Some(false) <==> state == PeerConnectionState::Failed,
{
}

/// Whoever asks last for an outcome that is not there yet is the one who waits for it.
pub proof fn law_last_to_ask_waits<W>(promise: PromiseState<W>, first: W, second: W)
    requires
        promise.wf(),
        !promise.completed,
    ensures
        promise.outcome() is None,
        promise.polled(first).outcome() is None,
        promise.polled(first).waker == Some(first),
        promise.polled(first).polled(second).waker == Some(second),
        promise.polled(first).polled(second).outcome() is None,
{
}

/// An awaited promise takes the outcome that it is given, and a promise without anybody waiting
/// takes none.
pub proof fn law_outcome_reaches_who_waits<W>(promise: PromiseState<W>, success: bool)
    requires
        promise.wf(),
    ensures
        promise.waker is Some && success ==> promise.settled(success).outcome() == Some(
            Ok::<(), TransportError>(()),
        ),
        promise.waker is Some && !success ==> promise.settled(success).outcome() == Some(
            Err::<(), TransportError>(TransportError::PromiseStateFailed),
        ),
        promise.waker is Some ==> promise.settled(success).waker is None,
        promise.waker is None ==> promise.settled(success).outcome() == promise.outcome(),
        promise.settled(success).wf(),
{
}

/// Registering the handler counts as the change to connected if that is the state, and as nothing
/// in every other state, failed included.
pub proof fn law_registering_sees_connected_only<W>(
    promise: PromiseState<W>,
    current: PeerConnectionState,
)
    requires
        promise.wf(),
    ensures
        current == PeerConnectionState::Connected ==> promise.registered(current).0
            == promise.changed(current) && promise.registered(current).1 == promise.waker,
        current != PeerConnectionState::Connected ==> promise.registered(current) == (
            promise,
            None::<W>,
        ),
{
}

/// An awaited promise of a connection is kept by a run of states exactly if the first of them that
/// is connected or failed is connected.
pub proof fn law_promise_follows_the_states<W>(
    promise: PromiseState<W>,
    states: Seq<PeerConnectionState>,
    first: int,
)
    requires
        promise.wf(),
        promise.waker is Some,
        0 <= first < states.len(),
        states[first] is Connected || states[first] is Failed,
        forall|i: int|
            0 <= i < first ==> !(#[trigger] states[i] is Connected) && !(states[i] is Failed),
    ensures
        states[first] is Connected ==> promise.changed_by(states).outcome() == Some(
            Ok::<(), TransportError>(()),
        ),
        states[first] is Failed ==> promise.changed_by(states).outcome() == Some(
            Err::<(), TransportError>(TransportError::PromiseStateFailed),
        ),
{
    law_first_decisive_state_decides(promise, states, first);
}

/// Whoever waits is woken when the promise takes an outcome, and nobody is woken twice.
pub proof fn law_settling_wakes_who_waits<W>(success: bool, woken: Option<W>)
    ensures
        forall|promise: &mut PromiseState<W>| #[trigger]
            call_ensures(PromiseState::<W>::settle, (promise, success), woken) ==> {
                &&& woken == promise.waker
                &&& final(promise).waker is None
                &&& promise.waker is Some ==> final(promise).completed
                    && final(promise).successed == Some(success)
                &&& promise.waker is None ==> *final(promise) == *promise
            },
{
}

/// Asking for an outcome gives the one that there is; where there is none, whoever asks waits.
pub proof fn law_polling_waits_or_answers<W>(
    waker: W,
    outcome: Option<Result<(), TransportError>>,
)
    ensures
        forall|promise: &mut PromiseState<W>| #[trigger]
            call_ensures(PromiseState::<W>::poll, (promise, waker), outcome) ==> {
                &&& promise.completed <==> outcome is Some
                &&& promise.completed ==> *final(promise) == *promise
                &&& promise.completed && promise.successed == Some(true) ==> outcome->0 is Ok
                &&& promise.completed && promise.successed != Some(true) ==> outcome->0 == Err::<
                    (),
                    _,
                >(TransportError::PromiseStateFailed)
                &&& !promise.completed ==> final(promise).waker == Some(waker)
                    && !final(promise).completed && final(promise).successed == promise.successed
            },
{
}

/// An open channel and a connected peer keep an awaited promise, a failed peer breaks it, and each
/// wakes whoever waits. Every other state does neither.
pub proof fn law_callbacks_settle_the_promise<W>(state: PeerConnectionState, woken: Option<W>)
    ensures
        forall|promise: &mut PromiseState<W>| #[trigger]
            call_ensures(PromiseState::<W>::on_open, (promise,), woken) ==> {
                &&& woken == promise.waker
                &&& promise.waker is Some ==> final(promise).successed == Some(true)
                    && final(promise).completed
                &&& promise.waker is None ==> *final(promise) == *promise
            },
        forall|promise: &mut PromiseState<W>| #[trigger]
            call_ensures(
                PromiseState::<W>::on_peer_connection_state_change,
                (promise, state),
                woken,
            ) ==> {
                let decides = state == PeerConnectionState::Connected || state
                    == PeerConnectionState::Failed;
                &&& decides ==> woken == promise.waker
                &&& decides && promise.waker is Some ==> final(promise).completed
                    && final(promise).successed == Some(state == PeerConnectionState::Connected)
                &&& !decides ==> woken is None
                &&& !decides || promise.waker is None ==> *final(promise) == *promise
            },
        forall|promise: &mut PromiseState<W>| #[trigger]
            call_ensures(PromiseState::<W>::on_registered, (promise, state), woken) ==> {
                let connected = state == PeerConnectionState::Connected;
                &&& connected ==> woken == promise.waker
                &&& connected && promise.waker is Some ==> final(promise).completed
                    && final(promise).successed == Some(true)
                &&& !connected ==> woken is None
                &&& !connected || promise.waker is None ==> *final(promise) == *promise
            },
{
}

} // verus!
