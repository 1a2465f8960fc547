//! The actuator-release handshake: a fixed multi-step write/read sequence
//! that links a subscriber to an actuator group and triggers the physical
//! door release. The device is stateful per connection and tolerates neither
//! reordering nor omitted steps, and it answers some requests in two separate
//! packets — so each write carries an explicit expected reply count rather
//! than leaving the double read to chance. Replies to handshake writes are
//! discarded, not parsed as JSON.
//!
//! A transport failure anywhere aborts the sequence; partial handshake state
//! is not resumable, so a retry must restart from `Idle` on a fresh session.

use vstd::prelude::*;
use crate::channel::Channel;
use crate::channel::CtppChannel;

verus! {

/// The states of the actuator-release handshake, in the order they are
/// passed through.
#[derive(Clone, Copy, Debug, PartialEq, Eq, Structural)]
pub enum HandshakeState {
    /// Nothing sent yet.
    Idle,
    /// The actuator-control channel has been opened for the subscriber.
    ChannelOpen,
    /// The connect handshake binding subscriber and device address is out;
    /// the device answers it with two packets.
    HandshakeSent,
    /// The first actuator sub-channel is connected.
    ActuatorsLinked0,
    /// The second actuator sub-channel is connected.
    ActuatorsLinked1,
    /// The actuator group has been linked to the target output; the device
    /// answers with two packets.
    LinkRequested,
    /// The two actuator connects have been replayed against the linked
    /// identifier — the write pair that triggers the physical release.
    Released,
    /// Both channels are closed and the session is shut down.
    ChannelClosed,
}

/// The identities the handshake binds, and the channels it writes on: the
/// actuator-control channel, the authentication channel to close at the end,
/// the subscriber, the actuator group, and the device address.
pub struct HandshakeParams {
    /// The actuator-control channel.
    pub ctpp: CtppChannel,
    /// The authentication channel, closed in the final step.
    pub auth: Channel,
    /// Subscriber address.
    pub sub: String,
    /// Actuator group identifier.
    pub act: String,
    /// Device address.
    pub addr: String,
}

impl HandshakeParams {
    /// Both channels are well-formed.
    pub open spec fn wf(self) -> bool {
        &&& self.ctpp.wf()
        &&& self.auth.wf()
    }
}

/// One blocking write, with the number of replies the device sends to it.
/// The count is explicit because the device answers the connect handshake
/// and the link request in two packets each.
pub struct HandshakeStep {
    /// The frame to write.
    pub frame: Vec<u8>,
    /// How many blocking reads to perform right after the write.
    pub expected_replies: u8,
}

/// One transition of the handshake: the writes to issue in order, the state
/// entered, and whether the session is shut down afterwards.
pub struct Transition {
    /// The state entered once all steps are done.
    pub next: HandshakeState,
    /// The writes to issue, in order.
    pub steps: Vec<HandshakeStep>,
    /// True on the final transition: close of both channels, then shutdown.
    pub shutdown_after: bool,
}

impl Transition {
    /// The steps as frame bytes paired with reply counts.
    pub open spec fn steps_view(self) -> Seq<(Seq<u8>, int)> {
        self.steps@.map_values(|st: HandshakeStep| (st.frame@, st.expected_replies as int))
    }
}

/// The transition out of each state: which frames are written, how many
/// replies each is owed, where the handshake goes, and whether the session
/// shuts down. `ChannelClosed` is terminal.
pub open spec fn spec_transition(s: HandshakeState, p: HandshakeParams) -> Option<
    (HandshakeState, Seq<(Seq<u8>, int)>, bool),
> {
    match s {
        HandshakeState::Idle => Some(
            (HandshakeState::ChannelOpen, seq![(p.ctpp.spec_open_frame(p.sub@), 1int)], false),
        ),
        HandshakeState::ChannelOpen => Some(
            (
                HandshakeState::HandshakeSent,
                seq![(p.ctpp.spec_hs_frame(p.sub@, p.addr@), 2int)],
                false,
            ),
        ),
        HandshakeState::HandshakeSent => Some(
            (
                HandshakeState::ActuatorsLinked0,
                seq![(p.ctpp.spec_actuator_frame(0, p.sub@, p.addr@), 0int)],
                false,
            ),
        ),
        HandshakeState::ActuatorsLinked0 => Some(
            (
                HandshakeState::ActuatorsLinked1,
                seq![(p.ctpp.spec_actuator_frame(1, p.sub@, p.addr@), 0int)],
                false,
            ),
        ),
        HandshakeState::ActuatorsLinked1 => Some(
            (
                HandshakeState::LinkRequested,
                seq![(p.ctpp.spec_link_frame(p.act@, p.sub@), 2int)],
                false,
            ),
        ),
        HandshakeState::LinkRequested => Some(
            (
                HandshakeState::Released,
                seq![
                    (p.ctpp.spec_actuator_frame(0, p.act@, p.sub@), 0int),
                    (p.ctpp.spec_actuator_frame(1, p.act@, p.sub@), 0int),
                ],
                false,
            ),
        ),
        HandshakeState::Released => Some(
            (
                HandshakeState::ChannelClosed,
                seq![(p.auth.spec_close_frame(), 1int), (p.ctpp.spec_close_frame(), 1int)],
                true,
            ),
        ),
        HandshakeState::ChannelClosed => None,
    }
}

/// Computes the transition out of `state`, or `None` once the handshake has
/// closed its channels. The caller writes each step's frame in order and then
/// performs exactly the step's number of blocking reads, discarding the
/// replies; any write or read failure aborts the whole sequence.
pub fn next_transition(state: &HandshakeState, p: &HandshakeParams) -> (r: Option<Transition>)
    requires
        p.wf(),
    ensures
        r is None <==> spec_transition(*state, *p) is None,
        r matches Some(t) ==> spec_transition(*state, *p) == Some(
            (t.next, t.steps_view(), t.shutdown_after),
        ),
{
    match state {
        HandshakeState::Idle => {
            let mut steps: Vec<HandshakeStep> = Vec::new();
            steps.push(HandshakeStep { frame: p.ctpp.open(p.sub.as_str()), expected_replies: 1 });
            let t = Transition { next: HandshakeState::ChannelOpen, steps, shutdown_after: false };
            proof {
                assert(t.steps_view() =~= seq![(p.ctpp.spec_open_frame(p.sub@), 1int)]);
            }
            Some(t)
        },
        HandshakeState::ChannelOpen => {
            let mut steps: Vec<HandshakeStep> = Vec::new();
            steps.push(
                HandshakeStep {
                    frame: p.ctpp.connect_hs(p.sub.as_str(), p.addr.as_str()),
                    expected_replies: 2,
                },
            );
            let t = Transition {
                next: HandshakeState::HandshakeSent,
                steps,
                shutdown_after: false,
            };
            proof {
                assert(t.steps_view() =~= seq![(p.ctpp.spec_hs_frame(p.sub@, p.addr@), 2int)]);
            }
            Some(t)
        },
        HandshakeState::HandshakeSent => {
            let mut steps: Vec<HandshakeStep> = Vec::new();
            steps.push(
                HandshakeStep {
                    frame: p.ctpp.connect_actuators(0, p.sub.as_str(), p.addr.as_str()),
                    expected_replies: 0,
                },
            );
            let t = Transition {
                next: HandshakeState::ActuatorsLinked0,
                steps,
                shutdown_after: false,
            };
            proof {
                assert(t.steps_view() =~= seq![
                    (p.ctpp.spec_actuator_frame(0, p.sub@, p.addr@), 0int),
                ]);
            }
            Some(t)
        },
        HandshakeState::ActuatorsLinked0 => {
            let mut steps: Vec<HandshakeStep> = Vec::new();
            steps.push(
                HandshakeStep {
                    frame: p.ctpp.connect_actuators(1, p.sub.as_str(), p.addr.as_str()),
                    expected_replies: 0,
                },
            );
            let t = Transition {
                next: HandshakeState::ActuatorsLinked1,
                steps,
                shutdown_after: false,
            };
            proof {
                assert(t.steps_view() =~= seq![
                    (p.ctpp.spec_actuator_frame(1, p.sub@, p.addr@), 0int),
                ]);
            }
            Some(t)
        },
        HandshakeState::ActuatorsLinked1 => {
            let mut steps: Vec<HandshakeStep> = Vec::new();
            steps.push(
                HandshakeStep {
                    frame: p.ctpp.link_actuators(p.act.as_str(), p.sub.as_str()),
                    expected_replies: 2,
                },
            );
            let t = Transition {
                next: HandshakeState::LinkRequested,
                steps,
                shutdown_after: false,
            };
            proof {
                assert(t.steps_view() =~= seq![(p.ctpp.spec_link_frame(p.act@, p.sub@), 2int)]);
            }
            Some(t)
        },
        HandshakeState::LinkRequested => {
            let mut steps: Vec<HandshakeStep> = Vec::new();
            steps.push(
                HandshakeStep {
                    frame: p.ctpp.connect_actuators(0, p.act.as_str(), p.sub.as_str()),
                    expected_replies: 0,
                },
            );
            steps.push(
                HandshakeStep {
                    frame: p.ctpp.connect_actuators(1, p.act.as_str(), p.sub.as_str()),
                    expected_replies: 0,
                },
            );
            let t = Transition { next: HandshakeState::Released, steps, shutdown_after: false };
            proof {
                assert(t.steps_view() =~= seq![
                    (p.ctpp.spec_actuator_frame(0, p.act@, p.sub@), 0int),
                    (p.ctpp.spec_actuator_frame(1, p.act@, p.sub@), 0int),
                ]);
            }
            Some(t)
        },
        HandshakeState::Released => {
            let mut steps: Vec<HandshakeStep> = Vec::new();
            steps.push(HandshakeStep { frame: p.auth.close(), expected_replies: 1 });
            steps.push(HandshakeStep { frame: p.ctpp.close(), expected_replies: 1 });
            let t = Transition {
                next: HandshakeState::ChannelClosed,
                steps,
                shutdown_after: true,
            };
            proof {
                assert(t.steps_view() =~= seq![
                    (p.auth.spec_close_frame(), 1int),
                    (p.ctpp.spec_close_frame(), 1int),
                ]);
            }
            Some(t)
        },
        HandshakeState::ChannelClosed => None,
    }
}

/// How many transitions a state still has before the handshake is closed;
/// gives the state machine its termination measure.
pub open spec fn state_rank(s: HandshakeState) -> int {
    match s {
        HandshakeState::Idle => 7,
        HandshakeState::ChannelOpen => 6,
        HandshakeState::HandshakeSent => 5,
        HandshakeState::ActuatorsLinked0 => 4,
        HandshakeState::ActuatorsLinked1 => 3,
        HandshakeState::LinkRequested => 2,
        HandshakeState::Released => 1,
        HandshakeState::ChannelClosed => 0,
    }
}

/// The whole write/read plan from `s` to the closed state: every frame the
/// handshake still writes, in order, each with its reply count.
pub open spec fn spec_plan_from(s: HandshakeState, p: HandshakeParams) -> Seq<(Seq<u8>, int)>
    decreases state_rank(s),
{
    match spec_transition(s, p) {
        None => Seq::empty(),
        Some((n, w, _)) => w + spec_plan_from(n, p),
    }
}

/// Law: from `Idle`, the handshake issues exactly the fixed write order —
/// channel open, connect handshake, the two actuator connects, the link
/// request, the two actuator connects replayed against the linked
/// identifier, and the two closes — with exactly two reads owed after the
/// connect handshake and after the link request, zero after each actuator
/// connect, and one after the open and after each close.
pub proof fn lemma_release_order(p: HandshakeParams)
    ensures
        spec_plan_from(HandshakeState::Idle, p) == seq![
            (p.ctpp.spec_open_frame(p.sub@), 1int),
            (p.ctpp.spec_hs_frame(p.sub@, p.addr@), 2int),
            (p.ctpp.spec_actuator_frame(0, p.sub@, p.addr@), 0int),
            (p.ctpp.spec_actuator_frame(1, p.sub@, p.addr@), 0int),
            (p.ctpp.spec_link_frame(p.act@, p.sub@), 2int),
            (p.ctpp.spec_actuator_frame(0, p.act@, p.sub@), 0int),
            (p.ctpp.spec_actuator_frame(1, p.act@, p.sub@), 0int),
            (p.auth.spec_close_frame(), 1int),
            (p.ctpp.spec_close_frame(), 1int),
        ],
{
    assert(spec_plan_from(HandshakeState::ChannelClosed, p) =~= Seq::<(Seq<u8>, int)>::empty());
    assert(spec_plan_from(HandshakeState::Idle, p) =~= seq![
        (p.ctpp.spec_open_frame(p.sub@), 1int),
        (p.ctpp.spec_hs_frame(p.sub@, p.addr@), 2int),
        (p.ctpp.spec_actuator_frame(0, p.sub@, p.addr@), 0int),
        (p.ctpp.spec_actuator_frame(1, p.sub@, p.addr@), 0int),
        (p.ctpp.spec_link_frame(p.act@, p.sub@), 2int),
        (p.ctpp.spec_actuator_frame(0, p.act@, p.sub@), 0int),
        (p.ctpp.spec_actuator_frame(1, p.act@, p.sub@), 0int),
        (p.auth.spec_close_frame(), 1int),
        (p.ctpp.spec_close_frame(), 1int),
    ]) by {
        reveal_with_fuel(spec_plan_from, 9);
    }
}

} // verus!
