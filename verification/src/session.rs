//! The frame-barrier session state machine.
//!
//! A [`Session`] keeps two peers in lockstep: each frame runs only after both
//! sides have committed it. Local stimuli (`set_direction`, `commit_frame`,
//! `start_new_frame`) and decoded remote packets (`on_received_*`) each drive
//! one transition; every transition may hand back a packet to send and queues
//! outcomes for the driver to apply. The whole machine is modelled by the
//! ghost [`State`] and its spec-level transitions, against which every
//! executable method is proved, and over which the ordering laws at the end
//! of this module are stated.

use vstd::prelude::*;
use vstd::arithmetic::div_mod::lemma_add_mod_noop;
use crate::codec::{CommitFramePacket, SessionPacket, SetDirectionPacket, spec_modulo, FRAME_WINDOW};
use crate::game::{Direction, PlayerIndex};

verus! {

/// A request that the driver point `player_i` in `direction`.
#[derive(Clone, Copy, PartialEq, Eq, Structural, Debug)]
pub struct PlayerControlOutcome {
    pub player_i: PlayerIndex,
    pub direction: Direction,
}

impl PlayerControlOutcome {
    pub fn new(player_i: PlayerIndex, direction: Direction) -> (r: Self)
        ensures
            r == (PlayerControlOutcome { player_i, direction }),
    {
        Self { player_i, direction }
    }
}

/// An externally observable effect of a session transition, queued until the
/// driver applies it.
#[derive(Clone, Copy, PartialEq, Eq, Structural, Debug)]
pub enum Outcome {
    /// Point a player in a new direction.
    PlayerControl(PlayerControlOutcome),
    /// Both peers have committed the current frame: run it now.
    RunFrame,
    /// The remote peer is gone; `politely` tells a farewell from a dead link.
    RemoteLeft { politely: bool },
}

/// A protocol violation by the remote peer, reported to the driver instead of
/// tearing the process down.
#[derive(Clone, Copy, PartialEq, Eq, Structural, Debug)]
pub enum SessionError {
    /// A packet whose frame number names neither the current frame nor the
    /// one after it.
    FrameOutOfWindow { frame_modulo: u8 },
    /// A direction for a frame the remote had already committed.
    DirectionAfterCommit { next_frame: bool },
    /// A byte that no wire message encodes.
    UnknownByte { byte: u8 },
}

/// What the socket reader should tell the driver after feeding bytes in.
#[derive(PartialEq, Eq, Debug)]
pub enum NetworkEvent {
    /// New outcomes wait in the session's buffer.
    BufferedOutcomes,
    /// Reading or decoding failed; the session is beyond recovery.
    ReceiveError(String),
}

/// The mathematical state of a session: the fields of [`Session`] with the
/// outcome buffer as a sequence.
#[verifier::ext_equal]
pub ghost struct State {
    /// Slot of the local player.
    pub player: PlayerIndex,
    /// Slot of the remote player.
    pub remote_player: PlayerIndex,
    /// The local player's current intended direction.
    pub player_direction: Direction,
    /// The frame both peers are agreeing on.
    pub frame: u32,
    /// A local direction change made after the local commit, to apply at the
    /// next frame boundary.
    pub queued_command: Option<Direction>,
    /// A remote direction that arrived one frame early.
    pub queued_command_from_remote: Option<Direction>,
    /// Whether the local side has committed the current frame.
    pub has_committed_frame: bool,
    /// Whether the remote side has committed the current frame.
    pub has_remote_committed_frame: bool,
    /// Whether the remote side has already committed the next frame.
    pub has_remote_committed_next_frame: bool,
    /// Outcomes not yet delivered to the driver.
    pub buffered_outcomes: Seq<Outcome>,
}

impl State {
    /// The packet announcing the local direction for the current frame.
    pub open spec fn announce_packet(self) -> SessionPacket {
        SessionPacket::SetDirection(
            SetDirectionPacket {
                frame_modulo: spec_modulo(self.frame as int) as u8,
                direction: self.player_direction,
            },
        )
    }

    /// Advancing to `frame`: both commit flags reset, queued directions are
    /// applied and reported, an early remote commit is promoted, and the
    /// (possibly just applied) local direction is announced.
    pub open spec fn start_new_frame(self, frame: u32) -> (State, SessionPacket, Seq<Outcome>) {
        let reset = State {
            frame,
            has_committed_frame: false,
            has_remote_committed_frame: false,
            ..self
        };
        let local_applied = match reset.queued_command {
            Some(d) => State {
                player_direction: d,
                queued_command: None,
                buffered_outcomes: reset.buffered_outcomes.push(
                    Outcome::PlayerControl(
                        PlayerControlOutcome { player_i: reset.player, direction: d },
                    ),
                ),
                ..reset
            },
            None => reset,
        };
        let remote_applied = match local_applied.queued_command_from_remote {
            Some(d) => State {
                queued_command_from_remote: None,
                buffered_outcomes: local_applied.buffered_outcomes.push(
                    Outcome::PlayerControl(
                        PlayerControlOutcome { player_i: local_applied.remote_player, direction: d },
                    ),
                ),
                ..local_applied
            },
            None => local_applied,
        };
        let promoted = if remote_applied.has_remote_committed_next_frame {
            State {
                has_remote_committed_frame: true,
                has_remote_committed_next_frame: false,
                ..remote_applied
            }
        } else {
            remote_applied
        };
        (
            State { buffered_outcomes: Seq::empty(), ..promoted },
            promoted.announce_packet(),
            promoted.buffered_outcomes,
        )
    }

    /// A local direction change: applied, reported and announced at once
    /// while the frame is uncommitted; merely queued after the local commit.
    pub open spec fn set_direction(self, direction: Direction) -> (
        State,
        Option<SessionPacket>,
        Seq<Outcome>,
    ) {
        if self.has_committed_frame {
            (
                State {
                    queued_command: Some(direction),
                    buffered_outcomes: Seq::empty(),
                    ..self
                },
                None,
                self.buffered_outcomes,
            )
        } else {
            (
                State { player_direction: direction, buffered_outcomes: Seq::empty(), ..self },
                Some(
                    SessionPacket::SetDirection(
                        SetDirectionPacket {
                            frame_modulo: spec_modulo(self.frame as int) as u8,
                            direction,
                        },
                    ),
                ),
                self.buffered_outcomes.push(
                    Outcome::PlayerControl(
                        PlayerControlOutcome { player_i: self.player, direction },
                    ),
                ),
            )
        }
    }

    /// The local commit: the first call of a frame sends a commit packet and,
    /// when the remote commit is already in, releases the frame; repeats do
    /// nothing.
    pub open spec fn commit_frame(self) -> (State, Option<SessionPacket>, Seq<Outcome>) {
        if !self.has_committed_frame {
            (
                State {
                    has_committed_frame: true,
                    buffered_outcomes: Seq::empty(),
                    ..self
                },
                Some(
                    SessionPacket::CommitFrame(
                        CommitFramePacket(spec_modulo(self.frame as int) as u8),
                    ),
                ),
                if self.has_remote_committed_frame {
                    self.buffered_outcomes.push(Outcome::RunFrame)
                } else {
                    self.buffered_outcomes
                },
            )
        } else {
            (
                State { buffered_outcomes: Seq::empty(), ..self },
                None,
                self.buffered_outcomes,
            )
        }
    }

    /// A remote direction: for the current frame it is reported at once; for
    /// the next frame it is buffered. Anything else, and a direction for a
    /// frame the remote already committed, is a protocol violation. The
    /// boolean reports whether new outcomes were buffered.
    pub open spec fn received_set_direction(self, pkt: SetDirectionPacket) -> Result<
        (State, bool),
        SessionError,
    > {
        if pkt.frame_modulo == spec_modulo(self.frame as int) {
            if self.has_remote_committed_frame {
                Err(SessionError::DirectionAfterCommit { next_frame: false })
            } else {
                Ok(
                    (
                        State {
                            buffered_outcomes: self.buffered_outcomes.push(
                                Outcome::PlayerControl(
                                    PlayerControlOutcome {
                                        player_i: self.remote_player,
                                        direction: pkt.direction,
                                    },
                                ),
                            ),
                            ..self
                        },
                        true,
                    ),
                )
            }
        } else if pkt.frame_modulo == spec_modulo(self.frame as int + 1) {
            if self.has_remote_committed_next_frame {
                Err(SessionError::DirectionAfterCommit { next_frame: true })
            } else {
                Ok(
                    (
                        State { queued_command_from_remote: Some(pkt.direction), ..self },
                        false,
                    ),
                )
            }
        } else {
            Err(SessionError::FrameOutOfWindow { frame_modulo: pkt.frame_modulo })
        }
    }

    /// A remote commit: recorded for the current or the next frame; when the
    /// local side had already committed the current frame, the frame is
    /// released. Any other frame number is a protocol violation. The boolean
    /// reports whether new outcomes were buffered.
    pub open spec fn received_commit_frame(self, pkt: CommitFramePacket) -> Result<
        (State, bool),
        SessionError,
    > {
        if pkt.0 == spec_modulo(self.frame as int) {
            if self.has_committed_frame {
                Ok(
                    (
                        State {
                            has_remote_committed_frame: true,
                            buffered_outcomes: self.buffered_outcomes.push(Outcome::RunFrame),
                            ..self
                        },
                        true,
                    ),
                )
            } else {
                Ok((State { has_remote_committed_frame: true, ..self }, false))
            }
        } else if pkt.0 == spec_modulo(self.frame as int + 1) {
            Ok((State { has_remote_committed_next_frame: true, ..self }, false))
        } else {
            Err(SessionError::FrameOutOfWindow { frame_modulo: pkt.0 })
        }
    }

    /// A remote farewell: the driver learns that the peer left politely.
    pub open spec fn received_good_bye(self) -> State {
        State {
            buffered_outcomes: self.buffered_outcomes.push(
                Outcome::RemoteLeft { politely: true },
            ),
            ..self
        }
    }

    /// A dead link: the driver learns that the peer left without a word.
    pub open spec fn remote_disconnected(self) -> State {
        State {
            buffered_outcomes: self.buffered_outcomes.push(
                Outcome::RemoteLeft { politely: false },
            ),
            ..self
        }
    }

    /// One decoded byte from the remote, dispatched to the transition it
    /// names. The booleans report whether new outcomes were buffered and
    /// whether the remote left.
    pub open spec fn received_byte(self, byte: u8) -> Result<(State, bool, bool), SessionError> {
        match SessionPacket::spec_parse(byte) {
            None => Err(SessionError::UnknownByte { byte }),
            Some(SessionPacket::SetDirection(pkt)) => match self.received_set_direction(pkt) {
                Ok((s, fresh)) => Ok((s, fresh, false)),
                Err(e) => Err(e),
            },
            Some(SessionPacket::CommitFrame(pkt)) => match self.received_commit_frame(pkt) {
                Ok((s, fresh)) => Ok((s, fresh, false)),
                Err(e) => Err(e),
            },
            Some(SessionPacket::GoodBye) => Ok((self.received_good_bye(), true, true)),
        }
    }
}

/// One peer's side of the lockstep agreement for a running game.
pub struct Session {
    player: PlayerIndex,
    remote_player: PlayerIndex,
    player_direction: Direction,
    frame: u32,
    queued_command: Option<Direction>,
    queued_command_from_remote: Option<Direction>,
    has_committed_frame: bool,
    has_remote_committed_frame: bool,
    has_remote_committed_next_frame: bool,
    buffered_outcomes: Vec<Outcome>,
}

impl View for Session {
    type V = State;

    closed spec fn view(&self) -> State {
        State {
            player: self.player,
            remote_player: self.remote_player,
            player_direction: self.player_direction,
            frame: self.frame,
            queued_command: self.queued_command,
            queued_command_from_remote: self.queued_command_from_remote,
            has_committed_frame: self.has_committed_frame,
            has_remote_committed_frame: self.has_remote_committed_frame,
            has_remote_committed_next_frame: self.has_remote_committed_next_frame,
            buffered_outcomes: self.buffered_outcomes@,
        }
    }
}

impl Session {
    /// A fresh session on `frame` with nothing committed, nothing queued and
    /// nothing buffered.
    pub fn new(
        local_player: PlayerIndex,
        remote_player: PlayerIndex,
        player_direction: Direction,
        frame: u32,
    ) -> (s: Self)
        ensures
            s@ == (State {
                player: local_player,
                remote_player,
                player_direction,
                frame,
                queued_command: None,
                queued_command_from_remote: None,
                has_committed_frame: false,
                has_remote_committed_frame: false,
                has_remote_committed_next_frame: false,
                buffered_outcomes: Seq::empty(),
            }),
    {
        let s = Session {
            player: local_player,
            remote_player,
            player_direction,
            frame,
            queued_command: None,
            queued_command_from_remote: None,
            has_committed_frame: false,
            has_remote_committed_frame: false,
            has_remote_committed_next_frame: false,
            buffered_outcomes: Vec::new(),
        };
        proof {
            assert(s@ =~= State {
                player: local_player,
                remote_player,
                player_direction,
                frame,
                queued_command: None,
                queued_command_from_remote: None,
                has_committed_frame: false,
                has_remote_committed_frame: false,
                has_remote_committed_next_frame: false,
                buffered_outcomes: Seq::empty(),
            });
        }
        s
    }

    /// The slot of the remote player.
    pub fn remote_player_index(&self) -> (i: PlayerIndex)
        ensures
            i == self@.remote_player,
    {
        self.remote_player
    }

    /// The opening announcement: the local direction for the first frame,
    /// doubling as the sign of life that tells the remote the session is up.
    pub fn start_game(&self) -> (packet: SessionPacket)
        ensures
            packet == self@.announce_packet(),
            packet.wf(),
    {
        SessionPacket::SetDirection(
            SetDirectionPacket::new(self.frame, self.player_direction),
        )
    }

    /// Advances to `frame` as [`State::start_new_frame`] states, handing back
    /// the announcement to send and the outcomes due to the driver.
    pub fn start_new_frame(&mut self, frame: u32) -> (r: (SessionPacket, Vec<Outcome>))
        ensures
            ({
                let (s, packet, outcomes) = old(self)@.start_new_frame(frame);
                &&& final(self)@ == s
                &&& r.0 == packet
                &&& r.0.wf()
                &&& r.1@ == outcomes
            }),
    {
        self.frame = frame;
        self.has_committed_frame = false;
        self.has_remote_committed_frame = false;

        if let Some(dir) = self.queued_command.take() {
            self.player_direction = dir;
            self.buffered_outcomes.push(
                Outcome::PlayerControl(PlayerControlOutcome::new(self.player, dir)),
            );
        }

        if let Some(dir) = self.queued_command_from_remote.take() {
            self.buffered_outcomes.push(
                Outcome::PlayerControl(PlayerControlOutcome::new(self.remote_player, dir)),
            );
        }

        if self.has_remote_committed_next_frame {
            self.has_remote_committed_frame = true;
            self.has_remote_committed_next_frame = false;
        }

        let packet = SessionPacket::SetDirection(
            SetDirectionPacket::new(self.frame, self.player_direction),
        );
        let outcomes = self.take_buffered_outcomes();
        proof {
            assert(final(self)@ =~= old(self)@.start_new_frame(frame).0);
        }
        (packet, outcomes)
    }

    /// Changes the local direction as [`State::set_direction`] states: sent
    /// and reported at once while the frame is open, queued after the local
    /// commit.
    pub fn set_direction(&mut self, direction: Direction) -> (r: (
        Option<SessionPacket>,
        Vec<Outcome>,
    ))
        ensures
            ({
                let (s, packet, outcomes) = old(self)@.set_direction(direction);
                &&& final(self)@ == s
                &&& r.0 == packet
                &&& r.0 matches Some(p) ==> p.wf()
                &&& r.1@ == outcomes
            }),
    {
        let packet = if self.has_committed_frame {
            self.queued_command = Some(direction);
            None
        } else {
            self.player_direction = direction;
            self.buffered_outcomes.push(
                Outcome::PlayerControl(PlayerControlOutcome::new(self.player, direction)),
            );
            Some(
                SessionPacket::SetDirection(SetDirectionPacket::new(self.frame, direction)),
            )
        };
        let outcomes = self.take_buffered_outcomes();
        proof {
            assert(final(self)@ =~= old(self)@.set_direction(direction).0);
        }
        (packet, outcomes)
    }

    /// Commits the current frame as [`State::commit_frame`] states; only the
    /// first commit of a frame sends a packet, and the frame is released as
    /// soon as both commits are in.
    pub fn commit_frame(&mut self) -> (r: (Option<SessionPacket>, Vec<Outcome>))
        ensures
            ({
                let (s, packet, outcomes) = old(self)@.commit_frame();
                &&& final(self)@ == s
                &&& r.0 == packet
                &&& r.0 matches Some(p) ==> p.wf()
                &&& r.1@ == outcomes
            }),
    {
        let packet = if !self.has_committed_frame {
            self.has_committed_frame = true;
            if self.has_remote_committed_frame {
                self.buffered_outcomes.push(Outcome::RunFrame);
            }
            Some(
                SessionPacket::CommitFrame(CommitFramePacket::new(self.frame)),
            )
        } else {
            None
        };
        let outcomes = self.take_buffered_outcomes();
        proof {
            assert(final(self)@ =~= old(self)@.commit_frame().0);
        }
        (packet, outcomes)
    }

    /// Records a remote direction as [`State::received_set_direction`]
    /// states; a violation leaves the session untouched.
    pub fn on_received_set_direction(&mut self, pkt: SetDirectionPacket) -> (r: Result<
        bool,
        SessionError,
    >)
        ensures
            ({
                match old(self)@.received_set_direction(pkt) {
                    Ok((s, fresh)) => final(self)@ == s && r == Ok::<bool, SessionError>(fresh),
                    Err(e) => final(self)@ == old(self)@ && r == Err::<bool, SessionError>(e),
                }
            }),
    {
        let current = SessionPacket::modulo(self.frame);
        let next = self.next_frame_modulo();
        if pkt.frame_modulo == current {
            if self.has_remote_committed_frame {
                return Err(SessionError::DirectionAfterCommit { next_frame: false });
            }
            self.buffered_outcomes.push(
                Outcome::PlayerControl(
                    PlayerControlOutcome::new(self.remote_player, pkt.direction),
                ),
            );
            proof {
                assert(final(self)@ =~= old(self)@.received_set_direction(pkt)->Ok_0.0);
            }
            Ok(true)
        } else if pkt.frame_modulo == next {
            if self.has_remote_committed_next_frame {
                return Err(SessionError::DirectionAfterCommit { next_frame: true });
            }
            self.queued_command_from_remote = Some(pkt.direction);
            proof {
                assert(final(self)@ =~= old(self)@.received_set_direction(pkt)->Ok_0.0);
            }
            Ok(false)
        } else {
            Err(SessionError::FrameOutOfWindow { frame_modulo: pkt.frame_modulo })
        }
    }

    /// Records a remote commit as [`State::received_commit_frame`] states; a
    /// violation leaves the session untouched.
    pub fn on_received_commit_frame(&mut self, pkt: CommitFramePacket) -> (r: Result<
        bool,
        SessionError,
    >)
        ensures
            ({
                match old(self)@.received_commit_frame(pkt) {
                    Ok((s, fresh)) => final(self)@ == s && r == Ok::<bool, SessionError>(fresh),
                    Err(e) => final(self)@ == old(self)@ && r == Err::<bool, SessionError>(e),
                }
            }),
    {
        let current = SessionPacket::modulo(self.frame);
        let next = self.next_frame_modulo();
        if pkt.0 == current {
            self.has_remote_committed_frame = true;
            if self.has_committed_frame {
                self.buffered_outcomes.push(Outcome::RunFrame);
                proof {
                    assert(final(self)@ =~= old(self)@.received_commit_frame(pkt)->Ok_0.0);
                }
                Ok(true)
            } else {
                proof {
                    assert(final(self)@ =~= old(self)@.received_commit_frame(pkt)->Ok_0.0);
                }
                Ok(false)
            }
        } else if pkt.0 == next {
            self.has_remote_committed_next_frame = true;
            proof {
                assert(final(self)@ =~= old(self)@.received_commit_frame(pkt)->Ok_0.0);
            }
            Ok(false)
        } else {
            Err(SessionError::FrameOutOfWindow { frame_modulo: pkt.0 })
        }
    }

    /// Records a remote farewell as [`State::received_good_bye`] states.
    pub fn on_received_good_bye(&mut self)
        ensures
            final(self)@ == old(self)@.received_good_bye(),
    {
        self.buffered_outcomes.push(Outcome::RemoteLeft { politely: true });
        proof {
            assert(final(self)@ =~= old(self)@.received_good_bye());
        }
    }

    /// Records that the link to the remote died without a farewell, as
    /// [`State::remote_disconnected`] states.
    pub fn on_remote_disconnected(&mut self)
        ensures
            final(self)@ == old(self)@.remote_disconnected(),
    {
        self.buffered_outcomes.push(Outcome::RemoteLeft { politely: false });
        proof {
            assert(final(self)@ =~= old(self)@.remote_disconnected());
        }
    }

    /// Applies one raw byte from the remote as [`State::received_byte`]
    /// states. On success the flags report whether new outcomes were
    /// buffered and whether the remote left; a violation leaves the session
    /// untouched.
    pub fn on_received_byte(&mut self, byte: u8) -> (r: Result<(bool, bool), SessionError>)
        ensures
            ({
                match old(self)@.received_byte(byte) {
                    Ok((s, fresh, left)) => final(self)@ == s && r == Ok::<
                        (bool, bool),
                        SessionError,
                    >((fresh, left)),
                    Err(e) => final(self)@ == old(self)@ && r == Err::<
                        (bool, bool),
                        SessionError,
                    >(e),
                }
            }),
    {
        match SessionPacket::parse(byte) {
            None => Err(SessionError::UnknownByte { byte }),
            Some(SessionPacket::SetDirection(pkt)) => match self.on_received_set_direction(pkt) {
                Ok(fresh) => Ok((fresh, false)),
                Err(e) => Err(e),
            },
            Some(SessionPacket::CommitFrame(pkt)) => match self.on_received_commit_frame(pkt) {
                Ok(fresh) => Ok((fresh, false)),
                Err(e) => Err(e),
            },
            Some(SessionPacket::GoodBye) => {
                self.on_received_good_bye();
                Ok((true, true))
            }
        }
    }

    /// Hands every buffered outcome to the driver, leaving the buffer empty.
    pub fn take_buffered_outcomes(&mut self) -> (outcomes: Vec<Outcome>)
        ensures
            outcomes@ == old(self)@.buffered_outcomes,
            final(self)@ == (State { buffered_outcomes: Seq::empty(), ..old(self)@ }),
    {
        let mut outcomes: Vec<Outcome> = Vec::new();
        core::mem::swap(&mut outcomes, &mut self.buffered_outcomes);
        proof {
            assert(final(self)@ =~= State { buffered_outcomes: Seq::empty(), ..old(self)@ });
        }
        outcomes
    }

    /// The on-wire form of the frame after the current one, computed without
    /// stepping outside the window.
    fn next_frame_modulo(&self) -> (m: u8)
        ensures
            m as int == spec_modulo(self@.frame as int + 1),
    {
        let m = (SessionPacket::modulo(self.frame) + 1) % FRAME_WINDOW;
        proof {
            lemma_add_mod_noop(self.frame as int, 1, FRAME_WINDOW as int);
        }
        m
    }
}

/// How many of the outcomes release a frame.
pub open spec fn run_frame_count(outcomes: Seq<Outcome>) -> int
    decreases outcomes.len(),
{
    if outcomes.len() == 0 {
        0
    } else {
        run_frame_count(outcomes.drop_last()) + if outcomes.last() is RunFrame {
            1int
        } else {
            0int
        }
    }
}

proof fn lemma_run_frame_count_push(outcomes: Seq<Outcome>, outcome: Outcome)
    ensures
        run_frame_count(outcomes.push(outcome)) == run_frame_count(outcomes) + if outcome is RunFrame {
            1int
        } else {
            0int
        },
{
    assert(outcomes.push(outcome).drop_last() =~= outcomes);
}

/// Law: for one frame, the local commit and the remote's commit release the
/// frame exactly once, whichever arrives first, and never before both are
/// in; a repeated local commit neither sends nor releases anything.
///
/// `pkt` is the remote's commit for the session's current frame.
pub proof fn lemma_run_frame_exactly_once(s: State, pkt: CommitFramePacket)
    requires
        !s.has_committed_frame,
        !s.has_remote_committed_frame,
        run_frame_count(s.buffered_outcomes) == 0,
        pkt.0 == spec_modulo(s.frame as int),
    ensures
        ({
            // Local commit first: nothing is released until the remote commit
            // lands, which buffers exactly one release.
            let (s1, packet1, outcomes1) = s.commit_frame();
            &&& packet1 is Some
            &&& run_frame_count(outcomes1) == 0
            &&& s1.received_commit_frame(pkt) matches Ok((s2, fresh)) && fresh
                && run_frame_count(outcomes1) + run_frame_count(s2.buffered_outcomes) == 1
        }),
        ({
            // Remote commit first: nothing is released until the local commit,
            // which hands out exactly one release.
            let r = s.received_commit_frame(pkt);
            &&& r matches Ok((s1, fresh)) && !fresh
            &&& run_frame_count(r->Ok_0.0.buffered_outcomes) == 0
            &&& ({
                let (s2, packet2, outcomes2) = r->Ok_0.0.commit_frame();
                run_frame_count(outcomes2) + run_frame_count(s2.buffered_outcomes) == 1
            })
        }),
        ({
            // Repeating the local commit is inert.
            let (s1, packet1, outcomes1) = s.commit_frame();
            let (s1r, packet1r, outcomes1r) = s1.commit_frame();
            &&& packet1r is None
            &&& run_frame_count(outcomes1r) == 0
            &&& run_frame_count(s1r.buffered_outcomes) == 0
        }),
{
    let (s1, packet1, outcomes1) = s.commit_frame();
    lemma_run_frame_count_push(s1.buffered_outcomes, Outcome::RunFrame);
    let r = s.received_commit_frame(pkt);
    lemma_run_frame_count_push(r->Ok_0.0.buffered_outcomes, Outcome::RunFrame);
}

/// Law: a local direction set after the local commit of the same frame sends
/// no packet and changes nothing at once; the next frame start announces it
/// and applies it exactly once, emptying the queue.
pub proof fn lemma_queued_direction_applied_once(s: State, direction: Direction, frame: u32)
    requires
        !s.has_committed_frame,
        s.queued_command is None,
        s.queued_command_from_remote is None,
        s.buffered_outcomes.len() == 0,
    ensures
        ({
            let (s1, commit_packet, commit_outcomes) = s.commit_frame();
            let (s2, direction_packet, direction_outcomes) = s1.set_direction(direction);
            let (s3, announce_packet, frame_outcomes) = s2.start_new_frame(frame);
            &&& direction_packet is None
            &&& direction_outcomes.len() == 0
            &&& s2.player_direction == s.player_direction
            &&& s2.queued_command == Some(direction)
            &&& s3.player_direction == direction
            &&& announce_packet == SessionPacket::SetDirection(
                SetDirectionPacket {
                    frame_modulo: spec_modulo(frame as int) as u8,
                    direction,
                },
            )
            &&& frame_outcomes =~= seq![
                Outcome::PlayerControl(
                    PlayerControlOutcome { player_i: s.player, direction },
                ),
            ]
            &&& s3.queued_command is None
            &&& s3.buffered_outcomes.len() == 0
        }),
{
}

} // verus!
