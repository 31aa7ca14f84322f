use achtung::codec::{CommitFramePacket, SessionPacket, SetDirectionPacket};
use achtung::game::Direction;
use achtung::session::{Outcome, PlayerControlOutcome, Session, SessionError};

fn run_frame_count(outcomes: &[Outcome]) -> usize {
    outcomes.iter().filter(|o| matches!(o, Outcome::RunFrame)).count()
}

fn control_count(outcomes: &[Outcome], player_i: usize, direction: Direction) -> usize {
    outcomes
        .iter()
        .filter(|o| {
            matches!(
                o,
                Outcome::PlayerControl(PlayerControlOutcome { player_i: p, direction: d })
                    if *p == player_i && *d == direction
            )
        })
        .count()
}

#[test]
fn local_commit_then_remote_commit_releases_the_frame_once() {
    let mut session = Session::new(0, 1, Direction::Right, 1);
    let (packet, outcomes) = session.commit_frame();
    assert!(matches!(packet, Some(SessionPacket::CommitFrame(_))));
    assert_eq!(run_frame_count(&outcomes), 0);

    let fresh = session.on_received_commit_frame(CommitFramePacket::new(1)).unwrap();
    assert!(fresh);
    let buffered = session.take_buffered_outcomes();
    assert_eq!(run_frame_count(&buffered), 1);
    assert_eq!(buffered.len(), 1);
}

#[test]
fn remote_commit_then_local_commit_releases_the_frame_once() {
    let mut session = Session::new(0, 1, Direction::Right, 1);
    let fresh = session.on_received_commit_frame(CommitFramePacket::new(1)).unwrap();
    assert!(!fresh);
    assert_eq!(session.take_buffered_outcomes().len(), 0);

    let (packet, outcomes) = session.commit_frame();
    assert!(matches!(packet, Some(SessionPacket::CommitFrame(_))));
    assert_eq!(run_frame_count(&outcomes), 1);
    assert_eq!(run_frame_count(&session.take_buffered_outcomes()), 0);
}

#[test]
fn repeated_local_commit_sends_and_releases_nothing() {
    let mut session = Session::new(0, 1, Direction::Right, 1);
    let (first, _) = session.commit_frame();
    assert!(first.is_some());
    let (second, outcomes) = session.commit_frame();
    assert!(second.is_none());
    assert_eq!(outcomes.len(), 0);
}

#[test]
fn direction_after_commit_is_queued_then_applied_and_announced_once() {
    let mut session = Session::new(0, 1, Direction::Up, 1);
    let (_, _) = session.commit_frame();

    // After the local commit the change is queued: nothing goes out.
    let (packet, outcomes) = session.set_direction(Direction::Left);
    assert!(packet.is_none());
    assert_eq!(outcomes.len(), 0);

    // The next frame start announces and applies it exactly once.
    let (packet, outcomes) = session.start_new_frame(2);
    match packet {
        SessionPacket::SetDirection(p) => {
            assert_eq!(p.frame_modulo, 2);
            assert_eq!(p.direction, Direction::Left);
        }
        other => panic!("expected a direction announcement, got {:?}", other),
    }
    assert_eq!(control_count(&outcomes, 0, Direction::Left), 1);
    assert_eq!(outcomes.len(), 1);

    // The queue is empty again: a further frame start repeats nothing.
    let (_, outcomes) = session.start_new_frame(3);
    assert_eq!(outcomes.len(), 0);
}

#[test]
fn direction_before_commit_is_sent_and_applied_at_once() {
    let mut session = Session::new(0, 1, Direction::Up, 1);
    let (packet, outcomes) = session.set_direction(Direction::Right);
    match packet {
        Some(SessionPacket::SetDirection(p)) => {
            assert_eq!(p.frame_modulo, 1);
            assert_eq!(p.direction, Direction::Right);
        }
        other => panic!("expected a direction announcement, got {:?}", other),
    }
    assert_eq!(control_count(&outcomes, 0, Direction::Right), 1);
}

#[test]
fn scenario_remote_packets_before_local_commit() {
    // Peer A on frame 1 turns right and commits; B's packets were already in.
    let mut session = Session::new(0, 1, Direction::Up, 1);
    let (_, outcomes) = session.set_direction(Direction::Right);
    assert_eq!(control_count(&outcomes, 0, Direction::Right), 1);

    let fresh = session
        .on_received_set_direction(SetDirectionPacket::new(1, Direction::Left))
        .unwrap();
    assert!(fresh);
    let fresh = session.on_received_commit_frame(CommitFramePacket::new(1)).unwrap();
    assert!(!fresh);

    let (packet, outcomes) = session.commit_frame();
    assert!(packet.is_some());
    assert_eq!(control_count(&outcomes, 1, Direction::Left), 1);
    assert_eq!(run_frame_count(&outcomes), 1);
    assert_eq!(run_frame_count(&session.take_buffered_outcomes()), 0);
}

#[test]
fn scenario_remote_packets_after_local_commit() {
    // Same stimuli, the other interleaving: still exactly one release.
    let mut session = Session::new(0, 1, Direction::Up, 1);
    let (_, outcomes) = session.set_direction(Direction::Right);
    assert_eq!(control_count(&outcomes, 0, Direction::Right), 1);

    let (packet, outcomes) = session.commit_frame();
    assert!(packet.is_some());
    assert_eq!(run_frame_count(&outcomes), 0);

    let fresh = session
        .on_received_set_direction(SetDirectionPacket::new(1, Direction::Left))
        .unwrap();
    assert!(fresh);
    let fresh = session.on_received_commit_frame(CommitFramePacket::new(1)).unwrap();
    assert!(fresh);

    let buffered = session.take_buffered_outcomes();
    assert_eq!(control_count(&buffered, 1, Direction::Left), 1);
    assert_eq!(run_frame_count(&buffered), 1);
}

#[test]
fn scenario_early_remote_direction_is_buffered_until_the_next_frame() {
    // B announces a direction for frame 2 while we are still on frame 1.
    let mut session = Session::new(0, 1, Direction::Up, 1);
    let fresh = session
        .on_received_set_direction(SetDirectionPacket::new(2, Direction::Up))
        .unwrap();
    assert!(!fresh);
    assert_eq!(session.take_buffered_outcomes().len(), 0);

    let (_, outcomes) = session.start_new_frame(2);
    assert_eq!(control_count(&outcomes, 1, Direction::Up), 1);
    assert_eq!(outcomes.len(), 1);

    // Applied once only: frame 3 repeats nothing.
    let (_, outcomes) = session.start_new_frame(3);
    assert_eq!(outcomes.len(), 0);
}

#[test]
fn scenario_good_bye_byte_becomes_a_polite_departure() {
    let mut session = Session::new(0, 1, Direction::Up, 1);
    let (fresh, remote_left) = session.on_received_byte(0b1000_0000).unwrap();
    assert!(fresh);
    assert!(remote_left);
    let buffered = session.take_buffered_outcomes();
    assert_eq!(buffered.len(), 1);
    assert!(matches!(buffered[0], Outcome::RemoteLeft { politely: true }));
}

#[test]
fn early_remote_commit_is_promoted_at_the_frame_boundary() {
    let mut session = Session::new(0, 1, Direction::Up, 1);
    let fresh = session.on_received_commit_frame(CommitFramePacket::new(2)).unwrap();
    assert!(!fresh);

    // On frame 2 the early commit already counts: the local commit releases.
    let (_, _) = session.start_new_frame(2);
    let (_, outcomes) = session.commit_frame();
    assert_eq!(run_frame_count(&outcomes), 1);
}

#[test]
fn out_of_window_packets_are_typed_errors() {
    let mut session = Session::new(0, 1, Direction::Up, 1);
    let err = session
        .on_received_set_direction(SetDirectionPacket::new(3, Direction::Up))
        .unwrap_err();
    assert_eq!(err, SessionError::FrameOutOfWindow { frame_modulo: 3 });

    let err = session.on_received_commit_frame(CommitFramePacket::new(5)).unwrap_err();
    assert_eq!(err, SessionError::FrameOutOfWindow { frame_modulo: 5 });
}

#[test]
fn direction_after_remote_commit_is_a_typed_error() {
    let mut session = Session::new(0, 1, Direction::Up, 1);
    session.on_received_commit_frame(CommitFramePacket::new(1)).unwrap();
    let err = session
        .on_received_set_direction(SetDirectionPacket::new(1, Direction::Down))
        .unwrap_err();
    assert_eq!(err, SessionError::DirectionAfterCommit { next_frame: false });

    session.on_received_commit_frame(CommitFramePacket::new(2)).unwrap();
    let err = session
        .on_received_set_direction(SetDirectionPacket::new(2, Direction::Down))
        .unwrap_err();
    assert_eq!(err, SessionError::DirectionAfterCommit { next_frame: true });
}

#[test]
fn unknown_byte_is_a_typed_error_and_changes_nothing() {
    let mut session = Session::new(0, 1, Direction::Up, 1);
    let err = session.on_received_byte(0b1000_0001).unwrap_err();
    assert_eq!(err, SessionError::UnknownByte { byte: 0b1000_0001 });
    assert_eq!(session.take_buffered_outcomes().len(), 0);
}

#[test]
fn a_dead_link_becomes_an_impolite_departure() {
    let mut session = Session::new(0, 1, Direction::Up, 1);
    session.on_remote_disconnected();
    let buffered = session.take_buffered_outcomes();
    assert_eq!(buffered.len(), 1);
    assert!(matches!(buffered[0], Outcome::RemoteLeft { politely: false }));
}

#[test]
fn start_game_announces_the_opening_direction() {
    let session = Session::new(0, 1, Direction::Left, 1);
    match session.start_game() {
        SessionPacket::SetDirection(p) => {
            assert_eq!(p.frame_modulo, 1);
            assert_eq!(p.direction, Direction::Left);
        }
        other => panic!("expected a direction announcement, got {:?}", other),
    }
}

#[test]
fn remote_player_index_reports_the_remote_slot() {
    let session = Session::new(1, 0, Direction::Left, 1);
    assert_eq!(session.remote_player_index(), 0);
}

#[test]
fn parity_window_survives_the_largest_frame_number() {
    // u32::MAX has parity 31, so the next frame's parity is 0.
    let mut session = Session::new(0, 1, Direction::Up, u32::MAX);
    let fresh = session.on_received_commit_frame(CommitFramePacket(0)).unwrap();
    assert!(!fresh);
    let err = session.on_received_commit_frame(CommitFramePacket(1)).unwrap_err();
    assert_eq!(err, SessionError::FrameOutOfWindow { frame_modulo: 1 });
}

#[test]
fn frame_parity_wraps_at_the_window_edge() {
    // Frame 31's successor is announced as parity 0.
    let mut session = Session::new(0, 1, Direction::Up, 31);
    let fresh = session
        .on_received_set_direction(SetDirectionPacket::new(32, Direction::Down))
        .unwrap();
    assert!(!fresh);
    let (_, outcomes) = session.start_new_frame(32);
    assert_eq!(control_count(&outcomes, 1, Direction::Down), 1);
}
