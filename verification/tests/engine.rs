use std::sync::mpsc;
use std::sync::mpsc::Sender;

use orb_sound::OrbSoundSystem;
use orb_sound::handle::PlaySoundCommand;
use orb_sound::handle::SoundCommand;
use orb_sound::handle::SoundPriority;

const DRAIN_BUDGET: usize = 64;

fn mock_system() -> (OrbSoundSystem, Sender<SoundCommand>) {
    let (tx, rx) = mpsc::channel::<SoundCommand>();
    (OrbSoundSystem::new(rx), tx)
}

fn play_request(path: &str, priority: SoundPriority, play_deadline: Option<u64>) -> SoundCommand {
    SoundCommand::PlaySound(PlaySoundCommand {
        path: path.to_string(),
        priority,
        play_deadline,
    })
}

fn check_process_commands() {
    let (mut system, command_sender) = mock_system();
    // pause
    command_sender.send(SoundCommand::Pause).unwrap();
    let _ = system.process_incoming_commands(DRAIN_BUDGET);
    assert!(system.is_paused());
    // resume
    command_sender.send(SoundCommand::Resume).unwrap();
    let _ = system.process_incoming_commands(DRAIN_BUDGET);
    assert!(!system.is_paused());
    // set volume
    command_sender.send(SoundCommand::SetVolume(2_000)).unwrap();
    let _ = system.process_incoming_commands(DRAIN_BUDGET);
    assert_eq!(system.volume_millis(), 2_000);
    // adjust volume
    command_sender.send(SoundCommand::AdjustVolume(500)).unwrap();
    let _ = system.process_incoming_commands(DRAIN_BUDGET);
    assert_eq!(system.volume_millis(), 2_500);
    command_sender.send(SoundCommand::AdjustVolume(-1_000)).unwrap();
    let _ = system.process_incoming_commands(DRAIN_BUDGET);
    assert_eq!(system.volume_millis(), 1_500);
}

#[test]
fn system_process_commands() {
    check_process_commands();
}

#[test]
fn mod_process_commands() {
    check_process_commands();
}

fn check_shutdown() {
    let (mut system, command_sender) = mock_system();
    std::mem::drop(command_sender);
    let shutdown = system.process_incoming_commands(DRAIN_BUDGET);
    assert!(shutdown);
}

#[test]
fn system_shutdown() {
    check_shutdown();
}

#[test]
fn mod_shutdown() {
    check_shutdown();
}

#[test]
fn shutdown_command() {
    let (mut system, command_sender) = mock_system();
    command_sender.send(SoundCommand::Shutdown).unwrap();
    let shutdown = system.process_incoming_commands(DRAIN_BUDGET);
    assert!(shutdown);
}

fn check_next_sound() {
    let (mut system, command_sender) = mock_system();
    let cmd = play_request("sounds/test.wav", SoundPriority::Default, None);

    command_sender.send(cmd).unwrap();
    let _ = system.process_incoming_commands(DRAIN_BUDGET);
    assert!(system.next_sound(10_000).is_some());
}

#[test]
fn system_next_sound() {
    check_next_sound();
}

#[test]
fn mod_next_sound() {
    check_next_sound();
}

fn check_next_sound_after_deadline() {
    let now: u64 = 10_000;
    let (mut system, command_sender) = mock_system();
    command_sender
        .send(play_request(
            "sounds/test.wav",
            SoundPriority::Default,
            Some(now - 100),
        ))
        .unwrap();
    let _ = system.process_incoming_commands(DRAIN_BUDGET);

    assert!(system.next_sound(now).is_none());
    assert_eq!(system.pending_len(), 0);
}

#[test]
fn system_next_sound_after_deadline() {
    check_next_sound_after_deadline();
}

#[test]
fn mod_next_sound_after_deadline() {
    check_next_sound_after_deadline();
}

#[test]
fn selection_follows_arbitration_order() {
    // While the engine is idle, queue requests of mixed priorities whose
    // deadlines all lie comfortably in the future; they must come back out
    // in priority order, sooner deadlines first, deadline-less ones last.
    let now: u64 = 100_000;
    let far = now + 10_000;
    let (mut system, command_sender) = mock_system();
    let batch = vec![
        ("a.wav", SoundPriority::Default, None),
        ("b.wav", SoundPriority::Default, Some(now + 2_000)),
        ("c.wav", SoundPriority::High, None),
        ("d.wav", SoundPriority::High, Some(now + 5_000)),
        ("e.wav", SoundPriority::High, Some(now + 3_000)),
        ("f.wav", SoundPriority::Urgent, None),
    ];
    for (path, priority, deadline) in batch {
        let deadline = deadline.map(|d| d.min(far));
        command_sender
            .send(play_request(path, priority, deadline))
            .unwrap();
    }
    let _ = system.process_incoming_commands(DRAIN_BUDGET);
    assert_eq!(system.pending_len(), 6);

    let order: Vec<String> = std::iter::from_fn(|| system.next_sound(now).map(|r| r.path))
        .collect();
    assert_eq!(order, vec!["f.wav", "e.wav", "d.wav", "c.wav", "b.wav", "a.wav"]);
    assert_eq!(system.pending_len(), 0);
}

#[test]
fn urgent_submitted_before_earlier_deadline_high_plays_first() {
    let now: u64 = 100_000;
    let (mut system, command_sender) = mock_system();
    command_sender
        .send(play_request("urgent.wav", SoundPriority::Urgent, Some(now + 9_000)))
        .unwrap();
    command_sender
        .send(play_request("high.wav", SoundPriority::High, Some(now + 1_000)))
        .unwrap();
    let _ = system.process_incoming_commands(DRAIN_BUDGET);

    let first = system.next_sound(now).unwrap();
    assert_eq!(first.priority, SoundPriority::Urgent);
    assert_eq!(first.path, "urgent.wav");
}

#[test]
fn expired_request_is_discarded_silently() {
    // A request with a 50 ms window that is only examined 200 ms later is
    // dropped without being returned.
    let submitted_at: u64 = 1_000;
    let examined_at = submitted_at + 200;
    let (mut system, command_sender) = mock_system();
    command_sender
        .send(play_request(
            "x.wav",
            SoundPriority::High,
            Some(submitted_at + 50),
        ))
        .unwrap();
    let _ = system.process_incoming_commands(DRAIN_BUDGET);

    assert!(system.next_sound(examined_at).is_none());
    assert_eq!(system.pending_len(), 0);
}

#[test]
fn transport_sequence_applies_in_order() {
    // Pause, then SetVolume(2.0), then AdjustVolume(-0.5), then Resume:
    // afterwards the sink plays at volume 1.5.
    let (mut system, command_sender) = mock_system();
    command_sender.send(SoundCommand::Pause).unwrap();
    command_sender.send(SoundCommand::SetVolume(2_000)).unwrap();
    command_sender.send(SoundCommand::AdjustVolume(-500)).unwrap();
    command_sender.send(SoundCommand::Resume).unwrap();
    let shutdown = system.process_incoming_commands(DRAIN_BUDGET);
    assert!(!shutdown);
    assert_eq!(system.volume_millis(), 1_500);
    assert!(!system.is_paused());
}

#[test]
fn pause_is_idempotent() {
    let (mut twice, twice_sender) = mock_system();
    twice_sender.send(SoundCommand::Pause).unwrap();
    twice_sender.send(SoundCommand::Pause).unwrap();
    twice_sender.send(SoundCommand::Resume).unwrap();
    let _ = twice.process_incoming_commands(DRAIN_BUDGET);

    let (mut once, once_sender) = mock_system();
    once_sender.send(SoundCommand::Pause).unwrap();
    once_sender.send(SoundCommand::Resume).unwrap();
    let _ = once.process_incoming_commands(DRAIN_BUDGET);

    assert_eq!(twice.is_paused(), once.is_paused());
    assert_eq!(twice.volume_millis(), once.volume_millis());
}

#[test]
fn volume_adjustment_saturates() {
    let (mut system, command_sender) = mock_system();
    command_sender.send(SoundCommand::SetVolume(i64::MAX)).unwrap();
    command_sender.send(SoundCommand::AdjustVolume(1)).unwrap();
    let _ = system.process_incoming_commands(DRAIN_BUDGET);
    assert_eq!(system.volume_millis(), i64::MAX);
}

#[test]
fn commands_behind_shutdown_stay_unprocessed() {
    let (mut system, command_sender) = mock_system();
    command_sender.send(SoundCommand::SetVolume(2_000)).unwrap();
    command_sender.send(SoundCommand::Shutdown).unwrap();
    command_sender.send(SoundCommand::SetVolume(3_000)).unwrap();
    let shutdown = system.process_incoming_commands(DRAIN_BUDGET);
    assert!(shutdown);
    assert_eq!(system.volume_millis(), 2_000);
}
