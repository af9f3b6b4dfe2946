use orb_sound::handle::PlaySoundCommand;
use orb_sound::handle::SoundPriority;
use orb_sound::handle::deadline_from;
use orb_sound::system::sort_requests;
use orb_sound::system::sound::recommended_capacity;

fn request(priority: SoundPriority, play_deadline: Option<u64>) -> PlaySoundCommand {
    PlaySoundCommand { path: String::new(), priority, play_deadline }
}

#[test]
fn sound_priority_sorting() {
    let now: u64 = 10_000;
    let mut queue = Vec::new();
    queue.push(request(SoundPriority::Default, None));
    queue.push(request(SoundPriority::Default, Some(now + 2_000)));
    queue.push(request(SoundPriority::High, None));
    queue.push(request(SoundPriority::High, Some(now + 5_000)));
    queue.push(request(SoundPriority::High, Some(now + 3_000)));
    queue.push(request(SoundPriority::Urgent, None));
    sort_requests(&mut queue);

    assert_eq!(queue.get(0).unwrap().priority, SoundPriority::Urgent);
    assert_eq!(queue.get(0).unwrap().play_deadline, None);
    assert_eq!(queue.get(1).unwrap().priority, SoundPriority::High);
    assert!(Some(now + 3_000) >= queue.get(1).unwrap().play_deadline);
    assert_eq!(queue.get(2).unwrap().priority, SoundPriority::High);
    assert!(Some(now + 5_000) >= queue.get(2).unwrap().play_deadline);
    assert_eq!(queue.get(3).unwrap().priority, SoundPriority::High);
    assert_eq!(queue.get(3).unwrap().play_deadline, None);
    assert_eq!(queue.get(4).unwrap().priority, SoundPriority::Default);
    assert!(Some(now + 2_000) >= queue.get(4).unwrap().play_deadline);
    assert_eq!(queue.get(5).unwrap().priority, SoundPriority::Default);
    assert_eq!(queue.get(5).unwrap().play_deadline, None);
}

#[test]
fn system_sound_priority_sorting() {
    let now: u64 = 50_000;
    let mut queue = Vec::new();
    queue.push(request(SoundPriority::Default, None));
    queue.push(request(SoundPriority::Default, Some(now + 2_000)));
    queue.push(request(SoundPriority::High, None));
    queue.push(request(SoundPriority::High, Some(now + 5_000)));
    queue.push(request(SoundPriority::High, Some(now + 3_000)));
    queue.push(request(SoundPriority::Urgent, None));
    sort_requests(&mut queue);

    assert_eq!(queue.get(0).unwrap().priority, SoundPriority::Urgent);
    assert_eq!(queue.get(0).unwrap().play_deadline, None);
    assert_eq!(queue.get(1).unwrap().priority, SoundPriority::High);
    assert_eq!(queue.get(1).unwrap().play_deadline, Some(now + 3_000));
    assert_eq!(queue.get(2).unwrap().priority, SoundPriority::High);
    assert_eq!(queue.get(2).unwrap().play_deadline, Some(now + 5_000));
    assert_eq!(queue.get(3).unwrap().priority, SoundPriority::High);
    assert_eq!(queue.get(3).unwrap().play_deadline, None);
    assert_eq!(queue.get(4).unwrap().priority, SoundPriority::Default);
    assert_eq!(queue.get(4).unwrap().play_deadline, Some(now + 2_000));
    assert_eq!(queue.get(5).unwrap().priority, SoundPriority::Default);
    assert_eq!(queue.get(5).unwrap().play_deadline, None);
}

#[test]
fn request_comparison_ignores_path() {
    let a = PlaySoundCommand {
        path: "one.wav".to_string(),
        priority: SoundPriority::High,
        play_deadline: Some(7),
    };
    let b = PlaySoundCommand {
        path: "two.wav".to_string(),
        priority: SoundPriority::High,
        play_deadline: Some(7),
    };
    assert_eq!(a, b);
    assert!(a.plays_no_later_than(&b));
    assert!(b.plays_no_later_than(&a));
}

#[test]
fn deadline_formula() {
    assert_eq!(deadline_from(1_000, Some(250)), Some(1_250));
    assert_eq!(deadline_from(1_000, None), None);
    assert_eq!(deadline_from(u64::MAX - 10, Some(50)), Some(u64::MAX));
}

#[test]
fn capacity_formula() {
    assert_eq!(recommended_capacity(44_100, 2), 4_410);
    assert_eq!(recommended_capacity(44_100, 1), 2_205);
    assert_eq!(recommended_capacity(44_101, 1), 2_206);
    assert_eq!(recommended_capacity(8_000, 1), 400);
}

#[test]
fn expiry_predicate() {
    let r = request(SoundPriority::Default, Some(5_000));
    assert!(r.is_expired(5_001));
    assert!(!r.is_expired(5_000));
    let forever = request(SoundPriority::Default, None);
    assert!(!forever.is_expired(u64::MAX));
}
