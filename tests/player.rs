use playr::player::{shuffle_pick, App, Command, SinkOp, Status};

fn catalog(n: usize) -> Vec<String> {
    (0..n).map(|i| format!("song{}.ogg", i)).collect()
}

#[test]
fn new_player_is_idle() {
    let app = App::new(catalog(2));
    assert_eq!(app.selected_index(), Some(0));
    assert_eq!(app.now_playing(), None);
    assert!(app.queued().is_empty());
    assert!(!app.is_looping());
    assert!(!app.is_shuffle());
    assert!(!app.is_paused());
    assert_eq!(app.volume(), 100);
    assert_eq!(app.status(), Status::Playing(None));
}

#[test]
fn busy_sink_schedules_nothing() {
    let mut app = App::new(catalog(2));
    app.queue_selected();
    assert_eq!(app.tick(1), None);
    assert_eq!(app.queued(), vec![0]);
    assert_eq!(app.now_playing(), None);
}

#[test]
fn queue_plays_in_order_then_silence() {
    let mut app = App::new(catalog(3));
    app.queue_selected();
    app.select_next();
    app.queue_selected();
    assert_eq!(app.queued(), vec![0, 1]);
    assert_eq!(app.tick(0), Some(0));
    assert_eq!(app.now_playing(), Some(0));
    assert_eq!(app.tick(0), Some(1));
    assert_eq!(app.now_playing(), Some(1));
    assert_eq!(app.tick(0), None);
    assert_eq!(app.now_playing(), None);
}

#[test]
fn loop_replays_current_track() {
    let mut app = App::new(catalog(3));
    app.select_next();
    app.queue_selected();
    app.select_previous();
    assert_eq!(
        app.play_selected(),
        vec![SinkOp::Stop, SinkOp::Append(0), SinkOp::Play]
    );
    app.toggle_loop();
    for _ in 0..50 {
        assert_eq!(app.tick(0), Some(0));
        assert_eq!(app.now_playing(), Some(0));
    }
    assert_eq!(app.queued(), vec![1]);
    assert_eq!(app.status(), Status::Looping(Some(0)));
}

#[test]
fn loop_without_track_falls_back_to_queue() {
    let mut app = App::new(catalog(2));
    app.toggle_loop();
    app.select_next();
    app.queue_selected();
    assert_eq!(app.tick(0), Some(1));
    assert_eq!(app.tick(0), Some(1));
}

#[test]
fn shuffle_never_repeats_a_position() {
    let mut app = App::new(catalog(3));
    app.toggle_shuffle();
    let mut last = app.tick(0);
    assert!(last.is_some());
    for _ in 0..1000 {
        let next = app.tick(0);
        assert!(next.is_some());
        assert!(next.unwrap() < 3);
        assert_ne!(next, last);
        assert_eq!(app.now_playing(), next);
        last = next;
    }
}

#[test]
fn shuffle_never_repeats_with_duplicate_names() {
    let mut app = App::new(vec!["same".to_string(), "SAME".to_string()]);
    app.toggle_shuffle();
    let mut last = app.tick(0);
    for _ in 0..1000 {
        let next = app.tick(0);
        assert_ne!(next, last);
        last = next;
    }
}

#[test]
fn shuffle_reaches_every_track() {
    let mut app = App::new(catalog(4));
    app.toggle_shuffle();
    let mut seen = [false; 4];
    for _ in 0..1000 {
        if let Some(i) = app.tick(0) {
            seen[i] = true;
        }
    }
    assert_eq!(seen, [true; 4]);
}

#[test]
fn shuffle_single_track_terminates() {
    let mut app = App::new(catalog(1));
    app.toggle_shuffle();
    assert_eq!(app.tick(0), Some(0));
    assert_eq!(app.now_playing(), Some(0));
    for _ in 0..100 {
        assert_eq!(app.tick(0), Some(0));
        assert_eq!(app.now_playing(), Some(0));
    }
}

#[test]
fn failed_open_clears_now_playing() {
    let mut app = App::new(catalog(3));
    app.select_next();
    app.queue_selected();
    app.select_previous();
    app.play_selected();
    app.toggle_loop();
    app.open_failed(2);
    assert_eq!(app.now_playing(), Some(0));
    app.open_failed(0);
    assert_eq!(app.now_playing(), None);
    assert_eq!(app.tick(0), Some(1));
    assert_eq!(app.now_playing(), Some(1));
}

#[test]
fn shuffle_empty_catalog() {
    let mut app = App::new(vec![]);
    app.toggle_shuffle();
    assert_eq!(app.tick(0), None);
    assert_eq!(app.status(), Status::Shuffling);
}

#[test]
fn shuffle_pick_skips_current() {
    assert_eq!(shuffle_pick(5, Some(2), 7), 4);
    assert_eq!(shuffle_pick(5, Some(2), 5), 1);
    assert_eq!(shuffle_pick(5, None, 7), 2);
    assert_eq!(shuffle_pick(3, Some(0), 0), 1);
    assert_eq!(shuffle_pick(2, Some(1), 9), 0);
}

#[test]
fn schedule_with_given_draw() {
    let mut app = App::new(catalog(4));
    app.toggle_shuffle();
    assert_eq!(app.schedule(0, 6), Some(2));
    assert_eq!(app.schedule(0, 2), Some(3));
    assert_eq!(app.schedule(3, 0), None);
    assert_eq!(app.now_playing(), Some(3));
}

#[test]
fn skip_while_paused_resumes_and_moves_on() {
    let mut app = App::new(catalog(3));
    app.play_selected();
    app.select_next();
    app.queue_selected();
    assert_eq!(app.toggle_pause(), SinkOp::Pause);
    assert!(app.is_paused());
    assert_eq!(app.status(), Status::Paused);
    assert_eq!(app.skip(), vec![SinkOp::Stop, SinkOp::Play]);
    assert!(!app.is_paused());
    assert_eq!(app.tick(0), Some(1));
    assert_eq!(app.now_playing(), Some(1));
}

#[test]
fn toggle_pause_twice_resumes() {
    let mut app = App::new(catalog(1));
    assert_eq!(app.toggle_pause(), SinkOp::Pause);
    assert_eq!(app.toggle_pause(), SinkOp::Play);
    assert!(!app.is_paused());
}

#[test]
fn volume_steps_and_clamps() {
    let mut app = App::new(catalog(1));
    assert_eq!(app.volume_up(), SinkOp::SetVolume(110));
    assert_eq!(app.volume_down(), SinkOp::SetVolume(100));
    for _ in 0..30 {
        app.volume_up();
    }
    assert_eq!(app.volume(), 200);
    assert_eq!(app.volume_up(), SinkOp::SetVolume(200));
    for _ in 0..30 {
        app.volume_down();
    }
    assert_eq!(app.volume(), 10);
    assert_eq!(app.volume_down(), SinkOp::SetVolume(10));
}

#[test]
fn volume_stays_in_range_under_mixed_presses() {
    let mut app = App::new(catalog(1));
    let mut expected: i64 = 100;
    for k in 0..500u64 {
        let up = (k * 7919 + k / 3) % 5 < 3;
        if up {
            app.volume_up();
            expected = (expected + 10).min(200);
        } else {
            app.volume_down();
            expected = (expected - 10).max(10);
        }
        assert_eq!(app.volume() as i64, expected);
        assert!(app.volume() >= 10 && app.volume() <= 200);
        assert_eq!(app.volume() % 10, 0);
    }
}

#[test]
fn play_selected_on_empty_catalog_does_nothing() {
    let mut app = App::new(vec![]);
    assert!(app.play_selected().is_empty());
    app.queue_selected();
    assert!(app.queued().is_empty());
    assert_eq!(app.get_selected(), None);
}

#[test]
fn play_selected_bypasses_queue() {
    let mut app = App::new(catalog(3));
    app.queue_selected();
    app.select_previous();
    assert_eq!(app.get_selected(), Some("song2.ogg".to_string()));
    assert_eq!(
        app.play_selected(),
        vec![SinkOp::Stop, SinkOp::Append(2), SinkOp::Play]
    );
    assert_eq!(app.now_playing(), Some(2));
    assert_eq!(app.queued(), vec![0]);
    assert_eq!(app.song_name(2), "song2.ogg");
    assert_eq!(app.songs().len(), 3);
}

#[test]
fn handle_dispatches_commands() {
    let mut app = App::new(catalog(2));
    assert!(app.handle(Command::SelectNext).is_empty());
    assert_eq!(app.selected_index(), Some(1));
    assert!(app.handle(Command::SelectPrevious).is_empty());
    assert_eq!(app.selected_index(), Some(0));
    assert!(app.handle(Command::QueueSelected).is_empty());
    assert_eq!(app.queued(), vec![0]);
    assert_eq!(app.handle(Command::TogglePause), vec![SinkOp::Pause]);
    assert_eq!(app.handle(Command::Skip), vec![SinkOp::Stop, SinkOp::Play]);
    assert!(app.handle(Command::ToggleLoop).is_empty());
    assert!(app.is_looping());
    assert!(app.handle(Command::ToggleShuffle).is_empty());
    assert!(app.is_shuffle());
    assert_eq!(app.handle(Command::VolumeUp), vec![SinkOp::SetVolume(110)]);
    assert_eq!(app.handle(Command::VolumeDown), vec![SinkOp::SetVolume(100)]);
    assert_eq!(
        app.handle(Command::PlaySelected),
        vec![SinkOp::Stop, SinkOp::Append(0), SinkOp::Play]
    );
    assert!(app.handle(Command::Quit).is_empty());
}

#[test]
fn trim_queue_drops_front_entries() {
    let mut app = App::new(catalog(3));
    app.queue_selected();
    app.select_next();
    app.queue_selected();
    app.select_next();
    app.queue_selected();
    app.trim_queue(5);
    assert_eq!(app.queued(), vec![0, 1, 2]);
    app.trim_queue(2);
    assert_eq!(app.queued(), vec![1, 2]);
    app.trim_queue(0);
    assert!(app.queued().is_empty());
}
