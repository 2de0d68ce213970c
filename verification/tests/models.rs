use vinyl::message::Msg;
use vinyl::model::Model;
use vinyl::song::{QueuePlace, Song, Tags};
use vinyl::span::Span;
use vinyl::status::{State, Status};

fn span(secs: i64, nanos: i32) -> Span {
    Span::new(secs, nanos).unwrap()
}

fn at(pos: u32) -> Status {
    Status { song: Some(QueuePlace { id: 40 + pos, pos }), ..Status::default() }
}

fn song(file: &str) -> Song {
    Song {
        file: file.to_string(),
        title: None,
        tags: Tags::new(),
        duration: None,
        place: Some(QueuePlace { id: 1, pos: 0 }),
    }
}

fn playing(status: Status) -> Model {
    let status = Status { state: State::Play, ..status };
    Model::new(Ok::<_, ()>(status), 1_000, Ok(None))
}

#[test]
fn a_blank_status_is_the_default_of_the_client() {
    let ours = Status::default();
    let theirs = mpd::Status::default();
    assert_eq!(ours.volume, theirs.volume);
    assert_eq!(ours.repeat, theirs.repeat);
    assert_eq!(ours.random, theirs.random);
    assert_eq!(ours.state, State::Stop);
    assert_eq!(theirs.state, mpd::status::State::Stop);
    assert!(ours.song.is_none() && theirs.song.is_none());
    assert!(ours.time.is_none() && theirs.time.is_none());
    assert!(ours.elapsed.is_none() && theirs.elapsed.is_none());
    assert!(ours.duration.is_none() && theirs.duration.is_none());
}

#[test]
fn the_first_replies_make_the_model() {
    let model = Model::new(Ok::<_, ()>(at(3)), 77, Ok(Some(song("a"))));
    assert_eq!(model.status, at(3));
    assert_eq!(model.status_updated, 77);
    assert_eq!(model.current_song.unwrap().file, "a");
    assert_eq!(model.last_song_position, None);
    assert!(model.idle);
}

#[test]
fn failed_queries_leave_nothing_known() {
    let model = Model::new(Err("no status"), 77, Err("no song"));
    assert_eq!(model.status, Status::default());
    assert!(model.current_song.is_none());
    let mut model = Model::new(Ok::<_, &str>(at(3)), 77, Ok(Some(song("a"))));
    model.refresh(Err("no status"), 78, Err("no song"));
    assert_eq!(model.status, Status::default());
    assert!(model.current_song.is_none());
    assert_eq!(model.last_song_position, Some(3));
    assert!(!model.has_song_changed());
}

#[test]
fn a_round_keeps_the_last_position() {
    let mut model = Model::new(Ok::<_, ()>(at(3)), 1, Ok(None));
    assert!(!model.has_song_changed());
    model.refresh(Ok::<_, ()>(at(4)), 2, Ok(Some(song("b"))));
    assert_eq!(model.last_song_position, Some(3));
    assert_eq!(model.status_updated, 2);
    assert_eq!(model.current_song.as_ref().unwrap().file, "b");
    assert!(model.has_song_changed());
    model.refresh(Ok::<_, ()>(at(4)), 3, Ok(None));
    assert_eq!(model.last_song_position, Some(4));
    assert!(model.current_song.is_none());
    assert!(!model.has_song_changed());
}

#[test]
fn a_song_out_of_silence_is_not_a_change() {
    let mut model = Model::new(Ok::<_, ()>(Status::default()), 1, Ok(None));
    model.refresh(Ok::<_, ()>(at(4)), 2, Ok(None));
    assert!(!model.has_song_changed());
    model.refresh(Ok::<_, ()>(Status::default()), 3, Ok(None));
    assert!(!model.has_song_changed());
}

#[test]
fn the_list_is_scrolled_to_the_current_song() {
    let model = |status| Model::new(Ok::<_, ()>(status), 1, Ok(None));
    assert_eq!(model(Status::default()).scroll_to_current_song(), None);
    assert_eq!(model(at(9)).scroll_to_current_song(), Some(9));
    assert_eq!(model(at(u32::MAX)).scroll_to_current_song(), Some(-1));
}

#[test]
fn a_tick_adds_the_time_since_the_report() {
    let model = playing(Status { elapsed: Some(span(59, 250_000_000)), ..Status::default() });
    assert!(model.is_time_known(1_000));
    let progress = model.tick(1_000).unwrap();
    assert_eq!(progress.seek_value, 59_250);
    assert_eq!(progress.elapsed, "00:59");
    let progress = model.tick(1_000 + 749_999_999).unwrap();
    assert_eq!(progress.seek_value, 59_999);
    assert_eq!(progress.elapsed, "00:59");
    let progress = model.tick(1_000 + 750_000_000).unwrap();
    assert_eq!(progress.seek_value, 60_000);
    assert_eq!(progress.elapsed, "01:00");
}

#[test]
fn a_tick_out_of_negative_time() {
    let model = playing(Status { elapsed: Some(span(-1, -500_000_000)), ..Status::default() });
    assert_eq!(model.tick(1_000).unwrap().seek_value, -1_500);
    assert_eq!(model.tick(1_000 + 1_000_000_000).unwrap().seek_value, -500);
    assert_eq!(model.tick(1_000 + 2_000_000_000).unwrap().seek_value, 500);
}

#[test]
fn a_coarse_report_ticks_from_the_length() {
    let time = Some((span(10, 0), span(200, 0)));
    let model = playing(Status { time, ..Status::default() });
    let progress = model.tick(1_000).unwrap();
    assert_eq!(progress.seek_value, 200_000);
    assert_eq!(progress.elapsed, "03:20");
}

#[test]
fn only_playing_ticks() {
    for state in [State::Stop, State::Pause] {
        let status = Status { state, elapsed: Some(span(1, 0)), ..Status::default() };
        let model = Model::new(Ok::<_, ()>(status), 1_000, Ok(None));
        assert!(model.is_time_known(0));
        assert!(model.tick(0).is_none());
    }
}

#[test]
fn time_cannot_always_be_told() {
    assert!(!playing(Status::default()).is_time_known(2_000));
    let model = playing(Status { elapsed: Some(span(1, 0)), ..Status::default() });
    assert!(model.is_time_known(1_000));
    assert!(model.is_time_known(u64::MAX));
    let end = span(i64::MAX / 1000, 807_000_000);
    let model = playing(Status { elapsed: Some(end), ..Status::default() });
    assert!(model.is_time_known(1_000));
    assert!(!model.is_time_known(1_001));
}

#[test]
fn the_clock_starts_over() {
    let status = Status { state: State::Play, elapsed: Some(span(3, 0)), ..Status::default() };
    let model = Model::new(Ok::<_, ()>(status), u64::MAX - 499_999_999, Ok(None));
    assert_eq!(model.tick(u64::MAX).unwrap().seek_value, 3_499);
    assert_eq!(model.tick(0).unwrap().seek_value, 3_500);
    assert_eq!(model.tick(1_500_000_000).unwrap().seek_value, 5_000);
    let model = playing(Status { elapsed: Some(span(3, 0)), ..Status::default() });
    assert_eq!(model.tick(999).unwrap().seek_value, 2_999);
    let far = 1_000 + i64::MAX as u64;
    assert_eq!(model.tick(far).unwrap().seek_value, 3_000 + i64::MAX / 1_000_000);
    assert_eq!(model.tick(far + 1).unwrap().seek_value, 3_000 + i64::MIN / 1_000_000);
}

#[test]
fn time_moves_on() {
    let model = playing(Status { elapsed: Some(span(3, 0)), ..Status::default() });
    let mut shown = i64::MIN;
    for step in 0..50u64 {
        let value = model.tick(1_000 + step * 333_333).unwrap().seek_value;
        assert!(shown <= value);
        shown = value;
    }
    assert_eq!(shown, 3_016);
    assert_eq!(model.tick(1_000).unwrap().elapsed, "00:03");
    assert_eq!(model.tick(999).unwrap().elapsed, "00:02");
    assert_eq!(model.tick(0).unwrap().seek_value, 2_999);
}

#[test]
fn listening_starts_once() {
    let mut model = Model::new(Ok::<_, ()>(at(1)), 1, Ok(None));
    assert!(model.update_command::<f64>(&Msg::UpdateUi).is_none());
    assert!(model.idle);
    let listen = model.update_command::<f64>(&Msg::StartListening).unwrap();
    assert_eq!(listen.poll_millis, 30);
    assert!(!model.idle);
    assert!(model.update_command::<f64>(&Msg::Tick).is_none());
    assert_eq!(model.status, at(1));
}
