use vinyl::message::{connect, Ctrl, Msg, Signal};
use vinyl::model::Model;
use vinyl::song::{QueuePlace, Song, Tags};
use vinyl::span::Span;
use vinyl::status::{State, Status};
use vinyl::win::{
    Screen, WeightChange, Win, NOW_PLAYING_ALBUM, NOW_PLAYING_ARTIST, NOW_PLAYING_FILENAME,
    NOW_PLAYING_ID, NOW_PLAYING_LENGTH, NOW_PLAYING_TITLE, NOW_PLAYING_WEIGHT,
};

fn span(secs: i64) -> Span {
    Span::new(secs, 0).unwrap()
}

fn at(pos: u32) -> Status {
    Status { song: Some(QueuePlace { id: 40 + pos, pos }), ..Status::default() }
}

fn model(status: Status) -> Model {
    Model::new(Ok::<_, ()>(status), 0, Ok(None))
}

fn song(pos: u32) -> Song {
    Song {
        file: format!("{}.ogg", pos),
        title: None,
        tags: Tags::new(),
        duration: None,
        place: Some(QueuePlace { id: 40 + pos, pos }),
    }
}

fn queue(len: u32) -> Vec<Song> {
    (0..len).map(song).collect()
}

fn weights(win: &Win) -> Vec<i32> {
    win.rows.iter().map(|row| row.weight).collect()
}

fn change(row: usize, weight: i32) -> WeightChange {
    WeightChange { row, weight }
}

#[test]
fn the_columns_are_numbered_from_left_to_right() {
    assert_eq!(NOW_PLAYING_ID, 0);
    assert_eq!(NOW_PLAYING_ARTIST, 1);
    assert_eq!(NOW_PLAYING_ALBUM, 2);
    assert_eq!(NOW_PLAYING_TITLE, 3);
    assert_eq!(NOW_PLAYING_LENGTH, 4);
    assert_eq!(NOW_PLAYING_FILENAME, 5);
    assert_eq!(NOW_PLAYING_WEIGHT, 6);
}

#[test]
fn the_screen_shows_the_status() {
    let status = Status {
        volume: 63,
        repeat: true,
        random: false,
        state: State::Play,
        song: None,
        time: Some((span(12), span(200))),
        elapsed: Some(Span::new(12, 345_600_000).unwrap()),
        duration: Some(Span::new(200, 500_000_000).unwrap()),
    };
    let screen = Screen::new(&model(status));
    assert_eq!(screen.cursong, None);
    assert!(screen.repeat);
    assert!(!screen.shuffle);
    assert_eq!(screen.toggle, "pause");
    assert_eq!(screen.volume, 63);
    assert_eq!(screen.seek_upper, 200_500);
    assert_eq!(screen.seek_value, 12_345);
    assert_eq!(screen.elapsed, "00:12");
    assert_eq!(screen.duration, "03:20");
}

#[test]
fn a_coarse_status_is_shown_by_its_seconds() {
    let status = Status { time: Some((span(12), span(200))), ..Status::default() };
    let screen = Screen::new(&model(status));
    assert_eq!(screen.seek_upper, 200_000);
    assert_eq!(screen.seek_value, 12_000);
    assert_eq!(screen.elapsed, "03:20");
    assert_eq!(screen.duration, "03:20");
}

#[test]
fn a_silent_daemon_is_shown_as_stopped() {
    let screen = Screen::new(&Model::new(Err(()), 0, Err(())));
    assert_eq!(screen.cursong, None);
    assert!(!screen.repeat && !screen.shuffle);
    assert_eq!(screen.toggle, "play_arrow");
    assert_eq!(screen.volume, 0);
    assert_eq!((screen.seek_upper, screen.seek_value), (0, 0));
    assert_eq!(screen.elapsed, "");
    assert_eq!(screen.duration, "");
}

#[test]
fn the_current_song_is_announced() {
    let model = Model::new(Ok::<_, ()>(at(2)), 0, Ok(Some(song(2))));
    assert_eq!(Screen::new(&model).cursong.unwrap(), "2.ogg");
}

#[test]
fn the_play_button_turns_the_playback_around() {
    for (state, pauses) in [(State::Play, true), (State::Pause, false), (State::Stop, false)] {
        let screen = Screen::new(&model(Status { state, ..Status::default() }));
        let msg = connect::<f64>(Signal::ToggleClicked(Some(screen.toggle)));
        assert!(matches!(msg, Msg::Control(Ctrl::Pause(b)) if b == pauses));
    }
}

#[test]
fn a_report_and_its_first_tick_agree() {
    let status = Status {
        state: State::Play,
        elapsed: Some(Span::new(75, 30_000_000).unwrap()),
        ..Status::default()
    };
    let model = Model::new(Ok::<_, ()>(status), 500, Ok(None));
    let screen = Screen::new(&model);
    let progress = model.tick(500).unwrap();
    assert_eq!(screen.elapsed, progress.elapsed);
    assert_eq!(screen.seek_value, progress.seek_value);
}

#[test]
fn the_queue_fills_the_list() {
    let mut full = song(0);
    full.title = Some("Title".to_string());
    full.duration = Some(span(3_725));
    full.tags.insert("Artist".to_string(), "Artist".to_string());
    full.tags.insert("Album".to_string(), "Album".to_string());
    let mut win = Win::new();
    let scroll = win.update_now_playing(&vec![full, song(1)], &model(at(1)));
    assert_eq!(scroll, Some(1));
    assert_eq!(win.rows.len(), 2);
    let row = &win.rows[0];
    assert_eq!(row.id, 40);
    assert_eq!(row.artist, "Artist");
    assert_eq!(row.album, "Album");
    assert_eq!(row.title, "Title");
    assert_eq!(row.length, "1:02:05");
    assert_eq!(row.filename, "0.ogg");
    assert_eq!(row.weight, 400);
    let row = &win.rows[1];
    assert_eq!(row.id, 41);
    assert_eq!((row.artist.as_str(), row.album.as_str(), row.title.as_str()), ("", "", ""));
    assert_eq!(row.length, "");
    assert_eq!(row.filename, "1.ogg");
    assert_eq!(row.weight, 700);
}

#[test]
fn the_list_is_filled_anew() {
    let mut win = Win::new();
    win.update_now_playing(&queue(4), &model(at(3)));
    let scroll = win.update_now_playing(&queue(2), &model(Status::default()));
    assert_eq!(scroll, None);
    assert_eq!(weights(&win), [400, 400]);
    assert_eq!(win.update_now_playing(&queue(0), &model(at(6))), Some(6));
    assert!(win.rows.is_empty());
}

#[test]
fn marking_touches_the_last_row_and_the_current_one() {
    let mut win = Win::new();
    win.update_now_playing(&queue(3), &model(at(0)));
    let mut model = model(at(0));
    model.refresh(Ok::<_, ()>(at(2)), 1, Ok(None));
    let changes = win.update_now_playing_cursong(&model);
    assert_eq!(changes, [change(0, 400), change(2, 700)]);
    assert_eq!(weights(&win), [400, 400, 700]);
    model.refresh(Ok::<_, ()>(at(2)), 2, Ok(None));
    let changes = win.update_now_playing_cursong(&model);
    assert_eq!(changes, [change(2, 400), change(2, 700)]);
    assert_eq!(weights(&win), [400, 400, 700]);
    model.refresh(Ok::<_, ()>(Status::default()), 3, Ok(None));
    let changes = win.update_now_playing_cursong(&model);
    assert_eq!(changes, [change(2, 400)]);
    assert_eq!(weights(&win), [400, 400, 400]);
}

#[test]
fn an_empty_list_is_not_marked() {
    let mut win = Win::new();
    assert!(win.can_mark(&model(at(9))));
    assert!(win.update_now_playing_cursong(&model(at(9))).is_empty());
}

#[test]
fn rows_out_of_the_list_cannot_be_marked() {
    let mut win = Win::new();
    win.update_now_playing(&queue(2), &model(at(0)));
    assert!(win.can_mark(&model(at(1))));
    assert!(!win.can_mark(&model(at(2))));
    let mut model = model(at(2));
    model.refresh(Ok::<_, ()>(at(0)), 1, Ok(None));
    assert!(!win.can_mark(&model));
}

#[test]
fn the_window_is_updated_where_the_list_has_the_rows() {
    let mut win = Win::new();
    win.update_now_playing(&queue(2), &model(at(0)));
    let mut model = model(at(5));
    assert!(win.can_update(&model));
    model.refresh(Ok::<_, ()>(at(5)), 1, Ok(None));
    assert!(!win.can_mark(&model));
    assert!(win.can_update(&model));
    model.refresh(Ok::<_, ()>(at(1)), 2, Ok(None));
    assert!(!win.can_update(&model));
    assert!(Win::new().can_update(&model));
    model.refresh(Ok::<_, ()>(at(0)), 3, Ok(None));
    assert!(win.can_update(&model));
}

#[test]
fn only_a_queue_with_places_fills_the_list() {
    assert!(Win::can_fill(&queue(0), &model(at(9))));
    assert!(Win::can_fill(&queue(3), &model(at(2))));
    assert!(!Win::can_fill(&queue(3), &model(at(3))));
    let mut songs = queue(3);
    songs[1].place = None;
    assert!(!Win::can_fill(&songs, &model(at(2))));
}

#[test]
fn the_bold_row_follows_the_song() {
    let mut win = Win::new();
    let mut model = model(at(1));
    win.update_now_playing(&queue(5), &model);
    for pos in [1, 4, 4, 0, 3, 0] {
        model.refresh(Ok::<_, ()>(at(pos)), 1, Ok(None));
        win.update_ui(&model, 0);
        let bold: Vec<u32> = (0..5).filter(|row| win.rows[*row as usize].weight == 700).collect();
        assert_eq!(bold, [pos]);
        assert!(win.rows.iter().all(|row| row.weight == 400 || row.weight == 700));
        assert_eq!(win.rows[2].filename, "2.ogg");
    }
}

#[test]
fn a_song_that_stays_changes_no_row() {
    let mut win = Win::new();
    let mut model = model(at(1));
    win.update_now_playing(&queue(3), &model);
    model.refresh(Ok::<_, ()>(at(1)), 1, Ok(None));
    let update = win.update_ui(&model, 0);
    assert!(update.weights.is_empty());
    assert!(!update.scroll);
    assert_eq!(weights(&win), [400, 700, 400]);
}

#[test]
fn silence_leaves_the_bold_row_behind() {
    let mut win = Win::new();
    let mut model = model(at(1));
    win.update_now_playing(&queue(4), &model);
    for status in [Status::default(), at(2), at(3)] {
        model.refresh(Ok::<_, ()>(status), 1, Ok(None));
        win.update_ui(&model, 0);
    }
    assert_eq!(weights(&win), [400, 700, 400, 700]);
}

#[test]
fn the_list_is_scrolled_unless_rows_are_selected() {
    let mut win = Win::new();
    let mut model = model(at(0));
    win.update_now_playing(&queue(3), &model);
    model.refresh(Ok::<_, ()>(at(1)), 1, Ok(None));
    let update = win.update_ui(&model, 0);
    assert!(update.scroll);
    assert_eq!(update.weights, [change(0, 400), change(1, 700)]);
    model.refresh(Ok::<_, ()>(at(2)), 2, Ok(None));
    assert!(!win.update_ui(&model, 1).scroll);
}
