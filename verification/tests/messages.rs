use vinyl::dispatch::{
    control, control_result, debug, handle_result, handle_update, set_main_visible, startup,
    subscriptions, update, Action,
};
use vinyl::message::{connect, Ctrl, Msg, Request, Signal, Subsystem};
use vinyl::model::Model;
use vinyl::song::QueuePlace;
use vinyl::status::Status;

fn model_at(pos: Option<u32>) -> Model {
    let status = Status { song: pos.map(|pos| QueuePlace { id: 7, pos }), ..Status::default() };
    Model::new(Ok::<_, ()>(status), 0, Ok(None))
}

fn label(text: &str) -> Option<String> {
    Some(text.to_string())
}

#[test]
fn the_buttons_ask_for_the_neighbouring_songs() {
    assert!(matches!(connect::<f64>(Signal::PrevClicked), Msg::Control(Ctrl::Prev)));
    assert!(matches!(connect::<f64>(Signal::NextClicked), Msg::Control(Ctrl::Next)));
}

#[test]
fn the_play_button_pauses_where_it_says_so() {
    let press = |text| connect::<f64>(Signal::ToggleClicked(text));
    assert!(matches!(press(label("pause")), Msg::Control(Ctrl::Pause(true))));
    assert!(matches!(press(label("play_arrow")), Msg::Control(Ctrl::Pause(false))));
    assert!(matches!(press(label("")), Msg::Control(Ctrl::Pause(false))));
    assert!(matches!(press(None), Msg::Control(Ctrl::Pause(false))));
}

#[test]
fn the_switches_pass_on_their_state() {
    let repeat = connect::<f64>(Signal::RepeatToggled(true));
    assert!(matches!(repeat, Msg::Control(Ctrl::Repeat(true))));
    let shuffle = connect::<f64>(Signal::ShuffleToggled(false));
    assert!(matches!(shuffle, Msg::Control(Ctrl::Shuffle(false))));
}

#[test]
fn the_bars_pass_on_their_value() {
    let seek = connect(Signal::SeekChanged(12.75));
    assert!(matches!(seek, Msg::Control(Ctrl::Seek(position)) if position == 12.75));
    let volume = connect::<f64>(Signal::VolumeChanged(-1));
    assert!(matches!(volume, Msg::Control(Ctrl::Volume(-1))));
}

#[test]
fn an_activated_row_is_switched_to() {
    let activate = |path| connect::<f64>(Signal::RowActivated(path));
    assert!(matches!(activate(vec![3]), Msg::Control(Ctrl::Switch(3))));
    assert!(matches!(activate(vec![4, 9]), Msg::Control(Ctrl::Switch(4))));
    assert!(matches!(activate(vec![-1]), Msg::Control(Ctrl::Switch(u32::MAX))));
    assert!(matches!(activate(vec![i32::MIN]), Msg::Control(Ctrl::Switch(0x8000_0000))));
}

#[test]
fn a_closed_window_quits() {
    assert!(matches!(connect::<f64>(Signal::Deleted), Msg::Quit));
}

#[test]
fn the_fold_button_turns_the_window_around() {
    for visible in [true, false] {
        let view = set_main_visible(visible);
        assert_eq!(view.reveal, visible);
        assert_eq!(view.label, if visible { "expand_less" } else { "expand_more" });
        assert!(!view.resizable);
        assert_eq!(view.resizable_after_millis, 250);
        let msg = connect::<f64>(Signal::ToggleMainClicked(Some(view.label)));
        assert!(matches!(msg, Msg::SetMainVisible(b) if b != visible));
    }
    assert!(matches!(connect::<f64>(Signal::ToggleMainClicked(None)), Msg::SetMainVisible(false)));
}

#[test]
fn controls_become_requests() {
    assert!(matches!(control::<f64>(Ctrl::Prev), Request::Prev));
    assert!(matches!(control::<f64>(Ctrl::Next), Request::Next));
    assert!(matches!(control::<f64>(Ctrl::Pause(true)), Request::Pause(true)));
    assert!(matches!(control(Ctrl::Seek(1.5)), Request::Rewind(p) if p == 1.5));
    assert!(matches!(control::<f64>(Ctrl::Volume(40)), Request::Volume(40)));
    assert!(matches!(control::<f64>(Ctrl::Repeat(false)), Request::Repeat(false)));
    assert!(matches!(control::<f64>(Ctrl::Shuffle(true)), Request::Random(true)));
    assert!(matches!(control::<f64>(Ctrl::Switch(8)), Request::Switch(8)));
}

#[test]
fn values_are_put_into_words() {
    assert_eq!(debug("a \"word\""), "\"a \\\"word\\\"\"");
    assert_eq!(debug(Some(3)), "Some(3)");
}

#[test]
fn a_failed_reply_is_reported() {
    let error = mpd::error::Error::Server(mpd::error::ServerError {
        code: mpd::error::ErrorCode::NoExist,
        pos: 0,
        command: "play".to_string(),
        detail: "Bad song index".to_string(),
    });
    let words = "Server(ServerError { code: NoExist, pos: 0, command: \"play\", \
                 detail: \"Bad song index\" })";
    let result = control_result(Err(error));
    assert_eq!(result, Err(words.to_string()));
    assert_eq!(handle_result(result), Some(format!("an error occurred: {}", words)));
}

#[test]
fn a_good_reply_is_not_reported() {
    let result = control_result(Ok::<(), mpd::error::Error>(()));
    assert_eq!(result, Ok(()));
    assert_eq!(handle_result(result), None);
}

#[test]
fn only_changes_of_the_playback_are_queried() {
    assert_eq!(handle_update(&vec![]), 0);
    assert_eq!(handle_update(&vec![Subsystem::Player]), 1);
    assert_eq!(handle_update(&vec![Subsystem::Mixer]), 1);
    assert_eq!(handle_update(&vec![Subsystem::Options]), 1);
    let others = vec![
        Subsystem::Database,
        Subsystem::Update,
        Subsystem::Playlist,
        Subsystem::Queue,
        Subsystem::Output,
        Subsystem::Partition,
        Subsystem::Sticker,
        Subsystem::Subscription,
        Subsystem::Message,
        Subsystem::Neighbor,
        Subsystem::Mount,
    ];
    assert_eq!(handle_update(&others), 0);
}

#[test]
fn each_change_of_the_playback_counts() {
    let first = vec![Subsystem::Player, Subsystem::Queue, Subsystem::Mixer];
    let second = vec![Subsystem::Options, Subsystem::Player];
    let mut both = first.clone();
    both.extend(second.clone());
    assert_eq!(handle_update(&first), 2);
    assert_eq!(handle_update(&both), handle_update(&first) + handle_update(&second));
}

#[test]
fn messages_become_actions() {
    let model = model_at(Some(5));
    let act = |msg: Msg<f64>| update(msg, &model);
    assert!(matches!(act(Msg::StartListening), Action::Nothing));
    assert!(matches!(act(Msg::Control(Ctrl::Next)), Action::Send(Request::Next)));
    let changes = vec![Subsystem::Player, Subsystem::Sticker, Subsystem::Player];
    assert!(matches!(act(Msg::Update(changes)), Action::Refresh(2)));
    assert!(matches!(act(Msg::UpdateUi), Action::UpdateUi));
    assert!(matches!(act(Msg::UpdateNowPlaying), Action::UpdateNowPlaying));
    assert!(matches!(act(Msg::ScrollToCurSong), Action::ScrollTo(5)));
    assert!(matches!(act(Msg::SetMainVisible(true)), Action::ShowMain(view) if view.reveal));
    assert!(matches!(act(Msg::Tick), Action::Tick));
    assert!(matches!(act(Msg::Ping), Action::Ping));
    assert!(matches!(act(Msg::Quit), Action::Quit));
}

#[test]
fn without_a_song_there_is_nothing_to_scroll_to() {
    let action = update::<f64>(Msg::ScrollToCurSong, &model_at(None));
    assert!(matches!(action, Action::Nothing));
}

#[test]
fn an_activated_row_is_the_row_scrolled_to() {
    for pos in [0, 5, 0x7fff_ffff, 0x8000_0000, u32::MAX] {
        let row = model_at(Some(pos)).scroll_to_current_song().unwrap();
        let msg = connect::<f64>(Signal::RowActivated(vec![row]));
        assert!(matches!(msg, Msg::Control(Ctrl::Switch(p)) if p == pos));
    }
}

#[test]
fn a_signal_reaches_the_daemon() {
    let model = model_at(None);
    let action = update(connect(Signal::SeekChanged(33.0)), &model);
    assert!(matches!(action, Action::Send(Request::Rewind(p)) if p == 33.0));
    let action = update(connect::<f64>(Signal::RowActivated(vec![2])), &model);
    assert!(matches!(action, Action::Send(Request::Switch(2))));
}

#[test]
fn the_player_starts_with_three_messages() {
    let msgs = startup::<f64>();
    assert_eq!(msgs.len(), 3);
    assert!(matches!(msgs[0], Msg::StartListening));
    assert!(matches!(msgs[1], Msg::UpdateUi));
    assert!(matches!(msgs[2], Msg::UpdateNowPlaying));
}

#[test]
fn two_messages_come_again_and_again() {
    let list = subscriptions::<f64>();
    assert_eq!(list.len(), 2);
    assert_eq!(list[0].period_millis, 150);
    assert!(matches!(list[0].msg, Msg::Tick));
    assert_eq!(list[1].period_millis, 10_000);
    assert!(matches!(list[1].msg, Msg::Ping));
}
