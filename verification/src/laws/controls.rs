//! What becomes of the signals of the widgets, from the widget to the daemon.
use crate::dispatch::{
    control, control_result, depicts, handle_result, handle_update, set_main_visible, startup,
    subscriptions, update, Action, MainView, Subscription,
};
use crate::message::{connect, Ctrl, Msg, Request, Signal, Subsystem};
use crate::model::Model;
use crate::status::State;
use crate::win::Screen;
use vstd::prelude::*;

verus! {

/// The buttons beside the play button ask the daemon for the previous and for the next song.
pub proof fn law_neighbours_are_played<P>(
    model: Model,
    prev: Msg<P>,
    next: Msg<P>,
    to_prev: Action<P>,
    to_next: Action<P>,
)
    requires
        call_ensures(connect::<P>, (Signal::PrevClicked,), prev),
        call_ensures(connect::<P>, (Signal::NextClicked,), next),
        call_ensures(update::<P>, (prev, &model), to_prev),
        call_ensures(update::<P>, (next, &model), to_next),
    ensures
        to_prev == Action::<P>::Send(Request::Prev),
        to_next == Action::<P>::Send(Request::Next),
{
}

/// A click on the play button, as the window shows it, asks the daemon to pause where a song is
/// being played and to go on where none is.
pub proof fn law_play_button_reaches_daemon<P>(
    shown: Model,
    screen: Screen,
    msg: Msg<P>,
    model: Model,
    action: Action<P>,
)
    requires
        call_ensures(Screen::new, (&shown,), screen),
        call_ensures(connect::<P>, (Signal::ToggleClicked(Some(screen.toggle)),), msg),
        call_ensures(update::<P>, (msg, &model), action),
    ensures
        shown.status.state == State::Play ==> action == Action::<P>::Send(Request::Pause(true)),
        shown.status.state != State::Play ==> action == Action::<P>::Send(Request::Pause(false)),
{
    crate::laws::law_play_button::<P>(shown, screen);
}

/// Whatever the play button bears, the daemon is asked to pause where that is `pause`, and else
/// to go on.
pub proof fn law_play_label_decides<P>(
    label: Option<String>,
    msg: Msg<P>,
    model: Model,
    action: Action<P>,
)
    requires
        call_ensures(connect::<P>, (Signal::ToggleClicked(label),), msg),
        call_ensures(update::<P>, (msg, &model), action),
    ensures
        label matches Some(text) ==> action == Action::<P>::Send(
            Request::Pause(text@ == "pause"@),
        ),
        label is None ==> action == Action::<P>::Send(Request::Pause(false)),
{
}

/// The daemon is asked for the volume and the place in the song that the user has set.
pub proof fn law_bars_reach_daemon<P>(
    volume: i8,
    position: P,
    set_volume: Msg<P>,
    seek: Msg<P>,
    model: Model,
    to_volume: Action<P>,
    to_position: Action<P>,
)
    requires
        call_ensures(connect::<P>, (Signal::VolumeChanged(volume),), set_volume),
        call_ensures(connect::<P>, (Signal::SeekChanged(position),), seek),
        call_ensures(update::<P>, (set_volume, &model), to_volume),
        call_ensures(update::<P>, (seek, &model), to_position),
    ensures
        to_volume == Action::<P>::Send(Request::Volume(volume)),
        to_position == Action::<P>::Send(Request::Rewind(position)),
{
}

/// The daemon is asked to repeat and to shuffle exactly where the buttons are switched on.
pub proof fn law_switches_reach_daemon<P>(
    on: bool,
    repeat: Msg<P>,
    shuffle: Msg<P>,
    model: Model,
    to_repeat: Action<P>,
    to_shuffle: Action<P>,
)
    requires
        call_ensures(connect::<P>, (Signal::RepeatToggled(on),), repeat),
        call_ensures(connect::<P>, (Signal::ShuffleToggled(on),), shuffle),
        call_ensures(update::<P>, (repeat, &model), to_repeat),
        call_ensures(update::<P>, (shuffle, &model), to_shuffle),
    ensures
        to_repeat == Action::<P>::Send(Request::Repeat(on)),
        to_shuffle == Action::<P>::Send(Request::Random(on)),
{
}

/// A switch stands where the user has put it, once the daemon reports what it was asked for.
pub proof fn law_switches_come_back<P>(
    on: bool,
    repeat: Msg<P>,
    shuffle: Msg<P>,
    model: Model,
    to_repeat: Action<P>,
    to_shuffle: Action<P>,
    reported: Model,
    screen: Screen,
)
    requires
        call_ensures(connect::<P>, (Signal::RepeatToggled(on),), repeat),
        call_ensures(connect::<P>, (Signal::ShuffleToggled(on),), shuffle),
        call_ensures(update::<P>, (repeat, &model), to_repeat),
        call_ensures(update::<P>, (shuffle, &model), to_shuffle),
        to_repeat == Action::<P>::Send(Request::Repeat(reported.status.repeat)),
        to_shuffle == Action::<P>::Send(Request::Random(reported.status.random)),
        call_ensures(Screen::new, (&reported,), screen),
    ensures
        screen.repeat == on,
        screen.shuffle == on,
{
}

/// The daemon is asked for the song at the position of the activated row; of a nested row, the
/// outermost index counts.
pub proof fn law_row_reaches_daemon<P>(
    path: Vec<i32>,
    msg: Msg<P>,
    model: Model,
    action: Action<P>,
    position: u32,
)
    requires
        path.len() > 0,
        position == path[0] || position == path[0] + 0x1_0000_0000,
        call_ensures(connect::<P>, (Signal::RowActivated(path),), msg),
        call_ensures(update::<P>, (msg, &model), action),
    ensures
        action == Action::<P>::Send(Request::Switch(position)),
{
}

/// The button that folds the window unfolds it where it bears `expand_more`, and else folds it.
pub proof fn law_fold_label_decides<P>(
    label: Option<String>,
    msg: Msg<P>,
    model: Model,
    action: Action<P>,
)
    requires
        call_ensures(connect::<P>, (Signal::ToggleMainClicked(label),), msg),
        call_ensures(update::<P>, (msg, &model), action),
    ensures
        action is ShowMain,
        label matches Some(text) ==> action->ShowMain_0.reveal == (text@ == "expand_more"@),
        label is None ==> !action->ShowMain_0.reveal,
{
}

/// Folded or unfolded, the button bears the label for the other, and the window keeps its size
/// for a quarter of a second.
pub proof fn law_main_is_shown<P>(visible: bool, view: MainView, model: Model, action: Action<P>)
    requires
        call_ensures(set_main_visible, (visible,), view),
        call_ensures(update::<P>, (Msg::SetMainVisible(visible), &model), action),
    ensures
        view.reveal == visible,
        visible ==> view.label@ == "expand_less"@,
        !visible ==> view.label@ == "expand_more"@,
        !view.resizable,
        view.resizable_after_millis == 250,
        action is ShowMain,
        action->ShowMain_0.reveal == visible,
        action->ShowMain_0.label@ == view.label@,
        !action->ShowMain_0.resizable,
        action->ShowMain_0.resizable_after_millis == 250,
{
}

/// Two clicks on the button that folds the window show what was shown before.
pub proof fn law_fold_twice<P>(
    visible: bool,
    view: MainView,
    click: Msg<P>,
    model: Model,
    folded: Action<P>,
    second_click: Msg<P>,
    again: Action<P>,
)
    requires
        call_ensures(set_main_visible, (visible,), view),
        call_ensures(connect::<P>, (Signal::ToggleMainClicked(Some(view.label)),), click),
        call_ensures(update::<P>, (click, &model), folded),
        call_ensures(
            connect::<P>,
            (Signal::ToggleMainClicked(Some(folded->ShowMain_0.label)),),
            second_click,
        ),
        call_ensures(update::<P>, (second_click, &model), again),
    ensures
        folded->ShowMain_0.reveal == !visible,
        again->ShowMain_0.reveal == visible,
        again->ShowMain_0.label@ == view.label@,
{
    crate::laws::law_fold_button::<P>(view, visible);
    crate::laws::law_fold_button::<P>(folded->ShowMain_0, !visible);
}

/// Every signal can be sent, but for that of a row without a path.
pub proof fn law_signals_are_accepted<P>(signal: Signal<P>)
    requires
        signal matches Signal::RowActivated(path) ==> path.len() >= 1,
    ensures
        call_requires(connect::<P>, (signal,)),
{
}

/// Every message can be taken in, whatever the model.
pub proof fn law_messages_are_accepted<P>(msg: Msg<P>, model: Model)
    ensures
        call_requires(update::<P>, (msg, &model)),
{
}

/// To close the window is to leave.
pub proof fn law_closing_quits<P>(msg: Msg<P>, model: Model, action: Action<P>)
    requires
        call_ensures(connect::<P>, (Signal::Deleted,), msg),
        call_ensures(update::<P>, (msg, &model), action),
    ensures
        action is Quit,
{
}

/// A control reaches the daemon with the value that it carries.
pub proof fn law_values_are_kept<P>(
    on: bool,
    volume: i8,
    position: P,
    row: u32,
    pause: Request<P>,
    repeat: Request<P>,
    shuffle: Request<P>,
    to_volume: Request<P>,
    seek: Request<P>,
    switch: Request<P>,
)
    requires
        call_ensures(control::<P>, (Ctrl::Pause(on),), pause),
        call_ensures(control::<P>, (Ctrl::Repeat(on),), repeat),
        call_ensures(control::<P>, (Ctrl::Shuffle(on),), shuffle),
        call_ensures(control::<P>, (Ctrl::Volume(volume),), to_volume),
        call_ensures(control::<P>, (Ctrl::Seek(position),), seek),
        call_ensures(control::<P>, (Ctrl::Switch(row),), switch),
    ensures
        pause == Request::<P>::Pause(on),
        repeat == Request::<P>::Repeat(on),
        shuffle == Request::<P>::Random(on),
        to_volume == Request::<P>::Volume(volume),
        seek == Request::<P>::Rewind(position),
        switch == Request::<P>::Switch(row),
{
}

/// The controls without a value ask for the previous and for the next song.
pub proof fn law_skips_are_kept<P>(prev: Request<P>, next: Request<P>)
    requires
        call_ensures(control::<P>, (Ctrl::Prev,), prev),
        call_ensures(control::<P>, (Ctrl::Next,), next),
    ensures
        prev is Prev,
        next is Next,
{
}

/// What a control message comes to is to send what the control asks for.
pub proof fn law_control_is_sent<P>(
    ctrl: Ctrl<P>,
    request: Request<P>,
    model: Model,
    action: Action<P>,
)
    requires
        call_ensures(control::<P>, (ctrl,), request),
        call_ensures(update::<P>, (Msg::Control(ctrl), &model), action),
    ensures
        action == Action::Send(request),
{
}

/// A request that went well leaves nothing to print; one that failed is reported with what the
/// error looks like.
pub proof fn law_failure_is_reported<E: std::fmt::Debug>(
    reply: Result<(), E>,
    result: Result<(), String>,
    line: Option<String>,
)
    requires
        call_ensures(control_result::<E>, (reply,), result),
        call_ensures(handle_result, (result,), line),
    ensures
        reply is Ok ==> result is Ok && line is None,
        reply matches Err(e) ==> {
            &&& result is Err
            &&& depicts(result->Err_0, e)
            &&& line is Some
            &&& line->0@.len() == 19 + result->Err_0@.len()
            &&& line->0@.take(19) == "an error occurred: "@
            &&& line->0@.skip(19) == result->Err_0@
        },
{
    if reply is Err {
        reveal_strlit("an error occurred: ");
        assert(line->0@.take(19) =~= "an error occurred: "@);
        assert(line->0@.skip(19) =~= result->Err_0@);
    }
}

/// One report more of a change calls for one round more exactly where it concerns the player, the
/// mixer or the options; no report calls for none.
pub proof fn law_each_change_counts(
    changes: Vec<Subsystem>,
    count: usize,
    more: Vec<Subsystem>,
    total: usize,
    change: Subsystem,
)
    requires
        call_ensures(handle_update, (&changes,), count),
        call_ensures(handle_update, (&more,), total),
        more@ == changes@.push(change),
    ensures
        changes.len() == 0 ==> count == 0,
        total == count + (if change == Subsystem::Player || change == Subsystem::Mixer || change
            == Subsystem::Options {
            1int
        } else {
            0int
        }),
{
    reveal(Seq::filter);
    assert(more@.drop_last() =~= changes@);
}

/// A report of changes comes to as many rounds as the changes call for.
pub proof fn law_changes_are_taken_in<P>(
    changes: Vec<Subsystem>,
    count: usize,
    model: Model,
    action: Action<P>,
)
    requires
        call_ensures(handle_update, (&changes,), count),
        call_ensures(update::<P>, (Msg::Update(changes), &model), action),
    ensures
        action == Action::<P>::Refresh(count),
{
}

/// The messages that the player sends itself are taken at their word, whatever the model; that
/// to listen is none for the window.
pub proof fn law_own_messages<P>(
    model: Model,
    listen: Action<P>,
    show: Action<P>,
    fill: Action<P>,
    tick: Action<P>,
    ping: Action<P>,
    quit: Action<P>,
)
    requires
        call_ensures(update::<P>, (Msg::StartListening, &model), listen),
        call_ensures(update::<P>, (Msg::UpdateUi, &model), show),
        call_ensures(update::<P>, (Msg::UpdateNowPlaying, &model), fill),
        call_ensures(update::<P>, (Msg::Tick, &model), tick),
        call_ensures(update::<P>, (Msg::Ping, &model), ping),
        call_ensures(update::<P>, (Msg::Quit, &model), quit),
    ensures
        listen is Nothing,
        show is UpdateUi,
        fill is UpdateNowPlaying,
        tick is Tick,
        ping is Ping,
        quit is Quit,
{
}

/// The list is scrolled to the position of the current song, as far as an index can name it, and
/// stays where it is when there is none.
pub proof fn law_list_is_scrolled<P>(
    model: Model,
    row: Option<i32>,
    action: Action<P>,
)
    requires
        call_ensures(Model::scroll_to_current_song, (&model,), row),
        call_ensures(update::<P>, (Msg::ScrollToCurSong, &model), action),
    ensures
        match model.status.song {
            Some(place) => {
                &&& row is Some
                &&& row->0 == place.pos || row->0 == place.pos - 0x1_0000_0000
                &&& action == Action::<P>::ScrollTo(row->0)
            },
            None => row is None && action is Nothing,
        },
{
}

/// At its start the player listens, shows the window and fills the list; from then on it moves
/// the time on and keeps the connection alive.
pub proof fn law_player_runs<P>(msgs: Vec<Msg<P>>, list: Vec<Subscription<P>>)
    requires
        call_ensures(startup::<P>, (), msgs),
        call_ensures(subscriptions::<P>, (), list),
    ensures
        msgs.len() == 3,
        msgs[0] is StartListening,
        msgs[1] is UpdateUi,
        msgs[2] is UpdateNowPlaying,
        list.len() == 2,
        list[0].msg is Tick,
        list[0].period_millis == 150,
        list[1].msg is Ping,
        list[1].period_millis == 10_000,
{
}

} // verus!
