//! What the player does with a message.
use crate::message::{Ctrl, Msg, Request, Subsystem};
use crate::model::{as_index, Model};
use vstd::prelude::*;

verus! {

/// Whether `text` is what `value` looks like in a report: a text that formatting it by its own
/// implementation of `Debug` can give.
pub closed spec fn depicts<T: std::fmt::Debug>(text: String, value: T) -> bool {
    call_ensures(debug_text::<T>, (&value,), text)
}

/// What a value looks like in a report.
pub fn debug<T: std::fmt::Debug>(e: T) -> (text: String)
    ensures
        depicts(text, e),
{
    debug_text(&e)
}

/// The text of `value` by `format!("{:?}", ..)` of the standard library. It is whatever the
/// value's own implementation of `Debug` writes, so nothing more is claimed of it.
#[verifier::external_body]
fn debug_text<T: std::fmt::Debug>(value: &T) -> (text: String) {
    format!("{:?}", value)
}

/// A report holds the text that formatting gives, both by itself and as the outcome of a request.
proof fn law_report_is_formatted<E: std::fmt::Debug>(
    e: E,
    text: String,
    result: Result<(), String>,
)
    requires
        call_ensures(debug::<E>, (e,), text),
        call_ensures(control_result::<E>, (Err(e),), result),
    ensures
        call_ensures(debug_text::<E>, (&e,), text),
        result is Err,
        call_ensures(debug_text::<E>, (&e,), result->Err_0),
{
}

/// The request that carries out what the user asks for.
pub open spec fn request_for<P>(ctrl: Ctrl<P>) -> Request<P> {
    match ctrl {
        Ctrl::Prev => Request::Prev,
        Ctrl::Next => Request::Next,
        Ctrl::Pause(on) => Request::Pause(on),
        Ctrl::Seek(position) => Request::Rewind(position),
        Ctrl::Volume(volume) => Request::Volume(volume),
        Ctrl::Repeat(on) => Request::Repeat(on),
        Ctrl::Shuffle(on) => Request::Random(on),
        Ctrl::Switch(position) => Request::Switch(position),
    }
}

/// The request that carries out what the user asks for.
pub fn control<P>(ctrl: Ctrl<P>) -> (request: Request<P>)
    ensures
        request == request_for(ctrl),
{
    match ctrl {
        Ctrl::Prev => Request::Prev,
        Ctrl::Next => Request::Next,
        Ctrl::Pause(on) => Request::Pause(on),
        Ctrl::Seek(position) => Request::Rewind(position),
        Ctrl::Volume(volume) => Request::Volume(volume),
        Ctrl::Repeat(on) => Request::Repeat(on),
        Ctrl::Shuffle(on) => Request::Random(on),
        Ctrl::Switch(position) => Request::Switch(position),
    }
}

/// The outcome of a request: a failed reply is put into words.
pub fn control_result<E: std::fmt::Debug>(reply: Result<(), E>) -> (result: Result<(), String>)
    ensures
        result is Ok <==> reply is Ok,
        result matches Err(text) ==> depicts(text, reply->Err_0),
{
    match reply {
        Ok(()) => Ok(()),
        Err(e) => Err(debug(e)),
    }
}

/// The line to print for the outcome of a request; a success calls for none.
pub fn handle_result(result: Result<(), String>) -> (line: Option<String>)
    ensures
        line is Some <==> result is Err,
        line matches Some(line) ==> line@ == "an error occurred: "@ + result->Err_0@,
{
    match result {
        Ok(_) => None,
        Err(e) => {
            let mut line = "an error occurred: ".to_owned();
            line.append(e.as_str());
            Some(line)
        },
    }
}

/// Whether a change there can show in the status of the playback.
pub open spec fn concerns_playback(subsystem: Subsystem) -> bool {
    subsystem is Player || subsystem is Mixer || subsystem is Options
}

/// How many rounds of queries the changes call for: one for each that concerns the playback.
pub open spec fn rounds(subsystems: Seq<Subsystem>) -> nat {
    subsystems.filter(|s: Subsystem| concerns_playback(s)).len()
}

/// How often to query the daemon, take the replies into the model and bring the window up to
/// date, after it has reported changes.
pub fn handle_update(subsystems: &Vec<Subsystem>) -> (count: usize)
    ensures
        count == rounds(subsystems@),
{
    let mut count: usize = 0;
    let mut i: usize = 0;
    proof {
        reveal(Seq::filter);
        assert(subsystems@.take(0).filter(|s: Subsystem| concerns_playback(s)).len() == 0);
    }
    while i < subsystems.len()
        invariant
            i <= subsystems.len(),
            count <= i,
            count == rounds(subsystems@.take(i as int)),
        decreases subsystems.len() - i,
    {
        let concerned = match subsystems[i] {
            Subsystem::Player | Subsystem::Mixer | Subsystem::Options => true,
            _ => false,
        };
        proof {
            reveal(Seq::filter);
            assert(subsystems@.take(i + 1).drop_last() =~= subsystems@.take(i as int));
        }
        if concerned {
            count += 1;
        }
        i += 1;
    }
    assert(subsystems@.take(i as int) =~= subsystems@);
    count
}

/// How the window looks, folded or unfolded.
#[derive(Debug)]
pub struct MainView {
    /// Whether the main part is shown.
    pub reveal: bool,
    /// The label of the button that folds the window.
    pub label: String,
    /// Whether the window can be resized while it folds.
    pub resizable: bool,
    /// After how many milliseconds it can be resized again.
    pub resizable_after_millis: u32,
}

/// The label of the button that folds the window.
pub open spec fn fold_label(visible: bool) -> Seq<char> {
    if visible {
        "expand_less"@
    } else {
        "expand_more"@
    }
}

impl MainView {
    /// Whether this is how the window looks with its main part shown or not.
    pub open spec fn is_for(&self, visible: bool) -> bool {
        &&& self.reveal == visible
        &&& self.label@ == fold_label(visible)
        &&& !self.resizable
        &&& self.resizable_after_millis == 250
    }
}

/// Shows the main part of the window, or hides it.
pub fn set_main_visible(visible: bool) -> (view: MainView)
    ensures
        view.is_for(visible),
{
    MainView {
        reveal: visible,
        label: if visible {
            "expand_less".to_owned()
        } else {
            "expand_more".to_owned()
        },
        resizable: false,
        resizable_after_millis: 250,
    }
}

/// What a message comes to.
#[derive(Debug)]
pub enum Action<P> {
    /// Nothing is done here.
    Nothing,
    /// Send the request, and handle its result.
    Send(Request<P>),
    /// Query the daemon and bring the window up to date, so many times.
    Refresh(usize),
    /// Bring the window up to date.
    UpdateUi,
    /// Fetch the queue and fill the list with it.
    UpdateNowPlaying,
    /// Scroll the list to a row.
    ScrollTo(i32),
    /// Fold or unfold the window.
    ShowMain(MainView),
    /// Show the time played.
    Tick,
    /// Let the daemon know that the player is there.
    Ping,
    /// Leave.
    Quit,
}

impl<P> Action<P> {
    /// Whether this is what `msg` comes to, given `model`.
    pub open spec fn is_for(&self, msg: Msg<P>, model: Model) -> bool {
        match msg {
            Msg::StartListening => *self is Nothing,
            Msg::Control(ctrl) => *self == Action::Send(request_for(ctrl)),
            Msg::Update(subsystems) => *self matches Action::Refresh(count) && count == rounds(
                subsystems@,
            ),
            Msg::UpdateUi => *self is UpdateUi,
            Msg::UpdateNowPlaying => *self is UpdateNowPlaying,
            Msg::ScrollToCurSong => match model.status.song {
                Some(place) => *self matches Action::ScrollTo(row) && row == as_index(
                    place.pos as int,
                ),
                None => *self is Nothing,
            },
            Msg::SetMainVisible(visible) => *self matches Action::ShowMain(view) && view.is_for(
                visible,
            ),
            Msg::Tick => *self is Tick,
            Msg::Ping => *self is Ping,
            Msg::Quit => *self is Quit,
        }
    }
}

/// What a message comes to.
pub fn update<P>(event: Msg<P>, model: &Model) -> (action: Action<P>)
    ensures
        action.is_for(event, *model),
{
    match event {
        Msg::StartListening => Action::Nothing,
        Msg::Control(ctrl) => Action::Send(control(ctrl)),
        Msg::Update(subsystems) => Action::Refresh(handle_update(&subsystems)),
        Msg::UpdateUi => Action::UpdateUi,
        Msg::UpdateNowPlaying => Action::UpdateNowPlaying,
        Msg::ScrollToCurSong => match model.scroll_to_current_song() {
            Some(row) => Action::ScrollTo(row),
            None => Action::Nothing,
        },
        Msg::SetMainVisible(visible) => Action::ShowMain(set_main_visible(visible)),
        Msg::Tick => Action::Tick,
        Msg::Ping => Action::Ping,
        Msg::Quit => Action::Quit,
    }
}

/// The messages that the player sends itself as soon as its window stands.
pub fn startup<P>() -> (msgs: Vec<Msg<P>>)
    ensures
        msgs@ == seq![Msg::<P>::StartListening, Msg::UpdateUi, Msg::UpdateNowPlaying],
{
    let mut msgs: Vec<Msg<P>> = Vec::new();
    msgs.push(Msg::StartListening);
    msgs.push(Msg::UpdateUi);
    msgs.push(Msg::UpdateNowPlaying);
    msgs
}

/// A message that comes again and again.
#[derive(Debug)]
pub struct Subscription<P> {
    pub period_millis: u64,
    pub msg: Msg<P>,
}

/// The messages that come again and again.
pub fn subscriptions<P>() -> (list: Vec<Subscription<P>>)
    ensures
        list@ == seq![
            Subscription { period_millis: 150, msg: Msg::<P>::Tick },
            Subscription { period_millis: 10_000, msg: Msg::<P>::Ping },
        ],
{
    let mut list: Vec<Subscription<P>> = Vec::new();
    list.push(Subscription { period_millis: 150, msg: Msg::Tick });
    list.push(Subscription { period_millis: 10_000, msg: Msg::Ping });
    list
}

} // verus!
