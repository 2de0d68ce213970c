//! The messages of the player: what the widgets send, what each message asks for.
//!
//! A position in a song passes through as it was read from the seek bar; its type is the
//! parameter `P`.
use vstd::prelude::*;

verus! {

/// A part of the daemon in which something has changed.
#[derive(Clone, Copy, Debug, PartialEq, Eq, Structural)]
pub enum Subsystem {
    Database,
    Update,
    Playlist,
    Queue,
    Player,
    Mixer,
    Output,
    Options,
    Partition,
    Sticker,
    Subscription,
    Message,
    Neighbor,
    Mount,
}

/// What the user asks of the playback.
#[derive(Debug)]
pub enum Ctrl<P> {
    Prev,
    Pause(bool),
    Next,
    Seek(P),
    Volume(i8),
    Repeat(bool),
    Shuffle(bool),
    Switch(u32),
}

/// A message to the player.
#[derive(Debug)]
pub enum Msg<P> {
    StartListening,
    Control(Ctrl<P>),
    Update(Vec<Subsystem>),
    UpdateUi,
    UpdateNowPlaying,
    ScrollToCurSong,
    SetMainVisible(bool),
    Tick,
    Ping,
    Quit,
}

/// A request to the daemon, named as the client names it.
#[derive(Debug)]
pub enum Request<P> {
    Prev,
    Next,
    Pause(bool),
    Rewind(P),
    Volume(i8),
    Repeat(bool),
    Random(bool),
    Switch(u32),
}

/// What a widget reports, with what it shows at that moment.
#[derive(Debug)]
pub enum Signal<P> {
    /// The button for the previous song was clicked.
    PrevClicked,
    /// The button for the next song was clicked.
    NextClicked,
    /// The play button was clicked while it bore this label.
    ToggleClicked(Option<String>),
    /// The repeat button was switched.
    RepeatToggled(bool),
    /// The shuffle button was switched.
    ShuffleToggled(bool),
    /// The seek bar was moved.
    SeekChanged(P),
    /// The volume was moved.
    VolumeChanged(i8),
    /// The button that folds the window was clicked while it bore this label.
    ToggleMainClicked(Option<String>),
    /// A row of the queue was activated; its path in the list, outermost index first.
    RowActivated(Vec<i32>),
    /// The window was closed.
    Deleted,
}

/// Whether a button bears the label `text`.
pub open spec fn bears(label: Option<String>, text: Seq<char>) -> bool {
    label matches Some(label) && label@ == text
}

/// An index of a list, read as an unsigned number of the same thirty-two bits.
pub open spec fn as_position(index: int) -> int {
    if index >= 0 {
        index
    } else {
        index + 0x1_0000_0000
    }
}

/// The message that a signal sends.
pub open spec fn sent_by<P>(signal: Signal<P>) -> Msg<P> {
    match signal {
        Signal::PrevClicked => Msg::Control(Ctrl::Prev),
        Signal::NextClicked => Msg::Control(Ctrl::Next),
        Signal::ToggleClicked(label) => Msg::Control(Ctrl::Pause(bears(label, "pause"@))),
        Signal::RepeatToggled(on) => Msg::Control(Ctrl::Repeat(on)),
        Signal::ShuffleToggled(on) => Msg::Control(Ctrl::Shuffle(on)),
        Signal::SeekChanged(position) => Msg::Control(Ctrl::Seek(position)),
        Signal::VolumeChanged(volume) => Msg::Control(Ctrl::Volume(volume)),
        Signal::ToggleMainClicked(label) => Msg::SetMainVisible(bears(label, "expand_more"@)),
        Signal::RowActivated(path) => Msg::Control(Ctrl::Switch(as_position(path[0] as int) as u32)),
        Signal::Deleted => Msg::Quit,
    }
}

fn has_label(label: &Option<String>, text: &str) -> (yes: bool)
    ensures
        yes == bears(*label, text@),
{
    match label {
        Some(label) => label.eq(&text.to_owned()),
        None => false,
    }
}

/// The position that the index of an activated row stands for.
fn row_position(index: i32) -> (position: u32)
    ensures
        position == as_position(index as int),
{
    assert(index >= 0 ==> index as u32 == index) by (bit_vector);
    assert(index < 0 ==> index as u32 == index + 0x1_0000_0000) by (bit_vector);
    #[verifier::truncate]
    (index as u32)
}

/// Connects the widgets: the message that goes out when one of them sends a signal.
pub fn connect<P>(signal: Signal<P>) -> (msg: Msg<P>)
    requires
        signal matches Signal::RowActivated(path) ==> path.len() > 0,
    ensures
        msg == sent_by(signal),
{
    match signal {
        Signal::PrevClicked => Msg::Control(Ctrl::Prev),
        Signal::NextClicked => Msg::Control(Ctrl::Next),
        Signal::ToggleClicked(label) => Msg::Control(Ctrl::Pause(has_label(&label, "pause"))),
        Signal::RepeatToggled(on) => Msg::Control(Ctrl::Repeat(on)),
        Signal::ShuffleToggled(on) => Msg::Control(Ctrl::Shuffle(on)),
        Signal::SeekChanged(position) => Msg::Control(Ctrl::Seek(position)),
        Signal::VolumeChanged(volume) => Msg::Control(Ctrl::Volume(volume)),
        Signal::ToggleMainClicked(label) => Msg::SetMainVisible(has_label(&label, "expand_more")),
        Signal::RowActivated(path) => Msg::Control(Ctrl::Switch(row_position(path[0]))),
        Signal::Deleted => Msg::Quit,
    }
}

} // verus!
