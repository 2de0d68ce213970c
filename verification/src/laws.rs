//! What holds of the player as a whole.
//!
//! The modules below speak of the results of the functions themselves, as their contracts give
//! them, and of nothing but what goes in and what comes out.
pub mod clock;
pub mod controls;
pub mod endpoints;
pub mod reports;
pub mod window;

use crate::dispatch::{concerns_playback, rounds, Action, MainView};
use crate::message::{as_position, sent_by, Ctrl, Msg, Request, Signal, Subsystem};
use crate::model::{as_index, Model};
use crate::song::Song;
use crate::span::{quotient, whole_millis, whole_seconds, NANOS_PER_MILLI, NANOS_PER_SEC};
use crate::status::{blank_status, State};
use crate::text::time_text;
use crate::win::{
    after_changes, are_weighted, can_follow, has_rows_of, law_marking, marks_only, ui_changes, Row,
    Screen,
};
use vstd::prelude::*;

verus! {

/// A click on the play button asks for a pause exactly where the window shows that a song is
/// being played.
pub proof fn law_play_button<P>(model: Model, screen: Screen)
    requires
        screen.shows(model),
    ensures
        sent_by::<P>(Signal::ToggleClicked(Some(screen.toggle))) == Msg::<P>::Control(
            Ctrl::Pause(model.status.state == State::Play),
        ),
{
    reveal_strlit("pause");
    reveal_strlit("play_arrow");
    assert("pause"@.len() != "play_arrow"@.len());
}

/// A click on the button that folds the window turns around what the window shows.
pub proof fn law_fold_button<P>(view: MainView, visible: bool)
    requires
        view.is_for(visible),
    ensures
        sent_by::<P>(Signal::ToggleMainClicked(Some(view.label))) == Msg::<P>::SetMainVisible(
            !visible,
        ),
{
    reveal_strlit("expand_less");
    reveal_strlit("expand_more");
    assert("expand_less"@[7] == 'l');
    assert("expand_more"@[7] == 'm');
}

/// To activate a row of the list is to ask the daemon for the song at its position.
pub proof fn law_row_is_played<P>(path: Vec<i32>, action: Action<P>, model: Model)
    requires
        path.len() > 0,
        path[0] >= 0,
        action.is_for(sent_by(Signal::RowActivated(path)), model),
    ensures
        action == Action::<P>::Send(Request::Switch(path[0] as u32)),
{
}

/// A position that the user seeks reaches the daemon as it was read.
pub proof fn law_position_is_sought<P>(position: P, action: Action<P>, model: Model)
    requires
        action.is_for(sent_by(Signal::SeekChanged(position)), model),
    ensures
        action == Action::Send(Request::Rewind(position)),
{
}

/// The row that the list is scrolled to is the row whose activation plays the same position.
pub proof fn law_scroll_and_switch_agree(position: u32)
    ensures
        as_position(as_index(position as int)) == position,
        i32::MIN <= as_index(position as int) <= i32::MAX,
{
}

/// Reports of changes can be taken in one by one or together: they call for as many rounds.
pub proof fn law_rounds_add_up(a: Seq<Subsystem>, b: Seq<Subsystem>)
    ensures
        rounds(a + b) == rounds(a) + rounds(b),
{
    Seq::filter_distributes_over_add(a, b, |s: Subsystem| concerns_playback(s));
}

/// Changes that do not concern the playback call for nothing.
pub proof fn law_other_changes_are_ignored(subsystems: Seq<Subsystem>)
    requires
        forall|i: int| 0 <= i < subsystems.len() ==> !concerns_playback(#[trigger] subsystems[i]),
    ensures
        rounds(subsystems) == 0,
    decreases subsystems.len(),
{
    reveal(Seq::filter);
    if subsystems.len() > 0 {
        law_other_changes_are_ignored(subsystems.drop_last());
    }
}

/// The song counts as changed with a round of replies exactly where the daemon named a position
/// before and after, and not the same.
pub proof fn law_change_of_song(before: Model, after: Model)
    requires
        after.last_song_position == before.status.position(),
    ensures
        after.song_changed() <==> before.status.song is Some && after.status.song is Some
            && before.status.song->0.pos != after.status.song->0.pos,
{
}

/// The bold row follows the song: where it stood at the song before a round of replies, it
/// stands at the song after it, once the window is up to date.
pub proof fn law_bold_row_follows_song(rows: Seq<Row>, before: Model, after: Model)
    requires
        after.last_song_position == before.status.position(),
        before.status.song is Some,
        after.status.song is Some,
        can_follow(rows, after),
        marks_only(rows, before.status.position()),
    ensures
        marks_only(after_changes(rows, ui_changes(rows, after)), after.status.position()),
{
    if after.song_changed() && rows.len() > 0 {
        law_marking(rows, after.last_song_position, after.status.position());
    }
}

/// The rows of the list after the window has been brought up to date with each of `models`.
pub open spec fn rows_after(rows: Seq<Row>, models: Seq<Model>) -> Seq<Row>
    decreases models.len(),
{
    if models.len() == 0 {
        rows
    } else {
        let before = rows_after(rows, models.drop_last());
        after_changes(before, ui_changes(before, models.last()))
    }
}

/// The last of a run of models that starts with `first`.
pub open spec fn latest(first: Model, models: Seq<Model>) -> Model {
    if models.len() == 0 {
        first
    } else {
        models.last()
    }
}

/// Whether each of `models` comes from the one before it by a round of replies, and each names a
/// current song; the positions that they speak of are in a list of `len` rows.
pub open spec fn is_run(len: int, first: Model, models: Seq<Model>) -> bool
    decreases models.len(),
{
    if models.len() == 0 {
        first.status.song is Some
    } else {
        let model = models.last();
        let earlier = models.drop_last();
        &&& is_run(len, first, earlier)
        &&& model.status.song is Some
        &&& model.last_song_position == latest(first, earlier).status.position()
        &&& has_rows_of(len, model)
    }
}

/// As long as the daemon names a current song that the list has, the bold row stays with it
/// through any number of rounds, and it is the only one.
pub proof fn law_bold_row_stays_with_song(rows: Seq<Row>, first: Model, models: Seq<Model>)
    requires
        is_run(rows.len() as int, first, models),
        marks_only(rows, first.status.position()),
    ensures
        rows_after(rows, models).len() == rows.len(),
        marks_only(rows_after(rows, models), latest(first, models).status.position()),
    decreases models.len(),
{
    reveal_with_fuel(is_run, 2);
    if models.len() > 0 {
        let model = models.last();
        let earlier = models.drop_last();
        law_bold_row_stays_with_song(rows, first, earlier);
        let shown = rows_after(rows, earlier);
        law_bold_row_follows_song(shown, latest(first, earlier), model);
        if model.song_changed() && shown.len() > 0 {
            law_marking(shown, model.last_song_position, model.status.position());
        }
    }
}

/// An update of the window changes nothing but weights: each row shows the song it showed.
pub proof fn law_update_keeps_songs(rows: Seq<Row>, model: Model, i: int, song: Song)
    requires
        can_follow(rows, model),
        0 <= i < rows.len(),
    ensures
        after_changes(rows, ui_changes(rows, model)).len() == rows.len(),
        after_changes(rows, ui_changes(rows, model))[i].shows(song) <==> rows[i].shows(song),
{
    if model.song_changed() {
        law_marking(rows, model.last_song_position, model.status.position());
    }
}

/// The list knows two weights only, and an update of the window keeps to them.
pub proof fn law_update_keeps_weights(rows: Seq<Row>, model: Model)
    requires
        can_follow(rows, model),
        are_weighted(rows),
    ensures
        are_weighted(after_changes(rows, ui_changes(rows, model))),
{
    if model.song_changed() && rows.len() > 0 {
        law_marking(rows, model.last_song_position, model.status.position());
    }
}

/// While a song is played, time never runs backwards on the display, neither on the seek bar nor
/// in the whole seconds of the label, as long as no more nanoseconds lie between the report and
/// either reading of the clock than a signed number of sixty-four bits holds.
pub proof fn law_time_moves_on(model: Model, now: u64, later: u64)
    requires
        now <= later,
        now - model.status_updated >= i64::MIN,
        later - model.status_updated <= i64::MAX,
    ensures
        whole_millis(model.played_at(now)) <= whole_millis(model.played_at(later)),
        whole_seconds(model.played_at(now)) <= whole_seconds(model.played_at(later)),
{
    lemma_quotient_grows(model.played_at(now), model.played_at(later), NANOS_PER_SEC as int);
    lemma_quotient_grows(model.played_at(now), model.played_at(later), NANOS_PER_MILLI as int);
}

/// A tick at the moment of a report shows the time played as the report itself is shown.
pub proof fn law_tick_starts_at_report(model: Model, screen: Screen)
    requires
        screen.shows(model),
        model.status.played() is Some,
    ensures
        screen.elapsed@ == time_text(model.played_at(model.status_updated)),
{
}

/// Where the daemon reports the time played to the millisecond, a tick at the moment of the
/// report leaves the seek bar where the report has put it.
pub proof fn law_tick_keeps_seek_bar(model: Model, screen: Screen)
    requires
        screen.shows(model),
        model.status.elapsed is Some,
    ensures
        screen.seek_value == whole_millis(model.played_at(model.status_updated)),
{
}

/// A daemon that does not answer is shown as one that has stopped: nothing is played, nothing
/// is switched on, and no time is told.
pub proof fn law_silence_is_shown(model: Model, screen: Screen)
    requires
        screen.shows(model),
        model.status == blank_status(),
    ensures
        screen.toggle@ == "play_arrow"@,
        !screen.repeat,
        !screen.shuffle,
        screen.volume == 0,
        screen.seek_upper == 0,
        screen.seek_value == 0,
        screen.elapsed@ == Seq::<char>::empty(),
        screen.duration@ == Seq::<char>::empty(),
        !model.song_changed(),
{
}

proof fn lemma_quotient_grows(a: int, b: int, d: int)
    requires
        a <= b,
        d > 0,
    ensures
        quotient(a, d) <= quotient(b, d),
{
    if a >= 0 {
        vstd::arithmetic::div_mod::lemma_div_is_ordered(a, b, d);
    } else if b < 0 {
        vstd::arithmetic::div_mod::lemma_div_is_ordered(-b, -a, d);
    } else {
        vstd::arithmetic::div_mod::lemma_div_pos_is_pos(-a, d);
        vstd::arithmetic::div_mod::lemma_div_pos_is_pos(b, d);
    }
}

} // verus!
