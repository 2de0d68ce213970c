//! What the window shows of the model, field by field and row by row.
use crate::laws::clock::{counts, lemma_counts, lemma_time_text, shows_time};
use crate::model::Model;
use crate::song::{Song, Tags};
use crate::status::{State, Status};
use crate::text::format_time;
use crate::win::{law_marking, Row, Screen, UiUpdate, WeightChange, Win};
use vstd::prelude::*;

verus! {

/// The buttons for repeat and for shuffle are on exactly where the daemon repeats and shuffles.
pub proof fn law_switches_show_status(model: Model, screen: Screen)
    requires
        call_ensures(Screen::new, (&model,), screen),
    ensures
        screen.repeat <==> model.status.repeat,
        screen.shuffle <==> model.status.random,
{
}

/// The volume is that of the daemon.
pub proof fn law_volume_shows_status(model: Model, screen: Screen)
    requires
        call_ensures(Screen::new, (&model,), screen),
    ensures
        screen.volume == model.status.volume,
{
}

/// The play button offers to pause while a song is played, and else to play.
pub proof fn law_play_button_shows_state(model: Model, screen: Screen)
    requires
        call_ensures(Screen::new, (&model,), screen),
    ensures
        screen.toggle@ == "pause"@ <==> model.status.state == State::Play,
        screen.toggle@ == "play_arrow"@ <==> model.status.state != State::Play,
{
    reveal_strlit("pause");
    reveal_strlit("play_arrow");
    assert("pause"@.len() != "play_arrow"@.len());
}

/// The current song is shown by the text that announces it; without one the text stays.
pub proof fn law_song_is_shown(model: Model, screen: Screen, label: String)
    requires
        call_ensures(Screen::new, (&model,), screen),
        model.current_song matches Some(song) ==> call_ensures(Song::label, (&song,), label),
    ensures
        model.current_song is None ==> screen.cursong is None,
        model.current_song is Some ==> screen.cursong is Some && screen.cursong->0@ == label@,
{
}

/// The seek bar ends at the length of the song, and the label for the length shows it: the one
/// to the millisecond where it is known, else the coarse one, else nothing.
pub proof fn law_length_is_shown(model: Model, screen: Screen)
    requires
        call_ensures(Screen::new, (&model,), screen),
    ensures
        match (model.status.duration, model.status.time) {
            (Some(length), _) => counts(screen.seek_upper as int, length@, 1_000_000)
                && shows_time(screen.duration@, length@),
            (None, Some((_, length))) => counts(screen.seek_upper as int, length@, 1_000_000)
                && shows_time(screen.duration@, length@),
            (None, None) => screen.seek_upper == 0 && screen.duration@.len() == 0,
        },
{
    if model.status.length() is Some {
        lemma_counts(model.status.length()->0@);
        lemma_time_text(model.status.length()->0@);
    }
}

/// The seek bar stands at the time played, and the label shows it: the one to the millisecond
/// where it is known. Else the bar stands at the coarse time played, and the label shows the
/// length of the song; and where there is no time at all, the bar is at zero and the label empty.
pub proof fn law_time_played_is_shown(model: Model, screen: Screen)
    requires
        call_ensures(Screen::new, (&model,), screen),
    ensures
        match (model.status.elapsed, model.status.time) {
            (Some(elapsed), _) => counts(screen.seek_value as int, elapsed@, 1_000_000)
                && shows_time(screen.elapsed@, elapsed@),
            (None, Some((played, length))) => counts(screen.seek_value as int, played@, 1_000_000)
                && shows_time(screen.elapsed@, length@),
            (None, None) => screen.seek_value == 0 && screen.elapsed@.len() == 0,
        },
{
    if model.status.sought() is Some {
        lemma_counts(model.status.sought()->0@);
        lemma_time_text(model.status.played()->0@);
    }
}

/// To bring the window up to date is to show in it what the model shows, whatever the list.
pub proof fn law_update_shows_screen(
    win: &mut Win,
    model: Model,
    selected_rows: i32,
    update: UiUpdate,
    screen: Screen,
)
    requires
        call_ensures(Win::update_ui, (win, &model, selected_rows), update),
        call_ensures(Screen::new, (&model,), screen),
    ensures
        update.screen.cursong is Some <==> screen.cursong is Some,
        screen.cursong is Some ==> update.screen.cursong->0@ == screen.cursong->0@,
        update.screen.repeat == screen.repeat,
        update.screen.shuffle == screen.shuffle,
        update.screen.toggle@ == screen.toggle@,
        update.screen.volume == screen.volume,
        update.screen.seek_upper == screen.seek_upper,
        update.screen.seek_value == screen.seek_value,
        update.screen.elapsed@ == screen.elapsed@,
        update.screen.duration@ == screen.duration@,
{
}

/// An update of the window shows of the daemon's status what the daemon has reported.
pub proof fn law_update_shows_status(
    win: &mut Win,
    model: Model,
    selected_rows: i32,
    update: UiUpdate,
)
    requires
        call_ensures(Win::update_ui, (win, &model, selected_rows), update),
    ensures
        update.screen.repeat <==> model.status.repeat,
        update.screen.shuffle <==> model.status.random,
        update.screen.volume == model.status.volume,
        update.screen.toggle@ == (if model.status.state == State::Play {
            "pause"@
        } else {
            "play_arrow"@
        }),
        model.status.elapsed matches Some(elapsed) ==> {
            &&& counts(update.screen.seek_value as int, elapsed@, 1_000_000)
            &&& shows_time(update.screen.elapsed@, elapsed@)
        },
        model.status.duration matches Some(length) ==> {
            &&& counts(update.screen.seek_upper as int, length@, 1_000_000)
            &&& shows_time(update.screen.duration@, length@)
        },
{
    if model.status.elapsed is Some {
        lemma_counts(model.status.elapsed->0@);
        lemma_time_text(model.status.elapsed->0@);
    }
    if model.status.duration is Some {
        lemma_counts(model.status.duration->0@);
        lemma_time_text(model.status.duration->0@);
    }
}

/// The list has a row for each song of the queue, in the order of the queue, with the song's own
/// identifier, tags, title and file; a column is empty where the song has nothing for it.
pub proof fn law_queue_is_listed(
    win: &mut Win,
    queue: Vec<Song>,
    model: Model,
    scroll: Option<i32>,
    i: int,
    artist: Option<&String>,
    album: Option<&String>,
)
    requires
        call_ensures(Win::update_now_playing, (win, &queue, &model), scroll),
        0 <= i < queue.len(),
        queue[i].place is Some,
        call_ensures(Tags::get, (&queue[i].tags, "Artist"), artist),
        call_ensures(Tags::get, (&queue[i].tags, "Album"), album),
    ensures
        final(win).rows.len() == queue.len(),
        final(win).rows[i].id == queue[i].place->0.id,
        final(win).rows[i].filename@ == queue[i].file@,
        match artist {
            Some(text) => final(win).rows[i].artist@ == text@,
            None => final(win).rows[i].artist@.len() == 0,
        },
        match album {
            Some(text) => final(win).rows[i].album@ == text@,
            None => final(win).rows[i].album@.len() == 0,
        },
        match queue[i].title {
            Some(text) => final(win).rows[i].title@ == text@,
            None => final(win).rows[i].title@.len() == 0,
        },
{
    assert(final(win).rows[i].shows(queue[i]));
}

/// In the list, the length of a song is the text of its duration, whatever the duration; it is
/// empty only where the duration is not known.
pub proof fn law_lengths_are_listed(
    win: &mut Win,
    queue: Vec<Song>,
    model: Model,
    scroll: Option<i32>,
    i: int,
    text: String,
)
    requires
        call_ensures(Win::update_now_playing, (win, &queue, &model), scroll),
        0 <= i < queue.len(),
        queue[i].duration matches Some(duration) ==> call_ensures(format_time, (duration,), text),
    ensures
        match queue[i].duration {
            Some(duration) => {
                &&& final(win).rows[i].length@ == text@
                &&& shows_time(final(win).rows[i].length@, duration@)
            },
            None => final(win).rows[i].length@.len() == 0,
        },
{
    assert(final(win).rows[i].shows(queue[i]));
    if queue[i].duration is Some {
        lemma_time_text(queue[i].duration->0@);
    }
}

/// In a list that has just been filled, the row at the position of the current song is bold, all
/// others are not, and the list is scrolled to that row.
pub proof fn law_filled_list_marks_song(
    win: &mut Win,
    queue: Vec<Song>,
    model: Model,
    scroll: Option<i32>,
    i: int,
)
    requires
        call_ensures(Win::update_now_playing, (win, &queue, &model), scroll),
    ensures
        final(win).rows.len() == queue.len(),
        0 <= i < queue.len() ==> match model.status.song {
            Some(place) => final(win).rows[i].weight == if place.pos == i {
                700int
            } else {
                400
            },
            None => final(win).rows[i].weight == 400,
        },
        scroll is Some <==> model.status.song is Some,
        model.status.song matches Some(place) ==> scroll->0 == place.pos || scroll->0 == place.pos
            - 0x1_0000_0000,
{
    if 0 <= i < queue.len() {
        assert(final(win).rows[i].shows(queue[i]));
    }
}

/// Two fillings with the same queue and the same model give the same list, whatever was listed
/// before.
pub proof fn law_list_is_filled_anew(
    one: &mut Win,
    other: &mut Win,
    queue: Vec<Song>,
    model: Model,
    scroll: Option<i32>,
    again: Option<i32>,
    i: int,
)
    requires
        call_ensures(Win::update_now_playing, (one, &queue, &model), scroll),
        call_ensures(Win::update_now_playing, (other, &queue, &model), again),
        0 <= i < queue.len(),
    ensures
        final(one).rows.len() == final(other).rows.len(),
        final(one).rows[i].id == final(other).rows[i].id,
        final(one).rows[i].artist@ == final(other).rows[i].artist@,
        final(one).rows[i].album@ == final(other).rows[i].album@,
        final(one).rows[i].title@ == final(other).rows[i].title@,
        final(one).rows[i].length@ == final(other).rows[i].length@,
        final(one).rows[i].filename@ == final(other).rows[i].filename@,
        final(one).rows[i].weight == final(other).rows[i].weight,
        scroll == again,
{
    assert(final(one).rows[i].shows(queue[i]));
    assert(final(other).rows[i].shows(queue[i]));
}

/// To mark the current song is to set its row in bold and the row of the last one back, unless it
/// is the same; the other rows keep their weight, and every row keeps its song. The changes say
/// so in this order, and an empty list is left alone.
pub proof fn law_song_is_marked(
    win: &mut Win,
    model: Model,
    changes: Vec<WeightChange>,
    i: int,
)
    requires
        call_ensures(Win::update_now_playing_cursong, (win, &model), changes),
        0 <= i < old(win).rows.len(),
        model.last_song_position matches Some(last) ==> last < old(win).rows.len(),
        model.status.song matches Some(place) ==> place.pos < old(win).rows.len(),
    ensures
        final(win).rows.len() == old(win).rows.len(),
        (Row { weight: 0, ..final(win).rows[i] }) == (Row { weight: 0, ..old(win).rows[i] }),
        match (model.last_song_position, model.status.song) {
            (last, Some(place)) if place.pos == i => final(win).rows[i].weight == 700,
            (Some(last), _) if last == i => final(win).rows[i].weight == 400,
            _ => final(win).rows[i].weight == old(win).rows[i].weight,
        },
        match (model.last_song_position, model.status.song) {
            (Some(last), Some(place)) => changes.len() == 2 && changes[0].row == last
                && changes[0].weight == 400 && changes[1].row == place.pos && changes[1].weight
                == 700,
            (Some(last), None) => changes.len() == 1 && changes[0].row == last && changes[0].weight
                == 400,
            (None, Some(place)) => changes.len() == 1 && changes[0].row == place.pos
                && changes[0].weight == 700,
            (None, None) => changes.len() == 0,
        },
{
    law_marking(old(win).rows@, model.last_song_position, model.status.position());
    assert(final(win).rows@[i] == final(win).rows[i]);
}

/// An empty list stays empty, and there is nothing to change in it.
pub proof fn law_empty_list_is_left_alone(
    win: &mut Win,
    model: Model,
    changes: Vec<WeightChange>,
)
    requires
        call_ensures(Win::update_now_playing_cursong, (win, &model), changes),
        old(win).rows.len() == 0,
    ensures
        final(win).rows.len() == 0,
        changes.len() == 0,
{
}

/// A round of replies moves the bold row with the song: where the position has changed, the new
/// row is bold and the old one is not; in every other case the list stays as it is. The list is
/// scrolled only to a new song, and only where the user has selected no row.
pub proof fn law_round_moves_mark<E>(
    model: &mut Model,
    status: Status,
    now: u64,
    song: Result<Option<Song>, E>,
    after: Model,
    win: &mut Win,
    selected_rows: i32,
    update: UiUpdate,
    i: int,
)
    requires
        call_ensures(Model::refresh::<E>, (model, Ok(status), now, song), ()),
        after == *final(model),
        call_ensures(Win::update_ui, (win, &after, selected_rows), update),
        0 <= i < old(win).rows.len(),
        match (old(model).status.song, status.song) {
            (Some(before), Some(current)) if before.pos != current.pos => before.pos < old(
                win,
            ).rows.len() && current.pos < old(win).rows.len(),
            _ => true,
        },
    ensures
        final(win).rows.len() == old(win).rows.len(),
        (Row { weight: 0, ..final(win).rows[i] }) == (Row { weight: 0, ..old(win).rows[i] }),
        match (old(model).status.song, status.song) {
            (Some(before), Some(current)) if before.pos != current.pos => {
                &&& final(win).rows[i].weight == if current.pos == i {
                    700int
                } else if before.pos == i {
                    400
                } else {
                    old(win).rows[i].weight as int
                }
                &&& update.weights.len() == 2
                &&& update.weights[0].row == before.pos
                &&& update.weights[0].weight == 400
                &&& update.weights[1].row == current.pos
                &&& update.weights[1].weight == 700
                &&& update.scroll <==> selected_rows == 0
            },
            _ => {
                &&& final(win).rows[i].weight == old(win).rows[i].weight
                &&& update.weights.len() == 0
                &&& !update.scroll
            },
        },
{
    if after.song_changed() {
        law_marking(old(win).rows@, after.last_song_position, after.status.position());
    }
    assert(final(win).rows@[i] == final(win).rows[i]);
}

/// An update of a window with an empty list scrolls where it would scroll another, and changes
/// no weight.
pub proof fn law_update_of_empty_list(
    win: &mut Win,
    model: Model,
    selected_rows: i32,
    update: UiUpdate,
    changed: bool,
)
    requires
        call_ensures(Win::update_ui, (win, &model, selected_rows), update),
        call_ensures(Model::has_song_changed, (&model,), changed),
        old(win).rows.len() == 0,
    ensures
        final(win).rows.len() == 0,
        update.weights.len() == 0,
        update.scroll <==> changed && selected_rows == 0,
{
}

/// The list starts empty.
pub proof fn law_list_starts_empty(win: Win)
    requires
        call_ensures(Win::new, (), win),
    ensures
        win.rows.len() == 0,
{
}

/// The song can be marked in an empty list, and else exactly where the list has a row at the last
/// and at the current position. The window can be brought up to date where the song can be marked,
/// and wherever it has not changed.
pub proof fn law_rows_are_there(win: Win, model: Model, mark: bool, changed: bool, update: bool)
    requires
        call_ensures(Win::can_mark, (&win, &model), mark),
        call_ensures(Model::has_song_changed, (&model,), changed),
        call_ensures(Win::can_update, (&win, &model), update),
    ensures
        mark <==> win.rows.len() == 0 || {
            &&& model.last_song_position matches Some(last) ==> last < win.rows.len()
            &&& model.status.song matches Some(place) ==> place.pos < win.rows.len()
        },
        update <==> !changed || mark,
{
}

/// Wherever the rows are there, the song can be marked and the window brought up to date;
/// wherever the queue can be listed, the list can be filled with it.
pub proof fn law_window_can_be_updated(
    win: &mut Win,
    model: Model,
    selected_rows: i32,
    queue: Vec<Song>,
    mark: bool,
    update: bool,
    fill: bool,
)
    requires
        call_ensures(Win::can_mark, (&*old(win), &model), mark),
        call_ensures(Win::can_update, (&*old(win), &model), update),
        call_ensures(Win::can_fill, (&queue, &model), fill),
    ensures
        mark ==> call_requires(Win::update_now_playing_cursong, (win, &model)),
        update ==> call_requires(Win::update_ui, (win, &model, selected_rows)),
        fill ==> call_requires(Win::update_now_playing, (win, &queue, &model)),
{
}

/// The list can be filled exactly where every song has its place, and the queue is empty or has
/// a song at the last and at the current position.
pub proof fn law_queue_can_be_listed(queue: Vec<Song>, model: Model, yes: bool)
    requires
        call_ensures(Win::can_fill, (&queue, &model), yes),
    ensures
        yes <==> {
            &&& forall|i: int| 0 <= i < queue.len() ==> (#[trigger] queue[i]).place is Some
            &&& queue.len() == 0 || {
                &&& model.last_song_position matches Some(last) ==> last < queue.len()
                &&& model.status.song matches Some(place) ==> place.pos < queue.len()
            }
        },
{
}

} // verus!
