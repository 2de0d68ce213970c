//! The window: what it shows of the model, and the list of the queue in it.
use crate::model::{as_index, Model};
use crate::song::Song;
use crate::status::{
    display_millis, display_time, millis_or_zero, text_or_empty, State,
};
use vstd::prelude::*;

verus! {

/// The columns of the list.
pub const NOW_PLAYING_ID: u32 = 0;

pub const NOW_PLAYING_ARTIST: u32 = 1;

pub const NOW_PLAYING_ALBUM: u32 = 2;

pub const NOW_PLAYING_TITLE: u32 = 3;

pub const NOW_PLAYING_LENGTH: u32 = 4;

pub const NOW_PLAYING_FILENAME: u32 = 5;

pub const NOW_PLAYING_WEIGHT: u32 = 6;

/// The font weight of a row.
pub const WEIGHT_NORMAL: i32 = 400;

/// The font weight of the row of the current song.
pub const WEIGHT_BOLD: i32 = 700;

/// A row of the list: a song of the queue.
#[derive(Debug)]
pub struct Row {
    pub id: u32,
    pub artist: String,
    pub album: String,
    pub title: String,
    pub length: String,
    pub filename: String,
    pub weight: i32,
}

/// The text itself, empty if there is none.
pub open spec fn or_empty(text: Option<Seq<char>>) -> Seq<char> {
    match text {
        Some(text) => text,
        None => Seq::empty(),
    }
}

/// A new weight for a row of the list.
#[derive(Clone, Copy, Debug, PartialEq, Eq, Structural)]
pub struct WeightChange {
    pub row: usize,
    pub weight: i32,
}

impl Row {
    /// Whether the row shows `song`, in whatever weight.
    pub open spec fn shows(&self, song: Song) -> bool {
        &&& self.id == song.place->0.id
        &&& self.artist@ == or_empty(song.tag("Artist"@))
        &&& self.album@ == or_empty(song.tag("Album"@))
        &&& self.title@ == (match song.title {
            Some(title) => title@,
            None => Seq::empty(),
        })
        &&& self.length@ == text_or_empty(song.duration)
        &&& self.filename@ == song.file@
    }

    fn new(song: &Song) -> (row: Row)
        requires
            song.place is Some,
        ensures
            row.shows(*song),
            row.weight == WEIGHT_NORMAL,
    {
        Row {
            id: song.place.unwrap().id,
            artist: text_of(song.tags.get("Artist")),
            album: text_of(song.tags.get("Album")),
            title: text_of(song.title.as_ref()),
            length: display_time(song.duration),
            filename: song.file.clone(),
            weight: WEIGHT_NORMAL,
        }
    }
}

fn text_of(text: Option<&String>) -> (copy: String)
    ensures
        copy@ == (match text {
            Some(text) => text@,
            None => Seq::empty(),
        }),
{
    match text {
        Some(text) => text.clone(),
        None => String::new(),
    }
}

/// What the window shows of the model, the list apart.
#[derive(Debug)]
pub struct Screen {
    /// The announcement of the current song; where there is none, the old one stays.
    pub cursong: Option<String>,
    pub repeat: bool,
    pub shuffle: bool,
    /// The label of the play button.
    pub toggle: String,
    pub volume: i8,
    /// The end of the seek bar, in milliseconds.
    pub seek_upper: i64,
    /// Where the seek bar stands, in milliseconds.
    pub seek_value: i64,
    pub elapsed: String,
    pub duration: String,
}

/// The label that the play button bears in a state of the playback.
pub open spec fn toggle_label(state: State) -> Seq<char> {
    match state {
        State::Play => "pause"@,
        _ => "play_arrow"@,
    }
}

impl Screen {
    /// Whether this is what the window shows of `model`.
    pub open spec fn shows(&self, model: Model) -> bool {
        &&& self.cursong is Some <==> model.current_song is Some
        &&& self.cursong matches Some(text) ==> text@ == model.current_song->0.announcement()
        &&& self.repeat == model.status.repeat
        &&& self.shuffle == model.status.random
        &&& self.toggle@ == toggle_label(model.status.state)
        &&& self.volume == model.status.volume
        &&& self.seek_upper == millis_or_zero(model.status.length())
        &&& self.seek_value == millis_or_zero(model.status.sought())
        &&& self.elapsed@ == text_or_empty(model.status.played())
        &&& self.duration@ == text_or_empty(model.status.length())
    }

    /// What the window shows of `model`.
    pub fn new(model: &Model) -> (screen: Screen)
        ensures
            screen.shows(*model),
    {
        Screen {
            cursong: match &model.current_song {
                Some(song) => Some(song.label()),
                None => None,
            },
            repeat: model.status.repeat,
            shuffle: model.status.random,
            toggle: match model.status.state {
                State::Play => "pause".to_owned(),
                _ => "play_arrow".to_owned(),
            },
            volume: model.status.volume,
            seek_upper: display_millis(model.status.song_length()),
            seek_value: display_millis(model.status.seek_position()),
            elapsed: display_time(model.status.time_played()),
            duration: display_time(model.status.song_length()),
        }
    }
}

/// What an update of the window comes to.
#[derive(Debug)]
pub struct UiUpdate {
    pub screen: Screen,
    /// The rows of the list that get another weight, in this order.
    pub weights: Vec<WeightChange>,
    /// Whether the list is to be scrolled to the current song.
    pub scroll: bool,
}

/// The changes that mark the song at `current` in place of the one at `last`.
pub open spec fn marking(last: Option<u32>, current: Option<u32>) -> Seq<WeightChange> {
    let unmark = match last {
        Some(row) => seq![WeightChange { row: row as usize, weight: WEIGHT_NORMAL }],
        None => Seq::empty(),
    };
    let mark = match current {
        Some(row) => seq![WeightChange { row: row as usize, weight: WEIGHT_BOLD }],
        None => Seq::empty(),
    };
    unmark + mark
}

/// Whether a list of `len` rows has those that `model` speaks of. An empty list is left alone.
pub open spec fn has_rows_of(len: int, model: Model) -> bool {
    len > 0 ==> {
        &&& model.last_song_position matches Some(row) ==> row < len
        &&& model.status.position() matches Some(row) ==> row < len
    }
}

/// Whether the list can follow the song: it has the rows to mark where the song has changed.
pub open spec fn can_follow(rows: Seq<Row>, model: Model) -> bool {
    model.song_changed() ==> has_rows_of(rows.len() as int, model)
}

/// The changes that an update of the window makes to the list: the current song is marked where
/// it is known to have changed.
pub open spec fn ui_changes(rows: Seq<Row>, model: Model) -> Seq<WeightChange> {
    if model.song_changed() && rows.len() > 0 {
        marking(model.last_song_position, model.status.position())
    } else {
        Seq::empty()
    }
}

/// A row in another weight.
pub open spec fn reweighted(row: Row, weight: i32) -> Row {
    Row { weight, ..row }
}

/// The rows after a run of changes.
pub open spec fn after_changes(rows: Seq<Row>, changes: Seq<WeightChange>) -> Seq<Row>
    decreases changes.len(),
{
    if changes.len() == 0 {
        rows
    } else {
        let before = after_changes(rows, changes.drop_last());
        let change = changes.last();
        before.update(change.row as int, reweighted(before[change.row as int], change.weight))
    }
}

/// Whether `position` is that of row `i`.
pub open spec fn stands_at(position: Option<u32>, i: int) -> bool {
    position matches Some(row) && row == i
}

/// Whether the row at `position` is set in bold, and no other.
pub open spec fn marks_only(rows: Seq<Row>, position: Option<u32>) -> bool {
    forall|i: int|
        0 <= i < rows.len() ==> ((#[trigger] rows[i]).weight == WEIGHT_BOLD <==> stands_at(
            position,
            i,
        ))
}

/// Whether every row has one of the two weights.
pub open spec fn are_weighted(rows: Seq<Row>) -> bool {
    forall|i: int|
        0 <= i < rows.len() ==> (#[trigger] rows[i]).weight == WEIGHT_NORMAL || rows[i].weight
            == WEIGHT_BOLD
}

/// Whether every song has its place in the queue.
pub open spec fn are_placed(queue: Seq<Song>) -> bool {
    forall|i: int| 0 <= i < queue.len() ==> (#[trigger] queue[i]).place is Some
}

fn fits(len: usize, model: &Model) -> (yes: bool)
    ensures
        yes == has_rows_of(len as int, *model),
{
    let last = match model.last_song_position {
        Some(row) => (row as usize) < len,
        None => true,
    };
    let current = match model.status.song_position() {
        Some(row) => (row as usize) < len,
        None => true,
    };
    len == 0 || (last && current)
}

/// The list in the window.
#[derive(Debug)]
pub struct Win {
    pub rows: Vec<Row>,
}

impl Win {
    /// The window before the queue is known.
    pub fn new() -> (win: Win)
        ensures
            win.rows@ == Seq::<Row>::empty(),
    {
        Win { rows: Vec::new() }
    }

    /// Whether the list has the rows that `model` speaks of.
    pub fn can_mark(&self, model: &Model) -> (yes: bool)
        ensures
            yes == has_rows_of(self.rows.len() as int, *model),
    {
        fits(self.rows.len(), model)
    }

    /// Whether the window can be brought up to date with `model`: the list has the rows to mark
    /// where the song has changed.
    pub fn can_update(&self, model: &Model) -> (yes: bool)
        ensures
            yes == can_follow(self.rows@, *model),
    {
        !model.has_song_changed() || self.can_mark(model)
    }

    /// Whether the list can be filled with `queue`: every song has its place, and the positions
    /// that `model` speaks of are among them.
    pub fn can_fill(queue: &Vec<Song>, model: &Model) -> (yes: bool)
        ensures
            yes == (are_placed(queue@) && has_rows_of(queue.len() as int, *model)),
    {
        let mut i: usize = 0;
        while i < queue.len()
            invariant
                i <= queue.len(),
                forall|j: int| 0 <= j < i ==> (#[trigger] queue[j]).place is Some,
            decreases queue.len() - i,
        {
            if queue[i].place.is_none() {
                return false;
            }
            i += 1;
        }
        fits(queue.len(), model)
    }

    fn change_weight(&mut self, change: WeightChange)
        requires
            change.row < old(self).rows.len(),
        ensures
            final(self).rows@ == old(self).rows@.update(
                change.row as int,
                reweighted(old(self).rows[change.row as int], change.weight),
            ),
    {
        self.rows[change.row].weight = change.weight;
    }

    /// Marks the row of the current song: the row of the last song goes back to the normal
    /// weight, the row of the current one is set in bold. Returns the changes, in their order.
    pub fn update_now_playing_cursong(&mut self, model: &Model) -> (changes: Vec<WeightChange>)
        requires
            has_rows_of(old(self).rows.len() as int, *model),
        ensures
            changes@ == (if old(self).rows.len() == 0 {
                Seq::empty()
            } else {
                marking(model.last_song_position, model.status.position())
            }),
            final(self).rows@ == after_changes(old(self).rows@, changes@),
    {
        reveal_with_fuel(after_changes, 2);
        let mut changes: Vec<WeightChange> = Vec::new();
        if self.rows.len() == 0 {
            return changes;
        }
        if let Some(lastpos) = model.last_song_position {
            let change = WeightChange { row: lastpos as usize, weight: WEIGHT_NORMAL };
            self.change_weight(change);
            changes.push(change);
            assert(changes@.drop_last() =~= Seq::empty());
        }
        let ghost unmarked = changes@;
        assert(self.rows@ == after_changes(old(self).rows@, unmarked));
        if let Some(songpos) = model.status.song_position() {
            let change = WeightChange { row: songpos as usize, weight: WEIGHT_BOLD };
            self.change_weight(change);
            changes.push(change);
            assert(changes@.drop_last() =~= unmarked);
        }
        assert(changes@ =~= marking(model.last_song_position, model.status.position()));
        changes
    }

    /// Fills the list with the songs of the queue and marks the current one. Returns the row
    /// to scroll to, if there is a current song.
    pub fn update_now_playing(&mut self, queue: &Vec<Song>, model: &Model) -> (scroll: Option<i32>)
        requires
            are_placed(queue@),
            has_rows_of(queue.len() as int, *model),
        ensures
            final(self).rows.len() == queue.len(),
            forall|i: int|
                0 <= i < queue.len() ==> (#[trigger] final(self).rows[i]).shows(queue[i]),
            forall|i: int|
                0 <= i < queue.len() ==> (#[trigger] final(self).rows[i]).weight == (if stands_at(
                    model.status.position(),
                    i,
                ) {
                    WEIGHT_BOLD
                } else {
                    WEIGHT_NORMAL
                }),
            marks_only(final(self).rows@, model.status.position()),
            scroll is Some <==> model.status.song is Some,
            scroll matches Some(row) ==> row == as_index(model.status.song->0.pos as int),
    {
        self.rows.clear();
        let mut i: usize = 0;
        while i < queue.len()
            invariant
                i <= queue.len(),
                self.rows.len() == i,
                are_placed(queue@),
                forall|j: int|
                    0 <= j < i ==> {
                        &&& (#[trigger] self.rows[j]).shows(queue[j])
                        &&& self.rows[j].weight == WEIGHT_NORMAL
                    },
            decreases queue.len() - i,
        {
            self.rows.push(Row::new(&queue[i]));
            i += 1;
        }
        let scroll = model.scroll_to_current_song();
        let ghost filled = self.rows@;
        let _changes = self.update_now_playing_cursong(model);
        proof {
            if filled.len() > 0 {
                law_marking(filled, model.last_song_position, model.status.position());
            }
        }
        scroll
    }

    /// Brings the window up to date. `selected_rows` is the number of rows that are selected
    /// in the list: it is scrolled to a new song only where the user has selected none.
    pub fn update_ui(&mut self, model: &Model, selected_rows: i32) -> (update: UiUpdate)
        requires
            can_follow(old(self).rows@, *model),
        ensures
            update.screen.shows(*model),
            update.weights@ == ui_changes(old(self).rows@, *model),
            final(self).rows@ == after_changes(old(self).rows@, update.weights@),
            update.scroll == (model.song_changed() && selected_rows == 0),
    {
        let screen = Screen::new(model);
        if model.has_song_changed() {
            let weights = self.update_now_playing_cursong(model);
            UiUpdate { screen, weights, scroll: selected_rows == 0 }
        } else {
            UiUpdate { screen, weights: Vec::new(), scroll: false }
        }
    }
}

/// Marking comes down to this, row by row: the current row is bold, the last one is not unless
/// it is the current one, and the others stay as they are.
pub proof fn law_marking(rows: Seq<Row>, last: Option<u32>, current: Option<u32>)
    requires
        last matches Some(row) ==> row < rows.len(),
        current matches Some(row) ==> row < rows.len(),
    ensures
        after_changes(rows, marking(last, current)).len() == rows.len(),
        forall|i: int|
            0 <= i < rows.len() ==> #[trigger] after_changes(rows, marking(last, current))[i]
                == reweighted(
                rows[i],
                if stands_at(current, i) {
                    WEIGHT_BOLD
                } else if stands_at(last, i) {
                    WEIGHT_NORMAL
                } else {
                    rows[i].weight
                },
            ),
{
    reveal_with_fuel(after_changes, 3);
    let changes = marking(last, current);
    if last is Some && current is Some {
        assert(changes.drop_last() =~= marking(last, None));
        assert(changes.drop_last().drop_last() =~= Seq::empty());
    } else if changes.len() > 0 {
        assert(changes.drop_last() =~= Seq::empty());
    }
}

} // verus!
