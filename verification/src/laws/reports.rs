//! What the player takes in of the daemon's replies, and how it names a song.
use crate::message::Msg;
use crate::model::{Listen, Model};
use crate::song::{Song, Tags};
use crate::status::{State, Status};
use vstd::prelude::*;

verus! {

/// The first replies are taken as they are; nothing has been played before them, and the
/// connection for changes waits.
pub proof fn law_first_replies<E>(
    status: Result<Status, E>,
    now: u64,
    song: Result<Option<Song>, E>,
    model: Model,
)
    requires
        call_ensures(Model::new::<E>, (status, now, song), model),
    ensures
        status matches Ok(reported) ==> model.status == reported,
        song matches Ok(named) ==> model.current_song == named,
        song is Err ==> model.current_song is None,
        model.status_updated == now,
        model.last_song_position is None,
        model.idle,
{
}

/// A round of replies is taken as it is. The position that was current before it is the last one
/// after it, and whether the connection for changes waits does not depend on it.
pub proof fn law_later_replies<E>(
    model: &mut Model,
    status: Result<Status, E>,
    now: u64,
    song: Result<Option<Song>, E>,
)
    requires
        call_ensures(Model::refresh::<E>, (model, status, now, song), ()),
    ensures
        status matches Ok(reported) ==> final(model).status == reported,
        song matches Ok(named) ==> final(model).current_song == named,
        song is Err ==> final(model).current_song is None,
        final(model).status_updated == now,
        final(model).idle == old(model).idle,
        final(model).last_song_position is Some <==> old(model).status.song is Some,
        old(model).status.song matches Some(place) ==> final(model).last_song_position == Some(
            place.pos,
        ),
{
}

/// A query for the status that fails leaves a player that has stopped and knows of nothing, at
/// the start as well as later.
pub proof fn law_failed_query<E>(
    error: E,
    now: u64,
    song: Result<Option<Song>, E>,
    first: Model,
    model: &mut Model,
)
    requires
        call_ensures(Model::new::<E>, (Err(error), now, song), first),
        call_ensures(Model::refresh::<E>, (model, Err(error), now, song), ()),
    ensures
        first.status == final(model).status,
        first.status.state == State::Stop,
        first.status.volume == 0,
        !first.status.repeat,
        !first.status.random,
        first.status.song is None,
        first.status.time is None,
        first.status.elapsed is None,
        first.status.duration is None,
{
}

/// The status by default is that of a player that has stopped and knows of nothing.
pub proof fn law_default_status(status: Status)
    requires
        call_ensures(<Status as Default>::default, (), status),
    ensures
        status.state == State::Stop,
        status.volume == 0,
        !status.repeat,
        !status.random,
        status.song is None,
        status.time is None,
        status.elapsed is None,
        status.duration is None,
{
}

/// The position of a status is that of its song.
pub proof fn law_position(status: Status, position: Option<u32>)
    requires
        call_ensures(Status::song_position, (&status,), position),
    ensures
        match status.song {
            Some(place) => position == Some(place.pos),
            None => position is None,
        },
{
}

/// After a round of replies the song has changed exactly where there was one before and there is
/// one now, at another position.
pub proof fn law_song_changes_with_position<E>(
    model: &mut Model,
    status: Status,
    now: u64,
    song: Result<Option<Song>, E>,
    after: Model,
    changed: bool,
)
    requires
        call_ensures(Model::refresh::<E>, (model, Ok(status), now, song), ()),
        after == *final(model),
        call_ensures(Model::has_song_changed, (&after,), changed),
    ensures
        changed <==> match (old(model).status.song, status.song) {
            (Some(before), Some(current)) => before.pos != current.pos,
            _ => false,
        },
{
}

/// Without a last position, or without a song, nothing counts as a change.
pub proof fn law_change_needs_two_positions(model: Model, changed: bool)
    requires
        call_ensures(Model::has_song_changed, (&model,), changed),
    ensures
        changed ==> model.last_song_position is Some && model.status.song is Some,
        model.last_song_position is Some && model.status.song is Some ==> (changed
            <==> model.last_song_position->0 != model.status.song->0.pos),
{
}

/// The first message to listen puts the waiting connection to use, and news is looked for every
/// thirty milliseconds; nothing else of the model changes, and no other message does anything.
pub proof fn law_listening_starts<P>(model: &mut Model, event: Msg<P>, listen: Option<Listen>)
    requires
        call_ensures(Model::update_command::<P>, (model, &event), listen),
    ensures
        event is StartListening ==> !final(model).idle && listen is Some
            && listen->0.poll_millis == 30,
        !(event is StartListening) ==> final(model).idle == old(model).idle && listen is None,
        final(model).status == old(model).status,
        final(model).status_updated == old(model).status_updated,
        final(model).current_song == old(model).current_song,
        final(model).last_song_position == old(model).last_song_position,
{
}

/// A message can be taken in while the connection for changes waits, and every message but that
/// to listen can be taken in at any time.
pub proof fn law_listening_can_start<P>(model: &mut Model, event: Msg<P>)
    requires
        old(model).idle || !(event is StartListening),
    ensures
        call_requires(Model::update_command::<P>, (model, &event)),
{
}

/// A tag that is set is read back, and the other tags are read as before.
pub proof fn law_tag_is_read_back(
    tags: &mut Tags,
    key: String,
    value: String,
    name: &str,
    after: Tags,
    read_before: Option<&String>,
    read_after: Option<&String>,
)
    requires
        call_ensures(Tags::get, (&*old(tags), name), read_before),
        call_ensures(Tags::insert, (tags, key, value), ()),
        after == *final(tags),
        call_ensures(Tags::get, (&after, name), read_after),
    ensures
        name@ == key@ ==> read_after is Some && read_after->0@ == value@,
        name@ != key@ ==> {
            &&& read_after is Some <==> read_before is Some
            &&& read_after is Some ==> read_after->0@ == read_before->0@
        },
{
}

/// At first there is no tag to be read.
pub proof fn law_no_tags_at_first(tags: Tags, name: &str, read: Option<&String>)
    requires
        call_ensures(Tags::new, (), tags),
        call_ensures(Tags::get, (&tags, name), read),
    ensures
        read is None,
{
}

/// A song with a title and an artist is announced by them, with the album between them where it
/// has one; any other song by its file.
pub proof fn law_song_is_announced(
    song: Song,
    artist: Option<&String>,
    album: Option<&String>,
    text: String,
)
    requires
        call_ensures(Tags::get, (&song.tags, "Artist"), artist),
        call_ensures(Tags::get, (&song.tags, "Album"), album),
        call_ensures(Song::label, (&song,), text),
    ensures
        song.title is None || artist is None ==> text@ == song.file@,
        song.title is Some && artist is Some && album is None ==> text@ == artist->0@ + seq!['\n']
            + song.title->0@,
        song.title is Some && artist is Some && album is Some ==> text@ == artist->0@ + seq![
            ' ',
            '\u{2192}',
            ' ',
        ] + album->0@ + seq!['\n'] + song.title->0@,
{
    reveal_strlit("\n");
    reveal_strlit(" → ");
    assert("\n"@ =~= seq!['\n']);
    assert(" → "@ =~= seq![' ', '\u{2192}', ' ']);
}

} // verus!
