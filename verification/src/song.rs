//! Songs, as the player daemon describes them.
use crate::span::Span;
use vstd::prelude::*;

verus! {

/// Where a song stands in the queue.
#[derive(Clone, Copy, Debug, PartialEq, Eq, Structural)]
pub struct QueuePlace {
    /// The identifier of the entry.
    pub id: u32,
    /// The position in the queue, from zero.
    pub pos: u32,
}

/// The value that stands first beside `key`.
spec fn lookup(entries: Seq<(String, String)>, key: Seq<char>) -> Option<Seq<char>>
    decreases entries.len(),
{
    if entries.len() == 0 {
        None
    } else if entries[0].0@ == key {
        Some(entries[0].1@)
    } else {
        lookup(entries.drop_first(), key)
    }
}

/// The tags of a song. The view maps the name of a tag to its value.
#[derive(Debug)]
pub struct Tags {
    entries: Vec<(String, String)>,
}

impl View for Tags {
    type V = Map<Seq<char>, Seq<char>>;

    closed spec fn view(&self) -> Map<Seq<char>, Seq<char>> {
        Map::new(
            |key: Seq<char>| lookup(self.entries@, key) is Some,
            |key: Seq<char>| lookup(self.entries@, key)->0,
        )
    }
}

impl Tags {
    /// No tags.
    pub fn new() -> (tags: Tags)
        ensures
            tags@ == Map::<Seq<char>, Seq<char>>::empty(),
    {
        let tags = Tags { entries: Vec::new() };
        assert(tags@ =~= Map::empty());
        tags
    }

    /// The place of the tag `key`.
    fn find(&self, key: &str) -> (place: Option<usize>)
        ensures
            place matches Some(i) ==> {
                &&& i < self.entries.len()
                &&& self.entries[i as int].0@ == key@
                &&& forall|j: int| 0 <= j < i ==> (#[trigger] self.entries[j]).0@ != key@
            },
            place is None ==> forall|j: int|
                0 <= j < self.entries.len() ==> (#[trigger] self.entries[j]).0@ != key@,
    {
        let wanted = key.to_owned();
        let mut i: usize = 0;
        while i < self.entries.len()
            invariant
                i <= self.entries.len(),
                wanted@ == key@,
                forall|j: int| 0 <= j < i ==> (#[trigger] self.entries[j]).0@ != key@,
            decreases self.entries.len() - i,
        {
            if self.entries[i].0.eq(&wanted) {
                return Some(i);
            }
            i += 1;
        }
        None
    }

    /// Gives the tag `key` the value `value`, in place of the one it had.
    pub fn insert(&mut self, key: String, value: String)
        ensures
            final(self)@ == old(self)@.insert(key@, value@),
    {
        let ghost before = self.entries@;
        let ghost entry = (key, value);
        match self.find(key.as_str()) {
            Some(i) => {
                self.entries.set(i, (key, value));
                proof {
                    lemma_first(self.entries@, i as int);
                    assert forall|name: Seq<char>| name != entry.0@ implies #[trigger] lookup(
                        self.entries@,
                        name,
                    ) == lookup(before, name) by {
                        lemma_update(before, i as int, entry, name);
                    }
                }
            },
            None => {
                self.entries.push((key, value));
                proof {
                    lemma_first(self.entries@, before.len() as int);
                    assert forall|name: Seq<char>| name != entry.0@ implies #[trigger] lookup(
                        self.entries@,
                        name,
                    ) == lookup(before, name) by {
                        lemma_push(before, entry, name);
                    }
                }
            },
        }
        assert(self@ =~= old(self)@.insert(entry.0@, entry.1@));
    }

    /// The value of the tag `key`.
    pub fn get(&self, key: &str) -> (value: Option<&String>)
        ensures
            value is Some <==> self@.contains_key(key@),
            value matches Some(v) ==> v@ == self@[key@],
    {
        match self.find(key) {
            Some(i) => {
                proof {
                    lemma_first(self.entries@, i as int);
                }
                Some(&self.entries[i].1)
            },
            None => {
                proof {
                    lemma_absent(self.entries@, key@);
                }
                None
            },
        }
    }
}

/// The first entry with a key is the one that counts.
proof fn lemma_first(entries: Seq<(String, String)>, i: int)
    requires
        0 <= i < entries.len(),
        forall|j: int| 0 <= j < i ==> (#[trigger] entries[j]).0@ != entries[i].0@,
    ensures
        lookup(entries, entries[i].0@) == Some(entries[i].1@),
    decreases i,
{
    if i > 0 {
        assert(entries[0].0@ != entries[i].0@);
        let rest = entries.drop_first();
        assert forall|j: int| 0 <= j < i - 1 implies (#[trigger] rest[j]).0@ != rest[i - 1].0@ by {
            assert(entries[j + 1].0@ != entries[i].0@);
        }
        lemma_first(rest, i - 1);
    }
}

proof fn lemma_absent(entries: Seq<(String, String)>, key: Seq<char>)
    requires
        forall|j: int| 0 <= j < entries.len() ==> (#[trigger] entries[j]).0@ != key,
    ensures
        lookup(entries, key) is None,
    decreases entries.len(),
{
    if entries.len() > 0 {
        let rest = entries.drop_first();
        assert forall|j: int| 0 <= j < rest.len() implies (#[trigger] rest[j]).0@ != key by {
            assert(entries[j + 1].0@ != key);
        }
        lemma_absent(rest, key);
    }
}

proof fn lemma_update(
    entries: Seq<(String, String)>,
    i: int,
    entry: (String, String),
    key: Seq<char>,
)
    requires
        0 <= i < entries.len(),
        entries[i].0@ == entry.0@,
        key != entry.0@,
    ensures
        lookup(entries.update(i, entry), key) == lookup(entries, key),
    decreases i,
{
    if i > 0 {
        lemma_update(entries.drop_first(), i - 1, entry, key);
        assert(entries.update(i, entry).drop_first() =~= entries.drop_first().update(i - 1, entry));
    } else {
        assert(entries.update(i, entry).drop_first() =~= entries.drop_first());
    }
}

proof fn lemma_push(entries: Seq<(String, String)>, entry: (String, String), key: Seq<char>)
    requires
        key != entry.0@,
    ensures
        lookup(entries.push(entry), key) == lookup(entries, key),
    decreases entries.len(),
{
    if entries.len() > 0 {
        lemma_push(entries.drop_first(), entry, key);
        assert(entries.push(entry).drop_first() =~= entries.drop_first().push(entry));
    } else {
        assert(entries.push(entry).drop_first() =~= entries);
    }
}

/// A song.
#[derive(Debug)]
pub struct Song {
    /// The file it is played from.
    pub file: String,
    /// Its title.
    pub title: Option<String>,
    /// Its tags, the title apart.
    pub tags: Tags,
    /// How long it lasts.
    pub duration: Option<Span>,
    /// Where it stands in the queue, if it is queued.
    pub place: Option<QueuePlace>,
}

impl Song {
    /// The value of the tag `key`, if the song has that tag.
    pub open spec fn tag(&self, key: Seq<char>) -> Option<Seq<char>> {
        if self.tags@.contains_key(key) {
            Some(self.tags@[key])
        } else {
            None
        }
    }

    /// How the current song is announced: artist, album and title where all are known, artist
    /// and title where the song has no album, the file otherwise.
    pub open spec fn announcement(&self) -> Seq<char> {
        match (self.tag("Artist"@), self.tag("Album"@), self.title) {
            (Some(artist), Some(album), Some(title)) => artist + " → "@ + album + "\n"@ + title@,
            (Some(artist), None, Some(title)) => artist + "\n"@ + title@,
            _ => self.file@,
        }
    }

    /// The text that announces the song.
    pub fn label(&self) -> (text: String)
        ensures
            text@ == self.announcement(),
    {
        let artist = self.tags.get("Artist");
        let album = self.tags.get("Album");
        match (artist, album, &self.title) {
            (Some(artist), Some(album), Some(title)) => {
                let mut text = artist.clone();
                text.append(" → ");
                text.append(album.as_str());
                text.append("\n");
                text.append(title.as_str());
                text
            },
            (Some(artist), None, Some(title)) => {
                let mut text = artist.clone();
                text.append("\n");
                text.append(title.as_str());
                text
            },
            _ => self.file.clone(),
        }
    }
}

} // verus!
