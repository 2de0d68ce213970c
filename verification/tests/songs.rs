use vinyl::song::{Song, Tags};

fn song(tags: &[(&str, &str)], title: Option<&str>) -> Song {
    let mut table = Tags::new();
    for (key, value) in tags {
        table.insert(key.to_string(), value.to_string());
    }
    Song {
        file: "music/track.flac".to_string(),
        title: title.map(|t| t.to_string()),
        tags: table,
        duration: None,
        place: None,
    }
}

#[test]
fn tags_are_found_by_name() {
    let mut tags = Tags::new();
    assert!(tags.get("Artist").is_none());
    tags.insert("Artist".to_string(), "A".to_string());
    tags.insert("Album".to_string(), "B".to_string());
    assert_eq!(tags.get("Artist").unwrap(), "A");
    assert_eq!(tags.get("Album").unwrap(), "B");
    assert!(tags.get("artist").is_none());
}

#[test]
fn a_later_tag_replaces_an_earlier_one() {
    let mut tags = Tags::new();
    tags.insert("Artist".to_string(), "first".to_string());
    tags.insert("Album".to_string(), "B".to_string());
    tags.insert("Artist".to_string(), "second".to_string());
    assert_eq!(tags.get("Artist").unwrap(), "second");
    assert_eq!(tags.get("Album").unwrap(), "B");
}

#[test]
fn a_fully_tagged_song_is_announced_in_full() {
    let song = song(&[("Artist", "Artist"), ("Album", "Record")], Some("Song"));
    assert_eq!(song.label(), "Artist \u{2192} Record\nSong");
}

#[test]
fn a_song_without_album_is_announced_by_artist_and_title() {
    let song = song(&[("Artist", "Artist")], Some("Song"));
    assert_eq!(song.label(), "Artist\nSong");
}

#[test]
fn any_other_song_is_announced_by_its_file() {
    assert_eq!(song(&[], None).label(), "music/track.flac");
    assert_eq!(song(&[], Some("Song")).label(), "music/track.flac");
    assert_eq!(song(&[("Artist", "A")], None).label(), "music/track.flac");
    assert_eq!(song(&[("Album", "B")], Some("Song")).label(), "music/track.flac");
    assert_eq!(song(&[("Artist", "A"), ("Album", "B")], None).label(), "music/track.flac");
}
