use spectre::{MediaFields, SpectreProps, SPT};

fn fields() -> MediaFields {
    MediaFields {
        title: None,
        artist: None,
        album: None,
        album_artist: None,
        genres: None,
        thumbnail: None,
        track_number: None,
        track_count: None,
        playback_type: None,
        subtitle: None,
    }
}

#[test]
fn default_record_is_unknown() {
    let p = SpectreProps::default();
    assert_eq!(p.title, "Unknown Title");
    assert_eq!(p.artist, "Unknown Artist");
    assert_eq!(p.album, "Unknown Album");
    assert_eq!(p.album_artist, None);
    assert!(p.genres.is_empty());
    assert_eq!((p.thumbnail.width, p.thumbnail.height), (300, 300));
    assert_eq!(p.playback_type, SPT(SPT::UNKNOWN));
    assert_eq!(p.subtitle, None);
    assert_eq!(SpectreProps::new().title, "Unknown Title");
}

#[test]
fn sync_falls_back_on_unread_or_empty_text() {
    let mut f = fields();
    f.title = Some(String::new());
    f.artist = Some("Artist X".to_string());
    let p = SpectreProps::from_tcsp(f);
    assert_eq!(p.title, "Unknown Title");
    assert_eq!(p.artist, "Artist X");
    assert_eq!(p.album, "Unknown Album");
    assert!(p.genres.is_empty());
    assert_eq!(p.playback_type, SPT(0));
}

#[test]
fn sync_keeps_what_was_read() {
    let mut p = SpectreProps::new();
    let mut f = fields();
    f.title = Some("Song A".to_string());
    f.album = Some("Album B".to_string());
    f.album_artist = Some(String::new());
    f.genres = Some(vec!["Rock".to_string(), "Pop".to_string()]);
    f.track_number = Some(3);
    f.track_count = Some(12);
    f.playback_type = Some(2);
    f.subtitle = Some("Live".to_string());
    p.sync(f);
    assert_eq!(p.title, "Song A");
    assert_eq!(p.album, "Album B");
    assert_eq!(p.album_artist, Some(String::new()));
    assert_eq!(p.genres, vec!["Rock".to_string(), "Pop".to_string()]);
    assert_eq!(p.track_number, Some(3));
    assert_eq!(p.track_count, Some(12));
    assert_eq!(p.playback_type, SPT(SPT::VIDEO));
    assert_eq!(p.subtitle, Some("Live".to_string()));
}

#[test]
fn playback_type_mapping() {
    assert_eq!(SPT::from_playback_type(0), SPT(SPT::UNKNOWN));
    assert_eq!(SPT::from_playback_type(1), SPT(SPT::AUDIO));
    assert_eq!(SPT::from_playback_type(3), SPT(SPT::IMAGE));
    assert_eq!(SPT::from_playback_type(4), SPT(SPT::UNKNOWN));
    assert_eq!(SPT::from_playback_type(-1), SPT(SPT::UNKNOWN));
    assert_eq!(SPT(1).name(), "AUDIO");
    assert_eq!(SPT(2).name(), "VIDEO");
    assert_eq!(SPT(3).name(), "IMAGE");
    assert_eq!(SPT(0).name(), "UNKNOWN");
    assert_eq!(SPT(9).name(), "UNKNOWN");
}

#[test]
fn summary_lists_five_lines() {
    let mut f = fields();
    f.title = Some("Song A".to_string());
    f.genres = Some(vec!["Rock".to_string(), "Pop".to_string(), "Jazz".to_string()]);
    f.album_artist = Some("Band".to_string());
    let p = SpectreProps::from_tcsp(f);
    assert_eq!(
        p.summary(),
        "Title: Song A\nArtist: Unknown Artist\nAlbum: Unknown Album\nAlbum Artist: Band\nGenres: Rock, Pop, Jazz\n"
    );
    let q = SpectreProps::new();
    assert_eq!(
        q.summary(),
        "Title: Unknown Title\nArtist: Unknown Artist\nAlbum: Unknown Album\nAlbum Artist: \nGenres: \n"
    );
}
