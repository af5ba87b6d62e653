use crabtagger::{ingest, merge, merge_date, AlbumInfo, Edits, Picture, TagError, TagRecord, Timestamp};

fn record(title: Option<&str>, artist: Option<&str>) -> TagRecord {
    TagRecord {
        title: title.map(String::from),
        artist: artist.map(String::from),
        album: None,
        release_date: Timestamp::absent(),
    }
}

fn edits() -> Edits {
    Edits::none()
}

fn png_bytes() -> Vec<u8> {
    vec![0x89, b'P', b'N', b'G', 0x0D, 0x0A, 0x1A, 0x0A, 0, 0, 0, 13, b'I', b'H', b'D', b'R']
}

#[test]
fn empty_title_keeps_old_and_artist_is_set() {
    let r = record(Some("Old"), None);
    let mut e = edits();
    e.artist = String::from("New");
    let out = merge(r, e).unwrap();
    assert_eq!(out.title.as_deref(), Some("Old"));
    assert_eq!(out.artist.as_deref(), Some("New"));
}

#[test]
fn album_title_on_record_without_album() {
    let r = record(None, None);
    let mut e = edits();
    e.album_title = String::from("Greatest Hits");
    let out = merge(r, e).unwrap();
    assert_eq!(
        out.album,
        Some(AlbumInfo { title: Some(String::from("Greatest Hits")), cover: None })
    );
}

#[test]
fn month_without_year_is_refused() {
    assert_eq!(merge_date("", "5", ""), Err(TagError::MissingYear));
    assert_eq!(merge_date("", "", "17"), Err(TagError::MissingYear));
    let mut e = edits();
    e.month = String::from("5");
    assert_eq!(merge(record(Some("A"), None), e), Err(TagError::MissingYear));
}

#[test]
fn year_alone_sets_year() {
    assert_eq!(
        merge_date("2020", "", ""),
        Ok(Timestamp { year: Some(2020), month: None, day: None })
    );
}

#[test]
fn all_date_fields_empty_clear_the_date() {
    assert_eq!(merge_date("", "", ""), Ok(Timestamp::absent()));
    let mut r = record(Some("A"), None);
    r.release_date = Timestamp { year: Some(1999), month: Some(3), day: None };
    let out = merge(r, edits()).unwrap();
    assert!(out.release_date.is_absent());
}

#[test]
fn full_date_and_unparsable_parts() {
    assert_eq!(
        merge_date("2021", "07", "31"),
        Ok(Timestamp { year: Some(2021), month: Some(7), day: Some(31) })
    );
    assert_eq!(
        merge_date("2021", "x", "300"),
        Ok(Timestamp { year: Some(2021), month: None, day: None })
    );
    assert_eq!(merge_date("abc", "", ""), Ok(Timestamp::absent()));
}

#[test]
fn no_edits_leave_undated_record_unchanged() {
    let r = TagRecord {
        title: Some(String::from("T")),
        artist: Some(String::from("A")),
        album: Some(AlbumInfo {
            title: Some(String::from("Alb")),
            cover: Some(Picture { mime_type: String::from("image/png"), data: vec![1, 2, 3] }),
        }),
        release_date: Timestamp::absent(),
    };
    let out = merge(r.clone(), edits()).unwrap();
    assert_eq!(out, r);
}

#[test]
fn untouched_fields_are_preserved() {
    let r = TagRecord {
        title: Some(String::from("T")),
        artist: Some(String::from("A")),
        album: Some(AlbumInfo { title: Some(String::from("Alb")), cover: None }),
        release_date: Timestamp::absent(),
    };
    let mut e = edits();
    e.title = String::from("T2");
    e.year = String::from("1990");
    let out = merge(r, e).unwrap();
    assert_eq!(out.title.as_deref(), Some("T2"));
    assert_eq!(out.artist.as_deref(), Some("A"));
    assert_eq!(out.album, Some(AlbumInfo { title: Some(String::from("Alb")), cover: None }));
    assert_eq!(out.release_date.year, Some(1990));
}

#[test]
fn new_cover_replaces_picture_and_keeps_album_title() {
    let r = TagRecord {
        title: None,
        artist: None,
        album: Some(AlbumInfo {
            title: Some(String::from("Alb")),
            cover: Some(Picture { mime_type: String::from("image/bmp"), data: vec![9] }),
        }),
        release_date: Timestamp::absent(),
    };
    let mut e = edits();
    e.cover = Some(ingest(png_bytes()));
    let out = merge(r, e).unwrap();
    let album = out.album.unwrap();
    assert_eq!(album.title.as_deref(), Some("Alb"));
    let cover = album.cover.unwrap();
    assert_eq!(cover.mime_type, "image/png");
    assert_eq!(cover.data, png_bytes());
}

#[test]
fn cover_on_record_without_album_creates_album() {
    let mut e = edits();
    e.cover = Some(Picture { mime_type: String::from("image/jpeg"), data: vec![0xFF, 0xD8] });
    let out = merge(record(None, None), e).unwrap();
    let album = out.album.unwrap();
    assert_eq!(album.title, None);
    assert_eq!(album.cover.unwrap().data, vec![0xFF, 0xD8]);
}

#[test]
fn merging_twice_changes_nothing_more() {
    let mut e = edits();
    e.title = String::from("X");
    e.album_title = String::from("Y");
    e.year = String::from("2001");
    e.day = String::from("4");
    let once = merge(record(Some("Old"), Some("Art")), e.clone()).unwrap();
    let twice = merge(once.clone(), e).unwrap();
    assert_eq!(once, twice);
}

#[test]
fn error_messages() {
    assert_eq!(TagError::MissingYear.message(), "Please enter a year!");
    assert_eq!(TagError::Encoding(String::from("disk full")).message(), "disk full");
    assert_eq!(TagError::Unreadable(String::from("no such file")).message(), "no such file");
    assert!(!TagError::UnrepresentablePath.message().is_empty());
}
