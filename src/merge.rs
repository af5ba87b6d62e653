use vstd::prelude::*;

use crate::decimal::{i32_of, parse_i32, parse_u8, u8_of};
use crate::record::{
    opt_album_view, opt_picture_view, opt_string_view, AlbumInfo, AlbumView, PictureView,
    TagError, TagRecord, TagRecordView, Timestamp,
};

verus! {

/// What the user asks to change, as the edit form hands it over. An empty
/// text field asks for no change; `cover` holds new cover art, if any.
#[derive(Clone, Debug)]
pub struct Edits {
    pub title: String,
    pub artist: String,
    pub album_title: String,
    pub cover: Option<crate::record::Picture>,
    pub year: String,
    pub month: String,
    pub day: String,
}

pub struct EditsView {
    pub title: Seq<char>,
    pub artist: Seq<char>,
    pub album_title: Seq<char>,
    pub cover: Option<PictureView>,
    pub year: Seq<char>,
    pub month: Seq<char>,
    pub day: Seq<char>,
}

impl View for Edits {
    type V = EditsView;

    open spec fn view(&self) -> EditsView {
        EditsView {
            title: self.title@,
            artist: self.artist@,
            album_title: self.album_title@,
            cover: opt_picture_view(self.cover),
            year: self.year@,
            month: self.month@,
            day: self.day@,
        }
    }
}

impl EditsView {
    /// The edit set that changes nothing it names: every field left empty.
    pub open spec fn none() -> EditsView {
        EditsView {
            title: Seq::empty(),
            artist: Seq::empty(),
            album_title: Seq::empty(),
            cover: None,
            year: Seq::empty(),
            month: Seq::empty(),
            day: Seq::empty(),
        }
    }
}

impl Edits {
    /// An edit set with every field empty.
    pub fn none() -> (r: Edits)
        ensures
            r@ == EditsView::none(),
    {
        Edits {
            title: String::new(),
            artist: String::new(),
            album_title: String::new(),
            cover: None,
            year: String::new(),
            month: String::new(),
            day: String::new(),
        }
    }
}

/// A text edit applied to an optional field: empty keeps the old value.
pub open spec fn keep_or_set(old: Option<Seq<char>>, edit: Seq<char>) -> Option<Seq<char>> {
    if edit.len() == 0 {
        old
    } else {
        Some(edit)
    }
}

/// The album record after the edits: untouched when neither its title nor
/// its cover is edited; otherwise the existing record, or a fresh one, with
/// just the edited parts replaced.
pub open spec fn album_after(
    old: Option<AlbumView>,
    title: Seq<char>,
    cover: Option<PictureView>,
) -> Option<AlbumView> {
    if title.len() == 0 && cover.is_none() {
        old
    } else {
        let base = match old {
            Some(a) => a,
            None => AlbumView::empty(),
        };
        Some(
            AlbumView {
                title: keep_or_set(base.title, title),
                cover: if cover.is_some() {
                    cover
                } else {
                    base.cover
                },
            },
        )
    }
}

/// The release date the three date fields give. A year that parses sets
/// the date, with each of month and day kept where it parses; with no year,
/// a month or a day is refused; all three empty clear the date.
pub open spec fn date_after(year: Seq<char>, month: Seq<char>, day: Seq<char>) -> Result<
    Timestamp,
    TagError,
> {
    match i32_of(year) {
        Some(y) => Ok(Timestamp { year: Some(y), month: u8_of(month), day: u8_of(day) }),
        None => if month.len() > 0 || day.len() > 0 {
            Err(TagError::MissingYear)
        } else {
            Ok(Timestamp::spec_absent())
        },
    }
}

/// The record after the edits, or the error that stops them.
pub open spec fn merged(r: TagRecordView, e: EditsView) -> Result<TagRecordView, TagError> {
    match date_after(e.year, e.month, e.day) {
        Ok(d) => Ok(
            TagRecordView {
                title: keep_or_set(r.title, e.title),
                artist: keep_or_set(r.artist, e.artist),
                album: album_after(r.album, e.album_title, e.cover),
                release_date: d,
            },
        ),
        Err(err) => Err(err),
    }
}

/// Reads the three date fields into a release date. Fails with
/// `MissingYear` when the year does not parse and a month or day is given.
pub fn merge_date(year: &str, month: &str, day: &str) -> (r: Result<Timestamp, TagError>)
    ensures
        r == date_after(year@, month@, day@),
        r matches Ok(t) ==> t.wf(),
{
    match parse_i32(year) {
        Some(y) => Ok(Timestamp { year: Some(y), month: parse_u8(month), day: parse_u8(day) }),
        None => {
            if !month.is_empty() || !day.is_empty() {
                Err(TagError::MissingYear)
            } else {
                Ok(Timestamp::absent())
            }
        },
    }
}

fn apply_text(old: Option<String>, edit: String) -> (r: Option<String>)
    ensures
        opt_string_view(r) == keep_or_set(opt_string_view(old), edit@),
{
    if edit.as_str().is_empty() {
        old
    } else {
        Some(edit)
    }
}

/// Applies an edit set to a record. Each text field left empty keeps what
/// the record holds; new cover art replaces the old picture whole; the date
/// follows `merge_date`. On error nothing is applied.
pub fn merge(record: TagRecord, edits: Edits) -> (r: Result<TagRecord, TagError>)
    ensures
        match (r, merged(record@, edits@)) {
            (Ok(out), Ok(v)) => out@ == v,
            (Err(e), Err(f)) => e == f,
            _ => false,
        },
        r matches Ok(out) ==> out.wf(),
{
    let release_date = match merge_date(edits.year.as_str(), edits.month.as_str(), edits.day.as_str()) {
        Ok(d) => d,
        Err(e) => return Err(e),
    };
    let TagRecord { title, artist, album, release_date: _ } = record;
    let Edits { title: title_edit, artist: artist_edit, album_title, cover, .. } = edits;
    let title = apply_text(title, title_edit);
    let artist = apply_text(artist, artist_edit);
    let album = if album_title.as_str().is_empty() && cover.is_none() {
        album
    } else {
        let base = match album {
            Some(a) => a,
            None => AlbumInfo::new(),
        };
        let AlbumInfo { title: old_title, cover: old_cover } = base;
        let new_cover = if cover.is_some() {
            cover
        } else {
            old_cover
        };
        Some(AlbumInfo { title: apply_text(old_title, album_title), cover: new_cover })
    };
    let out = TagRecord { title, artist, album, release_date };
    assert(opt_album_view(out.album) == album_after(record@.album, edits@.album_title, edits@.cover));
    Ok(out)
}

pub open spec fn album_title_of(a: Option<AlbumView>) -> Option<Seq<char>> {
    match a {
        Some(a) => a.title,
        None => None,
    }
}

pub open spec fn album_cover_of(a: Option<AlbumView>) -> Option<PictureView> {
    match a {
        Some(a) => a.cover,
        None => None,
    }
}

/// Merging an edit set with every field empty changes nothing but the
/// date, which empty date fields clear; so a record without a date comes
/// back exactly as it was.
pub proof fn lemma_no_edits(r: TagRecordView)
    ensures
        merged(r, EditsView::none()) == Ok::<TagRecordView, TagError>(
            TagRecordView { release_date: Timestamp::spec_absent(), ..r },
        ),
        r.release_date == Timestamp::spec_absent() ==> merged(r, EditsView::none()) == Ok::<
            TagRecordView,
            TagError,
        >(r),
{
    assert(i32_of(Seq::<char>::empty()) is None);
}

/// A field that the edit set leaves empty keeps its value through a merge:
/// title, artist, album title and cover each on their own, and the whole
/// album record when neither of its parts is edited.
pub proof fn lemma_untouched_fields_kept(r: TagRecordView, e: EditsView)
    requires
        merged(r, e) is Ok,
    ensures
        ({
            let out = merged(r, e)->Ok_0;
            &&& e.title.len() == 0 ==> out.title == r.title
            &&& e.artist.len() == 0 ==> out.artist == r.artist
            &&& e.album_title.len() == 0 ==> album_title_of(out.album) == album_title_of(r.album)
            &&& e.cover is None ==> album_cover_of(out.album) == album_cover_of(r.album)
            &&& e.album_title.len() == 0 && e.cover is None ==> out.album == r.album
        }),
{
}

/// Merging the same edit set a second time changes nothing more.
pub proof fn lemma_merge_idempotent(r: TagRecordView, e: EditsView)
    requires
        merged(r, e) is Ok,
    ensures
        merged(merged(r, e)->Ok_0, e) == merged(r, e),
{
}

} // verus!
