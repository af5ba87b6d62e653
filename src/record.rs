use vstd::prelude::*;

verus! {

/// Cover art: the encoded image bytes and the MIME type found from their content.
#[derive(Clone, Debug, PartialEq, Eq)]
pub struct Picture {
    pub mime_type: String,
    pub data: Vec<u8>,
}

pub struct PictureView {
    pub mime_type: Seq<char>,
    pub data: Seq<u8>,
}

impl View for Picture {
    type V = PictureView;

    open spec fn view(&self) -> PictureView {
        PictureView { mime_type: self.mime_type@, data: self.data@ }
    }
}

/// The album a track belongs to.
#[derive(Clone, Debug, PartialEq, Eq)]
pub struct AlbumInfo {
    pub title: Option<String>,
    pub cover: Option<Picture>,
}

pub struct AlbumView {
    pub title: Option<Seq<char>>,
    pub cover: Option<PictureView>,
}

pub open spec fn opt_string_view(s: Option<String>) -> Option<Seq<char>> {
    match s {
        Some(s) => Some(s@),
        None => None,
    }
}

pub open spec fn opt_picture_view(p: Option<Picture>) -> Option<PictureView> {
    match p {
        Some(p) => Some(p@),
        None => None,
    }
}

impl View for AlbumInfo {
    type V = AlbumView;

    open spec fn view(&self) -> AlbumView {
        AlbumView { title: opt_string_view(self.title), cover: opt_picture_view(self.cover) }
    }
}

impl AlbumInfo {
    /// A fresh album record with nothing set.
    pub fn new() -> (r: AlbumInfo)
        ensures
            r@ == AlbumView::empty(),
    {
        AlbumInfo { title: None, cover: None }
    }
}

impl AlbumView {
    pub open spec fn empty() -> AlbumView {
        AlbumView { title: None, cover: None }
    }
}

pub open spec fn opt_album_view(a: Option<AlbumInfo>) -> Option<AlbumView> {
    match a {
        Some(a) => Some(a@),
        None => None,
    }
}

/// A release date: each part may be absent, but a month or a day never
/// stands without a year.
#[derive(Clone, Copy, Debug, PartialEq, Eq, Structural)]
pub struct Timestamp {
    pub year: Option<i32>,
    pub month: Option<u8>,
    pub day: Option<u8>,
}

pub open spec fn nonzero(v: Option<u8>) -> Option<u8> {
    match v {
        Some(x) => if x == 0 {
            None
        } else {
            Some(x)
        },
        None => None,
    }
}

impl Timestamp {
    pub open spec fn wf(&self) -> bool {
        self.year.is_none() ==> self.month.is_none() && self.day.is_none()
    }

    pub open spec fn spec_absent() -> Timestamp {
        Timestamp { year: None, month: None, day: None }
    }

    /// The date with no part present.
    #[verifier::when_used_as_spec(spec_absent)]
    pub fn absent() -> (r: Timestamp)
        ensures
            r == Timestamp::spec_absent(),
    {
        Timestamp { year: None, month: None, day: None }
    }

    /// The date that a stored year, month and day stand for. Storage writes
    /// zero for a part that is not there; a date without a year is absent as
    /// a whole.
    pub open spec fn spec_from_stored(year: i32, month: Option<u8>, day: Option<u8>) -> Timestamp {
        if year == 0 {
            Timestamp::spec_absent()
        } else {
            Timestamp { year: Some(year), month: nonzero(month), day: nonzero(day) }
        }
    }

    /// Reads a stored year, month and day into a date; see `spec_from_stored`.
    pub fn from_stored(year: i32, month: Option<u8>, day: Option<u8>) -> (r: Timestamp)
        ensures
            r == Timestamp::spec_from_stored(year, month, day),
            r.wf(),
    {
        if year == 0 {
            Timestamp::absent()
        } else {
            let month = match month {
                Some(0) => None,
                m => m,
            };
            let day = match day {
                Some(0) => None,
                d => d,
            };
            Timestamp { year: Some(year), month, day }
        }
    }

    /// The year, month and day to store for this date, or `None` when the
    /// date is to be removed.
    pub fn stored(&self) -> (r: Option<(i32, Option<u8>, Option<u8>)>)
        requires
            self.wf(),
        ensures
            r == (match self.year {
                Some(y) => Some((y, self.month, self.day)),
                None => None::<(i32, Option<u8>, Option<u8>)>,
            }),
    {
        match self.year {
            Some(y) => Some((y, self.month, self.day)),
            None => None,
        }
    }

    /// Whether no part of the date is present.
    pub fn is_absent(&self) -> (r: bool)
        ensures
            r == (*self == Timestamp::spec_absent()),
    {
        self.year.is_none() && self.month.is_none() && self.day.is_none()
    }
}

/// The tag data of one audio file. An absent field is one the file does not
/// hold, which is not the same as a field holding the empty string.
#[derive(Clone, Debug, PartialEq, Eq)]
pub struct TagRecord {
    pub title: Option<String>,
    pub artist: Option<String>,
    pub album: Option<AlbumInfo>,
    pub release_date: Timestamp,
}

pub struct TagRecordView {
    pub title: Option<Seq<char>>,
    pub artist: Option<Seq<char>>,
    pub album: Option<AlbumView>,
    pub release_date: Timestamp,
}

impl View for TagRecord {
    type V = TagRecordView;

    open spec fn view(&self) -> TagRecordView {
        TagRecordView {
            title: opt_string_view(self.title),
            artist: opt_string_view(self.artist),
            album: opt_album_view(self.album),
            release_date: self.release_date,
        }
    }
}

impl TagRecordView {
    pub open spec fn wf(&self) -> bool {
        self.release_date.wf()
    }

    pub open spec fn empty() -> TagRecordView {
        TagRecordView {
            title: None,
            artist: None,
            album: None,
            release_date: Timestamp::spec_absent(),
        }
    }
}

impl TagRecord {
    pub open spec fn wf(&self) -> bool {
        self@.wf()
    }

    /// The record of a file whose tag container is missing or unreadable:
    /// every field absent.
    pub fn empty() -> (r: TagRecord)
        ensures
            r@ == TagRecordView::empty(),
            r.wf(),
    {
        TagRecord { title: None, artist: None, album: None, release_date: Timestamp::absent() }
    }
}

/// A well-formed date with no part equal to zero comes back unchanged from
/// being stored and read again; an absent date is stored as no date.
pub proof fn lemma_stored_date_round_trip(t: Timestamp)
    requires
        t.wf(),
        t.year != Some(0i32),
        t.month != Some(0u8),
        t.day != Some(0u8),
    ensures
        t.year is None ==> t == Timestamp::spec_absent(),
        t.year matches Some(y) ==> Timestamp::spec_from_stored(y, t.month, t.day) == t,
{
}

/// Why a transaction on a file's tag data stopped.
#[derive(Clone, Debug, PartialEq, Eq)]
pub enum TagError {
    /// The file could not be opened or read.
    Unreadable(String),
    /// A month or a day was given without a year.
    MissingYear,
    /// The merged record could not be written back.
    Encoding(String),
    /// The chosen file name has no form in the system's path encoding.
    UnrepresentablePath,
}

impl TagError {
    /// The message shown to the user for this error.
    pub fn message(&self) -> (r: String)
        ensures
            self matches TagError::Unreadable(c) ==> r@ == c@,
            self matches TagError::Encoding(c) ==> r@ == c@,
    {
        match self {
            TagError::Unreadable(cause) => cause.clone(),
            TagError::MissingYear => String::from_str("Please enter a year!"),
            TagError::Encoding(cause) => cause.clone(),
            TagError::UnrepresentablePath => String::from_str("File name is not valid in this system's encoding"),
        }
    }
}

} // verus!
