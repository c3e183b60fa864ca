//! What a directory listing reports of one entry.

use vstd::prelude::*;

use crate::files::guess_content_of_path;

verus! {

/// The length of an audio track.
#[derive(Clone, Copy, Debug, PartialEq, Eq)]
pub struct TrackLength {
    /// Whole seconds.
    pub seconds: u64,
    /// The rest, in nanoseconds.
    pub nanoseconds: u32,
}

/// What is known of one entry of a directory. A field that is `None` is
/// left out of the report.
#[derive(Clone, Debug, PartialEq, Eq)]
pub struct FileInfo {
    /// When the entry was created, in seconds since 1970.
    pub created_at: Option<i64>,
    /// The size of a file in kilobytes, rounded to the nearest.
    pub file_size: Option<u64>,
    /// When the entry was last changed, in seconds since 1970.
    pub last_modified: Option<i64>,
    /// The content type that the entry's name suggests.
    pub mime_type: Option<String>,
    /// The entry's path below the directory that was asked for.
    pub name: Option<String>,
    /// `directory` or `file`.
    pub file_type: Option<String>,
    /// The artist of an audio file.
    pub artist: Option<String>,
    /// The album of an audio file.
    pub album: Option<String>,
    /// The number of channels of an audio file.
    pub channels: Option<u8>,
    /// The length of an audio file.
    pub duration: Option<TrackLength>,
    /// The sample rate of an audio file.
    pub sample_rate: Option<u32>,
    /// The title of an audio file.
    pub title: Option<String>,
    /// The track number of an audio file.
    pub track: Option<u32>,
    /// The width of an image in pixels.
    pub width: Option<u32>,
    /// The height of an image in pixels.
    pub height: Option<u32>,
}

/// What the first tag of an audio file says.
#[derive(Clone, Debug, PartialEq, Eq)]
pub struct AudioTag {
    /// The artist.
    pub artist: Option<String>,
    /// The album.
    pub album: Option<String>,
    /// The title.
    pub title: Option<String>,
    /// The track number.
    pub track: Option<u32>,
}

/// The properties of an audio file.
#[derive(Clone, Copy, Debug, PartialEq, Eq)]
pub struct AudioProperties {
    /// The number of channels.
    pub channels: Option<u8>,
    /// The sample rate.
    pub sample_rate: Option<u32>,
    /// The length of the track.
    pub duration: TrackLength,
}

/// Which parts of an entry's information are to be read.
#[derive(Clone, Copy, Debug, PartialEq, Eq)]
pub struct InfoParts {
    /// Times, size, type and content type.
    pub general: bool,
    /// Audio tags and properties.
    pub audio: bool,
    /// Image dimensions.
    pub image: bool,
}

impl FileInfo {
    /// Whether nothing is known yet.
    pub open spec fn is_blank(self) -> bool {
        &&& self.lacks_general()
        &&& self.lacks_media()
    }

    /// Whether none of the general fields, the name among them, is known.
    pub open spec fn lacks_general(self) -> bool {
        &&& self.created_at is None
        &&& self.file_size is None
        &&& self.last_modified is None
        &&& self.mime_type is None
        &&& self.name is None
        &&& self.file_type is None
    }

    /// Whether none of the audio and image fields is known.
    pub open spec fn lacks_media(self) -> bool {
        &&& self.artist is None
        &&& self.album is None
        &&& self.channels is None
        &&& self.duration is None
        &&& self.sample_rate is None
        &&& self.title is None
        &&& self.track is None
        &&& self.width is None
        &&& self.height is None
    }

    /// The information of which nothing is known yet.
    pub fn new() -> (info: FileInfo)
        ensures
            info.is_blank(),
    {
        FileInfo {
            created_at: None,
            file_size: None,
            last_modified: None,
            mime_type: None,
            name: None,
            file_type: None,
            artist: None,
            album: None,
            channels: None,
            duration: None,
            sample_rate: None,
            title: None,
            track: None,
            width: None,
            height: None,
        }
    }

    /// Whether the information has nothing to report. Where general
    /// information was asked for, the general fields count; where it was
    /// not, the audio and image fields do.
    pub fn is_empty(&self, general_info: bool) -> (empty: bool)
        ensures
            empty == if general_info {
                self.lacks_general()
            } else {
                self.lacks_media()
            },
    {
        if general_info {
            return self.created_at.is_none() && self.file_size.is_none()
                && self.last_modified.is_none() && self.mime_type.is_none() && self.name.is_none()
                && self.file_type.is_none();
        }
        self.artist.is_none() && self.album.is_none() && self.channels.is_none()
            && self.duration.is_none() && self.sample_rate.is_none() && self.title.is_none()
            && self.track.is_none() && self.width.is_none() && self.height.is_none()
    }
}

/// A size in bytes as kilobytes of 1024 bytes, rounded to the nearest and
/// up from the half.
pub open spec fn kilobytes_of(bytes: u64) -> int {
    (bytes + 512) / 1024
}

/// Rounds a size in bytes to kilobytes.
pub fn kilobytes(bytes: u64) -> (size: u64)
    ensures
        size == kilobytes_of(bytes),
{
    let whole: u64 = bytes / 1024;
    let rest: u64 = bytes % 1024;
    if rest >= 512 {
        whole + 1
    } else {
        whole
    }
}

/// Enters the general information of an entry: its times and its content
/// type as given, its type by whether it is a directory, and its size
/// only if it is none. The other fields stay.
pub fn enter_general_info(
    file_info: &mut FileInfo,
    created_at: Option<i64>,
    last_modified: Option<i64>,
    is_dir: bool,
    len: u64,
    mime_type: String,
)
    ensures
        final(file_info).created_at == created_at,
        final(file_info).last_modified == last_modified,
        is_dir ==> final(file_info).file_size == old(file_info).file_size,
        !is_dir ==> final(file_info).file_size == Some(kilobytes_of(len) as u64),
        final(file_info).mime_type matches Some(entered) && entered@ == mime_type@,
        final(file_info).file_type matches Some(word) && word@ == if is_dir {
            "directory"@
        } else {
            "file"@
        },
        final(file_info).name == old(file_info).name,
        final(file_info).artist == old(file_info).artist,
        final(file_info).album == old(file_info).album,
        final(file_info).channels == old(file_info).channels,
        final(file_info).duration == old(file_info).duration,
        final(file_info).sample_rate == old(file_info).sample_rate,
        final(file_info).title == old(file_info).title,
        final(file_info).track == old(file_info).track,
        final(file_info).width == old(file_info).width,
        final(file_info).height == old(file_info).height,
{
    file_info.created_at = created_at;
    file_info.last_modified = last_modified;
    if !is_dir {
        file_info.file_size = Some(kilobytes(len));
    }
    file_info.mime_type = Some(mime_type);
    file_info.file_type = Some(
        if is_dir {
            "directory".to_owned()
        } else {
            "file".to_owned()
        },
    );
}

/// Enters the general information of the entry at `path`, as
/// [`enter_general_info`] does, with the content type that the name of
/// the entry suggests. That guess is made by the path rules of the
/// system, so of the content type only its presence is stated.
pub fn set_general_info(
    file_info: &mut FileInfo,
    created_at: Option<i64>,
    last_modified: Option<i64>,
    is_dir: bool,
    len: u64,
    path: &str,
)
    ensures
        final(file_info).created_at == created_at,
        final(file_info).last_modified == last_modified,
        is_dir ==> final(file_info).file_size == old(file_info).file_size,
        !is_dir ==> final(file_info).file_size == Some(kilobytes_of(len) as u64),
        final(file_info).mime_type is Some,
        final(file_info).file_type matches Some(word) && word@ == if is_dir {
            "directory"@
        } else {
            "file"@
        },
        final(file_info).name == old(file_info).name,
        final(file_info).artist == old(file_info).artist,
        final(file_info).album == old(file_info).album,
        final(file_info).channels == old(file_info).channels,
        final(file_info).duration == old(file_info).duration,
        final(file_info).sample_rate == old(file_info).sample_rate,
        final(file_info).title == old(file_info).title,
        final(file_info).track == old(file_info).track,
        final(file_info).width == old(file_info).width,
        final(file_info).height == old(file_info).height,
{
    let guess = guess_content_of_path(path);
    enter_general_info(file_info, created_at, last_modified, is_dir, len, guess.content_type);
}

/// Enters the dimensions of an image. The other fields stay.
pub fn set_image_info(file_info: &mut FileInfo, width: u32, height: u32)
    ensures
        *final(file_info) == (FileInfo { width: Some(width), height: Some(height), ..*old(file_info) }),
{
    file_info.width = Some(width);
    file_info.height = Some(height);
}

/// Enters what an audio file says of itself. The artist, album, title
/// and track are those of `tag` if the file has a tag, and stay as they
/// were if it has none; the channels, the sample rate and the length are
/// those of `properties`. The other fields stay.
pub fn set_audio_info(file_info: &mut FileInfo, tag: Option<AudioTag>, properties: AudioProperties)
    ensures
        tag matches Some(found) ==> {
            &&& final(file_info).artist == found.artist
            &&& final(file_info).album == found.album
            &&& final(file_info).title == found.title
            &&& final(file_info).track == found.track
        },
        tag is None ==> {
            &&& final(file_info).artist == old(file_info).artist
            &&& final(file_info).album == old(file_info).album
            &&& final(file_info).title == old(file_info).title
            &&& final(file_info).track == old(file_info).track
        },
        final(file_info).channels == properties.channels,
        final(file_info).sample_rate == properties.sample_rate,
        final(file_info).duration == Some(properties.duration),
        final(file_info).created_at == old(file_info).created_at,
        final(file_info).file_size == old(file_info).file_size,
        final(file_info).last_modified == old(file_info).last_modified,
        final(file_info).mime_type == old(file_info).mime_type,
        final(file_info).name == old(file_info).name,
        final(file_info).file_type == old(file_info).file_type,
        final(file_info).width == old(file_info).width,
        final(file_info).height == old(file_info).height,
{
    match tag {
        Some(found) => {
            file_info.artist = found.artist;
            file_info.album = found.album;
            file_info.title = found.title;
            file_info.track = found.track;
        },
        None => {},
    }
    file_info.channels = properties.channels;
    file_info.sample_rate = properties.sample_rate;
    file_info.duration = Some(properties.duration);
}

/// Which parts of an entry's information are to be read: the general
/// part where it is asked for, and the audio and image parts where they
/// are asked for and the entry is a file.
pub fn parts_to_read(general_info: bool, audio_info: bool, image_info: bool, is_file: bool) -> (parts:
    InfoParts)
    ensures
        parts == (InfoParts {
            general: general_info,
            audio: audio_info && is_file,
            image: image_info && is_file,
        }),
{
    InfoParts { general: general_info, audio: audio_info && is_file, image: image_info && is_file }
}

} // verus!
