//! Capture media: one PNG (screenshot) or MP4 (recording) per capture,
//! named `<capture id>.<extension>`, in the app's captures directory.
//!
//! The directory itself is reached through `MediaFiles`, which describes
//! its contents as a map from file name to bytes; `MediaStorage` holds
//! the naming rules, the id check that keeps file names inside the
//! directory, and the sweep that removes media no capture refers to.

pub mod memory;

use crate::errors::{is_validation, AppError};
use crate::ids::{uuid_parses, uuid_text_accepted};
use crate::text::{chars_of, string_from_chars};
use vstd::prelude::*;

verus! {

/// The name of the captures directory inside the app's data directory.
pub const CAPTURES_SUBDIR: &'static str = "captures";

/// The extension of screenshot media.
pub const PNG_EXTENSION: &'static str = "png";

/// The extension of recording media.
pub const MP4_EXTENSION: &'static str = "mp4";

/// The message of a capture id that is not a UUID.
pub open spec fn invalid_id_message() -> Seq<char> {
    "Invalid capture id."@
}

/// The file name of a capture's media with extension `ext`.
pub open spec fn media_file_name(id: Seq<char>, ext: Seq<char>) -> Seq<char> {
    id + "."@ + ext
}

/// The screenshot file of capture `id`.
pub open spec fn png_name(id: Seq<char>) -> Seq<char> {
    media_file_name(id, "png"@)
}

/// The recording file of capture `id`.
pub open spec fn mp4_name(id: Seq<char>) -> Seq<char> {
    media_file_name(id, "mp4"@)
}

/// The position of the last `.` in `s`, or -1 when there is none.
pub open spec fn last_dot(s: Seq<char>) -> int
    decreases s.len(),
{
    if s.len() == 0 {
        -1
    } else if s.last() == '.' {
        s.len() - 1
    } else {
        last_dot(s.drop_last())
    }
}

/// The capture id a media file belongs to: the text before the last dot,
/// when the text after it is `png` or `mp4` and the dot is not the first
/// character (a leading dot marks a hidden file, not an extension).
pub open spec fn media_stem(name: Seq<char>) -> Option<Seq<char>> {
    let i = last_dot(name);
    let ext = name.subrange(i + 1, name.len() as int);
    if i > 0 && (ext == "png"@ || ext == "mp4"@) {
        Some(name.subrange(0, i))
    } else {
        None
    }
}

/// The texts of `v`.
pub open spec fn texts(v: Seq<String>) -> Seq<Seq<char>> {
    v.map_values(|s: String| s@)
}

/// A media file whose capture is not among `known`.
pub open spec fn is_orphan(name: Seq<char>, known: Set<Seq<char>>) -> bool {
    media_stem(name) matches Some(id) && !known.contains(id)
}

/// `last_dot` is `k` when `k` is a dot (or -1) and nothing after it is.
proof fn lemma_last_dot(s: Seq<char>, k: int)
    requires
        -1 <= k < s.len(),
        k >= 0 ==> s[k] == '.',
        forall|j: int| k < j < s.len() ==> s[j] != '.',
    ensures
        last_dot(s) == k,
    decreases s.len(),
{
    if s.len() > 0 && k < s.len() - 1 {
        lemma_last_dot(s.drop_last(), k);
    }
}

/// Neither a path separator nor a dot.
pub open spec fn is_plain_name_char(c: char) -> bool {
    c != '.' && c != '/' && c != '\\'
}

/// No text that parses as a UUID holds a dot or a path separator.
proof fn lemma_uuid_is_plain(id: Seq<char>)
    requires
        uuid_text_accepted(id),
    ensures
        forall|j: int| 0 <= j < id.len() ==> is_plain_name_char(#[trigger] id[j]),
{
    reveal_strlit("urn:uuid:");
    if id.len() == 45 && !crate::ids::is_hyphenated(id) && !crate::ids::is_simple(id) {
        let prefix = id.subrange(0, 9).map_values(|c: char| crate::ids::ascii_lower(c));
        assert forall|j: int| 0 <= j < 9 implies is_plain_name_char(#[trigger] id[j]) by {
            assert(prefix[j] == crate::ids::ascii_lower(id[j]));
        }
        assert forall|j: int| 9 <= j < 45 implies is_plain_name_char(#[trigger] id[j]) by {
            assert(id.subrange(9, 45)[j - 9] == id[j]);
        }
    }
    if id.len() == 38 && id[0] == '{' {
        assert forall|j: int| 1 <= j < 37 implies is_plain_name_char(#[trigger] id[j]) by {
            assert(id.subrange(1, 37)[j - 1] == id[j]);
        }
    }
}

/// Media stays inside its directory: the file name of a capture whose
/// id is a UUID holds no path separator, and is longer than `.` or `..`.
pub proof fn lemma_media_name_stays_inside(id: Seq<char>, ext: Seq<char>)
    requires
        uuid_text_accepted(id),
        ext == "png"@ || ext == "mp4"@,
    ensures
        forall|j: int|
            0 <= j < media_file_name(id, ext).len() ==> #[trigger] media_file_name(id, ext)[j]
                != '/' && media_file_name(id, ext)[j] != '\\',
        media_file_name(id, ext).len() > 2,
{
    reveal_strlit("png");
    reveal_strlit("mp4");
    reveal_strlit(".");
    lemma_uuid_is_plain(id);
    let name = media_file_name(id, ext);
    assert forall|j: int| 0 <= j < name.len() implies #[trigger] name[j] != '/' && name[j] != '\\' by {
        if j < id.len() {
            assert(name[j] == id[j]);
        } else if j > id.len() {
            assert(name[j] == ext[j - id.len() - 1]);
        }
    }
}

/// The media file of a capture names that capture: for an id that is a
/// UUID, the stem of its screenshot or recording file name is the id.
pub proof fn lemma_media_name_stem(id: Seq<char>, ext: Seq<char>)
    requires
        uuid_text_accepted(id),
        ext == "png"@ || ext == "mp4"@,
    ensures
        media_stem(media_file_name(id, ext)) == Some(id),
{
    reveal_strlit("png");
    reveal_strlit("mp4");
    reveal_strlit(".");
    lemma_uuid_is_plain(id);
    let name = media_file_name(id, ext);
    assert(name.len() == id.len() + 1 + 3);
    assert(name[id.len() as int] == '.');
    assert forall|j: int| id.len() < j < name.len() implies name[j] != '.' by {
        assert(name[j] == ext[j - id.len() - 1]);
    }
    lemma_last_dot(name, id.len() as int);
    assert(name.subrange(id.len() + 1 as int, name.len() as int) =~= ext);
    assert(name.subrange(0, id.len() as int) =~= id);
}

/// The media of a known capture is never swept: neither its screenshot
/// nor its recording file is an orphan while its id is known.
pub proof fn lemma_known_media_is_kept(id: Seq<char>, known: Set<Seq<char>>)
    requires
        uuid_text_accepted(id),
        known.contains(id),
    ensures
        !is_orphan(png_name(id), known),
        !is_orphan(mp4_name(id), known),
{
    lemma_media_name_stem(id, "png"@);
    lemma_media_name_stem(id, "mp4"@);
}

/// The position of the last `.` in `chars`.
fn find_last_dot(chars: &Vec<char>) -> (r: Option<usize>)
    ensures
        match r {
            Some(i) => i < chars@.len() && last_dot(chars@) == i,
            None => last_dot(chars@) == -1,
        },
{
    let mut i = chars.len();
    while i > 0
        invariant
            i <= chars@.len(),
            forall|j: int| i <= j < chars@.len() ==> chars@[j] != '.',
        decreases i,
    {
        if chars[i - 1] == '.' {
            proof {
                lemma_last_dot(chars@, i - 1);
            }
            return Some(i - 1);
        }
        i = i - 1;
    }
    proof {
        lemma_last_dot(chars@, -1);
    }
    None
}

/// The capture id media file `name` belongs to: its stem
/// (`Path::file_stem`) when its extension (`Path::extension`) is `png`
/// or `mp4`.
pub fn media_stem_of(name: &str) -> (r: Option<String>)
    ensures
        match r {
            Some(id) => media_stem(name@) == Some(id@),
            None => media_stem(name@) is None,
        },
{
    let chars = chars_of(name);
    match find_last_dot(&chars) {
        None => None,
        Some(i) => {
            if i == 0 {
                return None;
            }
            let ext = string_from_chars(&chars, i + 1, chars.len());
            let png = String::from_str(PNG_EXTENSION);
            let mp4 = String::from_str(MP4_EXTENSION);
            if ext == png || ext == mp4 {
                Some(string_from_chars(&chars, 0, i))
            } else {
                None
            }
        },
    }
}

/// Whether `id` is one of `ids`.
fn contains_text(ids: &Vec<String>, id: &String) -> (r: bool)
    ensures
        r == texts(ids@).contains(id@),
{
    let mut i: usize = 0;
    while i < ids.len()
        invariant
            i <= ids@.len(),
            forall|j: int| 0 <= j < i ==> ids@[j]@ != id@,
        decreases ids@.len() - i,
    {
        if ids[i] == *id {
            assert(texts(ids@)[i as int] == id@);
            return true;
        }
        i = i + 1;
    }
    assert forall|j: int| 0 <= j < texts(ids@).len() implies texts(ids@)[j] != id@ by {
        assert(texts(ids@)[j] == ids@[j]@);
    }
    false
}

/// The contents of the captures directory.
pub trait MediaFiles {
    /// The files of the directory: file name to contents.
    spec fn files(&self) -> Map<Seq<char>, Seq<u8>>;

    /// Whether every operation on the directory succeeds.
    spec fn reliable(&self) -> bool;

    /// Writes `bytes` as file `name`, replacing any file of that name.
    /// A failed write leaves every other file as it was.
    fn write(&mut self, name: &str, bytes: &[u8]) -> (r: Result<(), AppError>)
        ensures
            match r {
                Ok(_) => final(self).files() == old(self).files().insert(name@, bytes@),
                Err(e) => e is Storage && final(self).files().remove(name@) == old(self).files().remove(
                    name@,
                ),
            },
            final(self).reliable() == old(self).reliable(),
            old(self).reliable() ==> r is Ok,
    ;

    /// The contents of file `name`; `None` when there is no such file.
    fn read(&self, name: &str) -> (r: Result<Option<Vec<u8>>, AppError>)
        ensures
            match r {
                Ok(Some(b)) => self.files().contains_key(name@) && self.files()[name@] == b@,
                Ok(None) => !self.files().contains_key(name@),
                Err(e) => e is Storage,
            },
            self.reliable() ==> r is Ok,
    ;

    /// Whether file `name` exists.
    fn contains(&self, name: &str) -> (r: bool)
        ensures
            r == self.files().contains_key(name@),
    ;

    /// Removes file `name`; whether there was one.
    fn remove(&mut self, name: &str) -> (r: Result<bool, AppError>)
        ensures
            match r {
                Ok(b) => b == old(self).files().contains_key(name@) && final(self).files() == old(self).files().remove(name@),
                Err(e) => e is Storage && final(self).files() == old(self).files(),
            },
            final(self).reliable() == old(self).reliable(),
            old(self).reliable() ==> r is Ok,
    ;

    /// Whether the directory can be listed.
    spec fn listable(&self) -> bool;

    /// The names of the files; a missing directory has none.
    fn names(&self) -> (r: Result<Vec<String>, AppError>)
        ensures
            r is Ok <==> self.listable(),
            match r {
                Ok(v) => texts(v@).to_set() == self.files().dom(),
                Err(e) => e is Storage,
            },
            self.reliable() ==> r is Ok,
    ;
}

/// The media of captures, kept in a `MediaFiles` directory.
pub struct MediaStorage<F: MediaFiles> {
    files: F,
}

impl<F: MediaFiles> MediaStorage<F> {
    /// The media files, by name.
    pub closed spec fn files(&self) -> Map<Seq<char>, Seq<u8>> {
        self.files.files()
    }

    /// Whether every operation on the directory succeeds.
    pub closed spec fn reliable(&self) -> bool {
        self.files.reliable()
    }

    /// Whether the directory can be listed.
    pub closed spec fn listable(&self) -> bool {
        self.files.listable()
    }

    pub fn new(files: F) -> (s: Self)
        ensures
            s.files() == files.files(),
            s.reliable() == files.reliable(),
            s.listable() == files.listable(),
    {
        MediaStorage { files }
    }

    /// The directory holding the media.
    pub fn directory(&self) -> (r: &F)
        ensures
            r.files() == self.files(),
            r.reliable() == self.reliable(),
    {
        &self.files
    }

    /// The directory holding the media, to change it directly.
    pub fn directory_mut(&mut self) -> (r: &mut F)
        ensures
            r.files() == old(self).files(),
            r.reliable() == old(self).reliable(),
            final(self).files() == final(r).files(),
            final(self).reliable() == final(r).reliable(),
    {
        &mut self.files
    }

    /// The file name of capture `capture_id`'s media with `extension`;
    /// refused unless the id is a UUID, so that no name can reach outside
    /// the directory.
    fn path_for_extension(capture_id: &str, extension: &str) -> (r: Result<String, AppError>)
        ensures
            match r {
                Ok(n) => uuid_text_accepted(capture_id@) && n@ == media_file_name(
                    capture_id@,
                    extension@,
                ),
                Err(e) => !uuid_text_accepted(capture_id@) && is_validation(
                    e,
                    invalid_id_message(),
                ),
            },
    {
        if !uuid_parses(capture_id) {
            return Err(AppError::validation("Invalid capture id."));
        }
        let mut name = String::from_str(capture_id);
        name.append(".");
        name.append(extension);
        Ok(name)
    }

    /// The screenshot file name of capture `capture_id`.
    fn path_for(capture_id: &str) -> (r: Result<String, AppError>)
        ensures
            match r {
                Ok(n) => uuid_text_accepted(capture_id@) && n@ == png_name(capture_id@),
                Err(e) => !uuid_text_accepted(capture_id@) && is_validation(
                    e,
                    invalid_id_message(),
                ),
            },
    {
        Self::path_for_extension(capture_id, PNG_EXTENSION)
    }

    /// The screenshot file name of capture `capture_id`.
    pub fn screenshot_path(&self, capture_id: &str) -> (r: Result<String, AppError>)
        ensures
            match r {
                Ok(n) => uuid_text_accepted(capture_id@) && n@ == png_name(capture_id@),
                Err(e) => !uuid_text_accepted(capture_id@) && is_validation(
                    e,
                    invalid_id_message(),
                ),
            },
    {
        Self::path_for(capture_id)
    }

    /// The recording file name of capture `capture_id`.
    pub fn video_path(&self, capture_id: &str) -> (r: Result<String, AppError>)
        ensures
            match r {
                Ok(n) => uuid_text_accepted(capture_id@) && n@ == mp4_name(capture_id@),
                Err(e) => !uuid_text_accepted(capture_id@) && is_validation(
                    e,
                    invalid_id_message(),
                ),
            },
    {
        Self::path_for_extension(capture_id, MP4_EXTENSION)
    }

    /// Stores `bytes` as the screenshot of capture `capture_id`.
    pub fn save_capture(&mut self, capture_id: &str, bytes: &[u8]) -> (r: Result<(), AppError>)
        ensures
            final(self).reliable() == old(self).reliable(),
            match r {
                Ok(_) => uuid_text_accepted(capture_id@) && final(self).files() == old(self).files().insert(png_name(capture_id@), bytes@),
                Err(e) => (!uuid_text_accepted(capture_id@) && is_validation(
                    e,
                    invalid_id_message(),
                ) && final(self).files() == old(self).files()) || (uuid_text_accepted(
                    capture_id@,
                ) && e is Storage && final(self).files().remove(png_name(capture_id@)) == old(self).files().remove(png_name(capture_id@))),
            },
            old(self).reliable() ==> (r is Ok <==> uuid_text_accepted(capture_id@)),
    {
        let name = Self::path_for(capture_id)?;
        self.files.write(name.as_str(), bytes)
    }

    /// The screenshot of capture `capture_id`; `NotFound` when it has none.
    pub fn read_capture(&self, capture_id: &str) -> (r: Result<Vec<u8>, AppError>)
        ensures
            match r {
                Ok(b) => uuid_text_accepted(capture_id@) && self.files().contains_key(
                    png_name(capture_id@),
                ) && self.files()[png_name(capture_id@)] == b@,
                Err(e) => (!uuid_text_accepted(capture_id@) && is_validation(
                    e,
                    invalid_id_message(),
                )) || (uuid_text_accepted(capture_id@) && e is NotFound && !self.files().contains_key(
                    png_name(capture_id@),
                )) || (uuid_text_accepted(capture_id@) && e is Storage && !self.reliable()),
            },
            self.reliable() ==> (r is Ok <==> (uuid_text_accepted(capture_id@)
                && self.files().contains_key(png_name(capture_id@)))),
    {
        let name = Self::path_for(capture_id)?;
        match self.files.read(name.as_str())? {
            Some(b) => Ok(b),
            None => Err(AppError::NotFound),
        }
    }

    /// Removes the screenshot of capture `capture_id`; a capture without
    /// one is no error.
    pub fn delete_capture(&mut self, capture_id: &str) -> (r: Result<(), AppError>)
        ensures
            final(self).reliable() == old(self).reliable(),
            match r {
                Ok(_) => uuid_text_accepted(capture_id@) && final(self).files() == old(self).files().remove(png_name(capture_id@)),
                Err(e) => final(self).files() == old(self).files() && ((!uuid_text_accepted(
                    capture_id@,
                ) && is_validation(e, invalid_id_message())) || (uuid_text_accepted(capture_id@)
                    && e is Storage)),
            },
            old(self).reliable() ==> (r is Ok <==> uuid_text_accepted(capture_id@)),
    {
        let name = Self::path_for(capture_id)?;
        self.files.remove(name.as_str())?;
        Ok(())
    }

    /// Whether capture `capture_id` has a recording file.
    pub fn video_exists(&self, capture_id: &str) -> (r: bool)
        ensures
            r == (uuid_text_accepted(capture_id@) && self.files().contains_key(
                mp4_name(capture_id@),
            )),
    {
        match self.video_path(capture_id) {
            Ok(name) => self.files.contains(name.as_str()),
            Err(_) => false,
        }
    }

    /// The recording of capture `capture_id`; `NotFound` when it has none.
    pub fn read_video(&self, capture_id: &str) -> (r: Result<Vec<u8>, AppError>)
        ensures
            match r {
                Ok(b) => uuid_text_accepted(capture_id@) && self.files().contains_key(
                    mp4_name(capture_id@),
                ) && self.files()[mp4_name(capture_id@)] == b@,
                Err(e) => (!uuid_text_accepted(capture_id@) && is_validation(
                    e,
                    invalid_id_message(),
                )) || (uuid_text_accepted(capture_id@) && e is NotFound && !self.files().contains_key(
                    mp4_name(capture_id@),
                )) || (uuid_text_accepted(capture_id@) && e is Storage && !self.reliable()),
            },
            self.reliable() ==> (r is Ok <==> (uuid_text_accepted(capture_id@)
                && self.files().contains_key(mp4_name(capture_id@)))),
    {
        let name = self.video_path(capture_id)?;
        match self.files.read(name.as_str())? {
            Some(b) => Ok(b),
            None => Err(AppError::NotFound),
        }
    }

    /// Removes the recording of capture `capture_id`; a capture without
    /// one is no error.
    pub fn delete_video(&mut self, capture_id: &str) -> (r: Result<(), AppError>)
        ensures
            final(self).reliable() == old(self).reliable(),
            match r {
                Ok(_) => uuid_text_accepted(capture_id@) && final(self).files() == old(self).files().remove(mp4_name(capture_id@)),
                Err(e) => final(self).files() == old(self).files() && ((!uuid_text_accepted(
                    capture_id@,
                ) && is_validation(e, invalid_id_message())) || (uuid_text_accepted(capture_id@)
                    && e is Storage)),
            },
            old(self).reliable() ==> (r is Ok <==> uuid_text_accepted(capture_id@)),
    {
        let name = self.video_path(capture_id)?;
        self.files.remove(name.as_str())?;
        Ok(())
    }

    /// Whether capture `capture_id` has a screenshot file.
    pub fn screenshot_exists(&self, capture_id: &str) -> (r: bool)
        ensures
            r == (uuid_text_accepted(capture_id@) && self.files().contains_key(
                png_name(capture_id@),
            )),
    {
        match Self::path_for(capture_id) {
            Ok(name) => self.files.contains(name.as_str()),
            Err(_) => false,
        }
    }

    /// Removes every media file whose capture is not among
    /// `known_capture_ids`, and gives how many files it removed. Files of
    /// known captures, and files that are not media, are never touched; a
    /// file that cannot be removed stays and is not counted. Fails only
    /// when the directory cannot be listed.
    pub fn reconcile(&mut self, known_capture_ids: &Vec<String>) -> (r: Result<usize, AppError>)
        ensures
            final(self).reliable() == old(self).reliable(),
            forall|n: Seq<char>|
                #[trigger] final(self).files().contains_key(n) ==> old(self).files().contains_key(n)
                    && final(self).files()[n] == old(self).files()[n],
            forall|n: Seq<char>|
                #[trigger] old(self).files().contains_key(n) && !is_orphan(
                    n,
                    texts(known_capture_ids@).to_set(),
                ) ==> final(self).files().contains_key(n),
            r matches Ok(count) ==> count == old(self).files().dom().difference(
                final(self).files().dom(),
            ).len(),
            r is Err ==> final(self).files() == old(self).files(),
            r is Ok <==> old(self).listable(),
            old(self).reliable() ==> r is Ok && final(self).files().dom() == old(self).files().dom().filter(|n: Seq<char>| !is_orphan(n, texts(known_capture_ids@).to_set())),
    {
        let names = self.files.names()?;
        let ghost known = texts(known_capture_ids@).to_set();
        let ghost start = self.files.files();
        let ghost reliable = self.files.reliable();
        proof {
            vstd::seq_lib::seq_to_set_is_finite(texts(names@));
            assert(start.dom().difference(start.dom()) =~= Set::<Seq<char>>::empty());
        }
        let mut removed: usize = 0;
        let mut i: usize = 0;
        while i < names.len()
            invariant
                i <= names@.len(),
                removed <= i,
                known == texts(known_capture_ids@).to_set(),
                start.dom() == texts(names@).to_set(),
                start.dom().finite(),
                self.files.reliable() == reliable,
                forall|n: Seq<char>|
                    #[trigger] self.files.files().contains_key(n) ==> start.contains_key(n)
                        && self.files.files()[n] == start[n],
                forall|n: Seq<char>|
                    #[trigger] start.contains_key(n) && !is_orphan(n, known)
                        ==> self.files.files().contains_key(n),
                removed == start.dom().difference(self.files.files().dom()).len(),
                reliable ==> forall|j: int|
                    0 <= j < i && is_orphan(#[trigger] names@[j]@, known)
                        ==> !self.files.files().contains_key(names@[j]@),
            decreases names@.len() - i,
        {
            let ghost before = self.files.files();
            let orphan = match media_stem_of(names[i].as_str()) {
                Some(stem) => !contains_text(known_capture_ids, &stem),
                None => false,
            };
            if orphan {
                match self.files.remove(names[i].as_str()) {
                    Ok(true) => {
                        proof {
                            let n = names@[i as int]@;
                            let gone = start.dom().difference(before.dom());
                            assert(start.dom().difference(self.files.files().dom()) =~= gone.insert(n));
                            assert(!gone.contains(n));
                            vstd::set_lib::lemma_len_subset(gone, start.dom());
                        }
                        removed = removed + 1;
                    },
                    Ok(false) => {
                        assert(self.files.files() =~= before);
                    },
                    Err(_) => {},
                }
            }
            i = i + 1;
        }
        proof {
            if reliable {
                let kept = start.dom().filter(|n: Seq<char>| !is_orphan(n, known));
                assert forall|n: Seq<char>| self.files.files().dom().contains(n) <==> kept.contains(n) by {
                    if start.contains_key(n) && is_orphan(n, known) {
                        let j = choose|j: int| 0 <= j < texts(names@).len() && texts(names@)[j] == n;
                        assert(names@[j]@ == n);
                    }
                }
                assert(self.files.files().dom() =~= kept);
            }
        }
        Ok(removed)
    }
}

} // verus!
