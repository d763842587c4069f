//! The screenshots a draft cites, gathered for an export, and the
//! checks every export applies to its target file.

use crate::ai::{DraftView, ProcessDraft};
use crate::ids::{ascii_lower, uuid_text_accepted};
use crate::media::{png_name, MediaFiles, MediaStorage};
use crate::errors::{is_validation, AppError};
use crate::models::capture::{Capture, CaptureType, CaptureView};
use crate::models::process::{Process, ProcessView};
use crate::models::process_version::{ProcessVersion, ProcessVersionView};
use crate::repositories::capture::CaptureRepository;
use crate::repositories::table::{first_with_key, has_key, is_row_with_key};
use crate::text::chars_of;
use vstd::prelude::*;

verus! {

/// `ext` is `wanted` (given in lowercase), in any ASCII case
/// (`str::eq_ignore_ascii_case`).
pub open spec fn is_extension(ext: Option<Seq<char>>, wanted: Seq<char>) -> bool {
    ext matches Some(e) && e.len() == wanted.len() && forall|i: int|
        0 <= i < e.len() ==> ascii_lower(#[trigger] e[i]) == wanted[i]
}

/// The message of a target whose folder is gone.
pub open spec fn missing_location_message() -> Seq<char> {
    "The chosen export location no longer exists. Try Export again."@
}

/// The version `version_id` and its process, as lookups by id find
/// them; `None` when either is missing.
pub open spec fn export_source(
    versions: Seq<ProcessVersionView>,
    processes: Seq<ProcessView>,
    version_id: Seq<char>,
) -> Option<(ProcessVersionView, ProcessView)> {
    match first_with_key::<ProcessVersion>(versions, version_id) {
        None => None,
        Some(v) => match first_with_key::<Process>(processes, v.process_id) {
            None => None,
            Some(p) => Some((v, p)),
        },
    }
}

/// Whether an export of version `version_id` goes ahead: the version and
/// its process exist, the target's extension is `wanted`, and the
/// target's folder exists.
pub open spec fn export_allowed(
    versions: Seq<ProcessVersionView>,
    processes: Seq<ProcessView>,
    version_id: Seq<char>,
    extension: Option<Seq<char>>,
    wanted: Seq<char>,
    parent_missing: bool,
) -> bool {
    &&& export_source(versions, processes, version_id) is Some
    &&& is_extension(extension, wanted)
    &&& !parent_missing
}

/// `e` is the refusal of the first check an export fails: `NotFound` for
/// a missing version or process, then `wrong_type` for a target without
/// extension `wanted`, then the missing-folder message.
pub open spec fn is_export_refusal(
    e: AppError,
    versions: Seq<ProcessVersionView>,
    processes: Seq<ProcessView>,
    version_id: Seq<char>,
    extension: Option<Seq<char>>,
    wanted: Seq<char>,
    wrong_type: Seq<char>,
    parent_missing: bool,
) -> bool {
    if export_source(versions, processes, version_id) is None {
        e is NotFound
    } else if !is_extension(extension, wanted) {
        is_validation(e, wrong_type)
    } else if parent_missing {
        is_validation(e, missing_location_message())
    } else {
        false
    }
}

/// The view of an optional text.
pub open spec fn opt_view(o: Option<&str>) -> Option<Seq<char>> {
    match o {
        Some(e) => Some(e@),
        None => None,
    }
}

/// The ASCII lowercase of `c`.
fn to_ascii_lower(c: char) -> (r: char)
    ensures
        r == ascii_lower(c),
{
    if 'A' <= c && c <= 'Z' {
        let code: u8 = ((c as u32) + 32) as u8;
        code as char
    } else {
        c
    }
}

/// Whether `ext` is `wanted` (given in lowercase), in any ASCII case.
pub fn extension_is(ext: Option<&str>, wanted: &str) -> (r: bool)
    ensures
        r == is_extension(opt_view(ext), wanted@),
{
    match ext {
        None => false,
        Some(e) => {
            let chars = chars_of(e);
            let want = chars_of(wanted);
            if chars.len() != want.len() {
                return false;
            }
            let mut i: usize = 0;
            while i < chars.len()
                invariant
                    i <= chars@.len(),
                    chars@ == e@,
                    want@ == wanted@,
                    chars@.len() == want@.len(),
                    opt_view(ext) == Some(e@),
                    forall|j: int| 0 <= j < i ==> ascii_lower(#[trigger] chars@[j]) == want@[j],
                decreases chars@.len() - i,
            {
                if to_ascii_lower(chars[i]) != want[i] {
                    assert(ascii_lower(e@[i as int]) != wanted@[i as int]);
                    return false;
                }
                i = i + 1;
            }
            true
        },
    }
}

/// The ids of `images`, in order.
pub open spec fn image_names(images: Seq<(String, Vec<u8>)>) -> Seq<Seq<char>> {
    images.map_values(|e: (String, Vec<u8>)| e.0@)
}

/// The ids of `images`.
pub open spec fn image_ids(images: Seq<(String, Vec<u8>)>) -> Set<Seq<char>> {
    image_names(images).to_set()
}

/// Whether `id` is among the ids of `images`.
pub fn has_image(images: &Vec<(String, Vec<u8>)>, id: &String) -> (r: bool)
    ensures
        r == image_ids(images@).contains(id@),
{
    let mut i: usize = 0;
    while i < images.len()
        invariant
            i <= images@.len(),
            forall|j: int| 0 <= j < i ==> images@[j].0@ != id@,
        decreases images@.len() - i,
    {
        if images[i].0 == *id {
            assert(image_names(images@)[i as int] == id@);
            return true;
        }
        i = i + 1;
    }
    assert forall|j: int| 0 <= j < images@.len() implies #[trigger] image_names(images@)[j]
        != id@ by {
        assert(image_names(images@)[j] == images@[j].0@);
    }
    false
}

/// Some step of `draft` cites capture `id`.
pub open spec fn cites(draft: DraftView, id: Seq<char>) -> bool {
    exists|s: int, k: int|
        0 <= s < draft.steps.len() && 0 <= k < draft.steps[s].capture_ids.len()
            && #[trigger] draft.steps[s].capture_ids[k] == id
}

/// Capture `id` is stored, and every stored capture with that id is a
/// screenshot.
pub open spec fn only_screenshots(rows: Seq<CaptureView>, id: Seq<char>) -> bool {
    &&& has_key::<Capture>(rows, id)
    &&& forall|c: CaptureView|
        #[trigger] is_row_with_key::<Capture>(rows, id, c) ==> c.capture_type
            == CaptureType::Screenshot
}

/// `images` holds screenshots the draft cites, each once, with the bytes
/// of its stored PNG.
pub open spec fn cited_images(
    images: Seq<(String, Vec<u8>)>,
    draft: DraftView,
    rows: Seq<CaptureView>,
    files: Map<Seq<char>, Seq<u8>>,
) -> bool {
    &&& image_names(images).no_duplicates()
    &&& forall|j: int|
        0 <= j < images.len() ==> {
            let id = #[trigger] images[j].0@;
            &&& cites(draft, id)
            &&& exists|c: CaptureView|
                is_row_with_key::<Capture>(rows, id, c) && c.capture_type == CaptureType::Screenshot
            &&& uuid_text_accepted(id)
            &&& files.contains_key(png_name(id))
            &&& files[png_name(id)] == images[j].1@
        }
}

/// Every cited screenshot whose PNG is stored is among `images`.
pub open spec fn all_cited_images(
    images: Seq<(String, Vec<u8>)>,
    draft: DraftView,
    rows: Seq<CaptureView>,
    files: Map<Seq<char>, Seq<u8>>,
) -> bool {
    forall|id: Seq<char>|
        cites(draft, id) && only_screenshots(rows, id) && uuid_text_accepted(id)
            && files.contains_key(png_name(id)) ==> #[trigger] image_ids(images).contains(id)
}

/// The PNG of every screenshot `draft` cites, once each, in the order
/// first cited; a capture that is missing, not a screenshot, or
/// without a readable PNG is left out.
pub fn load_cited_screenshots<K: CaptureRepository, F: MediaFiles>(
    captures: &K,
    media: &MediaStorage<F>,
    draft: &ProcessDraft,
) -> (r: Vec<(String, Vec<u8>)>)
    ensures
        cited_images(r@, draft@, captures.rows(), media.files()),
        (captures.reliable() && media.reliable()) ==> all_cited_images(r@, draft@, captures.rows(), media.files()),
{
    let mut images: Vec<(String, Vec<u8>)> = Vec::new();
    let mut s: usize = 0;
    while s < draft.steps.len()
        invariant
            s <= draft.steps@.len(),
            cited_images(images@, draft@, captures.rows(), media.files()),
            (captures.reliable() && media.reliable()) ==> forall|s2: int, k2: int|
                0 <= s2 < s && 0 <= k2 < draft@.steps[s2].capture_ids.len() && only_screenshots(
                    captures.rows(),
                    #[trigger] draft@.steps[s2].capture_ids[k2],
                ) && uuid_text_accepted(draft@.steps[s2].capture_ids[k2]) && media.files().contains_key(
                    png_name(draft@.steps[s2].capture_ids[k2]),
                ) ==> image_ids(images@).contains(draft@.steps[s2].capture_ids[k2]),
        decreases draft.steps@.len() - s,
    {
        let step = &draft.steps[s];
        let ghost sv = draft@.steps[s as int];
        assert(sv == step@);
        let mut k: usize = 0;
        while k < step.capture_ids.len()
            invariant
                s < draft.steps@.len(),
                sv == draft@.steps[s as int],
                sv == step@,
                k <= step.capture_ids@.len(),
                cited_images(images@, draft@, captures.rows(), media.files()),
                (captures.reliable() && media.reliable()) ==> forall|s2: int, k2: int|
                    0 <= s2 < s && 0 <= k2 < draft@.steps[s2].capture_ids.len()
                        && only_screenshots(
                        captures.rows(),
                        #[trigger] draft@.steps[s2].capture_ids[k2],
                    ) && uuid_text_accepted(draft@.steps[s2].capture_ids[k2])
                        && media.files().contains_key(png_name(draft@.steps[s2].capture_ids[k2]))
                        ==> image_ids(images@).contains(draft@.steps[s2].capture_ids[k2]),
                (captures.reliable() && media.reliable()) ==> forall|k2: int|
                    0 <= k2 < k && only_screenshots(
                        captures.rows(),
                        #[trigger] sv.capture_ids[k2],
                    ) && uuid_text_accepted(sv.capture_ids[k2]) && media.files().contains_key(
                        png_name(sv.capture_ids[k2]),
                    ) ==> image_ids(images@).contains(sv.capture_ids[k2]),
            decreases step.capture_ids@.len() - k,
        {
            let id = &step.capture_ids[k];
            let ghost idv = id@;
            assert(sv.capture_ids[k as int] == idv);
            assert(cites(draft@, idv));
            if !has_image(&images, id) {
                let is_screenshot = match captures.get(id.as_str()) {
                    Ok(Some(c)) => c.capture_type == CaptureType::Screenshot,
                    _ => false,
                };
                if is_screenshot {
                    match media.read_capture(id.as_str()) {
                        Ok(bytes) => {
                            let ghost before = images@;
                            images.push((id.clone(), bytes));
                            proof {
                                assert(image_names(images@) =~= image_names(before).push(idv));
                                assert(image_names(images@)[before.len() as int] == idv);
                                assert forall|x: Seq<char>| image_ids(before).contains(x)
                                    implies image_ids(images@).contains(x) by {
                                    let j = choose|j: int|
                                        0 <= j < image_names(before).len()
                                            && image_names(before)[j] == x;
                                    assert(image_names(images@)[j] == x);
                                }
                            }
                        },
                        Err(_) => {},
                    }
                }
            }
            k = k + 1;
        }
        s = s + 1;
    }
    proof {
        if (captures.reliable() && media.reliable()) {
            assert forall|id: Seq<char>|
                cites(draft@, id) && only_screenshots(captures.rows(), id) && uuid_text_accepted(
                    id,
                ) && media.files().contains_key(png_name(id)) implies #[trigger] image_ids(
                images@,
            ).contains(id) by {
                let (s2, k2) = choose|s2: int, k2: int|
                    0 <= s2 < draft@.steps.len() && 0 <= k2 < draft@.steps[s2].capture_ids.len()
                        && #[trigger] draft@.steps[s2].capture_ids[k2] == id;
                assert(draft@.steps[s2].capture_ids[k2] == id);
            }
        }
    }
    images
}


} // verus!
