//! `ProcessDraftService`: gathers a process and its captures into a
//! request for the AI provider, and keeps every generated draft as a new
//! version of the process.

use crate::ai::{AiService, CaptureForAi, CaptureForAiView, ProcessDraft, ProcessDraftRequest};
use crate::clock::now_ms;
use crate::credentials::CredentialStore;
use crate::errors::{is_store_error, is_validation, AppError};
use crate::ids::{is_canonical_uuid, new_uuid, uuid_text_accepted};
use crate::media::{png_name, MediaFiles, MediaStorage};
use crate::models::capture::{capture_type_text, Capture, CaptureType, CaptureView};
use crate::models::process::{Process, ProcessView};
use crate::models::process_version::{ProcessVersion, ProcessVersionView};
use crate::repositories::capture::CaptureRepository;
use crate::repositories::order::{newest_first, views};
use crate::repositories::process::ProcessRepository;
use crate::repositories::process_version::{edited_rows, ProcessVersionRepository};
use crate::repositories::table::{children, has_key, holds_uuid_key, is_newest, is_row_with_key, lists};
use crate::text::{decimal, decimal_string};
use vstd::prelude::*;

verus! {

broadcast use vstd::seq_lib::group_to_multiset_ensures;

/// The most captures one generation may describe.
pub const MAX_CAPTURES: usize = 60;

/// The message when no API key is saved.
pub open spec fn no_key_message() -> Seq<char> {
    "Save an API key in Settings first."@
}

/// The message when the process has no captures.
pub open spec fn no_captures_message() -> Seq<char> {
    "Add at least one capture to this process before generating."@
}

/// The message when the process has `n` captures, over the limit.
pub open spec fn too_many_captures_message(n: nat) -> Seq<char> {
    "This process has "@ + decimal(n)
        + " captures — generation is limited to 60 at a time. Split it into smaller processes."@
}

/// Oldest created first; captures created at the same time keep the
/// repository's order, most recently updated first.
pub open spec fn chronological(s: Seq<CaptureView>) -> bool {
    forall|i: int, j: int|
        0 <= i < j < s.len() ==> s[i].created_at < s[j].created_at || (s[i].created_at
            == s[j].created_at && s[i].updated_at >= s[j].updated_at)
}

/// Oldest created first.
pub open spec fn created_ascending(s: Seq<CaptureView>) -> bool {
    forall|i: int, j: int| 0 <= i < j < s.len() ==> s[i].created_at <= s[j].created_at
}

/// `a` describes capture `c` to the model: its id, type string, title
/// and description, and, for a screenshot, its image when it could be
/// read (always, when the media store answers and the file exists).
pub open spec fn describes(
    c: CaptureView,
    a: CaptureForAiView,
    files: Map<Seq<char>, Seq<u8>>,
    media_reliable: bool,
) -> bool {
    &&& a.id == c.id
    &&& a.capture_type == capture_type_text(c.capture_type)
    &&& a.title == c.title
    &&& a.description == c.description
    &&& if c.capture_type == CaptureType::Screenshot {
        &&& (a.screenshot_png matches Some(b) ==> uuid_text_accepted(c.id) && files.contains_key(
            png_name(c.id),
        ) && files[png_name(c.id)] == b)
        &&& (media_reliable && uuid_text_accepted(c.id) && files.contains_key(png_name(c.id))
            ==> a.screenshot_png is Some)
    } else {
        a.screenshot_png is None
    }
}

/// Whether a draft may be generated: a key is saved, the process exists,
/// and it has between 1 and 60 captures.
pub open spec fn generation_allowed(
    saved: Option<Seq<char>>,
    processes: Seq<ProcessView>,
    captures: Seq<CaptureView>,
    process_id: Seq<char>,
) -> bool {
    &&& saved is Some
    &&& has_key::<Process>(processes, process_id)
    &&& 1 <= children::<Capture>(captures, process_id).len() <= 60
}

/// `e` is the refusal of the first check that fails: the key, then the
/// process, then the number of captures.
pub open spec fn is_refusal(
    e: AppError,
    saved: Option<Seq<char>>,
    processes: Seq<ProcessView>,
    captures: Seq<CaptureView>,
    process_id: Seq<char>,
) -> bool {
    let n = children::<Capture>(captures, process_id).len();
    if saved is None {
        is_validation(e, no_key_message())
    } else if !has_key::<Process>(processes, process_id) {
        e is NotFound
    } else if n == 0 {
        is_validation(e, no_captures_message())
    } else if n > 60 {
        is_validation(e, too_many_captures_message(n))
    } else {
        false
    }
}

/// Inserting `x` after every capture created no later than it, and
/// before every capture created later, keeps the order.
proof fn lemma_insert_in_order(s: Seq<CaptureView>, pos: int, x: CaptureView)
    requires
        0 <= pos <= s.len(),
        created_ascending(s),
        forall|k: int| pos <= k < s.len() ==> (#[trigger] s[k]).created_at > x.created_at,
        pos > 0 ==> s[pos - 1].created_at <= x.created_at,
    ensures
        created_ascending(s.insert(pos, x)),
{
    let t = s.insert(pos, x);
    assert forall|a: int, b: int| 0 <= a < b < t.len() implies t[a].created_at
        <= t[b].created_at by {
        if a < pos {
            assert(t[a] == s[a]);
            if b > pos {
                assert(t[b] == s[b - 1]);
            }
        } else if a > pos {
            assert(t[a] == s[a - 1]);
            assert(t[b] == s[b - 1]);
        } else {
            assert(t[b] == s[b - 1]);
        }
    }
}

/// When `x` was updated no later than every capture before it, inserting
/// it after the captures created no later than it keeps ties most
/// recently updated first.
proof fn lemma_insert_in_order_keeps_ties(s: Seq<CaptureView>, pos: int, x: CaptureView)
    requires
        0 <= pos <= s.len(),
        chronological(s),
        forall|k: int| pos <= k < s.len() ==> (#[trigger] s[k]).created_at > x.created_at,
        forall|k: int| 0 <= k < s.len() ==> (#[trigger] s[k]).updated_at >= x.updated_at,
        pos > 0 ==> s[pos - 1].created_at <= x.created_at,
    ensures
        chronological(s.insert(pos, x)),
{
    let t = s.insert(pos, x);
    assert forall|a: int, b: int| 0 <= a < b < t.len() implies t[a].created_at < t[b].created_at
        || (t[a].created_at == t[b].created_at && t[a].updated_at >= t[b].updated_at) by {
        if a < pos {
            assert(t[a] == s[a]);
            if b > pos {
                assert(t[b] == s[b - 1]);
            } else {
                assert(a == pos - 1 || s[a].created_at < s[pos - 1].created_at || (s[a].created_at
                    == s[pos - 1].created_at));
            }
        } else if a > pos {
            assert(t[a] == s[a - 1]);
            assert(t[b] == s[b - 1]);
        } else {
            assert(t[b] == s[b - 1]);
        }
    }
}

/// Sorts captures oldest created first, keeping the given order among
/// captures created at the same time.
pub fn sort_chronologically(v: Vec<Capture>) -> (r: Vec<Capture>)
    ensures
        views(r@).to_multiset() == views(v@).to_multiset(),
        created_ascending(views(r@)),
        newest_first::<Capture>(views(v@)) ==> chronological(views(r@)),
{
    let mut out: Vec<Capture> = Vec::new();
    let mut i: usize = 0;
    while i < v.len()
        invariant
            i <= v@.len(),
            views(out@).to_multiset() == views(v@.take(i as int)).to_multiset(),
            created_ascending(views(out@)),
            newest_first::<Capture>(views(v@)) ==> chronological(views(out@)),
            newest_first::<Capture>(views(v@)) && i < v@.len() ==> forall|a: int|
                0 <= a < out@.len() ==> (#[trigger] out@[a]).updated_at >= v@[i as int].updated_at,
        decreases v@.len() - i,
    {
        let x = v[i].duplicate();
        let mut pos = out.len();
        while pos > 0 && out[pos - 1].created_at > x.created_at
            invariant
                pos <= out@.len(),
                forall|k: int| pos <= k < out@.len() ==> (#[trigger] out@[k]).created_at > x.created_at,
            decreases pos,
        {
            pos = pos - 1;
        }
        let ghost before = out@;
        out.insert(pos, x);
        proof {
            let vb = views(before);
            let va = views(out@);
            assert(va =~= vb.insert(pos as int, x@));
            assert(va.remove(pos as int) =~= vb);
            assert(va[pos as int] == x@);
            assert(views(v@.take(i + 1)) =~= views(v@.take(i as int)).push(v@[i as int]@));
            assert(va.to_multiset() =~= vb.to_multiset().insert(x@));
            lemma_insert_in_order(vb, pos as int, x@);
            if newest_first::<Capture>(views(v@)) {
                assert(views(v@)[i as int] == v@[i as int]@);
                lemma_insert_in_order_keeps_ties(vb, pos as int, x@);
                if i + 1 < v@.len() {
                    assert(views(v@)[i as int].updated_at >= views(v@)[i + 1].updated_at);
                    assert forall|a: int| 0 <= a < out@.len() implies (#[trigger] out@[a]).updated_at
                        >= v@[i + 1].updated_at by {
                        if a < pos {
                            assert(out@[a] == before[a]);
                        } else if a > pos {
                            assert(out@[a] == before[a - 1]);
                        }
                    }
                }
            }
        }
        i = i + 1;
    }
    assert(v@.take(v@.len() as int) =~= v@);
    out
}

pub struct ProcessDraftService<
    A: AiService,
    C: CredentialStore,
    P: ProcessRepository,
    K: CaptureRepository,
    V: ProcessVersionRepository,
    F: MediaFiles,
> {
    ai: A,
    credentials: C,
    processes: P,
    captures: K,
    versions: V,
    media: MediaStorage<F>,
}

impl<
    A: AiService,
    C: CredentialStore,
    P: ProcessRepository,
    K: CaptureRepository,
    V: ProcessVersionRepository,
    F: MediaFiles,
> ProcessDraftService<A, C, P, K, V, F> {
    /// The saved API key, if any.
    pub closed spec fn saved_key(&self) -> Option<Seq<char>> {
        self.credentials.saved_key()
    }

    /// The stored processes.
    pub closed spec fn process_rows(&self) -> Seq<ProcessView> {
        self.processes.rows()
    }

    /// The stored captures.
    pub closed spec fn capture_rows(&self) -> Seq<CaptureView> {
        self.captures.rows()
    }

    /// The stored versions.
    pub closed spec fn version_rows(&self) -> Seq<ProcessVersionView> {
        self.versions.rows()
    }

    /// The media files, by name.
    pub closed spec fn files(&self) -> Map<Seq<char>, Seq<u8>> {
        self.media.files()
    }

    /// Whether the credential, process and capture stores always answer.
    pub closed spec fn inputs_reliable(&self) -> bool {
        self.credentials.reliable() && self.processes.reliable() && self.captures.reliable()
    }

    /// Whether the version store always answers.
    pub closed spec fn versions_reliable(&self) -> bool {
        self.versions.reliable()
    }

    /// Whether every media operation succeeds.
    pub closed spec fn media_reliable(&self) -> bool {
        self.media.reliable()
    }

    /// The AI provider drafts are asked of.
    pub closed spec fn provider(&self) -> A {
        self.ai
    }

    /// `key` and `request` are what a generation for `process_id` hands
    /// the AI provider: the saved key, and the process's name and
    /// description with its captures, oldest first, each described as it
    /// is stored.
    pub open spec fn prepares(&self, process_id: Seq<char>, key: Seq<char>, request: ProcessDraftRequest) -> bool {
        &&& generation_allowed(self.saved_key(), self.process_rows(), self.capture_rows(), process_id)
        &&& self.saved_key() == Some(key)
        &&& exists|p: ProcessView|
            is_row_with_key::<Process>(self.process_rows(), process_id, p) && request.process_name@
                == p.name && request.process_description@ == p.description
        &&& exists|sorted: Seq<CaptureView>|
            {
                &&& sorted.to_multiset() == children::<Capture>(self.capture_rows(), process_id).to_multiset()
                &&& chronological(sorted)
                &&& sorted.len() == request@.captures.len()
                &&& forall|i: int|
                    0 <= i < sorted.len() ==> describes(
                        #[trigger] sorted[i],
                        request@.captures[i],
                        self.files(),
                        self.media_reliable(),
                    )
            }
    }

    pub fn new(
        ai: A,
        credentials: C,
        processes: P,
        captures: K,
        versions: V,
        media: MediaStorage<F>,
    ) -> (s: Self)
        ensures
            s.saved_key() == credentials.saved_key(),
            s.process_rows() == processes.rows(),
            s.capture_rows() == captures.rows(),
            s.version_rows() == versions.rows(),
            s.files() == media.files(),
            s.inputs_reliable() == (credentials.reliable() && processes.reliable()
                && captures.reliable()),
            s.versions_reliable() == versions.reliable(),
            s.media_reliable() == media.reliable(),
            s.provider() == ai,
    {
        ProcessDraftService { ai, credentials, processes, captures, versions, media }
    }

    /// The version store the service was made of.
    pub fn into_versions(self) -> (r: V)
        ensures
            r.rows() == self.version_rows(),
            r.reliable() == self.versions_reliable(),
    {
        self.versions
    }

    /// The version store.
    pub fn versions(&self) -> (r: &V)
        ensures
            r.rows() == self.version_rows(),
            r.reliable() == self.versions_reliable(),
    {
        &self.versions
    }

    /// What a generation hands the AI provider: the saved key, and the
    /// process's name and description with its captures, oldest first,
    /// each with its screenshot when it has one that can be read.
    /// Refused without a saved key, for a missing process, and for a
    /// process with no captures or more than 60.
    pub fn prepare_request(&self, process_id: &str) -> (r: Result<(String, ProcessDraftRequest), AppError>)
        ensures
            match r {
                Ok((key, request)) => self.prepares(process_id@, key@, request),
                Err(e) => is_refusal(
                    e,
                    self.saved_key(),
                    self.process_rows(),
                    self.capture_rows(),
                    process_id@,
                ) || e is Credential || is_store_error(e),
            },
            self.inputs_reliable() ==> (r is Ok <==> generation_allowed(
                self.saved_key(),
                self.process_rows(),
                self.capture_rows(),
                process_id@,
            )),
            self.inputs_reliable() ==> (r matches Err(e) ==> is_refusal(
                e,
                self.saved_key(),
                self.process_rows(),
                self.capture_rows(),
                process_id@,
            )),
    {
        let api_key = match self.credentials.get_api_key()? {
            Some(k) => k,
            None => return Err(AppError::validation("Save an API key in Settings first.")),
        };
        let process = match self.processes.get(process_id)? {
            Some(p) => p,
            None => return Err(AppError::NotFound),
        };
        let listed = self.captures.list_by_process(process_id)?;
        proof {
            let ch = children::<Capture>(self.capture_rows(), process_id@);
            assert(views(listed@).len() == listed@.len());
            assert(views(listed@).to_multiset().len() == views(listed@).len());
            assert(ch.to_multiset().len() == ch.len());
        }
        if listed.len() == 0 {
            return Err(AppError::validation("Add at least one capture to this process before generating."));
        }
        if listed.len() > MAX_CAPTURES {
            let mut message = String::from_str("This process has ");
            message.append(decimal_string(listed.len() as u64).as_str());
            message.append(" captures — generation is limited to 60 at a time. Split it into smaller processes.");
            return Err(AppError::Validation(message));
        }
        let sorted = sort_chronologically(listed);
        let mut described: Vec<CaptureForAi> = Vec::new();
        let mut i: usize = 0;
        while i < sorted.len()
            invariant
                i <= sorted@.len(),
                described@.len() == i,
                forall|j: int|
                    0 <= j < i ==> describes(
                        #[trigger] views(sorted@)[j],
                        described@[j]@,
                        self.files(),
                        self.media_reliable(),
                    ),
            decreases sorted@.len() - i,
        {
            let c = &sorted[i];
            let screenshot_png = if c.capture_type == CaptureType::Screenshot {
                match self.media.read_capture(c.id.as_str()) {
                    Ok(bytes) => Some(bytes),
                    Err(_) => None,
                }
            } else {
                None
            };
            described.push(
                CaptureForAi {
                    id: c.id.clone(),
                    capture_type: String::from_str(c.capture_type.as_str()),
                    title: c.title.clone(),
                    description: c.description.clone(),
                    screenshot_png,
                },
            );
            i = i + 1;
        }
        let request = ProcessDraftRequest {
            process_name: process.name,
            process_description: process.description,
            captures: described,
        };
        proof {
            let sv = views(sorted@);
            assert(sv.len() == request@.captures.len());
            assert forall|j: int| 0 <= j < sv.len() implies describes(
                #[trigger] sv[j],
                request@.captures[j],
                self.files(),
                self.media_reliable(),
            ) by {
                assert(request@.captures[j] == described@[j]@);
            }
        }
        Ok((api_key, request))
    }

    /// Asks the AI provider for a draft of the process and keeps it as a
    /// new version, with a fresh id; earlier versions are never touched.
    pub fn generate(&mut self, process_id: &str) -> (r: Result<ProcessVersion, AppError>)
        ensures
            final(self).saved_key() == old(self).saved_key(),
            final(self).process_rows() == old(self).process_rows(),
            final(self).capture_rows() == old(self).capture_rows(),
            final(self).files() == old(self).files(),
            final(self).inputs_reliable() == old(self).inputs_reliable(),
            final(self).versions_reliable() == old(self).versions_reliable(),
            final(self).media_reliable() == old(self).media_reliable(),
            match r {
                Ok(v) => {
                    &&& generation_allowed(
                        old(self).saved_key(),
                        old(self).process_rows(),
                        old(self).capture_rows(),
                        process_id@,
                    )
                    &&& v.process_id@ == process_id@
                    &&& is_canonical_uuid(v.id@)
                    &&& v.created_at == v.updated_at
                    &&& !has_key::<ProcessVersion>(old(self).version_rows(), v.id@)
                    &&& final(self).version_rows() == old(self).version_rows().push(v@)
                },
                Err(e) => final(self).version_rows() == old(self).version_rows(),
            },
            old(self).inputs_reliable() && !generation_allowed(
                old(self).saved_key(),
                old(self).process_rows(),
                old(self).capture_rows(),
                process_id@,
            ) ==> (r matches Err(e) && is_refusal(
                e,
                old(self).saved_key(),
                old(self).process_rows(),
                old(self).capture_rows(),
                process_id@,
            )),
            r matches Ok(v) ==> exists|key: &str, request: ProcessDraftRequest, draft: ProcessDraft|
                {
                    &&& old(self).prepares(process_id@, key@, request)
                    &&& call_ensures(
                        A::generate_process_draft,
                        (&old(self).provider(), key, &request),
                        Ok::<ProcessDraft, AppError>(draft),
                    )
                    &&& v.content@ == draft@
                },
    {
        let (api_key, request) = self.prepare_request(process_id)?;
        let key = api_key.as_str();
        let answer = self.ai.generate_process_draft(key, &request);
        let ghost asked = self.ai;
        let content = answer?;
        let ghost draft = content;
        let r = self.store_draft(process_id, content);
        proof {
            if let Ok(v) = &r {
                assert(old(self).prepares(process_id@, key@, request));
                assert(call_ensures(
                    A::generate_process_draft,
                    (&asked, key, &request),
                    Ok::<ProcessDraft, AppError>(draft),
                ));
                assert(asked == old(self).provider());
                assert(v.content@ == draft@);
                assert(exists|k: &str, q: ProcessDraftRequest, d: ProcessDraft|
                    {
                        &&& old(self).prepares(process_id@, k@, q)
                        &&& call_ensures(
                            A::generate_process_draft,
                            (&old(self).provider(), k, &q),
                            Ok::<ProcessDraft, AppError>(d),
                        )
                        &&& v.content@ == d@
                    });
            }
        }
        r
    }

    /// Keeps `content`, a draft of process `process_id`, as a new version
    /// with a fresh id, created and updated now.
    pub fn store_draft(&mut self, process_id: &str, content: ProcessDraft) -> (r: Result<
        ProcessVersion,
        AppError,
    >)
        ensures
            final(self).saved_key() == old(self).saved_key(),
            final(self).process_rows() == old(self).process_rows(),
            final(self).capture_rows() == old(self).capture_rows(),
            final(self).files() == old(self).files(),
            final(self).inputs_reliable() == old(self).inputs_reliable(),
            final(self).versions_reliable() == old(self).versions_reliable(),
            final(self).media_reliable() == old(self).media_reliable(),
            match r {
                Ok(v) => {
                    &&& v.process_id@ == process_id@
                    &&& v.content@ == content@
                    &&& is_canonical_uuid(v.id@)
                    &&& v.created_at == v.updated_at
                    &&& !has_key::<ProcessVersion>(old(self).version_rows(), v.id@)
                    &&& final(self).version_rows() == old(self).version_rows().push(v@)
                },
                Err(e) => is_store_error(e) && final(self).version_rows() == old(self).version_rows(),
            },
            old(self).versions_reliable() ==> (r is Ok || holds_uuid_key::<ProcessVersion>(
                old(self).version_rows(),
            )),
    {
        let now = now_ms();
        let version = ProcessVersion {
            id: new_uuid(),
            process_id: process_id.to_string(),
            content,
            created_at: now,
            updated_at: now,
        };
        match self.versions.create(&version) {
            Ok(()) => Ok(version),
            Err(e) => {
                assert(old(self).versions_reliable() ==> has_key::<ProcessVersion>(
                    old(self).version_rows(),
                    version.id@,
                ));
                Err(e)
            },
        }
    }

    /// The versions of `process_id`, newest created first.
    pub fn list_versions(&self, process_id: &str) -> (r: Result<Vec<ProcessVersion>, AppError>)
        ensures
            match r {
                Ok(v) => lists::<ProcessVersion>(
                    views(v@),
                    children::<ProcessVersion>(self.version_rows(), process_id@),
                ),
                Err(e) => is_store_error(e),
            },
            self.versions_reliable() ==> r is Ok,
    {
        self.versions.list_by_process(process_id)
    }

    /// The version with id `id`; `NotFound` when there is none.
    pub fn get_version(&self, id: &str) -> (r: Result<ProcessVersion, AppError>)
        ensures
            match r {
                Ok(v) => is_row_with_key::<ProcessVersion>(self.version_rows(), id@, v@),
                Err(e) => (e is NotFound && !has_key::<ProcessVersion>(self.version_rows(), id@))
                    || is_store_error(e),
            },
            self.versions_reliable() ==> (r is Ok <==> has_key::<ProcessVersion>(
                self.version_rows(),
                id@,
            )),
    {
        match self.versions.get(id)? {
            Some(v) => Ok(v),
            None => Err(AppError::NotFound),
        }
    }

    /// The newest created version of `process_id`; `None` before any
    /// generation.
    pub fn get_latest_version(&self, process_id: &str) -> (r: Result<Option<ProcessVersion>, AppError>)
        ensures
            match r {
                Ok(Some(v)) => is_newest::<ProcessVersion>(
                    children::<ProcessVersion>(self.version_rows(), process_id@),
                    v@,
                ),
                Ok(None) => children::<ProcessVersion>(self.version_rows(), process_id@).len() == 0,
                Err(e) => is_store_error(e),
            },
            self.versions_reliable() ==> r is Ok,
    {
        self.versions.get_latest_by_process(process_id)
    }

    /// Replaces the content of version `id` with a user's edit and bumps
    /// its `updated_at`; id, process and `created_at` stay. `NotFound`
    /// when there is no such version.
    pub fn update_version_content(&mut self, id: &str, content: ProcessDraft) -> (r: Result<
        ProcessVersion,
        AppError,
    >)
        ensures
            final(self).saved_key() == old(self).saved_key(),
            final(self).process_rows() == old(self).process_rows(),
            final(self).capture_rows() == old(self).capture_rows(),
            final(self).files() == old(self).files(),
            final(self).inputs_reliable() == old(self).inputs_reliable(),
            final(self).versions_reliable() == old(self).versions_reliable(),
            final(self).media_reliable() == old(self).media_reliable(),
            match r {
                Ok(v) => {
                    &&& v.id@ == id@
                    &&& v.content@ == content@
                    &&& exists|old_v: ProcessVersionView|
                        is_row_with_key::<ProcessVersion>(old(self).version_rows(), id@, old_v)
                            && old_v.process_id == v.process_id@ && old_v.created_at
                            == v.created_at
                    &&& final(self).version_rows() == edited_rows(
                        old(self).version_rows(),
                        id@,
                        content@,
                        v.updated_at,
                    )
                },
                Err(e) => final(self).version_rows() == old(self).version_rows() && ((e is NotFound
                    && !has_key::<ProcessVersion>(old(self).version_rows(), id@)) || is_store_error(
                    e,
                )),
            },
            old(self).versions_reliable() ==> (r is Ok <==> has_key::<ProcessVersion>(
                old(self).version_rows(),
                id@,
            )),
    {
        let existing = self.get_version(id)?;
        let now = now_ms();
        if self.versions.update_content(id, &content, now)? {
            Ok(ProcessVersion {
                id: existing.id,
                process_id: existing.process_id,
                content,
                created_at: existing.created_at,
                updated_at: now,
            })
        } else {
            Err(AppError::NotFound)
        }
    }
}

} // verus!
