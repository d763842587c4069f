//! `DocxExportService`: lays a process version out as a Word document:
//! a centred title, the description, the summary, and numbered steps with
//! the screenshots they cite. The layout is computed here as paragraphs
//! of runs; writing the `.docx` package happens where the file is written.

use crate::ai::{steps_view, strings_view, DraftView, ProcessDraft, ProcessDraftStep, StepView};
use crate::errors::{is_store_error, is_validation, AppError};
use crate::media::{MediaFiles, MediaStorage};
use crate::models::capture::CaptureView;
use crate::models::process::{Process, ProcessView};
use crate::models::process_version::{ProcessVersion, ProcessVersionView};
use crate::repositories::capture::CaptureRepository;
use crate::repositories::process::ProcessRepository;
use crate::repositories::process_version::ProcessVersionRepository;
use crate::repositories::table::{has_key, is_row_with_key};
use crate::services::cited::{
    all_cited_images, cited_images, export_allowed, export_source, extension_is, image_names,
    is_export_refusal, is_extension, load_cited_screenshots, missing_location_message, opt_view,
};
use crate::text::{chars_of, decimal, decimal_string, lemma_lines_nonempty, lines, trim, trim_str};
use vstd::prelude::*;

verus! {

/// The widest an image may be, in EMU (six inches).
pub const MAX_IMAGE_WIDTH_EMU: u32 = 5486400;

/// A run of text, in half-points, optionally bold, optionally followed
/// by a line break that wraps to the next line.
pub struct TextRun {
    pub text: String,
    pub bold: bool,
    pub size: usize,
    pub wrap_after: bool,
}

/// A run of a paragraph: text, or an image given by its PNG bytes.
pub enum DocRun {
    Text(TextRun),
    Image(Vec<u8>),
}

/// A paragraph: its runs, and whether it is centred.
pub struct DocParagraph {
    pub runs: Vec<DocRun>,
    pub centered: bool,
}

pub enum RunView {
    Text { text: Seq<char>, bold: bool, size: nat, wrap_after: bool },
    Image(Seq<u8>),
}

pub struct ParagraphView {
    pub runs: Seq<RunView>,
    pub centered: bool,
}

impl View for DocRun {
    type V = RunView;

    open spec fn view(&self) -> RunView {
        match self {
            DocRun::Text(t) => RunView::Text {
                text: t.text@,
                bold: t.bold,
                size: t.size as nat,
                wrap_after: t.wrap_after,
            },
            DocRun::Image(b) => RunView::Image(b@),
        }
    }
}

impl View for DocParagraph {
    type V = ParagraphView;

    open spec fn view(&self) -> ParagraphView {
        ParagraphView { runs: self.runs@.map_values(|r: DocRun| r@), centered: self.centered }
    }
}

/// The views of a list of paragraphs.
pub open spec fn paragraphs_view(v: Seq<DocParagraph>) -> Seq<ParagraphView> {
    v.map_values(|p: DocParagraph| p@)
}

/// A text run.
pub open spec fn text_run(text: Seq<char>, bold: bool, size: nat, wrap_after: bool) -> RunView {
    RunView::Text { text, bold, size, wrap_after }
}

/// A paragraph of one text run.
pub open spec fn single_run(text: Seq<char>, bold: bool, size: nat, centered: bool) -> ParagraphView {
    ParagraphView { runs: seq![text_run(text, bold, size, false)], centered }
}

/// One run per line of `text`, each but the last followed by a wrapping
/// line break.
pub open spec fn wrapped_runs(text: Seq<char>, size: nat) -> Seq<RunView> {
    let ls = lines(text);
    Seq::new(ls.len(), |i: int| text_run(ls[i], false, size, i + 1 < ls.len()))
}

/// A paragraph of `text`, keeping its line breaks.
pub open spec fn wrapped(text: Seq<char>, size: nat) -> ParagraphView {
    ParagraphView { runs: wrapped_runs(text, size), centered: false }
}

/// The image paragraphs of a step's citations whose screenshots are in
/// `images`, one per citation.
pub open spec fn image_paragraphs(ids: Seq<Seq<char>>, images: Seq<(String, Vec<u8>)>) -> Seq<
    ParagraphView,
>
    decreases ids.len(),
{
    if ids.len() == 0 {
        Seq::empty()
    } else {
        let before = image_paragraphs(ids.drop_last(), images);
        let names = image_names(images);
        if names.contains(ids.last()) {
            let j = names.index_of(ids.last());
            before.push(ParagraphView { runs: seq![RunView::Image(images[j].1@)], centered: false })
        } else {
            before
        }
    }
}

/// The paragraphs of step number `number`.
pub open spec fn step_paragraphs(number: nat, step: StepView, images: Seq<(String, Vec<u8>)>) -> Seq<
    ParagraphView,
> {
    seq![single_run(decimal(number) + ". "@ + step.title, true, 26, false)] + (if trim(
        step.description,
    ).len() > 0 {
        seq![wrapped(step.description, 22)]
    } else {
        Seq::empty()
    }) + image_paragraphs(step.capture_ids, images)
}

/// The paragraphs of the steps, numbered from 1.
pub open spec fn steps_paragraphs(steps: Seq<StepView>, images: Seq<(String, Vec<u8>)>) -> Seq<
    ParagraphView,
>
    decreases steps.len(),
{
    if steps.len() == 0 {
        Seq::empty()
    } else {
        steps_paragraphs(steps.drop_last(), images) + step_paragraphs(
            steps.len(),
            steps.last(),
            images,
        )
    }
}

/// The paragraphs of the first `m` steps begin with those of the first
/// `k`, followed by those of step `k`, numbered `k + 1`.
proof fn lemma_steps_prefix(steps: Seq<StepView>, images: Seq<(String, Vec<u8>)>, k: int, m: int)
    requires
        0 <= k < m <= steps.len(),
    ensures
        ({
            let p = steps_paragraphs(steps.take(k), images) + step_paragraphs(
                (k + 1) as nat,
                steps[k],
                images,
            );
            &&& p.len() <= steps_paragraphs(steps.take(m), images).len()
            &&& steps_paragraphs(steps.take(m), images).take(p.len() as int) == p
        }),
    decreases m,
{
    let p = steps_paragraphs(steps.take(k), images) + step_paragraphs((k + 1) as nat, steps[k], images);
    let sm = steps.take(m);
    assert(sm.drop_last() =~= steps.take(m - 1));
    if m == k + 1 {
        assert(sm.last() == steps[k]);
        assert(steps_paragraphs(sm, images) =~= p);
    } else {
        lemma_steps_prefix(steps, images, k, m - 1);
        let before = steps_paragraphs(steps.take(m - 1), images);
        assert(steps_paragraphs(sm, images) == before + step_paragraphs(m as nat, sm.last(), images));
        assert(steps_paragraphs(sm, images).take(p.len() as int) =~= before.take(p.len() as int));
    }
}

/// Step `k` (counting from 0) of the draft is headed, in bold at 13pt,
/// by its number `k + 1`, a full stop and its title: the steps are
/// numbered by their position in the draft.
pub proof fn lemma_steps_are_numbered_in_order(
    name: Seq<char>,
    description: Seq<char>,
    draft: DraftView,
    images: Seq<(String, Vec<u8>)>,
    k: int,
)
    requires
        0 <= k < draft.steps.len(),
    ensures
        ({
            let doc = docx_document(name, description, draft, images);
            let at = (if trim(description).len() > 0 { 6int } else { 5int })
                + steps_paragraphs(draft.steps.take(k), images).len();
            &&& at < doc.len()
            &&& doc[at] == ParagraphView {
                runs: seq![
                    RunView::Text {
                        text: decimal((k + 1) as nat) + ". "@ + draft.steps[k].title,
                        bold: true,
                        size: 26,
                        wrap_after: false,
                    },
                ],
                centered: false,
            }
        }),
{
    let steps = draft.steps;
    lemma_steps_prefix(steps, images, k, steps.len() as int);
    assert(steps.take(steps.len() as int) =~= steps);
    let head = (seq![
        single_run(name, true, 56, true),
        single_run("Functional Specification"@, false, 28, true),
    ] + (if trim(description).len() > 0 {
        seq![wrapped(description, 22)]
    } else {
        Seq::empty()
    }) + seq![single_run("Summary"@, true, 32, false), wrapped(draft.summary, 22)] + seq![
        single_run("Process Steps"@, true, 32, false),
    ]);
    let all = steps_paragraphs(steps, images);
    let before = steps_paragraphs(steps.take(k), images);
    let p = before + step_paragraphs((k + 1) as nat, steps[k], images);
    assert(docx_document(name, description, draft, images) == head + all);
    assert(all.take(p.len() as int) == p);
    assert(p[before.len() as int] == step_paragraphs((k + 1) as nat, steps[k], images)[0]);
    assert(all[before.len() as int] == p[before.len() as int]);
    if trim(description).len() > 0 {
        assert(head.len() == 6);
    } else {
        assert(head.len() == 5);
    }
    assert((head + all)[head.len() + before.len() as int] == all[before.len() as int]);
}

/// The whole document for a process named `name` with `description` and
/// a draft, showing the screenshots of `images`.
pub open spec fn docx_document(
    name: Seq<char>,
    description: Seq<char>,
    draft: DraftView,
    images: Seq<(String, Vec<u8>)>,
) -> Seq<ParagraphView> {
    seq![
        single_run(name, true, 56, true),
        single_run("Functional Specification"@, false, 28, true),
    ] + (if trim(description).len() > 0 {
        seq![wrapped(description, 22)]
    } else {
        Seq::empty()
    }) + seq![single_run("Summary"@, true, 32, false), wrapped(draft.summary, 22)] + seq![
        single_run("Process Steps"@, true, 32, false),
    ] + steps_paragraphs(draft.steps, images)
}

/// A text run.
fn make_text_run(text: String, bold: bool, size: usize, wrap_after: bool) -> (r: DocRun)
    ensures
        r@ == text_run(text@, bold, size as nat, wrap_after),
{
    DocRun::Text(TextRun { text, bold, size, wrap_after })
}

/// A paragraph of one text run.
fn single_run_paragraph(text: String, bold: bool, size: usize, centered: bool) -> (r: DocParagraph)
    ensures
        r@ == single_run(text@, bold, size as nat, centered),
{
    let runs = vec![make_text_run(text, bold, size, false)];
    let p = DocParagraph { runs, centered };
    assert(p@.runs =~= seq![text_run(text@, bold, size as nat, false)]);
    p
}

/// A paragraph of `text` with one run per line, each but the last
/// followed by a wrapping line break.
pub fn wrapped_text_paragraph(text: &str, size: usize) -> (r: DocParagraph)
    ensures
        r@ == wrapped(text@, size as nat),
{
    let chars = chars_of(text);
    let mut runs: Vec<DocRun> = Vec::new();
    let mut line = String::new();
    let mut i: usize = 0;
    while i < chars.len()
        invariant
            i <= chars@.len(),
            chars@ == text@,
            runs@.len() + 1 == lines(chars@.take(i as int)).len(),
            forall|k: int|
                0 <= k < runs@.len() ==> (#[trigger] runs@[k])@ == text_run(
                    lines(chars@.take(i as int))[k],
                    false,
                    size as nat,
                    true,
                ),
            line@ == lines(chars@.take(i as int)).last(),
        decreases chars@.len() - i,
    {
        let ghost t = chars@.take(i as int);
        let ghost t2 = chars@.take(i + 1);
        proof {
            assert(t2.drop_last() =~= t);
            assert(t2.last() == chars@[i as int]);
            lemma_lines_nonempty(t);
        }
        let c = chars[i];
        if c == '\n' {
            let finished = line;
            runs.push(make_text_run(finished, false, size, true));
            line = String::new();
            proof {
                assert(lines(t2) == lines(t).push(Seq::<char>::empty()));
                assert forall|k: int| 0 <= k < runs@.len() implies (#[trigger] runs@[k])@
                    == text_run(lines(t2)[k], false, size as nat, true) by {
                    if k < runs@.len() - 1 {
                        assert(lines(t2)[k] == lines(t)[k]);
                    }
                }
            }
        } else {
            crate::text::push_char(&mut line, c);
            proof {
                let lt = lines(t);
                assert(lines(t2) == lt.update(lt.len() - 1, lt.last().push(c)));
                assert forall|k: int| 0 <= k < runs@.len() implies (#[trigger] runs@[k])@
                    == text_run(lines(t2)[k], false, size as nat, true) by {
                    assert(lines(t2)[k] == lt[k]);
                }
            }
        }
        i = i + 1;
    }
    let ghost all = lines(chars@.take(i as int));
    runs.push(make_text_run(line, false, size, false));
    let p = DocParagraph { runs, centered: false };
    proof {
        assert(chars@.take(chars@.len() as int) =~= text@);
        assert(p@.runs =~= wrapped_runs(text@, size as nat));
    }
    p
}

/// The position of the image of capture `id` in `images`.
fn find_image(images: &Vec<(String, Vec<u8>)>, id: &String) -> (r: Option<usize>)
    ensures
        match r {
            Some(j) => j < images@.len() && image_names(images@)[j as int] == id@,
            None => !image_names(images@).contains(id@),
        },
{
    let mut j: usize = 0;
    while j < images.len()
        invariant
            j <= images@.len(),
            forall|k: int| 0 <= k < j ==> #[trigger] image_names(images@)[k] != id@,
        decreases images@.len() - j,
    {
        if images[j].0 == *id {
            return Some(j);
        }
        j = j + 1;
    }
    None
}

/// A paragraph holding just the image `bytes`.
fn image_paragraph(bytes: &Vec<u8>) -> (r: DocParagraph)
    ensures
        r@ == (ParagraphView { runs: seq![RunView::Image(bytes@)], centered: false }),
{
    let copy = bytes.clone();
    assert(copy@ =~= bytes@);
    let runs = vec![DocRun::Image(copy)];
    let p = DocParagraph { runs, centered: false };
    assert(p@.runs =~= seq![RunView::Image(bytes@)]);
    p
}

/// Appends the paragraphs of step number `number`.
fn push_step(
    out: &mut Vec<DocParagraph>,
    number: usize,
    step: &ProcessDraftStep,
    images: &Vec<(String, Vec<u8>)>,
)
    requires
        image_names(images@).no_duplicates(),
    ensures
        paragraphs_view(final(out)@) == paragraphs_view(old(out)@) + step_paragraphs(
            number as nat,
            step@,
            images@,
        ),
{
    let ghost start = paragraphs_view(old(out)@);
    let mut title = decimal_string(number as u64);
    title.append(". ");
    title.append(step.title.as_str());
    out.push(single_run_paragraph(title, true, 26, false));
    let trimmed = trim_str(step.description.as_str());
    if trimmed.unicode_len() > 0 {
        out.push(wrapped_text_paragraph(step.description.as_str(), 22));
    }
    let ghost head = paragraphs_view(out@);
    proof {
        let desc = if trim(step.description@).len() > 0 {
            seq![wrapped(step.description@, 22)]
        } else {
            Seq::empty()
        };
        assert(head =~= start + seq![single_run(decimal(number as nat) + ". "@ + step.title@, true, 26, false)] + desc);
    }
    let ids = &step.capture_ids;
    let mut k: usize = 0;
    while k < ids.len()
        invariant
            k <= ids@.len(),
            image_names(images@).no_duplicates(),
            paragraphs_view(out@) == head + image_paragraphs(
                strings_view(ids@).take(k as int),
                images@,
            ),
        decreases ids@.len() - k,
    {
        let ghost before = paragraphs_view(out@);
        proof {
            let v = strings_view(ids@);
            assert(v.take(k + 1).drop_last() =~= v.take(k as int));
            assert(v.take(k + 1).last() == ids@[k as int]@);
        }
        match find_image(images, &ids[k]) {
            Some(j) => {
                out.push(image_paragraph(&images[j].1));
                proof {
                    let names = image_names(images@);
                    assert(names.contains(ids@[k as int]@));
                    let c = names.index_of(ids@[k as int]@);
                    assert(names[c] == names[j as int]);
                    assert(c == j);
                    assert(paragraphs_view(out@) =~= before.push(
                        ParagraphView { runs: seq![RunView::Image(images@[j as int].1@)], centered: false },
                    ));
                }
            },
            None => {},
        }
        k = k + 1;
    }
    proof {
        assert(strings_view(ids@).take(ids@.len() as int) =~= strings_view(ids@));
        assert(paragraphs_view(out@) =~= start + step_paragraphs(number as nat, step@, images@));
    }
}

/// Lays out the document for the process named `process_name` with
/// `process_description`, from `draft`, showing the screenshots of
/// `images` (each id once).
pub fn build_document(
    process_name: &str,
    process_description: &str,
    draft: &ProcessDraft,
    images: &Vec<(String, Vec<u8>)>,
) -> (r: Vec<DocParagraph>)
    requires
        image_names(images@).no_duplicates(),
    ensures
        paragraphs_view(r@) == docx_document(process_name@, process_description@, draft@, images@),
{
    let mut doc: Vec<DocParagraph> = Vec::new();
    doc.push(single_run_paragraph(String::from_str(process_name), true, 56, true));
    doc.push(single_run_paragraph(String::from_str("Functional Specification"), false, 28, true));
    let trimmed = trim_str(process_description);
    if trimmed.unicode_len() > 0 {
        doc.push(wrapped_text_paragraph(process_description, 22));
    }
    doc.push(single_run_paragraph(String::from_str("Summary"), true, 32, false));
    doc.push(wrapped_text_paragraph(draft.summary.as_str(), 22));
    doc.push(single_run_paragraph(String::from_str("Process Steps"), true, 32, false));
    let ghost head = paragraphs_view(doc@);
    proof {
        let desc = if trim(process_description@).len() > 0 {
            seq![wrapped(process_description@, 22)]
        } else {
            Seq::empty()
        };
        assert(head =~= seq![
            single_run(process_name@, true, 56, true),
            single_run("Functional Specification"@, false, 28, true),
        ] + desc + seq![single_run("Summary"@, true, 32, false), wrapped(draft@.summary, 22)]
            + seq![single_run("Process Steps"@, true, 32, false)]);
    }
    let mut i: usize = 0;
    while i < draft.steps.len()
        invariant
            i <= draft.steps@.len(),
            image_names(images@).no_duplicates(),
            paragraphs_view(doc@) == head + steps_paragraphs(
                steps_view(draft.steps@).take(i as int),
                images@,
            ),
        decreases draft.steps@.len() - i,
    {
        let ghost before = paragraphs_view(doc@);
        push_step(&mut doc, i + 1, &draft.steps[i], images);
        proof {
            let v = steps_view(draft.steps@);
            assert(v.take(i + 1).drop_last() =~= v.take(i as int));
            assert(v.take(i + 1).last() == draft.steps@[i as int]@);
            assert(v.take(i + 1).len() == i + 1);
            assert(paragraphs_view(doc@) =~= head + steps_paragraphs(v.take(i + 1), images@));
        }
        i = i + 1;
    }
    proof {
        assert(steps_view(draft.steps@).take(draft.steps@.len() as int) =~= steps_view(draft.steps@));
        assert(paragraphs_view(doc@) =~= docx_document(
            process_name@,
            process_description@,
            draft@,
            images@,
        ));
    }
    doc
}

/// The message of a target that is not a `.docx` file.
pub open spec fn not_docx_message() -> Seq<char> {
    "Choose a .docx file to export to."@
}

pub struct DocxExportService<
    P: ProcessRepository,
    K: CaptureRepository,
    V: ProcessVersionRepository,
    F: MediaFiles,
> {
    processes: P,
    captures: K,
    versions: V,
    media: MediaStorage<F>,
}

impl<
    P: ProcessRepository,
    K: CaptureRepository,
    V: ProcessVersionRepository,
    F: MediaFiles,
> DocxExportService<P, K, V, F> {
    pub closed spec fn process_rows(&self) -> Seq<ProcessView> {
        self.processes.rows()
    }

    pub closed spec fn capture_rows(&self) -> Seq<CaptureView> {
        self.captures.rows()
    }

    pub closed spec fn version_rows(&self) -> Seq<ProcessVersionView> {
        self.versions.rows()
    }

    pub closed spec fn files(&self) -> Map<Seq<char>, Seq<u8>> {
        self.media.files()
    }

    /// Whether the stores and the media always answer.
    pub closed spec fn reliable(&self) -> bool {
        self.processes.reliable() && self.captures.reliable() && self.versions.reliable()
            && self.media.reliable()
    }

    pub fn new(processes: P, captures: K, versions: V, media: MediaStorage<F>) -> (s: Self)
        ensures
            s.process_rows() == processes.rows(),
            s.capture_rows() == captures.rows(),
            s.version_rows() == versions.rows(),
            s.files() == media.files(),
            s.reliable() == (processes.reliable() && captures.reliable() && versions.reliable()
                && media.reliable()),
    {
        DocxExportService { processes, captures, versions, media }
    }

    /// The document for version `version_id`, to be written to a target
    /// whose extension is `target_extension` and whose folder is missing
    /// when `parent_missing`. Refused, in this order, for a missing
    /// version or process (`NotFound`), a target that is not a `.docx`
    /// file, and a target whose folder is gone; from answering stores,
    /// nothing else fails.
    #[verifier::spinoff_prover]
    pub fn export(&self, version_id: &str, target_extension: Option<&str>, parent_missing: bool) -> (r:
        Result<Vec<DocParagraph>, AppError>)
        ensures
            match r {
                Ok(doc) => {
                    &&& export_allowed(
                        self.version_rows(),
                        self.process_rows(),
                        version_id@,
                        opt_view(target_extension),
                        "docx"@,
                        parent_missing,
                    )
                    &&& exists|v: ProcessVersionView, p: ProcessView, images: Seq<(String, Vec<u8>)>|
                        {
                            &&& export_source(self.version_rows(), self.process_rows(), version_id@)
                                == Some((v, p))
                            &&& cited_images(images, v.content, self.capture_rows(), self.files())
                            &&& (self.reliable() ==> all_cited_images(
                                images,
                                v.content,
                                self.capture_rows(),
                                self.files(),
                            ))
                            &&& paragraphs_view(doc@) == docx_document(
                                p.name,
                                p.description,
                                v.content,
                                images,
                            )
                        }
                },
                Err(e) => is_export_refusal(
                    e,
                    self.version_rows(),
                    self.process_rows(),
                    version_id@,
                    opt_view(target_extension),
                    "docx"@,
                    not_docx_message(),
                    parent_missing,
                ) || (is_store_error(e) && !self.reliable()),
            },
            self.reliable() ==> (r is Ok <==> export_allowed(
                self.version_rows(),
                self.process_rows(),
                version_id@,
                opt_view(target_extension),
                "docx"@,
                parent_missing,
            )),
    {
        let version = match self.versions.get(version_id)? {
            Some(v) => v,
            None => return Err(AppError::NotFound),
        };
        let process = match self.processes.get(version.process_id.as_str())? {
            Some(p) => p,
            None => return Err(AppError::NotFound),
        };
        if !extension_is(target_extension, "docx") {
            return Err(AppError::validation("Choose a .docx file to export to."));
        }
        if parent_missing {
            return Err(
                AppError::validation("The chosen export location no longer exists. Try Export again."),
            );
        }
        let images = load_cited_screenshots(&self.captures, &self.media, &version.content);
        let doc = build_document(
            process.name.as_str(),
            process.description.as_str(),
            &version.content,
            &images,
        );
        proof {
            assert(export_source(self.version_rows(), self.process_rows(), version_id@) == Some(
                (version@, process@),
            ));
            assert(paragraphs_view(doc@) == docx_document(
                process@.name,
                process@.description,
                version@.content,
                images@,
            ));
        }
        Ok(doc)
    }
}

} // verus!
