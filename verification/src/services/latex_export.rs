//! `LatexExportService`: turns a process version into a LaTeX source
//! bundle: `document.tex`, a `README.txt` on how to compile it, and the
//! PNG of every screenshot the steps cite, under `images/`.

use crate::errors::{is_store_error, is_validation, AppError};
use crate::services::cited::{
    all_cited_images, cited_images, export_allowed, export_source, extension_is, has_image,
    image_ids, is_export_refusal, is_extension, load_cited_screenshots, missing_location_message,
    opt_view,
};
use crate::media::{png_name, MediaFiles, MediaStorage};
use crate::models::capture::{Capture, CaptureType, CaptureView};
use crate::models::process::{Process, ProcessView};
use crate::models::process_version::{ProcessVersion, ProcessVersionView};
use crate::repositories::capture::CaptureRepository;
use crate::repositories::process::ProcessRepository;
use crate::repositories::process_version::ProcessVersionRepository;
use crate::repositories::table::{has_key, is_row_with_key};
use crate::ai::{steps_view, strings_view, DraftView, ProcessDraft, ProcessDraftStep, StepView};
use crate::text::{chars_of, leading_ws, lemma_lines_nonempty, lines, push_char, trailing_ws, trim, trim_str};
use vstd::prelude::*;

verus! {

/// What LaTeX special character `c` becomes in running text.
pub open spec fn escaped_char(c: char) -> Seq<char> {
    if c == '\\' {
        "\\textbackslash{}"@
    } else if c == '{' {
        "\\{"@
    } else if c == '}' {
        "\\}"@
    } else if c == '$' {
        "\\$"@
    } else if c == '&' {
        "\\&"@
    } else if c == '#' {
        "\\#"@
    } else if c == '%' {
        "\\%"@
    } else if c == '_' {
        "\\_"@
    } else if c == '~' {
        "\\textasciitilde{}"@
    } else if c == '^' {
        "\\textasciicircum{}"@
    } else {
        seq![c]
    }
}

/// `s` with every LaTeX special character escaped.
pub open spec fn escaped(s: Seq<char>) -> Seq<char>
    decreases s.len(),
{
    if s.len() == 0 {
        Seq::empty()
    } else {
        escaped(s.drop_last()) + escaped_char(s.last())
    }
}

/// The LaTeX line break that stands for a newline in multi-line text.
pub open spec fn latex_line_break() -> Seq<char> {
    " \\\\\n"@
}

/// What `c` becomes in multi-line text: a newline becomes a LaTeX line
/// break, anything else is escaped.
pub open spec fn escaped_line_char(c: char) -> Seq<char> {
    if c == '\n' {
        latex_line_break()
    } else {
        escaped_char(c)
    }
}

/// `s` split at its newlines, each line escaped, the lines joined with
/// a LaTeX line break.
pub open spec fn escaped_multiline(s: Seq<char>) -> Seq<char>
    decreases s.len(),
{
    if s.len() == 0 {
        Seq::empty()
    } else {
        escaped_multiline(s.drop_last()) + escaped_line_char(s.last())
    }
}

/// `ls` joined with `sep` between consecutive texts.
pub open spec fn joined(ls: Seq<Seq<char>>, sep: Seq<char>) -> Seq<char>
    decreases ls.len(),
{
    if ls.len() == 0 {
        Seq::empty()
    } else if ls.len() == 1 {
        ls[0]
    } else {
        joined(ls.drop_last(), sep) + sep + ls.last()
    }
}

/// Escaping multi-line text is escaping each of its lines and joining
/// them with a LaTeX line break.
pub proof fn lemma_multiline_is_lines_joined(s: Seq<char>)
    ensures
        escaped_multiline(s) == joined(
            lines(s).map_values(|l: Seq<char>| escaped(l)),
            latex_line_break(),
        ),
    decreases s.len(),
{
    let esc = |l: Seq<char>| escaped(l);
    if s.len() == 0 {
        assert(lines(s).map_values(esc) =~= seq![Seq::<char>::empty()]);
    } else {
        let init = s.drop_last();
        let c = s.last();
        lemma_multiline_is_lines_joined(init);
        lemma_lines_nonempty(init);
        let before = lines(init);
        let eb = before.map_values(esc);
        if c == '\n' {
            assert(lines(s) == before.push(Seq::<char>::empty()));
            let es = lines(s).map_values(esc);
            assert(es =~= eb.push(Seq::<char>::empty()));
            assert(es.drop_last() =~= eb);
            assert(escaped(Seq::<char>::empty()) =~= Seq::<char>::empty());
            assert(joined(es, latex_line_break()) =~= joined(eb, latex_line_break()) + latex_line_break());
        } else {
            let last = before.last();
            let after = before.update(before.len() - 1, last.push(c));
            assert(lines(s) == after);
            let es = after.map_values(esc);
            assert(last.push(c).drop_last() =~= last);
            assert(escaped(last.push(c)) == escaped(last) + escaped_char(c));
            assert(es =~= eb.update(eb.len() - 1, escaped(last) + escaped_char(c)));
            if before.len() == 1 {
                assert(joined(es, latex_line_break()) == es[0]);
                assert(joined(eb, latex_line_break()) == eb[0]);
            } else {
                assert(es.drop_last() =~= eb.drop_last());
                assert(joined(es, latex_line_break()) =~= joined(eb, latex_line_break()) + escaped_char(c));
            }
        }
    }
}

/// Appends what `c` becomes in running text.
fn push_escaped(out: &mut String, c: char)
    ensures
        final(out)@ == old(out)@ + escaped_char(c),
{
    if c == '\\' {
        out.append("\\textbackslash{}");
    } else if c == '{' {
        out.append("\\{");
    } else if c == '}' {
        out.append("\\}");
    } else if c == '$' {
        out.append("\\$");
    } else if c == '&' {
        out.append("\\&");
    } else if c == '#' {
        out.append("\\#");
    } else if c == '%' {
        out.append("\\%");
    } else if c == '_' {
        out.append("\\_");
    } else if c == '~' {
        out.append("\\textasciitilde{}");
    } else if c == '^' {
        out.append("\\textasciicircum{}");
    } else {
        push_char(out, c);
        assert(final(out)@ =~= old(out)@ + seq![c]);
    }
}

/// `text` with every LaTeX special character escaped.
pub fn escape_latex(text: &str) -> (r: String)
    ensures
        r@ == escaped(text@),
{
    let chars = chars_of(text);
    let mut out = String::new();
    let mut i: usize = 0;
    while i < chars.len()
        invariant
            i <= chars@.len(),
            chars@ == text@,
            out@ == escaped(chars@.take(i as int)),
        decreases chars@.len() - i,
    {
        push_escaped(&mut out, chars[i]);
        proof {
            assert(chars@.take(i + 1).drop_last() =~= chars@.take(i as int));
        }
        i = i + 1;
    }
    assert(chars@.take(chars@.len() as int) =~= chars@);
    out
}

/// `text` escaped line by line, the lines joined with a LaTeX line break.
pub fn escape_latex_multiline(text: &str) -> (r: String)
    ensures
        r@ == escaped_multiline(text@),
{
    let chars = chars_of(text);
    let mut out = String::new();
    let mut i: usize = 0;
    while i < chars.len()
        invariant
            i <= chars@.len(),
            chars@ == text@,
            out@ == escaped_multiline(chars@.take(i as int)),
        decreases chars@.len() - i,
    {
        let c = chars[i];
        if c == '\n' {
            out.append(" \\\\\n");
        } else {
            push_escaped(&mut out, c);
        }
        proof {
            assert(chars@.take(i + 1).drop_last() =~= chars@.take(i as int));
        }
        i = i + 1;
    }
    assert(chars@.take(chars@.len() as int) =~= chars@);
    out
}

/// The lines that open the document, up to the start of its body.
pub open spec fn latex_preamble() -> Seq<char> {
    "\\documentclass[11pt]{article}\n\\usepackage[margin=1in]{geometry}\n\\usepackage[utf8]{inputenc}\n\\usepackage[T1]{fontenc}\n\\usepackage{graphicx}\n\\usepackage{enumitem}\n\\begin{document}\n\n"@
}

/// The centred title block for process `name`.
pub open spec fn latex_title(name: Seq<char>) -> Seq<char> {
    "\\begin{center}\n"@ + "{\\Huge \\textbf{"@ + escaped(name) + "}} \\\\[0.5em]\n"@
        + "{\\Large Functional Specification}\n"@ + "\\end{center}\n\n"@
}

/// The paragraph of a description, absent when it is blank.
pub open spec fn latex_description(description: Seq<char>) -> Seq<char> {
    if trim(description).len() > 0 {
        escaped_multiline(description) + "\n\n"@
    } else {
        Seq::empty()
    }
}

/// A process description that is not blank goes into the document
/// escaped and followed by a blank line, right after the title block and
/// right before the Summary section; the rest of the document is exactly
/// what a blank description gives. A blank description adds nothing.
pub proof fn lemma_description_is_written(
    name: Seq<char>,
    description: Seq<char>,
    draft: DraftView,
    images: Set<Seq<char>>,
)
    ensures
        ({
            let blank = latex_document(name, Seq::empty(), draft, images);
            let head = (latex_preamble() + latex_title(name)).len() as int;
            &&& blank.skip(head).take(("\\section*{Summary}\n"@).len() as int) == "\\section*{Summary}\n"@
            &&& trim(description).len() > 0 ==> latex_document(name, description, draft, images)
                == blank.take(head) + escaped_multiline(description) + "\n\n"@ + blank.skip(head)
            &&& trim(description).len() == 0 ==> latex_document(name, description, draft, images)
                == blank
        }),
{
    let empty = Seq::<char>::empty();
    assert(leading_ws(empty) == 0);
    assert(trailing_ws(empty.subrange(0, 0)) == 0);
    assert(trim(empty).len() == 0);
    let pre = latex_preamble() + latex_title(name);
    let rest = "\\section*{Summary}\n"@ + escaped_multiline(draft.summary) + "\n\n"@
        + "\\section*{Process Steps}\n"@ + "\\begin{enumerate}[leftmargin=*]\n"@ + latex_steps(
        draft.steps,
        images,
    ) + "\\end{enumerate}\n\n"@ + "\\end{document}\n"@;
    let blank = latex_document(name, empty, draft, images);
    assert(latex_description(empty) == empty);
    assert(blank =~= pre + rest);
    assert(blank.take(pre.len() as int) =~= pre);
    assert(blank.skip(pre.len() as int) =~= rest);
    assert(rest.take(("\\section*{Summary}\n"@).len() as int) =~= "\\section*{Summary}\n"@);
    if trim(description).len() > 0 {
        assert(latex_document(name, description, draft, images) =~= pre + (escaped_multiline(
            description,
        ) + "\n\n"@) + rest);
    } else {
        assert(latex_document(name, description, draft, images) =~= pre + rest);
    }
}

/// The figure of one cited capture, when its image is in the bundle.
pub open spec fn latex_image(id: Seq<char>, images: Set<Seq<char>>) -> Seq<char> {
    if images.contains(id) {
        "\n\\includegraphics[width=0.9\\textwidth]{images/"@ + id + ".png}\n"@
    } else {
        Seq::empty()
    }
}

/// The figures of a step's cited captures, in citation order.
pub open spec fn latex_images(ids: Seq<Seq<char>>, images: Set<Seq<char>>) -> Seq<char>
    decreases ids.len(),
{
    if ids.len() == 0 {
        Seq::empty()
    } else {
        latex_images(ids.drop_last(), images) + latex_image(ids.last(), images)
    }
}

/// One step: its title in bold, its description unless blank, and the
/// figures of its cited screenshots.
pub open spec fn latex_step(step: StepView, images: Set<Seq<char>>) -> Seq<char> {
    "\\item \\textbf{"@ + escaped(step.title) + "}\n\n"@ + (if trim(step.description).len() > 0 {
        escaped_multiline(step.description) + "\n"@
    } else {
        Seq::empty()
    }) + latex_images(step.capture_ids, images) + "\n"@
}

/// The steps, in order.
pub open spec fn latex_steps(steps: Seq<StepView>, images: Set<Seq<char>>) -> Seq<char>
    decreases steps.len(),
{
    if steps.len() == 0 {
        Seq::empty()
    } else {
        latex_steps(steps.drop_last(), images) + latex_step(steps.last(), images)
    }
}

/// The whole `document.tex` for a process named `name` with
/// `description` and a draft, when the screenshots of `images` are in
/// the bundle.
pub open spec fn latex_document(
    name: Seq<char>,
    description: Seq<char>,
    draft: DraftView,
    images: Set<Seq<char>>,
) -> Seq<char> {
    latex_preamble() + latex_title(name) + latex_description(description)
        + "\\section*{Summary}\n"@ + escaped_multiline(draft.summary) + "\n\n"@
        + "\\section*{Process Steps}\n"@ + "\\begin{enumerate}[leftmargin=*]\n"@ + latex_steps(
        draft.steps,
        images,
    ) + "\\end{enumerate}\n\n"@ + "\\end{document}\n"@
}

/// The figures of `ids` whose images are in the bundle.
fn push_images(out: &mut String, ids: &Vec<String>, images: &Vec<(String, Vec<u8>)>)
    ensures
        final(out)@ == old(out)@ + latex_images(strings_view(ids@), image_ids(images@)),
{
    let ghost start = old(out)@;
    let mut i: usize = 0;
    while i < ids.len()
        invariant
            i <= ids@.len(),
            out@ == start + latex_images(strings_view(ids@).take(i as int), image_ids(images@)),
        decreases ids@.len() - i,
    {
        let ghost before = out@;
        if has_image(images, &ids[i]) {
            out.append("\n\\includegraphics[width=0.9\\textwidth]{images/");
            out.append(ids[i].as_str());
            out.append(".png}\n");
        }
        proof {
            let v = strings_view(ids@);
            assert(v.take(i + 1).drop_last() =~= v.take(i as int));
            assert(v.take(i + 1).last() == ids@[i as int]@);
            assert(out@ =~= before + latex_image(ids@[i as int]@, image_ids(images@)));
        }
        i = i + 1;
    }
    assert(strings_view(ids@).take(ids@.len() as int) =~= strings_view(ids@));
}

/// Appends one step.
fn push_step(out: &mut String, step: &ProcessDraftStep, images: &Vec<(String, Vec<u8>)>)
    ensures
        final(out)@ == old(out)@ + latex_step(step@, image_ids(images@)),
{
    let ghost start = old(out)@;
    out.append("\\item \\textbf{");
    out.append(escape_latex(step.title.as_str()).as_str());
    out.append("}\n\n");
    let ghost head = out@;
    let trimmed = trim_str(step.description.as_str());
    if trimmed.unicode_len() > 0 {
        out.append(escape_latex_multiline(step.description.as_str()).as_str());
        out.append("\n");
    }
    let ghost mid = out@;
    push_images(out, &step.capture_ids, images);
    out.append("\n");
    proof {
        let body = if trim(step.description@).len() > 0 {
            escaped_multiline(step.description@) + "\n"@
        } else {
            Seq::empty()
        };
        assert(mid =~= head + body);
        assert(out@ =~= start + latex_step(step@, image_ids(images@)));
    }
}

/// Builds `document.tex` for the process named `process_name` with
/// `process_description`, from `draft`, linking the images of `images`.
#[verifier::spinoff_prover]
pub fn build_document(
    process_name: &str,
    process_description: &str,
    draft: &ProcessDraft,
    images: &Vec<(String, Vec<u8>)>,
) -> (r: String)
    ensures
        r@ == latex_document(process_name@, process_description@, draft@, image_ids(images@)),
{
    let mut tex = String::new();
    tex.append(
        "\\documentclass[11pt]{article}\n\\usepackage[margin=1in]{geometry}\n\\usepackage[utf8]{inputenc}\n\\usepackage[T1]{fontenc}\n\\usepackage{graphicx}\n\\usepackage{enumitem}\n\\begin{document}\n\n",
    );
    tex.append("\\begin{center}\n");
    tex.append("{\\Huge \\textbf{");
    tex.append(escape_latex(process_name).as_str());
    tex.append("}} \\\\[0.5em]\n");
    tex.append("{\\Large Functional Specification}\n");
    tex.append("\\end{center}\n\n");
    let ghost after_title = tex@;
    let trimmed = trim_str(process_description);
    if trimmed.unicode_len() > 0 {
        tex.append(escape_latex_multiline(process_description).as_str());
        tex.append("\n\n");
    }
    proof {
        assert(tex@ =~= after_title + latex_description(process_description@));
    }
    tex.append("\\section*{Summary}\n");
    tex.append(escape_latex_multiline(draft.summary.as_str()).as_str());
    tex.append("\n\n");
    tex.append("\\section*{Process Steps}\n");
    tex.append("\\begin{enumerate}[leftmargin=*]\n");
    let ghost before_steps = tex@;
    let mut i: usize = 0;
    while i < draft.steps.len()
        invariant
            i <= draft.steps@.len(),
            tex@ == before_steps + latex_steps(steps_view(draft.steps@).take(i as int), image_ids(images@)),
        decreases draft.steps@.len() - i,
    {
        let ghost before = tex@;
        push_step(&mut tex, &draft.steps[i], images);
        proof {
            let v = steps_view(draft.steps@);
            assert(v.take(i + 1).drop_last() =~= v.take(i as int));
            assert(v.take(i + 1).last() == draft.steps@[i as int]@);
            assert(tex@ =~= before_steps + latex_steps(v.take(i + 1), image_ids(images@)));
        }
        i = i + 1;
    }
    proof {
        assert(steps_view(draft.steps@).take(draft.steps@.len() as int) =~= steps_view(draft.steps@));
    }
    tex.append("\\end{enumerate}\n\n");
    tex.append("\\end{document}\n");
    proof {
        assert(tex@ =~= latex_document(
            process_name@,
            process_description@,
            draft@,
            image_ids(images@),
        ));
    }
    tex
}

/// How to compile the bundle, shipped as `README.txt`.
pub const README_TEXT: &'static str = "This is a LaTeX source bundle exported from GoLive.\r\n\r\nTo produce a PDF:\r\n1. Unzip this archive, keeping document.tex and the images/ folder\r\ntogether in the same directory.\r\n2. Compile document.tex with a LaTeX distribution (e.g. TeX Live,\r\nMiKTeX, or an online editor such as Overleaf) — for example:\r\npdflatex document.tex\r\n";

/// The message of a target that is not a `.zip` file.
pub open spec fn not_zip_message() -> Seq<char> {
    "Choose a .zip file to export to."@
}

/// The archive entry name of capture `id`'s image, as the document
/// cites it.
pub open spec fn image_entry(id: Seq<char>) -> Seq<char> {
    "images/"@ + id + ".png"@
}

/// The archive entries of `images` (capture id and PNG bytes): each
/// image under its entry name, in order.
pub open spec fn image_entries(images: Seq<(String, Vec<u8>)>) -> Seq<(Seq<char>, Seq<u8>)> {
    images.map_values(|e: (String, Vec<u8>)| (image_entry(e.0@), e.1@))
}

/// The views of named byte entries.
pub open spec fn entries_view(entries: Seq<(String, Vec<u8>)>) -> Seq<(Seq<char>, Seq<u8>)> {
    entries.map_values(|e: (String, Vec<u8>)| (e.0@, e.1@))
}

/// The archive entry name of capture `id`'s image.
pub fn image_entry_name(id: &str) -> (r: String)
    ensures
        r@ == image_entry(id@),
{
    let mut name = String::from_str("images/");
    name.append(id);
    name.append(".png");
    name
}

/// Each image of `images` under its archive entry name.
fn entries_of(images: &Vec<(String, Vec<u8>)>) -> (r: Vec<(String, Vec<u8>)>)
    ensures
        entries_view(r@) == image_entries(images@),
{
    let mut out: Vec<(String, Vec<u8>)> = Vec::new();
    let mut i: usize = 0;
    while i < images.len()
        invariant
            i <= images@.len(),
            entries_view(out@) == image_entries(images@.take(i as int)),
        decreases images@.len() - i,
    {
        let bytes = images[i].1.clone();
        assert(bytes@ =~= images@[i as int].1@);
        let ghost before = out@;
        out.push((image_entry_name(images[i].0.as_str()), bytes));
        proof {
            assert(images@.take(i + 1) =~= images@.take(i as int).push(images@[i as int]));
            assert(entries_view(out@) =~= entries_view(before).push(
                (image_entry(images@[i as int].0@), images@[i as int].1@),
            ));
            assert(image_entries(images@.take(i + 1)) =~= image_entries(images@.take(i as int)).push(
                (image_entry(images@[i as int].0@), images@[i as int].1@),
            ));
        }
        i = i + 1;
    }
    assert(images@.take(images@.len() as int) =~= images@);
    out
}

/// The contents of a LaTeX bundle, before it is zipped: `document.tex`,
/// `README.txt`, and each image as an archive entry
/// (`images/<capture id>.png`) with its bytes.
pub struct LatexBundle {
    pub document: String,
    pub readme: String,
    pub images: Vec<(String, Vec<u8>)>,
}

pub struct LatexExportService<
    P: ProcessRepository,
    K: CaptureRepository,
    V: ProcessVersionRepository,
    F: MediaFiles,
> {
    processes: P,
    captures: K,
    versions: V,
    media: MediaStorage<F>,
}

impl<
    P: ProcessRepository,
    K: CaptureRepository,
    V: ProcessVersionRepository,
    F: MediaFiles,
> LatexExportService<P, K, V, F> {
    pub closed spec fn process_rows(&self) -> Seq<ProcessView> {
        self.processes.rows()
    }

    pub closed spec fn capture_rows(&self) -> Seq<CaptureView> {
        self.captures.rows()
    }

    pub closed spec fn version_rows(&self) -> Seq<ProcessVersionView> {
        self.versions.rows()
    }

    pub closed spec fn files(&self) -> Map<Seq<char>, Seq<u8>> {
        self.media.files()
    }

    /// Whether the stores and the media always answer.
    pub closed spec fn reliable(&self) -> bool {
        self.processes.reliable() && self.captures.reliable() && self.versions.reliable()
            && self.media.reliable()
    }

    pub fn new(processes: P, captures: K, versions: V, media: MediaStorage<F>) -> (s: Self)
        ensures
            s.process_rows() == processes.rows(),
            s.capture_rows() == captures.rows(),
            s.version_rows() == versions.rows(),
            s.files() == media.files(),
            s.reliable() == (processes.reliable() && captures.reliable() && versions.reliable()
                && media.reliable()),
    {
        LatexExportService { processes, captures, versions, media }
    }

    /// The bundle for version `version_id`, to be written to a target
    /// whose extension is `target_extension` and whose folder is missing
    /// when `parent_missing`. Refused, in this order, for a missing
    /// version or process (`NotFound`), a target that is not a `.zip`
    /// file, and a target whose folder is gone; from answering stores,
    /// nothing else fails.
    pub fn export(&self, version_id: &str, target_extension: Option<&str>, parent_missing: bool) -> (r:
        Result<LatexBundle, AppError>)
        ensures
            match r {
                Ok(b) => {
                    &&& export_allowed(
                        self.version_rows(),
                        self.process_rows(),
                        version_id@,
                        opt_view(target_extension),
                        "zip"@,
                        parent_missing,
                    )
                    &&& b.readme@ == README_TEXT@
                    &&& export_source(self.version_rows(), self.process_rows(), version_id@) matches Some((v, p))
                    &&& exists|images: Seq<(String, Vec<u8>)>|
                        {
                            &&& cited_images(images, v.content, self.capture_rows(), self.files())
                            &&& (self.reliable() ==> all_cited_images(
                                images,
                                v.content,
                                self.capture_rows(),
                                self.files(),
                            ))
                            &&& entries_view(b.images@) == image_entries(images)
                            &&& b.document@ == latex_document(
                                p.name,
                                p.description,
                                v.content,
                                image_ids(images),
                            )
                        }
                },
                Err(e) => is_export_refusal(
                    e,
                    self.version_rows(),
                    self.process_rows(),
                    version_id@,
                    opt_view(target_extension),
                    "zip"@,
                    not_zip_message(),
                    parent_missing,
                ) || (is_store_error(e) && !self.reliable()),
            },
            self.reliable() ==> (r is Ok <==> export_allowed(
                self.version_rows(),
                self.process_rows(),
                version_id@,
                opt_view(target_extension),
                "zip"@,
                parent_missing,
            )),
    {
        let version = match self.versions.get(version_id)? {
            Some(v) => v,
            None => return Err(AppError::NotFound),
        };
        let process = match self.processes.get(version.process_id.as_str())? {
            Some(p) => p,
            None => return Err(AppError::NotFound),
        };
        if !extension_is(target_extension, "zip") {
            return Err(AppError::validation("Choose a .zip file to export to."));
        }
        if parent_missing {
            return Err(
                AppError::validation("The chosen export location no longer exists. Try Export again."),
            );
        }
        let images = load_cited_screenshots(&self.captures, &self.media, &version.content);
        let document = build_document(
            process.name.as_str(),
            process.description.as_str(),
            &version.content,
            &images,
        );
        let entries = entries_of(&images);
        let bundle = LatexBundle { document, readme: String::from_str(README_TEXT), images: entries };
        proof {
            assert(export_source(self.version_rows(), self.process_rows(), version_id@) == Some(
                (version@, process@),
            ));
        }
        Ok(bundle)
    }
}

} // verus!
