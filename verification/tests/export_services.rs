use base64::Engine;
use golive::ai::{ProcessDraft, ProcessDraftStep};
use golive::errors::AppError;
use golive::media::memory::MemoryMediaFiles;
use golive::media::MediaStorage;
use golive::models::capture::{Capture, CaptureType};
use golive::models::process::{Process, ProcessStatus};
use golive::models::process_version::ProcessVersion;
use golive::repositories::capture::{CaptureRepository, MemoryCaptureRepository};
use golive::repositories::process::{MemoryProcessRepository, ProcessRepository};
use golive::repositories::process_version::{MemoryProcessVersionRepository, ProcessVersionRepository};
use golive::services::docx_export::{DocParagraph, DocRun, DocxExportService};
use golive::services::latex_export::{image_entry_name, LatexExportService, README_TEXT};

const SHOT: &str = "11111111-1111-1111-1111-111111111111";
const NOTE: &str = "22222222-2222-2222-2222-222222222222";

fn sample_process() -> Process {
    Process {
        id: "proc-1".to_string(),
        project_id: "proj-1".to_string(),
        name: "Kickoff call".to_string(),
        description: "First client call".to_string(),
        status: ProcessStatus::InProgress,
        created_at: 0,
        updated_at: 0,
    }
}

fn sample_capture(id: &str, capture_type: CaptureType) -> Capture {
    Capture {
        id: id.to_string(),
        process_id: "proc-1".to_string(),
        capture_type,
        title: format!("Capture {id}"),
        description: String::new(),
        created_at: 1,
        updated_at: 1,
    }
}

fn sample_version(steps: Vec<ProcessDraftStep>) -> ProcessVersion {
    ProcessVersion {
        id: "v1".to_string(),
        process_id: "proc-1".to_string(),
        content: ProcessDraft { summary: "A summary".to_string(), steps },
        created_at: 1000,
        updated_at: 1000,
    }
}

fn one_pixel_png() -> Vec<u8> {
    base64::engine::general_purpose::STANDARD
        .decode("iVBORw0KGgoAAAANSUhEUgAAAAEAAAABCAQAAAC1HAwCAAAAC0lEQVR42mNk+A8AAQUBAScY42YAAAAASUVORK5CYII=")
        .expect("valid base64")
}

fn one_step(capture_ids: Vec<String>) -> Vec<ProcessDraftStep> {
    vec![ProcessDraftStep { title: "Step one".to_string(), description: "Do the thing".to_string(), capture_ids }]
}

struct Stores {
    processes: MemoryProcessRepository,
    captures: MemoryCaptureRepository,
    versions: MemoryProcessVersionRepository,
    media: MediaStorage<MemoryMediaFiles>,
}

fn stores(process: Option<Process>, captures: Vec<Capture>, version: Option<ProcessVersion>, screenshot: bool) -> Stores {
    let mut processes = MemoryProcessRepository::new();
    if let Some(p) = process {
        processes.create(&p).unwrap();
    }
    let mut capture_repo = MemoryCaptureRepository::new();
    for c in &captures {
        capture_repo.create(c).unwrap();
    }
    let mut versions = MemoryProcessVersionRepository::new();
    if let Some(v) = version {
        versions.create(&v).unwrap();
    }
    let mut media = MediaStorage::new(MemoryMediaFiles::new());
    if screenshot {
        media.save_capture(SHOT, &one_pixel_png()).expect("save screenshot");
    }
    Stores { processes, captures: capture_repo, versions, media }
}

type Latex = LatexExportService<MemoryProcessRepository, MemoryCaptureRepository, MemoryProcessVersionRepository, MemoryMediaFiles>;
type Docx = DocxExportService<MemoryProcessRepository, MemoryCaptureRepository, MemoryProcessVersionRepository, MemoryMediaFiles>;

fn latex(s: Stores) -> Latex {
    LatexExportService::new(s.processes, s.captures, s.versions, s.media)
}

fn docx(s: Stores) -> Docx {
    DocxExportService::new(s.processes, s.captures, s.versions, s.media)
}

fn extension_of(target: &str) -> Option<&str> {
    std::path::Path::new(target).extension().and_then(|e| e.to_str())
}

fn texts_of(p: &DocParagraph) -> Vec<String> {
    p.runs
        .iter()
        .filter_map(|r| match r {
            DocRun::Text(t) => Some(t.text.clone()),
            DocRun::Image(_) => None,
        })
        .collect()
}

#[test]
fn latex_export_export_rejects_a_missing_version() {
    let service = latex(stores(Some(sample_process()), vec![], None, false));
    let result = service.export("does-not-exist", extension_of("out.zip"), false);
    assert!(matches!(result, Err(AppError::NotFound)));
}

#[test]
fn export_rejects_a_target_path_without_a_zip_extension() {
    let service = latex(stores(Some(sample_process()), vec![], Some(sample_version(one_step(vec![]))), false));
    let result = service.export("v1", extension_of("out.tex"), false);
    assert!(matches!(result, Err(AppError::Validation(_))));
}

#[test]
fn latex_export_export_rejects_a_target_whose_parent_directory_does_not_exist() {
    let service = latex(stores(Some(sample_process()), vec![], Some(sample_version(one_step(vec![]))), false));
    let result = service.export("v1", extension_of("no-such-subdir/out.zip"), true);
    assert!(matches!(result, Err(AppError::Validation(_))));
}

#[test]
fn export_writes_a_real_zip_containing_document_tex_and_a_readme() {
    let service = latex(stores(Some(sample_process()), vec![], Some(sample_version(one_step(vec![]))), false));
    let bundle = service.export("v1", extension_of("out.zip"), false).expect("export");
    assert!(bundle.document.contains("\\documentclass"));
    assert!(bundle.document.contains("Kickoff call"));
    assert!(bundle.document.contains("Step one"));
    assert!(bundle.document.contains("Do the thing"));
    assert_eq!(bundle.readme, README_TEXT);
    assert!(bundle.images.is_empty());
}

#[test]
fn latex_export_export_embeds_a_cited_screenshot_and_skips_a_missing_or_non_screenshot_capture() {
    let captures = vec![sample_capture(SHOT, CaptureType::Screenshot), sample_capture(NOTE, CaptureType::Note)];
    let steps = one_step(vec![SHOT.to_string(), NOTE.to_string(), "no-such-capture".to_string()]);
    let service = latex(stores(Some(sample_process()), captures, Some(sample_version(steps)), true));

    let bundle = service.export("v1", extension_of("out.zip"), false).expect("export");

    assert_eq!(bundle.images.len(), 1, "only the real screenshot's image is bundled");
    assert_eq!(bundle.images[0].0, format!("images/{SHOT}.png"));
    assert_eq!(bundle.images[0].1, one_pixel_png());
    assert_eq!(image_entry_name(SHOT), format!("images/{SHOT}.png"));
    assert!(bundle.document.contains(&format!("images/{SHOT}.png")));
    assert!(!bundle.document.contains(&format!("images/{NOTE}.png")));
}

#[test]
fn latex_document_has_the_exact_layout() {
    let mut version = sample_version(vec![
        ProcessDraftStep { title: "A_1".to_string(), description: "  ".to_string(), capture_ids: vec![] },
        ProcessDraftStep { title: "B".to_string(), description: "x\ny".to_string(), capture_ids: vec![] },
    ]);
    version.content.summary = "S & T".to_string();
    let mut process = sample_process();
    process.description = " ".to_string();
    let service = latex(stores(Some(process), vec![], Some(version), false));
    let bundle = service.export("v1", extension_of("OUT.ZIP"), false).expect("export is case-insensitive");
    let expected = "\\documentclass[11pt]{article}\n\\usepackage[margin=1in]{geometry}\n\\usepackage[utf8]{inputenc}\n\\usepackage[T1]{fontenc}\n\\usepackage{graphicx}\n\\usepackage{enumitem}\n\\begin{document}\n\n\\begin{center}\n{\\Huge \\textbf{Kickoff call}} \\\\[0.5em]\n{\\Large Functional Specification}\n\\end{center}\n\n\\section*{Summary}\nS \\& T\n\n\\section*{Process Steps}\n\\begin{enumerate}[leftmargin=*]\n\\item \\textbf{A\\_1}\n\n\n\\item \\textbf{B}\n\nx \\\\\ny\n\n\\end{enumerate}\n\n\\end{document}\n";
    assert_eq!(bundle.document, expected);
}

#[test]
fn docx_export_export_rejects_a_missing_version() {
    let service = docx(stores(Some(sample_process()), vec![], None, false));
    let result = service.export("does-not-exist", extension_of("out.docx"), false);
    assert!(matches!(result, Err(AppError::NotFound)));
}

#[test]
fn export_rejects_a_target_path_without_a_docx_extension() {
    let service = docx(stores(Some(sample_process()), vec![], Some(sample_version(one_step(vec![]))), false));
    let result = service.export("v1", extension_of("out.txt"), false);
    assert!(matches!(result, Err(AppError::Validation(_))));
}

#[test]
fn docx_export_export_rejects_a_target_whose_parent_directory_does_not_exist() {
    let service = docx(stores(Some(sample_process()), vec![], Some(sample_version(one_step(vec![]))), false));
    let result = service.export("v1", extension_of("no-such-subdir/out.docx"), true);
    assert!(matches!(result, Err(AppError::Validation(_))));
}

#[test]
fn export_writes_a_real_docx_file_for_a_version_with_no_captures() {
    let service = docx(stores(Some(sample_process()), vec![], Some(sample_version(one_step(vec![]))), false));
    let doc = service.export("v1", extension_of("out.docx"), false).expect("export");
    let all: Vec<Vec<String>> = doc.iter().map(texts_of).collect();
    assert_eq!(all[0], vec!["Kickoff call".to_string()]);
    assert!(doc[0].centered);
    assert_eq!(all[1], vec!["Functional Specification".to_string()]);
    assert_eq!(all[2], vec!["First client call".to_string()]);
    assert_eq!(all[3], vec!["Summary".to_string()]);
    assert_eq!(all[4], vec!["A summary".to_string()]);
    assert_eq!(all[5], vec!["Process Steps".to_string()]);
    assert_eq!(all[6], vec!["1. Step one".to_string()]);
    assert_eq!(all[7], vec!["Do the thing".to_string()]);
    assert_eq!(doc.len(), 8);
}

#[test]
fn docx_export_export_embeds_a_cited_screenshot_and_skips_a_missing_or_non_screenshot_capture() {
    let captures = vec![sample_capture(SHOT, CaptureType::Screenshot), sample_capture(NOTE, CaptureType::Note)];
    let steps = one_step(vec![SHOT.to_string(), NOTE.to_string(), "no-such-capture".to_string()]);
    let service = docx(stores(Some(sample_process()), captures, Some(sample_version(steps)), true));

    let doc = service.export("v1", extension_of("out.docx"), false).expect("export");

    let images: Vec<&Vec<u8>> = doc
        .iter()
        .flat_map(|p| p.runs.iter())
        .filter_map(|r| match r {
            DocRun::Image(b) => Some(b),
            DocRun::Text(_) => None,
        })
        .collect();
    assert_eq!(images, vec![&one_pixel_png()]);
}

#[test]
fn docx_multiline_text_wraps_between_lines() {
    let mut version = sample_version(one_step(vec![]));
    version.content.summary = "one\ntwo\n".to_string();
    let service = docx(stores(Some(sample_process()), vec![], Some(version), false));
    let doc = service.export("v1", extension_of("a.DocX"), false).expect("export");
    let summary = &doc[4];
    let runs: Vec<(String, bool)> = summary
        .runs
        .iter()
        .map(|r| match r {
            DocRun::Text(t) => (t.text.clone(), t.wrap_after),
            DocRun::Image(_) => panic!("no image expected"),
        })
        .collect();
    assert_eq!(
        runs,
        vec![("one".to_string(), true), ("two".to_string(), true), ("".to_string(), false)]
    );
}

#[test]
fn exports_refuse_in_order_version_process_type_folder() {
    let orphan = stores(None, vec![], Some(sample_version(one_step(vec![]))), false);
    assert!(matches!(latex(orphan).export("v1", extension_of("out.tex"), true), Err(AppError::NotFound)));
    let orphan = stores(None, vec![], Some(sample_version(one_step(vec![]))), false);
    assert!(matches!(docx(orphan).export("v1", extension_of("out.txt"), true), Err(AppError::NotFound)));

    let full = stores(Some(sample_process()), vec![], Some(sample_version(one_step(vec![]))), false);
    match latex(full).export("v1", extension_of("out.tex"), true) {
        Err(AppError::Validation(m)) => assert_eq!(m, "Choose a .zip file to export to."),
        _ => panic!("expected the not-a-zip refusal"),
    }
    let full = stores(Some(sample_process()), vec![], Some(sample_version(one_step(vec![]))), false);
    match docx(full).export("v1", extension_of("out.txt"), true) {
        Err(AppError::Validation(m)) => assert_eq!(m, "Choose a .docx file to export to."),
        _ => panic!("expected the not-a-docx refusal"),
    }
    let full = stores(Some(sample_process()), vec![], Some(sample_version(one_step(vec![]))), false);
    match docx(full).export("v1", extension_of("out.DOCX"), true) {
        Err(AppError::Validation(m)) => {
            assert_eq!(m, "The chosen export location no longer exists. Try Export again.")
        }
        _ => panic!("expected the missing-folder refusal"),
    }
    let full = stores(Some(sample_process()), vec![], Some(sample_version(one_step(vec![]))), false);
    assert!(docx(full).export("v1", extension_of("out.docx"), false).is_ok());
}

#[test]
fn latex_bundle_names_each_image_as_the_document_cites_it() {
    let captures = vec![sample_capture(SHOT, CaptureType::Screenshot)];
    let steps = one_step(vec![SHOT.to_string(), SHOT.to_string()]);
    let service = latex(stores(Some(sample_process()), captures, Some(sample_version(steps)), true));
    let bundle = service.export("v1", extension_of("out.zip"), false).expect("export");
    let names: Vec<&str> = bundle.images.iter().map(|(n, _)| n.as_str()).collect();
    assert_eq!(names, vec![image_entry_name(SHOT).as_str()]);
    assert!(bundle.document.contains(&format!("{{{}}}", names[0])));
}
