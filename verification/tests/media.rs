use golive::errors::AppError;
use golive::media::memory::MemoryMediaFiles;
use golive::media::{media_stem_of, MediaFiles, MediaStorage};

fn storage_in_memory() -> MediaStorage<MemoryMediaFiles> {
    MediaStorage::new(MemoryMediaFiles::new())
}

fn sample_id() -> String {
    uuid::Uuid::new_v4().to_string()
}

fn write_video(storage: &mut MediaStorage<MemoryMediaFiles>, id: &str, bytes: &[u8]) {
    let name = storage.video_path(id).unwrap();
    storage.directory_mut().write(&name, bytes).unwrap();
}

#[test]
fn save_then_read_round_trips_the_same_bytes() {
    let mut storage = storage_in_memory();
    let id = sample_id();
    let bytes = vec![1, 2, 3, 4, 5];

    storage.save_capture(&id, &bytes).expect("save");
    let read_back = storage.read_capture(&id).expect("read");

    assert_eq!(read_back, bytes);
}

#[test]
fn file_exists_after_save() {
    let mut storage = storage_in_memory();
    let id = sample_id();

    assert!(!storage.screenshot_exists(&id), "should not exist before save");
    storage.save_capture(&id, &[0u8]).expect("save");
    assert!(storage.screenshot_exists(&id), "should exist after save");
}

#[test]
fn generated_filename_is_based_on_capture_id() {
    let mut storage = storage_in_memory();
    let id = sample_id();

    storage.save_capture(&id, &[0u8]).expect("save");

    assert_eq!(storage.directory().names().unwrap(), vec![format!("{id}.png")]);
}

#[test]
fn read_missing_capture_returns_not_found() {
    let storage = storage_in_memory();
    let result = storage.read_capture(&sample_id());
    assert!(matches!(result, Err(AppError::NotFound)));
}

#[test]
fn delete_removes_the_file() {
    let mut storage = storage_in_memory();
    let id = sample_id();
    storage.save_capture(&id, &[0u8]).expect("save");

    storage.delete_capture(&id).expect("delete");

    assert!(!storage.screenshot_exists(&id));
}

#[test]
fn deleting_a_missing_file_is_handled_gracefully() {
    let mut storage = storage_in_memory();
    storage.delete_capture(&sample_id()).expect("delete of missing file should be Ok");
}

#[test]
fn paths_cannot_escape_the_media_directory() {
    let mut storage = storage_in_memory();

    for malicious_id in ["../../../etc/passwd", "..\\..\\windows\\system32", "/etc/passwd", "a/b"] {
        let result = storage.save_capture(malicious_id, &[0u8]);
        assert!(
            matches!(result, Err(AppError::Validation(_))),
            "expected {malicious_id:?} to be rejected as an invalid capture id"
        );
    }

    assert!(storage.directory().names().unwrap().is_empty(), "no file should have been written from a malicious id");
}

#[test]
fn reconcile_removes_only_orphaned_png_files() {
    let mut storage = storage_in_memory();
    let kept_id = sample_id();
    let orphan_id = sample_id();
    storage.save_capture(&kept_id, &[0u8]).expect("save kept");
    storage.save_capture(&orphan_id, &[0u8]).expect("save orphan");
    storage.directory_mut().write("notes.txt", b"hello").unwrap();

    let known = vec![kept_id.clone()];

    let removed = storage.reconcile(&known).expect("reconcile");

    assert_eq!(removed, 1);
    assert!(storage.screenshot_exists(&kept_id), "known capture's media must survive reconciliation");
    assert!(!storage.screenshot_exists(&orphan_id), "orphaned capture's media must be removed");
    assert!(storage.directory().contains("notes.txt"), "non-PNG files must be left alone");
}

#[test]
fn video_path_is_the_capture_id_with_an_mp4_extension() {
    let storage = storage_in_memory();
    let id = sample_id();

    let path = storage.video_path(&id).expect("video_path");

    assert_eq!(path, format!("{id}.mp4"));
}

#[test]
fn video_path_rejects_a_malicious_id() {
    let storage = storage_in_memory();
    let result = storage.video_path("../../../etc/passwd");
    assert!(matches!(result, Err(AppError::Validation(_))));
}

#[test]
fn video_exists_reflects_whether_the_file_is_on_disk() {
    let mut storage = storage_in_memory();
    let id = sample_id();

    assert!(!storage.video_exists(&id), "should not exist before it's written");
    write_video(&mut storage, &id, b"not a real mp4, just bytes");
    assert!(storage.video_exists(&id), "should exist once the file is on disk");
}

#[test]
fn read_video_round_trips_the_same_bytes() {
    let mut storage = storage_in_memory();
    let id = sample_id();
    let bytes = vec![1, 2, 3, 4, 5];
    write_video(&mut storage, &id, &bytes);

    let read_back = storage.read_video(&id).expect("read");
    assert_eq!(read_back, bytes);
}

#[test]
fn read_missing_video_returns_not_found() {
    let storage = storage_in_memory();
    let result = storage.read_video(&sample_id());
    assert!(matches!(result, Err(AppError::NotFound)));
}

#[test]
fn delete_video_removes_the_file_and_is_a_graceful_no_op_when_missing() {
    let mut storage = storage_in_memory();
    let id = sample_id();
    write_video(&mut storage, &id, b"bytes");

    storage.delete_video(&id).expect("delete");
    assert!(!storage.video_exists(&id));

    storage.delete_video(&id).expect("delete of missing video should be Ok");
}

#[test]
fn reconcile_also_removes_orphaned_mp4_files_but_keeps_known_ones() {
    let mut storage = storage_in_memory();
    let kept_id = sample_id();
    let orphan_id = sample_id();
    write_video(&mut storage, &kept_id, b"kept");
    write_video(&mut storage, &orphan_id, b"orphaned");

    let known = vec![kept_id.clone()];

    let removed = storage.reconcile(&known).expect("reconcile");

    assert_eq!(removed, 1);
    assert!(storage.video_exists(&kept_id), "known recording's media must survive reconciliation");
    assert!(!storage.video_exists(&orphan_id), "orphaned recording's media must be removed");
}

#[test]
fn reconcile_on_a_missing_directory_is_a_safe_no_op() {
    let mut storage = storage_in_memory();
    let removed = storage.reconcile(&Vec::new()).expect("reconcile should not error");
    assert_eq!(removed, 0);
}

#[test]
fn reconcile_counts_each_removed_file_once_and_skips_hidden_and_other_files() {
    let mut storage = storage_in_memory();
    for name in [".png", "x.png.bak", "archive.mp4.part", "y.PNG", "a.b.png", "z.mp4"] {
        storage.directory_mut().write(name, b"1").unwrap();
    }
    let removed = storage.reconcile(&vec!["z".to_string()]).expect("reconcile");
    assert_eq!(removed, 1, "only a.b.png is an orphan: stems compare before the last dot");
    let mut left = storage.directory().names().unwrap();
    left.sort();
    assert_eq!(left, vec![".png", "archive.mp4.part", "x.png.bak", "y.PNG", "z.mp4"]);
}

#[test]
fn media_stem_is_the_text_before_the_last_dot_of_a_media_file() {
    assert_eq!(media_stem_of("abc.png").as_deref(), Some("abc"));
    assert_eq!(media_stem_of("a.b.mp4").as_deref(), Some("a.b"));
    assert_eq!(media_stem_of(".png"), None);
    assert_eq!(media_stem_of("abc.txt"), None);
    assert_eq!(media_stem_of("abc"), None);
    assert_eq!(media_stem_of("abc.PNG"), None);
}

#[test]
fn accepted_uuid_forms_follow_the_uuid_crate() {
    let mut storage = storage_in_memory();
    let id = "67E55044-10B1-426F-9247-BB680E5FE0C8";
    storage.save_capture(id, &[1]).expect("an uppercase hyphenated uuid is accepted");
    assert!(storage.screenshot_exists(id));
    assert!(storage.save_capture("urn:uuid:67e55044-10b1-426f-9247-bb680e5fe0c8", &[1]).is_ok());
    assert!(matches!(storage.save_capture("67e55044-10b1-426f-9247-bb680e5fe0c", &[1]), Err(AppError::Validation(_))));
}
