use trove::db::Database;
use trove::file_refs::{extension, file_name, mime_for_path, FileReferenceService};

fn svc(dir: &std::path::Path) -> FileReferenceService {
    let db = Database::open(dir.join("files.db").to_str().unwrap()).ok().unwrap();
    FileReferenceService::new(db)
}

#[test]
fn file_name_follows_path_rules() {
    assert_eq!(file_name("a/b/c.txt"), Some("c.txt".to_string()));
    assert_eq!(file_name("c.txt"), Some("c.txt".to_string()));
    assert_eq!(file_name("a/b/"), Some("b".to_string()));
    assert_eq!(file_name("a/."), Some("a".to_string()));
    assert_eq!(file_name("a/.."), None);
    assert_eq!(file_name("/"), None);
    assert_eq!(file_name(""), None);
}

#[test]
fn extension_follows_path_rules() {
    assert_eq!(extension("report.tar.gz"), Some("gz".to_string()));
    assert_eq!(extension(".bashrc"), None);
    assert_eq!(extension("noext"), None);
    assert_eq!(extension("a."), Some(String::new()));
}

#[test]
fn mime_is_guessed_from_the_extension() {
    assert_eq!(mime_for_path("/tmp/photo.PNG"), Some("image/png".to_string()));
    assert_eq!(mime_for_path("/tmp/notes.txt"), Some("text/plain".to_string()));
    assert_eq!(mime_for_path("/tmp/README"), None);
    assert_eq!(mime_for_path("/tmp/x.unknownext"), None);
}

#[test]
fn create_attach_list_and_resolve() {
    let dir = tempfile::tempdir().unwrap();
    let svc = svc(dir.path());
    let file = tempfile::Builder::new().suffix(".md").tempfile_in(dir.path()).unwrap();
    let path = file.path().to_str().unwrap().to_string();

    let r = svc.create_from_path(&path, Some(12)).ok().unwrap();
    assert!(r.accessible);
    assert_eq!(r.byte_size, Some(12));
    assert_eq!(r.path_hint, path);
    assert_eq!(r.display_name, file.path().file_name().unwrap().to_str().unwrap());
    assert_eq!(r.mime_type, Some("text/markdown".to_string()));
    assert_eq!(svc.resolve_path(r.id).ok().unwrap(), path);

    let task = uuid::Uuid::new_v4().as_u128();
    let linked = svc.attach("task", task, r.id).ok().unwrap();
    assert_eq!(linked.file.id, r.id);
    let listed = svc.list_for_entity("task", task).ok().unwrap();
    assert_eq!(listed.len(), 1);
    assert_eq!(listed[0].file.id, r.id);
    assert_eq!(listed[0].link_id, linked.link_id);
}

#[test]
fn missing_file_is_recorded_but_not_resolved() {
    let dir = tempfile::tempdir().unwrap();
    let svc = svc(dir.path());
    let path = dir.path().join("gone.pdf");
    let r = svc.create_from_path(path.to_str().unwrap(), None).ok().unwrap();
    assert!(!r.accessible);
    assert_eq!(r.display_name, "gone.pdf");
    assert!(svc.resolve_path(r.id).is_err());
    let refreshed = svc.refresh_accessibility(r.id).ok().unwrap();
    assert!(!refreshed.accessible);
    assert_eq!(refreshed.revision, r.revision + 1);
}

#[test]
fn empty_path_is_refused_and_unknown_id_not_found() {
    let dir = tempfile::tempdir().unwrap();
    let svc = svc(dir.path());
    assert!(svc.create_from_path("", None).is_err());
    assert!(svc.get(uuid::Uuid::new_v4().as_u128()).is_err());
}

#[test]
fn relink_points_at_another_file() {
    let dir = tempfile::tempdir().unwrap();
    let svc = svc(dir.path());
    let r = svc.create_from_path(dir.path().join("old.txt").to_str().unwrap(), None).ok().unwrap();
    let file = tempfile::Builder::new().suffix(".csv").tempfile_in(dir.path()).unwrap();
    let p = file.path().to_str().unwrap();
    let moved = svc.relink(r.id, p, Some(3)).ok().unwrap();
    assert_eq!(moved.id, r.id);
    assert_eq!(moved.path_hint, p);
    assert!(moved.accessible);
    assert_eq!(moved.byte_size, Some(3));
}
