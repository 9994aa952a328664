use trove::db::Database;
use trove::links::EntityLinkService;

fn svc(dir: &std::path::Path) -> EntityLinkService {
    let path = dir.join("links.db");
    let db = Database::open(path.to_str().unwrap()).ok().unwrap();
    EntityLinkService::new(db)
}

fn fresh_id() -> u128 {
    uuid::Uuid::new_v4().as_u128()
}

#[test]
fn link_is_idempotent() {
    let dir = tempfile::tempdir().unwrap();
    let svc = svc(dir.path());
    let task = fresh_id();
    let asset = fresh_id();
    let a = svc.link("task", task, "asset", asset, "attachment").ok().unwrap();
    let b = svc.link("task", task, "asset", asset, "attachment").ok().unwrap();
    assert_eq!(a.id, b.id);
    assert_eq!(svc.reference_count("asset", asset).ok().unwrap(), 1);
}

#[test]
fn invalid_type_or_kind_rejected() {
    let dir = tempfile::tempdir().unwrap();
    let svc = svc(dir.path());
    let id = fresh_id();
    assert!(svc.link("bogus", id, "asset", id, "attachment").is_err());
    assert!(svc.link("task", id, "asset", id, "bogus").is_err());
}

#[test]
fn outgoing_incoming_unlink_purge() {
    let dir = tempfile::tempdir().unwrap();
    let svc = svc(dir.path());
    let memory = fresh_id();
    let task = fresh_id();
    let asset = fresh_id();

    svc.link("memory", memory, "task", task, "converted_to").ok().unwrap();
    svc.link("memory", memory, "asset", asset, "attachment").ok().unwrap();

    let outgoing = svc.list_outgoing("memory", memory).ok().unwrap();
    assert_eq!(outgoing.len(), 2);
    let incoming_asset = svc.list_incoming("asset", asset).ok().unwrap();
    assert_eq!(incoming_asset.len(), 1);
    let incoming_task = svc.list_incoming("task", task).ok().unwrap();
    assert_eq!(incoming_task.len(), 1);
    let both = svc.list_for_entity("memory", memory).ok().unwrap();
    assert_eq!(both.len(), 2);
    assert!(svc.is_referenced("asset", asset).ok().unwrap());

    let link_id = incoming_asset[0].id;
    svc.unlink(link_id).ok().unwrap();
    assert!(!svc.is_referenced("asset", asset).ok().unwrap());
    assert_eq!(svc.list_outgoing("memory", memory).ok().unwrap().len(), 1);

    let purged = svc.purge_for_source("memory", memory).ok().unwrap();
    assert_eq!(purged, 1);
    assert!(svc.list_outgoing("memory", memory).ok().unwrap().is_empty());
}

#[test]
fn link_rejects_bad_type_with_validation_error() {
    let dir = tempfile::tempdir().unwrap();
    let svc = svc(dir.path());
    let id = fresh_id();
    assert!(matches!(
        svc.link("task", id, "nowhere", id, "related"),
        Err(trove::domain::DomainError::Validation(_))
    ));
}
