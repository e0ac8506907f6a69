use pal_server_cli::error::PsmError;
use pal_server_cli::server_status::{
    InstanceShape, Server, ServerManager, ServiceInstanceType, Status,
};

fn stopped(name: &str) -> Server {
    Server {
        name: name.to_string(),
        status: Status::Stopped,
        service_instance_type: ServiceInstanceType::T4C16G,
        save: Some("save-1.tar".to_string()),
        ip: None,
        region: None,
        instance_id: None,
    }
}

fn running(name: &str) -> Server {
    Server {
        name: name.to_string(),
        status: Status::Running,
        service_instance_type: ServiceInstanceType::T2C2G,
        save: None,
        ip: Some("10.0.0.1".to_string()),
        region: Some("ap-nanjing".to_string()),
        instance_id: Some("ins-1".to_string()),
    }
}

fn same(a: &Server, b: &Server) -> bool {
    a.name == b.name
        && a.status == b.status
        && a.service_instance_type == b.service_instance_type
        && a.save == b.save
        && a.ip == b.ip
        && a.region == b.region
        && a.instance_id == b.instance_id
}

#[test]
fn add_then_get_returns_the_added_record() {
    let mut reg = ServerManager::new("servers.toml", vec![stopped("alpha")]);
    let s = running("foo");
    assert_eq!(reg.add(&s), Ok(()));
    let got = reg.get("foo").unwrap();
    assert!(same(&got, &s));
    assert_eq!(reg.servers().len(), 2);
}

#[test]
fn add_duplicate_name_conflicts_and_leaves_registry() {
    let mut reg = ServerManager::new("servers.toml", vec![stopped("foo")]);
    assert_eq!(reg.add(&running("foo")), Err(PsmError::Conflict));
    assert_eq!(reg.servers().len(), 1);
    assert!(same(&reg.get("foo").unwrap(), &stopped("foo")));
}

#[test]
fn get_unknown_name_is_not_found() {
    let reg = ServerManager::new("servers.toml", vec![]);
    assert_eq!(reg.get("foo").unwrap_err(), PsmError::NotFound);
}

#[test]
fn update_unknown_name_is_not_found_and_leaves_registry() {
    let mut reg = ServerManager::new("servers.toml", vec![stopped("alpha")]);
    assert_eq!(reg.update("foo", &running("foo")), Err(PsmError::NotFound));
    assert_eq!(reg.servers().len(), 1);
    assert!(same(&reg.servers()[0], &stopped("alpha")));
}

#[test]
fn update_replaces_only_the_named_record() {
    let mut reg = ServerManager::new(
        "servers.toml",
        vec![stopped("alpha"), stopped("foo"), stopped("omega")],
    );
    assert_eq!(reg.update("foo", &running("foo")), Ok(()));
    assert!(same(&reg.servers()[0], &stopped("alpha")));
    assert!(same(&reg.servers()[1], &running("foo")));
    assert!(same(&reg.servers()[2], &stopped("omega")));
    assert_eq!(reg.path(), "servers.toml");
}

#[test]
fn lookup_is_by_exact_name() {
    let reg = ServerManager::new("servers.toml", vec![stopped("foo")]);
    assert_eq!(reg.get("Foo").unwrap_err(), PsmError::NotFound);
    assert_eq!(reg.get("fo").unwrap_err(), PsmError::NotFound);
}

#[test]
fn instance_triple_consistency() {
    assert!(running("a").is_consistent());
    assert!(stopped("a").is_consistent());
    let mut half = running("a");
    half.region = None;
    assert!(!half.is_consistent());
    let mut stopped_with_ip = stopped("a");
    stopped_with_ip.ip = Some("10.0.0.2".to_string());
    assert!(!stopped_with_ip.is_consistent());
    let mut r = running("a");
    r.release_instance();
    assert!(r.is_consistent());
    assert_eq!(r.status, Status::Stopped);
    assert_eq!(r.ip, None);
    assert_eq!(r.region, None);
    assert_eq!(r.instance_id, None);
}

#[test]
fn tiers_map_to_their_shapes() {
    assert_eq!(
        ServiceInstanceType::T2C2G.to_list(),
        vec![InstanceShape::SA2Medium2, InstanceShape::S5Medium2]
    );
    assert_eq!(ServiceInstanceType::T4C16G.to_list().len(), 5);
    assert_eq!(ServiceInstanceType::T4C32G.to_list()[0], InstanceShape::MA3Large32);
    assert_eq!(
        ServiceInstanceType::T2C16G.to_list(),
        vec![InstanceShape::MA3Medium16, InstanceShape::M5Medium16]
    );
}

#[test]
fn clone_keeps_every_field() {
    let s = running("foo");
    assert!(same(&s.clone(), &s));
}

#[test]
fn shapes_have_provider_codes() {
    assert_eq!(InstanceShape::SA2Medium2.code(), "SA2.MEDIUM2");
    assert_eq!(InstanceShape::MA5Large32.code(), "MA5.LARGE32");
}

#[test]
fn inconsistent_records_are_released_on_repair() {
    let mut leftover = stopped("old");
    leftover.region = Some("ap-nanjing".to_string());
    let mut reg = ServerManager::new("servers.toml", vec![running("a"), leftover, stopped("b")]);
    reg.release_inconsistent();
    assert!(same(&reg.servers()[0], &running("a")));
    assert!(same(&reg.servers()[1], &stopped("old")));
    assert!(same(&reg.servers()[2], &stopped("b")));
    assert!(reg.servers().iter().all(|s| s.is_consistent()));
}
