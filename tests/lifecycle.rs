use pal_server_cli::error::PsmError;
use pal_server_cli::local_storage::{LocalSaveStorageConfig, LocalStorage, Script, SshConfig};
use pal_server_cli::protocol::{Action, Event};
use pal_server_cli::provision::{PriceQuote, SecurityGroup};
use pal_server_cli::psm::{PalServerManager, SETTLE_SECS, STEP_PAUSE_SECS};
use pal_server_cli::server_status::{
    InstanceShape, Server, ServerManager, ServiceInstanceType, Status,
};

fn manager(servers: Vec<Server>) -> PalServerManager {
    let storage = LocalStorage::new(LocalSaveStorageConfig {
        local_dir: "/data/psm".to_string(),
        remote_dir: "/home/ubuntu/psm".to_string(),
        ssh: SshConfig { prikey: "/keys/id".to_string(), user: "ubuntu".to_string() },
    });
    PalServerManager::new(ServerManager::new("servers.toml", servers), storage)
}

fn running(name: &str) -> Server {
    Server {
        name: name.to_string(),
        status: Status::Running,
        service_instance_type: ServiceInstanceType::T4C16G,
        save: Some("save-old.tar".to_string()),
        ip: Some("10.0.0.7".to_string()),
        region: Some("ap-shanghai".to_string()),
        instance_id: Some("ins-7".to_string()),
    }
}

fn stopped(name: &str) -> Server {
    Server {
        name: name.to_string(),
        status: Status::Stopped,
        service_instance_type: ServiceInstanceType::T4C16G,
        save: Some("save-old.tar".to_string()),
        ip: None,
        region: None,
        instance_id: None,
    }
}

fn record(m: &PalServerManager, name: &str) -> Server {
    m.server_status().get(name).unwrap()
}

fn expect_sleep(a: Action, secs: u64) {
    match a {
        Action::Sleep(n) => assert_eq!(n, secs),
        other => panic!("expected a sleep, got {:?}", other),
    }
}

fn expect_script(a: Action, ip: &str, script: Script) {
    match a {
        Action::RunScript { ip: i, script: s } => {
            assert_eq!(i, ip);
            assert_eq!(s, script);
        }
        other => panic!("expected a script run, got {:?}", other),
    }
}

/// Answers the provisioning actions with one candidate that is always created.
fn provision_one(m: &mut PalServerManager, first: Action, ip: &str) -> Action {
    assert!(matches!(first, Action::QuerySpotPrices { .. }));
    let quote = PriceQuote {
        price: 120,
        region: "ap-nanjing".to_string(),
        zone: "ap-nanjing-1".to_string(),
        shape: InstanceShape::SA2Medium2,
    };
    assert!(matches!(m.step(Event::Prices(vec![quote])), Action::ListKeyPairs { .. }));
    assert!(matches!(
        m.step(Event::KeyPairs(vec!["key-1".to_string()])),
        Action::ListSecurityGroups { .. }
    ));
    let groups = vec![SecurityGroup { name: "palworld".to_string(), id: "sg-1".to_string() }];
    assert!(matches!(m.step(Event::SecurityGroups(groups)), Action::RunInstance { .. }));
    assert!(matches!(
        m.step(Event::Created("ins-new".to_string())),
        Action::QueryAddress { .. }
    ));
    m.step(Event::Address(ip.to_string()))
}

#[test]
fn new_save_on_empty_registry_brings_up_a_running_server() {
    let mut m = manager(vec![]);
    let first = m.new_save("foo");
    let a = provision_one(&mut m, first, "10.9.9.9");
    assert!(matches!(a, Action::Persist));
    assert_eq!(m.server_status().servers().len(), 1);
    let s = record(&m, "foo");
    assert_eq!(s.status, Status::Running);
    assert_eq!(s.ip.as_deref(), Some("10.9.9.9"));
    assert_eq!(s.region.as_deref(), Some("ap-nanjing"));
    assert_eq!(s.instance_id.as_deref(), Some("ins-new"));
    assert_eq!(s.save, None);
    assert_eq!(s.service_instance_type, ServiceInstanceType::T2C2G);

    expect_sleep(m.step(Event::Done), SETTLE_SECS);
    match m.step(Event::Done) {
        Action::UploadScripts { ip } => assert_eq!(ip, "10.9.9.9"),
        other => panic!("unexpected {:?}", other),
    }
    expect_script(m.step(Event::Done), "10.9.9.9", Script::InstallServer);
    expect_sleep(m.step(Event::ScriptOutput("installed".to_string())), STEP_PAUSE_SECS);
    // no save yet: the restore is skipped
    expect_sleep(m.step(Event::Done), STEP_PAUSE_SECS);
    expect_script(m.step(Event::Done), "10.9.9.9", Script::StartServer);
    match m.step(Event::ScriptOutput("started".to_string())) {
        Action::Finish(r) => assert_eq!(r, Ok(())),
        other => panic!("unexpected {:?}", other),
    }
    assert_eq!(m.server_status().servers().len(), 1);
    assert!(record(&m, "foo").is_consistent());
}

#[test]
fn new_save_with_existing_name_conflicts() {
    let mut m = manager(vec![stopped("foo")]);
    match m.new_save("foo") {
        Action::Finish(r) => assert_eq!(r, Err(PsmError::Conflict)),
        other => panic!("unexpected {:?}", other),
    }
    assert_eq!(m.server_status().servers().len(), 1);
}

#[test]
fn new_save_fails_when_no_candidate_can_be_created() {
    let mut m = manager(vec![]);
    m.new_save("foo");
    m.step(Event::Prices(vec![]));
    match m.step(Event::KeyPairs(vec![])) {
        Action::Finish(r) => assert_eq!(r, Err(PsmError::ProvisioningExhausted)),
        other => panic!("unexpected {:?}", other),
    }
    assert_eq!(m.server_status().servers().len(), 0);
}

#[test]
fn save_backup_records_the_reported_save() {
    let mut m = manager(vec![running("foo")]);
    expect_script(m.save_backup("foo"), "10.0.0.7", Script::BackupSave);
    match m.step(Event::ScriptOutput("save-2024-01-01.tar".to_string())) {
        Action::DownloadSave { save, ip } => {
            assert_eq!(save, "save-2024-01-01.tar");
            assert_eq!(ip, "10.0.0.7");
        }
        other => panic!("unexpected {:?}", other),
    }
    assert!(matches!(m.step(Event::Done), Action::Persist));
    assert_eq!(record(&m, "foo").save.as_deref(), Some("save-2024-01-01.tar"));
    match m.step(Event::Done) {
        Action::Finish(r) => assert_eq!(r, Ok(())),
        other => panic!("unexpected {:?}", other),
    }
    assert_eq!(record(&m, "foo").status, Status::Running);
}

#[test]
fn save_backup_of_unknown_or_stopped_server_fails() {
    let mut m = manager(vec![stopped("foo")]);
    match m.save_backup("bar") {
        Action::Finish(r) => assert_eq!(r, Err(PsmError::NotFound)),
        other => panic!("unexpected {:?}", other),
    }
    match m.save_backup("foo") {
        Action::Finish(r) => assert_eq!(r, Err(PsmError::NotRunning)),
        other => panic!("unexpected {:?}", other),
    }
}

#[test]
fn stop_server_on_stopped_server_is_not_running() {
    let mut m = manager(vec![stopped("foo")]);
    match m.stop_server("foo") {
        Action::Finish(r) => assert_eq!(r, Err(PsmError::NotRunning)),
        other => panic!("unexpected {:?}", other),
    }
    assert_eq!(record(&m, "foo").status, Status::Stopped);
}

#[test]
fn stop_server_backs_up_terminates_and_clears_the_instance() {
    let mut m = manager(vec![running("foo")]);
    expect_script(m.stop_server("foo"), "10.0.0.7", Script::BackupSave);
    assert!(matches!(
        m.step(Event::ScriptOutput("save-9.tar".to_string())),
        Action::DownloadSave { .. }
    ));
    assert!(matches!(m.step(Event::Done), Action::Persist));
    match m.step(Event::Done) {
        Action::Terminate { region, instance_id } => {
            assert_eq!(region, "ap-shanghai");
            assert_eq!(instance_id, "ins-7");
        }
        other => panic!("unexpected {:?}", other),
    }
    assert!(matches!(m.step(Event::Done), Action::Persist));
    let s = record(&m, "foo");
    assert_eq!(s.status, Status::Stopped);
    assert_eq!(s.ip, None);
    assert_eq!(s.region, None);
    assert_eq!(s.instance_id, None);
    assert_eq!(s.save.as_deref(), Some("save-9.tar"));
    match m.step(Event::Done) {
        Action::Finish(r) => assert_eq!(r, Ok(())),
        other => panic!("unexpected {:?}", other),
    }
}

#[test]
fn restart_save_on_live_server_is_already_running() {
    let mut m = manager(vec![running("foo")]);
    match m.restart_save("foo") {
        Action::Probe { ip } => assert_eq!(ip, "10.0.0.7"),
        other => panic!("unexpected {:?}", other),
    }
    assert!(matches!(m.step(Event::Alive(true)), Action::Persist));
    match m.step(Event::Done) {
        Action::Finish(r) => assert_eq!(r, Err(PsmError::AlreadyRunning)),
        other => panic!("unexpected {:?}", other),
    }
    assert_eq!(record(&m, "foo").instance_id.as_deref(), Some("ins-7"));
}

#[test]
fn restart_save_of_dead_instance_provisions_and_restores() {
    let mut m = manager(vec![running("foo")]);
    m.restart_save("foo");
    assert!(matches!(m.step(Event::Alive(false)), Action::Persist));
    assert_eq!(record(&m, "foo").status, Status::Stopped);
    assert_eq!(record(&m, "foo").ip, None);
    let first = m.step(Event::Done);
    match &first {
        Action::QuerySpotPrices { shapes, .. } => {
            assert_eq!(shapes, &ServiceInstanceType::T4C16G.to_list())
        }
        other => panic!("unexpected {:?}", other),
    }
    assert!(matches!(provision_one(&mut m, first, "10.4.4.4"), Action::Persist));
    let s = record(&m, "foo");
    assert_eq!(s.status, Status::Running);
    assert_eq!(s.ip.as_deref(), Some("10.4.4.4"));
    assert_eq!(s.save.as_deref(), Some("save-old.tar"));
    expect_sleep(m.step(Event::Done), SETTLE_SECS);
    assert!(matches!(m.step(Event::Done), Action::UploadScripts { .. }));
    expect_script(m.step(Event::Done), "10.4.4.4", Script::InstallServer);
    expect_sleep(m.step(Event::ScriptOutput(String::new())), STEP_PAUSE_SECS);
    match m.step(Event::Done) {
        Action::UploadSave { save, ip } => {
            assert_eq!(save, "save-old.tar");
            assert_eq!(ip, "10.4.4.4");
        }
        other => panic!("unexpected {:?}", other),
    }
    expect_script(m.step(Event::Done), "10.4.4.4", Script::RestoreSave);
    expect_sleep(m.step(Event::ScriptOutput(String::new())), STEP_PAUSE_SECS);
    expect_script(m.step(Event::Done), "10.4.4.4", Script::StartServer);
    assert!(matches!(m.step(Event::ScriptOutput(String::new())), Action::Finish(Ok(()))));
}

#[test]
fn restart_save_of_unknown_server_is_not_found() {
    let mut m = manager(vec![]);
    match m.restart_save("foo") {
        Action::Finish(r) => assert_eq!(r, Err(PsmError::NotFound)),
        other => panic!("unexpected {:?}", other),
    }
}

#[test]
fn outside_failure_aborts_the_operation() {
    let mut m = manager(vec![running("foo")]);
    m.save_backup("foo");
    match m.step(Event::Failed(PsmError::AuthError)) {
        Action::Finish(r) => assert_eq!(r, Err(PsmError::AuthError)),
        other => panic!("unexpected {:?}", other),
    }
    assert_eq!(record(&m, "foo").save.as_deref(), Some("save-old.tar"));
    match m.step(Event::Done) {
        Action::Finish(r) => assert_eq!(r, Err(PsmError::UnexpectedEvent)),
        other => panic!("unexpected {:?}", other),
    }
}

#[test]
fn self_test_restores_and_starts_the_test_record() {
    let mut m = manager(vec![running("test")]);
    match m.test() {
        Action::UploadSave { save, ip } => {
            assert_eq!(save, "save-old.tar");
            assert_eq!(ip, "10.0.0.7");
        }
        other => panic!("unexpected {:?}", other),
    }
    expect_script(m.step(Event::Done), "10.0.0.7", Script::RestoreSave);
    expect_sleep(m.step(Event::ScriptOutput(String::new())), STEP_PAUSE_SECS);
    expect_script(m.step(Event::Done), "10.0.0.7", Script::StartServer);
    assert!(matches!(m.step(Event::ScriptOutput(String::new())), Action::Finish(Ok(()))));
    let mut empty = manager(vec![]);
    assert!(matches!(empty.test(), Action::Finish(Err(PsmError::NotFound))));
}

#[test]
fn failed_terminate_keeps_the_backed_up_record() {
    let mut m = manager(vec![running("foo")]);
    m.stop_server("foo");
    m.step(Event::ScriptOutput("save-5.tar".to_string()));
    assert!(matches!(m.step(Event::Done), Action::Persist));
    assert!(matches!(m.step(Event::Done), Action::Terminate { .. }));
    match m.step(Event::Failed(PsmError::CloudError)) {
        Action::Finish(r) => assert_eq!(r, Err(PsmError::CloudError)),
        other => panic!("unexpected {:?}", other),
    }
    let s = record(&m, "foo");
    assert_eq!(s.save.as_deref(), Some("save-5.tar"));
    assert_eq!(s.status, Status::Running);
    assert_eq!(s.instance_id.as_deref(), Some("ins-7"));
}
