use pal_server_cli::local_storage::{
    poll_finished, result_line, save_path, uploaded_scripts, LocalSaveStorageConfig, LocalStorage,
    Script, ShellPhase, ShellStep, SshConfig, CHECK_INTERVAL, TAIL_COMMAND,
};

fn storage() -> LocalStorage {
    LocalStorage::new(LocalSaveStorageConfig {
        local_dir: "/data/psm".to_string(),
        remote_dir: "/home/ubuntu/psm".to_string(),
        ssh: SshConfig { prikey: "/keys/id".to_string(), user: "ubuntu".to_string() },
    })
}

#[test]
fn poll_output_zero_means_finished() {
    assert!(poll_finished("0"));
    assert!(poll_finished("0\n"));
    assert!(poll_finished("  0 \r\n"));
}

#[test]
fn poll_output_other_counts_mean_running() {
    assert!(!poll_finished("1\n"));
    assert!(!poll_finished("10\n"));
    assert!(!poll_finished("00"));
    assert!(!poll_finished("0 0"));
    assert!(!poll_finished(""));
    assert!(!poll_finished(" \n"));
}

#[test]
fn result_line_drops_the_line_terminator() {
    assert_eq!(result_line("save-2024-01-01.tar\n"), "save-2024-01-01.tar");
    assert_eq!(result_line("save-2024-01-01.tar\r\n"), "save-2024-01-01.tar");
    assert_eq!(result_line("save-2024-01-01.tar"), "save-2024-01-01.tar");
    assert_eq!(result_line(""), "");
    assert_eq!(result_line("\n"), "");
}

#[test]
fn script_names_and_paths() {
    assert_eq!(Script::InstallServer.file_name(), "install_server.sh");
    assert_eq!(Script::RestoreSave.path(), "/scripts/restore_save.sh");
    assert_eq!(Script::BackupSave.path(), "/scripts/backup_save.sh");
    assert_eq!(save_path("save-1.tar"), "/saves/save-1.tar");
    assert_eq!(
        uploaded_scripts(),
        vec![Script::InstallServer, Script::RestoreSave, Script::StartServer, Script::BackupSave]
    );
}

#[test]
fn remote_commands() {
    let st = storage();
    assert_eq!(
        st.launch_command(Script::StartServer),
        "(sh /home/ubuntu/psm/scripts/start_server.sh >> /tmp/shell_log.log 2>&1 &)"
    );
    assert_eq!(
        Script::BackupSave.poll_command(),
        "ps -ef | grep backup_save.sh | grep -v grep | wc -l"
    );
    assert_eq!(st.sftp_endpoint("10.0.0.1"), "ssh://ubuntu@10.0.0.1:22");
    assert_eq!(st.config().ssh.user, "ubuntu");
}

#[test]
fn shell_run_launches_polls_and_reads_the_result() {
    let st = storage();
    let (mut run, first) = st.start_shell(Script::BackupSave);
    match first {
        ShellStep::Exec(c) => assert!(c.starts_with("(sh /home/ubuntu/psm/scripts/backup_save.sh")),
        other => panic!("unexpected {:?}", other),
    }
    match run.on_output("") {
        ShellStep::Exec(c) => assert_eq!(c, "ps -ef | grep backup_save.sh | grep -v grep | wc -l"),
        other => panic!("unexpected {:?}", other),
    }
    match run.on_output("1\n") {
        ShellStep::WaitThenExec(secs, c) => {
            assert_eq!(secs, CHECK_INTERVAL);
            assert_eq!(secs, 5);
            assert_eq!(c, "ps -ef | grep backup_save.sh | grep -v grep | wc -l");
        }
        other => panic!("unexpected {:?}", other),
    }
    match run.on_output("0\n") {
        ShellStep::Exec(c) => assert_eq!(c, TAIL_COMMAND),
        other => panic!("unexpected {:?}", other),
    }
    assert_eq!(run.phase, ShellPhase::Tailing);
    match run.on_output("save-2024-01-01.tar\n") {
        ShellStep::Finished(p) => assert_eq!(p, "save-2024-01-01.tar"),
        other => panic!("unexpected {:?}", other),
    }
    assert!(run.is_done());
}

#[test]
fn poll_output_with_other_white_space() {
    assert!(poll_finished("0\u{c}"));
    assert!(poll_finished("\u{b}0\u{a0}"));
    assert!(!poll_finished("0\u{c}1"));
}

#[test]
fn storage_keeps_its_whole_config() {
    let st = storage();
    assert_eq!(st.config().local_dir, "/data/psm");
    assert_eq!(st.config().remote_dir, "/home/ubuntu/psm");
    assert_eq!(st.config().ssh.prikey, "/keys/id");
    assert_eq!(st.config().ssh.user, "ubuntu");
}
