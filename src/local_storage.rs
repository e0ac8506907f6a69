use vstd::prelude::*;
use vstd::string::*;

verus! {

/// Where blobs live locally and remotely, and how to reach the remote host.
#[derive(Debug)]
pub struct LocalSaveStorageConfig {
    pub local_dir: String,
    pub remote_dir: String,
    pub ssh: SshConfig,
}

/// The identity used for remote sessions and file transfer.
#[derive(Debug)]
pub struct SshConfig {
    pub prikey: String,
    pub user: String,
}

/// The four maintenance scripts kept under `scripts/` on a host.
#[derive(PartialEq, Eq, Structural, Clone, Copy, Debug)]
pub enum Script {
    /// install_server.sh
    InstallServer,
    /// restore_save.sh
    RestoreSave,
    /// start_server.sh
    StartServer,
    /// backup_save.sh
    BackupSave,
}

pub const TAIL_COMMAND: &'static str = "tail -n 1 /tmp/shell_log.log";

/// Seconds between two queries of the remote process table.
pub const CHECK_INTERVAL: u64 = 5;

impl Script {
    pub open spec fn spec_file_name(self) -> Seq<char> {
        match self {
            Script::InstallServer => "install_server.sh"@,
            Script::RestoreSave => "restore_save.sh"@,
            Script::StartServer => "start_server.sh"@,
            Script::BackupSave => "backup_save.sh"@,
        }
    }

    pub fn file_name(&self) -> (r: &'static str)
        ensures
            r@ == self.spec_file_name(),
    {
        match self {
            Script::InstallServer => "install_server.sh",
            Script::RestoreSave => "restore_save.sh",
            Script::StartServer => "start_server.sh",
            Script::BackupSave => "backup_save.sh",
        }
    }

    /// The relative path of the script under a storage root.
    pub fn path(&self) -> (r: String)
        ensures
            r@ == "/scripts/"@ + self.spec_file_name(),
    {
        String::from_str("/scripts/").concat(self.file_name())
    }

    /// The command that counts the remote processes running this script.
    pub fn poll_command(&self) -> (r: String)
        ensures
            r@ == "ps -ef | grep "@ + self.spec_file_name() + " | grep -v grep | wc -l"@,
    {
        String::from_str("ps -ef | grep ").concat(self.file_name()).concat(
            " | grep -v grep | wc -l",
        )
    }
}

/// The scripts pushed to a newly provisioned host, in order.
pub open spec fn spec_uploaded_scripts() -> Seq<Script> {
    seq![Script::InstallServer, Script::RestoreSave, Script::StartServer, Script::BackupSave]
}

pub fn uploaded_scripts() -> (r: Vec<Script>)
    ensures
        r@ == spec_uploaded_scripts(),
{
    let r = vec![Script::InstallServer, Script::RestoreSave, Script::StartServer, Script::BackupSave];
    assert(r@ =~= spec_uploaded_scripts());
    r
}

/// The relative path of a save blob under a storage root.
pub fn save_path(save_name: &str) -> (r: String)
    ensures
        r@ == "/saves/"@ + save_name@,
{
    String::from_str("/saves/").concat(save_name)
}

/// `c` is white space in the Unicode sense.
pub open spec fn is_blank(c: char) -> bool {
    ('\u{9}' <= c && c <= '\u{d}') || c == ' ' || c == '\u{85}' || c == '\u{a0}' || c
        == '\u{1680}' || ('\u{2000}' <= c && c <= '\u{200a}') || c == '\u{2028}' || c
        == '\u{2029}' || c == '\u{202f}' || c == '\u{205f}' || c == '\u{3000}'
}

fn is_blank_char(c: char) -> (r: bool)
    ensures
        r == is_blank(c),
{
    ('\u{9}' <= c && c <= '\u{d}') || c == ' ' || c == '\u{85}' || c == '\u{a0}' || c
        == '\u{1680}' || ('\u{2000}' <= c && c <= '\u{200a}') || c == '\u{2028}' || c
        == '\u{2029}' || c == '\u{202f}' || c == '\u{205f}' || c == '\u{3000}'
}

/// The text, apart from blanks around it, is the single digit zero.
pub open spec fn reports_zero(s: Seq<char>) -> bool {
    exists|i: int|
        0 <= i < s.len() && #[trigger] s[i] == '0' && forall|j: int|
            0 <= j < s.len() && j != i ==> is_blank(#[trigger] s[j])
}

/// In a text that reports zero, the digit is its only character that is not blank.
proof fn lemma_zero_is_only_nonblank(s: Seq<char>, p: int)
    requires
        reports_zero(s),
        0 <= p < s.len(),
        !is_blank(s[p]),
    ensures
        s[p] == '0',
        forall|j: int| 0 <= j < s.len() && j != p ==> is_blank(#[trigger] s[j]),
{
    let k = choose|k: int|
        0 <= k < s.len() && #[trigger] s[k] == '0' && forall|j: int|
            0 <= j < s.len() && j != k ==> is_blank(#[trigger] s[j]);
    assert(k == p);
}

/// Whether a process count read back from the host says that no process is left.
pub fn poll_finished(output: &str) -> (r: bool)
    ensures
        r == reports_zero(output@),
{
    let n = output.unicode_len();
    let mut first: Option<usize> = None;
    let mut i: usize = 0;
    while i < n
        invariant
            n == output@.len(),
            i <= n,
            first is None ==> forall|j: int| 0 <= j < i ==> is_blank(#[trigger] output@[j]),
            first matches Some(p) ==> p < i && !is_blank(output@[p as int]) && forall|j: int|
                0 <= j < i && j != p ==> is_blank(#[trigger] output@[j]),
        decreases n - i,
    {
        let c = output.get_char(i);
        if !is_blank_char(c) {
            match first {
                Some(p) => {
                    proof {
                        if reports_zero(output@) {
                            lemma_zero_is_only_nonblank(output@, p as int);
                            assert(is_blank(output@[i as int]));
                        }
                    }
                    return false;
                },
                None => {
                    first = Some(i);
                },
            }
        }
        i = i + 1;
    }
    match first {
        None => {
            assert(!reports_zero(output@));
            false
        },
        Some(p) => {
            let c = output.get_char(p);
            proof {
                if reports_zero(output@) {
                    lemma_zero_is_only_nonblank(output@, p as int);
                }
            }
            if c == '0' {
                assert(reports_zero(output@));
                true
            } else {
                false
            }
        },
    }
}

/// The last log line without its line terminator (`\n` or `\r\n`).
pub open spec fn without_terminator(s: Seq<char>) -> Seq<char> {
    if s.len() > 0 && s.last() == '\n' {
        if s.len() > 1 && s[s.len() - 2] == '\r' {
            s.subrange(0, s.len() - 2)
        } else {
            s.drop_last()
        }
    } else {
        s
    }
}

/// The payload that a finished script reports: the tail of its log, without the
/// line terminator.
pub fn result_line(output: &str) -> (r: String)
    ensures
        r@ == without_terminator(output@),
{
    let n = output.unicode_len();
    let mut end: usize = n;
    if n > 0 && output.get_char(n - 1) == '\n' {
        end = n - 1;
        if n > 1 && output.get_char(n - 2) == '\r' {
            end = n - 2;
        }
    }
    let r = String::from_str(output.substring_char(0, end));
    assert(r@ =~= without_terminator(output@));
    r
}

/// Local and remote storage roots, and the remote identity.
#[derive(Debug)]
pub struct LocalStorage {
    config: LocalSaveStorageConfig,
}

impl LocalStorage {
    /// The configuration the storage was made with.
    pub closed spec fn spec_config(&self) -> LocalSaveStorageConfig {
        self.config
    }

    pub open spec fn spec_user(&self) -> Seq<char> {
        self.spec_config().ssh.user@
    }

    pub fn new(config: LocalSaveStorageConfig) -> (r: Self)
        ensures
            r.spec_config() == config,
    {
        Self { config }
    }

    pub fn config(&self) -> (r: &LocalSaveStorageConfig)
        ensures
            *r == self.spec_config(),
    {
        &self.config
    }

    /// The file-transfer endpoint of the host at `ip`.
    pub fn sftp_endpoint(&self, ip: &str) -> (r: String)
        ensures
            r@ == "ssh://"@ + self.spec_user() + "@"@ + ip@ + ":22"@,
    {
        String::from_str("ssh://").concat(self.config.ssh.user.as_str()).concat("@").concat(
            ip,
        ).concat(":22")
    }

    /// The command that starts `script` detached, appending its output to the log file.
    pub fn launch_command(&self, script: Script) -> (r: String)
        ensures
            r@ == "(sh /home/"@ + self.spec_user() + "/psm/scripts/"@ + script.spec_file_name()
                + " >> /tmp/shell_log.log 2>&1 &)"@,
    {
        String::from_str("(sh /home/").concat(self.config.ssh.user.as_str()).concat(
            "/psm/scripts/",
        ).concat(script.file_name()).concat(" >> /tmp/shell_log.log 2>&1 &)")
    }

    /// Begins a run of `script`: the first command to execute on the host.
    pub fn start_shell(&self, script: Script) -> (r: (ShellRun, ShellStep))
        ensures
            r.0.script == script,
            r.0.phase == ShellPhase::Launching,
            r.1 matches ShellStep::Exec(c) && c@ == "(sh /home/"@ + self.spec_user()
                + "/psm/scripts/"@ + script.spec_file_name() + " >> /tmp/shell_log.log 2>&1 &)"@,
    {
        let cmd = self.launch_command(script);
        (ShellRun { script, phase: ShellPhase::Launching }, ShellStep::Exec(cmd))
    }
}

/// Where a run of a remote script stands.
#[derive(PartialEq, Eq, Structural, Clone, Copy, Debug)]
pub enum ShellPhase {
    /// The detached launch command was sent.
    Launching,
    /// The process table was queried.
    Polling,
    /// The last log line was asked for.
    Tailing,
    /// The result was handed out.
    Done,
}

/// What the caller does next for a run of a remote script.
#[derive(Debug)]
pub enum ShellStep {
    /// Execute the command in a fresh session and hand its output back.
    Exec(String),
    /// Wait this many seconds, then execute the command and hand its output back.
    WaitThenExec(u64, String),
    /// The script finished and reported this payload.
    Finished(String),
}

/// A run of a remote script: launched detached, polled until no process of it
/// is left, then read back from the last line of the log.
#[derive(Debug)]
pub struct ShellRun {
    pub script: Script,
    pub phase: ShellPhase,
}

impl ShellRun {
    pub fn is_done(&self) -> (r: bool)
        ensures
            r == (self.phase == ShellPhase::Done),
    {
        self.phase == ShellPhase::Done
    }

    /// Takes the output of the last command executed and decides the next step.
    pub fn on_output(&mut self, output: &str) -> (r: ShellStep)
        requires
            old(self).phase != ShellPhase::Done,
        ensures
            final(self).script == old(self).script,
            old(self).phase == ShellPhase::Launching ==> final(self).phase == ShellPhase::Polling
                && (r matches ShellStep::Exec(c) && c@ == "ps -ef | grep "@
                + old(self).script.spec_file_name() + " | grep -v grep | wc -l"@),
            old(self).phase == ShellPhase::Polling && reports_zero(output@) ==> final(self).phase
                == ShellPhase::Tailing && (r matches ShellStep::Exec(c) && c@ == TAIL_COMMAND@),
            old(self).phase == ShellPhase::Polling && !reports_zero(output@) ==> final(self).phase
                == ShellPhase::Polling && (r matches ShellStep::WaitThenExec(secs, c) && secs
                == CHECK_INTERVAL && c@ == "ps -ef | grep "@ + old(self).script.spec_file_name()
                + " | grep -v grep | wc -l"@),
            old(self).phase == ShellPhase::Tailing ==> final(self).phase == ShellPhase::Done
                && (r matches ShellStep::Finished(p) && p@ == without_terminator(output@)),
    {
        match self.phase {
            ShellPhase::Launching => {
                self.phase = ShellPhase::Polling;
                ShellStep::Exec(self.script.poll_command())
            },
            ShellPhase::Polling => {
                if poll_finished(output) {
                    self.phase = ShellPhase::Tailing;
                    ShellStep::Exec(String::from_str(TAIL_COMMAND))
                } else {
                    ShellStep::WaitThenExec(CHECK_INTERVAL, self.script.poll_command())
                }
            },
            _ => {
                self.phase = ShellPhase::Done;
                ShellStep::Finished(result_line(output))
            },
        }
    }
}

} // verus!
