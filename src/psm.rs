use vstd::prelude::*;
use vstd::string::*;
use crate::error::PsmError;
use crate::local_storage::{LocalStorage, Script};
use crate::protocol::{Action, Event};
use crate::provision::{views, ProvisionPhase, ProvisionStep, Provisioner};
use crate::server_status::{
    all_consistent, first_named, has_name, lemma_push_keeps_consistent,
    lemma_update_keeps_consistent, Server, ServerManager, ServerView, ServiceInstanceType, Status,
};

verus! {

/// Seconds to wait after an instance was created before using it.
pub const SETTLE_SECS: u64 = 10;

/// Seconds to wait between two steps of the bring-up sequence.
pub const STEP_PAUSE_SECS: u64 = 1;

/// The tier of the servers that `new_save` creates.
pub const NEW_SAVE_TIER: ServiceInstanceType = ServiceInstanceType::T2C2G;

/// The record that the self-test path works on.
pub const SELF_TEST_NAME: &'static str = "test";

/// The regions searched for spot instances.
pub open spec fn spec_candidate_regions() -> Seq<Seq<char>> {
    seq!["ap-nanjing"@, "ap-shanghai"@, "ap-guangzhou"@]
}

pub fn candidate_regions() -> (r: Vec<String>)
    ensures
        views(r@) == spec_candidate_regions(),
{
    let r = vec![
        String::from_str("ap-nanjing"),
        String::from_str("ap-shanghai"),
        String::from_str("ap-guangzhou"),
    ];
    assert(views(r@) =~= spec_candidate_regions());
    r
}

/// The five operations of the orchestrator.
#[derive(PartialEq, Eq, Structural, Clone, Copy, Debug)]
pub enum Operation {
    NewSave,
    RestartSave,
    SaveBackup,
    StopServer,
    SelfTest,
}

/// Where an operation stands: the action whose answer is awaited.
#[derive(PartialEq, Eq, Structural, Clone, Copy, Debug)]
pub enum Stage {
    /// No operation has begun.
    Idle,
    /// A provisioning search runs.
    Provisioning,
    /// The record of a new instance is being written out.
    Registering,
    /// The new instance is given time to settle.
    Settling,
    UploadingScripts,
    Installing,
    PausingBeforeRestore,
    UploadingSave,
    Restoring,
    PausingBeforeStart,
    Starting,
    /// The liveness of a recorded instance is being checked.
    Probing,
    /// The outcome of the liveness check is being written out.
    RecordingProbe,
    BackingUp,
    Downloading,
    /// The new save id is being written out.
    RecordingBackup,
    Terminating,
    /// The stopped record is being written out.
    RecordingStop,
    /// The operation is over.
    Finished,
}

/// The lifecycle orchestrator. It owns the registry and the storage
/// configuration; each operation is begun by one of `new_save`,
/// `restart_save`, `save_backup`, `stop_server` or `test`, and driven by
/// `step` with the answer to each action it returns, until it returns
/// `Action::Finish`.
#[derive(Debug)]
pub struct PalServerManager {
    server_status: ServerManager,
    local_storage: LocalStorage,
    op: Operation,
    stage: Stage,
    current: Server,
    provisioner: Option<Provisioner>,
    alive: bool,
    pending_save: String,
}

fn blank_server() -> (r: Server)
    ensures
        r@.instance_consistent(),
{
    Server {
        name: String::new(),
        status: Status::Stopped,
        service_instance_type: NEW_SAVE_TIER,
        save: None,
        ip: None,
        region: None,
        instance_id: None,
    }
}

impl PalServerManager {
    pub closed spec fn registry(&self) -> Seq<ServerView> {
        self.server_status@
    }

    /// The storage configuration the orchestrator works with.
    pub closed spec fn storage(&self) -> LocalStorage {
        self.local_storage
    }

    pub closed spec fn spec_stage(&self) -> Stage {
        self.stage
    }

    pub closed spec fn spec_op(&self) -> Operation {
        self.op
    }

    /// The record that the operation works on.
    pub closed spec fn spec_current(&self) -> ServerView {
        self.current@
    }

    /// Whether the last liveness check found the instance alive.
    pub closed spec fn spec_alive(&self) -> bool {
        self.alive
    }

    /// The save id reported by the last backup.
    pub closed spec fn spec_pending_save(&self) -> Seq<char> {
        self.pending_save@
    }

    /// The orchestrator's invariant: every record, and the record worked on,
    /// keeps its instance fields consistent.
    pub closed spec fn inv(&self) -> bool {
        &&& all_consistent(self.server_status@)
        &&& self.current@.instance_consistent()
        &&& self.stage == Stage::Probing ==> self.current@.ip is Some
        &&& self.stage == Stage::Provisioning ==> (self.provisioner matches Some(p) && p.wf()
            && p.spec_phase() != ProvisionPhase::Over && p.spec_name() == self.current@.name)
    }

    /// Under the invariant, every record of the registry is consistent.
    pub proof fn lemma_registry_consistent(&self)
        requires
            self.inv(),
        ensures
            all_consistent(self.registry()),
    {
    }

    /// The provisioning search under way.
    pub closed spec fn search(&self) -> Provisioner {
        match self.provisioner {
            Some(p) => p,
            None => arbitrary(),
        }
    }

    /// A provisioning search has just begun for a server named `name` of tier
    /// `tier`: the spot prices are asked for next.
    pub open spec fn fresh_search(p: Provisioner, name: Seq<char>, tier: ServiceInstanceType) -> bool {
        &&& p.wf()
        &&& p.spec_phase() == ProvisionPhase::Pricing
        &&& p.spec_name() == name
        &&& p.spec_tier() == tier
    }

    /// While a search runs, it is well formed, not over, and for the record
    /// worked on.
    pub proof fn lemma_search_of_inv(&self)
        requires
            self.inv(),
            self.spec_stage() == Stage::Provisioning,
        ensures
            self.search().wf(),
            self.search().spec_phase() != ProvisionPhase::Over,
            self.search().spec_name() == self.spec_current().name,
    {
    }

    /// The stages whose step neither changes the record worked on nor the registry.
    pub open spec fn keeps_record(stage: Stage) -> bool {
        stage != Stage::Provisioning && stage != Stage::Probing && stage != Stage::Downloading
            && stage != Stage::Terminating
    }

    /// `rec` was written over the first record of its name, and the registry is
    /// to be persisted before the operation goes on at `next`; with no record
    /// of that name the operation ends with `NotFound`.
    pub open spec fn written(pre: Self, post: Self, rec: ServerView, next: Stage, r: Action) -> bool {
        &&& has_name(pre.registry(), rec.name) ==> {
            &&& r is Persist
            &&& post.spec_stage() == next
            &&& exists|i: int|
                first_named(pre.registry(), rec.name, i) && post.registry()
                    == pre.registry().update(i, rec)
        }
        &&& !has_name(pre.registry(), rec.name) ==> (r matches Action::Finish(o) && o == Err::<
            (),
            PsmError,
        >(PsmError::NotFound)) && post.registry() == pre.registry()
    }

    /// What the orchestrator does once the provisioning search, now `p2`,
    /// handed back `pr`.
    pub open spec fn after_search(
        pre: Self,
        post: Self,
        p2: Provisioner,
        pr: ProvisionStep,
        r: Action,
    ) -> bool {
        &&& pr matches ProvisionStep::Act(a) ==> {
            &&& r == a
            &&& post.spec_stage() == Stage::Provisioning
            &&& post.search() == p2
            &&& post.spec_current() == pre.spec_current()
            &&& post.registry() == pre.registry()
        }
        &&& pr matches ProvisionStep::Failed(e) ==> (r matches Action::Finish(o) && o == Err::<
            (),
            PsmError,
        >(e)) && post.registry() == pre.registry()
        &&& pr matches ProvisionStep::Ready(s) ==> pre.spec_op() == Operation::NewSave ==> {
            &&& post.spec_current() == s@
            &&& !has_name(pre.registry(), s@.name) ==> r is Persist && post.spec_stage()
                == Stage::Registering && post.registry() == pre.registry().push(s@)
            &&& has_name(pre.registry(), s@.name) ==> (r matches Action::Finish(o) && o == Err::<
                (),
                PsmError,
            >(PsmError::Conflict)) && post.registry() == pre.registry()
        }
        &&& pr matches ProvisionStep::Ready(s) ==> pre.spec_op() != Operation::NewSave ==> {
            let rec = ServerView {
                status: Status::Running,
                ip: s@.ip,
                region: s@.region,
                instance_id: s@.instance_id,
                ..pre.spec_current()
            };
            &&& post.spec_current() == rec
            &&& PalServerManager::written(pre, post, rec, Stage::Registering, r)
        }
    }

    pub fn new(server_status: ServerManager, local_storage: LocalStorage) -> (r: Self)
        ensures
            r.registry() == server_status@,
            r.storage() == local_storage,
            r.spec_stage() == Stage::Idle,
            all_consistent(server_status@) ==> r.inv(),
    {
        PalServerManager {
            server_status,
            local_storage,
            op: Operation::NewSave,
            stage: Stage::Idle,
            current: blank_server(),
            provisioner: None,
            alive: false,
            pending_save: String::new(),
        }
    }

    pub fn server_status(&self) -> (r: &ServerManager)
        ensures
            r@ == self.registry(),
    {
        &self.server_status
    }

    pub fn local_storage(&self) -> (r: &LocalStorage)
        ensures
            *r == self.storage(),
    {
        &self.local_storage
    }

    fn finish(&mut self, outcome: Result<(), PsmError>) -> (r: Action)
        ensures
            *final(self) == (PalServerManager { stage: Stage::Finished, ..*old(self) }),
            r matches Action::Finish(o) && o == outcome,
    {
        self.stage = Stage::Finished;
        Action::Finish(outcome)
    }

    /// Writes the record worked on over the registry's record of its name,
    /// then asks for the registry to be persisted.
    fn record(&mut self, next: Stage) -> (r: Action)
        requires
            next != Stage::Probing && next != Stage::Provisioning,
        ensures
            final(self).current == old(self).current,
            final(self).op == old(self).op,
            final(self).local_storage == old(self).local_storage,
            final(self).alive == old(self).alive,
            final(self).pending_save == old(self).pending_save,
            final(self).provisioner == old(self).provisioner,
            has_name(old(self).server_status@, old(self).current@.name) ==> (r is Persist
                && final(self).stage == next && exists|i: int|
                first_named(old(self).server_status@, old(self).current@.name, i)
                    && final(self).server_status@ == old(self).server_status@.update(
                    i,
                    old(self).current@,
                )),
            !has_name(old(self).server_status@, old(self).current@.name) ==> (
            r matches Action::Finish(o) && o == Err::<(), PsmError>(PsmError::NotFound))
                && final(self).server_status@ == old(self).server_status@ && final(self).stage
                == Stage::Finished,
            old(self).inv() ==> final(self).inv(),
    {
        match self.server_status.update(self.current.name.as_str(), &self.current) {
            Ok(()) => {
                self.stage = next;
                proof {
                    if old(self).inv() {
                        let i = choose|i: int|
                            first_named(old(self).server_status@, old(self).current@.name, i)
                                && self.server_status@ == old(self).server_status@.update(
                                i,
                                old(self).current@,
                            );
                        lemma_update_keeps_consistent(old(self).server_status@, old(self).current@, i);
                    }
                }
                Action::Persist
            },
            Err(e) => self.finish(Err(e)),
        }
    }

    /// Begins a provisioning search for the record worked on.
    fn start_provisioning(&mut self, tier: ServiceInstanceType) -> (r: Action)
        ensures
            final(self).server_status == old(self).server_status,
            final(self).current == old(self).current,
            final(self).op == old(self).op,
            final(self).local_storage == old(self).local_storage,
            final(self).stage == Stage::Provisioning,
            PalServerManager::fresh_search(final(self).search(), old(self).current@.name, tier),
            r matches Action::QuerySpotPrices { regions, shapes } && views(regions@)
                == spec_candidate_regions() && shapes@ == tier.shapes(),
            old(self).inv() ==> final(self).inv(),
            all_consistent(old(self).server_status@) && old(self).current@.instance_consistent()
                ==> final(self).inv(),
    {
        let (p, action) = Provisioner::start(
            self.current.name.as_str(),
            candidate_regions(),
            tier,
        );
        self.provisioner = Some(p);
        self.stage = Stage::Provisioning;
        action
    }

    /// The restore step of the bring-up sequence: pushes and restores the save,
    /// or skips to the pause before the start when the record has none.
    fn restore_or_skip(&mut self) -> (r: Action)
        ensures
            final(self).server_status == old(self).server_status,
            final(self).current == old(self).current,
            final(self).op == old(self).op,
            final(self).local_storage == old(self).local_storage,
            old(self).current@.ip is None ==> (r matches Action::Finish(o) && o == Err::<
                (),
                PsmError,
            >(PsmError::NotRunning)),
            old(self).current@.ip matches Some(ip) ==> (old(self).current@.save matches Some(
                s,
            ) ==> final(self).stage == Stage::UploadingSave && (r matches Action::UploadSave {
                save,
                ip: a,
            } && save@ == s && a@ == ip)),
            old(self).current@.ip is Some && old(self).current@.save is None ==> final(self).stage
                == Stage::PausingBeforeStart && (r matches Action::Sleep(n) && n
                == STEP_PAUSE_SECS),
            old(self).inv() ==> final(self).inv(),
    {
        match (&self.current.ip, &self.current.save) {
            (None, _) => self.finish(Err(PsmError::NotRunning)),
            (Some(ip), Some(save)) => {
                let action = Action::UploadSave { save: save.clone(), ip: ip.clone() };
                self.stage = Stage::UploadingSave;
                action
            },
            (Some(_), None) => {
                self.stage = Stage::PausingBeforeStart;
                Action::Sleep(STEP_PAUSE_SECS)
            },
        }
    }

    /// Runs `script` on the record's host and waits at `next` for its output.
    fn run_script(&mut self, script: Script, next: Stage) -> (r: Action)
        requires
            next != Stage::Probing && next != Stage::Provisioning,
        ensures
            final(self).server_status == old(self).server_status,
            final(self).current == old(self).current,
            final(self).op == old(self).op,
            final(self).local_storage == old(self).local_storage,
            final(self).pending_save == old(self).pending_save,
            old(self).current@.ip is None ==> (r matches Action::Finish(o) && o == Err::<
                (),
                PsmError,
            >(PsmError::NotRunning)),
            old(self).current@.ip matches Some(ip) ==> final(self).stage == next && (
            r matches Action::RunScript { ip: a, script: s } && a@ == ip && s == script),
            old(self).inv() ==> final(self).inv(),
    {
        match &self.current.ip {
            None => self.finish(Err(PsmError::NotRunning)),
            Some(ip) => {
                let action = Action::RunScript { ip: ip.clone(), script };
                self.stage = next;
                action
            },
        }
    }

    /// Looks up `name` and makes its record the one worked on.
    fn load(&mut self, op: Operation, name: &str) -> (r: Result<(), PsmError>)
        ensures
            final(self).server_status == old(self).server_status,
            final(self).op == op,
            final(self).local_storage == old(self).local_storage,
            r is Err <==> !has_name(old(self).server_status@, name@),
            r matches Err(e) ==> e == PsmError::NotFound,
            r is Ok ==> exists|i: int|
                first_named(old(self).server_status@, name@, i) && final(self).current@
                    == old(self).server_status@[i],
            final(self).stage == Stage::Idle,
            all_consistent(old(self).server_status@) ==> final(self).inv(),
    {
        self.op = op;
        self.stage = Stage::Idle;
        self.provisioner = None;
        match self.server_status.get(name) {
            Ok(s) => {
                self.current = s;
                Ok(())
            },
            Err(e) => {
                self.current = blank_server();
                Err(e)
            },
        }
    }

    /// Begins creating a new server named `name` and bringing it up.
    pub fn new_save(&mut self, name: &str) -> (r: Action)
        ensures
            final(self).registry() == old(self).registry(),
            final(self).spec_op() == Operation::NewSave,
            final(self).storage() == old(self).storage(),
            has_name(old(self).registry(), name@) ==> (r matches Action::Finish(o) && o == Err::<
                (),
                PsmError,
            >(PsmError::Conflict)),
            !has_name(old(self).registry(), name@) ==> final(self).spec_stage()
                == Stage::Provisioning && final(self).spec_current().name == name@ && (
            r matches Action::QuerySpotPrices { regions, shapes } && views(regions@)
                == spec_candidate_regions() && shapes@ == NEW_SAVE_TIER.shapes())
                && PalServerManager::fresh_search(final(self).search(), name@, NEW_SAVE_TIER),
            old(self).inv() ==> final(self).inv(),
    {
        self.op = Operation::NewSave;
        self.provisioner = None;
        match self.server_status.get(name) {
            Ok(_) => self.finish(Err(PsmError::Conflict)),
            Err(_) => {
                let mut s = blank_server();
                s.name = String::from_str(name);
                self.current = s;
                self.start_provisioning(NEW_SAVE_TIER)
            },
        }
    }

    /// Begins bringing the server named `name` up again.
    pub fn restart_save(&mut self, name: &str) -> (r: Action)
        ensures
            final(self).registry() == old(self).registry(),
            final(self).spec_op() == Operation::RestartSave,
            final(self).storage() == old(self).storage(),
            !has_name(old(self).registry(), name@) ==> (r matches Action::Finish(o) && o == Err::<
                (),
                PsmError,
            >(PsmError::NotFound)),
            forall|i: int|
                first_named(old(self).registry(), name@, i) ==> {
                    let rec = #[trigger] old(self).registry()[i];
                    &&& final(self).spec_current() == rec
                    &&& rec.ip matches Some(ip) ==> final(self).spec_stage() == Stage::Probing
                        && (r matches Action::Probe { ip: a } && a@ == ip)
                    &&& rec.ip is None ==> final(self).spec_stage() == Stage::Provisioning && (
                    r matches Action::QuerySpotPrices { regions, shapes } && views(regions@)
                        == spec_candidate_regions() && shapes@
                        == rec.service_instance_type.shapes())
                        && PalServerManager::fresh_search(
                        final(self).search(),
                        name@,
                        rec.service_instance_type,
                    )
                },
            old(self).inv() ==> final(self).inv(),
    {
        match self.load(Operation::RestartSave, name) {
            Err(e) => self.finish(Err(e)),
            Ok(()) => {
                proof {
                    if old(self).inv() {
                        assert(self.current@.instance_consistent());
                    }
                }
                match &self.current.ip {
                    Some(ip) => {
                        let action = Action::Probe { ip: ip.clone() };
                        self.stage = Stage::Probing;
                        action
                    },
                    None => {
                        let tier = self.current.service_instance_type;
                        self.start_provisioning(tier)
                    },
                }
            },
        }
    }

    /// Begins the backup step for the running record worked on.
    fn begin_backup(&mut self, op: Operation, name: &str) -> (r: Action)
        requires
            op == Operation::SaveBackup || op == Operation::StopServer,
        ensures
            final(self).registry() == old(self).registry(),
            final(self).spec_op() == op,
            final(self).storage() == old(self).storage(),
            !has_name(old(self).registry(), name@) ==> (r matches Action::Finish(o) && o == Err::<
                (),
                PsmError,
            >(PsmError::NotFound)),
            forall|i: int|
                first_named(old(self).registry(), name@, i) ==> {
                    let rec = #[trigger] old(self).registry()[i];
                    &&& final(self).spec_current() == rec
                    &&& rec.status != Status::Running || rec.ip is None ==> (
                    r matches Action::Finish(o) && o == Err::<(), PsmError>(PsmError::NotRunning))
                    &&& rec.status == Status::Running ==> (rec.ip matches Some(ip)
                        ==> final(self).spec_stage() == Stage::BackingUp && (
                    r matches Action::RunScript { ip: a, script } && a@ == ip && script
                        == Script::BackupSave))
                },
            old(self).inv() ==> final(self).inv(),
    {
        match self.load(op, name) {
            Err(e) => self.finish(Err(e)),
            Ok(()) => {
                proof {
                    if old(self).inv() {
                        assert(self.current@.instance_consistent());
                    }
                }
                if self.current.status != Status::Running {
                    self.finish(Err(PsmError::NotRunning))
                } else {
                    self.run_script(Script::BackupSave, Stage::BackingUp)
                }
            },
        }
    }

    /// Begins backing up the save of the running server named `name`.
    pub fn save_backup(&mut self, name: &str) -> (r: Action)
        ensures
            final(self).registry() == old(self).registry(),
            final(self).spec_op() == Operation::SaveBackup,
            final(self).storage() == old(self).storage(),
            !has_name(old(self).registry(), name@) ==> (r matches Action::Finish(o) && o == Err::<
                (),
                PsmError,
            >(PsmError::NotFound)),
            forall|i: int|
                first_named(old(self).registry(), name@, i) ==> {
                    let rec = #[trigger] old(self).registry()[i];
                    &&& final(self).spec_current() == rec
                    &&& rec.status != Status::Running || rec.ip is None ==> (
                    r matches Action::Finish(o) && o == Err::<(), PsmError>(PsmError::NotRunning))
                    &&& rec.status == Status::Running ==> (rec.ip matches Some(ip)
                        ==> final(self).spec_stage() == Stage::BackingUp && (
                    r matches Action::RunScript { ip: a, script } && a@ == ip && script
                        == Script::BackupSave))
                },
            old(self).inv() ==> final(self).inv(),
    {
        self.begin_backup(Operation::SaveBackup, name)
    }

    /// Begins stopping the running server named `name`: a backup, then the
    /// termination of its instance.
    pub fn stop_server(&mut self, name: &str) -> (r: Action)
        ensures
            final(self).registry() == old(self).registry(),
            final(self).spec_op() == Operation::StopServer,
            final(self).storage() == old(self).storage(),
            !has_name(old(self).registry(), name@) ==> (r matches Action::Finish(o) && o == Err::<
                (),
                PsmError,
            >(PsmError::NotFound)),
            forall|i: int|
                first_named(old(self).registry(), name@, i) ==> {
                    let rec = #[trigger] old(self).registry()[i];
                    &&& final(self).spec_current() == rec
                    &&& rec.status != Status::Running || rec.ip is None ==> (
                    r matches Action::Finish(o) && o == Err::<(), PsmError>(PsmError::NotRunning))
                    &&& rec.status == Status::Running ==> (rec.ip matches Some(ip)
                        ==> final(self).spec_stage() == Stage::BackingUp && (
                    r matches Action::RunScript { ip: a, script } && a@ == ip && script
                        == Script::BackupSave))
                },
            old(self).inv() ==> final(self).inv(),
    {
        self.begin_backup(Operation::StopServer, name)
    }

    /// Begins the self-test: restore and start on the record named `test`.
    pub fn test(&mut self) -> (r: Action)
        ensures
            final(self).registry() == old(self).registry(),
            final(self).spec_op() == Operation::SelfTest,
            final(self).storage() == old(self).storage(),
            !has_name(old(self).registry(), SELF_TEST_NAME@) ==> (r matches Action::Finish(o)
                && o == Err::<(), PsmError>(PsmError::NotFound)),
            forall|i: int|
                first_named(old(self).registry(), SELF_TEST_NAME@, i) ==> {
                    let rec = #[trigger] old(self).registry()[i];
                    &&& final(self).spec_current() == rec
                    &&& rec.ip is None ==> (r matches Action::Finish(o) && o == Err::<
                        (),
                        PsmError,
                    >(PsmError::NotRunning))
                    &&& rec.ip matches Some(ip) ==> (rec.save matches Some(s) ==> (
                    r matches Action::UploadSave { save, ip: a } && save@ == s && a@ == ip))
                    &&& rec.ip is Some && rec.save is Some ==> final(self).spec_stage()
                        == Stage::UploadingSave
                    &&& rec.ip is Some && rec.save is None ==> final(self).spec_stage()
                        == Stage::PausingBeforeStart && (r matches Action::Sleep(n) && n
                        == STEP_PAUSE_SECS)
                },
            old(self).inv() ==> final(self).inv(),
    {
        match self.load(Operation::SelfTest, SELF_TEST_NAME) {
            Err(e) => self.finish(Err(e)),
            Ok(()) => {
                proof {
                    if old(self).inv() {
                        assert(self.current@.instance_consistent());
                    }
                }
                self.restore_or_skip()
            },
        }
    }
    /// Passes an event to the provisioning search, and registers the server
    /// once an instance is ready.
    fn step_provisioning(&mut self, event: Event) -> (r: Action)
        requires
            old(self).stage == Stage::Provisioning,
        ensures
            final(self).op == old(self).op,
            final(self).local_storage == old(self).local_storage,
            old(self).inv() ==> final(self).inv(),
            final(self).server_status@ != old(self).server_status@ ==> r is Persist,
            old(self).inv() && !(event is Failed) ==> exists|p2: Provisioner, pr: ProvisionStep|
                #[trigger] Provisioner::step_post(old(self).search(), p2, event, pr)
                    && PalServerManager::after_search(*old(self), *final(self), p2, pr, r),
    {
        let taken = self.provisioner.take();
        match taken {
            None => self.finish(Err(PsmError::UnexpectedEvent)),
            Some(mut p) => {
                if !p.is_wf() || p.is_over() {
                    return self.finish(Err(PsmError::UnexpectedEvent));
                }
                let ghost pre_p = p;
                let pr = p.step(event);
                let ghost pr_g = pr;
                let ghost post_p = p;
                let r = match pr {
                    ProvisionStep::Act(a) => {
                        self.provisioner = Some(p);
                        a
                    },
                    ProvisionStep::Failed(e) => self.finish(Err(e)),
                    ProvisionStep::Ready(server) => {
                        if self.op == Operation::NewSave {
                            self.current = server;
                            match self.server_status.add(&self.current) {
                                Ok(()) => {
                                    self.stage = Stage::Registering;
                                    proof {
                                        if old(self).inv() {
                                            lemma_push_keeps_consistent(
                                                old(self).server_status@,
                                                self.current@,
                                            );
                                        }
                                    }
                                    Action::Persist
                                },
                                Err(e) => self.finish(Err(e)),
                            }
                        } else {
                            self.current.status = Status::Running;
                            self.current.ip = server.ip;
                            self.current.region = server.region;
                            self.current.instance_id = server.instance_id;
                            self.record(Stage::Registering)
                        }
                    },
                };
                proof {
                    if old(self).inv() && !(event is Failed) {
                        assert(pre_p == old(self).search());
                        assert(Provisioner::step_post(old(self).search(), post_p, event, pr_g));
                        assert(PalServerManager::after_search(*old(self), *self, post_p, pr_g, r));
                    }
                }
                r
            },
        }
    }

    /// Takes the answer to the last action and decides the next one.
    pub fn step(&mut self, event: Event) -> (r: Action)
        ensures
            final(self).spec_op() == old(self).spec_op(),
            final(self).storage() == old(self).storage(),
            old(self).inv() ==> final(self).inv(),
            final(self).registry() != old(self).registry() ==> r is Persist,
            old(self).spec_stage() == Stage::Idle || old(self).spec_stage() == Stage::Finished ==> (
            r matches Action::Finish(o) && o == Err::<(), PsmError>(PsmError::UnexpectedEvent)),
            old(self).spec_stage() != Stage::Idle && old(self).spec_stage() != Stage::Finished ==> (
            event matches Event::Failed(e) ==> (r matches Action::Finish(o) && o == Err::<
                (),
                PsmError,
            >(e))),
            old(self).spec_stage() == Stage::Registering && event is Done ==> final(self).spec_stage()
                == Stage::Settling && (r matches Action::Sleep(n) && n == SETTLE_SECS),
            old(self).spec_stage() == Stage::Settling && event is Done ==> (old(
                self).spec_current().ip matches Some(ip) ==> final(self).spec_stage()
                == Stage::UploadingScripts && (r matches Action::UploadScripts { ip: a } && a@
                == ip)),
            old(self).spec_stage() == Stage::UploadingScripts && event is Done ==> (old(
                self).spec_current().ip matches Some(ip) ==> final(self).spec_stage()
                == Stage::Installing && (r matches Action::RunScript { ip: a, script } && a@ == ip
                && script == Script::InstallServer)),
            old(self).spec_stage() == Stage::Installing && event is ScriptOutput ==> final(
                self).spec_stage() == Stage::PausingBeforeRestore && (r matches Action::Sleep(n)
                && n == STEP_PAUSE_SECS),
            old(self).spec_stage() == Stage::PausingBeforeRestore && event is Done ==> (old(
                self).spec_current().ip matches Some(ip) ==> (old(self).spec_current().save matches Some(
                sv,
            ) ==> final(self).spec_stage() == Stage::UploadingSave && (r matches Action::UploadSave {
                save,
                ip: a,
            } && save@ == sv && a@ == ip))),
            old(self).spec_stage() == Stage::PausingBeforeRestore && event is Done && old(
                self).spec_current().ip is Some && old(self).spec_current().save is None ==> final(
                self).spec_stage() == Stage::PausingBeforeStart && (r matches Action::Sleep(n) && n
                == STEP_PAUSE_SECS),
            old(self).spec_stage() == Stage::UploadingSave && event is Done ==> (old(
                self).spec_current().ip matches Some(ip) ==> final(self).spec_stage()
                == Stage::Restoring && (r matches Action::RunScript { ip: a, script } && a@ == ip
                && script == Script::RestoreSave)),
            old(self).spec_stage() == Stage::Restoring && event is ScriptOutput ==> final(
                self).spec_stage() == Stage::PausingBeforeStart && (r matches Action::Sleep(n) && n
                == STEP_PAUSE_SECS),
            old(self).spec_stage() == Stage::PausingBeforeStart && event is Done ==> (old(
                self).spec_current().ip matches Some(ip) ==> final(self).spec_stage()
                == Stage::Starting && (r matches Action::RunScript { ip: a, script } && a@ == ip
                && script == Script::StartServer)),
            old(self).spec_stage() == Stage::Starting && event is ScriptOutput ==> (
            r matches Action::Finish(o) && o == Ok::<(), PsmError>(())),
            old(self).spec_stage() == Stage::RecordingProbe && !old(self).spec_alive() && event is Done
                ==> final(self).spec_stage() == Stage::Provisioning && (
            r matches Action::QuerySpotPrices { regions, shapes } && views(regions@)
                == spec_candidate_regions() && shapes@
                == old(self).spec_current().service_instance_type.shapes())
                && PalServerManager::fresh_search(
                final(self).search(),
                old(self).spec_current().name,
                old(self).spec_current().service_instance_type,
            ),
            old(self).spec_stage() == Stage::RecordingStop && event is Done ==> (
            r matches Action::Finish(o) && o == Ok::<(), PsmError>(())),
            old(self).spec_stage() == Stage::Probing ==> (event matches Event::Alive(b) ==> {
                let rec = if b {
                    ServerView { status: Status::Running, ..old(self).spec_current() }
                } else {
                    old(self).spec_current().released()
                };
                &&& final(self).spec_alive() == b
                &&& final(self).spec_current() == rec
                &&& PalServerManager::written(*old(self), *final(self), rec, Stage::RecordingProbe, r)
            }),
            old(self).spec_stage() == Stage::RecordingProbe && old(self).spec_alive() ==> (
            event is Done ==> (r matches Action::Finish(o) && o == Err::<(), PsmError>(
                PsmError::AlreadyRunning,
            ))),
            old(self).spec_stage() == Stage::BackingUp ==> (event matches Event::ScriptOutput(s)
                ==> (old(self).spec_current().ip matches Some(ip) ==> final(self).spec_stage()
                == Stage::Downloading && final(self).spec_pending_save() == s@ && (
            r matches Action::DownloadSave { save, ip: a } && save@ == s@ && a@ == ip))),
            old(self).spec_stage() == Stage::Downloading && event is Done ==> {
                let rec = ServerView {
                    save: Some(old(self).spec_pending_save()),
                    ..old(self).spec_current()
                };
                &&& final(self).spec_current() == rec
                &&& PalServerManager::written(*old(self), *final(self), rec, Stage::RecordingBackup, r)
            },
            old(self).spec_stage() == Stage::RecordingBackup && event is Done
                && old(self).spec_op() == Operation::StopServer ==> (old(
                self).spec_current().region matches Some(region) ==> (old(
                self).spec_current().instance_id matches Some(id) ==> final(self).spec_stage()
                == Stage::Terminating && (r matches Action::Terminate { region: a, instance_id: b }
                && a@ == region && b@ == id))),
            old(self).spec_stage() == Stage::RecordingBackup && event is Done
                && old(self).spec_op() != Operation::StopServer ==> (r matches Action::Finish(o)
                && o == Ok::<(), PsmError>(())),
            old(self).spec_stage() == Stage::Terminating && event is Done ==> {
                let rec = old(self).spec_current().released();
                &&& final(self).spec_current() == rec
                &&& PalServerManager::written(*old(self), *final(self), rec, Stage::RecordingStop, r)
            },
            PalServerManager::keeps_record(old(self).spec_stage()) ==> final(self).spec_current()
                == old(self).spec_current() && final(self).registry() == old(self).registry(),
            old(self).spec_stage() == Stage::Provisioning && old(self).inv() && !(event is Failed)
                ==> exists|p2: Provisioner, pr: ProvisionStep|
                #[trigger] Provisioner::step_post(old(self).search(), p2, event, pr)
                    && PalServerManager::after_search(*old(self), *final(self), p2, pr, r),
    {
        match self.stage {
            Stage::Idle | Stage::Finished => {
                return self.finish(Err(PsmError::UnexpectedEvent));
            },
            _ => {},
        }
        if let Event::Failed(e) = event {
            return self.finish(Err(e));
        }
        if self.stage == Stage::Provisioning {
            return self.step_provisioning(event);
        }
        match (self.stage, event) {
            (Stage::Registering, Event::Done) => {
                self.stage = Stage::Settling;
                Action::Sleep(SETTLE_SECS)
            },
            (Stage::Settling, Event::Done) => {
                match &self.current.ip {
                    Some(ip) => {
                        let action = Action::UploadScripts { ip: ip.clone() };
                        self.stage = Stage::UploadingScripts;
                        action
                    },
                    None => self.finish(Err(PsmError::NotRunning)),
                }
            },
            (Stage::UploadingScripts, Event::Done) => {
                self.run_script(Script::InstallServer, Stage::Installing)
            },
            (Stage::Installing, Event::ScriptOutput(_)) => {
                self.stage = Stage::PausingBeforeRestore;
                Action::Sleep(STEP_PAUSE_SECS)
            },
            (Stage::PausingBeforeRestore, Event::Done) => self.restore_or_skip(),
            (Stage::UploadingSave, Event::Done) => {
                self.run_script(Script::RestoreSave, Stage::Restoring)
            },
            (Stage::Restoring, Event::ScriptOutput(_)) => {
                self.stage = Stage::PausingBeforeStart;
                Action::Sleep(STEP_PAUSE_SECS)
            },
            (Stage::PausingBeforeStart, Event::Done) => {
                self.run_script(Script::StartServer, Stage::Starting)
            },
            (Stage::Starting, Event::ScriptOutput(_)) => self.finish(Ok(())),
            (Stage::Probing, Event::Alive(alive)) => {
                self.alive = alive;
                if alive {
                    self.current.status = Status::Running;
                } else {
                    self.current.release_instance();
                }
                self.record(Stage::RecordingProbe)
            },
            (Stage::RecordingProbe, Event::Done) => {
                if self.alive {
                    self.finish(Err(PsmError::AlreadyRunning))
                } else {
                    let tier = self.current.service_instance_type;
                    self.start_provisioning(tier)
                }
            },
            (Stage::BackingUp, Event::ScriptOutput(save)) => {
                match &self.current.ip {
                    Some(ip) => {
                        let action = Action::DownloadSave { save: save.clone(), ip: ip.clone() };
                        self.pending_save = save;
                        self.stage = Stage::Downloading;
                        action
                    },
                    None => self.finish(Err(PsmError::NotRunning)),
                }
            },
            (Stage::Downloading, Event::Done) => {
                self.current.save = Some(self.pending_save.clone());
                self.record(Stage::RecordingBackup)
            },
            (Stage::RecordingBackup, Event::Done) => {
                if self.op == Operation::StopServer {
                    match (&self.current.region, &self.current.instance_id) {
                        (Some(region), Some(id)) => {
                            let action = Action::Terminate {
                                region: region.clone(),
                                instance_id: id.clone(),
                            };
                            self.stage = Stage::Terminating;
                            action
                        },
                        _ => self.finish(Err(PsmError::NotRunning)),
                    }
                } else {
                    self.finish(Ok(()))
                }
            },
            (Stage::Terminating, Event::Done) => {
                self.current.release_instance();
                self.record(Stage::RecordingStop)
            },
            (Stage::RecordingStop, Event::Done) => self.finish(Ok(())),
            _ => self.finish(Err(PsmError::UnexpectedEvent)),
        }
    }
}

} // verus!
