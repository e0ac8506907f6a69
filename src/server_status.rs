use vstd::prelude::*;
use crate::error::PsmError;

verus! {

/// A concrete instance shape offered by the cloud provider.
#[derive(PartialEq, Eq, Structural, Clone, Copy, Debug)]
pub enum InstanceShape {
    SA2Medium2,
    S5Medium2,
    MA3Medium16,
    M5Medium16,
    SA2Large16,
    SA3Large16,
    S5Large16,
    S6Large16,
    SA5Large16,
    MA3Large32,
    MA2Large32,
    M5Large32,
    MA5Large32,
}

impl InstanceShape {
    pub open spec fn spec_code(self) -> Seq<char> {
        match self {
            InstanceShape::SA2Medium2 => "SA2.MEDIUM2"@,
            InstanceShape::S5Medium2 => "S5.MEDIUM2"@,
            InstanceShape::MA3Medium16 => "MA3.MEDIUM16"@,
            InstanceShape::M5Medium16 => "M5.MEDIUM16"@,
            InstanceShape::SA2Large16 => "SA2.LARGE16"@,
            InstanceShape::SA3Large16 => "SA3.LARGE16"@,
            InstanceShape::S5Large16 => "S5.LARGE16"@,
            InstanceShape::S6Large16 => "S6.LARGE16"@,
            InstanceShape::SA5Large16 => "SA5.LARGE16"@,
            InstanceShape::MA3Large32 => "MA3.LARGE32"@,
            InstanceShape::MA2Large32 => "MA2.LARGE32"@,
            InstanceShape::M5Large32 => "M5.LARGE32"@,
            InstanceShape::MA5Large32 => "MA5.LARGE32"@,
        }
    }

    /// The provider's name of the shape.
    pub fn code(&self) -> (r: &'static str)
        ensures
            r@ == self.spec_code(),
    {
        match self {
            InstanceShape::SA2Medium2 => "SA2.MEDIUM2",
            InstanceShape::S5Medium2 => "S5.MEDIUM2",
            InstanceShape::MA3Medium16 => "MA3.MEDIUM16",
            InstanceShape::M5Medium16 => "M5.MEDIUM16",
            InstanceShape::SA2Large16 => "SA2.LARGE16",
            InstanceShape::SA3Large16 => "SA3.LARGE16",
            InstanceShape::S5Large16 => "S5.LARGE16",
            InstanceShape::S6Large16 => "S6.LARGE16",
            InstanceShape::SA5Large16 => "SA5.LARGE16",
            InstanceShape::MA3Large32 => "MA3.LARGE32",
            InstanceShape::MA2Large32 => "MA2.LARGE32",
            InstanceShape::M5Large32 => "M5.LARGE32",
            InstanceShape::MA5Large32 => "MA5.LARGE32",
        }
    }
}

/// A logical capacity tier, named by its vCPU count and memory size.
#[derive(PartialEq, Eq, Structural, Clone, Copy, Debug)]
pub enum ServiceInstanceType {
    T2C2G,
    T2C16G,
    T4C16G,
    T4C32G,
}

impl ServiceInstanceType {
    /// The acceptable instance shapes of a tier, in order of preference.
    pub open spec fn shapes(self) -> Seq<InstanceShape> {
        match self {
            ServiceInstanceType::T2C2G => seq![InstanceShape::SA2Medium2, InstanceShape::S5Medium2],
            ServiceInstanceType::T2C16G => seq![InstanceShape::MA3Medium16, InstanceShape::M5Medium16],
            ServiceInstanceType::T4C16G => seq![
                InstanceShape::SA2Large16,
                InstanceShape::SA3Large16,
                InstanceShape::S5Large16,
                InstanceShape::S6Large16,
                InstanceShape::SA5Large16,
            ],
            ServiceInstanceType::T4C32G => seq![
                InstanceShape::MA3Large32,
                InstanceShape::MA2Large32,
                InstanceShape::M5Large32,
                InstanceShape::MA5Large32,
            ],
        }
    }

    pub fn to_list(&self) -> (r: Vec<InstanceShape>)
        ensures
            r@ == self.shapes(),
    {
        let r = match self {
            ServiceInstanceType::T2C2G => vec![InstanceShape::SA2Medium2, InstanceShape::S5Medium2],
            ServiceInstanceType::T2C16G => vec![InstanceShape::MA3Medium16, InstanceShape::M5Medium16],
            ServiceInstanceType::T4C16G => vec![
                InstanceShape::SA2Large16,
                InstanceShape::SA3Large16,
                InstanceShape::S5Large16,
                InstanceShape::S6Large16,
                InstanceShape::SA5Large16,
            ],
            ServiceInstanceType::T4C32G => vec![
                InstanceShape::MA3Large32,
                InstanceShape::MA2Large32,
                InstanceShape::M5Large32,
                InstanceShape::MA5Large32,
            ],
        };
        assert(r@ =~= self.shapes());
        r
    }
}

/// The last known lifecycle phase of a server.
#[derive(PartialEq, Eq, Structural, Clone, Copy, Debug)]
pub enum Status {
    Creating,
    Running,
    Stopping,
    Stopped,
}

/// A server record, keyed by its name.
#[derive(Debug)]
pub struct Server {
    pub name: String,
    pub status: Status,
    pub service_instance_type: ServiceInstanceType,
    pub save: Option<String>,
    pub ip: Option<String>,
    pub region: Option<String>,
    pub instance_id: Option<String>,
}

/// The mathematical value of a server record.
pub struct ServerView {
    pub name: Seq<char>,
    pub status: Status,
    pub service_instance_type: ServiceInstanceType,
    pub save: Option<Seq<char>>,
    pub ip: Option<Seq<char>>,
    pub region: Option<Seq<char>>,
    pub instance_id: Option<Seq<char>>,
}

pub open spec fn opt_view(o: Option<String>) -> Option<Seq<char>> {
    match o {
        Some(s) => Some(s@),
        None => None,
    }
}

pub fn clone_opt(o: &Option<String>) -> (r: Option<String>)
    ensures
        opt_view(r) == opt_view(*o),
{
    match o {
        Some(s) => Some(s.clone()),
        None => None,
    }
}

impl View for Server {
    type V = ServerView;

    open spec fn view(&self) -> ServerView {
        ServerView {
            name: self.name@,
            status: self.status,
            service_instance_type: self.service_instance_type,
            save: opt_view(self.save),
            ip: opt_view(self.ip),
            region: opt_view(self.region),
            instance_id: opt_view(self.instance_id),
        }
    }
}

impl ServerView {
    /// The address, region and instance id are present together or absent
    /// together; a running server has them, a stopped one has none.
    pub open spec fn instance_consistent(self) -> bool {
        &&& (self.ip is Some <==> self.region is Some)
        &&& (self.region is Some <==> self.instance_id is Some)
        &&& (self.status == Status::Running ==> self.ip is Some)
        &&& (self.status == Status::Stopped ==> self.ip is None)
    }

    /// The record with its instance released: no address, region or id.
    pub open spec fn released(self) -> ServerView {
        ServerView { status: Status::Stopped, ip: None, region: None, instance_id: None, ..self }
    }
}

impl Clone for Server {
    fn clone(&self) -> (r: Server)
        ensures
            r@ == self@,
    {
        Server {
            name: self.name.clone(),
            status: self.status,
            service_instance_type: self.service_instance_type,
            save: clone_opt(&self.save),
            ip: clone_opt(&self.ip),
            region: clone_opt(&self.region),
            instance_id: clone_opt(&self.instance_id),
        }
    }
}

impl Server {
    /// Whether the record's instance fields agree with each other and with its status.
    pub fn is_consistent(&self) -> (r: bool)
        ensures
            r == self@.instance_consistent(),
    {
        let has_ip = self.ip.is_some();
        let has_region = self.region.is_some();
        let has_id = self.instance_id.is_some();
        has_ip == has_region && has_region == has_id && (self.status != Status::Running || has_ip)
            && (self.status != Status::Stopped || !has_ip)
    }

    /// Marks the server stopped and forgets its instance.
    pub fn release_instance(&mut self)
        ensures
            final(self)@ == old(self)@.released(),
    {
        self.status = Status::Stopped;
        self.ip = None;
        self.region = None;
        self.instance_id = None;
    }
}

/// Some record of `s` is named `name`.
pub open spec fn has_name(s: Seq<ServerView>, name: Seq<char>) -> bool {
    exists|i: int| 0 <= i < s.len() && #[trigger] s[i].name == name
}

/// `i` is the position of the first record of `s` named `name`.
pub open spec fn first_named(s: Seq<ServerView>, name: Seq<char>, i: int) -> bool {
    &&& 0 <= i < s.len()
    &&& s[i].name == name
    &&& forall|j: int| 0 <= j < i ==> #[trigger] s[j].name != name
}

/// Every record of `s` meets the instance invariant.
pub open spec fn all_consistent(s: Seq<ServerView>) -> bool {
    forall|i: int| 0 <= i < s.len() ==> (#[trigger] s[i]).instance_consistent()
}

/// The collection of server records, as last loaded from or written to the
/// registry file at `path`. Names are looked up by exact match.
#[derive(Debug)]
pub struct ServerManager {
    data: Vec<Server>,
    path: String,
}

impl View for ServerManager {
    type V = Seq<ServerView>;

    closed spec fn view(&self) -> Seq<ServerView> {
        self.data@.map_values(|s: Server| s@)
    }
}

impl ServerManager {
    pub closed spec fn spec_path(&self) -> Seq<char> {
        self.path@
    }

    /// A registry over the records read from the file at `path`.
    pub fn new(path: &str, servers: Vec<Server>) -> (r: ServerManager)
        ensures
            r@ == servers@.map_values(|s: Server| s@),
            r.spec_path() == path@,
    {
        ServerManager { data: servers, path: String::from_str(path) }
    }

    /// The path of the registry file.
    pub fn path(&self) -> (r: &str)
        ensures
            r@ == self.spec_path(),
    {
        self.path.as_str()
    }

    /// The records, in the order in which they are written out.
    pub fn servers(&self) -> (r: &Vec<Server>)
        ensures
            r@.map_values(|s: Server| s@) == self@,
    {
        &self.data
    }

    /// The position of the first record named `name`, if any.
    fn position(&self, name: &String) -> (r: Option<usize>)
        ensures
            r is None <==> !has_name(self@, name@),
            r matches Some(i) ==> first_named(self@, name@, i as int),
    {
        let mut i: usize = 0;
        while i < self.data.len()
            invariant
                0 <= i <= self.data@.len(),
                forall|j: int| 0 <= j < i ==> #[trigger] self@[j].name != name@,
            decreases self.data@.len() - i,
        {
            if self.data[i].name == *name {
                assert(self@[i as int].name == name@);
                return Some(i);
            }
            i = i + 1;
        }
        assert(!has_name(self@, name@));
        None
    }

    /// The record named `name`.
    pub fn get(&self, name: &str) -> (r: Result<Server, PsmError>)
        ensures
            r is Err <==> !has_name(self@, name@),
            r matches Err(e) ==> e == PsmError::NotFound,
            r matches Ok(s) ==> exists|i: int| first_named(self@, name@, i) && s@ == self@[i],
    {
        let key = String::from_str(name);
        match self.position(&key) {
            Some(i) => Ok(self.data[i].clone()),
            None => Err(PsmError::NotFound),
        }
    }

    /// Appends `server` unless its name is taken.
    pub fn add(&mut self, server: &Server) -> (r: Result<(), PsmError>)
        ensures
            r is Err <==> has_name(old(self)@, server.name@),
            r matches Err(e) ==> e == PsmError::Conflict,
            r is Err ==> final(self)@ == old(self)@,
            r is Ok ==> final(self)@ == old(self)@.push(server@),
            final(self).spec_path() == old(self).spec_path(),
    {
        match self.position(&server.name) {
            Some(_) => Err(PsmError::Conflict),
            None => {
                self.data.push(server.clone());
                assert(self@ =~= old(self)@.push(server@));
                Ok(())
            },
        }
    }

    /// The record as it stands once its instance fields are made consistent:
    /// unchanged when they already are, otherwise with the instance released.
    pub open spec fn repaired(s: ServerView) -> ServerView {
        if s.instance_consistent() {
            s
        } else {
            s.released()
        }
    }

    /// Releases the instance of every record whose address, region and instance
    /// id disagree with each other or with its status; consistent records stay
    /// as they are.
    pub fn release_inconsistent(&mut self)
        ensures
            final(self)@.len() == old(self)@.len(),
            forall|i: int|
                0 <= i < old(self)@.len() ==> #[trigger] final(self)@[i] == ServerManager::repaired(
                    old(self)@[i],
                ),
            all_consistent(final(self)@),
            final(self).spec_path() == old(self).spec_path(),
    {
        let mut i: usize = 0;
        while i < self.data.len()
            invariant
                0 <= i <= self@.len(),
                self@.len() == old(self)@.len(),
                self.path == old(self).path,
                forall|j: int| 0 <= j < i ==> #[trigger] self@[j] == ServerManager::repaired(old(self)@[j]),
                forall|j: int| i <= j < self@.len() ==> #[trigger] self@[j] == old(self)@[j],
            decreases self@.len() - i,
        {
            assert(self@[i as int] == old(self)@[i as int]);
            assert(self.data@[i as int]@ == self@[i as int]);
            if !self.data[i].is_consistent() {
                let mut s = self.data[i].clone();
                s.release_instance();
                let ghost before = self@;
                self.data.set(i, s);
                assert(self@ =~= before.update(i as int, s@));
            }
            assert(self@[i as int] == ServerManager::repaired(old(self)@[i as int]));
            i = i + 1;
        }
        assert forall|j: int| 0 <= j < self@.len() implies (#[trigger] self@[j]).instance_consistent() by {
            assert(self@[j] == ServerManager::repaired(old(self)@[j]));
        }
    }

    /// Replaces the first record named `name` by `server`.
    pub fn update(&mut self, name: &str, server: &Server) -> (r: Result<(), PsmError>)
        ensures
            r is Err <==> !has_name(old(self)@, name@),
            r matches Err(e) ==> e == PsmError::NotFound,
            r is Err ==> final(self)@ == old(self)@,
            r is Ok ==> exists|i: int|
                first_named(old(self)@, name@, i) && final(self)@ == old(self)@.update(i, server@),
            final(self).spec_path() == old(self).spec_path(),
    {
        let key = String::from_str(name);
        match self.position(&key) {
            Some(i) => {
                self.data.set(i, server.clone());
                assert(self@ =~= old(self)@.update(i as int, server@));
                Ok(())
            },
            None => Err(PsmError::NotFound),
        }
    }
}

/// Once a record whose name is not yet taken has been appended, a lookup of
/// that name finds exactly the appended record.
pub proof fn lemma_add_then_get(before: Seq<ServerView>, s: ServerView)
    requires
        !has_name(before, s.name),
    ensures
        has_name(before.push(s), s.name),
        forall|i: int| first_named(before.push(s), s.name, i) ==> before.push(s)[i] == s,
{
    let after = before.push(s);
    assert(after[before.len() as int].name == s.name);
    assert forall|i: int| first_named(after, s.name, i) implies after[i] == s by {
        if i < before.len() {
            assert(before[i].name == s.name);
        }
    }
}

/// Replacing the first record named `name` changes that record and no other.
pub proof fn lemma_update_replaces_only(
    before: Seq<ServerView>,
    name: Seq<char>,
    s: ServerView,
    i: int,
)
    requires
        first_named(before, name, i),
    ensures
        before.update(i, s).len() == before.len(),
        before.update(i, s)[i] == s,
        forall|j: int| 0 <= j < before.len() && j != i ==> #[trigger] before.update(i, s)[j] == before[j],
{
}

/// Replacing a record by a consistent one keeps a consistent registry consistent.
pub proof fn lemma_update_keeps_consistent(before: Seq<ServerView>, s: ServerView, i: int)
    requires
        0 <= i < before.len(),
        all_consistent(before),
        s.instance_consistent(),
    ensures
        all_consistent(before.update(i, s)),
{
    assert forall|j: int| 0 <= j < before.update(i, s).len() implies (#[trigger] before.update(
        i,
        s,
    )[j]).instance_consistent() by {
        if j != i {
            assert(before.update(i, s)[j] == before[j]);
        }
    }
}

/// Appending a consistent record keeps a consistent registry consistent.
pub proof fn lemma_push_keeps_consistent(before: Seq<ServerView>, s: ServerView)
    requires
        all_consistent(before),
        s.instance_consistent(),
    ensures
        all_consistent(before.push(s)),
{
    assert forall|j: int| 0 <= j < before.push(s).len() implies (#[trigger] before.push(
        s,
    )[j]).instance_consistent() by {
        if j < before.len() {
            assert(before.push(s)[j] == before[j]);
        }
    }
}

} // verus!
