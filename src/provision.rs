use vstd::prelude::*;
use vstd::string::*;
use crate::error::PsmError;
use crate::protocol::{Action, Event};
use crate::server_status::{InstanceShape, Server, ServerView, ServiceInstanceType, Status};

verus! {

/// A spot price offered for one instance shape in one zone of one region.
/// Prices are in thousandths of the provider's currency unit.
#[derive(Debug)]
pub struct PriceQuote {
    pub price: u64,
    pub region: String,
    pub zone: String,
    pub shape: InstanceShape,
}

/// Prices never decrease along `s`.
pub open spec fn sorted_by_price(s: Seq<PriceQuote>) -> bool {
    forall|i: int, j: int| 0 <= i < j < s.len() ==> #[trigger] s[i].price <= #[trigger] s[j].price
}

proof fn lemma_multiset_insert_of_seq_insert(s: Seq<PriceQuote>, p: int, q: PriceQuote)
    requires
        0 <= p <= s.len(),
    ensures
        s.insert(p, q).to_multiset() =~= s.to_multiset().insert(q),
{
    broadcast use vstd::seq_lib::group_to_multiset_ensures;

    let t = s.insert(p, q);
    assert(t.remove(p) =~= s);
    assert(t[p] == q);
    assert(t.contains(q));
}

/// The quotes ordered by ascending price: the order in which the candidates are
/// tried.
pub fn order_candidates(quotes: Vec<PriceQuote>) -> (r: Vec<PriceQuote>)
    ensures
        sorted_by_price(r@),
        r@.to_multiset() =~= quotes@.to_multiset(),
{
    broadcast use vstd::seq_lib::group_to_multiset_ensures;

    let ghost orig = quotes@;
    let mut rest = quotes;
    let mut r: Vec<PriceQuote> = Vec::new();
    while rest.len() > 0
        invariant
            sorted_by_price(r@),
            r@.to_multiset().add(rest@.to_multiset()) =~= orig.to_multiset(),
        decreases rest@.len(),
    {
        let ghost rest_before = rest@;
        let q = rest.remove(0);
        proof {
            lemma_multiset_insert_of_seq_insert(rest@, 0, q);
            assert(rest@.insert(0, q) =~= rest_before);
        }
        let mut p: usize = 0;
        while p < r.len() && r[p].price <= q.price
            invariant
                p <= r@.len(),
                forall|k: int| 0 <= k < p ==> #[trigger] r@[k].price <= q.price,
            decreases r@.len() - p,
        {
            p = p + 1;
        }
        let ghost r_before = r@;
        proof {
            lemma_multiset_insert_of_seq_insert(r_before, p as int, q);
        }
        r.insert(p, q);
        assert(sorted_by_price(r@)) by {
            assert forall|i: int, j: int| 0 <= i < j < r@.len() implies #[trigger] r@[i].price
                <= #[trigger] r@[j].price by {
                if j < p {
                } else if j == p {
                } else if i < p {
                    assert(r@[j] == r_before[j - 1]);
                } else if i == p {
                    assert(r@[j] == r_before[j - 1]);
                    assert(r_before[p as int].price > r@[i].price || p == r_before.len());
                    if p < r_before.len() {
                        assert(r_before[p as int].price <= r_before[j - 1].price);
                    }
                } else {
                    assert(r@[i] == r_before[i - 1]);
                    assert(r@[j] == r_before[j - 1]);
                }
            }
        }
    }
    r
}

/// A security group of a region.
#[derive(Debug)]
pub struct SecurityGroup {
    pub name: String,
    pub id: String,
}

/// The word that marks the security groups of this application.
pub const GROUP_TAG: &'static str = "palworld";

/// The code of `c` after ASCII lower-casing.
pub open spec fn lower_code(c: char) -> u32 {
    if 'A' <= c && c <= 'Z' {
        (c as u32 + 32) as u32
    } else {
        c as u32
    }
}

/// `pat` occurs in `s` at position `i`, ignoring ASCII case in `s`.
pub open spec fn occurs_at(s: Seq<char>, pat: Seq<char>, i: int) -> bool {
    &&& 0 <= i
    &&& i + pat.len() <= s.len()
    &&& forall|j: int| 0 <= j < pat.len() ==> lower_code(#[trigger] s[i + j]) == pat[j] as u32
}

/// The ASCII lower-cased `s` contains `pat`.
pub open spec fn contains_folded(s: Seq<char>, pat: Seq<char>) -> bool {
    exists|i: int| occurs_at(s, pat, i)
}

fn lower_char_code(c: char) -> (r: u32)
    ensures
        r == lower_code(c),
{
    if 'A' <= c && c <= 'Z' {
        c as u32 + 32
    } else {
        c as u32
    }
}

/// Whether the ASCII lower-cased `s` contains `pat`.
pub fn contains_ignoring_case(s: &str, pat: &str) -> (r: bool)
    ensures
        r == contains_folded(s@, pat@),
{
    let n = s.unicode_len();
    let m = pat.unicode_len();
    if m > n {
        return false;
    }
    let mut i: usize = 0;
    while i <= n - m
        invariant
            n == s@.len(),
            m == pat@.len(),
            m <= n,
            i <= n - m + 1,
            forall|k: int| 0 <= k < i ==> !occurs_at(s@, pat@, k),
        decreases n - m + 1 - i,
    {
        let mut j: usize = 0;
        let mut ok = true;
        while j < m
            invariant
                n == s@.len(),
                m == pat@.len(),
                i + m <= n,
                j <= m,
                ok ==> forall|t: int| 0 <= t < j ==> lower_code(#[trigger] s@[i + t]) == pat@[t] as u32,
                !ok ==> !occurs_at(s@, pat@, i as int),
            decreases m - j,
        {
            if ok && lower_char_code(s.get_char(i + j)) != pat.get_char(j) as u32 {
                ok = false;
            }
            j = j + 1;
        }
        if ok {
            assert(occurs_at(s@, pat@, i as int));
            return true;
        }
        i = i + 1;
    }
    false
}

/// The ids, in order, of the groups whose names carry the application's tag.
pub open spec fn tagged_ids(groups: Seq<SecurityGroup>) -> Seq<Seq<char>>
    decreases groups.len(),
{
    if groups.len() == 0 {
        Seq::empty()
    } else {
        let rest = tagged_ids(groups.drop_last());
        if contains_folded(groups.last().name@, GROUP_TAG@) {
            rest.push(groups.last().id@)
        } else {
            rest
        }
    }
}

/// The ids of the security groups to attach to a new instance.
pub fn tagged_group_ids(groups: &Vec<SecurityGroup>) -> (r: Vec<String>)
    ensures
        r@.map_values(|s: String| s@) == tagged_ids(groups@),
{
    let mut r: Vec<String> = Vec::new();
    let mut i: usize = 0;
    while i < groups.len()
        invariant
            i <= groups@.len(),
            r@.map_values(|s: String| s@) == tagged_ids(groups@.subrange(0, i as int)),
        decreases groups@.len() - i,
    {
        let ghost before = r@;
        assert(groups@.subrange(0, i + 1).drop_last() =~= groups@.subrange(0, i as int));
        if contains_ignoring_case(groups[i].name.as_str(), GROUP_TAG) {
            r.push(groups[i].id.clone());
            assert(r@.map_values(|s: String| s@) =~= before.map_values(|s: String| s@).push(
                groups@[i as int].id@,
            ));
        }
        i = i + 1;
    }
    assert(groups@.subrange(0, groups@.len() as int) =~= groups@);
    r
}

/// The views of a sequence of strings.
pub open spec fn views(s: Seq<String>) -> Seq<Seq<char>> {
    s.map_values(|x: String| x@)
}

pub fn clone_strings(v: &Vec<String>) -> (r: Vec<String>)
    ensures
        views(r@) == views(v@),
{
    let mut r: Vec<String> = Vec::new();
    let mut i: usize = 0;
    while i < v.len()
        invariant
            i <= v@.len(),
            views(r@) == views(v@.subrange(0, i as int)),
        decreases v@.len() - i,
    {
        let ghost before = r@;
        r.push(v[i].clone());
        assert(views(r@) =~= views(before).push(v@[i as int]@));
        assert(v@.subrange(0, i + 1) =~= v@.subrange(0, i as int).push(v@[i as int]));
        assert(views(r@) =~= views(v@.subrange(0, i + 1)));
        i = i + 1;
    }
    assert(v@.subrange(0, v@.len() as int) =~= v@);
    r
}

/// The region in which the account's key pairs are looked up; key pairs are
/// shared by all regions.
pub const KEY_PAIR_REGION: &'static str = "ap-hongkong";

/// Where a provisioning search stands.
#[derive(PartialEq, Eq, Structural, Clone, Copy, Debug)]
pub enum ProvisionPhase {
    /// Spot prices were asked for.
    Pricing,
    /// Key pairs were asked for.
    Keys,
    /// The security groups of the current candidate's region were asked for.
    Groups,
    /// An instance of the current candidate was asked for.
    Creating,
    /// The address of the created instance was asked for.
    Addressing,
    /// The search has ended.
    Over,
}

/// What a provisioning search hands back after an event.
#[derive(Debug)]
pub enum ProvisionStep {
    /// Outside work to carry out.
    Act(Action),
    /// An instance was created; this is its running server record.
    Ready(Server),
    /// The search failed.
    Failed(PsmError),
}

/// A greedy search for a spot instance: candidates are tried from the cheapest
/// up, and the first one that the provider creates is taken.
#[derive(Debug)]
pub struct Provisioner {
    name: String,
    tier: ServiceInstanceType,
    candidates: Vec<PriceQuote>,
    next: usize,
    key_ids: Vec<String>,
    instance_id: String,
    phase: ProvisionPhase,
}

/// The record of a server named `name` of tier `tier` that runs on a fresh instance.
pub open spec fn fresh_server(
    name: Seq<char>,
    tier: ServiceInstanceType,
    ip: Seq<char>,
    region: Seq<char>,
    instance_id: Seq<char>,
) -> ServerView {
    ServerView {
        name,
        status: Status::Running,
        service_instance_type: tier,
        save: None,
        ip: Some(ip),
        region: Some(region),
        instance_id: Some(instance_id),
    }
}

impl Provisioner {
    pub closed spec fn spec_phase(&self) -> ProvisionPhase {
        self.phase
    }

    pub closed spec fn spec_name(&self) -> Seq<char> {
        self.name@
    }

    pub closed spec fn spec_tier(&self) -> ServiceInstanceType {
        self.tier
    }

    /// The candidates in the order in which they are tried.
    pub closed spec fn spec_candidates(&self) -> Seq<PriceQuote> {
        self.candidates@
    }

    /// The position of the candidate being tried.
    pub closed spec fn spec_next(&self) -> int {
        self.next as int
    }

    pub closed spec fn spec_key_ids(&self) -> Seq<Seq<char>> {
        views(self.key_ids@)
    }

    pub closed spec fn spec_instance_id(&self) -> Seq<char> {
        self.instance_id@
    }

    pub closed spec fn wf(&self) -> bool {
        &&& (self.phase == ProvisionPhase::Groups || self.phase == ProvisionPhase::Creating
            || self.phase == ProvisionPhase::Addressing) ==> self.next < self.candidates@.len()
    }

    /// Starts a search for a server named `name` of tier `tier` in `regions`.
    pub fn start(name: &str, regions: Vec<String>, tier: ServiceInstanceType) -> (r: (
        Provisioner,
        Action,
    ))
        ensures
            r.0.wf(),
            r.0.spec_phase() == ProvisionPhase::Pricing,
            r.0.spec_name() == name@,
            r.0.spec_tier() == tier,
            r.1 matches Action::QuerySpotPrices { regions: rs, shapes } && rs@ == regions@
                && shapes@ == tier.shapes(),
    {
        let p = Provisioner {
            name: String::from_str(name),
            tier,
            candidates: Vec::new(),
            next: 0,
            key_ids: Vec::new(),
            instance_id: String::new(),
            phase: ProvisionPhase::Pricing,
        };
        (p, Action::QuerySpotPrices { regions, shapes: tier.to_list() })
    }

    pub fn is_wf(&self) -> (r: bool)
        ensures
            r == self.wf(),
    {
        !(self.phase == ProvisionPhase::Groups || self.phase == ProvisionPhase::Creating
            || self.phase == ProvisionPhase::Addressing) || self.next < self.candidates.len()
    }

    pub fn is_over(&self) -> (r: bool)
        ensures
            r == (self.spec_phase() == ProvisionPhase::Over),
    {
        self.phase == ProvisionPhase::Over
    }

    /// Asks for the security groups of the current candidate's region, or gives
    /// up when no candidate is left.
    fn try_current(&mut self) -> (r: ProvisionStep)
        requires
            old(self).phase == ProvisionPhase::Keys || old(self).phase == ProvisionPhase::Creating,
        ensures
            final(self).name == old(self).name,
            final(self).tier == old(self).tier,
            final(self).candidates == old(self).candidates,
            final(self).next == old(self).next,
            final(self).key_ids == old(self).key_ids,
            final(self).wf(),
            old(self).next < old(self).candidates@.len() ==> final(self).phase
                == ProvisionPhase::Groups && (r matches ProvisionStep::Act(
                Action::ListSecurityGroups { region },
            ) && region@ == old(self).candidates@[old(self).next as int].region@),
            old(self).next >= old(self).candidates@.len() ==> final(self).phase
                == ProvisionPhase::Over && (r matches ProvisionStep::Failed(e) && e
                == PsmError::ProvisioningExhausted),
    {
        if self.next < self.candidates.len() {
            self.phase = ProvisionPhase::Groups;
            ProvisionStep::Act(
                Action::ListSecurityGroups { region: self.candidates[self.next].region.clone() },
            )
        } else {
            self.phase = ProvisionPhase::Over;
            ProvisionStep::Failed(PsmError::ProvisioningExhausted)
        }
    }

    /// What one step of the search does: `post` is the search after `pre` took
    /// `event`, and `r` what it handed back.
    pub open spec fn step_post(pre: Provisioner, post: Provisioner, event: Event, r: ProvisionStep) -> bool {
        let cands = pre.spec_candidates();
        let k = pre.spec_next();
        &&& post.wf()
        &&& post.spec_name() == pre.spec_name()
        &&& post.spec_tier() == pre.spec_tier()
        &&& (r is Act <==> post.spec_phase() != ProvisionPhase::Over)
        &&& (r matches ProvisionStep::Act(a) ==> !(a is Persist) && !(a is Finish))
        &&& (r matches ProvisionStep::Ready(s) ==> s@.instance_consistent() && s@.status
            == Status::Running && s@.name == pre.spec_name())
        &&& (event matches Event::Failed(e) ==> (r matches ProvisionStep::Failed(f) && f == e))
        &&& (pre.spec_phase() == ProvisionPhase::Pricing ==> (event matches Event::Prices(qs) ==> {
            &&& post.spec_phase() == ProvisionPhase::Keys
            &&& sorted_by_price(post.spec_candidates())
            &&& post.spec_candidates().to_multiset() =~= qs@.to_multiset()
            &&& post.spec_next() == 0
            &&& (r matches ProvisionStep::Act(Action::ListKeyPairs { region }) && region@
                == KEY_PAIR_REGION@)
        }))
        &&& (pre.spec_phase() == ProvisionPhase::Keys ==> (event matches Event::KeyPairs(ids) ==> {
            &&& post.spec_key_ids() == views(ids@)
            &&& post.spec_candidates() == cands
            &&& post.spec_next() == k
            &&& k < cands.len() ==> post.spec_phase() == ProvisionPhase::Groups && (
            r matches ProvisionStep::Act(Action::ListSecurityGroups { region }) && region@
                == cands[k].region@)
            &&& k >= cands.len() ==> (r matches ProvisionStep::Failed(e) && e
                == PsmError::ProvisioningExhausted)
        }))
        &&& (pre.spec_phase() == ProvisionPhase::Groups ==> (event matches Event::SecurityGroups(gs)
            ==> {
            &&& post.spec_phase() == ProvisionPhase::Creating
            &&& post.spec_candidates() == cands
            &&& post.spec_next() == k
            &&& post.spec_key_ids() == pre.spec_key_ids()
            &&& (r matches ProvisionStep::Act(
                Action::RunInstance { region, zone, shape, key_ids, security_group_ids },
            ) && region@ == cands[k].region@ && zone@ == cands[k].zone@ && shape == cands[k].shape
                && views(key_ids@) == pre.spec_key_ids() && views(security_group_ids@)
                == tagged_ids(gs@))
        }))
        &&& (pre.spec_phase() == ProvisionPhase::Creating ==> (event matches Event::Created(id) ==> {
            &&& post.spec_phase() == ProvisionPhase::Addressing
            &&& post.spec_instance_id() == id@
            &&& post.spec_candidates() == cands
            &&& post.spec_next() == k
            &&& (r matches ProvisionStep::Act(Action::QueryAddress { region, instance_id })
                && region@ == cands[k].region@ && instance_id@ == id@)
        }))
        &&& (pre.spec_phase() == ProvisionPhase::Creating ==> (event is CreateFailed ==> {
            &&& post.spec_candidates() == cands
            &&& post.spec_next() == k + 1
            &&& post.spec_key_ids() == pre.spec_key_ids()
            &&& k + 1 < cands.len() ==> post.spec_phase() == ProvisionPhase::Groups && (
            r matches ProvisionStep::Act(Action::ListSecurityGroups { region }) && region@
                == cands[k + 1].region@)
            &&& k + 1 >= cands.len() ==> (r matches ProvisionStep::Failed(e) && e
                == PsmError::ProvisioningExhausted)
        }))
        &&& (pre.spec_phase() == ProvisionPhase::Addressing ==> (event matches Event::Address(ip)
            ==> post.spec_phase() == ProvisionPhase::Over && (r matches ProvisionStep::Ready(s)
            && s@ == fresh_server(
            pre.spec_name(),
            pre.spec_tier(),
            ip@,
            cands[k].region@,
            pre.spec_instance_id(),
        ))))
    }

    /// Takes the answer to the last action and decides the next step.
    pub fn step(&mut self, event: Event) -> (r: ProvisionStep)
        requires
            old(self).wf(),
            old(self).spec_phase() != ProvisionPhase::Over,
        ensures
            Provisioner::step_post(*old(self), *final(self), event, r),
    {
        match (self.phase, event) {
            (_, Event::Failed(e)) => {
                self.phase = ProvisionPhase::Over;
                ProvisionStep::Failed(e)
            },
            (ProvisionPhase::Pricing, Event::Prices(quotes)) => {
                self.candidates = order_candidates(quotes);
                self.next = 0;
                self.phase = ProvisionPhase::Keys;
                ProvisionStep::Act(Action::ListKeyPairs { region: String::from_str(KEY_PAIR_REGION) })
            },
            (ProvisionPhase::Keys, Event::KeyPairs(ids)) => {
                self.key_ids = ids;
                self.try_current()
            },
            (ProvisionPhase::Groups, Event::SecurityGroups(groups)) => {
                let c = &self.candidates[self.next];
                let action = Action::RunInstance {
                    region: c.region.clone(),
                    zone: c.zone.clone(),
                    shape: c.shape,
                    key_ids: clone_strings(&self.key_ids),
                    security_group_ids: tagged_group_ids(&groups),
                };
                self.phase = ProvisionPhase::Creating;
                ProvisionStep::Act(action)
            },
            (ProvisionPhase::Creating, Event::Created(id)) => {
                let region = self.candidates[self.next].region.clone();
                let instance_id = id.clone();
                self.instance_id = id;
                self.phase = ProvisionPhase::Addressing;
                ProvisionStep::Act(Action::QueryAddress { region, instance_id })
            },
            (ProvisionPhase::Creating, Event::CreateFailed) => {
                let n = self.candidates.len();
                assert(self.next < n);
                self.next = self.next + 1;
                self.try_current()
            },
            (ProvisionPhase::Addressing, Event::Address(ip)) => {
                self.phase = ProvisionPhase::Over;
                ProvisionStep::Ready(
                    Server {
                        name: self.name.clone(),
                        status: Status::Running,
                        service_instance_type: self.tier,
                        save: None,
                        ip: Some(ip),
                        region: Some(self.candidates[self.next].region.clone()),
                        instance_id: Some(self.instance_id.clone()),
                    },
                )
            },
            _ => {
                self.phase = ProvisionPhase::Over;
                ProvisionStep::Failed(PsmError::UnexpectedEvent)
            },
        }
    }
}

} // verus!
