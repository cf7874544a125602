use vstd::prelude::*;
use tokio::sync::broadcast::{Receiver, Sender};
use crate::ipv4::{dotted, Ipv4};
use crate::logs::{open_log_channel, publish, subscribe, LOG_CAPACITY};
use crate::strings::{clone_strings, joined, joined3};
use crate::container::{any_has_nul, has_nul, BuilderView, ContainerBuilder, Error};
use crate::paths::joined_path;
use crate::storage::rootfs_dir;

verus! {

/// Last octet of the first address handed to a container (the bridge holds `.1`).
pub const FIRST_HOST_OCTET: u8 = 2;

/// Last octet at which the subnet counts as exhausted.
pub const EXHAUSTED_OCTET: u8 = 255;

/// Length of the id prefix used in default names and interface names.
pub const SHORT_ID_LEN: usize = 8;

/// The address of the container host with last octet `d` in `172.29.0.0/24`.
pub open spec fn host_address(d: u8) -> Ipv4 {
    Ipv4 { a: 172, b: 29, c: 0, d: d }
}

/// Text form of a UUID as the daemon writes ids: 36 characters, hyphens at
/// positions 8, 13, 18 and 23, lower-case hexadecimal digits elsewhere.
pub open spec fn is_uuid_text(s: Seq<char>) -> bool {
    &&& s.len() == 36
    &&& forall|i: int| 0 <= i < 36 ==> {
        if i == 8 || i == 13 || i == 18 || i == 23 {
            #[trigger] s[i] == '-'
        } else {
            ('0' <= s[i] <= '9') || ('a' <= s[i] <= 'f')
        }
    }
}

/// The name given to a container whose request names none.
pub open spec fn default_name(id: Seq<char>) -> Seq<char> {
    "aethel-"@ + id.take(SHORT_ID_LEN as int)
}

/// The name a container gets: the requested one, or the default when it is empty.
pub open spec fn chosen_name(id: Seq<char>, requested: Seq<char>) -> Seq<char> {
    if requested.len() == 0 { default_name(id) } else { requested }
}

/// Relies on uuid::Uuid::new_v4 and its `Display`: a random UUID in hyphenated
/// lower-case form.
#[verifier::external_body]
fn fresh_uuid() -> (r: String)
    ensures
        is_uuid_text(r@),
{
    uuid::Uuid::new_v4().to_string()
}

/// Relies on nix::sys::signal::kill: sends SIGKILL to process `pid`, giving
/// the error's text on failure. A pid of zero or below names a group of
/// processes, so it is ruled out.
#[verifier::external_body]
fn send_sigkill(pid: i32) -> Result<(), String>
    requires
        pid > 0,
{
    match nix::sys::signal::kill(nix::unistd::Pid::from_raw(pid), nix::sys::signal::Signal::SIGKILL) {
        Ok(()) => Ok(()),
        Err(e) => Err(e.to_string()),
    }
}

/// A request to create a container.
pub struct CreateRequest {
    pub image_name: String,
    /// Empty when the caller names none.
    pub name: String,
    pub command: String,
    pub args: Vec<String>,
}

/// Abstract value of a container record.
pub struct ContainerView {
    pub id: Seq<char>,
    pub name: Seq<char>,
    pub image: Seq<char>,
    pub status: Seq<char>,
    pub pid: i32,
    pub ip: Ipv4,
}

/// A container as the daemon records it.
pub struct Container {
    id: String,
    name: String,
    image: String,
    status: String,
    pid: i32,
    ip_address: Ipv4,
}

impl View for Container {
    type V = ContainerView;

    closed spec fn view(&self) -> ContainerView {
        ContainerView {
            id: self.id@,
            name: self.name@,
            image: self.image@,
            status: self.status@,
            pid: self.pid,
            ip: self.ip_address,
        }
    }
}

/// Abstract value of the description of a container given to clients.
pub struct InfoView {
    pub id: Seq<char>,
    pub name: Seq<char>,
    pub image: Seq<char>,
    pub status: Seq<char>,
    pub ip_address: Seq<char>,
}

/// The description of a container given to clients, all as text.
pub struct ContainerInfo {
    pub id: String,
    pub name: String,
    pub image: String,
    pub status: String,
    pub ip_address: String,
}

impl View for ContainerInfo {
    type V = InfoView;

    open spec fn view(&self) -> InfoView {
        InfoView {
            id: self.id@,
            name: self.name@,
            image: self.image@,
            status: self.status@,
            ip_address: self.ip_address@,
        }
    }
}

/// What a client is told of a record.
pub open spec fn info_of(c: ContainerView) -> InfoView {
    InfoView { id: c.id, name: c.name, image: c.image, status: c.status, ip_address: dotted(c.ip) }
}

impl Container {
    /// The description of this container given to clients.
    pub fn info(&self) -> (r: ContainerInfo)
        ensures
            r@ == info_of(self@),
    {
        ContainerInfo {
            id: self.id.clone(),
            name: self.name.clone(),
            image: self.image.clone(),
            status: self.status.clone(),
            ip_address: self.ip_address.to_text(),
        }
    }
}

/// An error reply to a client request, by kind, with its message.
pub enum RpcError {
    NotFound(String),
    FailedPrecondition(String),
    Internal(String),
    ResourceExhausted(String),
}

/// A create request that passed the registry's checks, with the id and name
/// the container will have.
pub struct PendingCreate {
    pub id: String,
    pub name: String,
    pub image: String,
    pub command: String,
    pub args: Vec<String>,
}

struct Entry {
    record: Container,
    logs: Sender<String>,
}

/// Abstract value of the registry: the live records in order of creation and
/// the last octet the next container's address gets.
pub struct RegistryView {
    pub records: Seq<ContainerView>,
    pub next_octet: u8,
    /// Every id a successful create has handed out, in order.
    pub issued: Seq<Seq<char>>,
}

/// The registry of live containers owned by the daemon's state actor, with
/// one log broadcaster per container and the address allocator.
pub struct Registry {
    entries: Vec<Entry>,
    next_ip_octet: u8,
    issued: Vec<String>,
}

pub open spec fn record_fits(c: ContainerView, next_octet: u8) -> bool {
    &&& c.pid > 0
    &&& c.ip.a == 172 && c.ip.b == 29 && c.ip.c == 0
    &&& FIRST_HOST_OCTET <= c.ip.d < next_octet
}

/// Ids and addresses of distinct records differ.
pub open spec fn all_distinct(records: Seq<ContainerView>) -> bool {
    forall|i: int, j: int|
        0 <= i < records.len() && 0 <= j < records.len() && i != j
            ==> #[trigger] records[i].id != #[trigger] records[j].id && records[i].ip != records[j].ip
}

/// The registry's invariant.
pub open spec fn valid(v: RegistryView) -> bool {
    &&& FIRST_HOST_OCTET <= v.next_octet <= EXHAUSTED_OCTET
    &&& forall|i: int| 0 <= i < v.records.len() ==> record_fits(#[trigger] v.records[i], v.next_octet)
    &&& all_distinct(v.records)
    &&& forall|i: int| 0 <= i < v.records.len() ==> v.issued.contains(#[trigger] v.records[i].id)
}

pub open spec fn has_id(records: Seq<ContainerView>, id: Seq<char>) -> bool {
    exists|i: int| 0 <= i < records.len() && #[trigger] records[i].id == id
}

/// The record with the given id, if there is one.
pub open spec fn lookup(records: Seq<ContainerView>, id: Seq<char>) -> Option<ContainerView> {
    if has_id(records, id) {
        Some(records[choose|i: int| 0 <= i < records.len() && #[trigger] records[i].id == id])
    } else {
        None
    }
}

/// The ids of the live containers.
pub open spec fn live_ids(records: Seq<ContainerView>) -> Set<Seq<char>> {
    Set::new(|id: Seq<char>| has_id(records, id))
}

/// `post` is `pre` with the record `rec` created: its id was never issued
/// before, its pid is positive, and it takes the next address, which must
/// not be the last octet.
pub open spec fn created(pre: RegistryView, post: RegistryView, rec: ContainerView) -> bool {
    &&& !pre.issued.contains(rec.id)
    &&& rec.pid > 0
    &&& pre.next_octet < EXHAUSTED_OCTET
    &&& rec.ip == host_address(pre.next_octet)
    &&& rec.status == "Running"@
    &&& post.records == pre.records.push(rec)
    &&& post.next_octet == pre.next_octet + 1
    &&& post.issued == pre.issued.push(rec.id)
}

/// `post` is `pre` with the record of id `id` taken out; the allocator keeps
/// its place.
pub open spec fn removed(pre: RegistryView, post: RegistryView, id: Seq<char>) -> bool {
    exists|k: int|
        0 <= k < pre.records.len() && #[trigger] pre.records[k].id == id
            && post.records == pre.records.remove(k) && post.next_octet == pre.next_octet
            && post.issued == pre.issued
}

/// An id that was never issued names no live record.
pub proof fn lemma_fresh_id_not_live(v: RegistryView, id: Seq<char>)
    requires
        valid(v),
        !v.issued.contains(id),
    ensures
        !has_id(v.records, id),
        lookup(v.records, id) is None,
{
    assert forall|i: int| 0 <= i < v.records.len() implies #[trigger] v.records[i].id != id by {
        assert(v.issued.contains(v.records[i].id));
    }
}

/// Creating or removing a record keeps the invariant: ids and addresses of
/// the surviving records stay pairwise distinct.
pub proof fn lemma_steps_keep_ids_and_addresses_unique(
    pre: RegistryView,
    post: RegistryView,
    rec: ContainerView,
    id: Seq<char>,
)
    requires
        valid(pre),
        created(pre, post, rec) || removed(pre, post, id),
    ensures
        valid(post),
{
    if created(pre, post, rec) {
        let n = pre.records.len();
        lemma_fresh_id_not_live(pre, rec.id);
        assert forall|i: int| 0 <= i < post.records.len() implies post.issued.contains(#[trigger] post.records[i].id) by {
            if i < n {
                assert(post.records[i] == pre.records[i]);
                let w = choose|w: int| 0 <= w < pre.issued.len() && pre.issued[w] == pre.records[i].id;
                assert(post.issued[w] == pre.issued[w]);
            } else {
                assert(post.issued[pre.issued.len() as int] == rec.id);
            }
        }
        assert forall|i: int| 0 <= i < post.records.len() implies record_fits(#[trigger] post.records[i], post.next_octet) by {
            if i < n {
                assert(post.records[i] == pre.records[i]);
                assert(record_fits(pre.records[i], pre.next_octet));
            }
        }
        assert forall|i: int, j: int|
            0 <= i < post.records.len() && 0 <= j < post.records.len() && i != j
            implies #[trigger] post.records[i].id != #[trigger] post.records[j].id && post.records[i].ip != post.records[j].ip by {
            if i < n && j < n {
                assert(post.records[i] == pre.records[i]);
                assert(post.records[j] == pre.records[j]);
            } else if i < n {
                assert(post.records[i] == pre.records[i]);
                assert(record_fits(pre.records[i], pre.next_octet));
                assert(post.records[j] == rec);
            } else {
                assert(post.records[j] == pre.records[j]);
                assert(record_fits(pre.records[j], pre.next_octet));
                assert(post.records[i] == rec);
            }
        }
    } else {
        let k = choose|k: int|
            0 <= k < pre.records.len() && #[trigger] pre.records[k].id == id
                && post.records == pre.records.remove(k) && post.next_octet == pre.next_octet
            && post.issued == pre.issued;
        assert forall|i: int| 0 <= i < post.records.len() implies #[trigger] post.records[i] == pre.records[if i < k { i } else { i + 1 }] by {}
        assert forall|i: int| 0 <= i < post.records.len() implies record_fits(#[trigger] post.records[i], post.next_octet) by {
            let s = if i < k { i } else { i + 1 };
            assert(post.records[i] == pre.records[s]);
            assert(record_fits(pre.records[s], pre.next_octet));
        }
        assert forall|i: int| 0 <= i < post.records.len() implies post.issued.contains(#[trigger] post.records[i].id) by {
            let s = if i < k { i } else { i + 1 };
            assert(post.records[i] == pre.records[s]);
            assert(pre.issued.contains(pre.records[s].id));
        }
        assert forall|i: int, j: int|
            0 <= i < post.records.len() && 0 <= j < post.records.len() && i != j
            implies #[trigger] post.records[i].id != #[trigger] post.records[j].id && post.records[i].ip != post.records[j].ip by {
            let si = if i < k { i } else { i + 1 };
            let sj = if j < k { j } else { j + 1 };
            assert(post.records[i] == pre.records[si]);
            assert(post.records[j] == pre.records[sj]);
            assert(si != sj);
            assert(pre.records[si].id != pre.records[sj].id);
        }
    }
}

/// After a successful create, looking up the new id gives the new record.
pub proof fn lemma_created_is_found(pre: RegistryView, post: RegistryView, rec: ContainerView)
    requires
        valid(pre),
        created(pre, post, rec),
    ensures
        lookup(post.records, rec.id) == Some(rec),
{
    let n = pre.records.len();
    assert(post.records[n as int] == rec);
    assert(has_id(post.records, rec.id));
    lemma_steps_keep_ids_and_addresses_unique(pre, post, rec, rec.id);
    let i = choose|i: int| 0 <= i < post.records.len() && #[trigger] post.records[i].id == rec.id;
    assert(i == n);
}

/// Creating or removing one record leaves the lookup of every other id as it was.
pub proof fn lemma_other_records_kept(
    pre: RegistryView,
    post: RegistryView,
    rec: ContainerView,
    id: Seq<char>,
    other: Seq<char>,
)
    requires
        valid(pre),
        created(pre, post, rec) && other != rec.id || removed(pre, post, id) && other != id,
    ensures
        lookup(post.records, other) == lookup(pre.records, other),
{
    lemma_steps_keep_ids_and_addresses_unique(pre, post, rec, id);
    if created(pre, post, rec) && other != rec.id {
        let n = pre.records.len();
        if has_id(pre.records, other) {
            let i = choose|i: int| 0 <= i < pre.records.len() && #[trigger] pre.records[i].id == other;
            assert(post.records[i] == pre.records[i]);
            assert(has_id(post.records, other));
            let j = choose|j: int| 0 <= j < post.records.len() && #[trigger] post.records[j].id == other;
            assert(j != n);
        } else {
            assert forall|j: int| 0 <= j < post.records.len() implies #[trigger] post.records[j].id != other by {
                if j < n {
                    assert(post.records[j] == pre.records[j]);
                }
            }
        }
    } else {
        let k = choose|k: int|
            0 <= k < pre.records.len() && #[trigger] pre.records[k].id == id
                && post.records == pre.records.remove(k) && post.next_octet == pre.next_octet
            && post.issued == pre.issued;
        assert forall|i: int| 0 <= i < post.records.len() implies #[trigger] post.records[i] == pre.records[if i < k { i } else { i + 1 }] by {}
        if has_id(pre.records, other) {
            let i = choose|i: int| 0 <= i < pre.records.len() && #[trigger] pre.records[i].id == other;
            assert(i != k);
            let t = if i < k { i } else { i - 1 };
            assert(post.records[t] == pre.records[i]);
            assert(has_id(post.records, other));
            let j = choose|j: int| 0 <= j < post.records.len() && #[trigger] post.records[j].id == other;
            let sj = if j < k { j } else { j + 1 };
            assert(post.records[j] == pre.records[sj]);
        } else {
            assert forall|j: int| 0 <= j < post.records.len() implies #[trigger] post.records[j].id != other by {
                let sj = if j < k { j } else { j + 1 };
                assert(post.records[j] == pre.records[sj]);
            }
        }
    }
}

/// After a successful delete, looking up the deleted id finds nothing.
pub proof fn lemma_removed_is_gone(pre: RegistryView, post: RegistryView, id: Seq<char>)
    requires
        valid(pre),
        removed(pre, post, id),
    ensures
        lookup(post.records, id) is None,
{
    let k = choose|k: int|
        0 <= k < pre.records.len() && #[trigger] pre.records[k].id == id
            && post.records == pre.records.remove(k) && post.next_octet == pre.next_octet
            && post.issued == pre.issued;
    assert forall|j: int| 0 <= j < post.records.len() implies #[trigger] post.records[j].id != id by {
        let sj = if j < k { j } else { j + 1 };
        assert(post.records[j] == pre.records[sj]);
    }
}

/// The live ids follow the commands: a successful create adds its id, a
/// successful delete takes its id out, and nothing else changes them.
pub proof fn lemma_live_ids_follow_commands(
    pre: RegistryView,
    post: RegistryView,
    rec: ContainerView,
    id: Seq<char>,
)
    requires
        valid(pre),
        created(pre, post, rec) || removed(pre, post, id),
    ensures
        created(pre, post, rec) ==> live_ids(post.records) == live_ids(pre.records).insert(rec.id),
        removed(pre, post, id) ==> live_ids(post.records) == live_ids(pre.records).remove(id),
{
    if created(pre, post, rec) {
        lemma_created_is_found(pre, post, rec);
        assert forall|x: Seq<char>| #[trigger] live_ids(post.records).contains(x) == live_ids(pre.records).insert(rec.id).contains(x) by {
            if x != rec.id {
                lemma_other_records_kept(pre, post, rec, id, x);
            }
        }
        assert(live_ids(post.records) =~= live_ids(pre.records).insert(rec.id));
    }
    if removed(pre, post, id) {
        lemma_removed_is_gone(pre, post, id);
        assert forall|x: Seq<char>| #[trigger] live_ids(post.records).contains(x) == live_ids(pre.records).remove(id).contains(x) by {
            if x != id {
                lemma_other_records_kept(pre, post, rec, id, x);
            }
        }
        assert(live_ids(post.records) =~= live_ids(pre.records).remove(id));
    }
}

/// The name a container gets: `requested` when it is not empty, else
/// `aethel-` followed by the first eight characters of `id`.
pub fn container_name(id: &String, requested: &String) -> (r: String)
    requires
        id@.len() >= SHORT_ID_LEN,
    ensures
        r@ == chosen_name(id@, requested@),
{
    if requested.as_str().is_empty() {
        proof {
            reveal_strlit("aethel-");
        }
        let short = id.as_str().substring_char(0, SHORT_ID_LEN);
        joined("aethel-", short)
    } else {
        requested.clone()
    }
}

/// Reply when the image could not be turned into a root filesystem.
pub fn materialize_failure(image: &String, detail: &String) -> (r: RpcError)
    ensures
        r matches RpcError::FailedPrecondition(m)
            && m@ == "Failed to prepare rootfs for image '"@ + image@ + "': "@ + detail@,
{
    let mut m = joined3("Failed to prepare rootfs for image '", image.as_str(), "': ");
    m.append(detail.as_str());
    RpcError::FailedPrecondition(m)
}

/// Reply when the container process could not be launched.
pub fn build_failure(detail: &String) -> (r: RpcError)
    ensures
        r matches RpcError::Internal(m) && m@ == "Failed to build container: "@ + detail@,
{
    RpcError::Internal(joined("Failed to build container: ", detail.as_str()))
}

/// Reply for an id that names no container.
pub fn not_found() -> (r: RpcError)
    ensures
        r matches RpcError::NotFound(m) && m@ == "Container not found"@,
{
    RpcError::NotFound(String::from_str("Container not found"))
}

fn exhausted() -> (r: RpcError)
    ensures
        r is ResourceExhausted,
{
    RpcError::ResourceExhausted(String::from_str("no container address left in 172.29.0.0/24"))
}

/// The record a successful create inserts.
pub open spec fn new_record(p: PendingView, pid: i32, octet: u8) -> ContainerView {
    ContainerView {
        id: p.id,
        name: p.name,
        image: p.image,
        status: "Running"@,
        pid: pid,
        ip: host_address(octet),
    }
}

/// Abstract value of a pending create.
pub struct PendingView {
    pub id: Seq<char>,
    pub name: Seq<char>,
    pub image: Seq<char>,
    pub command: Seq<char>,
    pub args: Seq<Seq<char>>,
}

impl View for PendingCreate {
    type V = PendingView;

    open spec fn view(&self) -> PendingView {
        PendingView {
            id: self.id@,
            name: self.name@,
            image: self.image@,
            command: self.command@,
            args: self.args.deep_view(),
        }
    }
}

/// One completed command as it acted on the registry.
pub enum Step {
    /// A create that succeeded, with the record it inserted.
    Created(ContainerView),
    /// A delete that succeeded, with the id it removed.
    Removed(Seq<char>),
    /// A command that changed nothing: a read, or a failed create or delete.
    Unchanged,
}

pub open spec fn step_holds(pre: RegistryView, post: RegistryView, st: Step) -> bool {
    match st {
        Step::Created(rec) => created(pre, post, rec),
        Step::Removed(id) => removed(pre, post, id),
        Step::Unchanged => post == pre,
    }
}

/// `states` are the registry's values before and after each of `steps`.
pub open spec fn run_holds(states: Seq<RegistryView>, steps: Seq<Step>) -> bool {
    &&& states.len() == steps.len() + 1
    &&& forall|i: int| 0 <= i < steps.len() ==> step_holds(#[trigger] states[i], states[i + 1], steps[i])
}

/// Whether the last of `steps` that concerns `id` is a successful create.
pub open spec fn last_touch_created(steps: Seq<Step>, id: Seq<char>) -> bool
    decreases steps.len(),
{
    if steps.len() == 0 {
        false
    } else {
        match steps.last() {
            Step::Created(rec) => if rec.id == id { true } else { last_touch_created(steps.drop_last(), id) },
            Step::Removed(x) => if x == id { false } else { last_touch_created(steps.drop_last(), id) },
            Step::Unchanged => last_touch_created(steps.drop_last(), id),
        }
    }
}

/// From an empty registry, after any run of completed commands, the live
/// ids are exactly those whose last command was a successful create, and
/// ids and addresses of the live records are pairwise distinct.
pub proof fn lemma_live_ids_after_run(states: Seq<RegistryView>, steps: Seq<Step>)
    requires
        run_holds(states, steps),
        valid(states[0]),
        states[0].records.len() == 0,
    ensures
        valid(states.last()),
        live_ids(states.last().records) == Set::new(|id: Seq<char>| last_touch_created(steps, id)),
    decreases steps.len(),
{
    if steps.len() == 0 {
        assert(live_ids(states.last().records) =~= Set::new(|id: Seq<char>| last_touch_created(steps, id)));
    } else {
        let n = steps.len() - 1;
        let pstates = states.drop_last();
        let psteps = steps.drop_last();
        assert forall|i: int| 0 <= i < psteps.len() implies step_holds(#[trigger] pstates[i], pstates[i + 1], psteps[i]) by {
            assert(step_holds(states[i], states[i + 1], steps[i]));
        }
        lemma_live_ids_after_run(pstates, psteps);
        let pre = states[n];
        let post = states[n + 1];
        assert(pstates.last() == pre);
        assert(step_holds(states[n], states[n + 1], steps[n]));
        assert(states.last() == post);
        match steps[n] {
            Step::Created(rec) => {
                lemma_steps_keep_ids_and_addresses_unique(pre, post, rec, rec.id);
                lemma_live_ids_follow_commands(pre, post, rec, rec.id);
            },
            Step::Removed(id) => {
                lemma_steps_keep_ids_and_addresses_unique(pre, post, pre.records[0], id);
                lemma_live_ids_follow_commands(pre, post, pre.records[0], id);
            },
            Step::Unchanged => {},
        }
        assert(live_ids(post.records) =~= Set::new(|id: Seq<char>| last_touch_created(steps, id)));
    }
}

/// A run without its last step is a run.
pub proof fn lemma_run_prefix(states: Seq<RegistryView>, steps: Seq<Step>)
    requires
        run_holds(states, steps),
        steps.len() > 0,
    ensures
        run_holds(states.drop_last(), steps.drop_last()),
        states.drop_last().last() == states[steps.len() - 1],
        step_holds(states[steps.len() - 1], states.last(), steps.last()),
{
    let pstates = states.drop_last();
    let psteps = steps.drop_last();
    assert forall|i: int| 0 <= i < psteps.len() implies step_holds(#[trigger] pstates[i], pstates[i + 1], psteps[i]) by {
        assert(step_holds(states[i], states[i + 1], steps[i]));
    }
    assert(step_holds(states[steps.len() - 1], states[steps.len() as int], steps[steps.len() - 1]));
}

/// Along any run from a valid registry the invariant holds, no issued id is
/// forgotten, and the id of every successful create stays issued.
pub proof fn lemma_run_keeps_issued(states: Seq<RegistryView>, steps: Seq<Step>)
    requires
        run_holds(states, steps),
        valid(states[0]),
    ensures
        valid(states.last()),
        forall|a: Seq<char>| states[0].issued.contains(a) ==> #[trigger] states.last().issued.contains(a),
        forall|i: int| 0 <= i < steps.len() ==> (#[trigger] steps[i] is Created
            ==> states.last().issued.contains(steps[i]->Created_0.id)),
    decreases steps.len(),
{
    if steps.len() > 0 {
        let n = steps.len() - 1;
        lemma_run_prefix(states, steps);
        lemma_run_keeps_issued(states.drop_last(), steps.drop_last());
        let pre = states[n];
        let post = states.last();
        match steps[n] {
            Step::Created(rec) => {
                lemma_steps_keep_ids_and_addresses_unique(pre, post, rec, rec.id);
                assert forall|a: Seq<char>| pre.issued.contains(a) implies #[trigger] post.issued.contains(a) by {
                    let w = choose|w: int| 0 <= w < pre.issued.len() && pre.issued[w] == a;
                    assert(post.issued[w] == pre.issued[w]);
                }
                assert(post.issued[pre.issued.len() as int] == rec.id);
            },
            Step::Removed(id) => {
                lemma_steps_keep_ids_and_addresses_unique(pre, post, pre.records[0], id);
                assert(post.issued == pre.issued);
            },
            Step::Unchanged => {},
        }
        assert forall|i: int| 0 <= i < steps.len() implies (#[trigger] steps[i] is Created
            ==> states.last().issued.contains(steps[i]->Created_0.id)) by {
            if i < n && steps[i] is Created {
                assert(steps.drop_last()[i] == steps[i]);
                assert(pre.issued.contains(steps[i]->Created_0.id));
            }
        }
    } else {
        assert(states.last() == states[0]);
    }
}

/// Ids are unique over the registry's whole life: two successful creates of
/// a run never hand out the same id, even when the first was deleted since.
pub proof fn lemma_created_ids_never_repeat(states: Seq<RegistryView>, steps: Seq<Step>)
    requires
        run_holds(states, steps),
        valid(states[0]),
    ensures
        forall|i: int, j: int|
            0 <= i < j < steps.len() && #[trigger] steps[i] is Created && #[trigger] steps[j] is Created
                ==> steps[i]->Created_0.id != steps[j]->Created_0.id,
    decreases steps.len(),
{
    if steps.len() > 0 {
        let n = steps.len() - 1;
        lemma_run_prefix(states, steps);
        let pstates = states.drop_last();
        let psteps = steps.drop_last();
        lemma_created_ids_never_repeat(pstates, psteps);
        lemma_run_keeps_issued(pstates, psteps);
        assert forall|i: int, j: int|
            0 <= i < j < steps.len() && #[trigger] steps[i] is Created && #[trigger] steps[j] is Created
                implies steps[i]->Created_0.id != steps[j]->Created_0.id by {
            assert(psteps[i] == steps[i]);
            if j < n {
                assert(psteps[j] == steps[j]);
            } else {
                assert(pstates.last().issued.contains(steps[i]->Created_0.id));
                assert(created(states[n], states.last(), steps[n]->Created_0));
            }
        }
    }
}

/// Once an id is issued and names no live record (as after its delete), no
/// later run of commands brings it back: a get of it stays `NotFound`.
pub proof fn lemma_deleted_stays_gone(states: Seq<RegistryView>, steps: Seq<Step>, id: Seq<char>)
    requires
        run_holds(states, steps),
        valid(states[0]),
        states[0].issued.contains(id),
        lookup(states[0].records, id) is None,
    ensures
        lookup(states.last().records, id) is None,
    decreases steps.len(),
{
    if steps.len() > 0 {
        let n = steps.len() - 1;
        lemma_run_prefix(states, steps);
        let pstates = states.drop_last();
        lemma_deleted_stays_gone(pstates, steps.drop_last(), id);
        lemma_run_keeps_issued(pstates, steps.drop_last());
        let pre = states[n];
        let post = states.last();
        match steps[n] {
            Step::Created(rec) => {
                assert(rec.id != id);
                lemma_other_records_kept(pre, post, rec, id, id);
            },
            Step::Removed(x) => {
                if x == id {
                    lemma_removed_is_gone(pre, post, id);
                } else {
                    lemma_other_records_kept(pre, post, pre.records[0], x, id);
                }
            },
            Step::Unchanged => {},
        }
    } else {
        assert(states.last() == states[0]);
    }
}

/// A created record stays what a get returns, through any later creates and
/// deletes, until a successful delete of its own id.
pub proof fn lemma_created_stays_found(states: Seq<RegistryView>, steps: Seq<Step>, rec: ContainerView)
    requires
        run_holds(states, steps),
        valid(states[0]),
        lookup(states[0].records, rec.id) == Some(rec),
        forall|k: int| 0 <= k < steps.len() ==> #[trigger] steps[k] != Step::Removed(rec.id),
    ensures
        lookup(states.last().records, rec.id) == Some(rec),
    decreases steps.len(),
{
    if steps.len() > 0 {
        let n = steps.len() - 1;
        lemma_run_prefix(states, steps);
        let pstates = states.drop_last();
        let psteps = steps.drop_last();
        assert forall|k: int| 0 <= k < psteps.len() implies #[trigger] psteps[k] != Step::Removed(rec.id) by {
            assert(psteps[k] == steps[k]);
        }
        lemma_created_stays_found(pstates, psteps, rec);
        lemma_run_keeps_issued(pstates, psteps);
        let pre = states[n];
        let post = states.last();
        assert(steps[n] != Step::Removed(rec.id));
        match steps[n] {
            Step::Created(r2) => {
                if r2.id == rec.id {
                    lemma_fresh_id_not_live(pre, r2.id);
                }
                lemma_other_records_kept(pre, post, r2, rec.id, rec.id);
            },
            Step::Removed(x) => {
                lemma_other_records_kept(pre, post, pre.records[0], x, rec.id);
            },
            Step::Unchanged => {},
        }
    } else {
        assert(states.last() == states[0]);
    }
}

/// In a valid registry each listed record is what a get of its id returns.
pub proof fn lemma_listed_is_lookup(v: RegistryView)
    requires
        valid(v),
    ensures
        forall|i: int| 0 <= i < v.records.len() ==> lookup(v.records, #[trigger] v.records[i].id) == Some(v.records[i]),
{
    assert forall|i: int| 0 <= i < v.records.len() implies lookup(v.records, #[trigger] v.records[i].id) == Some(v.records[i]) by {
        assert(has_id(v.records, v.records[i].id));
        let c = choose|c: int| 0 <= c < v.records.len() && #[trigger] v.records[c].id == v.records[i].id;
        if c != i {
            assert(v.records[c].id != v.records[i].id);
        }
    }
}

impl PendingCreate {
    /// The launcher's builder for this container: its id, command and
    /// arguments, in the root filesystem materialized from its image
    /// (`rootfs/<image>`). `InvalidCString` when the command or an argument
    /// holds a NUL byte, which is found before anything is launched.
    pub fn builder(&self) -> (r: Result<ContainerBuilder, Error>)
        ensures
            r is Err <==> has_nul(self@.command) || any_has_nul(self@.args),
            r matches Err(e) ==> e is InvalidCString,
            r matches Ok(b) ==> b@ == (BuilderView {
                id: self@.id,
                command: self@.command,
                args: self@.args,
                rootfs: joined_path("rootfs"@, self@.image),
            }),
    {
        let b = ContainerBuilder::new(self.id.as_str(), self.command.as_str())?;
        let b = b.args(&self.args)?;
        Ok(b.with_rootfs(rootfs_dir(self.image.as_str()).as_str()))
    }
}

/// Marker line published on a new container's log broadcaster.
pub const READY_MARKER: &'static str = "CHECKS_PASSED\n";

impl View for Registry {
    type V = RegistryView;

    closed spec fn view(&self) -> RegistryView {
        RegistryView {
            records: self.entries@.map_values(|e: Entry| e.record@),
            next_octet: self.next_ip_octet,
            issued: self.issued.deep_view(),
        }
    }
}

impl Registry {
    /// The log broadcaster kept with the record of id `id`.
    pub closed spec fn logs_of(&self, id: Seq<char>) -> Sender<String> {
        self.entries@[choose|k: int| 0 <= k < self.entries@.len() && #[trigger] self.entries@[k].record@.id == id].logs
    }

    /// An empty registry; the first container gets `172.29.0.2`.
    pub fn new() -> (r: Registry)
        ensures
            valid(r@),
            r@.records.len() == 0,
            r@.next_octet == FIRST_HOST_OCTET,
            r@.issued.len() == 0,
    {
        let r = Registry { entries: Vec::new(), next_ip_octet: FIRST_HOST_OCTET, issued: Vec::new() };
        assert(r@.records =~= Seq::<ContainerView>::empty());
        assert(r@.issued =~= Seq::<Seq<char>>::empty());
        r
    }

    /// Where the record with id `id` stands, if there is one.
    fn position(&self, id: &String) -> (r: Option<usize>)
        requires
            valid(self@),
        ensures
            match r {
                Some(k) => k < self@.records.len() && self@.records[k as int].id == id@
                    && lookup(self@.records, id@) == Some(self@.records[k as int]),
                None => !has_id(self@.records, id@) && lookup(self@.records, id@) is None,
            },
    {
        let mut i: usize = 0;
        while i < self.entries.len()
            invariant
                i <= self.entries@.len(),
                valid(self@),
                self@.records.len() == self.entries@.len(),
                forall|j: int| 0 <= j < i ==> #[trigger] self@.records[j].id != id@,
            decreases self.entries.len() - i,
        {
            let same = self.entries[i].record.id == *id;
            if same {
                proof {
                    assert(self@.records[i as int] == self.entries@[i as int].record@);
                    assert(self.entries@[i as int].record@.id == self.entries@[i as int].record.id@);
                    assert(self@.records[i as int].id == id@);
                    assert(has_id(self@.records, id@));
                    let c = choose|c: int| 0 <= c < self@.records.len() && #[trigger] self@.records[c].id == id@;
                    assert(all_distinct(self@.records));
                    if c != i as int {
                        assert(self@.records[c].id != self@.records[i as int].id);
                    }
                }
                return Some(i);
            }
            proof {
                assert(self@.records[i as int] == self.entries@[i as int].record@);
            }
            i = i + 1;
        }
        None
    }

    /// Whether a successful create has ever handed out `id`.
    fn was_issued(&self, id: &String) -> (r: bool)
        ensures
            r == self@.issued.contains(id@),
    {
        let mut i: usize = 0;
        while i < self.issued.len()
            invariant
                i <= self.issued@.len(),
                self@.issued == self.issued.deep_view(),
                forall|j: int| 0 <= j < i ==> #[trigger] self@.issued[j] != id@,
            decreases self.issued.len() - i,
        {
            let same = self.issued[i] == *id;
            proof {
                assert(self@.issued[i as int] == self.issued@[i as int]@);
            }
            if same {
                return true;
            }
            i = i + 1;
        }
        false
    }

    /// The pid a delete of `id` sends SIGKILL to: that of the container's
    /// record, if there is one.
    pub fn kill_target(&self, id: &String) -> (r: Option<i32>)
        requires
            valid(self@),
        ensures
            match lookup(self@.records, id@) {
                Some(c) => r == Some(c.pid) && c.pid > 0,
                None => r is None,
            },
    {
        match self.position(id) {
            Some(k) => {
                proof {
                    assert(self@.records[k as int] == self.entries@[k as int].record@);
                    assert(record_fits(self@.records[k as int], self@.next_octet));
                }
                Some(self.entries[k].record.pid)
            },
            None => None,
        }
    }

    /// The description of the container with id `id`, or `NotFound`.
    pub fn get(&self, id: &String) -> (r: Result<ContainerInfo, RpcError>)
        requires
            valid(self@),
        ensures
            match lookup(self@.records, id@) {
                Some(c) => r matches Ok(info) && info@ == info_of(c),
                None => r matches Err(RpcError::NotFound(_)),
            },
    {
        match self.position(id) {
            Some(k) => {
                proof {
                    assert(self@.records[k as int] == self.entries@[k as int].record@);
                }
                Ok(self.entries[k].record.info())
            },
            None => Err(not_found()),
        }
    }

    /// Descriptions of all live containers, in order of creation.
    pub fn list(&self) -> (r: Vec<ContainerInfo>)
        requires
            valid(self@),
        ensures
            r@.len() == self@.records.len(),
            forall|i: int| 0 <= i < r@.len() ==> #[trigger] r@[i]@ == info_of(self@.records[i]),
    {
        let mut out: Vec<ContainerInfo> = Vec::new();
        let mut i: usize = 0;
        while i < self.entries.len()
            invariant
                i <= self.entries@.len(),
                self@.records.len() == self.entries@.len(),
                out@.len() == i,
                forall|j: int| 0 <= j < i ==> #[trigger] out@[j]@ == info_of(self@.records[j]),
            decreases self.entries.len() - i,
        {
            proof {
                assert(self@.records[i as int] == self.entries@[i as int].record@);
            }
            out.push(self.entries[i].record.info());
            i = i + 1;
        }
        out
    }

    /// First step of a create: checks that an address is left, then draws a
    /// random id and settles the name. Nothing changes yet. The draw is
    /// refused with `Internal` when it repeats an id handed out before, so
    /// ids stay unique over the registry's whole life.
    pub fn prepare_create(&self, req: &CreateRequest) -> (r: Result<PendingCreate, RpcError>)
        requires
            valid(self@),
        ensures
            self@.next_octet == EXHAUSTED_OCTET ==> r matches Err(RpcError::ResourceExhausted(_)),
            self@.next_octet < EXHAUSTED_OCTET ==> r is Ok || r matches Err(RpcError::Internal(_)),
            r matches Ok(p) ==> {
                &&& !self@.issued.contains(p@.id)
                &&& is_uuid_text(p@.id)
                &&& p@.name == chosen_name(p@.id, req.name@)
                &&& p@.image == req.image_name@
                &&& p@.command == req.command@
                &&& p@.args == req.args.deep_view()
            },
    {
        if self.next_ip_octet == EXHAUSTED_OCTET {
            return Err(exhausted());
        }
        let id = fresh_uuid();
        if self.was_issued(&id) {
            return Err(RpcError::Internal(String::from_str("drawn container id was already issued")));
        }
        let name = container_name(&id, &req.name);
        Ok(PendingCreate {
            id,
            name,
            image: req.image_name.clone(),
            command: req.command.clone(),
            args: clone_strings(&req.args),
        })
    }

    /// Last step of a create, once the container process `pid` runs: takes
    /// the next address, records the container with a new log broadcaster,
    /// and publishes the ready marker on it. Refused, with the registry
    /// unchanged, when no address is left, the pid is not positive, or the id
    /// was handed out before.
    pub fn complete_create(&mut self, pending: PendingCreate, pid: i32) -> (r: Result<ContainerInfo, RpcError>)
        requires
            valid(old(self)@),
        ensures
            valid(final(self)@),
            r is Ok <==> (old(self)@.next_octet < EXHAUSTED_OCTET && pid > 0 && !old(self)@.issued.contains(pending@.id)),
            r matches Ok(info) ==> {
                let rec = new_record(pending@, pid, old(self)@.next_octet);
                created(old(self)@, final(self)@, rec) && info@ == info_of(rec)
            },
            r is Err ==> final(self)@ == old(self)@,
            old(self)@.next_octet == EXHAUSTED_OCTET ==> r matches Err(RpcError::ResourceExhausted(_)),
            old(self)@.next_octet < EXHAUSTED_OCTET && !(pid > 0 && !old(self)@.issued.contains(pending@.id))
                ==> r matches Err(RpcError::Internal(_)),
    {
        if self.next_ip_octet == EXHAUSTED_OCTET {
            return Err(exhausted());
        }
        if pid <= 0 {
            return Err(RpcError::Internal(String::from_str("launched process has no valid pid")));
        }
        if self.was_issued(&pending.id) {
            return Err(RpcError::Internal(String::from_str("container id was already issued")));
        }
        let ghost pre = self@;
        let octet = self.next_ip_octet;
        let record = Container {
            id: pending.id,
            name: pending.name,
            image: pending.image,
            status: String::from_str("Running"),
            pid,
            ip_address: Ipv4 { a: 172, b: 29, c: 0, d: octet },
        };
        proof {
            reveal_strlit("Running");
        }
        let info = record.info();
        let issued_id = record.id.clone();
        let logs = open_log_channel(LOG_CAPACITY);
        let _ = publish(&logs, String::from_str(READY_MARKER));
        self.entries.push(Entry { record, logs });
        self.next_ip_octet = octet + 1;
        self.issued.push(issued_id);
        proof {
            assert(self@.issued =~= pre.issued.push(pending@.id));
            let rec = new_record(pending@, pid, octet);
            assert(self@.records =~= pre.records.push(rec));
            assert(created(pre, self@, rec));
            lemma_steps_keep_ids_and_addresses_unique(pre, self@, rec, rec.id);
        }
        Ok(info)
    }

    /// Finishes a delete once the kill of the container's process has been
    /// tried: on success the record and its broadcaster go; on failure the
    /// registry stays as it was and the reply is `Internal`.
    pub fn apply_kill_outcome(&mut self, id: &String, outcome: Result<(), String>) -> (r: Result<(), RpcError>)
        requires
            valid(old(self)@),
        ensures
            valid(final(self)@),
            !has_id(old(self)@.records, id@) ==> (r matches Err(RpcError::NotFound(_))) && final(self)@ == old(self)@,
            has_id(old(self)@.records, id@) ==> match outcome {
                Ok(()) => r is Ok && removed(old(self)@, final(self)@, id@),
                Err(e) => r matches Err(RpcError::Internal(m)) && m@ == "Failed to kill container: "@ + e@
                    && final(self)@ == old(self)@,
            },
    {
        match self.position(id) {
            None => Err(not_found()),
            Some(k) => match outcome {
                Err(e) => Err(RpcError::Internal(joined("Failed to kill container: ", e.as_str()))),
                Ok(()) => {
                    let ghost pre = self@;
                    let _gone = self.entries.remove(k);
                    proof {
                        assert(self@.records =~= pre.records.remove(k as int));
                        assert(removed(pre, self@, id@));
                        lemma_steps_keep_ids_and_addresses_unique(pre, self@, pre.records[0], id@);
                    }
                    Ok(())
                },
            },
        }
    }

    /// Deletes the container with id `id`: sends SIGKILL to the pid that
    /// `kill_target` gives for it and,
    /// if that succeeds, removes its record and broadcaster. `NotFound` when
    /// no container has that id; `Internal`, with nothing removed, when the
    /// kill fails.
    pub fn delete(&mut self, id: &String) -> (r: Result<(), RpcError>)
        requires
            valid(old(self)@),
        ensures
            valid(final(self)@),
            !has_id(old(self)@.records, id@) ==> (r matches Err(RpcError::NotFound(_))) && final(self)@ == old(self)@,
            has_id(old(self)@.records, id@) ==> (r is Ok && removed(old(self)@, final(self)@, id@))
                || (r matches Err(RpcError::Internal(_)) && final(self)@ == old(self)@),
    {
        match self.kill_target(id) {
            None => Err(not_found()),
            Some(pid) => {
                let outcome = send_sigkill(pid);
                self.apply_kill_outcome(id, outcome)
            },
        }
    }

    /// The log broadcaster of the container with id `id`, if there is one.
    pub fn log_broadcaster(&self, id: &String) -> (r: Option<&Sender<String>>)
        requires
            valid(self@),
        ensures
            r is Some <==> has_id(self@.records, id@),
            r matches Some(s) ==> *s == self.logs_of(id@),
    {
        match self.position(id) {
            Some(k) => {
                proof {
                    assert(self@.records[k as int] == self.entries@[k as int].record@);
                    let c = choose|c: int| 0 <= c < self.entries@.len() && #[trigger] self.entries@[c].record@.id == id@;
                    assert(self@.records[c] == self.entries@[c].record@);
                    if c != k as int {
                        assert(self@.records[c].id != self@.records[k as int].id);
                    }
                }
                Some(&self.entries[k].logs)
            },
            None => None,
        }
    }

    /// A subscription to the logs of the container with id `id` (to its
    /// broadcaster `logs_of(id)`), receiving what is published from now on;
    /// `NotFound` when no container has it.
    pub fn subscribe_logs(&self, id: &String) -> (r: Result<Receiver<String>, RpcError>)
        requires
            valid(self@),
        ensures
            r is Ok <==> has_id(self@.records, id@),
            r matches Err(e) ==> e is NotFound,
    {
        match self.log_broadcaster(id) {
            Some(sender) => Ok(subscribe(sender)),
            None => Err(not_found()),
        }
    }
}

} // verus!
