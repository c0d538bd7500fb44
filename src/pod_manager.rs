//! The registry of pod managers, keyed by pod name, and the outcome of a
//! client's delete.
use vstd::prelude::*;
use crate::error::{AcmError, ErrorKind, is_error};
use crate::garbage_collector::{KeepAliveTicket, DEFAULT_TTL};
use crate::image_import::reference_in;
use crate::pod::Pod;

verus! {

/// A pod handed to a client together with its lease.
pub struct PodTicket {
    pub pod: Pod,
    pub ticket: KeepAliveTicket,
}

/// The registry that deployed images come from when none is configured.
pub const DEFAULT_DEPLOY_REGISTRY: &'static str = "registry.kurl";
/// The repository that deployed images come from when none is configured.
pub const DEFAULT_DEPLOY_REPOSITORY: &'static str = "ocf";

/// A configured value, or its default.
pub open spec fn setting_or(value: Option<String>, default: Seq<char>) -> Seq<char> {
    match value {
        Some(v) => v@,
        None => default,
    }
}

/// The image reference of a deploy of `tag`: `registry/repository:tag`, with
/// `registry.kurl` and `ocf` when the registry or repository is not configured.
pub fn deploy_reference(registry: Option<String>, repository: Option<String>, tag: &str) -> (r: String)
    ensures
        r@ == reference_in(setting_or(registry, "registry.kurl"@), setting_or(repository, "ocf"@), tag@),
{
    let mut out = match registry {
        Some(v) => v,
        None => String::from_str(DEFAULT_DEPLOY_REGISTRY),
    };
    out.append("/");
    match repository {
        Some(v) => out.append(v.as_str()),
        None => out.append(DEFAULT_DEPLOY_REPOSITORY),
    }
    out.append(":");
    out.append(tag);
    out
}

/// The lease of a deploy: the one asked for, or the default of thirty minutes.
pub fn deploy_ttl(ttl: Option<u64>) -> (r: u64)
    ensures
        ttl matches Some(t) ==> r == t,
        ttl is None ==> r == DEFAULT_TTL,
{
    match ttl {
        Some(t) => t,
        None => DEFAULT_TTL,
    }
}

/// One pod manager in the registry, with the generation of its insertion.
pub struct Entry<T> {
    pub id: String,
    pub generation: u64,
    pub manager: T,
}

/// The generation under which `id` is registered in `entries`, if it is:
/// a later entry of the same name hides an earlier one.
pub open spec fn generation_of<T>(entries: Seq<Entry<T>>, id: Seq<char>) -> Option<u64>
    decreases entries.len(),
{
    if entries.len() == 0 {
        None
    } else if entries.last().id@ == id {
        Some(entries.last().generation)
    } else {
        generation_of(entries.drop_last(), id)
    }
}

proof fn lemma_entry_registered<T>(entries: Seq<Entry<T>>, i: int)
    requires
        0 <= i < entries.len(),
    ensures
        generation_of(entries, entries[i].id@) is Some,
    decreases entries.len(),
{
    if entries.last().id@ != entries[i].id@ {
        assert(i < entries.len() - 1);
        assert(entries.drop_last()[i] == entries[i]);
        lemma_entry_registered(entries.drop_last(), i);
    }
}

/// The pod managers that are alive, by pod name, kept in a vector whose
/// lookup by name is proved against the map view. Each insertion gets a
/// generation of its own, so that a removal only ever takes the entry that it
/// was meant for.
pub struct Registry<T> {
    pub entries: Vec<Entry<T>>,
    pub next_generation: u64,
}

impl<T> Registry<T> {
    /// The generation of each registered pod name.
    pub open spec fn view(&self) -> Map<Seq<char>, u64> {
        Map::new(
            |id: Seq<char>| generation_of(self.entries@, id) is Some,
            |id: Seq<char>| generation_of(self.entries@, id).unwrap(),
        )
    }

    /// An empty registry.
    pub fn new() -> (r: Registry<T>)
        ensures
            r@ == Map::<Seq<char>, u64>::empty(),
            r.next_generation == 0,
    {
        let r = Registry { entries: Vec::new(), next_generation: 0 };
        assert(r@ =~= Map::<Seq<char>, u64>::empty());
        r
    }

    /// How many entries the registry holds.
    pub fn len(&self) -> (r: usize)
        ensures
            r == self.entries@.len(),
            r == 0 <==> self@ == Map::<Seq<char>, u64>::empty(),
    {
        if self.entries.len() > 0 {
            proof {
                lemma_entry_registered(self.entries@, 0);
                assert(self@.dom().contains(self.entries@[0].id@));
            }
        } else {
            assert(self@ =~= Map::<Seq<char>, u64>::empty());
        }
        self.entries.len()
    }

    /// Where the visible entry of `id` stands.
    fn find(&self, id: &str) -> (r: Option<usize>)
        ensures
            r is None <==> generation_of(self.entries@, id@) is None,
            r matches Some(i) ==> i < self.entries@.len() && self.entries@[i as int].id@ == id@
                && generation_of(self.entries@, id@) == Some(self.entries@[i as int].generation),
    {
        let mut i: usize = self.entries.len();
        assert(self.entries@.take(i as int) =~= self.entries@);
        while i > 0
            invariant
                i <= self.entries@.len(),
                generation_of(self.entries@, id@) == generation_of(self.entries@.take(i as int), id@),
            decreases i,
        {
            let k = i - 1;
            assert(self.entries@.take(i as int).drop_last() =~= self.entries@.take(k as int));
            if crate::text::str_eq(self.entries[k].id.as_str(), id) {
                return Some(k);
            }
            i = k;
        }
        None
    }

    /// The pod manager of `id`, or `PodManagerNotFound` with `id` as its cause.
    pub fn get(&self, id: &str) -> (r: Result<&T, AcmError>)
        ensures
            r is Ok <==> self@.dom().contains(id@),
            r matches Ok(m) ==> exists|i: int| 0 <= i < self.entries@.len()
                && (#[trigger] self.entries@[i]).id@ == id@
                && self.entries@[i].generation == self@[id@] && self.entries@[i].manager == *m,
            r matches Err(e) ==> e.kind == ErrorKind::PodManagerNotFound,
            r matches Err(e) ==> (e.cause matches Some(c) && c@ == id@),
    {
        match self.find(id) {
            Some(i) => Ok(&self.entries[i].manager),
            None => Err(AcmError::new(ErrorKind::PodManagerNotFound, Some(String::from_str(id)))),
        }
    }

    /// The entries that are not named `id`.
    fn without(entries: Vec<Entry<T>>, id: &str) -> (r: Vec<Entry<T>>)
        ensures
            forall|k: Seq<char>| #[trigger] generation_of(r@, k) == if k == id@ { None } else { generation_of(entries@, k) },
            r@.len() <= entries@.len(),
    {
        let mut out: Vec<Entry<T>> = Vec::new();
        let ghost all = entries@;
        let n = entries.len();
        assert(all.take(0) =~= Seq::<Entry<T>>::empty());
        let mut rest = entries;
        let mut taken: usize = 0;
        while rest.len() > 0
            invariant
                taken + rest@.len() == all.len(),
                all.len() == n,
                rest@ == all.subrange(taken as int, all.len() as int),
                out@.len() <= taken,
                forall|k: Seq<char>| #[trigger] generation_of(out@, k)
                    == if k == id@ { None } else { generation_of(all.take(taken as int), k) },
            decreases rest@.len(),
        {
            let e = rest.remove(0);
            proof {
                assert(e == all[taken as int]);
                assert(all.take(taken + 1).drop_last() =~= all.take(taken as int));
                assert(all.take(taken + 1).last() == e);
                assert(rest@ =~= all.subrange(taken + 1, all.len() as int));
            }
            let ghost eid = e.id@;
            let ghost egen = e.generation;
            let ghost before = out@;
            if !crate::text::str_eq(e.id.as_str(), id) {
                out.push(e);
                proof {
                    assert(out@.drop_last() =~= before);
                    assert(out@.last().id@ == eid && out@.last().generation == egen);
                    assert(eid != id@);
                    assert forall|k: Seq<char>| #[trigger] generation_of(out@, k)
                        == if k == id@ { None } else { generation_of(all.take(taken + 1), k) } by {
                        assert(generation_of(before, k) == if k == id@ { None } else { generation_of(all.take(taken as int), k) });
                        assert(generation_of(all.take(taken + 1), k)
                            == if eid == k { Some(egen) } else { generation_of(all.take(taken as int), k) });
                    }
                }
            } else {
                proof {
                    assert forall|k: Seq<char>| #[trigger] generation_of(out@, k)
                        == if k == id@ { None } else { generation_of(all.take(taken + 1), k) } by {
                        assert(eid == id@);
                        assert(generation_of(before, k) == if k == id@ { None } else { generation_of(all.take(taken as int), k) });
                        assert(generation_of(all.take(taken + 1), k)
                            == if eid == k { Some(egen) } else { generation_of(all.take(taken as int), k) });
                    }
                }
            }
            taken = taken + 1;
        }
        proof {
            assert(all.take(all.len() as int) =~= all);
        }
        out
    }

    /// Registers `manager` under `id`, in place of any earlier entry of that
    /// name, and returns the generation of this insertion.
    pub fn insert(&mut self, id: String, manager: T) -> (r: u64)
        requires
            old(self).next_generation < u64::MAX,
        ensures
            r == old(self).next_generation,
            final(self).next_generation == r + 1,
            final(self)@ == old(self)@.insert(id@, r),
    {
        let generation = self.next_generation;
        let mut entries: Vec<Entry<T>> = Vec::new();
        std::mem::swap(&mut entries, &mut self.entries);
        let ghost taken_entries = entries@;
        let mut kept = Self::without(entries, id.as_str());
        let ghost key = id@;
        let ghost before = kept@;
        kept.push(Entry { id, generation, manager });
        proof {
            assert(kept@.drop_last() =~= before);
            assert(taken_entries == old(self).entries@);
            assert(kept@.last().id@ == key && kept@.last().generation == generation);
            assert forall|k: Seq<char>| #[trigger] generation_of(kept@, k)
                == if k == key { Some(generation) } else { generation_of(old(self).entries@, k) } by {
                assert(generation_of(before, k) == if k == key { None } else { generation_of(taken_entries, k) });
            }
        }
        self.entries = kept;
        self.next_generation = generation + 1;
        assert(self@ =~= old(self)@.insert(key, generation));
        generation
    }

    /// Removes the entry of `id` if it is the one of `generation`, and says
    /// whether it did.
    pub fn remove(&mut self, id: &str, generation: u64) -> (r: bool)
        ensures
            r == (old(self)@.dom().contains(id@) && old(self)@[id@] == generation),
            r ==> final(self)@ == old(self)@.remove(id@),
            !r ==> final(self)@ == old(self)@,
            final(self).next_generation == old(self).next_generation,
    {
        match self.find(id) {
            Some(i) => {
                if self.entries[i].generation == generation {
                    let mut entries: Vec<Entry<T>> = Vec::new();
                    std::mem::swap(&mut entries, &mut self.entries);
                    self.entries = Self::without(entries, id);
                    assert(self@ =~= old(self)@.remove(id@));
                    true
                } else {
                    false
                }
            },
            None => false,
        }
    }
}

/// Each deploy is removed from the registry exactly once. Let `inserted` be
/// the registry that `Registry::insert` leaves after registering `id` under
/// generation `g`, and `removed` the one that a successful
/// `Registry::remove(id, g)` leaves after it. Then that removal does succeed
/// on `inserted`, it takes exactly the entry of `id`, and a second
/// `remove(id, g)` on `removed` finds nothing and changes nothing.
pub proof fn lemma_removed_exactly_once<T>(
    before: Registry<T>,
    inserted: Registry<T>,
    removed: Registry<T>,
    id: Seq<char>,
    g: u64,
)
    requires
        inserted@ == before@.insert(id, g),
        removed@ == inserted@.remove(id),
    ensures
        inserted@.dom().contains(id) && inserted@[id] == g,
        removed@ == before@.remove(id),
        !removed@.dom().contains(id),
{
    assert(removed@ =~= before@.remove(id));
}

/// A registry that was empty before a deploy is empty again once that
/// deploy's entry is removed, whatever happened to the lease in between
/// (waits and refreshes do not touch the registry).
pub proof fn lemma_deploy_then_remove_leaves_empty<T>(
    before: Registry<T>,
    inserted: Registry<T>,
    removed: Registry<T>,
    id: Seq<char>,
    g: u64,
)
    requires
        before@ == Map::<Seq<char>, u64>::empty(),
        inserted@ == before@.insert(id, g),
        removed@ == inserted@.remove(id),
    ensures
        removed@ == Map::<Seq<char>, u64>::empty(),
{
    assert(removed@ =~= Map::<Seq<char>, u64>::empty());
}

/// Which of a pod manager's three daemons have ended.
pub struct Daemons {
    pub watcher: bool,
    pub gc: bool,
    pub shim: bool,
}

/// The three daemons of one pod manager.
pub enum Daemon {
    Watcher,
    GarbageCollector,
    Shim,
}

impl Daemons {
    /// All three daemons ended.
    pub open spec fn all_joined_spec(&self) -> bool {
        self.watcher && self.gc && self.shim
    }

    /// None has ended yet.
    pub fn new() -> (r: Daemons)
        ensures
            !r.watcher && !r.gc && !r.shim,
    {
        Daemons { watcher: false, gc: false, shim: false }
    }

    /// Records that `d` ended.
    pub fn joined(&mut self, d: Daemon)
        ensures
            final(self).watcher == (old(self).watcher || d is Watcher),
            final(self).gc == (old(self).gc || d is GarbageCollector),
            final(self).shim == (old(self).shim || d is Shim),
    {
        match d {
            Daemon::Watcher => self.watcher = true,
            Daemon::GarbageCollector => self.gc = true,
            Daemon::Shim => self.shim = true,
        }
    }

    /// Whether all three ended.
    pub fn all_joined(&self) -> (r: bool)
        ensures
            r == self.all_joined_spec(),
    {
        self.watcher && self.gc && self.shim
    }
}

impl<T> Registry<T> {
    /// Removes the entry of `id` for `generation`, but only once all three
    /// daemons of that pod manager have ended; says whether it removed it.
    pub fn reap(&mut self, id: &str, generation: u64, daemons: &Daemons) -> (r: bool)
        ensures
            r == (daemons.all_joined_spec() && old(self)@.dom().contains(id@) && old(self)@[id@] == generation),
            r ==> final(self)@ == old(self)@.remove(id@),
            !r ==> final(self)@ == old(self)@,
            !daemons.all_joined_spec() ==> final(self)@ == old(self)@,
            final(self).next_generation == old(self).next_generation,
    {
        if daemons.all_joined() {
            self.remove(id, generation)
        } else {
            false
        }
    }
}

/// How long a deleted pod has to shut down cleanly, in seconds.
pub const DELETE_GRACE_PERIOD_SECS: u64 = 60;

/// A request to the Kubernetes API to delete a pod.
#[derive(Debug)]
pub struct DeleteRequest {
    pub pod: String,
    pub grace_period_seconds: u64,
}

/// The request that deletes `pod`, with the grace period of a clean shutdown.
pub fn delete_request(pod: &str) -> (r: DeleteRequest)
    ensures
        r.pod@ == pod@,
        r.grace_period_seconds == DELETE_GRACE_PERIOD_SECS,
{
    DeleteRequest { pod: String::from_str(pod), grace_period_seconds: DELETE_GRACE_PERIOD_SECS }
}

/// How a request to delete a pod failed at the Kubernetes API.
#[derive(Clone, Copy, Debug, PartialEq, Eq, Structural)]
pub enum ApiFailure {
    /// The API server answered with this status code.
    Api(u16),
    /// The API server could not be reached.
    Connection,
    /// Any other failure of the request.
    Request,
}

/// What a successful delete found.
#[derive(Clone, Copy, Debug, PartialEq, Eq, Structural)]
pub enum DeleteOutcome {
    /// The pod's deletion has started.
    Started,
    /// There was no such pod.
    AlreadyGone,
}

/// The HTTP status with which the API server says that a pod does not exist.
pub const NOT_FOUND_STATUS: u16 = 404;

/// The kind of error of an API failure.
pub open spec fn api_error_kind(f: ApiFailure) -> ErrorKind {
    match f {
        ApiFailure::Api(_) => ErrorKind::KubernetesApi,
        ApiFailure::Connection => ErrorKind::KubernetesConnection,
        ApiFailure::Request => ErrorKind::KubernetesRequest,
    }
}

/// An API failure as an error.
pub fn api_error(f: ApiFailure) -> (r: AcmError)
    ensures
        is_error(r, api_error_kind(f), None),
{
    match f {
        ApiFailure::Api(_) => AcmError::of(ErrorKind::KubernetesApi),
        ApiFailure::Connection => AcmError::of(ErrorKind::KubernetesConnection),
        ApiFailure::Request => AcmError::of(ErrorKind::KubernetesRequest),
    }
}

/// The answer to a client's delete, by API outcome: what was found, or the
/// kind of error.
pub open spec fn delete_answer(api: Result<(), ApiFailure>) -> Result<DeleteOutcome, ErrorKind> {
    match api {
        Ok(()) => Ok(DeleteOutcome::Started),
        Err(ApiFailure::Api(code)) => if code == NOT_FOUND_STATUS {
            Ok(DeleteOutcome::AlreadyGone)
        } else {
            Err(ErrorKind::KubernetesApi)
        },
        Err(ApiFailure::Connection) => Err(ErrorKind::KubernetesConnection),
        Err(ApiFailure::Request) => Err(ErrorKind::KubernetesRequest),
    }
}

/// The answer to a client's delete: success when the API server deleted the
/// pod or did not know it; the kind of the API failure otherwise.
pub fn delete_outcome(api: Result<(), ApiFailure>) -> (r: Result<DeleteOutcome, AcmError>)
    ensures
        r is Ok <==> delete_answer(api) is Ok,
        r matches Ok(o) ==> delete_answer(api) == Ok::<DeleteOutcome, ErrorKind>(o),
        r matches Err(e) ==> delete_answer(api) == Err::<DeleteOutcome, ErrorKind>(e.kind) && is_error(e, e.kind, None),
{
    match api {
        Ok(()) => Ok(DeleteOutcome::Started),
        Err(ApiFailure::Api(code)) => if code == NOT_FOUND_STATUS {
            Ok(DeleteOutcome::AlreadyGone)
        } else {
            Err(AcmError::of(ErrorKind::KubernetesApi))
        },
        Err(ApiFailure::Connection) => Err(AcmError::of(ErrorKind::KubernetesConnection)),
        Err(ApiFailure::Request) => Err(AcmError::of(ErrorKind::KubernetesRequest)),
    }
}

/// Deleting a pod that the API server does not know succeeds.
pub proof fn lemma_delete_unknown_succeeds()
    ensures
        delete_answer(Err(ApiFailure::Api(NOT_FOUND_STATUS))) == Ok::<DeleteOutcome, ErrorKind>(DeleteOutcome::AlreadyGone),
{
}

} // verus!
