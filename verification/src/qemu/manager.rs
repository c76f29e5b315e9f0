//! The manager of the virtual machines of a host.
use vstd::prelude::*;

use crate::engine::state::FxExecutionState;
use crate::engine::state::StateModel;
use crate::engine::sys_conf::SystemConfiguration;
use crate::engine::sys_conf::SystemModel;
use crate::engine::verify::Verification;
use crate::fx_id::FxId;
use crate::fx_id::FxIdModel;
use crate::fx_id::fx_id_of;
use crate::io_error::IoError;
use crate::qemu::errors::AllocateError;
use crate::qemu::errors::CallApiError;
use crate::qemu::errors::CreateError;
use crate::qemu::errors::CreateErrorModel;
use crate::qemu::errors::QemuManagerStopError;
use crate::qemu::errors::SpawnError;
use crate::qemu::errors::VerifyError;
use crate::qemu::instance::InstanceModel;
use crate::qemu::instance::QemuInstance;
use crate::qemu::instance::RunState;
use crate::qemu::instance::StatusInfo;
use crate::qemu::instance::fresh_instance;
use crate::qemu::instance::lost_status;
use crate::qemu::instance::record_of;
use crate::qemu::instance::recovered_instance;
use crate::qemu::instance::run_state;
use crate::qemu::instance::same_id;
use crate::qemu::machine::QemuMachineConfiguration;
use crate::qemu::machine::QemuMetadataRecord;
use crate::qemu::machine::MachineModel;
use crate::qemu::plan::HostFacts;
use crate::qemu::plan::machine_result;
use crate::qemu::worker::QemuWorkerEvent;

verus! {

/// How many commands to a worker are buffered.
pub const QEMU_WORKER_COMMAND_BUFFER_SIZE: usize = 32;

/// How long a virtual machine may take to stop, in milliseconds.
pub const QEMU_STOP_WAIT_TIMEOUT: u64 = 30_000;

/// How long to wait between looks at a stopping virtual machine, in
/// milliseconds.
pub const QEMU_STOP_POLL_INTERVAL: u64 = 100;

/// A running virtual machine.
#[derive(Debug)]
pub struct QemuRunningInstance {
    pub pid: u32,
    pub qemu: QemuInstance,
}

/// The model of a running virtual machine.
#[verifier::ext_equal]
pub struct RunningModel {
    pub pid: u32,
    pub qemu: InstanceModel,
}

impl View for QemuRunningInstance {
    type V = RunningModel;

    open spec fn view(&self) -> RunningModel {
        RunningModel { pid: self.pid, qemu: self.qemu@ }
    }
}

/// The virtual machines of a list, by their models.
pub open spec fn entries(v: Seq<(FxId, QemuRunningInstance)>) -> Seq<(FxIdModel, RunningModel)> {
    Seq::new(v.len(), |i: int| (v[i].0@, v[i].1@))
}

/// The identifiers of a list, by their models.
pub open spec fn ids(v: Seq<FxId>) -> Seq<FxIdModel> {
    Seq::new(v.len(), |i: int| v[i]@)
}

/// The place of an identifier in a list of virtual machines, or the length of
/// the list if it is not there.
pub open spec fn place(list: Seq<(FxIdModel, RunningModel)>, id: FxIdModel) -> int
    decreases list.len(),
{
    if list.len() == 0 {
        0
    } else if place(list.drop_last(), id) < list.len() - 1 {
        place(list.drop_last(), id)
    } else if list.last().0 == id {
        list.len() - 1
    } else {
        list.len() as int
    }
}

/// Where an identifier stands: at its first place.
proof fn lemma_place(list: Seq<(FxIdModel, RunningModel)>, id: FxIdModel)
    ensures
        0 <= place(list, id) <= list.len(),
        place(list, id) < list.len() ==> list[place(list, id)].0 == id,
        forall|i: int| 0 <= i < place(list, id) ==> (#[trigger] list[i]).0 != id,
    decreases list.len(),
{
    if list.len() > 0 {
        let rest = list.drop_last();
        lemma_place(rest, id);
        assert forall|i: int| 0 <= i < place(list, id) implies (#[trigger] list[i]).0 != id by {
            if i < rest.len() {
                assert(rest[i] == list[i]);
            }
        }
    }
}

/// A place with the identifier, and none before it, is its place.
proof fn lemma_place_is(list: Seq<(FxIdModel, RunningModel)>, id: FxIdModel, at: int)
    requires
        0 <= at <= list.len(),
        forall|i: int| 0 <= i < at ==> (#[trigger] list[i]).0 != id,
        at < list.len() ==> list[at].0 == id,
    ensures
        place(list, id) == at,
{
    lemma_place(list, id);
    if place(list, id) < at {
        assert(list[place(list, id)].0 != id);
    } else if at < place(list, id) {
        assert(list[at].0 != id);
    }
}

/// The virtual machines of a list, by identifier.
pub open spec fn by_id(list: Seq<(FxIdModel, RunningModel)>) -> Map<FxIdModel, RunningModel> {
    Map::new(|id: FxIdModel| place(list, id) < list.len(), |id: FxIdModel| list[place(list, id)].1)
}

/// Whether no identifier stands twice in a list.
pub open spec fn unique(list: Seq<(FxIdModel, RunningModel)>) -> bool {
    forall|i: int, j: int| 0 <= i < j < list.len() ==> (#[trigger] list[i]).0 != (#[trigger] list[j]).0
}

/// Manager for the virtual machines of a host.
#[derive(Debug)]
pub struct QemuManager {
    pub system_configuration: SystemConfiguration,
    /// The virtual machines.
    pub vms: Vec<(FxId, QemuRunningInstance)>,
    /// The virtual machines that a worker watches.
    pub watched: Vec<FxId>,
}

/// The model of a manager.
#[verifier::ext_equal]
pub struct ManagerModel {
    pub system_configuration: SystemModel,
    pub vms: Map<FxIdModel, RunningModel>,
    pub watched: Set<FxIdModel>,
}

impl View for QemuManager {
    type V = ManagerModel;

    open spec fn view(&self) -> ManagerModel {
        ManagerModel {
            system_configuration: self.system_configuration@,
            vms: by_id(entries(self.vms@)),
            watched: ids(self.watched@).to_set(),
        }
    }
}

/// The identifier of the machine that an entry of the runtime root belongs to:
/// a directory with a readable name.
pub fn runtime_dir_id(is_dir: bool, name: &Option<String>) -> (r: Option<FxId>)
    ensures
        match *name {
            Some(text) => if is_dir {
                r is Some && r->0@ == fx_id_of(text@)
            } else {
                r is None
            },
            None => r is None,
        },
{
    match name {
        Some(text) => if is_dir {
            Some(FxId::parse(text.as_str()))
        } else {
            None
        },
        None => None,
    }
}

/// What is known of an entry of the runtime root.
#[derive(Debug)]
pub struct RuntimeEntry {
    /// Whether it is a directory.
    pub is_dir: bool,
    /// Its name, if that is readable.
    pub name: Option<String>,
    /// The process of the machine, as its command line is made.
    pub live: Option<u32>,
    /// The process of the machine, as it is registered.
    pub runtime_pid: Option<u32>,
}

/// The machine that an entry of the runtime root belongs to, if it does.
pub open spec fn entry_id(entry: RuntimeEntry) -> Option<FxIdModel> {
    match entry.name {
        Some(text) => if entry.is_dir {
            Some(fx_id_of(text@))
        } else {
            None
        },
        None => None,
    }
}

/// A manager on the way through the entries of the runtime root.
#[verifier::ext_equal]
pub struct Discovery {
    /// The manager so far.
    pub manager: ManagerModel,
    /// What was found so far.
    pub found: Seq<(FxIdModel, u32)>,
    /// Why the discovery ended early, if it did.
    pub failure: Option<CreateErrorModel>,
}

impl Discovery {
    /// What follows an entry: the machine that it belongs to is registered if
    /// it is running. The first failure ends the discovery.
    pub open spec fn after(
        self,
        machine: MachineModel,
        host: HostFacts,
        entry: Result<RuntimeEntry, IoError>,
    ) -> Discovery {
        if self.failure is Some {
            self
        } else {
            match entry {
                Err(err) => Discovery {
                    failure: Some(CreateErrorModel::Other(CreateError::Io(err))),
                    ..self
                },
                Ok(entry) => match entry_id(entry) {
                    None => self,
                    Some(id) => {
                        let sys = self.manager.system_configuration;
                        match (machine_result(sys, machine, id, host), entry.runtime_pid) {
                            (Err(err), _) => Discovery { failure: Some(err), ..self },
                            (Ok(_), None) => self,
                            (Ok(command), Some(pid)) => Discovery {
                                manager: self.manager.with_vm(
                                    id,
                                    RunningModel {
                                        pid,
                                        qemu: fresh_instance(sys, machine, id, command, entry.live),
                                    },
                                ),
                                found: self.found.push((id, pid)),
                                ..self
                            },
                        }
                    },
                },
            }
        }
    }

    /// What follows the first `n` entries.
    pub open spec fn after_all(
        self,
        machine: MachineModel,
        host: HostFacts,
        entries: Seq<Result<RuntimeEntry, IoError>>,
        n: int,
    ) -> Discovery
        decreases n,
    {
        if n <= 0 {
            self
        } else {
            self.after_all(machine, host, entries, n - 1).after(machine, host, entries[n - 1])
        }
    }
}

/// What was found, by the models of the identifiers.
pub open spec fn found_models(v: Seq<(FxId, u32)>) -> Seq<(FxIdModel, u32)> {
    Seq::new(v.len(), |i: int| (v[i].0@, v[i].1))
}

/// After a failure a discovery stays as it is.
proof fn lemma_discovery_stays(
    start: Discovery,
    machine: MachineModel,
    host: HostFacts,
    all: Seq<Result<RuntimeEntry, IoError>>,
    m: int,
    n: int,
)
    requires
        0 <= m <= n,
        start.after_all(machine, host, all, m).failure is Some,
    ensures
        start.after_all(machine, host, all, n) == start.after_all(machine, host, all, m),
    decreases n,
{
    if m < n {
        lemma_discovery_stays(start, machine, host, all, m, n - 1);
    }
}

/// What a discovery tells of is managed afterwards, nothing that was managed
/// before is lost, and no worker is started or ended by it.
pub proof fn law_discovered_are_managed(
    start: Discovery,
    machine: MachineModel,
    host: HostFacts,
    all: Seq<Result<RuntimeEntry, IoError>>,
    n: int,
)
    requires
        start.found.len() == 0,
    ensures
        ({
            let end = start.after_all(machine, host, all, n);
            &&& forall|i: int|
                0 <= i < end.found.len() ==> end.manager.vms.dom().contains(
                    (#[trigger] end.found[i]).0,
                )
            &&& start.manager.vms.dom().subset_of(end.manager.vms.dom())
            &&& end.manager.watched == start.manager.watched
            &&& end.manager.system_configuration == start.manager.system_configuration
        }),
    decreases n,
{
    if n > 0 {
        law_discovered_are_managed(start, machine, host, all, n - 1);
    }
}

/// What the runtime root says when it cannot be listed: one that does not
/// exist holds no machine.
pub fn runtime_root_error(err: IoError) -> (r: Result<(), CreateError>)
    ensures
        r == (if err.kind is NotFound {
            Ok::<(), CreateError>(())
        } else {
            Err(CreateError::Io(err))
        }),
{
    if err.is_not_found() {
        Ok(())
    } else {
        Err(CreateError::Io(err))
    }
}

/// What is to be done about a recorded machine.
#[derive(Clone, Copy, Debug, PartialEq, Eq, Structural)]
pub enum RecordedStep {
    /// Nothing: it runs as the given process and is managed.
    Registered(u32),
    /// To record that it is stopped.
    MarkStopped,
}

/// What is recorded of a machine whose worker has ended.
#[derive(Debug)]
pub struct ManagerUpdate {
    pub state: FxExecutionState,
    pub record: QemuMetadataRecord,
}

/// The process that a state names, if it names one.
pub open spec fn state_pid(state: StateModel) -> Option<u32> {
    match state {
        StateModel::Running(pid) => Some(pid),
        StateModel::Paused(pid) => Some(pid),
        _ => None,
    }
}

impl ManagerModel {
    /// The manager with a virtual machine added, or put in the place of the
    /// one that had its identifier.
    pub open spec fn with_vm(self, id: FxIdModel, vm: RunningModel) -> ManagerModel {
        ManagerModel { vms: self.vms.insert(id, vm), ..self }
    }
}

impl QemuManager {
    /// What the manager keeps: no identifier stands twice.
    pub open spec fn wf(self) -> bool {
        unique(entries(self.vms@)) && ids(self.watched@).no_duplicates()
    }

    /// A manager without virtual machines.
    pub fn new(system_configuration: SystemConfiguration) -> (r: Self)
        ensures
            r.wf(),
            r@ == (ManagerModel {
                system_configuration: system_configuration@,
                vms: Map::empty(),
                watched: Set::empty(),
            }),
    {
        let r = QemuManager { system_configuration, vms: Vec::new(), watched: Vec::new() };
        proof {
            assert(r@.vms =~= Map::empty());
            assert(r@.watched =~= Set::empty());
        }
        r
    }

    /// The place of a virtual machine, if it is managed.
    fn find(&self, fx_id: &FxId) -> (r: Option<usize>)
        ensures
            match r {
                Some(i) => i == place(entries(self.vms@), fx_id@) && i < self.vms@.len(),
                None => place(entries(self.vms@), fx_id@) == self.vms@.len(),
            },
    {
        for i in 0..self.vms.len()
            invariant
                forall|j: int| 0 <= j < i ==> (#[trigger] entries(self.vms@)[j]).0 != fx_id@,
        {
            if same_id(&self.vms[i].0, fx_id) {
                proof {
                    lemma_place_is(entries(self.vms@), fx_id@, i as int);
                }
                return Some(i);
            }
        }
        proof {
            lemma_place_is(entries(self.vms@), fx_id@, self.vms@.len() as int);
        }
        None
    }

    /// Adds a virtual machine, or puts it in the place of the one that has its
    /// identifier.
    pub fn insert(&mut self, fx_id: FxId, vm: QemuRunningInstance)
        requires
            old(self).wf(),
        ensures
            final(self).wf(),
            final(self)@ == old(self)@.with_vm(fx_id@, vm@),
    {
        let ghost before = entries(self.vms@);
        let ghost id = fx_id@;
        let ghost value = vm@;
        proof {
            lemma_place(before, id);
        }
        match self.find(&fx_id) {
            Some(i) => {
                self.vms.set(i, (fx_id, vm));
                proof {
                    let after = entries(self.vms@);
                    assert(after =~= before.update(i as int, (id, value)));
                    assert forall|k: FxIdModel| #[trigger] place(after, k) == place(before, k) by {
                        lemma_place(before, k);
                        assert forall|j: int| 0 <= j < place(before, k) implies (#[trigger] after[j]).0
                            != k by {
                            assert(before[j].0 != k);
                        }
                        lemma_place_is(after, k, place(before, k));
                    }
                }
            },
            None => {
                self.vms.push((fx_id, vm));
                proof {
                    let after = entries(self.vms@);
                    assert(after =~= before.push((id, value)));
                    assert forall|k: FxIdModel| k != id implies (#[trigger] place(after, k)) == (
                    if place(before, k) < before.len() {
                        place(before, k)
                    } else {
                        after.len() as int
                    }) by {
                        assert(after.drop_last() =~= before);
                        lemma_place(before, k);
                    }
                    assert(after.drop_last() =~= before);
                    assert(place(after, id) == before.len());
                    assert forall|i: int, j: int| 0 <= i < j < after.len() implies (#[trigger] after[i]).0
                        != (#[trigger] after[j]).0 by {
                        if j == before.len() {
                            assert(before[i].0 != id);
                        } else {
                            assert(before[i].0 != before[j].0);
                        }
                    }
                }
            },
        }
        proof {
            let after = entries(self.vms@);
            assert forall|k: FxIdModel| by_id(after).dom().contains(k) == by_id(before).insert(
                id,
                value,
            ).dom().contains(k) by {
                lemma_place(before, k);
                lemma_place(after, k);
            }
            assert forall|k: FxIdModel|
                by_id(before).insert(id, value).dom().contains(k) implies #[trigger] by_id(after)[k]
                == by_id(before).insert(id, value)[k] by {
                lemma_place(before, k);
                lemma_place(after, k);
            }
            assert(by_id(after) =~= by_id(before).insert(id, value));
        }
    }

    /// Takes a virtual machine out.
    pub fn remove(&mut self, fx_id: &FxId) -> (r: Option<QemuRunningInstance>)
        requires
            old(self).wf(),
        ensures
            final(self).wf(),
            final(self)@ == (ManagerModel { vms: old(self)@.vms.remove(fx_id@), ..old(self)@ }),
            match r {
                Some(vm) => old(self)@.vms.dom().contains(fx_id@) && vm@ == old(self)@.vms[fx_id@],
                None => !old(self)@.vms.dom().contains(fx_id@),
            },
    {
        let ghost before = entries(self.vms@);
        let ghost id = fx_id@;
        proof {
            lemma_place(before, id);
        }
        match self.find(fx_id) {
            Some(i) => {
                let (key, vm) = self.vms.remove(i);
                proof {
                    let after = entries(self.vms@);
                    let at = i as int;
                    assert(after =~= before.remove(at));
                    assert forall|a: int, b: int| 0 <= a < b < after.len() implies (#[trigger] after[a]).0
                        != (#[trigger] after[b]).0 by {
                        let x = if a < at {
                            a
                        } else {
                            a + 1
                        };
                        let y = if b < at {
                            b
                        } else {
                            b + 1
                        };
                        assert(before[x].0 != before[y].0);
                    }
                    assert forall|k: FxIdModel| k != id implies #[trigger] place(after, k) == (
                    if place(before, k) < at {
                        place(before, k)
                    } else {
                        place(before, k) - 1
                    }) by {
                        lemma_place(before, k);
                        let p = place(before, k);
                        let q = if p < at {
                            p
                        } else {
                            p - 1
                        };
                        assert forall|j: int| 0 <= j < q implies (#[trigger] after[j]).0 != k by {
                            if j < at {
                                assert(before[j].0 != k);
                            } else {
                                assert(before[j + 1].0 != k);
                            }
                        }
                        lemma_place_is(after, k, q);
                    }
                    assert(place(after, id) == after.len()) by {
                        assert forall|j: int| 0 <= j < after.len() implies (#[trigger] after[j]).0
                            != id by {
                            if j < at {
                                assert(before[j].0 != before[at].0);
                            } else {
                                assert(before[at].0 != before[j + 1].0);
                            }
                        }
                        lemma_place_is(after, id, after.len() as int);
                    }
                    assert forall|k: FxIdModel| by_id(after).dom().contains(k) == by_id(
                        before,
                    ).remove(id).dom().contains(k) by {
                        lemma_place(before, k);
                        lemma_place(after, k);
                    }
                    assert forall|k: FxIdModel|
                        by_id(before).remove(id).dom().contains(k) implies #[trigger] by_id(after)[k]
                        == by_id(before).remove(id)[k] by {
                        lemma_place(before, k);
                        lemma_place(after, k);
                    }
                    assert(by_id(after) =~= by_id(before).remove(id));
                }
                Some(vm)
            },
            None => {
                proof {
                    assert(by_id(before) =~= by_id(before).remove(id));
                }
                None
            },
        }
    }
}

impl QemuManager {
    /// Whether a worker watches a virtual machine.
    pub fn is_watched(&self, fx_id: &FxId) -> (r: bool)
        ensures
            r == self@.watched.contains(fx_id@),
    {
        let ghost all = ids(self.watched@);
        for i in 0..self.watched.len()
            invariant
                all == ids(self.watched@),
                forall|j: int| 0 <= j < i ==> #[trigger] all[j] != fx_id@,
        {
            if same_id(&self.watched[i], fx_id) {
                assert(all[i as int] == fx_id@);
                return true;
            }
        }
        assert(!all.contains(fx_id@));
        false
    }

    /// Notes that a worker watches a virtual machine.
    fn watch(&mut self, fx_id: &FxId)
        requires
            old(self).wf(),
        ensures
            final(self).wf(),
            final(self)@ == (ManagerModel {
                watched: old(self)@.watched.insert(fx_id@),
                ..old(self)@
            }),
    {
        let ghost before = ids(self.watched@);
        if !self.is_watched(fx_id) {
            self.watched.push(fx_id.clone());
            proof {
                let after = ids(self.watched@);
                assert(after =~= before.push(fx_id@));
                assert(!before.contains(fx_id@));
                assert forall|k: FxIdModel| after.contains(k) == (before.contains(k) || k == fx_id@) by {
                    if before.contains(k) {
                        let i = choose|i: int| 0 <= i < before.len() && before[i] == k;
                        assert(after[i] == k);
                    }
                    assert(after[before.len() as int] == fx_id@);
                }
                assert(after.to_set() =~= before.to_set().insert(fx_id@));
            }
        } else {
            proof {
                assert(before.to_set() =~= before.to_set().insert(fx_id@));
            }
        }
    }

    /// Notes that no worker watches a virtual machine any more.
    pub fn unwatch(&mut self, fx_id: &FxId)
        requires
            old(self).wf(),
        ensures
            final(self).wf(),
            final(self)@ == (ManagerModel {
                watched: old(self)@.watched.remove(fx_id@),
                ..old(self)@
            }),
    {
        let ghost before = ids(self.watched@);
        let n: usize = self.watched.len();
        for i in 0..n
            invariant
                n == self.watched@.len(),
                before == ids(self.watched@),
                before == ids(old(self).watched@),
                self.vms == old(self).vms,
                self.system_configuration == old(self).system_configuration,
                before.no_duplicates(),
                unique(entries(self.vms@)),
                forall|j: int| 0 <= j < i ==> #[trigger] before[j] != fx_id@,
        {
            if same_id(&self.watched[i], fx_id) {
                self.watched.remove(i);
                proof {
                    let at = i as int;
                    let after = ids(self.watched@);
                    assert(after =~= before.remove(at));
                    assert(before[at] == fx_id@);
                    assert forall|k: FxIdModel| after.contains(k) == (before.contains(k) && k
                        != fx_id@) by {
                        if after.contains(k) {
                            let j = choose|j: int| 0 <= j < after.len() && after[j] == k;
                            let x = if j < at {
                                j
                            } else {
                                j + 1
                            };
                            assert(before[x] == k);
                            assert(x != at);
                        }
                        if before.contains(k) && k != fx_id@ {
                            let j = choose|j: int| 0 <= j < before.len() && before[j] == k;
                            let x = if j < at {
                                j
                            } else {
                                j - 1
                            };
                            assert(after[x] == k);
                        }
                    }
                    assert(after.to_set() =~= before.to_set().remove(fx_id@));
                    assert forall|a: int, b: int|
                        0 <= a < after.len() && 0 <= b < after.len() && a != b implies after[a]
                        != after[b] by {
                        let x = if a < at {
                            a
                        } else {
                            a + 1
                        };
                        let y = if b < at {
                            b
                        } else {
                            b + 1
                        };
                        assert(before[x] != before[y]);
                    }
                }
                return ;
            }
        }
        proof {
            assert(!before.contains(fx_id@));
            assert(before.to_set() =~= before.to_set().remove(fx_id@));
        }
    }

    /// Registers a virtual machine that is found running as `runtime_pid`. A
    /// machine that is not running is not registered, and no worker is started.
    pub fn register_existing(
        &mut self,
        machine_configuration: QemuMachineConfiguration,
        fx_id: FxId,
        host: &HostFacts,
        live: Option<u32>,
        runtime_pid: Option<u32>,
    ) -> (r: Result<Option<u32>, CreateError>)
        requires
            old(self).wf(),
        ensures
            final(self).wf(),
            ({
                let sys = old(self)@.system_configuration;
                let machine = machine_configuration@;
                match machine_result(sys, machine, fx_id@, *host) {
                    Ok(command) => r == Ok::<Option<u32>, CreateError>(runtime_pid) && final(self)@
                        == (match runtime_pid {
                        Some(pid) => old(self)@.with_vm(
                            fx_id@,
                            RunningModel {
                                pid,
                                qemu: fresh_instance(sys, machine, fx_id@, command, live),
                            },
                        ),
                        None => old(self)@,
                    }),
                    Err(err) => r is Err && r->Err_0@ == err && final(self)@ == old(self)@,
                }
            }),
    {
        let qemu = match QemuInstance::existing_or_new(
            &self.system_configuration,
            machine_configuration,
            &fx_id,
            host,
            live,
        ) {
            Ok(qemu) => qemu,
            Err(err) => return Err(err),
        };
        match runtime_pid {
            Some(pid) => {
                self.insert(fx_id, QemuRunningInstance { pid, qemu });
                Ok(Some(pid))
            },
            None => Ok(None),
        }
    }

    /// Registers the running virtual machines that the entries of the runtime
    /// root belong to, all of the same configuration, and tells them. The first
    /// failure ends the discovery; what was registered before stays.
    pub fn discover_existing_from_runtime_dir(
        &mut self,
        machine_configuration: &QemuMachineConfiguration,
        host: &HostFacts,
        entries: Vec<Result<RuntimeEntry, IoError>>,
    ) -> (r: Result<Vec<(FxId, u32)>, CreateError>)
        requires
            old(self).wf(),
        ensures
            final(self).wf(),
            ({
                let start = Discovery { manager: old(self)@, found: seq![], failure: None };
                let end = start.after_all(
                    machine_configuration@,
                    *host,
                    entries@,
                    entries@.len() as int,
                );
                &&& final(self)@ == end.manager
                &&& match end.failure {
                    Some(err) => r is Err && r->Err_0@ == err,
                    None => r is Ok && found_models(r->Ok_0@) == end.found,
                }
            }),
    {
        let mut discovered: Vec<(FxId, u32)> = Vec::new();
        let ghost machine = machine_configuration@;
        let ghost start = Discovery { manager: self@, found: seq![], failure: None };
        let ghost all = entries@;
        proof {
            assert(found_models(discovered@) =~= seq![]);
        }
        for i in 0..entries.len()
            invariant
                all == entries@,
                self.wf(),
                machine == machine_configuration@,
                start == (Discovery { manager: old(self)@, found: seq![], failure: None }),
                start.after_all(machine, *host, all, i as int) == (Discovery {
                    manager: self@,
                    found: found_models(discovered@),
                    failure: None,
                }),
        {
            let ghost before = found_models(discovered@);
            let ghost at = i as int;
            match &entries[i] {
                Err(err) => {
                    proof {
                        lemma_discovery_stays(start, machine, *host, all, at + 1, all.len() as int);
                    }
                    return Err(CreateError::Io(err.clone()));
                },
                Ok(entry) => {
                    if let Some(fx_id) = runtime_dir_id(entry.is_dir, &entry.name) {
                        let registered = self.register_existing(
                            machine_configuration.clone(),
                            fx_id.clone(),
                            host,
                            entry.live,
                            entry.runtime_pid,
                        );
                        match registered {
                            Ok(Some(pid)) => {
                                let ghost id = fx_id@;
                                discovered.push((fx_id, pid));
                                proof {
                                    assert(found_models(discovered@) =~= before.push((id, pid)));
                                }
                            },
                            Ok(None) => {},
                            Err(err) => {
                                proof {
                                    lemma_discovery_stays(
                                        start,
                                        machine,
                                        *host,
                                        all,
                                        at + 1,
                                        all.len() as int,
                                    );
                                }
                                return Err(err);
                            },
                        }
                    }
                },
            }
        }
        Ok(discovered)
    }

    /// Registers the virtual machine that a record stands for, if it is found
    /// running as `runtime_pid`.
    pub fn register_recorded(
        &mut self,
        record: &QemuMetadataRecord,
        fx_id: FxId,
        live: Option<u32>,
        runtime_pid: Option<u32>,
    ) -> (r: Result<RecordedStep, CreateError>)
        requires
            old(self).wf(),
        ensures
            final(self).wf(),
            ({
                let sys = old(self)@.system_configuration;
                match recovered_instance(sys, record@, fx_id@, live) {
                    Ok(qemu) => match runtime_pid {
                        Some(pid) => r == Ok::<RecordedStep, CreateError>(
                            RecordedStep::Registered(pid),
                        ) && final(self)@ == old(self)@.with_vm(fx_id@, RunningModel { pid, qemu }),
                        None => r == Ok::<RecordedStep, CreateError>(RecordedStep::MarkStopped)
                            && final(self)@ == old(self)@,
                    },
                    Err(err) => r is Err && r->Err_0@ == err && final(self)@ == old(self)@,
                }
            }),
    {
        let qemu = match QemuInstance::existing_from_metadata_record(
            &self.system_configuration,
            record,
            &fx_id,
            live,
        ) {
            Ok(qemu) => qemu,
            Err(err) => return Err(err),
        };
        match runtime_pid {
            Some(pid) => {
                self.insert(fx_id, QemuRunningInstance { pid, qemu });
                Ok(RecordedStep::Registered(pid))
            },
            None => Ok(RecordedStep::MarkStopped),
        }
    }

    /// The virtual machines that no worker watches yet.
    pub fn unwatched(&self) -> (r: Vec<FxId>)
        requires
            self.wf(),
        ensures
            ids(r@).no_duplicates(),
            forall|id: FxIdModel| #[trigger]
                ids(r@).contains(id) <==> self@.vms.dom().contains(id) && !self@.watched.contains(id),
    {
        let mut r: Vec<FxId> = Vec::new();
        let ghost list = entries(self.vms@);
        for i in 0..self.vms.len()
            invariant
                self.wf(),
                list == entries(self.vms@),
                ids(r@).no_duplicates(),
                forall|id: FxIdModel| #[trigger]
                    ids(r@).contains(id) <==> (exists|j: int|
                        0 <= j < i && (#[trigger] list[j]).0 == id) && !self@.watched.contains(id),
        {
            let ghost before = ids(r@);
            let ghost id = list[i as int].0;
            if !self.is_watched(&self.vms[i].0) {
                r.push(self.vms[i].0.clone());
                proof {
                    let after = ids(r@);
                    assert(after =~= before.push(id));
                    if before.contains(id) {
                        let j = choose|j: int| 0 <= j < i && (#[trigger] list[j]).0 == id;
                        assert(list[j].0 != list[i as int].0);
                    }
                    assert forall|k: FxIdModel| #[trigger] after.contains(k) <==> (exists|j: int|
                        0 <= j < i + 1 && (#[trigger] list[j]).0 == k) && !self@.watched.contains(k) by {
                        if after.contains(k) {
                            let j = choose|j: int| 0 <= j < after.len() && after[j] == k;
                            if j < before.len() {
                                assert(before[j] == k);
                                assert(before.contains(k));
                            } else {
                                assert(list[i as int].0 == k);
                            }
                        }
                        if (exists|j: int| 0 <= j < i + 1 && (#[trigger] list[j]).0 == k)
                            && !self@.watched.contains(k) {
                            let j = choose|j: int| 0 <= j < i + 1 && (#[trigger] list[j]).0 == k;
                            if j < i {
                                assert(before.contains(k));
                                let m = choose|m: int| 0 <= m < before.len() && before[m] == k;
                                assert(after[m] == k);
                            } else {
                                assert(after[before.len() as int] == k);
                            }
                        }
                    }
                }
            } else {
                proof {
                    assert forall|k: FxIdModel| #[trigger] ids(r@).contains(k) <==> (exists|j: int|
                        0 <= j < i + 1 && (#[trigger] list[j]).0 == k) && !self@.watched.contains(k) by {
                        if (exists|j: int| 0 <= j < i + 1 && (#[trigger] list[j]).0 == k)
                            && !self@.watched.contains(k) {
                            let j = choose|j: int| 0 <= j < i + 1 && (#[trigger] list[j]).0 == k;
                            assert(j < i);
                        }
                    }
                }
            }
        }
        proof {
            assert forall|id: FxIdModel| #[trigger]
                ids(r@).contains(id) <==> self@.vms.dom().contains(id) && !self@.watched.contains(
                    id,
                ) by {
                lemma_place(list, id);
                if self@.vms.dom().contains(id) {
                    assert(list[place(list, id)].0 == id);
                }
                if exists|j: int| 0 <= j < list.len() && (#[trigger] list[j]).0 == id {
                    let j = choose|j: int| 0 <= j < list.len() && (#[trigger] list[j]).0 == id;
                    assert(place(list, id) <= j);
                }
            }
        }
        r
    }

    /// Notes that a worker watches a virtual machine as the given process.
    pub fn watcher_started(&mut self, fx_id: &FxId, pid: u32)
        requires
            old(self).wf(),
        ensures
            final(self).wf(),
            final(self)@ == with_watcher(old(self)@, fx_id@, pid),
    {
        let ghost before = self@;
        match self.remove(fx_id) {
            Some(vm) => {
                let running = QemuRunningInstance { pid, qemu: vm.qemu };
                self.insert(fx_id.clone(), running);
                self.watch(fx_id);
                proof {
                    assert(before.vms.remove(fx_id@).insert(fx_id@, running@) =~= before.vms.insert(
                        fx_id@,
                        running@,
                    ));
                }
            },
            None => {
                proof {
                    assert(before.vms.remove(fx_id@) =~= before.vms);
                }
            },
        }
    }

    /// Keeps the status that QEMU reported of a virtual machine, if it is
    /// managed; a failed call counts as an I/O error.
    pub fn status_reported(
        &mut self,
        fx_id: &FxId,
        pid: u32,
        reply: Result<StatusInfo, String>,
    ) -> (r: Option<Result<FxExecutionState, CallApiError>>)
        requires
            old(self).wf(),
        ensures
            final(self).wf(),
            final(self)@ == with_status(old(self)@, fx_id@, kept_status(reply)),
            r is Some == old(self)@.vms.dom().contains(fx_id@),
            r is Some ==> match reply {
                Ok(status) => r->0 is Ok && r->0->Ok_0@ == run_state(status.status, pid),
                Err(message) => r->0 == Err::<FxExecutionState, CallApiError>(
                    CallApiError::Executor(message),
                ),
            },
    {
        let ghost before = self@;
        match self.remove(fx_id) {
            Some(vm) => {
                let mut running = vm;
                let state = running.qemu.fx_status(pid, reply);
                self.insert(fx_id.clone(), running);
                proof {
                    assert(before.vms.remove(fx_id@).insert(fx_id@, running@) =~= before.vms.insert(
                        fx_id@,
                        running@,
                    ));
                }
                Some(state)
            },
            None => {
                proof {
                    assert(before.vms.remove(fx_id@) =~= before.vms);
                }
                None
            },
        }
    }

    /// Adds a virtual machine that was started, if it could be started and
    /// verified; a worker watches it from then on.
    pub fn create(
        &mut self,
        fx_id: FxId,
        qemu: QemuInstance,
        started: Result<u32, SpawnError>,
        verified: Result<Verification, VerifyError>,
    ) -> (r: Result<(), CreateError>)
        requires
            old(self).wf(),
        ensures
            final(self).wf(),
            match (started, verified) {
                (Err(err), _) => r == Err::<(), CreateError>(CreateError::Spawn(err))
                    && final(self)@ == old(self)@,
                (Ok(_), Err(err)) => r == Err::<(), CreateError>(CreateError::Verify(err))
                    && final(self)@ == old(self)@,
                (Ok(pid), Ok(_)) => r is Ok && final(self)@ == (ManagerModel {
                    vms: old(self)@.vms.insert(fx_id@, RunningModel { pid, qemu: qemu@ }),
                    watched: old(self)@.watched.insert(fx_id@),
                    ..old(self)@
                }),
            },
    {
        let pid = match started {
            Ok(pid) => pid,
            Err(err) => return Err(CreateError::Spawn(err)),
        };
        if let Err(err) = verified {
            return Err(CreateError::Verify(err));
        }
        self.watch(&fx_id);
        self.insert(fx_id, QemuRunningInstance { pid, qemu });
        Ok(())
    }

    /// Takes the workers over for a shutdown: none watches any more.
    pub fn take_workers(&mut self) -> (r: Vec<FxId>)
        requires
            old(self).wf(),
        ensures
            final(self).wf(),
            final(self)@ == (ManagerModel { watched: Set::empty(), ..old(self)@ }),
            ids(r@).no_duplicates(),
            ids(r@).to_set() == old(self)@.watched,
    {
        let mut taken: Vec<FxId> = Vec::new();
        std::mem::swap(&mut taken, &mut self.watched);
        proof {
            assert(ids(self.watched@).to_set() =~= Set::empty());
        }
        taken
    }

    /// What is recorded of a virtual machine whose worker has ended in a
    /// shutdown: it runs on if its process exists. It is not managed any more.
    /// A worker that did not end as it should changes nothing.
    pub fn worker_exited(&mut self, fx_id: &FxId, joined: bool, process_exists: bool) -> (r: Option<
        ManagerUpdate,
    >)
        requires
            old(self).wf(),
        ensures
            final(self).wf(),
            ({
                let managed = old(self)@.vms.dom().contains(fx_id@);
                let vm = old(self)@.vms[fx_id@];
                let pid = if process_exists {
                    Some(vm.pid)
                } else {
                    None
                };
                if joined && managed {
                    &&& r is Some
                    &&& r->0.state@ == (match pid {
                        Some(p) => StateModel::Running(p),
                        None => StateModel::Stopped,
                    })
                    &&& r->0.record@ == record_of(vm.qemu, pid)
                    &&& final(self)@ == (ManagerModel {
                        vms: old(self)@.vms.remove(fx_id@),
                        ..old(self)@
                    })
                } else {
                    r is None && final(self)@ == old(self)@
                }
            }),
    {
        if !joined {
            return None;
        }
        let ghost before = self@;
        match self.remove(fx_id) {
            Some(vm) => {
                let runtime_pid = if process_exists {
                    Some(vm.pid)
                } else {
                    None
                };
                let state = match runtime_pid {
                    Some(pid) => FxExecutionState::Running(pid),
                    None => FxExecutionState::Stopped,
                };
                Some(ManagerUpdate { state, record: vm.qemu.metadata_record(runtime_pid) })
            },
            None => {
                proof {
                    assert(before.vms.remove(fx_id@) =~= before.vms);
                }
                None
            },
        }
    }

    /// What a reported event changes in the metadata: the state, and for a
    /// machine that is managed also its record.
    pub fn drain_worker_event(&self, event: &QemuWorkerEvent) -> (r: (
        FxExecutionState,
        Option<QemuMetadataRecord>,
    ))
        ensures
            r.0 == event.state,
            match r.1 {
                Some(record) => self@.vms.dom().contains(event.fx_id@) && record@ == record_of(
                    self@.vms[event.fx_id@].qemu,
                    state_pid(event.state@),
                ),
                None => !self@.vms.dom().contains(event.fx_id@),
            },
    {
        let runtime_pid = match &event.state {
            FxExecutionState::Running(pid) => Some(*pid),
            FxExecutionState::Paused(pid) => Some(*pid),
            _ => None,
        };
        let record = match self.find(&event.fx_id) {
            Some(i) => Some(self.vms[i].1.qemu.metadata_record(runtime_pid)),
            None => None,
        };
        (event.state.clone(), record)
    }

    /// The stop of a virtual machine: it has to be managed, and watched by a
    /// worker.
    pub fn stop(&self, fx_id: &FxId) -> (r: Result<QemuStop, QemuManagerStopError>)
        ensures
            if self@.vms.dom().contains(fx_id@) && self@.watched.contains(fx_id@) {
                r is Ok && r->Ok_0 == (QemuStop {
                    phase: StopPhase::SendPowerdown,
                    fx_id: *fx_id,
                    pid: self@.vms[fx_id@].pid,
                    failure: None,
                })
            } else {
                r == Err::<QemuStop, QemuManagerStopError>(QemuManagerStopError::NotFound(*fx_id))
            },
    {
        match self.find(fx_id) {
            Some(i) => {
                if self.is_watched(fx_id) {
                    Ok(
                        QemuStop {
                            phase: StopPhase::SendPowerdown,
                            fx_id: fx_id.clone(),
                            pid: self.vms[i].1.pid,
                            failure: None,
                        },
                    )
                } else {
                    Err(QemuManagerStopError::NotFound(fx_id.clone()))
                }
            },
            None => Err(QemuManagerStopError::NotFound(fx_id.clone())),
        }
    }

    /// The record of a virtual machine that has stopped.
    pub fn stopped_record(&self, fx_id: &FxId) -> (r: Option<QemuMetadataRecord>)
        ensures
            match r {
                Some(record) => self@.vms.dom().contains(fx_id@) && record@ == record_of(
                    self@.vms[fx_id@].qemu,
                    None,
                ),
                None => !self@.vms.dom().contains(fx_id@),
            },
    {
        match self.find(fx_id) {
            Some(i) => Some(self.vms[i].1.qemu.metadata_record(None)),
            None => None,
        }
    }
}

/// What is to be done next for the machine at hand while watchers are started.
#[derive(Clone, Copy, Debug, PartialEq, Eq, Structural)]
pub enum WatchPhase {
    /// Attach to it, if it is running.
    Attach,
    /// Start it.
    Start,
}

/// The start of a worker for each virtual machine that has none.
#[derive(Debug)]
pub struct WatchRun {
    /// The machines without a worker.
    pub pending: Vec<FxId>,
    /// The place of the machine at hand.
    pub at: usize,
    /// What is to be done for it next.
    pub phase: WatchPhase,
    /// The machines that have a worker now.
    pub started: Vec<FxId>,
}

/// The model of the start of workers.
#[verifier::ext_equal]
pub struct WatchModel {
    pub pending: Seq<FxIdModel>,
    pub at: int,
    pub phase: WatchPhase,
    pub started: Seq<FxIdModel>,
}

impl View for WatchRun {
    type V = WatchModel;

    open spec fn view(&self) -> WatchModel {
        WatchModel {
            pending: ids(self.pending@),
            at: self.at as int,
            phase: self.phase,
            started: ids(self.started@),
        }
    }
}

impl WatchModel {
    /// What follows what came of attaching to the machine at hand or of
    /// starting it: one that runs is watched, one that is not running is
    /// started, and one that cannot be is passed over.
    pub open spec fn after(self, outcome: Result<Option<u32>, SpawnError>) -> WatchModel {
        if self.at >= self.pending.len() {
            self
        } else {
            match (self.phase, outcome) {
                (WatchPhase::Attach, Ok(None)) => WatchModel { phase: WatchPhase::Start, ..self },
                (_, Ok(Some(_))) => WatchModel {
                    at: self.at + 1,
                    phase: WatchPhase::Attach,
                    started: self.started.push(self.pending[self.at]),
                    ..self
                },
                _ => WatchModel { at: self.at + 1, phase: WatchPhase::Attach, ..self },
            }
        }
    }
}

impl WatchModel {
    /// What becomes of the manager: a machine at hand that runs is watched.
    pub open spec fn applied(
        self,
        manager: ManagerModel,
        outcome: Result<Option<u32>, SpawnError>,
    ) -> ManagerModel {
        match outcome {
            Ok(Some(pid)) => if self.at < self.pending.len() {
                with_watcher(manager, self.pending[self.at], pid)
            } else {
                manager
            },
            _ => manager,
        }
    }

    /// What holds while workers are started: the machines are managed, and
    /// those that a worker was started for are watched.
    pub open spec fn inv(self, manager: ManagerModel) -> bool {
        &&& 0 <= self.at
        &&& forall|id: FxIdModel| #[trigger]
            self.pending.contains(id) ==> manager.vms.dom().contains(id)
        &&& forall|id: FxIdModel| #[trigger]
            self.started.contains(id) ==> manager.watched.contains(id)
    }
}

/// The status that is kept once QEMU was asked for it.
pub open spec fn kept_status(reply: Result<StatusInfo, String>) -> StatusInfo {
    match reply {
        Ok(status) => status,
        Err(_) => lost_status(),
    }
}

/// A manager after one of its machines was found to be in another status.
pub open spec fn with_status(
    manager: ManagerModel,
    id: FxIdModel,
    status: StatusInfo,
) -> ManagerModel {
    if manager.vms.dom().contains(id) {
        let vm = manager.vms[id];
        manager.with_vm(id, RunningModel { qemu: InstanceModel { status, ..vm.qemu }, ..vm })
    } else {
        manager
    }
}

/// A manager after a machine was found to run as the given process and a
/// worker was started for it.
pub open spec fn with_watcher(manager: ManagerModel, id: FxIdModel, pid: u32) -> ManagerModel {
    if manager.vms.dom().contains(id) {
        ManagerModel {
            vms: manager.vms.insert(id, RunningModel { pid, ..manager.vms[id] }),
            watched: manager.watched.insert(id),
            ..manager
        }
    } else {
        manager
    }
}

impl WatchRun {
    /// The machine at hand, and what is to be done for it.
    pub fn next(&self) -> (r: Option<(&FxId, WatchPhase)>)
        ensures
            match r {
                Some((id, phase)) => self@.at < self@.pending.len() && id@ == self@.pending[self@.at]
                    && phase == self@.phase,
                None => self@.at >= self@.pending.len(),
            },
    {
        proof {
            assert(ids(self.pending@).len() == self.pending@.len());
        }
        if self.at < self.pending.len() {
            Some((&self.pending[self.at], self.phase))
        } else {
            None
        }
    }

    /// Takes what came of attaching to the machine at hand or of starting it.
    pub fn advance(&mut self, manager: &mut QemuManager, outcome: Result<Option<u32>, SpawnError>)
        requires
            old(manager).wf(),
        ensures
            final(manager).wf(),
            final(self)@ == old(self)@.after(outcome),
            final(manager)@ == old(self)@.applied(old(manager)@, outcome),
    {
        proof {
            assert(ids(self.pending@).len() == self.pending@.len());
        }
        if self.at >= self.pending.len() {
            return ;
        }
        match (self.phase, outcome) {
            (WatchPhase::Attach, Ok(None)) => {
                self.phase = WatchPhase::Start;
            },
            (_, Ok(Some(pid))) => {
                let id = self.pending[self.at].clone();
                manager.watcher_started(&id, pid);
                let ghost before = ids(self.started@);
                let ghost model = id@;
                self.started.push(id);
                proof {
                    assert(ids(self.started@) =~= before.push(model));
                }
                self.at = self.at + 1;
                self.phase = WatchPhase::Attach;
            },
            _ => {
                self.at = self.at + 1;
                self.phase = WatchPhase::Attach;
            },
        }
    }
}

impl QemuManager {
    /// Begins to start a worker for each virtual machine that has none.
    pub fn run_watchers(&self) -> (r: WatchRun)
        requires
            self.wf(),
        ensures
            r@.at == 0 && r@.phase is Attach && r@.started.len() == 0,
            r@.pending.no_duplicates(),
            r@.inv(self@),
            forall|id: FxIdModel| #[trigger]
                r@.pending.contains(id) <==> self@.vms.dom().contains(id) && !self@.watched.contains(id),
    {
        WatchRun {
            pending: self.unwatched(),
            at: 0,
            phase: WatchPhase::Attach,
            started: Vec::new(),
        }
    }
}

/// While workers are started, no machine is lost, none loses its worker, those
/// that were watched before stay as they are, and every machine that is said to
/// have a worker has one.
pub proof fn law_watchers_only_grow(
    manager: ManagerModel,
    run: WatchModel,
    outcome: Result<Option<u32>, SpawnError>,
)
    requires
        run.inv(manager),
    ensures
        ({
            let next = run.applied(manager, outcome);
            &&& run.after(outcome).inv(next)
            &&& manager.watched.subset_of(next.watched)
            &&& next.vms.dom() == manager.vms.dom()
            &&& forall|id: FxIdModel|
                manager.vms.dom().contains(id) && !run.pending.contains(id) ==> #[trigger] next.vms[id]
                    == manager.vms[id]
        }),
{
    let next = run.applied(manager, outcome);
    if run.at < run.pending.len() {
        assert(run.pending.contains(run.pending[run.at]));
        assert forall|id: FxIdModel| #[trigger]
            run.after(outcome).started.contains(id) implies next.watched.contains(id) by {
            let after = run.after(outcome).started;
            if after.len() > run.started.len() {
                let i = choose|i: int| 0 <= i < after.len() && after[i] == id;
                if i < run.started.len() {
                    assert(run.started[i] == id);
                    assert(run.started.contains(id));
                }
            }
        }
    }
    assert(next.vms.dom() =~= manager.vms.dom());
}

/// What a preparation of a virtual machine ended in, once it is to be recorded.
pub fn allocate(prepared: Result<(), AllocateError>, recorded: Result<(), String>) -> (r: Result<
    (),
    CreateError,
>)
    ensures
        r == (match (prepared, recorded) {
            (Err(err), _) => Err::<(), CreateError>(CreateError::Allocate(err)),
            (Ok(_), Err(message)) => Err(CreateError::Metadata(message)),
            (Ok(_), Ok(_)) => Ok(()),
        }),
{
    match (prepared, recorded) {
        (Err(err), _) => Err(CreateError::Allocate(err)),
        (Ok(_), Err(message)) => Err(CreateError::Metadata(message)),
        (Ok(_), Ok(_)) => Ok(()),
    }
}

/// What is to be done next to stop a virtual machine.
#[derive(Clone, Copy, Debug, PartialEq, Eq, Structural)]
pub enum StopPhase {
    /// Tell the worker to power the machine down.
    SendPowerdown,
    /// Wait for the process to exit.
    WaitExit,
    /// End the worker; it does not watch the machine any more.
    EndWorker,
    /// Record that the machine is stopped.
    UpdateState,
    /// Record the machine.
    UpsertRecord,
    /// Nothing: the machine is stopped and not managed any more.
    Stopped,
    /// Nothing: it failed.
    Failed,
}

/// How a step of a stop ended.
#[derive(Debug)]
pub enum StopAnswer {
    /// The worker was told, or could not be.
    Sent(Result<(), String>),
    /// Whether the process exited in time.
    Exited(bool),
    /// The worker has ended, or not as it should.
    Joined(Result<(), String>),
    /// The metadata was updated, or could not be.
    Updated(Result<(), String>),
}

/// The stop of a virtual machine.
#[derive(Debug)]
pub struct QemuStop {
    /// What is to be done next.
    pub phase: StopPhase,
    /// The machine.
    pub fx_id: FxId,
    /// Its process.
    pub pid: u32,
    /// Why the stop failed, if it did.
    pub failure: Option<QemuManagerStopError>,
}

impl QemuStop {
    /// The same, in another phase.
    pub open spec fn in_phase(self, phase: StopPhase) -> QemuStop {
        QemuStop { phase, ..self }
    }

    /// The same, having failed.
    pub open spec fn failed(self, err: QemuManagerStopError) -> QemuStop {
        QemuStop { phase: StopPhase::Failed, failure: Some(err), ..self }
    }

    /// What follows an answer. An answer to something else changes nothing.
    pub open spec fn after(self, answer: StopAnswer) -> QemuStop {
        match (self.phase, answer) {
            (StopPhase::SendPowerdown, StopAnswer::Sent(Ok(_))) => self.in_phase(StopPhase::WaitExit),
            (StopPhase::SendPowerdown, StopAnswer::Sent(Err(message))) => self.failed(
                QemuManagerStopError::Send(message),
            ),
            (StopPhase::WaitExit, StopAnswer::Exited(true)) => self.in_phase(StopPhase::EndWorker),
            (StopPhase::WaitExit, StopAnswer::Exited(false)) => self.failed(
                QemuManagerStopError::Timeout {
                    fx_id: self.fx_id,
                    pid: self.pid,
                    timeout_secs: QEMU_STOP_WAIT_TIMEOUT / 1000,
                },
            ),
            (StopPhase::EndWorker, StopAnswer::Joined(Ok(_))) => self.in_phase(
                StopPhase::UpdateState,
            ),
            (StopPhase::EndWorker, StopAnswer::Joined(Err(message))) => self.failed(
                QemuManagerStopError::Join(message),
            ),
            (StopPhase::UpdateState, StopAnswer::Updated(Ok(_))) => self.in_phase(
                StopPhase::UpsertRecord,
            ),
            (StopPhase::UpsertRecord, StopAnswer::Updated(Ok(_))) => self.in_phase(
                StopPhase::Stopped,
            ),
            (StopPhase::UpdateState, StopAnswer::Updated(Err(message))) => self.failed(
                QemuManagerStopError::Metadata(message),
            ),
            (StopPhase::UpsertRecord, StopAnswer::Updated(Err(message))) => self.failed(
                QemuManagerStopError::Metadata(message),
            ),
            _ => self,
        }
    }

    /// Notes a failure.
    fn fail(&mut self, err: QemuManagerStopError)
        ensures
            *final(self) == old(self).failed(err),
    {
        self.phase = StopPhase::Failed;
        self.failure = Some(err);
    }

    /// What an answer makes of the manager: once the process has exited, the
    /// worker counts as gone, and once the machine is recorded as stopped, it
    /// is not managed any more.
    pub open spec fn applied(self, manager: ManagerModel, answer: StopAnswer) -> ManagerModel {
        match (self.phase, answer) {
            (StopPhase::WaitExit, StopAnswer::Exited(true)) => ManagerModel {
                watched: manager.watched.remove(self.fx_id@),
                ..manager
            },
            (StopPhase::UpsertRecord, StopAnswer::Updated(Ok(_))) => ManagerModel {
                vms: manager.vms.remove(self.fx_id@),
                ..manager
            },
            _ => manager,
        }
    }

    /// Takes an answer.
    pub fn advance(&mut self, manager: &mut QemuManager, answer: StopAnswer)
        requires
            old(manager).wf(),
        ensures
            *final(self) == old(self).after(answer),
            final(manager).wf(),
            final(manager)@ == old(self).applied(old(manager)@, answer),
    {
        match (self.phase, answer) {
            (StopPhase::SendPowerdown, StopAnswer::Sent(sent)) => match sent {
                Ok(_) => {
                    self.phase = StopPhase::WaitExit;
                },
                Err(message) => self.fail(QemuManagerStopError::Send(message)),
            },
            (StopPhase::WaitExit, StopAnswer::Exited(exited)) => {
                if exited {
                    manager.unwatch(&self.fx_id);
                    self.phase = StopPhase::EndWorker;
                } else {
                    let fx_id = self.fx_id.clone();
                    let pid = self.pid;
                    self.fail(
                        QemuManagerStopError::Timeout {
                            fx_id,
                            pid,
                            timeout_secs: QEMU_STOP_WAIT_TIMEOUT / 1000,
                        },
                    );
                }
            },
            (StopPhase::EndWorker, StopAnswer::Joined(joined)) => match joined {
                Ok(_) => {
                    self.phase = StopPhase::UpdateState;
                },
                Err(message) => self.fail(QemuManagerStopError::Join(message)),
            },
            (StopPhase::UpdateState, StopAnswer::Updated(updated)) => match updated {
                Ok(_) => {
                    self.phase = StopPhase::UpsertRecord;
                },
                Err(message) => self.fail(QemuManagerStopError::Metadata(message)),
            },
            (StopPhase::UpsertRecord, StopAnswer::Updated(updated)) => match updated {
                Ok(_) => {
                    let _ = manager.remove(&self.fx_id);
                    self.phase = StopPhase::Stopped;
                },
                Err(message) => self.fail(QemuManagerStopError::Metadata(message)),
            },
            _ => {},
        }
    }

    /// The state to record now, if one is: the machine is stopped.
    pub fn state(&self) -> (r: Option<FxExecutionState>)
        ensures
            r == (if self.phase is UpdateState {
                Some(FxExecutionState::Stopped)
            } else {
                None
            }),
    {
        match self.phase {
            StopPhase::UpdateState => Some(FxExecutionState::Stopped),
            _ => None,
        }
    }

    /// What came of the stop, once nothing more is to be done.
    pub fn result(self) -> (r: Option<Result<(), QemuManagerStopError>>)
        ensures
            r == (match (self.phase, self.failure) {
                (StopPhase::Stopped, _) => Some(Ok::<(), QemuManagerStopError>(())),
                (StopPhase::Failed, Some(err)) => Some(Err(err)),
                _ => None,
            }),
    {
        match (self.phase, self.failure) {
            (StopPhase::Stopped, _) => Some(Ok(())),
            (StopPhase::Failed, Some(err)) => Some(Err(err)),
            _ => None,
        }
    }
}

/// A machine is recorded as stopped only once its process has exited and its
/// worker has ended: each phase is reached only by success in the one before,
/// and after a failure nothing changes.
pub proof fn law_stop_in_order(stop: QemuStop, answer: StopAnswer)
    ensures
        ({
            let next = stop.after(answer);
            &&& next.phase is WaitExit && next != stop ==> stop.phase is SendPowerdown
            &&& next.phase is EndWorker && next != stop ==> stop.phase is WaitExit && answer
                == StopAnswer::Exited(true)
            &&& next.phase is UpdateState && next != stop ==> stop.phase is EndWorker && answer
                is Joined && answer->Joined_0 is Ok
            &&& next.phase is Stopped && next != stop ==> stop.phase is UpsertRecord
            &&& stop.phase is Failed ==> next == stop
            &&& next.fx_id == stop.fx_id && next.pid == stop.pid
        }),
{
}

/// A stop and its manager after a row of answers.
pub open spec fn stop_after_all(
    stop: QemuStop,
    manager: ManagerModel,
    answers: Seq<StopAnswer>,
) -> (QemuStop, ManagerModel)
    decreases answers.len(),
{
    if answers.len() == 0 {
        (stop, manager)
    } else {
        let before = stop_after_all(stop, manager, answers.drop_last());
        (before.0.after(answers.last()), before.0.applied(before.1, answers.last()))
    }
}

/// A machine whose stop succeeded is not managed and not watched any more, and
/// as long as a stop has not succeeded, or when it has failed, all machines are
/// managed as before. The worker counts as gone from the exit of the process
/// on, also where the stop fails later. Nothing else is changed.
pub proof fn law_stopped_machine_is_gone(
    stop: QemuStop,
    manager: ManagerModel,
    answers: Seq<StopAnswer>,
)
    requires
        stop.phase is SendPowerdown,
        stop.failure is None,
    ensures
        ({
            let (end, after) = stop_after_all(stop, manager, answers);
            let watched = match (end.phase, end.failure) {
                (StopPhase::SendPowerdown, _) => true,
                (StopPhase::WaitExit, _) => true,
                (StopPhase::Failed, Some(QemuManagerStopError::Send(_))) => true,
                (StopPhase::Failed, Some(QemuManagerStopError::Timeout { .. })) => true,
                _ => false,
            };
            &&& end.fx_id == stop.fx_id
            &&& end.failure is Some == end.phase is Failed
            &&& after.vms == (if end.phase is Stopped {
                manager.vms.remove(stop.fx_id@)
            } else {
                manager.vms
            })
            &&& after.watched == (if watched {
                manager.watched
            } else {
                manager.watched.remove(stop.fx_id@)
            })
            &&& after.system_configuration == manager.system_configuration
        }),
    decreases answers.len(),
{
    if answers.len() > 0 {
        law_stopped_machine_is_gone(stop, manager, answers.drop_last());
    }
}

/// A wait for a process to exit.
#[derive(Clone, Copy, Debug, PartialEq, Eq, Structural)]
pub enum ExitStep {
    /// The process does not exist any more.
    Exited,
    /// The process still exists, and the time is up.
    TimedOut,
    /// The process still exists: look again after so many milliseconds.
    LookAfter(u64),
}

/// What follows a look at a process that is to exit, `elapsed` milliseconds
/// after the first: a process that is gone is never waited for, whatever the
/// time.
pub fn wait_for_process_exit(exists: bool, elapsed: u64, timeout: u64) -> (r: ExitStep)
    ensures
        r == (if !exists {
            ExitStep::Exited
        } else if elapsed >= timeout {
            ExitStep::TimedOut
        } else {
            ExitStep::LookAfter(QEMU_STOP_POLL_INTERVAL)
        }),
{
    if !exists {
        ExitStep::Exited
    } else if elapsed >= timeout {
        ExitStep::TimedOut
    } else {
        ExitStep::LookAfter(QEMU_STOP_POLL_INTERVAL)
    }
}

/// A machine that powers down is stopped: its worker is told, its process is
/// waited for, its worker is ended, and it is recorded as stopped, in this
/// order. It is then neither watched nor managed any more.
pub proof fn law_powered_down_machine_is_stopped(stop: QemuStop, manager: ManagerModel)
    requires
        stop.phase is SendPowerdown,
    ensures
        ({
            let sent = stop.after(StopAnswer::Sent(Ok(())));
            let exited = sent.after(StopAnswer::Exited(true));
            let joined = exited.after(StopAnswer::Joined(Ok(())));
            let updated = joined.after(StopAnswer::Updated(Ok(())));
            let stopped = updated.after(StopAnswer::Updated(Ok(())));
            let unwatched = sent.applied(manager, StopAnswer::Exited(true));
            let forgotten = updated.applied(unwatched, StopAnswer::Updated(Ok(())));
            &&& sent.phase is WaitExit
            &&& exited.phase is EndWorker
            &&& joined.phase is UpdateState
            &&& updated.phase is UpsertRecord
            &&& stopped == (QemuStop { phase: StopPhase::Stopped, ..stop })
            &&& stop.applied(manager, StopAnswer::Sent(Ok(()))) == manager
            &&& unwatched.vms == manager.vms
            &&& unwatched.watched == manager.watched.remove(stop.fx_id@)
            &&& exited.applied(unwatched, StopAnswer::Joined(Ok(()))) == unwatched
            &&& joined.applied(unwatched, StopAnswer::Updated(Ok(()))) == unwatched
            &&& forgotten.vms == manager.vms.remove(stop.fx_id@)
            &&& forgotten.watched == unwatched.watched
        }),
{
}

/// Each failed step ends a stop with an error of its own; a machine that does
/// not power down is given up after half a minute.
pub proof fn law_failed_step_ends_stop(stop: QemuStop, message: String)
    ensures
        ({
            let fails = |answer: StopAnswer, with: QemuManagerStopError|
                stop.after(answer) == (QemuStop {
                    phase: StopPhase::Failed,
                    failure: Some(with),
                    ..stop
                });
            &&& stop.phase is SendPowerdown ==> fails(
                StopAnswer::Sent(Err(message)),
                QemuManagerStopError::Send(message),
            )
            &&& stop.phase is WaitExit ==> fails(
                StopAnswer::Exited(false),
                QemuManagerStopError::Timeout { fx_id: stop.fx_id, pid: stop.pid, timeout_secs: 30 },
            )
            &&& stop.phase is EndWorker ==> fails(
                StopAnswer::Joined(Err(message)),
                QemuManagerStopError::Join(message),
            )
            &&& stop.phase is UpdateState || stop.phase is UpsertRecord ==> fails(
                StopAnswer::Updated(Err(message)),
                QemuManagerStopError::Metadata(message),
            )
        }),
{
}

/// Nothing but a failed step ends a stop in failure.
pub proof fn law_stop_fails_for_cause(stop: QemuStop, answer: StopAnswer)
    requires
        !(stop.phase is Failed),
    ensures
        stop.after(answer).phase is Failed ==> match answer {
            StopAnswer::Sent(sent) => sent is Err,
            StopAnswer::Exited(exited) => !exited,
            StopAnswer::Joined(joined) => joined is Err,
            StopAnswer::Updated(updated) => updated is Err,
        },
{
}

/// A machine at hand that runs is watched, as the process that it runs as, and
/// the next one comes to hand; one that is not running is started, and watched
/// where that gave it a process; one that cannot be attached to or started is
/// passed over, and the manager stays as it is.
pub proof fn law_running_machines_are_watched(
    run: WatchModel,
    manager: ManagerModel,
    pid: u32,
    err: SpawnError,
)
    requires
        0 <= run.at < run.pending.len(),
        manager.vms.dom().contains(run.pending[run.at]),
    ensures
        ({
            let id = run.pending[run.at];
            let runs = run.after(Ok(Some(pid)));
            let watched = run.applied(manager, Ok(Some(pid)));
            let idle = run.after(Ok(None));
            let skipped = run.after(Err(err));
            &&& runs.at == run.at + 1
            &&& runs.phase is Attach
            &&& runs.started == run.started.push(id)
            &&& runs.pending == run.pending
            &&& watched.watched == manager.watched.insert(id)
            &&& watched.vms[id].pid == pid
            &&& watched.vms[id].qemu == manager.vms[id].qemu
            &&& watched.vms.dom() == manager.vms.dom()
            &&& forall|other: FxIdModel|
                other != id ==> #[trigger] watched.vms[other] == manager.vms[other]
            &&& run.phase is Attach ==> idle == (WatchModel { phase: WatchPhase::Start, ..run })
            &&& run.phase is Start ==> idle == skipped
            &&& skipped == (WatchModel { at: run.at + 1, phase: WatchPhase::Attach, ..run })
            &&& run.applied(manager, Ok(None)) == manager
            &&& run.applied(manager, Err(err)) == manager
        }),
{
    let watched = run.applied(manager, Ok(Some(pid)));
    assert(watched.vms.dom() =~= manager.vms.dom());
}

/// The status that QEMU reported is kept for the machine asked for, and for no
/// other; one that could not be read counts as an I/O error of a machine that
/// does not run.
pub proof fn law_reported_status_is_kept(
    manager: ManagerModel,
    id: FxIdModel,
    status: StatusInfo,
    message: String,
)
    requires
        manager.vms.dom().contains(id),
    ensures
        ({
            let kept = with_status(manager, id, kept_status(Ok(status)));
            let lost = with_status(manager, id, kept_status(Err(message)));
            &&& kept.vms[id].qemu.status == status
            &&& lost.vms[id].qemu.status == (StatusInfo {
                running: false,
                status: RunState::IoError,
            })
            &&& kept.vms[id].pid == manager.vms[id].pid
            &&& kept.vms[id].qemu == (InstanceModel { status, ..manager.vms[id].qemu })
            &&& kept.vms.dom() == manager.vms.dom()
            &&& kept.watched == manager.watched
            &&& forall|other: FxIdModel|
                other != id ==> #[trigger] kept.vms[other] == manager.vms[other]
        }),
{
    assert(with_status(manager, id, kept_status(Ok(status))).vms.dom() =~= manager.vms.dom());
}

/// What a status or a watcher is told of a machine that is not managed changes
/// nothing.
pub proof fn law_unmanaged_machine_stays_so(
    manager: ManagerModel,
    id: FxIdModel,
    status: StatusInfo,
    pid: u32,
)
    requires
        !manager.vms.dom().contains(id),
    ensures
        with_status(manager, id, status) == manager,
        with_watcher(manager, id, pid) == manager,
{
}

/// An entry of the runtime root adds the machine that its name is the identifier
/// of, where the entry is a directory and the machine is found running; what is
/// found is told, and managed as the process that it is found as.
pub proof fn law_running_entry_is_discovered(
    d: Discovery,
    machine: MachineModel,
    host: HostFacts,
    entry: RuntimeEntry,
)
    requires
        d.failure is None,
    ensures
        ({
            let next = d.after(machine, host, Ok(entry));
            let sys = d.manager.system_configuration;
            &&& !entry.is_dir || entry.name is None ==> next == d
            &&& entry.is_dir && entry.name is Some ==> {
                let id = fx_id_of(entry.name->0@);
                match machine_result(sys, machine, id, host) {
                    Err(err) => next == (Discovery { failure: Some(err), ..d }),
                    Ok(command) => match entry.runtime_pid {
                        None => next == d,
                        Some(pid) => {
                            &&& next.found == d.found.push((id, pid))
                            &&& next.failure is None
                            &&& next.manager.vms.dom() == d.manager.vms.dom().insert(id)
                            &&& next.manager.vms[id].pid == pid
                            &&& next.manager.vms[id].qemu.fx_id == id
                            &&& next.manager.vms[id].qemu.machine_configuration == machine
                            &&& next.manager.vms[id].qemu.qemu == command
                            &&& next.manager.watched == d.manager.watched
                        },
                    },
                }
            }
        }),
{
    let next = d.after(machine, host, Ok(entry));
    if entry.is_dir && entry.name is Some {
        let id = fx_id_of(entry.name->0@);
        assert(next.found.len() > d.found.len() ==> next.manager.vms.dom()
            =~= d.manager.vms.dom().insert(id));
    }
}

/// An entry that cannot be read ends a discovery with its error, and after the
/// first failure nothing changes.
pub proof fn law_failed_entry_ends_discovery(
    d: Discovery,
    machine: MachineModel,
    host: HostFacts,
    err: IoError,
    entry: Result<RuntimeEntry, IoError>,
)
    ensures
        d.failure is None ==> d.after(machine, host, Err(err)) == (Discovery {
            failure: Some(CreateErrorModel::Other(CreateError::Io(err))),
            ..d
        }),
        d.failure is Some ==> d.after(machine, host, entry) == d,
{
}

/// A state names the process of a machine that runs or is paused, and no other.
pub proof fn law_state_pids(state: StateModel, pid: u32)
    ensures
        state_pid(state) == Some(pid) <==> state == StateModel::Running(pid) || state
            == StateModel::Paused(pid),
{
}

/// A machine is managed exactly where an entry has its identifier, and where no
/// identifier stands twice it is that entry that counts.
pub proof fn law_managed_by_id(list: Seq<(FxIdModel, RunningModel)>, id: FxIdModel)
    ensures
        by_id(list).dom().contains(id) <==> exists|i: int|
            0 <= i < list.len() && (#[trigger] list[i]).0 == id,
        unique(list) ==> forall|i: int|
            0 <= i < list.len() ==> by_id(list)[(#[trigger] list[i]).0] == list[i].1,
{
    lemma_place(list, id);
    if exists|i: int| 0 <= i < list.len() && (#[trigger] list[i]).0 == id {
        let i = choose|i: int| 0 <= i < list.len() && (#[trigger] list[i]).0 == id;
        if place(list, id) == list.len() {
            assert(list[i].0 != id);
        }
    }
    if unique(list) {
        assert forall|i: int| 0 <= i < list.len() implies by_id(list)[(#[trigger] list[i]).0]
            == list[i].1 by {
            lemma_place_is(list, list[i].0, i);
        }
    }
}

/// A machine may take half a minute to stop and is looked at ten times a second.
pub proof fn law_stop_time_limits()
    ensures
        QEMU_STOP_WAIT_TIMEOUT == 30 * 1000,
        10 * QEMU_STOP_POLL_INTERVAL == 1000,
{
}

/// The rows of a manager are seen item by item.
pub proof fn law_manager_rows(
    vms: Seq<(FxId, QemuRunningInstance)>,
    row: Seq<FxId>,
    found: Seq<(FxId, u32)>,
    i: int,
)
    ensures
        entries(vms).len() == vms.len(),
        0 <= i < vms.len() ==> entries(vms)[i] == (vms[i].0@, vms[i].1@),
        ids(row).len() == row.len(),
        0 <= i < row.len() ==> ids(row)[i] == row[i]@,
        found_models(found).len() == found.len(),
        0 <= i < found.len() ==> found_models(found)[i] == (found[i].0@, found[i].1),
{
}

/// The entry of the runtime root that a directory with a readable name is
/// belongs to the machine with that name as its identifier; no other does.
pub proof fn law_runtime_entries(entry: RuntimeEntry)
    ensures
        entry_id(entry) is Some <==> entry.is_dir && entry.name is Some,
        entry_id(entry) is Some ==> entry_id(entry)->0 == fx_id_of(entry.name->0@),
{
}

} // verus!
