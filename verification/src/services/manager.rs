//! DpiEngineManager: the registry of managed engines, their states and the
//! active engine.

use vstd::prelude::*;

verus! {

/// The kind of a managed engine.
#[derive(Debug, Clone, Copy, PartialEq, Eq, Hash, Structural)]
pub enum ManagedEngineType {
    Zapret,
    ByeDpi,
    Warp,
    Hybrid,
    Chained,
    NoEngine,
}

pub open spec fn managed_type_name(t: ManagedEngineType) -> Seq<char> {
    match t {
        ManagedEngineType::Zapret => "zapret"@,
        ManagedEngineType::ByeDpi => "byedpi"@,
        ManagedEngineType::Warp => "warp"@,
        ManagedEngineType::Hybrid => "hybrid"@,
        ManagedEngineType::Chained => "chained"@,
        ManagedEngineType::NoEngine => "none"@,
    }
}

/// The variant name of a managed engine type, as `{:?}` writes it.
pub open spec fn managed_type_debug(t: ManagedEngineType) -> Seq<char> {
    match t {
        ManagedEngineType::Zapret => "Zapret"@,
        ManagedEngineType::ByeDpi => "ByeDpi"@,
        ManagedEngineType::Warp => "Warp"@,
        ManagedEngineType::Hybrid => "Hybrid"@,
        ManagedEngineType::Chained => "Chained"@,
        ManagedEngineType::NoEngine => "None"@,
    }
}

impl ManagedEngineType {
    pub fn as_str(&self) -> (r: &'static str)
        ensures
            r@ == managed_type_name(*self),
    {
        match self {
            ManagedEngineType::Zapret => "zapret",
            ManagedEngineType::ByeDpi => "byedpi",
            ManagedEngineType::Warp => "warp",
            ManagedEngineType::Hybrid => "hybrid",
            ManagedEngineType::Chained => "chained",
            ManagedEngineType::NoEngine => "none",
        }
    }

    fn debug_name(&self) -> (r: &'static str)
        ensures
            r@ == managed_type_debug(*self),
    {
        match self {
            ManagedEngineType::Zapret => "Zapret",
            ManagedEngineType::ByeDpi => "ByeDpi",
            ManagedEngineType::Warp => "Warp",
            ManagedEngineType::Hybrid => "Hybrid",
            ManagedEngineType::Chained => "Chained",
            ManagedEngineType::NoEngine => "None",
        }
    }
}

/// The state of a managed engine.
#[derive(Debug, Clone, Copy, PartialEq, Eq, Structural)]
pub enum EngineStatus {
    Stopped,
    Starting,
    Running,
    Failed,
    Crashed,
}

/// Manager settings.
#[derive(Debug, Clone, Copy, PartialEq, Eq, Structural)]
pub struct ManagerConfig {
    pub auto_restart: bool,
    pub max_restart_attempts: u32,
    pub probe_on_start: bool,
}

impl Default for ManagerConfig {
    /// Restarts on, at most three attempts, probing on start.
    fn default() -> (r: Self)
        ensures
            r == (ManagerConfig { auto_restart: true, max_restart_attempts: 3, probe_on_start: true }),
    {
        ManagerConfig { auto_restart: true, max_restart_attempts: 3, probe_on_start: true }
    }
}

/// One managed engine, as the contracts see it.
pub struct EntryView {
    pub engine_type: ManagedEngineType,
    pub status: EngineStatus,
    pub restart_count: u32,
    pub display_name: Seq<char>,
}

struct EngineEntry {
    engine_type: ManagedEngineType,
    status: EngineStatus,
    restart_count: u32,
    display_name: String,
}

impl EngineEntry {
    spec fn view(&self) -> EntryView {
        EntryView {
            engine_type: self.engine_type,
            status: self.status,
            restart_count: self.restart_count,
            display_name: self.display_name@,
        }
    }
}

/// Whether an engine of type `t` is in the list.
pub open spec fn is_registered(s: Seq<EntryView>, t: ManagedEngineType) -> bool {
    exists|i: int| 0 <= i < s.len() && #[trigger] s[i].engine_type == t
}

/// The position of the engine of type `t` in the list (meaningful when it
/// is registered).
pub open spec fn entry_index(s: Seq<EntryView>, t: ManagedEngineType) -> int {
    choose|i: int| 0 <= i < s.len() && #[trigger] s[i].engine_type == t
}

/// No engine type occurs twice.
pub open spec fn types_unique(s: Seq<EntryView>) -> bool {
    forall|i: int, j: int|
        0 <= i < s.len() && 0 <= j < s.len() && i != j ==> #[trigger] s[i].engine_type
            != #[trigger] s[j].engine_type
}

/// The status of engine `t`, if registered.
pub open spec fn status_in(s: Seq<EntryView>, t: ManagedEngineType) -> Option<EngineStatus> {
    if is_registered(s, t) {
        Some(s[entry_index(s, t)].status)
    } else {
        None
    }
}

/// The message for an engine type that was never registered.
pub open spec fn not_registered_message(t: ManagedEngineType) -> Seq<char> {
    "engine "@ + managed_type_debug(t) + " not registered"@
}

/// The manager of the DPI engines.
pub struct DpiEngineManager {
    config: ManagerConfig,
    engines: Vec<EngineEntry>,
    active_profile: Option<ManagedEngineType>,
}

impl DpiEngineManager {
    /// The engines in registration order.
    pub closed spec fn entries(&self) -> Seq<EntryView> {
        self.engines@.map_values(|e: EngineEntry| e.view())
    }

    /// The engine last started and not stopped since.
    pub closed spec fn active(&self) -> Option<ManagedEngineType> {
        self.active_profile
    }

    pub closed spec fn spec_config(&self) -> ManagerConfig {
        self.config
    }

    /// Each engine type is registered at most once.
    pub open spec fn wf(&self) -> bool {
        types_unique(self.entries())
    }

    pub fn new(config: ManagerConfig) -> (r: Self)
        ensures
            r.wf(),
            r.entries() == Seq::<EntryView>::empty(),
            r.active() is None,
            r.spec_config() == config,
    {
        let r = DpiEngineManager { config, engines: Vec::new(), active_profile: None };
        assert(r.entries() =~= Seq::<EntryView>::empty());
        r
    }

    fn find(&self, t: ManagedEngineType) -> (r: Option<usize>)
        requires
            self.wf(),
        ensures
            r is None <==> !is_registered(self.entries(), t),
            r matches Some(i) ==> i < self.entries().len() && i == entry_index(self.entries(), t),
    {
        let mut i: usize = 0;
        while i < self.engines.len()
            invariant
                i <= self.engines.len(),
                self.wf(),
                self.entries().len() == self.engines.len(),
                forall|k: int| 0 <= k < i ==> #[trigger] self.entries()[k].engine_type != t,
            decreases self.engines.len() - i,
        {
            if self.engines[i].engine_type == t {
                proof {
                    assert(self.entries()[i as int].engine_type == t);
                    assert(is_registered(self.entries(), t));
                    let j = entry_index(self.entries(), t);
                    assert(self.entries()[j].engine_type == t);
                    if j != i as int {
                        assert(self.entries()[j].engine_type != self.entries()[i as int].engine_type);
                    }
                }
                return Some(i);
            }
            assert(self.entries()[i as int].engine_type != t);
            i = i + 1;
        }
        None
    }

    /// Registers an engine; a type already registered is left as it is.
    pub fn register(&mut self, engine_type: ManagedEngineType, display_name: &str)
        requires
            old(self).wf(),
        ensures
            final(self).wf(),
            final(self).active() == old(self).active(),
            final(self).spec_config() == old(self).spec_config(),
            is_registered(old(self).entries(), engine_type) ==> final(self).entries()
                == old(self).entries(),
            !is_registered(old(self).entries(), engine_type) ==> final(self).entries()
                == old(self).entries().push(
                EntryView {
                    engine_type,
                    status: EngineStatus::Stopped,
                    restart_count: 0,
                    display_name: display_name@,
                },
            ),
    {
        if self.find(engine_type).is_none() {
            let e = EngineEntry {
                engine_type,
                status: EngineStatus::Stopped,
                restart_count: 0,
                display_name: String::from_str(display_name),
            };
            let ghost before = self.entries();
            self.engines.push(e);
            assert(self.entries() =~= before.push(e.view()));
        }
    }

    fn replace_status(&mut self, i: usize, status: EngineStatus, reset_restarts: bool)
        requires
            i < old(self).entries().len(),
        ensures
            final(self).entries() == old(self).entries().update(
                i as int,
                EntryView {
                    status,
                    restart_count: if reset_restarts {
                        0
                    } else {
                        old(self).entries()[i as int].restart_count
                    },
                    ..old(self).entries()[i as int]
                },
            ),
            final(self).active() == old(self).active(),
            final(self).spec_config() == old(self).spec_config(),
    {
        let old_entry = &self.engines[i];
        let e = EngineEntry {
            engine_type: old_entry.engine_type,
            status,
            restart_count: if reset_restarts { 0 } else { old_entry.restart_count },
            display_name: old_entry.display_name.clone(),
        };
        let ghost before = self.entries();
        self.engines.set(i, e);
        assert(self.entries() =~= before.update(i as int, e.view()));
    }

    /// Starts engine `engine_type`: it is then running with its restart count
    /// reset, and becomes the active engine. Fails when it is not registered
    /// or already running, and then changes nothing.
    pub fn start(&mut self, engine_type: ManagedEngineType) -> (r: Result<(), String>)
        requires
            old(self).wf(),
        ensures
            final(self).wf(),
            final(self).spec_config() == old(self).spec_config(),
            !is_registered(old(self).entries(), engine_type) ==> (r matches Err(m) && m@ == not_registered_message(engine_type))
                && *final(self) == *old(self),
            status_in(old(self).entries(), engine_type) == Some(EngineStatus::Running) ==> (r matches Err(m)
                && m@ == "already running"@) && *final(self) == *old(self),
            is_registered(old(self).entries(), engine_type) && status_in(
                old(self).entries(),
                engine_type,
            ) != Some(EngineStatus::Running) ==> {
                let i = entry_index(old(self).entries(), engine_type);
                &&& r is Ok
                &&& final(self).entries() == old(self).entries().update(
                    i,
                    EntryView {
                        status: EngineStatus::Running,
                        restart_count: 0,
                        ..old(self).entries()[i]
                    },
                )
                &&& final(self).active() == Some(engine_type)
            },
    {
        match self.find(engine_type) {
            Some(i) => {
                if self.engines[i].status == EngineStatus::Running {
                    return Err(String::from_str("already running"));
                }
                self.replace_status(i, EngineStatus::Running, true);
                self.active_profile = Some(engine_type);
                proof {
                    let s = self.entries();
                    assert forall|a: int, b: int|
                        0 <= a < s.len() && 0 <= b < s.len() && a != b implies #[trigger] s[a].engine_type
                        != #[trigger] s[b].engine_type by {
                        assert(s[a].engine_type == old(self).entries()[a].engine_type);
                        assert(s[b].engine_type == old(self).entries()[b].engine_type);
                    }
                }
                Ok(())
            },
            None => Err(not_registered(engine_type)),
        }
    }

    /// Stops engine `engine_type`; if it was the active engine, no engine is
    /// active afterwards. Fails when it is not registered, and then changes
    /// nothing.
    pub fn stop(&mut self, engine_type: ManagedEngineType) -> (r: Result<(), String>)
        requires
            old(self).wf(),
        ensures
            final(self).wf(),
            final(self).spec_config() == old(self).spec_config(),
            !is_registered(old(self).entries(), engine_type) ==> (r matches Err(m) && m@ == not_registered_message(engine_type))
                && *final(self) == *old(self),
            is_registered(old(self).entries(), engine_type) ==> {
                let i = entry_index(old(self).entries(), engine_type);
                &&& r is Ok
                &&& final(self).entries() == old(self).entries().update(
                    i,
                    EntryView { status: EngineStatus::Stopped, ..old(self).entries()[i] },
                )
                &&& final(self).active() == if old(self).active() == Some(engine_type) {
                    None
                } else {
                    old(self).active()
                }
            },
    {
        match self.find(engine_type) {
            Some(i) => {
                self.replace_status(i, EngineStatus::Stopped, false);
                if self.active_profile == Some(engine_type) {
                    self.active_profile = None;
                }
                proof {
                    let s = self.entries();
                    assert forall|a: int, b: int|
                        0 <= a < s.len() && 0 <= b < s.len() && a != b implies #[trigger] s[a].engine_type
                        != #[trigger] s[b].engine_type by {
                        assert(s[a].engine_type == old(self).entries()[a].engine_type);
                        assert(s[b].engine_type == old(self).entries()[b].engine_type);
                    }
                }
                Ok(())
            },
            None => Err(not_registered(engine_type)),
        }
    }

    /// The status of engine `engine_type`, if registered.
    pub fn status(&self, engine_type: ManagedEngineType) -> (r: Option<EngineStatus>)
        requires
            self.wf(),
        ensures
            r == status_in(self.entries(), engine_type),
    {
        match self.find(engine_type) {
            Some(i) => Some(self.engines[i].status),
            None => None,
        }
    }

    /// The active engine.
    pub fn active_engine(&self) -> (r: Option<ManagedEngineType>)
        ensures
            r == self.active(),
    {
        self.active_profile
    }

    /// The registered engines with their states and names, in registration
    /// order.
    pub fn list_engines(&self) -> (r: Vec<(ManagedEngineType, EngineStatus, String)>)
        ensures
            r@.len() == self.entries().len(),
            forall|i: int|
                0 <= i < r@.len() ==> {
                    let e = #[trigger] self.entries()[i];
                    r@[i].0 == e.engine_type && r@[i].1 == e.status && r@[i].2@ == e.display_name
                },
    {
        let mut out: Vec<(ManagedEngineType, EngineStatus, String)> = Vec::new();
        let mut i: usize = 0;
        while i < self.engines.len()
            invariant
                i <= self.engines.len(),
                self.entries().len() == self.engines.len(),
                out@.len() == i,
                forall|k: int|
                    0 <= k < i ==> {
                        let e = #[trigger] self.entries()[k];
                        out@[k].0 == e.engine_type && out@[k].1 == e.status && out@[k].2@
                            == e.display_name
                    },
            decreases self.engines.len() - i,
        {
            let e = &self.engines[i];
            out.push((e.engine_type, e.status, e.display_name.clone()));
            assert(self.entries()[i as int] == e.view());
            i = i + 1;
        }
        out
    }
}

fn not_registered(t: ManagedEngineType) -> (r: String)
    ensures
        r@ == not_registered_message(t),
{
    let mut s = String::from_str("engine ");
    s.append(t.debug_name());
    s.append(" not registered");
    s
}

/// A stopped engine can always be started, and starting it twice in a row
/// fails the second time with "already running"; stopping the active engine
/// leaves no engine active.
pub proof fn start_stop_cycle(s: Seq<EntryView>, t: ManagedEngineType)
    requires
        types_unique(s),
        is_registered(s, t),
    ensures
        ({
            let i = entry_index(s, t);
            let started = s.update(i, EntryView { status: EngineStatus::Running, restart_count: 0, ..s[i] });
            &&& types_unique(started)
            &&& is_registered(started, t)
            &&& status_in(started, t) == Some(EngineStatus::Running)
            &&& {
                let stopped = started.update(
                    entry_index(started, t),
                    EntryView { status: EngineStatus::Stopped, ..started[entry_index(started, t)] },
                );
                status_in(stopped, t) == Some(EngineStatus::Stopped)
            }
        }),
{
    let i = entry_index(s, t);
    let started = s.update(i, EntryView { status: EngineStatus::Running, restart_count: 0, ..s[i] });
    assert(started[i].engine_type == t);
    assert(is_registered(started, t));
    let j = entry_index(started, t);
    assert(j == i) by {
        if j != i {
            assert(started[j].engine_type == s[j].engine_type);
        }
    }
    let stopped = started.update(j, EntryView { status: EngineStatus::Stopped, ..started[j] });
    assert(stopped[j].engine_type == t);
    assert(is_registered(stopped, t));
    let k = entry_index(stopped, t);
    assert(k == j) by {
        if k != j {
            assert(stopped[k].engine_type == s[k].engine_type);
        }
    }
}

} // verus!
