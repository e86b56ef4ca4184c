//! ZapretEngine: the state of the Zapret engine (winws.exe / zapret) and
//! its decisions around the engine process. Spawning, killing and polling
//! the process is done by the caller, which reports the outcome back.

use vstd::prelude::*;
use crate::engine::args::texts;
use crate::engine::traits::{DpiEngineType, EngineError, EngineEvent, EngineProcessInfo, EngineProfile, EngineStatus, zapret_args};

verus! {

/// The platform the engine runs on.
#[derive(Debug, Clone, Copy, PartialEq, Eq, Structural)]
pub enum Platform {
    Windows,
    Linux,
    Android,
}

/// The Zapret executable of a platform.
pub open spec fn binary_name_of(p: Platform) -> Seq<char> {
    match p {
        Platform::Windows => "winws.exe"@,
        Platform::Linux => "zapret"@,
        Platform::Android => "libzapret.so"@,
    }
}

/// The Zapret executable of a platform.
pub fn binary_name(p: Platform) -> (r: &'static str)
    ensures
        r@ == binary_name_of(p),
{
    match p {
        Platform::Windows => "winws.exe",
        Platform::Linux => "zapret",
        Platform::Android => "libzapret.so",
    }
}

/// Where the executable lies: under `bin/` of the engine directory on
/// Windows, in the engine directory elsewhere.
pub open spec fn exec_path_of(dir: Seq<char>, p: Platform) -> Seq<char> {
    if p == Platform::Windows {
        dir + "/bin/"@ + binary_name_of(p)
    } else {
        dir + "/"@ + binary_name_of(p)
    }
}

/// How the engine process was found when polled.
#[derive(Debug, Clone, Copy, PartialEq, Eq, Structural)]
pub enum ProcessWait {
    /// It has exited.
    Exited,
    /// It still runs.
    StillRunning,
    /// Polling failed.
    WaitFailed,
}

/// The Zapret engine.
pub struct ZapretEngine {
    engine_dir: String,
    platform: Platform,
    status: EngineStatus,
    has_process: bool,
    process_info: Option<EngineProcessInfo>,
    events: Vec<EngineStatus>,
}

impl ZapretEngine {
    pub closed spec fn spec_status(&self) -> EngineStatus {
        self.status
    }

    /// Whether an engine process is held.
    pub closed spec fn spec_has_process(&self) -> bool {
        self.has_process
    }

    pub closed spec fn spec_dir(&self) -> Seq<char> {
        self.engine_dir@
    }

    pub closed spec fn spec_platform(&self) -> Platform {
        self.platform
    }

    /// The status changes not yet handed out, oldest first.
    pub closed spec fn spec_events(&self) -> Seq<EngineStatus> {
        self.events@
    }

    /// The record of the running process, if any.
    pub closed spec fn spec_info(&self) -> Option<EngineProcessInfo> {
        self.process_info
    }

    /// The engine, stopped, holding no process.
    pub fn new(engine_dir: String, platform: Platform) -> (r: Self)
        ensures
            r.spec_status() == EngineStatus::Stopped,
            !r.spec_has_process(),
            r.spec_info() is None,
            r.spec_dir() == engine_dir@,
            r.spec_platform() == platform,
            r.spec_events() == Seq::<EngineStatus>::empty(),
    {
        ZapretEngine { engine_dir, platform, status: EngineStatus::Stopped, has_process: false, process_info: None, events: Vec::new() }
    }

    fn set_status(&mut self, s: EngineStatus)
        ensures
            final(self).spec_status() == s,
            final(self).spec_events() == old(self).spec_events().push(s),
            final(self).spec_has_process() == old(self).spec_has_process(),
            final(self).spec_info() == old(self).spec_info(),
            final(self).spec_dir() == old(self).spec_dir(),
            final(self).spec_platform() == old(self).spec_platform(),
    {
        self.status = s;
        self.events.push(s);
    }

    /// The engine type: Zapret.
    pub fn engine_type(&self) -> (r: DpiEngineType)
        ensures
            r == DpiEngineType::Zapret,
    {
        DpiEngineType::Zapret
    }

    /// The display name: "Zapret".
    pub fn display_name(&self) -> (r: &'static str)
        ensures
            r@ == "Zapret"@,
    {
        "Zapret"
    }

    /// The current status.
    pub fn status(&self) -> (r: EngineStatus)
        ensures
            r == self.spec_status(),
    {
        self.status
    }

    /// Whether an engine process is held (to be killed on stop).
    pub fn has_process(&self) -> (r: bool)
        ensures
            r == self.spec_has_process(),
    {
        self.has_process
    }

    /// The record of the running process.
    pub fn process_info(&self) -> (r: Option<EngineProcessInfo>)
        ensures
            r is Some <==> self.spec_info() is Some,
            r matches Some(i) ==> (self.spec_info() matches Some(j) && i.pid == j.pid && i.process_name@
                == j.process_name@ && i.status == j.status && i.started_at == j.started_at && i.socks_port
                == j.socks_port),
    {
        match &self.process_info {
            Some(i) => Some(EngineProcessInfo {
                pid: i.pid,
                process_name: i.process_name.clone(),
                status: i.status,
                started_at: i.started_at,
                socks_port: i.socks_port,
            }),
            None => None,
        }
    }

    /// Hands out the status changes since the last call, oldest first.
    pub fn take_events(&mut self) -> (r: Vec<EngineEvent>)
        ensures
            r@.len() == old(self).spec_events().len(),
            forall|i: int| 0 <= i < r@.len() ==> #[trigger] r@[i] == EngineEvent::StatusChanged(old(self).spec_events()[i]),
            final(self).spec_events() == Seq::<EngineStatus>::empty(),
            final(self).spec_status() == old(self).spec_status(),
            final(self).spec_has_process() == old(self).spec_has_process(),
            final(self).spec_info() == old(self).spec_info(),
    {
        let mut out: Vec<EngineEvent> = Vec::new();
        let mut i: usize = 0;
        while i < self.events.len()
            invariant
                i <= self.events@.len(),
                out@.len() == i,
                forall|k: int| 0 <= k < i ==> #[trigger] out@[k] == EngineEvent::StatusChanged(self.events@[k]),
            decreases self.events@.len() - i,
        {
            out.push(EngineEvent::StatusChanged(self.events[i]));
            i = i + 1;
        }
        self.events = Vec::new();
        out
    }

    /// The first half of a start: refused while the engine is starting or
    /// running; otherwise the engine is starting, and the executable's path
    /// and the profile's Zapret arguments are handed back for the spawn.
    pub fn begin_start(&mut self, profile: &EngineProfile) -> (r: Result<(String, Vec<String>), EngineError>)
        ensures
            old(self).spec_status() == EngineStatus::Starting || old(self).spec_status() == EngineStatus::Running
                ==> r == Err::<(String, Vec<String>), EngineError>(EngineError::AlreadyRunning) && *final(self) == *old(self),
            !(old(self).spec_status() == EngineStatus::Starting || old(self).spec_status() == EngineStatus::Running)
                ==> (r matches Ok((path, args)) && path@ == exec_path_of(old(self).spec_dir(), old(self).spec_platform())
                && texts(args@) == zapret_args(*profile) && final(self).spec_status() == EngineStatus::Starting
                && final(self).spec_events() == old(self).spec_events().push(EngineStatus::Starting)
                && final(self).spec_has_process() == old(self).spec_has_process()
                && final(self).spec_info() == old(self).spec_info()
                && final(self).spec_dir() == old(self).spec_dir()
                && final(self).spec_platform() == old(self).spec_platform()),
    {
        if self.status.is_active() {
            return Err(EngineError::AlreadyRunning);
        }
        self.set_status(EngineStatus::Starting);
        let mut path = self.engine_dir.clone();
        if self.platform == Platform::Windows {
            path.append("/bin/");
        } else {
            path.append("/");
        }
        path.append(binary_name(self.platform));
        let args = profile.to_zapret_args();
        Ok((path, args))
    }

    /// The second half of a start: `spawned` is the process id of the new
    /// engine process, or the spawn error. The engine is then running with
    /// the process recorded, or failed with `StartFailed`.
    pub fn finish_start(&mut self, spawned: Result<u32, String>) -> (r: Result<(), EngineError>)
        ensures
            final(self).spec_dir() == old(self).spec_dir(),
            final(self).spec_platform() == old(self).spec_platform(),
            spawned matches Ok(pid) ==> r is Ok && final(self).spec_status() == EngineStatus::Running
                && final(self).spec_has_process() && final(self).spec_events() == old(self).spec_events().push(
                EngineStatus::Running,
            ) && (final(self).spec_info() matches Some(i) && i.pid == pid && i.process_name@ == binary_name_of(
                old(self).spec_platform(),
            ) && i.status == EngineStatus::Running && i.socks_port is None),
            spawned matches Err(e) ==> r == Err::<(), EngineError>(EngineError::StartFailed(e))
                && final(self).spec_status() == EngineStatus::Failed && final(self).spec_events()
                == old(self).spec_events().push(EngineStatus::Failed) && final(self).spec_has_process()
                == old(self).spec_has_process() && final(self).spec_info() == old(self).spec_info(),
    {
        match spawned {
            Ok(pid) => {
                let info = EngineProcessInfo::new(pid, binary_name(self.platform), None);
                self.has_process = true;
                self.process_info = Some(info);
                self.set_status(EngineStatus::Running);
                Ok(())
            },
            Err(e) => {
                self.set_status(EngineStatus::Failed);
                Err(EngineError::StartFailed(e))
            },
        }
    }

    /// Stops the engine (the caller has killed the process it held): no
    /// process is held any more and the engine is stopped. Stopping a
    /// stopped engine is no error.
    pub fn stop(&mut self) -> (r: Result<(), EngineError>)
        ensures
            r is Ok,
            final(self).spec_status() == EngineStatus::Stopped,
            !final(self).spec_has_process(),
            old(self).spec_has_process() ==> final(self).spec_info() is None,
            !old(self).spec_has_process() ==> final(self).spec_info() == old(self).spec_info(),
            final(self).spec_events() == old(self).spec_events().push(EngineStatus::Stopped),
            final(self).spec_dir() == old(self).spec_dir(),
            final(self).spec_platform() == old(self).spec_platform(),
    {
        if self.has_process {
            self.has_process = false;
            self.process_info = None;
        }
        self.set_status(EngineStatus::Stopped);
        Ok(())
    }

    /// Probes the engine. Without a process the status is reported as it
    /// is. With one, `wait` tells how polling found it: exited makes the
    /// engine crashed and drops the process; still running reports running;
    /// a failed poll makes the engine failed.
    pub fn probe(&mut self, wait: ProcessWait) -> (r: EngineStatus)
        ensures
            final(self).spec_dir() == old(self).spec_dir(),
            final(self).spec_platform() == old(self).spec_platform(),
            !old(self).spec_has_process() ==> r == old(self).spec_status() && *final(self) == *old(self),
            old(self).spec_has_process() && wait == ProcessWait::Exited ==> r == EngineStatus::Crashed
                && final(self).spec_status() == EngineStatus::Crashed && !final(self).spec_has_process()
                && final(self).spec_info() is None && final(self).spec_events() == old(self).spec_events().push(
                EngineStatus::Crashed,
            ),
            old(self).spec_has_process() && wait == ProcessWait::StillRunning ==> r == EngineStatus::Running
                && *final(self) == *old(self),
            old(self).spec_has_process() && wait == ProcessWait::WaitFailed ==> r == EngineStatus::Failed
                && final(self).spec_status() == EngineStatus::Failed && final(self).spec_has_process()
                && final(self).spec_info() == old(self).spec_info() && final(self).spec_events()
                == old(self).spec_events().push(EngineStatus::Failed),
    {
        if !self.has_process {
            return self.status;
        }
        match wait {
            ProcessWait::Exited => {
                self.has_process = false;
                self.process_info = None;
                self.set_status(EngineStatus::Crashed);
                EngineStatus::Crashed
            },
            ProcessWait::StillRunning => EngineStatus::Running,
            ProcessWait::WaitFailed => {
                self.set_status(EngineStatus::Failed);
                EngineStatus::Failed
            },
        }
    }
}

} // verus!
