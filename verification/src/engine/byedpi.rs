//! ByeDpiEngine: state of the ByeDPI (ciadpi) engine.

use vstd::prelude::*;
use crate::engine::traits::{EngineStatus, EngineProfile};

verus! {

/// The ByeDPI engine. Its status is kept as a status code: 0 stopped,
/// 1 starting, 2 running, 3 failed, 4 crashed.
pub struct ByeDpiEngine {
    engine_dir: String,
    status: u8,
}

/// The status a ByeDPI status code reads as: 0 stopped, 2 running, 3 failed,
/// and stopped for every other code.
pub open spec fn byedpi_status_of(code: u8) -> EngineStatus {
    if code == 2 {
        EngineStatus::Running
    } else if code == 3 {
        EngineStatus::Failed
    } else {
        EngineStatus::Stopped
    }
}

impl ByeDpiEngine {
    pub fn new(engine_dir: String) -> (r: Self)
        ensures
            r.spec_status() == EngineStatus::Stopped,
            r.engine_dir() == engine_dir,
    {
        ByeDpiEngine { engine_dir, status: 0 }
    }

    pub closed spec fn spec_status(&self) -> EngineStatus {
        byedpi_status_of(self.status)
    }

    pub closed spec fn engine_dir(&self) -> String {
        self.engine_dir
    }

    /// The engine type: ByeDPI.
    pub fn engine_type(&self) -> (r: crate::engine::traits::DpiEngineType)
        ensures
            r == crate::engine::traits::DpiEngineType::ByeDpi,
    {
        crate::engine::traits::DpiEngineType::ByeDpi
    }

    /// The display name: "ByeDPI".
    pub fn display_name(&self) -> (r: &'static str)
        ensures
            r@ == "ByeDPI"@,
    {
        "ByeDPI"
    }

    /// The current status.
    pub fn status(&self) -> (r: EngineStatus)
        ensures
            r == self.spec_status(),
    {
        if self.status == 0 {
            EngineStatus::Stopped
        } else if self.status == 2 {
            EngineStatus::Running
        } else if self.status == 3 {
            EngineStatus::Failed
        } else {
            EngineStatus::Stopped
        }
    }

    /// Starts the engine: it is running afterwards.
    pub fn start(&mut self, _profile: &EngineProfile) -> (r: Result<(), crate::engine::traits::EngineError>)
        ensures
            r is Ok,
            final(self).spec_status() == EngineStatus::Running,
            final(self).engine_dir() == old(self).engine_dir(),
    {
        self.status = 2;
        Ok(())
    }

    /// Stops the engine: it is stopped afterwards.
    pub fn stop(&mut self) -> (r: Result<(), crate::engine::traits::EngineError>)
        ensures
            r is Ok,
            final(self).spec_status() == EngineStatus::Stopped,
            final(self).engine_dir() == old(self).engine_dir(),
    {
        self.status = 0;
        Ok(())
    }

    /// Probes the engine: reports the current status.
    pub fn probe(&mut self) -> (r: EngineStatus)
        ensures
            r == old(self).spec_status(),
            *final(self) == *old(self),
    {
        self.status()
    }
}

} // verus!
