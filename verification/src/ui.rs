//! The debugger session as the front end holds it: the engine together
//! with the storage inspector.
//!
//! The interactive loop itself — reading lines, printing tables — is not
//! part of the core; it parses each line with
//! [`crate::command::parse_command`] and dispatches on the result.

use vstd::prelude::*;
use crate::engine::DebuggerEngine;
use crate::engine::EngineError;
use crate::storage::StorageInspector;

verus! {

/// One debug session: the engine and the storage snapshot the front end
/// renders.
pub struct DebuggerUI {
    engine: DebuggerEngine,
    storage_inspector: StorageInspector,
}

impl DebuggerUI {
    /// The engine of this session.
    pub closed spec fn spec_engine(&self) -> DebuggerEngine {
        self.engine
    }

    /// The storage snapshot of this session.
    pub closed spec fn spec_storage(&self) -> StorageInspector {
        self.storage_inspector
    }

    /// Session invariant: both parts are well formed.
    pub open spec fn wf(&self) -> bool {
        self.spec_engine().wf() && self.spec_storage().wf()
    }

    /// A session around the given engine, with an empty storage snapshot.
    pub fn new(engine: DebuggerEngine) -> (r: Result<DebuggerUI, EngineError>)
        requires
            engine.wf(),
        ensures
            r matches Ok(ui) && ui.wf() && ui.spec_engine() == engine && ui.spec_storage()@
                =~= Map::<Seq<char>, Seq<char>>::empty(),
    {
        Ok(DebuggerUI { engine, storage_inspector: StorageInspector::new() })
    }

    /// Mutable access to the storage inspector, e.g. to refresh the
    /// snapshot from the host.
    pub fn storage_inspector_mut(&mut self) -> (r: &mut StorageInspector)
        ensures
            *r == old(self).spec_storage(),
            final(self).spec_storage() == *final(r),
            final(self).spec_engine() == old(self).spec_engine(),
            old(self).wf() && (*final(r)).wf() ==> final(self).wf(),
    {
        &mut self.storage_inspector
    }

    /// Read-only access to the storage inspector, for display.
    pub fn storage_inspector(&self) -> (r: &StorageInspector)
        ensures
            *r == self.spec_storage(),
    {
        &self.storage_inspector
    }

    /// The engine, for inspection commands.
    pub fn engine(&self) -> (r: &DebuggerEngine)
        ensures
            *r == self.spec_engine(),
    {
        &self.engine
    }

    /// Mutable access to the engine, for run, step, continue and
    /// breakpoint commands.
    pub fn engine_mut(&mut self) -> (r: &mut DebuggerEngine)
        ensures
            *r == old(self).spec_engine(),
            final(self).spec_engine() == *final(r),
            final(self).spec_storage() == old(self).spec_storage(),
            old(self).wf() && (*final(r)).wf() ==> final(self).wf(),
    {
        &mut self.engine
    }
}

} // verus!
