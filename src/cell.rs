use vstd::prelude::*;
use crate::isolation::IsolationControls;
use crate::error::Code;
use crate::names::CellName;

verus! {

/// Settings of the CPU controller: a relative weight and a hard limit.
#[derive(Debug, Clone, Copy, PartialEq, Eq, Structural)]
pub struct CpuController {
    pub weight: Option<u64>,
    pub max: Option<i64>,
}

/// Settings of the cpuset controller: masks of the allowed CPUs and memory
/// nodes.
#[derive(Debug, Clone)]
pub struct CpusetController {
    pub cpus: Option<String>,
    pub mems: Option<String>,
}

/// The controllers written into a cell's cgroup; an absent one is inherited.
#[derive(Debug, Clone)]
pub struct CgroupSpec {
    pub cpu: Option<CpuController>,
    pub cpuset: Option<CpusetController>,
}

/// Everything a cell is built from besides its name.
#[derive(Debug, Clone)]
pub struct CellSpec {
    pub cgroup_spec: CgroupSpec,
    pub iso_ctl: IsolationControls,
}

impl CellSpec {
    /// A spec that inherits every controller and isolates nothing.
    pub fn new_for_tests() -> (r: CellSpec)
        ensures
            r.cgroup_spec.cpu is None,
            r.cgroup_spec.cpuset is None,
            !r.iso_ctl.isolate_process,
            !r.iso_ctl.isolate_network,
    {
        CellSpec {
            cgroup_spec: CgroupSpec { cpu: None, cpuset: None },
            iso_ctl: IsolationControls { isolate_process: false, isolate_network: false },
        }
    }
}

/// Where the nested agent of a cell listens.
#[derive(Debug, Clone)]
pub struct ClientConfig {
    /// The local domain socket of the nested agent.
    pub socket: String,
}

impl ClientConfig {
    pub fn copy(&self) -> (r: ClientConfig)
        ensures
            r.socket@ == self.socket@,
    {
        ClientConfig { socket: self.socket.clone() }
    }
}

/// The life of a cell: Unallocated, then Allocated, then Freed for good.
#[derive(Debug)]
pub enum CellState {
    Unallocated,
    Allocated { client_config: ClientConfig },
    Freed,
}

/// What the registry can report.
#[derive(Debug)]
pub enum CellsError {
    CellExists { cell_name: CellName },
    CellNotFound { cell_name: CellName },
    CellNotAllocated { cell_name: CellName },
    CgroupNotFound { cell_name: CellName },
    CgroupIsNotACell { cell_name: CellName },
    CgroupCreateFailed { cell_name: CellName },
    ControllerWriteFailed { cell_name: CellName, controller: String },
    IsolationFailed { cell_name: CellName, errno: i32 },
    /// The nested agent did not exit in time, or its cgroup could not be
    /// removed.
    FreeFailed { cell_name: CellName },
}

/// The name that an error is about.
pub open spec fn error_cell(e: CellsError) -> Seq<char> {
    match e {
        CellsError::CellExists { cell_name } => cell_name@,
        CellsError::CellNotFound { cell_name } => cell_name@,
        CellsError::CellNotAllocated { cell_name } => cell_name@,
        CellsError::CgroupNotFound { cell_name } => cell_name@,
        CellsError::CgroupIsNotACell { cell_name } => cell_name@,
        CellsError::CgroupCreateFailed { cell_name } => cell_name@,
        CellsError::ControllerWriteFailed { cell_name, .. } => cell_name@,
        CellsError::IsolationFailed { cell_name, .. } => cell_name@,
        CellsError::FreeFailed { cell_name } => cell_name@,
    }
}

impl CellsError {
    /// The status a caller sees: a taken name is `AlreadyExists`, an unknown
    /// cell or a vanished cgroup `NotFound`, a foreign cgroup or a cell that
    /// is not allocated `FailedPrecondition`, and a failure to build a cell
    /// `Internal`.
    pub fn code(&self) -> (r: Code)
        ensures
            r == (match *self {
                CellsError::CellExists { .. } => Code::AlreadyExists,
                CellsError::CellNotFound { .. } => Code::NotFound,
                CellsError::CgroupNotFound { .. } => Code::NotFound,
                CellsError::CgroupIsNotACell { .. } => Code::FailedPrecondition,
                CellsError::CellNotAllocated { .. } => Code::FailedPrecondition,
                _ => Code::Internal,
            }),
    {
        match self {
            CellsError::CellExists { .. } => Code::AlreadyExists,
            CellsError::CellNotFound { .. } => Code::NotFound,
            CellsError::CgroupNotFound { .. } => Code::NotFound,
            CellsError::CgroupIsNotACell { .. } => Code::FailedPrecondition,
            CellsError::CellNotAllocated { .. } => Code::FailedPrecondition,
            _ => Code::Internal,
        }
    }
}

/// One cgroup paired with one nested agent. The process and the cgroup
/// themselves are held by whoever drives the cell; the cell records which
/// state they are in and where the nested agent can be reached.
#[derive(Debug)]
pub struct Cell {
    pub name: CellName,
    pub spec: CellSpec,
    pub state: CellState,
}

impl Cell {
    pub fn new(name: CellName, spec: CellSpec) -> (r: Cell)
        ensures
            r.name == name,
            r.spec == spec,
            r.state is Unallocated,
    {
        Cell { name, spec, state: CellState::Unallocated }
    }

    pub fn name(&self) -> (r: &CellName)
        ensures
            r == self.name,
    {
        &self.name
    }

    /// Records that the cgroup was created and the nested agent started,
    /// listening at `client_config`.
    pub fn allocate(&mut self, client_config: ClientConfig) -> (r: Result<(), CellsError>)
        ensures
            final(self).name == old(self).name,
            final(self).spec == old(self).spec,
            r is Ok <==> old(self).state is Unallocated,
            r is Ok ==> final(self).state == (CellState::Allocated { client_config }),
            r matches Err(e) ==> final(self).state == old(self).state && error_cell(e)
                == old(self).name@ && (old(self).state is Allocated ==> e is CellExists) && (old(
                self,
            ).state is Freed ==> e is CellNotAllocated),
    {
        match self.state {
            CellState::Unallocated => {
                self.state = CellState::Allocated { client_config };
                Ok(())
            },
            CellState::Allocated { .. } => Err(CellsError::CellExists { cell_name: self.name.copy() }),
            CellState::Freed => Err(CellsError::CellNotAllocated { cell_name: self.name.copy() }),
        }
    }

    /// Records a graceful shutdown of the nested agent and the removal of the
    /// cgroup; a freed cell stays freed.
    pub fn free(&mut self) -> (r: Result<(), CellsError>)
        ensures
            final(self).name == old(self).name,
            final(self).spec == old(self).spec,
            r is Ok <==> !(old(self).state is Unallocated),
            r is Ok ==> final(self).state is Freed,
            r matches Err(e) ==> e is CellNotAllocated && error_cell(e) == old(self).name@
                && final(self).state is Unallocated,
    {
        match self.state {
            CellState::Unallocated => Err(CellsError::CellNotAllocated { cell_name: self.name.copy() }),
            _ => {
                self.state = CellState::Freed;
                Ok(())
            },
        }
    }

    /// Records that the nested agent was killed and the cgroup removed.
    pub fn kill(&mut self)
        ensures
            final(self).name == old(self).name,
            final(self).spec == old(self).spec,
            final(self).state is Freed,
    {
        self.state = CellState::Freed;
    }

    /// Where the nested agent listens; only an allocated cell has one.
    pub fn client_config(&self) -> (r: Result<ClientConfig, CellsError>)
        ensures
            r is Ok <==> self.state is Allocated,
            r matches Ok(c) ==> self.state matches CellState::Allocated { client_config } && c.socket@
                == client_config.socket@,
            r matches Err(e) ==> e is CellNotAllocated && error_cell(e) == self.name@,
    {
        match &self.state {
            CellState::Allocated { client_config } => Ok(client_config.copy()),
            _ => Err(CellsError::CellNotAllocated { cell_name: self.name.copy() }),
        }
    }
}

} // verus!
