use vstd::prelude::*;

verus! {

/// The CPU controller as it arrives on the wire.
#[derive(Debug, Clone, Copy, PartialEq, Eq, Structural)]
pub struct CpuController {
    pub weight: Option<u64>,
    pub max: Option<i64>,
}

/// The cpuset controller as it arrives on the wire.
#[derive(Debug, Clone, Default)]
pub struct CpusetController {
    pub cpus: Option<String>,
    pub mems: Option<String>,
}

/// A cell as it arrives on the wire; `name` is a cell path.
#[derive(Debug, Clone, Default)]
pub struct Cell {
    pub name: String,
    pub cpu: Option<CpuController>,
    pub cpuset: Option<CpusetController>,
    pub isolate_process: bool,
    pub isolate_network: bool,
}

/// An executable as it arrives on the wire.
#[derive(Debug, Clone, Default)]
pub struct Executable {
    pub name: String,
    pub command: String,
    pub description: String,
}

#[derive(Debug, Clone, Default)]
pub struct CellServiceAllocateRequest {
    pub cell: Option<Cell>,
}

#[derive(Debug, Clone, Default)]
pub struct CellServiceAllocateResponse {
    pub cell_name: String,
    pub cgroup_v2_id: u64,
}

#[derive(Debug, Clone, Default)]
pub struct CellServiceFreeRequest {
    pub cell_name: String,
}

#[derive(Debug, Clone, Default)]
pub struct CellServiceStartRequest {
    pub cell_name: String,
    pub executable: Option<Executable>,
}

#[derive(Debug, Clone, Default)]
pub struct CellServiceStopRequest {
    pub cell_name: String,
    pub executable_name: String,
}

} // verus!
