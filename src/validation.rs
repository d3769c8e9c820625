use vstd::prelude::*;
use crate::cell::{CellSpec, CgroupSpec, CpuController, CpusetController};
use crate::error::{Field, ValidationError};
use crate::isolation::IsolationControls;
use crate::names::{CellNamePath, is_cell_path};
use crate::proto;

verus! {

/// The least CPU weight a cgroup takes.
pub const MIN_CPU_WEIGHT: u64 = 1;

/// The greatest CPU weight a cgroup takes.
pub const MAX_CPU_WEIGHT: u64 = 10000;

/// A CPU controller whose weight, if any, lies in the range a cgroup takes.
#[derive(Debug, Clone, Copy, PartialEq, Eq, Structural)]
pub struct ValidatedCpuController {
    pub weight: Option<u64>,
    pub max: Option<i64>,
}

pub open spec fn weight_ok(weight: Option<u64>) -> bool {
    match weight {
        Some(w) => MIN_CPU_WEIGHT <= w <= MAX_CPU_WEIGHT,
        None => true,
    }
}

impl ValidatedCpuController {
    pub fn validate(cpu: proto::CpuController) -> (r: Result<ValidatedCpuController, ValidationError>)
        ensures
            r is Ok <==> weight_ok(cpu.weight),
            r matches Ok(v) ==> v.weight == cpu.weight && v.max == cpu.max,
            r matches Err(e) ==> e == (ValidationError::Invalid { field: Field::CpuWeight }),
    {
        match cpu.weight {
            Some(w) => {
                if w < MIN_CPU_WEIGHT || w > MAX_CPU_WEIGHT {
                    return Err(ValidationError::Invalid { field: Field::CpuWeight });
                }
            },
            None => {},
        }
        Ok(ValidatedCpuController { weight: cpu.weight, max: cpu.max })
    }
}

/// A cpuset controller; its masks are handed to the kernel as they are.
#[derive(Debug, Clone)]
pub struct ValidatedCpusetController {
    pub cpus: Option<String>,
    pub mems: Option<String>,
}

impl ValidatedCpusetController {
    pub fn validate(cpuset: proto::CpusetController) -> (r: ValidatedCpusetController)
        ensures
            r.cpus == cpuset.cpus,
            r.mems == cpuset.mems,
    {
        ValidatedCpusetController { cpus: cpuset.cpus, mems: cpuset.mems }
    }
}

/// A cell whose name is a non-empty cell path and whose controllers are valid.
#[derive(Debug, Clone)]
pub struct ValidatedCell {
    pub name: CellNamePath,
    pub cpu: Option<ValidatedCpuController>,
    pub cpuset: Option<ValidatedCpusetController>,
    pub isolate_process: bool,
    pub isolate_network: bool,
}

/// The error a cell on the wire is turned down with, if any: its name is
/// checked first, then its CPU controller.
pub open spec fn cell_error(cell: proto::Cell) -> Option<ValidationError> {
    if cell.name@.len() == 0 {
        Some(ValidationError::Required { field: Field::CellName })
    } else if !is_cell_path(cell.name@) {
        Some(ValidationError::Invalid { field: Field::CellName })
    } else {
        match cell.cpu {
            Some(cpu) => if weight_ok(cpu.weight) {
                None
            } else {
                Some(ValidationError::Invalid { field: Field::CpuWeight })
            },
            None => None,
        }
    }
}

/// A non-empty cell path, else the error that names `field`.
pub(crate) fn validate_required_path(path: String, field: Field) -> (r: Result<CellNamePath, ValidationError>)
    ensures
        r is Ok <==> path@.len() > 0 && is_cell_path(path@),
        r matches Ok(p) ==> p@ == path@ && p.wf(),
        r matches Err(e) ==> e == (if path@.len() == 0 {
            ValidationError::Required { field }
        } else {
            ValidationError::Invalid { field }
        }),
{
    if path.as_str().is_empty() {
        return Err(ValidationError::Required { field });
    }
    CellNamePath::validate(path, field)
}

impl ValidatedCell {
    pub fn validate(cell: proto::Cell) -> (r: Result<ValidatedCell, ValidationError>)
        ensures
            r is Ok <==> cell_error(cell) is None,
            r matches Err(e) ==> cell_error(cell) == Some(e),
            r matches Ok(v) ==> v.name@ == cell.name@ && v.name.wf() && v.isolate_process
                == cell.isolate_process && v.isolate_network == cell.isolate_network && (match cell.cpu {
                Some(c) => v.cpu == Some(ValidatedCpuController { weight: c.weight, max: c.max }),
                None => v.cpu is None,
            }) && (match cell.cpuset {
                Some(c) => v.cpuset matches Some(vc) && vc.cpus == c.cpus && vc.mems == c.mems,
                None => v.cpuset is None,
            }),
    {
        let name = validate_required_path(cell.name, Field::CellName)?;
        let cpu = match cell.cpu {
            Some(c) => Some(ValidatedCpuController::validate(c)?),
            None => None,
        };
        let cpuset = match cell.cpuset {
            Some(c) => Some(ValidatedCpusetController::validate(c)),
            None => None,
        };
        Ok(
            ValidatedCell {
                name,
                cpu,
                cpuset,
                isolate_process: cell.isolate_process,
                isolate_network: cell.isolate_network,
            },
        )
    }

    /// What the cell is built from, its name aside.
    pub fn into_cell_spec(self) -> (r: CellSpec)
        ensures
            r.iso_ctl == (IsolationControls {
                isolate_process: self.isolate_process,
                isolate_network: self.isolate_network,
            }),
            (match self.cpu {
                Some(c) => r.cgroup_spec.cpu == Some(CpuController { weight: c.weight, max: c.max }),
                None => r.cgroup_spec.cpu is None,
            }),
            (match self.cpuset {
                Some(c) => r.cgroup_spec.cpuset matches Some(rc) && rc.cpus == c.cpus && rc.mems
                    == c.mems,
                None => r.cgroup_spec.cpuset is None,
            }),
    {
        let cpu = match self.cpu {
            Some(c) => Some(CpuController { weight: c.weight, max: c.max }),
            None => None,
        };
        let cpuset = match self.cpuset {
            Some(c) => Some(CpusetController { cpus: c.cpus, mems: c.mems }),
            None => None,
        };
        CellSpec {
            cgroup_spec: CgroupSpec { cpu, cpuset },
            iso_ctl: IsolationControls {
                isolate_process: self.isolate_process,
                isolate_network: self.isolate_network,
            },
        }
    }
}

/// An allocate request that carries a valid cell.
#[derive(Debug)]
pub struct ValidatedCellServiceAllocateRequest {
    pub cell: ValidatedCell,
}

/// The error an allocate request is turned down with, if any.
pub open spec fn allocate_error(request: proto::CellServiceAllocateRequest) -> Option<ValidationError> {
    match request.cell {
        Some(cell) => cell_error(cell),
        None => Some(ValidationError::Required { field: Field::Cell }),
    }
}

impl ValidatedCellServiceAllocateRequest {
    pub fn validate(request: proto::CellServiceAllocateRequest) -> (r: Result<
        ValidatedCellServiceAllocateRequest,
        ValidationError,
    >)
        ensures
            r is Ok <==> allocate_error(request) is None,
            r matches Err(e) ==> allocate_error(request) == Some(e),
            r matches Ok(v) ==> (request.cell matches Some(c) && v.cell.name@ == c.name@
                && v.cell.name.wf() && v.cell.isolate_process == c.isolate_process
                && v.cell.isolate_network == c.isolate_network),
    {
        match request.cell {
            Some(cell) => {
                let cell = ValidatedCell::validate(cell)?;
                Ok(ValidatedCellServiceAllocateRequest { cell })
            },
            None => Err(ValidationError::Required { field: Field::Cell }),
        }
    }
}

/// A free request that names a cell by a non-empty path.
#[derive(Debug)]
pub struct ValidatedCellServiceFreeRequest {
    pub cell_name: CellNamePath,
}

impl ValidatedCellServiceFreeRequest {
    pub fn validate(request: proto::CellServiceFreeRequest) -> (r: Result<
        ValidatedCellServiceFreeRequest,
        ValidationError,
    >)
        ensures
            r is Ok <==> request.cell_name@.len() > 0 && is_cell_path(request.cell_name@),
            r matches Ok(v) ==> v.cell_name@ == request.cell_name@ && v.cell_name.wf(),
            r matches Err(e) ==> e == (if request.cell_name@.len() == 0 {
                ValidationError::Required { field: Field::CellName }
            } else {
                ValidationError::Invalid { field: Field::CellName }
            }),
    {
        let cell_name = validate_required_path(request.cell_name, Field::CellName)?;
        Ok(ValidatedCellServiceFreeRequest { cell_name })
    }
}

/// An executable with a non-empty name and a non-empty command.
#[derive(Debug)]
pub struct ValidatedExecutable {
    pub name: String,
    pub command: String,
    pub description: String,
}

/// The error an executable on the wire is turned down with, if any.
pub open spec fn executable_error(executable: proto::Executable) -> Option<ValidationError> {
    if executable.name@.len() == 0 {
        Some(ValidationError::Required { field: Field::ExecutableName })
    } else if executable.command@.len() == 0 {
        Some(ValidationError::Required { field: Field::ExecutableCommand })
    } else {
        None
    }
}

impl ValidatedExecutable {
    pub fn validate(executable: proto::Executable) -> (r: Result<ValidatedExecutable, ValidationError>)
        ensures
            r is Ok <==> executable_error(executable) is None,
            r matches Err(e) ==> executable_error(executable) == Some(e),
            r matches Ok(v) ==> v.name == executable.name && v.command == executable.command
                && v.description == executable.description,
    {
        if executable.name.as_str().is_empty() {
            return Err(ValidationError::Required { field: Field::ExecutableName });
        }
        if executable.command.as_str().is_empty() {
            return Err(ValidationError::Required { field: Field::ExecutableCommand });
        }
        Ok(
            ValidatedExecutable {
                name: executable.name,
                command: executable.command,
                description: executable.description,
            },
        )
    }
}

/// A start request: a cell path, empty for the receiving agent, and a valid
/// executable.
#[derive(Debug)]
pub struct ValidatedCellServiceStartRequest {
    pub cell_name: CellNamePath,
    pub executable: ValidatedExecutable,
}

/// The error a start request is turned down with, if any: the path is
/// checked first, then the executable.
pub open spec fn start_error(request: proto::CellServiceStartRequest) -> Option<ValidationError> {
    if !is_cell_path(request.cell_name@) {
        Some(ValidationError::Invalid { field: Field::CellName })
    } else {
        match request.executable {
            Some(e) => executable_error(e),
            None => Some(ValidationError::Required { field: Field::Executable }),
        }
    }
}

impl ValidatedCellServiceStartRequest {
    pub fn validate(request: proto::CellServiceStartRequest) -> (r: Result<
        ValidatedCellServiceStartRequest,
        ValidationError,
    >)
        ensures
            r is Ok <==> start_error(request) is None,
            r matches Err(e) ==> start_error(request) == Some(e),
            r matches Ok(v) ==> v.cell_name@ == request.cell_name@ && v.cell_name.wf() && (
            request.executable matches Some(e) && v.executable.name == e.name
                && v.executable.command == e.command && v.executable.description == e.description),
    {
        let cell_name = CellNamePath::validate(request.cell_name, Field::CellName)?;
        let executable = match request.executable {
            Some(e) => ValidatedExecutable::validate(e)?,
            None => {
                return Err(ValidationError::Required { field: Field::Executable });
            },
        };
        Ok(ValidatedCellServiceStartRequest { cell_name, executable })
    }
}

/// A stop request: a cell path, empty for the receiving agent, and the
/// non-empty name of an executable.
#[derive(Debug)]
pub struct ValidatedCellServiceStopRequest {
    pub cell_name: CellNamePath,
    pub executable_name: String,
}

/// The error a stop request is turned down with, if any.
pub open spec fn stop_error(request: proto::CellServiceStopRequest) -> Option<ValidationError> {
    if !is_cell_path(request.cell_name@) {
        Some(ValidationError::Invalid { field: Field::CellName })
    } else if request.executable_name@.len() == 0 {
        Some(ValidationError::Required { field: Field::ExecutableName })
    } else {
        None
    }
}

impl ValidatedCellServiceStopRequest {
    pub fn validate(request: proto::CellServiceStopRequest) -> (r: Result<
        ValidatedCellServiceStopRequest,
        ValidationError,
    >)
        ensures
            r is Ok <==> stop_error(request) is None,
            r matches Err(e) ==> stop_error(request) == Some(e),
            r matches Ok(v) ==> v.cell_name@ == request.cell_name@ && v.cell_name.wf()
                && v.executable_name == request.executable_name,
    {
        let cell_name = CellNamePath::validate(request.cell_name, Field::CellName)?;
        if request.executable_name.as_str().is_empty() {
            return Err(ValidationError::Required { field: Field::ExecutableName });
        }
        Ok(ValidatedCellServiceStopRequest { cell_name, executable_name: request.executable_name })
    }
}

} // verus!
