use vstd::prelude::*;
use crate::cell::CellSpec;
use crate::error::{Field, ValidationError};
use crate::names::{CellName, CellNamePath, is_cell_name, is_cell_path, splits_into};
use crate::proto;
use crate::validation::{
    ValidatedCell,
    ValidatedCpuController,
    ValidatedCpusetController,
    ValidatedExecutable,
    allocate_error,
    executable_error,
    start_error,
    stop_error,
    validate_required_path,
};

verus! {

/// Where an allocate request goes: handled here for a single-segment path,
/// else handed to the nested agent of the first segment with that segment
/// stripped from the path.
#[derive(Debug)]
pub enum AllocateDispatch {
    Local { cell_name: CellName, cell_spec: CellSpec },
    Nested { parent: CellName, request: proto::CellServiceAllocateRequest },
}

/// Where a free request goes, by the same rule as an allocate request.
#[derive(Debug)]
pub enum FreeDispatch {
    Local { cell_name: CellName },
    Nested { parent: CellName, request: proto::CellServiceFreeRequest },
}

/// Where a start request goes: handled here for the empty path, else handed
/// to the nested agent of the first segment with that segment stripped; the
/// agent that receives the empty path starts the executable.
#[derive(Debug)]
pub enum StartDispatch {
    Local { executable: ValidatedExecutable },
    Nested { parent: CellName, request: proto::CellServiceStartRequest },
}

/// Where a stop request goes, by the same rule as a start request.
#[derive(Debug)]
pub enum StopDispatch {
    Local { executable_name: String },
    Nested { parent: CellName, request: proto::CellServiceStopRequest },
}

/// `path` is handed on as `rest` to the nested agent `parent`: `parent` is its
/// first segment and `rest`, non-empty, what follows the first separator.
pub open spec fn hands_on(path: Seq<char>, parent: Seq<char>, rest: Seq<char>) -> bool {
    is_cell_name(parent) && rest.len() > 0 && is_cell_path(rest) && splits_into(path, parent, rest)
}

/// `path` is handed on as `rest` to the nested agent `parent`, where `rest`
/// may be empty: the agent of the last segment acts on it itself.
pub open spec fn steps_into(path: Seq<char>, parent: Seq<char>, rest: Seq<char>) -> bool {
    is_cell_name(parent) && is_cell_path(rest) && splits_into(path, parent, rest)
}

/// Decides where an allocate request is handled, after validating it.
pub fn dispatch_allocate(request: proto::CellServiceAllocateRequest) -> (r: Result<
    AllocateDispatch,
    ValidationError,
>)
    ensures
        r is Ok <==> allocate_error(request) is None,
        r matches Err(e) ==> allocate_error(request) == Some(e),
        r matches Ok(AllocateDispatch::Local { cell_name, cell_spec }) ==> (request.cell matches Some(
            c,
        ) && is_cell_name(c.name@) && cell_name@ == c.name@ && cell_spec.iso_ctl.isolate_process
            == c.isolate_process && cell_spec.iso_ctl.isolate_network == c.isolate_network && (
        match c.cpu {
            Some(cpu) => cell_spec.cgroup_spec.cpu matches Some(x) && x.weight == cpu.weight
                && x.max == cpu.max,
            None => cell_spec.cgroup_spec.cpu is None,
        }) && (match c.cpuset {
            Some(cs) => cell_spec.cgroup_spec.cpuset matches Some(x) && x.cpus == cs.cpus && x.mems
                == cs.mems,
            None => cell_spec.cgroup_spec.cpuset is None,
        })),
        r matches Ok(AllocateDispatch::Nested { parent, request: fwd }) ==> (request.cell matches Some(
            c,
        ) && fwd.cell matches Some(fc) && hands_on(c.name@, parent@, fc.name@) && fc.cpu == c.cpu
            && fc.cpuset == c.cpuset && fc.isolate_process == c.isolate_process
            && fc.isolate_network == c.isolate_network),
{
    let cell = match request.cell {
        Some(c) => c,
        None => {
            return Err(ValidationError::Required { field: Field::Cell });
        },
    };
    let path = validate_required_path(cell.name, Field::CellName)?;
    let cpu = match cell.cpu {
        Some(c) => Some(ValidatedCpuController::validate(c)?),
        None => None,
    };
    let (head, tail) = match path.into_child() {
        Some(split) => split,
        None => {
            return Err(ValidationError::Required { field: Field::CellName });
        },
    };
    if tail.is_empty() {
        let cpuset = match cell.cpuset {
            Some(c) => Some(ValidatedCpusetController::validate(c)),
            None => None,
        };
        let validated = ValidatedCell {
            name: CellNamePath::from_name(head.copy()),
            cpu,
            cpuset,
            isolate_process: cell.isolate_process,
            isolate_network: cell.isolate_network,
        };
        Ok(AllocateDispatch::Local { cell_name: head, cell_spec: validated.into_cell_spec() })
    } else {
        let fwd = proto::Cell {
            name: tail.into_string(),
            cpu: cell.cpu,
            cpuset: cell.cpuset,
            isolate_process: cell.isolate_process,
            isolate_network: cell.isolate_network,
        };
        Ok(
            AllocateDispatch::Nested {
                parent: head,
                request: proto::CellServiceAllocateRequest { cell: Some(fwd) },
            },
        )
    }
}

/// Decides where a free request is handled, after validating it.
pub fn dispatch_free(request: proto::CellServiceFreeRequest) -> (r: Result<FreeDispatch, ValidationError>)
    ensures
        r is Ok <==> request.cell_name@.len() > 0 && is_cell_path(request.cell_name@),
        r matches Err(e) ==> e == (if request.cell_name@.len() == 0 {
            ValidationError::Required { field: Field::CellName }
        } else {
            ValidationError::Invalid { field: Field::CellName }
        }),
        r matches Ok(FreeDispatch::Local { cell_name }) ==> is_cell_name(request.cell_name@)
            && cell_name@ == request.cell_name@,
        r matches Ok(FreeDispatch::Nested { parent, request: fwd }) ==> hands_on(
            request.cell_name@,
            parent@,
            fwd.cell_name@,
        ),
{
    let path = validate_required_path(request.cell_name, Field::CellName)?;
    let (head, tail) = match path.into_child() {
        Some(split) => split,
        None => {
            return Err(ValidationError::Required { field: Field::CellName });
        },
    };
    if tail.is_empty() {
        Ok(FreeDispatch::Local { cell_name: head })
    } else {
        Ok(
            FreeDispatch::Nested {
                parent: head,
                request: proto::CellServiceFreeRequest { cell_name: tail.into_string() },
            },
        )
    }
}

/// Checks an executable on the wire without taking it.
fn check_executable(executable: &proto::Executable) -> (r: Result<(), ValidationError>)
    ensures
        r is Ok <==> executable_error(*executable) is None,
        r matches Err(e) ==> executable_error(*executable) == Some(e),
{
    if executable.name.as_str().is_empty() {
        return Err(ValidationError::Required { field: Field::ExecutableName });
    }
    if executable.command.as_str().is_empty() {
        return Err(ValidationError::Required { field: Field::ExecutableCommand });
    }
    Ok(())
}

/// Decides where a start request is handled, after validating it.
pub fn dispatch_start(request: proto::CellServiceStartRequest) -> (r: Result<
    StartDispatch,
    ValidationError,
>)
    ensures
        r is Ok <==> start_error(request) is None,
        r matches Err(e) ==> start_error(request) == Some(e),
        r matches Ok(StartDispatch::Local { executable }) ==> (request.cell_name@.len() == 0 && (
        request.executable matches Some(e) && executable.name == e.name && executable.command
            == e.command && executable.description == e.description)),
        r matches Ok(StartDispatch::Nested { parent, request: fwd }) ==> steps_into(
            request.cell_name@,
            parent@,
            fwd.cell_name@,
        ) && fwd.executable == request.executable,
{
    let path = CellNamePath::validate(request.cell_name, Field::CellName)?;
    let executable = match request.executable {
        Some(e) => e,
        None => {
            return Err(ValidationError::Required { field: Field::Executable });
        },
    };
    check_executable(&executable)?;
    match path.into_child() {
        None => Ok(
            StartDispatch::Local {
                executable: ValidatedExecutable {
                    name: executable.name,
                    command: executable.command,
                    description: executable.description,
                },
            },
        ),
        Some((head, tail)) => Ok(
            StartDispatch::Nested {
                parent: head,
                request: proto::CellServiceStartRequest {
                    cell_name: tail.into_string(),
                    executable: Some(executable),
                },
            },
        ),
    }
}

/// Decides where a stop request is handled, after validating it.
pub fn dispatch_stop(request: proto::CellServiceStopRequest) -> (r: Result<StopDispatch, ValidationError>)
    ensures
        r is Ok <==> stop_error(request) is None,
        r matches Err(e) ==> stop_error(request) == Some(e),
        r matches Ok(StopDispatch::Local { executable_name }) ==> request.cell_name@.len() == 0
            && executable_name == request.executable_name,
        r matches Ok(StopDispatch::Nested { parent, request: fwd }) ==> steps_into(
            request.cell_name@,
            parent@,
            fwd.cell_name@,
        ) && fwd.executable_name == request.executable_name,
{
    let path = CellNamePath::validate(request.cell_name, Field::CellName)?;
    if request.executable_name.as_str().is_empty() {
        return Err(ValidationError::Required { field: Field::ExecutableName });
    }
    match path.into_child() {
        None => Ok(StopDispatch::Local { executable_name: request.executable_name }),
        Some((head, tail)) => Ok(
            StopDispatch::Nested {
                parent: head,
                request: proto::CellServiceStopRequest {
                    cell_name: tail.into_string(),
                    executable_name: request.executable_name,
                },
            },
        ),
    }
}

} // verus!
