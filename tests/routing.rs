use auraed::cell::CellsError;
use auraed::error::{Code, Field, ValidationError};
use auraed::names::{CellName, CellNamePath};
use auraed::proto;
use auraed::router::{
    dispatch_allocate, dispatch_free, dispatch_start, dispatch_stop, AllocateDispatch, FreeDispatch,
    StartDispatch, StopDispatch,
};

fn cell_msg(name: &str) -> proto::Cell {
    proto::Cell {
        name: name.to_string(),
        cpu: None,
        cpuset: None,
        isolate_process: false,
        isolate_network: false,
    }
}

fn allocate_req(name: &str) -> proto::CellServiceAllocateRequest {
    proto::CellServiceAllocateRequest { cell: Some(cell_msg(name)) }
}

#[test]
fn cell_name_syntax() {
    assert!(CellName::validate("alpha".to_string(), Field::CellName).is_ok());
    assert!(CellName::validate("a1-b2".to_string(), Field::CellName).is_ok());
    assert!(CellName::validate("0cell".to_string(), Field::CellName).is_ok());
    assert_eq!(
        CellName::validate("".to_string(), Field::CellName).unwrap_err(),
        ValidationError::Required { field: Field::CellName }
    );
    for bad in ["-a", "Alpha", "a/b", "a_b", "é", "a b"] {
        assert_eq!(
            CellName::validate(bad.to_string(), Field::CellName).unwrap_err(),
            ValidationError::Invalid { field: Field::CellName }
        );
    }
}

#[test]
fn cell_path_syntax() {
    for good in ["", "a", "a/b", "a-1/b/c3"] {
        assert!(CellNamePath::validate(good.to_string(), Field::CellName).is_ok(), "{good}");
    }
    for bad in ["/a", "a/", "a//b", "a/-b", "A/b", "a/b c"] {
        assert!(CellNamePath::validate(bad.to_string(), Field::CellName).is_err(), "{bad}");
    }
}

#[test]
fn into_child_strips_one_head_per_hop() {
    let p = CellNamePath::validate("a/b/c".to_string(), Field::CellName).unwrap();
    let (h, t) = p.into_child().unwrap();
    assert_eq!(h.as_str(), "a");
    assert_eq!(t.as_str(), "b/c");
    let (h, t) = t.into_child().unwrap();
    assert_eq!(h.as_str(), "b");
    assert_eq!(t.as_str(), "c");
    let (h, t) = t.into_child().unwrap();
    assert_eq!(h.as_str(), "c");
    assert!(t.is_empty());
    assert!(t.into_child().is_none());
}

#[test]
fn allocate_single_segment_is_local() {
    match dispatch_allocate(allocate_req("alpha")).unwrap() {
        AllocateDispatch::Local { cell_name, cell_spec } => {
            assert_eq!(cell_name.into_inner(), "alpha");
            assert!(!cell_spec.iso_ctl.isolate_process);
            assert!(cell_spec.cgroup_spec.cpu.is_none());
        }
        other => panic!("unexpected {other:?}"),
    }
}

#[test]
fn allocate_nested_path_is_forwarded_with_head_stripped() {
    let mut msg = cell_msg("alpha/child");
    msg.isolate_network = true;
    msg.cpu = Some(proto::CpuController { weight: Some(100), max: Some(-1) });
    match dispatch_allocate(proto::CellServiceAllocateRequest { cell: Some(msg) }).unwrap() {
        AllocateDispatch::Nested { parent, request } => {
            assert_eq!(parent.as_str(), "alpha");
            let cell = request.cell.unwrap();
            assert_eq!(cell.name, "child");
            assert!(cell.isolate_network);
            assert_eq!(cell.cpu, Some(proto::CpuController { weight: Some(100), max: Some(-1) }));
        }
        other => panic!("unexpected {other:?}"),
    }
}

#[test]
fn routing_a_b_c_takes_three_hops() {
    let mut req = allocate_req("a/b/c");
    let mut hops = Vec::new();
    loop {
        match dispatch_allocate(req).unwrap() {
            AllocateDispatch::Nested { parent, request } => {
                hops.push(parent.into_inner());
                req = request;
            }
            AllocateDispatch::Local { cell_name, .. } => {
                hops.push(cell_name.into_inner());
                break;
            }
        }
    }
    assert_eq!(hops, vec!["a", "b", "c"]);
}

#[test]
fn allocate_validation_errors() {
    let e = dispatch_allocate(proto::CellServiceAllocateRequest { cell: None }).unwrap_err();
    assert_eq!(e, ValidationError::Required { field: Field::Cell });
    assert_eq!(e.code(), Code::InvalidArgument);
    assert_eq!(
        dispatch_allocate(allocate_req("")).unwrap_err(),
        ValidationError::Required { field: Field::CellName }
    );
    assert_eq!(
        dispatch_allocate(allocate_req("a//b")).unwrap_err(),
        ValidationError::Invalid { field: Field::CellName }
    );
    let mut msg = cell_msg("alpha");
    msg.cpu = Some(proto::CpuController { weight: Some(0), max: None });
    assert_eq!(
        dispatch_allocate(proto::CellServiceAllocateRequest { cell: Some(msg) }).unwrap_err(),
        ValidationError::Invalid { field: Field::CpuWeight }
    );
    let mut msg = cell_msg("alpha");
    msg.cpu = Some(proto::CpuController { weight: Some(10001), max: None });
    assert!(dispatch_allocate(proto::CellServiceAllocateRequest { cell: Some(msg) }).is_err());
    let mut msg = cell_msg("alpha");
    msg.cpu = Some(proto::CpuController { weight: Some(10000), max: None });
    msg.cpuset = Some(proto::CpusetController { cpus: Some("0-1".to_string()), mems: None });
    match dispatch_allocate(proto::CellServiceAllocateRequest { cell: Some(msg) }).unwrap() {
        AllocateDispatch::Local { cell_spec, .. } => {
            assert_eq!(cell_spec.cgroup_spec.cpu.unwrap().weight, Some(10000));
            assert_eq!(cell_spec.cgroup_spec.cpuset.unwrap().cpus, Some("0-1".to_string()));
        }
        other => panic!("unexpected {other:?}"),
    }
}

#[test]
fn free_dispatch() {
    let free = |s: &str| dispatch_free(proto::CellServiceFreeRequest { cell_name: s.to_string() });
    assert!(matches!(free("alpha").unwrap(), FreeDispatch::Local { cell_name } if cell_name.as_str() == "alpha"));
    match free("alpha/beta/gamma").unwrap() {
        FreeDispatch::Nested { parent, request } => {
            assert_eq!(parent.as_str(), "alpha");
            assert_eq!(request.cell_name, "beta/gamma");
        }
        other => panic!("unexpected {other:?}"),
    }
    assert_eq!(free("").unwrap_err(), ValidationError::Required { field: Field::CellName });
    assert_eq!(free("/x").unwrap_err(), ValidationError::Invalid { field: Field::CellName });
}

fn exe(name: &str, command: &str) -> proto::Executable {
    proto::Executable { name: name.to_string(), command: command.to_string(), description: "d".to_string() }
}

#[test]
fn start_dispatch() {
    let local = dispatch_start(proto::CellServiceStartRequest {
        cell_name: String::new(),
        executable: Some(exe("sleeper", "sleep 1")),
    })
    .unwrap();
    match local {
        StartDispatch::Local { executable } => {
            assert_eq!(executable.name, "sleeper");
            assert_eq!(executable.command, "sleep 1");
        }
        other => panic!("unexpected {other:?}"),
    }
    let nested = dispatch_start(proto::CellServiceStartRequest {
        cell_name: "alpha".to_string(),
        executable: Some(exe("sleeper", "sleep 1")),
    })
    .unwrap();
    match nested {
        StartDispatch::Nested { parent, request } => {
            assert_eq!(parent.as_str(), "alpha");
            assert_eq!(request.cell_name, "");
            assert_eq!(request.executable.unwrap().name, "sleeper");
        }
        other => panic!("unexpected {other:?}"),
    }
    let missing = dispatch_start(proto::CellServiceStartRequest { cell_name: String::new(), executable: None });
    assert_eq!(missing.unwrap_err(), ValidationError::Required { field: Field::Executable });
    let no_cmd = dispatch_start(proto::CellServiceStartRequest {
        cell_name: String::new(),
        executable: Some(exe("sleeper", "")),
    });
    assert_eq!(no_cmd.unwrap_err(), ValidationError::Required { field: Field::ExecutableCommand });
    let no_name = dispatch_start(proto::CellServiceStartRequest {
        cell_name: String::new(),
        executable: Some(exe("", "true")),
    });
    assert_eq!(no_name.unwrap_err(), ValidationError::Required { field: Field::ExecutableName });
}

#[test]
fn stop_dispatch() {
    let stop = |c: &str, e: &str| {
        dispatch_stop(proto::CellServiceStopRequest { cell_name: c.to_string(), executable_name: e.to_string() })
    };
    assert!(matches!(stop("", "sleeper").unwrap(), StopDispatch::Local { executable_name } if executable_name == "sleeper"));
    match stop("a/b", "sleeper").unwrap() {
        StopDispatch::Nested { parent, request } => {
            assert_eq!(parent.as_str(), "a");
            assert_eq!(request.cell_name, "b");
            assert_eq!(request.executable_name, "sleeper");
        }
        other => panic!("unexpected {other:?}"),
    }
    assert_eq!(stop("", "").unwrap_err(), ValidationError::Required { field: Field::ExecutableName });
    assert_eq!(stop("a/", "x").unwrap_err(), ValidationError::Invalid { field: Field::CellName });
}

#[test]
fn not_found_code() {
    let n = CellName::validate("alpha".to_string(), Field::CellName).unwrap();
    assert_eq!(CellsError::CellNotFound { cell_name: n }.code(), Code::NotFound);
}
