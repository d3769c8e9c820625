use vstd::prelude::*;

verus! {

/// Which kernel namespaces a nested agent is put into.
#[derive(Debug, Clone, Copy, PartialEq, Eq, Structural)]
pub struct IsolationControls {
    pub isolate_process: bool,
    pub isolate_network: bool,
}

/// The namespaces a nested agent is created in, beside its parent's.
#[derive(Debug, Clone, Copy, PartialEq, Eq, Structural)]
pub struct Namespaces {
    pub mount: bool,
    pub pid: bool,
    pub uts: bool,
    pub network: bool,
}

impl IsolationControls {
    /// Process isolation asks for new mount, PID and UTS namespaces; network
    /// isolation for a new network namespace.
    pub fn namespaces(&self) -> (r: Namespaces)
        ensures
            r.mount == self.isolate_process,
            r.pid == self.isolate_process,
            r.uts == self.isolate_process,
            r.network == self.isolate_network,
    {
        Namespaces {
            mount: self.isolate_process,
            pid: self.isolate_process,
            uts: self.isolate_process,
            network: self.isolate_network,
        }
    }
}

/// One privileged step that finishes a nested agent's isolation from inside
/// its new namespaces.
#[derive(Debug)]
pub enum IsolationStep {
    /// Bind `/` onto itself, recursive and private, so that later mounts do
    /// not reach the host.
    BindRootPrivate,
    /// Mount a fresh `proc` at `/proc`.
    MountProc,
    /// Set the host name.
    SetHostname { name: String },
    /// Set the domain name.
    SetDomainname { name: String },
}

/// The isolation of one cell's nested agent, named after the cell.
#[derive(Debug)]
pub struct Isolation {
    name: String,
}

impl View for Isolation {
    type V = Seq<char>;

    closed spec fn view(&self) -> Seq<char> {
        self.name@
    }
}

impl Isolation {
    pub fn new(name: &str) -> (r: Isolation)
        ensures
            r@ == name@,
    {
        Isolation { name: name.to_owned() }
    }

    /// The steps that come first inside the new namespaces: the private
    /// rebind of `/`, only when processes are isolated.
    pub fn setup(&self, iso_ctl: &IsolationControls) -> (r: Vec<IsolationStep>)
        ensures
            !iso_ctl.isolate_process ==> r@.len() == 0,
            iso_ctl.isolate_process ==> r@.len() == 1 && r@[0] is BindRootPrivate,
    {
        let mut steps: Vec<IsolationStep> = Vec::new();
        if iso_ctl.isolate_process {
            steps.push(IsolationStep::BindRootPrivate);
        }
        steps
    }

    /// The steps of process isolation: a fresh `/proc`, then the host and
    /// domain names set to the cell's name; none when processes are shared
    /// with the host.
    pub fn isolate_process(&self, iso_ctl: &IsolationControls) -> (r: Vec<IsolationStep>)
        ensures
            !iso_ctl.isolate_process ==> r@.len() == 0,
            iso_ctl.isolate_process ==> r@.len() == 3 && r@[0] is MountProc && (r@[1] matches IsolationStep::SetHostname { name } && name@ == self@) && (r@[2] matches IsolationStep::SetDomainname { name } && name@ == self@),
    {
        let mut steps: Vec<IsolationStep> = Vec::new();
        if iso_ctl.isolate_process {
            steps.push(IsolationStep::MountProc);
            steps.push(IsolationStep::SetHostname { name: self.name.clone() });
            steps.push(IsolationStep::SetDomainname { name: self.name.clone() });
        }
        steps
    }

    /// The steps of network isolation. The network namespace itself comes
    /// with the nested agent's creation (see [IsolationControls::namespaces]),
    /// so nothing is left to do inside it.
    pub fn isolate_network(&self, iso_ctl: &IsolationControls) -> (r: Vec<IsolationStep>)
        ensures
            r@.len() == 0,
    {
        Vec::new()
    }

    /// All steps, in the order they must run before the nested agent serves:
    /// the rebind of `/`, then `/proc`, then the host and domain names.
    pub fn plan(&self, iso_ctl: &IsolationControls) -> (r: Vec<IsolationStep>)
        ensures
            !iso_ctl.isolate_process ==> r@.len() == 0,
            iso_ctl.isolate_process ==> r@.len() == 4 && r@[0] is BindRootPrivate && r@[1] is MountProc && (r@[2] matches IsolationStep::SetHostname { name } && name@ == self@) && (r@[3] matches IsolationStep::SetDomainname { name } && name@ == self@),
    {
        let mut steps = self.setup(iso_ctl);
        let mut process = self.isolate_process(iso_ctl);
        let mut network = self.isolate_network(iso_ctl);
        steps.append(&mut process);
        steps.append(&mut network);
        steps
    }
}

} // verus!
