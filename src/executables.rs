use vstd::prelude::*;

verus! {

/// What the table of executables can report.
#[derive(Debug, Clone, PartialEq, Eq)]
pub enum ExecutablesError {
    ExecutableExists { name: String },
    ExecutableNotFound { name: String },
}

/// One running executable: its unique name and the OS pid of its process.
#[derive(Debug)]
pub struct Running {
    pub name: String,
    pub pid: u32,
}

/// The executables that the local agent runs, by name. The processes are
/// held by whoever spawns them; the table decides which names are free and
/// which pid a name stands for.
pub struct Executables {
    running: Vec<Running>,
    model: Ghost<Map<Seq<char>, u32>>,
}

impl View for Executables {
    type V = Map<Seq<char>, u32>;

    closed spec fn view(&self) -> Map<Seq<char>, u32> {
        self.model@
    }
}

impl Executables {
    pub closed spec fn wf(&self) -> bool {
        &&& forall|i: int, j: int|
            0 <= i < self.running@.len() && 0 <= j < self.running@.len() && i != j
                ==> (#[trigger] self.running@[i]).name@ != (#[trigger] self.running@[j]).name@
        &&& forall|i: int|
            0 <= i < self.running@.len() ==> self.model@.contains_key(
                (#[trigger] self.running@[i]).name@,
            ) && self.model@[self.running@[i].name@] == self.running@[i].pid
        &&& forall|k: Seq<char>| #[trigger]
            self.model@.contains_key(k) ==> exists|i: int|
                0 <= i < self.running@.len() && (#[trigger] self.running@[i]).name@ == k
    }

    pub fn new() -> (r: Executables)
        ensures
            r.wf(),
            r@ == Map::<Seq<char>, u32>::empty(),
    {
        Executables { running: Vec::new(), model: Ghost(Map::empty()) }
    }

    fn find(&self, name: &String) -> (r: Option<usize>)
        requires
            self.wf(),
        ensures
            r is None <==> !self@.contains_key(name@),
            r matches Some(i) ==> i < self.running@.len() && self.running@[i as int].name@ == name@,
    {
        let mut i: usize = 0;
        while i < self.running.len()
            invariant
                self.wf(),
                i <= self.running@.len(),
                forall|j: int| 0 <= j < i ==> (#[trigger] self.running@[j]).name@ != name@,
            decreases self.running@.len() - i,
        {
            if self.running[i].name == *name {
                return Some(i);
            }
            i = i + 1;
        }
        proof {
            if self@.contains_key(name@) {
                let k = name@;
                assert(exists|j: int| 0 <= j < self.running@.len() && (#[trigger] self.running@[j]).name@ == k);
            }
        }
        None
    }

    /// Whether `name` may be started: it must not be running already.
    pub fn check_start(&self, name: &String) -> (r: Result<(), ExecutablesError>)
        requires
            self.wf(),
        ensures
            r is Ok <==> !self@.contains_key(name@),
            r matches Err(e) ==> e == (ExecutablesError::ExecutableExists { name: *name }),
    {
        if self.find(name).is_some() {
            Err(ExecutablesError::ExecutableExists { name: name.clone() })
        } else {
            Ok(())
        }
    }

    /// Records the process started under `name`.
    pub fn start(&mut self, name: String, pid: u32) -> (r: Result<(), ExecutablesError>)
        requires
            old(self).wf(),
        ensures
            final(self).wf(),
            r is Ok <==> !old(self)@.contains_key(name@),
            r is Ok ==> final(self)@ == old(self)@.insert(name@, pid),
            r matches Err(e) ==> final(self)@ == old(self)@ && e == (ExecutablesError::ExecutableExists { name }),
    {
        if self.find(&name).is_some() {
            return Err(ExecutablesError::ExecutableExists { name });
        }
        let ghost old_running = self.running@;
        let ghost old_model = self.model@;
        let ghost key = name@;
        self.running.push(Running { name, pid });
        self.model = Ghost(old_model.insert(key, pid));
        proof {
            let n = old_running.len() as int;
            assert forall|j: int| 0 <= j < self.running@.len() implies self.model@.contains_key(
                (#[trigger] self.running@[j]).name@,
            ) && self.model@[self.running@[j].name@] == self.running@[j].pid by {
                if j < n {
                    assert(self.running@[j] == old_running[j]);
                    assert(old_model.contains_key(old_running[j].name@));
                }
            }
            assert forall|k: Seq<char>| #[trigger]
                self.model@.contains_key(k) implies exists|j: int|
                0 <= j < self.running@.len() && (#[trigger] self.running@[j]).name@ == k by {
                if k == key {
                    assert(self.running@[n].name@ == k);
                } else {
                    let m = choose|m: int| 0 <= m < old_running.len() && (#[trigger] old_running[m]).name@ == k;
                    assert(self.running@[m] == old_running[m]);
                }
            }
            assert forall|a: int, b: int|
                0 <= a < self.running@.len() && 0 <= b < self.running@.len() && a != b
                    implies (#[trigger] self.running@[a]).name@ != (#[trigger] self.running@[b]).name@ by {
                if a < n {
                    assert(old_model.contains_key(old_running[a].name@));
                }
                if b < n {
                    assert(old_model.contains_key(old_running[b].name@));
                }
            }
        }
        Ok(())
    }

    /// Takes `name` out of the table and gives the pid of its process, for
    /// the caller to terminate and reap.
    pub fn stop(&mut self, name: &String) -> (r: Result<u32, ExecutablesError>)
        requires
            old(self).wf(),
        ensures
            final(self).wf(),
            r is Ok <==> old(self)@.contains_key(name@),
            r matches Ok(pid) ==> pid == old(self)@[name@] && final(self)@ == old(self)@.remove(name@),
            r matches Err(e) ==> final(self)@ == old(self)@ && e == (ExecutablesError::ExecutableNotFound { name: *name }),
    {
        let i = match self.find(name) {
            Some(i) => i,
            None => {
                return Err(ExecutablesError::ExecutableNotFound { name: name.clone() });
            },
        };
        let ghost old_running = self.running@;
        let ghost old_model = self.model@;
        let r = self.running.remove(i);
        self.model = Ghost(old_model.remove(name@));
        proof {
            assert forall|j: int| 0 <= j < self.running@.len() implies self.model@.contains_key(
                (#[trigger] self.running@[j]).name@,
            ) && self.model@[self.running@[j].name@] == self.running@[j].pid by {
                if j < i {
                    assert(self.running@[j] == old_running[j]);
                    assert(old_running[j].name@ != old_running[i as int].name@);
                } else {
                    assert(self.running@[j] == old_running[j + 1]);
                    assert(old_running[j + 1].name@ != old_running[i as int].name@);
                }
            }
            assert forall|k: Seq<char>| #[trigger]
                self.model@.contains_key(k) implies exists|j: int|
                0 <= j < self.running@.len() && (#[trigger] self.running@[j]).name@ == k by {
                let m = choose|m: int| 0 <= m < old_running.len() && (#[trigger] old_running[m]).name@ == k;
                if m < i {
                    assert(self.running@[m] == old_running[m]);
                } else {
                    assert(m != i);
                    assert(self.running@[m - 1] == old_running[m]);
                }
            }
            assert forall|a: int, b: int|
                0 <= a < self.running@.len() && 0 <= b < self.running@.len() && a != b
                    implies (#[trigger] self.running@[a]).name@ != (#[trigger] self.running@[b]).name@ by {
                let a2 = if a < i { a } else { a + 1 };
                let b2 = if b < i { b } else { b + 1 };
                assert(self.running@[a] == old_running[a2]);
                assert(self.running@[b] == old_running[b2]);
            }
        }
        Ok(r.pid)
    }
}

} // verus!
