use vstd::prelude::*;

verus! {

/// The closed set of operations the gateway can run.
#[derive(Clone, Copy, Debug, PartialEq, Eq, Structural)]
pub enum Process {
    BskyTrending,
    BuildDuckDb,
    ClearData,
    Date,
    Jetstream,
    Uname,
}

/// Outcome of a process that ran: the tag follows the exit status, the text is its stdout.
#[derive(Clone, Debug)]
pub enum TaskResult {
    Success(String),
    Fail(String),
}

#[derive(Clone, Debug)]
pub enum TaskStatus {
    Created,
    Finished(TaskResult),
    Queued,
    Running,
}

/// One invocation of a registered operation.
#[derive(Clone, Debug)]
pub struct Task {
    pub process: Process,
    pub cmd: String,
    pub args: Vec<String>,
    pub status: TaskStatus,
    pub result: Option<TaskResult>,
}

#[allow(dead_code)]
pub struct TaskQueue {
    tasks: Vec<Task>,
}

/// External name of each operation, as it appears in a request path.
pub open spec fn spec_process_name(p: Process) -> Seq<char> {
    match p {
        Process::BskyTrending => "bsky_trending"@,
        Process::BuildDuckDb => "build_duck_db"@,
        Process::ClearData => "clear_data"@,
        Process::Date => "date"@,
        Process::Jetstream => "jetstream"@,
        Process::Uname => "uname"@,
    }
}

/// Executable that each operation runs.
pub open spec fn spec_cmd(p: Process) -> Seq<char> {
    match p {
        Process::BskyTrending => "./bin/bsky-trending"@,
        Process::BuildDuckDb => "./scripts/build-duckdb"@,
        Process::ClearData => "./scripts/clear-data"@,
        Process::Date => "uname"@,
        Process::Jetstream => "./bin/jetstream-client"@,
        Process::Uname => "date"@,
    }
}

/// Argument list that each operation passes, in order.
pub open spec fn spec_args(p: Process) -> Seq<Seq<char>> {
    match p {
        Process::BskyTrending => seq![
            "--db"@, "data/jetstream.duckdb"@, "--limit"@, "500"@,
            "--min"@, "3"@, "--max"@, "4"@,
        ],
        Process::BuildDuckDb => seq!["data/jetstream.json"@, "data/jetstream.duckdb"@],
        Process::ClearData => seq![],
        Process::Date => seq!["-snr"@],
        Process::Jetstream => seq![
            "--json"@, "data/jetstream.json"@, "--db"@, "data/jetstream.sqlite3"@,
        ],
        Process::Uname => seq![],
    }
}

pub open spec fn string_seqs(v: Seq<String>) -> Seq<Seq<char>> {
    v.map_values(|s: String| s@)
}

/// Operation requested under an external name, if any carries it.
pub open spec fn spec_from_name(s: Seq<char>) -> Option<Process> {
    if s == "bsky_trending"@ {
        Some(Process::BskyTrending)
    } else if s == "build_duck_db"@ {
        Some(Process::BuildDuckDb)
    } else if s == "clear_data"@ {
        Some(Process::ClearData)
    } else if s == "date"@ {
        Some(Process::Date)
    } else if s == "jetstream"@ {
        Some(Process::Jetstream)
    } else if s == "uname"@ {
        Some(Process::Uname)
    } else {
        None
    }
}

/// Position of a status on the lifecycle; a task never moves to a lower one.
pub open spec fn status_rank(s: TaskStatus) -> nat {
    match s {
        TaskStatus::Created => 0,
        TaskStatus::Queued => 1,
        TaskStatus::Running => 2,
        TaskStatus::Finished(_) => 3,
    }
}

pub(crate) fn owned(s: &str) -> (r: String)
    ensures
        r@ == s@,
{
    s.to_string()
}

fn owned_all(items: &[&str]) -> (r: Vec<String>)
    ensures
        r@.len() == items@.len(),
        forall|i: int| 0 <= i < items@.len() ==> #[trigger] r@[i]@ == items@[i]@,
{
    let mut out: Vec<String> = Vec::new();
    let mut i: usize = 0;
    while i < items.len()
        invariant
            i <= items@.len(),
            out@.len() == i,
            forall|j: int| 0 <= j < i ==> #[trigger] out@[j]@ == items@[j]@,
        decreases items@.len() - i,
    {
        out.push(owned(items[i]));
        i = i + 1;
    }
    out
}

impl Process {
    /// Looks an operation up by its exact external name.
    pub fn from_name(name: &str) -> (r: Option<Process>)
        ensures
            r == spec_from_name(name@),
    {
        let n = owned(name);
        if n == owned("bsky_trending") {
            Some(Process::BskyTrending)
        } else if n == owned("build_duck_db") {
            Some(Process::BuildDuckDb)
        } else if n == owned("clear_data") {
            Some(Process::ClearData)
        } else if n == owned("date") {
            Some(Process::Date)
        } else if n == owned("jetstream") {
            Some(Process::Jetstream)
        } else if n == owned("uname") {
            Some(Process::Uname)
        } else {
            None
        }
    }

    /// The name under which callers request this operation.
    pub fn name(&self) -> (r: &'static str)
        ensures
            r@ == spec_process_name(*self),
    {
        match self {
            Process::BskyTrending => "bsky_trending",
            Process::BuildDuckDb => "build_duck_db",
            Process::ClearData => "clear_data",
            Process::Date => "date",
            Process::Jetstream => "jetstream",
            Process::Uname => "uname",
        }
    }
}

impl Task {
    pub open spec fn well_formed_for(&self, p: Process) -> bool {
        &&& self.process == p
        &&& self.cmd@ == spec_cmd(p)
        &&& string_seqs(self.args@) == spec_args(p)
    }

    /// Resolves an operation to the command it runs; the task starts out `Created`.
    pub fn new(process: Process) -> (r: Task)
        ensures
            r.well_formed_for(process),
            r.status is Created,
            r.result is None,
    {
        let (cmd, raw): (&str, Vec<&str>) = match process {
            Process::BskyTrending => (
                "./bin/bsky-trending",
                vec![
                    "--db", "data/jetstream.duckdb", "--limit", "500", "--min", "3", "--max", "4",
                ],
            ),
            Process::BuildDuckDb => (
                "./scripts/build-duckdb",
                vec!["data/jetstream.json", "data/jetstream.duckdb"],
            ),
            Process::ClearData => ("./scripts/clear-data", vec![]),
            Process::Date => ("uname", vec!["-snr"]),
            Process::Jetstream => (
                "./bin/jetstream-client",
                vec!["--json", "data/jetstream.json", "--db", "data/jetstream.sqlite3"],
            ),
            Process::Uname => ("date", vec![]),
        };
        let args = owned_all(raw.as_slice());
        assert(string_seqs(args@) =~= spec_args(process));
        Task {
            process,
            cmd: owned(cmd),
            args,
            status: TaskStatus::Created,
            result: None,
        }
    }

    /// Marks a freshly created task as running.
    pub fn start(&mut self)
        requires
            old(self).status is Created,
        ensures
            final(self).status is Running,
            status_rank(old(self).status) < status_rank(final(self).status),
            final(self).process == old(self).process,
            final(self).cmd == old(self).cmd,
            final(self).args == old(self).args,
            final(self).result == old(self).result,
    {
        self.status = TaskStatus::Running;
    }
}

} // verus!
