//! Processes as `/proc` describes them: which entries of `/proc` are
//! processes, how the lines of `/proc/<pid>/status` make a process record,
//! and which records a listing keeps.

use vstd::prelude::*;
use vstd::string::*;

use crate::decimal::{parse_u32, parse_u64, spec_parse_u32, spec_parse_u64};
use crate::pattern::{captures, compile_pattern, regex_captures, regex_compiles};
use crate::status::{status_from_name, Status};
use crate::Pid;

verus! {

/// Why a process could not be read.
#[derive(Debug, Clone, PartialEq, Eq)]
pub enum ProcessError {
    /// The process does not exist.
    ProcessNonExsit,
    /// The `/proc` entry of the process is not a directory.
    ProcessProcNotDir,
    /// An error of no known kind.
    ProcessErrorUnknow,
    /// Any other error, with its message.
    ProcessErrorOther(String),
}

/// A process record, or why it could not be read.
pub type ProcessErrorResult = Result<Process, ProcessError>;

/// What `/proc/<pid>/status` says of a process.
#[derive(Debug, Clone)]
pub struct Process {
    /// The command name (`Name:`).
    pub name: String,
    /// The scheduling state (`State:`).
    pub state: Status,
    /// The process id (`Pid:`).
    pub pid: Pid,
    /// The parent's process id (`PPid:`).
    pub ppid: Pid,
    /// The virtual memory size in KiB (`VmSize:`).
    pub vmsize: u64,
    /// The resident set size in KiB (`VmRSS:`).
    pub vmrss: u64,
}

/// The contents of a process record.
pub struct ProcessView {
    pub name: Seq<char>,
    pub state: Status,
    pub pid: Pid,
    pub ppid: Pid,
    pub vmsize: u64,
    pub vmrss: u64,
}

impl View for Process {
    type V = ProcessView;

    open spec fn view(&self) -> ProcessView {
        ProcessView {
            name: self.name@,
            state: self.state,
            pid: self.pid,
            ppid: self.ppid,
            vmsize: self.vmsize,
            vmrss: self.vmrss,
        }
    }
}

/// The record before any status line is read: no name, an unknown state,
/// and every number 0.
pub open spec fn blank_process() -> ProcessView {
    ProcessView {
        name: Seq::empty(),
        state: Status::Unknown,
        pid: 0,
        ppid: 0,
        vmsize: 0,
        vmrss: 0,
    }
}

/// The field of a process record that a status line's key names.
#[derive(Debug, Clone, Copy, PartialEq, Eq, Structural)]
pub enum StatusKey {
    Name,
    State,
    Pid,
    PPid,
    VmSize,
    VmRss,
    /// A key that names no field of the record.
    Other,
}

/// The field that `key` names: `Name`, `State`, `Pid`, `PPid`, `VmSize` and
/// `VmRSS`, spelled exactly so.
pub open spec fn status_key(key: Seq<char>) -> StatusKey {
    if key == seq!['N', 'a', 'm', 'e'] {
        StatusKey::Name
    } else if key == seq!['S', 't', 'a', 't', 'e'] {
        StatusKey::State
    } else if key == seq!['P', 'i', 'd'] {
        StatusKey::Pid
    } else if key == seq!['P', 'P', 'i', 'd'] {
        StatusKey::PPid
    } else if key == seq!['V', 'm', 'S', 'i', 'z', 'e'] {
        StatusKey::VmSize
    } else if key == seq!['V', 'm', 'R', 'S', 'S'] {
        StatusKey::VmRss
    } else {
        StatusKey::Other
    }
}

/// Whether two texts are the same.
fn same_text(a: &str, b: &str) -> (r: bool)
    ensures
        r == (a@ == b@),
{
    let n = a.unicode_len();
    if n != b.unicode_len() {
        return false;
    }
    let mut i: usize = 0;
    while i < n
        invariant
            n == a@.len(),
            n == b@.len(),
            i <= n,
            a@.take(i as int) == b@.take(i as int),
        decreases n - i,
    {
        if a.get_char(i) != b.get_char(i) {
            return false;
        }
        assert(a@.take(i + 1) =~= a@.take(i as int).push(a@[i as int]));
        assert(b@.take(i + 1) =~= b@.take(i as int).push(b@[i as int]));
        i = i + 1;
    }
    assert(a@ =~= a@.take(n as int));
    assert(b@ =~= b@.take(n as int));
    true
}

impl StatusKey {
    /// The field that a status line's key names.
    pub fn classify(key: &str) -> (r: StatusKey)
        ensures
            r == status_key(key@),
    {
        proof {
            reveal_strlit("Name");
            reveal_strlit("State");
            reveal_strlit("Pid");
            reveal_strlit("PPid");
            reveal_strlit("VmSize");
            reveal_strlit("VmRSS");
            assert("Name"@ =~= seq!['N', 'a', 'm', 'e']);
            assert("State"@ =~= seq!['S', 't', 'a', 't', 'e']);
            assert("Pid"@ =~= seq!['P', 'i', 'd']);
            assert("PPid"@ =~= seq!['P', 'P', 'i', 'd']);
            assert("VmSize"@ =~= seq!['V', 'm', 'S', 'i', 'z', 'e']);
            assert("VmRSS"@ =~= seq!['V', 'm', 'R', 'S', 'S']);
        }
        if same_text(key, "Name") {
            StatusKey::Name
        } else if same_text(key, "State") {
            StatusKey::State
        } else if same_text(key, "Pid") {
            StatusKey::Pid
        } else if same_text(key, "PPid") {
            StatusKey::PPid
        } else if same_text(key, "VmSize") {
            StatusKey::VmSize
        } else if same_text(key, "VmRSS") {
            StatusKey::VmRss
        } else {
            StatusKey::Other
        }
    }
}

/// Whether `value` can be stored in the field that `key` names: the
/// numeric fields take an unsigned decimal number that fits the field.
pub open spec fn field_value_ok(key: Seq<char>, value: Seq<char>) -> bool {
    match status_key(key) {
        StatusKey::Pid | StatusKey::PPid => spec_parse_u32(value) is Some,
        StatusKey::VmSize | StatusKey::VmRss => spec_parse_u64(value) is Some,
        _ => true,
    }
}

/// The record `p` with the field that `key` names set from `value`; a key
/// that names no field leaves the record as it is.
pub open spec fn with_field(p: ProcessView, key: Seq<char>, value: Seq<char>) -> ProcessView {
    match status_key(key) {
        StatusKey::Name => ProcessView { name: value, ..p },
        StatusKey::State => ProcessView { state: status_from_name(value), ..p },
        StatusKey::Pid => ProcessView { pid: spec_parse_u32(value).unwrap(), ..p },
        StatusKey::PPid => ProcessView { ppid: spec_parse_u32(value).unwrap(), ..p },
        StatusKey::VmSize => ProcessView { vmsize: spec_parse_u64(value).unwrap(), ..p },
        StatusKey::VmRss => ProcessView { vmrss: spec_parse_u64(value).unwrap(), ..p },
        StatusKey::Other => p,
    }
}

/// The pattern a status line is matched with: a key of word characters, a
/// colon, white space, and a value without white space.
pub const STATUS_LINE_PATTERN: &'static str = r"^(\w+):\s+(\S+)\s*.*$";

/// What one status line does to a record, given what the line pattern
/// captured of it: a line the pattern does not match changes nothing; a
/// matched line sets the field its key names from its value; `None` where
/// the key or the value was not captured, or the value is no number that
/// fits a numeric field.
pub open spec fn status_line_step(
    p: Option<ProcessView>,
    caps: Option<Seq<Option<Seq<char>>>>,
) -> Option<ProcessView> {
    match p {
        None => None,
        Some(p) => match caps {
            None => Some(p),
            Some(g) => if g.len() > 2 && g[1] is Some && g[2] is Some && field_value_ok(
                g[1].unwrap(),
                g[2].unwrap(),
            ) {
                Some(with_field(p, g[1].unwrap(), g[2].unwrap()))
            } else {
                None
            },
        },
    }
}

/// The record that the status lines `lines` make, line by line from the
/// blank record; `None` where some line cannot be stored.
pub open spec fn status_lines_record(lines: Seq<Seq<char>>) -> Option<ProcessView>
    decreases lines.len(),
{
    if lines.len() == 0 {
        Some(blank_process())
    } else {
        status_line_step(
            status_lines_record(lines.drop_last()),
            regex_captures(STATUS_LINE_PATTERN@, lines.last()),
        )
    }
}

/// The record that a status file with the lines `lines` describes; `None`
/// where the line pattern does not compile or some line cannot be stored.
pub open spec fn status_record(lines: Seq<Seq<char>>) -> Option<ProcessView> {
    if regex_compiles(STATUS_LINE_PATTERN@) {
        status_lines_record(lines)
    } else {
        None
    }
}

/// Once a line cannot be stored, no later line makes a record.
pub proof fn lemma_status_lines_failure_persists(lines: Seq<Seq<char>>, k: int)
    requires
        0 <= k <= lines.len(),
        status_lines_record(lines.take(k)) is None,
    ensures
        status_lines_record(lines) is None,
    decreases lines.len(),
{
    if k < lines.len() {
        assert(lines.drop_last().take(k) =~= lines.take(k));
        lemma_status_lines_failure_persists(lines.drop_last(), k);
    } else {
        assert(lines.take(k) =~= lines);
    }
}

impl Process {
    /// Sets the field that `key` names from `value`.
    pub fn set_field(&mut self, key: &str, value: &str)
        requires
            field_value_ok(key@, value@),
        ensures
            final(self)@ == with_field(old(self)@, key@, value@),
    {
        match StatusKey::classify(key) {
            StatusKey::Name => {
                self.name = value.to_owned();
            },
            StatusKey::State => {
                self.state = Status::from_str(value);
            },
            StatusKey::Pid => {
                if let Some(n) = parse_u32(value) {
                    self.pid = n;
                }
            },
            StatusKey::PPid => {
                if let Some(n) = parse_u32(value) {
                    self.ppid = n;
                }
            },
            StatusKey::VmSize => {
                if let Some(n) = parse_u64(value) {
                    self.vmsize = n;
                }
            },
            StatusKey::VmRss => {
                if let Some(n) = parse_u64(value) {
                    self.vmrss = n;
                }
            },
            StatusKey::Other => {},
        }
    }

    /// Applies one status line, given the groups that the status line
    /// pattern captured of it (`None` where the pattern did not match).
    /// A line whose key or value was not captured, or whose value is no
    /// number that fits its numeric field, is an error and leaves the record
    /// as it was.
    pub fn apply_status_line(&mut self, caps: Option<Vec<Option<String>>>) -> (r: Result<
        (),
        ProcessError,
    >)
        ensures
            status_line_step(Some(old(self)@), caps.deep_view()) matches Some(q) ==> r is Ok
                && final(self)@ == q,
            status_line_step(Some(old(self)@), caps.deep_view()) is None ==> (r matches Err(
                ProcessError::ProcessErrorOther(_),
            )) && final(self)@ == old(self)@,
    {
        match caps {
            None => Ok(()),
            Some(groups) => {
                if groups.len() <= 2 {
                    return Err(ProcessError::ProcessErrorOther("malformed status line".to_owned()));
                }
                let key = match &groups[1] {
                    Some(k) => k,
                    None => {
                        return Err(
                            ProcessError::ProcessErrorOther("malformed status line".to_owned()),
                        );
                    },
                };
                let value = match &groups[2] {
                    Some(v) => v,
                    None => {
                        return Err(
                            ProcessError::ProcessErrorOther("malformed status line".to_owned()),
                        );
                    },
                };
                assert(groups.deep_view()[1] == groups@[1].deep_view());
                assert(groups.deep_view()[2] == groups@[2].deep_view());
                let ok = match StatusKey::classify(key.as_str()) {
                    StatusKey::Pid | StatusKey::PPid => parse_u32(value.as_str()).is_some(),
                    StatusKey::VmSize | StatusKey::VmRss => parse_u64(value.as_str()).is_some(),
                    _ => true,
                };
                if !ok {
                    return Err(
                        ProcessError::ProcessErrorOther("invalid number in status line".to_owned()),
                    );
                }
                self.set_field(key.as_str(), value.as_str());
                Ok(())
            },
        }
    }
}

/// Builds a process record from the lines of its status file: each line
/// that the status line pattern matches sets the field its key names.
/// Where the pattern does not compile, or a matched line cannot be stored,
/// the result is `ProcessErrorOther`.
pub fn parse_status_lines(lines: &Vec<String>) -> (r: ProcessErrorResult)
    ensures
        status_record(lines.deep_view()) matches Some(v) ==> r matches Ok(p) && p@ == v,
        status_record(lines.deep_view()) is None ==> r matches Err(
            ProcessError::ProcessErrorOther(_),
        ),
{
    let pattern = match compile_pattern(STATUS_LINE_PATTERN) {
        Ok(p) => p,
        Err(_) => {
            return Err(ProcessError::ProcessErrorOther("status line pattern rejected".to_owned()));
        },
    };
    let ghost all = lines.deep_view();
    let mut p = Process {
        name: String::new(),
        state: Status::Unknown,
        pid: 0,
        ppid: 0,
        vmsize: 0,
        vmrss: 0,
    };
    assert(all.take(0) =~= Seq::<Seq<char>>::empty());
    let n = lines.len();
    let mut i: usize = 0;
    while i < n
        invariant
            n == lines@.len(),
            all == lines.deep_view(),
            i <= n,
            pattern@ == STATUS_LINE_PATTERN@,
            status_lines_record(all.take(i as int)) == Some(p@),
        decreases n - i,
    {
        let caps = captures(&pattern, lines[i].as_str());
        assert(all.take(i + 1).drop_last() =~= all.take(i as int));
        assert(all[i as int] == lines@[i as int]@);
        match p.apply_status_line(caps) {
            Ok(()) => {},
            Err(e) => {
                proof {
                    lemma_status_lines_failure_persists(all, i + 1);
                }
                return Err(e);
            },
        }
        i = i + 1;
    }
    assert(all.take(n as int) =~= all);
    Ok(p)
}


impl Process {
    /// Reads a process from what `/proc/<pid>` gave: `proc_dir` tells
    /// whether the entry is a directory (or why its metadata could not be
    /// read), and `status` holds the lines of its `status` file (or why the
    /// file could not be opened). The entry is looked at before the file.
    pub fn new(proc_dir: Result<bool, String>, status: Result<Vec<String>, String>) -> (r:
        ProcessErrorResult)
        ensures
            proc_dir matches Err(e) ==> (r matches Err(ProcessError::ProcessErrorOther(m))
                && m@ == e@),
            proc_dir == Ok::<bool, String>(false) ==> r == Err::<Process, ProcessError>(
                ProcessError::ProcessProcNotDir,
            ),
            proc_dir == Ok::<bool, String>(true) ==> {
                &&& status matches Err(e) ==> (r matches Err(ProcessError::ProcessErrorOther(m))
                    && m@ == e@)
                &&& status matches Ok(lines) ==> {
                    &&& status_record(lines.deep_view()) matches Some(v) ==> (r matches Ok(p)
                        && p@ == v)
                    &&& status_record(lines.deep_view()) is None ==> (r matches Err(
                        ProcessError::ProcessErrorOther(_),
                    ))
                }
            },
    {
        match proc_dir {
            Err(e) => Err(ProcessError::ProcessErrorOther(e)),
            Ok(is_dir) => {
                if !is_dir {
                    return Err(ProcessError::ProcessProcNotDir);
                }
                match status {
                    Err(e) => Err(ProcessError::ProcessErrorOther(e)),
                    Ok(lines) => parse_status_lines(&lines),
                }
            },
        }
    }
}

/// What a listing of `/proc` says of one entry.
#[derive(Debug, Clone)]
pub struct DirEntryInfo {
    /// The entry's name; `None` where it is not valid Unicode.
    pub file_name: Option<String>,
    /// Whether the entry is a directory; `None` where its metadata could
    /// not be read.
    pub is_dir: Option<bool>,
}

/// The process id an entry of `/proc` stands for: a directory whose name
/// is an unsigned decimal number that fits a `Pid`.
pub open spec fn entry_pid(e: DirEntryInfo) -> Option<Pid> {
    match e.file_name {
        Some(name) => if e.is_dir == Some(true) {
            spec_parse_u32(name@)
        } else {
            None
        },
        None => None,
    }
}

/// The process ids that the entries stand for, in the entries' order.
pub open spec fn entries_pids(entries: Seq<DirEntryInfo>) -> Seq<Pid>
    decreases entries.len(),
{
    if entries.len() == 0 {
        Seq::empty()
    } else {
        let rest = entries_pids(entries.drop_last());
        match entry_pid(entries.last()) {
            Some(pid) => rest.push(pid),
            None => rest,
        }
    }
}

/// Lists the process ids in `/proc`, given whether `/proc` is a directory
/// (or why its metadata could not be read) and its entries (or why it could
/// not be listed). Entries that are no directory, whose metadata or name
/// could not be read, or whose name is no process id, are passed over.
pub fn visit_dirs(dir: Result<bool, String>, entries: Result<Vec<DirEntryInfo>, String>) -> (r:
    Result<Vec<Pid>, String>)
    ensures
        dir matches Err(e) ==> (r matches Err(m) && m@ == e@),
        dir == Ok::<bool, String>(false) ==> (r matches Err(m) && m@ == "not a dir"@),
        dir == Ok::<bool, String>(true) ==> {
            &&& entries matches Err(e) ==> (r matches Err(m) && m@ == e@)
            &&& entries matches Ok(es) ==> (r matches Ok(pids) && pids@ == entries_pids(es@))
        },
{
    match dir {
        Err(e) => {
            return Err(e);
        },
        Ok(is_dir) => {
            if !is_dir {
                return Err("not a dir".to_owned());
            }
        },
    }
    let es = match entries {
        Err(e) => {
            return Err(e);
        },
        Ok(es) => es,
    };
    let mut pids: Vec<Pid> = Vec::new();
    let n = es.len();
    let mut i: usize = 0;
    assert(es@.take(0) =~= Seq::<DirEntryInfo>::empty());
    while i < n
        invariant
            n == es@.len(),
            i <= n,
            pids@ == entries_pids(es@.take(i as int)),
        decreases n - i,
    {
        let e = &es[i];
        assert(es@.take(i + 1).drop_last() =~= es@.take(i as int));
        assert(es@.take(i + 1).last() == es@[i as int]);
        if let Some(is_dir) = e.is_dir {
            if is_dir {
                if let Some(name) = &e.file_name {
                    if let Some(pid) = parse_u32(name.as_str()) {
                        pids.push(pid);
                    }
                }
            }
        }
        i = i + 1;
    }
    assert(es@.take(n as int) =~= es@);
    Ok(pids)
}

/// The records that the results hold, in order, passing over every error.
pub open spec fn readable_processes(results: Seq<ProcessErrorResult>) -> Seq<ProcessView>
    decreases results.len(),
{
    if results.len() == 0 {
        Seq::empty()
    } else {
        let rest = readable_processes(results.drop_last());
        match results.last() {
            Ok(p) => rest.push(p@),
            Err(_) => rest,
        }
    }
}

/// Lists the processes: given the result of reading each process that the
/// `/proc` listing names (or why `/proc` could not be listed), keeps the
/// processes that could be read, in order, and passes over the others.
pub fn ps(listing: Result<Vec<ProcessErrorResult>, String>) -> (r: Result<Vec<Process>, String>)
    ensures
        listing matches Err(e) ==> (r matches Err(m) && m@ == e@),
        listing matches Ok(results) ==> (r matches Ok(ps) && ps@.map_values(|p: Process| p@)
            == readable_processes(results@)),
{
    let results = match listing {
        Err(e) => {
            return Err(e);
        },
        Ok(results) => results,
    };
    let ghost all = results@;
    let mut processes: Vec<Process> = Vec::new();
    assert(all.take(0) =~= Seq::<ProcessErrorResult>::empty());
    for r in it: results.into_iter()
        invariant
            it.seq() == all,
            processes@.map_values(|p: Process| p@) == readable_processes(all.take(it.index() as int)),
    {
        assert(all.take(it.index() + 1).drop_last() =~= all.take(it.index() as int));
        match r {
            Ok(p) => {
                processes.push(p);
            },
            Err(_) => {},
        }
        assert(processes@.map_values(|p: Process| p@) =~= readable_processes(
            all.take(it.index() + 1),
        ));
    }
    assert(all.take(all.len() as int) =~= all);
    Ok(processes)
}

/// Each field is named by one exact key text, and by nothing else: a key
/// that only shares a prefix, or differs in case, names no field.
pub proof fn lemma_status_key_exact(k: Seq<char>)
    ensures
        (status_key(k) == StatusKey::Name) <==> k == seq!['N', 'a', 'm', 'e'],
        (status_key(k) == StatusKey::State) <==> k == seq!['S', 't', 'a', 't', 'e'],
        (status_key(k) == StatusKey::Pid) <==> k == seq!['P', 'i', 'd'],
        (status_key(k) == StatusKey::PPid) <==> k == seq!['P', 'P', 'i', 'd'],
        (status_key(k) == StatusKey::VmSize) <==> k == seq!['V', 'm', 'S', 'i', 'z', 'e'],
        (status_key(k) == StatusKey::VmRss) <==> k == seq!['V', 'm', 'R', 'S', 'S'],
{
    lemma_key_texts_distinct();
}

/// The six key texts are pairwise different.
proof fn lemma_key_texts_distinct()
    ensures
        seq!['N', 'a', 'm', 'e'] != seq!['S', 't', 'a', 't', 'e'],
        seq!['N', 'a', 'm', 'e'] != seq!['P', 'i', 'd'],
        seq!['N', 'a', 'm', 'e'] != seq!['P', 'P', 'i', 'd'],
        seq!['N', 'a', 'm', 'e'] != seq!['V', 'm', 'S', 'i', 'z', 'e'],
        seq!['N', 'a', 'm', 'e'] != seq!['V', 'm', 'R', 'S', 'S'],
        seq!['S', 't', 'a', 't', 'e'] != seq!['P', 'i', 'd'],
        seq!['S', 't', 'a', 't', 'e'] != seq!['P', 'P', 'i', 'd'],
        seq!['S', 't', 'a', 't', 'e'] != seq!['V', 'm', 'S', 'i', 'z', 'e'],
        seq!['S', 't', 'a', 't', 'e'] != seq!['V', 'm', 'R', 'S', 'S'],
        seq!['P', 'i', 'd'] != seq!['P', 'P', 'i', 'd'],
        seq!['P', 'i', 'd'] != seq!['V', 'm', 'S', 'i', 'z', 'e'],
        seq!['P', 'i', 'd'] != seq!['V', 'm', 'R', 'S', 'S'],
        seq!['P', 'P', 'i', 'd'] != seq!['V', 'm', 'S', 'i', 'z', 'e'],
        seq!['P', 'P', 'i', 'd'] != seq!['V', 'm', 'R', 'S', 'S'],
        seq!['V', 'm', 'S', 'i', 'z', 'e'] != seq!['V', 'm', 'R', 'S', 'S'],
{
    assert(seq!['N', 'a', 'm', 'e'][0] != seq!['S', 't', 'a', 't', 'e'][0]);
    assert(seq!['N', 'a', 'm', 'e'].len() != seq!['P', 'i', 'd'].len());
    assert(seq!['N', 'a', 'm', 'e'][0] != seq!['P', 'P', 'i', 'd'][0]);
    assert(seq!['N', 'a', 'm', 'e'].len() != seq!['V', 'm', 'S', 'i', 'z', 'e'].len());
    assert(seq!['N', 'a', 'm', 'e'].len() != seq!['V', 'm', 'R', 'S', 'S'].len());
    assert(seq!['S', 't', 'a', 't', 'e'].len() != seq!['P', 'i', 'd'].len());
    assert(seq!['S', 't', 'a', 't', 'e'].len() != seq!['P', 'P', 'i', 'd'].len());
    assert(seq!['S', 't', 'a', 't', 'e'].len() != seq!['V', 'm', 'S', 'i', 'z', 'e'].len());
    assert(seq!['S', 't', 'a', 't', 'e'][0] != seq!['V', 'm', 'R', 'S', 'S'][0]);
    assert(seq!['P', 'i', 'd'].len() != seq!['P', 'P', 'i', 'd'].len());
    assert(seq!['P', 'i', 'd'].len() != seq!['V', 'm', 'S', 'i', 'z', 'e'].len());
    assert(seq!['P', 'i', 'd'].len() != seq!['V', 'm', 'R', 'S', 'S'].len());
    assert(seq!['P', 'P', 'i', 'd'].len() != seq!['V', 'm', 'S', 'i', 'z', 'e'].len());
    assert(seq!['P', 'P', 'i', 'd'].len() != seq!['V', 'm', 'R', 'S', 'S'].len());
    assert(seq!['V', 'm', 'S', 'i', 'z', 'e'].len() != seq!['V', 'm', 'R', 'S', 'S'].len());
}

/// Storing a status line changes only the field its key names: a key that is
/// none of the six field names leaves the record as it was, and `VmSize`
/// sets the virtual memory size alone.
pub proof fn lemma_with_field_touches_named_field(p: ProcessView, k: Seq<char>, v: Seq<char>)
    ensures
        k != seq!['N', 'a', 'm', 'e'] && k != seq!['S', 't', 'a', 't', 'e'] && k != seq![
            'P',
            'i',
            'd',
        ] && k != seq!['P', 'P', 'i', 'd'] && k != seq!['V', 'm', 'S', 'i', 'z', 'e'] && k
            != seq!['V', 'm', 'R', 'S', 'S'] ==> with_field(p, k, v) == p,
        k == seq!['V', 'm', 'S', 'i', 'z', 'e'] ==> with_field(p, k, v) == (ProcessView {
            vmsize: spec_parse_u64(v).unwrap(),
            ..p
        }),
        k == seq!['V', 'm', 'R', 'S', 'S'] ==> with_field(p, k, v) == (ProcessView {
            vmrss: spec_parse_u64(v).unwrap(),
            ..p
        }),
        k == seq!['P', 'i', 'd'] ==> with_field(p, k, v) == (ProcessView {
            pid: spec_parse_u32(v).unwrap(),
            ..p
        }),
        k == seq!['P', 'P', 'i', 'd'] ==> with_field(p, k, v) == (ProcessView {
            ppid: spec_parse_u32(v).unwrap(),
            ..p
        }),
        k == seq!['N', 'a', 'm', 'e'] ==> with_field(p, k, v) == (ProcessView { name: v, ..p }),
        k == seq!['S', 't', 'a', 't', 'e'] ==> with_field(p, k, v) == (ProcessView {
            state: status_from_name(v),
            ..p
        }),
{
    lemma_status_key_exact(k);
}

/// Every entry that stands for a process id adds that id at the end of the
/// list, and every other entry adds nothing.
pub proof fn lemma_entries_pids_push(es: Seq<DirEntryInfo>, e: DirEntryInfo)
    ensures
        e.is_dir == Some(true) && e.file_name is Some && spec_parse_u32(e.file_name.unwrap()@)
            is Some ==> entries_pids(es.push(e)) == entries_pids(es).push(
            spec_parse_u32(e.file_name.unwrap()@).unwrap(),
        ),
        !(e.is_dir == Some(true) && e.file_name is Some && spec_parse_u32(
            e.file_name.unwrap()@,
        ) is Some) ==> entries_pids(es.push(e)) == entries_pids(es),
{
    assert(es.push(e).drop_last() =~= es);
}

/// The list of process ids is as long as the number of entries that are
/// directories named by a process id.
pub proof fn lemma_entries_pids_len(es: Seq<DirEntryInfo>)
    ensures
        entries_pids(es).len() == es.filter(|e: DirEntryInfo| entry_pid(e) is Some).len(),
    decreases es.len(),
{
    if es.len() > 0 {
        let init = es.drop_last();
        lemma_entries_pids_len(init);
        assert(init.push(es.last()) =~= es);
        init.lemma_filter_push(es.last(), |e: DirEntryInfo| entry_pid(e) is Some);
        lemma_entries_pids_push(init, es.last());
    }
}

/// Every readable process is kept, at the end, and every error adds
/// nothing.
pub proof fn lemma_readable_processes_push(rs: Seq<ProcessErrorResult>, p: Process, e: ProcessError)
    ensures
        readable_processes(rs.push(Ok(p))) == readable_processes(rs).push(p@),
        readable_processes(rs.push(Err(e))) == readable_processes(rs),
{
    assert(rs.push(Ok::<Process, ProcessError>(p)).drop_last() =~= rs);
    assert(rs.push(Err::<Process, ProcessError>(e)).drop_last() =~= rs);
}

/// The list of processes is as long as the number of results that are no
/// error.
pub proof fn lemma_readable_processes_len(rs: Seq<ProcessErrorResult>)
    ensures
        readable_processes(rs).len() == rs.filter(|r: ProcessErrorResult| r is Ok).len(),
    decreases rs.len(),
{
    if rs.len() > 0 {
        let init = rs.drop_last();
        lemma_readable_processes_len(init);
        assert(init.push(rs.last()) =~= rs);
        init.lemma_filter_push(rs.last(), |r: ProcessErrorResult| r is Ok);
    }
}

/// Reading one more status line: a line the pattern does not match leaves
/// the record alone; a matched line whose key and value were captured and
/// whose value fits the field stores it in the field its key names; any
/// other matched line makes the whole file unreadable.
pub proof fn lemma_status_lines_push(lines: Seq<Seq<char>>, line: Seq<char>)
    ensures
        ({
            let before = status_lines_record(lines);
            let after = status_lines_record(lines.push(line));
            let caps = regex_captures(STATUS_LINE_PATTERN@, line);
            &&& before is None ==> after is None
            &&& before is Some && caps is None ==> after == before
            &&& before is Some ==> (caps matches Some(g) ==> {
                if g.len() > 2 && g[1] is Some && g[2] is Some && field_value_ok(
                    g[1].unwrap(),
                    g[2].unwrap(),
                ) {
                    after == Some(with_field(before.unwrap(), g[1].unwrap(), g[2].unwrap()))
                } else {
                    after is None
                }
            })
        }),
{
    assert(lines.push(line).drop_last() =~= lines);
}

} // verus!
