use monrs::process::{
    parse_status_lines, ps, visit_dirs, DirEntryInfo, Process, ProcessError, StatusKey,
};
use monrs::status::Status;

fn lines(text: &str) -> Vec<String> {
    text.lines().map(|l| l.to_string()).collect()
}

const SAMPLE: &str = "Name:\tbash
Umask:\t0022
State:\tS (sleeping)
Tgid:\t1234
Ngid:\t0
Pid:\t1234
PPid:\t1200
TracerPid:\t0
Uid:\t1000\t1000\t1000\t1000
Groups:\t
VmPeak:\t   22000 kB
VmSize:\t   21964 kB
VmRSS:\t    5120 kB
Threads:\t1";

#[test]
fn parse_status_lines_reads_sample_file() {
    let p = parse_status_lines(&lines(SAMPLE)).unwrap();
    assert_eq!(p.name, "bash");
    assert_eq!(p.state, Status::S);
    assert_eq!(p.pid, 1234);
    assert_eq!(p.ppid, 1200);
    assert_eq!(p.vmsize, 21964);
    assert_eq!(p.vmrss, 5120);
}

#[test]
fn parse_status_lines_of_nothing_is_blank() {
    let p = parse_status_lines(&Vec::new()).unwrap();
    assert_eq!(p.name, "");
    assert_eq!(p.state, Status::Unknown);
    assert_eq!((p.pid, p.ppid, p.vmsize, p.vmrss), (0, 0, 0, 0));
}

#[test]
fn parse_status_lines_later_line_wins_and_unmatched_lines_are_skipped() {
    let p = parse_status_lines(&lines("Pid: 1\nnot a status line\nPid:\t2\nName:\nName:  kworker/0:1  extra")).unwrap();
    assert_eq!(p.pid, 2);
    assert_eq!(p.name, "kworker/0:1");
}

#[test]
fn parse_status_lines_rejects_bad_numbers() {
    let r = parse_status_lines(&lines("Name:\tx\nPid:\tabc"));
    assert!(matches!(r, Err(ProcessError::ProcessErrorOther(_))));
    let r = parse_status_lines(&lines("VmRSS:\t99999999999999999999999 kB"));
    assert!(matches!(r, Err(ProcessError::ProcessErrorOther(_))));
    let r = parse_status_lines(&lines("PPid:\t4294967296"));
    assert!(matches!(r, Err(ProcessError::ProcessErrorOther(_))));
}

#[test]
fn status_key_classify_is_exact() {
    assert_eq!(StatusKey::classify("Name"), StatusKey::Name);
    assert_eq!(StatusKey::classify("State"), StatusKey::State);
    assert_eq!(StatusKey::classify("Pid"), StatusKey::Pid);
    assert_eq!(StatusKey::classify("PPid"), StatusKey::PPid);
    assert_eq!(StatusKey::classify("VmSize"), StatusKey::VmSize);
    assert_eq!(StatusKey::classify("VmRSS"), StatusKey::VmRss);
    assert_eq!(StatusKey::classify("VmRss"), StatusKey::Other);
    assert_eq!(StatusKey::classify("pid"), StatusKey::Other);
    assert_eq!(StatusKey::classify(""), StatusKey::Other);
}

#[test]
fn set_field_updates_one_field() {
    let mut p = parse_status_lines(&Vec::new()).unwrap();
    p.set_field("State", "z");
    assert_eq!(p.state, Status::Z);
    p.set_field("VmSize", "+77");
    assert_eq!(p.vmsize, 77);
    p.set_field("Threads", "whatever");
    assert_eq!(p.vmsize, 77);
}

#[test]
fn apply_status_line_uses_captured_groups() {
    let mut p = parse_status_lines(&Vec::new()).unwrap();
    assert!(p.apply_status_line(None).is_ok());
    let caps = Some(vec![Some("PPid:\t7".to_string()), Some("PPid".to_string()), Some("7".to_string())]);
    assert!(p.apply_status_line(caps).is_ok());
    assert_eq!(p.ppid, 7);
    let short = Some(vec![Some("x".to_string())]);
    assert!(matches!(p.apply_status_line(short), Err(ProcessError::ProcessErrorOther(_))));
    let missing = Some(vec![Some("x".to_string()), None, Some("1".to_string())]);
    assert!(matches!(p.apply_status_line(missing), Err(ProcessError::ProcessErrorOther(_))));
    assert_eq!(p.ppid, 7);
}

#[test]
fn process_new_checks_entry_then_file() {
    let r = Process::new(Err("gone".to_string()), Ok(Vec::new()));
    assert_eq!(r.unwrap_err(), ProcessError::ProcessErrorOther("gone".to_string()));
    let r = Process::new(Ok(false), Ok(Vec::new()));
    assert_eq!(r.unwrap_err(), ProcessError::ProcessProcNotDir);
    let r = Process::new(Ok(true), Err("no status".to_string()));
    assert_eq!(r.unwrap_err(), ProcessError::ProcessErrorOther("no status".to_string()));
    let p = Process::new(Ok(true), Ok(lines(SAMPLE))).unwrap();
    assert_eq!(p.pid, 1234);
}

fn entry(name: Option<&str>, is_dir: Option<bool>) -> DirEntryInfo {
    DirEntryInfo { file_name: name.map(|s| s.to_string()), is_dir }
}

#[test]
fn visit_dirs_keeps_numeric_directories() {
    let entries = vec![
        entry(Some("1"), Some(true)),
        entry(Some("self"), Some(true)),
        entry(Some("42"), Some(false)),
        entry(Some("43"), None),
        entry(None, Some(true)),
        entry(Some("99999999999"), Some(true)),
        entry(Some("812"), Some(true)),
    ];
    assert_eq!(visit_dirs(Ok(true), Ok(entries)), Ok(vec![1, 812]));
}

#[test]
fn visit_dirs_errors() {
    assert_eq!(visit_dirs(Err("denied".to_string()), Ok(Vec::new())), Err("denied".to_string()));
    assert_eq!(visit_dirs(Ok(false), Ok(Vec::new())), Err("not a dir".to_string()));
    assert_eq!(visit_dirs(Ok(true), Err("unreadable".to_string())), Err("unreadable".to_string()));
    assert_eq!(visit_dirs(Ok(true), Ok(Vec::new())), Ok(Vec::new()));
}

#[test]
fn ps_keeps_readable_processes_in_order() {
    let a = Process::new(Ok(true), Ok(lines("Pid:\t10"))).unwrap();
    let b = Process::new(Ok(true), Ok(lines("Pid:\t20"))).unwrap();
    let listing = vec![
        Ok(a),
        Err(ProcessError::ProcessProcNotDir),
        Ok(b),
        Err(ProcessError::ProcessErrorOther("x".to_string())),
    ];
    let got = ps(Ok(listing)).unwrap();
    assert_eq!(got.iter().map(|p| p.pid).collect::<Vec<_>>(), vec![10, 20]);
    assert_eq!(ps(Err("no proc".to_string())).unwrap_err(), "no proc");
    assert!(ps(Ok(Vec::new())).unwrap().is_empty());
}
