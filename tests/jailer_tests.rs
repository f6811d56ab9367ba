use firecracker::cgroup::{Cgroup, JailerError, SetupStep};
use firecracker::inherit::{inherit_from_parent, inherit_from_parent_aux, CgroupIo, IoOutcome};
use firecracker::text::split_by;

fn lines(v: &[&str]) -> Vec<String> {
    v.iter().map(|s| s.to_string()).collect()
}

fn path(v: &[&str]) -> Vec<String> {
    lines(v)
}

const MOUNTS: &[&str] = &[
    "sysfs /sys sysfs rw,nosuid,nodev,noexec,relatime 0 0",
    "cgroup /sys/fs/cgroup/cpu,cpuacct cgroup rw,nosuid,nodev,noexec,relatime,cpu,cpuacct 0 0",
    "cgroup /sys/fs/cgroup/cpuset cgroup rw,nosuid,nodev,noexec,relatime,cpuset 0 0",
    "cgroup /sys/fs/cgroup/pids cgroup rw,nosuid,nodev,noexec,relatime,pids 0 0",
];

#[test]
fn cgroup_plan_from_mount_table() {
    let setup = Cgroup::new(&lines(MOUNTS), "id1", 0, "firecracker").unwrap();
    let tasks = setup.cgroup.tasks_files();
    assert_eq!(tasks.len(), 3);
    assert_eq!(tasks[0], path(&["sys", "fs", "cgroup", "cpu,cpuacct", "firecracker", "id1", "tasks"]));
    assert_eq!(tasks[1], path(&["sys", "fs", "cgroup", "cpuset", "firecracker", "id1", "tasks"]));
    assert_eq!(tasks[2], path(&["sys", "fs", "cgroup", "pids", "firecracker", "id1", "tasks"]));
    assert_eq!(setup.steps.len(), 6);
    let cpuset = path(&["sys", "fs", "cgroup", "cpuset", "firecracker", "id1"]);
    assert!(matches!(&setup.steps[1], SetupStep::CreateDir(p) if *p == cpuset));
    assert!(matches!(&setup.steps[2], SetupStep::Inherit(p, f) if *p == cpuset && *f == "cpuset.cpus"));
    assert!(matches!(&setup.steps[3], SetupStep::Inherit(p, f) if *p == cpuset && *f == "cpuset.mems"));
    let mut mems = cpuset.clone();
    mems.push("cpuset.mems".to_string());
    assert!(matches!(&setup.steps[4], SetupStep::WriteValue(p, 0) if *p == mems));
}

#[test]
fn cgroup_controller_missing() {
    let r = Cgroup::new(&lines(&MOUNTS[..3]), "id1", 0, "firecracker");
    assert!(matches!(r, Err(JailerError::CgroupLineNotFound("/proc/mounts", "pids"))));
    let r = Cgroup::new(&lines(&[MOUNTS[0]]), "id1", 0, "firecracker");
    assert!(matches!(r, Err(JailerError::CgroupLineNotFound(_, "cpu"))));
}

#[test]
fn cgroup_controller_twice() {
    let mut v = MOUNTS.to_vec();
    v.push("cgroup /other/cpuset cgroup rw,cpuset 0 0");
    let r = Cgroup::new(&lines(&v), "id1", 0, "firecracker");
    assert!(matches!(r, Err(JailerError::CgroupLineNotUnique("/proc/mounts", "cpuset"))));
}

#[test]
fn cgroup_shared_mount_deduplicates_tasks() {
    let v = [
        "cgroup /sys/fs/cgroup/cpu,cpuset,pids cgroup rw,cpu,cpuset,pids 0 0",
    ];
    let setup = Cgroup::new(&lines(&v), "x", 1, "fc").unwrap();
    assert_eq!(setup.cgroup.tasks_files().len(), 1);
}

#[test]
fn cgroup_line_not_matching_is_skipped() {
    let mut v = MOUNTS.to_vec();
    // Options named in the directory do not count; neither do lines of other types.
    v.push("tmpfs /run/cpuset tmpfs rw,cpuset 0 0");
    v.push("cgroup /x cgroup rw,cpuset 0 1");
    assert!(Cgroup::new(&lines(&v), "id1", 0, "firecracker").is_ok());
}

fn outcome_read(s: &str) -> IoOutcome {
    IoOutcome::Read(s.to_string())
}

#[test]
fn inherit_parent_has_value() {
    let leaf = path(&["c", "fc", "id"]);
    let mut job = inherit_from_parent(&leaf, "cpuset.cpus");
    match job.step(IoOutcome::Ready) {
        CgroupIo::Read(p) => assert_eq!(p, path(&["c", "fc", "cpuset.cpus"])),
        other => panic!("{:?}", other),
    }
    match job.step(outcome_read("0-3\n")) {
        CgroupIo::Write(p, v) => {
            assert_eq!(p, path(&["c", "fc", "id", "cpuset.cpus"]));
            assert_eq!(v, "0-3");
        }
        other => panic!("{:?}", other),
    }
    assert!(matches!(job.step(IoOutcome::Written), CgroupIo::Done(Ok(()))));
    assert!(job.is_finished());
}

#[test]
fn inherit_goes_one_level_up() {
    let leaf = path(&["c", "fc", "id"]);
    let mut job = inherit_from_parent(&leaf, "cpuset.mems");
    assert!(matches!(job.step(IoOutcome::Ready), CgroupIo::Read(_)));
    match job.step(outcome_read("\n")) {
        CgroupIo::Read(p) => assert_eq!(p, path(&["c", "cpuset.mems"])),
        other => panic!("{:?}", other),
    }
    match job.step(outcome_read("0\n")) {
        CgroupIo::Write(p, v) => {
            assert_eq!(p, path(&["c", "fc", "cpuset.mems"]));
            assert_eq!(v, "0");
        }
        other => panic!("{:?}", other),
    }
    // Another jailer may have filled the parent first: the failure is ignored.
    match job.step(IoOutcome::WriteFailed) {
        CgroupIo::Read(p) => assert_eq!(p, path(&["c", "fc", "cpuset.mems"])),
        other => panic!("{:?}", other),
    }
    match job.step(outcome_read("0\n")) {
        CgroupIo::Write(p, v) => {
            assert_eq!(p, path(&["c", "fc", "id", "cpuset.mems"]));
            assert_eq!(v, "0");
        }
        other => panic!("{:?}", other),
    }
    assert!(matches!(job.step(IoOutcome::Written), CgroupIo::Done(Ok(()))));
}

#[test]
fn inherit_parent_stays_empty() {
    let leaf = path(&["c", "fc", "id"]);
    let mut job = inherit_from_parent(&leaf, "f");
    job.step(IoOutcome::Ready);
    job.step(outcome_read(""));
    job.step(outcome_read(""));
    match job.step(outcome_read("\n")) {
        CgroupIo::Done(Err(JailerError::CgroupInheritFromParent(p, f))) => {
            assert_eq!(p, leaf);
            assert_eq!(f, "f");
        }
        other => panic!("{:?}", other),
    }
}

#[test]
fn inherit_without_retry_fails_at_once() {
    let leaf = path(&["c", "fc", "id"]);
    let mut job = inherit_from_parent_aux(&leaf, "f", false);
    job.step(IoOutcome::Ready);
    assert!(matches!(job.step(outcome_read("")), CgroupIo::Done(Err(JailerError::CgroupInheritFromParent(_, _)))));
}

#[test]
fn inherit_read_and_write_failures() {
    let leaf = path(&["c", "fc", "id"]);
    let mut job = inherit_from_parent(&leaf, "f");
    job.step(IoOutcome::Ready);
    match job.step(IoOutcome::ReadFailed) {
        CgroupIo::Done(Err(JailerError::ReadToString(p))) => assert_eq!(p, path(&["c", "fc", "f"])),
        other => panic!("{:?}", other),
    }
    let mut job = inherit_from_parent(&leaf, "f");
    job.step(IoOutcome::Ready);
    job.step(outcome_read("1\n"));
    match job.step(IoOutcome::WriteFailed) {
        CgroupIo::Done(Err(JailerError::Write(p))) => assert_eq!(p, path(&["c", "fc", "id", "f"])),
        other => panic!("{:?}", other),
    }
}

#[test]
fn split_pieces() {
    assert_eq!(split_by("a,b,,c", ','), vec!["a", "b", "", "c"]);
    assert_eq!(split_by("", ','), vec![""]);
    assert_eq!(split_by(",", ','), vec!["", ""]);
}
