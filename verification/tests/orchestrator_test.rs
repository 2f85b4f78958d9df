use cmt::manifest::{parse_manifest, BuildManifest, CopySpec, LimitEntry, SharedMountSpec};
use cmt::args::ImageSpec;
use cmt::orchestrator::{build, Action, Event, StepErrorKind};
use cmt::resolver::RootfsResult;

fn base_manifest(name: &str) -> BuildManifest {
    BuildManifest {
        name: name.to_string(),
        image: ImageSpec {
            distro: "alpine".to_string(),
            release: "3.19".to_string(),
            arch: "amd64".to_string(),
        },
        config: None,
        dir: None,
        network: None,
        entrypoint: None,
        copies: Vec::new(),
        shared: Vec::new(),
        runs: Vec::new(),
        limits: Vec::new(),
    }
}

fn expect_exec(a: Action) -> String {
    match a {
        Action::Exec(c) => c,
        _ => panic!("expected a command"),
    }
}

#[test]
fn empty_manifest_runs_create_start_stop_start() {
    let m = base_manifest("box");
    let mut b = build(&m);
    let mut cmds: Vec<String> = Vec::new();
    cmds.push(expect_exec(b.next(Event::Begin)));
    loop {
        match b.next(Event::Succeeded) {
            Action::Exec(c) => cmds.push(c),
            Action::Done => break,
            _ => panic!("unexpected action"),
        }
    }
    assert_eq!(
        cmds,
        vec![
            "lxc-create --name=box --template=download -- --dist=alpine --release=3.19 --arch=amd64"
                .to_string(),
            "lxc-start --name=box".to_string(),
            "lxc-stop --name=box".to_string(),
            "lxc-start --name=box".to_string(),
        ]
    );
}

#[test]
fn run_commands_execute_between_start_and_final_restart() {
    let text = "name = \"web\"\n[image]\ndistro = \"alpine\"\nrelease = \"3.19\"\narch = \"amd64\"\n\
[[run]]\ncmd = \"echo hi\"\n";
    let m = parse_manifest(text).unwrap();
    let mut b = build(&m);
    let mut cmds: Vec<String> = Vec::new();
    cmds.push(expect_exec(b.next(Event::Begin)));
    loop {
        match b.next(Event::Succeeded) {
            Action::Exec(c) => cmds.push(c),
            Action::Done => break,
            _ => panic!("unexpected action"),
        }
    }
    assert_eq!(
        cmds,
        vec![
            "lxc-create --name=web --template=download -- --dist=alpine --release=3.19 --arch=amd64"
                .to_string(),
            "lxc-start --name=web".to_string(),
            "lxc-attach --name=web  -- echo hi".to_string(),
            "lxc-stop --name=web".to_string(),
            "lxc-start --name=web".to_string(),
        ]
    );
}

#[test]
fn failing_create_stops_everything() {
    let mut m = base_manifest("web");
    m.copies.push(CopySpec {
        host: "/data".to_string(),
        container: "/srv".to_string(),
        archive: false,
        follow_link: false,
    });
    m.runs.push(cmt::manifest::RunCommand { cmd: "echo hi".to_string() });
    m.limits.push(LimitEntry { key: "cpuset_cpus".to_string(), value: "0,3".to_string() });
    let mut b = build(&m);
    let first = b.next(Event::Begin);
    assert!(matches!(first, Action::Exec(_)));
    // The create step fails: the build aborts at step zero with an
    // execution error, and no copy, run, or limit action ever appears.
    match b.next(Event::Failed) {
        Action::Failed(e) => {
            assert_eq!(e.step, 0);
            assert_eq!(e.kind, StepErrorKind::Execution);
        },
        _ => panic!("expected failure"),
    }
    for _ in 0..8 {
        match b.next(Event::Succeeded) {
            Action::Failed(e) => assert_eq!(e.step, 0),
            _ => panic!("a failed build must stay failed"),
        }
    }
}

#[test]
fn copies_resolve_destinations_through_rootfs_queries() {
    let mut m = base_manifest("web");
    m.copies.push(CopySpec {
        host: "/data/app".to_string(),
        container: "/srv/app".to_string(),
        archive: true,
        follow_link: false,
    });
    m.copies.push(CopySpec {
        host: "/data/etc".to_string(),
        container: "/etc/app".to_string(),
        archive: false,
        follow_link: true,
    });
    let mut b = build(&m);
    assert!(matches!(b.next(Event::Begin), Action::Exec(_))); // create
    assert!(matches!(b.next(Event::Succeeded), Action::Exec(_))); // start
    // First copy: the destination "web:/srv/app" needs the rootfs.
    match b.next(Event::Succeeded) {
        Action::QueryRootfs(name) => assert_eq!(name, "web"),
        _ => panic!("expected a rootfs query"),
    }
    let cmd = expect_exec(
        b.next(Event::Resolved(RootfsResult::Path("/var/lib/lxc/web/rootfs".to_string()))),
    );
    assert_eq!(cmd, "cp --recursive --archive /data/app /var/lib/lxc/web/rootfs/srv/app");
    // Second copy, in declared order.
    match b.next(Event::Succeeded) {
        Action::QueryRootfs(name) => assert_eq!(name, "web"),
        _ => panic!("expected a rootfs query"),
    }
    let cmd = expect_exec(
        b.next(Event::Resolved(RootfsResult::Path("/var/lib/lxc/web/rootfs".to_string()))),
    );
    assert_eq!(cmd, "cp --recursive --dereference /data/etc /var/lib/lxc/web/rootfs/etc/app");
}

#[test]
fn unknown_instance_in_copy_aborts() {
    let mut m = base_manifest("web");
    m.copies.push(CopySpec {
        host: "/data".to_string(),
        container: "/srv".to_string(),
        archive: false,
        follow_link: false,
    });
    let mut b = build(&m);
    assert!(matches!(b.next(Event::Begin), Action::Exec(_)));
    assert!(matches!(b.next(Event::Succeeded), Action::Exec(_)));
    assert!(matches!(b.next(Event::Succeeded), Action::QueryRootfs(_)));
    match b.next(Event::Resolved(RootfsResult::NotFound)) {
        Action::Failed(e) => assert_eq!(e.kind, StepErrorKind::LookupNotFound),
        _ => panic!("expected failure"),
    }
}

#[test]
fn entrypoint_is_created_exclusively() {
    let mut m = base_manifest("web");
    m.entrypoint = Some("echo started".to_string());
    let mut b = build(&m);
    assert!(matches!(b.next(Event::Begin), Action::Exec(_))); // create
    match b.next(Event::Succeeded) {
        Action::CreateExclusive { path, content, mode } => {
            assert_eq!(path, "/var/lib/lxc/web/rootfs/etc/profile.d/lxcapp.sh");
            assert_eq!(content, "#!/bin/sh\necho started\n");
            assert_eq!(mode, 0o555);
        },
        _ => panic!("expected the entrypoint file action"),
    }
}

#[test]
fn entrypoint_path_honours_rootfs_override() {
    let mut m = base_manifest("web");
    m.dir = Some("/srv/web".to_string());
    m.entrypoint = Some("echo started".to_string());
    let mut b = build(&m);
    assert!(matches!(b.next(Event::Begin), Action::Exec(_)));
    match b.next(Event::Succeeded) {
        Action::CreateExclusive { path, .. } => assert_eq!(path, "/srv/web/etc/profile.d/lxcapp.sh"),
        _ => panic!("expected the entrypoint file action"),
    }
}

#[test]
fn existing_entrypoint_file_aborts_the_build() {
    let mut m = base_manifest("web");
    m.entrypoint = Some("echo started".to_string());
    m.runs.push(cmt::manifest::RunCommand { cmd: "echo hi".to_string() });
    let mut b = build(&m);
    assert!(matches!(b.next(Event::Begin), Action::Exec(_)));
    assert!(matches!(b.next(Event::Succeeded), Action::CreateExclusive { .. }));
    // The exclusive create fails — the file already exists.  The build
    // aborts as a filesystem error at the entrypoint step; the run phase
    // never executes.
    match b.next(Event::Failed) {
        Action::Failed(e) => {
            assert_eq!(e.step, 1);
            assert_eq!(e.kind, StepErrorKind::FileSystem);
        },
        _ => panic!("expected failure"),
    }
    assert!(matches!(b.next(Event::Succeeded), Action::Failed(_)));
}

#[test]
fn limits_are_sent_dotted() {
    let mut m = base_manifest("web");
    m.limits.push(LimitEntry { key: "cpuset_cpus".to_string(), value: "0,3".to_string() });
    let mut b = build(&m);
    let mut cmds: Vec<String> = Vec::new();
    cmds.push(expect_exec(b.next(Event::Begin)));
    loop {
        match b.next(Event::Succeeded) {
            Action::Exec(c) => cmds.push(c),
            Action::Done => break,
            _ => panic!("unexpected action"),
        }
    }
    assert!(cmds.contains(&"lxc-cgroup --name=web cpuset.cpus 0,3".to_string()));
}

#[test]
fn shared_mounts_restart_the_instance() {
    let mut m = base_manifest("web");
    m.shared.push(SharedMountSpec {
        host: "/data".to_string(),
        container: "/mnt/data".to_string(),
    });
    let mut b = build(&m);
    assert!(matches!(b.next(Event::Begin), Action::Exec(_))); // create
    assert!(matches!(b.next(Event::Succeeded), Action::Exec(_))); // start
    match b.next(Event::Succeeded) {
        Action::MakeDirAll(p) => assert_eq!(p, "/data"),
        _ => panic!("expected the mount directory action"),
    }
    match b.next(Event::Succeeded) {
        Action::AppendLine { path, line } => {
            assert_eq!(path, "/var/lib/lxc/web/config");
            assert_eq!(line, "lxc.mount.entry = /data /mnt/data none bind,create=dir 0 0");
        },
        _ => panic!("expected the config append action"),
    }
    // Configuration changed: the mid-build restart cycle runs.
    assert_eq!(expect_exec(b.next(Event::Succeeded)), "lxc-stop --name=web");
    assert_eq!(expect_exec(b.next(Event::Succeeded)), "lxc-start --name=web");
    // Final restart.
    assert_eq!(expect_exec(b.next(Event::Succeeded)), "lxc-stop --name=web");
    assert_eq!(expect_exec(b.next(Event::Succeeded)), "lxc-start --name=web");
    assert!(matches!(b.next(Event::Succeeded), Action::Done));
}

#[test]
fn repeated_builds_append_duplicate_mount_lines() {
    // Two runs of the same manifest against the same instance append two
    // identical mount-entry lines: the mount phase never deduplicates.
    let mut m = base_manifest("web");
    m.shared.push(SharedMountSpec {
        host: "/data".to_string(),
        container: "/mnt/data".to_string(),
    });
    let mut appended: Vec<String> = Vec::new();
    for _ in 0..2 {
        let mut b = build(&m);
        let mut a = b.next(Event::Begin);
        loop {
            a = match a {
                Action::AppendLine { line, .. } => {
                    appended.push(line);
                    b.next(Event::Succeeded)
                },
                Action::Done => break,
                Action::Failed(_) => panic!("build failed"),
                _ => b.next(Event::Succeeded),
            };
        }
    }
    assert_eq!(appended.len(), 2);
    assert_eq!(appended[0], appended[1]);
    assert_eq!(appended[0], "lxc.mount.entry = /data /mnt/data none bind,create=dir 0 0");
}

#[test]
fn instance_source_resolves_before_the_destination() {
    let mut m = base_manifest("web");
    m.copies.push(CopySpec {
        host: "db:/var/backup".to_string(),
        container: "/restore".to_string(),
        archive: false,
        follow_link: false,
    });
    let mut b = build(&m);
    assert!(matches!(b.next(Event::Begin), Action::Exec(_))); // create
    assert!(matches!(b.next(Event::Succeeded), Action::Exec(_))); // start
    // The source names another instance: it is resolved first.
    match b.next(Event::Succeeded) {
        Action::QueryRootfs(name) => assert_eq!(name, "db"),
        _ => panic!("expected a source rootfs query"),
    }
    // Then the destination, which is rooted in the instance being built.
    match b.next(Event::Resolved(RootfsResult::Path("/var/lib/lxc/db/rootfs".to_string()))) {
        Action::QueryRootfs(name) => assert_eq!(name, "web"),
        _ => panic!("expected a destination rootfs query"),
    }
    let cmd = expect_exec(
        b.next(Event::Resolved(RootfsResult::Path("/var/lib/lxc/web/rootfs".to_string()))),
    );
    assert_eq!(
        cmd,
        "cp --recursive /var/lib/lxc/db/rootfs/var/backup /var/lib/lxc/web/rootfs/restore"
    );
}

#[test]
fn stopped_instance_in_copy_aborts() {
    let mut m = base_manifest("web");
    m.copies.push(CopySpec {
        host: "/data".to_string(),
        container: "/srv".to_string(),
        archive: false,
        follow_link: false,
    });
    let mut b = build(&m);
    assert!(matches!(b.next(Event::Begin), Action::Exec(_)));
    assert!(matches!(b.next(Event::Succeeded), Action::Exec(_)));
    assert!(matches!(b.next(Event::Succeeded), Action::QueryRootfs(_)));
    match b.next(Event::Resolved(RootfsResult::NotRunning)) {
        Action::Failed(e) => assert_eq!(e.kind, StepErrorKind::LookupNotRunning),
        _ => panic!("expected failure"),
    }
}
