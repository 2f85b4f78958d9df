use cmt::args::{
    ConfigArgs, CopyArgs, CreateArgs, DeleteArgs, ExecuteArgs, ImageSpec, ListArgs, StartArgs,
    StopArgs,
};
use cmt::manage::{config, copy, create, delete, execute, list, start, stop};

fn image() -> ImageSpec {
    ImageSpec {
        distro: "alpine".to_string(),
        release: "3.19".to_string(),
        arch: "amd64".to_string(),
    }
}

#[test]
fn create_minimal() {
    let cmds = create(CreateArgs {
        name: "web".to_string(),
        image: image(),
        config: None,
        dir: None,
        network: None,
    });
    assert_eq!(
        cmds,
        vec![
            "lxc-create --name=web --template=download -- --dist=alpine --release=3.19 --arch=amd64"
                .to_string()
        ]
    );
}

#[test]
fn create_with_options() {
    let cmds = create(CreateArgs {
        name: "web".to_string(),
        image: image(),
        config: Some("/etc/lxc/web.conf".to_string()),
        dir: Some("/srv/web".to_string()),
        network: Some("br0".to_string()),
    });
    assert_eq!(
        cmds[0],
        "lxc-create --name=web --config=/etc/lxc/web.conf --dir=/srv/web --network=br0 \
         --template=download -- --dist=alpine --release=3.19 --arch=amd64"
    );
}

#[test]
fn create_empty_option_is_omitted() {
    let cmds = create(CreateArgs {
        name: "web".to_string(),
        image: image(),
        config: Some(String::new()),
        dir: Some(String::new()),
        network: Some(String::new()),
    });
    assert_eq!(
        cmds[0],
        "lxc-create --name=web --template=download -- --dist=alpine --release=3.19 --arch=amd64"
    );
}

#[test]
fn delete_flags() {
    let cmds = delete(DeleteArgs {
        name: "web".to_string(),
        snapshots: true,
        force: true,
        rcfile: Some("/etc/lxc/rc".to_string()),
    });
    assert_eq!(cmds, vec!["lxc-destroy --name=web --force --snapshots --rcfile=/etc/lxc/rc".to_string()]);
}

#[test]
fn delete_bare() {
    let cmds = delete(DeleteArgs {
        name: "web".to_string(),
        snapshots: false,
        force: false,
        rcfile: None,
    });
    assert_eq!(cmds, vec!["lxc-destroy --name=web".to_string()]);
}

fn bare_execute(name: &str, command: Vec<String>) -> ExecuteArgs {
    ExecuteArgs {
        name: name.to_string(),
        command,
        elevated_privileges: None,
        arch: None,
        namespaces: None,
        remount_sys_proc: None,
        clear_env: false,
        keep_env: false,
        pty_log: None,
        set_var: false,
        keep_var: false,
        rcfile: None,
        uid: None,
        gid: None,
        context: None,
    }
}

#[test]
fn execute_joins_command_words() {
    let cmds = execute(bare_execute("web", vec!["echo".to_string(), "hi".to_string()]));
    assert_eq!(cmds, vec!["lxc-attach --name=web  -- echo hi".to_string()]);
}

#[test]
fn execute_with_options() {
    let mut args = bare_execute("web", vec!["ls".to_string()]);
    args.clear_env = true;
    args.uid = Some("0".to_string());
    let cmds = execute(args);
    assert_eq!(cmds, vec!["lxc-attach --name=web  --clear-env --uid=0 -- ls".to_string()]);
}

fn bare_start(name: &str) -> StartArgs {
    StartArgs {
        name: name.to_string(),
        daemon: false,
        foreground: false,
        pidfile: None,
        rcfile: None,
        console: None,
        console_log: None,
        close_all_fds: false,
        define: None,
        share_net: None,
        share_ipc: None,
        share_uts: None,
        share_pid: None,
    }
}

#[test]
fn start_flags() {
    assert_eq!(start(bare_start("web")), vec!["lxc-start --name=web".to_string()]);
    let mut args = bare_start("web");
    args.daemon = true;
    args.define = Some("lxc.net.0.type=veth".to_string());
    assert_eq!(
        start(args),
        vec!["lxc-start --name=web --daemon --define=lxc.net.0.type=veth".to_string()]
    );
}

fn bare_stop(name: &str) -> StopArgs {
    StopArgs {
        name: name.to_string(),
        reboot: false,
        nowait: false,
        timeout: None,
        kill: false,
        nolock: false,
        nokill: false,
        rcfile: None,
    }
}

#[test]
fn stop_flags() {
    assert_eq!(stop(bare_stop("web")), vec!["lxc-stop --name=web".to_string()]);
    let mut args = bare_stop("web");
    args.timeout = Some(30);
    args.kill = true;
    assert_eq!(stop(args), vec!["lxc-stop --name=web --timeout=30 --kill".to_string()]);
}

#[test]
fn list_flags() {
    let args = ListArgs {
        line: false,
        fancy: true,
        fancy_format: Some(vec!["NAME".to_string(), "STATE".to_string()]),
        active: false,
        running: true,
        frozen: false,
        stopped: false,
        defined: false,
        nesting: Some(5),
        filter: Some("^web".to_string()),
        groups: None,
    };
    assert_eq!(
        list(args),
        vec!["lxc-ls --fancy --fancy-format=NAME,STATE --running --nesting=5 --filter=^web".to_string()]
    );
}

#[test]
fn copy_always_recursive() {
    let cmds = copy(CopyArgs {
        source: "/data/app".to_string(),
        destination: "/var/lib/lxc/web/rootfs/srv/app".to_string(),
        archive: false,
        follow_link: false,
    });
    assert_eq!(
        cmds,
        vec!["cp --recursive /data/app /var/lib/lxc/web/rootfs/srv/app".to_string()]
    );
}

#[test]
fn copy_flag_order() {
    let cmds = copy(CopyArgs {
        source: "a".to_string(),
        destination: "b".to_string(),
        archive: true,
        follow_link: true,
    });
    assert_eq!(cmds, vec!["cp --recursive --dereference --archive a b".to_string()]);
}

#[test]
fn config_state_object_write() {
    let cmds = config(ConfigArgs {
        name: "web".to_string(),
        state_object: Some(vec!["cpuset.cpus".to_string(), "0,3".to_string()]),
        config: None,
    });
    assert_eq!(cmds, vec!["lxc-cgroup --name=web cpuset.cpus 0,3".to_string()]);
}

#[test]
fn config_bare_query() {
    let cmds = config(ConfigArgs {
        name: "web".to_string(),
        state_object: None,
        config: Some("lxc.rootfs.path".to_string()),
    });
    assert_eq!(cmds, vec!["lxc-info --name=web --config=lxc.rootfs.path".to_string()]);
}
