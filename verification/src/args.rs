//! Typed options for each lifecycle verb of the container runtime, with
//! their mathematical views.

use vstd::prelude::*;
use crate::strutil::{spec_split_char, split_char};

verus! {

/// The base-image triple: distribution, release and architecture.
#[derive(Debug)]
pub struct ImageSpec {
    pub distro: String,
    pub release: String,
    pub arch: String,
}

/// View of [`ImageSpec`].
#[verifier::ext_equal]
pub struct ImageSpecView {
    pub distro: Seq<char>,
    pub release: Seq<char>,
    pub arch: Seq<char>,
}

impl View for ImageSpec {
    type V = ImageSpecView;

    open spec fn view(&self) -> ImageSpecView {
        ImageSpecView { distro: self.distro@, release: self.release@, arch: self.arch@ }
    }
}

/// Reads an image triple written `distro:release:arch`; pieces beyond the
/// third are ignored, and fewer than three pieces are rejected.
pub fn parse_image(s: &str) -> (r: Option<ImageSpec>)
    ensures
        ({
            let pieces = spec_split_char(s@, ':');
            match r {
                Some(img) => pieces.len() >= 3 && img@ == (ImageSpecView {
                    distro: pieces[0],
                    release: pieces[1],
                    arch: pieces[2],
                }),
                None => pieces.len() < 3,
            }
        }),
{
    let mut pieces = split_char(s, ':');
    if pieces.len() < 3 {
        return None;
    }
    let arch = pieces.remove(2);
    let release = pieces.remove(1);
    let distro = pieces.remove(0);
    Some(ImageSpec { distro, release, arch })
}

/// Options of the create verb.
pub struct CreateArgs {
    pub name: String,
    pub image: ImageSpec,
    pub config: Option<String>,
    pub dir: Option<String>,
    pub network: Option<String>,
}

/// View of [`CreateArgs`].
#[verifier::ext_equal]
pub struct CreateArgsView {
    pub name: Seq<char>,
    pub image: ImageSpecView,
    pub config: Option<Seq<char>>,
    pub dir: Option<Seq<char>>,
    pub network: Option<Seq<char>>,
}

impl View for CreateArgs {
    type V = CreateArgsView;

    open spec fn view(&self) -> CreateArgsView {
        CreateArgsView {
            name: self.name@,
            image: self.image@,
            config: self.config.deep_view(),
            dir: self.dir.deep_view(),
            network: self.network.deep_view(),
        }
    }
}

/// Options of the delete verb.
pub struct DeleteArgs {
    pub name: String,
    pub snapshots: bool,
    pub force: bool,
    pub rcfile: Option<String>,
}

/// View of [`DeleteArgs`].
#[verifier::ext_equal]
pub struct DeleteArgsView {
    pub name: Seq<char>,
    pub snapshots: bool,
    pub force: bool,
    pub rcfile: Option<Seq<char>>,
}

impl View for DeleteArgs {
    type V = DeleteArgsView;

    open spec fn view(&self) -> DeleteArgsView {
        DeleteArgsView {
            name: self.name@,
            snapshots: self.snapshots,
            force: self.force,
            rcfile: self.rcfile.deep_view(),
        }
    }
}

/// Options of the attach-and-execute verb.
pub struct ExecuteArgs {
    pub name: String,
    pub command: Vec<String>,
    pub elevated_privileges: Option<String>,
    pub arch: Option<String>,
    pub namespaces: Option<String>,
    pub remount_sys_proc: Option<String>,
    pub clear_env: bool,
    pub keep_env: bool,
    pub pty_log: Option<String>,
    pub set_var: bool,
    pub keep_var: bool,
    pub rcfile: Option<String>,
    pub uid: Option<String>,
    pub gid: Option<String>,
    pub context: Option<String>,
}

/// View of [`ExecuteArgs`].
#[verifier::ext_equal]
pub struct ExecuteArgsView {
    pub name: Seq<char>,
    pub command: Seq<Seq<char>>,
    pub elevated_privileges: Option<Seq<char>>,
    pub arch: Option<Seq<char>>,
    pub namespaces: Option<Seq<char>>,
    pub remount_sys_proc: Option<Seq<char>>,
    pub clear_env: bool,
    pub keep_env: bool,
    pub pty_log: Option<Seq<char>>,
    pub set_var: bool,
    pub keep_var: bool,
    pub rcfile: Option<Seq<char>>,
    pub uid: Option<Seq<char>>,
    pub gid: Option<Seq<char>>,
    pub context: Option<Seq<char>>,
}

impl View for ExecuteArgs {
    type V = ExecuteArgsView;

    open spec fn view(&self) -> ExecuteArgsView {
        ExecuteArgsView {
            name: self.name@,
            command: self.command.deep_view(),
            elevated_privileges: self.elevated_privileges.deep_view(),
            arch: self.arch.deep_view(),
            namespaces: self.namespaces.deep_view(),
            remount_sys_proc: self.remount_sys_proc.deep_view(),
            clear_env: self.clear_env,
            keep_env: self.keep_env,
            pty_log: self.pty_log.deep_view(),
            set_var: self.set_var,
            keep_var: self.keep_var,
            rcfile: self.rcfile.deep_view(),
            uid: self.uid.deep_view(),
            gid: self.gid.deep_view(),
            context: self.context.deep_view(),
        }
    }
}

/// Options of the start verb.
pub struct StartArgs {
    pub name: String,
    pub daemon: bool,
    pub foreground: bool,
    pub pidfile: Option<String>,
    pub rcfile: Option<String>,
    pub console: Option<String>,
    pub console_log: Option<String>,
    pub close_all_fds: bool,
    pub define: Option<String>,
    pub share_net: Option<String>,
    pub share_ipc: Option<String>,
    pub share_uts: Option<String>,
    pub share_pid: Option<String>,
}

/// View of [`StartArgs`].
#[verifier::ext_equal]
pub struct StartArgsView {
    pub name: Seq<char>,
    pub daemon: bool,
    pub foreground: bool,
    pub pidfile: Option<Seq<char>>,
    pub rcfile: Option<Seq<char>>,
    pub console: Option<Seq<char>>,
    pub console_log: Option<Seq<char>>,
    pub close_all_fds: bool,
    pub define: Option<Seq<char>>,
    pub share_net: Option<Seq<char>>,
    pub share_ipc: Option<Seq<char>>,
    pub share_uts: Option<Seq<char>>,
    pub share_pid: Option<Seq<char>>,
}

impl View for StartArgs {
    type V = StartArgsView;

    open spec fn view(&self) -> StartArgsView {
        StartArgsView {
            name: self.name@,
            daemon: self.daemon,
            foreground: self.foreground,
            pidfile: self.pidfile.deep_view(),
            rcfile: self.rcfile.deep_view(),
            console: self.console.deep_view(),
            console_log: self.console_log.deep_view(),
            close_all_fds: self.close_all_fds,
            define: self.define.deep_view(),
            share_net: self.share_net.deep_view(),
            share_ipc: self.share_ipc.deep_view(),
            share_uts: self.share_uts.deep_view(),
            share_pid: self.share_pid.deep_view(),
        }
    }
}

/// Options of the stop verb.
pub struct StopArgs {
    pub name: String,
    pub reboot: bool,
    pub nowait: bool,
    pub timeout: Option<u64>,
    pub kill: bool,
    pub nolock: bool,
    pub nokill: bool,
    pub rcfile: Option<String>,
}

/// View of [`StopArgs`].
#[verifier::ext_equal]
pub struct StopArgsView {
    pub name: Seq<char>,
    pub reboot: bool,
    pub nowait: bool,
    pub timeout: Option<u64>,
    pub kill: bool,
    pub nolock: bool,
    pub nokill: bool,
    pub rcfile: Option<Seq<char>>,
}

impl View for StopArgs {
    type V = StopArgsView;

    open spec fn view(&self) -> StopArgsView {
        StopArgsView {
            name: self.name@,
            reboot: self.reboot,
            nowait: self.nowait,
            timeout: self.timeout,
            kill: self.kill,
            nolock: self.nolock,
            nokill: self.nokill,
            rcfile: self.rcfile.deep_view(),
        }
    }
}

/// Options of the list verb.
pub struct ListArgs {
    pub line: bool,
    pub fancy: bool,
    pub fancy_format: Option<Vec<String>>,
    pub active: bool,
    pub running: bool,
    pub frozen: bool,
    pub stopped: bool,
    pub defined: bool,
    pub nesting: Option<u32>,
    pub filter: Option<String>,
    pub groups: Option<Vec<String>>,
}

/// View of [`ListArgs`].
#[verifier::ext_equal]
pub struct ListArgsView {
    pub line: bool,
    pub fancy: bool,
    pub fancy_format: Option<Seq<Seq<char>>>,
    pub active: bool,
    pub running: bool,
    pub frozen: bool,
    pub stopped: bool,
    pub defined: bool,
    pub nesting: Option<u32>,
    pub filter: Option<Seq<char>>,
    pub groups: Option<Seq<Seq<char>>>,
}

impl View for ListArgs {
    type V = ListArgsView;

    open spec fn view(&self) -> ListArgsView {
        ListArgsView {
            line: self.line,
            fancy: self.fancy,
            fancy_format: self.fancy_format.deep_view(),
            active: self.active,
            running: self.running,
            frozen: self.frozen,
            stopped: self.stopped,
            defined: self.defined,
            nesting: self.nesting,
            filter: self.filter.deep_view(),
            groups: self.groups.deep_view(),
        }
    }
}

/// Options of the copy verb.  `source` and `destination` are already
/// resolved host paths; decomposing and resolving an `instance:path`
/// location is the resolver's concern.
pub struct CopyArgs {
    pub source: String,
    pub destination: String,
    pub archive: bool,
    pub follow_link: bool,
}

/// View of [`CopyArgs`].
#[verifier::ext_equal]
pub struct CopyArgsView {
    pub source: Seq<char>,
    pub destination: Seq<char>,
    pub archive: bool,
    pub follow_link: bool,
}

impl View for CopyArgs {
    type V = CopyArgsView;

    open spec fn view(&self) -> CopyArgsView {
        CopyArgsView {
            source: self.source@,
            destination: self.destination@,
            archive: self.archive,
            follow_link: self.follow_link,
        }
    }
}

/// Options of the configure verb: either a resource key/value write, or a
/// bare configuration query.
pub struct ConfigArgs {
    pub name: String,
    pub state_object: Option<Vec<String>>,
    pub config: Option<String>,
}

/// View of [`ConfigArgs`].
#[verifier::ext_equal]
pub struct ConfigArgsView {
    pub name: Seq<char>,
    pub state_object: Option<Seq<Seq<char>>>,
    pub config: Option<Seq<char>>,
}

impl View for ConfigArgs {
    type V = ConfigArgsView;

    open spec fn view(&self) -> ConfigArgsView {
        ConfigArgsView {
            name: self.name@,
            state_object: self.state_object.deep_view(),
            config: self.config.deep_view(),
        }
    }
}

} // verus!
