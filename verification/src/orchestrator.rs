//! The provisioning orchestrator: turns a build manifest into an ordered
//! list of provisioning steps, then drives them through a fail-fast state
//! machine.
//!
//! The machine itself performs no external work.  Each call of
//! [`Build::next`] consumes the outcome of the previous action and returns
//! the next [`Action`] — a command to spawn, a file to write, a directory
//! to create, a line to append, or a rootfs query — until it reports
//! `Done` or `Failed`.  The caller performs the action and hands the
//! outcome back, so every decision the build takes is verified here while
//! process spawning and file writes stay outside.

use vstd::prelude::*;
use vstd::string::*;
use crate::args::{
    ConfigArgs, ConfigArgsView, CopyArgs, CreateArgs, CreateArgsView, ExecuteArgs,
    ExecuteArgsView, ImageSpec, StartArgs, StartArgsView, StopArgs, StopArgsView,
};
use crate::manage::{
    config, copy, create, execute, spec_config_cmd, spec_copy_cmd, spec_create_cmd,
    spec_execute_cmd, spec_start_cmd, spec_stop_cmd, start, stop,
};
use crate::manifest::{BuildManifest, BuildManifestView, CopySpecView, LimitEntry,
    LimitEntryView, RunCommandView, SharedMountSpec, SharedMountSpecView};
use crate::strutil::{replace_char, spec_replace_char};

verus! {

/// One ordered unit of provisioning work, generated once from the
/// manifest and executed once.
pub enum ProvisioningStep {
    /// Run the create-instance command.
    CreateStep { cmd: String },
    /// Materialize the entrypoint script: create `path` exclusively
    /// (never overwriting an existing file), write `content`, and set
    /// the file mode to `mode` (read and execute for all, no write).
    EntrypointStep { path: String, content: String, mode: u32 },
    /// Run the start-instance command.
    StartStep { cmd: String },
    /// Copy content into the instance; the locations still carry the
    /// `instance:path` form and are resolved when the step runs.
    CopyStep { source: String, destination: String, archive: bool, follow_link: bool },
    /// Ensure the host directory exists, then append one bind-mount
    /// declaration line to the instance's persistent configuration file.
    MountStep { host: String, config_path: String, line: String },
    /// Run the stop-instance command.
    StopStep { cmd: String },
    /// Run one declared command inside the instance.
    RunStep { cmd: String },
    /// Apply one resource limit through the configure verb.
    LimitStep { cmd: String },
}

/// View of [`ProvisioningStep`].
pub enum StepView {
    CreateStep { cmd: Seq<char> },
    EntrypointStep { path: Seq<char>, content: Seq<char>, mode: u32 },
    StartStep { cmd: Seq<char> },
    CopyStep { source: Seq<char>, destination: Seq<char>, archive: bool, follow_link: bool },
    MountStep { host: Seq<char>, config_path: Seq<char>, line: Seq<char> },
    StopStep { cmd: Seq<char> },
    RunStep { cmd: Seq<char> },
    LimitStep { cmd: Seq<char> },
}

impl View for ProvisioningStep {
    type V = StepView;

    open spec fn view(&self) -> StepView {
        match self {
            ProvisioningStep::CreateStep { cmd } => StepView::CreateStep { cmd: cmd@ },
            ProvisioningStep::EntrypointStep { path, content, mode } => StepView::EntrypointStep {
                path: path@,
                content: content@,
                mode: *mode,
            },
            ProvisioningStep::StartStep { cmd } => StepView::StartStep { cmd: cmd@ },
            ProvisioningStep::CopyStep { source, destination, archive, follow_link } => (
            StepView::CopyStep {
                source: source@,
                destination: destination@,
                archive: *archive,
                follow_link: *follow_link,
            }),
            ProvisioningStep::MountStep { host, config_path, line } => StepView::MountStep {
                host: host@,
                config_path: config_path@,
                line: line@,
            },
            ProvisioningStep::StopStep { cmd } => StepView::StopStep { cmd: cmd@ },
            ProvisioningStep::RunStep { cmd } => StepView::RunStep { cmd: cmd@ },
            ProvisioningStep::LimitStep { cmd } => StepView::LimitStep { cmd: cmd@ },
        }
    }
}

impl DeepView for ProvisioningStep {
    type V = StepView;

    open spec fn deep_view(&self) -> StepView {
        self.view()
    }
}

/// The create options a manifest supplies.
pub open spec fn spec_manifest_create_args(m: BuildManifestView) -> CreateArgsView {
    CreateArgsView {
        name: m.name,
        image: m.image,
        config: m.config,
        dir: m.dir,
        network: m.network,
    }
}

/// The create-instance command planned for `m`.
pub open spec fn spec_plan_create_cmd(m: BuildManifestView) -> Seq<char> {
    spec_create_cmd(spec_manifest_create_args(m))
}

/// The start options used by the orchestrator: the name alone.
pub open spec fn spec_bare_start_args(name: Seq<char>) -> StartArgsView {
    StartArgsView {
        name: name,
        daemon: false,
        foreground: false,
        pidfile: None,
        rcfile: None,
        console: None,
        console_log: None,
        close_all_fds: false,
        define: None,
        share_net: None,
        share_ipc: None,
        share_uts: None,
        share_pid: None,
    }
}

/// The start-instance command for a bare name.
pub open spec fn spec_bare_start_cmd(name: Seq<char>) -> Seq<char> {
    spec_start_cmd(spec_bare_start_args(name))
}

/// The stop options used by the orchestrator: the name alone.
pub open spec fn spec_bare_stop_args(name: Seq<char>) -> StopArgsView {
    StopArgsView {
        name: name,
        reboot: false,
        nowait: false,
        timeout: None,
        kill: false,
        nolock: false,
        nokill: false,
        rcfile: None,
    }
}

/// The stop-instance command for a bare name.
pub open spec fn spec_bare_stop_cmd(name: Seq<char>) -> Seq<char> {
    spec_stop_cmd(spec_bare_stop_args(name))
}

/// The attach options used by the run phase: name and command alone.
pub open spec fn spec_attach_args(name: Seq<char>, cmd: Seq<char>) -> ExecuteArgsView {
    ExecuteArgsView {
        name: name,
        command: seq![cmd],
        elevated_privileges: None,
        arch: None,
        namespaces: None,
        remount_sys_proc: None,
        clear_env: false,
        keep_env: false,
        pty_log: None,
        set_var: false,
        keep_var: false,
        rcfile: None,
        uid: None,
        gid: None,
        context: None,
    }
}

/// The attach-and-execute command for one run command.
pub open spec fn spec_attach_cmd(name: Seq<char>, cmd: Seq<char>) -> Seq<char> {
    spec_execute_cmd(spec_attach_args(name, cmd))
}

/// The configure command applying one limit: the key with its
/// underscores turned into dots, then the value.
pub open spec fn spec_limit_cmd(name: Seq<char>, l: LimitEntryView) -> Seq<char> {
    spec_config_cmd(
        ConfigArgsView {
            name: name,
            state_object: Some(seq![spec_replace_char(l.key, '_', '.'), l.value]),
            config: None,
        },
    )
}

/// Where the entrypoint script is materialized: under the rootfs
/// override when one is declared and non-empty, else under the default
/// rootfs location of the named instance.
pub open spec fn spec_entry_path(m: BuildManifestView) -> Seq<char> {
    match m.dir {
        Some(d) => if d.len() > 0 {
            d + "/etc/profile.d/lxcapp.sh"@
        } else {
            "/var/lib/lxc/"@ + m.name + "/rootfs/etc/profile.d/lxcapp.sh"@
        },
        None => "/var/lib/lxc/"@ + m.name + "/rootfs/etc/profile.d/lxcapp.sh"@,
    }
}

/// The entrypoint script's content: a shebang line, then the declared
/// body, then a final newline.
pub open spec fn spec_entry_content(body: Seq<char>) -> Seq<char> {
    "#!/bin/sh\n"@ + body + "\n"@
}

/// The instance's persistent configuration file.
pub open spec fn spec_config_path(name: Seq<char>) -> Seq<char> {
    "/var/lib/lxc/"@ + name + "/config"@
}

/// One bind-mount declaration line appended for a shared mount.
pub open spec fn spec_mount_line(s: SharedMountSpecView) -> Seq<char> {
    "lxc.mount.entry = "@ + s.host + " "@ + s.container + " none bind,create=dir 0 0"@
}

/// The steps before the copy phase: create, the optional entrypoint
/// materialization, then the first start.
pub open spec fn spec_steps_head(m: BuildManifestView) -> Seq<StepView> {
    seq![StepView::CreateStep { cmd: spec_plan_create_cmd(m) }] + (match m.entrypoint {
        Some(body) => seq![
            StepView::EntrypointStep {
                path: spec_entry_path(m),
                content: spec_entry_content(body),
                mode: 0o555,
            },
        ],
        None => Seq::empty(),
    }) + seq![StepView::StartStep { cmd: spec_bare_start_cmd(m.name) }]
}

/// One copy step per declared copy entry, in declared order.  The
/// destination is rooted in the instance being built.
pub open spec fn spec_steps_copies(m: BuildManifestView) -> Seq<StepView> {
    m.copies.map_values(
        |c: CopySpecView| StepView::CopyStep {
            source: c.host,
            destination: m.name + ":"@ + c.container,
            archive: c.archive,
            follow_link: c.follow_link,
        },
    )
}

/// One mount step per declared shared mount, in declared order.
pub open spec fn spec_steps_mounts(m: BuildManifestView) -> Seq<StepView> {
    m.shared.map_values(
        |s: SharedMountSpecView| StepView::MountStep {
            host: s.host,
            config_path: spec_config_path(m.name),
            line: spec_mount_line(s),
        },
    )
}

/// The restart cycle after the mount phase, present only when a shared
/// mount changed the instance's configuration file.
pub open spec fn spec_steps_mid_restart(m: BuildManifestView) -> Seq<StepView> {
    if m.shared.len() > 0 {
        seq![
            StepView::StopStep { cmd: spec_bare_stop_cmd(m.name) },
            StepView::StartStep { cmd: spec_bare_start_cmd(m.name) },
        ]
    } else {
        Seq::empty()
    }
}

/// One run step per declared run command, in declared order.
pub open spec fn spec_steps_runs(m: BuildManifestView) -> Seq<StepView> {
    m.runs.map_values(
        |r: RunCommandView| StepView::RunStep { cmd: spec_attach_cmd(m.name, r.cmd) },
    )
}

/// One limit step per declared limit entry, in declared order.
pub open spec fn spec_steps_limits(m: BuildManifestView) -> Seq<StepView> {
    m.limits.map_values(|l: LimitEntryView| StepView::LimitStep { cmd: spec_limit_cmd(m.name, l) })
}

/// The final restart cycle, always present so mounts and limits take
/// effect.
pub open spec fn spec_steps_final_restart(m: BuildManifestView) -> Seq<StepView> {
    seq![
        StepView::StopStep { cmd: spec_bare_stop_cmd(m.name) },
        StepView::StartStep { cmd: spec_bare_start_cmd(m.name) },
    ]
}

/// The whole ordered plan derived from a manifest: create, entrypoint,
/// start, copies, mounts, a restart when the configuration changed, run
/// commands, limits, and the final restart.
pub open spec fn spec_plan(m: BuildManifestView) -> Seq<StepView> {
    spec_steps_head(m) + spec_steps_copies(m) + spec_steps_mounts(m) + spec_steps_mid_restart(m)
        + spec_steps_runs(m) + spec_steps_limits(m) + spec_steps_final_restart(m)
}

/// Clones an optional string.
fn clone_opt(o: &Option<String>) -> (r: Option<String>)
    ensures
        r.deep_view() == o.deep_view(),
{
    match o {
        Some(s) => Some(s.clone()),
        None => None,
    }
}

/// Takes the single command out of a translator's result.
fn first_of(v: Vec<String>) -> (r: String)
    requires
        v.deep_view().len() == 1,
    ensures
        r@ == v.deep_view()[0],
{
    let ghost pre = v.deep_view();
    let mut v = v;
    let r = v.remove(0);
    proof {
        assert(r@ == pre[0]);
    }
    r
}

/// Renders the create-instance command for `m`.
fn render_create(m: &BuildManifest) -> (r: String)
    ensures
        r@ == spec_plan_create_cmd(m@),
{
    let args = CreateArgs {
        name: m.name.clone(),
        image: ImageSpec {
            distro: m.image.distro.clone(),
            release: m.image.release.clone(),
            arch: m.image.arch.clone(),
        },
        config: clone_opt(&m.config),
        dir: clone_opt(&m.dir),
        network: clone_opt(&m.network),
    };
    proof {
        assert(args@ =~= spec_manifest_create_args(m@));
    }
    first_of(create(args))
}

/// Renders the start-instance command for a bare name.
fn render_start(name: &String) -> (r: String)
    ensures
        r@ == spec_bare_start_cmd(name@),
{
    let args = StartArgs {
        name: name.clone(),
        daemon: false,
        foreground: false,
        pidfile: None,
        rcfile: None,
        console: None,
        console_log: None,
        close_all_fds: false,
        define: None,
        share_net: None,
        share_ipc: None,
        share_uts: None,
        share_pid: None,
    };
    proof {
        assert(args@ =~= spec_bare_start_args(name@));
    }
    first_of(start(args))
}

/// Renders the stop-instance command for a bare name.
fn render_stop(name: &String) -> (r: String)
    ensures
        r@ == spec_bare_stop_cmd(name@),
{
    let args = StopArgs {
        name: name.clone(),
        reboot: false,
        nowait: false,
        timeout: None,
        kill: false,
        nolock: false,
        nokill: false,
        rcfile: None,
    };
    proof {
        assert(args@ =~= spec_bare_stop_args(name@));
    }
    first_of(stop(args))
}

/// Renders the attach-and-execute command for one run command.
fn render_attach(name: &String, cmd: &String) -> (r: String)
    ensures
        r@ == spec_attach_cmd(name@, cmd@),
{
    let mut command: Vec<String> = Vec::new();
    command.push(cmd.clone());
    let args = ExecuteArgs {
        name: name.clone(),
        command,
        elevated_privileges: None,
        arch: None,
        namespaces: None,
        remount_sys_proc: None,
        clear_env: false,
        keep_env: false,
        pty_log: None,
        set_var: false,
        keep_var: false,
        rcfile: None,
        uid: None,
        gid: None,
        context: None,
    };
    proof {
        assert(args@.command =~= seq![cmd@]);
        assert(args@ =~= spec_attach_args(name@, cmd@));
    }
    first_of(execute(args))
}

/// Renders the configure command applying one limit.
fn render_limit(name: &String, l: &LimitEntry) -> (r: String)
    ensures
        r@ == spec_limit_cmd(name@, l@),
{
    let mut so: Vec<String> = Vec::new();
    so.push(replace_char(l.key.as_str(), '_', '.'));
    so.push(l.value.clone());
    let args = ConfigArgs { name: name.clone(), state_object: Some(so), config: None };
    proof {
        assert(args@.state_object matches Some(v) && v =~= seq![
            spec_replace_char(l@.key, '_', '.'),
            l@.value,
        ]);
        assert(args@ =~= ConfigArgsView {
            name: name@,
            state_object: Some(seq![spec_replace_char(l@.key, '_', '.'), l@.value]),
            config: None,
        });
    }
    first_of(config(args))
}

/// Renders the copy command for two resolved locations.
fn render_copy(source: String, destination: String, archive: bool, follow_link: bool) -> (r:
    String)
    ensures
        r@ == spec_copy_cmd(
            crate::args::CopyArgsView {
                source: source@,
                destination: destination@,
                archive,
                follow_link,
            },
        ),
{
    first_of(copy(CopyArgs { source, destination, archive, follow_link }))
}

/// Renders the entrypoint script path for `m`.
fn render_entry_path(m: &BuildManifest) -> (r: String)
    ensures
        r@ == spec_entry_path(m@),
{
    match &m.dir {
        Some(d) => {
            if !d.as_str().is_empty() {
                return d.clone().concat("/etc/profile.d/lxcapp.sh");
            }
            let mut p = "/var/lib/lxc/".to_owned();
            p.append(m.name.as_str());
            p.append("/rootfs/etc/profile.d/lxcapp.sh");
            p
        },
        None => {
            let mut p = "/var/lib/lxc/".to_owned();
            p.append(m.name.as_str());
            p.append("/rootfs/etc/profile.d/lxcapp.sh");
            p
        },
    }
}

/// Renders the entrypoint script content for a declared body.
fn render_entry_content(body: &String) -> (r: String)
    ensures
        r@ == spec_entry_content(body@),
{
    let mut c = "#!/bin/sh\n".to_owned();
    c.append(body.as_str());
    c.append("\n");
    c
}

/// Renders the instance's persistent configuration file path.
fn render_config_path(name: &String) -> (r: String)
    ensures
        r@ == spec_config_path(name@),
{
    let mut p = "/var/lib/lxc/".to_owned();
    p.append(name.as_str());
    p.append("/config");
    p
}

/// Renders one bind-mount declaration line.
fn render_mount_line(s: &SharedMountSpec) -> (r: String)
    ensures
        r@ == spec_mount_line(s@),
{
    let mut l = "lxc.mount.entry = ".to_owned();
    l.append(s.host.as_str());
    l.append(" ");
    l.append(s.container.as_str());
    l.append(" none bind,create=dir 0 0");
    l
}

/// Derives the whole ordered step list from a manifest.
pub fn plan(m: &BuildManifest) -> (r: Vec<ProvisioningStep>)
    ensures
        r.deep_view() == spec_plan(m@),
{
    let mut r: Vec<ProvisioningStep> = Vec::new();
    r.push(ProvisioningStep::CreateStep { cmd: render_create(m) });
    match &m.entrypoint {
        Some(body) => {
            r.push(
                ProvisioningStep::EntrypointStep {
                    path: render_entry_path(m),
                    content: render_entry_content(body),
                    mode: 0o555,
                },
            );
        },
        None => {},
    }
    r.push(ProvisioningStep::StartStep { cmd: render_start(&m.name) });
    proof {
        assert(r.deep_view() =~= spec_steps_head(m@));
    }
    let ghost mut done: Seq<StepView> = spec_steps_head(m@);
    let mut i: usize = 0;
    while i < m.copies.len()
        invariant
            0 <= i <= m.copies.len(),
            m@.copies.len() == m.copies.len(),
            done == spec_steps_head(m@),
            r.deep_view() == done + spec_steps_copies(m@).take(i as int),
        decreases m.copies.len() - i,
    {
        let ghost pre = r.deep_view();
        let c = &m.copies[i];
        let mut destination = m.name.clone();
        destination.append(":");
        destination.append(c.container.as_str());
        let step = ProvisioningStep::CopyStep {
            source: c.host.clone(),
            destination,
            archive: c.archive,
            follow_link: c.follow_link,
        };
        proof {
            assert(step@ == spec_steps_copies(m@)[i as int]);
        }
        r.push(step);
        proof {
            assert(r.deep_view() =~= pre.push(spec_steps_copies(m@)[i as int]));
            assert(spec_steps_copies(m@).take(i + 1) =~= spec_steps_copies(m@).take(
                i as int,
            ).push(spec_steps_copies(m@)[i as int]));
            assert(r.deep_view() =~= done + spec_steps_copies(m@).take(i + 1));
        }
        i += 1;
    }
    proof {
        assert(spec_steps_copies(m@).take(m.copies.len() as int) =~= spec_steps_copies(m@));
        done = done + spec_steps_copies(m@);
        assert(r.deep_view() == done);
    }
    let mut i: usize = 0;
    while i < m.shared.len()
        invariant
            0 <= i <= m.shared.len(),
            m@.shared.len() == m.shared.len(),
            done == spec_steps_head(m@) + spec_steps_copies(m@),
            r.deep_view() == done + spec_steps_mounts(m@).take(i as int),
        decreases m.shared.len() - i,
    {
        let ghost pre = r.deep_view();
        let s = &m.shared[i];
        let step = ProvisioningStep::MountStep {
            host: s.host.clone(),
            config_path: render_config_path(&m.name),
            line: render_mount_line(s),
        };
        proof {
            assert(step@ == spec_steps_mounts(m@)[i as int]);
        }
        r.push(step);
        proof {
            assert(r.deep_view() =~= pre.push(spec_steps_mounts(m@)[i as int]));
            assert(spec_steps_mounts(m@).take(i + 1) =~= spec_steps_mounts(m@).take(
                i as int,
            ).push(spec_steps_mounts(m@)[i as int]));
            assert(r.deep_view() =~= done + spec_steps_mounts(m@).take(i + 1));
        }
        i += 1;
    }
    proof {
        assert(spec_steps_mounts(m@).take(m.shared.len() as int) =~= spec_steps_mounts(m@));
        done = done + spec_steps_mounts(m@);
        assert(r.deep_view() == done);
    }
    if m.shared.len() > 0 {
        let ghost pre = r.deep_view();
        r.push(ProvisioningStep::StopStep { cmd: render_stop(&m.name) });
        r.push(ProvisioningStep::StartStep { cmd: render_start(&m.name) });
        proof {
            assert(r.deep_view() =~= done + spec_steps_mid_restart(m@));
        }
    } else {
        proof {
            assert(r.deep_view() =~= done + spec_steps_mid_restart(m@));
        }
    }
    proof {
        done = done + spec_steps_mid_restart(m@);
        assert(r.deep_view() == done);
    }
    let mut i: usize = 0;
    while i < m.runs.len()
        invariant
            0 <= i <= m.runs.len(),
            m@.runs.len() == m.runs.len(),
            done == spec_steps_head(m@) + spec_steps_copies(m@) + spec_steps_mounts(m@)
                + spec_steps_mid_restart(m@),
            r.deep_view() == done + spec_steps_runs(m@).take(i as int),
        decreases m.runs.len() - i,
    {
        let ghost pre = r.deep_view();
        let rc = &m.runs[i];
        let step = ProvisioningStep::RunStep { cmd: render_attach(&m.name, &rc.cmd) };
        proof {
            assert(step@ == spec_steps_runs(m@)[i as int]);
        }
        r.push(step);
        proof {
            assert(r.deep_view() =~= pre.push(spec_steps_runs(m@)[i as int]));
            assert(spec_steps_runs(m@).take(i + 1) =~= spec_steps_runs(m@).take(i as int).push(
                spec_steps_runs(m@)[i as int],
            ));
            assert(r.deep_view() =~= done + spec_steps_runs(m@).take(i + 1));
        }
        i += 1;
    }
    proof {
        assert(spec_steps_runs(m@).take(m.runs.len() as int) =~= spec_steps_runs(m@));
        done = done + spec_steps_runs(m@);
        assert(r.deep_view() == done);
    }
    let mut i: usize = 0;
    while i < m.limits.len()
        invariant
            0 <= i <= m.limits.len(),
            m@.limits.len() == m.limits.len(),
            done == spec_steps_head(m@) + spec_steps_copies(m@) + spec_steps_mounts(m@)
                + spec_steps_mid_restart(m@) + spec_steps_runs(m@),
            r.deep_view() == done + spec_steps_limits(m@).take(i as int),
        decreases m.limits.len() - i,
    {
        let ghost pre = r.deep_view();
        let l = &m.limits[i];
        let step = ProvisioningStep::LimitStep { cmd: render_limit(&m.name, l) };
        proof {
            assert(step@ == spec_steps_limits(m@)[i as int]);
        }
        r.push(step);
        proof {
            assert(r.deep_view() =~= pre.push(spec_steps_limits(m@)[i as int]));
            assert(spec_steps_limits(m@).take(i + 1) =~= spec_steps_limits(m@).take(
                i as int,
            ).push(spec_steps_limits(m@)[i as int]));
            assert(r.deep_view() =~= done + spec_steps_limits(m@).take(i + 1));
        }
        i += 1;
    }
    proof {
        assert(spec_steps_limits(m@).take(m.limits.len() as int) =~= spec_steps_limits(m@));
        done = done + spec_steps_limits(m@);
        assert(r.deep_view() == done);
    }
    r.push(ProvisioningStep::StopStep { cmd: render_stop(&m.name) });
    r.push(ProvisioningStep::StartStep { cmd: render_start(&m.name) });
    proof {
        assert(r.deep_view() =~= done + spec_steps_final_restart(m@));
        assert(r.deep_view() =~= spec_plan(m@));
    }
    r
}

/// What kind of failure aborted a step.
#[derive(Debug, Clone, Copy, PartialEq, Eq, Structural)]
pub enum StepErrorKind {
    /// A spawned command failed to start or reported failure.
    Execution,
    /// A filesystem action failed — the entrypoint file already existed,
    /// a write failed, or the mount directory could not be created.
    FileSystem,
    /// A copy or mount location named an instance unknown to the runtime.
    LookupNotFound,
    /// A copy or mount location named an instance that is not running.
    LookupNotRunning,
}

/// The error that aborted a build: the failing step's index in the plan,
/// and the underlying cause.
#[derive(Debug, Clone, Copy, PartialEq, Eq, Structural)]
pub struct BuildError {
    pub step: usize,
    pub kind: StepErrorKind,
}

/// Where a build stands.
#[derive(Debug, Clone, Copy, PartialEq, Eq, Structural)]
pub enum BuildStatus {
    /// Steps remain and no failure has been reported.
    Running,
    /// Every step reported success.
    Done,
    /// A step failed; the build stopped at once and the instance keeps
    /// its partially provisioned state.
    Failed(BuildError),
}

/// One external action the caller must perform for the build.
pub enum Action {
    /// Spawn this command line, wait for it, and report the outcome.
    Exec(String),
    /// Create the file at `path` exclusively — fail without touching
    /// anything if it already exists — write `content`, and set its
    /// permission bits to `mode`.
    CreateExclusive { path: String, content: String, mode: u32 },
    /// Create this directory, and any missing parents, if absent.
    MakeDirAll(String),
    /// Append `line`, with a trailing newline, to the file at `path`.
    AppendLine { path: String, line: String },
    /// Query the named instance's rootfs path and reply with
    /// [`Event::Resolved`].
    QueryRootfs(String),
    /// The build finished: every step succeeded.
    Done,
    /// The build aborted with this error; nothing further will run.
    Failed(BuildError),
}

/// View of [`Action`].
pub enum ActionView {
    Exec(Seq<char>),
    CreateExclusive { path: Seq<char>, content: Seq<char>, mode: u32 },
    MakeDirAll(Seq<char>),
    AppendLine { path: Seq<char>, line: Seq<char> },
    QueryRootfs(Seq<char>),
    Done,
    Failed(BuildError),
}

impl View for Action {
    type V = ActionView;

    open spec fn view(&self) -> ActionView {
        match self {
            Action::Exec(c) => ActionView::Exec(c@),
            Action::CreateExclusive { path, content, mode } => ActionView::CreateExclusive {
                path: path@,
                content: content@,
                mode: *mode,
            },
            Action::MakeDirAll(p) => ActionView::MakeDirAll(p@),
            Action::AppendLine { path, line } => ActionView::AppendLine {
                path: path@,
                line: line@,
            },
            Action::QueryRootfs(n) => ActionView::QueryRootfs(n@),
            Action::Done => ActionView::Done,
            Action::Failed(e) => ActionView::Failed(*e),
        }
    }
}

/// The outcome of the previous action, handed back by the caller.
pub enum Event {
    /// Starts the build; the only event accepted before any action.
    Begin,
    /// The previous command or filesystem action succeeded.
    Succeeded,
    /// The previous command or filesystem action failed.
    Failed,
    /// The reply to a rootfs query.
    Resolved(crate::resolver::RootfsResult),
}

/// View of [`Event`].
pub enum EventView {
    Begin,
    Succeeded,
    Failed,
    Resolved(crate::resolver::RootfsResultView),
}

impl View for Event {
    type V = EventView;

    open spec fn view(&self) -> EventView {
        match self {
            Event::Begin => EventView::Begin,
            Event::Succeeded => EventView::Succeeded,
            Event::Failed => EventView::Failed,
            Event::Resolved(r) => EventView::Resolved(r@),
        }
    }
}

/// What the machine is waiting for.
pub enum Phase {
    /// Nothing issued yet; the next event must be [`Event::Begin`].
    Ready,
    /// The action for the current step is outstanding.
    AwaitStep,
    /// The mount directory creation for the current mount step is
    /// outstanding; its configuration line is appended next.
    AwaitMountDir,
    /// The rootfs query for the current copy step's source is
    /// outstanding.
    AwaitSrc,
    /// The source is resolved; the rootfs query for the destination is
    /// outstanding.
    AwaitDst { source: String },
}

/// View of [`Phase`].
pub enum PhaseView {
    Ready,
    AwaitStep,
    AwaitMountDir,
    AwaitSrc,
    AwaitDst { source: Seq<char> },
}

impl View for Phase {
    type V = PhaseView;

    open spec fn view(&self) -> PhaseView {
        match self {
            Phase::Ready => PhaseView::Ready,
            Phase::AwaitStep => PhaseView::AwaitStep,
            Phase::AwaitMountDir => PhaseView::AwaitMountDir,
            Phase::AwaitSrc => PhaseView::AwaitSrc,
            Phase::AwaitDst { source } => PhaseView::AwaitDst { source: source@ },
        }
    }
}

/// A build in progress: the plan, the current step, what the machine
/// awaits, and where the build stands.
pub struct Build {
    pub steps: Vec<ProvisioningStep>,
    pub pos: usize,
    pub phase: Phase,
    pub status: BuildStatus,
}

/// View of [`Build`].
#[verifier::ext_equal]
pub struct BuildView {
    pub steps: Seq<StepView>,
    pub pos: usize,
    pub phase: PhaseView,
    pub status: BuildStatus,
}

impl View for Build {
    type V = BuildView;

    open spec fn view(&self) -> BuildView {
        BuildView {
            steps: self.steps.deep_view(),
            pos: self.pos,
            phase: self.phase@,
            status: self.status,
        }
    }
}

impl BuildView {
    /// The machine's well-formedness: the position stays inside the
    /// plan, and each waiting phase matches the step it waits on.
    pub open spec fn wf(self) -> bool {
        &&& self.pos <= self.steps.len()
        &&& (self.status is Running ==> match self.phase {
            PhaseView::Ready => self.pos == 0,
            PhaseView::AwaitStep => self.pos < self.steps.len(),
            PhaseView::AwaitMountDir => self.pos < self.steps.len() && self.steps[
                self.pos as int
            ] is MountStep,
            PhaseView::AwaitSrc => self.pos < self.steps.len() && self.steps[
                self.pos as int
            ] is CopyStep,
            PhaseView::AwaitDst { .. } => self.pos < self.steps.len() && self.steps[
                self.pos as int
            ] is CopyStep,
        })
    }
}

/// The machine at the start of a build of this plan.
pub open spec fn spec_init(plan: Seq<StepView>) -> BuildView {
    BuildView { steps: plan, pos: 0, phase: PhaseView::Ready, status: BuildStatus::Running }
}

/// The build fails at the current step with this cause.
pub open spec fn spec_fail(s: BuildView, kind: StepErrorKind) -> (BuildView, ActionView) {
    let e = BuildError { step: s.pos, kind };
    (BuildView { status: BuildStatus::Failed(e), ..s }, ActionView::Failed(e))
}

/// The cause a failure event carries, by the kind of the failing step:
/// entrypoint materialization and mount steps fail on the filesystem,
/// every other step fails in a spawned command.
pub open spec fn spec_step_error_kind(st: StepView) -> StepErrorKind {
    match st {
        StepView::EntrypointStep { .. } => StepErrorKind::FileSystem,
        StepView::MountStep { .. } => StepErrorKind::FileSystem,
        _ => StepErrorKind::Execution,
    }
}

/// Issues the action for a copy step once its source is resolved: a
/// destination naming an instance is queried next, a bare destination
/// completes the copy command at once.
pub open spec fn spec_dst_parts(
    dest: Seq<char>,
    src: Seq<char>,
    archive: bool,
    follow_link: bool,
) -> (PhaseView, ActionView) {
    match crate::resolver::spec_decompose(dest) {
        crate::resolver::LocationView::Instance { name, rel } => (
            PhaseView::AwaitDst { source: src },
            ActionView::QueryRootfs(name),
        ),
        crate::resolver::LocationView::Bare(q) => (
            PhaseView::AwaitStep,
            ActionView::Exec(
                spec_copy_cmd(
                    crate::args::CopyArgsView {
                        source: src,
                        destination: q,
                        archive,
                        follow_link,
                    },
                ),
            ),
        ),
    }
}

/// Issues the first action of the step at the current position, or
/// reports the build done when none remains.
pub open spec fn spec_issue(s: BuildView) -> (BuildView, ActionView) {
    if s.pos >= s.steps.len() {
        (BuildView { status: BuildStatus::Done, ..s }, ActionView::Done)
    } else {
        match s.steps[s.pos as int] {
            StepView::CreateStep { cmd } => (
                BuildView { phase: PhaseView::AwaitStep, ..s },
                ActionView::Exec(cmd),
            ),
            StepView::StartStep { cmd } => (
                BuildView { phase: PhaseView::AwaitStep, ..s },
                ActionView::Exec(cmd),
            ),
            StepView::StopStep { cmd } => (
                BuildView { phase: PhaseView::AwaitStep, ..s },
                ActionView::Exec(cmd),
            ),
            StepView::RunStep { cmd } => (
                BuildView { phase: PhaseView::AwaitStep, ..s },
                ActionView::Exec(cmd),
            ),
            StepView::LimitStep { cmd } => (
                BuildView { phase: PhaseView::AwaitStep, ..s },
                ActionView::Exec(cmd),
            ),
            StepView::EntrypointStep { path, content, mode } => (
                BuildView { phase: PhaseView::AwaitStep, ..s },
                ActionView::CreateExclusive { path, content, mode },
            ),
            StepView::MountStep { host, .. } => (
                BuildView { phase: PhaseView::AwaitMountDir, ..s },
                ActionView::MakeDirAll(host),
            ),
            StepView::CopyStep { source, destination, archive, follow_link } => {
                match crate::resolver::spec_decompose(source) {
                    crate::resolver::LocationView::Instance { name, .. } => (
                        BuildView { phase: PhaseView::AwaitSrc, ..s },
                        ActionView::QueryRootfs(name),
                    ),
                    crate::resolver::LocationView::Bare(p) => {
                        let (ph, a) = spec_dst_parts(destination, p, archive, follow_link);
                        (BuildView { phase: ph, ..s }, a)
                    },
                }
            },
        }
    }
}

/// One transition of the orchestrator: consumes the previous action's
/// outcome and produces the machine's next state and action.  A failure
/// event, a failed lookup, or an event that violates the protocol all
/// abort the build; a finished or failed build answers every further
/// event with its terminal action.
pub open spec fn spec_next(s: BuildView, e: EventView) -> (BuildView, ActionView) {
    match s.status {
        BuildStatus::Done => (s, ActionView::Done),
        BuildStatus::Failed(err) => (s, ActionView::Failed(err)),
        BuildStatus::Running => match s.phase {
            PhaseView::Ready => match e {
                EventView::Begin => spec_issue(s),
                _ => spec_fail(s, StepErrorKind::Execution),
            },
            PhaseView::AwaitStep => match e {
                EventView::Succeeded => spec_issue(
                    BuildView { pos: (s.pos + 1) as usize, ..s },
                ),
                EventView::Failed => spec_fail(
                    s,
                    spec_step_error_kind(s.steps[s.pos as int]),
                ),
                _ => spec_fail(s, StepErrorKind::Execution),
            },
            PhaseView::AwaitMountDir => match e {
                EventView::Succeeded => match s.steps[s.pos as int] {
                    StepView::MountStep { config_path, line, .. } => (
                        BuildView { phase: PhaseView::AwaitStep, ..s },
                        ActionView::AppendLine { path: config_path, line: line },
                    ),
                    _ => spec_fail(s, StepErrorKind::Execution),
                },
                EventView::Failed => spec_fail(s, StepErrorKind::FileSystem),
                _ => spec_fail(s, StepErrorKind::Execution),
            },
            PhaseView::AwaitSrc => match e {
                EventView::Resolved(res) => match res {
                    crate::resolver::RootfsResultView::Path(p) => match s.steps[s.pos as int] {
                        StepView::CopyStep { source, destination, archive, follow_link } => {
                            match crate::resolver::spec_decompose(source) {
                                crate::resolver::LocationView::Instance { name, rel } => {
                                    let (ph, a) = spec_dst_parts(
                                        destination,
                                        p + rel,
                                        archive,
                                        follow_link,
                                    );
                                    (BuildView { phase: ph, ..s }, a)
                                },
                                _ => spec_fail(s, StepErrorKind::Execution),
                            }
                        },
                        _ => spec_fail(s, StepErrorKind::Execution),
                    },
                    crate::resolver::RootfsResultView::NotFound => spec_fail(
                        s,
                        StepErrorKind::LookupNotFound,
                    ),
                    crate::resolver::RootfsResultView::NotRunning => spec_fail(
                        s,
                        StepErrorKind::LookupNotRunning,
                    ),
                },
                _ => spec_fail(s, StepErrorKind::Execution),
            },
            PhaseView::AwaitDst { source: src } => match e {
                EventView::Resolved(res) => match res {
                    crate::resolver::RootfsResultView::Path(p) => match s.steps[s.pos as int] {
                        StepView::CopyStep { destination, archive, follow_link, .. } => {
                            match crate::resolver::spec_decompose(destination) {
                                crate::resolver::LocationView::Instance { name, rel } => (
                                    BuildView { phase: PhaseView::AwaitStep, ..s },
                                    ActionView::Exec(
                                        spec_copy_cmd(
                                            crate::args::CopyArgsView {
                                                source: src,
                                                destination: p + rel,
                                                archive,
                                                follow_link,
                                            },
                                        ),
                                    ),
                                ),
                                _ => spec_fail(s, StepErrorKind::Execution),
                            }
                        },
                        _ => spec_fail(s, StepErrorKind::Execution),
                    },
                    crate::resolver::RootfsResultView::NotFound => spec_fail(
                        s,
                        StepErrorKind::LookupNotFound,
                    ),
                    crate::resolver::RootfsResultView::NotRunning => spec_fail(
                        s,
                        StepErrorKind::LookupNotRunning,
                    ),
                },
                _ => spec_fail(s, StepErrorKind::Execution),
            },
        },
    }
}

/// Starts a build: derives the plan from the manifest and readies the
/// machine, which then awaits [`Event::Begin`].
pub fn build(manifest: &BuildManifest) -> (b: Build)
    ensures
        b@ == spec_init(spec_plan(manifest@)),
        b@.wf(),
{
    let b = Build {
        steps: plan(manifest),
        pos: 0,
        phase: Phase::Ready,
        status: BuildStatus::Running,
    };
    proof {
        assert(b@ =~= spec_init(spec_plan(manifest@)));
    }
    b
}

impl Build {
    /// Fails the build at the current step.
    fn fail(&mut self, kind: StepErrorKind) -> (a: Action)
        ensures
            (final(self)@, a@) == spec_fail(old(self)@, kind),
    {
        let e = BuildError { step: self.pos, kind };
        self.status = BuildStatus::Failed(e);
        proof {
            assert(final(self)@ =~= spec_fail(old(self)@, kind).0);
        }
        Action::Failed(e)
    }

    /// Issues the first action of the current step, or reports the build
    /// done.
    fn issue(&mut self) -> (a: Action)
        ensures
            (final(self)@, a@) == spec_issue(old(self)@),
    {
        if self.pos >= self.steps.len() {
            self.status = BuildStatus::Done;
            proof {
                assert(final(self)@ =~= spec_issue(old(self)@).0);
            }
            return Action::Done;
        }
        let (act, ph) = match &self.steps[self.pos] {
            ProvisioningStep::CreateStep { cmd } => (Action::Exec(cmd.clone()), Phase::AwaitStep),
            ProvisioningStep::StartStep { cmd } => (Action::Exec(cmd.clone()), Phase::AwaitStep),
            ProvisioningStep::StopStep { cmd } => (Action::Exec(cmd.clone()), Phase::AwaitStep),
            ProvisioningStep::RunStep { cmd } => (Action::Exec(cmd.clone()), Phase::AwaitStep),
            ProvisioningStep::LimitStep { cmd } => (Action::Exec(cmd.clone()), Phase::AwaitStep),
            ProvisioningStep::EntrypointStep { path, content, mode } => (
                Action::CreateExclusive {
                    path: path.clone(),
                    content: content.clone(),
                    mode: *mode,
                },
                Phase::AwaitStep,
            ),
            ProvisioningStep::MountStep { host, .. } => (
                Action::MakeDirAll(host.clone()),
                Phase::AwaitMountDir,
            ),
            ProvisioningStep::CopyStep { source, destination, archive, follow_link } => {
                match crate::resolver::decompose_location(source.as_str()) {
                    crate::resolver::Location::Instance { name, rel: _ } => (
                        Action::QueryRootfs(name),
                        Phase::AwaitSrc,
                    ),
                    crate::resolver::Location::Bare(p) => dst_parts(
                        destination.as_str(),
                        p,
                        *archive,
                        *follow_link,
                    ),
                }
            },
        };
        self.phase = ph;
        proof {
            assert(final(self)@ =~= spec_issue(old(self)@).0);
        }
        act
    }

    /// One transition of the build: consumes the previous action's
    /// outcome and returns the next action to perform.
    pub fn next(&mut self, e: Event) -> (a: Action)
        requires
            old(self)@.wf(),
        ensures
            (final(self)@, a@) == spec_next(old(self)@, e@),
            final(self)@.wf(),
    {
        match &self.status {
            BuildStatus::Done => Action::Done,
            BuildStatus::Failed(err) => Action::Failed(*err),
            BuildStatus::Running => {
                match (&self.phase, &e) {
                    (Phase::Ready, Event::Begin) => self.issue(),
                    (Phase::AwaitStep, Event::Succeeded) => {
                        let n = self.steps.len();
                        proof {
                            assert(old(self)@.phase is AwaitStep);
                            assert(old(self)@.pos < n);
                        }
                        self.pos = self.pos + 1;
                        self.issue()
                    },
                    (Phase::AwaitStep, Event::Failed) => {
                        let kind = match &self.steps[self.pos] {
                            ProvisioningStep::EntrypointStep { .. } => StepErrorKind::FileSystem,
                            ProvisioningStep::MountStep { .. } => StepErrorKind::FileSystem,
                            _ => StepErrorKind::Execution,
                        };
                        self.fail(kind)
                    },
                    (Phase::AwaitMountDir, Event::Succeeded) => {
                        let parts = match &self.steps[self.pos] {
                            ProvisioningStep::MountStep { config_path, line, .. } => Some(
                                (config_path.clone(), line.clone()),
                            ),
                            _ => None,
                        };
                        match parts {
                            Some((path, line)) => {
                                self.phase = Phase::AwaitStep;
                                proof {
                                    assert(final(self)@ =~= spec_next(old(self)@, e@).0);
                                }
                                Action::AppendLine { path, line }
                            },
                            None => self.fail(StepErrorKind::Execution),
                        }
                    },
                    (Phase::AwaitMountDir, Event::Failed) => self.fail(StepErrorKind::FileSystem),
                    (Phase::AwaitSrc, Event::Resolved(res)) => {
                        match res {
                            crate::resolver::RootfsResult::Path(p) => {
                                let parts = match &self.steps[self.pos] {
                                    ProvisioningStep::CopyStep {
                                        source,
                                        destination,
                                        archive,
                                        follow_link,
                                    } => {
                                        match crate::resolver::decompose_location(
                                            source.as_str(),
                                        ) {
                                            crate::resolver::Location::Instance {
                                                name: _,
                                                rel,
                                            } => Some(
                                                (
                                                    p.clone().concat(rel.as_str()),
                                                    destination.clone(),
                                                    *archive,
                                                    *follow_link,
                                                ),
                                            ),
                                            crate::resolver::Location::Bare(_) => None,
                                        }
                                    },
                                    _ => None,
                                };
                                match parts {
                                    Some((resolved, destination, archive, follow_link)) => {
                                        let (act, ph) = dst_parts(
                                            destination.as_str(),
                                            resolved,
                                            archive,
                                            follow_link,
                                        );
                                        self.phase = ph;
                                        proof {
                                            assert(final(self)@ =~= spec_next(
                                                old(self)@,
                                                e@,
                                            ).0);
                                        }
                                        act
                                    },
                                    None => self.fail(StepErrorKind::Execution),
                                }
                            },
                            crate::resolver::RootfsResult::NotFound => self.fail(
                                StepErrorKind::LookupNotFound,
                            ),
                            crate::resolver::RootfsResult::NotRunning => self.fail(
                                StepErrorKind::LookupNotRunning,
                            ),
                        }
                    },
                    (Phase::AwaitDst { source }, Event::Resolved(res)) => {
                        match res {
                            crate::resolver::RootfsResult::Path(p) => {
                                let parts = match &self.steps[self.pos] {
                                    ProvisioningStep::CopyStep {
                                        destination,
                                        archive,
                                        follow_link,
                                        ..
                                    } => {
                                        match crate::resolver::decompose_location(
                                            destination.as_str(),
                                        ) {
                                            crate::resolver::Location::Instance {
                                                name: _,
                                                rel,
                                            } => Some(
                                                (
                                                    source.clone(),
                                                    p.clone().concat(rel.as_str()),
                                                    *archive,
                                                    *follow_link,
                                                ),
                                            ),
                                            crate::resolver::Location::Bare(_) => None,
                                        }
                                    },
                                    _ => None,
                                };
                                match parts {
                                    Some((src, resolved_dst, archive, follow_link)) => {
                                        let cmd = render_copy(
                                            src,
                                            resolved_dst,
                                            archive,
                                            follow_link,
                                        );
                                        self.phase = Phase::AwaitStep;
                                        proof {
                                            assert(final(self)@ =~= spec_next(
                                                old(self)@,
                                                e@,
                                            ).0);
                                        }
                                        Action::Exec(cmd)
                                    },
                                    None => self.fail(StepErrorKind::Execution),
                                }
                            },
                            crate::resolver::RootfsResult::NotFound => self.fail(
                                StepErrorKind::LookupNotFound,
                            ),
                            crate::resolver::RootfsResult::NotRunning => self.fail(
                                StepErrorKind::LookupNotRunning,
                            ),
                        }
                    },
                    _ => self.fail(StepErrorKind::Execution),
                }
            },
        }
    }
}

/// Issues the action for a copy step once its source is resolved.
fn dst_parts(destination: &str, src: String, archive: bool, follow_link: bool) -> (r: (
    Action,
    Phase,
))
    ensures
        ({
            let (ph, a) = spec_dst_parts(destination@, src@, archive, follow_link);
            r.0@ == a && r.1@ == ph
        }),
{
    match crate::resolver::decompose_location(destination) {
        crate::resolver::Location::Instance { name, rel: _ } => (
            Action::QueryRootfs(name),
            Phase::AwaitDst { source: src },
        ),
        crate::resolver::Location::Bare(q) => {
            let cmd = render_copy(src, q, archive, follow_link);
            (Action::Exec(cmd), Phase::AwaitStep)
        },
    }
}

} // verus!
