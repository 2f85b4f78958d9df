//! Lifecycle primitive translators: deterministic, side-effect-free
//! builders of the container runtime's command lines, one per verb.
//! Each returns the exact invocation string pinned down by its spec
//! function; flag order is stable and reproducible.

use vstd::prelude::*;
use vstd::string::*;
use crate::args::{
    ConfigArgs, ConfigArgsView, CopyArgs, CopyArgsView, CreateArgs, CreateArgsView, DeleteArgs,
    DeleteArgsView, ExecuteArgs, ExecuteArgsView, ListArgs, ListArgsView, StartArgs,
    StartArgsView, StopArgs, StopArgsView,
};
use crate::strutil::{spec_dec, spec_join, join, u64_to_string};

verus! {

/// `flag` when `b` is set, nothing otherwise.
pub open spec fn spec_flag_part(flag: Seq<char>, b: bool) -> Seq<char> {
    if b {
        flag
    } else {
        Seq::empty()
    }
}

/// `prefix` followed by the option's value when present, nothing otherwise.
pub open spec fn spec_opt_part(prefix: Seq<char>, v: Option<Seq<char>>) -> Seq<char> {
    match v {
        Some(s) => prefix + s,
        None => Seq::empty(),
    }
}

/// Like [`spec_opt_part`], but an empty value counts as absent.
pub open spec fn spec_opt_part_nonempty(prefix: Seq<char>, v: Option<Seq<char>>) -> Seq<char> {
    match v {
        Some(s) => if s.len() > 0 {
            prefix + s
        } else {
            Seq::empty()
        },
        None => Seq::empty(),
    }
}

/// `prefix` followed by the number in decimal when present.
pub open spec fn spec_opt_u64_part(prefix: Seq<char>, v: Option<u64>) -> Seq<char> {
    match v {
        Some(n) => prefix + spec_dec(n as int),
        None => Seq::empty(),
    }
}

/// `prefix` followed by the values joined with commas when present.
pub open spec fn spec_opt_list_part(prefix: Seq<char>, v: Option<Seq<Seq<char>>>) -> Seq<char> {
    match v {
        Some(parts) => prefix + spec_join(parts, ","@),
        None => Seq::empty(),
    }
}

/// Appends `flag` to `out` when `b` is set.
fn append_flag(out: &mut String, flag: &str, b: bool)
    ensures
        final(out)@ == old(out)@ + spec_flag_part(flag@, b),
{
    if b {
        out.append(flag);
    } else {
        proof {
            assert(old(out)@ + spec_flag_part(flag@, b) =~= old(out)@);
        }
    }
}

/// Appends `prefix` and the option's value to `out` when present.
fn append_opt(out: &mut String, prefix: &str, v: &Option<String>)
    ensures
        final(out)@ == old(out)@ + spec_opt_part(prefix@, v.deep_view()),
{
    match v {
        Some(s) => {
            out.append(prefix);
            out.append(s.as_str());
            proof {
                assert(final(out)@ =~= old(out)@ + spec_opt_part(prefix@, v.deep_view()));
            }
        },
        None => {
            proof {
                assert(old(out)@ + spec_opt_part(prefix@, v.deep_view()) =~= old(out)@);
            }
        },
    }
}

/// Appends `prefix` and the option's value to `out` when present and
/// non-empty.
fn append_opt_nonempty(out: &mut String, prefix: &str, v: &Option<String>)
    ensures
        final(out)@ == old(out)@ + spec_opt_part_nonempty(prefix@, v.deep_view()),
{
    match v {
        Some(s) => {
            if !s.as_str().is_empty() {
                out.append(prefix);
                out.append(s.as_str());
                proof {
                    assert(final(out)@ =~= old(out)@ + spec_opt_part_nonempty(
                        prefix@,
                        v.deep_view(),
                    ));
                }
            } else {
                proof {
                    assert(old(out)@ + spec_opt_part_nonempty(prefix@, v.deep_view()) =~= old(
                        out,
                    )@);
                }
            }
        },
        None => {
            proof {
                assert(old(out)@ + spec_opt_part_nonempty(prefix@, v.deep_view()) =~= old(out)@);
            }
        },
    }
}

/// Appends `prefix` and the number in decimal to `out` when present.
fn append_opt_u64(out: &mut String, prefix: &str, v: &Option<u64>)
    ensures
        final(out)@ == old(out)@ + spec_opt_u64_part(prefix@, *v),
{
    match v {
        Some(n) => {
            out.append(prefix);
            let rendered = u64_to_string(*n);
            out.append(rendered.as_str());
            proof {
                assert(final(out)@ =~= old(out)@ + spec_opt_u64_part(prefix@, *v));
            }
        },
        None => {
            proof {
                assert(old(out)@ + spec_opt_u64_part(prefix@, *v) =~= old(out)@);
            }
        },
    }
}

/// Appends `prefix` and the comma-joined values to `out` when present.
fn append_opt_list(out: &mut String, prefix: &str, v: &Option<Vec<String>>)
    ensures
        final(out)@ == old(out)@ + spec_opt_list_part(prefix@, v.deep_view()),
{
    match v {
        Some(parts) => {
            out.append(prefix);
            let joined = join(parts, ",");
            out.append(joined.as_str());
            proof {
                assert(final(out)@ =~= old(out)@ + spec_opt_list_part(prefix@, v.deep_view()));
            }
        },
        None => {
            proof {
                assert(old(out)@ + spec_opt_list_part(prefix@, v.deep_view()) =~= old(out)@);
            }
        },
    }
}

/// The create-instance command line for `a`.
pub open spec fn spec_create_cmd(a: CreateArgsView) -> Seq<char> {
    "lxc-create --name="@ + a.name + spec_opt_part_nonempty(" --config="@, a.config)
        + spec_opt_part_nonempty(" --dir="@, a.dir) + spec_opt_part_nonempty(
        " --network="@,
        a.network,
    ) + " --template=download -- --dist="@ + a.image.distro + " --release="@ + a.image.release
        + " --arch="@ + a.image.arch
}

/// Builds the create-instance command.  A configuration file, rootfs
/// directory override, or network name is included only when present and
/// non-empty.
pub fn create(args: CreateArgs) -> (r: Vec<String>)
    ensures
        r.deep_view() == seq![spec_create_cmd(args@)],
{
    let mut cmd = String::new();
    cmd.append("lxc-create --name=");
    cmd.append(args.name.as_str());
    append_opt_nonempty(&mut cmd, " --config=", &args.config);
    append_opt_nonempty(&mut cmd, " --dir=", &args.dir);
    append_opt_nonempty(&mut cmd, " --network=", &args.network);
    cmd.append(" --template=download -- --dist=");
    cmd.append(args.image.distro.as_str());
    cmd.append(" --release=");
    cmd.append(args.image.release.as_str());
    cmd.append(" --arch=");
    cmd.append(args.image.arch.as_str());
    proof {
        assert(cmd@ =~= spec_create_cmd(args@));
    }
    let mut r: Vec<String> = Vec::new();
    r.push(cmd);
    proof {
        assert(r.deep_view() =~= seq![spec_create_cmd(args@)]);
    }
    r
}

/// The destroy-instance command line for `a`.
pub open spec fn spec_delete_cmd(a: DeleteArgsView) -> Seq<char> {
    "lxc-destroy --name="@ + a.name + spec_flag_part(" --force"@, a.force) + spec_flag_part(
        " --snapshots"@,
        a.snapshots,
    ) + spec_opt_part(" --rcfile="@, a.rcfile)
}

/// Builds the destroy-instance command.
pub fn delete(args: DeleteArgs) -> (r: Vec<String>)
    ensures
        r.deep_view() == seq![spec_delete_cmd(args@)],
{
    let mut cmd = String::new();
    cmd.append("lxc-destroy --name=");
    cmd.append(args.name.as_str());
    append_flag(&mut cmd, " --force", args.force);
    append_flag(&mut cmd, " --snapshots", args.snapshots);
    append_opt(&mut cmd, " --rcfile=", &args.rcfile);
    proof {
        assert(cmd@ =~= spec_delete_cmd(args@));
    }
    let mut r: Vec<String> = Vec::new();
    r.push(cmd);
    proof {
        assert(r.deep_view() =~= seq![spec_delete_cmd(args@)]);
    }
    r
}

/// The option text of the attach-and-execute command line.
pub open spec fn spec_execute_opts(a: ExecuteArgsView) -> Seq<char> {
    spec_opt_part(" --elevated-privileges="@, a.elevated_privileges) + spec_opt_part(
        " --arch="@,
        a.arch,
    ) + spec_opt_part(" --namespaces="@, a.namespaces) + spec_opt_part(
        " --remount-sys-proc="@,
        a.remount_sys_proc,
    ) + spec_flag_part(" --clear-env"@, a.clear_env) + spec_flag_part(" --keep-env"@, a.keep_env)
        + spec_opt_part(" --pty-log="@, a.pty_log) + spec_flag_part(" --set-var"@, a.set_var)
        + spec_flag_part(" --keep-var"@, a.keep_var) + spec_opt_part(" --rcfile="@, a.rcfile)
        + spec_opt_part(" --uid="@, a.uid) + spec_opt_part(" --gid="@, a.gid) + spec_opt_part(
        " --context="@,
        a.context,
    )
}

/// The attach-and-execute command line for `a`: the command words are
/// joined with single spaces after the `--` separator.
pub open spec fn spec_execute_cmd(a: ExecuteArgsView) -> Seq<char> {
    "lxc-attach --name="@ + a.name + " "@ + spec_execute_opts(a) + " -- "@ + spec_join(
        a.command,
        " "@,
    )
}

/// Builds the attach-and-execute command.
pub fn execute(args: ExecuteArgs) -> (r: Vec<String>)
    ensures
        r.deep_view() == seq![spec_execute_cmd(args@)],
{
    let mut opts = String::new();
    append_opt(&mut opts, " --elevated-privileges=", &args.elevated_privileges);
    append_opt(&mut opts, " --arch=", &args.arch);
    append_opt(&mut opts, " --namespaces=", &args.namespaces);
    append_opt(&mut opts, " --remount-sys-proc=", &args.remount_sys_proc);
    append_flag(&mut opts, " --clear-env", args.clear_env);
    append_flag(&mut opts, " --keep-env", args.keep_env);
    append_opt(&mut opts, " --pty-log=", &args.pty_log);
    append_flag(&mut opts, " --set-var", args.set_var);
    append_flag(&mut opts, " --keep-var", args.keep_var);
    append_opt(&mut opts, " --rcfile=", &args.rcfile);
    append_opt(&mut opts, " --uid=", &args.uid);
    append_opt(&mut opts, " --gid=", &args.gid);
    append_opt(&mut opts, " --context=", &args.context);
    proof {
        assert(opts@ =~= spec_execute_opts(args@));
    }
    let mut cmd = String::new();
    cmd.append("lxc-attach --name=");
    cmd.append(args.name.as_str());
    cmd.append(" ");
    cmd.append(opts.as_str());
    cmd.append(" -- ");
    let joined = join(&args.command, " ");
    cmd.append(joined.as_str());
    proof {
        assert(cmd@ =~= spec_execute_cmd(args@));
    }
    let mut r: Vec<String> = Vec::new();
    r.push(cmd);
    proof {
        assert(r.deep_view() =~= seq![spec_execute_cmd(args@)]);
    }
    r
}

/// The start-instance command line for `a`.
pub open spec fn spec_start_cmd(a: StartArgsView) -> Seq<char> {
    "lxc-start --name="@ + a.name + spec_flag_part(" --daemon"@, a.daemon) + spec_flag_part(
        " --foreground"@,
        a.foreground,
    ) + spec_opt_part(" --pidfile="@, a.pidfile) + spec_opt_part(" --rcfile="@, a.rcfile)
        + spec_opt_part(" --console="@, a.console) + spec_opt_part(
        " --console-log="@,
        a.console_log,
    ) + spec_flag_part(" --close-all-fds"@, a.close_all_fds) + spec_opt_part(
        " --define="@,
        a.define,
    ) + spec_opt_part(" --share-net="@, a.share_net) + spec_opt_part(" --share-ipc="@, a.share_ipc)
        + spec_opt_part(" --share-uts="@, a.share_uts) + spec_opt_part(
        " --share-pid="@,
        a.share_pid,
    )
}

/// Builds the start-instance command.
pub fn start(args: StartArgs) -> (r: Vec<String>)
    ensures
        r.deep_view() == seq![spec_start_cmd(args@)],
{
    let mut cmd = String::new();
    cmd.append("lxc-start --name=");
    cmd.append(args.name.as_str());
    append_flag(&mut cmd, " --daemon", args.daemon);
    append_flag(&mut cmd, " --foreground", args.foreground);
    append_opt(&mut cmd, " --pidfile=", &args.pidfile);
    append_opt(&mut cmd, " --rcfile=", &args.rcfile);
    append_opt(&mut cmd, " --console=", &args.console);
    append_opt(&mut cmd, " --console-log=", &args.console_log);
    append_flag(&mut cmd, " --close-all-fds", args.close_all_fds);
    append_opt(&mut cmd, " --define=", &args.define);
    append_opt(&mut cmd, " --share-net=", &args.share_net);
    append_opt(&mut cmd, " --share-ipc=", &args.share_ipc);
    append_opt(&mut cmd, " --share-uts=", &args.share_uts);
    append_opt(&mut cmd, " --share-pid=", &args.share_pid);
    proof {
        assert(cmd@ =~= spec_start_cmd(args@));
    }
    let mut r: Vec<String> = Vec::new();
    r.push(cmd);
    proof {
        assert(r.deep_view() =~= seq![spec_start_cmd(args@)]);
    }
    r
}

/// The stop-instance command line for `a`.
pub open spec fn spec_stop_cmd(a: StopArgsView) -> Seq<char> {
    "lxc-stop --name="@ + a.name + spec_flag_part(" --reboot"@, a.reboot) + spec_flag_part(
        " --nowait"@,
        a.nowait,
    ) + spec_opt_u64_part(" --timeout="@, a.timeout) + spec_flag_part(" --kill"@, a.kill)
        + spec_flag_part(" --nolock"@, a.nolock) + spec_flag_part(" --nokill"@, a.nokill)
        + spec_opt_part(" --rcfile="@, a.rcfile)
}

/// Builds the stop-instance command.
pub fn stop(args: StopArgs) -> (r: Vec<String>)
    ensures
        r.deep_view() == seq![spec_stop_cmd(args@)],
{
    let mut cmd = String::new();
    cmd.append("lxc-stop --name=");
    cmd.append(args.name.as_str());
    append_flag(&mut cmd, " --reboot", args.reboot);
    append_flag(&mut cmd, " --nowait", args.nowait);
    append_opt_u64(&mut cmd, " --timeout=", &args.timeout);
    append_flag(&mut cmd, " --kill", args.kill);
    append_flag(&mut cmd, " --nolock", args.nolock);
    append_flag(&mut cmd, " --nokill", args.nokill);
    append_opt(&mut cmd, " --rcfile=", &args.rcfile);
    proof {
        assert(cmd@ =~= spec_stop_cmd(args@));
    }
    let mut r: Vec<String> = Vec::new();
    r.push(cmd);
    proof {
        assert(r.deep_view() =~= seq![spec_stop_cmd(args@)]);
    }
    r
}

/// The list-instances command line for `a`.
pub open spec fn spec_list_cmd(a: ListArgsView) -> Seq<char> {
    "lxc-ls"@ + spec_flag_part(" --line"@, a.line) + spec_flag_part(" --fancy"@, a.fancy)
        + spec_opt_list_part(" --fancy-format="@, a.fancy_format) + spec_flag_part(
        " --active"@,
        a.active,
    ) + spec_flag_part(" --running"@, a.running) + spec_flag_part(" --frozen"@, a.frozen)
        + spec_flag_part(" --stopped"@, a.stopped) + spec_flag_part(" --defined"@, a.defined)
        + spec_opt_u64_part(" --nesting="@, a.nesting_as_u64()) + spec_opt_part(
        " --filter="@,
        a.filter,
    ) + spec_opt_list_part(" --groups="@, a.groups)
}

impl ListArgsView {
    /// The nesting depth widened for decimal rendering.
    pub open spec fn nesting_as_u64(self) -> Option<u64> {
        match self.nesting {
            Some(n) => Some(n as u64),
            None => None,
        }
    }
}

/// Builds the list-instances command.
#[verifier::rlimit(30)]
pub fn list(args: ListArgs) -> (r: Vec<String>)
    ensures
        r.deep_view() == seq![spec_list_cmd(args@)],
{
    let mut cmd = String::new();
    cmd.append("lxc-ls");
    append_flag(&mut cmd, " --line", args.line);
    append_flag(&mut cmd, " --fancy", args.fancy);
    append_opt_list(&mut cmd, " --fancy-format=", &args.fancy_format);
    append_flag(&mut cmd, " --active", args.active);
    append_flag(&mut cmd, " --running", args.running);
    append_flag(&mut cmd, " --frozen", args.frozen);
    append_flag(&mut cmd, " --stopped", args.stopped);
    append_flag(&mut cmd, " --defined", args.defined);
    let nesting64: Option<u64> = match args.nesting {
        Some(n) => Some(n as u64),
        None => None,
    };
    proof {
        assert(nesting64 == args@.nesting_as_u64());
    }
    append_opt_u64(&mut cmd, " --nesting=", &nesting64);
    append_opt(&mut cmd, " --filter=", &args.filter);
    append_opt_list(&mut cmd, " --groups=", &args.groups);
    proof {
        assert(cmd@ =~= spec_list_cmd(args@));
    }
    let mut r: Vec<String> = Vec::new();
    r.push(cmd);
    proof {
        assert(r.deep_view() =~= seq![spec_list_cmd(args@)]);
    }
    r
}

/// The copy command line for `a`: always recursive, with the dereference
/// and archive flags applied verbatim from the options.
pub open spec fn spec_copy_cmd(a: CopyArgsView) -> Seq<char> {
    "cp "@ + "--recursive"@ + spec_flag_part(" --dereference"@, a.follow_link) + spec_flag_part(
        " --archive"@,
        a.archive,
    ) + " "@ + a.source + " "@ + a.destination
}

/// Builds the copy command from already-resolved source and destination
/// paths.
pub fn copy(args: CopyArgs) -> (r: Vec<String>)
    ensures
        r.deep_view() == seq![spec_copy_cmd(args@)],
{
    let mut cmd = String::new();
    cmd.append("cp ");
    cmd.append("--recursive");
    append_flag(&mut cmd, " --dereference", args.follow_link);
    append_flag(&mut cmd, " --archive", args.archive);
    cmd.append(" ");
    cmd.append(args.source.as_str());
    cmd.append(" ");
    cmd.append(args.destination.as_str());
    proof {
        assert(cmd@ =~= spec_copy_cmd(args@));
    }
    let mut r: Vec<String> = Vec::new();
    r.push(cmd);
    proof {
        assert(r.deep_view() =~= seq![spec_copy_cmd(args@)]);
    }
    r
}

/// The configure command line for `a`: a resource write through the
/// control-group verb when a state object is given, a configuration query
/// otherwise.
pub open spec fn spec_config_cmd(a: ConfigArgsView) -> Seq<char> {
    match a.state_object {
        Some(so) => "lxc-cgroup --name="@ + a.name + " "@ + so[0] + if so.len() > 1 {
            " "@ + so[1]
        } else {
            Seq::empty()
        },
        None => "lxc-info --name="@ + a.name + spec_opt_part(" --config="@, a.config),
    }
}

/// Builds the configure command.  A state object, when given, carries the
/// resource key and optionally its new value.
pub fn config(args: ConfigArgs) -> (r: Vec<String>)
    requires
        args.state_object matches Some(so) ==> so.len() >= 1,
    ensures
        r.deep_view() == seq![spec_config_cmd(args@)],
{
    let mut cmd = String::new();
    match &args.state_object {
        Some(so) => {
            cmd.append("lxc-cgroup --name=");
            cmd.append(args.name.as_str());
            cmd.append(" ");
            cmd.append(so[0].as_str());
            if so.len() > 1 {
                cmd.append(" ");
                cmd.append(so[1].as_str());
            }
        },
        None => {
            cmd.append("lxc-info --name=");
            cmd.append(args.name.as_str());
            append_opt(&mut cmd, " --config=", &args.config);
        },
    }
    proof {
        assert(cmd@ =~= spec_config_cmd(args@));
    }
    let mut r: Vec<String> = Vec::new();
    r.push(cmd);
    proof {
        assert(r.deep_view() =~= seq![spec_config_cmd(args@)]);
    }
    r
}

} // verus!
