//! The hypervisor command line of one instance, and the paths that belong to it.

use crate::text::{
    comma_pieces, decimal_string, decimal_text, lemma_occurs_between, lemma_occurs_in_longer,
    occurs_in, push_text, split_commas, texts,
};
use vstd::prelude::*;
use vstd::string::*;

verus! {

/// The host CPU architectures for which a hypervisor binary is known.
#[derive(Clone, Copy, Debug, PartialEq, Eq)]
pub enum Arch {
    /// 64-bit ARM: the `virt` machine with two flash images.
    Aarch64,
    /// Everything else: the generic accelerated machine.
    X86_64,
}

/// What the operator configured for launches.
#[derive(Clone, Debug, PartialEq, Eq)]
pub struct LaunchOptions {
    /// The base disk image that every instance disk is copied from.
    pub base_image: String,
    /// Kernel command line for direct-kernel boot, if wanted.
    pub kernel_append: Option<String>,
    /// Kernel image for direct-kernel boot.
    pub kernel_path: Option<String>,
    /// Comma-separated list of guest ports to expose on the host.
    pub expose_ports: Option<String>,
}

/// The mathematical content of [`LaunchOptions`].
pub ghost struct LaunchOptionsView {
    pub base_image: Seq<char>,
    pub kernel_append: Option<Seq<char>>,
    pub kernel_path: Option<Seq<char>>,
    pub expose_ports: Option<Seq<char>>,
}

/// The view of an optional string.
pub open spec fn opt_text(s: Option<String>) -> Option<Seq<char>> {
    match s {
        Some(t) => Some(t@),
        None => None,
    }
}

impl View for LaunchOptions {
    type V = LaunchOptionsView;

    open spec fn view(&self) -> LaunchOptionsView {
        LaunchOptionsView {
            base_image: self.base_image@,
            kernel_append: opt_text(self.kernel_append),
            kernel_path: opt_text(self.kernel_path),
            expose_ports: opt_text(self.expose_ports),
        }
    }
}

/// A program to start, its arguments, and where its output streams go.
#[derive(Clone, Debug, PartialEq, Eq)]
pub struct Invocation {
    pub program: String,
    pub args: Vec<String>,
    pub stdout_log: String,
    pub stderr_log: String,
}

/// The mathematical content of an [`Invocation`].
pub ghost struct InvocationView {
    pub program: Seq<char>,
    pub args: Seq<Seq<char>>,
    pub stdout_log: Seq<char>,
    pub stderr_log: Seq<char>,
}

impl View for Invocation {
    type V = InvocationView;

    open spec fn view(&self) -> InvocationView {
        InvocationView {
            program: self.program@,
            args: texts(self.args@),
            stdout_log: self.stdout_log@,
            stderr_log: self.stderr_log@,
        }
    }
}

/// Why no command line could be built.
#[derive(Clone, Copy, Debug, PartialEq, Eq)]
pub enum ConfigError {
    /// A kernel command line is configured, but no kernel image to boot.
    MissingKernelPath,
}

/// The standard-output log of the instance `name`.
pub open spec fn log_path_text(name: Seq<char>) -> Seq<char> {
    "/tmp/qemu-logs/"@ + name + ".log"@
}

/// The standard-error log of the instance `name`.
pub open spec fn err_log_path_text(name: Seq<char>) -> Seq<char> {
    "/tmp/qemu-logs/"@ + name + "-stderr.log"@
}

/// The private disk of the instance `name` that forwards `ssh_port`.
pub open spec fn disk_path_text(name: Seq<char>, ssh_port: u16) -> Seq<char> {
    "/tmp/qemu-disks/"@ + name + "-"@ + decimal_text(ssh_port as nat) + ".qcow"@
}

/// Where the guest `name` finds its datasource, as seen from inside the guest.
pub open spec fn datasource_url_text(name: Seq<char>) -> Seq<char> {
    "http://10.0.2.2:3000/"@ + name + "/"@
}

/// Where the guest `name` fetches its user-data.
pub open spec fn user_data_url_text(name: Seq<char>) -> Seq<char> {
    "http://10.0.2.2:3000/"@ + name + "/user-data"@
}

/// The monitor socket of the instance `name`.
pub open spec fn monitor_text(name: Seq<char>) -> Seq<char> {
    "unix:/tmp/qemu-monitor-"@ + name + ",server,nowait"@
}

/// One host-to-guest TCP forward, as it is appended to a network device.
pub open spec fn forward_rule_text(host_port: Seq<char>, guest_port: Seq<char>) -> Seq<char> {
    ",hostfwd=tcp::"@ + host_port + "-:"@ + guest_port
}

/// A forward for each listed port, host port and guest port being the same.
pub open spec fn extra_forwards_text(ports: Seq<Seq<char>>) -> Seq<char>
    decreases ports.len(),
{
    if ports.len() == 0 {
        Seq::<char>::empty()
    } else {
        extra_forwards_text(ports.drop_last()) + forward_rule_text(ports.last(), ports.last())
    }
}

/// Whether a piece of a port list names a port: an empty piece names none.
pub open spec fn names_a_port() -> spec_fn(Seq<char>) -> bool {
    |piece: Seq<char>| piece.len() > 0
}

/// The ports that the comma-separated `list` names, in order: its pieces
/// without the empty ones. An empty list, a trailing comma or two commas in a
/// row list no port.
pub open spec fn listed_ports(list: Seq<char>) -> Seq<Seq<char>> {
    comma_pieces(list).filter(names_a_port())
}

/// The user-mode network device: the SSH forward, then the exposed ports.
pub open spec fn netdev_text(ssh_port: u16, expose_ports: Option<Seq<char>>) -> Seq<char> {
    "user,id=net0"@ + forward_rule_text(decimal_text(ssh_port as nat), "22"@) + match expose_ports {
        Some(list) => extra_forwards_text(listed_ports(list)),
        None => Seq::<char>::empty(),
    }
}

/// The hypervisor binary for `arch`.
pub open spec fn program_text(arch: Arch) -> Seq<char> {
    match arch {
        Arch::Aarch64 => "qemu-system-aarch64"@,
        Arch::X86_64 => "qemu-system-x86_64"@,
    }
}

/// Machine model and acceleration for `arch`.
pub open spec fn machine_args(arch: Arch) -> Seq<Seq<char>> {
    match arch {
        Arch::Aarch64 => seq![
            "-M"@,
            "virt,accel=hvf"@,
            "-pflash"@,
            "flash0.img"@,
            "-pflash"@,
            "flash1.img"@,
        ],
        Arch::X86_64 => seq!["-M"@, "accel=hvf"@],
    }
}

/// Direct-kernel boot: nothing unless a kernel command line is configured.
pub open spec fn boot_args(name: Seq<char>, options: LaunchOptionsView) -> Seq<Seq<char>> {
    match options.kernel_append {
        Some(append) => {
            let line = append + " cloud-config-url="@ + user_data_url_text(name);
            match options.kernel_path {
                Some(kernel) => seq!["-append"@, line, "-kernel"@, kernel],
                None => seq!["-append"@, line],
            }
        },
        None => Seq::<Seq<char>>::empty(),
    }
}

/// The monitor, the fixed resource shape, the disk and the datasource.
pub open spec fn shape_args(name: Seq<char>, ssh_port: u16) -> Seq<Seq<char>> {
    seq![
        "-monitor"@,
        monitor_text(name),
        "-m"@,
        "2G"@,
        "-cpu"@,
        "host"@,
        "-serial"@,
        "stdio"@,
        "-display"@,
        "none"@,
        "-device"@,
        "virtio-scsi-pci,id=scsi"@,
        "-device"@,
        "e1000,netdev=net0"@,
        "-smp"@,
        "2"@,
        "-hda"@,
        disk_path_text(name, ssh_port),
        "-smbios"@,
        "type=1,serial=ds=nocloud-net;s="@ + datasource_url_text(name),
    ]
}

/// The network device.
pub open spec fn network_args(ssh_port: u16, expose_ports: Option<Seq<char>>) -> Seq<Seq<char>> {
    seq!["-netdev"@, netdev_text(ssh_port, expose_ports)]
}

/// All arguments of the hypervisor, in the order in which they are passed.
pub open spec fn qemu_args(
    name: Seq<char>,
    ssh_port: u16,
    options: LaunchOptionsView,
    arch: Arch,
) -> Seq<Seq<char>> {
    machine_args(arch) + boot_args(name, options) + shape_args(name, ssh_port) + network_args(
        ssh_port,
        options.expose_ports,
    )
}

/// A kernel command line needs a kernel image.
pub open spec fn options_consistent(options: LaunchOptionsView) -> bool {
    options.kernel_append is Some ==> options.kernel_path is Some
}

/// The invocation that boots the instance `name`.
pub open spec fn qemu_invocation(
    name: Seq<char>,
    ssh_port: u16,
    options: LaunchOptionsView,
    arch: Arch,
) -> InvocationView {
    InvocationView {
        program: program_text(arch),
        args: qemu_args(name, ssh_port, options, arch),
        stdout_log: log_path_text(name),
        stderr_log: err_log_path_text(name),
    }
}

fn join3(a: &str, b: &str, c: &str) -> (r: String)
    ensures
        r@ == a@ + b@ + c@,
{
    let mut r = String::from_str(a);
    r.append(b);
    r.append(c);
    r
}

/// The directory that holds the logs of all instances.
pub fn log_dir() -> (r: &'static str)
    ensures
        r@ == "/tmp/qemu-logs"@,
{
    "/tmp/qemu-logs"
}

/// The directory that holds the disks of all instances.
pub fn disk_dir() -> (r: &'static str)
    ensures
        r@ == "/tmp/qemu-disks"@,
{
    "/tmp/qemu-disks"
}

/// The file that receives the standard output of the instance `name`.
pub fn log_path(name: &str) -> (r: String)
    ensures
        r@ == log_path_text(name@),
{
    join3("/tmp/qemu-logs/", name, ".log")
}

/// The file that receives the standard error of the instance `name`.
pub fn err_log_path(name: &str) -> (r: String)
    ensures
        r@ == err_log_path_text(name@),
{
    join3("/tmp/qemu-logs/", name, "-stderr.log")
}

/// The disk of the instance `name` that forwards `ssh_port`.
pub fn disk_path(name: &str, ssh_port: u16) -> (r: String)
    ensures
        r@ == disk_path_text(name@, ssh_port),
{
    let mut r = join3("/tmp/qemu-disks/", name, "-");
    let port = decimal_string(ssh_port);
    r.append(port.as_str());
    r.append(".qcow");
    r
}

/// The datasource address that is handed to the guest `name`.
pub fn datasource_url(name: &str) -> (r: String)
    ensures
        r@ == datasource_url_text(name@),
{
    join3("http://10.0.2.2:3000/", name, "/")
}

/// The address at which the guest `name` fetches its user-data.
pub fn user_data_url(name: &str) -> (r: String)
    ensures
        r@ == user_data_url_text(name@),
{
    join3("http://10.0.2.2:3000/", name, "/user-data")
}

fn forward_rule(host_port: &str, guest_port: &str) -> (r: String)
    ensures
        r@ == forward_rule_text(host_port@, guest_port@),
{
    let mut r = join3(",hostfwd=tcp::", host_port, "-:");
    r.append(guest_port);
    r
}

/// The ports that the comma-separated `list` names: its pieces, the empty
/// ones left out.
pub fn exposed_ports(list: &str) -> (ports: Vec<String>)
    ensures
        texts(ports@) == listed_ports(list@),
{
    let pieces = split_commas(list);
    let mut ports: Vec<String> = Vec::new();
    let mut i: usize = 0;
    proof {
        reveal(Seq::filter);
        assert(texts(pieces@).take(0) =~= Seq::<Seq<char>>::empty());
    }
    while i < pieces.len()
        invariant
            i <= pieces.len(),
            texts(ports@) == texts(pieces@).take(i as int).filter(names_a_port()),
        decreases pieces.len() - i,
    {
        proof {
            reveal(Seq::filter);
            let seen = texts(pieces@).take(i + 1);
            assert(seen.drop_last() =~= texts(pieces@).take(i as int));
            assert(seen.last() == pieces@[i as int]@);
        }
        if pieces[i].as_str().unicode_len() > 0 {
            push_text(&mut ports, pieces[i].as_str());
        }
        i += 1;
    }
    assert(texts(pieces@).take(i as int) =~= texts(pieces@));
    ports
}

/// The value of `-netdev`: the SSH forward, then one forward for each port
/// that the comma-separated list `expose_ports` names.
pub fn netdev(ssh_port: u16, expose_ports: &Option<String>) -> (r: String)
    ensures
        r@ == netdev_text(ssh_port, opt_text(*expose_ports)),
{
    let port = decimal_string(ssh_port);
    let ssh_rule = forward_rule(port.as_str(), "22");
    let mut r = String::from_str("user,id=net0");
    r.append(ssh_rule.as_str());
    match expose_ports {
        Some(list) => {
            let ports = exposed_ports(list.as_str());
            let ghost head = r@;
            let mut i: usize = 0;
            while i < ports.len()
                invariant
                    i <= ports.len(),
                    r@ == head + extra_forwards_text(texts(ports@).take(i as int)),
                decreases ports.len() - i,
            {
                let rule = forward_rule(ports[i].as_str(), ports[i].as_str());
                r.append(rule.as_str());
                proof {
                    let done = texts(ports@).take(i + 1);
                    assert(done.drop_last() =~= texts(ports@).take(i as int));
                    assert(done.last() == ports@[i as int]@);
                    assert(r@ =~= head + extra_forwards_text(done));
                }
                i += 1;
            }
            assert(texts(ports@).take(i as int) =~= texts(ports@));
        },
        None => {
            assert(r@ =~= netdev_text(ssh_port, None));
        },
    }
    r
}

/// Builds the hypervisor invocation for the instance `name`.
///
/// Fails, before anything is built, when a kernel command line is configured
/// without a kernel image.
pub fn qemu_command(name: &str, ssh_port: u16, options: &LaunchOptions, arch: Arch) -> (r: Result<
    Invocation,
    ConfigError,
>)
    ensures
        match r {
            Ok(invocation) => options_consistent(options@) && invocation@ == qemu_invocation(
                name@,
                ssh_port,
                options@,
                arch,
            ),
            Err(e) => !options_consistent(options@) && e == ConfigError::MissingKernelPath,
        },
{
    let mut args: Vec<String> = Vec::new();
    let program = match arch {
        Arch::Aarch64 => {
            push_text(&mut args, "-M");
            push_text(&mut args, "virt,accel=hvf");
            push_text(&mut args, "-pflash");
            push_text(&mut args, "flash0.img");
            push_text(&mut args, "-pflash");
            push_text(&mut args, "flash1.img");
            "qemu-system-aarch64"
        },
        Arch::X86_64 => {
            push_text(&mut args, "-M");
            push_text(&mut args, "accel=hvf");
            "qemu-system-x86_64"
        },
    };
    assert(texts(args@) =~= machine_args(arch));
    match &options.kernel_append {
        Some(append) => {
            let url = user_data_url(name);
            let line = join3(append.as_str(), " cloud-config-url=", url.as_str());
            match &options.kernel_path {
                Some(kernel) => {
                    push_text(&mut args, "-append");
                    push_text(&mut args, line.as_str());
                    push_text(&mut args, "-kernel");
                    push_text(&mut args, kernel.as_str());
                },
                None => {
                    return Err(ConfigError::MissingKernelPath);
                },
            }
        },
        None => {},
    }
    assert(texts(args@) =~= machine_args(arch) + boot_args(name@, options@));
    let monitor = join3("unix:/tmp/qemu-monitor-", name, ",server,nowait");
    let disk = disk_path(name, ssh_port);
    let mut smbios = String::from_str("type=1,serial=ds=nocloud-net;s=");
    let datasource = datasource_url(name);
    smbios.append(datasource.as_str());
    push_text(&mut args, "-monitor");
    push_text(&mut args, monitor.as_str());
    push_text(&mut args, "-m");
    push_text(&mut args, "2G");
    push_text(&mut args, "-cpu");
    push_text(&mut args, "host");
    push_text(&mut args, "-serial");
    push_text(&mut args, "stdio");
    push_text(&mut args, "-display");
    push_text(&mut args, "none");
    push_text(&mut args, "-device");
    push_text(&mut args, "virtio-scsi-pci,id=scsi");
    push_text(&mut args, "-device");
    push_text(&mut args, "e1000,netdev=net0");
    push_text(&mut args, "-smp");
    push_text(&mut args, "2");
    push_text(&mut args, "-hda");
    push_text(&mut args, disk.as_str());
    push_text(&mut args, "-smbios");
    push_text(&mut args, smbios.as_str());
    assert(texts(args@) =~= machine_args(arch) + boot_args(name@, options@) + shape_args(
        name@,
        ssh_port,
    ));
    let net = netdev(ssh_port, &options.expose_ports);
    push_text(&mut args, "-netdev");
    push_text(&mut args, net.as_str());
    assert(texts(args@) =~= qemu_args(name@, ssh_port, options@, arch));
    Ok(
        Invocation {
            program: String::from_str(program),
            args,
            stdout_log: log_path(name),
            stderr_log: err_log_path(name),
        },
    )
}

proof fn lemma_forward_occurs(ports: Seq<Seq<char>>, i: int)
    requires
        0 <= i < ports.len(),
    ensures
        occurs_in(forward_rule_text(ports[i], ports[i]), extra_forwards_text(ports)),
    decreases ports.len(),
{
    let rule = forward_rule_text(ports[i], ports[i]);
    let before = extra_forwards_text(ports.drop_last());
    if i == ports.len() - 1 {
        lemma_occurs_between(before, rule, Seq::<char>::empty());
        assert(before + rule + Seq::<char>::empty() =~= extra_forwards_text(ports));
    } else {
        lemma_forward_occurs(ports.drop_last(), i);
        let last_rule = forward_rule_text(ports.last(), ports.last());
        lemma_occurs_in_longer(rule, before, Seq::<char>::empty(), last_rule);
        assert(Seq::<char>::empty() + before + last_rule =~= extra_forwards_text(ports));
    }
}

/// The network device always forwards the SSH port to guest port 22, and it
/// forwards every port that the configured list names to the guest port of
/// the same number.
pub proof fn law_listed_ports_are_forwarded(
    ssh_port: u16,
    expose_ports: Option<Seq<char>>,
    i: int,
)
    ensures
        occurs_in(
            forward_rule_text(decimal_text(ssh_port as nat), "22"@),
            netdev_text(ssh_port, expose_ports),
        ),
        expose_ports matches Some(list) ==> (0 <= i < listed_ports(list).len() ==> occurs_in(
            forward_rule_text(listed_ports(list)[i], listed_ports(list)[i]),
            netdev_text(ssh_port, expose_ports),
        )),
{
    let head = "user,id=net0"@;
    let ssh_rule = forward_rule_text(decimal_text(ssh_port as nat), "22"@);
    let extra = match expose_ports {
        Some(list) => extra_forwards_text(listed_ports(list)),
        None => Seq::<char>::empty(),
    };
    lemma_occurs_between(head, ssh_rule, extra);
    if let Some(list) = expose_ports {
        if 0 <= i < listed_ports(list).len() {
            let ports = listed_ports(list);
            let rule = forward_rule_text(ports[i], ports[i]);
            lemma_forward_occurs(ports, i);
            lemma_occurs_in_longer(rule, extra, head + ssh_rule, Seq::<char>::empty());
            assert(head + ssh_rule + extra + Seq::<char>::empty() =~= netdev_text(
                ssh_port,
                expose_ports,
            ));
        }
    }
}

/// What a port list names: every piece that is not empty, and nothing else.
/// A list without such a piece adds no forward at all.
pub proof fn law_listed_ports_are_the_nonempty_pieces(ssh_port: u16, list: Seq<char>)
    ensures
        forall|i: int|
            0 <= i < listed_ports(list).len() ==> (#[trigger] listed_ports(list)[i]).len() > 0
                && comma_pieces(list).contains(listed_ports(list)[i]),
        forall|j: int|
            0 <= j < comma_pieces(list).len() && (#[trigger] comma_pieces(list)[j]).len() > 0
                ==> listed_ports(list).contains(comma_pieces(list)[j]),
        (forall|j: int| 0 <= j < comma_pieces(list).len() ==> (#[trigger] comma_pieces(list)[j]).len()
            == 0) ==> netdev_text(ssh_port, Some(list)) == netdev_text(ssh_port, None),
{
    let pieces = comma_pieces(list);
    let ports = listed_ports(list);
    pieces.filter_lemma(names_a_port());
    assert forall|i: int| 0 <= i < ports.len() implies (#[trigger] ports[i]).len() > 0
        && pieces.contains(ports[i]) by {
        assert(ports.contains(ports[i]));
        pieces.lemma_filter_contains_rev(names_a_port(), ports[i]);
    }
    if forall|j: int| 0 <= j < pieces.len() ==> (#[trigger] pieces[j]).len() == 0 {
        if ports.len() > 0 {
            assert(pieces.contains(ports[0]));
        }
        assert(ports =~= Seq::<Seq<char>>::empty());
    }
}

/// The command line ends with the network device, whatever else is configured.
pub proof fn law_network_device_is_passed(
    name: Seq<char>,
    ssh_port: u16,
    options: LaunchOptionsView,
    arch: Arch,
)
    ensures
        qemu_args(name, ssh_port, options, arch).len() >= 2,
        qemu_args(name, ssh_port, options, arch).last() == netdev_text(
            ssh_port,
            options.expose_ports,
        ),
        qemu_args(name, ssh_port, options, arch)[qemu_args(name, ssh_port, options, arch).len()
            - 2] == "-netdev"@,
{
}

} // verus!
