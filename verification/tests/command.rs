use cloud_vm_simulator::command::{
    datasource_url, disk_dir, disk_path, err_log_path, exposed_ports, log_dir, log_path, netdev,
    qemu_command, user_data_url, Arch, ConfigError, LaunchOptions,
};

fn plain_options() -> LaunchOptions {
    LaunchOptions {
        base_image: "./bionic-server-cloudimg-amd64.img".to_string(),
        kernel_append: None,
        kernel_path: None,
        expose_ports: None,
    }
}

fn strings(items: &[&str]) -> Vec<String> {
    items.iter().map(|s| s.to_string()).collect()
}

#[test]
fn paths_are_derived_from_the_name() {
    assert_eq!(log_dir(), "/tmp/qemu-logs");
    assert_eq!(disk_dir(), "/tmp/qemu-disks");
    assert_eq!(log_path("vm1"), "/tmp/qemu-logs/vm1.log");
    assert_eq!(err_log_path("vm1"), "/tmp/qemu-logs/vm1-stderr.log");
    assert_eq!(disk_path("vm1", 40022), "/tmp/qemu-disks/vm1-40022.qcow");
    assert_eq!(datasource_url("vm1"), "http://10.0.2.2:3000/vm1/");
    assert_eq!(user_data_url("vm1"), "http://10.0.2.2:3000/vm1/user-data");
}

#[test]
fn plain_command_on_x86_64() {
    let invocation = qemu_command("vm1", 40022, &plain_options(), Arch::X86_64).unwrap();
    assert_eq!(invocation.program, "qemu-system-x86_64");
    assert_eq!(invocation.stdout_log, "/tmp/qemu-logs/vm1.log");
    assert_eq!(invocation.stderr_log, "/tmp/qemu-logs/vm1-stderr.log");
    assert_eq!(
        invocation.args,
        strings(&[
            "-M",
            "accel=hvf",
            "-monitor",
            "unix:/tmp/qemu-monitor-vm1,server,nowait",
            "-m",
            "2G",
            "-cpu",
            "host",
            "-serial",
            "stdio",
            "-display",
            "none",
            "-device",
            "virtio-scsi-pci,id=scsi",
            "-device",
            "e1000,netdev=net0",
            "-smp",
            "2",
            "-hda",
            "/tmp/qemu-disks/vm1-40022.qcow",
            "-smbios",
            "type=1,serial=ds=nocloud-net;s=http://10.0.2.2:3000/vm1/",
            "-netdev",
            "user,id=net0,hostfwd=tcp::40022-:22",
        ])
    );
}

#[test]
fn plain_command_on_aarch64() {
    let invocation = qemu_command("vm1", 40022, &plain_options(), Arch::Aarch64).unwrap();
    assert_eq!(invocation.program, "qemu-system-aarch64");
    assert_eq!(
        invocation.args[..8].to_vec(),
        strings(&[
            "-M",
            "virt,accel=hvf",
            "-pflash",
            "flash0.img",
            "-pflash",
            "flash1.img",
            "-monitor",
            "unix:/tmp/qemu-monitor-vm1,server,nowait",
        ])
    );
    assert_eq!(invocation.args.len(), 28);
    assert_eq!(invocation.args[27], "user,id=net0,hostfwd=tcp::40022-:22");
}

#[test]
fn direct_kernel_boot() {
    let mut options = plain_options();
    options.kernel_append = Some("console=ttyS0 root=/dev/sda1".to_string());
    options.kernel_path = Some("/boot/vmlinuz".to_string());
    let invocation = qemu_command("vm1", 33000, &options, Arch::X86_64).unwrap();
    assert_eq!(
        invocation.args[..8].to_vec(),
        strings(&[
            "-M",
            "accel=hvf",
            "-append",
            "console=ttyS0 root=/dev/sda1 cloud-config-url=http://10.0.2.2:3000/vm1/user-data",
            "-kernel",
            "/boot/vmlinuz",
            "-monitor",
            "unix:/tmp/qemu-monitor-vm1,server,nowait",
        ])
    );
    assert_eq!(invocation.args.len(), 28);
}

#[test]
fn kernel_image_alone_is_not_used() {
    let mut options = plain_options();
    options.kernel_path = Some("/boot/vmlinuz".to_string());
    let with_kernel = qemu_command("vm1", 33000, &options, Arch::X86_64).unwrap();
    let without = qemu_command("vm1", 33000, &plain_options(), Arch::X86_64).unwrap();
    assert_eq!(with_kernel, without);
}

#[test]
fn kernel_append_without_kernel_is_refused() {
    let mut options = plain_options();
    options.kernel_append = Some("console=ttyS0".to_string());
    assert_eq!(
        qemu_command("vm1", 33000, &options, Arch::X86_64),
        Err(ConfigError::MissingKernelPath)
    );
    assert_eq!(
        qemu_command("vm1", 33000, &options, Arch::Aarch64),
        Err(ConfigError::MissingKernelPath)
    );
}

#[test]
fn extra_ports_are_forwarded() {
    let mut options = plain_options();
    options.expose_ports = Some("8080,9090".to_string());
    let invocation = qemu_command("vm1", 40022, &options, Arch::X86_64).unwrap();
    let n = invocation.args.len();
    assert_eq!(invocation.args[n - 2], "-netdev");
    let device = &invocation.args[n - 1];
    assert_eq!(
        device,
        "user,id=net0,hostfwd=tcp::40022-:22,hostfwd=tcp::8080-:8080,hostfwd=tcp::9090-:9090"
    );
    assert!(device.contains(",hostfwd=tcp::40022-:22"));
    assert!(device.contains(",hostfwd=tcp::8080-:8080"));
    assert!(device.contains(",hostfwd=tcp::9090-:9090"));
}

#[test]
fn network_device_alone() {
    assert_eq!(netdev(32768, &None), "user,id=net0,hostfwd=tcp::32768-:22");
    assert_eq!(
        netdev(60998, &Some("80".to_string())),
        "user,id=net0,hostfwd=tcp::60998-:22,hostfwd=tcp::80-:80"
    );
    assert_eq!(netdev(60998, &Some(String::new())), "user,id=net0,hostfwd=tcp::60998-:22");
}

#[test]
fn empty_pieces_of_the_port_list_name_no_port() {
    let ssh_alone = "user,id=net0,hostfwd=tcp::40000-:22";
    assert_eq!(netdev(40000, &Some(String::new())), ssh_alone);
    assert_eq!(netdev(40000, &Some(",".to_string())), ssh_alone);
    assert_eq!(netdev(40000, &Some(",,,".to_string())), ssh_alone);
    assert_eq!(netdev(40000, &None), ssh_alone);
    assert_eq!(
        netdev(40000, &Some("8080,".to_string())),
        "user,id=net0,hostfwd=tcp::40000-:22,hostfwd=tcp::8080-:8080"
    );
    assert_eq!(
        netdev(40000, &Some(",8080,,9090,".to_string())),
        "user,id=net0,hostfwd=tcp::40000-:22,hostfwd=tcp::8080-:8080,hostfwd=tcp::9090-:9090"
    );
    for list in ["", ",", "8080,", ",8080", "80,,443"] {
        assert!(!netdev(40000, &Some(list.to_string())).contains("hostfwd=tcp::-:"));
    }
}

#[test]
fn empty_port_list_leaves_the_command_as_without_one() {
    let mut options = plain_options();
    options.expose_ports = Some(String::new());
    let with_empty_list = qemu_command("vm1", 40000, &options, Arch::X86_64).unwrap();
    let without = qemu_command("vm1", 40000, &plain_options(), Arch::X86_64).unwrap();
    assert_eq!(with_empty_list, without);
    assert_eq!(
        with_empty_list.args[with_empty_list.args.len() - 1],
        "user,id=net0,hostfwd=tcp::40000-:22"
    );
}

#[test]
fn exposed_ports_are_the_nonempty_pieces() {
    assert_eq!(exposed_ports(""), Vec::<String>::new());
    assert_eq!(exposed_ports(",,"), Vec::<String>::new());
    assert_eq!(exposed_ports("8080"), strings(&["8080"]));
    assert_eq!(exposed_ports("8080,9090"), strings(&["8080", "9090"]));
    assert_eq!(exposed_ports(",8080,,9090,"), strings(&["8080", "9090"]));
    assert_eq!(exposed_ports(" ,x"), strings(&[" ", "x"]));
}
