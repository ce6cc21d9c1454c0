use kasou::{BootConfig, DiskConfig, NetworkConfig, VmConfig, VmId};

fn linux_config(cpus: u32, memory_mib: u64, disks: Vec<DiskConfig>) -> VmConfig {
    VmConfig {
        id: VmId::default(),
        cpus,
        memory_mib,
        boot: BootConfig::Linux {
            kernel: "/nonexistent/kernel".to_string(),
            initrd: "/nonexistent/initrd".to_string(),
            cmdline: String::new(),
        },
        disks,
        network: NetworkConfig { mac_address: None },
        serial: None,
        shared_dirs: vec![],
        machine_identifier_path: None,
    }
}

#[test]
fn validate_rejects_zero_cpus() {
    let config = linux_config(
        0,
        1024,
        vec![DiskConfig { path: "/nonexistent/disk".to_string(), read_only: false }],
    );
    let err = config.validate().unwrap_err();
    assert!(err.to_string().contains("cpus"));
}

#[test]
fn validate_rejects_zero_memory() {
    let config = linux_config(
        1,
        0,
        vec![DiskConfig { path: "/nonexistent/disk".to_string(), read_only: false }],
    );
    let err = config.validate().unwrap_err();
    assert!(err.to_string().contains("memory"));
}

#[test]
fn validate_rejects_no_disks() {
    let config = linux_config(1, 1024, vec![]);
    let err = config.validate().unwrap_err();
    assert!(err.to_string().contains("disk"));
}
