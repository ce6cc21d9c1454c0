use kasou::boot::{efi_store_creation_error, plan_boot_loader, BootLoaderPlan, EfiStoreAction};
use kasou::config::{configuration_exception, configuration_rejected, plan_hardware};
use kasou::disk::{attachment_error, plan_storage_device, DiskCaching, DiskSync};
use kasou::shared_dir::plan_shared_dir;
use kasou::paths::existing_paths;
use kasou::serial::{plan_serial_port, serial_attachment_error};
use kasou::{
    BootConfig, DiskConfig, FrameworkError, KasouError, NetworkConfig, SerialConfig,
    SharedDirConfig, VmConfig, VmConfigBuilder, VmId,
};

fn config_with(boot: BootConfig, disks: &[&str]) -> VmConfig {
    VmConfig {
        id: VmId::from("t"),
        cpus: 1,
        memory_mib: 512,
        boot,
        disks: disks
            .iter()
            .map(|p| DiskConfig { path: p.to_string(), read_only: false })
            .collect(),
        network: NetworkConfig { mac_address: None },
        serial: None,
        shared_dirs: vec![],
        machine_identifier_path: None,
    }
}

fn present(paths: &[&str]) -> Vec<String> {
    paths.iter().map(|p| p.to_string()).collect()
}

#[test]
fn validate_against_reports_missing_kernel_then_initrd() {
    let c = config_with(BootConfig::linux("/k".into(), "/i".into(), ""), &["/d"]);
    let e = c.validate_against(&present(&["/i", "/d"])).unwrap_err();
    assert_eq!(e.to_string(), "boot files not found: kernel: /k");
    let e = c.validate_against(&present(&["/k", "/d"])).unwrap_err();
    assert_eq!(e.to_string(), "boot files not found: initrd: /i");
    assert!(c.validate_against(&present(&["/k", "/i", "/d"])).is_ok());
}

#[test]
fn validate_against_reports_first_missing_disk() {
    let c = config_with(BootConfig::efi(), &["/a", "/b", "/c"]);
    match c.validate_against(&present(&["/a", "/c"])) {
        Err(KasouError::DiskNotFound(p)) => assert_eq!(p, "/b"),
        other => panic!("expected DiskNotFound, got {other:?}"),
    }
}

#[test]
fn validate_against_checks_efi_store_parent() {
    let c = config_with(BootConfig::efi_with_variable_store("/vm/dir/efi.vars".into()), &["/d"]);
    let e = c.validate_against(&present(&["/d"])).unwrap_err();
    assert_eq!(
        e.to_string(),
        "configuration validation failed: EFI variable store parent directory missing: /vm/dir"
    );
    assert!(c.validate_against(&present(&["/d", "/vm/dir"])).is_ok());
    // A bare file name has an empty parent, which is not checked.
    let bare = config_with(BootConfig::efi_with_variable_store("efi.vars".into()), &["/d"]);
    assert!(bare.validate_against(&present(&["/d"])).is_ok());
}

#[test]
fn validate_checks_before_touching_files() {
    let mut c = config_with(BootConfig::efi(), &[]);
    assert_eq!(
        c.validate_against(&present(&[])).unwrap_err().to_string(),
        "configuration validation failed: at least one disk is required"
    );
    c.memory_mib = 0;
    assert_eq!(
        c.validate_against(&present(&[])).unwrap_err().to_string(),
        "configuration validation failed: memory_mib must be >= 1"
    );
    c.cpus = 0;
    assert_eq!(
        c.validate_against(&present(&[])).unwrap_err().to_string(),
        "configuration validation failed: cpus must be >= 1"
    );
}

#[test]
fn validate_on_host_accepts_existing_files() {
    // "/" exists on every host the tests run on.
    let c = config_with(BootConfig::linux("/".into(), "/".into(), "quiet"), &["/"]);
    assert!(c.validate().is_ok());
    let missing = config_with(BootConfig::efi(), &["/no/such/disk.img"]);
    assert_eq!(missing.validate().unwrap_err().to_string(), "disk image not found: /no/such/disk.img");
}

#[test]
fn builder_builds_when_files_exist() {
    let config = VmConfigBuilder::new("ok")
        .boot("/".to_string())
        .initrd("/".to_string())
        .disk("/".to_string())
        .mac("5a:94:ef:ab:cd:12")
        .build()
        .unwrap();
    assert_eq!(config.cpus, 2);
    assert_eq!(config.memory_mib, 2048);
    assert_eq!(config.network.mac_address.as_deref(), Some("5a:94:ef:ab:cd:12"));
    match config.boot {
        BootConfig::Linux { cmdline, .. } => assert_eq!(cmdline, ""),
        BootConfig::Efi { .. } => panic!("expected Linux boot"),
    }
    assert!(config.machine_identifier_path.is_none());
}

#[test]
fn builder_mode_switches() {
    let b = VmConfigBuilder::new("t")
        .efi_variable_store("/vars".to_string())
        .efi_boot();
    assert!(matches!(&b.boot_mode, kasou::BootMode::Efi { variable_store: Some(p) } if p == "/vars"));
    let b = b.cmdline("quiet");
    assert!(matches!(
        &b.boot_mode,
        kasou::BootMode::Linux { kernel: None, initrd: None, cmdline: Some(c) } if c == "quiet"
    ));
    let b = b.efi_boot();
    assert!(matches!(&b.boot_mode, kasou::BootMode::Efi { variable_store: None }));
}

#[test]
fn boot_loader_plans() {
    let linux = BootConfig::linux("/k".into(), "/i".into(), "console=hvc0");
    let e = plan_boot_loader(&linux, &present(&["/i"])).unwrap_err();
    assert_eq!(e.to_string(), "boot files not found: kernel not found: /k");
    let e = plan_boot_loader(&linux, &present(&["/k"])).unwrap_err();
    assert_eq!(e.to_string(), "boot files not found: initrd not found: /i");
    match plan_boot_loader(&linux, &present(&["/k", "/i"])).unwrap() {
        BootLoaderPlan::Linux { kernel, initrd, cmdline } => {
            assert_eq!((kernel.as_str(), initrd.as_str(), cmdline.as_str()), ("/k", "/i", "console=hvc0"));
        }
        other => panic!("expected a Linux loader, got {other:?}"),
    }
    let efi = BootConfig::efi_with_variable_store("/v".into());
    assert!(matches!(
        plan_boot_loader(&efi, &present(&["/v"])).unwrap(),
        BootLoaderPlan::Efi { variable_store: Some(EfiStoreAction::Open(_)) }
    ));
    assert!(matches!(
        plan_boot_loader(&efi, &present(&[])).unwrap(),
        BootLoaderPlan::Efi { variable_store: Some(EfiStoreAction::Create(_)) }
    ));
    assert!(matches!(
        plan_boot_loader(&BootConfig::efi(), &present(&[])).unwrap(),
        BootLoaderPlan::Efi { variable_store: None }
    ));
}

#[test]
fn storage_and_share_plans() {
    let disks = vec![
        DiskConfig { path: "/a".into(), read_only: true },
        DiskConfig { path: "/b".into(), read_only: false },
    ];
    let all = present(&["/a", "/b"]);
    let plans: Vec<_> = disks.iter().map(|d| plan_storage_device(d, &all).unwrap()).collect();
    assert!(plans[0].read_only && !plans[1].read_only);
    assert_eq!(plans[1].path, "/b");
    assert!(plans.iter().all(|p| p.caching == DiskCaching::Cached && p.sync == DiskSync::Full));
    match plan_storage_device(&disks[1], &present(&["/a"])) {
        Err(KasouError::DiskNotFound(p)) => assert_eq!(p, "/b"),
        other => panic!("expected DiskNotFound, got {other:?}"),
    }
    let dir = SharedDirConfig { tag: "share0".into(), host_path: "/s".into(), read_only: true };
    let share = plan_shared_dir(&dir, &present(&["/s"])).unwrap();
    assert_eq!((share.tag.as_str(), share.host_path.as_str(), share.read_only), ("share0", "/s", true));
    assert_eq!(
        plan_shared_dir(&dir, &present(&[])).unwrap_err().to_string(),
        "invalid VM configuration: shared directory does not exist: /s"
    );
}

#[test]
fn hardware_and_serial_plans() {
    let mut c = config_with(BootConfig::efi(), &["/d"]);
    c.cpus = 4;
    c.memory_mib = 8192;
    let hw = plan_hardware(&c);
    assert_eq!(hw.cpu_count, 4);
    assert_eq!(hw.memory_bytes, 8192 * 1024 * 1024);
    let serial = plan_serial_port(&SerialConfig { log_path: "/tmp/console.log".into() });
    assert!(serial.append);
    assert_eq!(serial.log_path, "/tmp/console.log");
}

#[test]
fn framework_error_messages() {
    assert_eq!(
        attachment_error("/d.img", "busy").to_string(),
        "Virtualization.framework error: failed to create disk attachment for /d.img: busy"
    );
    assert_eq!(
        serial_attachment_error("/c.log", "denied").to_string(),
        "Virtualization.framework error: failed to create serial port attachment for /c.log: denied"
    );
    assert_eq!(
        efi_store_creation_error("/v", "no space").to_string(),
        "Virtualization.framework error: failed to create EFI variable store at /v: no space"
    );
    assert_eq!(
        configuration_exception("NSInvalidArgumentException").to_string(),
        "Virtualization.framework error: Objective-C exception during VZ configuration: NSInvalidArgumentException"
    );
    let fe = FrameworkError {
        domain: "VZErrorDomain".into(),
        code: -5,
        localized_description: "Bad.".into(),
        failure_reason: None,
        recovery_suggestion: None,
        underlying: vec![],
    };
    assert_eq!(
        configuration_rejected(&fe).to_string(),
        "Virtualization.framework error: VM configuration validation failed: Bad. [VZErrorDomain:-5]"
    );
}

#[test]
fn probing_keeps_only_existing_paths() {
    let c = config_with(BootConfig::linux("/".into(), "/no/initrd".into(), ""), &["/no/disk"]);
    let paths = c.paths_in_use();
    assert!(paths.iter().any(|p| p == "/no/initrd"));
    assert!(paths.iter().any(|p| p == "/no/disk"));
    let found = existing_paths(&paths);
    assert_eq!(found, vec!["/".to_string()]);
}

#[test]
fn paths_in_use_lists_boot_files_disks_shares_then_serial_log() {
    let mut c = config_with(BootConfig::linux("/k".into(), "/i".into(), ""), &["/d1", "/d2"]);
    c.shared_dirs = vec![SharedDirConfig { tag: "s".into(), host_path: "/h".into(), read_only: false }];
    c.serial = Some(SerialConfig { log_path: "/log".into() });
    assert_eq!(c.paths_in_use(), vec!["/k", "/i", "/d1", "/d2", "/h", "/log"]);
    let e = config_with(BootConfig::Efi { variable_store: Some("/vm/efi.vars".into()) }, &["/d"]);
    assert_eq!(e.paths_in_use(), vec!["/vm/efi.vars", "/vm", "/d"]);
}
