use kasou::{BootMode, VmConfigBuilder};

#[test]
fn builder_validates_missing_kernel() {
    let result = VmConfigBuilder::new("test")
        .initrd("/initrd".to_string())
        .disk("/tmp/disk.img".to_string())
        .build();
    assert!(result.is_err());
    assert!(result.unwrap_err().to_string().contains("kernel"));
}

#[test]
fn builder_validates_missing_initrd() {
    let result = VmConfigBuilder::new("test")
        .boot("/kernel".to_string())
        .disk("/tmp/disk.img".to_string())
        .build();
    assert!(result.is_err());
    assert!(result.unwrap_err().to_string().contains("initrd"));
}

#[test]
fn builder_order_independent() {
    // initrd and cmdline can be set before boot — no silent failure
    let builder = VmConfigBuilder::new("test")
        .cmdline("console=hvc0")
        .initrd("/initrd".to_string())
        .boot("/kernel".to_string())
        .disk("/disk.img".to_string());

    match &builder.boot_mode {
        BootMode::Linux { kernel, initrd, cmdline } => {
            assert!(kernel.is_some());
            assert!(initrd.is_some());
            assert!(cmdline.is_some());
        }
        BootMode::Efi { .. } => panic!("expected Linux mode"),
    }
}

#[test]
fn builder_efi_mode_no_kernel_required() {
    let config = VmConfigBuilder::new("brasa-test")
        .cpus(2)
        .memory_mib(1024)
        .efi_boot()
        .disk_readonly("/tmp/brasa.img".to_string())
        .build();
    // Validation fails because the disk doesn't exist in the test env,
    // but at the disk check, not the kernel check.
    match config {
        Ok(_) => {}
        Err(e) => {
            let msg = e.to_string();
            assert!(
                !msg.contains("kernel") && !msg.contains("initrd"),
                "EFI mode should not require kernel/initrd, got: {msg}"
            );
        }
    }
}

#[test]
fn builder_efi_variable_store_implies_efi_mode() {
    let builder = VmConfigBuilder::new("test").efi_variable_store("/tmp/efi.vars".to_string());
    match &builder.boot_mode {
        BootMode::Efi { variable_store: Some(p) } => {
            assert_eq!(p, &"/tmp/efi.vars".to_string());
        }
        _ => panic!("expected Efi mode with variable store"),
    }
}

#[test]
fn builder_sets_deterministic_mac() {
    let builder = VmConfigBuilder::new("cid-k3s").deterministic_mac("my-host");
    assert!(builder.mac.is_some());
    assert!(builder.mac.unwrap().starts_with("52:55:55:"));
}

#[test]
fn builder_fluent_api() {
    let builder = VmConfigBuilder::new("test")
        .cpus(4)
        .memory_mib(8192)
        .boot("/kernel".to_string())
        .initrd("/initrd".to_string())
        .cmdline("console=hvc0")
        .disk("/root.img".to_string())
        .disk_readonly("/seed.img".to_string())
        .nat_network()
        .mac("5a:94:ef:ab:cd:12")
        .serial_file("/console.log".to_string())
        .shared_dir("share0", "/tmp/share".to_string(), true);

    assert_eq!(builder.cpus, 4);
    assert_eq!(builder.memory_mib, 8192);
    assert_eq!(builder.disks.len(), 2);
    assert!(matches!(builder.boot_mode, BootMode::Linux { kernel: Some(_), .. }));
    assert!(builder.serial.is_some());
    assert_eq!(builder.shared_dirs.len(), 1);
}

#[test]
fn builder_rejects_linux_boot_files_with_efi_store() {
    let r = VmConfigBuilder::new("t")
        .efi_variable_store("/tmp/efi.vars".into())
        .boot("/kernel".into())
        .initrd("/initrd".into())
        .disk("/disk.img".into())
        .build();
    assert!(r.is_err());
    assert_eq!(
        r.unwrap_err().to_string(),
        "configuration validation failed: a kernel cannot be combined with an EFI variable store"
    );
}

#[test]
fn builder_rejects_efi_store_after_linux_boot_files() {
    let r = VmConfigBuilder::new("t")
        .boot("/".into())
        .initrd("/".into())
        .efi_variable_store("/tmp/efi.vars".into())
        .disk("/".into())
        .build();
    assert_eq!(
        r.unwrap_err().to_string(),
        "configuration validation failed: a kernel cannot be combined with an EFI variable store"
    );
}

#[test]
fn builder_efi_store_after_cmdline_builds_efi() {
    let config = VmConfigBuilder::new("t")
        .cmdline("x")
        .efi_variable_store("/efi.vars".into())
        .disk("/".into())
        .build()
        .unwrap();
    assert!(matches!(
        config.boot,
        kasou::BootConfig::Efi { variable_store: Some(ref p) } if p == "/efi.vars"
    ));
}

#[test]
fn builder_initrd_before_efi_store_is_no_conflict() {
    let b = VmConfigBuilder::new("t").initrd("/i".into()).efi_variable_store("/efi.vars".into());
    assert!(!b.boot_conflict);
    let b = VmConfigBuilder::new("t").efi_variable_store("/efi.vars".into()).cmdline("c");
    assert!(!b.boot_conflict);
}
