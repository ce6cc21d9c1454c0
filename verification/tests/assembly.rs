use kasou::assembly::next_assembly_step;
use kasou::assembly::AssemblyStep;
use kasou::assembly::AssemblyStep::{
    BootLoader, Done, Entropy, Hardware, Network, Platform, Serial, SharedDirs, Storage, Validate,
};
use kasou::machine_id::{
    machine_identifier_error, machine_identifier_plan, plan_machine_identifier, MachineIdFailure,
    MachineIdPlan,
};
use kasou::{BootConfig, DiskConfig, NetworkConfig, SerialConfig, SharedDirConfig, VmConfig, VmId};

fn config(disks: usize, serial: bool, shares: bool) -> VmConfig {
    VmConfig {
        id: VmId::from("t"),
        cpus: 1,
        memory_mib: 512,
        boot: BootConfig::linux("/k".into(), "/i".into(), ""),
        disks: (0..disks)
            .map(|i| DiskConfig { path: format!("/d{i}"), read_only: false })
            .collect(),
        network: NetworkConfig { mac_address: None },
        serial: if serial { Some(SerialConfig { log_path: "/log".into() }) } else { None },
        shared_dirs: if shares {
            vec![SharedDirConfig { tag: "t".into(), host_path: "/h".into(), read_only: true }]
        } else {
            vec![]
        },
        machine_identifier_path: None,
    }
}

fn walk(c: &VmConfig) -> Vec<AssemblyStep> {
    let mut steps = vec![Hardware];
    let mut step = Hardware;
    while step != Done {
        step = next_assembly_step(c, step);
        steps.push(step);
    }
    steps
}

#[test]
fn assembly_visits_every_part_in_order() {
    assert_eq!(
        walk(&config(2, true, true)),
        vec![Hardware, Platform, BootLoader, Storage(0), Storage(1), Network, Serial, SharedDirs,
             Entropy, Validate, Done]
    );
}

#[test]
fn assembly_skips_absent_parts() {
    assert_eq!(
        walk(&config(1, false, false)),
        vec![Hardware, Platform, BootLoader, Storage(0), Network, Entropy, Validate, Done]
    );
    assert_eq!(
        walk(&config(0, false, true)),
        vec![Hardware, Platform, BootLoader, Network, SharedDirs, Entropy, Validate, Done]
    );
    assert_eq!(next_assembly_step(&config(0, false, false), Done), Done);
}

#[test]
fn machine_identifier_is_restored_when_present() {
    match plan_machine_identifier("/vm/machine-identifier.bin", true) {
        MachineIdPlan::Restore { path } => assert_eq!(path, "/vm/machine-identifier.bin"),
        other => panic!("expected Restore, got {other:?}"),
    }
}

#[test]
fn machine_identifier_is_created_through_a_temp_file() {
    match plan_machine_identifier("/vm/machine-identifier.bin", false) {
        MachineIdPlan::Create { path, parent, temp } => {
            assert_eq!(path, "/vm/machine-identifier.bin");
            assert_eq!(parent.as_deref(), Some("/vm"));
            assert_eq!(temp, "/vm/machine-identifier.bin.tmp");
        }
        other => panic!("expected Create, got {other:?}"),
    }
    match plan_machine_identifier("machine-id", false) {
        MachineIdPlan::Create { parent, temp, .. } => {
            assert_eq!(parent, None);
            assert_eq!(temp, "machine-id.bin.tmp");
        }
        other => panic!("expected Create, got {other:?}"),
    }
}

#[test]
fn machine_identifier_plan_probes_the_host() {
    assert!(matches!(machine_identifier_plan("/"), MachineIdPlan::Restore { .. }));
    assert!(matches!(
        machine_identifier_plan("/no/such/dir/machine-identifier.bin"),
        MachineIdPlan::Create { .. }
    ));
}

#[test]
fn machine_identifier_failures_read_as_before() {
    let e = machine_identifier_error(&MachineIdFailure::Read { path: "/p".into() }, "denied");
    assert_eq!(e.to_string(), "configuration validation failed: read machine identifier from /p: denied");
    let e = machine_identifier_error(&MachineIdFailure::Corrupt { path: "/p".into() }, "x");
    assert_eq!(e.to_string(), "configuration validation failed: machine identifier at /p is corrupt or wrong format");
    let e = machine_identifier_error(&MachineIdFailure::MakeDir { dir: "/d".into() }, "e");
    assert_eq!(e.to_string(), "configuration validation failed: mkdir -p /d: e");
    let e = machine_identifier_error(&MachineIdFailure::Create { temp: "/t".into() }, "e");
    assert_eq!(e.to_string(), "configuration validation failed: create /t: e");
    let e = machine_identifier_error(&MachineIdFailure::Write { temp: "/t".into() }, "e");
    assert_eq!(e.to_string(), "configuration validation failed: write /t: e");
    let e = machine_identifier_error(&MachineIdFailure::Sync { temp: "/t".into() }, "e");
    assert_eq!(e.to_string(), "configuration validation failed: fsync /t: e");
    let e = machine_identifier_error(
        &MachineIdFailure::Rename { temp: "/t".into(), path: "/p".into() },
        "e",
    );
    assert_eq!(e.to_string(), "configuration validation failed: rename /t → /p: e");
}
