//! The order in which the framework configuration is assembled from a
//! `VmConfig`: each step names the part that is set next, and the step
//! function decides which part follows.

use vstd::prelude::*;

use crate::config::VmConfig;

verus! {

/// A step of assembling the framework configuration.
#[derive(Clone, Copy, Debug, PartialEq, Eq, Structural)]
pub enum AssemblyStep {
    /// CPU count and memory size.
    Hardware,
    /// The generic platform, with its machine identifier restored or
    /// persisted when a path for it is configured.
    Platform,
    /// The boot loader.
    BootLoader,
    /// The storage device for the disk at this index.
    Storage(usize),
    /// The NAT network device.
    Network,
    /// The serial console, when one is configured.
    Serial,
    /// The virtiofs shares, when there are any.
    SharedDirs,
    /// The entropy device.
    Entropy,
    /// The framework's own validation of the whole configuration.
    Validate,
    /// Nothing is left to do.
    Done,
}

/// The step taken after the network device: the serial console when
/// configured, else what follows it.
pub open spec fn step_after_serial(c: VmConfig) -> AssemblyStep {
    if c.shared_dirs@.len() > 0 {
        AssemblyStep::SharedDirs
    } else {
        AssemblyStep::Entropy
    }
}

/// The step that follows `s` when assembling `c`: hardware, platform and
/// boot loader; one storage device per disk in order; the network device;
/// the serial console if configured; the shares if any; the entropy device;
/// then validation.
pub open spec fn step_after(c: VmConfig, s: AssemblyStep) -> AssemblyStep {
    let n = c.disks@.len();
    match s {
        AssemblyStep::Hardware => AssemblyStep::Platform,
        AssemblyStep::Platform => AssemblyStep::BootLoader,
        AssemblyStep::BootLoader => if n > 0 {
            AssemblyStep::Storage(0)
        } else {
            AssemblyStep::Network
        },
        AssemblyStep::Storage(i) => if i + 1 < n {
            AssemblyStep::Storage((i + 1) as usize)
        } else {
            AssemblyStep::Network
        },
        AssemblyStep::Network => if c.serial is Some {
            AssemblyStep::Serial
        } else {
            step_after_serial(c)
        },
        AssemblyStep::Serial => step_after_serial(c),
        AssemblyStep::SharedDirs => AssemblyStep::Entropy,
        AssemblyStep::Entropy => AssemblyStep::Validate,
        AssemblyStep::Validate => AssemblyStep::Done,
        AssemblyStep::Done => AssemblyStep::Done,
    }
}

/// The step to take after `step` when assembling `config`.
pub fn next_assembly_step(config: &VmConfig, step: AssemblyStep) -> (r: AssemblyStep)
    ensures
        r == step_after(*config, step),
{
    let n = config.disks.len();
    let after_serial = if config.shared_dirs.len() > 0 {
        AssemblyStep::SharedDirs
    } else {
        AssemblyStep::Entropy
    };
    match step {
        AssemblyStep::Hardware => AssemblyStep::Platform,
        AssemblyStep::Platform => AssemblyStep::BootLoader,
        AssemblyStep::BootLoader => if n > 0 {
            AssemblyStep::Storage(0)
        } else {
            AssemblyStep::Network
        },
        AssemblyStep::Storage(i) => if i < n && i + 1 < n {
            AssemblyStep::Storage(i + 1)
        } else {
            AssemblyStep::Network
        },
        AssemblyStep::Network => if config.serial.is_some() {
            AssemblyStep::Serial
        } else {
            after_serial
        },
        AssemblyStep::Serial => after_serial,
        AssemblyStep::SharedDirs => AssemblyStep::Entropy,
        AssemblyStep::Entropy => AssemblyStep::Validate,
        AssemblyStep::Validate => AssemblyStep::Done,
        AssemblyStep::Done => AssemblyStep::Done,
    }
}

/// Every step of assembling `c`, in the order they are taken, from
/// `Hardware` to `Done`.
pub open spec fn assembly_order(c: VmConfig) -> Seq<AssemblyStep> {
    let storage = Seq::new(c.disks@.len(), |i: int| AssemblyStep::Storage(i as usize));
    let serial = if c.serial is Some {
        seq![AssemblyStep::Serial]
    } else {
        Seq::empty()
    };
    let shares = if c.shared_dirs@.len() > 0 {
        seq![AssemblyStep::SharedDirs]
    } else {
        Seq::empty()
    };
    seq![AssemblyStep::Hardware, AssemblyStep::Platform, AssemblyStep::BootLoader] + storage
        + seq![AssemblyStep::Network] + serial + shares + seq![
        AssemblyStep::Entropy,
        AssemblyStep::Validate,
        AssemblyStep::Done,
    ]
}

/// The step at position `i` of the assembly order of `c`.
pub open spec fn step_at(c: VmConfig, i: int) -> AssemblyStep {
    let n = c.disks@.len() as int;
    let s: int = if c.serial is Some { 1 } else { 0 };
    let h: int = if c.shared_dirs@.len() > 0 { 1 } else { 0 };
    if i == 0 {
        AssemblyStep::Hardware
    } else if i == 1 {
        AssemblyStep::Platform
    } else if i == 2 {
        AssemblyStep::BootLoader
    } else if i < 3 + n {
        AssemblyStep::Storage((i - 3) as usize)
    } else if i == 3 + n {
        AssemblyStep::Network
    } else if s == 1 && i == 4 + n {
        AssemblyStep::Serial
    } else if h == 1 && i == 4 + n + s {
        AssemblyStep::SharedDirs
    } else if i == 4 + n + s + h {
        AssemblyStep::Entropy
    } else if i == 5 + n + s + h {
        AssemblyStep::Validate
    } else {
        AssemblyStep::Done
    }
}

proof fn lemma_step_at(c: VmConfig, i: int)
    requires
        0 <= i < assembly_order(c).len(),
    ensures
        assembly_order(c)[i] == step_at(c, i),
        assembly_order(c).len() == 7 + c.disks@.len() + (if c.serial is Some { 1int } else { 0 })
            + (if c.shared_dirs@.len() > 0 { 1int } else { 0 }),
{
}

/// Starting from `Hardware` and following the step function visits every
/// part of `c` once, in the assembly order, and ends at `Done`, which is
/// where it stays: a storage device for each disk in turn, the serial
/// console exactly when one is configured, the shares exactly when there
/// are some.
pub proof fn lemma_assembly_order(c: VmConfig)
    ensures
        assembly_order(c)[0] == AssemblyStep::Hardware,
        assembly_order(c).last() == AssemblyStep::Done,
        step_after(c, AssemblyStep::Done) == AssemblyStep::Done,
        forall|i: int|
            0 <= i < assembly_order(c).len() - 1 ==> step_after(c, #[trigger] assembly_order(c)[i])
                == assembly_order(c)[i + 1],
        assembly_order(c).subrange(3, 3 + c.disks@.len() as int) == Seq::new(
            c.disks@.len(),
            |k: int| AssemblyStep::Storage(k as usize),
        ),
        assembly_order(c).contains(AssemblyStep::Serial) <==> c.serial is Some,
        assembly_order(c).contains(AssemblyStep::SharedDirs) <==> c.shared_dirs@.len() > 0,
{
    let o = assembly_order(c);
    let n = c.disks@.len() as int;
    let s: int = if c.serial is Some { 1 } else { 0 };
    let h: int = if c.shared_dirs@.len() > 0 { 1 } else { 0 };
    lemma_step_at(c, 0);
    assert(o.len() == 7 + n + s + h);
    lemma_step_at(c, o.len() - 1);
    assert(n <= usize::MAX) by {
        assert(c.disks.len() == n);
    }
    assert forall|i: int| 0 <= i < o.len() - 1 implies step_after(c, #[trigger] o[i]) == o[i + 1] by {
        lemma_step_at(c, i);
        lemma_step_at(c, i + 1);
        if 3 <= i < 3 + n {
            assert(((i - 3) as usize) as int == i - 3);
            if i + 1 < 3 + n {
                assert(((i - 2) as usize) as int == i - 2);
            }
        }
    }
    assert forall|k: int| 0 <= k < n implies #[trigger] o.subrange(3, 3 + n)[k]
        == AssemblyStep::Storage(k as usize) by {
        lemma_step_at(c, 3 + k);
    }
    assert(o.subrange(3, 3 + n) =~= Seq::new(
        c.disks@.len(),
        |k: int| AssemblyStep::Storage(k as usize),
    ));
    if o.contains(AssemblyStep::Serial) {
        let j = choose|j: int| 0 <= j < o.len() && o[j] == AssemblyStep::Serial;
        lemma_step_at(c, j);
    }
    if s == 1 {
        lemma_step_at(c, 4 + n);
    }
    if o.contains(AssemblyStep::SharedDirs) {
        let j = choose|j: int| 0 <= j < o.len() && o[j] == AssemblyStep::SharedDirs;
        lemma_step_at(c, j);
    }
    if h == 1 {
        lemma_step_at(c, 4 + n + s);
    }
}

} // verus!
