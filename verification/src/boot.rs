//! The order in which the kernel is brought up, and the objects that are
//! built once on the way.

use vstd::prelude::*;
use crate::gdt::{selector_at, GdtAndSelectors, Selectors, KERNEL_CODE64, KERNEL_DATA};
use crate::interrupts::{create_idt, kernel_idt, Entry, InterruptDescriptorTable};

verus! {

/// A stage of the boot. Each stage needs all stages before it.
#[derive(Clone, Copy, Debug, PartialEq, Eq, Structural)]
pub enum Stage {
    /// Serial port, terminal and logger are set up.
    Output,
    /// The descriptor table is built and loaded.
    Segmentation,
    /// The trap table is loaded, the interrupt controllers are programmed and
    /// interrupts are enabled.
    Interrupts,
    /// The frame allocator is made from the memory map.
    FrameAllocator,
    /// The mapper is made from the physical-memory offset.
    Mapper,
    /// The heap window is backed with frames.
    Heap,
    /// The boot is done and the kernel runs.
    Running,
    /// A stage has failed and the machine is halted for good.
    Halted,
}

/// Number of stages that have to succeed before the kernel runs.
pub const STAGES: usize = 6;

impl Stage {
    /// The stage that follows when this one has succeeded.
    pub open spec fn successor(self) -> Stage {
        match self {
            Stage::Output => Stage::Segmentation,
            Stage::Segmentation => Stage::Interrupts,
            Stage::Interrupts => Stage::FrameAllocator,
            Stage::FrameAllocator => Stage::Mapper,
            Stage::Mapper => Stage::Heap,
            Stage::Heap => Stage::Running,
            Stage::Running => Stage::Running,
            Stage::Halted => Stage::Halted,
        }
    }

    /// The number of stages that have succeeded when this one is reached.
    pub open spec fn rank(self) -> nat {
        match self {
            Stage::Output => 0,
            Stage::Segmentation => 1,
            Stage::Interrupts => 2,
            Stage::FrameAllocator => 3,
            Stage::Mapper => 4,
            Stage::Heap => 5,
            Stage::Running => 6,
            Stage::Halted => 0,
        }
    }

    /// The stage after this one has ended: the successor if it succeeded, and
    /// the halt if it failed. A halted machine stays halted.
    pub open spec fn after(self, succeeded: bool) -> Stage {
        if succeeded {
            self.successor()
        } else if self == Stage::Running {
            Stage::Running
        } else {
            Stage::Halted
        }
    }

    /// The stage after a run of stages has ended as `outcomes` says, the
    /// first one first.
    pub open spec fn run(self, outcomes: Seq<bool>) -> Stage
        decreases outcomes.len(),
    {
        if outcomes.len() == 0 {
            self
        } else {
            self.run(outcomes.drop_last()).after(outcomes.last())
        }
    }

    /// The stage at which the boot begins.
    pub fn first() -> (stage: Stage)
        ensures
            stage == Stage::Output,
    {
        Stage::Output
    }

    /// The stage that comes after this one has succeeded or failed.
    pub fn next(self, succeeded: bool) -> (next: Stage)
        ensures
            next == self.after(succeeded),
    {
        match self {
            Stage::Running => Stage::Running,
            Stage::Halted => Stage::Halted,
            _ => if !succeeded {
                Stage::Halted
            } else {
                match self {
                    Stage::Output => Stage::Segmentation,
                    Stage::Segmentation => Stage::Interrupts,
                    Stage::Interrupts => Stage::FrameAllocator,
                    Stage::FrameAllocator => Stage::Mapper,
                    Stage::Mapper => Stage::Heap,
                    _ => Stage::Running,
                }
            },
        }
    }

    /// Whether there is nothing more to bring up: the kernel runs or the
    /// machine is halted.
    pub fn is_final(self) -> (r: bool)
        ensures
            r == (self == Stage::Running || self == Stage::Halted),
    {
        match self {
            Stage::Running => true,
            Stage::Halted => true,
            _ => false,
        }
    }
}

/// Once a stage has failed, nothing that comes later is ever reached: the
/// machine stays halted whatever follows.
pub proof fn lemma_halt_is_final(outcomes: Seq<bool>)
    ensures
        Stage::Halted.run(outcomes) == Stage::Halted,
    decreases outcomes.len(),
{
    if outcomes.len() > 0 {
        lemma_halt_is_final(outcomes.drop_last());
    }
}

/// A boot whose stages have all succeeded so far has reached the stage that
/// their number says, and one of whose stages has failed is halted.
pub proof fn lemma_boot_progress(outcomes: Seq<bool>)
    requires
        outcomes.len() <= STAGES,
    ensures
        (forall|i: int| 0 <= i < outcomes.len() ==> outcomes[i]) ==> Stage::Output.run(
            outcomes,
        ).rank() == outcomes.len() && Stage::Output.run(outcomes) != Stage::Halted,
        (exists|i: int| 0 <= i < outcomes.len() && !outcomes[i]) ==> Stage::Output.run(outcomes)
            == Stage::Halted,
    decreases outcomes.len(),
{
    if outcomes.len() > 0 {
        let before = outcomes.drop_last();
        lemma_boot_progress(before);
        if exists|i: int| 0 <= i < outcomes.len() && !outcomes[i] {
            let i = choose|i: int| 0 <= i < outcomes.len() && !outcomes[i];
            if i < before.len() {
                assert(!before[i]);
            } else {
                assert(!outcomes.last());
                if exists|j: int| 0 <= j < before.len() && !before[j] {
                } else {
                    assert(forall|j: int| 0 <= j < before.len() ==> before[j]);
                }
            }
        } else {
            assert(forall|j: int| 0 <= j < before.len() ==> before[j] == outcomes[j]);
        }
    }
}

/// The kernel runs only after the heap stage, and with it all six stages,
/// have succeeded.
pub proof fn lemma_running_needs_heap(outcomes: Seq<bool>)
    requires
        outcomes.len() <= STAGES,
        Stage::Output.run(outcomes) == Stage::Running,
    ensures
        outcomes.len() == STAGES,
        forall|i: int| 0 <= i < outcomes.len() ==> outcomes[i],
{
    lemma_boot_progress(outcomes);
    if exists|i: int| 0 <= i < outcomes.len() && !outcomes[i] {
    } else {
        assert(forall|i: int| 0 <= i < outcomes.len() ==> outcomes[i]);
    }
}

/// The tables that exist once for the whole run of the kernel. Each is built
/// when it is first asked for and is never built again.
pub struct Singletons {
    /// The descriptor table, and how often it has been built.
    gdt: (Option<GdtAndSelectors>, u64),
    /// The trap table, and how often it has been built.
    idt: (Option<InterruptDescriptorTable>, u64),
}

impl Singletons {
    #[verifier::type_invariant]
    spec fn valid(self) -> bool {
        &&& self.gdt.1 == (if self.gdt.0.is_some() {
            1u64
        } else {
            0u64
        })
        &&& self.idt.1 == (if self.idt.0.is_some() {
            1u64
        } else {
            0u64
        })
        &&& self.idt.0 matches Some(idt) ==> idt@ == kernel_idt()
    }

    /// The entries of the descriptor table, once it is built.
    pub closed spec fn gdt_table(self) -> Option<Seq<u64>> {
        match self.gdt.0 {
            Some(gdt) => Some(gdt.table()),
            None => None,
        }
    }

    /// The selectors of the descriptor table, once it is built.
    pub closed spec fn gdt_selectors(self) -> Option<Selectors> {
        match self.gdt.0 {
            Some(gdt) => Some(gdt.spec_selectors()),
            None => None,
        }
    }

    /// How often the descriptor table has been built.
    pub closed spec fn gdt_builds(self) -> nat {
        self.gdt.1 as nat
    }

    /// The slots of the trap table, once it is built.
    pub closed spec fn idt_entries(self) -> Option<Seq<Entry>> {
        match self.idt.0 {
            Some(idt) => Some(idt@),
            None => None,
        }
    }

    /// How often the trap table has been built.
    pub closed spec fn idt_builds(self) -> nat {
        self.idt.1 as nat
    }

    /// Nothing is built yet.
    pub fn new() -> (singletons: Singletons)
        ensures
            singletons.gdt_table().is_none(),
            singletons.gdt_selectors().is_none(),
            singletons.gdt_builds() == 0,
            singletons.idt_entries().is_none(),
            singletons.idt_builds() == 0,
    {
        Singletons { gdt: (None, 0), idt: (None, 0) }
    }

    /// How often the descriptor table and the trap table have been built.
    pub fn builds(&self) -> (builds: (u64, u64))
        ensures
            builds.0 == self.gdt_builds(),
            builds.1 == self.idt_builds(),
            builds.0 <= 1,
            builds.1 <= 1,
    {
        proof {
            use_type_invariant(self);
        }
        (self.gdt.1, self.idt.1)
    }

    /// The trap table. The first call builds it; every later call finds it
    /// as it is.
    pub fn idt(&mut self) -> (idt: InterruptDescriptorTable)
        ensures
            idt@ == kernel_idt(),
            final(self).idt_entries() == Some(kernel_idt()),
            old(self).idt_entries().is_some() ==> final(self).idt_entries() == old(self).idt_entries(),
            final(self).idt_builds() == 1,
            final(self).idt_builds() == old(self).idt_builds() + (if old(self).idt_entries().is_some() {
                0nat
            } else {
                1nat
            }),
            final(self).gdt_table() == old(self).gdt_table(),
            final(self).gdt_selectors() == old(self).gdt_selectors(),
            final(self).gdt_builds() == old(self).gdt_builds(),
    {
        proof {
            use_type_invariant(&*self);
        }
        match self.idt.0 {
            Some(idt) => idt,
            None => {
                let idt = create_idt();
                self.idt = (Some(idt), 1);
                idt
            },
        }
    }

    /// The descriptor table with its selectors. The first call builds it,
    /// with the task-state segment that the two halves describe; every later
    /// call finds it as it is, whatever halves it is given.
    pub fn gdt(&mut self, tss_low: u64, tss_high: u64) -> (gdt: &GdtAndSelectors)
        ensures
            Some(gdt.table()) == final(self).gdt_table(),
            Some(gdt.spec_selectors()) == final(self).gdt_selectors(),
            old(self).gdt_table().is_some() ==> final(self).gdt_table() == old(self).gdt_table()
                && final(self).gdt_selectors() == old(self).gdt_selectors(),
            old(self).gdt_table().is_none() ==> final(self).gdt_table() == Some(
                seq![0u64, KERNEL_CODE64, KERNEL_DATA, tss_low, tss_high],
            ) && final(self).gdt_selectors() == Some(
                Selectors { code_selector: 8, data_selector: 16, tss_selector: selector_at(3, tss_low) },
            ),
            final(self).gdt_builds() == 1,
            final(self).gdt_builds() == old(self).gdt_builds() + (if old(self).gdt_table().is_some() {
                0nat
            } else {
                1nat
            }),
            final(self).idt_entries() == old(self).idt_entries(),
            final(self).idt_builds() == old(self).idt_builds(),
    {
        proof {
            use_type_invariant(&*self);
        }
        if self.gdt.0.is_none() {
            self.gdt = (Some(GdtAndSelectors::new(tss_low, tss_high)), 1);
        }
        match &self.gdt.0 {
            Some(gdt) => gdt,
            None => vstd::pervasive::unreached(),
        }
    }
}

} // verus!
