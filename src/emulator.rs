use std::collections::HashSet;

use vstd::prelude::*;

use crate::error::ExecutionError;
use crate::processor::{is_initial, run_spec, tick_spec, Processor, ProcessorModel};

verus! {

broadcast use vstd::std_specs::hash::group_hash_axioms;

/// Whether the instruction in the fetch latch sits at a breakpoint.
pub open spec fn at_breakpoint(m: ProcessorModel, breakpoints: Set<u32>) -> bool {
    m.if_id is Some && breakpoints.contains(m.if_id->Some_0.address)
}

/// Whether a run stops at `m`: the machine has halted or hit a breakpoint.
pub open spec fn stops(m: ProcessorModel, breakpoints: Set<u32>) -> bool {
    m.halted || at_breakpoint(m, breakpoints)
}

/// Ticking `n` times and then once more is ticking `n + 1` times.
proof fn lemma_run_extend(m: ProcessorModel, n: nat)
    requires
        run_spec(m, n) is Ok,
    ensures
        run_spec(m, n + 1) == tick_spec(run_spec(m, n)->Ok_0),
    decreases n,
{
    reveal_with_fuel(run_spec, 2);
    if n > 0 {
        lemma_run_extend(tick_spec(m)->Ok_0, (n - 1) as nat);
    }
}

/// The debug controller: a pipeline engine and a set of breakpoints keyed by
/// fetch address.
pub struct Emulator {
    processor: Processor,
    breakpoints: HashSet<u32>,
}

pub struct EmulatorModel {
    pub processor: ProcessorModel,
    pub breakpoints: Set<u32>,
}

impl View for Emulator {
    type V = EmulatorModel;

    closed spec fn view(&self) -> EmulatorModel {
        EmulatorModel { processor: self.processor@, breakpoints: self.breakpoints@ }
    }
}

impl Emulator {
    pub open spec fn wf(&self) -> bool {
        self@.processor.wf()
    }

    /// A fresh machine (see `Processor::new`) with no breakpoints.
    pub fn new(rom: Vec<u8>, ram_size: u32, entry: u32) -> (r: Emulator)
        ensures
            r.wf(),
            is_initial(r@.processor, rom@, ram_size, entry),
            !r@.processor.registers.constant_one,
            forall|i: int| 0 <= i < 32 ==> r@.processor.registers.values[i] == 0,
            r@.breakpoints == Set::<u32>::empty(),
    {
        Emulator::from_processor(Processor::new(rom, ram_size, entry))
    }

    /// Puts a machine, in whatever state and configuration, under debug
    /// control with no breakpoints.
    pub fn from_processor(processor: Processor) -> (r: Emulator)
        requires
            processor.wf(),
        ensures
            r.wf(),
            r@.processor == processor@,
            r@.breakpoints == Set::<u32>::empty(),
    {
        Emulator { processor, breakpoints: HashSet::new() }
    }

    pub fn processor(&self) -> (r: &Processor)
        ensures
            r@ == self@.processor,
    {
        &self.processor
    }

    pub fn add_breakpoint(&mut self, addr: u32)
        ensures
            final(self)@.processor == old(self)@.processor,
            final(self)@.breakpoints == old(self)@.breakpoints.insert(addr),
    {
        self.breakpoints.insert(addr);
    }

    pub fn remove_breakpoint(&mut self, addr: u32)
        ensures
            final(self)@.processor == old(self)@.processor,
            final(self)@.breakpoints == old(self)@.breakpoints.remove(addr),
    {
        self.breakpoints.remove(&addr);
    }

    /// Whether the instruction fetched last sits at a breakpoint.
    pub fn has_reached_break_point(&self) -> (r: bool)
        ensures
            r == at_breakpoint(self@.processor, self@.breakpoints),
    {
        match self.processor.fetch_latch() {
            None => false,
            Some(fetched) => self.breakpoints.contains(&fetched.address),
        }
    }

    pub fn should_halt(&self) -> (r: bool)
        ensures
            r == self@.processor.halted,
    {
        self.processor.is_halted()
    }

    /// One tick of the machine; the breakpoints are kept.
    pub fn tick(&mut self) -> (r: Result<(), ExecutionError>)
        requires
            old(self).wf(),
        ensures
            final(self).wf(),
            final(self)@.breakpoints == old(self)@.breakpoints,
            match tick_spec(old(self)@.processor) {
                Ok(next) => r is Ok && final(self)@.processor == next,
                Err(e) => r == Err::<(), ExecutionError>(e) && final(self)@.processor == old(
                    self,
                )@.processor,
            },
    {
        self.processor.tick()
    }

    /// Ticks while the machine has neither halted nor reached a breakpoint,
    /// at most `max_ticks` times, and returns how many ticks it made. A
    /// machine already stopped is not ticked. On a fault the machine is left
    /// as it was before the faulting tick.
    pub fn run_until_halt_or_breakpoint(&mut self, max_ticks: u64) -> (r: Result<
        u64,
        ExecutionError,
    >)
        requires
            old(self).wf(),
        ensures
            final(self).wf(),
            final(self)@.breakpoints == old(self)@.breakpoints,
            r is Ok ==> {
                let n = r->Ok_0;
                &&& n <= max_ticks
                &&& run_spec(old(self)@.processor, n as nat) == Ok::<
                    ProcessorModel,
                    ExecutionError,
                >(final(self)@.processor)
                &&& forall|k: nat|
                    k < n ==> #[trigger] run_spec(old(self)@.processor, k) is Ok && !stops(
                        run_spec(old(self)@.processor, k)->Ok_0,
                        old(self)@.breakpoints,
                    )
                &&& n < max_ticks ==> stops(final(self)@.processor, old(self)@.breakpoints)
            },
            r is Err ==> {
                &&& tick_spec(final(self)@.processor) == Err::<ProcessorModel, ExecutionError>(
                    r->Err_0,
                )
                &&& !stops(final(self)@.processor, old(self)@.breakpoints)
                &&& exists|n: nat|
                    n < max_ticks && #[trigger] run_spec(old(self)@.processor, n) == Ok::<
                        ProcessorModel,
                        ExecutionError,
                    >(final(self)@.processor)
            },
    {
        let ghost start = self@.processor;
        let mut count: u64 = 0;
        while count < max_ticks && !self.should_halt() && !self.has_reached_break_point()
            invariant
                self.wf(),
                self@.breakpoints == old(self)@.breakpoints,
                start == old(self)@.processor,
                count <= max_ticks,
                run_spec(start, count as nat) == Ok::<ProcessorModel, ExecutionError>(
                    self@.processor,
                ),
                forall|k: nat|
                    k < count ==> #[trigger] run_spec(start, k) is Ok && !stops(
                        run_spec(start, k)->Ok_0,
                        self@.breakpoints,
                    ),
            decreases max_ticks - count,
        {
            proof {
                lemma_run_extend(start, count as nat);
            }
            match self.processor.tick() {
                Err(e) => {
                    assert(run_spec(start, count as nat) == Ok::<ProcessorModel, ExecutionError>(
                        self@.processor,
                    ));
                    return Err(e);
                },
                Ok(()) => {},
            }
            count = count + 1;
        }
        Ok(count)
    }
}

} // verus!
