//! The sprite-DMA controller over many ticks: what a whole transfer does.

use vstd::prelude::*;
use crate::bus::BusState;
use crate::bus::DmaState;
use crate::bus::DMA_REG_ADDR;
use crate::bus::CPU_RAM_LENGTH;
use crate::cartridge::CartridgeState;
use crate::mapper::Mapper;
use crate::ppu::PpuState;

verus! {

/// Number of bytes in a page, and of read-and-store tick pairs in a transfer.
pub const PAGE_LENGTH: usize = 256;

/// Number of pages that lie in the work-RAM range.
pub const RAM_PAGES: u8 = 0x20;

/// The 256 bytes that the processor sees in `page` of the work-RAM range.
pub open spec fn ram_page(ram: Seq<u8>, page: u8) -> Seq<u8> {
    Seq::new(PAGE_LENGTH as nat, |i: int| ram[(page * 256 + i) % (CPU_RAM_LENGTH as int)])
}

/// Where the controller stands in its cycle.
pub enum DmaPhase {
    /// No transfer is under way.
    Idle,
    /// A transfer was triggered and waits for an odd tick.
    Armed,
    /// Bytes are being read and stored in turn.
    Transferring,
}

impl DmaState {
    /// The phase that the controller's two flags stand for.
    pub open spec fn phase(self) -> DmaPhase {
        if !self.transferring {
            DmaPhase::Idle
        } else if self.alignment_pending {
            DmaPhase::Armed
        } else {
            DmaPhase::Transferring
        }
    }
}

impl<M: Mapper> BusState<M> {
    /// The state after `ticks` consecutive clock ticks of the DMA
    /// controller, the first of them odd or even, and nothing else
    /// happening in between.
    pub open spec fn after_dma_ticks(self, odd: bool, ticks: nat) -> Self
        decreases ticks,
    {
        if ticks == 0 {
            self
        } else {
            self.after_dma_tick(odd).after_dma_ticks(!odd, (ticks - 1) as nat)
        }
    }

    /// In every state that the bus reaches, an idle controller waits for
    /// alignment.
    pub open spec fn dma_consistent(self) -> bool {
        !self.dma.transferring ==> self.dma.alignment_pending
    }

    /// The state in which a running transfer from a work-RAM page ends: the
    /// sprite table holds the page from the cursor on and is untouched below
    /// it, the controller is idle, and nothing else has changed.
    pub open spec fn transfer_done(self) -> Self {
        let page = ram_page(self.ram, self.dma.source_page);
        let from = self.dma.cursor as int;
        BusState {
            ppu: PpuState {
                oam: Seq::new(
                    PAGE_LENGTH as nat,
                    |i: int|
                        if i < from {
                            self.ppu.oam[i]
                        } else {
                            page[i]
                        },
                ),
                ..self.ppu
            },
            dma: DmaState {
                cursor: 0,
                latched_byte: page[255],
                transferring: false,
                alignment_pending: true,
                ..self.dma
            },
            ..self
        }
    }
}

/// A running transfer from a work-RAM page, taken up on an even tick with
/// the cursor anywhere, ends after two ticks for each byte still to copy, in
/// the state `transfer_done`, and is in progress on every tick before that.
pub proof fn lemma_transfer_completes<M: Mapper>(s: BusState<M>)
    requires
        s.wf(),
        s.dma.transferring,
        !s.dma.alignment_pending,
        s.dma.source_page < RAM_PAGES,
    ensures
        s.after_dma_ticks(false, (2 * (256 - s.dma.cursor)) as nat) == s.transfer_done(),
        forall|k: nat|
            k < 2 * (256 - s.dma.cursor) ==> (#[trigger] s.after_dma_ticks(
                false,
                k,
            )).dma.transferring,
    decreases 256 - s.dma.cursor,
{
    let cursor = s.dma.cursor as int;
    let ticks = (2 * (256 - cursor)) as nat;
    let read = s.after_dma_tick(false);
    let stored = read.after_dma_tick(true);
    assert(s.after_dma_ticks(false, ticks) == read.after_dma_ticks(true, (ticks - 1) as nat));
    assert(read.after_dma_ticks(true, (ticks - 1) as nat) == stored.after_dma_ticks(
        false,
        (ticks - 2) as nat,
    ));
    if cursor == 255 {
        assert(stored.after_dma_ticks(false, 0) == stored);
        assert(stored.ppu.oam =~= s.transfer_done().ppu.oam);
    } else {
        lemma_transfer_completes(stored);
        assert(stored.transfer_done().ppu.oam =~= s.transfer_done().ppu.oam);
    }
    assert forall|k: nat| k < ticks implies (#[trigger] s.after_dma_ticks(
        false,
        k,
    )).dma.transferring by {
        if k == 0 {
        } else if k == 1 {
            assert(s.after_dma_ticks(false, 1) == read.after_dma_ticks(true, 0));
        } else {
            assert(s.after_dma_ticks(false, k) == read.after_dma_ticks(true, (k - 1) as nat));
            assert(read.after_dma_ticks(true, (k - 1) as nat) == stored.after_dma_ticks(
                false,
                (k - 2) as nat,
            ));
            assert(stored.after_dma_ticks(false, (k - 2) as nat).dma.transferring);
        }
    }
}

/// An armed transfer that is first clocked on an even tick spends exactly
/// one tick more than one first clocked on an odd tick: the even tick
/// changes nothing, and from then on the two run alike.
pub proof fn lemma_alignment_costs_one_tick<M: Mapper>(s: BusState<M>, ticks: nat)
    requires
        s.dma.transferring,
        s.dma.alignment_pending,
    ensures
        s.after_dma_tick(false) == s,
        s.after_dma_tick(true) == (BusState {
            dma: DmaState { alignment_pending: false, ..s.dma },
            ..s
        }),
        s.after_dma_ticks(false, ticks + 1) == s.after_dma_ticks(true, ticks),
{
    assert(s.after_dma_ticks(false, ticks + 1) == s.after_dma_tick(false).after_dma_ticks(
        true,
        ticks,
    ));
}

/// The number of ticks that a transfer takes from the trigger to idle: one
/// to start on an odd tick, two for each of the 256 bytes, and one more to
/// wait where the first tick is even.
pub open spec fn transfer_ticks(odd: bool) -> nat {
    if odd {
        513
    } else {
        514
    }
}

/// Triggering a transfer from a work-RAM page on an idle controller and
/// clocking it to completion leaves the sprite table an exact copy of the
/// page, the controller idle and everything else as it was; the controller
/// is transferring on every tick before the last.
pub proof fn lemma_dma_copies_page<M: Mapper>(idle: BusState<M>, page: u8, odd: bool)
    requires
        idle.wf(),
        idle.dma_consistent(),
        !idle.dma.transferring,
        page < RAM_PAGES,
    ensures
        ({
            let armed = idle.after_write(DMA_REG_ADDR, page);
            let done = armed.after_dma_ticks(odd, transfer_ticks(odd));
            &&& done.ppu.oam == ram_page(idle.ram, page)
            &&& !done.dma.transferring
            &&& done == (BusState {
                ppu: PpuState { oam: ram_page(idle.ram, page), ..idle.ppu },
                dma: DmaState {
                    source_page: page,
                    cursor: 0,
                    latched_byte: ram_page(idle.ram, page)[255],
                    transferring: false,
                    alignment_pending: true,
                },
                ..idle
            })
            &&& forall|k: nat|
                k < transfer_ticks(odd) ==> (#[trigger] armed.after_dma_ticks(
                    odd,
                    k,
                )).dma.transferring
        }),
{
    let armed = idle.after_write(DMA_REG_ADDR, page);
    let started = armed.after_dma_tick(true);
    lemma_transfer_completes(started);
    assert(started.transfer_done().ppu.oam =~= ram_page(idle.ram, page));
    assert(armed.after_dma_ticks(true, 513) == started.after_dma_ticks(false, 512));
    assert(armed.after_dma_ticks(true, 0) == armed);
    assert forall|k: nat| k < 513 implies (#[trigger] armed.after_dma_ticks(
        true,
        k,
    )).dma.transferring by {
        if k > 0 {
            assert(armed.after_dma_ticks(true, k) == started.after_dma_ticks(
                false,
                (k - 1) as nat,
            ));
        }
    }
    if !odd {
        lemma_alignment_costs_one_tick(armed, 513);
        assert(armed.after_dma_ticks(false, 0) == armed);
        assert forall|k: nat| k < 514 implies (#[trigger] armed.after_dma_ticks(
            false,
            k,
        )).dma.transferring by {
            if k > 0 {
                lemma_alignment_costs_one_tick(armed, (k - 1) as nat);
            }
        }
    }
}

/// Writing the trigger register sets the source page, resets the cursor
/// and arms the controller whatever it was doing, and touches nothing else.
/// Where that happens in the middle of a transfer and the next tick is even,
/// 512 ticks later the sprite table is an exact copy of the new page: nothing
/// of the interrupted copy is left.
pub proof fn lemma_retrigger_restarts<M: Mapper>(s: BusState<M>, page: u8)
    requires
        s.wf(),
    ensures
        s.after_write(DMA_REG_ADDR, page) == (BusState {
            dma: DmaState { source_page: page, cursor: 0, transferring: true, ..s.dma },
            ..s
        }),
        s.dma.transferring && !s.dma.alignment_pending && page < RAM_PAGES ==> ({
            let done = s.after_write(DMA_REG_ADDR, page).after_dma_ticks(false, 512);
            &&& done.ppu.oam == ram_page(s.ram, page)
            &&& !done.dma.transferring
        }),
{
    if s.dma.transferring && !s.dma.alignment_pending && page < RAM_PAGES {
        let again = s.after_write(DMA_REG_ADDR, page);
        lemma_transfer_completes(again);
        assert(again.transfer_done().ppu.oam =~= ram_page(s.ram, page));
    }
}

/// The controller's cycle. Idle, a tick changes nothing and the trigger
/// arms the controller. Armed, it waits through even ticks and starts
/// transferring on the first odd one. Transferring, it goes on until the
/// store of the last byte, on an odd tick with the cursor at 255, makes it
/// idle again. A trigger in the middle leaves the phase as it is.
pub proof fn lemma_dma_cycle<M: Mapper>(s: BusState<M>, odd: bool, page: u8)
    requires
        s.dma_consistent(),
    ensures
        s.dma.phase() == DmaPhase::Idle ==> s.after_dma_tick(odd) == s && s.after_write(
            DMA_REG_ADDR,
            page,
        ).dma.phase() == DmaPhase::Armed,
        s.dma.phase() == DmaPhase::Armed ==> s.after_dma_tick(odd).dma.phase() == (if odd {
            DmaPhase::Transferring
        } else {
            DmaPhase::Armed
        }) && s.after_write(DMA_REG_ADDR, page).dma.phase() == DmaPhase::Armed,
        s.dma.phase() == DmaPhase::Transferring ==> s.after_dma_tick(odd).dma.phase() == (if odd
            && s.dma.cursor == 255 {
            DmaPhase::Idle
        } else {
            DmaPhase::Transferring
        }) && s.after_write(DMA_REG_ADDR, page).dma.phase() == DmaPhase::Transferring,
{
}

/// The power-on state is consistent, and every operation of the bus keeps
/// it so: an idle controller always waits for alignment.
pub proof fn lemma_dma_consistent_kept<M: Mapper>(
    s: BusState<M>,
    cartridge: CartridgeState<M>,
    addr: usize,
    byte: u8,
    odd: bool,
    data: Seq<u8>,
)
    requires
        s.dma_consistent(),
    ensures
        BusState::power_on(cartridge).dma_consistent(),
        s.after_read(addr).dma_consistent(),
        s.after_write(addr, byte).dma_consistent(),
        s.after_dma_tick(odd).dma_consistent(),
        s.after_ppu_read(addr).dma_consistent(),
        s.after_ppu_write(addr, byte).dma_consistent(),
        s.after_joypad_update(byte).dma_consistent(),
        s.after_load(data).dma_consistent(),
{
}

} // verus!
