//! The joypad shift registers over several reads.

use vstd::prelude::*;
use crate::bus::BusState;
use crate::bus::Region;
use crate::bus::joypad_index;
use crate::bus::region_of;
use crate::bus::shifted_left;
use crate::bus::top_bit;
use crate::mapper::Mapper;

verus! {

/// The bits that `count` consecutive reads shift out of a register, the
/// first read first.
pub open spec fn shifted_out(register: u8, count: nat) -> Seq<u8>
    decreases count,
{
    if count == 0 {
        Seq::empty()
    } else {
        seq![top_bit(register)] + shifted_out(shifted_left(register), (count - 1) as nat)
    }
}

/// The bits of a byte, the highest first.
pub open spec fn bits_high_first(byte: u8) -> Seq<u8> {
    seq![
        (byte / 128) as u8,
        (byte / 64 % 2) as u8,
        (byte / 32 % 2) as u8,
        (byte / 16 % 2) as u8,
        (byte / 8 % 2) as u8,
        (byte / 4 % 2) as u8,
        (byte / 2 % 2) as u8,
        (byte % 2) as u8,
    ]
}

impl<M: Mapper> BusState<M> {
    /// The bytes that `count` consecutive processor reads of `addr` return.
    pub open spec fn read_values(self, addr: usize, count: nat) -> Seq<u8>
        decreases count,
    {
        if count == 0 {
            Seq::empty()
        } else {
            seq![self.read_value(addr)] + self.after_read(addr).read_values(
                addr,
                (count - 1) as nat,
            )
        }
    }
}

/// What eight reads return, written out: the top bit of the register after
/// no shift, after one, and so on up to seven.
proof fn lemma_eight_reads_unfolded(register: u8)
    ensures
        shifted_out(register, 8) == seq![
            top_bit(register),
            top_bit(shifted_left(register)),
            top_bit(shifted_left(shifted_left(register))),
            top_bit(shifted_left(shifted_left(shifted_left(register)))),
            top_bit(shifted_left(shifted_left(shifted_left(shifted_left(register))))),
            top_bit(
                shifted_left(shifted_left(shifted_left(shifted_left(shifted_left(register))))),
            ),
            top_bit(
                shifted_left(
                    shifted_left(shifted_left(shifted_left(shifted_left(shifted_left(register))))),
                ),
            ),
            top_bit(
                shifted_left(
                    shifted_left(
                        shifted_left(
                            shifted_left(shifted_left(shifted_left(shifted_left(register)))),
                        ),
                    ),
                ),
            ),
        ],
{
    reveal_with_fuel(shifted_out, 9);
    let r1 = shifted_left(register);
    let r2 = shifted_left(r1);
    let r3 = shifted_left(r2);
    let r4 = shifted_left(r3);
    let r5 = shifted_left(r4);
    let r6 = shifted_left(r5);
    let r7 = shifted_left(r6);
    assert(shifted_out(register, 8) =~= seq![
        top_bit(register),
        top_bit(r1),
        top_bit(r2),
        top_bit(r3),
        top_bit(r4),
        top_bit(r5),
        top_bit(r6),
        top_bit(r7),
    ]);
}

/// The top bit of a register that was shifted `k` times is the bit that
/// stood `k` places below the top.
proof fn lemma_shifted_top_bits(register: u8)
    ensures
        top_bit(register) == register / 128,
        top_bit(shifted_left(register)) == register / 64 % 2,
        top_bit(shifted_left(shifted_left(register))) == register / 32 % 2,
        top_bit(shifted_left(shifted_left(shifted_left(register)))) == register / 16 % 2,
        top_bit(shifted_left(shifted_left(shifted_left(shifted_left(register))))) == register / 8
            % 2,
        top_bit(shifted_left(shifted_left(shifted_left(shifted_left(shifted_left(register))))))
            == register / 4 % 2,
        top_bit(
            shifted_left(
                shifted_left(shifted_left(shifted_left(shifted_left(shifted_left(register))))),
            ),
        ) == register / 2 % 2,
        top_bit(
            shifted_left(
                shifted_left(
                    shifted_left(shifted_left(shifted_left(shifted_left(shifted_left(register))))),
                ),
            ),
        ) == register % 2,
{
    let r0 = register;
    let r1 = shifted_left(r0);
    let r2 = shifted_left(r1);
    let r3 = shifted_left(r2);
    let r4 = shifted_left(r3);
    let r5 = shifted_left(r4);
    let r6 = shifted_left(r5);
    let r7 = shifted_left(r6);
    lemma_shift_step(r0, 1, r0);
    lemma_shift_step(r0, 2, r1);
    lemma_shift_step(r0, 4, r2);
    lemma_shift_step(r0, 8, r3);
    lemma_shift_step(r0, 16, r4);
    lemma_shift_step(r0, 32, r5);
    lemma_shift_step(r0, 64, r6);
    lemma_shift_step(r0, 128, r7);
}

/// One shift of a register that holds `byte` times `scale` modulo 256: its
/// top bit is the bit of `byte * scale` worth 128, and the shifted register
/// holds `byte` times twice `scale` modulo 256.
proof fn lemma_shift_step(byte: u8, scale: int, register: u8)
    requires
        scale == 1 || scale == 2 || scale == 4 || scale == 8 || scale == 16 || scale == 32
            || scale == 64 || scale == 128,
        register == byte * scale % 256,
    ensures
        top_bit(register) == (byte as int) / (128int / scale) % 2,
        shifted_left(register) == byte * (2 * scale) % 256,
{
    let wide = byte * scale;
    assert(0 <= wide <= 255 * 128 && wide / 128 == (byte as int) / (128int / scale))
        by (nonlinear_arith)
        requires
            wide == byte * scale,
            0 <= byte <= 255,
            scale == 1 || scale == 2 || scale == 4 || scale == 8 || scale == 16 || scale == 32
                || scale == 64 || scale == 128,
    ;
    assert(byte * (2 * scale) == wide * 2) by (nonlinear_arith)
        requires
            wide == byte * scale,
    ;
    lemma_shift_wide(wide);
}

/// Doubling and taking the top bit commute with reduction modulo 256.
proof fn lemma_shift_wide(wide: int)
    requires
        wide >= 0,
    ensures
        wide % 256 * 2 % 256 == wide * 2 % 256,
        wide % 256 >= 128 <==> wide / 128 % 2 == 1,
{
}

/// Eight reads shift a register's bits out from the highest to the lowest.
pub proof fn lemma_shift_order(register: u8)
    ensures
        shifted_out(register, 8) == bits_high_first(register),
{
    lemma_eight_reads_unfolded(register);
    lemma_shifted_top_bits(register);
    assert(shifted_out(register, 8) =~= bits_high_first(register));
}

/// Consecutive reads of a joypad address return what its shift register
/// shifts out.
pub proof fn lemma_joypad_reads_shift<M: Mapper>(s: BusState<M>, addr: usize, count: nat)
    requires
        s.wf(),
        region_of(addr) == Region::Joypad,
    ensures
        s.read_values(addr, count) == shifted_out(s.joypad_registers[joypad_index(addr)], count),
    decreases count,
{
    if count > 0 {
        lemma_joypad_reads_shift(s.after_read(addr), addr, (count - 1) as nat);
    }
}

/// After a write to a joypad address has latched that joypad's snapshot,
/// eight reads of the address return the snapshot's bits from the highest
/// to the lowest.
pub proof fn lemma_joypad_latch_then_reads<M: Mapper>(s: BusState<M>, addr: usize, byte: u8)
    requires
        s.wf(),
        region_of(addr) == Region::Joypad,
    ensures
        s.after_write(addr, byte).read_values(addr, 8) == bits_high_first(
            s.joypad_state[joypad_index(addr)],
        ),
{
    let latched = s.after_write(addr, byte);
    lemma_joypad_reads_shift(latched, addr, 8);
    lemma_shift_order(s.joypad_state[joypad_index(addr)]);
}

} // verus!
