//! The trap sequence as a processor without a supervisor runs it: four
//! rotations of a scratch register, then an exchange of a register with
//! itself. The rotation amounts are the mark by which a supervisor knows the
//! sequence; together they turn the register once or twice around, so the
//! sequence changes nothing.

use vstd::prelude::*;

verus! {

/// The targets for which a trap sequence is defined.
#[derive(Clone, Copy, Debug, PartialEq, Eq, Structural)]
pub enum Target {
    /// 32-bit x86.
    X86,
    /// 64-bit x86.
    X86_64,
}

impl Target {
    /// The width of a machine word in bits.
    pub open spec fn spec_word_bits(self) -> u32 {
        match self {
            Target::X86 => 32,
            Target::X86_64 => 64,
        }
    }

    /// The four rotation amounts of the sequence, in their order.
    pub open spec fn spec_rotations(self) -> Seq<u32> {
        match self {
            Target::X86 => seq![3u32, 13u32, 29u32, 19u32],
            Target::X86_64 => seq![3u32, 13u32, 61u32, 51u32],
        }
    }

    /// The width of a machine word in bits.
    pub fn word_bits(&self) -> (bits: u32)
        ensures
            bits == self.spec_word_bits(),
    {
        match self {
            Target::X86 => 32,
            Target::X86_64 => 64,
        }
    }

    /// The four rotation amounts of the sequence, in their order.
    pub fn rotations(&self) -> (r: [u32; 4])
        ensures
            r@ == self.spec_rotations(),
            forall|i: int| 0 <= i < 4 ==> 0 < #[trigger] r@[i] < self.spec_word_bits(),
            (r@[0] + r@[1] + r@[2] + r@[3]) % (self.spec_word_bits() as int) == 0,
    {
        let r: [u32; 4] = match self {
            Target::X86 => [3, 13, 29, 19],
            Target::X86_64 => [3, 13, 61, 51],
        };
        proof {
            assert(r@ =~= self.spec_rotations());
        }
        r
    }
}

/// `x` rotated left by `n` bits in a 32-bit register.
pub open spec fn spec_rotate_left_32(x: u32, n: u32) -> u32
    recommends
        0 < n < 32,
{
    (x << n) | (x >> ((32 - n) as u32))
}

/// `x` rotated left by `n` bits in a 64-bit register.
pub open spec fn spec_rotate_left_64(x: u64, n: u64) -> u64
    recommends
        0 < n < 64,
{
    (x << n) | (x >> ((64 - n) as u64))
}

/// Rotates a 32-bit register left by `n` bits.
pub fn rotate_left_32(x: u32, n: u32) -> (r: u32)
    requires
        0 < n < 32,
    ensures
        r == spec_rotate_left_32(x, n),
{
    (x << n) | (x >> (32 - n))
}

/// Rotates a 64-bit register left by `n` bits.
pub fn rotate_left_64(x: u64, n: u64) -> (r: u64)
    requires
        0 < n < 64,
    ensures
        r == spec_rotate_left_64(x, n),
{
    (x << n) | (x >> (64 - n))
}

/// Runs the rotations of the 32-bit sequence on the scratch register. The
/// register ends as it began.
pub fn run_rotations_32(scratch: u32) -> (after: u32)
    ensures
        after == scratch,
{
    let a: u32 = rotate_left_32(scratch, 3);
    let b: u32 = rotate_left_32(a, 13);
    let c: u32 = rotate_left_32(b, 29);
    let d: u32 = rotate_left_32(c, 19);
    proof {
        lemma_rotations_cancel_32(scratch);
    }
    d
}

/// Runs the rotations of the 64-bit sequence on the scratch register. The
/// register ends as it began.
pub fn run_rotations_64(scratch: u64) -> (after: u64)
    ensures
        after == scratch,
{
    let a: u64 = rotate_left_64(scratch, 3);
    let b: u64 = rotate_left_64(a, 13);
    let c: u64 = rotate_left_64(b, 61);
    let d: u64 = rotate_left_64(c, 51);
    proof {
        lemma_rotations_cancel_64(scratch);
    }
    d
}

/// The registers that the sequence names, each as wide as the target's word.
#[derive(Clone, Copy, Debug, PartialEq, Eq, Structural)]
pub struct Registers {
    /// `eax` or `rax`: holds the address of the request frame.
    pub frame: u64,
    /// `edx` or `rdx`: seeded with the default; holds the result afterwards.
    pub result: u64,
    /// `edi` or `rdi`: the register that the rotations turn.
    pub scratch: u64,
    /// `ebx` or `rbx`: the register that is exchanged with itself.
    pub base: u64,
}

impl Registers {
    /// Every register holds a value that fits the target's word.
    pub open spec fn fits(self, target: Target) -> bool {
        target == Target::X86 ==> self.frame <= u32::MAX && self.result <= u32::MAX
            && self.scratch <= u32::MAX && self.base <= u32::MAX
    }

    /// Whether every register holds a value that fits the target's word.
    pub fn check_fits(&self, target: Target) -> (ok: bool)
        ensures
            ok == self.fits(target),
    {
        match target {
            Target::X86 => self.frame <= 0xffff_ffff && self.result <= 0xffff_ffff
                && self.scratch <= 0xffff_ffff && self.base <= 0xffff_ffff,
            Target::X86_64 => true,
        }
    }
}

/// Runs the whole sequence as a processor does when no supervisor reads along:
/// the rotations, then the exchange. No register changes, so the result
/// register still holds the default that it was seeded with.
pub fn run_unsupervised(target: Target, regs: Registers) -> (after: Registers)
    requires
        regs.fits(target),
    ensures
        after == regs,
        after.result == regs.result,
{
    let scratch: u64 = match target {
        Target::X86 => {
            let low: u32 = regs.scratch as u32;
            let turned: u32 = run_rotations_32(low);
            turned as u64
        },
        Target::X86_64 => run_rotations_64(regs.scratch),
    };
    let base: u64 = regs.base;
    Registers { frame: regs.frame, result: regs.result, scratch, base }
}

/// The four rotations of the 32-bit sequence, one after the other, give
/// every register value back.
pub proof fn lemma_rotations_cancel_32(x: u32)
    ensures
        spec_rotate_left_32(
            spec_rotate_left_32(spec_rotate_left_32(spec_rotate_left_32(x, 3), 13), 29),
            19,
        ) == x,
{
    let a = spec_rotate_left_32(x, 3);
    let b = spec_rotate_left_32(a, 13);
    let c = spec_rotate_left_32(b, 29);
    let d = spec_rotate_left_32(c, 19);
    assert(d == x) by (bit_vector)
        requires
            a == (x << 3u32) | (x >> 29u32),
            b == (a << 13u32) | (a >> 19u32),
            c == (b << 29u32) | (b >> 3u32),
            d == (c << 19u32) | (c >> 13u32),
    ;
}

/// The four rotations of the 64-bit sequence, one after the other, give
/// every register value back.
pub proof fn lemma_rotations_cancel_64(x: u64)
    ensures
        spec_rotate_left_64(
            spec_rotate_left_64(spec_rotate_left_64(spec_rotate_left_64(x, 3), 13), 61),
            51,
        ) == x,
{
    let a = spec_rotate_left_64(x, 3);
    let b = spec_rotate_left_64(a, 13);
    let c = spec_rotate_left_64(b, 61);
    let d = spec_rotate_left_64(c, 51);
    assert(d == x) by (bit_vector)
        requires
            a == (x << 3u64) | (x >> 61u64),
            b == (a << 13u64) | (a >> 51u64),
            c == (b << 61u64) | (b >> 3u64),
            d == (c << 51u64) | (c >> 13u64),
    ;
}

} // verus!
