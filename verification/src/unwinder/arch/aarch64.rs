//! The register state of AArch64.

use vstd::prelude::*;
use crate::arch::Register;

verus! {

/// Highest number of register rules that a table row is expected to hold.
pub const MAX_REG_RULES: usize = 97;

/// A snapshot of the registers.
#[derive(Clone, Copy)]
pub struct Context {
    /// The general purpose registers x0 to x30.
    pub gp: [usize; 31],
    /// The stack pointer.
    pub sp: usize,
    /// The lower halves of the vector registers, d0 to d31.
    pub fp: [usize; 32],
}

/// Whether a context holds the register with DWARF number `n`.
pub open spec fn is_register(n: u16) -> bool {
    n <= 31 || 64 <= n <= 95
}

/// The values of a context's registers by DWARF number.
pub type Registers = Map<u16, usize>;

impl View for Context {
    type V = Registers;

    open spec fn view(&self) -> Registers {
        Map::new(
            |n: u16| is_register(n),
            |n: u16|
                if n <= 30 {
                    self.gp@[n as int]
                } else if n == 31 {
                    self.sp
                } else {
                    self.fp@[n - 64]
                },
        )
    }
}

impl Context {
    /// Whether the context has the register `reg`.
    pub fn has(reg: Register) -> (r: bool)
        ensures
            r == is_register(reg),
    {
        reg <= 31 || (64 <= reg && reg <= 95)
    }

    /// The value of `reg`.
    pub fn index(&self, reg: Register) -> (r: &usize)
        requires
            is_register(reg),
        ensures
            *r == self@[reg],
    {
        if reg <= 30 {
            &self.gp[reg as usize]
        } else if reg == 31 {
            &self.sp
        } else {
            &self.fp[(reg - 64) as usize]
        }
    }

    /// The value of `reg`, to be changed.
    pub fn index_mut(&mut self, reg: Register) -> (r: &mut usize)
        requires
            is_register(reg),
        ensures
            *r == old(self)@[reg],
            final(self)@ == old(self)@.insert(reg, *final(r)),
    {
        if reg <= 30 {
            &mut self.gp[reg as usize]
        } else if reg == 31 {
            &mut self.sp
        } else {
            &mut self.fp[(reg - 64) as usize]
        }
    }
}

impl Default for Context {
    fn default() -> (r: Self)
        ensures
            r@ == Registers::new(|n: u16| is_register(n), |n: u16| 0),
    {
        Context { gp: [0; 31], sp: 0, fp: [0; 32] }
    }
}

/// A number below 100 in decimal.
pub open spec fn decimal(n: nat) -> Seq<char> {
    if n < 10 {
        seq![(48 + n) as char]
    } else {
        seq![(48 + n / 10) as char, (48 + n % 10) as char]
    }
}

/// The name of a register: `X` and its number, `sp`, or `V` and its number.
pub open spec fn register_label(reg: Register) -> Seq<char> {
    if reg <= 30 {
        "X"@ + decimal(reg as nat)
    } else if reg == 31 {
        "sp"@
    } else {
        "V"@ + decimal((reg - 64) as nat)
    }
}

/// `gimli::AArch64::register_name`: general purpose registers have the name `X` and
/// their number, vector registers the name `V` and theirs, which is 64 less than their
/// number in DWARF.
#[verifier::external_body]
fn register_name(reg: Register) -> (r: Option<&'static str>)
    requires
        is_register(reg),
        reg != 31,
    ensures
        r is Some,
        r->0@ == register_label(reg),
{
    gimli::AArch64::register_name(gimli::Register(reg))
}

/// The register that is the `i`-th to be shown: the general purpose registers come
/// first, then the stack pointer, then the vector registers.
pub open spec fn shown(i: int) -> Register {
    (if i <= 31 { i } else { i + 32 }) as u16
}

impl Context {
    /// The names and the values of all registers.
    pub fn fields(&self) -> (r: Vec<(&'static str, usize)>)
        ensures
            r@.len() == 64,
            forall|i: int|
                0 <= i < 64 ==> (#[trigger] r@[i]).0@ == register_label(shown(i)) && r@[i].1
                    == self@[shown(i)],
    {
        let mut fields: Vec<(&'static str, usize)> = Vec::new();
        let mut i: u16 = 0;
        while i < 64
            invariant
                i <= 64,
                fields@.len() == i,
                forall|j: int|
                    0 <= j < i ==> (#[trigger] fields@[j]).0@ == register_label(shown(j))
                        && fields@[j].1 == self@[shown(j)],
            decreases 64 - i,
        {
            let reg: u16 = if i <= 31 { i } else { i + 32 };
            let name = if reg == 31 { "sp" } else { register_name(reg).unwrap() };
            fields.push((name, *self.index(reg)));
            i = i + 1;
        }
        fields
    }
}

/// A context is known by the values of its registers.
pub proof fn law_context_is_its_registers(a: Context, b: Context)
    requires
        a@ == b@,
    ensures
        a == b,
{
    assert forall|i: int| 0 <= i < 31 implies a.gp@[i] == b.gp@[i] by {
        let n = i as u16;
        assert(is_register(n) && n == i);
        assert(a@[n] == a.gp@[n as int] && b@[n] == b.gp@[n as int]);
    }
    assert(is_register(31));
    assert(a@[31u16] == a.sp && b@[31u16] == b.sp);
    assert forall|i: int| 0 <= i < 32 implies a.fp@[i] == b.fp@[i] by {
        let n = (i + 64) as u16;
        assert(is_register(n) && n == i + 64);
        assert(a@[n] == a.fp@[n - 64] && b@[n] == b.fp@[n - 64]);
    }
    assert(a.gp =~= b.gp);
    assert(a.fp =~= b.fp);
}

/// A context has 64 registers: x0 to x30 with the numbers 0 to 30, the stack pointer with
/// 31, and d0 to d31 with 64 to 95. Each is where its number says.
pub proof fn law_registers_have_numbers(ctx: Context, n: u16)
    ensures
        is_register(n) <==> n <= 31 || 64 <= n <= 95,
        ctx@.contains_key(n) <==> is_register(n),
        n <= 30 ==> ctx@[n] == ctx.gp@[n as int],
        n == 31 ==> ctx@[n] == ctx.sp,
        64 <= n <= 95 ==> ctx@[n] == ctx.fp@[n - 64],
{
}

/// The registers are shown in the order of their numbers, each once and with its own name.
pub proof fn law_registers_are_shown_in_order(i: int)
    requires
        0 <= i < 64,
    ensures
        i < 32 ==> shown(i) == i,
        i >= 32 ==> shown(i) == i + 32,
        is_register(shown(i)),
        i == 31 ==> register_label(shown(i)) == "sp"@,
        i < 31 ==> register_label(shown(i)) == "X"@ + decimal(i as nat),
        i > 31 ==> register_label(shown(i)) == "V"@ + decimal((i - 32) as nat),
        i < 10 ==> decimal(i as nat) == seq![(48 + i) as char],
        i >= 10 ==> decimal(i as nat) == seq![(48 + i / 10) as char, (48 + i % 10) as char],
{
}

} // verus!
