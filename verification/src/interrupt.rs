use vstd::prelude::*;

verus! {

/// Trigger mode of a CPU interrupt line.
#[derive(Clone, Copy, PartialEq, Eq, Structural, Debug)]
pub enum InterruptKind {
    /// Level interrupt
    Level,
    /// Edge interrupt
    Edge,
}

/// Enumeration of available CPU interrupts.
/// It is possible to create a handler for each of the interrupts (e.g.
/// `interrupt3`). `Interrupt1` is CPU line 1, and so on up to line 31.
#[derive(Clone, Copy, PartialEq, Eq, Structural, Debug)]
pub enum CpuInterrupt {
    Interrupt1,
    Interrupt2,
    Interrupt3,
    Interrupt4,
    Interrupt5,
    Interrupt6,
    Interrupt7,
    Interrupt8,
    Interrupt9,
    Interrupt10,
    Interrupt11,
    Interrupt12,
    Interrupt13,
    Interrupt14,
    Interrupt15,
    Interrupt16,
    Interrupt17,
    Interrupt18,
    Interrupt19,
    Interrupt20,
    Interrupt21,
    Interrupt22,
    Interrupt23,
    Interrupt24,
    Interrupt25,
    Interrupt26,
    Interrupt27,
    Interrupt28,
    Interrupt29,
    Interrupt30,
    Interrupt31,
}

impl CpuInterrupt {
    /// The CPU interrupt line of this interrupt, between 1 and 31.
    pub open spec fn spec_number(self) -> u32 {
        match self {
            CpuInterrupt::Interrupt1 => 1,
            CpuInterrupt::Interrupt2 => 2,
            CpuInterrupt::Interrupt3 => 3,
            CpuInterrupt::Interrupt4 => 4,
            CpuInterrupt::Interrupt5 => 5,
            CpuInterrupt::Interrupt6 => 6,
            CpuInterrupt::Interrupt7 => 7,
            CpuInterrupt::Interrupt8 => 8,
            CpuInterrupt::Interrupt9 => 9,
            CpuInterrupt::Interrupt10 => 10,
            CpuInterrupt::Interrupt11 => 11,
            CpuInterrupt::Interrupt12 => 12,
            CpuInterrupt::Interrupt13 => 13,
            CpuInterrupt::Interrupt14 => 14,
            CpuInterrupt::Interrupt15 => 15,
            CpuInterrupt::Interrupt16 => 16,
            CpuInterrupt::Interrupt17 => 17,
            CpuInterrupt::Interrupt18 => 18,
            CpuInterrupt::Interrupt19 => 19,
            CpuInterrupt::Interrupt20 => 20,
            CpuInterrupt::Interrupt21 => 21,
            CpuInterrupt::Interrupt22 => 22,
            CpuInterrupt::Interrupt23 => 23,
            CpuInterrupt::Interrupt24 => 24,
            CpuInterrupt::Interrupt25 => 25,
            CpuInterrupt::Interrupt26 => 26,
            CpuInterrupt::Interrupt27 => 27,
            CpuInterrupt::Interrupt28 => 28,
            CpuInterrupt::Interrupt29 => 29,
            CpuInterrupt::Interrupt30 => 30,
            CpuInterrupt::Interrupt31 => 31,
        }
    }

    /// The CPU interrupt with line `n`, if `n` is between 1 and 31.
    pub open spec fn spec_from_number(n: u32) -> Option<CpuInterrupt> {
        if n == 1 { Some(CpuInterrupt::Interrupt1) }
        else if n == 2 { Some(CpuInterrupt::Interrupt2) }
        else if n == 3 { Some(CpuInterrupt::Interrupt3) }
        else if n == 4 { Some(CpuInterrupt::Interrupt4) }
        else if n == 5 { Some(CpuInterrupt::Interrupt5) }
        else if n == 6 { Some(CpuInterrupt::Interrupt6) }
        else if n == 7 { Some(CpuInterrupt::Interrupt7) }
        else if n == 8 { Some(CpuInterrupt::Interrupt8) }
        else if n == 9 { Some(CpuInterrupt::Interrupt9) }
        else if n == 10 { Some(CpuInterrupt::Interrupt10) }
        else if n == 11 { Some(CpuInterrupt::Interrupt11) }
        else if n == 12 { Some(CpuInterrupt::Interrupt12) }
        else if n == 13 { Some(CpuInterrupt::Interrupt13) }
        else if n == 14 { Some(CpuInterrupt::Interrupt14) }
        else if n == 15 { Some(CpuInterrupt::Interrupt15) }
        else if n == 16 { Some(CpuInterrupt::Interrupt16) }
        else if n == 17 { Some(CpuInterrupt::Interrupt17) }
        else if n == 18 { Some(CpuInterrupt::Interrupt18) }
        else if n == 19 { Some(CpuInterrupt::Interrupt19) }
        else if n == 20 { Some(CpuInterrupt::Interrupt20) }
        else if n == 21 { Some(CpuInterrupt::Interrupt21) }
        else if n == 22 { Some(CpuInterrupt::Interrupt22) }
        else if n == 23 { Some(CpuInterrupt::Interrupt23) }
        else if n == 24 { Some(CpuInterrupt::Interrupt24) }
        else if n == 25 { Some(CpuInterrupt::Interrupt25) }
        else if n == 26 { Some(CpuInterrupt::Interrupt26) }
        else if n == 27 { Some(CpuInterrupt::Interrupt27) }
        else if n == 28 { Some(CpuInterrupt::Interrupt28) }
        else if n == 29 { Some(CpuInterrupt::Interrupt29) }
        else if n == 30 { Some(CpuInterrupt::Interrupt30) }
        else if n == 31 { Some(CpuInterrupt::Interrupt31) }
        else { None }
    }

    /// The CPU interrupt line of this interrupt.
    pub fn number(self) -> (n: u32)
        ensures
            n == self.spec_number(),
            1 <= n <= 31,
    {
        match self {
            CpuInterrupt::Interrupt1 => 1,
            CpuInterrupt::Interrupt2 => 2,
            CpuInterrupt::Interrupt3 => 3,
            CpuInterrupt::Interrupt4 => 4,
            CpuInterrupt::Interrupt5 => 5,
            CpuInterrupt::Interrupt6 => 6,
            CpuInterrupt::Interrupt7 => 7,
            CpuInterrupt::Interrupt8 => 8,
            CpuInterrupt::Interrupt9 => 9,
            CpuInterrupt::Interrupt10 => 10,
            CpuInterrupt::Interrupt11 => 11,
            CpuInterrupt::Interrupt12 => 12,
            CpuInterrupt::Interrupt13 => 13,
            CpuInterrupt::Interrupt14 => 14,
            CpuInterrupt::Interrupt15 => 15,
            CpuInterrupt::Interrupt16 => 16,
            CpuInterrupt::Interrupt17 => 17,
            CpuInterrupt::Interrupt18 => 18,
            CpuInterrupt::Interrupt19 => 19,
            CpuInterrupt::Interrupt20 => 20,
            CpuInterrupt::Interrupt21 => 21,
            CpuInterrupt::Interrupt22 => 22,
            CpuInterrupt::Interrupt23 => 23,
            CpuInterrupt::Interrupt24 => 24,
            CpuInterrupt::Interrupt25 => 25,
            CpuInterrupt::Interrupt26 => 26,
            CpuInterrupt::Interrupt27 => 27,
            CpuInterrupt::Interrupt28 => 28,
            CpuInterrupt::Interrupt29 => 29,
            CpuInterrupt::Interrupt30 => 30,
            CpuInterrupt::Interrupt31 => 31,
        }
    }

    /// The CPU interrupt with line `n`; `None` when `n` is 0 or above 31.
    pub fn from_number(n: u32) -> (r: Option<CpuInterrupt>)
        ensures
            r == Self::spec_from_number(n),
            r is Some <==> 1 <= n <= 31,
            r matches Some(c) ==> c.spec_number() == n,
    {
        match n {
            1 => Some(CpuInterrupt::Interrupt1),
            2 => Some(CpuInterrupt::Interrupt2),
            3 => Some(CpuInterrupt::Interrupt3),
            4 => Some(CpuInterrupt::Interrupt4),
            5 => Some(CpuInterrupt::Interrupt5),
            6 => Some(CpuInterrupt::Interrupt6),
            7 => Some(CpuInterrupt::Interrupt7),
            8 => Some(CpuInterrupt::Interrupt8),
            9 => Some(CpuInterrupt::Interrupt9),
            10 => Some(CpuInterrupt::Interrupt10),
            11 => Some(CpuInterrupt::Interrupt11),
            12 => Some(CpuInterrupt::Interrupt12),
            13 => Some(CpuInterrupt::Interrupt13),
            14 => Some(CpuInterrupt::Interrupt14),
            15 => Some(CpuInterrupt::Interrupt15),
            16 => Some(CpuInterrupt::Interrupt16),
            17 => Some(CpuInterrupt::Interrupt17),
            18 => Some(CpuInterrupt::Interrupt18),
            19 => Some(CpuInterrupt::Interrupt19),
            20 => Some(CpuInterrupt::Interrupt20),
            21 => Some(CpuInterrupt::Interrupt21),
            22 => Some(CpuInterrupt::Interrupt22),
            23 => Some(CpuInterrupt::Interrupt23),
            24 => Some(CpuInterrupt::Interrupt24),
            25 => Some(CpuInterrupt::Interrupt25),
            26 => Some(CpuInterrupt::Interrupt26),
            27 => Some(CpuInterrupt::Interrupt27),
            28 => Some(CpuInterrupt::Interrupt28),
            29 => Some(CpuInterrupt::Interrupt29),
            30 => Some(CpuInterrupt::Interrupt30),
            31 => Some(CpuInterrupt::Interrupt31),
            _ => None,
        }
    }
}

/// Priority of a CPU interrupt line: `Priority0` masks it, `Priority1` to
/// `Priority15` are the levels 1 to 15.
#[derive(Clone, Copy, PartialEq, Eq, Structural, Debug)]
pub enum Priority {
    Priority0,
    Priority1,
    Priority2,
    Priority3,
    Priority4,
    Priority5,
    Priority6,
    Priority7,
    Priority8,
    Priority9,
    Priority10,
    Priority11,
    Priority12,
    Priority13,
    Priority14,
    Priority15,
}

impl Priority {
    /// The level of this priority, between 0 and 15.
    pub open spec fn spec_value(self) -> u8 {
        match self {
            Priority::Priority0 => 0,
            Priority::Priority1 => 1,
            Priority::Priority2 => 2,
            Priority::Priority3 => 3,
            Priority::Priority4 => 4,
            Priority::Priority5 => 5,
            Priority::Priority6 => 6,
            Priority::Priority7 => 7,
            Priority::Priority8 => 8,
            Priority::Priority9 => 9,
            Priority::Priority10 => 10,
            Priority::Priority11 => 11,
            Priority::Priority12 => 12,
            Priority::Priority13 => 13,
            Priority::Priority14 => 14,
            Priority::Priority15 => 15,
        }
    }

    /// The priority of level `v`; any level above 15 reads as `Priority0`.
    pub open spec fn spec_from_u8(v: u8) -> Priority {
        if v == 1 { Priority::Priority1 }
        else if v == 2 { Priority::Priority2 }
        else if v == 3 { Priority::Priority3 }
        else if v == 4 { Priority::Priority4 }
        else if v == 5 { Priority::Priority5 }
        else if v == 6 { Priority::Priority6 }
        else if v == 7 { Priority::Priority7 }
        else if v == 8 { Priority::Priority8 }
        else if v == 9 { Priority::Priority9 }
        else if v == 10 { Priority::Priority10 }
        else if v == 11 { Priority::Priority11 }
        else if v == 12 { Priority::Priority12 }
        else if v == 13 { Priority::Priority13 }
        else if v == 14 { Priority::Priority14 }
        else if v == 15 { Priority::Priority15 }
        else { Priority::Priority0 }
    }

    /// The level of this priority.
    pub fn value(self) -> (r: u8)
        ensures
            r == self.spec_value(),
            r <= 15,
    {
        match self {
            Priority::Priority0 => 0,
            Priority::Priority1 => 1,
            Priority::Priority2 => 2,
            Priority::Priority3 => 3,
            Priority::Priority4 => 4,
            Priority::Priority5 => 5,
            Priority::Priority6 => 6,
            Priority::Priority7 => 7,
            Priority::Priority8 => 8,
            Priority::Priority9 => 9,
            Priority::Priority10 => 10,
            Priority::Priority11 => 11,
            Priority::Priority12 => 12,
            Priority::Priority13 => 13,
            Priority::Priority14 => 14,
            Priority::Priority15 => 15,
        }
    }

    /// The priority of level `v`; 0 and any level above 15 give `Priority0`.
    pub fn from_u8(v: u8) -> (r: Priority)
        ensures
            r == Self::spec_from_u8(v),
    {
        match v {
            1 => Priority::Priority1,
            2 => Priority::Priority2,
            3 => Priority::Priority3,
            4 => Priority::Priority4,
            5 => Priority::Priority5,
            6 => Priority::Priority6,
            7 => Priority::Priority7,
            8 => Priority::Priority8,
            9 => Priority::Priority9,
            10 => Priority::Priority10,
            11 => Priority::Priority11,
            12 => Priority::Priority12,
            13 => Priority::Priority13,
            14 => Priority::Priority14,
            15 => Priority::Priority15,
            _ => Priority::Priority0,
        }
    }
}

impl From<u8> for Priority {
    fn from(v: u8) -> (r: Priority) {
        Priority::from_u8(v)
    }
}

impl vstd::std_specs::convert::FromSpecImpl<u8> for Priority {
    open spec fn obeys_from_spec() -> bool {
        true
    }

    open spec fn from_spec(v: u8) -> Priority {
        Priority::spec_from_u8(v)
    }
}

impl From<Priority> for u8 {
    fn from(p: Priority) -> (r: u8) {
        p.value()
    }
}

impl vstd::std_specs::convert::FromSpecImpl<Priority> for u8 {
    open spec fn obeys_from_spec() -> bool {
        true
    }

    open spec fn from_spec(p: Priority) -> u8 {
        p.spec_value()
    }
}

/// Reading a priority back from its level gives the same priority.
pub proof fn lemma_priority_round_trip(p: Priority)
    ensures
        Priority::spec_from_u8(p.spec_value()) == p,
{
}

/// The level of the priority read from `v` is `v` when `v` names a priority
/// (1 to 15), and 0 otherwise.
pub proof fn lemma_priority_from_level(v: u8)
    ensures
        Priority::spec_from_u8(v).spec_value() == (if 1 <= v <= 15 { v } else { 0 }),
{
}

/// The line of a CPU interrupt names that interrupt again.
pub proof fn lemma_cpu_interrupt_round_trip(c: CpuInterrupt)
    ensures
        CpuInterrupt::spec_from_number(c.spec_number()) == Some(c),
{
}

/// The bit of CPU line `which` in the interrupt controller's per-line
/// registers (enable, type, clear, pending).
pub open spec fn line_mask(which: CpuInterrupt) -> u32 {
    1u32 << which.spec_number()
}

/// The bit that selects interrupt kind `kind` in the type register:
/// 0 for level, 1 for edge.
pub open spec fn kind_bit(kind: InterruptKind) -> u32 {
    match kind {
        InterruptKind::Level => 0,
        InterruptKind::Edge => 1,
    }
}

/// `InterruptK` is CPU line K, for every K from 1 to 31: its number is K,
/// and line K names it; so enabling `InterruptK` sets bit K.
pub proof fn lemma_cpu_interrupt_lines()
    ensures
        CpuInterrupt::Interrupt1.spec_number() == 1,
        CpuInterrupt::Interrupt2.spec_number() == 2,
        CpuInterrupt::Interrupt3.spec_number() == 3,
        CpuInterrupt::Interrupt4.spec_number() == 4,
        CpuInterrupt::Interrupt5.spec_number() == 5,
        CpuInterrupt::Interrupt6.spec_number() == 6,
        CpuInterrupt::Interrupt7.spec_number() == 7,
        CpuInterrupt::Interrupt8.spec_number() == 8,
        CpuInterrupt::Interrupt9.spec_number() == 9,
        CpuInterrupt::Interrupt10.spec_number() == 10,
        CpuInterrupt::Interrupt11.spec_number() == 11,
        CpuInterrupt::Interrupt12.spec_number() == 12,
        CpuInterrupt::Interrupt13.spec_number() == 13,
        CpuInterrupt::Interrupt14.spec_number() == 14,
        CpuInterrupt::Interrupt15.spec_number() == 15,
        CpuInterrupt::Interrupt16.spec_number() == 16,
        CpuInterrupt::Interrupt17.spec_number() == 17,
        CpuInterrupt::Interrupt18.spec_number() == 18,
        CpuInterrupt::Interrupt19.spec_number() == 19,
        CpuInterrupt::Interrupt20.spec_number() == 20,
        CpuInterrupt::Interrupt21.spec_number() == 21,
        CpuInterrupt::Interrupt22.spec_number() == 22,
        CpuInterrupt::Interrupt23.spec_number() == 23,
        CpuInterrupt::Interrupt24.spec_number() == 24,
        CpuInterrupt::Interrupt25.spec_number() == 25,
        CpuInterrupt::Interrupt26.spec_number() == 26,
        CpuInterrupt::Interrupt27.spec_number() == 27,
        CpuInterrupt::Interrupt28.spec_number() == 28,
        CpuInterrupt::Interrupt29.spec_number() == 29,
        CpuInterrupt::Interrupt30.spec_number() == 30,
        CpuInterrupt::Interrupt31.spec_number() == 31,
        CpuInterrupt::spec_from_number(1) == Some(CpuInterrupt::Interrupt1),
        CpuInterrupt::spec_from_number(2) == Some(CpuInterrupt::Interrupt2),
        CpuInterrupt::spec_from_number(3) == Some(CpuInterrupt::Interrupt3),
        CpuInterrupt::spec_from_number(4) == Some(CpuInterrupt::Interrupt4),
        CpuInterrupt::spec_from_number(5) == Some(CpuInterrupt::Interrupt5),
        CpuInterrupt::spec_from_number(6) == Some(CpuInterrupt::Interrupt6),
        CpuInterrupt::spec_from_number(7) == Some(CpuInterrupt::Interrupt7),
        CpuInterrupt::spec_from_number(8) == Some(CpuInterrupt::Interrupt8),
        CpuInterrupt::spec_from_number(9) == Some(CpuInterrupt::Interrupt9),
        CpuInterrupt::spec_from_number(10) == Some(CpuInterrupt::Interrupt10),
        CpuInterrupt::spec_from_number(11) == Some(CpuInterrupt::Interrupt11),
        CpuInterrupt::spec_from_number(12) == Some(CpuInterrupt::Interrupt12),
        CpuInterrupt::spec_from_number(13) == Some(CpuInterrupt::Interrupt13),
        CpuInterrupt::spec_from_number(14) == Some(CpuInterrupt::Interrupt14),
        CpuInterrupt::spec_from_number(15) == Some(CpuInterrupt::Interrupt15),
        CpuInterrupt::spec_from_number(16) == Some(CpuInterrupt::Interrupt16),
        CpuInterrupt::spec_from_number(17) == Some(CpuInterrupt::Interrupt17),
        CpuInterrupt::spec_from_number(18) == Some(CpuInterrupt::Interrupt18),
        CpuInterrupt::spec_from_number(19) == Some(CpuInterrupt::Interrupt19),
        CpuInterrupt::spec_from_number(20) == Some(CpuInterrupt::Interrupt20),
        CpuInterrupt::spec_from_number(21) == Some(CpuInterrupt::Interrupt21),
        CpuInterrupt::spec_from_number(22) == Some(CpuInterrupt::Interrupt22),
        CpuInterrupt::spec_from_number(23) == Some(CpuInterrupt::Interrupt23),
        CpuInterrupt::spec_from_number(24) == Some(CpuInterrupt::Interrupt24),
        CpuInterrupt::spec_from_number(25) == Some(CpuInterrupt::Interrupt25),
        CpuInterrupt::spec_from_number(26) == Some(CpuInterrupt::Interrupt26),
        CpuInterrupt::spec_from_number(27) == Some(CpuInterrupt::Interrupt27),
        CpuInterrupt::spec_from_number(28) == Some(CpuInterrupt::Interrupt28),
        CpuInterrupt::spec_from_number(29) == Some(CpuInterrupt::Interrupt29),
        CpuInterrupt::spec_from_number(30) == Some(CpuInterrupt::Interrupt30),
        CpuInterrupt::spec_from_number(31) == Some(CpuInterrupt::Interrupt31),
        forall|c: CpuInterrupt| line_mask(c) == 1u32 << c.spec_number(),
        CpuInterrupt::spec_from_number(0) is None,
        forall|n: u32| n > 31 ==> CpuInterrupt::spec_from_number(n) is None,
{
}

/// `PriorityK` is level K, for every K from 0 to 15, and level K reads
/// back as `PriorityK`.
pub proof fn lemma_priority_levels()
    ensures
        Priority::Priority0.spec_value() == 0,
        Priority::Priority1.spec_value() == 1,
        Priority::Priority2.spec_value() == 2,
        Priority::Priority3.spec_value() == 3,
        Priority::Priority4.spec_value() == 4,
        Priority::Priority5.spec_value() == 5,
        Priority::Priority6.spec_value() == 6,
        Priority::Priority7.spec_value() == 7,
        Priority::Priority8.spec_value() == 8,
        Priority::Priority9.spec_value() == 9,
        Priority::Priority10.spec_value() == 10,
        Priority::Priority11.spec_value() == 11,
        Priority::Priority12.spec_value() == 12,
        Priority::Priority13.spec_value() == 13,
        Priority::Priority14.spec_value() == 14,
        Priority::Priority15.spec_value() == 15,
        Priority::spec_from_u8(0) == Priority::Priority0,
        Priority::spec_from_u8(1) == Priority::Priority1,
        Priority::spec_from_u8(2) == Priority::Priority2,
        Priority::spec_from_u8(3) == Priority::Priority3,
        Priority::spec_from_u8(4) == Priority::Priority4,
        Priority::spec_from_u8(5) == Priority::Priority5,
        Priority::spec_from_u8(6) == Priority::Priority6,
        Priority::spec_from_u8(7) == Priority::Priority7,
        Priority::spec_from_u8(8) == Priority::Priority8,
        Priority::spec_from_u8(9) == Priority::Priority9,
        Priority::spec_from_u8(10) == Priority::Priority10,
        Priority::spec_from_u8(11) == Priority::Priority11,
        Priority::spec_from_u8(12) == Priority::Priority12,
        Priority::spec_from_u8(13) == Priority::Priority13,
        Priority::spec_from_u8(14) == Priority::Priority14,
        Priority::spec_from_u8(15) == Priority::Priority15,
        forall|v: u8| v > 15 ==> Priority::spec_from_u8(v) == Priority::Priority0,
{
}

/// Every interrupt cause code from 1 to 31 goes to the handler of the CPU
/// line with that number (never to the default handler); exceptions go to
/// the exception handler, and any other code to the default handler.
pub proof fn lemma_trap_routing(code: usize)
    ensures
        spec_trap_handler(true, code) == TrapHandler::Exception,
        1 <= code <= 31 ==> (spec_trap_handler(false, code) matches TrapHandler::Interrupt(c)
            && c.spec_number() == code),
        !(1 <= code <= 31) ==> spec_trap_handler(false, code) == TrapHandler::Default,
{
    if 1 <= code <= 31 {
        lemma_cpu_interrupt_lines();
        let c = CpuInterrupt::spec_from_number(code as u32)->0;
        assert(CpuInterrupt::spec_from_number(code as u32) is Some);
    }
}

/// The bit of CPU line `which`.
pub fn line_bit(which: CpuInterrupt) -> (r: u32)
    ensures
        r == line_mask(which),
{
    1u32 << which.number()
}

/// The enable register `current` with line `which` enabled as well.
pub fn with_line_enabled(current: u32, which: CpuInterrupt) -> (r: u32)
    ensures
        r == current | line_mask(which),
{
    current | line_bit(which)
}

/// The enable register `current` with line `which` disabled.
pub fn with_line_disabled(current: u32, which: CpuInterrupt) -> (r: u32)
    ensures
        r == current & !line_mask(which),
{
    current & !line_bit(which)
}

/// The type register `current` with line `which` switched to kind `kind`.
pub fn with_line_kind(current: u32, which: CpuInterrupt, kind: InterruptKind) -> (r: u32)
    ensures
        r == (current & !line_mask(which)) | (kind_bit(kind) << which.spec_number()),
{
    let n = which.number();
    let interrupt_type: u32 = match kind {
        InterruptKind::Level => 0,
        InterruptKind::Edge => 1,
    };
    current & !(1u32 << n) | (interrupt_type << n)
}

/// Whether line `which` is set in register value `bits` (enabled, or
/// pending, depending on the register read).
pub fn is_line_set(bits: u32, which: CpuInterrupt) -> (r: bool)
    ensures
        r == (bits & line_mask(which) != 0),
{
    let ans = bits & line_bit(which);
    ans != 0
}

/// Enabling a line sets its bit and leaves every other line as it was.
pub proof fn lemma_enable_sets_only_its_line(current: u32, which: CpuInterrupt, other: CpuInterrupt)
    ensures
        (current | line_mask(which)) & line_mask(which) != 0,
        other != which ==> ((current | line_mask(which)) & line_mask(other) != 0
            <==> current & line_mask(other) != 0),
{
    let n = which.spec_number();
    let m = other.spec_number();
    assert(n < 32 && m < 32);
    assert((current | (1u32 << n)) & (1u32 << n) != 0) by (bit_vector)
        requires n < 32;
    if other != which {
        assert(n != m) by {
            lemma_cpu_interrupt_round_trip(which);
            lemma_cpu_interrupt_round_trip(other);
        }
        assert(((current | (1u32 << n)) & (1u32 << m) != 0) <==> (current & (1u32 << m) != 0))
            by (bit_vector)
            requires n < 32, m < 32, n != m;
    }
}

/// Disabling a line clears its bit and leaves every other line as it was.
pub proof fn lemma_disable_clears_only_its_line(current: u32, which: CpuInterrupt, other: CpuInterrupt)
    ensures
        (current & !line_mask(which)) & line_mask(which) == 0,
        other != which ==> ((current & !line_mask(which)) & line_mask(other) != 0
            <==> current & line_mask(other) != 0),
{
    let n = which.spec_number();
    let m = other.spec_number();
    assert((current & !(1u32 << n)) & (1u32 << n) == 0) by (bit_vector)
        requires n < 32;
    if other != which {
        assert(n != m) by {
            lemma_cpu_interrupt_round_trip(which);
            lemma_cpu_interrupt_round_trip(other);
        }
        assert(((current & !(1u32 << n)) & (1u32 << m) != 0) <==> (current & (1u32 << m) != 0))
            by (bit_vector)
            requires n < 32, m < 32, n != m;
    }
}

/// Setting the kind of a line makes its type bit that of the kind (1 for
/// edge) and leaves the type of every other line as it was.
pub proof fn lemma_kind_sets_only_its_line(current: u32, which: CpuInterrupt, kind: InterruptKind, other: CpuInterrupt)
    ensures
        ({
            let r = (current & !line_mask(which)) | (kind_bit(kind) << which.spec_number());
            &&& (r & line_mask(which) != 0) == (kind == InterruptKind::Edge)
            &&& other != which ==> (r & line_mask(other) == current & line_mask(other))
        }),
{
    let n = which.spec_number();
    let m = other.spec_number();
    let k = kind_bit(kind);
    assert(k <= 1);
    let r = (current & !(1u32 << n)) | (k << n);
    assert((r & (1u32 << n) != 0) == (k == 1)) by (bit_vector)
        requires n < 32, k <= 1, r == (current & !(1u32 << n)) | (k << n);
    if other != which {
        assert(n != m) by {
            lemma_cpu_interrupt_round_trip(which);
            lemma_cpu_interrupt_round_trip(other);
        }
        assert(r & (1u32 << m) == current & (1u32 << m)) by (bit_vector)
            requires n < 32, m < 32, n != m, k <= 1, r == (current & !(1u32 << n)) | (k << n);
    }
}

/// Registers saved by the trap entry code, in the order it stores them.
#[derive(Debug, Default, Clone, Copy)]
#[allow(missing_docs)]
pub struct TrapFrame {
    pub ra: usize,
    pub t0: usize,
    pub t1: usize,
    pub t2: usize,
    pub t3: usize,
    pub t4: usize,
    pub t5: usize,
    pub t6: usize,
    pub a0: usize,
    pub a1: usize,
    pub a2: usize,
    pub a3: usize,
    pub a4: usize,
    pub a5: usize,
    pub a6: usize,
    pub a7: usize,
    pub s0: usize,
    pub s1: usize,
    pub s2: usize,
    pub s3: usize,
    pub s4: usize,
    pub s5: usize,
    pub s6: usize,
    pub s7: usize,
    pub s8: usize,
    pub s9: usize,
    pub s10: usize,
    pub s11: usize,
    pub gp: usize,
    pub tp: usize,
    pub sp: usize,
}

/// Where a trap is routed.
#[derive(Clone, Copy, PartialEq, Eq, Structural, Debug)]
pub enum TrapHandler {
    /// An exception: goes to the atomic-emulation handler.
    Exception,
    /// An interrupt of CPU line 1 to 31: goes to that line's handler
    /// (`interrupt1` to `interrupt31`).
    Interrupt(CpuInterrupt),
    /// Any other interrupt code: goes to the default handler.
    Default,
}

/// Where a trap with cause `code` goes; `is_exception` tells an exception
/// from an interrupt.
pub open spec fn spec_trap_handler(is_exception: bool, code: usize) -> TrapHandler {
    if is_exception {
        TrapHandler::Exception
    } else if 1 <= code <= 31 {
        TrapHandler::Interrupt(CpuInterrupt::spec_from_number(code as u32)->0)
    } else {
        TrapHandler::Default
    }
}

/// Routes a trap: exceptions to the exception handler, interrupt codes 1 to
/// 31 to the handler of that CPU line, other codes to the default handler.
pub fn trap_handler(is_exception: bool, code: usize) -> (r: TrapHandler)
    ensures
        r == spec_trap_handler(is_exception, code),
        r matches TrapHandler::Interrupt(c) ==> c.spec_number() == code,
        is_exception ==> r == TrapHandler::Exception,
        !is_exception && 1 <= code <= 31 ==> (r matches TrapHandler::Interrupt(c) && c.spec_number() == code),
        !is_exception && !(1 <= code <= 31) ==> r == TrapHandler::Default,
{
    if is_exception {
        return TrapHandler::Exception;
    }
    if code > 31 {
        return TrapHandler::Default;
    }
    match CpuInterrupt::from_number(code as u32) {
        Some(c) => TrapHandler::Interrupt(c),
        None => TrapHandler::Default,
    }
}

/// A write of priority `priority` to the priority register of CPU line
/// `which`.
#[derive(Clone, Copy, PartialEq, Eq, Structural, Debug)]
pub struct PriorityWrite {
    pub which: CpuInterrupt,
    pub priority: u32,
}

/// Software interrupt 1, routed to CPU line 4; usable by the
/// interrupt-mode executor.
#[allow(non_camel_case_types)]
pub struct SW_INT1 {}

impl SW_INT1 {
    /// The CPU line the software interrupt is routed to.
    pub open spec fn spec_cpu_interrupt() -> CpuInterrupt {
        CpuInterrupt::Interrupt4
    }

    /// The software interrupt, with the priority write that sets it to
    /// `prio`.
    pub fn new(prio: Priority) -> (r: (Self, PriorityWrite))
        ensures
            r.1 == (PriorityWrite { which: Self::spec_cpu_interrupt(), priority: prio.spec_value() as u32 }),
    {
        let s = SW_INT1 {};
        let w = s.priority_write(prio);
        (s, w)
    }

    /// The CPU line number of the software interrupt.
    pub fn number(&self) -> (r: isize)
        ensures
            r == 4,
    {
        4
    }

    /// The CPU line the software interrupt is routed to.
    pub fn cpu_interrupt(&self) -> (r: CpuInterrupt)
        ensures
            r == Self::spec_cpu_interrupt(),
    {
        CpuInterrupt::Interrupt4
    }

    /// The priority write that sets the software interrupt to `prio`.
    pub fn priority_write(&self, prio: Priority) -> (r: PriorityWrite)
        ensures
            r == (PriorityWrite { which: Self::spec_cpu_interrupt(), priority: prio.spec_value() as u32 }),
    {
        PriorityWrite { which: CpuInterrupt::Interrupt4, priority: prio.value() as u32 }
    }

    /// The priority of the software interrupt, given the value `register` of
    /// its priority register; only the low byte of the register counts.
    pub fn priority_from_register(&self, register: u32) -> (r: Priority)
        ensures
            r == Priority::spec_from_u8((register % 256) as u8),
    {
        assert(register as u8 == register % 256) by (bit_vector);
        Priority::from_u8(register as u8)
    }

    /// Whether the software interrupt is the one being serviced, given the
    /// interrupt code of the current trap cause.
    pub fn is_active_code(&self, mcause_code: usize) -> (r: bool)
        ensures
            r == (mcause_code == 4),
    {
        mcause_code == 4
    }
}

} // verus!
