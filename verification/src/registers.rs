use vstd::prelude::*;

verus! {

/// Identifier of one of the sixteen general-purpose 8-bit registers.
/// VF doubles as the collision flag of the draw operation.
#[derive(Clone, Copy, Debug, PartialEq, Eq, Structural)]
pub enum VRegister {
    V0,
    V1,
    V2,
    V3,
    V4,
    V5,
    V6,
    V7,
    V8,
    V9,
    VA,
    VB,
    VC,
    VD,
    VE,
    VF,
}

impl VRegister {
    /// Position of this register within the register file.
    pub open spec fn index_spec(self) -> int {
        match self {
            VRegister::V0 => 0x0,
            VRegister::V1 => 0x1,
            VRegister::V2 => 0x2,
            VRegister::V3 => 0x3,
            VRegister::V4 => 0x4,
            VRegister::V5 => 0x5,
            VRegister::V6 => 0x6,
            VRegister::V7 => 0x7,
            VRegister::V8 => 0x8,
            VRegister::V9 => 0x9,
            VRegister::VA => 0xA,
            VRegister::VB => 0xB,
            VRegister::VC => 0xC,
            VRegister::VD => 0xD,
            VRegister::VE => 0xE,
            VRegister::VF => 0xF,
        }
    }

    /// The register standing at position `index` of the register file.
    pub open spec fn from_index(index: int) -> VRegister {
        if index == 0x0 {
            VRegister::V0
        } else if index == 0x1 {
            VRegister::V1
        } else if index == 0x2 {
            VRegister::V2
        } else if index == 0x3 {
            VRegister::V3
        } else if index == 0x4 {
            VRegister::V4
        } else if index == 0x5 {
            VRegister::V5
        } else if index == 0x6 {
            VRegister::V6
        } else if index == 0x7 {
            VRegister::V7
        } else if index == 0x8 {
            VRegister::V8
        } else if index == 0x9 {
            VRegister::V9
        } else if index == 0xA {
            VRegister::VA
        } else if index == 0xB {
            VRegister::VB
        } else if index == 0xC {
            VRegister::VC
        } else if index == 0xD {
            VRegister::VD
        } else if index == 0xE {
            VRegister::VE
        } else {
            VRegister::VF
        }
    }

    pub fn index(self) -> (index: usize)
        ensures
            index == self.index_spec(),
    {
        match self {
            VRegister::V0 => 0x0,
            VRegister::V1 => 0x1,
            VRegister::V2 => 0x2,
            VRegister::V3 => 0x3,
            VRegister::V4 => 0x4,
            VRegister::V5 => 0x5,
            VRegister::V6 => 0x6,
            VRegister::V7 => 0x7,
            VRegister::V8 => 0x8,
            VRegister::V9 => 0x9,
            VRegister::VA => 0xA,
            VRegister::VB => 0xB,
            VRegister::VC => 0xC,
            VRegister::VD => 0xD,
            VRegister::VE => 0xE,
            VRegister::VF => 0xF,
        }
    }

    /// The register named by a nibble, V0 for 0 through VF for 15.
    /// Register nibbles are extracted by bitmask, so this cannot fail.
    pub fn from_nibble(value: u8) -> (register: VRegister)
        requires
            value < 16,
        ensures
            register == VRegister::from_index(value as int),
            register.index_spec() == value,
    {
        match value {
            0x0 => VRegister::V0,
            0x1 => VRegister::V1,
            0x2 => VRegister::V2,
            0x3 => VRegister::V3,
            0x4 => VRegister::V4,
            0x5 => VRegister::V5,
            0x6 => VRegister::V6,
            0x7 => VRegister::V7,
            0x8 => VRegister::V8,
            0x9 => VRegister::V9,
            0xA => VRegister::VA,
            0xB => VRegister::VB,
            0xC => VRegister::VC,
            0xD => VRegister::VD,
            0xE => VRegister::VE,
            _ => VRegister::VF,
        }
    }
}

/// The register file: sixteen 8-bit values indexed by `VRegister`.
pub struct Registers {
    values: Vec<u8>,
}

impl View for Registers {
    type V = Seq<u8>;

    closed spec fn view(&self) -> Seq<u8> {
        self.values@
    }
}

impl Registers {
    pub open spec fn wf(&self) -> bool {
        self@.len() == 16
    }

    pub fn get(&self, register: VRegister) -> (value: u8)
        requires
            self.wf(),
        ensures
            value == self@[register.index_spec()],
    {
        self.values[register.index()]
    }

    pub fn set(&mut self, register: VRegister, value: u8)
        requires
            old(self).wf(),
        ensures
            final(self).wf(),
            final(self)@ == old(self)@.update(register.index_spec(), value),
    {
        let index = register.index();
        self.values.set(index, value);
    }
}

impl Default for Registers {
    /// A register file with every register zeroed.
    #[verifier::loop_isolation(false)]
    fn default() -> (registers: Registers)
        ensures
            registers.wf(),
            registers@ == Seq::new(16, |i: int| 0u8),
    {
        let mut values: Vec<u8> = Vec::new();
        while values.len() < 16
            invariant
                values@.len() <= 16,
                values@ == Seq::new(values@.len(), |i: int| 0u8),
            decreases 16 - values@.len(),
        {
            values.push(0);
            proof {
                assert(values@ =~= Seq::new(values@.len(), |i: int| 0u8));
            }
        }
        Registers { values }
    }
}

} // verus!
