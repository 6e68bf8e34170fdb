//! Classification of a bus transaction by privilege mode and segment,
//! together with the hardware function-code it drives on the bus.

use vstd::prelude::*;

verus! {

/// The four kinds of ordinary bus cycle: the cross-product of
/// privilege mode (user or supervisor) and segment (program or data).
///
/// The two remaining hardware function codes (interrupt acknowledge and
/// CPU space) are deliberately unrepresented: this model only covers
/// ordinary program and data cycles, so no other combination can ever
/// be constructed.
#[derive(Copy, Clone, Debug, Hash, Eq, PartialEq, Structural)]
pub enum AddressSpace {
    SupervisorProgram,
    SupervisorData,
    UserProgram,
    UserData,
}

pub const SUPERVISOR_PROGRAM: AddressSpace = AddressSpace::SupervisorProgram;

pub const SUPERVISOR_DATA: AddressSpace = AddressSpace::SupervisorData;

pub const USER_PROGRAM: AddressSpace = AddressSpace::UserProgram;

pub const USER_DATA: AddressSpace = AddressSpace::UserData;

impl AddressSpace {
    /// The function-code that the hardware would drive for this kind of
    /// cycle: the fixed, total mapping from (mode, segment) to a code.
    pub open spec fn fc_spec(self) -> u32 {
        match self {
            AddressSpace::UserData => 1,
            AddressSpace::UserProgram => 2,
            AddressSpace::SupervisorData => 5,
            AddressSpace::SupervisorProgram => 6,
        }
    }

    /// Returns the hardware function-code for this address space.
    pub fn fc(self) -> (r: u32)
        ensures
            r == self.fc_spec(),
    {
        match self {
            AddressSpace::UserData => 1,
            AddressSpace::UserProgram => 2,
            AddressSpace::SupervisorData => 5,
            AddressSpace::SupervisorProgram => 6,
        }
    }

    /// The stable, human-readable rendering of this address space as a
    /// bracketed mode/segment pair, for trace tooling.
    pub open spec fn label_spec(self) -> Seq<char> {
        match self {
            AddressSpace::SupervisorProgram => "[Supervisor/Program]"@,
            AddressSpace::SupervisorData => "[Supervisor/Data]"@,
            AddressSpace::UserProgram => "[User/Program]"@,
            AddressSpace::UserData => "[User/Data]"@,
        }
    }

    /// Returns the bracketed mode/segment rendering, e.g. `[Supervisor/Program]`.
    pub fn label(self) -> (r: String)
        ensures
            r@ == self.label_spec(),
    {
        match self {
            AddressSpace::SupervisorProgram => "[Supervisor/Program]".to_string(),
            AddressSpace::SupervisorData => "[Supervisor/Data]".to_string(),
            AddressSpace::UserProgram => "[User/Program]".to_string(),
            AddressSpace::UserData => "[User/Data]".to_string(),
        }
    }
}

/// The function-code mapping is exact and exhaustive: each of the four
/// address spaces yields its own fixed code, and no code outside
/// {1, 2, 5, 6} is ever produced.
pub proof fn lemma_fc_codes(s: AddressSpace)
    ensures
        (s.fc_spec() == 6) == (s == AddressSpace::SupervisorProgram),
        (s.fc_spec() == 5) == (s == AddressSpace::SupervisorData),
        (s.fc_spec() == 2) == (s == AddressSpace::UserProgram),
        (s.fc_spec() == 1) == (s == AddressSpace::UserData),
        s.fc_spec() == 1 || s.fc_spec() == 2 || s.fc_spec() == 5 || s.fc_spec() == 6,
{
}

} // verus!
