//! The kernel's access to user memory.
//!
//! Processors that can forbid the kernel to access user memory have a bit for
//! that, privileged access never, which is set while access is forbidden.

use vstd::prelude::*;

verus! {

/// The privileged access never bit; `None` on a processor without it, where user
/// memory is always accessible.
#[derive(Debug, Clone, Copy, PartialEq, Eq)]
pub struct UserAccess {
    pub pan: Option<bool>,
}

/// What happened last while an instruction is read.
#[derive(Debug, Clone, Copy, PartialEq, Eq)]
pub enum OpcodeEvent {
    Begin,
    /// Access was allowed or not before, and the word read.
    Loaded { allowed: bool, opcode: u32 },
}

/// What to do next while an instruction is read.
#[derive(Debug, Clone, Copy, PartialEq, Eq)]
pub enum OpcodeAction {
    /// Read the word at the address; access was allowed or not before.
    Load { pc: u64, allowed: bool },
    Return(Option<u32>),
}

impl UserAccess {
    /// Whether the kernel may access user memory.
    pub open spec fn allowed(self) -> bool {
        match self.pan {
            Some(pan) => !pan,
            None => true,
        }
    }

    /// The bit after access was allowed or forbidden, where there is such a bit.
    pub open spec fn set(self, allow: bool) -> UserAccess {
        match self.pan {
            Some(_) => UserAccess { pan: Some(!allow) },
            None => self,
        }
    }
}

/// Allows access to user memory, and tells whether it was allowed before.
pub fn enable_access_user(access: &mut UserAccess) -> (r: bool)
    ensures
        r == old(access).allowed(),
        *final(access) == old(access).set(true),
{
    match access.pan {
        Some(pan) => {
            let allow: bool = !pan;
            access.pan = Some(false);
            allow
        },
        None => true,
    }
}

/// Resets access to user memory, as to a state that [`enable_access_user`] told:
/// it is allowed or forbidden. Tells whether it was allowed before.
pub fn set_access_user(access: &mut UserAccess, _allow: bool) -> (r: bool)
    ensures
        r == old(access).allowed(),
        *final(access) == old(access).set(_allow),
{
    match access.pan {
        Some(pan) => {
            access.pan = Some(!_allow);
            !pan
        },
        None => true,
    }
}

/// How the reading of an instruction proceeds, and the bit after that.
pub open spec fn opcode_step(access: UserAccess, pc: u64, event: OpcodeEvent) -> (
    OpcodeAction,
    UserAccess,
) {
    match event {
        OpcodeEvent::Begin => if pc % 4 == 0 {
            (OpcodeAction::Load { pc, allowed: access.allowed() }, access.set(true))
        } else {
            (OpcodeAction::Return(None), access)
        },
        OpcodeEvent::Loaded { allowed, opcode } => (
            OpcodeAction::Return(Some(opcode)),
            access.set(allowed),
        ),
    }
}

/// Reads the instruction at `pc` in user memory, which must be present. There is
/// none at an address that is no multiple of four. Access is allowed for the
/// time of the read.
pub fn read_user_opcode(access: &mut UserAccess, pc: u64, event: OpcodeEvent) -> (r: OpcodeAction)
    ensures
        (r, *final(access)) == opcode_step(*old(access), pc, event),
{
    match event {
        OpcodeEvent::Begin => {
            assert(pc & 0b11 == pc % 4) by (bit_vector);
            if pc & 0b11 != 0 {
                return OpcodeAction::Return(None);
            }
            let allowed: bool = enable_access_user(access);
            OpcodeAction::Load { pc, allowed }
        },
        OpcodeEvent::Loaded { allowed, opcode } => {
            let _ = set_access_user(access, allowed);
            OpcodeAction::Return(Some(opcode))
        },
    }
}

/// Allowing access makes user memory accessible, on every processor.
pub proof fn enabling_allows_access(access: UserAccess)
    ensures
        access.set(true).allowed(),
{
}

/// Setting access to what it was before it was allowed restores the bit.
pub proof fn access_is_restored(access: UserAccess)
    ensures
        access.set(true).set(access.allowed()) == access,
{
}

/// An instruction at a multiple of four is read while access is allowed; whatever
/// word is there is returned, and the bit is as it was before. At other addresses
/// nothing is read and the bit is not touched.
pub proof fn reading_an_opcode_leaves_access_alone(access: UserAccess, pc: u64, opcode: u32)
    ensures
        ({
            let (action, during) = opcode_step(access, pc, OpcodeEvent::Begin);
            if pc % 4 == 0 {
                &&& action matches OpcodeAction::Load { pc: at, allowed }
                &&& at == pc
                &&& during.allowed()
                &&& opcode_step(during, pc, OpcodeEvent::Loaded { allowed, opcode }) == (
                    OpcodeAction::Return(Some(opcode)),
                    access,
                )
            } else {
                action == OpcodeAction::Return(None) && during == access
            }
        }),
{
}

/// Access is allowed exactly if there is no bit or it is clear. Setting access gives the
/// bit, where there is one, the opposite of what is allowed, and makes none where there
/// is none.
pub proof fn bit_is_set_while_access_is_forbidden(access: UserAccess, allow: bool)
    ensures
        access.allowed() <==> access.pan != Some(true),
        access.pan is None <==> access.set(allow).pan is None,
        access.pan is Some ==> (access.set(allow).pan matches Some(pan) && pan == !allow),
        access.pan is Some ==> access.set(allow).allowed() == allow,
{
}

/// An instruction is read exactly at the address asked for, exactly if that is a
/// multiple of four, with the bit clear; and exactly what is read is returned, with
/// access as it was told before the read.
pub proof fn opcode_is_read_where_asked(
    access: UserAccess,
    pc: u64,
    allowed: bool,
    opcode: u32,
)
    ensures
        opcode_step(access, pc, OpcodeEvent::Begin).0 matches OpcodeAction::Load {
            pc: at,
            allowed: before,
        } ==> {
            &&& at == pc
            &&& pc % 4 == 0
            &&& before <==> access.pan != Some(true)
            &&& opcode_step(access, pc, OpcodeEvent::Begin).1.pan != Some(true)
            &&& opcode_step(access, pc, OpcodeEvent::Begin).1.pan is None <==> access.pan is None
        },
        opcode_step(access, pc, OpcodeEvent::Begin).0 matches OpcodeAction::Return(r) ==> {
            &&& r is None
            &&& pc % 4 != 0
            &&& opcode_step(access, pc, OpcodeEvent::Begin).1.pan == access.pan
        },
        opcode_step(access, pc, OpcodeEvent::Loaded { allowed, opcode }).0 matches
            OpcodeAction::Return(Some(word)) && word == opcode,
        opcode_step(access, pc, OpcodeEvent::Loaded { allowed, opcode }).1.pan is None
            <==> access.pan is None,
        access.pan is Some ==> (opcode_step(
            access,
            pc,
            OpcodeEvent::Loaded { allowed, opcode },
        ).1.pan matches Some(pan) && pan == !allowed),
{
}

} // verus!
