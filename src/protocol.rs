use vstd::prelude::*;

verus! {

/// Protocol version 1.0.0 as carried in an entity registration.
pub const PROTOCOL_VERSION_1_0_0: u32 = 100;

/// Message kinds of the display protocol. Each has a signed 32-bit code,
/// written at offset 0 of every message.
#[allow(non_camel_case_types)]
#[derive(Debug, Clone, Copy, PartialEq, Eq, Structural)]
pub enum ProtocolCode {
    /// Server-to-client fault report; payload: a UTF-8 message.
    ProtocolError,
    ProtocolNone,
    /// Register an entity: class (UTF-8), title (UTF-16), version (u32),
    /// author (UTF-8), description (UTF-8). No reply.
    ProtocolEntityRegister,
    /// List GPUs: reply is a u32 count, then that many i32 GPU ids.
    ProtocolEnumerateGPUS,
    /// GPU information for an i32 GPU id.
    ProtocolGPUInfo,
    /// List the screens of an i32 GPU id.
    ProtocolEnumerateScreens,
    /// Screen information for an i32 GPU id and a u32 screen id.
    ProtocolScreenInfo,
}

/// The wire code of each protocol kind.
pub open spec fn protocol_code_value(p: ProtocolCode) -> i32 {
    match p {
        ProtocolCode::ProtocolError => -1i32,
        ProtocolCode::ProtocolNone => 0,
        ProtocolCode::ProtocolEntityRegister => 1,
        ProtocolCode::ProtocolEnumerateGPUS => 2,
        ProtocolCode::ProtocolGPUInfo => 3,
        ProtocolCode::ProtocolEnumerateScreens => 4,
        ProtocolCode::ProtocolScreenInfo => 5,
    }
}

/// The protocol kind of a wire code; codes without a kind read as `ProtocolNone`.
pub open spec fn protocol_code_of(code: i32) -> ProtocolCode {
    if code == -1 {
        ProtocolCode::ProtocolError
    } else if code == 1 {
        ProtocolCode::ProtocolEntityRegister
    } else if code == 2 {
        ProtocolCode::ProtocolEnumerateGPUS
    } else if code == 3 {
        ProtocolCode::ProtocolGPUInfo
    } else if code == 4 {
        ProtocolCode::ProtocolEnumerateScreens
    } else if code == 5 {
        ProtocolCode::ProtocolScreenInfo
    } else {
        ProtocolCode::ProtocolNone
    }
}

impl ProtocolCode {
    /// The signed 32-bit code sent on the wire.
    pub fn value(&self) -> (r: i32)
        ensures
            r == protocol_code_value(*self),
    {
        match self {
            ProtocolCode::ProtocolError => -1,
            ProtocolCode::ProtocolNone => 0,
            ProtocolCode::ProtocolEntityRegister => 1,
            ProtocolCode::ProtocolEnumerateGPUS => 2,
            ProtocolCode::ProtocolGPUInfo => 3,
            ProtocolCode::ProtocolEnumerateScreens => 4,
            ProtocolCode::ProtocolScreenInfo => 5,
        }
    }

    /// The kind of a received code; an unknown code gives `ProtocolNone`.
    pub fn from_code(code: i32) -> (r: ProtocolCode)
        ensures
            r == protocol_code_of(code),
    {
        match code {
            -1 => ProtocolCode::ProtocolError,
            1 => ProtocolCode::ProtocolEntityRegister,
            2 => ProtocolCode::ProtocolEnumerateGPUS,
            3 => ProtocolCode::ProtocolGPUInfo,
            4 => ProtocolCode::ProtocolEnumerateScreens,
            5 => ProtocolCode::ProtocolScreenInfo,
            _ => ProtocolCode::ProtocolNone,
        }
    }
}

/// Decoding a code after encoding gives back the same kind.
pub proof fn lemma_protocol_code_round_trip(p: ProtocolCode)
    ensures
        protocol_code_of(protocol_code_value(p)) == p,
{
}

/// Opcodes of the surface protocol.
#[allow(non_camel_case_types)]
#[derive(Debug, Clone, Copy, PartialEq, Eq, Structural)]
pub enum Protocol {
    /// Client and server initialisation.
    ProtocolTypeInit,
    ProtocolTypeTerminate,
    /// Commit of a surface.
    ProtocolTypeSurfaceCommit,
    ProtocolTypeError,
    ProtocolTypeNone,
}

/// The opcode of each surface-protocol kind.
pub open spec fn protocol_opcode(p: Protocol) -> u32 {
    match p {
        Protocol::ProtocolTypeInit => 1,
        Protocol::ProtocolTypeTerminate => 2,
        Protocol::ProtocolTypeSurfaceCommit => 3,
        Protocol::ProtocolTypeError => 4,
        Protocol::ProtocolTypeNone => 0,
    }
}

impl Protocol {
    /// The kind of an opcode; opcodes outside 1..=4 give `ProtocolTypeNone`.
    pub fn from(opcode: u32) -> (r: Protocol)
        ensures
            1 <= opcode <= 4 ==> protocol_opcode(r) == opcode,
            !(1 <= opcode <= 4) ==> r == Protocol::ProtocolTypeNone,
    {
        match opcode {
            1 => Protocol::ProtocolTypeInit,
            2 => Protocol::ProtocolTypeTerminate,
            3 => Protocol::ProtocolTypeSurfaceCommit,
            4 => Protocol::ProtocolTypeError,
            _ => Protocol::ProtocolTypeNone,
        }
    }

    /// The opcode of this kind.
    pub fn opcode(&self) -> (r: u32)
        ensures
            r == protocol_opcode(*self),
    {
        match self {
            Protocol::ProtocolTypeInit => 1,
            Protocol::ProtocolTypeTerminate => 2,
            Protocol::ProtocolTypeSurfaceCommit => 3,
            Protocol::ProtocolTypeError => 4,
            Protocol::ProtocolTypeNone => 0,
        }
    }
}

} // verus!
