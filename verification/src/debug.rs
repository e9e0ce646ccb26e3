//! Classification of the driver's error-code register.
//!
//! The graphics API reports failures through a numeric error register that
//! is consulted explicitly after state-mutating calls.  A nonzero code is a
//! programming-contract violation, never a recoverable condition, so the
//! caller is expected to abort with the classified kind.  Reading the
//! register is an unverified driver call; classifying what was read is done
//! here.

use vstd::prelude::*;

verus! {

/// Error register value meaning "no error is pending".
pub const NO_ERROR: u32 = 0;

/// Error register value for an illegal enumerant argument.
pub const INVALID_ENUM: u32 = 0x0500;

/// Error register value for a numeric argument out of range.
pub const INVALID_VALUE: u32 = 0x0501;

/// Error register value for an operation illegal in the current state.
pub const INVALID_OPERATION: u32 = 0x0502;

/// Error register value for a command that would overflow a stack.
pub const STACK_OVERFLOW: u32 = 0x0503;

/// Error register value for a pop at the bottom of a stack.
pub const STACK_UNDERFLOW: u32 = 0x0504;

/// Error register value for memory exhaustion.
pub const OUT_OF_MEMORY: u32 = 0x0505;

/// Error register value for reading or writing an incomplete framebuffer.
pub const INVALID_FRAMEBUFFER_OPERATION: u32 = 0x0506;

/// The classified kind of a nonzero driver error code.
#[derive(Clone, Copy, Debug, PartialEq, Eq, Structural)]
pub enum GlErrorKind {
    InvalidEnum,
    InvalidValue,
    InvalidOperation,
    StackOverflow,
    StackUnderflow,
    OutOfMemory,
    InvalidFramebufferOperation,
    Unknown,
}

/// A nonzero error code together with its classification.
#[derive(Clone, Copy, Debug, PartialEq, Eq, Structural)]
pub struct GlError {
    pub kind: GlErrorKind,
    pub code: u32,
}

/// The kind that a given nonzero error code classifies to.
pub open spec fn spec_kind_of_code(code: u32) -> GlErrorKind {
    if code == INVALID_ENUM {
        GlErrorKind::InvalidEnum
    } else if code == INVALID_VALUE {
        GlErrorKind::InvalidValue
    } else if code == INVALID_OPERATION {
        GlErrorKind::InvalidOperation
    } else if code == STACK_OVERFLOW {
        GlErrorKind::StackOverflow
    } else if code == STACK_UNDERFLOW {
        GlErrorKind::StackUnderflow
    } else if code == OUT_OF_MEMORY {
        GlErrorKind::OutOfMemory
    } else if code == INVALID_FRAMEBUFFER_OPERATION {
        GlErrorKind::InvalidFramebufferOperation
    } else {
        GlErrorKind::Unknown
    }
}

/// Classifies a value read from the driver's error register.
///
/// A zero code means no error is pending; any other value is returned as a
/// classified [`GlError`] that the caller treats as fatal.
pub fn check_error(code: u32) -> (r: Result<(), GlError>)
    ensures
        code == NO_ERROR <==> r is Ok,
        code != NO_ERROR ==> r == Result::<(), GlError>::Err(
            (GlError { kind: spec_kind_of_code(code), code }),
        ),
{
    if code == NO_ERROR {
        Ok(())
    } else {
        let kind = if code == INVALID_ENUM {
            GlErrorKind::InvalidEnum
        } else if code == INVALID_VALUE {
            GlErrorKind::InvalidValue
        } else if code == INVALID_OPERATION {
            GlErrorKind::InvalidOperation
        } else if code == STACK_OVERFLOW {
            GlErrorKind::StackOverflow
        } else if code == STACK_UNDERFLOW {
            GlErrorKind::StackUnderflow
        } else if code == OUT_OF_MEMORY {
            GlErrorKind::OutOfMemory
        } else if code == INVALID_FRAMEBUFFER_OPERATION {
            GlErrorKind::InvalidFramebufferOperation
        } else {
            GlErrorKind::Unknown
        };
        Err(GlError { kind, code })
    }
}

impl GlError {
    /// The text [`GlError::message`] returns: one fixed line naming the
    /// violation kind.
    pub open spec fn spec_message(self) -> Seq<char> {
        match self.kind {
            GlErrorKind::InvalidEnum => "an enum argument is not legal for this command"@,
            GlErrorKind::InvalidValue => "a numeric argument is out of range"@,
            GlErrorKind::InvalidOperation => {
                "the command is not legal for the current state and arguments"@
            },
            GlErrorKind::StackOverflow => "a push operation overflowed a stack"@,
            GlErrorKind::StackUnderflow => "a pop operation ran at the bottom of a stack"@,
            GlErrorKind::OutOfMemory => "the driver ran out of memory"@,
            GlErrorKind::InvalidFramebufferOperation => {
                "a read or write touched an incomplete framebuffer"@
            },
            GlErrorKind::Unknown => "an unknown driver error code was reported"@,
        }
    }

    /// A human-readable description of the violation kind.
    pub fn message(&self) -> (r: &'static str)
        ensures
            r@ == self.spec_message(),
            r@.len() > 0,
    {
        proof {
            reveal_strlit("an enum argument is not legal for this command");
            reveal_strlit("a numeric argument is out of range");
            reveal_strlit("the command is not legal for the current state and arguments");
            reveal_strlit("a push operation overflowed a stack");
            reveal_strlit("a pop operation ran at the bottom of a stack");
            reveal_strlit("the driver ran out of memory");
            reveal_strlit("a read or write touched an incomplete framebuffer");
            reveal_strlit("an unknown driver error code was reported");
        }
        match self.kind {
            GlErrorKind::InvalidEnum => "an enum argument is not legal for this command",
            GlErrorKind::InvalidValue => "a numeric argument is out of range",
            GlErrorKind::InvalidOperation => {
                "the command is not legal for the current state and arguments"
            },
            GlErrorKind::StackOverflow => "a push operation overflowed a stack",
            GlErrorKind::StackUnderflow => "a pop operation ran at the bottom of a stack",
            GlErrorKind::OutOfMemory => "the driver ran out of memory",
            GlErrorKind::InvalidFramebufferOperation => {
                "a read or write touched an incomplete framebuffer"
            },
            GlErrorKind::Unknown => "an unknown driver error code was reported",
        }
    }
}

} // verus!
