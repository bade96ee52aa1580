use vstd::prelude::*;
use vstd::string::StringExecFns;
use crate::utils::{hex2, hex4, push_hex2, push_hex4};

verus! {

/// The kind of an error.
#[derive(Clone, Copy, Debug, PartialEq, Eq)]
pub enum ErrorKind {
    IO,
    InvalidInput,
    Validation,
    /// An opcode with no entry in the instruction tables.
    UnknownInstruction,
}

/// The text of each kind.
pub open spec fn kind_text(k: ErrorKind) -> Seq<char> {
    match k {
        ErrorKind::IO => "IO error"@,
        ErrorKind::InvalidInput => "Invalid input"@,
        ErrorKind::Validation => "Validation error"@,
        ErrorKind::UnknownInstruction => "Unknown instruction"@,
    }
}

impl ErrorKind {
    /// A short description of the kind.
    pub fn as_str(&self) -> (r: &'static str)
        ensures
            r@ == kind_text(*self),
    {
        match self {
            ErrorKind::IO => "IO error",
            ErrorKind::InvalidInput => "Invalid input",
            ErrorKind::Validation => "Validation error",
            ErrorKind::UnknownInstruction => "Unknown instruction",
        }
    }
}

/// What an error carries besides its kind.
#[derive(Debug)]
pub enum Detail {
    Empty,
    Message(String),
    /// The offending opcode and the address it was read from.
    Instruction { opcode: u8, addr: u16 },
}

/// An error of the emulator.
#[derive(Debug)]
pub struct Error {
    pub kind: ErrorKind,
    pub detail: Detail,
}

/// The text of an error: its message if it has one, the opcode and address
/// (lower-case hex) for an unknown instruction, else the text of its kind.
pub open spec fn error_text(e: Error) -> Seq<char> {
    match e.detail {
        Detail::Empty => kind_text(e.kind),
        Detail::Message(m) => m@,
        Detail::Instruction { opcode, addr } => "Unimplemented opcode "@ + hex2(opcode, false) + "@"@
            + hex4(addr, false),
    }
}

impl Error {
    /// An error of `kind` with a message.
    pub fn new(kind: ErrorKind, message: String) -> (r: Error)
        ensures
            r.kind == kind,
            r.detail == Detail::Message(message),
    {
        Error { kind, detail: Detail::Message(message) }
    }

    /// An error of `kind` with nothing more to say.
    pub fn simple(kind: ErrorKind) -> (r: Error)
        ensures
            r.kind == kind,
            r.detail == Detail::Empty,
    {
        Error { kind, detail: Detail::Empty }
    }

    /// The fatal error for `opcode`, read from `addr`, having no table entry.
    pub fn unknown_instruction(opcode: u8, addr: u16) -> (r: Error)
        ensures
            r.kind == ErrorKind::UnknownInstruction,
            r.detail == (Detail::Instruction { opcode, addr }),
    {
        Error { kind: ErrorKind::UnknownInstruction, detail: Detail::Instruction { opcode, addr } }
    }

    /// The kind of this error.
    pub fn kind(&self) -> (r: ErrorKind)
        ensures
            r == self.kind,
    {
        self.kind
    }

    /// The text of this error.
    pub fn message(&self) -> (r: String)
        ensures
            r@ == error_text(*self),
    {
        match &self.detail {
            Detail::Empty => String::from_str(self.kind.as_str()),
            Detail::Message(m) => m.clone(),
            Detail::Instruction { opcode, addr } => {
                let mut out = String::from_str("Unimplemented opcode ");
                push_hex2(&mut out, *opcode, false);
                out.append("@");
                push_hex4(&mut out, *addr, false);
                out
            },
        }
    }

    /// The offending opcode and its address, for an unknown instruction.
    pub fn instruction(&self) -> (r: Option<(u8, u16)>)
        ensures
            r == match self.detail {
                Detail::Instruction { opcode, addr } => Some((opcode, addr)),
                _ => None,
            },
    {
        match &self.detail {
            Detail::Instruction { opcode, addr } => Some((*opcode, *addr)),
            _ => None,
        }
    }
}

} // verus!
