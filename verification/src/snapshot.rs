//! What a stopped target shows: registers, stack, memory maps and code.

use vstd::prelude::*;

verus! {

#[derive(Debug, Clone, Copy, PartialEq, Eq, Structural)]
pub enum RegisterArch {
    X86_64,
}

#[derive(Debug, Clone, Copy, PartialEq, Eq, Structural)]
pub enum RegisterRole {
    InstructionPointer,
    StackPointer,
    FramePointer,
    ReturnValue,
    Argument,
    General,
    Flags,
}

#[derive(Debug, Clone, PartialEq, Eq)]
pub struct RegisterValue {
    pub name: String,
    pub value: u64,
    pub role: Option<RegisterRole>,
}

#[derive(Debug, Clone, PartialEq, Eq)]
pub struct RegisterSnapshot {
    pub arch: RegisterArch,
    pub instruction_pointer: u64,
    pub stack_pointer: u64,
    pub frame_pointer: u64,
    pub registers: Vec<RegisterValue>,
}

#[derive(Debug, Clone, PartialEq, Eq)]
pub struct StackWord {
    pub offset_from_sp: i64,
    pub address: u64,
    pub value: u64,
    pub annotation: Option<String>,
}

#[derive(Debug, Clone, PartialEq, Eq)]
pub struct StackSnapshot {
    pub stack_pointer: u64,
    pub word_size: usize,
    pub words: Vec<StackWord>,
    pub truncated: bool,
    pub read_error: Option<String>,
}

#[derive(Debug, PartialEq, Eq)]
pub struct ProcessMapEntry {
    pub start: u64,
    pub end: u64,
    pub permissions: String,
    pub offset: u64,
    pub device: Option<String>,
    pub inode: Option<u64>,
    pub pathname: Option<String>,
}

fn copy_opt(s: &Option<String>) -> (r: Option<String>)
    ensures
        r == *s,
{
    match s {
        Some(t) => Some(t.clone()),
        None => None,
    }
}

impl Clone for ProcessMapEntry {
    fn clone(&self) -> (r: ProcessMapEntry)
        ensures
            r == *self,
    {
        ProcessMapEntry {
            start: self.start,
            end: self.end,
            permissions: self.permissions.clone(),
            offset: self.offset,
            device: copy_opt(&self.device),
            inode: self.inode,
            pathname: copy_opt(&self.pathname),
        }
    }
}

#[derive(Debug, Clone, PartialEq, Eq)]
pub struct ProcessMapsSnapshot {
    pub entries: Vec<ProcessMapEntry>,
}

/// A place in a source file.
#[derive(Debug, Clone, PartialEq, Eq)]
pub struct SourceLocation {
    pub file: Option<String>,
    pub line: Option<u32>,
    pub column: Option<u32>,
}

/// An address with the symbol that covers it.
#[derive(Debug, Clone, PartialEq, Eq)]
pub struct SymbolizedAddress {
    pub addr: u64,
    pub object_name: Option<String>,
    pub symbol: String,
    pub symbol_addr: u64,
    pub offset: u64,
    pub source: Option<SourceLocation>,
}

/// What an instruction does to the flow of control.
#[derive(Debug, Clone, Copy, PartialEq, Eq, Structural)]
pub enum DisassemblyFlowControl {
    Call,
    ConditionalBranch,
    UnconditionalBranch,
    Return,
    Other,
}

#[derive(Debug, Clone, PartialEq, Eq)]
pub struct DisassemblyLine {
    pub address: u64,
    pub bytes: Vec<u8>,
    pub mnemonic: String,
    pub operands: String,
    pub text: String,
    pub is_current: bool,
    pub flow_control: Option<DisassemblyFlowControl>,
    pub target: Option<u64>,
    pub target_annotation: Option<String>,
}

#[derive(Debug, Clone, PartialEq, Eq)]
pub struct DisassemblySnapshot {
    pub instruction_pointer: u64,
    pub start_address: u64,
    pub end_address: u64,
    pub lines: Vec<DisassemblyLine>,
    pub truncated_before: bool,
    pub truncated_after: bool,
    pub read_error: Option<String>,
}

/// The code around the instruction pointer.
#[derive(Debug, Clone, PartialEq, Eq)]
pub struct CodeContext {
    pub instruction_pointer: u64,
    pub symbol: Option<String>,
    pub symbol_addr: Option<u64>,
    pub symbol_offset: Option<u64>,
    pub object: Option<String>,
    pub source: Option<SourceLocation>,
    pub disassembly: Option<DisassemblySnapshot>,
}

/// A kind of mapped memory.
#[derive(Debug, Clone, Copy, PartialEq, Eq, Structural)]
pub enum AddressRegionKind {
    Heap,
    Stack,
    Vdso,
    Vvar,
    Vsvar,
    Libc,
    Loader,
    Anonymous,
    Code,
    MappedFile,
    Unknown,
}

/// How an address relates to the heap chunk that it is in.
#[derive(Debug, Clone, Copy, PartialEq, Eq, Structural)]
pub enum HeapAddressDetail {
    UserPointer { chunk_addr: u64, user_addr: u64 },
    ChunkHeader { chunk_addr: u64, user_addr: u64 },
    Interior { chunk_addr: u64, user_addr: u64, offset: u64 },
}

/// What an address points to.
#[derive(Debug, Clone, PartialEq, Eq)]
pub struct AddressClassification {
    pub address: u64,
    pub kind: AddressRegionKind,
    pub label: String,
    pub map: Option<ProcessMapEntry>,
    pub heap_detail: Option<HeapAddressDetail>,
    pub symbol: Option<String>,
}

/// A register as it is shown.
#[derive(Debug, Clone, PartialEq, Eq)]
pub struct RenderedRegisterLine {
    pub name: String,
    pub value: String,
    pub role: Option<RegisterRole>,
    pub changed: bool,
    pub annotation: Option<String>,
}

} // verus!
