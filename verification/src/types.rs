use vstd::prelude::*;

verus! {

pub const COMPILER_MAJOR_VERSION: u16 = 1;

pub const COMPILER_MINOR_VERSION: u16 = 0;

pub const COMPILER_PATCH_VERSION: u16 = 0;

/// The data type of local variables and of data in the data sections.
#[derive(Debug, PartialEq, Eq, Clone, Copy, Structural)]
pub enum DataType {
    I32,
    I64,
    F32,
    F64,
}

/// The data type of a value in memory.
#[derive(Debug, PartialEq, Eq, Clone, Copy, Structural)]
pub enum MemoryDataType {
    I32,
    I64,
    F32,
    F64,
    Bytes,
}

/// Whether a module belongs to the user or is shared.
#[derive(Debug, PartialEq, Eq, Clone, Copy, Structural)]
pub enum ModuleShareType {
    User,
    Share,
}

/// The kind of section that a data object is placed in.
#[derive(Debug, PartialEq, Eq, Clone, Copy, Structural)]
pub enum DataSectionType {
    ReadOnly,
    ReadWrite,
    Uninit,
    ThreadLocalReadWrite,
    ThreadLocalUninit,
}

/// The operation of an atomic read-modify-write instruction.
#[derive(Debug, PartialEq, Eq, Clone, Copy, Structural)]
pub enum RmwOp {
    Add,
    Sub,
    And,
    Nand,
    Or,
    Xor,
    Exchange,
}

impl DataSectionType {
    /// The name of the section kind as it is written in assembly text.
    pub open spec fn spec_name(self) -> Seq<char> {
        match self {
            DataSectionType::ReadOnly => "read_only"@,
            DataSectionType::ReadWrite => "read_write"@,
            DataSectionType::Uninit => "uninit"@,
            DataSectionType::ThreadLocalReadWrite => "thread_local_read_write"@,
            DataSectionType::ThreadLocalUninit => "thread_local_uninit"@,
        }
    }

    /// Gives the name of the section kind as it is written in assembly text.
    pub fn name(self) -> (name: &'static str)
        ensures
            name@ == self.spec_name(),
    {
        match self {
            DataSectionType::ReadOnly => "read_only",
            DataSectionType::ReadWrite => "read_write",
            DataSectionType::Uninit => "uninit",
            DataSectionType::ThreadLocalReadWrite => "thread_local_read_write",
            DataSectionType::ThreadLocalUninit => "thread_local_uninit",
        }
    }
}

} // verus!
