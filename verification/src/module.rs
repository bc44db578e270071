//! The decoded module: value types, function types, section entries, and the
//! module structure the execution engine consumes read-only.

use vstd::prelude::*;

use crate::instruction::{
    BlockType, Expr, BLOCK_TYPE_EMPTY, BLOCK_TYPE_F32, BLOCK_TYPE_F64, BLOCK_TYPE_I32,
    BLOCK_TYPE_I64,
};

verus! {

/// Bytes in one page of linear memory.
pub const PAGE_SIZE: usize = 65536;

/// Largest page count a memory may reach when no maximum is declared.
pub const MAX_PAGE_COUNT: usize = 65536;

/// The value types of the bytecode: four numeric types and the function
/// reference type that only tables hold.
#[derive(Clone, Copy, PartialEq, Eq, Structural, Debug)]
pub enum ValType {
    I32,
    I64,
    F32,
    F64,
    FuncRef,
}

/// The binary encoding of a value type, if the byte encodes one.
pub open spec fn spec_val_type_of_byte(b: u8) -> Option<ValType> {
    if b == 0x7F {
        Option::Some(ValType::I32)
    } else if b == 0x7E {
        Option::Some(ValType::I64)
    } else if b == 0x7D {
        Option::Some(ValType::F32)
    } else if b == 0x7C {
        Option::Some(ValType::F64)
    } else if b == 0x70 {
        Option::Some(ValType::FuncRef)
    } else {
        Option::None
    }
}

impl ValType {
    /// Decode a value type from its binary tag.
    pub fn from_byte(b: u8) -> (r: Option<ValType>)
        ensures
            r == spec_val_type_of_byte(b),
    {
        if b == 0x7F {
            Option::Some(ValType::I32)
        } else if b == 0x7E {
            Option::Some(ValType::I64)
        } else if b == 0x7D {
            Option::Some(ValType::F32)
        } else if b == 0x7C {
            Option::Some(ValType::F64)
        } else if b == 0x70 {
            Option::Some(ValType::FuncRef)
        } else {
            Option::None
        }
    }
}

/// A function signature: parameter types and result types, equal exactly when
/// both sequences are equal.
pub struct FuncType {
    pub params_types: Vec<ValType>,
    pub result_types: Vec<ValType>,
}

/// Element-wise equality of two value-type vectors.
fn val_types_eq(a: &Vec<ValType>, b: &Vec<ValType>) -> (r: bool)
    ensures
        r <==> a@ == b@,
{
    if a.len() != b.len() {
        proof {
            assert(a@.len() != b@.len());
        }
        return false;
    }
    let mut i: usize = 0;
    while i < a.len()
        invariant
            i <= a.len(),
            a@.len() == b@.len(),
            forall|j: int| 0 <= j < i ==> a@[j] == b@[j],
        decreases a.len() - i,
    {
        if a[i] != b[i] {
            return false;
        }
        i += 1;
    }
    proof {
        assert(a@ =~= b@);
    }
    true
}

impl FuncType {
    /// Structural equality of two signatures.
    pub fn same_signature(&self, other: &FuncType) -> (r: bool)
        ensures
            r <==> (self.params_types@ == other.params_types@ && self.result_types@
                == other.result_types@),
    {
        val_types_eq(&self.params_types, &other.params_types) && val_types_eq(
            &self.result_types,
            &other.result_types,
        )
    }

    /// A copy of this signature with the same parameter and result sequences.
    pub fn clone_type(&self) -> (r: FuncType)
        ensures
            r.params_types@ == self.params_types@,
            r.result_types@ == self.result_types@,
    {
        FuncType { params_types: self.params_types.clone(), result_types: self.result_types.clone() }
    }
}

/// Lower and optional upper bound on a table's element count or a memory's
/// page count.
#[derive(Clone, Copy)]
pub struct Limits {
    pub min: usize,
    pub max: Option<usize>,
}

/// A table's element type and size limits.
#[derive(Clone, Copy)]
pub struct TableType {
    pub elem_type: ValType,
    pub limits: Limits,
}

/// A global's value type and mutability.
#[derive(Clone, Copy)]
pub struct GlobalType {
    pub val_type: ValType,
    pub mutable: bool,
}

/// A global declaration: its type and its constant initialiser expression.
pub struct Global {
    pub global_type: GlobalType,
    pub init_expr: Expr,
}

/// An import entry: module name, member name, and what is imported.
pub struct Import {
    pub module_name: String,
    pub member_name: String,
    pub desc: ImportDesc,
}

/// The binary tag of an import description.
pub enum ImportTag {
    Func,
    Table,
    Mem,
    Global,
}

/// What an import brings in: a function (by type index), a table, a memory or
/// a global.
pub enum ImportDesc {
    Func(u32),
    Table(TableType),
    Mem(Limits),
    Global(GlobalType),
}

/// An export entry: its name and what it designates.
pub struct Export {
    pub name: String,
    pub desc: ExportDesc,
}

/// What an export designates, by index into the matching index space.
pub enum ExportDesc {
    Func(u32),
    Table(u32),
    Mem(u32),
    Global(u32),
}

/// An element segment: table index, offset expression, and the function
/// indices written from that offset on.
pub struct Elem {
    pub table: u32,
    pub offset: Expr,
    pub init: Vec<u32>,
}

/// A run of `n` locals that share one value type.
#[derive(Clone, Copy)]
pub struct Locals {
    pub n: u32,
    pub val_type: ValType,
}

/// A function body: its local groups and its instruction sequence.
pub struct Code {
    pub locals: Vec<Locals>,
    pub expr: Expr,
}

/// Sum of the group counts of a prefix of a locals vector.
pub open spec fn spec_local_count(locals: Seq<Locals>) -> int
    decreases locals.len(),
{
    if locals.len() == 0 {
        0
    } else {
        spec_local_count(locals.drop_last()) + locals.last().n
    }
}

impl Code {
    /// Total number of locals, the sum of all group counts; saturates at
    /// `u64::MAX` (unreachable for any decodable body).
    pub fn get_local_count(&self) -> (r: u64)
        ensures
            spec_local_count(self.locals@) <= u64::MAX ==> r == spec_local_count(self.locals@),
            spec_local_count(self.locals@) > u64::MAX ==> r == u64::MAX,
    {
        let mut n: u64 = 0;
        let mut i: usize = 0;
        while i < self.locals.len()
            invariant
                i <= self.locals@.len(),
                spec_local_count(self.locals@.take(i as int)) <= u64::MAX ==> n == spec_local_count(
                    self.locals@.take(i as int),
                ),
                spec_local_count(self.locals@.take(i as int)) > u64::MAX ==> n == u64::MAX,
                n <= spec_local_count(self.locals@.take(i as int)),
            decreases self.locals@.len() - i,
        {
            proof {
                assert(self.locals@.take(i + 1).drop_last() =~= self.locals@.take(i as int));
                assert(self.locals@.take(i + 1).last() == self.locals@[i as int]);
            }
            n = match n.checked_add(self.locals[i].n as u64) {
                Option::Some(m) => m,
                Option::None => u64::MAX,
            };
            i += 1;
        }
        proof {
            assert(self.locals@.take(self.locals@.len() as int) =~= self.locals@);
        }
        n
    }
}

/// A data segment: memory index, offset expression, and the bytes written.
pub struct Data {
    pub mem: u32,
    pub offset: Expr,
    pub init: Vec<u8>,
}

/// A custom section: its name and its uninterpreted payload.
pub struct CustomSec {
    pub name: String,
    pub bytes: Vec<u8>,
}

/// The decoded module: header fields and one vector per section.
pub struct Module {
    pub magic: u32,
    pub version: u32,
    pub custom_sec: Vec<CustomSec>,
    pub type_sec: Vec<FuncType>,
    pub import_sec: Vec<Import>,
    pub func_sec: Vec<u32>,
    pub table_sec: Vec<TableType>,
    pub mem_sec: Vec<Limits>,
    pub global_sec: Vec<Global>,
    pub export_sec: Vec<Export>,
    pub start_sec: Option<u32>,
    pub elem_sec: Vec<Elem>,
    pub code_sec: Vec<Code>,
    pub data_sec: Vec<Data>,
}

/// Whether a block-type immediate is meaningful for this module: one of the
/// negative short forms, or an index into the type section.
pub open spec fn spec_valid_block_type(m: &Module, block_type: i32) -> bool {
    block_type == BLOCK_TYPE_I32 || block_type == BLOCK_TYPE_I64 || block_type == BLOCK_TYPE_F32
        || block_type == BLOCK_TYPE_F64 || block_type == BLOCK_TYPE_EMPTY || (0 <= block_type
        && block_type < m.type_sec@.len())
}

/// The parameter types a block type denotes.
pub open spec fn spec_block_params(m: &Module, block_type: i32) -> Seq<ValType> {
    if 0 <= block_type && block_type < m.type_sec@.len() {
        m.type_sec@[block_type as int].params_types@
    } else {
        Seq::empty()
    }
}

/// The result types a block type denotes.
pub open spec fn spec_block_results(m: &Module, block_type: i32) -> Seq<ValType> {
    if block_type == BLOCK_TYPE_I32 {
        seq![ValType::I32]
    } else if block_type == BLOCK_TYPE_I64 {
        seq![ValType::I64]
    } else if block_type == BLOCK_TYPE_F32 {
        seq![ValType::F32]
    } else if block_type == BLOCK_TYPE_F64 {
        seq![ValType::F64]
    } else if 0 <= block_type && block_type < m.type_sec@.len() {
        m.type_sec@[block_type as int].result_types@
    } else {
        Seq::empty()
    }
}

impl Module {
    /// Resolve a block-type immediate: a short form denotes at most one result
    /// and no parameters, a non-negative value indexes the type section.
    /// Yields nothing on a malformed immediate.
    pub fn get_block_type(&self, block_type: BlockType) -> (r: Option<FuncType>)
        ensures
            r is Some <==> spec_valid_block_type(self, block_type),
            r matches Some(ft) ==> ft.params_types@ == spec_block_params(self, block_type)
                && ft.result_types@ == spec_block_results(self, block_type),
    {
        if block_type == BLOCK_TYPE_I32 {
            Option::Some(FuncType { params_types: Vec::new(), result_types: vec![ValType::I32] })
        } else if block_type == BLOCK_TYPE_I64 {
            Option::Some(FuncType { params_types: Vec::new(), result_types: vec![ValType::I64] })
        } else if block_type == BLOCK_TYPE_F32 {
            Option::Some(FuncType { params_types: Vec::new(), result_types: vec![ValType::F32] })
        } else if block_type == BLOCK_TYPE_F64 {
            Option::Some(FuncType { params_types: Vec::new(), result_types: vec![ValType::F64] })
        } else if block_type == BLOCK_TYPE_EMPTY {
            Option::Some(FuncType { params_types: Vec::new(), result_types: Vec::new() })
        } else if block_type >= 0 && (block_type as usize) < self.type_sec.len() {
            Option::Some(self.type_sec[block_type as usize].clone_type())
        } else {
            Option::None
        }
    }
}

} // verus!
