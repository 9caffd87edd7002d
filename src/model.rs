//! The reflected type library, held as plain values.
use vstd::prelude::*;

verus! {

/// A GUID as its four fields; `data4` holds its eight trailing bytes, first byte highest.
#[derive(Clone, Copy, Debug)]
pub struct Guid {
    pub data1: u32,
    pub data2: u16,
    pub data3: u16,
    pub data4: u64,
}

/// The kind of a type entry.
#[derive(Clone, Copy, Debug)]
pub enum TypeKind {
    Enum,
    Record,
    Module,
    Interface,
    Dispatch,
    CoClass,
    Alias,
    Union,
    /// A kind code outside the known set.
    Other(i32),
}

/// How a method is invoked.
#[derive(Clone, Copy, Debug)]
pub enum InvokeKind {
    Func,
    PropGet,
    PropPut,
    PropPutRef,
}

/// A reference to a named type.
#[derive(Clone, Debug)]
pub enum TypeRef {
    /// An entry of the same library, by ordinal.
    Local(usize),
    /// A type of another library, already looked up by name.
    Foreign { name: String, kind: TypeKind },
    /// A reference that could not be followed.
    Unresolved,
}

/// A type descriptor: a primitive variant tag, a pointer, or a named type.
#[derive(Debug)]
pub enum TypeDesc {
    Prim(u16),
    Ptr(Box<TypeDesc>),
    User(TypeRef),
}

/// A tagged constant: a parameter's default value or a custom-data value.
#[derive(Clone, Debug)]
pub enum Literal {
    Short(i16),
    Long(i32),
    /// A floating-point value, already rendered as text.
    Real(String),
    Bool(bool),
    Text(String),
    Empty,
    Null,
    /// A value of another variant tag.
    Other(u16),
}

/// One parameter of a function description.
#[derive(Debug)]
pub struct ParamDesc {
    pub name: Option<String>,
    pub ty: TypeDesc,
    /// Parameter flag bits: in 1, out 2, lcid 4, retval 8, optional 16, has-default 32.
    pub flags: u16,
    pub default: Option<Literal>,
}

/// One function of a type entry.
#[derive(Debug)]
pub struct FuncDesc {
    pub memid: i32,
    pub name: String,
    pub doc: String,
    pub invkind: InvokeKind,
    pub ret: TypeDesc,
    pub params: Vec<ParamDesc>,
    /// The library named by the function's linkage, where it has one.
    pub dll_name: Option<String>,
}

/// One variable of a type entry: an enum value, a record field, a constant or a property.
#[derive(Debug)]
pub struct VarDesc {
    pub memid: i32,
    pub name: String,
    pub ty: TypeDesc,
    pub value: Option<i32>,
}

/// A vendor annotation.
#[derive(Clone, Debug)]
pub struct CustomDatum {
    pub guid: Guid,
    pub value: Literal,
}

/// One implemented (or inherited) type, with its implementation flag bits.
#[derive(Debug)]
pub struct ImplType {
    pub target: TypeRef,
    pub flags: i32,
}

/// One type entry. Functions and variables that could not be read are `None`.
#[derive(Debug)]
pub struct TypeEntry {
    pub name: String,
    pub doc: String,
    pub kind: TypeKind,
    pub guid: Guid,
    pub major: u16,
    pub minor: u16,
    /// Type flag bits: hidden 0x10, dual 0x40, nonextensible 0x80, oleautomation 0x100,
    /// restricted 0x200, dispatchable 0x1000.
    pub flags: u16,
    pub custom: Vec<CustomDatum>,
    pub impls: Vec<ImplType>,
    pub funcs: Vec<Option<FuncDesc>>,
    pub vars: Vec<Option<VarDesc>>,
    /// For an alias, the type it names.
    pub alias_of: Option<TypeDesc>,
}

/// A whole type library. Entries that could not be read are `None`.
#[derive(Debug)]
pub struct TypeLib {
    pub name: String,
    pub doc: String,
    pub guid: Guid,
    pub major: u16,
    pub minor: u16,
    pub custom: Vec<CustomDatum>,
    pub entries: Vec<Option<TypeEntry>>,
}

} // verus!
