//! A loaded type library and the per-type queries made on it.
use vstd::prelude::*;
use vstd::string::*;
use crate::emit::{entry_text, print_type_info};
use crate::idl::{
    enum_item_view, get_enum_info, get_function_info, is_hidden_id, method_view, EnumItemInfo,
    MethodInfo,
};
use crate::model::{FuncDesc, TypeEntry, TypeKind, TypeLib, VarDesc};

verus! {

/// Why a query on the library failed.
#[derive(Clone, Copy, Debug, PartialEq, Eq, Structural)]
pub enum Error {
    /// The library could not be loaded.
    LoadTypeLibraryError,
    /// No library has been loaded.
    TypeLibNotLoaded,
    /// The entry does not exist or could not be read.
    TypeInfoUnavailable,
}

/// A type library, once loaded.
pub struct TypeLibInfo {
    pub tlib: Option<TypeLib>,
}

/// The entry at `index` of a loaded library, where it exists and was read.
pub open spec fn entry_at(info: TypeLibInfo, index: int) -> Option<TypeEntry> {
    match info.tlib {
        Some(l) => if 0 <= index < l.entries@.len() {
            l.entries@[index]
        } else {
            None
        },
        None => None,
    }
}

/// The error a query on entry `index` gives, if any.
pub open spec fn lookup_error(info: TypeLibInfo, index: int) -> Option<Error> {
    if info.tlib is None {
        Some(Error::TypeLibNotLoaded)
    } else if entry_at(info, index) is None {
        Some(Error::TypeInfoUnavailable)
    } else {
        None
    }
}

/// The entries of a loaded library, or none.
pub open spec fn entries_of(info: TypeLibInfo) -> Seq<Option<TypeEntry>> {
    match info.tlib {
        Some(l) => l.entries@,
        None => Seq::empty(),
    }
}

/// The display name of a type kind.
pub open spec fn kind_name(k: TypeKind) -> Seq<char> {
    match k {
        TypeKind::Enum => "Enum"@,
        TypeKind::Record => "Record"@,
        TypeKind::Module => "Module"@,
        TypeKind::Interface => "Interface"@,
        TypeKind::Dispatch => "Dispatch"@,
        TypeKind::CoClass => "CoClass"@,
        TypeKind::Alias => "Alias"@,
        TypeKind::Union => "Union"@,
        TypeKind::Other(_) => "Unknown"@,
    }
}

/// The methods of a list of functions, in order: unreadable ones and base-interface ones are left out.
pub open spec fn methods_view(entries: Seq<Option<TypeEntry>>, fs: Seq<Option<FuncDesc>>) -> Seq<
    (Seq<char>, Seq<char>, Seq<(Seq<char>, Seq<char>, Seq<Seq<char>>)>, Seq<char>),
>
    decreases fs.len(),
{
    if fs.len() == 0 {
        Seq::empty()
    } else {
        methods_view(entries, fs.drop_last()) + match fs.last() {
            Some(f) => if is_hidden_id(f.memid) {
                Seq::empty()
            } else {
                seq![method_view(entries, f)]
            },
            None => Seq::empty(),
        }
    }
}

/// The enum values of a list of variables, in order: unreadable ones are left out.
pub open spec fn enums_view(vs: Seq<Option<VarDesc>>) -> Seq<(Seq<char>, Seq<char>)>
    decreases vs.len(),
{
    if vs.len() == 0 {
        Seq::empty()
    } else {
        enums_view(vs.drop_last()) + match vs.last() {
            Some(v) => seq![enum_item_view(v.name@, v.value)],
            None => Seq::empty(),
        }
    }
}

/// The members of an entry as the structured view shows them: methods, and for an enum its values.
pub open spec fn entry_methods(entries: Seq<Option<TypeEntry>>, e: TypeEntry) -> Seq<
    (Seq<char>, Seq<char>, Seq<(Seq<char>, Seq<char>, Seq<Seq<char>>)>, Seq<char>),
> {
    methods_view(entries, e.funcs@)
}

/// The enum values of an entry; none for other kinds.
pub open spec fn entry_enums(e: TypeEntry) -> Seq<(Seq<char>, Seq<char>)> {
    if e.kind is Enum {
        enums_view(e.vars@)
    } else {
        Seq::empty()
    }
}

/// The methods of a list of functions.
pub fn collect_methods(entries: &Vec<Option<TypeEntry>>, fs: &Vec<Option<FuncDesc>>) -> (r: Vec<MethodInfo>)
    ensures
        r@.map_values(|m: MethodInfo| m@) == methods_view(entries@, fs@),
{
    let mut r: Vec<MethodInfo> = Vec::new();
    let mut i: usize = 0;
    while i < fs.len()
        invariant
            i <= fs.len(),
            r@.map_values(|m: MethodInfo| m@) == methods_view(entries@, fs@.subrange(0, i as int)),
        decreases fs.len() - i,
    {
        let ghost next = fs@.subrange(0, i + 1);
        assert(next.drop_last() =~= fs@.subrange(0, i as int));
        match &fs[i] {
            Some(f) => {
                match get_function_info(entries, f) {
                    Some(m) => {
                        r.push(m);
                    },
                    None => {},
                }
            },
            None => {},
        }
        assert(r@.map_values(|m: MethodInfo| m@) =~= methods_view(entries@, next));
        i = i + 1;
    }
    assert(fs@.subrange(0, i as int) =~= fs@);
    r
}

/// The enum values of a list of variables.
pub fn collect_enums(vs: &Vec<Option<VarDesc>>) -> (r: Vec<EnumItemInfo>)
    ensures
        r@.map_values(|m: EnumItemInfo| m@) == enums_view(vs@),
{
    let mut r: Vec<EnumItemInfo> = Vec::new();
    let mut i: usize = 0;
    while i < vs.len()
        invariant
            i <= vs.len(),
            r@.map_values(|m: EnumItemInfo| m@) == enums_view(vs@.subrange(0, i as int)),
        decreases vs.len() - i,
    {
        let ghost next = vs@.subrange(0, i + 1);
        assert(next.drop_last() =~= vs@.subrange(0, i as int));
        match &vs[i] {
            Some(v) => {
                r.push(get_enum_info(&v.name, v.value));
            },
            None => {},
        }
        assert(r@.map_values(|m: EnumItemInfo| m@) =~= enums_view(next));
        i = i + 1;
    }
    assert(vs@.subrange(0, i as int) =~= vs@);
    r
}

impl TypeLibInfo {
    /// No library loaded yet.
    pub fn new() -> (r: Self)
        ensures
            r.tlib is None,
    {
        TypeLibInfo { tlib: None }
    }

    /// Takes a library that has been read.
    pub fn load_type_lib(&mut self, lib: TypeLib)
        ensures
            final(self).tlib == Some(lib),
    {
        self.tlib = Some(lib);
    }

    /// The number of entries, or 0 with no library; a count past `u32::MAX` reads as `u32::MAX`.
    pub fn get_type_info_count(&self) -> (r: u32)
        ensures
            r == if entries_of(*self).len() > u32::MAX {
                u32::MAX as int
            } else {
                entries_of(*self).len() as int
            },
    {
        match &self.tlib {
            Some(l) => {
                if l.entries.len() > 4294967295 {
                    4294967295
                } else {
                    l.entries.len() as u32
                }
            },
            None => 0,
        }
    }

    /// The entry at `index`, or why there is none.
    pub fn get_type_info(&self, index: u32) -> (r: Result<&TypeEntry, Error>)
        ensures
            match r {
                Ok(e) => lookup_error(*self, index as int) is None && entry_at(*self, index as int) == Some(*e),
                Err(err) => lookup_error(*self, index as int) == Some(err),
            },
    {
        match &self.tlib {
            Some(l) => {
                if (index as usize) < l.entries.len() {
                    match &l.entries[index as usize] {
                        Some(e) => Ok(e),
                        None => Err(Error::TypeInfoUnavailable),
                    }
                } else {
                    Err(Error::TypeInfoUnavailable)
                }
            },
            None => Err(Error::TypeLibNotLoaded),
        }
    }

    /// The name and kind name of the entry at `index`.
    pub fn get_type_name_and_kind(&self, index: u32) -> (r: Result<(String, String), Error>)
        ensures
            match r {
                Ok((name, kind)) => lookup_error(*self, index as int) is None && name@ == entry_at(
                    *self,
                    index as int,
                )->0.name@ && kind@ == kind_name(entry_at(*self, index as int)->0.kind),
                Err(err) => lookup_error(*self, index as int) == Some(err),
            },
    {
        let e = self.get_type_info(index)?;
        let kind = match e.kind {
            TypeKind::Enum => String::from_str("Enum"),
            TypeKind::Record => String::from_str("Record"),
            TypeKind::Module => String::from_str("Module"),
            TypeKind::Interface => String::from_str("Interface"),
            TypeKind::Dispatch => String::from_str("Dispatch"),
            TypeKind::CoClass => String::from_str("CoClass"),
            TypeKind::Alias => String::from_str("Alias"),
            TypeKind::Union => String::from_str("Union"),
            TypeKind::Other(_) => String::from_str("Unknown"),
        };
        Ok((e.name.clone(), kind))
    }

    /// The IDL text of the entry at `index`.
    pub fn get_type_idl(&self, index: u32) -> (r: Result<String, Error>)
        ensures
            match r {
                Ok(s) => lookup_error(*self, index as int) is None && s@ == entry_text(
                    entries_of(*self),
                    entry_at(*self, index as int)->0,
                ),
                Err(err) => lookup_error(*self, index as int) == Some(err),
            },
    {
        let e = self.get_type_info(index)?;
        let mut out = String::new();
        match &self.tlib {
            Some(l) => print_type_info(&mut out, &l.entries, e),
            None => {},
        }
        assert(out@ =~= entry_text(entries_of(*self), entry_at(*self, index as int)->0));
        Ok(out)
    }

    /// The methods of the entry at `index`, return values normalized.
    pub fn get_type_methods(&self, index: u32) -> (r: Result<Vec<MethodInfo>, Error>)
        ensures
            match r {
                Ok(ms) => lookup_error(*self, index as int) is None && ms@.map_values(|m: MethodInfo| m@)
                    == entry_methods(entries_of(*self), entry_at(*self, index as int)->0),
                Err(err) => lookup_error(*self, index as int) == Some(err),
            },
    {
        let e = self.get_type_info(index)?;
        match &self.tlib {
            Some(l) => Ok(collect_methods(&l.entries, &e.funcs)),
            None => Err(Error::TypeLibNotLoaded),
        }
    }

    /// The enum values of the entry at `index`; none where it is not an enum.
    pub fn get_type_enums(&self, index: u32) -> (r: Result<Vec<EnumItemInfo>, Error>)
        ensures
            match r {
                Ok(es) => lookup_error(*self, index as int) is None && es@.map_values(|m: EnumItemInfo| m@)
                    == entry_enums(entry_at(*self, index as int)->0),
                Err(err) => lookup_error(*self, index as int) == Some(err),
            },
    {
        let e = self.get_type_info(index)?;
        match e.kind {
            TypeKind::Enum => Ok(collect_enums(&e.vars)),
            _ => {
                let r: Vec<EnumItemInfo> = Vec::new();
                assert(r@.map_values(|m: EnumItemInfo| m@) =~= Seq::empty());
                Ok(r)
            },
        }
    }
}

/// The declared name of a library, used to name what is built from its IDL.
pub fn get_library_name(lib: &TypeLib) -> (r: String)
    ensures
        r@ == lib.name@,
{
    lib.name.clone()
}

} // verus!
