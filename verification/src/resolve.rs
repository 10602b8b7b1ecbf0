//! The constant-pool resolver: from an index into the pool to what the entry
//! there denotes, with every index that the entry holds followed in turn.
//! Nothing here changes the pool, and every result is a function of the pool
//! and the index alone.
use crate::raw;
use crate::raw::{pool_view, ConstantKind, ExpectedKind, ParseError};
use crate::{ConstantValueAttribute, ConstantValueView, CpInfo, CpInfoView, ReferenceKind};
use vstd::prelude::*;

verus! {

/// The mathematical value of a constant pool: slot by slot, empty or an entry.
pub type PoolView = Seq<Option<raw::CpInfoView>>;

/// An exec result stands for the expected one: the same error, or a value
/// whose view is the expected value.
pub open spec fn yields<T: View>(
    expected: Result<T::V, ParseError>,
    r: Result<T, ParseError>,
) -> bool {
    match expected {
        Ok(v) => r is Ok && r->Ok_0@ == v,
        Err(e) => r == Err::<T, ParseError>(e),
    }
}

/// The kind of what a slot holds.
pub open spec fn kind_of(slot: Option<raw::CpInfoView>) -> ConstantKind {
    match slot {
        None => ConstantKind::Empty,
        Some(raw::CpInfoView::Utf8(_)) => ConstantKind::Utf8,
        Some(raw::CpInfoView::Integer(_)) => ConstantKind::Integer,
        Some(raw::CpInfoView::Float(_)) => ConstantKind::Float,
        Some(raw::CpInfoView::Long(_, _)) => ConstantKind::Long,
        Some(raw::CpInfoView::Double(_, _)) => ConstantKind::Double,
        Some(raw::CpInfoView::Class { .. }) => ConstantKind::Class,
        Some(raw::CpInfoView::String { .. }) => ConstantKind::String,
        Some(raw::CpInfoView::Fieldref { .. }) => ConstantKind::Fieldref,
        Some(raw::CpInfoView::Methodref { .. }) => ConstantKind::Methodref,
        Some(raw::CpInfoView::InterfaceMethodref { .. }) => ConstantKind::InterfaceMethodref,
        Some(raw::CpInfoView::NameAndType { .. }) => ConstantKind::NameAndType,
        Some(raw::CpInfoView::MethodHandle { .. }) => ConstantKind::MethodHandle,
        Some(raw::CpInfoView::MethodType { .. }) => ConstantKind::MethodType,
        Some(raw::CpInfoView::Dynamic { .. }) => ConstantKind::Dynamic,
        Some(raw::CpInfoView::InvokeDynamic { .. }) => ConstantKind::InvokeDynamic,
        Some(raw::CpInfoView::Module { .. }) => ConstantKind::Module,
        Some(raw::CpInfoView::Package { .. }) => ConstantKind::Package,
    }
}

/// The kind of what a slot holds.
pub fn slot_kind(slot: &Option<raw::CpInfo>) -> (r: ConstantKind)
    ensures
        r == kind_of(raw::slot_view(*slot)),
{
    match slot {
        None => ConstantKind::Empty,
        Some(raw::CpInfo::Utf8(_)) => ConstantKind::Utf8,
        Some(raw::CpInfo::Integer(_)) => ConstantKind::Integer,
        Some(raw::CpInfo::Float(_)) => ConstantKind::Float,
        Some(raw::CpInfo::Long(_, _)) => ConstantKind::Long,
        Some(raw::CpInfo::Double(_, _)) => ConstantKind::Double,
        Some(raw::CpInfo::Class { .. }) => ConstantKind::Class,
        Some(raw::CpInfo::String { .. }) => ConstantKind::String,
        Some(raw::CpInfo::Fieldref { .. }) => ConstantKind::Fieldref,
        Some(raw::CpInfo::Methodref { .. }) => ConstantKind::Methodref,
        Some(raw::CpInfo::InterfaceMethodref { .. }) => ConstantKind::InterfaceMethodref,
        Some(raw::CpInfo::NameAndType { .. }) => ConstantKind::NameAndType,
        Some(raw::CpInfo::MethodHandle { .. }) => ConstantKind::MethodHandle,
        Some(raw::CpInfo::MethodType { .. }) => ConstantKind::MethodType,
        Some(raw::CpInfo::Dynamic { .. }) => ConstantKind::Dynamic,
        Some(raw::CpInfo::InvokeDynamic { .. }) => ConstantKind::InvokeDynamic,
        Some(raw::CpInfo::Module { .. }) => ConstantKind::Module,
        Some(raw::CpInfo::Package { .. }) => ConstantKind::Package,
    }
}

/// The 32 bits of `v` read as a signed number in two's complement.
pub open spec fn signed32(v: u32) -> i32 {
    if v < 0x8000_0000 {
        v as i32
    } else {
        (v - 0x1_0000_0000) as i32
    }
}

/// The 64-bit word with `hi` as its upper and `lo` as its lower half.
pub open spec fn joined(hi: u32, lo: u32) -> u64 {
    (hi as int * 0x1_0000_0000 + lo as int) as u64
}

/// The 64 bits of `v` read as a signed number in two's complement.
pub open spec fn signed64(v: u64) -> i64 {
    if v < 0x8000_0000_0000_0000 {
        v as i64
    } else {
        (v - 0x1_0000_0000_0000_0000) as i64
    }
}

/// Reads the 32 bits of `v` as a signed number.
pub fn to_signed32(v: u32) -> (r: i32)
    ensures
        r == signed32(v),
{
    if v < 0x8000_0000 {
        v as i32
    } else {
        ((v - 0x8000_0000) as i32) - 0x7FFF_FFFF - 1
    }
}

/// Joins the two halves of a 64-bit word.
pub fn join_words(hi: u32, lo: u32) -> (r: u64)
    ensures
        r == joined(hi, lo),
{
    (hi as u64) * 0x1_0000_0000 + (lo as u64)
}

/// Reads the 64 bits of `v` as a signed number.
pub fn to_signed64(v: u64) -> (r: i64)
    ensures
        r == signed64(v),
{
    if v < 0x8000_0000_0000_0000 {
        v as i64
    } else {
        ((v - 0x8000_0000_0000_0000) as i64) - 0x7FFF_FFFF_FFFF_FFFF - 1
    }
}

/// The reference kind that the code byte of a method handle stands for.
pub open spec fn reference_kind_of(code: u8) -> Option<ReferenceKind> {
    if code == 1 {
        Some(ReferenceKind::RefGetField)
    } else if code == 2 {
        Some(ReferenceKind::RefGetStatic)
    } else if code == 3 {
        Some(ReferenceKind::RefPutField)
    } else if code == 4 {
        Some(ReferenceKind::RefPutStatic)
    } else if code == 5 {
        Some(ReferenceKind::RefInvokeVirtual)
    } else if code == 6 {
        Some(ReferenceKind::RefInvokeStatic)
    } else if code == 7 {
        Some(ReferenceKind::RefInvokeSpecial)
    } else if code == 8 {
        Some(ReferenceKind::RefNewInvokeSpecial)
    } else if code == 9 {
        Some(ReferenceKind::RefNewInvokeInterface)
    } else {
        None
    }
}

/// The reference kind for a code byte, if the code is one of the nine known.
pub fn reference_kind(code: u8) -> (r: Option<ReferenceKind>)
    ensures
        r == reference_kind_of(code),
{
    match code {
        1 => Some(ReferenceKind::RefGetField),
        2 => Some(ReferenceKind::RefGetStatic),
        3 => Some(ReferenceKind::RefPutField),
        4 => Some(ReferenceKind::RefPutStatic),
        5 => Some(ReferenceKind::RefInvokeVirtual),
        6 => Some(ReferenceKind::RefInvokeStatic),
        7 => Some(ReferenceKind::RefInvokeSpecial),
        8 => Some(ReferenceKind::RefNewInvokeSpecial),
        9 => Some(ReferenceKind::RefNewInvokeInterface),
        _ => None,
    }
}

/// The text at `index`: the slot has to be there and hold a `Utf8` entry.
pub open spec fn text_at(pool: PoolView, index: u16) -> Result<Seq<char>, ParseError> {
    if index as int >= pool.len() {
        Err(ParseError::IndexOutOfRange(index))
    } else {
        match pool[index as int] {
            Some(raw::CpInfoView::Utf8(text)) => Ok(text),
            slot => Err(ParseError::WrongKind { expected: ExpectedKind::Utf8, found: kind_of(slot) }),
        }
    }
}

/// The name of the class at `index`: the slot has to hold a `Class` entry
/// whose name index leads to text.
pub open spec fn class_name_at(pool: PoolView, index: u16) -> Result<Seq<char>, ParseError> {
    if index as int >= pool.len() {
        Err(ParseError::IndexOutOfRange(index))
    } else {
        match pool[index as int] {
            Some(raw::CpInfoView::Class { name_index }) => text_at(pool, name_index),
            slot => Err(ParseError::WrongKind { expected: ExpectedKind::Class, found: kind_of(slot) }),
        }
    }
}

/// The name and the descriptor of the `NameAndType` entry at `index`.
pub open spec fn name_and_type_at(pool: PoolView, index: u16) -> Result<
    (Seq<char>, Seq<char>),
    ParseError,
> {
    if index as int >= pool.len() {
        Err(ParseError::IndexOutOfRange(index))
    } else {
        match pool[index as int] {
            Some(raw::CpInfoView::NameAndType { name_index, descriptor_index }) => match text_at(
                pool,
                name_index,
            ) {
                Err(e) => Err(e),
                Ok(name) => match text_at(pool, descriptor_index) {
                    Err(e) => Err(e),
                    Ok(descriptor) => Ok((name, descriptor)),
                },
            },
            slot => Err(
                ParseError::WrongKind { expected: ExpectedKind::NameAndType, found: kind_of(slot) },
            ),
        }
    }
}

/// Class, name and descriptor of a field or method, from the two indices that
/// a member reference holds.
pub open spec fn member_of(pool: PoolView, class_index: u16, name_and_type_index: u16) -> Result<
    (Seq<char>, Seq<char>, Seq<char>),
    ParseError,
> {
    match class_name_at(pool, class_index) {
        Err(e) => Err(e),
        Ok(class) => match name_and_type_at(pool, name_and_type_index) {
            Err(e) => Err(e),
            Ok((name, descriptor)) => Ok((class, name, descriptor)),
        },
    }
}

/// Class, name and descriptor of the member reference at `index`: the slot
/// has to hold a `Fieldref`, a `Methodref` or an `InterfaceMethodref`, and
/// which of the three it is makes no difference.
pub open spec fn member_ref_at(pool: PoolView, index: u16) -> Result<
    (Seq<char>, Seq<char>, Seq<char>),
    ParseError,
> {
    if index as int >= pool.len() {
        Err(ParseError::IndexOutOfRange(index))
    } else {
        match pool[index as int] {
            Some(raw::CpInfoView::Fieldref { class_index, name_and_type_index }) => member_of(
                pool,
                class_index,
                name_and_type_index,
            ),
            Some(raw::CpInfoView::Methodref { class_index, name_and_type_index }) => member_of(
                pool,
                class_index,
                name_and_type_index,
            ),
            Some(
                raw::CpInfoView::InterfaceMethodref { class_index, name_and_type_index },
            ) => member_of(pool, class_index, name_and_type_index),
            slot => Err(
                ParseError::WrongKind { expected: ExpectedKind::MemberRef, found: kind_of(slot) },
            ),
        }
    }
}

/// What a method handle with code byte `code` and target `index` denotes. The
/// code is looked at first: an unknown one is refused whatever the target is.
pub open spec fn method_handle_of(pool: PoolView, code: u8, index: u16) -> Result<
    (ReferenceKind, (Seq<char>, Seq<char>, Seq<char>)),
    ParseError,
> {
    match reference_kind_of(code) {
        None => Err(ParseError::UnknownReferenceKind(code)),
        Some(kind) => match member_ref_at(pool, index) {
            Err(e) => Err(e),
            Ok(member) => Ok((kind, member)),
        },
    }
}

/// The method handle at `index`.
pub open spec fn method_handle_at(pool: PoolView, index: u16) -> Result<
    (ReferenceKind, (Seq<char>, Seq<char>, Seq<char>)),
    ParseError,
> {
    if index as int >= pool.len() {
        Err(ParseError::IndexOutOfRange(index))
    } else {
        match pool[index as int] {
            Some(
                raw::CpInfoView::MethodHandle { reference_kind, reference_index },
            ) => method_handle_of(pool, reference_kind, reference_index),
            slot => Err(
                ParseError::WrongKind { expected: ExpectedKind::MethodHandle, found: kind_of(slot) },
            ),
        }
    }
}

/// The constant at `index`: an `Integer`, `Float`, `Long` or `Double`, or the
/// text of a `String`. An empty slot is a reference of the wrong kind; an
/// entry of another kind is no constant value.
pub open spec fn constant_at(pool: PoolView, index: u16) -> Result<ConstantValueView, ParseError> {
    if index as int >= pool.len() {
        Err(ParseError::IndexOutOfRange(index))
    } else {
        match pool[index as int] {
            None => Err(
                ParseError::WrongKind {
                    expected: ExpectedKind::ConstantValue,
                    found: ConstantKind::Empty,
                },
            ),
            Some(raw::CpInfoView::Integer(v)) => Ok(ConstantValueView::Integer(signed32(v))),
            Some(raw::CpInfoView::Float(v)) => Ok(ConstantValueView::Float(v)),
            Some(raw::CpInfoView::Long(hi, lo)) => Ok(
                ConstantValueView::Long(signed64(joined(hi, lo))),
            ),
            Some(raw::CpInfoView::Double(hi, lo)) => Ok(ConstantValueView::Double(joined(hi, lo))),
            Some(raw::CpInfoView::String { string_index }) => match text_at(pool, string_index) {
                Err(e) => Err(e),
                Ok(text) => Ok(ConstantValueView::String(text)),
            },
            slot => Err(ParseError::UnexpectedConstantValue(kind_of(slot))),
        }
    }
}

/// What `entry` denotes in `pool`.
pub open spec fn entry_of(
    pool: PoolView,
    entry: raw::CpInfoView,
) -> Result<CpInfoView, ParseError> {
    match entry {
        raw::CpInfoView::Utf8(text) => Ok(CpInfoView::Utf8(text)),
        raw::CpInfoView::Integer(v) => Ok(CpInfoView::Integer(signed32(v))),
        raw::CpInfoView::Float(v) => Ok(CpInfoView::Float(v)),
        raw::CpInfoView::Long(hi, lo) => Ok(CpInfoView::Long(signed64(joined(hi, lo)))),
        raw::CpInfoView::Double(hi, lo) => Ok(CpInfoView::Double(joined(hi, lo))),
        raw::CpInfoView::Class { name_index } => match text_at(pool, name_index) {
            Err(e) => Err(e),
            Ok(name) => Ok(CpInfoView::Class { name }),
        },
        raw::CpInfoView::String { string_index } => match text_at(pool, string_index) {
            Err(e) => Err(e),
            Ok(string) => Ok(CpInfoView::String { string }),
        },
        raw::CpInfoView::Fieldref { class_index, name_and_type_index } => match member_of(
            pool,
            class_index,
            name_and_type_index,
        ) {
            Err(e) => Err(e),
            Ok((class, name, descriptor)) => Ok(CpInfoView::Fieldref { class, name, descriptor }),
        },
        raw::CpInfoView::Methodref { class_index, name_and_type_index } => match member_of(
            pool,
            class_index,
            name_and_type_index,
        ) {
            Err(e) => Err(e),
            Ok((class, name, descriptor)) => Ok(CpInfoView::Methodref { class, name, descriptor }),
        },
        raw::CpInfoView::InterfaceMethodref { class_index, name_and_type_index } => match member_of(
            pool,
            class_index,
            name_and_type_index,
        ) {
            Err(e) => Err(e),
            Ok((class, name, descriptor)) => Ok(
                CpInfoView::InterfaceMethodref { class, name, descriptor },
            ),
        },
        raw::CpInfoView::NameAndType { name_index, descriptor_index } => match text_at(
            pool,
            name_index,
        ) {
            Err(e) => Err(e),
            Ok(name) => match text_at(pool, descriptor_index) {
                Err(e) => Err(e),
                Ok(descriptor) => Ok(CpInfoView::NameAndType { name, descriptor }),
            },
        },
        raw::CpInfoView::MethodHandle { reference_kind, reference_index } => match method_handle_of(
            pool,
            reference_kind,
            reference_index,
        ) {
            Err(e) => Err(e),
            Ok((kind, (class, name, descriptor))) => Ok(
                CpInfoView::MethodHandle { reference_kind: kind, class, name, descriptor },
            ),
        },
        raw::CpInfoView::MethodType { descriptor_index } => match text_at(pool, descriptor_index) {
            Err(e) => Err(e),
            Ok(descriptor) => Ok(CpInfoView::MethodType { descriptor }),
        },
        raw::CpInfoView::Dynamic { bootstrap_method_attr_index, name_and_type_index } => match name_and_type_at(
            pool,
            name_and_type_index,
        ) {
            Err(e) => Err(e),
            Ok((name, descriptor)) => Ok(CpInfoView::Dynamic { name, descriptor }),
        },
        raw::CpInfoView::InvokeDynamic { bootstrap_method_attr_index, name_and_type_index } => match name_and_type_at(
            pool,
            name_and_type_index,
        ) {
            Err(e) => Err(e),
            Ok((name, descriptor)) => Ok(CpInfoView::InvokeDynamic { name, descriptor }),
        },
        raw::CpInfoView::Module { name_index } => match text_at(pool, name_index) {
            Err(e) => Err(e),
            Ok(name) => Ok(CpInfoView::Module { name }),
        },
        raw::CpInfoView::Package { name_index } => match text_at(pool, name_index) {
            Err(e) => Err(e),
            Ok(name) => Ok(CpInfoView::Package { name }),
        },
    }
}

/// What a slot denotes: an empty slot stays empty, an entry is resolved.
pub open spec fn slot_of(pool: PoolView, slot: Option<raw::CpInfoView>) -> Result<
    Option<CpInfoView>,
    ParseError,
> {
    match slot {
        None => Ok(None),
        Some(entry) => match entry_of(pool, entry) {
            Err(e) => Err(e),
            Ok(v) => Ok(Some(v)),
        },
    }
}

/// What the entry at `index` denotes: the slot has to be there and not empty.
pub open spec fn entry_at(pool: PoolView, index: u16) -> Result<CpInfoView, ParseError> {
    if index as int >= pool.len() {
        Err(ParseError::IndexOutOfRange(index))
    } else {
        match pool[index as int] {
            None => Err(
                ParseError::WrongKind { expected: ExpectedKind::Entry, found: ConstantKind::Empty },
            ),
            Some(entry) => entry_of(pool, entry),
        }
    }
}

/// Resolves `index` to text.
pub fn resolve_utf8(pool: &[Option<raw::CpInfo>], index: u16) -> (r: Result<String, ParseError>)
    ensures
        yields(text_at(pool_view(pool@), index), r),
{
    if index as usize >= pool.len() {
        return Err(ParseError::IndexOutOfRange(index));
    }
    match &pool[index as usize] {
        Some(raw::CpInfo::Utf8(text)) => Ok(text.clone()),
        slot => Err(ParseError::WrongKind { expected: ExpectedKind::Utf8, found: slot_kind(slot) }),
    }
}

/// Resolves `index` to the name of a class.
pub fn resolve_class(pool: &[Option<raw::CpInfo>], index: u16) -> (r: Result<String, ParseError>)
    ensures
        yields(class_name_at(pool_view(pool@), index), r),
{
    if index as usize >= pool.len() {
        return Err(ParseError::IndexOutOfRange(index));
    }
    match &pool[index as usize] {
        Some(raw::CpInfo::Class { name_index }) => resolve_utf8(pool, *name_index),
        slot => Err(ParseError::WrongKind { expected: ExpectedKind::Class, found: slot_kind(slot) }),
    }
}

/// Resolves `index` to a name and a descriptor.
pub fn resolve_name_and_type(pool: &[Option<raw::CpInfo>], index: u16) -> (r: Result<
    (String, String),
    ParseError,
>)
    ensures
        yields(name_and_type_at(pool_view(pool@), index), r),
{
    if index as usize >= pool.len() {
        return Err(ParseError::IndexOutOfRange(index));
    }
    match &pool[index as usize] {
        Some(raw::CpInfo::NameAndType { name_index, descriptor_index }) => {
            let name = resolve_utf8(pool, *name_index)?;
            let descriptor = resolve_utf8(pool, *descriptor_index)?;
            Ok((name, descriptor))
        },
        slot => Err(
            ParseError::WrongKind { expected: ExpectedKind::NameAndType, found: slot_kind(slot) },
        ),
    }
}

/// Resolves the two indices of a member reference.
pub fn resolve_member(
    pool: &[Option<raw::CpInfo>],
    class_index: u16,
    name_and_type_index: u16,
) -> (r:
    Result<(String, String, String), ParseError>)
    ensures
        yields(member_of(pool_view(pool@), class_index, name_and_type_index), r),
{
    let class = resolve_class(pool, class_index)?;
    let (name, descriptor) = resolve_name_and_type(pool, name_and_type_index)?;
    Ok((class, name, descriptor))
}

/// Resolves `index` to the class, name and descriptor of a field or method.
pub fn resolve_member_ref(pool: &[Option<raw::CpInfo>], index: u16) -> (r: Result<
    (String, String, String),
    ParseError,
>)
    ensures
        yields(member_ref_at(pool_view(pool@), index), r),
{
    if index as usize >= pool.len() {
        return Err(ParseError::IndexOutOfRange(index));
    }
    match &pool[index as usize] {
        Some(raw::CpInfo::Fieldref { class_index, name_and_type_index }) => resolve_member(
            pool,
            *class_index,
            *name_and_type_index,
        ),
        Some(raw::CpInfo::Methodref { class_index, name_and_type_index }) => resolve_member(
            pool,
            *class_index,
            *name_and_type_index,
        ),
        Some(raw::CpInfo::InterfaceMethodref { class_index, name_and_type_index }) => resolve_member(
            pool,
            *class_index,
            *name_and_type_index,
        ),
        slot => Err(
            ParseError::WrongKind { expected: ExpectedKind::MemberRef, found: slot_kind(slot) },
        ),
    }
}

/// Resolves the two fields of a method handle.
pub fn resolve_method_handle_parts(
    pool: &[Option<raw::CpInfo>],
    code: u8,
    index: u16,
) -> (r: Result<
    (ReferenceKind, (String, String, String)),
    ParseError,
>)
    ensures
        yields(method_handle_of(pool_view(pool@), code, index), r),
{
    match reference_kind(code) {
        None => Err(ParseError::UnknownReferenceKind(code)),
        Some(kind) => {
            let member = resolve_member_ref(pool, index)?;
            Ok((kind, member))
        },
    }
}

/// Resolves `index` to a method handle: its kind, and the class, name and
/// descriptor of its target.
pub fn resolve_method_handle(pool: &[Option<raw::CpInfo>], index: u16) -> (r: Result<
    (ReferenceKind, (String, String, String)),
    ParseError,
>)
    ensures
        yields(method_handle_at(pool_view(pool@), index), r),
{
    if index as usize >= pool.len() {
        return Err(ParseError::IndexOutOfRange(index));
    }
    match &pool[index as usize] {
        Some(
            raw::CpInfo::MethodHandle { reference_kind, reference_index },
        ) => resolve_method_handle_parts(pool, *reference_kind, *reference_index),
        slot => Err(
            ParseError::WrongKind { expected: ExpectedKind::MethodHandle, found: slot_kind(slot) },
        ),
    }
}

/// Resolves `index` to a constant value.
pub fn resolve_constant(
    pool: &[Option<raw::CpInfo>],
    index: u16,
) -> (r: Result<ConstantValueAttribute, ParseError>)
    ensures
        yields(constant_at(pool_view(pool@), index), r),
{
    if index as usize >= pool.len() {
        return Err(ParseError::IndexOutOfRange(index));
    }
    match &pool[index as usize] {
        None => Err(
            ParseError::WrongKind {
                expected: ExpectedKind::ConstantValue,
                found: ConstantKind::Empty,
            },
        ),
        Some(raw::CpInfo::Integer(v)) => Ok(ConstantValueAttribute::Integer(to_signed32(*v))),
        Some(raw::CpInfo::Float(v)) => Ok(ConstantValueAttribute::Float(*v)),
        Some(raw::CpInfo::Long(hi, lo)) => Ok(
            ConstantValueAttribute::Long(to_signed64(join_words(*hi, *lo))),
        ),
        Some(raw::CpInfo::Double(hi, lo)) => Ok(
            ConstantValueAttribute::Double(join_words(*hi, *lo)),
        ),
        Some(raw::CpInfo::String { string_index }) => {
            let text = resolve_utf8(pool, *string_index)?;
            Ok(ConstantValueAttribute::String(text))
        },
        slot => Err(ParseError::UnexpectedConstantValue(slot_kind(slot))),
    }
}

/// Resolves one entry of the pool.
pub fn resolve_entry(
    pool: &[Option<raw::CpInfo>],
    entry: &raw::CpInfo,
) -> (r: Result<CpInfo, ParseError>)
    ensures
        yields(entry_of(pool_view(pool@), entry@), r),
{
    match entry {
        raw::CpInfo::Utf8(text) => Ok(CpInfo::Utf8(text.clone())),
        raw::CpInfo::Integer(v) => Ok(CpInfo::Integer(to_signed32(*v))),
        raw::CpInfo::Float(v) => Ok(CpInfo::Float(*v)),
        raw::CpInfo::Long(hi, lo) => Ok(CpInfo::Long(to_signed64(join_words(*hi, *lo)))),
        raw::CpInfo::Double(hi, lo) => Ok(CpInfo::Double(join_words(*hi, *lo))),
        raw::CpInfo::Class { name_index } => {
            let name = resolve_utf8(pool, *name_index)?;
            Ok(CpInfo::Class { name })
        },
        raw::CpInfo::String { string_index } => {
            let string = resolve_utf8(pool, *string_index)?;
            Ok(CpInfo::String { string })
        },
        raw::CpInfo::Fieldref { class_index, name_and_type_index } => {
            let (class, name, descriptor) = resolve_member(pool, *class_index, *name_and_type_index)?;
            Ok(CpInfo::Fieldref { class, name, descriptor })
        },
        raw::CpInfo::Methodref { class_index, name_and_type_index } => {
            let (class, name, descriptor) = resolve_member(pool, *class_index, *name_and_type_index)?;
            Ok(CpInfo::Methodref { class, name, descriptor })
        },
        raw::CpInfo::InterfaceMethodref { class_index, name_and_type_index } => {
            let (class, name, descriptor) = resolve_member(pool, *class_index, *name_and_type_index)?;
            Ok(CpInfo::InterfaceMethodref { class, name, descriptor })
        },
        raw::CpInfo::NameAndType { name_index, descriptor_index } => {
            let name = resolve_utf8(pool, *name_index)?;
            let descriptor = resolve_utf8(pool, *descriptor_index)?;
            Ok(CpInfo::NameAndType { name, descriptor })
        },
        raw::CpInfo::MethodHandle { reference_kind, reference_index } => {
            let (kind, member) = resolve_method_handle_parts(pool, *reference_kind, *reference_index)?;
            let (class, name, descriptor) = member;
            Ok(CpInfo::MethodHandle { reference_kind: kind, class, name, descriptor })
        },
        raw::CpInfo::MethodType { descriptor_index } => {
            let descriptor = resolve_utf8(pool, *descriptor_index)?;
            Ok(CpInfo::MethodType { descriptor })
        },
        raw::CpInfo::Dynamic { bootstrap_method_attr_index, name_and_type_index } => {
            let (name, descriptor) = resolve_name_and_type(pool, *name_and_type_index)?;
            Ok(CpInfo::Dynamic { name, descriptor })
        },
        raw::CpInfo::InvokeDynamic { bootstrap_method_attr_index, name_and_type_index } => {
            let (name, descriptor) = resolve_name_and_type(pool, *name_and_type_index)?;
            Ok(CpInfo::InvokeDynamic { name, descriptor })
        },
        raw::CpInfo::Module { name_index } => {
            let name = resolve_utf8(pool, *name_index)?;
            Ok(CpInfo::Module { name })
        },
        raw::CpInfo::Package { name_index } => {
            let name = resolve_utf8(pool, *name_index)?;
            Ok(CpInfo::Package { name })
        },
    }
}

/// Resolves the entry at `index`.
pub fn resolve_index(pool: &[Option<raw::CpInfo>], index: u16) -> (r: Result<CpInfo, ParseError>)
    ensures
        yields(entry_at(pool_view(pool@), index), r),
{
    if index as usize >= pool.len() {
        return Err(ParseError::IndexOutOfRange(index));
    }
    match &pool[index as usize] {
        None => Err(
            ParseError::WrongKind { expected: ExpectedKind::Entry, found: ConstantKind::Empty },
        ),
        Some(entry) => resolve_entry(pool, entry),
    }
}

/// `r` is what resolving `item` in `pool` may return.
pub open spec fn resolves_to(
    pool: PoolView,
    item: Option<raw::CpInfoView>,
    r: Result<Option<CpInfo>, ParseError>,
) -> bool {
    match slot_of(pool, item) {
        Ok(v) => r is Ok && crate::slot_view(r->Ok_0) == v,
        Err(e) => r == Err::<Option<CpInfo>, ParseError>(e),
    }
}

/// The value of a result of resolving a slot.
pub open spec fn result_view(
    r: Result<Option<CpInfo>, ParseError>,
) -> Result<Option<CpInfoView>, ParseError> {
    match r {
        Ok(v) => Ok(crate::slot_view(v)),
        Err(e) => Err(e),
    }
}

/// Resolves one slot of the pool: an empty slot stays empty, an entry is
/// resolved with all that it refers to.
pub fn parse_cp_info(
    pool: &[Option<raw::CpInfo>],
    item: &Option<raw::CpInfo>,
) -> (r: Result<Option<CpInfo>, ParseError>)
    ensures
        resolves_to(pool_view(pool@), raw::slot_view(*item), r),
{
    match item {
        None => Ok(None),
        Some(entry) => {
            let resolved = resolve_entry(pool, entry)?;
            Ok(Some(resolved))
        },
    }
}

/// Resolving the same slot of the same pool twice gives the same value both
/// times: the result is a function of the pool and the slot.
pub proof fn lemma_resolution_repeatable(
    pool: PoolView,
    item: Option<raw::CpInfoView>,
    first: Result<Option<CpInfo>, ParseError>,
    second: Result<Option<CpInfo>, ParseError>,
)
    requires
        resolves_to(pool, item, first),
        resolves_to(pool, item, second),
    ensures
        result_view(first) == result_view(second),
        result_view(first) == slot_of(pool, item),
{
}

/// Resolving the same index of the same pool twice gives the same outcome
/// both times: both succeed with the same value, or both fail with the same
/// error.
pub proof fn lemma_index_resolution_repeatable(
    pool: PoolView,
    index: u16,
    first: Result<CpInfo, ParseError>,
    second: Result<CpInfo, ParseError>,
)
    requires
        yields(entry_at(pool, index), first),
        yields(entry_at(pool, index), second),
    ensures
        first is Ok <==> second is Ok,
        first is Ok ==> first->Ok_0@ == second->Ok_0@,
        first is Err ==> first->Err_0 == second->Err_0,
{
}

/// In a pool where an empty slot follows each `Long` and `Double`, as in
/// every decoded pool ([`raw::phantoms_empty`]), no reference to the slot
/// behind a `Long` or `Double` at `k` resolves: whatever kind is asked for,
/// the lookup fails with a wrong-kind error that reports the empty slot.
pub proof fn lemma_phantom_reference_fails(pool: PoolView, k: int)
    requires
        raw::phantoms_empty(pool),
        raw::wide_at(pool, k),
        k + 1 <= u16::MAX,
    ensures
        text_at(pool, (k + 1) as u16) == Err::<Seq<char>, ParseError>(
            ParseError::WrongKind { expected: ExpectedKind::Utf8, found: ConstantKind::Empty },
        ),
        class_name_at(pool, (k + 1) as u16) == Err::<Seq<char>, ParseError>(
            ParseError::WrongKind { expected: ExpectedKind::Class, found: ConstantKind::Empty },
        ),
        name_and_type_at(pool, (k + 1) as u16) == Err::<(Seq<char>, Seq<char>), ParseError>(
            ParseError::WrongKind { expected: ExpectedKind::NameAndType, found: ConstantKind::Empty },
        ),
        member_ref_at(pool, (k + 1) as u16) == Err::<(Seq<char>, Seq<char>, Seq<char>), ParseError>(
            ParseError::WrongKind { expected: ExpectedKind::MemberRef, found: ConstantKind::Empty },
        ),
        method_handle_at(pool, (k + 1) as u16) == Err::<
            (ReferenceKind, (Seq<char>, Seq<char>, Seq<char>)),
            ParseError,
        >(ParseError::WrongKind { expected: ExpectedKind::MethodHandle, found: ConstantKind::Empty }),
        entry_at(pool, (k + 1) as u16) == Err::<CpInfoView, ParseError>(
            ParseError::WrongKind { expected: ExpectedKind::Entry, found: ConstantKind::Empty },
        ),
        constant_at(pool, (k + 1) as u16) == Err::<ConstantValueView, ParseError>(
            ParseError::WrongKind {
                expected: ExpectedKind::ConstantValue,
                found: ConstantKind::Empty,
            },
        ),
{
}

/// The kind of what a slot of a resolved pool holds.
pub open spec fn resolved_kind_of(slot: Option<CpInfoView>) -> ConstantKind {
    match slot {
        None => ConstantKind::Empty,
        Some(CpInfoView::Utf8(_)) => ConstantKind::Utf8,
        Some(CpInfoView::Integer(_)) => ConstantKind::Integer,
        Some(CpInfoView::Float(_)) => ConstantKind::Float,
        Some(CpInfoView::Long(_)) => ConstantKind::Long,
        Some(CpInfoView::Double(_)) => ConstantKind::Double,
        Some(CpInfoView::Class { .. }) => ConstantKind::Class,
        Some(CpInfoView::String { .. }) => ConstantKind::String,
        Some(CpInfoView::Fieldref { .. }) => ConstantKind::Fieldref,
        Some(CpInfoView::Methodref { .. }) => ConstantKind::Methodref,
        Some(CpInfoView::InterfaceMethodref { .. }) => ConstantKind::InterfaceMethodref,
        Some(CpInfoView::NameAndType { .. }) => ConstantKind::NameAndType,
        Some(CpInfoView::MethodHandle { .. }) => ConstantKind::MethodHandle,
        Some(CpInfoView::MethodType { .. }) => ConstantKind::MethodType,
        Some(CpInfoView::Dynamic { .. }) => ConstantKind::Dynamic,
        Some(CpInfoView::InvokeDynamic { .. }) => ConstantKind::InvokeDynamic,
        Some(CpInfoView::Module { .. }) => ConstantKind::Module,
        Some(CpInfoView::Package { .. }) => ConstantKind::Package,
    }
}

/// Resolution keeps the kind of a slot: an empty slot stays empty, and an
/// entry resolves to an entry of its own kind.
pub proof fn lemma_resolution_keeps_kind(pool: PoolView, slot: Option<raw::CpInfoView>)
    requires
        slot_of(pool, slot) is Ok,
    ensures
        resolved_kind_of(slot_of(pool, slot)->Ok_0) == kind_of(slot),
{
}

/// `entry` holds `index` as one of its references into the pool.
pub open spec fn refers_to(entry: raw::CpInfoView, index: u16) -> bool {
    match entry {
        raw::CpInfoView::Class { name_index } => name_index == index,
        raw::CpInfoView::String { string_index } => string_index == index,
        raw::CpInfoView::Fieldref { class_index, name_and_type_index } => class_index == index
            || name_and_type_index == index,
        raw::CpInfoView::Methodref { class_index, name_and_type_index } => class_index == index
            || name_and_type_index == index,
        raw::CpInfoView::InterfaceMethodref { class_index, name_and_type_index } => class_index
            == index || name_and_type_index == index,
        raw::CpInfoView::NameAndType { name_index, descriptor_index } => name_index == index
            || descriptor_index == index,
        raw::CpInfoView::MethodHandle { reference_kind, reference_index } => reference_index
            == index,
        raw::CpInfoView::MethodType { descriptor_index } => descriptor_index == index,
        raw::CpInfoView::Dynamic { bootstrap_method_attr_index, name_and_type_index } =>
            name_and_type_index == index,
        raw::CpInfoView::InvokeDynamic { bootstrap_method_attr_index, name_and_type_index } =>
            name_and_type_index == index,
        raw::CpInfoView::Module { name_index } => name_index == index,
        raw::CpInfoView::Package { name_index } => name_index == index,
        _ => false,
    }
}

/// The code byte of `entry`, where `entry` is a method handle whose code is
/// none of the nine known.
pub open spec fn unknown_code_of(entry: raw::CpInfoView) -> Option<u8> {
    match entry {
        raw::CpInfoView::MethodHandle { reference_kind, reference_index } => if reference_kind_of(
            reference_kind,
        ) is None {
            Some(reference_kind)
        } else {
            None
        },
        _ => None,
    }
}

/// The error of a reference that leads nowhere: out of range, or to a slot
/// of the wrong kind.
pub open spec fn is_reference_error(e: ParseError) -> bool {
    e is IndexOutOfRange || e is WrongKind
}

/// In a pool where an empty slot follows each `Long` and `Double`, an entry
/// that refers to the slot behind a `Long` or `Double` at `k` never resolves.
/// It fails with an out-of-range or a wrong-kind error. The one exception is
/// a method handle with an unknown code byte: its code is looked at first,
/// and it fails with the error for that.
pub proof fn lemma_entry_with_phantom_reference_fails(
    pool: PoolView,
    entry: raw::CpInfoView,
    k: int,
)
    requires
        raw::phantoms_empty(pool),
        raw::wide_at(pool, k),
        k + 1 <= u16::MAX,
        refers_to(entry, (k + 1) as u16),
    ensures
        entry_of(pool, entry) is Err,
        match unknown_code_of(entry) {
            Some(code) => entry_of(pool, entry)->Err_0 == ParseError::UnknownReferenceKind(code),
            None => is_reference_error(entry_of(pool, entry)->Err_0),
        },
{
    lemma_phantom_reference_fails(pool, k);
}

} // verus!
