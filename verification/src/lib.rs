//! A decoder for JVM class files: bytes to an index-based record tree
//! ([`raw`]), and from there to a model in which every constant-pool index
//! has been replaced by what it denotes.
pub mod attribute;
pub mod export;
pub mod flags;
pub mod raw;
pub mod resolve;

use crate::flags::{decode_flags, decoded, lemma_decode_round_trip, union_bits, AccessFlag};
use crate::attribute::{
    attributes_of, field_of, method_of, parse_attributes, parse_field, parse_method,
};
use crate::raw::{
    class_file_of, has_magic, only_phantoms_empty, phantoms_empty, pool_complete, pool_view, u2_at,
    ParseError, MAGIC,
};
use crate::resolve::{
    class_name_at, kind_of, lemma_resolution_keeps_kind, parse_cp_info, resolve_class,
    resolved_kind_of, slot_of, yields, PoolView,
};
use vstd::prelude::*;

verus! {

/// The version of the class-file format that a class was compiled for.
#[derive(Debug, Clone, Copy, PartialEq, Eq)]
pub struct ClassFileVersion {
    pub major_version: u16,
    pub minor_version: u16,
}

/// Stands for the four magic bytes, which every decoded class file has.
#[derive(Debug, Clone, Copy, PartialEq, Eq)]
pub struct Magic;

/// What a method handle does with the field or method it refers to.
#[derive(Debug, Clone, Copy, PartialEq, Eq)]
pub enum ReferenceKind {
    RefGetField,
    RefGetStatic,
    RefPutField,
    RefPutStatic,
    RefInvokeVirtual,
    RefInvokeStatic,
    RefInvokeSpecial,
    RefNewInvokeSpecial,
    RefNewInvokeInterface,
}

impl View for ReferenceKind {
    type V = ReferenceKind;

    open spec fn view(&self) -> ReferenceKind {
        *self
    }
}

/// A constant-pool entry with every index replaced by what it points at.
/// `Float` and `Double` hold the bits of the number.
#[derive(Debug, Clone, PartialEq, Eq)]
pub enum CpInfo {
    Utf8(String),
    Integer(i32),
    Float(u32),
    Long(i64),
    Double(u64),
    Class { name: String },
    String { string: String },
    Fieldref { class: String, name: String, descriptor: String },
    Methodref { class: String, name: String, descriptor: String },
    InterfaceMethodref { class: String, name: String, descriptor: String },
    NameAndType { name: String, descriptor: String },
    MethodHandle { reference_kind: ReferenceKind, class: String, name: String, descriptor: String },
    MethodType { descriptor: String },
    Dynamic { name: String, descriptor: String },
    InvokeDynamic { name: String, descriptor: String },
    Module { name: String },
    Package { name: String },
}

/// The mathematical value of a [`CpInfo`].
pub enum CpInfoView {
    Utf8(Seq<char>),
    Integer(i32),
    Float(u32),
    Long(i64),
    Double(u64),
    Class { name: Seq<char> },
    String { string: Seq<char> },
    Fieldref { class: Seq<char>, name: Seq<char>, descriptor: Seq<char> },
    Methodref { class: Seq<char>, name: Seq<char>, descriptor: Seq<char> },
    InterfaceMethodref { class: Seq<char>, name: Seq<char>, descriptor: Seq<char> },
    NameAndType { name: Seq<char>, descriptor: Seq<char> },
    MethodHandle {
        reference_kind: ReferenceKind,
        class: Seq<char>,
        name: Seq<char>,
        descriptor: Seq<char>,
    },
    MethodType { descriptor: Seq<char> },
    Dynamic { name: Seq<char>, descriptor: Seq<char> },
    InvokeDynamic { name: Seq<char>, descriptor: Seq<char> },
    Module { name: Seq<char> },
    Package { name: Seq<char> },
}

impl View for CpInfo {
    type V = CpInfoView;

    open spec fn view(&self) -> CpInfoView {
        match *self {
            CpInfo::Utf8(s) => CpInfoView::Utf8(s@),
            CpInfo::Integer(v) => CpInfoView::Integer(v),
            CpInfo::Float(v) => CpInfoView::Float(v),
            CpInfo::Long(v) => CpInfoView::Long(v),
            CpInfo::Double(v) => CpInfoView::Double(v),
            CpInfo::Class { name } => CpInfoView::Class { name: name@ },
            CpInfo::String { string } => CpInfoView::String { string: string@ },
            CpInfo::Fieldref { class, name, descriptor } => CpInfoView::Fieldref {
                class: class@,
                name: name@,
                descriptor: descriptor@,
            },
            CpInfo::Methodref { class, name, descriptor } => CpInfoView::Methodref {
                class: class@,
                name: name@,
                descriptor: descriptor@,
            },
            CpInfo::InterfaceMethodref { class, name, descriptor } => CpInfoView::InterfaceMethodref {
                class: class@,
                name: name@,
                descriptor: descriptor@,
            },
            CpInfo::NameAndType { name, descriptor } => CpInfoView::NameAndType {
                name: name@,
                descriptor: descriptor@,
            },
            CpInfo::MethodHandle { reference_kind, class, name, descriptor } => CpInfoView::MethodHandle {
                reference_kind,
                class: class@,
                name: name@,
                descriptor: descriptor@,
            },
            CpInfo::MethodType { descriptor } => CpInfoView::MethodType { descriptor: descriptor@ },
            CpInfo::Dynamic { name, descriptor } => CpInfoView::Dynamic {
                name: name@,
                descriptor: descriptor@,
            },
            CpInfo::InvokeDynamic { name, descriptor } => CpInfoView::InvokeDynamic {
                name: name@,
                descriptor: descriptor@,
            },
            CpInfo::Module { name } => CpInfoView::Module { name: name@ },
            CpInfo::Package { name } => CpInfoView::Package { name: name@ },
        }
    }
}

/// A method handle with the arguments that a bootstrap method is called with.
#[derive(Debug, Clone, PartialEq, Eq)]
pub struct BootstrapMethod {
    pub reference_kind: ReferenceKind,
    pub class: String,
    pub name: String,
    pub descriptor: String,
    pub bootstrap_arguments: Vec<CpInfo>,
}

/// The mathematical value of a [`BootstrapMethod`].
pub struct BootstrapMethodView {
    pub reference_kind: ReferenceKind,
    pub class: Seq<char>,
    pub name: Seq<char>,
    pub descriptor: Seq<char>,
    pub bootstrap_arguments: Seq<CpInfoView>,
}

impl View for BootstrapMethod {
    type V = BootstrapMethodView;

    open spec fn view(&self) -> BootstrapMethodView {
        BootstrapMethodView {
            reference_kind: self.reference_kind,
            class: self.class@,
            name: self.name@,
            descriptor: self.descriptor@,
            bootstrap_arguments: entries_view(self.bootstrap_arguments@),
        }
    }
}

/// The value of a constant field. `Float` and `Double` hold the bits of the
/// number.
#[derive(Debug, Clone, PartialEq, Eq)]
pub enum ConstantValueAttribute {
    Integer(i32),
    Float(u32),
    Long(i64),
    Double(u64),
    String(String),
}

/// The mathematical value of a [`ConstantValueAttribute`].
pub enum ConstantValueView {
    Integer(i32),
    Float(u32),
    Long(i64),
    Double(u64),
    String(Seq<char>),
}

impl View for ConstantValueAttribute {
    type V = ConstantValueView;

    open spec fn view(&self) -> ConstantValueView {
        match *self {
            ConstantValueAttribute::Integer(v) => ConstantValueView::Integer(v),
            ConstantValueAttribute::Float(v) => ConstantValueView::Float(v),
            ConstantValueAttribute::Long(v) => ConstantValueView::Long(v),
            ConstantValueAttribute::Double(v) => ConstantValueView::Double(v),
            ConstantValueAttribute::String(s) => ConstantValueView::String(s@),
        }
    }
}

/// One entry of an `InnerClasses` attribute.
#[derive(Debug, Clone, PartialEq, Eq)]
pub struct InnerClass {
    pub inner_class_info: String,
    pub outer_class_info: Option<String>,
    pub inner_name: Option<String>,
    pub inner_class_access_flags: Vec<InnerClassAccessFlags>,
}

/// The mathematical value of an [`InnerClass`].
pub struct InnerClassView {
    pub inner_class_info: Seq<char>,
    pub outer_class_info: Option<Seq<char>>,
    pub inner_name: Option<Seq<char>>,
    pub inner_class_access_flags: Seq<InnerClassAccessFlags>,
}

impl View for InnerClass {
    type V = InnerClassView;

    open spec fn view(&self) -> InnerClassView {
        InnerClassView {
            inner_class_info: self.inner_class_info@,
            outer_class_info: optional_text_view(self.outer_class_info),
            inner_name: optional_text_view(self.inner_name),
            inner_class_access_flags: self.inner_class_access_flags@,
        }
    }
}

/// An attribute of one of the six kinds that are decoded, or, as `Unknown`,
/// the name and the bytes of any other.
#[derive(Debug, Clone, PartialEq, Eq)]
pub enum AttributeInfo {
    ConstantValue(ConstantValueAttribute),
    Code(Vec<u8>),
    Exceptions(Vec<String>),
    SourceFile(String),
    BootstrapMethods(Vec<BootstrapMethod>),
    InnerClasses(Vec<InnerClass>),
    Unknown(String, Vec<u8>),
}

/// The mathematical value of an [`AttributeInfo`].
pub enum AttributeInfoView {
    ConstantValue(ConstantValueView),
    Code(Seq<u8>),
    Exceptions(Seq<Seq<char>>),
    SourceFile(Seq<char>),
    BootstrapMethods(Seq<BootstrapMethodView>),
    InnerClasses(Seq<InnerClassView>),
    Unknown(Seq<char>, Seq<u8>),
}

impl View for AttributeInfo {
    type V = AttributeInfoView;

    open spec fn view(&self) -> AttributeInfoView {
        match *self {
            AttributeInfo::ConstantValue(v) => AttributeInfoView::ConstantValue(v@),
            AttributeInfo::Code(b) => AttributeInfoView::Code(b@),
            AttributeInfo::Exceptions(names) => AttributeInfoView::Exceptions(texts_view(names@)),
            AttributeInfo::SourceFile(s) => AttributeInfoView::SourceFile(s@),
            AttributeInfo::BootstrapMethods(list) => AttributeInfoView::BootstrapMethods(
                bootstrap_methods_view(list@),
            ),
            AttributeInfo::InnerClasses(list) => AttributeInfoView::InnerClasses(
                inner_classes_view(list@),
            ),
            AttributeInfo::Unknown(name, b) => AttributeInfoView::Unknown(name@, b@),
        }
    }
}

/// A field with its flags, name and descriptor resolved.
#[derive(Debug, Clone, PartialEq, Eq)]
pub struct FieldInfo {
    pub access_flags: Vec<FieldAccessFlags>,
    pub name: String,
    pub descriptor: String,
    pub attributes: Vec<AttributeInfo>,
}

/// The mathematical value of a [`FieldInfo`].
pub struct FieldInfoView {
    pub access_flags: Seq<FieldAccessFlags>,
    pub name: Seq<char>,
    pub descriptor: Seq<char>,
    pub attributes: Seq<AttributeInfoView>,
}

impl View for FieldInfo {
    type V = FieldInfoView;

    open spec fn view(&self) -> FieldInfoView {
        FieldInfoView {
            access_flags: self.access_flags@,
            name: self.name@,
            descriptor: self.descriptor@,
            attributes: attributes_view(self.attributes@),
        }
    }
}

/// A method with its flags, name and descriptor resolved.
#[derive(Debug, Clone, PartialEq, Eq)]
pub struct MethodInfo {
    pub access_flags: Vec<MethodAccessFlags>,
    pub name: String,
    pub descriptor: String,
    pub attributes: Vec<AttributeInfo>,
}

/// The mathematical value of a [`MethodInfo`].
pub struct MethodInfoView {
    pub access_flags: Seq<MethodAccessFlags>,
    pub name: Seq<char>,
    pub descriptor: Seq<char>,
    pub attributes: Seq<AttributeInfoView>,
}

impl View for MethodInfo {
    type V = MethodInfoView;

    open spec fn view(&self) -> MethodInfoView {
        MethodInfoView {
            access_flags: self.access_flags@,
            name: self.name@,
            descriptor: self.descriptor@,
            attributes: attributes_view(self.attributes@),
        }
    }
}

/// A class file with no index left in it.
#[derive(Debug, Clone, PartialEq, Eq)]
pub struct ClassFile {
    pub magic: Magic,
    pub version: ClassFileVersion,
    pub constant_pool: Vec<Option<CpInfo>>,
    pub access_flags: Vec<ClassAccessFlags>,
    pub this_class: String,
    pub super_class: Option<String>,
    pub interfaces: Vec<String>,
    pub fields: Vec<FieldInfo>,
    pub methods: Vec<MethodInfo>,
    pub attributes: Vec<AttributeInfo>,
}

/// The mathematical value of a [`ClassFile`]. The magic marker has no value
/// of its own.
pub struct ClassFileView {
    pub version: ClassFileVersion,
    pub constant_pool: Seq<Option<CpInfoView>>,
    pub access_flags: Seq<ClassAccessFlags>,
    pub this_class: Seq<char>,
    pub super_class: Option<Seq<char>>,
    pub interfaces: Seq<Seq<char>>,
    pub fields: Seq<FieldInfoView>,
    pub methods: Seq<MethodInfoView>,
    pub attributes: Seq<AttributeInfoView>,
}

impl View for ClassFile {
    type V = ClassFileView;

    open spec fn view(&self) -> ClassFileView {
        ClassFileView {
            version: self.version,
            constant_pool: slots_view(self.constant_pool@),
            access_flags: self.access_flags@,
            this_class: self.this_class@,
            super_class: optional_text_view(self.super_class),
            interfaces: texts_view(self.interfaces@),
            fields: fields_view(self.fields@),
            methods: methods_view(self.methods@),
            attributes: attributes_view(self.attributes@),
        }
    }
}

/// The value of a text that may be absent.
pub open spec fn optional_text_view(text: Option<String>) -> Option<Seq<char>> {
    match text {
        Some(s) => Some(s@),
        None => None,
    }
}

/// The values of a list of texts.
pub open spec fn texts_view(texts: Seq<String>) -> Seq<Seq<char>> {
    texts.map_values(|s: String| s@)
}

/// The values of a list of entries.
pub open spec fn entries_view(entries: Seq<CpInfo>) -> Seq<CpInfoView> {
    entries.map_values(|e: CpInfo| e@)
}

/// The value of a resolved pool slot.
pub open spec fn slot_view(slot: Option<CpInfo>) -> Option<CpInfoView> {
    match slot {
        Some(e) => Some(e@),
        None => None,
    }
}

/// The value of a resolved pool, slot by slot.
pub open spec fn slots_view(slots: Seq<Option<CpInfo>>) -> Seq<Option<CpInfoView>> {
    slots.map_values(|slot: Option<CpInfo>| slot_view(slot))
}

/// The values of a list of bootstrap methods.
pub open spec fn bootstrap_methods_view(list: Seq<BootstrapMethod>) -> Seq<BootstrapMethodView> {
    list.map_values(|m: BootstrapMethod| m@)
}

/// The values of a list of inner classes.
pub open spec fn inner_classes_view(list: Seq<InnerClass>) -> Seq<InnerClassView> {
    list.map_values(|c: InnerClass| c@)
}

/// The values of a list of attributes.
pub open spec fn attributes_view(list: Seq<AttributeInfo>) -> Seq<AttributeInfoView> {
    list.map_values(|a: AttributeInfo| a@)
}

/// The values of a list of fields.
pub open spec fn fields_view(list: Seq<FieldInfo>) -> Seq<FieldInfoView> {
    list.map_values(|f: FieldInfo| f@)
}

/// The values of a list of methods.
pub open spec fn methods_view(list: Seq<MethodInfo>) -> Seq<MethodInfoView> {
    list.map_values(|m: MethodInfo| m@)
}

/// The flags of an entry of an `InnerClasses` attribute.
#[derive(Debug, Clone, Copy, PartialEq, Eq)]
pub enum InnerClassAccessFlags {
    AccPublic,
    AccPrivate,
    AccProtected,
    AccStatic,
    AccFinal,
    AccInterface,
    AccAbstract,
    AccSynthetic,
    AccAnnotation,
    AccEnum,
}

impl AccessFlag for InnerClassAccessFlags {
    open spec fn bit_spec(&self) -> u16 {
        match *self {
            InnerClassAccessFlags::AccPublic => 0x0001,
            InnerClassAccessFlags::AccPrivate => 0x0002,
            InnerClassAccessFlags::AccProtected => 0x0004,
            InnerClassAccessFlags::AccStatic => 0x0008,
            InnerClassAccessFlags::AccFinal => 0x0010,
            InnerClassAccessFlags::AccInterface => 0x0200,
            InnerClassAccessFlags::AccAbstract => 0x0400,
            InnerClassAccessFlags::AccSynthetic => 0x1000,
            InnerClassAccessFlags::AccAnnotation => 0x2000,
            InnerClassAccessFlags::AccEnum => 0x4000,
        }
    }

    fn bit(&self) -> (r: u16) {
        match *self {
            InnerClassAccessFlags::AccPublic => 0x0001,
            InnerClassAccessFlags::AccPrivate => 0x0002,
            InnerClassAccessFlags::AccProtected => 0x0004,
            InnerClassAccessFlags::AccStatic => 0x0008,
            InnerClassAccessFlags::AccFinal => 0x0010,
            InnerClassAccessFlags::AccInterface => 0x0200,
            InnerClassAccessFlags::AccAbstract => 0x0400,
            InnerClassAccessFlags::AccSynthetic => 0x1000,
            InnerClassAccessFlags::AccAnnotation => 0x2000,
            InnerClassAccessFlags::AccEnum => 0x4000,
        }
    }
}

impl InnerClassAccessFlags {
    /// The table of this context, in the order in which flags are listed.
    pub open spec fn table() -> Seq<InnerClassAccessFlags> {
        seq![
            InnerClassAccessFlags::AccPublic,
            InnerClassAccessFlags::AccPrivate,
            InnerClassAccessFlags::AccProtected,
            InnerClassAccessFlags::AccStatic,
            InnerClassAccessFlags::AccFinal,
            InnerClassAccessFlags::AccInterface,
            InnerClassAccessFlags::AccAbstract,
            InnerClassAccessFlags::AccSynthetic,
            InnerClassAccessFlags::AccAnnotation,
            InnerClassAccessFlags::AccEnum,
        ]
    }

    /// The table as a value.
    pub fn values() -> (r: Vec<InnerClassAccessFlags>)
        ensures
            r@ == Self::table(),
    {
        let r = vec![
            InnerClassAccessFlags::AccPublic,
            InnerClassAccessFlags::AccPrivate,
            InnerClassAccessFlags::AccProtected,
            InnerClassAccessFlags::AccStatic,
            InnerClassAccessFlags::AccFinal,
            InnerClassAccessFlags::AccInterface,
            InnerClassAccessFlags::AccAbstract,
            InnerClassAccessFlags::AccSynthetic,
            InnerClassAccessFlags::AccAnnotation,
            InnerClassAccessFlags::AccEnum,
        ];
        assert(r@ =~= Self::table());
        r
    }
}

/// The flags of a field.
#[derive(Debug, Clone, Copy, PartialEq, Eq)]
pub enum FieldAccessFlags {
    AccPublic,
    AccPrivate,
    AccProcted,
    AccStatic,
    AccFinal,
    AccVolatile,
    AccTransient,
    AccSynthetic,
    AccEnum,
}

impl AccessFlag for FieldAccessFlags {
    open spec fn bit_spec(&self) -> u16 {
        match *self {
            FieldAccessFlags::AccPublic => 0x0001,
            FieldAccessFlags::AccPrivate => 0x0002,
            FieldAccessFlags::AccProcted => 0x0004,
            FieldAccessFlags::AccStatic => 0x0008,
            FieldAccessFlags::AccFinal => 0x0010,
            FieldAccessFlags::AccVolatile => 0x0040,
            FieldAccessFlags::AccTransient => 0x0080,
            FieldAccessFlags::AccSynthetic => 0x1000,
            FieldAccessFlags::AccEnum => 0x4000,
        }
    }

    fn bit(&self) -> (r: u16) {
        match *self {
            FieldAccessFlags::AccPublic => 0x0001,
            FieldAccessFlags::AccPrivate => 0x0002,
            FieldAccessFlags::AccProcted => 0x0004,
            FieldAccessFlags::AccStatic => 0x0008,
            FieldAccessFlags::AccFinal => 0x0010,
            FieldAccessFlags::AccVolatile => 0x0040,
            FieldAccessFlags::AccTransient => 0x0080,
            FieldAccessFlags::AccSynthetic => 0x1000,
            FieldAccessFlags::AccEnum => 0x4000,
        }
    }
}

impl FieldAccessFlags {
    /// The table of this context, in the order in which flags are listed.
    pub open spec fn table() -> Seq<FieldAccessFlags> {
        seq![
            FieldAccessFlags::AccPublic,
            FieldAccessFlags::AccPrivate,
            FieldAccessFlags::AccProcted,
            FieldAccessFlags::AccStatic,
            FieldAccessFlags::AccFinal,
            FieldAccessFlags::AccVolatile,
            FieldAccessFlags::AccTransient,
            FieldAccessFlags::AccSynthetic,
            FieldAccessFlags::AccEnum,
        ]
    }

    /// The table as a value.
    pub fn values() -> (r: Vec<FieldAccessFlags>)
        ensures
            r@ == Self::table(),
    {
        let r = vec![
            FieldAccessFlags::AccPublic,
            FieldAccessFlags::AccPrivate,
            FieldAccessFlags::AccProcted,
            FieldAccessFlags::AccStatic,
            FieldAccessFlags::AccFinal,
            FieldAccessFlags::AccVolatile,
            FieldAccessFlags::AccTransient,
            FieldAccessFlags::AccSynthetic,
            FieldAccessFlags::AccEnum,
        ];
        assert(r@ =~= Self::table());
        r
    }
}

/// The flags of a method.
#[derive(Debug, Clone, Copy, PartialEq, Eq)]
pub enum MethodAccessFlags {
    AccPublic,
    AccPrivate,
    AccProcted,
    AccStatic,
    AccFinal,
    AccSynthronized,
    AccBridge,
    AccVarargs,
    AccNative,
    AccAbstract,
    AccStrict,
    AccSynthetic,
}

impl AccessFlag for MethodAccessFlags {
    open spec fn bit_spec(&self) -> u16 {
        match *self {
            MethodAccessFlags::AccPublic => 0x0001,
            MethodAccessFlags::AccPrivate => 0x0002,
            MethodAccessFlags::AccProcted => 0x0004,
            MethodAccessFlags::AccStatic => 0x0008,
            MethodAccessFlags::AccFinal => 0x0010,
            MethodAccessFlags::AccSynthronized => 0x0020,
            MethodAccessFlags::AccBridge => 0x0040,
            MethodAccessFlags::AccVarargs => 0x0080,
            MethodAccessFlags::AccNative => 0x0100,
            MethodAccessFlags::AccAbstract => 0x0400,
            MethodAccessFlags::AccStrict => 0x0800,
            MethodAccessFlags::AccSynthetic => 0x1000,
        }
    }

    fn bit(&self) -> (r: u16) {
        match *self {
            MethodAccessFlags::AccPublic => 0x0001,
            MethodAccessFlags::AccPrivate => 0x0002,
            MethodAccessFlags::AccProcted => 0x0004,
            MethodAccessFlags::AccStatic => 0x0008,
            MethodAccessFlags::AccFinal => 0x0010,
            MethodAccessFlags::AccSynthronized => 0x0020,
            MethodAccessFlags::AccBridge => 0x0040,
            MethodAccessFlags::AccVarargs => 0x0080,
            MethodAccessFlags::AccNative => 0x0100,
            MethodAccessFlags::AccAbstract => 0x0400,
            MethodAccessFlags::AccStrict => 0x0800,
            MethodAccessFlags::AccSynthetic => 0x1000,
        }
    }
}

impl MethodAccessFlags {
    /// The table of this context, in the order in which flags are listed.
    pub open spec fn table() -> Seq<MethodAccessFlags> {
        seq![
            MethodAccessFlags::AccPublic,
            MethodAccessFlags::AccPrivate,
            MethodAccessFlags::AccProcted,
            MethodAccessFlags::AccStatic,
            MethodAccessFlags::AccFinal,
            MethodAccessFlags::AccSynthronized,
            MethodAccessFlags::AccBridge,
            MethodAccessFlags::AccVarargs,
            MethodAccessFlags::AccNative,
            MethodAccessFlags::AccAbstract,
            MethodAccessFlags::AccStrict,
            MethodAccessFlags::AccSynthetic,
        ]
    }

    /// The table as a value.
    pub fn values() -> (r: Vec<MethodAccessFlags>)
        ensures
            r@ == Self::table(),
    {
        let r = vec![
            MethodAccessFlags::AccPublic,
            MethodAccessFlags::AccPrivate,
            MethodAccessFlags::AccProcted,
            MethodAccessFlags::AccStatic,
            MethodAccessFlags::AccFinal,
            MethodAccessFlags::AccSynthronized,
            MethodAccessFlags::AccBridge,
            MethodAccessFlags::AccVarargs,
            MethodAccessFlags::AccNative,
            MethodAccessFlags::AccAbstract,
            MethodAccessFlags::AccStrict,
            MethodAccessFlags::AccSynthetic,
        ];
        assert(r@ =~= Self::table());
        r
    }
}

/// The flags of a class.
#[derive(Debug, Clone, Copy, PartialEq, Eq)]
pub enum ClassAccessFlags {
    AccPublic,
    AccFinal,
    AccSuper,
    AccInterface,
    AccAbstract,
    AccSynthetic,
    AccAnnotation,
    AccEnum,
    AccModule,
}

impl AccessFlag for ClassAccessFlags {
    open spec fn bit_spec(&self) -> u16 {
        match *self {
            ClassAccessFlags::AccPublic => 0x0001,
            ClassAccessFlags::AccFinal => 0x0010,
            ClassAccessFlags::AccSuper => 0x0020,
            ClassAccessFlags::AccInterface => 0x0200,
            ClassAccessFlags::AccAbstract => 0x0400,
            ClassAccessFlags::AccSynthetic => 0x1000,
            ClassAccessFlags::AccAnnotation => 0x2000,
            ClassAccessFlags::AccEnum => 0x4000,
            ClassAccessFlags::AccModule => 0x8000,
        }
    }

    fn bit(&self) -> (r: u16) {
        match *self {
            ClassAccessFlags::AccPublic => 0x0001,
            ClassAccessFlags::AccFinal => 0x0010,
            ClassAccessFlags::AccSuper => 0x0020,
            ClassAccessFlags::AccInterface => 0x0200,
            ClassAccessFlags::AccAbstract => 0x0400,
            ClassAccessFlags::AccSynthetic => 0x1000,
            ClassAccessFlags::AccAnnotation => 0x2000,
            ClassAccessFlags::AccEnum => 0x4000,
            ClassAccessFlags::AccModule => 0x8000,
        }
    }
}

impl ClassAccessFlags {
    /// The table of this context, in the order in which flags are listed.
    pub open spec fn table() -> Seq<ClassAccessFlags> {
        seq![
            ClassAccessFlags::AccPublic,
            ClassAccessFlags::AccFinal,
            ClassAccessFlags::AccSuper,
            ClassAccessFlags::AccInterface,
            ClassAccessFlags::AccAbstract,
            ClassAccessFlags::AccSynthetic,
            ClassAccessFlags::AccAnnotation,
            ClassAccessFlags::AccEnum,
            ClassAccessFlags::AccModule,
        ]
    }

    /// The table as a value.
    pub fn values() -> (r: Vec<ClassAccessFlags>)
        ensures
            r@ == Self::table(),
    {
        let r = vec![
            ClassAccessFlags::AccPublic,
            ClassAccessFlags::AccFinal,
            ClassAccessFlags::AccSuper,
            ClassAccessFlags::AccInterface,
            ClassAccessFlags::AccAbstract,
            ClassAccessFlags::AccSynthetic,
            ClassAccessFlags::AccAnnotation,
            ClassAccessFlags::AccEnum,
            ClassAccessFlags::AccModule,
        ];
        assert(r@ =~= Self::table());
        r
    }
}

/// Decodes a class's flags word: the flags whose bits are set, in the order of
/// the table. A word with a bit that the table does not name is refused, and
/// no other word is.
pub fn parse_class_access_flags(flags: u16) -> (r: Result<Vec<ClassAccessFlags>, ParseError>)
    ensures
        match decoded(flags, ClassAccessFlags::table()) {
            Ok(list) => r is Ok && r->Ok_0@ == list,
            Err(e) => r == Err::<Vec<ClassAccessFlags>, ParseError>(e),
        },
        r is Ok <==> flags & !union_bits(ClassAccessFlags::table()) == 0,
        r is Ok ==> union_bits(r->Ok_0@) == flags,
{
    proof {
        lemma_decode_round_trip(flags, ClassAccessFlags::table());
    }
    let table = ClassAccessFlags::values();
    decode_flags(flags, &table)
}

/// Decodes a field's flags word: the flags whose bits are set, in the order of
/// the table. A word with a bit that the table does not name is refused, and
/// no other word is.
pub fn parse_field_access_flags(flags: u16) -> (r: Result<Vec<FieldAccessFlags>, ParseError>)
    ensures
        match decoded(flags, FieldAccessFlags::table()) {
            Ok(list) => r is Ok && r->Ok_0@ == list,
            Err(e) => r == Err::<Vec<FieldAccessFlags>, ParseError>(e),
        },
        r is Ok <==> flags & !union_bits(FieldAccessFlags::table()) == 0,
        r is Ok ==> union_bits(r->Ok_0@) == flags,
{
    proof {
        lemma_decode_round_trip(flags, FieldAccessFlags::table());
    }
    let table = FieldAccessFlags::values();
    decode_flags(flags, &table)
}

/// Decodes a method's flags word: the flags whose bits are set, in the order of
/// the table. A word with a bit that the table does not name is refused, and
/// no other word is.
pub fn parse_method_access_flags(flags: u16) -> (r: Result<Vec<MethodAccessFlags>, ParseError>)
    ensures
        match decoded(flags, MethodAccessFlags::table()) {
            Ok(list) => r is Ok && r->Ok_0@ == list,
            Err(e) => r == Err::<Vec<MethodAccessFlags>, ParseError>(e),
        },
        r is Ok <==> flags & !union_bits(MethodAccessFlags::table()) == 0,
        r is Ok ==> union_bits(r->Ok_0@) == flags,
{
    proof {
        lemma_decode_round_trip(flags, MethodAccessFlags::table());
    }
    let table = MethodAccessFlags::values();
    decode_flags(flags, &table)
}

/// Decodes an inner class's flags word: the flags whose bits are set, in the order of
/// the table. A word with a bit that the table does not name is refused, and
/// no other word is.
pub fn parse_inner_class_access_flags(
    flags: u16,
) -> (r: Result<Vec<InnerClassAccessFlags>, ParseError>)
    ensures
        match decoded(flags, InnerClassAccessFlags::table()) {
            Ok(list) => r is Ok && r->Ok_0@ == list,
            Err(e) => r == Err::<Vec<InnerClassAccessFlags>, ParseError>(e),
        },
        r is Ok <==> flags & !union_bits(InnerClassAccessFlags::table()) == 0,
        r is Ok ==> union_bits(r->Ok_0@) == flags,
{
    proof {
        lemma_decode_round_trip(flags, InnerClassAccessFlags::table());
    }
    let table = InnerClassAccessFlags::values();
    decode_flags(flags, &table)
}

/// The slots of `pool`, each resolved by itself, added to `acc` in order.
pub open spec fn slots_of(
    pool: PoolView,
    acc: Seq<Option<CpInfoView>>,
) -> Result<Seq<Option<CpInfoView>>, ParseError>
    decreases pool.len() - acc.len(),
{
    if acc.len() >= pool.len() {
        Ok(acc)
    } else {
        match slot_of(pool, pool[acc.len() as int]) {
            Err(e) => Err(e),
            Ok(v) => slots_of(pool, acc.push(v)),
        }
    }
}

/// The names of the classes at `indices`, added to `acc` in order.
pub open spec fn class_names_of(
    pool: PoolView,
    indices: Seq<u16>,
    acc: Seq<Seq<char>>,
) -> Result<Seq<Seq<char>>, ParseError>
    decreases indices.len() - acc.len(),
{
    if acc.len() >= indices.len() {
        Ok(acc)
    } else {
        match class_name_at(pool, indices[acc.len() as int]) {
            Err(e) => Err(e),
            Ok(name) => class_names_of(pool, indices, acc.push(name)),
        }
    }
}

/// The fields that `raws` denote, added to `acc` in order.
pub open spec fn fields_of(
    pool: PoolView,
    raws: Seq<raw::MemberView>,
    acc: Seq<FieldInfoView>,
) -> Result<Seq<FieldInfoView>, ParseError>
    decreases raws.len() - acc.len(),
{
    if acc.len() >= raws.len() {
        Ok(acc)
    } else {
        match field_of(pool, raws[acc.len() as int]) {
            Err(e) => Err(e),
            Ok(f) => fields_of(pool, raws, acc.push(f)),
        }
    }
}

/// The methods that `raws` denote, added to `acc` in order.
pub open spec fn methods_of(
    pool: PoolView,
    raws: Seq<raw::MemberView>,
    acc: Seq<MethodInfoView>,
) -> Result<Seq<MethodInfoView>, ParseError>
    decreases raws.len() - acc.len(),
{
    if acc.len() >= raws.len() {
        Ok(acc)
    } else {
        match method_of(pool, raws[acc.len() as int]) {
            Err(e) => Err(e),
            Ok(m) => methods_of(pool, raws, acc.push(m)),
        }
    }
}

/// The super class: index 0 stands for none, any other has to lead to a class.
pub open spec fn super_class_of(
    pool: PoolView,
    index: u16,
) -> Result<Option<Seq<char>>, ParseError> {
    if index == 0 {
        Ok(None)
    } else {
        match class_name_at(pool, index) {
            Err(e) => Err(e),
            Ok(name) => Ok(Some(name)),
        }
    }
}

/// The resolved model of a record tree, or the first error met on the way:
/// the pool slot by slot, the class's flags, this class, the super class, the
/// interfaces, the fields, the methods, the attributes.
pub open spec fn class_of(raw: raw::ClassFileView) -> Result<ClassFileView, ParseError> {
    let pool = raw.constant_pool;
    if raw.magic != MAGIC {
        Err(ParseError::BadMagicNumber)
    } else {
        match slots_of(pool, Seq::empty()) {
            Err(e) => Err(e),
            Ok(constant_pool) => match decoded(raw.access_flags, ClassAccessFlags::table()) {
                Err(e) => Err(e),
                Ok(access_flags) => match class_name_at(pool, raw.this_class) {
                    Err(e) => Err(e),
                    Ok(this_class) => match super_class_of(pool, raw.super_class) {
                        Err(e) => Err(e),
                        Ok(super_class) => match class_names_of(pool, raw.interfaces, Seq::empty()) {
                            Err(e) => Err(e),
                            Ok(interfaces) => match fields_of(pool, raw.fields, Seq::empty()) {
                                Err(e) => Err(e),
                                Ok(fields) => match methods_of(pool, raw.methods, Seq::empty()) {
                                    Err(e) => Err(e),
                                    Ok(methods) => match attributes_of(
                                        pool,
                                        raw.attributes,
                                        Seq::empty(),
                                    ) {
                                        Err(e) => Err(e),
                                        Ok(attributes) => Ok(
                                            ClassFileView {
                                                version: ClassFileVersion {
                                                    major_version: raw.major_version,
                                                    minor_version: raw.minor_version,
                                                },
                                                constant_pool,
                                                access_flags,
                                                this_class,
                                                super_class,
                                                interfaces,
                                                fields,
                                                methods,
                                                attributes,
                                            },
                                        ),
                                    },
                                },
                            },
                        },
                    },
                },
            },
        }
    }
}

/// Resolves every slot of the pool by itself.
fn resolve_pool(pool: &[Option<raw::CpInfo>]) -> (r: Result<Vec<Option<CpInfo>>, ParseError>)
    ensures
        match slots_of(pool_view(pool@), Seq::empty()) {
            Ok(v) => r is Ok && slots_view(r->Ok_0@) == v && r->Ok_0@.len() == pool@.len(),
            Err(e) => r == Err::<Vec<Option<CpInfo>>, ParseError>(e),
        },
{
    let mut items: Vec<Option<CpInfo>> = Vec::new();
    assert(slots_view(items@) =~= Seq::empty());
    while items.len() < pool.len()
        invariant
            items.len() <= pool.len(),
            slots_of(pool_view(pool@), Seq::empty()) == slots_of(pool_view(pool@), slots_view(items@)),
        decreases pool.len() - items.len(),
    {
        let ghost before = slots_view(items@);
        let item = parse_cp_info(pool, &pool[items.len()])?;
        items.push(item);
        assert(slots_view(items@) =~= before.push(slot_view(item)));
    }
    Ok(items)
}

/// Resolves each index of the list to the name of a class.
fn resolve_classes(
    pool: &[Option<raw::CpInfo>],
    indices: &Vec<u16>,
) -> (r: Result<Vec<String>, ParseError>)
    ensures
        match class_names_of(pool_view(pool@), indices@, Seq::empty()) {
            Ok(v) => r is Ok && texts_view(r->Ok_0@) == v && r->Ok_0@.len() == indices@.len(),
            Err(e) => r == Err::<Vec<String>, ParseError>(e),
        },
{
    let mut items: Vec<String> = Vec::new();
    assert(texts_view(items@) =~= Seq::empty());
    while items.len() < indices.len()
        invariant
            items.len() <= indices.len(),
            class_names_of(pool_view(pool@), indices@, Seq::empty()) == class_names_of(pool_view(pool@), indices@, texts_view(items@)),
        decreases indices.len() - items.len(),
    {
        let ghost before = texts_view(items@);
        let item = resolve_class(pool, indices[items.len()])?;
        items.push(item);
        assert(texts_view(items@) =~= before.push(item@));
    }
    Ok(items)
}

/// Resolves each field of the list.
fn parse_fields(
    pool: &[Option<raw::CpInfo>],
    fields: &Vec<raw::FieldInfo>,
) -> (r: Result<Vec<FieldInfo>, ParseError>)
    ensures
        match fields_of(pool_view(pool@), raw::fields_view(fields@), Seq::empty()) {
            Ok(v) => r is Ok && fields_view(r->Ok_0@) == v && r->Ok_0@.len() == fields@.len(),
            Err(e) => r == Err::<Vec<FieldInfo>, ParseError>(e),
        },
{
    let ghost raws = raw::fields_view(fields@);
    let mut items: Vec<FieldInfo> = Vec::new();
    assert(fields_view(items@) =~= Seq::empty());
    while items.len() < fields.len()
        invariant
            items.len() <= fields.len(),
            raws == raw::fields_view(fields@),
            fields_of(pool_view(pool@), raws, Seq::empty()) == fields_of(pool_view(pool@), raws, fields_view(items@)),
        decreases fields.len() - items.len(),
    {
        let ghost before = fields_view(items@);
        let item = parse_field(pool, &fields[items.len()])?;
        items.push(item);
        assert(fields_view(items@) =~= before.push(item@));
    }
    Ok(items)
}

/// Resolves each method of the list.
fn parse_methods(
    pool: &[Option<raw::CpInfo>],
    methods: &Vec<raw::MethodInfo>,
) -> (r: Result<Vec<MethodInfo>, ParseError>)
    ensures
        match methods_of(pool_view(pool@), raw::methods_view(methods@), Seq::empty()) {
            Ok(v) => r is Ok && methods_view(r->Ok_0@) == v && r->Ok_0@.len() == methods@.len(),
            Err(e) => r == Err::<Vec<MethodInfo>, ParseError>(e),
        },
{
    let ghost raws = raw::methods_view(methods@);
    let mut items: Vec<MethodInfo> = Vec::new();
    assert(methods_view(items@) =~= Seq::empty());
    while items.len() < methods.len()
        invariant
            items.len() <= methods.len(),
            raws == raw::methods_view(methods@),
            methods_of(pool_view(pool@), raws, Seq::empty()) == methods_of(pool_view(pool@), raws, methods_view(items@)),
        decreases methods.len() - items.len(),
    {
        let ghost before = methods_view(items@);
        let item = parse_method(pool, &methods[items.len()])?;
        items.push(item);
        assert(methods_view(items@) =~= before.push(item@));
    }
    Ok(items)
}

/// Decodes the bytes of one class file into its record tree: see
/// [`raw::parse`].
pub fn parse_raw(input: &[u8]) -> (r: Result<raw::ClassFile, ParseError>)
    ensures
        yields(class_file_of(input@), r),
        input@.len() >= 4 && !has_magic(input@) ==> r == Err::<raw::ClassFile, ParseError>(
            ParseError::BadMagicNumber,
        ),
        r is Ok ==> r->Ok_0.magic == MAGIC,
        r is Ok ==> pool_complete(pool_view(r->Ok_0.constant_pool@), u2_at(input@, 8)->Ok_0.0 as int),
        r is Ok ==> phantoms_empty(pool_view(r->Ok_0.constant_pool@)),
        r is Ok ==> only_phantoms_empty(pool_view(r->Ok_0.constant_pool@)),
{
    raw::parse(input)
}

/// Replaces every index of a record tree by what it denotes.
///
/// The result is exactly [`class_of`] of the tree: the whole model, or the
/// error of the first step that fails. The constant pool of the model has a
/// slot for each slot of the tree's pool, empty or of the same kind, and each
/// list of the model is as long as the tree's.
pub fn wrap(raw: &raw::ClassFile) -> (r: Result<ClassFile, ParseError>)
    ensures
        yields(class_of(raw@), r),
        r is Ok ==> r->Ok_0.constant_pool@.len() == raw.constant_pool@.len(),
        r is Ok ==> forall|i: int|
            0 <= i < raw.constant_pool@.len() ==> same_kind(
                pool_view(raw.constant_pool@)[i],
                #[trigger] slots_view(r->Ok_0.constant_pool@)[i],
            ),
        r is Ok ==> r->Ok_0.interfaces@.len() == raw.interfaces@.len(),
        r is Ok ==> r->Ok_0.fields@.len() == raw.fields@.len(),
        r is Ok ==> r->Ok_0.methods@.len() == raw.methods@.len(),
        r is Ok ==> r->Ok_0.attributes@.len() == raw.attributes@.len(),
{
    if raw.magic != MAGIC {
        return Err(ParseError::BadMagicNumber);
    }
    let pool = raw.constant_pool.as_slice();
    let constant_pool = resolve_pool(pool)?;
    proof {
        lemma_slots_keep_kind(pool_view(pool@), Seq::empty());
    }
    let access_flags = parse_class_access_flags(raw.access_flags)?;
    let this_class = resolve_class(pool, raw.this_class)?;
    let super_class = if raw.super_class == 0 {
        None
    } else {
        Some(resolve_class(pool, raw.super_class)?)
    };
    let interfaces = resolve_classes(pool, &raw.interfaces)?;
    let fields = parse_fields(pool, &raw.fields)?;
    let methods = parse_methods(pool, &raw.methods)?;
    let attributes = parse_attributes(pool, &raw.attributes)?;
    Ok(
        ClassFile {
            magic: Magic,
            version: ClassFileVersion {
                major_version: raw.major_version,
                minor_version: raw.minor_version,
            },
            constant_pool,
            access_flags,
            this_class,
            super_class,
            interfaces,
            fields,
            methods,
            attributes,
        },
    )
}

/// Decodes the bytes of one class file into the resolved model: the record
/// tree first, then the resolution of its indices. The constant pool of the
/// model has as many slots as the input declares (see
/// [`model_pool_complete`]).
pub fn decode(input: &[u8]) -> (r: Result<ClassFile, ParseError>)
    ensures
        match class_file_of(input@) {
            Err(e) => r == Err::<ClassFile, ParseError>(e),
            Ok(tree) => yields(class_of(tree), r),
        },
        input@.len() >= 4 && !has_magic(input@) ==> r == Err::<ClassFile, ParseError>(
            ParseError::BadMagicNumber,
        ),
        r is Ok ==> model_pool_complete(
            slots_view(r->Ok_0.constant_pool@),
            u2_at(input@, 8)->Ok_0.0 as int,
        ),
{
    let tree = parse_raw(input)?;
    let r = wrap(&tree);
    proof {
        if r is Ok {
            let pool = pool_view(tree.constant_pool@);
            let count = u2_at(input@, 8)->Ok_0.0 as int;
            if pool.len() == count + 1 && count != 0 {
                assert(raw::wide_at(pool, count - 1));
                assert(same_kind(pool[count - 1], slots_view(r->Ok_0.constant_pool@)[count - 1]));
            }
        }
    }
    r
}

/// Resolution keeps the layout of the pool: the result has a slot for each
/// slot, empty where the pool's slot is empty and an entry of the same kind
/// where it holds one.
pub proof fn lemma_slots_keep_kind(pool: PoolView, acc: Seq<Option<CpInfoView>>)
    requires
        acc.len() <= pool.len(),
        forall|i: int| 0 <= i < acc.len() ==> same_kind(pool[i], #[trigger] acc[i]),
        slots_of(pool, acc) is Ok,
    ensures
        slots_of(pool, acc)->Ok_0.len() == pool.len(),
        forall|i: int|
            0 <= i < pool.len() ==> same_kind(pool[i], #[trigger] slots_of(pool, acc)->Ok_0[i]),
    decreases pool.len() - acc.len(),
{
    if acc.len() < pool.len() {
        let slot = pool[acc.len() as int];
        let next = acc.push(slot_of(pool, slot)->Ok_0);
        lemma_resolution_keeps_kind(pool, slot);
        assert forall|i: int| 0 <= i < next.len() implies same_kind(pool[i], #[trigger] next[i]) by {
            if i < acc.len() {
                assert(next[i] == acc[i]);
            }
        }
        lemma_slots_keep_kind(pool, next);
    }
}

/// The pool of a model has as many slots as `count` declares. The two
/// exceptions: a count of 0 still leaves the empty slot 0, and a `Long` or
/// `Double` in the last declared slot brings its empty slot with it.
pub open spec fn model_pool_complete(pool: Seq<Option<CpInfoView>>, count: int) -> bool {
    ||| pool.len() == count
    ||| count == 0 && pool.len() == 1
    ||| pool.len() == count + 1 && count >= 1 && pool[count - 1] is Some && (pool[count
        - 1]->Some_0 is Long || pool[count - 1]->Some_0 is Double)
}

/// A slot and its resolved value are both empty, or hold an entry of the same
/// kind.
pub open spec fn same_kind(slot: Option<raw::CpInfoView>, resolved: Option<CpInfoView>) -> bool {
    resolved_kind_of(resolved) == kind_of(slot)
}

} // verus!
