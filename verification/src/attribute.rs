//! The attribute interpreter: an attribute's payload is decoded by the layout
//! that belongs to the attribute's name. Six names have a layout of their
//! own; the payload of any other attribute is kept as it is.
use crate::flags::decoded;
use crate::raw;
use crate::raw::{
    advanced, pool_view, read_u2, u2_at, ByteStream, ConstantKind, ExpectedKind, ParseError,
};
use crate::resolve::{
    class_name_at, constant_at, entry_at, lemma_phantom_reference_fails, method_handle_at,
    resolve_class, resolve_constant, resolve_index, resolve_method_handle, resolve_utf8, text_at,
    yields, PoolView,
};
use crate::{
    attributes_view, bootstrap_methods_view, entries_view, inner_classes_view,
    parse_field_access_flags, parse_inner_class_access_flags, parse_method_access_flags,
    texts_view, AttributeInfo, AttributeInfoView, BootstrapMethod, BootstrapMethodView, CpInfo,
    CpInfoView, FieldAccessFlags, FieldInfo, FieldInfoView, InnerClass, InnerClassAccessFlags,
    InnerClassView, MethodAccessFlags, MethodInfo, MethodInfoView,
};
use vstd::prelude::*;
use vstd::slice::slice_to_vec;
use vstd::string::StringExecFns;

verus! {

/// The 16-bit number at `p` of a payload. A payload that ends before it is
/// malformed.
pub open spec fn word_at(info: Seq<u8>, p: int) -> Result<(u16, int), ParseError> {
    match u2_at(info, p) {
        Ok(x) => Ok(x),
        Err(_) => Err(ParseError::MalformedAttribute),
    }
}

/// The one index that makes up a whole payload.
pub open spec fn single_index_of(info: Seq<u8>) -> Result<u16, ParseError> {
    match word_at(info, 0) {
        Err(e) => Err(e),
        Ok((index, p)) => if p != info.len() {
            Err(ParseError::MalformedAttribute)
        } else {
            Ok(index)
        },
    }
}

/// The class names behind the indices from `p` on, added to `acc` until it
/// has `n` names.
pub open spec fn class_names_from(
    pool: PoolView,
    info: Seq<u8>,
    p: int,
    n: int,
    acc: Seq<Seq<char>>,
) -> Result<Seq<Seq<char>>, ParseError>
    decreases n - acc.len(),
{
    if acc.len() >= n {
        Ok(acc)
    } else {
        match word_at(info, p) {
            Err(e) => Err(e),
            Ok((index, q)) => match class_name_at(pool, index) {
                Err(e) => Err(e),
                Ok(name) => class_names_from(pool, info, q, n, acc.push(name)),
            },
        }
    }
}

/// An `Exceptions` payload: a count and exactly that many class indices.
pub open spec fn exceptions_of(
    pool: PoolView,
    info: Seq<u8>,
) -> Result<Seq<Seq<char>>, ParseError> {
    match word_at(info, 0) {
        Err(e) => Err(e),
        Ok((n, p)) => if info.len() - p != 2 * n {
            Err(ParseError::MalformedAttribute)
        } else {
            class_names_from(pool, info, p, n as int, Seq::empty())
        },
    }
}

/// The entries behind the indices from `p` on, added to `acc` until it has
/// `n` entries.
pub open spec fn arguments_from(
    pool: PoolView,
    info: Seq<u8>,
    p: int,
    n: int,
    acc: Seq<CpInfoView>,
) -> Result<(Seq<CpInfoView>, int), ParseError>
    decreases n - acc.len(),
{
    if acc.len() >= n {
        Ok((acc, p))
    } else {
        match word_at(info, p) {
            Err(e) => Err(e),
            Ok((index, q)) => match entry_at(pool, index) {
                Err(e) => Err(e),
                Ok(entry) => arguments_from(pool, info, q, n, acc.push(entry)),
            },
        }
    }
}

/// One record of a `BootstrapMethods` payload: the index of a method handle,
/// a count, and that many indices of arguments of any kind.
pub open spec fn bootstrap_method_at(
    pool: PoolView,
    info: Seq<u8>,
    p: int,
) -> Result<(BootstrapMethodView, int), ParseError> {
    match word_at(info, p) {
        Err(e) => Err(e),
        Ok((index, p1)) => match method_handle_at(pool, index) {
            Err(e) => Err(e),
            Ok((reference_kind, (class, name, descriptor))) => match word_at(info, p1) {
                Err(e) => Err(e),
                Ok((n, p2)) => match arguments_from(pool, info, p2, n as int, Seq::empty()) {
                    Err(e) => Err(e),
                    Ok((bootstrap_arguments, p3)) => Ok(
                        (
                            BootstrapMethodView {
                                reference_kind,
                                class,
                                name,
                                descriptor,
                                bootstrap_arguments,
                            },
                            p3,
                        ),
                    ),
                },
            },
        },
    }
}

/// The records from `p` on, added to `acc` until it has `n` records.
pub open spec fn bootstrap_methods_from(
    pool: PoolView,
    info: Seq<u8>,
    p: int,
    n: int,
    acc: Seq<BootstrapMethodView>,
) -> Result<(Seq<BootstrapMethodView>, int), ParseError>
    decreases n - acc.len(),
{
    if acc.len() >= n {
        Ok((acc, p))
    } else {
        match bootstrap_method_at(pool, info, p) {
            Err(e) => Err(e),
            Ok((m, q)) => bootstrap_methods_from(pool, info, q, n, acc.push(m)),
        }
    }
}

/// A `BootstrapMethods` payload: a count and that many records, which use up
/// the payload.
pub open spec fn bootstrap_methods_of(
    pool: PoolView,
    info: Seq<u8>,
) -> Result<Seq<BootstrapMethodView>, ParseError> {
    match word_at(info, 0) {
        Err(e) => Err(e),
        Ok((n, p)) => match bootstrap_methods_from(pool, info, p, n as int, Seq::empty()) {
            Err(e) => Err(e),
            Ok((list, q)) => if q != info.len() {
                Err(ParseError::MalformedAttribute)
            } else {
                Ok(list)
            },
        },
    }
}

/// The class name at `index`, where index 0 stands for none.
pub open spec fn optional_class_at(
    pool: PoolView,
    index: u16,
) -> Result<Option<Seq<char>>, ParseError> {
    if index == 0 {
        Ok(None)
    } else {
        match class_name_at(pool, index) {
            Err(e) => Err(e),
            Ok(name) => Ok(Some(name)),
        }
    }
}

/// The text at `index`, where index 0 stands for none.
pub open spec fn optional_text_at(
    pool: PoolView,
    index: u16,
) -> Result<Option<Seq<char>>, ParseError> {
    if index == 0 {
        Ok(None)
    } else {
        match text_at(pool, index) {
            Err(e) => Err(e),
            Ok(text) => Ok(Some(text)),
        }
    }
}

/// One record of an `InnerClasses` payload: inner class, outer class or 0,
/// inner name or 0, and a flags word.
pub open spec fn inner_class_at(
    pool: PoolView,
    info: Seq<u8>,
    p: int,
) -> Result<(InnerClassView, int), ParseError> {
    match word_at(info, p) {
        Err(e) => Err(e),
        Ok((inner, p1)) => match class_name_at(pool, inner) {
            Err(e) => Err(e),
            Ok(inner_class_info) => match word_at(info, p1) {
                Err(e) => Err(e),
                Ok((outer, p2)) => match optional_class_at(pool, outer) {
                    Err(e) => Err(e),
                    Ok(outer_class_info) => match word_at(info, p2) {
                        Err(e) => Err(e),
                        Ok((name_index, p3)) => match optional_text_at(pool, name_index) {
                            Err(e) => Err(e),
                            Ok(inner_name) => match word_at(info, p3) {
                                Err(e) => Err(e),
                                Ok((flags, p4)) => match decoded(
                                    flags,
                                    InnerClassAccessFlags::table(),
                                ) {
                                    Err(e) => Err(e),
                                    Ok(inner_class_access_flags) => Ok(
                                        (
                                            InnerClassView {
                                                inner_class_info,
                                                outer_class_info,
                                                inner_name,
                                                inner_class_access_flags,
                                            },
                                            p4,
                                        ),
                                    ),
                                },
                            },
                        },
                    },
                },
            },
        },
    }
}

/// The records from `p` on, added to `acc` until it has `n` records.
pub open spec fn inner_classes_from(
    pool: PoolView,
    info: Seq<u8>,
    p: int,
    n: int,
    acc: Seq<InnerClassView>,
) -> Result<(Seq<InnerClassView>, int), ParseError>
    decreases n - acc.len(),
{
    if acc.len() >= n {
        Ok((acc, p))
    } else {
        match inner_class_at(pool, info, p) {
            Err(e) => Err(e),
            Ok((c, q)) => inner_classes_from(pool, info, q, n, acc.push(c)),
        }
    }
}

/// An `InnerClasses` payload: a count and that many records, which use up the
/// payload.
pub open spec fn inner_classes_of(
    pool: PoolView,
    info: Seq<u8>,
) -> Result<Seq<InnerClassView>, ParseError> {
    match word_at(info, 0) {
        Err(e) => Err(e),
        Ok((n, p)) => match inner_classes_from(pool, info, p, n as int, Seq::empty()) {
            Err(e) => Err(e),
            Ok((list, q)) => if q != info.len() {
                Err(ParseError::MalformedAttribute)
            } else {
                Ok(list)
            },
        },
    }
}

/// What the attribute with the resolved name `name` and the payload `info`
/// denotes. A name without a layout of its own gives `Unknown`, with the name
/// and the payload as they are.
pub open spec fn interpreted(
    name: Seq<char>,
    info: Seq<u8>,
    pool: PoolView,
) -> Result<AttributeInfoView, ParseError> {
    if name == "ConstantValue"@ {
        match single_index_of(info) {
            Err(e) => Err(e),
            Ok(index) => match constant_at(pool, index) {
                Err(e) => Err(e),
                Ok(v) => Ok(AttributeInfoView::ConstantValue(v)),
            },
        }
    } else if name == "Code"@ {
        Ok(AttributeInfoView::Code(info))
    } else if name == "Exceptions"@ {
        match exceptions_of(pool, info) {
            Err(e) => Err(e),
            Ok(names) => Ok(AttributeInfoView::Exceptions(names)),
        }
    } else if name == "SourceFile"@ {
        match single_index_of(info) {
            Err(e) => Err(e),
            Ok(index) => match text_at(pool, index) {
                Err(e) => Err(e),
                Ok(text) => Ok(AttributeInfoView::SourceFile(text)),
            },
        }
    } else if name == "BootstrapMethods"@ {
        match bootstrap_methods_of(pool, info) {
            Err(e) => Err(e),
            Ok(list) => Ok(AttributeInfoView::BootstrapMethods(list)),
        }
    } else if name == "InnerClasses"@ {
        match inner_classes_of(pool, info) {
            Err(e) => Err(e),
            Ok(list) => Ok(AttributeInfoView::InnerClasses(list)),
        }
    } else {
        Ok(AttributeInfoView::Unknown(name, info))
    }
}

/// What a raw attribute denotes: its name index has to lead to text, and the
/// text decides how the payload is read.
pub open spec fn attribute_of(
    pool: PoolView,
    attribute: raw::AttributeInfoView,
) -> Result<AttributeInfoView, ParseError> {
    match text_at(pool, attribute.attribute_name_index) {
        Err(e) => Err(e),
        Ok(name) => interpreted(name, attribute.info, pool),
    }
}

/// The attributes that `raws` denote, one by one, added to `acc`.
pub open spec fn attributes_of(
    pool: PoolView,
    raws: Seq<raw::AttributeInfoView>,
    acc: Seq<AttributeInfoView>,
) -> Result<Seq<AttributeInfoView>, ParseError>
    decreases raws.len() - acc.len(),
{
    if acc.len() >= raws.len() {
        Ok(acc)
    } else {
        match attribute_of(pool, raws[acc.len() as int]) {
            Err(e) => Err(e),
            Ok(a) => attributes_of(pool, raws, acc.push(a)),
        }
    }
}

/// What a raw field denotes.
pub open spec fn field_of(
    pool: PoolView,
    field: raw::MemberView,
) -> Result<FieldInfoView, ParseError> {
    match decoded(field.access_flags, FieldAccessFlags::table()) {
        Err(e) => Err(e),
        Ok(access_flags) => match text_at(pool, field.name_index) {
            Err(e) => Err(e),
            Ok(name) => match text_at(pool, field.descriptor_index) {
                Err(e) => Err(e),
                Ok(descriptor) => match attributes_of(pool, field.attributes, Seq::empty()) {
                    Err(e) => Err(e),
                    Ok(attributes) => Ok(
                        FieldInfoView { access_flags, name, descriptor, attributes },
                    ),
                },
            },
        },
    }
}

/// What a raw method denotes.
pub open spec fn method_of(
    pool: PoolView,
    method: raw::MemberView,
) -> Result<MethodInfoView, ParseError> {
    match decoded(method.access_flags, MethodAccessFlags::table()) {
        Err(e) => Err(e),
        Ok(access_flags) => match text_at(pool, method.name_index) {
            Err(e) => Err(e),
            Ok(name) => match text_at(pool, method.descriptor_index) {
                Err(e) => Err(e),
                Ok(descriptor) => match attributes_of(pool, method.attributes, Seq::empty()) {
                    Err(e) => Err(e),
                    Ok(attributes) => Ok(
                        MethodInfoView { access_flags, name, descriptor, attributes },
                    ),
                },
            },
        },
    }
}

fn read_word(input: &mut ByteStream) -> (r: Result<u16, ParseError>)
    requires
        old(input).wf(),
    ensures
        advanced(*old(input), *final(input), word_at(old(input).data@, old(input).pos as int), r),
{
    match read_u2(input) {
        Ok(v) => Ok(v),
        Err(_) => Err(ParseError::MalformedAttribute),
    }
}

fn read_single_index(info: &[u8]) -> (r: Result<u16, ParseError>)
    ensures
        r == single_index_of(info@),
{
    let mut input = ByteStream::new(info);
    let index = read_word(&mut input)?;
    if input.remaining() != 0 {
        return Err(ParseError::MalformedAttribute);
    }
    Ok(index)
}

fn parse_exceptions(
    pool: &[Option<raw::CpInfo>],
    info: &[u8],
) -> (r: Result<Vec<String>, ParseError>)
    ensures
        match exceptions_of(pool_view(pool@), info@) {
            Ok(v) => r is Ok && texts_view(r->Ok_0@) == v,
            Err(e) => r == Err::<Vec<String>, ParseError>(e),
        },
{
    let mut input = ByteStream::new(info);
    let n = read_word(&mut input)?;
    if input.remaining() != 2 * (n as usize) {
        return Err(ParseError::MalformedAttribute);
    }
    let ghost whole = exceptions_of(pool_view(pool@), info@);
    let mut names: Vec<String> = Vec::new();
    assert(texts_view(names@) =~= Seq::empty());
    while names.len() < n as usize
        invariant
            input.wf(),
            input.data@ == info@,
            names.len() <= n,
            whole == exceptions_of(pool_view(pool@), info@),
            whole == class_names_from(
                pool_view(pool@),
                info@,
                input.pos as int,
                n as int,
                texts_view(names@),
            ),
        decreases n - names.len(),
    {
        let ghost before = texts_view(names@);
        let index = read_word(&mut input)?;
        let name = resolve_class(pool, index)?;
        names.push(name);
        assert(texts_view(names@) =~= before.push(name@));
    }
    Ok(names)
}

fn parse_arguments(
    pool: &[Option<raw::CpInfo>],
    input: &mut ByteStream,
    n: u16,
) -> (r: Result<Vec<CpInfo>, ParseError>)
    requires
        old(input).wf(),
    ensures
        final(input).data@ == old(input).data@,
        final(input).wf(),
        old(input).pos <= final(input).pos,
        match arguments_from(
            pool_view(pool@),
            old(input).data@,
            old(input).pos as int,
            n as int,
            Seq::empty(),
        ) {
            Ok((v, p)) => r is Ok && entries_view(r->Ok_0@) == v && final(input).pos == p,
            Err(e) => r == Err::<Vec<CpInfo>, ParseError>(e),
        },
{
    let ghost s = input.data@;
    let ghost whole = arguments_from(pool_view(pool@), s, input.pos as int, n as int, Seq::empty());
    let mut arguments: Vec<CpInfo> = Vec::new();
    assert(entries_view(arguments@) =~= Seq::empty());
    while arguments.len() < n as usize
        invariant
            input.wf(),
            input.data@ == s,
            s == old(input).data@,
            old(input).pos <= input.pos,
            arguments.len() <= n,
            whole == arguments_from(
                pool_view(pool@),
                s,
                old(input).pos as int,
                n as int,
                Seq::empty(),
            ),
            whole == arguments_from(
                pool_view(pool@),
                s,
                input.pos as int,
                n as int,
                entries_view(arguments@),
            ),
        decreases n - arguments.len(),
    {
        let ghost before = entries_view(arguments@);
        let index = read_word(input)?;
        let entry = resolve_index(pool, index)?;
        arguments.push(entry);
        assert(entries_view(arguments@) =~= before.push(entry@));
    }
    Ok(arguments)
}

fn parse_bootstrap_method(
    pool: &[Option<raw::CpInfo>],
    input: &mut ByteStream,
) -> (r: Result<BootstrapMethod, ParseError>)
    requires
        old(input).wf(),
    ensures
        raw::advanced_to(
            *old(input),
            *final(input),
            bootstrap_method_at(pool_view(pool@), old(input).data@, old(input).pos as int),
            r,
        ),
{
    let index = read_word(input)?;
    let (reference_kind, member) = resolve_method_handle(pool, index)?;
    let (class, name, descriptor) = member;
    let n = read_word(input)?;
    let bootstrap_arguments = parse_arguments(pool, input, n)?;
    Ok(BootstrapMethod { reference_kind, class, name, descriptor, bootstrap_arguments })
}

fn parse_bootstrap_methods(
    pool: &[Option<raw::CpInfo>],
    info: &[u8],
) -> (r: Result<Vec<BootstrapMethod>, ParseError>)
    ensures
        match bootstrap_methods_of(pool_view(pool@), info@) {
            Ok(v) => r is Ok && bootstrap_methods_view(r->Ok_0@) == v,
            Err(e) => r == Err::<Vec<BootstrapMethod>, ParseError>(e),
        },
{
    let mut input = ByteStream::new(info);
    let n = read_word(&mut input)?;
    let ghost start = input.pos as int;
    let mut items: Vec<BootstrapMethod> = Vec::new();
    assert(bootstrap_methods_view(items@) =~= Seq::empty());
    while items.len() < n as usize
        invariant
            input.wf(),
            input.data@ == info@,
            items.len() <= n,
            word_at(info@, 0) == Ok::<(u16, int), ParseError>((n, start)),
            bootstrap_methods_from(pool_view(pool@), info@, start, n as int, Seq::empty())
                == bootstrap_methods_from(
                    pool_view(pool@),
                    info@,
                    input.pos as int,
                    n as int,
                    bootstrap_methods_view(items@),
                ),
        decreases n - items.len(),
    {
        let ghost before = bootstrap_methods_view(items@);
        let item = parse_bootstrap_method(pool, &mut input)?;
        items.push(item);
        assert(bootstrap_methods_view(items@) =~= before.push(item@));
    }
    if input.remaining() != 0 {
        return Err(ParseError::MalformedAttribute);
    }
    Ok(items)
}

fn parse_inner_class(
    pool: &[Option<raw::CpInfo>],
    input: &mut ByteStream,
) -> (r: Result<InnerClass, ParseError>)
    requires
        old(input).wf(),
    ensures
        raw::advanced_to(
            *old(input),
            *final(input),
            inner_class_at(pool_view(pool@), old(input).data@, old(input).pos as int),
            r,
        ),
{
    let inner = read_word(input)?;
    let inner_class_info = resolve_class(pool, inner)?;
    let outer = read_word(input)?;
    let outer_class_info = if outer == 0 {
        None
    } else {
        Some(resolve_class(pool, outer)?)
    };
    let name_index = read_word(input)?;
    let inner_name = if name_index == 0 {
        None
    } else {
        Some(resolve_utf8(pool, name_index)?)
    };
    let flags = read_word(input)?;
    let inner_class_access_flags = parse_inner_class_access_flags(flags)?;
    Ok(InnerClass { inner_class_info, outer_class_info, inner_name, inner_class_access_flags })
}

fn parse_inner_classes(
    pool: &[Option<raw::CpInfo>],
    info: &[u8],
) -> (r: Result<Vec<InnerClass>, ParseError>)
    ensures
        match inner_classes_of(pool_view(pool@), info@) {
            Ok(v) => r is Ok && inner_classes_view(r->Ok_0@) == v,
            Err(e) => r == Err::<Vec<InnerClass>, ParseError>(e),
        },
{
    let mut input = ByteStream::new(info);
    let n = read_word(&mut input)?;
    let ghost start = input.pos as int;
    let mut items: Vec<InnerClass> = Vec::new();
    assert(inner_classes_view(items@) =~= Seq::empty());
    while items.len() < n as usize
        invariant
            input.wf(),
            input.data@ == info@,
            items.len() <= n,
            word_at(info@, 0) == Ok::<(u16, int), ParseError>((n, start)),
            inner_classes_from(pool_view(pool@), info@, start, n as int, Seq::empty())
                == inner_classes_from(
                    pool_view(pool@),
                    info@,
                    input.pos as int,
                    n as int,
                    inner_classes_view(items@),
                ),
        decreases n - items.len(),
    {
        let ghost before = inner_classes_view(items@);
        let item = parse_inner_class(pool, &mut input)?;
        items.push(item);
        assert(inner_classes_view(items@) =~= before.push(item@));
    }
    if input.remaining() != 0 {
        return Err(ParseError::MalformedAttribute);
    }
    Ok(items)
}

/// Whether `name` is the text `literal`.
fn is_name(name: &String, literal: &str) -> (r: bool)
    ensures
        r == (name@ == literal@),
{
    let other = String::from_str(literal);
    *name == other
}

/// Decodes the payload of an attribute by the layout that belongs to its
/// name.
pub fn interpret(
    name: String,
    payload: &[u8],
    pool: &[Option<raw::CpInfo>],
) -> (r: Result<AttributeInfo, ParseError>)
    ensures
        yields(interpreted(name@, payload@, pool_view(pool@)), r),
{
    if is_name(&name, "ConstantValue") {
        let index = read_single_index(payload)?;
        let value = resolve_constant(pool, index)?;
        Ok(AttributeInfo::ConstantValue(value))
    } else if is_name(&name, "Code") {
        Ok(AttributeInfo::Code(slice_to_vec(payload)))
    } else if is_name(&name, "Exceptions") {
        let names = parse_exceptions(pool, payload)?;
        Ok(AttributeInfo::Exceptions(names))
    } else if is_name(&name, "SourceFile") {
        let index = read_single_index(payload)?;
        let text = resolve_utf8(pool, index)?;
        Ok(AttributeInfo::SourceFile(text))
    } else if is_name(&name, "BootstrapMethods") {
        let items = parse_bootstrap_methods(pool, payload)?;
        Ok(AttributeInfo::BootstrapMethods(items))
    } else if is_name(&name, "InnerClasses") {
        let items = parse_inner_classes(pool, payload)?;
        Ok(AttributeInfo::InnerClasses(items))
    } else {
        Ok(AttributeInfo::Unknown(name, slice_to_vec(payload)))
    }
}

/// Resolves the name of a raw attribute and decodes its payload.
pub fn parse_attribute_info(
    pool: &[Option<raw::CpInfo>],
    attribute: &raw::AttributeInfo,
) -> (r: Result<AttributeInfo, ParseError>)
    ensures
        yields(attribute_of(pool_view(pool@), attribute@), r),
{
    let name = resolve_utf8(pool, attribute.attribute_name_index)?;
    interpret(name, attribute.info.as_slice(), pool)
}

/// Resolves a list of raw attributes, in order, up to the first that fails.
pub fn parse_attributes(
    pool: &[Option<raw::CpInfo>],
    attributes: &Vec<raw::AttributeInfo>,
) -> (r: Result<Vec<AttributeInfo>, ParseError>)
    ensures
        match attributes_of(pool_view(pool@), raw::attributes_view(attributes@), Seq::empty()) {
            Ok(v) => r is Ok && attributes_view(r->Ok_0@) == v && r->Ok_0@.len()
                == attributes@.len(),
            Err(e) => r == Err::<Vec<AttributeInfo>, ParseError>(e),
        },
{
    let ghost raws = raw::attributes_view(attributes@);
    let mut items: Vec<AttributeInfo> = Vec::new();
    assert(attributes_view(items@) =~= Seq::empty());
    while items.len() < attributes.len()
        invariant
            items.len() <= attributes.len(),
            raws == raw::attributes_view(attributes@),
            attributes_of(pool_view(pool@), raws, Seq::empty()) == attributes_of(pool_view(pool@), raws, attributes_view(items@)),
        decreases attributes.len() - items.len(),
    {
        let ghost before = attributes_view(items@);
        let item = parse_attribute_info(pool, &attributes[items.len()])?;
        items.push(item);
        assert(attributes_view(items@) =~= before.push(item@));
    }
    Ok(items)
}

/// Resolves a field: its flags, name and descriptor, and its attributes.
pub fn parse_field(
    pool: &[Option<raw::CpInfo>],
    field: &raw::FieldInfo,
) -> (r: Result<FieldInfo, ParseError>)
    ensures
        yields(field_of(pool_view(pool@), field@), r),
{
    let access_flags = parse_field_access_flags(field.access_flags)?;
    let name = resolve_utf8(pool, field.name_index)?;
    let descriptor = resolve_utf8(pool, field.descriptor_index)?;
    let attributes = parse_attributes(pool, &field.attributes)?;
    Ok(FieldInfo { access_flags, name, descriptor, attributes })
}

/// Resolves a method: its flags, name and descriptor, and its attributes.
pub fn parse_method(
    pool: &[Option<raw::CpInfo>],
    method: &raw::MethodInfo,
) -> (r: Result<MethodInfo, ParseError>)
    ensures
        yields(method_of(pool_view(pool@), method@), r),
{
    let access_flags = parse_method_access_flags(method.access_flags)?;
    let name = resolve_utf8(pool, method.name_index)?;
    let descriptor = resolve_utf8(pool, method.descriptor_index)?;
    let attributes = parse_attributes(pool, &method.attributes)?;
    Ok(MethodInfo { access_flags, name, descriptor, attributes })
}

/// A `ConstantValue` attribute whose index points at the slot behind a `Long`
/// or `Double` is refused as a reference of the wrong kind, in every pool
/// where an empty slot follows each `Long` and `Double`.
pub proof fn lemma_constant_value_behind_wide_fails(pool: PoolView, info: Seq<u8>, k: int)
    requires
        raw::phantoms_empty(pool),
        raw::wide_at(pool, k),
        k + 1 <= u16::MAX,
        single_index_of(info) == Ok::<u16, ParseError>((k + 1) as u16),
    ensures
        interpreted("ConstantValue"@, info, pool) == Err::<AttributeInfoView, ParseError>(
            ParseError::WrongKind {
                expected: ExpectedKind::ConstantValue,
                found: ConstantKind::Empty,
            },
        ),
{
    lemma_phantom_reference_fails(pool, k);
}

} // verus!
