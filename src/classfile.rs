//! The decoded class-file model and the decoder.

use vstd::prelude::*;

use classfile_parser::constant_info::ConstantInfo;
use classfile_parser::method_info::MethodInfo as ParsedMethod;

use crate::errors::{GenericErrorKind, IError};

verus! {

/// One constant-pool entry, reduced to what the rules read.
#[derive(Debug, Clone)]
pub enum Constant {
    /// A text constant.
    Utf8(String),
    /// An eight-byte numeric constant (long or double); it also takes the next slot.
    Wide,
    /// The slot after a wide constant; it cannot be addressed on its own.
    Unusable,
    /// Any other kind of constant.
    Other,
}

/// One entry of the method table.
#[derive(Debug, Clone, Copy, PartialEq, Eq, Structural)]
pub struct MethodInfo {
    pub access_flags: u16,
    /// 1-based constant-pool index of the method's name.
    pub name_index: u16,
    /// 1-based constant-pool index of the method's type descriptor.
    pub descriptor_index: u16,
}

/// A decoded class file: its header values, its constant pool and its method table.
#[derive(Debug, Clone)]
pub struct ClassFile {
    pub minor_version: u16,
    pub major_version: u16,
    /// The constant-pool count declared in the header (one more than the entries).
    pub const_pool_size: u16,
    pub const_pool: Vec<Constant>,
    /// The method-table length declared in the binary.
    pub methods_count: u16,
    pub methods: Vec<MethodInfo>,
}

/// What a `Constant` holds, as mathematical values.
pub enum ConstantView {
    Utf8(Seq<char>),
    Wide,
    Unusable,
    Other,
}

impl View for Constant {
    type V = ConstantView;

    open spec fn view(&self) -> ConstantView {
        match self {
            Constant::Utf8(s) => ConstantView::Utf8(s@),
            Constant::Wide => ConstantView::Wide,
            Constant::Unusable => ConstantView::Unusable,
            Constant::Other => ConstantView::Other,
        }
    }
}

/// What a `ClassFile` holds, as mathematical values.
pub struct ClassView {
    pub minor_version: u16,
    pub major_version: u16,
    pub const_pool_size: u16,
    pub const_pool: Seq<ConstantView>,
    pub methods_count: u16,
    pub methods: Seq<MethodInfo>,
}

/// The mathematical values held by `c`.
pub open spec fn class_view(c: ClassFile) -> ClassView {
    ClassView {
        minor_version: c.minor_version,
        major_version: c.major_version,
        const_pool_size: c.const_pool_size,
        const_pool: c.const_pool@.map_values(|k: Constant| k@),
        methods_count: c.methods_count,
        methods: c.methods@,
    }
}

/// The class that the class-file decoder makes of the bytes `b`, or `None`
/// when it refuses them.
pub uninterp spec fn parsed_class(b: Seq<u8>) -> Option<ClassView>;

/// The bytes decode: the fixed header is sound and the decoder accepts them.
pub open spec fn decodes(b: Seq<u8>) -> bool {
    header_ok(b) && parsed_class(b) is Some
}

/// A big-endian `u16` read at `at`.
pub open spec fn be_u16(b: Seq<u8>, at: int) -> int {
    b[at] as int * 256 + b[at + 1] as int
}

/// The bytes open with the class-file magic number `0xCAFEBABE`.
pub open spec fn has_magic(b: Seq<u8>) -> bool {
    &&& b.len() >= 4
    &&& b[0] == 0xCAu8
    &&& b[1] == 0xFEu8
    &&& b[2] == 0xBAu8
    &&& b[3] == 0xBEu8
}

/// The fixed header (magic, versions, constant-pool count) is present and declares
/// a constant-pool count of at least one.
pub open spec fn header_ok(b: Seq<u8>) -> bool {
    &&& b.len() >= 10
    &&& has_magic(b)
    &&& be_u16(b, 8) >= 1
}

/// A wide constant takes two slots: each `Wide` entry is followed by an
/// `Unusable` one, and each `Unusable` entry follows a `Wide` one.
pub open spec fn wide_slots_paired(pool: Seq<Constant>) -> bool {
    &&& forall|i: int| 0 <= i < pool.len() && (#[trigger] pool[i]) is Wide ==> i + 1 < pool.len() && pool[i + 1] is Unusable
    &&& forall|i: int| 0 <= i < pool.len() && (#[trigger] pool[i]) is Unusable ==> i >= 1 && pool[i - 1] is Wide
}

/// The header values of `c` are those that the first ten bytes of `b` declare,
/// its constant pool fills the declared count (a wide constant in the last
/// slot runs one past it), wide constants take two slots, and its method table
/// holds as many entries as the method count that the decoder read.
pub open spec fn decoded_from(c: ClassFile, b: Seq<u8>) -> bool {
    &&& header_ok(b)
    &&& c.minor_version == be_u16(b, 4)
    &&& c.major_version == be_u16(b, 6)
    &&& c.const_pool_size == be_u16(b, 8)
    &&& c.const_pool_size - 1 <= c.const_pool@.len() <= c.const_pool_size
    &&& wide_slots_paired(c.const_pool@)
    &&& c.methods@.len() == c.methods_count
}

#[verifier::external_type_specification]
#[verifier::external_body]
pub struct ExConstantInfo(ConstantInfo);

#[verifier::external_type_specification]
#[verifier::external_body]
pub struct ExParsedMethod(ParsedMethod);

/// Converts classfile_parser's `ConstantInfo`, variant by variant: a text
/// constant keeps its decoded text, long and double become `Wide`.
#[verifier::external_body]
fn constant_of(c: &ConstantInfo) -> Constant {
    match c {
        ConstantInfo::Utf8(u) => Constant::Utf8(u.utf8_string.clone()),
        ConstantInfo::Long(_) | ConstantInfo::Double(_) => Constant::Wide,
        ConstantInfo::Unusable => Constant::Unusable,
        _ => Constant::Other,
    }
}

/// Converts classfile_parser's `MethodInfo`, field by field.
#[verifier::external_body]
fn method_of(m: &ParsedMethod) -> MethodInfo {
    MethodInfo {
        access_flags: m.access_flags.bits(),
        name_index: m.name_index,
        descriptor_index: m.descriptor_index,
    }
}

/// Relies on classfile_parser::class_parser: it reads the magic number, then the
/// minor version, major version and constant-pool count as big-endian `u16`
/// from bytes 4 to 10; it reads constants until the count less one is reached,
/// pushing an `Unusable` entry after each long or double; it reads exactly
/// `methods_count` method records. Its outcome depends on the bytes alone. It
/// subtracts one from the constant-pool count, hence the `requires`.
#[verifier::external_body]
fn parse_class_bytes(bytes: &[u8]) -> (r: Result<ClassFile, String>)
    requires
        header_ok(bytes@),
    ensures
        r is Ok <==> parsed_class(bytes@) is Some,
        r is Ok ==> class_view(r->Ok_0) == parsed_class(bytes@)->Some_0,
        r is Ok ==> decoded_from(r->Ok_0, bytes@),
{
    match classfile_parser::class_parser(bytes) {
        Ok((_, c)) => Ok(ClassFile {
            minor_version: c.minor_version,
            major_version: c.major_version,
            const_pool_size: c.const_pool_size,
            const_pool: c.const_pool.iter().map(constant_of).collect(),
            methods_count: c.methods_count,
            methods: c.methods.iter().map(method_of).collect(),
        }),
        Err(e) => Err(format!("{:?}", e)),
    }
}

/// Decodes the bytes of a class file.
///
/// A truncated or malformed header is refused before anything else is read;
/// any later failure of the decoder is a `ParseError` too.
pub fn decode_class(bytes: &[u8]) -> (r: Result<ClassFile, IError>)
    ensures
        r is Ok <==> decodes(bytes@),
        r is Ok ==> class_view(r->Ok_0) == parsed_class(bytes@)->Some_0,
        r is Ok ==> decoded_from(r->Ok_0, bytes@),
        r is Err ==> r->Err_0.spec_kind() == GenericErrorKind::ParseError,
        !header_ok(bytes@) ==> r is Err,
        bytes@.len() < 10 ==> r->Err_0.spec_message() == "unexpected end of input"@,
        bytes@.len() >= 10 && !header_ok(bytes@) ==> r->Err_0.spec_message() == "malformed header"@,
{
    if bytes.len() < 10 {
        return Err(IError::new(GenericErrorKind::ParseError, String::from_str("unexpected end of input")));
    }
    if bytes[0] != 0xCA || bytes[1] != 0xFE || bytes[2] != 0xBA || bytes[3] != 0xBE
        || (bytes[8] == 0 && bytes[9] == 0) {
        return Err(IError::new(GenericErrorKind::ParseError, String::from_str("malformed header")));
    }
    match parse_class_bytes(bytes) {
        Ok(c) => Ok(c),
        Err(e) => Err(IError::new(GenericErrorKind::ParseError, e)),
    }
}

} // verus!
