//! Constant-pool lookups by 1-based index.

use vstd::prelude::*;

use crate::classfile::Constant;
use crate::errors::{Fail, FailView, GenericErrorKind, IError};

verus! {

/// The text entry at the 1-based `index` of `pool`, or why there is none:
/// `NotFound` when the index is outside the pool, `InvalidFormat` when the
/// entry there is not text (the second slot of a wide constant included).
pub open spec fn lookup_utf8(pool: Seq<Constant>, index: int) -> Result<Seq<char>, GenericErrorKind> {
    if 1 <= index <= pool.len() {
        match pool[index - 1] {
            Constant::Utf8(s) => Ok(s@),
            _ => Err(GenericErrorKind::InvalidFormat),
        }
    } else {
        Err(GenericErrorKind::NotFound)
    }
}

/// The trace that goes with a failed lookup.
pub open spec fn lookup_message(kind: GenericErrorKind) -> Seq<char> {
    if kind == GenericErrorKind::NotFound {
        "Index out of bound for constant pool."@
    } else {
        "Not an Utf8Constant."@
    }
}

/// The violation recorded for a failed lookup on behalf of `method`.
pub open spec fn lookup_fail(method: Seq<char>, kind: GenericErrorKind) -> FailView {
    FailView { method, message: lookup_message(kind), kind }
}

/// The placeholder method identity of a violation whose method name could not be resolved.
pub open spec fn unknown_method() -> Seq<char> {
    "N/A"@
}

/// Looks up the text constant at the 1-based `index` of `constant_pool`.
pub fn extract_utf8_constant(constant_pool: &Vec<Constant>, index: u16) -> (r: Result<&String, IError>)
    ensures
        match lookup_utf8(constant_pool@, index as int) {
            Ok(s) => r is Ok && r->Ok_0@ == s,
            Err(k) => r is Err && r->Err_0.spec_kind() == k && r->Err_0.spec_message() == lookup_message(k),
        },
{
    if index == 0 || index as usize > constant_pool.len() {
        return Err(IError::new(GenericErrorKind::NotFound, String::from_str("Index out of bound for constant pool.")));
    }
    match &constant_pool[index as usize - 1] {
        Constant::Utf8(s) => Ok(s),
        _ => Err(IError::new(GenericErrorKind::InvalidFormat, String::from_str("Not an Utf8Constant."))),
    }
}

/// Resolves a method's name; a failure carries the placeholder method `N/A`.
pub fn extract_method_name(constant_pool: &Vec<Constant>, index: u16) -> (r: Result<&String, Fail>)
    ensures
        match lookup_utf8(constant_pool@, index as int) {
            Ok(s) => r is Ok && r->Ok_0@ == s,
            Err(k) => r is Err && r->Err_0@ == lookup_fail(unknown_method(), k),
        },
{
    match extract_utf8_constant(constant_pool, index) {
        Ok(name) => Ok(name),
        Err(e) => Err(Fail::new(String::from_str("N/A"), e.message().clone(), e.kind())),
    }
}

/// Resolves a method's descriptor; a failure keeps the already resolved method name.
pub fn extract_method_descriptor<'a>(
    constant_pool: &'a Vec<Constant>,
    index: u16,
    method_name: &'a String,
) -> (r: Result<&'a String, Fail>)
    ensures
        match lookup_utf8(constant_pool@, index as int) {
            Ok(s) => r is Ok && r->Ok_0@ == s,
            Err(k) => r is Err && r->Err_0@ == lookup_fail(method_name@, k),
        },
{
    match extract_utf8_constant(constant_pool, index) {
        Ok(descriptor) => Ok(descriptor),
        Err(e) => Err(Fail::new(method_name.clone(), e.message().clone(), e.kind())),
    }
}

} // verus!
