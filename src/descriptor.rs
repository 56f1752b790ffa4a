//! The method-descriptor grammar: parameter count and return type.

use vstd::prelude::*;

use crate::text::chars_of;

verus! {

/// A single-letter primitive type: byte, char, double, float, int, long, short, boolean.
pub open spec fn is_primitive(c: char) -> bool {
    c == 'B' || c == 'C' || c == 'D' || c == 'F' || c == 'I' || c == 'J' || c == 'S' || c == 'Z'
}

/// The index just past the first `;` at or after `i`, if there is one.
pub open spec fn past_semicolon(d: Seq<char>, i: int) -> Option<int>
    decreases d.len() - i,
{
    if i < 0 || i >= d.len() {
        None
    } else if d[i] == ';' {
        Some(i + 1)
    } else {
        past_semicolon(d, i + 1)
    }
}

/// The index just past the field type `[`* (primitive | `L` ClassName `;`)
/// that starts at `i`, or `None` when none starts there.
pub open spec fn field_type_end(d: Seq<char>, i: int) -> Option<int>
    decreases d.len() - i,
{
    if i < 0 || i >= d.len() {
        None
    } else if d[i] == '[' {
        field_type_end(d, i + 1)
    } else if d[i] == 'L' {
        past_semicolon(d, i + 1)
    } else if is_primitive(d[i]) {
        Some(i + 1)
    } else {
        None
    }
}

/// The parameter types from `i` up to the closing `)`: how many there are and
/// where the `)` stands; `None` when the list is not a run of field types
/// closed by `)`.
pub open spec fn parameter_list(d: Seq<char>, i: int) -> Option<(nat, int)>
    decreases d.len() - i,
{
    if i < 0 || i >= d.len() {
        None
    } else if d[i] == ')' {
        Some((0, i))
    } else {
        match field_type_end(d, i) {
            Some(j) => if i < j <= d.len() {
                match parameter_list(d, j) {
                    Some((n, e)) => Some((n + 1, e)),
                    None => None,
                }
            } else {
                None
            },
            None => None,
        }
    }
}

/// What follows the `)` at `e` is one return type: `V`, or a field type that
/// ends the descriptor.
pub open spec fn return_type_at(d: Seq<char>, e: int) -> bool {
    ||| (e + 2 == d.len() && d[e + 1] == 'V')
    ||| field_type_end(d, e + 1) == Some(d.len() as int)
}

/// The parameter count of a method descriptor `"(" ParamType* ")" ReturnType`,
/// where each parameter type is a primitive letter or `L...;`, after any run of
/// `[`; `None` when the descriptor does not follow that grammar.
pub open spec fn parameter_count(d: Seq<char>) -> Option<nat> {
    if d.len() > 0 && d[0] == '(' {
        match parameter_list(d, 1) {
            Some((n, e)) => if return_type_at(d, e) {
                Some(n)
            } else {
                None
            },
            None => None,
        }
    } else {
        None
    }
}

/// The descriptor's return type is `void`: its last character is `V`.
pub open spec fn returns_void(d: Seq<char>) -> bool {
    d.len() > 0 && d.last() == 'V'
}

fn is_primitive_exec(c: char) -> (r: bool)
    ensures
        r == is_primitive(c),
{
    c == 'B' || c == 'C' || c == 'D' || c == 'F' || c == 'I' || c == 'J' || c == 'S' || c == 'Z'
}

/// Where the field type starting at `i` ends (see `field_type_end`).
fn read_field_type(d: &Vec<char>, i: usize) -> (r: Option<usize>)
    ensures
        match field_type_end(d@, i as int) {
            Some(j) => r is Some && r->Some_0 == j && i < j <= d@.len(),
            None => r is None,
        },
{
    let mut k: usize = i;
    while k < d.len() && d[k] == '['
        invariant
            i <= k,
            field_type_end(d@, i as int) == field_type_end(d@, k as int),
        decreases d.len() - k,
    {
        k = k + 1;
    }
    if k >= d.len() {
        return None;
    }
    if is_primitive_exec(d[k]) {
        return Some(k + 1);
    }
    if d[k] != 'L' {
        return None;
    }
    let mut m: usize = k + 1;
    while m < d.len() && d[m] != ';'
        invariant
            k < m,
            field_type_end(d@, i as int) == past_semicolon(d@, m as int),
        decreases d.len() - m,
    {
        m = m + 1;
    }
    if m >= d.len() {
        return None;
    }
    Some(m + 1)
}

/// Counts the parameters of the method descriptor `descriptor`; `None` when
/// its syntax is invalid.
pub fn count_parameters(descriptor: &str) -> (r: Option<usize>)
    ensures
        match parameter_count(descriptor@) {
            Some(n) => r is Some && r->Some_0 == n,
            None => r is None,
        },
{
    let d = chars_of(descriptor);
    if d.len() == 0 || d[0] != '(' {
        return None;
    }
    let mut i: usize = 1;
    let mut n: usize = 0;
    while i < d.len() && d[i] != ')'
        invariant
            d@ == descriptor@,
            1 <= i <= d.len(),
            n < i,
            parameter_list(d@, 1) == match parameter_list(d@, i as int) {
                Some((m, e)) => Some(((m + n) as nat, e)),
                None => None::<(nat, int)>,
            },
        decreases d.len() - i,
    {
        match read_field_type(&d, i) {
            Some(j) => {
                n = n + 1;
                i = j;
            },
            None => {
                return None;
            },
        }
    }
    if i >= d.len() {
        return None;
    }
    let rest = d.len() - i;
    let returns_v = rest == 2 && d[i + 1] == 'V';
    let returns_field = match read_field_type(&d, i + 1) {
        Some(j) => j == d.len(),
        None => false,
    };
    if returns_v || returns_field {
        Some(n)
    } else {
        None
    }
}

/// Whether the method descriptor `descriptor` declares a `void` return type.
pub fn is_void_return(descriptor: &str) -> (r: bool)
    ensures
        r == returns_void(descriptor@),
{
    let d = chars_of(descriptor);
    d.len() > 0 && d[d.len() - 1] == 'V'
}

} // verus!
