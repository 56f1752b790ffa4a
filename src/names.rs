//! Method-name patterns: binary connectives and exempt names.

use vstd::prelude::*;

use crate::text::{chars_of, same_chars};

verus! {

pub open spec fn is_upper(c: char) -> bool {
    'A' <= c <= 'Z'
}

pub open spec fn is_lower(c: char) -> bool {
    'a' <= c <= 'z'
}

/// `w` occurs in `s` starting at `i`.
pub open spec fn occurs_at(s: Seq<char>, i: int, w: Seq<char>) -> bool {
    0 <= i && i + w.len() <= s.len() && s.subrange(i, i + w.len()) == w
}

/// The connectives that the snake-case form looks for.
pub open spec fn snake_word(w: Seq<char>) -> bool {
    ||| w == seq!['a', 'n', 'd']
    ||| w == seq!['o', 'r']
    ||| w == seq!['A', 'N', 'D']
    ||| w == seq!['O', 'R']
}

/// The connectives that the camel-case form looks for.
pub open spec fn camel_word(w: Seq<char>) -> bool {
    w == seq!['A', 'n', 'd'] || w == seq!['O', 'r']
}

/// Snake-case form at `p`: the name starts at `p` or has `_` just before it,
/// the connective `w` follows, then an upper-case letter or `_`, then at least
/// one more character.
pub open spec fn snake_connective_at(s: Seq<char>, p: int, w: Seq<char>) -> bool {
    &&& snake_word(w)
    &&& (p == 0 || (p >= 1 && s[p - 1] == '_'))
    &&& occurs_at(s, p, w)
    &&& p + w.len() + 1 < s.len()
    &&& (is_upper(s[p + w.len()]) || s[p + w.len()] == '_')
}

/// Camel-case form at `j`: a lower-case letter at `j`, the connective `w`
/// right after it, then an upper-case letter.
pub open spec fn camel_connective_at(s: Seq<char>, j: int, w: Seq<char>) -> bool {
    &&& camel_word(w)
    &&& 0 <= j < s.len()
    &&& is_lower(s[j])
    &&& occurs_at(s, j + 1, w)
    &&& j + 1 + w.len() < s.len()
    &&& is_upper(s[j + 1 + w.len()])
}

pub open spec fn connective_with(s: Seq<char>, i: int, w: Seq<char>) -> bool {
    snake_connective_at(s, i, w) || camel_connective_at(s, i, w)
}

pub open spec fn connective_at(s: Seq<char>, i: int) -> bool {
    exists|w: Seq<char>| #[trigger] connective_with(s, i, w)
}

/// A method name that joins two words with `and` / `or`, in snake or camel case.
pub open spec fn has_binary_connective(s: Seq<char>) -> bool {
    exists|i: int| 0 <= i < s.len() && #[trigger] connective_at(s, i)
}

/// The names exempt from the void-return rule: constructors, static
/// initialisers and `main`.
pub open spec fn is_exempt_name(s: Seq<char>) -> bool {
    ||| s == seq!['<', 'i', 'n', 'i', 't', '>']
    ||| s == seq!['<', 'c', 'l', 'i', 'n', 'i', 't', '>']
    ||| s == seq!['m', 'a', 'i', 'n']
}

fn occurs_at_exec(s: &Vec<char>, i: usize, w: &Vec<char>) -> (r: bool)
    ensures
        r == occurs_at(s@, i as int, w@),
{
    if i > s.len() || w.len() > s.len() - i {
        return false;
    }
    let mut k: usize = 0;
    while k < w.len()
        invariant
            i + w.len() <= s.len(),
            k <= w.len(),
            forall|j: int| 0 <= j < k ==> s@[i + j] == w@[j],
        decreases w.len() - k,
    {
        if s[i + k] != w[k] {
            assert(s@.subrange(i as int, i + w.len())[k as int] != w@[k as int]);
            return false;
        }
        k = k + 1;
    }
    assert(s@.subrange(i as int, i + w.len()) =~= w@);
    true
}

fn is_upper_exec(c: char) -> (r: bool)
    ensures
        r == is_upper(c),
{
    'A' <= c && c <= 'Z'
}

fn is_lower_exec(c: char) -> (r: bool)
    ensures
        r == is_lower(c),
{
    'a' <= c && c <= 'z'
}

fn snake_at(s: &Vec<char>, p: usize, w: &Vec<char>) -> (r: bool)
    requires
        snake_word(w@),
    ensures
        r == snake_connective_at(s@, p as int, w@),
{
    if p > 0 && (p > s.len() || s[p - 1] != '_') {
        return false;
    }
    if !occurs_at_exec(s, p, w) {
        return false;
    }
    if s.len() - (p + w.len()) < 2 {
        return false;
    }
    let c = s[p + w.len()];
    is_upper_exec(c) || c == '_'
}

fn camel_at(s: &Vec<char>, j: usize, w: &Vec<char>) -> (r: bool)
    requires
        camel_word(w@),
        j < s.len(),
    ensures
        r == camel_connective_at(s@, j as int, w@),
{
    if !is_lower_exec(s[j]) || !occurs_at_exec(s, j + 1, w) {
        return false;
    }
    if j + 1 + w.len() >= s.len() {
        return false;
    }
    is_upper_exec(s[j + 1 + w.len()])
}

fn connective_at_exec(s: &Vec<char>, i: usize) -> (r: bool)
    requires
        i < s.len(),
    ensures
        r == connective_at(s@, i as int),
{
    let and_lower = vec!['a', 'n', 'd'];
    let or_lower = vec!['o', 'r'];
    let and_upper = vec!['A', 'N', 'D'];
    let or_upper = vec!['O', 'R'];
    let and_camel = vec!['A', 'n', 'd'];
    let or_camel = vec!['O', 'r'];
    assert(and_lower@ =~= seq!['a', 'n', 'd']);
    assert(or_lower@ =~= seq!['o', 'r']);
    assert(and_upper@ =~= seq!['A', 'N', 'D']);
    assert(or_upper@ =~= seq!['O', 'R']);
    assert(and_camel@ =~= seq!['A', 'n', 'd']);
    assert(or_camel@ =~= seq!['O', 'r']);
    let r = snake_at(s, i, &and_lower) || snake_at(s, i, &or_lower) || snake_at(s, i, &and_upper)
        || snake_at(s, i, &or_upper) || camel_at(s, i, &and_camel) || camel_at(s, i, &or_camel);
    proof {
        if r {
            if snake_connective_at(s@, i as int, and_lower@) {
                assert(connective_with(s@, i as int, and_lower@));
            } else if snake_connective_at(s@, i as int, or_lower@) {
                assert(connective_with(s@, i as int, or_lower@));
            } else if snake_connective_at(s@, i as int, and_upper@) {
                assert(connective_with(s@, i as int, and_upper@));
            } else if snake_connective_at(s@, i as int, or_upper@) {
                assert(connective_with(s@, i as int, or_upper@));
            } else if camel_connective_at(s@, i as int, and_camel@) {
                assert(connective_with(s@, i as int, and_camel@));
            } else {
                assert(connective_with(s@, i as int, or_camel@));
            }
        } else {
            assert forall|w: Seq<char>| !#[trigger] connective_with(s@, i as int, w) by {
                if snake_word(w) {
                    assert(w == and_lower@ || w == or_lower@ || w == and_upper@ || w == or_upper@);
                }
                if camel_word(w) {
                    assert(w == and_camel@ || w == or_camel@);
                }
            }
        }
    }
    r
}

/// Whether the method name `name` joins words with `and` / `or`.
pub fn is_binary_name(name: &str) -> (r: bool)
    ensures
        r == has_binary_connective(name@),
{
    let s = chars_of(name);
    let mut i: usize = 0;
    while i < s.len()
        invariant
            s@ == name@,
            i <= s.len(),
            forall|k: int| 0 <= k < i ==> !connective_at(s@, k),
        decreases s.len() - i,
    {
        if connective_at_exec(&s, i) {
            return true;
        }
        i = i + 1;
    }
    false
}

/// Whether `name` is exempt from the void-return rule.
pub fn is_exempt(name: &str) -> (r: bool)
    ensures
        r == is_exempt_name(name@),
{
    let s = chars_of(name);
    let init = vec!['<', 'i', 'n', 'i', 't', '>'];
    let clinit = vec!['<', 'c', 'l', 'i', 'n', 'i', 't', '>'];
    let main = vec!['m', 'a', 'i', 'n'];
    assert(init@ =~= seq!['<', 'i', 'n', 'i', 't', '>']);
    assert(clinit@ =~= seq!['<', 'c', 'l', 'i', 'n', 'i', 't', '>']);
    assert(main@ =~= seq!['m', 'a', 'i', 'n']);
    same_chars(&s, &init) || same_chars(&s, &clinit) || same_chars(&s, &main)
}

} // verus!
