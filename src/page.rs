//! The data that the provider's quote page embeds: a line of the page that,
//! once surrounding whitespace is removed, starts with the marker
//! `root.App.main`, followed by an assignment of a JSON text and a
//! terminating semicolon.
use vstd::prelude::*;
use vstd::slice::{slice_subrange, slice_to_vec};
use vstd::string::StringSliceAdditionalSpecFns;
use vstd::utf8::{decode_utf8, valid_utf8};

use crate::wire::string_from_utf8;

verus! {

/// The marker that starts the line holding the page's data.
pub open spec fn marker() -> Seq<u8> {
    seq![114, 111, 111, 116, 46, 65, 112, 112, 46, 109, 97, 105, 110]
}

/// White space: space, tab, line feed, vertical tab, form feed, carriage return.
pub open spec fn is_space(c: u8) -> bool {
    c == 32 || (9 <= c && c <= 13)
}

/// The end of the line that starts at `i`: the next line feed or the end.
pub open spec fn line_end(b: Seq<u8>, i: int) -> int
    decreases b.len() - i,
{
    if i < 0 || i >= b.len() || b[i] == 10 {
        i
    } else {
        line_end(b, i + 1)
    }
}

/// The first position from `i` before `e` that is not white space.
pub open spec fn skip_space(b: Seq<u8>, i: int, e: int) -> int
    decreases e - i,
{
    if i < e && is_space(b[i]) {
        skip_space(b, i + 1, e)
    } else {
        i
    }
}

/// The end of `[s, e)` once trailing white space is removed.
pub open spec fn back_space(b: Seq<u8>, s: int, e: int) -> int
    decreases e - s,
{
    if s < e && is_space(b[e - 1]) {
        back_space(b, s, e - 1)
    } else {
        e
    }
}

/// Whether `[i, e)` starts with `p`.
pub open spec fn has_prefix_at(b: Seq<u8>, i: int, e: int, p: Seq<u8>) -> bool {
    0 <= i && i + p.len() <= e && e <= b.len() && b.subrange(i, i + p.len()) == p
}

/// The position after every repetition of the marker at the start of `[i, e)`.
pub open spec fn strip_markers(b: Seq<u8>, i: int, e: int) -> int
    decreases e - i,
{
    if has_prefix_at(b, i, e, marker()) {
        strip_markers(b, i + marker().len(), e)
    } else {
        i
    }
}

/// The position after the spaces and equals signs at the start of `[i, e)`.
pub open spec fn skip_assign(b: Seq<u8>, i: int, e: int) -> int
    decreases e - i,
{
    if i < e && (b[i] == 32 || b[i] == 61) {
        skip_assign(b, i + 1, e)
    } else {
        i
    }
}

/// The end of `[s, e)` once trailing semicolons are removed.
pub open spec fn drop_semicolons(b: Seq<u8>, s: int, e: int) -> int
    decreases e - s,
{
    if s < e && b[e - 1] == 59 {
        drop_semicolons(b, s, e - 1)
    } else {
        e
    }
}

/// The range of the embedded JSON text in the first marked line from `i`.
pub open spec fn store_from(b: Seq<u8>, i: int) -> Option<(int, int)>
    decreases b.len() - i,
{
    if i < 0 || i > b.len() {
        None
    } else {
        let e = line_end(b, i);
        let s = skip_space(b, i, e);
        let t = back_space(b, s, e);
        if has_prefix_at(b, s, t, marker()) {
            let a = skip_assign(b, strip_markers(b, s, t), t);
            Some((a, drop_semicolons(b, a, t)))
        } else if e < i || e >= b.len() {
            None
        } else {
            store_from(b, e + 1)
        }
    }
}

fn find_line_end(b: &[u8], i: usize) -> (r: usize)
    requires
        i <= b@.len(),
    ensures
        r as int == line_end(b@, i as int),
        i <= r <= b@.len(),
{
    let mut j = i;
    while j < b.len() && b[j] != 10
        invariant
            i <= j <= b@.len(),
            line_end(b@, i as int) == line_end(b@, j as int),
        decreases b@.len() - j,
    {
        j += 1;
    }
    j
}

fn find_skip_space(b: &[u8], i: usize, e: usize) -> (r: usize)
    requires
        i <= e <= b@.len(),
    ensures
        r as int == skip_space(b@, i as int, e as int),
        i <= r <= e,
{
    let mut j = i;
    while j < e && (b[j] == 32 || (9 <= b[j] && b[j] <= 13))
        invariant
            i <= j <= e,
            e <= b@.len(),
            skip_space(b@, i as int, e as int) == skip_space(b@, j as int, e as int),
        decreases e - j,
    {
        j += 1;
    }
    j
}

fn find_back_space(b: &[u8], s: usize, e: usize) -> (r: usize)
    requires
        s <= e <= b@.len(),
    ensures
        r as int == back_space(b@, s as int, e as int),
        s <= r <= e,
{
    let mut j = e;
    while s < j && (b[j - 1] == 32 || (9 <= b[j - 1] && b[j - 1] <= 13))
        invariant
            s <= j <= e,
            e <= b@.len(),
            back_space(b@, s as int, e as int) == back_space(b@, s as int, j as int),
        decreases j - s,
    {
        j -= 1;
    }
    j
}

/// The marker's bytes.
fn marker_bytes() -> (r: Vec<u8>)
    ensures
        r@ == marker(),
{
    let r: Vec<u8> = vec![114, 111, 111, 116, 46, 65, 112, 112, 46, 109, 97, 105, 110];
    assert(r@ =~= marker());
    r
}

fn prefix_at(b: &[u8], i: usize, e: usize, p: &Vec<u8>) -> (r: bool)
    requires
        i <= e <= b@.len(),
    ensures
        r == has_prefix_at(b@, i as int, e as int, p@),
{
    if p.len() > e - i {
        return false;
    }
    let mut k: usize = 0;
    while k < p.len()
        invariant
            k <= p@.len(),
            i + p@.len() <= e,
            e <= b@.len(),
            forall|j: int| 0 <= j < k ==> b@[i + j] == p@[j],
        decreases p@.len() - k,
    {
        if b[i + k] != p[k] {
            assert(b@.subrange(i as int, i + p@.len())[k as int] != p@[k as int]);
            return false;
        }
        k += 1;
    }
    assert(b@.subrange(i as int, i + p@.len()) =~= p@);
    true
}

fn find_after_markers(b: &[u8], i: usize, e: usize, m: &Vec<u8>) -> (r: usize)
    requires
        i <= e <= b@.len(),
        m@ == marker(),
    ensures
        r as int == strip_markers(b@, i as int, e as int),
        i <= r <= e,
{
    let mut j = i;
    while prefix_at(b, j, e, m)
        invariant
            i <= j <= e,
            e <= b@.len(),
            m@ == marker(),
            strip_markers(b@, i as int, e as int) == strip_markers(b@, j as int, e as int),
        decreases e - j,
    {
        j += m.len();
    }
    j
}

fn find_skip_assign(b: &[u8], i: usize, e: usize) -> (r: usize)
    requires
        i <= e <= b@.len(),
    ensures
        r as int == skip_assign(b@, i as int, e as int),
        i <= r <= e,
{
    let mut j = i;
    while j < e && (b[j] == 32 || b[j] == 61)
        invariant
            i <= j <= e,
            e <= b@.len(),
            skip_assign(b@, i as int, e as int) == skip_assign(b@, j as int, e as int),
        decreases e - j,
    {
        j += 1;
    }
    j
}

fn find_drop_semicolons(b: &[u8], s: usize, e: usize) -> (r: usize)
    requires
        s <= e <= b@.len(),
    ensures
        r as int == drop_semicolons(b@, s as int, e as int),
        s <= r <= e,
{
    let mut j = e;
    while s < j && b[j - 1] == 59
        invariant
            s <= j <= e,
            e <= b@.len(),
            drop_semicolons(b@, s as int, e as int) == drop_semicolons(b@, s as int, j as int),
        decreases j - s,
    {
        j -= 1;
    }
    j
}

/// The range of the embedded JSON text of the page bytes `b`.
pub fn store_range(b: &[u8]) -> (r: Option<(usize, usize)>)
    ensures
        match r {
            Some((a, e)) => store_from(b@, 0) == Some((a as int, e as int)) && a <= e <= b@.len(),
            None => store_from(b@, 0) is None,
        },
{
    let m = marker_bytes();
    let mut i: usize = 0;
    while i <= b.len()
        invariant
            i <= b@.len() + 1,
            m@ == marker(),
            store_from(b@, 0) == store_from(b@, i as int),
        decreases b@.len() + 1 - i,
    {
        let e = find_line_end(b, i);
        let s = find_skip_space(b, i, e);
        let t = find_back_space(b, s, e);
        if prefix_at(b, s, t, &m) {
            let a = find_skip_assign(b, find_after_markers(b, s, t, &m), t);
            return Some((a, find_drop_semicolons(b, a, t)));
        }
        if e >= b.len() {
            return None;
        }
        i = e + 1;
    }
    None
}

/// The JSON text that the quote page embeds, or `None` where no line is
/// marked (or the text is not UTF-8).
pub fn embedded_store(page: &str) -> (r: Option<String>)
    ensures
        match store_from(page.spec_bytes(), 0) {
            Some((a, e)) => (r is Some <==> valid_utf8(page.spec_bytes().subrange(a, e))) && (
            r matches Some(t) ==> t@ == decode_utf8(page.spec_bytes().subrange(a, e))),
            None => r is None,
        },
{
    let b = page.as_bytes();
    match store_range(b) {
        Some((a, e)) => string_from_utf8(slice_to_vec(slice_subrange(b, a, e))),
        None => None,
    }
}

} // verus!
