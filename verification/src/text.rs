//! String operations used by lowering, with their contracts stated over the
//! character view of a string and the UTF-8 encoding that vstd defines.
use vstd::prelude::*;
use vstd::string::StringSliceAdditionalSpecFns;
use vstd::string::StrSliceExecFns;
use vstd::string::StringExecFns;
use vstd::utf8::{decode_utf8, encode_utf8, is_char_boundary, valid_utf8};

verus! {

/// Whether two strings hold the same characters.
pub fn str_eq(a: &str, b: &str) -> (r: bool)
    ensures
        r == (a@ == b@),
{
    broadcast use vstd::utf8::encode_utf8_decode_utf8;

    let x = a.as_bytes();
    let y = b.as_bytes();
    if x.len() != y.len() {
        proof {
            if a@ == b@ {
                assert(x@ == y@);
            }
        }
        return false;
    }
    let mut i: usize = 0;
    while i < x.len()
        invariant
            x@ == a.spec_bytes(),
            y@ == b.spec_bytes(),
            x@.len() == y@.len(),
            0 <= i <= x@.len(),
            forall|k: int| 0 <= k < i ==> x@[k] == y@[k],
        decreases x@.len() - i,
    {
        if x[i] != y[i] {
            proof {
                if a@ == b@ {
                    assert(x@ == y@);
                }
            }
            return false;
        }
        i = i + 1;
    }
    proof {
        assert(x@ =~= y@);
        assert(decode_utf8(x@) == a@);
        assert(decode_utf8(y@) == b@);
    }
    true
}

/// The characters between byte offsets `start` and `end` of the UTF-8
/// encoding of `s`, where both offsets lie on character boundaries.
pub open spec fn utf8_slice(s: Seq<char>, start: int, end: int) -> Option<Seq<char>> {
    let b = encode_utf8(s);
    if 0 <= start <= end <= b.len() && is_char_boundary(b, start) && is_char_boundary(b, end) {
        Some(decode_utf8(b.subrange(start, end)))
    } else {
        None
    }
}

/// A character boundary of a byte string stays one in a prefix that ends on
/// a boundary.
proof fn lemma_boundary_in_prefix(b: Seq<u8>, start: int, end: int)
    requires
        valid_utf8(b),
        0 <= start <= end <= b.len(),
        is_char_boundary(b, start),
        is_char_boundary(b, end),
    ensures
        valid_utf8(b.subrange(0, end)),
        is_char_boundary(b.subrange(0, end), start),
{
    vstd::utf8::valid_utf8_split(b, end);
    let p = b.subrange(0, end);
    if start == end {
        vstd::utf8::is_char_boundary_start_end_of_seq(p);
        assert(p.len() == end);
    } else if start == 0 {
        vstd::utf8::is_char_boundary_start_end_of_seq(p);
    } else {
        vstd::utf8::is_char_boundary_iff_not_is_continuation_byte(b, start);
        vstd::utf8::is_char_boundary_iff_not_is_continuation_byte(p, start);
        assert(p[start] == b[start]);
    }
}

/// The text between byte offsets `start` and `end` of `s`, or `None` where
/// the range lies outside `s` or does not fall on character boundaries.
pub fn str_slice(s: &str, start: usize, end: usize) -> (r: Option<&str>)
    ensures
        r matches Some(t) ==> utf8_slice(s@, start as int, end as int) == Some(t@),
        r is None ==> utf8_slice(s@, start as int, end as int) is None,
{
    broadcast use vstd::utf8::encode_utf8_decode_utf8, vstd::utf8::encode_utf8_valid_utf8;

    let len = s.as_bytes().len();
    if start <= end && end <= len && s.is_char_boundary(start) && s.is_char_boundary(end) {
        let ghost b = s.spec_bytes();
        proof {
            lemma_boundary_in_prefix(b, start as int, end as int);
        }
        let (a, _) = s.split_at(end);
        assert(a.spec_bytes() =~= b.subrange(0, end as int));
        let (_, t) = a.split_at(start);
        assert(t.spec_bytes() =~= b.subrange(start as int, end as int));
        assert(decode_utf8(encode_utf8(t@)) == t@);
        Some(t)
    } else {
        None
    }
}

/// `s` without one pair of matching surrounding quotes (`"`, `'` or a backtick).
pub open spec fn spec_strip_quotes(s: Seq<char>) -> Seq<char> {
    if s.len() >= 2 && ((s[0] == '"' && s.last() == '"') || (s[0] == '\'' && s.last() == '\'') || (
    s[0] == '`' && s.last() == '`')) {
        s.subrange(1, s.len() - 1)
    } else {
        s
    }
}

/// Removes one pair of matching surrounding quotes.
pub fn strip_quotes(text: String) -> (r: String)
    ensures
        r@ == spec_strip_quotes(text@),
{
    let n = text.as_str().unicode_len();
    if n >= 2 {
        let f = text.as_str().get_char(0);
        let l = text.as_str().get_char(n - 1);
        if (f == '"' && l == '"') || (f == '\'' && l == '\'') || (f == '`' && l == '`') {
            let inner = text.as_str().substring_char(1, n - 1);
            return String::from_str(inner);
        }
    }
    text
}

/// `a` followed by `b`.
pub fn concat(a: &str, b: &str) -> (r: String)
    ensures
        r@ == a@ + b@,
{
    let mut s = String::from_str(a);
    s.append(b);
    s
}

} // verus!
