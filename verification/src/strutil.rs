//! Verified string building blocks: equality, joining, basenames,
//! decimal rendering, and the `KEY=VALUE` line format used by
//! credential scripts.

use vstd::prelude::*;
use vstd::string::{StrSliceExecFns, StringExecFns};

verus! {

/// Relies on `String::push`: appends exactly one character at the end.
#[verifier::external_body]
pub fn push_char(s: &mut String, c: char)
    ensures
        final(s)@ == old(s)@.push(c),
{
    s.push(c);
}

/// Character-for-character equality of two string slices.
pub fn str_eq(a: &str, b: &str) -> (r: bool)
    ensures
        r == (a@ == b@),
{
    let alen = a.unicode_len();
    let blen = b.unicode_len();
    if alen != blen {
        return false;
    }
    let mut i: usize = 0;
    while i < alen
        invariant
            alen == a@.len(),
            blen == b@.len(),
            alen == blen,
            i <= alen,
            forall|j: int| 0 <= j < i ==> a@[j] == b@[j],
        decreases alen - i,
    {
        let ca = a.get_char(i);
        let cb = b.get_char(i);
        if ca != cb {
            proof {
                assert(a@ != b@) by {
                    if a@ == b@ {
                        assert(a@[i as int] == b@[i as int]);
                    }
                }
            }
            return false;
        }
        i = i + 1;
    }
    proof {
        assert(a@ =~= b@);
    }
    true
}

/// Equality of two optional strings, compared by contents.
pub fn opt_str_eq(a: &Option<String>, b: &Option<String>) -> (r: bool)
    ensures
        r == (opt_view(*a) == opt_view(*b)),
{
    match (a, b) {
        (Option::Some(x), Option::Some(y)) => str_eq(x.as_str(), y.as_str()),
        (Option::None, Option::None) => true,
        _ => false,
    }
}

/// The view of an optional string.
pub open spec fn opt_view(o: Option<String>) -> Option<Seq<char>> {
    match o {
        Option::Some(s) => Option::Some(s@),
        Option::None => Option::None,
    }
}

/// Clones an optional string, keeping its contents.
pub fn opt_clone(o: &Option<String>) -> (r: Option<String>)
    ensures
        opt_view(r) == opt_view(*o),
{
    match o {
        Option::Some(s) => Option::Some(s.clone()),
        Option::None => Option::None,
    }
}

/// Joins a directory and a relative path with a single separator.
pub fn join_path(root: &str, rel: &str) -> (r: String)
    ensures
        r@ == root@ + "/"@ + rel@,
{
    let s = String::from_str(root);
    let s = s.concat("/");
    s.concat(rel)
}

/// The characters after the last `/` of a path; empty when the path
/// ends with a separator, the whole path when it has none.
pub open spec fn basename_view(s: Seq<char>) -> Seq<char>
    decreases s.len(),
{
    if s.len() == 0 {
        s
    } else if s.last() == '/' {
        Seq::empty()
    } else {
        basename_view(s.drop_last()).push(s.last())
    }
}

/// The basename of a path: everything after its last separator.
pub fn basename(path: &str) -> (r: String)
    ensures
        r@ == basename_view(path@),
{
    let len = path.unicode_len();
    let mut out = String::new();
    let mut i: usize = 0;
    while i < len
        invariant
            len == path@.len(),
            i <= len,
            out@ == basename_view(path@.subrange(0, i as int)),
        decreases len - i,
    {
        let c = path.get_char(i);
        proof {
            assert(path@.subrange(0, i + 1 as int).drop_last() =~= path@.subrange(0, i as int));
            assert(path@.subrange(0, i + 1 as int).last() == path@[i as int]);
        }
        if c == '/' {
            out = String::new();
        } else {
            push_char(&mut out, c);
        }
        i = i + 1;
    }
    proof {
        assert(path@.subrange(0, len as int) =~= path@);
    }
    out
}

/// The same characters with every space replaced by an underscore.
pub open spec fn underscored_view(s: Seq<char>) -> Seq<char> {
    Seq::new(s.len(), |i: int| if s[i] == ' ' { '_' } else { s[i] })
}

/// Replaces every space with an underscore, as install directories require.
pub fn underscored(s: &str) -> (r: String)
    ensures
        r@ == underscored_view(s@),
{
    let len = s.unicode_len();
    let mut out = String::new();
    let mut i: usize = 0;
    while i < len
        invariant
            len == s@.len(),
            i <= len,
            out@ =~= underscored_view(s@).subrange(0, i as int),
        decreases len - i,
    {
        let c = s.get_char(i);
        if c == ' ' {
            push_char(&mut out, '_');
        } else {
            push_char(&mut out, c);
        }
        i = i + 1;
    }
    proof {
        assert(underscored_view(s@).subrange(0, len as int) =~= underscored_view(s@));
    }
    out
}

/// The decimal digit character for a value below ten.
pub open spec fn dec_digit(d: nat) -> char {
    if d == 0 {
        '0'
    } else if d == 1 {
        '1'
    } else if d == 2 {
        '2'
    } else if d == 3 {
        '3'
    } else if d == 4 {
        '4'
    } else if d == 5 {
        '5'
    } else if d == 6 {
        '6'
    } else if d == 7 {
        '7'
    } else if d == 8 {
        '8'
    } else {
        '9'
    }
}

/// The decimal rendering of a natural number, most significant digit first.
pub open spec fn dec_str_view(n: nat) -> Seq<char>
    decreases n,
{
    if n < 10 {
        seq![dec_digit(n)]
    } else {
        dec_str_view(n / 10).push(dec_digit(n % 10))
    }
}

fn dec_digit_char(d: u64) -> (c: char)
    requires
        d < 10,
    ensures
        c == dec_digit(d as nat),
{
    if d == 0 {
        '0'
    } else if d == 1 {
        '1'
    } else if d == 2 {
        '2'
    } else if d == 3 {
        '3'
    } else if d == 4 {
        '4'
    } else if d == 5 {
        '5'
    } else if d == 6 {
        '6'
    } else if d == 7 {
        '7'
    } else if d == 8 {
        '8'
    } else {
        '9'
    }
}

/// Renders a number in decimal.
pub fn u64_to_string(n: u64) -> (r: String)
    ensures
        r@ == dec_str_view(n as nat),
    decreases n,
{
    if n < 10 {
        let mut s = String::new();
        push_char(&mut s, dec_digit_char(n));
        proof {
            assert(s@ =~= seq![dec_digit(n as nat)]);
        }
        s
    } else {
        let mut s = u64_to_string(n / 10);
        push_char(&mut s, dec_digit_char(n % 10));
        s
    }
}

/// The decimal rendering of an integer, with a leading minus sign when
/// it is negative.
pub open spec fn dec_str_signed(n: int) -> Seq<char> {
    if n >= 0 {
        dec_str_view(n as nat)
    } else {
        seq!['-'] + dec_str_view((-n) as nat)
    }
}

/// Renders a signed number in decimal.
pub fn i64_to_string(n: i64) -> (r: String)
    ensures
        r@ == dec_str_signed(n as int),
{
    if n >= 0 {
        u64_to_string(n as u64)
    } else {
        let mag: u64 = ((-(n + 1)) as u64) + 1;
        proof {
            assert(mag as int == -(n as int));
        }
        let mut s = String::new();
        push_char(&mut s, '-');
        proof {
            assert(s@ =~= seq!['-']);
        }
        let d = u64_to_string(mag);
        s.concat(d.as_str())
    }
}

/// Whether `s` begins with `prefix`.
pub fn has_prefix(s: &str, prefix: &str) -> (r: bool)
    ensures
        r == (s@.len() >= prefix@.len() && s@.subrange(0, prefix@.len() as int) == prefix@),
{
    let slen = s.unicode_len();
    let plen = prefix.unicode_len();
    if slen < plen {
        return false;
    }
    let head = s.substring_char(0, plen);
    str_eq(head, prefix)
}

/// The line with an optional `export ` marker removed from its front.
pub open spec fn strip_export_view(s: Seq<char>) -> Seq<char> {
    if s.len() >= 7 && s.subrange(0, 7) == "export "@ {
        s.skip(7)
    } else {
        s
    }
}

/// A `KEY=VALUE` line split at its first equals sign, after the
/// optional `export ` marker is dropped; lines without an equals
/// sign carry no binding.
pub open spec fn env_pair_view(line: Seq<char>) -> Option<(Seq<char>, Seq<char>)> {
    let t = strip_export_view(line);
    if exists|i: int| 0 <= i < t.len() && t[i] == '=' {
        let i = first_eq_index(t);
        Option::Some((t.subrange(0, i), t.subrange(i + 1, t.len() as int)))
    } else {
        Option::None
    }
}

/// The position of the first equals sign of a sequence that has one.
pub open spec fn first_eq_index(t: Seq<char>) -> int {
    choose|i: int| 0 <= i < t.len() && t[i] == '=' && (forall|j: int| 0 <= j < i ==> t[j] != '=')
}

/// Splits one credential-script output line into its binding, if any.
pub fn parse_env_line(line: &str) -> (r: Option<(String, String)>)
    ensures
        match r {
            Option::Some(kv) => env_pair_view(line@) == Option::Some((kv.0@, kv.1@)),
            Option::None => env_pair_view(line@) is None,
        },
{
    proof {
        reveal_strlit("export ");
    }
    let rest: &str = if has_prefix(line, "export ") {
        let len = line.unicode_len();
        line.substring_char(7, len)
    } else {
        line
    };
    proof {
        assert(rest@ == strip_export_view(line@));
    }
    let rlen = rest.unicode_len();
    let mut i: usize = 0;
    while i < rlen
        invariant
            rlen == rest@.len(),
            i <= rlen,
            rest@ == strip_export_view(line@),
            forall|j: int| 0 <= j < i ==> rest@[j] != '=',
        decreases rlen - i,
    {
        if rest.get_char(i) == '=' {
            let key = rest.substring_char(0, i);
            let value = rest.substring_char(i + 1, rlen);
            proof {
                let t = rest@;
                assert(exists|w: int| 0 <= w < t.len() && t[w] == '=') by {
                    assert(t[i as int] == '=');
                }
                assert(first_eq_index(t) == i as int) by {
                    let w = first_eq_index(t);
                    assert(0 <= w < t.len() && t[w] == '=' && (forall|j: int|
                        0 <= j < w ==> t[j] != '=')) by {
                        assert(0 <= (i as int) < t.len() && t[i as int] == '=' && (forall|j: int|
                            0 <= j < (i as int) ==> t[j] != '='));
                    }
                    if w < i as int {
                        assert(t[w] != '=');
                    }
                    if w > i as int {
                        assert(t[i as int] != '=');
                    }
                };
            }
            return Option::Some((String::from_str(key), String::from_str(value)));
        }
        i = i + 1;
    }
    Option::None
}

} // verus!
