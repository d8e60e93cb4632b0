//! Verified character-level string routines: comparison, prefix and
//! substring tests, whitespace normalization, and decimal formatting.

use vstd::prelude::*;
use vstd::string::StrSliceExecFns;
use vstd::string::StringExecFns;

verus! {

/// Copies a string slice into an owned `String` with the same characters.
pub fn str_to_owned(s: &str) -> (r: String)
    ensures
        r@ == s@,
{
    String::from_str(s)
}

/// Borrows a `String`'s characters as a string slice.
pub fn string_as_str(s: &String) -> (r: &str)
    ensures
        r@ == s@,
{
    &**s
}

/// Appends one character.
///
/// Relies on `String::push`: appends the given `char` to the end of the
/// string.
#[verifier::external_body]
pub fn push_char(s: &mut String, c: char)
    ensures
        final(s)@ == old(s)@ + seq![c],
{
    s.push(c);
}

/// Whether `c` has the Unicode `White_Space` property, the set of
/// characters on which text is split during whitespace normalization.
pub open spec fn is_ws_char(c: char) -> bool {
    let u = c as u32;
    ||| u == 0x9
    ||| u == 0xA
    ||| u == 0xB
    ||| u == 0xC
    ||| u == 0xD
    ||| u == 0x20
    ||| u == 0x85
    ||| u == 0xA0
    ||| u == 0x1680
    ||| (0x2000 <= u && u <= 0x200A)
    ||| u == 0x2028
    ||| u == 0x2029
    ||| u == 0x202F
    ||| u == 0x205F
    ||| u == 0x3000
}

/// Whether `c` has the Unicode `White_Space` property.
pub fn is_whitespace_char(c: char) -> (r: bool)
    ensures
        r == is_ws_char(c),
{
    let u = c as u32;
    u == 0x9 || u == 0xA || u == 0xB || u == 0xC || u == 0xD || u == 0x20 || u == 0x85
        || u == 0xA0 || u == 0x1680 || (0x2000 <= u && u <= 0x200A) || u == 0x2028 || u == 0x2029
        || u == 0x202F || u == 0x205F || u == 0x3000
}

/// Lexicographic order on character sequences, by code point; the empty
/// sequence comes first.
pub open spec fn lex_le(a: Seq<char>, b: Seq<char>) -> bool
    decreases a.len(),
{
    if a.len() == 0 {
        true
    } else if b.len() == 0 {
        false
    } else if a[0] == b[0] {
        lex_le(a.drop_first(), b.drop_first())
    } else {
        (a[0] as u32) < (b[0] as u32)
    }
}

/// The lexicographic order is total: of any two sequences, one is less
/// than or equal to the other.
pub proof fn lemma_lex_le_total(a: Seq<char>, b: Seq<char>)
    ensures
        lex_le(a, b) || lex_le(b, a),
    decreases a.len(),
{
    if a.len() != 0 && b.len() != 0 {
        if a[0] == b[0] {
            lemma_lex_le_total(a.drop_first(), b.drop_first());
        } else {
            vstd::utf8::char_u32_cast(a[0], a[0] as u32);
            vstd::utf8::char_u32_cast(b[0], b[0] as u32);
            assert(a[0] as u32 != b[0] as u32);
        }
    }
}

/// The lexicographic order is transitive.
pub proof fn lemma_lex_le_trans(a: Seq<char>, b: Seq<char>, c: Seq<char>)
    requires
        lex_le(a, b),
        lex_le(b, c),
    ensures
        lex_le(a, c),
    decreases a.len(),
{
    if a.len() != 0 && b.len() != 0 && c.len() != 0 {
        if a[0] == b[0] && b[0] == c[0] {
            lemma_lex_le_trans(a.drop_first(), b.drop_first(), c.drop_first());
        }
    }
}

/// Whether `p` is a prefix of `s`.
pub open spec fn has_prefix(s: Seq<char>, p: Seq<char>) -> bool {
    s.len() >= p.len() && s.subrange(0, p.len() as int) == p
}

/// Equal prefixes do not affect the comparison of the rest.
proof fn lemma_lex_le_common_prefix(a: Seq<char>, b: Seq<char>, i: int)
    requires
        0 <= i <= a.len(),
        0 <= i <= b.len(),
        forall|j: int| 0 <= j < i ==> a[j] == b[j],
    ensures
        lex_le(a, b) == lex_le(a.skip(i), b.skip(i)),
    decreases i,
{
    if i == 0 {
        assert(a.skip(0) =~= a);
        assert(b.skip(0) =~= b);
    } else {
        assert(a.len() > 0 && b.len() > 0 && a[0] == b[0]);
        lemma_lex_le_common_prefix(a.drop_first(), b.drop_first(), i - 1);
        assert(a.drop_first().skip(i - 1) =~= a.skip(i));
        assert(b.drop_first().skip(i - 1) =~= b.skip(i));
    }
}

/// Compares two string slices in lexicographic code-point order.
pub fn str_lex_le(a: &str, b: &str) -> (r: bool)
    ensures
        r == lex_le(a@, b@),
{
    let an = a.unicode_len();
    let bn = b.unicode_len();
    let mut i: usize = 0;
    loop
        invariant
            i <= an,
            i <= bn,
            an == a@.len(),
            bn == b@.len(),
            forall|j: int| 0 <= j < i ==> a@[j] == b@[j],
        decreases an - i,
    {
        if i == an {
            proof {
                lemma_lex_le_common_prefix(a@, b@, i as int);
                assert(a@.skip(i as int).len() == 0);
            }
            return true;
        }
        if i == bn {
            proof {
                lemma_lex_le_common_prefix(a@, b@, i as int);
                assert(b@.skip(i as int).len() == 0);
                assert(a@.skip(i as int).len() > 0);
            }
            return false;
        }
        let ca = a.get_char(i);
        let cb = b.get_char(i);
        if ca != cb {
            proof {
                lemma_lex_le_common_prefix(a@, b@, i as int);
                assert(a@.skip(i as int)[0] == ca);
                assert(b@.skip(i as int)[0] == cb);
            }
            return (ca as u32) < (cb as u32);
        }
        i = i + 1;
    }
}

/// Whether the string holds no characters.
pub fn str_is_empty(s: &str) -> (r: bool)
    ensures
        r == (s@.len() == 0),
{
    s.unicode_len() == 0
}

/// Whether two string slices hold the same characters.
pub fn str_eq_str(a: &str, b: &str) -> (r: bool)
    ensures
        r == (a@ == b@),
{
    let an = a.unicode_len();
    let bn = b.unicode_len();
    if an != bn {
        return false;
    }
    let mut i: usize = 0;
    while i < an
        invariant
            i <= an,
            an == a@.len(),
            an == b@.len(),
            forall|j: int| 0 <= j < i ==> a@[j] == b@[j],
        decreases an - i,
    {
        if a.get_char(i) != b.get_char(i) {
            return false;
        }
        i = i + 1;
    }
    proof {
        assert(a@ =~= b@);
    }
    true
}

/// Whether `p` is a prefix of `s`, character for character.
pub fn str_has_prefix(s: &str, p: &str) -> (r: bool)
    ensures
        r == has_prefix(s@, p@),
{
    let sn = s.unicode_len();
    let pn = p.unicode_len();
    if sn < pn {
        return false;
    }
    let mut i: usize = 0;
    while i < pn
        invariant
            i <= pn,
            pn <= sn,
            sn == s@.len(),
            pn == p@.len(),
            forall|j: int| 0 <= j < i ==> s@[j] == p@[j],
        decreases pn - i,
    {
        if s.get_char(i) != p.get_char(i) {
            assert(!has_prefix(s@, p@)) by {
                assert(s@.subrange(0, p@.len() as int)[i as int] == s@[i as int]);
            }
            return false;
        }
        i = i + 1;
    }
    proof {
        assert(s@.subrange(0, p@.len() as int) =~= p@);
    }
    true
}

/// The digit character for one decimal digit value.
pub open spec fn dec_digit(d: int) -> char {
    if d == 0 {
        '0'
    } else if d == 1 {
        '1'
    } else if d == 2 {
        '2'
    } else if d == 3 {
        '3'
    } else if d == 4 {
        '4'
    } else if d == 5 {
        '5'
    } else if d == 6 {
        '6'
    } else if d == 7 {
        '7'
    } else if d == 8 {
        '8'
    } else {
        '9'
    }
}

/// The decimal representation of a non-negative integer, most
/// significant digit first, with no leading zeros (except for zero
/// itself).
pub open spec fn dec_str(n: int) -> Seq<char>
    decreases n,
{
    if n < 10 {
        seq![dec_digit(n)]
    } else {
        dec_str(n / 10) + seq![dec_digit(n % 10)]
    }
}

/// The digit character for one decimal digit.
fn dec_digit_char(d: u64) -> (c: char)
    requires
        d < 10,
    ensures
        c == dec_digit(d as int),
{
    if d == 0 {
        '0'
    } else if d == 1 {
        '1'
    } else if d == 2 {
        '2'
    } else if d == 3 {
        '3'
    } else if d == 4 {
        '4'
    } else if d == 5 {
        '5'
    } else if d == 6 {
        '6'
    } else if d == 7 {
        '7'
    } else if d == 8 {
        '8'
    } else {
        '9'
    }
}

/// Formats an integer in decimal.
pub fn u64_to_dec_string(n: u64) -> (r: String)
    ensures
        r@ == dec_str(n as int),
    decreases n,
{
    if n < 10 {
        let mut s = String::new();
        push_char(&mut s, dec_digit_char(n));
        proof {
            assert(s@ =~= dec_str(n as int));
        }
        s
    } else {
        let mut s = u64_to_dec_string(n / 10);
        push_char(&mut s, dec_digit_char(n % 10));
        proof {
            assert(s@ =~= dec_str(n as int));
        }
        s
    }
}

/// The sequence with leading whitespace removed.
pub open spec fn trimmed_start(s: Seq<char>) -> Seq<char>
    decreases s.len(),
{
    if s.len() > 0 && is_ws_char(s[0]) {
        trimmed_start(s.drop_first())
    } else {
        s
    }
}

/// The sequence with trailing whitespace removed.
pub open spec fn trimmed_end(s: Seq<char>) -> Seq<char>
    decreases s.len(),
{
    if s.len() > 0 && is_ws_char(s.last()) {
        trimmed_end(s.drop_last())
    } else {
        s
    }
}

/// The sequence with leading and trailing whitespace removed.
pub open spec fn trimmed(s: Seq<char>) -> Seq<char> {
    trimmed_end(trimmed_start(s))
}

/// Dropping one leading whitespace character steps the trim forward.
proof fn lemma_trimmed_start_skip(s: Seq<char>, i: int)
    requires
        0 <= i <= s.len(),
        forall|j: int| 0 <= j < i ==> is_ws_char(s[j]),
    ensures
        trimmed_start(s) == trimmed_start(s.skip(i)),
    decreases i,
{
    if i == 0 {
        assert(s.skip(0) =~= s);
    } else {
        assert(is_ws_char(s[0]));
        assert(s.drop_first() =~= s.skip(1));
        lemma_trimmed_start_skip(s.drop_first(), i - 1);
        assert(s.drop_first().skip(i - 1) =~= s.skip(i));
    }
}

/// Dropping one trailing whitespace character steps the trim backward.
proof fn lemma_trimmed_end_take(s: Seq<char>, e: int)
    requires
        0 <= e <= s.len(),
        forall|j: int| e <= j < s.len() ==> is_ws_char(s[j]),
    ensures
        trimmed_end(s) == trimmed_end(s.take(e)),
    decreases s.len() - e,
{
    if e < s.len() {
        assert(is_ws_char(s.last()));
        assert(s.drop_last() =~= s.take(s.len() - 1));
        lemma_trimmed_end_take(s.take(s.len() - 1), e);
        assert(s.take(s.len() - 1).take(e) =~= s.take(e));
    } else {
        assert(s.take(e) =~= s);
    }
}

/// Removes leading and trailing whitespace.
pub fn str_trim(s: &str) -> (r: String)
    ensures
        r@ == trimmed(s@),
{
    let n = s.unicode_len();
    let mut b: usize = 0;
    while b < n && is_whitespace_char(s.get_char(b))
        invariant
            b <= n,
            n == s@.len(),
            forall|j: int| 0 <= j < b ==> is_ws_char(s@[j]),
        decreases n - b,
    {
        b = b + 1;
    }
    let mut e: usize = n;
    while e > b && is_whitespace_char(s.get_char(e - 1))
        invariant
            b <= e <= n,
            n == s@.len(),
            forall|j: int| 0 <= j < b ==> is_ws_char(s@[j]),
            forall|j: int| e <= j < n ==> is_ws_char(s@[j]),
        decreases e,
    {
        e = e - 1;
    }
    let piece = s.substring_char(b, e);
    proof {
        lemma_trimmed_start_skip(s@, b as int);
        let rest = s@.skip(b as int);
        assert forall|j: int| (e - b) <= j < rest.len() implies is_ws_char(rest[j]) by {
            assert(rest[j] == s@[j + b]);
        }
        lemma_trimmed_end_take(rest, e - b);
        if b < e {
            assert(!is_ws_char(s@[b as int]));
            assert(rest[0] == s@[b as int]);
            assert(trimmed_start(rest) == rest);
            assert(!is_ws_char(s@[e - 1]));
            let piece_seq = rest.take(e - b);
            assert(piece_seq.last() == s@[e - 1]);
            assert(trimmed_end(piece_seq) == piece_seq);
            assert(piece@ =~= piece_seq);
        } else {
            assert(rest.take(0) =~= Seq::<char>::empty());
            assert(trimmed_start(rest) =~= rest) by {
                if rest.len() > 0 {
                    assert(!is_ws_char(rest[0]));
                }
            }
            assert(piece@ =~= Seq::<char>::empty());
        }
    }
    str_to_owned(piece)
}

/// The part of `s` after its last `/`, or all of `s` when it has none.
pub open spec fn after_last_slash(s: Seq<char>) -> Seq<char>
    decreases s.len(),
{
    if s.len() == 0 {
        s
    } else if s.last() == '/' {
        Seq::empty()
    } else {
        after_last_slash(s.drop_last()).push(s.last())
    }
}

/// Returns the part of `s` after its last `/`, or all of `s` when it
/// has none; the final path segment of an identifier URL.
pub fn str_after_last_slash(s: &str) -> (r: String)
    ensures
        r@ == after_last_slash(s@),
{
    let n = s.unicode_len();
    let mut b: usize = n;
    while b > 0 && s.get_char(b - 1) != '/'
        invariant
            b <= n,
            n == s@.len(),
            forall|j: int| b <= j < n ==> s@[j] != '/',
        decreases b,
    {
        b = b - 1;
    }
    let piece = s.substring_char(b, n);
    proof {
        lemma_after_last_slash_at(s@, b as int);
        assert(piece@ =~= s@.skip(b as int));
    }
    str_to_owned(piece)
}

/// The suffix after the last slash is the suffix that starts right
/// after the last slash position.
proof fn lemma_after_last_slash_at(s: Seq<char>, b: int)
    requires
        0 <= b <= s.len(),
        forall|j: int| b <= j < s.len() ==> s[j] != '/',
        b > 0 ==> s[b - 1] == '/',
    ensures
        after_last_slash(s) == s.skip(b),
    decreases s.len(),
{
    if s.len() == 0 {
        assert(s.skip(0) =~= s);
    } else if b == s.len() {
        assert(s.last() == '/');
        assert(s.skip(b) =~= Seq::<char>::empty());
    } else {
        assert(s.last() != '/');
        assert(s.drop_last() =~= s.take(s.len() - 1));
        lemma_after_last_slash_at(s.drop_last(), b);
        assert(after_last_slash(s) == after_last_slash(s.drop_last()).push(s.last()));
        assert(s.drop_last().skip(b).push(s.last()) =~= s.skip(b));
    }
}

/// The items joined with `sep` between them.
pub open spec fn joined(items: Seq<Seq<char>>, sep: Seq<char>) -> Seq<char>
    decreases items.len(),
{
    if items.len() == 0 {
        Seq::empty()
    } else if items.len() == 1 {
        items[0]
    } else {
        joined(items.drop_last(), sep) + sep + items.last()
    }
}

/// Joins strings with a separator.
pub fn join_strings(items: &Vec<String>, sep: &str) -> (r: String)
    ensures
        r@ == joined(items@.map_values(|s: String| s@), sep@),
{
    let ghost views = items@.map_values(|s: String| s@);
    let mut out = String::new();
    let n = items.len();
    let mut i: usize = 0;
    while i < n
        invariant
            i <= n,
            n == items@.len(),
            views == items@.map_values(|s: String| s@),
            out@ == joined(views.take(i as int), sep@),
        decreases n - i,
    {
        if i > 0 {
            out.append(sep);
        }
        out.append(string_as_str(&items[i]));
        proof {
            assert(views.take(i as int + 1).drop_last() =~= views.take(i as int));
            assert(views.take(i as int + 1).last() == views[i as int]);
            if i == 0 {
                assert(out@ =~= joined(views.take(1), sep@));
            }
        }
        i = i + 1;
    }
    proof {
        assert(views.take(n as int) =~= views);
    }
    out
}

/// The character sequences behind a list of string pairs.
pub open spec fn pair_views(ps: Seq<(String, String)>) -> Seq<(Seq<char>, Seq<char>)> {
    ps.map_values(|p: (String, String)| (p.0@, p.1@))
}

/// Whether `sub` occurs in `s` starting at position `k`.
pub open spec fn matches_at(s: Seq<char>, sub: Seq<char>, k: int) -> bool {
    0 <= k && k + sub.len() <= s.len() && s.subrange(k, k + sub.len()) == sub
}

/// Whether `sub` occurs anywhere in `s`.
pub open spec fn contains_sub(s: Seq<char>, sub: Seq<char>) -> bool {
    exists|k: int| matches_at(s, sub, k)
}

/// Whether `sub` occurs in `s`, by a direct scan of every position.
pub fn str_contains_sub(s: &str, sub: &str) -> (r: bool)
    ensures
        r == contains_sub(s@, sub@),
{
    let sn = s.unicode_len();
    let subn = sub.unicode_len();
    if subn > sn {
        assert(forall|k: int| !matches_at(s@, sub@, k));
        return false;
    }
    let mut k: usize = 0;
    while k <= sn - subn
        invariant
            subn <= sn,
            sn == s@.len(),
            subn == sub@.len(),
            k <= sn - subn + 1,
            forall|j: int| 0 <= j < k ==> !matches_at(s@, sub@, j),
        decreases sn - subn + 1 - k,
    {
        let mut i: usize = 0;
        let mut hit = true;
        let ghost mut bad: int = 0;
        while i < subn
            invariant
                hit ==> forall|j: int| 0 <= j < i ==> s@[k + j] == sub@[j],
                !hit ==> 0 <= bad < subn && s@[k + bad] != sub@[bad],
                i <= subn,
                k + subn <= sn,
                sn == s@.len(),
                subn == sub@.len(),
            decreases subn - i,
        {
            if s.get_char(k + i) != sub.get_char(i) {
                proof {
                    bad = i as int;
                }
                hit = false;
                i = subn;
            } else {
                i = i + 1;
            }
        }
        if hit {
            assert(matches_at(s@, sub@, k as int)) by {
                assert(s@.subrange(k as int, k + sub@.len()) =~= sub@);
            }
            return true;
        } else {
            assert(!matches_at(s@, sub@, k as int)) by {
                if matches_at(s@, sub@, k as int) {
                    assert(s@.subrange(k as int, k + sub@.len())[bad] == s@[k + bad]);
                }
            }
        }
        k = k + 1;
    }
    assert(forall|j: int| !matches_at(s@, sub@, j));
    false
}

} // verus!
