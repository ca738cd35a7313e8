//! Text helpers that the request handlers and storage backends rely on:
//! substring tests, whitespace trimming, integer parsing, hex encoding and
//! path composition.  Each is stated over `Seq<char>` and proved.
use vstd::prelude::*;

verus! {

// ---------------------------------------------------------------------------
// Two consecutive dots
// ---------------------------------------------------------------------------

/// `s` holds two consecutive dots starting at position `i`.
pub open spec fn dotdot_at(s: Seq<char>, i: int) -> bool {
    0 <= i && i + 1 < s.len() && s[i] == '.' && s[i + 1] == '.'
}

/// `s` contains the substring `".."`.
pub open spec fn has_dotdot(s: Seq<char>) -> bool {
    exists|i: int| #[trigger] dotdot_at(s, i)
}

/// Whether `s` contains `".."` anywhere.
pub fn contains_dotdot(s: &str) -> (res: bool)
    ensures
        res == has_dotdot(s@),
{
    let n = s.unicode_len();
    if n < 2 {
        return false;
    }
    let mut i: usize = 0;
    while i + 1 < n
        invariant
            n == s@.len(),
            i + 1 <= n,
            forall|j: int| 0 <= j < i ==> !#[trigger] dotdot_at(s@, j),
        decreases n - i,
    {
        if s.get_char(i) == '.' && s.get_char(i + 1) == '.' {
            assert(dotdot_at(s@, i as int));
            return true;
        }
        i = i + 1;
    }
    false
}

// ---------------------------------------------------------------------------
// Whitespace trimming
// ---------------------------------------------------------------------------

/// The characters with the Unicode `White_Space` property, which is what
/// `char::is_whitespace` tests.
pub open spec fn is_white_space(c: char) -> bool {
    let v = c as u32;
    ||| 0x09 <= v <= 0x0D
    ||| v == 0x20
    ||| v == 0x85
    ||| v == 0xA0
    ||| v == 0x1680
    ||| 0x2000 <= v <= 0x200A
    ||| v == 0x2028
    ||| v == 0x2029
    ||| v == 0x202F
    ||| v == 0x205F
    ||| v == 0x3000
}

/// Whether `c` is a Unicode white-space character.
pub fn is_white_space_char(c: char) -> (res: bool)
    ensures
        res == is_white_space(c),
{
    let v = c as u32;
    (0x09 <= v && v <= 0x0D) || v == 0x20 || v == 0x85 || v == 0xA0 || v == 0x1680 || (0x2000
        <= v && v <= 0x200A) || v == 0x2028 || v == 0x2029 || v == 0x202F || v == 0x205F || v
        == 0x3000
}

/// `s` without its leading white space.
pub open spec fn trim_start(s: Seq<char>) -> Seq<char>
    decreases s.len(),
{
    if s.len() > 0 && is_white_space(s[0]) {
        trim_start(s.drop_first())
    } else {
        s
    }
}

/// `s` without its trailing white space.
pub open spec fn trim_end(s: Seq<char>) -> Seq<char>
    decreases s.len(),
{
    if s.len() > 0 && is_white_space(s.last()) {
        trim_end(s.drop_last())
    } else {
        s
    }
}

/// `s` without leading and trailing white space (what `str::trim` gives).
pub open spec fn trimmed(s: Seq<char>) -> Seq<char> {
    trim_end(trim_start(s))
}

proof fn lemma_trim_start_skip(s: Seq<char>, i: int)
    requires
        0 <= i <= s.len(),
        forall|j: int| 0 <= j < i ==> is_white_space(#[trigger] s[j]),
        i == s.len() || !is_white_space(s[i]),
    ensures
        trim_start(s) == s.subrange(i, s.len() as int),
    decreases i,
{
    if i == 0 {
        assert(s.subrange(0, s.len() as int) =~= s);
        if s.len() > 0 {
            assert(!is_white_space(s[0]));
        }
    } else {
        assert(is_white_space(s[0]));
        let t = s.drop_first();
        assert forall|j: int| 0 <= j < i - 1 implies is_white_space(#[trigger] t[j]) by {
            assert(t[j] == s[j + 1]);
        }
        if i - 1 < t.len() {
            assert(t[i - 1] == s[i]);
        }
        lemma_trim_start_skip(t, i - 1);
        assert(t.subrange(i - 1, t.len() as int) =~= s.subrange(i, s.len() as int));
    }
}

proof fn lemma_trim_end_cut(s: Seq<char>, k: int)
    requires
        0 <= k <= s.len(),
        forall|j: int| k <= j < s.len() ==> is_white_space(#[trigger] s[j]),
        k == 0 || !is_white_space(s[k - 1]),
    ensures
        trim_end(s) == s.subrange(0, k),
    decreases s.len() - k,
{
    if k == s.len() {
        assert(s.subrange(0, k) =~= s);
        if s.len() > 0 {
            assert(!is_white_space(s.last()));
        }
    } else {
        assert(is_white_space(s.last()));
        let t = s.drop_last();
        assert forall|j: int| k <= j < t.len() implies is_white_space(#[trigger] t[j]) by {
            assert(t[j] == s[j]);
        }
        if k > 0 {
            assert(t[k - 1] == s[k - 1]);
        }
        lemma_trim_end_cut(t, k);
        assert(t.subrange(0, k) =~= s.subrange(0, k));
    }
}

/// `s` with leading and trailing white space removed, as `str::trim` does.
pub fn trim(s: &str) -> (res: String)
    ensures
        res@ == trimmed(s@),
{
    let n = s.unicode_len();
    let mut i: usize = 0;
    while i < n && is_white_space_char(s.get_char(i))
        invariant
            n == s@.len(),
            i <= n,
            forall|j: int| 0 <= j < i ==> is_white_space(#[trigger] s@[j]),
        decreases n - i,
    {
        i = i + 1;
    }
    let mut k: usize = n;
    while k > i && is_white_space_char(s.get_char(k - 1))
        invariant
            n == s@.len(),
            i <= k <= n,
            forall|j: int| k <= j < n ==> is_white_space(#[trigger] s@[j]),
        decreases k - i,
    {
        k = k - 1;
    }
    proof {
        lemma_trim_start_skip(s@, i as int);
        let t = s@.subrange(i as int, n as int);
        assert forall|j: int| k - i <= j < t.len() implies is_white_space(#[trigger] t[j]) by {
            assert(t[j] == s@[j + i]);
        }
        if k > i {
            assert(t[k - i - 1] == s@[k - 1]);
        }
        lemma_trim_end_cut(t, k - i);
        assert(t.subrange(0, k - i) =~= s@.subrange(i as int, k as int));
    }
    String::from_str(s.substring_char(i, k))
}

// ---------------------------------------------------------------------------
// Decimal integers
// ---------------------------------------------------------------------------

/// `c` is one of the ASCII digits `0`..`9`.
pub open spec fn is_digit(c: char) -> bool {
    '0' <= c <= '9'
}

/// The number that a string of decimal digits denotes.
pub open spec fn digits_value(d: Seq<char>) -> int
    decreases d.len(),
{
    if d.len() == 0 {
        0
    } else {
        digits_value(d.drop_last()) * 10 + (d.last() as int - '0' as int)
    }
}

/// Every character of `d` is a decimal digit.
pub open spec fn all_digits(d: Seq<char>) -> bool {
    forall|i: int| 0 <= i < d.len() ==> is_digit(#[trigger] d[i])
}

/// The integer that `s` spells: an optional `+` or `-` followed by one or
/// more decimal digits, and nothing else.
pub open spec fn integer_text(s: Seq<char>) -> Option<int> {
    if s.len() > 0 && (s[0] == '+' || s[0] == '-') {
        let d = s.drop_first();
        if d.len() > 0 && all_digits(d) {
            Some(if s[0] == '-' { -digits_value(d) } else { digits_value(d) })
        } else {
            None
        }
    } else if s.len() > 0 && all_digits(s) {
        Some(digits_value(s))
    } else {
        None
    }
}

/// What `s.parse::<i64>()` accepts: the integer text of `s`, when it fits in
/// an `i64`.
pub open spec fn parsed_i64(s: Seq<char>) -> Option<i64> {
    match integer_text(s) {
        Some(v) => if i64::MIN <= v <= i64::MAX {
            Some(v as i64)
        } else {
            None
        },
        None => None,
    }
}

proof fn lemma_digits_value_nonneg(d: Seq<char>)
    requires
        all_digits(d),
    ensures
        digits_value(d) >= 0,
    decreases d.len(),
{
    if d.len() > 0 {
        assert(is_digit(d[d.len() - 1]));
        let t = d.drop_last();
        assert(all_digits(t)) by {
            assert forall|i: int| 0 <= i < t.len() implies is_digit(#[trigger] t[i]) by {
                assert(t[i] == d[i]);
            }
        }
        lemma_digits_value_nonneg(t);
    }
}

proof fn lemma_digits_value_prefix_le(d: Seq<char>, k: int)
    requires
        all_digits(d),
        0 <= k <= d.len(),
    ensures
        digits_value(d.take(k)) <= digits_value(d),
    decreases d.len() - k,
{
    if k < d.len() {
        let t = d.take(k + 1);
        assert(t.drop_last() =~= d.take(k));
        assert(all_digits(t)) by {
            assert forall|i: int| 0 <= i < t.len() implies is_digit(#[trigger] t[i]) by {
                assert(t[i] == d[i]);
            }
        }
        assert(is_digit(t.last()));
        assert(all_digits(d.take(k))) by {
            assert forall|i: int| 0 <= i < k implies is_digit(#[trigger] d.take(k)[i]) by {
                assert(d.take(k)[i] == d[i]);
            }
        }
        lemma_digits_value_nonneg(d.take(k));
        lemma_digits_value_prefix_le(d, k + 1);
    } else {
        assert(d.take(k) =~= d);
    }
}

/// Reads `s` as an `i64` the way `str::parse::<i64>` does.
pub fn parse_i64(s: &str) -> (res: Option<i64>)
    ensures
        res == parsed_i64(s@),
{
    let n = s.unicode_len();
    if n == 0 {
        return None;
    }
    let first = s.get_char(0);
    let negative = first == '-';
    let start: usize = if first == '+' || first == '-' {
        1
    } else {
        0
    };
    if start == n {
        return None;
    }
    let ghost d = s@.subrange(start as int, n as int);
    proof {
        if start == 1 {
            assert(d =~= s@.drop_first());
        } else {
            assert(d =~= s@);
        }
    }
    // The magnitude never needs to exceed 2^63 to decide the answer.
    let limit: u64 = 9223372036854775808;
    let mut acc: u64 = 0;
    let mut i: usize = start;
    while i < n
        invariant
            n == s@.len(),
            n > 0,
            start <= i <= n,
            start == 1 <==> (s@[0] == '+' || s@[0] == '-'),
            start <= 1,
            negative == (s@[0] == '-'),
            limit == 9223372036854775808u64,
            d == s@.subrange(start as int, n as int),
            start == 1 ==> d == s@.drop_first(),
            start == 0 ==> d == s@,
            all_digits(d.take(i - start)),
            acc as int == digits_value(d.take(i - start)),
            acc <= limit,
        decreases n - i,
    {
        let c = s.get_char(i);
        let cv = c as u32;
        if cv < 48 || cv > 57 {
            proof {
                assert(d[i - start] == c);
                assert(!all_digits(d));
            }
            return None;
        }
        let digit = (cv - 48) as u64;
        proof {
            let t = d.take(i - start + 1);
            assert(t.drop_last() =~= d.take(i - start));
            assert(t.last() == c);
            assert(all_digits(t)) by {
                assert forall|j: int| 0 <= j < t.len() implies is_digit(#[trigger] t[j]) by {
                    if j < i - start {
                        assert(t[j] == d.take(i - start)[j]);
                    }
                }
            }
        }
        if acc > (limit - digit) / 10 {
            // The digits read so far already exceed the i64 range; the full
            // text denotes a still larger magnitude, or is no integer at all.
            proof {
                let t = d.take(i - start + 1);
                assert(digits_value(t) == acc * 10 + digit);
                assert(acc * 10 + digit > limit) by (nonlinear_arith)
                    requires
                        acc > (limit - digit) / 10,
                        digit <= 9,
                        limit == 9223372036854775808u64,
                ;
                if all_digits(d) {
                    lemma_digits_value_prefix_le(d, i - start + 1);
                    assert(digits_value(d) > 9223372036854775808);
                }
            }
            return None;
        }
        proof {
            assert(acc * 10 + digit <= limit) by (nonlinear_arith)
                requires
                    acc <= (limit - digit) / 10,
                    digit <= 9,
                    limit == 9223372036854775808u64,
            ;
        }
        acc = acc * 10 + digit;
        i = i + 1;
    }
    proof {
        assert(d.take(n - start) =~= d);
    }
    if negative {
        if acc == limit {
            Some(-9223372036854775807i64 - 1)
        } else {
            Some(-(acc as i64))
        }
    } else if acc == limit {
        None
    } else {
        Some(acc as i64)
    }
}

// ---------------------------------------------------------------------------
// Lower-case hex
// ---------------------------------------------------------------------------

/// The lower-case hex digit for `d` in `0..16`.
pub open spec fn hex_digit(d: int) -> char {
    if d < 10 {
        ('0' as int + d) as char
    } else {
        ('a' as int + d - 10) as char
    }
}

/// Two lower-case hex digits per byte, most significant first.
pub open spec fn hex_lower(b: Seq<u8>) -> Seq<char> {
    Seq::new(
        2 * b.len(),
        |i: int|
            if i % 2 == 0 {
                hex_digit(b[i / 2] as int / 16)
            } else {
                hex_digit(b[i / 2] as int % 16)
            },
    )
}

fn hex_char(d: u8) -> (res: &'static str)
    requires
        d < 16,
    ensures
        res@ == seq![hex_digit(d as int)],
{
    let digits = "0123456789abcdef";
    proof {
        reveal_strlit("0123456789abcdef");
    }
    let d = d as usize;
    digits.substring_char(d, d + 1)
}

/// The bytes of `b` written as lower-case hex, two digits per byte.
pub fn to_hex_lower(b: &[u8]) -> (res: String)
    ensures
        res@ == hex_lower(b@),
{
    let mut out = String::new();
    let mut i: usize = 0;
    while i < b.len()
        invariant
            i <= b@.len(),
            out@ == hex_lower(b@.take(i as int)),
        decreases b@.len() - i,
    {
        let byte = b[i];
        out.append(hex_char(byte / 16));
        out.append(hex_char(byte % 16));
        proof {
            assert(hex_lower(b@.take(i + 1)) =~= hex_lower(b@.take(i as int)) + seq![
                hex_digit(byte as int / 16),
                hex_digit(byte as int % 16),
            ]);
        }
        i = i + 1;
    }
    proof {
        assert(b@.take(b@.len() as int) =~= b@);
    }
    out
}

// ---------------------------------------------------------------------------
// Paths
// ---------------------------------------------------------------------------

/// `s` with every `"../"` removed, scanning from the left without overlap
/// (what `s.replace("../", "")` gives).
pub open spec fn without_parent_refs(s: Seq<char>) -> Seq<char>
    decreases s.len(),
{
    if s.len() >= 3 && s[0] == '.' && s[1] == '.' && s[2] == '/' {
        without_parent_refs(s.skip(3))
    } else if s.len() > 0 {
        seq![s[0]] + without_parent_refs(s.skip(1))
    } else {
        s
    }
}

/// A text without `/` holds no `"../"` to remove.
pub proof fn lemma_no_slash_unchanged(s: Seq<char>)
    requires
        !s.contains('/'),
    ensures
        without_parent_refs(s) == s,
    decreases s.len(),
{
    if s.len() > 0 {
        if s.len() >= 3 {
            assert(s[2] != '/');
        }
        let t = s.skip(1);
        assert(!t.contains('/')) by {
            if t.contains('/') {
                let k = choose|k: int| 0 <= k < t.len() && t[k] == '/';
                assert(s[k + 1] == '/');
            }
        }
        lemma_no_slash_unchanged(t);
        assert(seq![s[0]] + t =~= s);
    }
}

/// Removes every `"../"` from `s`, left to right.
pub fn remove_parent_refs(s: &str) -> (res: String)
    ensures
        res@ == without_parent_refs(s@),
{
    let n = s.unicode_len();
    let mut out = String::new();
    let mut i: usize = 0;
    proof {
        assert(s@.skip(0) =~= s@);
        assert(out@ + without_parent_refs(s@) =~= without_parent_refs(s@));
    }
    while i < n
        invariant
            n == s@.len(),
            i <= n,
            out@ + without_parent_refs(s@.skip(i as int)) == without_parent_refs(s@),
        decreases n - i,
    {
        let ghost rest = s@.skip(i as int);
        if n - i > 2 && s.get_char(i) == '.' && s.get_char(i + 1) == '.' && s.get_char(i + 2)
            == '/' {
            proof {
                assert(rest.skip(3) =~= s@.skip(i + 3));
            }
            i = i + 3;
        } else {
            let piece = s.substring_char(i, i + 1);
            proof {
                assert(rest.skip(1) =~= s@.skip(i + 1));
                assert(piece@ =~= seq![rest[0]]);
                assert(out@ + piece@ + without_parent_refs(s@.skip(i + 1)) =~= out@ + (seq![
                    rest[0],
                ] + without_parent_refs(rest.skip(1))));
            }
            out.append(piece);
            i = i + 1;
        }
    }
    proof {
        assert(s@.skip(n as int) =~= Seq::<char>::empty());
        assert(out@ + Seq::<char>::empty() =~= out@);
    }
    out
}

/// `base` joined with `rel` the way `Path::join` does it on Unix: an
/// absolute `rel` replaces `base`; otherwise a `/` separates the two unless
/// `base` is empty or already ends in one.
pub open spec fn joined_path(base: Seq<char>, rel: Seq<char>) -> Seq<char> {
    if rel.len() > 0 && rel[0] == '/' {
        rel
    } else if base.len() > 0 && base.last() != '/' {
        base + seq!['/'] + rel
    } else {
        base + rel
    }
}

/// Joins a relative path onto a base path, as `Path::join` does on Unix.
pub fn join_path(base: &str, rel: &str) -> (res: String)
    ensures
        res@ == joined_path(base@, rel@),
{
    let rel_len = rel.unicode_len();
    if rel_len > 0 && rel.get_char(0) == '/' {
        return String::from_str(rel);
    }
    let base_len = base.unicode_len();
    let mut out = String::from_str(base);
    if base_len > 0 && base.get_char(base_len - 1) != '/' {
        let sep = "/";
        proof {
            reveal_strlit("/");
        }
        out.append(sep);
    }
    out.append(rel);
    out
}

} // verus!
