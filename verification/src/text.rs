use vstd::prelude::*;

verus! {

// ---------------------------------------------------------------------------
// Character classes
// ---------------------------------------------------------------------------

/// The Unicode `White_Space` property, which `char::is_whitespace` tests.
pub open spec fn is_ws(c: char) -> bool {
    ||| c == '\t'
    ||| c == '\n'
    ||| c == '\u{0B}'
    ||| c == '\u{0C}'
    ||| c == '\r'
    ||| c == ' '
    ||| c == '\u{85}'
    ||| c == '\u{A0}'
    ||| c == '\u{1680}'
    ||| ('\u{2000}' <= c && c <= '\u{200A}')
    ||| c == '\u{2028}'
    ||| c == '\u{2029}'
    ||| c == '\u{202F}'
    ||| c == '\u{205F}'
    ||| c == '\u{3000}'
}

/// `char::is_whitespace`: true exactly for the characters with the Unicode
/// `White_Space` property, as its documentation states.
#[verifier::external_body]
fn char_is_whitespace(c: char) -> (r: bool)
    ensures
        r == is_ws(c),
{
    c.is_whitespace()
}

/// Collects characters into a `String` (`FromIterator<char>` for `String`),
/// which keeps every character in order.
#[verifier::external_body]
pub fn string_from_chars(v: &Vec<char>) -> (s: String)
    ensures
        s@ == v@,
{
    v.iter().collect()
}

pub open spec fn spec_lower_char(c: char) -> char {
    if 'A' <= c && c <= 'Z' {
        ((c as u8) + 32) as char
    } else {
        c
    }
}

/// ASCII lower-casing of one character; other characters stay as they are.
pub fn lower_char(c: char) -> (r: char)
    ensures
        r == spec_lower_char(c),
{
    if 'A' <= c && c <= 'Z' {
        ((c as u8) + 32) as char
    } else {
        c
    }
}

pub open spec fn is_ascii_digit(c: char) -> bool {
    '0' <= c && c <= '9'
}

pub open spec fn digit_value(c: char) -> int {
    (c as int) - ('0' as int)
}

// ---------------------------------------------------------------------------
// Sequences of characters
// ---------------------------------------------------------------------------

pub open spec fn starts_with_seq(s: Seq<char>, p: Seq<char>) -> bool {
    p.len() <= s.len() && s.subrange(0, p.len() as int) == p
}

pub open spec fn ends_with_seq(s: Seq<char>, p: Seq<char>) -> bool {
    p.len() <= s.len() && s.subrange(s.len() - p.len(), s.len() as int) == p
}

pub open spec fn trim_start_seq(s: Seq<char>) -> Seq<char>
    decreases s.len(),
{
    if s.len() > 0 && is_ws(s[0]) {
        trim_start_seq(s.drop_first())
    } else {
        s
    }
}

pub open spec fn trim_end_seq(s: Seq<char>) -> Seq<char>
    decreases s.len(),
{
    if s.len() > 0 && is_ws(s.last()) {
        trim_end_seq(s.drop_last())
    } else {
        s
    }
}

/// What `str::trim` keeps: the text without leading and trailing whitespace.
pub open spec fn trim_seq(s: Seq<char>) -> Seq<char> {
    trim_end_seq(trim_start_seq(s))
}

pub open spec fn lower_seq(s: Seq<char>) -> Seq<char> {
    s.map_values(|c: char| spec_lower_char(c))
}

pub open spec fn is_first_index(s: Seq<char>, c: char, i: int) -> bool {
    &&& 0 <= i < s.len()
    &&& s[i] == c
    &&& forall|j: int| 0 <= j < i ==> s[j] != c
}

/// What `str::split_once` with a character pattern gives back: the text
/// before and after the first occurrence of `c`.
pub open spec fn split_once_seq(s: Seq<char>, c: char) -> Option<(Seq<char>, Seq<char>)> {
    if exists|i: int| is_first_index(s, c, i) {
        let i = choose|i: int| is_first_index(s, c, i);
        Some((s.subrange(0, i), s.subrange(i + 1, s.len() as int)))
    } else {
        None
    }
}

/// `parts` joined with `sep` between consecutive parts.
pub open spec fn join_seq(parts: Seq<Seq<char>>, sep: Seq<char>) -> Seq<char>
    decreases parts.len(),
{
    if parts.len() == 0 {
        Seq::empty()
    } else if parts.len() == 1 {
        parts[0]
    } else {
        join_seq(parts.drop_last(), sep) + sep + parts.last()
    }
}

pub open spec fn string_views(v: Seq<String>) -> Seq<Seq<char>> {
    v.map_values(|s: String| s@)
}

// ---------------------------------------------------------------------------
// Executable helpers
// ---------------------------------------------------------------------------

/// Whether two character sequences are equal.
pub fn str_eq(a: &str, b: &str) -> (r: bool)
    ensures
        r == (a@ == b@),
{
    let n = a.unicode_len();
    let m = b.unicode_len();
    if n != m {
        return false;
    }
    let mut i: usize = 0;
    while i < n
        invariant
            n == a@.len(),
            m == b@.len(),
            n == m,
            i <= n,
            forall|j: int| 0 <= j < i ==> a@[j] == b@[j],
        decreases n - i,
    {
        if a.get_char(i) != b.get_char(i) {
            return false;
        }
        i = i + 1;
    }
    assert(a@ =~= b@);
    true
}

pub fn collect_chars(s: &str) -> (v: Vec<char>)
    ensures
        v@ == s@,
{
    let mut v: Vec<char> = Vec::new();
    let n = s.unicode_len();
    let mut i: usize = 0;
    while i < n
        invariant
            n == s@.len(),
            i <= n,
            v@ == s@.subrange(0, i as int),
        decreases n - i,
    {
        v.push(s.get_char(i));
        i = i + 1;
    }
    assert(v@ =~= s@);
    v
}

/// A copy of `s` as an owned string.
pub fn owned(s: &str) -> (r: String)
    ensures
        r@ == s@,
{
    String::from_str(s)
}

pub fn starts_with(s: &str, p: &str) -> (r: bool)
    ensures
        r == starts_with_seq(s@, p@),
{
    let n = s.unicode_len();
    let m = p.unicode_len();
    if m > n {
        return false;
    }
    let head = s.substring_char(0, m);
    str_eq(head, p)
}

pub fn ends_with(s: &str, p: &str) -> (r: bool)
    ensures
        r == ends_with_seq(s@, p@),
{
    let n = s.unicode_len();
    let m = p.unicode_len();
    if m > n {
        return false;
    }
    let tail = s.substring_char(n - m, n);
    str_eq(tail, p)
}

/// `str::strip_prefix`: the rest of `s` after `p`, where `s` starts with `p`.
pub fn strip_prefix<'a>(s: &'a str, p: &str) -> (r: Option<&'a str>)
    ensures
        r is Some <==> starts_with_seq(s@, p@),
        r is Some ==> r->0@ == s@.subrange(p@.len() as int, s@.len() as int),
{
    let n = s.unicode_len();
    let m = p.unicode_len();
    if m > n {
        return None;
    }
    if str_eq(s.substring_char(0, m), p) {
        Some(s.substring_char(m, n))
    } else {
        None
    }
}

/// `str::trim`.
pub fn trim<'a>(s: &'a str) -> (r: &'a str)
    ensures
        r@ == trim_seq(s@),
{
    let n = s.unicode_len();
    let mut a: usize = 0;
    assert(s@.subrange(0, n as int) =~= s@);
    while a < n
        invariant
            n == s@.len(),
            a <= n,
            trim_start_seq(s@) == trim_start_seq(s@.subrange(a as int, n as int)),
        ensures
            a == n || !is_ws(s@[a as int]),
        decreases n - a,
    {
        if !char_is_whitespace(s.get_char(a)) {
            break;
        }
        assert(s@.subrange(a as int, n as int).drop_first() =~= s@.subrange(a + 1, n as int));
        a = a + 1;
    }
    let ghost rest = s@.subrange(a as int, n as int);
    assert(trim_start_seq(s@) == rest) by {
        if a < n {
            assert(rest[0] == s@[a as int]);
        }
    }
    let mut b: usize = n;
    while b > a
        invariant
            n == s@.len(),
            a <= b <= n,
            rest == s@.subrange(a as int, n as int),
            trim_end_seq(rest) == trim_end_seq(s@.subrange(a as int, b as int)),
        ensures
            b == a || !is_ws(s@[b - 1]),
        decreases b - a,
    {
        if !char_is_whitespace(s.get_char(b - 1)) {
            break;
        }
        assert(s@.subrange(a as int, b as int).drop_last() =~= s@.subrange(a as int, b - 1));
        b = b - 1;
    }
    let r = s.substring_char(a, b);
    assert(trim_end_seq(s@.subrange(a as int, b as int)) == r@) by {
        if b > a {
            assert(r@.last() == s@[b - 1]);
        }
    }
    r
}

/// Lower-cases the ASCII letters of `s` (`str::to_ascii_lowercase`).
pub fn to_ascii_lowercase(s: &str) -> (r: String)
    ensures
        r@ == lower_seq(s@),
{
    let n = s.unicode_len();
    let mut v: Vec<char> = Vec::new();
    let mut i: usize = 0;
    while i < n
        invariant
            n == s@.len(),
            i <= n,
            v@ == lower_seq(s@.subrange(0, i as int)),
        decreases n - i,
    {
        let c = lower_char(s.get_char(i));
        v.push(c);
        i = i + 1;
        assert(lower_seq(s@.subrange(0, i as int)) =~= lower_seq(s@.subrange(0, i - 1)).push(c));
    }
    assert(s@.subrange(0, n as int) =~= s@);
    string_from_chars(&v)
}

/// `str::split_once` with a character pattern.
pub fn split_once<'a>(s: &'a str, c: char) -> (r: Option<(&'a str, &'a str)>)
    ensures
        match r {
            Some((x, y)) => split_once_seq(s@, c) == Some((x@, y@)),
            None => split_once_seq(s@, c) is None,
        },
{
    let n = s.unicode_len();
    let mut i: usize = 0;
    while i < n
        invariant
            n == s@.len(),
            i <= n,
            forall|j: int| 0 <= j < i ==> s@[j] != c,
        decreases n - i,
    {
        if s.get_char(i) == c {
            assert(is_first_index(s@, c, i as int));
            let ghost k = choose|k: int| is_first_index(s@, c, k);
            assert(k == i);
            return Some((s.substring_char(0, i), s.substring_char(i + 1, n)));
        }
        i = i + 1;
    }
    assert(!exists|k: int| is_first_index(s@, c, k));
    None
}

/// Joins owned strings with `sep` between them (`[String]::join`).
pub fn join(parts: &Vec<String>, sep: &str) -> (r: String)
    ensures
        r@ == join_seq(string_views(parts@), sep@),
{
    let ghost views = string_views(parts@);
    let mut out = String::new();
    let mut i: usize = 0;
    while i < parts.len()
        invariant
            views == string_views(parts@),
            i <= parts.len(),
            out@ == join_seq(views.subrange(0, i as int), sep@),
        decreases parts.len() - i,
    {
        let ghost before = views.subrange(0, i as int);
        if i > 0 {
            out.append(sep);
        }
        out.append(parts[i].as_str());
        i = i + 1;
        let ghost after = views.subrange(0, i as int);
        assert(after.drop_last() =~= before);
        if i == 1 {
            assert(out@ =~= after[0]);
        }
    }
    assert(views.subrange(0, parts.len() as int) =~= views);
    out
}

// ---------------------------------------------------------------------------
// Decimal integers (`str::parse` for integer types)
// ---------------------------------------------------------------------------

pub open spec fn all_digits(s: Seq<char>) -> bool {
    forall|i: int| 0 <= i < s.len() ==> is_ascii_digit(s[i])
}

pub open spec fn digits_value(s: Seq<char>) -> int
    decreases s.len(),
{
    if s.len() == 0 {
        0
    } else {
        10 * digits_value(s.drop_last()) + digit_value(s.last())
    }
}

/// The digits after an optional leading `+`.
pub open spec fn unsigned_body(s: Seq<char>) -> Seq<char> {
    if s.len() > 0 && s[0] == '+' {
        s.drop_first()
    } else {
        s
    }
}

/// What `str::parse::<u16>` accepts, and the value it gives.
pub open spec fn parse_u16_spec(s: Seq<char>) -> Option<u16> {
    let body = unsigned_body(s);
    if body.len() > 0 && all_digits(body) && digits_value(body) <= u16::MAX {
        Some(digits_value(body) as u16)
    } else {
        None
    }
}

/// What `str::parse::<i32>` accepts, and the value it gives.
pub open spec fn parse_i32_spec(s: Seq<char>) -> Option<i32> {
    if s.len() > 0 && s[0] == '-' {
        let body = s.drop_first();
        if body.len() > 0 && all_digits(body) && digits_value(body) <= 0x8000_0000 {
            Some((0 - digits_value(body)) as i32)
        } else {
            None
        }
    } else {
        let body = unsigned_body(s);
        if body.len() > 0 && all_digits(body) && digits_value(body) <= i32::MAX {
            Some(digits_value(body) as i32)
        } else {
            None
        }
    }
}

pub proof fn lemma_digits_value_nonneg(s: Seq<char>)
    requires
        all_digits(s),
    ensures
        digits_value(s) >= 0,
    decreases s.len(),
{
    if s.len() > 0 {
        lemma_digits_value_nonneg(s.drop_last());
    }
}

/// A longer run of digits is worth at least as much as its prefix.
pub proof fn lemma_digits_value_prefix(s: Seq<char>, k: int)
    requires
        all_digits(s),
        0 <= k <= s.len(),
    ensures
        digits_value(s.subrange(0, k)) <= digits_value(s),
    decreases s.len() - k,
{
    if k < s.len() {
        lemma_digits_value_prefix(s, k + 1);
        let p = s.subrange(0, k + 1);
        assert(p.drop_last() =~= s.subrange(0, k));
        lemma_digits_value_nonneg(s.subrange(0, k));
    } else {
        assert(s.subrange(0, k) =~= s);
    }
}

/// The value of a run of decimal digits, where it is at most `bound`.
fn parse_digits(s: &str, from: usize, bound: u64) -> (r: Option<u64>)
    requires
        from <= s@.len(),
    ensures
        ({
            let body = s@.subrange(from as int, s@.len() as int);
            match r {
                Some(v) => body.len() > 0 && all_digits(body) && v == digits_value(body)
                    && v <= bound,
                None => !(body.len() > 0 && all_digits(body) && digits_value(body) <= bound),
            }
        }),
{
    let n = s.unicode_len();
    let ghost body = s@.subrange(from as int, n as int);
    if from == n {
        return None;
    }
    let mut acc: u64 = 0;
    let mut i: usize = from;
    while i < n
        invariant
            n == s@.len(),
            from <= i <= n,
            body == s@.subrange(from as int, n as int),
            all_digits(body.subrange(0, i - from)),
            acc == digits_value(body.subrange(0, i - from)),
            acc <= bound,
        decreases n - i,
    {
        let c = s.get_char(i);
        if !('0' <= c && c <= '9') {
            assert(!all_digits(body)) by {
                assert(body[i - from] == c);
            }
            return None;
        }
        let d = (c as u32 - '0' as u32) as u64;
        let ghost prefix = body.subrange(0, i - from + 1);
        assert(prefix.drop_last() =~= body.subrange(0, i - from));
        assert(all_digits(prefix));
        let mut overflow = false;
        let next: u64 = match acc.checked_mul(10) {
            Some(t) => match t.checked_add(d) {
                Some(v) => v,
                None => {
                    overflow = true;
                    0
                },
            },
            None => {
                overflow = true;
                0
            },
        };
        assert(overflow ==> acc * 10 + d > u64::MAX);
        assert(!overflow ==> next == acc * 10 + d);
        if overflow || next > bound {
            assert(digits_value(prefix) > bound);
            assert(!(all_digits(body) && digits_value(body) <= bound)) by {
                if all_digits(body) {
                    lemma_digits_value_prefix(body, i - from + 1);
                }
            }
            return None;
        }
        acc = next;
        i = i + 1;
    }
    assert(body.subrange(0, n - from) =~= body);
    Some(acc)
}

/// `str::parse::<u16>`.
pub fn parse_u16(s: &str) -> (r: Option<u16>)
    ensures
        r == parse_u16_spec(s@),
{
    let n = s.unicode_len();
    let from: usize = if n > 0 && s.get_char(0) == '+' { 1 } else { 0 };
    assert(unsigned_body(s@) =~= s@.subrange(from as int, n as int));
    match parse_digits(s, from, 0xFFFF) {
        Some(v) => Some(v as u16),
        None => None,
    }
}

/// What `str::parse::<usize>` accepts, and the value it gives.
pub open spec fn parse_usize_spec(s: Seq<char>) -> Option<usize> {
    let body = unsigned_body(s);
    if body.len() > 0 && all_digits(body) && digits_value(body) <= usize::MAX {
        Some(digits_value(body) as usize)
    } else {
        None
    }
}

/// `str::parse::<usize>`.
pub fn parse_usize(s: &str) -> (r: Option<usize>)
    ensures
        r == parse_usize_spec(s@),
{
    let n = s.unicode_len();
    let from: usize = if n > 0 && s.get_char(0) == '+' { 1 } else { 0 };
    assert(unsigned_body(s@) =~= s@.subrange(from as int, n as int));
    match parse_digits(s, from, usize::MAX as u64) {
        Some(v) => Some(v as usize),
        None => None,
    }
}

/// `str::parse::<i32>`.
pub fn parse_i32(s: &str) -> (r: Option<i32>)
    ensures
        r == parse_i32_spec(s@),
{
    let n = s.unicode_len();
    if n > 0 && s.get_char(0) == '-' {
        assert(s@.drop_first() =~= s@.subrange(1, n as int));
        match parse_digits(s, 1, 0x8000_0000) {
            Some(v) => {
                let x: i64 = 0i64 - (v as i64);
                Some(x as i32)
            },
            None => None,
        }
    } else {
        let from: usize = if n > 0 && s.get_char(0) == '+' { 1 } else { 0 };
        assert(unsigned_body(s@) =~= s@.subrange(from as int, n as int));
        match parse_digits(s, from, 0x7FFF_FFFF) {
            Some(v) => Some(v as i32),
            None => None,
        }
    }
}

// ---------------------------------------------------------------------------
// Searching and replacing
// ---------------------------------------------------------------------------

pub open spec fn is_last_index(s: Seq<char>, c: char, i: int) -> bool {
    &&& 0 <= i < s.len()
    &&& s[i] == c
    &&& forall|j: int| i < j < s.len() ==> s[j] != c
}

/// What `str::rsplit_once` with a character pattern gives back: the text
/// before and after the last occurrence of `c`.
pub open spec fn rsplit_once_seq(s: Seq<char>, c: char) -> Option<(Seq<char>, Seq<char>)> {
    if exists|i: int| is_last_index(s, c, i) {
        let i = choose|i: int| is_last_index(s, c, i);
        Some((s.subrange(0, i), s.subrange(i + 1, s.len() as int)))
    } else {
        None
    }
}

/// `str::rsplit_once` with a character pattern.
pub fn rsplit_once<'a>(s: &'a str, c: char) -> (r: Option<(&'a str, &'a str)>)
    ensures
        match r {
            Some((x, y)) => rsplit_once_seq(s@, c) == Some((x@, y@)),
            None => rsplit_once_seq(s@, c) is None,
        },
{
    let n = s.unicode_len();
    let mut i: usize = n;
    while i > 0
        invariant
            n == s@.len(),
            i <= n,
            forall|j: int| i <= j < n ==> s@[j] != c,
        decreases i,
    {
        if s.get_char(i - 1) == c {
            assert(is_last_index(s@, c, i - 1));
            let ghost k = choose|k: int| is_last_index(s@, c, k);
            assert(k == i - 1);
            return Some((s.substring_char(0, i - 1), s.substring_char(i, n)));
        }
        i = i - 1;
    }
    assert(!exists|k: int| is_last_index(s@, c, k));
    None
}

/// Whether `s` holds the character `c`.
pub fn contains_char(s: &str, c: char) -> (r: bool)
    ensures
        r == s@.contains(c),
{
    let n = s.unicode_len();
    let mut i: usize = 0;
    while i < n
        invariant
            n == s@.len(),
            i <= n,
            forall|j: int| 0 <= j < i ==> s@[j] != c,
        decreases n - i,
    {
        if s.get_char(i) == c {
            assert(s@[i as int] == c);
            return true;
        }
        i = i + 1;
    }
    false
}

/// The text before the first `c`, or all of it (`str::split(c).next()`).
pub open spec fn before_first_seq(s: Seq<char>, c: char) -> Seq<char> {
    match split_once_seq(s, c) {
        Some((a, _)) => a,
        None => s,
    }
}

pub fn before_first<'a>(s: &'a str, c: char) -> (r: &'a str)
    ensures
        r@ == before_first_seq(s@, c),
{
    match split_once(s, c) {
        Some((a, _)) => a,
        None => s,
    }
}

/// `s` with each `%25` read left to right replaced by `%`.
pub open spec fn unescape_pct25(s: Seq<char>) -> Seq<char>
    decreases s.len(),
{
    if s.len() == 0 {
        Seq::empty()
    } else if s.len() >= 3 && s[0] == '%' && s[1] == '2' && s[2] == '5' {
        seq!['%'] + unescape_pct25(s.subrange(3, s.len() as int))
    } else {
        seq![s[0]] + unescape_pct25(s.drop_first())
    }
}

/// `str::replace("%25", "%")`.
pub fn replace_pct25(s: &str) -> (r: String)
    ensures
        r@ == unescape_pct25(s@),
{
    let n = s.unicode_len();
    let mut out: Vec<char> = Vec::new();
    let mut i: usize = 0;
    assert(s@.subrange(0, n as int) =~= s@);
    while i < n
        invariant
            n == s@.len(),
            i <= n,
            out@ + unescape_pct25(s@.subrange(i as int, n as int)) == unescape_pct25(s@),
        decreases n - i,
    {
        let ghost rest = s@.subrange(i as int, n as int);
        if n - i >= 3 && s.get_char(i) == '%' && s.get_char(i + 1) == '2' && s.get_char(i + 2)
            == '5' {
            assert(rest.subrange(3, rest.len() as int) =~= s@.subrange(i + 3, n as int));
            let ghost before = out@;
            out.push('%');
            assert(before + unescape_pct25(rest) =~= out@ + unescape_pct25(
                s@.subrange(i + 3, n as int),
            ));
            i = i + 3;
        } else {
            let c = s.get_char(i);
            assert(rest.drop_first() =~= s@.subrange(i + 1, n as int));
            let ghost before = out@;
            out.push(c);
            assert(before + unescape_pct25(rest) =~= out@ + unescape_pct25(
                s@.subrange(i + 1, n as int),
            ));
            i = i + 1;
        }
    }
    assert(out@ + unescape_pct25(s@.subrange(n as int, n as int)) =~= out@);
    string_from_chars(&out)
}

// ---------------------------------------------------------------------------
// Decimal formatting
// ---------------------------------------------------------------------------

pub open spec fn digit_char(d: int) -> char {
    ((d + 48) as u8) as char
}

/// The decimal digits of `n`, as `Display` writes an unsigned integer.
pub open spec fn decimal_seq(n: nat) -> Seq<char>
    decreases n,
{
    if n < 10 {
        seq![digit_char(n as int)]
    } else {
        decimal_seq(n / 10).push(digit_char((n % 10) as int))
    }
}

/// `u64::to_string`.
pub fn u64_to_decimal(n: u64) -> (r: String)
    ensures
        r@ == decimal_seq(n as nat),
{
    let mut digits: Vec<char> = Vec::new();
    let mut m: u64 = n;
    let mut rev: Vec<char> = Vec::new();
    // digits of n, least significant first
    loop
        invariant_except_break
            decimal_seq(n as nat) == decimal_seq(m as nat) + rev@.reverse(),
        ensures
            decimal_seq(n as nat) == rev@.reverse(),
        decreases m,
    {
        let d = (m % 10) as u8;
        let c = (d + 48) as char;
        let ghost old_rev = rev@;
        if m < 10 {
            rev.push(c);
            assert(decimal_seq(m as nat) == seq![c]);
            assert(rev@.reverse() =~= seq![c] + old_rev.reverse());
            break;
        }
        rev.push(c);
        assert(rev@.reverse() =~= seq![c] + old_rev.reverse());
        assert(decimal_seq(m as nat) == decimal_seq((m / 10) as nat).push(c));
        m = m / 10;
        assert(decimal_seq(n as nat) =~= decimal_seq(m as nat) + rev@.reverse());
    }
    let mut i: usize = rev.len();
    while i > 0
        invariant
            i <= rev.len(),
            digits@ == rev@.reverse().subrange(0, rev.len() - i),
        decreases i,
    {
        digits.push(rev[i - 1]);
        i = i - 1;
        assert(digits@ =~= rev@.reverse().subrange(0, rev.len() - i));
    }
    assert(digits@ =~= rev@.reverse());
    assert(decimal_seq(n as nat) =~= rev@.reverse());
    string_from_chars(&digits)
}

// ---------------------------------------------------------------------------
// Ordering of text
// ---------------------------------------------------------------------------

/// Lexicographic order by code point, the order of `String` (UTF-8 bytes
/// compare in the same order as the code points they encode).
pub open spec fn seq_lt(a: Seq<char>, b: Seq<char>) -> bool
    decreases a.len(),
{
    if a.len() == 0 {
        b.len() > 0
    } else if b.len() == 0 {
        false
    } else if a[0] != b[0] {
        a[0] < b[0]
    } else {
        seq_lt(a.drop_first(), b.drop_first())
    }
}

/// Any two different texts are ordered one way or the other.
pub proof fn lemma_seq_lt_total(a: Seq<char>, b: Seq<char>)
    requires
        a != b,
    ensures
        seq_lt(a, b) || seq_lt(b, a),
    decreases a.len(),
{
    if a.len() > 0 && b.len() > 0 && a[0] == b[0] {
        if a.drop_first() == b.drop_first() {
            assert(a =~= seq![a[0]] + a.drop_first());
            assert(b =~= seq![b[0]] + b.drop_first());
        }
        lemma_seq_lt_total(a.drop_first(), b.drop_first());
    } else if a.len() == 0 && b.len() == 0 {
        assert(a =~= b);
    } else if a.len() > 0 && b.len() > 0 {
    }
}

/// No text comes before itself.
pub proof fn lemma_seq_lt_irreflexive(a: Seq<char>)
    ensures
        !seq_lt(a, a),
    decreases a.len(),
{
    if a.len() > 0 {
        lemma_seq_lt_irreflexive(a.drop_first());
    }
}

/// Dropping a common prefix keeps the order.
pub proof fn lemma_seq_lt_skip(a: Seq<char>, b: Seq<char>, i: int)
    requires
        0 <= i <= a.len(),
        i <= b.len(),
        a.subrange(0, i) == b.subrange(0, i),
    ensures
        seq_lt(a, b) == seq_lt(a.subrange(i, a.len() as int), b.subrange(i, b.len() as int)),
    decreases i,
{
    if i > 0 {
        assert(a[0] == a.subrange(0, i)[0]);
        assert(b[0] == b.subrange(0, i)[0]);
        let (a1, b1) = (a.drop_first(), b.drop_first());
        assert(a1.subrange(0, i - 1) =~= a.subrange(1, i));
        assert(b1.subrange(0, i - 1) =~= b.subrange(1, i));
        assert(a.subrange(1, i) =~= a.subrange(0, i).drop_first());
        assert(b.subrange(1, i) =~= b.subrange(0, i).drop_first());
        lemma_seq_lt_skip(a1, b1, i - 1);
        assert(a1.subrange(i - 1, a1.len() as int) =~= a.subrange(i, a.len() as int));
        assert(b1.subrange(i - 1, b1.len() as int) =~= b.subrange(i, b.len() as int));
    } else {
        assert(a.subrange(0, a.len() as int) =~= a);
        assert(b.subrange(0, b.len() as int) =~= b);
    }
}

/// Whether `a` comes before `b` (`a < b` on strings).
pub fn str_lt(a: &str, b: &str) -> (r: bool)
    ensures
        r == seq_lt(a@, b@),
{
    let n = a.unicode_len();
    let m = b.unicode_len();
    let mut i: usize = 0;
    while i < n && i < m
        invariant
            n == a@.len(),
            m == b@.len(),
            i <= n,
            i <= m,
            a@.subrange(0, i as int) == b@.subrange(0, i as int),
        decreases n - i,
    {
        let x = a.get_char(i);
        let y = b.get_char(i);
        if x != y {
            proof {
                lemma_seq_lt_skip(a@, b@, i as int);
                let (ra, rb) = (a@.subrange(i as int, n as int), b@.subrange(i as int, m as int));
                assert(ra[0] == x && rb[0] == y);
            }
            return x < y;
        }
        assert(a@.subrange(0, i + 1) =~= a@.subrange(0, i as int).push(x));
        assert(b@.subrange(0, i + 1) =~= b@.subrange(0, i as int).push(y));
        i = i + 1;
    }
    proof {
        lemma_seq_lt_skip(a@, b@, i as int);
    }
    i == n && i < m
}

/// Each text comes before the next one.
pub open spec fn sorted_strict(s: Seq<Seq<char>>) -> bool {
    forall|i: int, j: int| 0 <= i && j == i + 1 && j < s.len() ==> #[trigger] seq_lt(s[i], s[j])
}

/// Puts `x` into the sorted list `v`, unless it is already there
/// (`BTreeSet::insert` on a sorted list).
pub fn insert_sorted(v: &mut Vec<String>, x: String)
    requires
        sorted_strict(string_views(old(v)@)),
    ensures
        sorted_strict(string_views(final(v)@)),
        forall|y: Seq<char>|
            string_views(final(v)@).contains(y) <==> (string_views(old(v)@).contains(y) || y == x@),
{
    let ghost before = string_views(v@);
    let mut k: usize = 0;
    while k < v.len()
        invariant
            before == string_views(v@),
            k <= v.len(),
            forall|j: int| 0 <= j < k ==> seq_lt(before[j], x@),
        ensures
            k == v.len() || !seq_lt(before[k as int], x@),
        decreases v.len() - k,
    {
        assert(before[k as int] == v@[k as int]@);
        if !str_lt(v[k].as_str(), x.as_str()) {
            break;
        }
        k = k + 1;
    }
    if k < v.len() && str_eq(v[k].as_str(), x.as_str()) {
        assert(before[k as int] == v@[k as int]@);
        assert(before[k as int] == x@);
        assert forall|y: Seq<char>| string_views(v@).contains(y) <==> (before.contains(y) || y == x@) by {
            if y == x@ {
                assert(string_views(v@)[k as int] == y);
            }
        }
        return;
    }
    let ghost xv = x@;
    proof {
        if k < v.len() {
            assert(before[k as int] == v@[k as int]@);
            assert(!seq_lt(before[k as int], xv));
            assert(before[k as int] != xv);
            lemma_seq_lt_total(before[k as int], xv);
        }
    }
    v.insert(k, x);
    let ghost after = string_views(v@);
    assert(after =~= before.insert(k as int, xv));
    assert forall|i: int, j: int| 0 <= i && j == i + 1 && j < after.len() implies #[trigger] seq_lt(
        after[i],
        after[j],
    ) by {
        if j < k {
            assert(after[i] == before[i] && after[j] == before[j]);
        } else if j == k {
            assert(after[j] == xv && after[i] == before[i]);
        } else if i == k {
            assert(after[i] == xv && after[j] == before[k as int]);
        } else {
            assert(after[i] == before[i - 1] && after[j] == before[j - 1]);
        }
    }
    assert forall|y: Seq<char>| after.contains(y) <==> (before.contains(y) || y == xv) by {
        if after.contains(y) {
            let i = choose|i: int| 0 <= i < after.len() && after[i] == y;
            if i < k {
                assert(before[i] == y);
            } else if i > k {
                assert(before[i - 1] == y);
            }
        }
        if before.contains(y) {
            let i = choose|i: int| 0 <= i < before.len() && before[i] == y;
            if i < k {
                assert(after[i] == y);
            } else {
                assert(after[i + 1] == y);
            }
        }
        if y == xv {
            assert(after[k as int] == y);
        }
    }
}

pub open spec fn is_first_ws(s: Seq<char>, i: int) -> bool {
    &&& 0 <= i < s.len()
    &&& is_ws(s[i])
    &&& forall|j: int| 0 <= j < i ==> !is_ws(s[j])
}

/// Where the first token of `s` ends: at its first whitespace, or at its end.
pub open spec fn token_end(s: Seq<char>) -> int {
    if exists|i: int| is_first_ws(s, i) {
        choose|i: int| is_first_ws(s, i)
    } else {
        s.len() as int
    }
}

/// The first whitespace-separated token of `s` and the text after it
/// (one step of `str::split_whitespace`).
pub open spec fn next_token_seq(s: Seq<char>) -> Option<(Seq<char>, Seq<char>)> {
    let t = trim_start_seq(s);
    if t.len() == 0 {
        None
    } else {
        let k = token_end(t);
        Some((t.subrange(0, k), t.subrange(k, t.len() as int)))
    }
}

/// `str::trim_start`.
pub fn trim_start<'a>(s: &'a str) -> (r: &'a str)
    ensures
        r@ == trim_start_seq(s@),
{
    let n = s.unicode_len();
    let mut a: usize = 0;
    assert(s@.subrange(0, n as int) =~= s@);
    while a < n
        invariant
            n == s@.len(),
            a <= n,
            trim_start_seq(s@) == trim_start_seq(s@.subrange(a as int, n as int)),
        ensures
            a == n || !is_ws(s@[a as int]),
        decreases n - a,
    {
        if !char_is_whitespace(s.get_char(a)) {
            break;
        }
        assert(s@.subrange(a as int, n as int).drop_first() =~= s@.subrange(a + 1, n as int));
        a = a + 1;
    }
    let r = s.substring_char(a, n);
    assert(trim_start_seq(s@) == r@) by {
        if a < n {
            assert(r@[0] == s@[a as int]);
        }
    }
    r
}

pub fn next_token<'a>(s: &'a str) -> (r: Option<(&'a str, &'a str)>)
    ensures
        match r {
            Some((t, rest)) => next_token_seq(s@) == Some((t@, rest@)),
            None => next_token_seq(s@) is None,
        },
{
    let t = trim_start(s);
    let n = t.unicode_len();
    if n == 0 {
        return None;
    }
    let mut k: usize = 0;
    while k < n
        invariant
            n == t@.len(),
            k <= n,
            forall|j: int| 0 <= j < k ==> !is_ws(t@[j]),
        ensures
            k == n || is_ws(t@[k as int]),
        decreases n - k,
    {
        if char_is_whitespace(t.get_char(k)) {
            break;
        }
        k = k + 1;
    }
    proof {
        if k < n {
            assert(is_first_ws(t@, k as int));
            let c = choose|c: int| is_first_ws(t@, c);
            assert(c == k as int);
        } else {
            assert(!exists|c: int| is_first_ws(t@, c));
        }
    }
    Some((t.substring_char(0, k), t.substring_char(k, n)))
}

pub open spec fn trim_start_char(s: Seq<char>, c: char) -> Seq<char>
    decreases s.len(),
{
    if s.len() > 0 && s[0] == c {
        trim_start_char(s.drop_first(), c)
    } else {
        s
    }
}

pub open spec fn trim_end_char(s: Seq<char>, c: char) -> Seq<char>
    decreases s.len(),
{
    if s.len() > 0 && s.last() == c {
        trim_end_char(s.drop_last(), c)
    } else {
        s
    }
}

/// `str::trim_matches` with a character.
pub open spec fn trim_char_seq(s: Seq<char>, c: char) -> Seq<char> {
    trim_end_char(trim_start_char(s, c), c)
}

pub fn trim_matches_char<'a>(s: &'a str, c: char) -> (r: &'a str)
    ensures
        r@ == trim_char_seq(s@, c),
{
    let n = s.unicode_len();
    let mut a: usize = 0;
    assert(s@.subrange(0, n as int) =~= s@);
    while a < n
        invariant
            n == s@.len(),
            a <= n,
            trim_start_char(s@, c) == trim_start_char(s@.subrange(a as int, n as int), c),
        ensures
            a == n || s@[a as int] != c,
        decreases n - a,
    {
        if s.get_char(a) != c {
            break;
        }
        assert(s@.subrange(a as int, n as int).drop_first() =~= s@.subrange(a + 1, n as int));
        a = a + 1;
    }
    let ghost rest = s@.subrange(a as int, n as int);
    assert(trim_start_char(s@, c) == rest) by {
        if a < n {
            assert(rest[0] == s@[a as int]);
        }
    }
    let mut b: usize = n;
    while b > a
        invariant
            n == s@.len(),
            a <= b <= n,
            rest == s@.subrange(a as int, n as int),
            trim_end_char(rest, c) == trim_end_char(s@.subrange(a as int, b as int), c),
        ensures
            b == a || s@[b - 1] != c,
        decreases b - a,
    {
        if s.get_char(b - 1) != c {
            break;
        }
        assert(s@.subrange(a as int, b as int).drop_last() =~= s@.subrange(a as int, b - 1));
        b = b - 1;
    }
    let r = s.substring_char(a, b);
    assert(trim_end_char(s@.subrange(a as int, b as int), c) == r@) by {
        if b > a {
            assert(r@.last() == s@[b - 1]);
        }
    }
    r
}


// ---------------------------------------------------------------------------
// Substrings
// ---------------------------------------------------------------------------

/// Whether `needle` occurs in `hay` (`str::contains` with a string pattern).
pub open spec fn contains_seq(hay: Seq<char>, needle: Seq<char>) -> bool {
    exists|i: int|
        0 <= i && i + needle.len() <= hay.len() && #[trigger] hay.subrange(i, i + needle.len())
            == needle
}

fn matches_at(hay: &str, needle: &str, at: usize) -> (r: bool)
    requires
        at + needle@.len() <= hay@.len(),
    ensures
        r == (hay@.subrange(at as int, at + needle@.len()) == needle@),
{
    let m = needle.unicode_len();
    let n = hay.unicode_len();
    let mut j: usize = 0;
    while j < m
        invariant
            m == needle@.len(),
            n == hay@.len(),
            at + m <= hay@.len(),
            j <= m,
            forall|k: int| 0 <= k < j ==> hay@[at + k] == needle@[k],
        decreases m - j,
    {
        if hay.get_char(at + j) != needle.get_char(j) {
            assert(hay@.subrange(at as int, at + m)[j as int] != needle@[j as int]);
            return false;
        }
        j = j + 1;
    }
    assert(hay@.subrange(at as int, at + m) =~= needle@);
    true
}

/// `str::contains` with a string pattern.
pub fn contains_str(hay: &str, needle: &str) -> (r: bool)
    ensures
        r == contains_seq(hay@, needle@),
{
    let n = hay.unicode_len();
    let m = needle.unicode_len();
    if m > n {
        return false;
    }
    let last = n - m;
    let mut i: usize = 0;
    loop
        invariant
            n == hay@.len(),
            m == needle@.len(),
            m <= n,
            last == n - m,
            i <= last,
            forall|k: int| 0 <= k < i ==> #[trigger] hay@.subrange(k, k + m) != needle@,
        decreases last - i,
    {
        if matches_at(hay, needle, i) {
            return true;
        }
        if i == last {
            return false;
        }
        i = i + 1;
    }
}

/// Whether `needle` occurs in `hay` at `i` and at no earlier place.
pub open spec fn is_first_match(hay: Seq<char>, needle: Seq<char>, i: int) -> bool {
    &&& 0 <= i && i + needle.len() <= hay.len()
    &&& hay.subrange(i, i + needle.len()) == needle
    &&& forall|k: int| 0 <= k < i ==> #[trigger] hay.subrange(k, k + needle.len()) != needle
}

/// The text after the first occurrence of `needle` in `hay` (what follows
/// `str::find`), if it occurs.
pub open spec fn after_first_seq(hay: Seq<char>, needle: Seq<char>) -> Option<Seq<char>> {
    if exists|i: int| is_first_match(hay, needle, i) {
        let i = choose|i: int| is_first_match(hay, needle, i);
        Some(hay.subrange(i + needle.len(), hay.len() as int))
    } else {
        None
    }
}

/// The text after the first occurrence of `needle` in `hay`, if it occurs.
pub fn after_first<'a>(hay: &'a str, needle: &str) -> (r: Option<&'a str>)
    ensures
        match r {
            Some(t) => after_first_seq(hay@, needle@) == Some(t@),
            None => after_first_seq(hay@, needle@) is None,
        },
{
    let n = hay.unicode_len();
    let m = needle.unicode_len();
    if m > n {
        assert forall|i: int| !is_first_match(hay@, needle@, i) by {}
        return None;
    }
    let last = n - m;
    let mut i: usize = 0;
    loop
        invariant
            n == hay@.len(),
            m == needle@.len(),
            m <= n,
            last == n - m,
            i <= last,
            forall|k: int| 0 <= k < i ==> #[trigger] hay@.subrange(k, k + m) != needle@,
        decreases last - i,
    {
        if matches_at(hay, needle, i) {
            assert(is_first_match(hay@, needle@, i as int));
            let ghost c = choose|c: int| is_first_match(hay@, needle@, c);
            assert(c == i as int) by {
                if c < i {
                    assert(hay@.subrange(c, c + m) != needle@);
                } else if c > i {
                    assert(hay@.subrange(i as int, i + m) != needle@);
                }
            }
            return Some(hay.substring_char(i + m, n));
        }
        if i == last {
            assert forall|c: int| !is_first_match(hay@, needle@, c) by {
                if is_first_match(hay@, needle@, c) {
                    assert(hay@.subrange(c, c + m) == needle@);
                }
            }
            return None;
        }
        i = i + 1;
    }
}

} // verus!
