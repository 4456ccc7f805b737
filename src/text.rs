//! Character-level helpers: splitting a line on separators, and reading
//! hexadecimal and decimal numbers the way the standard library's
//! `from_str_radix` does.
use vstd::prelude::*;

verus! {

/// Copies the characters of `s` into a vector.
pub fn chars_of(s: &str) -> (r: Vec<char>)
    ensures
        r@ == s@,
{
    let n = s.unicode_len();
    let mut r: Vec<char> = Vec::new();
    let mut i: usize = 0;
    while i < n
        invariant
            n == s@.len(),
            i <= n,
            r@ == s@.subrange(0, i as int),
        decreases n - i,
    {
        let c = s.get_char(i);
        r.push(c);
        i = i + 1;
        assert(r@ =~= s@.subrange(0, i as int));
    }
    assert(r@ =~= s@);
    r
}

/// Index of the first `c` in `s` at or after `i`, or `s.len()` if there is none.
pub open spec fn find_char(s: Seq<char>, c: char, i: int) -> int
    decreases s.len() - i,
{
    if i >= s.len() {
        s.len() as int
    } else if s[i] == c {
        i
    } else {
        find_char(s, c, i + 1)
    }
}

/// Index of the first `>>` in `s` at or after `i`, or `s.len()` if there is none.
pub open spec fn find_arrow(s: Seq<char>, i: int) -> int
    decreases s.len() - i,
{
    if i + 1 >= s.len() {
        s.len() as int
    } else if s[i] == '>' && s[i + 1] == '>' {
        i
    } else {
        find_arrow(s, i + 1)
    }
}

/// The `k`-th piece of `s` split on `,` (counting from zero), if there are
/// that many pieces. Splitting always yields at least one piece.
pub open spec fn nth_field(s: Seq<char>, k: nat) -> Option<Seq<char>>
    decreases k,
{
    let c = find_char(s, ',', 0);
    if k == 0 {
        Some(s.subrange(0, c))
    } else if c >= s.len() {
        None
    } else {
        nth_field(s.subrange(c + 1, s.len() as int), (k - 1) as nat)
    }
}

pub proof fn lemma_find_arrow_bounds(s: Seq<char>, i: int)
    requires
        0 <= i <= s.len(),
    ensures
        i <= find_arrow(s, i) <= s.len(),
        find_arrow(s, i) < s.len() ==> find_arrow(s, i) + 1 < s.len() && s[find_arrow(s, i)]
            == '>' && s[find_arrow(s, i) + 1] == '>',
        forall|j: int|
            i <= j < find_arrow(s, i) && j + 1 < s.len() ==> !(#[trigger] s[j] == '>' && s[j + 1]
                == '>'),
    decreases s.len() - i,
{
    if i + 1 < s.len() && !(s[i] == '>' && s[i + 1] == '>') {
        lemma_find_arrow_bounds(s, i + 1);
    }
}

/// Position of the first `c` in `v[lo..hi]`, or `hi`.
pub fn find_char_in(v: &Vec<char>, c: char, lo: usize, hi: usize) -> (r: usize)
    requires
        lo <= hi <= v@.len(),
    ensures
        lo <= r <= hi,
        r - lo == find_char(v@.subrange(lo as int, hi as int), c, 0),
{
    let ghost s = v@.subrange(lo as int, hi as int);
    let mut i = lo;
    while i < hi
        invariant
            lo <= i <= hi <= v@.len(),
            s == v@.subrange(lo as int, hi as int),
            find_char(s, c, 0) == find_char(s, c, i - lo),
        decreases hi - i,
    {
        if v[i] == c {
            return i;
        }
        i = i + 1;
    }
    i
}

/// Position of the first `>>` in `v[lo..hi]`, or `hi`.
pub fn find_arrow_in(v: &Vec<char>, lo: usize, hi: usize) -> (r: usize)
    requires
        lo <= hi <= v@.len(),
    ensures
        lo <= r <= hi,
        r - lo == find_arrow(v@.subrange(lo as int, hi as int), 0),
{
    let ghost s = v@.subrange(lo as int, hi as int);
    let mut i = lo;
    while hi - i >= 2
        invariant
            lo <= i <= hi <= v@.len(),
            s == v@.subrange(lo as int, hi as int),
            find_arrow(s, 0) == find_arrow(s, i - lo),
        decreases hi - i,
    {
        if v[i] == '>' && v[i + 1] == '>' {
            return i;
        }
        i = i + 1;
    }
    hi
}

/// Whether `v[lo..hi]` spells out exactly `word`.
pub fn segment_is(v: &Vec<char>, lo: usize, hi: usize, word: &[char]) -> (r: bool)
    requires
        lo <= hi <= v@.len(),
    ensures
        r == (v@.subrange(lo as int, hi as int) == word@),
{
    if hi - lo != word.len() {
        return false;
    }
    let mut i: usize = 0;
    while i < word.len()
        invariant
            lo <= hi <= v@.len(),
            hi - lo == word@.len(),
            i <= word@.len(),
            forall|j: int| 0 <= j < i ==> v@[lo + j] == word@[j],
        decreases word@.len() - i,
    {
        if v[lo + i] != word[i] {
            assert(v@.subrange(lo as int, hi as int)[i as int] != word@[i as int]);
            return false;
        }
        i = i + 1;
    }
    assert(v@.subrange(lo as int, hi as int) =~= word@);
    true
}

/// Value of a hexadecimal digit (either case), or `None`.
pub open spec fn hex_digit(c: char) -> Option<nat> {
    if '0' <= c && c <= '9' {
        Some((c as nat - '0' as nat) as nat)
    } else if 'a' <= c && c <= 'f' {
        Some((c as nat - 'a' as nat + 10) as nat)
    } else if 'A' <= c && c <= 'F' {
        Some((c as nat - 'A' as nat + 10) as nat)
    } else {
        None
    }
}

/// Value of a decimal digit, or `None`.
pub open spec fn dec_digit(c: char) -> Option<nat> {
    if '0' <= c && c <= '9' {
        Some((c as nat - '0' as nat) as nat)
    } else {
        None
    }
}

/// The number that the digits of `s` spell in base `radix`, most significant
/// first (a character that is not a digit counts as zero).
pub open spec fn digits_value(s: Seq<char>, radix: nat) -> nat
    decreases s.len(),
{
    if s.len() == 0 {
        0
    } else {
        let d = if radix == 16 {
            hex_digit(s.last())
        } else {
            dec_digit(s.last())
        };
        let v = match d {
            Some(x) => x,
            None => 0,
        };
        digits_value(s.drop_last(), radix) * radix + v
    }
}

/// Whether every character of `s` is a digit in base `radix` (16 or 10).
pub open spec fn all_digits(s: Seq<char>, radix: nat) -> bool {
    forall|i: int|
        0 <= i < s.len() ==> (if radix == 16 {
            hex_digit(s[i])
        } else {
            dec_digit(s[i])
        }) is Some
}

/// `s` without one leading `+`, the sign that `from_str_radix` accepts.
pub open spec fn unsigned_digits(s: Seq<char>) -> Seq<char> {
    if s.len() > 0 && s[0] == '+' {
        s.drop_first()
    } else {
        s
    }
}

/// What `u64::from_str_radix(s, 16)` succeeds with: an optional `+`, then at
/// least one hexadecimal digit, with a value that fits in 64 bits.
pub open spec fn hex_u64(s: Seq<char>) -> Option<u64> {
    let d = unsigned_digits(s);
    if d.len() > 0 && all_digits(d, 16) && digits_value(d, 16) <= u64::MAX {
        Some(digits_value(d, 16) as u64)
    } else {
        None
    }
}

/// The number spelled by a decimal string in the way `str::parse` reads an
/// unsigned integer: an optional `+`, then at least one decimal digit.
pub open spec fn decimal_nat(s: Seq<char>) -> Option<nat> {
    let d = unsigned_digits(s);
    if d.len() > 0 && all_digits(d, 10) {
        Some(digits_value(d, 10))
    } else {
        None
    }
}

proof fn lemma_digits_value_grows(s: Seq<char>, radix: nat, k: int)
    requires
        0 <= k <= s.len(),
        radix >= 1,
    ensures
        digits_value(s.subrange(0, k), radix) <= digits_value(s, radix),
    decreases s.len(),
{
    if k < s.len() {
        lemma_digits_value_grows(s.drop_last(), radix, k);
        assert(s.drop_last().subrange(0, k) =~= s.subrange(0, k));
        let p = digits_value(s.drop_last(), radix);
        assert(p <= p * radix) by (nonlinear_arith)
            requires
                radix >= 1,
        ;
    } else {
        assert(s.subrange(0, k) =~= s);
    }
}

/// Value of a character as a hexadecimal digit.
fn hex_digit_of(c: char) -> (r: Option<u64>)
    ensures
        r matches Some(x) ==> hex_digit(c) == Some(x as nat),
        r is None ==> hex_digit(c) is None,
{
    if '0' <= c && c <= '9' {
        Some((c as u64) - ('0' as u64))
    } else if 'a' <= c && c <= 'f' {
        Some((c as u64) - ('a' as u64) + 10)
    } else if 'A' <= c && c <= 'F' {
        Some((c as u64) - ('A' as u64) + 10)
    } else {
        None
    }
}

/// Reads `v[lo..hi]` as a hexadecimal `u64`, as `u64::from_str_radix(_, 16)` does.
pub fn parse_hex_u64(v: &Vec<char>, lo: usize, hi: usize) -> (r: Option<u64>)
    requires
        lo <= hi <= v@.len(),
    ensures
        r == hex_u64(v@.subrange(lo as int, hi as int)),
{
    let ghost s = v@.subrange(lo as int, hi as int);
    let mut start = lo;
    if start < hi && v[start] == '+' {
        start = start + 1;
    }
    let ghost d = v@.subrange(start as int, hi as int);
    assert(d =~= unsigned_digits(s));
    if start == hi {
        return None;
    }
    let mut acc: u64 = 0;
    let mut i = start;
    while i < hi
        invariant
            lo <= start <= i <= hi <= v@.len(),
            start < hi,
            d == v@.subrange(start as int, hi as int),
            d == unsigned_digits(s),
            s == v@.subrange(lo as int, hi as int),
            all_digits(v@.subrange(start as int, i as int), 16),
            acc as nat == digits_value(v@.subrange(start as int, i as int), 16),
        decreases hi - i,
    {
        let ghost pre = v@.subrange(start as int, i as int);
        let ghost next = v@.subrange(start as int, i + 1);
        assert(next.drop_last() =~= pre);
        assert(next.last() == v@[i as int]);
        match hex_digit_of(v[i]) {
            None => {
                assert(d[i - start] == v@[i as int]);
                assert(hex_digit(d[i - start]) is None);
                assert(!all_digits(d, 16));
                return None;
            },
            Some(x) => {
                let step = match acc.checked_mul(16) {
                    Some(m) => m.checked_add(x),
                    None => None,
                };
                match step {
                    None => {
                        assert(digits_value(next, 16) == acc * 16 + x);
                        proof {
                            assert(next =~= d.subrange(0, i + 1 - start));
                            lemma_digits_value_grows(d, 16, i + 1 - start);
                        }
                        return None;
                    },
                    Some(n) => {
                        assert forall|j: int| 0 <= j < next.len() implies hex_digit(next[j]) is Some by {
                            if j < pre.len() {
                                assert(next[j] == pre[j]);
                            }
                        }
                        acc = n;
                        i = i + 1;
                    },
                }
            },
        }
    }
    assert(v@.subrange(start as int, i as int) =~= d);
    Some(acc)
}

/// Reads `v[lo..hi]` as an unsigned decimal, giving `min(value, cap)`, or
/// `None` where the text is not a number.
pub fn parse_decimal_capped(v: &Vec<char>, lo: usize, hi: usize, cap: u64) -> (r: Option<u64>)
    requires
        lo <= hi <= v@.len(),
        cap <= 0x1_0000_0000,
    ensures
        match decimal_nat(v@.subrange(lo as int, hi as int)) {
            Some(n) => r == Some(if n < cap {
                n as u64
            } else {
                cap
            }),
            None => r is None,
        },
{
    let ghost s = v@.subrange(lo as int, hi as int);
    let mut start = lo;
    if start < hi && v[start] == '+' {
        start = start + 1;
    }
    let ghost d = v@.subrange(start as int, hi as int);
    assert(d =~= unsigned_digits(s));
    if start == hi {
        return None;
    }
    let mut acc: u64 = 0;
    let mut i = start;
    while i < hi
        invariant
            lo <= start <= i <= hi <= v@.len(),
            start < hi,
            cap <= 0x1_0000_0000,
            d == v@.subrange(start as int, hi as int),
            d == unsigned_digits(s),
            s == v@.subrange(lo as int, hi as int),
            all_digits(v@.subrange(start as int, i as int), 10),
            acc as nat == if digits_value(v@.subrange(start as int, i as int), 10) < cap {
                digits_value(v@.subrange(start as int, i as int), 10)
            } else {
                cap as nat
            },
        decreases hi - i,
    {
        let ghost pre = v@.subrange(start as int, i as int);
        let ghost next = v@.subrange(start as int, i + 1);
        assert(next.drop_last() =~= pre);
        assert(next.last() == v@[i as int]);
        let c = v[i];
        if !('0' <= c && c <= '9') {
            assert(d[i - start] == v@[i as int]);
            assert(dec_digit(d[i - start]) is None);
            assert(!all_digits(d, 10));
            return None;
        }
        let x = (c as u64) - ('0' as u64);
        let ghost p = digits_value(pre, 10);
        assert(digits_value(next, 10) == p * 10 + x);
        if acc < cap {
            let n = acc * 10 + x;
            acc = if n < cap {
                n
            } else {
                cap
            };
        } else {
            assert(p * 10 + x >= cap) by (nonlinear_arith)
                requires
                    p >= cap,
                    x >= 0,
            ;
        }
        assert forall|j: int| 0 <= j < next.len() implies dec_digit(next[j]) is Some by {
            if j < pre.len() {
                assert(next[j] == pre[j]);
            }
        }
        i = i + 1;
    }
    assert(v@.subrange(start as int, i as int) =~= d);
    Some(acc)
}

} // verus!
