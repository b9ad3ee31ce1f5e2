//! Character-level string primitives: equality, prefix tests, and the
//! decimal codec used by the daemon record.

use vstd::prelude::*;

verus! {

/// `p` is a prefix of `s`.
pub open spec fn spec_is_prefix(p: Seq<char>, s: Seq<char>) -> bool {
    p.len() <= s.len() && (forall|i: int| 0 <= i < p.len() ==> p[i] == s[i])
}

/// Compare two string slices by their character sequences.
pub fn str_eq(a: &str, b: &str) -> (r: bool)
    ensures
        r == (a@ == b@),
{
    let a_len = a.unicode_len();
    let b_len = b.unicode_len();
    if a_len != b_len {
        return false;
    }
    let mut i: usize = 0;
    while i < a_len
        invariant
            a_len == a@.len(),
            b_len == b@.len(),
            a_len == b_len,
            i <= a_len,
            forall|j: int| 0 <= j < i ==> a@[j] == b@[j],
        decreases a_len - i,
    {
        if a.get_char(i) != b.get_char(i) {
            return false;
        }
        i += 1;
    }
    proof {
        assert(a@ =~= b@);
    }
    true
}

/// Does `s` start with `p`?
pub fn str_starts_with(s: &str, p: &str) -> (r: bool)
    ensures
        r == spec_is_prefix(p@, s@),
{
    let s_len = s.unicode_len();
    let p_len = p.unicode_len();
    if p_len > s_len {
        return false;
    }
    let mut i: usize = 0;
    while i < p_len
        invariant
            s_len == s@.len(),
            p_len == p@.len(),
            p_len <= s_len,
            i <= p_len,
            forall|j: int| 0 <= j < i ==> p@[j] == s@[j],
        decreases p_len - i,
    {
        if p.get_char(i) != s.get_char(i) {
            return false;
        }
        i += 1;
    }
    true
}

/// `c` is an ASCII decimal digit.
pub open spec fn is_digit(c: char) -> bool {
    48 <= (c as u32) && (c as u32) <= 57
}

/// The numeric value of a decimal digit.
pub open spec fn digit_val(c: char) -> nat {
    ((c as u32) - 48) as nat
}

/// Every character of `s` is a decimal digit.
pub open spec fn all_digits(s: Seq<char>) -> bool {
    forall|i: int| 0 <= i < s.len() ==> is_digit(s[i])
}

/// The number a digit string denotes, most significant digit first.
pub open spec fn digits_val(s: Seq<char>) -> nat
    decreases s.len(),
{
    if s.len() == 0 {
        0
    } else {
        digits_val(s.drop_last()) * 10 + digit_val(s.last())
    }
}

/// Ten to the `k`.
pub open spec fn pow10(k: nat) -> nat
    decreases k,
{
    if k == 0 {
        1
    } else {
        10 * pow10((k - 1) as nat)
    }
}

/// The digit character for a value below ten.
pub open spec fn digit_char(d: nat) -> char {
    if d == 0 {
        '0'
    } else if d == 1 {
        '1'
    } else if d == 2 {
        '2'
    } else if d == 3 {
        '3'
    } else if d == 4 {
        '4'
    } else if d == 5 {
        '5'
    } else if d == 6 {
        '6'
    } else if d == 7 {
        '7'
    } else if d == 8 {
        '8'
    } else {
        '9'
    }
}

/// The canonical decimal rendering of `n`: no sign, no leading zeros
/// (except for zero itself).
pub open spec fn spec_digits(n: nat) -> Seq<char>
    decreases n,
{
    if n < 10 {
        seq![digit_char(n)]
    } else {
        spec_digits(n / 10).push(digit_char(n % 10))
    }
}

/// `c` is one of the whitespace characters the record codec strips.
pub open spec fn spec_is_ws(c: char) -> bool {
    c == ' ' || c == '\n' || c == '\t' || c == '\r'
}

/// `s` without leading whitespace.
pub open spec fn spec_trim_start(s: Seq<char>) -> Seq<char>
    decreases s.len(),
{
    if s.len() > 0 && spec_is_ws(s[0]) {
        spec_trim_start(s.drop_first())
    } else {
        s
    }
}

/// `s` without trailing whitespace.
pub open spec fn spec_trim_end(s: Seq<char>) -> Seq<char>
    decreases s.len(),
{
    if s.len() > 0 && spec_is_ws(s.last()) {
        spec_trim_end(s.drop_last())
    } else {
        s
    }
}

/// `s` without surrounding whitespace.
pub open spec fn spec_trim(s: Seq<char>) -> Seq<char> {
    spec_trim_end(spec_trim_start(s))
}

/// The signed value of a digit string, if it is well-formed and fits a
/// 32-bit integer.
pub open spec fn spec_parse_signed(ds: Seq<char>, neg: bool) -> Option<int> {
    if ds.len() == 0 || !all_digits(ds) {
        None
    } else {
        let v = if neg {
            -(digits_val(ds) as int)
        } else {
            digits_val(ds) as int
        };
        if -2147483648 <= v && v <= 2147483647 {
            Some(v)
        } else {
            None
        }
    }
}

/// The value `s` parses to as a 32-bit integer: surrounding whitespace is
/// ignored, one optional sign is allowed, and the digits must fit the range.
pub open spec fn spec_parse_i32(s: Seq<char>) -> Option<int> {
    let t = spec_trim(s);
    if t.len() == 0 {
        None
    } else if t[0] == '-' {
        spec_parse_signed(t.drop_first(), true)
    } else if t[0] == '+' {
        spec_parse_signed(t.drop_first(), false)
    } else {
        spec_parse_signed(t, false)
    }
}

/// Powers of ten are monotone.
pub proof fn lemma_pow10_mono(a: nat, b: nat)
    requires
        a <= b,
    ensures
        pow10(a) <= pow10(b),
    decreases b,
{
    if a < b {
        lemma_pow10_mono(a, (b - 1) as nat);
        lemma_pow10_pos(a);
    }
}

/// Powers of ten are positive.
pub proof fn lemma_pow10_pos(k: nat)
    ensures
        pow10(k) >= 1,
    decreases k,
{
    if k > 0 {
        lemma_pow10_pos((k - 1) as nat);
    }
}

/// Peeling the most significant digit off a digit string.
pub proof fn lemma_digits_val_front(s: Seq<char>)
    requires
        s.len() > 0,
    ensures
        digits_val(s) == digit_val(s[0]) * pow10((s.len() - 1) as nat) + digits_val(
            s.drop_first(),
        ),
    decreases s.len(),
{
    if s.len() == 1 {
        reveal_with_fuel(digits_val, 2);
        assert(s.drop_last() =~= Seq::<char>::empty());
        assert(s.drop_first() =~= Seq::<char>::empty());
        assert(digits_val(s.drop_last()) == 0);
        assert(digits_val(s.drop_first()) == 0);
        assert(s.last() == s[0]);
        assert(digits_val(s) == digits_val(s.drop_last()) * 10 + digit_val(s.last()));
        assert(pow10((s.len() - 1) as nat) == 1);
    } else {
        lemma_digits_val_front(s.drop_last());
        assert(s.drop_last()[0] == s[0]);
        assert(s.drop_last().drop_first() =~= s.drop_first().drop_last());
        assert(s.drop_first().last() == s.last());
        let d0 = digit_val(s[0]);
        let k = (s.len() - 2) as nat;
        let mid = digits_val(s.drop_last().drop_first());
        assert(pow10((s.len() - 1) as nat) == 10 * pow10(k));
        assert(digits_val(s) == digits_val(s.drop_last()) * 10 + digit_val(s.last()));
        assert(digits_val(s.drop_last()) == d0 * pow10(k) + mid);
        assert(digits_val(s.drop_first()) == mid * 10 + digit_val(s.last()));
        assert(digits_val(s) == d0 * (10 * pow10(k)) + digits_val(s.drop_first()))
            by (nonlinear_arith)
            requires
                digits_val(s) == digits_val(s.drop_last()) * 10 + digit_val(s.last()),
                digits_val(s.drop_last()) == d0 * pow10(k) + mid,
                digits_val(s.drop_first()) == mid * 10 + digit_val(s.last()),
        ;
    }
}

/// Leading zeros do not change the denoted value.
pub proof fn lemma_digits_val_skip_zeros(s: Seq<char>, k: int)
    requires
        0 <= k <= s.len(),
        forall|i: int| 0 <= i < k ==> digit_val(#[trigger] s[i]) == 0,
    ensures
        digits_val(s) == digits_val(s.subrange(k, s.len() as int)),
    decreases k,
{
    if k == 0 {
        assert(s.subrange(0, s.len() as int) =~= s);
    } else {
        lemma_digits_val_front(s);
        assert(digit_val(s[0]) == 0);
        assert(forall|i: int| 0 <= i < k - 1 ==> digit_val(#[trigger] s.drop_first()[i]) == 0);
        lemma_digits_val_skip_zeros(s.drop_first(), k - 1);
        assert(s.drop_first().subrange(k - 1, s.drop_first().len() as int)
            =~= s.subrange(k, s.len() as int));
    }
}

/// A digit string that does not start with zero denotes at least ten to
/// one less than its length.
pub proof fn lemma_digits_val_lower(s: Seq<char>)
    requires
        all_digits(s),
        s.len() > 0,
        digit_val(s[0]) >= 1,
    ensures
        digits_val(s) >= pow10((s.len() - 1) as nat),
{
    lemma_digits_val_front(s);
    assert(is_digit(s[0]));
    let d0 = digit_val(s[0]);
    assert(d0 >= 1);
    assert(d0 * pow10((s.len() - 1) as nat) >= pow10((s.len() - 1) as nat)) by (nonlinear_arith)
        requires d0 >= 1;
}

/// The canonical rendering consists of digits, is never empty, and denotes
/// the number it was built from.
pub proof fn lemma_spec_digits(n: nat)
    ensures
        all_digits(spec_digits(n)),
        spec_digits(n).len() >= 1,
        digits_val(spec_digits(n)) == n,
    decreases n,
{
    reveal_with_fuel(digits_val, 2);
    if n < 10 {
        assert(spec_digits(n) =~= seq![digit_char(n)]);
        assert(spec_digits(n).drop_last() =~= Seq::<char>::empty());
        assert(is_digit(digit_char(n)));
        assert(digit_val(digit_char(n)) == n);
    } else {
        lemma_spec_digits(n / 10);
        vstd::arithmetic::div_mod::lemma_fundamental_div_mod(n as int, 10);
        let p = spec_digits(n / 10);
        let c = digit_char(n % 10);
        assert(spec_digits(n) == p.push(c));
        assert(p.push(c).drop_last() =~= p);
        assert(p.push(c).last() == c);
        assert(is_digit(c));
        assert(digit_val(c) == n % 10);
        assert(forall|i: int| 0 <= i < p.push(c).len() ==> is_digit(#[trigger] p.push(c)[i]));
        assert(digits_val(spec_digits(n)) == digits_val(p) * 10 + digit_val(c));
        assert(digits_val(spec_digits(n)) == (n / 10) * 10 + n % 10);
        assert((n / 10) * 10 + n % 10 == n);
    }
}

/// The powers of ten around the 32-bit range, written out.
pub proof fn lemma_pow10_concrete()
    ensures
        pow10(9) == 1000000000,
        pow10(10) == 10000000000,
{
    reveal_with_fuel(pow10, 11);
}

/// Trimming a string with no surrounding whitespace leaves it unchanged.
pub proof fn lemma_trim_id(s: Seq<char>)
    requires
        forall|i: int| 0 <= i < s.len() ==> !spec_is_ws(s[i]),
    ensures
        spec_trim(s) == s,
{
    assert(spec_trim_start(s) == s);
    assert(spec_trim_end(s) == s);
}

/// Map a digit value to its one-character string.
fn digit_str(d: u64) -> (r: &'static str)
    requires
        d < 10,
    ensures
        r@ == seq![digit_char(d as nat)],
{
    if d == 0 {
        proof { reveal_strlit("0"); assert("0"@ =~= seq!['0']); }
        "0"
    } else if d == 1 {
        proof { reveal_strlit("1"); assert("1"@ =~= seq!['1']); }
        "1"
    } else if d == 2 {
        proof { reveal_strlit("2"); assert("2"@ =~= seq!['2']); }
        "2"
    } else if d == 3 {
        proof { reveal_strlit("3"); assert("3"@ =~= seq!['3']); }
        "3"
    } else if d == 4 {
        proof { reveal_strlit("4"); assert("4"@ =~= seq!['4']); }
        "4"
    } else if d == 5 {
        proof { reveal_strlit("5"); assert("5"@ =~= seq!['5']); }
        "5"
    } else if d == 6 {
        proof { reveal_strlit("6"); assert("6"@ =~= seq!['6']); }
        "6"
    } else if d == 7 {
        proof { reveal_strlit("7"); assert("7"@ =~= seq!['7']); }
        "7"
    } else if d == 8 {
        proof { reveal_strlit("8"); assert("8"@ =~= seq!['8']); }
        "8"
    } else {
        proof { reveal_strlit("9"); assert("9"@ =~= seq!['9']); }
        "9"
    }
}

/// Render `n` in decimal.
pub fn format_u64(n: u64) -> (r: String)
    ensures
        r@ == spec_digits(n as nat),
    decreases n,
{
    if n < 10 {
        digit_str(n).to_owned()
    } else {
        let q = n / 10;
        let rem = n % 10;
        let prefix = format_u64(q);
        let r = prefix.concat(digit_str(rem));
        proof {
            assert(r@ =~= spec_digits((n as nat) / 10).push(digit_char((n as nat) % 10)));
        }
        r
    }
}

/// Test for the whitespace characters the record codec strips.
fn is_ws_char(c: char) -> (r: bool)
    ensures
        r == spec_is_ws(c),
{
    c == ' ' || c == '\n' || c == '\t' || c == '\r'
}

/// The character span of `s` that survives trimming.
#[verifier::loop_isolation(false)]
fn trim_bounds(s: &str) -> (r: (usize, usize))
    ensures
        r.0 <= r.1 <= s@.len(),
        spec_trim(s@) == s@.subrange(r.0 as int, r.1 as int),
{
    let len = s.unicode_len();
    proof {
        assert(s@.subrange(0, len as int) =~= s@);
    }
    let mut start: usize = 0;
    while start < len && is_ws_char(s.get_char(start))
        invariant
            start <= len,
            spec_trim_start(s@) == spec_trim_start(s@.subrange(start as int, len as int)),
        decreases len - start,
    {
        proof {
            assert(s@.subrange(start as int, len as int).drop_first()
                =~= s@.subrange(start as int + 1, len as int));
        }
        start += 1;
    }
    proof {
        assert(spec_trim_start(s@) == s@.subrange(start as int, len as int));
    }
    let mut end: usize = len;
    while end > start && is_ws_char(s.get_char(end - 1))
        invariant
            start <= end <= len,
            spec_trim(s@) == spec_trim_end(s@.subrange(start as int, end as int)),
        decreases end,
    {
        proof {
            assert(s@.subrange(start as int, end as int).drop_last()
                =~= s@.subrange(start as int, end as int - 1));
        }
        end -= 1;
    }
    (start, end)
}

/// Parse `s` as a 32-bit integer, ignoring surrounding whitespace and
/// allowing one leading sign, exactly as `spec_parse_i32` says.
#[verifier::loop_isolation(false)]
#[verifier::rlimit(30)]
pub fn parse_i32(s: &str) -> (r: Option<i32>)
    ensures
        r matches Some(v) ==> spec_parse_i32(s@) == Some(v as int),
        r is None ==> spec_parse_i32(s@) is None,
{
    let (start, end) = trim_bounds(s);
    let ghost t = s@.subrange(start as int, end as int);

    if start == end {
        return None;
    }
    let c0 = s.get_char(start);
    let neg: bool;
    let ds_start: usize;
    if c0 == '-' {
        neg = true;
        ds_start = start + 1;
    } else if c0 == '+' {
        neg = false;
        ds_start = start + 1;
    } else {
        neg = false;
        ds_start = start;
    }
    let ghost ds = s@.subrange(ds_start as int, end as int);
    proof {
        if c0 == '-' || c0 == '+' {
            assert(t.drop_first() =~= ds);
        } else {
            assert(t =~= ds);
        }
    }
    if ds_start == end {
        return None;
    }

    let mut i: usize = ds_start;
    while i < end
        invariant
            ds_start <= i <= end,
            forall|j: int| ds_start <= j < i ==> is_digit(s@[j]),
        decreases end - i,
    {
        let u = s.get_char(i) as u32;
        if u < 48 || u > 57 {
            proof {
                assert(ds[i - ds_start] == s@[i as int]);
                assert(!is_digit(ds[i - ds_start]));
            }
            return None;
        }
        i += 1;
    }
    proof {
        assert(forall|j: int| 0 <= j < ds.len() ==> is_digit(#[trigger] ds[j]));
    }

    let mut z: usize = ds_start;
    while z < end && s.get_char(z) as u32 == 48
        invariant
            ds_start <= z <= end,
            forall|j: int| ds_start <= j < z ==> digit_val(#[trigger] s@[j]) == 0,
        decreases end - z,
    {
        z += 1;
    }
    proof {
        assert(forall|j: int| 0 <= j < z - ds_start ==> digit_val(#[trigger] ds[j]) == 0);
        lemma_digits_val_skip_zeros(ds, z - ds_start);
        assert(ds.subrange(z - ds_start, ds.len() as int)
            =~= s@.subrange(z as int, end as int));
    }
    if z == end {
        proof {
            assert(s@.subrange(z as int, end as int) =~= Seq::<char>::empty());
            assert(digits_val(ds) == 0);
        }
        return Some(0i32);
    }
    let ghost nz = s@.subrange(z as int, end as int);
    proof {
        assert(forall|j: int| 0 <= j < nz.len() ==> is_digit(#[trigger] nz[j]));
        assert(nz[0] == s@[z as int]);
        assert(digit_val(nz[0]) >= 1);
    }
    if end - z > 10 {
        proof {
            lemma_digits_val_lower(nz);
            lemma_pow10_mono(10, (nz.len() - 1) as nat);
            lemma_pow10_concrete();
            assert(digits_val(ds) >= 10000000000);
        }
        return None;
    }

    let mut acc: u64 = 0;
    let mut i2: usize = z;
    proof {
        assert(s@.subrange(z as int, z as int) =~= Seq::<char>::empty());
    }
    while i2 < end
        invariant
            z <= i2 <= end,
            end - z <= 10,
            acc == digits_val(s@.subrange(z as int, i2 as int)),
            acc < pow10((i2 - z) as nat),
        decreases end - i2,
    {
        let u = s.get_char(i2) as u32;
        proof {
            assert(is_digit(s@[i2 as int]));
        }
        let d = (u - 48) as u64;
        proof {
            lemma_pow10_concrete();
            lemma_pow10_mono((i2 - z) as nat, 9);
            lemma_pow10_mono((i2 + 1 - z) as nat, 10);
            assert(s@.subrange(z as int, i2 as int + 1).drop_last()
                =~= s@.subrange(z as int, i2 as int));
            assert(s@.subrange(z as int, i2 as int + 1).last() == s@[i2 as int]);
        }
        acc = acc * 10 + d;
        i2 += 1;
    }
    proof {
        assert(s@.subrange(z as int, end as int) == nz);
        assert(acc == digits_val(nz));
        assert(digits_val(ds) == digits_val(nz));
    }

    if neg {
        if acc > 2147483648 {
            return None;
        }
        let v = (0i64 - (acc as i64)) as i32;
        Some(v)
    } else {
        if acc > 2147483647 {
            return None;
        }
        Some(acc as i32)
    }
}

/// Element-wise copy of a list of names.
pub fn clone_names(v: &Vec<String>) -> (r: Vec<String>)
    ensures
        r@ == v@,
{
    let mut r: Vec<String> = Vec::new();
    let mut i: usize = 0;
    while i < v.len()
        invariant
            i <= v@.len(),
            r@ == v@.subrange(0, i as int),
        decreases v@.len() - i,
    {
        r.push(v[i].clone());
        proof {
            assert(r@ =~= v@.subrange(0, i as int + 1));
        }
        i += 1;
    }
    proof {
        assert(r@ =~= v@);
    }
    r
}

} // verus!
