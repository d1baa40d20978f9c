//! Character-level text handling shared by the sysfs parsers: digit classes,
//! unsigned integer parsing with the grammar of `str::parse` and
//! `from_str_radix`, decimal rendering and string assembly.
use vstd::prelude::*;

verus! {

/// The value of `c` as a digit of `radix` (10 or 16), if it is one.
pub open spec fn char_digit(c: char, radix: nat) -> Option<nat> {
    let u = c as u32;
    if 48 <= u <= 57 && (u - 48) < radix {
        Some((u - 48) as nat)
    } else if radix == 16 && 97 <= u <= 102 {
        Some((u - 87) as nat)
    } else if radix == 16 && 65 <= u <= 70 {
        Some((u - 55) as nat)
    } else {
        None
    }
}

/// Every character of `s` is a digit of `radix`.
pub open spec fn all_digits(s: Seq<char>, radix: nat) -> bool {
    forall|i: int| 0 <= i < s.len() ==> (#[trigger] char_digit(s[i], radix)) is Some
}

/// Positional value of a digit string, most significant digit first.
pub open spec fn digits_value(s: Seq<char>, radix: nat) -> nat
    decreases s.len(),
{
    if s.len() == 0 {
        0
    } else {
        digits_value(s.drop_last(), radix) * radix + match char_digit(s.last(), radix) {
            Some(d) => d,
            None => 0,
        }
    }
}

/// The digits that follow an optional leading `+`.
pub open spec fn unsigned_body(s: Seq<char>) -> Seq<char> {
    if s.len() > 0 && s[0] == '+' {
        s.drop_first()
    } else {
        s
    }
}

/// What `str::parse` (radix 10) or `from_str_radix` (radix 16) returns for an
/// unsigned integer type whose largest value is `max`: an optional `+`, then
/// at least one digit, and a value that fits.
pub open spec fn parse_unsigned(s: Seq<char>, radix: nat, max: nat) -> Option<nat> {
    let body = unsigned_body(s);
    if body.len() > 0 && all_digits(body, radix) && digits_value(body, radix) <= max {
        Some(digits_value(body, radix))
    } else {
        None
    }
}

/// The character that renders digit `d` (lower-case for hexadecimal).
pub open spec fn digit_char(d: nat) -> char {
    if d == 0 { '0' }
    else if d == 1 { '1' }
    else if d == 2 { '2' }
    else if d == 3 { '3' }
    else if d == 4 { '4' }
    else if d == 5 { '5' }
    else if d == 6 { '6' }
    else if d == 7 { '7' }
    else if d == 8 { '8' }
    else if d == 9 { '9' }
    else if d == 10 { 'a' }
    else if d == 11 { 'b' }
    else if d == 12 { 'c' }
    else if d == 13 { 'd' }
    else if d == 14 { 'e' }
    else { 'f' }
}

/// Decimal rendering of `n` without leading zeros, as `to_string` gives it.
pub open spec fn dec_digits(n: nat) -> Seq<char>
    decreases n,
{
    if n < 10 {
        seq![digit_char(n)]
    } else {
        dec_digits(n / 10).push(digit_char(n % 10))
    }
}

/// `s` left-padded with `'0'` up to `width` characters (`{:0width$}`).
pub open spec fn zero_pad(s: Seq<char>, width: nat) -> Seq<char> {
    if s.len() < width {
        Seq::new((width - s.len()) as nat, |i: int| '0') + s
    } else {
        s
    }
}

/// Unicode `White_Space`, the class that `char::is_whitespace` tests.
pub open spec fn is_space(c: char) -> bool {
    let u = c as u32;
    (9 <= u <= 13) || u == 32 || u == 0x85 || u == 0xA0 || u == 0x1680 || (0x2000 <= u <= 0x200A)
        || u == 0x2028 || u == 0x2029 || u == 0x202F || u == 0x205F || u == 0x3000
}

pub proof fn lemma_digit_char_roundtrip(d: nat)
    requires
        d < 16,
    ensures
        char_digit(digit_char(d), 16) == Some(d),
        d < 10 ==> char_digit(digit_char(d), 10) == Some(d),
{
}

/// Appending digits never lowers the value of a digit string.
pub proof fn lemma_digits_value_prefix(s: Seq<char>, radix: nat, k: int)
    requires
        radix >= 1,
        0 <= k <= s.len(),
    ensures
        digits_value(s.take(k), radix) <= digits_value(s, radix),
    decreases s.len(),
{
    if k < s.len() {
        let t = s.drop_last();
        assert(t.take(k) =~= s.take(k));
        lemma_digits_value_prefix(t, radix, k);
        let v = digits_value(t, radix);
        assert(v * radix >= v) by (nonlinear_arith)
            requires
                radix >= 1,
        ;
    } else {
        assert(s.take(k) =~= s);
    }
}

/// Decimal rendering is read back by decimal parsing.
pub proof fn lemma_dec_digits_value(n: nat)
    ensures
        all_digits(dec_digits(n), 10),
        digits_value(dec_digits(n), 10) == n,
        dec_digits(n).len() > 0,
        dec_digits(n)[0] != '+',
    decreases n,
{
    if n < 10 {
        lemma_digit_char_roundtrip(n);
        let s = dec_digits(n);
        assert(s.drop_last() =~= Seq::<char>::empty());
        assert(s.last() == digit_char(n));
        assert(digits_value(s.drop_last(), 10) == 0);
    } else {
        lemma_dec_digits_value(n / 10);
        lemma_digit_char_roundtrip(n % 10);
        let p = dec_digits(n / 10);
        let s = dec_digits(n);
        assert(s.drop_last() =~= p);
        assert(s.last() == digit_char(n % 10));
        assert((n / 10) * 10 + n % 10 == n);
        assert(digits_value(s, 10) == digits_value(p, 10) * 10 + n % 10);
        assert forall|i: int| 0 <= i < s.len() implies (#[trigger] char_digit(s[i], 10)) is Some by {
            if i < p.len() {
                assert(s[i] == p[i]);
            }
        }
        assert(s[0] == p[0]);
    }
}

/// Decimal rendering is the canonical form that parsing accepts.
pub proof fn lemma_parse_dec_digits(n: nat, max: nat)
    requires
        n <= max,
    ensures
        parse_unsigned(dec_digits(n), 10, max) == Some(n),
{
    lemma_dec_digits_value(n);
}

/// Every character of a decimal rendering is an ASCII digit.
pub proof fn lemma_dec_digits_are_digits(n: nat, i: int)
    requires
        0 <= i < dec_digits(n).len(),
    ensures
        char_digit(dec_digits(n)[i], 10) is Some,
        48 <= dec_digits(n)[i] as u32 <= 57,
{
    lemma_dec_digits_value(n);
    assert(char_digit(dec_digits(n)[i], 10) is Some);
}

/// The characters of a string slice, in order.
pub fn chars_of(s: &str) -> (v: Vec<char>)
    ensures
        v@ == s@,
{
    let n = s.unicode_len();
    let mut v: Vec<char> = Vec::new();
    let mut i: usize = 0;
    while i < n
        invariant
            n == s@.len(),
            i <= n,
            v@ == s@.take(i as int),
        decreases n - i,
    {
        let c = s.get_char(i);
        v.push(c);
        i = i + 1;
        assert(v@ =~= s@.take(i as int));
    }
    assert(s@.take(n as int) =~= s@);
    v
}

/// Appends one character to a string (`String::push`).
#[verifier::external_body]
pub(crate) fn push_char(s: &mut String, c: char)
    ensures
        final(s)@ == old(s)@.push(c),
{
    s.push(c);
}

/// A string holding exactly the characters of `v`.
pub fn string_from_chars(v: &[char]) -> (s: String)
    ensures
        s@ == v@,
{
    let mut s = String::new();
    let mut i: usize = 0;
    while i < v.len()
        invariant
            i <= v.len(),
            s@ == v@.take(i as int),
        decreases v.len() - i,
    {
        push_char(&mut s, v[i]);
        i = i + 1;
        assert(s@ =~= v@.take(i as int));
    }
    assert(v@.take(v@.len() as int) =~= v@);
    s
}

/// The value of `c` as a digit of `radix`, computed.
pub fn char_digit_exec(c: char, radix: u64) -> (r: Option<u64>)
    requires
        radix == 10 || radix == 16,
    ensures
        match r {
            Some(d) => char_digit(c, radix as nat) == Some(d as nat),
            None => char_digit(c, radix as nat) is None,
        },
{
    let u = c as u32;
    if 48 <= u && u <= 57 && ((u - 48) as u64) < radix {
        Some((u - 48) as u64)
    } else if radix == 16 && 97 <= u && u <= 102 {
        Some((u - 87) as u64)
    } else if radix == 16 && 65 <= u && u <= 70 {
        Some((u - 55) as u64)
    } else {
        None
    }
}

/// Parses `v[start..end]` as an unsigned integer of `radix` no larger than
/// `max`, with the grammar of the standard library's integer parsing.
pub fn parse_unsigned_range(v: &[char], start: usize, end: usize, radix: u64, max: u64) -> (r:
    Option<u64>)
    requires
        start <= end <= v@.len(),
        radix == 10 || radix == 16,
    ensures
        match r {
            Some(x) => parse_unsigned(v@.subrange(start as int, end as int), radix as nat, max as nat)
                == Some(x as nat),
            None => parse_unsigned(v@.subrange(start as int, end as int), radix as nat, max as nat)
                is None,
        },
{
    let ghost s = v@.subrange(start as int, end as int);
    let mut i = start;
    if i < end && v[i] == '+' {
        i = i + 1;
    }
    let ghost body = unsigned_body(s);
    assert(body =~= v@.subrange(i as int, end as int));
    if i == end {
        return None;
    }
    let first = i;
    let mut acc: u128 = 0;
    while i < end
        invariant
            start <= first <= i <= end <= v@.len(),
            radix == 10 || radix == 16,
            body =~= v@.subrange(first as int, end as int),
            body == unsigned_body(v@.subrange(start as int, end as int)),
            all_digits(body.take(i - first), radix as nat),
            acc as nat == digits_value(body.take(i - first), radix as nat),
            acc <= max,
        decreases end - i,
    {
        let d = char_digit_exec(v[i], radix);
        match d {
            None => {
                assert(body[i - first] == v@[i as int]);
                assert(!all_digits(body, radix as nat));
                return None;
            },
            Some(d) => {
                let ghost pre = body.take(i - first);
                let ghost post = body.take(i - first + 1);
                assert(post.drop_last() =~= pre);
                assert(post.last() == v@[i as int]);
                assert(acc * (radix as u128) + (d as u128) <= 0xffff_ffff_ffff_ffff * 16 + 15)
                    by (nonlinear_arith)
                    requires
                        acc <= 0xffff_ffff_ffff_ffffu128,
                        radix <= 16,
                        d < 16,
                ;
                acc = acc * (radix as u128) + (d as u128);
                assert(all_digits(post, radix as nat)) by {
                    assert forall|j: int| 0 <= j < post.len() implies (#[trigger] char_digit(
                        post[j],
                        radix as nat,
                    )) is Some by {
                        if j < pre.len() {
                            assert(post[j] == pre[j]);
                        }
                    }
                }
                i = i + 1;
                if acc > max as u128 {
                    proof {
                        let k = (i - first) as int;
                        lemma_digits_value_prefix(body, radix as nat, k);
                    }
                    return None;
                }
            },
        }
    }
    assert(body.take(end - first) =~= body);
    Some(acc as u64)
}


/// Index of the first occurrence of `c` in `s`.
pub open spec fn first_index(s: Seq<char>, c: char) -> Option<nat>
    decreases s.len(),
{
    if s.len() == 0 {
        None
    } else if s[0] == c {
        Some(0)
    } else {
        match first_index(s.drop_first(), c) {
            Some(i) => Some(i + 1),
            None => None,
        }
    }
}

/// `str::split_once` on a character: the text before and after the first
/// occurrence of `c`.
pub open spec fn split_once(s: Seq<char>, c: char) -> Option<(Seq<char>, Seq<char>)> {
    match first_index(s, c) {
        Some(i) => Some((s.take(i as int), s.skip(i as int + 1))),
        None => None,
    }
}

/// `str::strip_prefix`.
pub open spec fn strip_prefix(s: Seq<char>, p: Seq<char>) -> Option<Seq<char>> {
    if p.len() <= s.len() && s.take(p.len() as int) == p {
        Some(s.skip(p.len() as int))
    } else {
        None
    }
}

/// `str::split` on a character: the pieces between occurrences of `c`.
pub open spec fn split_by(s: Seq<char>, c: char) -> Seq<Seq<char>>
    decreases s.len(),
{
    if s.len() == 0 {
        seq![Seq::<char>::empty()]
    } else {
        let rest = split_by(s.drop_last(), c);
        if s.last() == c {
            rest.push(Seq::<char>::empty())
        } else {
            rest.update(rest.len() - 1, rest.last().push(s.last()))
        }
    }
}

/// Pieces joined with the separator `c` between them (`join`).
pub open spec fn join_with(parts: Seq<Seq<char>>, c: char) -> Seq<char>
    decreases parts.len(),
{
    if parts.len() == 0 {
        Seq::<char>::empty()
    } else if parts.len() == 1 {
        parts[0]
    } else {
        join_with(parts.drop_last(), c).push(c) + parts.last()
    }
}

/// `str::split_whitespace`: the maximal runs of non-whitespace characters.
pub open spec fn ws_tokens(s: Seq<char>) -> Seq<Seq<char>>
    decreases s.len(),
{
    if s.len() == 0 {
        Seq::<Seq<char>>::empty()
    } else {
        let rest = ws_tokens(s.drop_last());
        let c = s.last();
        if is_space(c) {
            rest
        } else if s.len() >= 2 && !is_space(s[s.len() - 2]) && rest.len() > 0 {
            rest.update(rest.len() - 1, rest.last().push(c))
        } else {
            rest.push(seq![c])
        }
    }
}

/// Leading whitespace removed (`trim_start`).
pub open spec fn trim_start(s: Seq<char>) -> Seq<char>
    decreases s.len(),
{
    if s.len() > 0 && is_space(s[0]) {
        trim_start(s.drop_first())
    } else {
        s
    }
}

/// Trailing whitespace removed (`trim_end`).
pub open spec fn trim_end(s: Seq<char>) -> Seq<char>
    decreases s.len(),
{
    if s.len() > 0 && is_space(s.last()) {
        trim_end(s.drop_last())
    } else {
        s
    }
}

/// `str::trim`.
pub open spec fn trim(s: Seq<char>) -> Seq<char> {
    trim_end(trim_start(s))
}

pub proof fn lemma_first_index_found(s: Seq<char>, c: char, i: int)
    requires
        0 <= i < s.len(),
        s[i] == c,
        forall|j: int| 0 <= j < i ==> s[j] != c,
    ensures
        first_index(s, c) == Some(i as nat),
    decreases i,
{
    if i > 0 {
        lemma_first_index_found(s.drop_first(), c, i - 1);
    }
}

pub proof fn lemma_first_index_absent(s: Seq<char>, c: char)
    requires
        forall|j: int| 0 <= j < s.len() ==> s[j] != c,
    ensures
        first_index(s, c) is None,
    decreases s.len(),
{
    if s.len() > 0 {
        lemma_first_index_absent(s.drop_first(), c);
    }
}

pub proof fn lemma_split_by_nonempty(s: Seq<char>, c: char)
    ensures
        split_by(s, c).len() > 0,
    decreases s.len(),
{
    if s.len() > 0 {
        lemma_split_by_nonempty(s.drop_last(), c);
    }
}

/// Index of the first `c` in `v[start..end]`, or `end` when there is none.
pub fn find_char(v: &[char], start: usize, end: usize, c: char) -> (r: usize)
    requires
        start <= end <= v@.len(),
    ensures
        start <= r <= end,
        r < end ==> first_index(v@.subrange(start as int, end as int), c) == Some((r - start) as nat),
        r == end ==> first_index(v@.subrange(start as int, end as int), c) is None,
{
    let ghost s = v@.subrange(start as int, end as int);
    let mut i = start;
    while i < end
        invariant
            start <= i <= end <= v@.len(),
            s == v@.subrange(start as int, end as int),
            forall|j: int| 0 <= j < i - start ==> s[j] != c,
        decreases end - i,
    {
        if v[i] == c {
            proof {
                lemma_first_index_found(s, c, i - start);
            }
            return i;
        }
        i = i + 1;
    }
    proof {
        lemma_first_index_absent(s, c);
    }
    end
}

/// The digit character for `d`, computed.
pub fn digit_char_exec(d: u64) -> (c: char)
    requires
        d < 16,
    ensures
        c == digit_char(d as nat),
{
    if d == 0 { '0' }
    else if d == 1 { '1' }
    else if d == 2 { '2' }
    else if d == 3 { '3' }
    else if d == 4 { '4' }
    else if d == 5 { '5' }
    else if d == 6 { '6' }
    else if d == 7 { '7' }
    else if d == 8 { '8' }
    else if d == 9 { '9' }
    else if d == 10 { 'a' }
    else if d == 11 { 'b' }
    else if d == 12 { 'c' }
    else if d == 13 { 'd' }
    else if d == 14 { 'e' }
    else { 'f' }
}

/// Appends the decimal rendering of `n`.
pub fn push_dec(out: &mut Vec<char>, n: u64)
    ensures
        final(out)@ == old(out)@ + dec_digits(n as nat),
    decreases n,
{
    if n >= 10 {
        push_dec(out, n / 10);
    }
    out.push(digit_char_exec(n % 10));
    proof {
        if n >= 10 {
            assert(dec_digits(n as nat) == dec_digits((n / 10) as nat).push(digit_char((n % 10) as nat)));
        } else {
            assert(dec_digits(n as nat) == seq![digit_char(n as nat)]);
        }
    }
    assert(final(out)@ =~= old(out)@ + dec_digits(n as nat));
}

/// Appends the decimal rendering of `n`, left-padded with zeros to `width`.
pub fn push_dec_padded(out: &mut Vec<char>, n: u64, width: usize)
    ensures
        final(out)@ == old(out)@ + zero_pad(dec_digits(n as nat), width as nat),
{
    let mut digits: Vec<char> = Vec::new();
    push_dec(&mut digits, n);
    assert(digits@ =~= dec_digits(n as nat));
    let start_len = out.len();
    let ghost base = out@;
    if digits.len() < width {
        let pad = width - digits.len();
        let mut k: usize = 0;
        while k < pad
            invariant
                k <= pad,
                out@ == base + Seq::new(k as nat, |i: int| '0'),
            decreases pad - k,
        {
            out.push('0');
            k = k + 1;
            assert(out@ =~= base + Seq::new(k as nat, |i: int| '0'));
        }
    }
    let ghost mid = out@;
    let mut j: usize = 0;
    while j < digits.len()
        invariant
            j <= digits.len(),
            out@ == mid + digits@.take(j as int),
        decreases digits.len() - j,
    {
        out.push(digits[j]);
        j = j + 1;
        assert(out@ =~= mid + digits@.take(j as int));
    }
    assert(digits@.take(digits@.len() as int) =~= digits@);
    assert(out@ =~= base + zero_pad(dec_digits(n as nat), width as nat));
}

/// Appends the characters of `s`.
pub fn push_str_chars(out: &mut Vec<char>, s: &str)
    ensures
        final(out)@ == old(out)@ + s@,
{
    let cs = chars_of(s);
    let ghost base = out@;
    let mut j: usize = 0;
    while j < cs.len()
        invariant
            j <= cs.len(),
            cs@ == s@,
            out@ == base + cs@.take(j as int),
        decreases cs.len() - j,
    {
        out.push(cs[j]);
        j = j + 1;
        assert(out@ =~= base + cs@.take(j as int));
    }
    assert(cs@.take(cs@.len() as int) =~= cs@);
}


/// The pieces of `v` named by a list of index ranges.
pub open spec fn ranges_view(v: Seq<char>, r: Seq<(usize, usize)>) -> Seq<Seq<char>> {
    Seq::new(r.len(), |i: int| v.subrange(r[i].0 as int, r[i].1 as int))
}

/// Whether `c` is whitespace, computed.
pub fn is_space_exec(c: char) -> (b: bool)
    ensures
        b == is_space(c),
{
    let u = c as u32;
    (9 <= u && u <= 13) || u == 32 || u == 0x85 || u == 0xA0 || u == 0x1680 || (0x2000 <= u && u
        <= 0x200A) || u == 0x2028 || u == 0x2029 || u == 0x202F || u == 0x205F || u == 0x3000
}

/// The index ranges of the pieces of `v[start..end]` between occurrences of `c`.
pub fn split_ranges(v: &[char], start: usize, end: usize, c: char) -> (r: Vec<(usize, usize)>)
    requires
        start <= end <= v@.len(),
    ensures
        ranges_view(v@, r@) == split_by(v@.subrange(start as int, end as int), c),
        forall|i: int| 0 <= i < r@.len() ==> start <= (#[trigger] r@[i]).0 <= r@[i].1 <= end,
{
    let mut bounds: Vec<(usize, usize)> = Vec::new();
    let mut cur = start;
    let mut i = start;
    assert(v@.subrange(start as int, start as int) =~= Seq::<char>::empty());
    assert(ranges_view(v@, bounds@.push((cur, i))) =~= seq![Seq::<char>::empty()]);
    while i < end
        invariant
            start <= cur <= i <= end <= v@.len(),
            split_by(v@.subrange(start as int, i as int), c) == ranges_view(
                v@,
                bounds@.push((cur, i)),
            ),
            forall|k: int| 0 <= k < bounds@.len() ==> start <= (#[trigger] bounds@[k]).0 <= bounds@[k].1 <= i,
        decreases end - i,
    {
        let ghost old_bounds = bounds@;
        let ghost prev = v@.subrange(start as int, i as int);
        let ghost next = v@.subrange(start as int, i as int + 1);
        assert(next.drop_last() =~= prev);
        assert(next.last() == v@[i as int]);
        let ghost rest = split_by(prev, c);
        if v[i] == c {
            let ghost old_pair = (cur, i);
            bounds.push((cur, i));
            cur = i + 1;
            i = i + 1;
            assert(bounds@ == old_bounds.push(old_pair));
            assert(ranges_view(v@, bounds@) =~= rest);
            assert(v@.subrange(cur as int, i as int) =~= Seq::<char>::empty());
            assert(ranges_view(v@, bounds@.push((cur, i))) =~= ranges_view(v@, bounds@).push(
                Seq::<char>::empty(),
            ));
        } else {
            i = i + 1;
            assert(v@.subrange(cur as int, i as int) =~= v@.subrange(cur as int, i as int - 1).push(
                v@[i as int - 1],
            ));
            assert(ranges_view(v@, bounds@.push((cur, i))) =~= rest.update(
                rest.len() - 1,
                rest.last().push(v@[i as int - 1]),
            ));
        }
    }
    bounds.push((cur, end));
    bounds
}

/// Index of the first non-whitespace character of `v`, or its length.
fn first_non_space(v: &[char]) -> (a: usize)
    ensures
        a <= v@.len(),
        forall|j: int| 0 <= j < a ==> is_space(#[trigger] v@[j]),
        a < v@.len() ==> !is_space(v@[a as int]),
{
    let mut a: usize = 0;
    while a < v.len() && is_space_exec(v[a])
        invariant
            a <= v@.len(),
            forall|j: int| 0 <= j < a ==> is_space(#[trigger] v@[j]),
        decreases v.len() - a,
    {
        a = a + 1;
    }
    a
}

/// One past the last non-whitespace character of `v[a..]`, or `a`.
fn last_non_space_end(v: &[char], a: usize) -> (b: usize)
    requires
        a <= v@.len(),
    ensures
        a <= b <= v@.len(),
        forall|j: int| b <= j < v@.len() ==> is_space(#[trigger] v@[j]),
        b > a ==> !is_space(v@[b as int - 1]),
{
    let mut b: usize = v.len();
    while b > a && is_space_exec(v[b - 1])
        invariant
            a <= b <= v@.len(),
            forall|j: int| b <= j < v@.len() ==> is_space(#[trigger] v@[j]),
        decreases b - a,
    {
        b = b - 1;
    }
    b
}

proof fn lemma_trim_start(s: Seq<char>, a: int)
    requires
        0 <= a <= s.len(),
        forall|j: int| 0 <= j < a ==> is_space(#[trigger] s[j]),
        a < s.len() ==> !is_space(s[a]),
    ensures
        trim_start(s) == s.skip(a),
    decreases a,
{
    if a > 0 {
        let t = s.drop_first();
        assert forall|j: int| 0 <= j < a - 1 implies is_space(#[trigger] t[j]) by {
            assert(t[j] == s[j + 1]);
        }
        if a - 1 < t.len() {
            assert(t[a - 1] == s[a]);
        }
        lemma_trim_start(t, a - 1);
        assert(t.skip(a - 1) =~= s.skip(a));
        assert(is_space(s[0]));
    } else {
        assert(s.skip(0) =~= s);
    }
}

proof fn lemma_trim_end(s: Seq<char>, b: int)
    requires
        0 <= b <= s.len(),
        forall|j: int| b <= j < s.len() ==> is_space(#[trigger] s[j]),
        b > 0 ==> !is_space(s[b - 1]),
    ensures
        trim_end(s) == s.take(b),
    decreases s.len() - b,
{
    if b < s.len() {
        let t = s.drop_last();
        assert(is_space(s[s.len() - 1]));
        assert forall|j: int| b <= j < t.len() implies is_space(#[trigger] t[j]) by {
            assert(t[j] == s[j]);
        }
        if b > 0 {
            assert(t[b - 1] == s[b - 1]);
        }
        lemma_trim_end(t, b);
        assert(t.take(b) =~= s.take(b));
    } else {
        assert(s.take(b) =~= s);
    }
}

/// The range `v[a..b]` that `str::trim` keeps.
pub fn trim_range(v: &[char]) -> (r: (usize, usize))
    ensures
        r.0 <= r.1 <= v@.len(),
        v@.subrange(r.0 as int, r.1 as int) == trim(v@),
{
    let a = first_non_space(v);
    let b = last_non_space_end(v, a);
    proof {
        lemma_trim_start(v@, a as int);
        let t = v@.skip(a as int);
        assert forall|j: int| (b - a) <= j < t.len() implies is_space(#[trigger] t[j]) by {
            assert(t[j] == v@[j + a]);
        }
        if b > a {
            assert(t[b - a - 1] == v@[b as int - 1]);
        }
        lemma_trim_end(t, b - a);
        assert(t.take(b - a) =~= v@.subrange(a as int, b as int));
    }
    (a, b)
}


pub proof fn lemma_first_index_some(s: Seq<char>, c: char)
    ensures
        first_index(s, c) matches Some(i) ==> i < s.len() && s[i as int] == c && forall|j: int|
            0 <= j < i ==> s[j] != c,
    decreases s.len(),
{
    if s.len() > 0 && s[0] != c {
        lemma_first_index_some(s.drop_first(), c);
        if let Some(i) = first_index(s, c) {
            assert forall|j: int| 0 <= j < i implies s[j] != c by {
                if j > 0 {
                    assert(s[j] == s.drop_first()[j - 1]);
                }
            }
        }
    }
}

pub proof fn lemma_first_index_none(s: Seq<char>, c: char, k: int)
    requires
        0 <= k < s.len(),
        s[k] == c,
    ensures
        first_index(s, c) is Some,
    decreases k,
{
    if k > 0 && s[0] != c {
        lemma_first_index_none(s.drop_first(), c, k - 1);
    }
}


/// Lower-case hexadecimal rendering of `n` without leading zeros.
pub open spec fn hex_digits(n: nat) -> Seq<char>
    decreases n,
{
    if n < 16 {
        seq![digit_char(n)]
    } else {
        hex_digits(n / 16).push(digit_char(n % 16))
    }
}

/// Appends the lower-case hexadecimal rendering of `n`.
pub fn push_hex(out: &mut Vec<char>, n: u64)
    ensures
        final(out)@ == old(out)@ + hex_digits(n as nat),
    decreases n,
{
    if n >= 16 {
        push_hex(out, n / 16);
    }
    out.push(digit_char_exec(n % 16));
    proof {
        if n >= 16 {
            assert(hex_digits(n as nat) == hex_digits((n / 16) as nat).push(digit_char((n % 16) as nat)));
        } else {
            assert(hex_digits(n as nat) == seq![digit_char(n as nat)]);
        }
    }
    assert(final(out)@ =~= old(out)@ + hex_digits(n as nat));
}

/// Appends the lower-case hexadecimal rendering of `n`, left-padded with
/// zeros to `width` (`{:0width$x}`).
pub fn push_hex_padded(out: &mut Vec<char>, n: u64, width: usize)
    ensures
        final(out)@ == old(out)@ + zero_pad(hex_digits(n as nat), width as nat),
{
    let mut digits: Vec<char> = Vec::new();
    push_hex(&mut digits, n);
    assert(digits@ =~= hex_digits(n as nat));
    let ghost base = out@;
    if digits.len() < width {
        let pad = width - digits.len();
        let mut k: usize = 0;
        while k < pad
            invariant
                k <= pad,
                out@ == base + Seq::new(k as nat, |i: int| '0'),
            decreases pad - k,
        {
            out.push('0');
            k = k + 1;
            assert(out@ =~= base + Seq::new(k as nat, |i: int| '0'));
        }
    }
    let ghost mid = out@;
    let mut j: usize = 0;
    while j < digits.len()
        invariant
            j <= digits.len(),
            out@ == mid + digits@.take(j as int),
        decreases digits.len() - j,
    {
        out.push(digits[j]);
        j = j + 1;
        assert(out@ =~= mid + digits@.take(j as int));
    }
    assert(digits@.take(digits@.len() as int) =~= digits@);
    assert(out@ =~= base + zero_pad(hex_digits(n as nat), width as nat));
}

/// A vector holding the bytes of `v`.
pub fn copy_bytes(v: &[u8]) -> (r: Vec<u8>)
    ensures
        r@ == v@,
{
    let mut r: Vec<u8> = Vec::new();
    let mut i: usize = 0;
    while i < v.len()
        invariant
            i <= v@.len(),
            r@ == v@.take(i as int),
        decreases v.len() - i,
    {
        r.push(v[i]);
        i = i + 1;
        assert(r@ =~= v@.take(i as int));
    }
    assert(v@.take(v@.len() as int) =~= v@);
    r
}

/// The index ranges of the whitespace-separated tokens of `v`.
pub fn ws_token_ranges(v: &[char]) -> (r: Vec<(usize, usize)>)
    ensures
        ranges_view(v@, r@) == ws_tokens(v@),
        forall|k: int| 0 <= k < r@.len() ==> (#[trigger] r@[k]).0 <= r@[k].1 <= v@.len(),
{
    let mut r: Vec<(usize, usize)> = Vec::new();
    let mut i: usize = 0;
    assert(v@.take(0) =~= Seq::<char>::empty());
    assert(ranges_view(v@, r@) =~= Seq::<Seq<char>>::empty());
    while i < v.len()
        invariant
            i <= v@.len(),
            ws_tokens(v@.take(i as int)) == ranges_view(v@, r@),
            forall|k: int| 0 <= k < r@.len() ==> (#[trigger] r@[k]).0 < r@[k].1 <= i,
            i > 0 && !is_space(v@[i - 1]) ==> r@.len() > 0 && r@.last().1 == i,
        decreases v.len() - i,
    {
        let ghost s = v@.take(i as int + 1);
        let ghost rest = ranges_view(v@, r@);
        assert(s.drop_last() =~= v@.take(i as int));
        assert(s.last() == v@[i as int]);
        let c = v[i];
        if is_space_exec(c) {
            i = i + 1;
        } else if i > 0 && !is_space_exec(v[i - 1]) {
            let last = r.len() - 1;
            let a = r[last].0;
            assert(s[s.len() - 2] == v@[i - 1]);
            r.set(last, (a, i + 1));
            assert(v@.subrange(a as int, i as int + 1) =~= v@.subrange(a as int, i as int).push(c));
            assert(ranges_view(v@, r@) =~= rest.update(rest.len() - 1, rest.last().push(c)));
            i = i + 1;
        } else {
            r.push((i, i + 1));
            assert(v@.subrange(i as int, i as int + 1) =~= seq![c]);
            assert(ranges_view(v@, r@) =~= rest.push(seq![c]));
            i = i + 1;
        }
    }
    assert(v@.take(v@.len() as int) =~= v@);
    r
}

/// The characters `v[a..b]` as a string.
pub fn string_of_range(v: &[char], a: usize, b: usize) -> (s: String)
    requires
        a <= b <= v@.len(),
    ensures
        s@ == v@.subrange(a as int, b as int),
{
    let mut out: Vec<char> = Vec::new();
    let mut i = a;
    while i < b
        invariant
            a <= i <= b <= v@.len(),
            out@ == v@.subrange(a as int, i as int),
        decreases b - i,
    {
        out.push(v[i]);
        i = i + 1;
        assert(out@ =~= v@.subrange(a as int, i as int));
    }
    string_from_chars(out.as_slice())
}

/// `str::starts_with` for a string prefix.
pub fn starts_with(s: &str, prefix: &str) -> (r: bool)
    ensures
        r == strip_prefix(s@, prefix@) is Some,
{
    let v = chars_of(s);
    let p = chars_of(prefix);
    if p.len() > v.len() {
        return false;
    }
    let mut i: usize = 0;
    while i < p.len()
        invariant
            v@ == s@,
            p@ == prefix@,
            p@.len() <= v@.len(),
            i <= p@.len(),
            forall|j: int| 0 <= j < i ==> v@[j] == p@[j],
        decreases p.len() - i,
    {
        if v[i] != p[i] {
            assert(s@.take(p@.len() as int)[i as int] != prefix@[i as int]);
            return false;
        }
        i = i + 1;
    }
    assert(s@.take(p@.len() as int) =~= prefix@);
    true
}

/// Whether two strings are equal.
pub fn str_eq(a: &str, b: &str) -> (r: bool)
    ensures
        r == (a@ == b@),
{
    let x = chars_of(a);
    let y = chars_of(b);
    if x.len() != y.len() {
        return false;
    }
    let mut i: usize = 0;
    while i < x.len()
        invariant
            x@ == a@,
            y@ == b@,
            x@.len() == y@.len(),
            i <= x@.len(),
            forall|j: int| 0 <= j < i ==> x@[j] == y@[j],
        decreases x.len() - i,
    {
        if x[i] != y[i] {
            return false;
        }
        i = i + 1;
    }
    assert(x@ =~= y@);
    true
}

} // verus!
