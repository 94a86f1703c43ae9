//! The Linux device manager: `lsblk` lists the devices, `umount`, `eject`
//! and the `mkfs` family change them.

use vstd::prelude::*;
use vstd::string::*;
use vstd::arithmetic::power::pow;
use crate::disk_ops::{
    judge_plain,
    judge_unmount,
    run_view,
    CommandLine,
    CommandLineView,
    CommandOutput,
    DiskManager,
};
use crate::model::{
    copy_text,
    listing_view,
    text_view,
    Device,
    DeviceView,
    DiskError,
    DiskErrorView,
    FileSystemType,
};
use crate::text::{
    all_digits,
    char_digit_value,
    char_is_digit,
    chars_of,
    contains,
    digit_value,
    digits_value,
    is_digit,
    is_whitespace,
    lemma_leading_ws,
    lemma_trailing_ws,
    parse_digits,
    starts_with,
    str_contains,
    str_eq,
    str_starts_with,
    trim,
    trim_bounds,
    trimmed,
    u64_text,
};

verus! {

/// Ten to the power `n`.
pub open spec fn pow10(n: nat) -> nat
    decreases n,
{
    if n == 0 {
        1
    } else {
        10 * pow10((n - 1) as nat)
    }
}

/// The position of a size unit in the ladder B, K, M, G, T, P, whichever
/// its case; `None` for any other character.
pub open spec fn unit_index(unit: char) -> Option<nat> {
    if unit == 'B' || unit == 'b' {
        Some(0)
    } else if unit == 'K' || unit == 'k' {
        Some(1)
    } else if unit == 'M' || unit == 'm' {
        Some(2)
    } else if unit == 'G' || unit == 'g' {
        Some(3)
    } else if unit == 'T' || unit == 't' {
        Some(4)
    } else if unit == 'P' || unit == 'p' {
        Some(5)
    } else {
        None
    }
}

/// How many bytes one of the unit at `index` is: 1024 to the power `index`.
pub open spec fn unit_multiplier(index: nat) -> nat {
    if index == 0 {
        1
    } else if index == 1 {
        1024
    } else if index == 2 {
        1048576
    } else if index == 3 {
        1073741824
    } else if index == 4 {
        1099511627776
    } else {
        1125899906842624
    }
}

/// The units are the binary multiples: each is 1024 times the one before.
pub proof fn lemma_unit_multiplier_is_power(index: nat)
    requires
        index <= 5,
    ensures
        unit_multiplier(index) == pow(1024, index),
    decreases index,
{
    reveal(pow);
    if index > 0 {
        lemma_unit_multiplier_is_power((index - 1) as nat);
    }
}

/// `n`, or the largest `u64` where `n` is too large for one.
pub open spec fn capped(n: nat) -> u64 {
    if n > u64::MAX {
        u64::MAX
    } else {
        n as u64
    }
}

/// Where the first `.` of `s` stands, or the length of `s` if it has none.
pub open spec fn dot_position(s: Seq<char>) -> int
    decreases s.len(),
{
    if s.len() == 0 || s[0] == '.' {
        0
    } else {
        1 + dot_position(s.drop_first())
    }
}

/// `s` without a leading `+`.
pub open spec fn unsigned_part(s: Seq<char>) -> Seq<char> {
    if s.len() > 0 && s[0] == '+' {
        s.drop_first()
    } else {
        s
    }
}

/// The digits before the decimal point of the number text `s`.
pub open spec fn whole_digits(s: Seq<char>) -> Seq<char> {
    unsigned_part(s).take(dot_position(unsigned_part(s)))
}

/// The digits behind the decimal point of the number text `s`.
pub open spec fn fraction_digits(s: Seq<char>) -> Seq<char> {
    let body = unsigned_part(s);
    if dot_position(body) < body.len() {
        body.skip(dot_position(body) + 1)
    } else {
        Seq::empty()
    }
}

/// `s` is a plain decimal number: an optional `+`, digits, and optionally a
/// `.` with more digits, with at least one digit in all.
pub open spec fn is_decimal(s: Seq<char>) -> bool {
    &&& all_digits(whole_digits(s))
    &&& all_digits(fraction_digits(s))
    &&& whole_digits(s).len() + fraction_digits(s).len() > 0
}

/// The whole bytes in `number` units of `multiplier` bytes each, for a
/// decimal `number`: the product, rounded down.
pub open spec fn decimal_bytes(number: Seq<char>, multiplier: nat) -> nat {
    let whole = whole_digits(number);
    let fraction = fraction_digits(number);
    digits_value(whole) * multiplier + (digits_value(fraction) * multiplier) / pow10(
        fraction.len(),
    )
}

/// The size in bytes that the text `s` stands for. Around white space, `s`
/// is a decimal number followed by one of the units B, K, M, G, T, P, and
/// stands for that many units, rounded down and capped at `u64::MAX`; or it
/// is a plain count of bytes. Everything else stands for zero, and that
/// includes the forms that only a floating-point reading knows: a number
/// with an exponent, as in `1e3K`, and the words `inf` and `nan`. `lsblk`
/// prints none of them.
pub open spec fn size_of_text(s: Seq<char>) -> u64 {
    let t = trimmed(s);
    if t.len() == 0 {
        0
    } else {
        match unit_index(t.last()) {
            Some(index) => {
                let number = trimmed(t.drop_last());
                if is_decimal(number) {
                    capped(decimal_bytes(number, unit_multiplier(index)))
                } else {
                    0
                }
            },
            None => match u64_text(t) {
                Some(bytes) => bytes,
                None => 0,
            },
        }
    }
}

proof fn lemma_pow10_positive(n: nat)
    ensures
        pow10(n) > 0,
    decreases n,
{
    if n > 0 {
        lemma_pow10_positive((n - 1) as nat);
    }
}

proof fn lemma_digits_prepend(c: char, s: Seq<char>)
    ensures
        digits_value(seq![c] + s) == digit_value(c) * pow10(s.len()) + digits_value(s),
    decreases s.len(),
{
    let t = seq![c] + s;
    assert(digits_value(t) == digits_value(t.drop_last()) * 10 + digit_value(t.last()));
    if s.len() == 0 {
        assert(t.drop_last() =~= Seq::<char>::empty());
        assert(t.last() == c);
        assert(digits_value(t.drop_last()) == 0);
        assert(pow10(0) == 1);
        assert(digits_value(s) == 0);
    } else {
        assert(t.drop_last() =~= seq![c] + s.drop_last());
        assert(t.last() == s.last());
        lemma_digits_prepend(c, s.drop_last());
        let high = digit_value(c) as int;
        let scale = pow10(s.drop_last().len()) as int;
        let rest = digits_value(s.drop_last()) as int;
        assert(pow10(s.len()) == 10 * scale);
        assert(digits_value(s) == rest * 10 + digit_value(s.last()));
        assert(digits_value(t.drop_last()) == high * scale + rest);
        assert((high * scale + rest) * 10 == high * (10 * scale) + rest * 10) by (nonlinear_arith);
    }
}

proof fn lemma_fraction_step(digit: nat, tail_value: nat, tail_len: nat, multiplier: nat)
    ensures
        ((digit * pow10(tail_len) + tail_value) * multiplier) / pow10(tail_len + 1) == (digit
            * multiplier + (tail_value * multiplier) / pow10(tail_len)) / 10,
{
    let scale = pow10(tail_len) as int;
    lemma_pow10_positive(tail_len);
    let all = ((digit * scale + tail_value) * multiplier) as int;
    let low = (tail_value * multiplier) as int;
    let high = (digit * multiplier) as int;
    assert(all == low + high * scale) by (nonlinear_arith)
        requires
            all == (digit * scale + tail_value) * multiplier,
            low == tail_value * multiplier,
            high == digit * multiplier,
    ;
    assert(all >= 0 && low >= 0 && high >= 0) by (nonlinear_arith)
        requires
            all == low + high * scale,
            low == tail_value * multiplier,
            high == digit * multiplier,
            scale > 0,
    ;
    vstd::arithmetic::div_mod::lemma_div_denominator(all, scale, 10);
    vstd::arithmetic::div_mod::lemma_hoist_over_denominator(low, high, scale as nat);
    assert(pow10(tail_len + 1) == 10 * pow10(tail_len));
    assert(scale * 10 == 10 * scale);
}

/// Reads the digits `chars[from..to]`: `None` where one is no digit, else
/// their number, capped at `u64::MAX`. No digits at all read as zero.
fn whole_part(chars: &Vec<char>, from: usize, to: usize) -> (value: Option<u64>)
    requires
        from <= to <= chars.len(),
    ensures
        value == ({
            let digits = chars@.subrange(from as int, to as int);
            if all_digits(digits) {
                Some(capped(digits_value(digits)))
            } else {
                None
            }
        }),
{
    let ghost digits = chars@.subrange(from as int, to as int);
    let mut acc: u64 = 0;
    let mut overflowed = false;
    let mut i: usize = from;
    while i < to
        invariant
            from <= i <= to <= chars.len(),
            digits == chars@.subrange(from as int, to as int),
            all_digits(digits.take(i - from)),
            !overflowed ==> acc == digits_value(digits.take(i - from)),
            overflowed ==> digits_value(digits.take(i - from)) > u64::MAX,
        decreases to - i,
    {
        let c = chars[i];
        assert(digits[i - from] == c);
        if !char_is_digit(c) {
            return None;
        }
        let d = char_digit_value(c);
        proof {
            assert(digits.take(i - from + 1).drop_last() =~= digits.take(i - from));
            assert(digits.take(i - from + 1).last() == c);
            assert forall|j: int| 0 <= j < i - from + 1 implies is_digit(
                #[trigger] digits.take(i - from + 1)[j],
            ) by {
                if j < i - from {
                    assert(digits.take(i - from)[j] == digits[j]);
                }
            }
        }
        if !overflowed {
            if acc > (u64::MAX - d) / 10 {
                overflowed = true;
            } else {
                acc = acc * 10 + d;
            }
        }
        i += 1;
    }
    assert(digits.take(to - from) =~= digits);
    if overflowed {
        Some(u64::MAX)
    } else {
        Some(acc)
    }
}

/// Reads the digits `chars[from..to]` as the fraction behind a decimal
/// point and scales it: the whole part of the fraction times `multiplier`.
/// `None` where a character is no digit.
fn fraction_part(chars: &Vec<char>, from: usize, to: usize, multiplier: u64) -> (value: Option<
    u64,
>)
    requires
        from <= to <= chars.len(),
        0 < multiplier <= 1125899906842624,
    ensures
        match value {
            Some(v) => {
                let digits = chars@.subrange(from as int, to as int);
                &&& all_digits(digits)
                &&& v == (digits_value(digits) * (multiplier as nat)) / pow10(digits.len())
                &&& v < multiplier
            },
            None => !all_digits(chars@.subrange(from as int, to as int)),
        },
{
    let ghost digits = chars@.subrange(from as int, to as int);
    let mut scaled: u64 = 0;
    let mut i: usize = to;
    assert(digits.skip(to - from) =~= Seq::<char>::empty());
    while i > from
        invariant
            from <= i <= to <= chars.len(),
            0 < multiplier <= 1125899906842624,
            digits == chars@.subrange(from as int, to as int),
            all_digits(digits.skip(i - from)),
            scaled < multiplier,
            scaled == (digits_value(digits.skip(i - from)) * (multiplier as nat)) / pow10(
                (to - i) as nat,
            ),
        decreases i,
    {
        let c = chars[i - 1];
        assert(digits[i - 1 - from] == c);
        if !char_is_digit(c) {
            return None;
        }
        let d = char_digit_value(c);
        proof {
            let tail = digits.skip(i - from);
            let longer = digits.skip(i - 1 - from);
            assert(longer =~= seq![c] + tail);
            lemma_digits_prepend(c, tail);
            lemma_fraction_step(d as nat, digits_value(tail), tail.len(), multiplier as nat);
            assert forall|j: int| 0 <= j < longer.len() implies is_digit(#[trigger] longer[j]) by {
                if j > 0 {
                    assert(longer[j] == tail[j - 1]);
                }
            }
            assert(d * multiplier <= 9 * multiplier) by (nonlinear_arith)
                requires
                    d <= 9,
                    multiplier > 0,
            ;
        }
        scaled = (d * multiplier + scaled) / 10;
        i -= 1;
    }
    assert(digits.skip(0) =~= digits);
    Some(scaled)
}

/// The multiplier of the unit that `unit` names, if it names one.
fn multiplier_of(unit: char) -> (multiplier: Option<u64>)
    ensures
        match multiplier {
            Some(m) => unit_index(unit) matches Some(index) && m == unit_multiplier(index),
            None => unit_index(unit) is None,
        },
{
    if unit == 'B' || unit == 'b' {
        Some(1)
    } else if unit == 'K' || unit == 'k' {
        Some(1024)
    } else if unit == 'M' || unit == 'm' {
        Some(1048576)
    } else if unit == 'G' || unit == 'g' {
        Some(1073741824)
    } else if unit == 'T' || unit == 't' {
        Some(1099511627776)
    } else if unit == 'P' || unit == 'p' {
        Some(1125899906842624)
    } else {
        None
    }
}

proof fn lemma_dot_position(s: Seq<char>, at: int)
    requires
        0 <= at <= s.len(),
        forall|j: int| 0 <= j < at ==> #[trigger] s[j] != '.',
        at == s.len() || s[at] == '.',
    ensures
        dot_position(s) == at,
    decreases at,
{
    if at > 0 {
        let rest = s.drop_first();
        assert forall|j: int| 0 <= j < at - 1 implies #[trigger] rest[j] != '.' by {
            assert(rest[j] == s[j + 1]);
        }
        lemma_dot_position(rest, at - 1);
    }
}

/// The size of a decimal number of units, each of `multiplier` bytes.
fn decimal_size(number: &Vec<char>, multiplier: u64) -> (bytes: u64)
    requires
        0 < multiplier <= 1125899906842624,
    ensures
        bytes == (if is_decimal(number@) {
            capped(decimal_bytes(number@, multiplier as nat))
        } else {
            0
        }),
{
    let n: usize = number.len();
    let start: usize = if n > 0 && number[0] == '+' {
        1
    } else {
        0
    };
    let ghost body = unsigned_part(number@);
    assert(body =~= number@.subrange(start as int, n as int));
    let mut dot: usize = start;
    while dot < n && number[dot] != '.'
        invariant
            start <= dot <= n == number.len(),
            body == number@.subrange(start as int, n as int),
            forall|j: int| 0 <= j < dot - start ==> #[trigger] body[j] != '.',
        decreases n - dot,
    {
        dot += 1;
    }
    let fraction_start: usize = if dot < n {
        dot + 1
    } else {
        n
    };
    proof {
        if dot < n {
            assert(body[dot - start] == number@[dot as int]);
        }
        lemma_dot_position(body, dot - start);
        assert(whole_digits(number@) =~= number@.subrange(start as int, dot as int));
        assert(fraction_digits(number@) =~= number@.subrange(fraction_start as int, n as int));
    }
    if dot - start + (n - fraction_start) == 0 {
        return 0;
    }
    let whole = match whole_part(number, start, dot) {
        Some(value) => value,
        None => {
            return 0;
        },
    };
    let fraction = match fraction_part(number, fraction_start, n, multiplier) {
        Some(value) => value,
        None => {
            return 0;
        },
    };
    proof {
        let exact = digits_value(whole_digits(number@));
        assert(whole * multiplier <= 0xFFFF_FFFF_FFFF_FFFF * 1125899906842624)
            by (nonlinear_arith)
            requires
                whole <= 0xFFFF_FFFF_FFFF_FFFF,
                multiplier <= 1125899906842624,
        ;
        if exact > u64::MAX {
            assert(exact * multiplier > u64::MAX) by (nonlinear_arith)
                requires
                    exact > u64::MAX,
                    multiplier >= 1,
            ;
            assert(whole * multiplier >= u64::MAX) by (nonlinear_arith)
                requires
                    whole == u64::MAX,
                    multiplier >= 1,
            ;
        }
    }
    let total: u128 = (whole as u128) * (multiplier as u128) + (fraction as u128);
    if total > u64::MAX as u128 {
        u64::MAX
    } else {
        total as u64
    }
}

/// Parses a size as `lsblk` prints it, such as `500G`, `1.8T` or `256M`,
/// into bytes. Text that is no size gives zero.
pub fn parse_size(size_str: &str) -> (bytes: u64)
    ensures
        bytes == size_of_text(size_str@),
{
    let chars = chars_of(size_str);
    let (lo, hi) = trim_bounds(&chars);
    if lo == hi {
        return 0;
    }
    let ghost t = trimmed(size_str@);
    assert(t.last() == chars@[hi - 1]);
    match multiplier_of(chars[hi - 1]) {
        Some(multiplier) => {
            let mut inner: Vec<char> = Vec::new();
            let mut i: usize = lo;
            while i < hi - 1
                invariant
                    lo <= i <= hi - 1,
                    hi <= chars.len(),
                    inner@ == chars@.subrange(lo as int, i as int),
                decreases hi - i,
            {
                inner.push(chars[i]);
                assert(inner@ =~= chars@.subrange(lo as int, i + 1));
                i += 1;
            }
            assert(inner@ =~= t.drop_last());
            let (a, b) = trim_bounds(&inner);
            let mut number: Vec<char> = Vec::new();
            let mut k: usize = a;
            while k < b
                invariant
                    a <= k <= b <= inner.len(),
                    number@ == inner@.subrange(a as int, k as int),
                decreases b - k,
            {
                number.push(inner[k]);
                assert(number@ =~= inner@.subrange(a as int, k + 1));
                k += 1;
            }
            decimal_size(&number, multiplier)
        },
        None => {
            let from: usize = if chars[lo] == '+' {
                lo + 1
            } else {
                lo
            };
            assert(chars@.subrange(from as int, hi as int) =~= if from == lo + 1 {
                t.drop_first()
            } else {
                t
            });
            match parse_digits(&chars, from, hi) {
                Some(bytes) => bytes,
                None => 0,
            }
        },
    }
}

proof fn lemma_dot_position_bounds(s: Seq<char>)
    ensures
        0 <= dot_position(s) <= s.len(),
        dot_position(s) < s.len() ==> s[dot_position(s)] == '.',
    decreases s.len(),
{
    if s.len() > 0 && s[0] != '.' {
        lemma_dot_position_bounds(s.drop_first());
    }
}

proof fn lemma_decimal_has_no_outer_space(number: Seq<char>)
    requires
        is_decimal(number),
    ensures
        number.len() > 0,
        !is_whitespace(number[0]),
        !is_whitespace(number.last()),
{
    let body = unsigned_part(number);
    let at = dot_position(body);
    lemma_dot_position_bounds(body);
    let whole = whole_digits(number);
    let fraction = fraction_digits(number);
    assert(body.len() > 0);
    if at > 0 {
        assert(whole[0] == body[0]);
        assert(is_digit(body[0]));
    }
    if at == body.len() {
        assert(whole[at - 1] == body.last());
    } else if fraction.len() > 0 {
        assert(fraction[fraction.len() - 1] == body.last());
    }
    assert(number.last() == body.last());
}

/// Text with no white space at either end is its own trimmed form.
pub proof fn lemma_trimmed_unchanged(s: Seq<char>)
    requires
        s.len() == 0 || (!is_whitespace(s[0]) && !is_whitespace(s.last())),
    ensures
        trimmed(s) == s,
{
    lemma_leading_ws(s, 0);
    assert(s.skip(0) =~= s);
    lemma_trailing_ws(s, 0);
    assert(s.take(s.len() as int) =~= s);
}

/// A number with a unit: for every decimal `number` and every `unit` of
/// B, K, M, G, T, P in either case, the text `number` followed by `unit`
/// stands for `number` times 1024 to the power of the unit's index, in
/// whole bytes and capped at `u64::MAX`. For a whole number that is the
/// plain product.
pub proof fn lemma_size_with_unit(number: Seq<char>, unit: char)
    requires
        is_decimal(number),
        unit_index(unit) is Some,
    ensures
        size_of_text(number.push(unit)) == capped(
            decimal_bytes(number, pow(1024, unit_index(unit)->0) as nat),
        ),
        fraction_digits(number).len() == 0 ==> size_of_text(number.push(unit)) == capped(
            (digits_value(whole_digits(number)) * pow(1024, unit_index(unit)->0)) as nat,
        ),
{
    let text = number.push(unit);
    let index = unit_index(unit)->0;
    lemma_unit_multiplier_is_power(index);
    lemma_decimal_has_no_outer_space(number);
    assert(text[0] == number[0]);
    assert(text.last() == unit);
    lemma_trimmed_unchanged(text);
    assert(text.drop_last() =~= number);
    lemma_trimmed_unchanged(number);
    if fraction_digits(number).len() == 0 {
        assert(digits_value(fraction_digits(number)) == 0);
        assert(pow10(0) == 1);
        assert((0 * unit_multiplier(index)) / 1 == 0) by (nonlinear_arith);
    }
}

/// Empty text, and text of nothing but white space, stands for no size.
pub proof fn lemma_size_of_blank(s: Seq<char>)
    requires
        forall|i: int| 0 <= i < s.len() ==> is_whitespace(#[trigger] s[i]),
    ensures
        size_of_text(s) == 0,
{
    lemma_leading_ws(s, s.len() as int);
    assert(s.skip(s.len() as int).len() == 0);
}

/// Malformed text stands for no size: text that ends in a unit but has no
/// decimal number before it, and text that ends in no unit and is no plain
/// count of bytes that fits in 64 bits.
pub proof fn lemma_malformed_size_is_zero(s: Seq<char>)
    requires
        trimmed(s).len() > 0,
        match unit_index(trimmed(s).last()) {
            Some(_) => !is_decimal(trimmed(trimmed(s).drop_last())),
            None => u64_text(trimmed(s)) is None,
        },
    ensures
        size_of_text(s) == 0,
{
}

/// One entry of the block-device tree that `lsblk --json` prints, with the
/// columns that the device list is made from.
#[derive(Debug, PartialEq, Eq)]
pub struct BlockDevice {
    pub name: String,
    pub size: String,
    pub device_type: String,
    pub fstype: Option<String>,
    pub label: Option<String>,
    pub mountpoint: Option<String>,
    pub path: Option<String>,
    pub rm: Option<bool>,
    /// The block devices listed under this one: the partitions of a disk,
    /// and whatever is stacked on them in turn.
    pub children: Option<Vec<BlockDevice>>,
}

/// The decoded output of `lsblk --json`.
#[derive(Debug, PartialEq, Eq)]
pub struct LsblkOutput {
    pub blockdevices: Vec<BlockDevice>,
}

impl BlockDevice {
    /// Loopback and ram-backed devices are no physical disks.
    pub open spec fn is_pseudo(self) -> bool {
        starts_with(self.name@, "loop"@) || starts_with(self.name@, "ram"@)
    }

    /// Whole disks are listed with the type `disk` or `rom`.
    pub open spec fn is_whole_disk(self) -> bool {
        self.device_type@ == "disk"@ || self.device_type@ == "rom"@
    }

    /// The device node: the listed path, or the name under `/dev/`.
    pub open spec fn node(self) -> Seq<char> {
        match self.path {
            Some(path) => path@,
            None => "/dev/"@ + self.name@,
        }
    }

    /// Whether `source` is the node of this block device or of one of the
    /// block devices listed under it, at any depth.
    pub open spec fn holds_node(self, source: Seq<char>) -> bool
        decreases self,
    {
        self.node() == source || match self.children {
            Some(children) => exists|i: int|
                0 <= i < children@.len() && (#[trigger] children@[i]).holds_node(source),
            None => false,
        }
    }

    /// Whether the root filesystem, mounted from `root`, lives on this
    /// device: `root` is the device's own node or the node of a block device
    /// listed under it. With no root source known, no device hosts it.
    pub open spec fn hosts_root(self, root: Option<Seq<char>>) -> bool {
        match root {
            Some(source) => self.holds_node(source),
            None => false,
        }
    }

    /// The device that this entry stands for: a whole physical disk with a
    /// size that parses to more than zero. Every other entry stands for
    /// none. The disk that hosts the root filesystem is protected, and no
    /// other.
    pub open spec fn device(self, root: Option<Seq<char>>) -> Option<DeviceView> {
        if self.is_pseudo() || !self.is_whole_disk() || size_of_text(self.size@) == 0 {
            None
        } else {
            Some(
                DeviceView {
                    path: self.node(),
                    name: "Disk "@ + self.name@,
                    size_bytes: size_of_text(self.size@),
                    filesystem: match self.fstype {
                        Some(fstype) => fstype@,
                        None => "Unknown"@,
                    },
                    label: match self.label {
                        Some(label) => label@,
                        None => self.name@,
                    },
                    mount_point: text_view(self.mountpoint),
                    is_protected: self.hosts_root(root),
                    is_removable: match self.rm {
                        Some(removable) => removable,
                        None => false,
                    },
                },
            )
        }
    }
}

/// The devices that the entries `blocks` stand for, in order.
pub open spec fn lsblk_devices(blocks: Seq<BlockDevice>, root: Option<Seq<char>>) -> Seq<
    DeviceView,
>
    decreases blocks.len(),
{
    if blocks.len() == 0 {
        Seq::empty()
    } else {
        let earlier = lsblk_devices(blocks.drop_last(), root);
        match blocks.last().device(root) {
            Some(device) => earlier.push(device),
            None => earlier,
        }
    }
}

/// The device list that a decoding of the `lsblk` output gives: a failed
/// decoding is a parse error with the decoder's words.
pub open spec fn lsblk_listing(decoded: Result<LsblkOutput, String>, root: Option<Seq<char>>)
    -> Result<Seq<DeviceView>, DiskErrorView> {
    match decoded {
        Ok(output) => Ok(lsblk_devices(output.blockdevices@, root)),
        Err(detail) => Err(DiskErrorView::ParseError(detail@)),
    }
}

/// With no root source known, no device is protected.
pub proof fn lemma_no_root_no_protection(blocks: Seq<BlockDevice>)
    ensures
        forall|i: int|
            0 <= i < lsblk_devices(blocks, None).len() ==> !(#[trigger] lsblk_devices(
                blocks,
                None,
            )[i]).is_protected,
    decreases blocks.len(),
{
    if blocks.len() > 0 {
        lemma_no_root_no_protection(blocks.drop_last());
    }
}

/// A disk with nothing listed under it is protected exactly when the root
/// filesystem is mounted from the disk's own node: a root source that
/// merely resembles the disk's name or path protects nothing.
pub proof fn lemma_bare_disk_protection(block: BlockDevice, source: Seq<char>)
    requires
        block.children is None || block.children->0@.len() == 0,
    ensures
        block.hosts_root(Some(source)) <==> block.node() == source,
{
}

/// The view of an optional borrowed string.
pub open spec fn str_view(text: Option<&str>) -> Option<Seq<char>> {
    match text {
        Some(t) => Some(t@),
        None => None,
    }
}

fn text_or(text: &Option<String>, fallback: &str) -> (chosen: String)
    ensures
        chosen@ == (match text_view(*text) {
            Some(t) => t,
            None => fallback@,
        }),
{
    match text {
        Some(t) => t.clone(),
        None => String::from_str(fallback),
    }
}

/// The device node of `block`.
fn node_of(block: &BlockDevice) -> (node: String)
    ensures
        node@ == block.node(),
{
    match &block.path {
        Some(path) => path.clone(),
        None => String::from_str("/dev/").concat(block.name.as_str()),
    }
}

/// Whether `source` is the node of `block` or of a block device listed
/// under it.
fn block_holds_node(block: &BlockDevice, source: &str) -> (held: bool)
    ensures
        held == block.holds_node(source@),
    decreases block,
{
    let node = node_of(block);
    if str_eq(node.as_str(), source) {
        return true;
    }
    match &block.children {
        Some(children) => {
            let mut i: usize = 0;
            while i < children.len()
                invariant
                    i <= children.len(),
                    block.children == Some(*children),
                    block.node() != source@,
                    forall|k: int|
                        0 <= k < i ==> !(#[trigger] children@[k]).holds_node(source@),
                decreases children.len() - i,
            {
                proof {
                    vstd::std_specs::vec::axiom_vec_index_decreases(*children, i as int);
                    assert(decreases_to!(block.children => block.children->0));
                    assert(decreases_to!(*block => block.children));
                }
                if block_holds_node(&children[i], source) {
                    assert(children@[i as int].holds_node(source@));
                    return true;
                }
                i += 1;
            }
            false
        },
        None => false,
    }
}

fn device_of_block(block: &BlockDevice, root: Option<&str>) -> (device: Option<Device>)
    ensures
        match device {
            Some(d) => block.device(str_view(root)) == Some(d@),
            None => block.device(str_view(root)) is None,
        },
{
    let name = block.name.as_str();
    if str_starts_with(name, "loop") || str_starts_with(name, "ram") {
        return None;
    }
    let kind = block.device_type.as_str();
    if !(str_eq(kind, "disk") || str_eq(kind, "rom")) {
        return None;
    }
    let size = parse_size(block.size.as_str());
    if size == 0 {
        return None;
    }
    let is_root_device = match root {
        Some(source) => block_holds_node(block, source),
        None => false,
    };
    Some(
        Device {
            path: node_of(block),
            name: String::from_str("Disk ").concat(name),
            size_bytes: size,
            filesystem: text_or(&block.fstype, "Unknown"),
            label: text_or(&block.label, name),
            mount_point: copy_text(&block.mountpoint),
            is_protected: is_root_device,
            is_removable: match block.rm {
                Some(removable) => removable,
                None => false,
            },
        },
    )
}

/// Appends `text` to `list`.
fn push_text(list: &mut Vec<String>, text: &str)
    ensures
        final(list).deep_view() == old(list).deep_view().push(text@),
{
    let ghost before = list.deep_view();
    list.push(String::from_str(text));
    assert(list.deep_view() =~= before.push(text@));
}

/// Where the first `[` of `s` stands, or the length of `s` if it has none.
pub open spec fn bracket_position(s: Seq<char>) -> int
    decreases s.len(),
{
    if s.len() == 0 || s[0] == '[' {
        0
    } else {
        1 + bracket_position(s.drop_first())
    }
}

/// The device node that `findmnt` names as the source of a mount. For a
/// bind mount or a subvolume it prints the node followed by a path in
/// square brackets, as in `/dev/sda2[/@]`; the node is what stands before
/// the bracket, and the white space around the output is no part of it.
pub open spec fn source_node(output: Seq<char>) -> Seq<char> {
    trimmed(output).take(bracket_position(trimmed(output)))
}

proof fn lemma_bracket_position(s: Seq<char>, at: int)
    requires
        0 <= at <= s.len(),
        forall|j: int| 0 <= j < at ==> #[trigger] s[j] != '[',
        at == s.len() || s[at] == '[',
    ensures
        bracket_position(s) == at,
    decreases at,
{
    if at > 0 {
        let rest = s.drop_first();
        assert forall|j: int| 0 <= j < at - 1 implies #[trigger] rest[j] != '[' by {
            assert(rest[j] == s[j + 1]);
        }
        lemma_bracket_position(rest, at - 1);
    }
}

/// The device node in what `findmnt` printed.
fn node_in(output: &str) -> (node: String)
    ensures
        node@ == source_node(output@),
{
    let trimmed_output = trim(output);
    let chars = chars_of(trimmed_output);
    let mut at: usize = 0;
    while at < chars.len() && chars[at] != '['
        invariant
            at <= chars.len(),
            forall|j: int| 0 <= j < at ==> #[trigger] chars@[j] != '[',
        decreases chars.len() - at,
    {
        at += 1;
    }
    proof {
        lemma_bracket_position(chars@, at as int);
        assert(chars@.take(at as int) =~= chars@.subrange(0, at as int));
    }
    String::from_str(trimmed_output.substring_char(0, at))
}

/// The device manager for Linux.
#[derive(Debug, Clone, Copy, PartialEq, Eq)]
pub struct LinuxDiskManager;

impl LinuxDiskManager {
    /// The manager; it holds no state of its own.
    pub fn new() -> (manager: Self) {
        LinuxDiskManager
    }

    /// Turns the decoded `lsblk` output into the device list. `root_device`
    /// is the source of the root filesystem, where it is known: the node it
    /// is mounted from. The disk that this node belongs to, as the disk
    /// itself or as something listed under it, is marked as protected.
    pub fn parse_lsblk_output(&self, decoded: Result<LsblkOutput, String>, root_device: Option<&str>)
        -> (listing: Result<Vec<Device>, DiskError>)
        ensures
            listing_view(listing) == lsblk_listing(decoded, str_view(root_device)),
    {
        let output = match decoded {
            Ok(output) => output,
            Err(detail) => {
                return Err(DiskError::ParseError(detail));
            },
        };
        let blocks = &output.blockdevices;
        let ghost root = str_view(root_device);
        let mut devices: Vec<Device> = Vec::new();
        let mut i: usize = 0;
        while i < blocks.len()
            invariant
                i <= blocks.len(),
                root == str_view(root_device),
                devices.deep_view() == lsblk_devices(blocks@.take(i as int), root),
            decreases blocks.len() - i,
        {
            let ghost before = devices.deep_view();
            assert(blocks@.take(i + 1).drop_last() =~= blocks@.take(i as int));
            assert(blocks@.take(i + 1).last() == blocks@[i as int]);
            match device_of_block(&blocks[i], root_device) {
                Some(device) => {
                    devices.push(device);
                    assert(devices.deep_view() =~= before.push(device@));
                },
                None => {},
            }
            i += 1;
        }
        assert(blocks@.take(blocks@.len() as int) =~= blocks@);
        Ok(devices)
    }

    /// The command that names the source of the root filesystem.
    pub fn root_device_command(&self) -> (command: CommandLine)
        ensures
            command@ == (CommandLineView {
                program: "findmnt"@,
                args: seq!["-n"@, "-o"@, "SOURCE"@, "/"@],
            }),
    {
        let mut args: Vec<String> = Vec::new();
        push_text(&mut args, "-n");
        push_text(&mut args, "-o");
        push_text(&mut args, "SOURCE");
        push_text(&mut args, "/");
        assert(args.deep_view() =~= seq!["-n"@, "-o"@, "SOURCE"@, "/"@]);
        CommandLine::new("findmnt", args)
    }

    /// The node that the root filesystem is mounted from, from what running
    /// `root_device_command` gave, if it ran (`ran` is `Some`) and
    /// succeeded: its output without the white space around it and without
    /// the bracketed path that follows the node of a subvolume or a bind
    /// mount.
    pub fn get_root_device(&self, ran: Option<CommandOutput>) -> (source: Option<String>)
        ensures
            match ran {
                Some(output) => if output.success {
                    text_view(source) == Some(source_node(output.stdout@))
                } else {
                    source is None
                },
                None => source is None,
            },
    {
        match ran {
            Some(output) => {
                if output.success {
                    Some(node_in(output.stdout.as_str()))
                } else {
                    None
                }
            },
            None => None,
        }
    }

    /// The text of the listing to decode, from what running `list_command`
    /// gave: a command that could not be run is an I/O error, and one that
    /// failed is reported with its error output.
    pub fn listed_text(&self, ran: Result<CommandOutput, String>) -> (listed: Result<
        String,
        DiskError,
    >)
        ensures
            match listed {
                Ok(text) => run_view(ran) matches Ok(output) && output.success && text@
                    == output.stdout,
                Err(e) => match run_view(ran) {
                    Ok(output) => !output.success && e@ == DiskErrorView::CommandFailed(
                        output.stderr,
                    ),
                    Err(detail) => e@ == DiskErrorView::IoError(detail),
                },
            },
    {
        match ran {
            Err(detail) => Err(DiskError::IoError(detail)),
            Ok(output) => {
                if output.success {
                    Ok(output.stdout)
                } else {
                    Err(DiskError::CommandFailed(output.stderr))
                }
            },
        }
    }

    /// The command that prints the user id of the running process.
    pub fn privilege_command(&self) -> (command: CommandLine)
        ensures
            command@ == (CommandLineView { program: "id"@, args: seq!["-u"@] }),
    {
        let mut args: Vec<String> = Vec::new();
        push_text(&mut args, "-u");
        assert(args.deep_view() =~= seq!["-u"@]);
        CommandLine::new("id", args)
    }

    /// Whether the process has elevated privileges, from what running
    /// `privilege_command` gave: it has them if the command ran (`ran` is
    /// `Some`) and printed the user id `0`.
    pub fn has_privileges(&self, ran: Option<CommandOutput>) -> (privileged: bool)
        ensures
            privileged == match ran {
                Some(output) => trimmed(output.stdout@) == "0"@,
                None => false,
            },
    {
        match ran {
            Some(output) => str_eq(trim(output.stdout.as_str()), "0"),
            None => false,
        }
    }
}

/// The `mkfs` command that makes `fs_type` on `path`, or `None` for APFS,
/// which has no formatter on Linux.
pub open spec fn mkfs_plan(path: Seq<char>, fs_type: FileSystemType, label: Seq<char>) -> Option<
    CommandLineView,
> {
    match fs_type {
        FileSystemType::Fat32 => Some(
            CommandLineView {
                program: "mkfs.vfat"@,
                args: seq!["-F"@, "32"@, "-n"@, label, path],
            },
        ),
        FileSystemType::ExFat => Some(
            CommandLineView { program: "mkfs.exfat"@, args: seq!["-n"@, label, path] },
        ),
        FileSystemType::Ntfs => Some(
            CommandLineView { program: "mkfs.ntfs"@, args: seq!["-f"@, "-L"@, label, path] },
        ),
        FileSystemType::Ext4 => Some(
            CommandLineView { program: "mkfs.ext4"@, args: seq!["-L"@, label, path] },
        ),
        FileSystemType::Apfs => None,
    }
}

impl DiskManager for LinuxDiskManager {
    open spec fn list_plan(&self) -> CommandLineView {
        CommandLineView {
            program: "lsblk"@,
            args: seq!["--json"@, "-o"@, "NAME,SIZE,TYPE,FSTYPE,LABEL,MOUNTPOINT,PATH,RM"@],
        }
    }

    open spec fn unmount_plan(&self, privileged: bool, path: Seq<char>) -> Result<
        CommandLineView,
        DiskErrorView,
    > {
        if privileged {
            Ok(CommandLineView { program: "umount"@, args: seq![path] })
        } else {
            Err(DiskErrorView::InsufficientPrivileges)
        }
    }

    open spec fn eject_plan(&self, privileged: bool, path: Seq<char>) -> Result<
        CommandLineView,
        DiskErrorView,
    > {
        if privileged {
            Ok(CommandLineView { program: "eject"@, args: seq![path] })
        } else {
            Err(DiskErrorView::InsufficientPrivileges)
        }
    }

    open spec fn format_plan(
        &self,
        privileged: bool,
        path: Seq<char>,
        fs_type: FileSystemType,
        label: Seq<char>,
    ) -> Result<CommandLineView, DiskErrorView> {
        if !privileged {
            Err(DiskErrorView::InsufficientPrivileges)
        } else {
            match mkfs_plan(path, fs_type, label) {
                Some(command) => Ok(command),
                None => Err(
                    DiskErrorView::UnsupportedFilesystem("APFS is not supported on Linux"@),
                ),
            }
        }
    }

    fn list_command(&self) -> (command: CommandLine) {
        let mut args: Vec<String> = Vec::new();
        push_text(&mut args, "--json");
        push_text(&mut args, "-o");
        push_text(&mut args, "NAME,SIZE,TYPE,FSTYPE,LABEL,MOUNTPOINT,PATH,RM");
        assert(args.deep_view() =~= seq![
            "--json"@,
            "-o"@,
            "NAME,SIZE,TYPE,FSTYPE,LABEL,MOUNTPOINT,PATH,RM"@,
        ]);
        CommandLine::new("lsblk", args)
    }

    fn unmount(&self, privileged: bool, path: &str) -> (plan: Result<CommandLine, DiskError>) {
        if !privileged {
            return Err(DiskError::InsufficientPrivileges);
        }
        let mut args: Vec<String> = Vec::new();
        push_text(&mut args, path);
        assert(args.deep_view() =~= seq![path@]);
        Ok(CommandLine::new("umount", args))
    }

    fn unmount_result(&self, ran: Result<CommandOutput, String>) -> (verdict: Result<
        (),
        DiskError,
    >) {
        judge_unmount(ran)
    }

    fn eject(&self, privileged: bool, path: &str) -> (plan: Result<CommandLine, DiskError>) {
        if !privileged {
            return Err(DiskError::InsufficientPrivileges);
        }
        let mut args: Vec<String> = Vec::new();
        push_text(&mut args, path);
        assert(args.deep_view() =~= seq![path@]);
        Ok(CommandLine::new("eject", args))
    }

    fn eject_result(&self, ran: Result<CommandOutput, String>) -> (verdict: Result<(), DiskError>) {
        judge_plain(ran, false)
    }

    fn format(&self, privileged: bool, path: &str, fs_type: FileSystemType, label: &str) -> (plan:
        Result<CommandLine, DiskError>) {
        if !privileged {
            return Err(DiskError::InsufficientPrivileges);
        }
        let mut args: Vec<String> = Vec::new();
        let program = match fs_type {
            FileSystemType::Fat32 => {
                push_text(&mut args, "-F");
                push_text(&mut args, "32");
                push_text(&mut args, "-n");
                "mkfs.vfat"
            },
            FileSystemType::ExFat => {
                push_text(&mut args, "-n");
                "mkfs.exfat"
            },
            FileSystemType::Ntfs => {
                push_text(&mut args, "-f");
                push_text(&mut args, "-L");
                "mkfs.ntfs"
            },
            FileSystemType::Ext4 => {
                push_text(&mut args, "-L");
                "mkfs.ext4"
            },
            FileSystemType::Apfs => {
                return Err(
                    DiskError::UnsupportedFilesystem(
                        String::from_str("APFS is not supported on Linux"),
                    ),
                );
            },
        };
        push_text(&mut args, label);
        push_text(&mut args, path);
        assert(args.deep_view() =~= mkfs_plan(path@, fs_type, label@)->0.args);
        Ok(CommandLine::new(program, args))
    }

    fn format_result(&self, ran: Result<CommandOutput, String>) -> (verdict: Result<(), DiskError>) {
        judge_plain(ran, true)
    }
}

} // verus!
