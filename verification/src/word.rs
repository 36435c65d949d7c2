//! Fixed-width words of up to sixteen bits.
//!
//! A `Word<N>` keeps an `N`-bit unsigned value in a sixteen-bit container and
//! never lets a bit above position `N - 1` become set. The mathematical model
//! of a word is the `u16` it holds, reached with `@`.

use vstd::prelude::*;
use vstd::std_specs::cmp::PartialEqSpecImpl;
use vstd::std_specs::convert::{FromSpecImpl, IntoSpec};
use vstd::std_specs::ops::{BitAndSpecImpl, BitOrSpecImpl, NotSpecImpl, ShlSpecImpl, ShrSpecImpl};
use vstd::string::StringExecFns;

verus! {

/// The largest value that fits in `bits` bits: `2^bits - 1`, capped at the
/// sixteen bits of the container.
pub open spec fn mask_of(bits: u8) -> u16 {
    if bits >= 16 {
        0xFFFFu16
    } else {
        ((1u16 << bits) - 1) as u16
    }
}

/// Whether bit `index` of `value` is set.
pub open spec fn bit_of(value: u16, index: u8) -> bool {
    value & (1u16 << index) != 0
}

/// `value` with bit `index` forced to `bit`.
pub open spec fn with_bit(value: u16, index: u8, bit: bool) -> u16 {
    if bit {
        value | (1u16 << index)
    } else {
        value & !(1u16 << index)
    }
}

/// How many of the `n` lowest bits of `value` are set.
pub open spec fn ones_below(value: u16, n: nat) -> nat
    decreases n,
{
    if n == 0 {
        0
    } else {
        ones_below(value, (n - 1) as nat) + if bit_of(value, (n - 1) as u8) {
            1nat
        } else {
            0nat
        }
    }
}

/// The population count of a sixteen-bit container.
pub open spec fn ones(value: u16) -> nat {
    ones_below(value, 16)
}

/// The character that stands for the digit `digit` in bases up to sixteen.
pub open spec fn digit_char(digit: u16, upper: bool) -> char {
    if digit == 0 {
        '0'
    } else if digit == 1 {
        '1'
    } else if digit == 2 {
        '2'
    } else if digit == 3 {
        '3'
    } else if digit == 4 {
        '4'
    } else if digit == 5 {
        '5'
    } else if digit == 6 {
        '6'
    } else if digit == 7 {
        '7'
    } else if digit == 8 {
        '8'
    } else if digit == 9 {
        '9'
    } else if digit == 10 {
        if upper { 'A' } else { 'a' }
    } else if digit == 11 {
        if upper { 'B' } else { 'b' }
    } else if digit == 12 {
        if upper { 'C' } else { 'c' }
    } else if digit == 13 {
        if upper { 'D' } else { 'd' }
    } else if digit == 14 {
        if upper { 'E' } else { 'e' }
    } else {
        if upper { 'F' } else { 'f' }
    }
}

/// The digit of `value` at `position` (0 is the least significant) when it is
/// written with `width` bits per digit.
pub open spec fn digit_at(value: u16, width: u8, position: nat) -> u16 {
    (value >> ((width * position) as u8)) & mask_of(width)
}

/// `value` written most significant digit first, in `count` digits of `width`
/// bits each.
pub open spec fn digits_of(value: u16, width: u8, count: nat, upper: bool) -> Seq<char> {
    Seq::new(count, |i: int| digit_char(digit_at(value, width, (count - 1 - i) as nat), upper))
}

/// How many digits of `width` bits a word of `bits` bits is written with.
pub open spec fn digit_count(bits: u8, width: u8) -> nat {
    if bits == 0 {
        1
    } else {
        ((bits - 1) / (width as int) + 1) as nat
    }
}

/// Whether the conversion of a `T` into a sixteen-bit value is specified.
pub open spec fn converts<T: Into<u16>>() -> bool {
    <T as IntoSpec<u16>>::obeys_into_spec()
}

/// The sixteen-bit value that `value` converts into.
pub open spec fn bits_of<T: Into<u16>>(value: T) -> u16 {
    <T as IntoSpec<u16>>::into_spec(value)
}

/// The masks of the sixteen word widths.
pub proof fn lemma_mask_values()
    by (bit_vector)
    ensures
        mask_of(0) == 0,
        mask_of(1) == 0x1,
        mask_of(2) == 0x3,
        mask_of(3) == 0x7,
        mask_of(4) == 0xF,
        mask_of(5) == 0x1F,
        mask_of(6) == 0x3F,
        mask_of(7) == 0x7F,
        mask_of(8) == 0xFF,
        mask_of(9) == 0x1FF,
        mask_of(10) == 0x3FF,
        mask_of(11) == 0x7FF,
        mask_of(12) == 0xFFF,
        mask_of(13) == 0x1FFF,
        mask_of(14) == 0x3FFF,
        mask_of(15) == 0x7FFF,
        mask_of(16) == 0xFFFF,
{
}

/// The weight of each bit of the container.
pub proof fn lemma_bit_values()
    by (bit_vector)
    ensures
        1u16 << 0u8 == 0x1,
        1u16 << 1u8 == 0x2,
        1u16 << 2u8 == 0x4,
        1u16 << 3u8 == 0x8,
        1u16 << 4u8 == 0x10,
        1u16 << 5u8 == 0x20,
        1u16 << 6u8 == 0x40,
        1u16 << 7u8 == 0x80,
        1u16 << 8u8 == 0x100,
        1u16 << 9u8 == 0x200,
        1u16 << 10u8 == 0x400,
        1u16 << 11u8 == 0x800,
        1u16 << 12u8 == 0x1000,
        1u16 << 13u8 == 0x2000,
        1u16 << 14u8 == 0x4000,
        1u16 << 15u8 == 0x8000,
{
}

/// A value fits in `bits` bits exactly when masking leaves it alone, and
/// masking always produces a value that fits.
pub proof fn lemma_mask_fits(value: u16, bits: u8)
    by (bit_vector)
    ensures
        value & mask_of(bits) <= mask_of(bits),
        value <= mask_of(bits) <==> value & mask_of(bits) == value,
        value <= mask_of(bits) <==> value & !mask_of(bits) == 0,
        value & mask_of(16) == value,
        bits < 16 ==> (1u16 << bits) >= 1,
{
}

/// Bitwise operations on values that fit in `bits` bits give values that fit.
pub proof fn lemma_ops_fit(a: u16, b: u16, shift: usize, bits: u8)
    by (bit_vector)
    ensures
        a <= mask_of(bits) ==> a & b <= mask_of(bits),
        a <= mask_of(bits) ==> (a & b) & mask_of(bits) == a & b,
        a <= mask_of(bits) ==> a >> shift <= mask_of(bits),
        a <= mask_of(bits) ==> (a >> shift) & mask_of(bits) == a >> shift,
        a <= mask_of(bits) && b <= mask_of(bits) ==> a | b <= mask_of(bits),
        a <= mask_of(bits) && b <= mask_of(bits) ==> (a | b) & mask_of(bits) == a | b,
{
}

/// Forcing a bit below the width of a value that fits gives a value that fits.
pub proof fn lemma_with_bit_fits(value: u16, index: u8, bits: u8)
    by (bit_vector)
    requires
        value <= mask_of(bits),
        index < bits,
        index < 16,
    ensures
        value | (1u16 << index) <= mask_of(bits),
        value & !(1u16 << index) <= mask_of(bits),
{
}

/// Narrowing to `narrow` bits after widening to `wide` bits gives back a value
/// that fits in `narrow` bits, and widening alone does not change it.
pub proof fn lemma_widen_then_narrow(value: u16, narrow: u8, wide: u8)
    by (bit_vector)
    requires
        narrow <= wide,
        value <= mask_of(narrow),
    ensures
        value & mask_of(wide) == value,
        (value & mask_of(wide)) & mask_of(narrow) == value,
{
}

/// Containers that agree on their `n` lowest bits have as many ones there.
pub proof fn lemma_ones_below_agree(a: u16, b: u16, n: nat)
    requires
        n <= 16,
        forall|i: u8| i < n ==> bit_of(a, i) == bit_of(b, i),
    ensures
        ones_below(a, n) == ones_below(b, n),
    decreases n,
{
    if n > 0 {
        lemma_ones_below_agree(a, b, (n - 1) as nat);
        assert(bit_of(a, (n - 1) as u8) == bit_of(b, (n - 1) as u8));
    }
}

/// No more than `n` of the `n` lowest bits are set.
pub proof fn lemma_ones_below_bound(value: u16, n: nat)
    ensures
        ones_below(value, n) <= n,
    decreases n,
{
    if n > 0 {
        lemma_ones_below_bound(value, (n - 1) as nat);
    }
}

/// A word of `N` bits in a sixteen-bit container.
#[derive(Copy, Clone, Debug, Eq, PartialOrd, Ord)]
pub struct Word<const N: u8> {
    inner: u16,
}

impl<const N: u8> View for Word<N> {
    type V = u16;

    closed spec fn view(&self) -> u16 {
        self.inner
    }
}

impl<const N: u8> Word<N> {
    #[verifier::type_invariant]
    spec fn fits(self) -> bool {
        self.inner <= mask_of(N)
    }

    /// The word that holds the `N` lowest bits of `value`.
    pub closed spec fn of(value: u16) -> Self {
        Word { inner: value & mask_of(N) }
    }

    /// What `of` holds.
    pub broadcast proof fn lemma_of(value: u16)
        ensures
            #[trigger] Self::of(value)@ == value & mask_of(N),
    {
    }

    /// Two words of one width are the same word when they hold the same value.
    pub proof fn lemma_same_value(self, other: Self)
        ensures
            (self@ == other@) == (self == other),
    {
    }

    /// The width of the word.
    pub fn num_bits() -> (bits: u8)
        ensures
            bits == N,
        no_unwind
    {
        N
    }

    /// The container with every bit of the width set.
    pub fn mask() -> (m: u16)
        ensures
            m == mask_of(N),
        no_unwind
    {
        let bits: u8 = N;
        if bits >= 16 {
            0xFFFF
        } else {
            proof {
                lemma_mask_fits(0, bits);
            }
            (1u16 << bits) - 1
        }
    }

    /// The word with no bit set.
    pub fn zero() -> (w: Self)
        ensures
            w@ == 0,
        no_unwind
    {
        Word { inner: 0 }
    }

    /// The word with every bit set.
    pub fn full() -> (w: Self)
        ensures
            w@ == mask_of(N),
        no_unwind
    {
        Word { inner: Self::mask() }
    }

    /// The value held. No bit above the width is ever set in it.
    pub fn as_u16(self) -> (value: u16)
        ensures
            value == self@,
            value <= mask_of(N),
            value & !mask_of(N) == 0,
        no_unwind
    {
        proof {
            use_type_invariant(&self);
            lemma_mask_fits(self.inner, N);
        }
        self.inner
    }

    /// The number of bits that are set.
    pub fn count_ones(&self) -> (count: u8)
        ensures
            count == ones(self@),
        no_unwind
    {
        let value = self.inner;
        let mut count: u8 = 0;
        let mut index: u8 = 0;
        while index < 16
            invariant
                index <= 16,
                count <= index,
                count == ones_below(value, index as nat),
            decreases 16 - index,
        {
            if value & (1u16 << index) != 0 {
                count += 1;
            }
            index += 1;
        }
        count
    }

    /// The zero bits of the whole container, those above the width included.
    pub fn count_zeros(&self) -> (count: u8)
        ensures
            count == 16 - ones(self@),
        no_unwind
    {
        proof {
            lemma_ones_below_bound(self@, 16);
        }
        16 - self.count_ones()
    }

    /// Whether bit `index` is set.
    pub fn get(&self, index: u8) -> (bit: bool)
        requires
            index < N,
            index < 16,
        ensures
            bit == bit_of(self@, index),
        no_unwind
    {
        self.inner & (1u16 << index) != 0
    }

    /// Forces bit `index` to `value` and returns what the bit was.
    pub fn set(&mut self, index: u8, value: bool) -> (previous: bool)
        requires
            index < N,
            index < 16,
        ensures
            previous == bit_of(old(self)@, index),
            final(self)@ == with_bit(old(self)@, index, value),
        no_unwind
    {
        proof {
            use_type_invariant(&*self);
            lemma_with_bit_fits(self.inner, index, N);
        }
        let mask: u16 = 1u16 << index;
        let previous: u16 = self.inner & mask;
        let inner: u16 = if value {
            self.inner | mask
        } else {
            self.inner & !mask
        };
        *self = Word { inner };
        previous != 0
    }

    /// Converts from a word of another width: widening extends with zeros,
    /// narrowing drops the bits above the new width.
    pub fn from_word<const M: u8>(word: Word<M>) -> (w: Self)
        ensures
            w@ == word@ & mask_of(N),
            word@ <= mask_of(M),
            word@ <= mask_of(N) ==> w@ == word@,
            M <= N ==> w@ == word@,
        no_unwind
    {
        let value = word.as_u16();
        let mask = Self::mask();
        proof {
            lemma_mask_fits(value, N);
            if M <= N {
                lemma_widen_then_narrow(value, M, N);
            }
        }
        Word { inner: value & mask }
    }

    /// The value in binary, one digit for each bit of the width.
    pub fn to_binary(&self) -> (text: String)
        ensures
            text@ == digits_of(self@, 1, digit_count(N, 1), false),
    {
        write_digits(self.inner, 1, digit_count_of(N, 1), false)
    }

    /// The value in octal, padded with zeros to the width.
    pub fn to_octal(&self) -> (text: String)
        ensures
            text@ == digits_of(self@, 3, digit_count(N, 3), false),
    {
        write_digits(self.inner, 3, digit_count_of(N, 3), false)
    }

    /// The value in hexadecimal with small letters, padded with zeros to the
    /// width.
    pub fn to_lower_hex(&self) -> (text: String)
        ensures
            text@ == digits_of(self@, 4, digit_count(N, 4), false),
    {
        write_digits(self.inner, 4, digit_count_of(N, 4), false)
    }

    /// The value in hexadecimal with capital letters, padded with zeros to the
    /// width.
    pub fn to_upper_hex(&self) -> (text: String)
        ensures
            text@ == digits_of(self@, 4, digit_count(N, 4), true),
    {
        write_digits(self.inner, 4, digit_count_of(N, 4), true)
    }

    /// How a word is displayed: in octal.
    pub fn to_string(&self) -> (text: String)
        ensures
            text@ == digits_of(self@, 3, digit_count(N, 3), false),
    {
        self.to_octal()
    }
}

fn digit_count_of(bits: u8, width: u8) -> (count: u8)
    requires
        1 <= width <= 4,
    ensures
        count == digit_count(bits, width),
        1 <= count,
        width * (count - 1) <= 254,
{
    if bits == 0 {
        1
    } else {
        assert(width * ((bits - 1) / (width as int)) <= bits - 1) by (nonlinear_arith)
            requires
                1 <= width,
                1 <= bits,
        ;
        (bits - 1) / width + 1
    }
}

fn digit_text(digit: u16, upper: bool) -> (text: &'static str)
    requires
        digit < 16,
    ensures
        text@ == seq![digit_char(digit, upper)],
{
    proof {
        reveal_strlit("0");
        reveal_strlit("1");
        reveal_strlit("2");
        reveal_strlit("3");
        reveal_strlit("4");
        reveal_strlit("5");
        reveal_strlit("6");
        reveal_strlit("7");
        reveal_strlit("8");
        reveal_strlit("9");
        reveal_strlit("a");
        reveal_strlit("b");
        reveal_strlit("c");
        reveal_strlit("d");
        reveal_strlit("e");
        reveal_strlit("f");
        reveal_strlit("A");
        reveal_strlit("B");
        reveal_strlit("C");
        reveal_strlit("D");
        reveal_strlit("E");
        reveal_strlit("F");
    }
    let text = if digit == 0 {
        "0"
    } else if digit == 1 {
        "1"
    } else if digit == 2 {
        "2"
    } else if digit == 3 {
        "3"
    } else if digit == 4 {
        "4"
    } else if digit == 5 {
        "5"
    } else if digit == 6 {
        "6"
    } else if digit == 7 {
        "7"
    } else if digit == 8 {
        "8"
    } else if digit == 9 {
        "9"
    } else if digit == 10 {
        if upper { "A" } else { "a" }
    } else if digit == 11 {
        if upper { "B" } else { "b" }
    } else if digit == 12 {
        if upper { "C" } else { "c" }
    } else if digit == 13 {
        if upper { "D" } else { "d" }
    } else if digit == 14 {
        if upper { "E" } else { "e" }
    } else {
        if upper { "F" } else { "f" }
    };
    assert(text@ =~= seq![digit_char(digit, upper)]);
    text
}

proof fn lemma_digit_bounds(value: u16, shift: u8, width: u8)
    by (bit_vector)
    requires
        1 <= width <= 4,
    ensures
        (value >> shift) & mask_of(width) < 16,
        shift >= 16 ==> value >> shift == 0,
        0u16 & mask_of(width) == 0,
        (1u16 << width) >= 1,
        ((1u16 << width) - 1) as u16 == mask_of(width),
{
}

/// Writes `value` most significant digit first, in `count` digits of `width`
/// bits each.
fn write_digits(value: u16, width: u8, count: u8, upper: bool) -> (text: String)
    requires
        1 <= width <= 4,
        width * (count - 1) <= 254,
    ensures
        text@ == digits_of(value, width, count as nat, upper),
{
    proof {
        lemma_digit_bounds(value, 0, width);
    }
    let mask: u16 = (1u16 << width) - 1;
    let mut text = String::new();
    let mut written: u8 = 0;
    while written < count
        invariant
            written <= count,
            1 <= width <= 4,
            width * (count - 1) <= 254,
            mask == mask_of(width),
            text@ == digits_of(value, width, count as nat, upper).subrange(0, written as int),
        decreases count - written,
    {
        let position: u8 = count - 1 - written;
        assert(width * position <= 254) by (nonlinear_arith)
            requires
                width * (count - 1) <= 254,
                position <= count - 1,
                0 <= position,
                1 <= width,
        ;
        let shift: u8 = width * position;
        proof {
            lemma_digit_bounds(value, shift, width);
        }
        let digit: u16 = if shift >= 16 {
            0
        } else {
            (value >> shift) & mask
        };
        assert(digit == digit_at(value, width, position as nat));
        text.append(digit_text(digit, upper));
        written += 1;
        assert(text@ =~= digits_of(value, width, count as nat, upper).subrange(
            0,
            written as int,
        ));
    }
    assert(text@ =~= digits_of(value, width, count as nat, upper));
    text
}

impl<const N: u8> PartialEq for Word<N> {
    fn eq(&self, other: &Self) -> (equal: bool)
        ensures
            equal == (self@ == other@),
    {
        self.inner == other.inner
    }
}

impl<const N: u8> PartialEqSpecImpl for Word<N> {
    open spec fn obeys_eq_spec() -> bool {
        true
    }

    open spec fn eq_spec(&self, other: &Self) -> bool {
        self@ == other@
    }
}

impl<const N: u8> From<u16> for Word<N> {
    /// Keeps the `N` lowest bits of `from`.
    fn from(from: u16) -> (w: Self)
        ensures
            w@ == from & mask_of(N),
            from <= mask_of(N) ==> w@ == from,
    {
        let mask = Self::mask();
        proof {
            lemma_mask_fits(from, N);
        }
        Word { inner: from & mask }
    }
}

impl<const N: u8> FromSpecImpl<u16> for Word<N> {
    open spec fn obeys_from_spec() -> bool {
        true
    }

    open spec fn from_spec(from: u16) -> Self {
        Self::of(from)
    }
}

impl<const N: u8> From<Word<N>> for u16 {
    /// The value that the word holds.
    fn from(from: Word<N>) -> (value: u16)
        ensures
            value == from@,
    {
        from.inner
    }
}

impl<const N: u8> FromSpecImpl<Word<N>> for u16 {
    open spec fn obeys_from_spec() -> bool {
        true
    }

    open spec fn from_spec(from: Word<N>) -> u16 {
        from@
    }
}

impl<const N: u8> Default for Word<N> {
    /// The word with no bit set.
    fn default() -> (w: Self)
        ensures
            w@ == 0,
    {
        Self::zero()
    }
}

impl<T: Into<u16>, const N: u8> core::ops::BitOr<T> for Word<N> {
    type Output = Self;

    /// The bitwise OR, cut to the width of the left operand.
    fn bitor(self, rhs: T) -> (w: Self)
        ensures
            converts::<T>() ==> w@ == (self@ | bits_of(rhs)) & mask_of(N),
    {
        let value: u16 = rhs.into();
        Self::from(self.inner | value)
    }
}

impl<T: Into<u16>, const N: u8> BitOrSpecImpl<T> for Word<N> {
    open spec fn obeys_bitor_spec() -> bool {
        converts::<T>()
    }

    open spec fn bitor_req(self, rhs: T) -> bool {
        true
    }

    open spec fn bitor_spec(self, rhs: T) -> Self {
        Self::of(self@ | bits_of(rhs))
    }
}

impl<T: Into<u16>, const N: u8> core::ops::BitAnd<T> for Word<N> {
    type Output = Self;

    /// The bitwise AND, cut to the width of the left operand.
    fn bitand(self, rhs: T) -> (w: Self)
        ensures
            converts::<T>() ==> w@ == (self@ & bits_of(rhs)) & mask_of(N),
    {
        let value: u16 = rhs.into();
        Self::from(self.inner & value)
    }
}

impl<T: Into<u16>, const N: u8> BitAndSpecImpl<T> for Word<N> {
    open spec fn obeys_bitand_spec() -> bool {
        converts::<T>()
    }

    open spec fn bitand_req(self, rhs: T) -> bool {
        true
    }

    open spec fn bitand_spec(self, rhs: T) -> Self {
        Self::of(self@ & bits_of(rhs))
    }
}

impl<T: Into<u16>, const N: u8> core::ops::BitOrAssign<T> for Word<N> {
    /// Replaces the word by its bitwise OR with `rhs`, cut to the width.
    fn bitor_assign(&mut self, rhs: T)
        ensures
            converts::<T>() ==> final(self)@ == (old(self)@ | bits_of(rhs)) & mask_of(N),
    {
        let value: u16 = rhs.into();
        let mask = Self::mask();
        proof {
            lemma_mask_fits(self.inner | value, N);
        }
        *self = Word { inner: (self.inner | value) & mask };
    }
}

impl<T: Into<u16>, const N: u8> core::ops::BitAndAssign<T> for Word<N> {
    /// Replaces the word by its bitwise AND with `rhs`.
    fn bitand_assign(&mut self, rhs: T)
        ensures
            converts::<T>() ==> final(self)@ == old(self)@ & bits_of(rhs),
    {
        let value: u16 = rhs.into();
        proof {
            use_type_invariant(&*self);
            lemma_ops_fit(self.inner, value, 0, N);
        }
        *self = Word { inner: self.inner & value };
    }
}

impl<const N: u8> core::ops::Not for Word<N> {
    type Output = Self;

    /// The complement of the bits within the width.
    fn not(self) -> (w: Self)
        ensures
            w@ == !self@ & mask_of(N),
    {
        Self::from(!self.inner)
    }
}

impl<const N: u8> NotSpecImpl for Word<N> {
    open spec fn obeys_not_spec() -> bool {
        true
    }

    open spec fn not_req(self) -> bool {
        true
    }

    open spec fn not_spec(self) -> Self {
        Self::of(!self@)
    }
}

impl<const N: u8> core::ops::Shl<usize> for Word<N> {
    type Output = Self;

    /// Shifts towards the high bits; what leaves the width is lost.
    fn shl(self, rhs: usize) -> (w: Self)
        ensures
            w@ == (self@ << rhs) & mask_of(N),
    {
        Self::from(self.inner << rhs)
    }
}

impl<const N: u8> ShlSpecImpl<usize> for Word<N> {
    open spec fn obeys_shl_spec() -> bool {
        true
    }

    open spec fn shl_req(self, rhs: usize) -> bool {
        rhs < 16
    }

    open spec fn shl_spec(self, rhs: usize) -> Self {
        Self::of(self@ << rhs)
    }
}

impl<const N: u8> core::ops::Shr<usize> for Word<N> {
    type Output = Self;

    /// Shifts towards the low bits.
    fn shr(self, rhs: usize) -> (w: Self)
        ensures
            w@ == (self@ >> rhs) & mask_of(N),
    {
        Self::from(self.inner >> rhs)
    }
}

impl<const N: u8> ShrSpecImpl<usize> for Word<N> {
    open spec fn obeys_shr_spec() -> bool {
        true
    }

    open spec fn shr_req(self, rhs: usize) -> bool {
        rhs < 16
    }

    open spec fn shr_spec(self, rhs: usize) -> Self {
        Self::of(self@ >> rhs)
    }
}

pub type W1 = Word<1>;

pub type W2 = Word<2>;

pub type W3 = Word<3>;

pub type W4 = Word<4>;

pub type W5 = Word<5>;

pub type W6 = Word<6>;

pub type W7 = Word<7>;

pub type W8 = Word<8>;

pub type W9 = Word<9>;

pub type W10 = Word<10>;

pub type W11 = Word<11>;

pub type W12 = Word<12>;

pub type W13 = Word<13>;

pub type W14 = Word<14>;

pub type W15 = Word<15>;

pub type W16 = Word<16>;

} // verus!
