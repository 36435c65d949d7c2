//! Erasable and fixed storage, and the parity-tagged words they hold.
//!
//! A memory word is modelled by its sixteen-bit container: the fifteen low
//! bits are the value, bit fifteen is the parity bit. A bank is modelled by
//! the sequence of its containers, a storage by the sequence of its banks.

use crate::word::{
    bit_of, digits_of, lemma_mask_fits, lemma_mask_values, lemma_ones_below_agree, ones,
    ones_below, with_bit, W10, W15, W16, W3, W6, W8,
};
use vstd::prelude::*;
use vstd::std_specs::cmp::PartialEqSpecImpl;
use vstd::string::StringExecFns;

verus! {

/// Size of each erasable memory bank (in words)
pub const ERASABLE_BANK_SIZE: usize = 256;

/// Number of erasable memory banks
pub const ERASABLE_NUM_BANKS: usize = 8;

/// Size of each fixed memory bank (in words)
pub const FIXED_BANK_SIZE: usize = 1024;

/// Number of fixed memory banks
pub const FIXED_NUM_BANKS: usize = 36;

/// Length in bytes of a fixed-memory image.
pub const IMAGE_SIZE: usize = 73728;

/// The container that holds `value` with the parity bit `parity`.
pub open spec fn tagged(value: u16, parity: bool) -> u16 {
    if parity {
        value | 0x8000
    } else {
        value
    }
}

/// The container that holds `value` with the parity bit that makes the number
/// of ones odd.
pub open spec fn proper_parity(value: u16) -> u16 {
    tagged(value, ones(value) % 2 == 0)
}

/// The container that holds `value` with the parity bit that makes the number
/// of ones even.
pub open spec fn wrong_parity(value: u16) -> u16 {
    tagged(value, ones(value) % 2 != 0)
}

/// What a register receives from a container: the fifteen-bit value with its
/// top bit repeated in bit fifteen.
pub open spec fn register_value(container: u16) -> u16 {
    with_bit(container & 0x7FFF, 15, bit_of(container & 0x7FFF, 14))
}

/// The container of a cell that was never written.
pub open spec fn blank() -> u16 {
    proper_parity(0)
}

/// A bank of `size` cells, none of them written.
pub open spec fn blank_bank(size: nat) -> Seq<u16> {
    Seq::new(size, |i: int| blank())
}

/// A storage of `banks` banks of `size` cells, none of them written.
pub open spec fn blank_storage(banks: nat, size: nat) -> Seq<Seq<u16>> {
    Seq::new(banks, |b: int| blank_bank(size))
}

/// Whether `storage` has `banks` banks of `size` cells each.
pub open spec fn shaped(storage: Seq<Seq<u16>>, banks: nat, size: nat) -> bool {
    &&& storage.len() == banks
    &&& forall|b: int| 0 <= b < banks ==> (#[trigger] storage[b]).len() == size
}

/// `storage` after `container` was written to cell `offset` of bank `bank`.
pub open spec fn stored(storage: Seq<Seq<u16>>, bank: int, offset: int, container: u16) -> Seq<
    Seq<u16>,
> {
    storage.update(bank, storage[bank].update(offset, container))
}

proof fn lemma_parity_bit(value: u16)
    by (bit_vector)
    requires
        value <= 0x7FFF,
    ensures
        forall|i: u8| i < 15 ==> bit_of(value | 0x8000, i) == bit_of(value, i),
        bit_of(value | 0x8000, 15),
        !bit_of(value, 15),
        (value | 0x8000) & 0x7FFF == value,
        value & 0x7FFF == value,
        value | (1u16 << 15u8) == value | 0x8000,
{
}

/// Setting the parity bit of a fifteen-bit value adds one to its number of
/// ones.
pub proof fn lemma_ones_tagged(value: u16)
    requires
        value <= 0x7FFF,
    ensures
        ones(value | 0x8000) == ones(value) + 1,
{
    lemma_parity_bit(value);
    lemma_ones_below_agree(value | 0x8000, value, 15);
    assert(ones_below(value | 0x8000, 16) == ones_below(value | 0x8000, 15) + 1);
    assert(ones_below(value, 16) == ones_below(value, 15));
}

/// A word with proper parity has an odd number of ones in its container, one
/// with wrong parity an even number.
pub proof fn lemma_parity(value: u16)
    requires
        value <= 0x7FFF,
    ensures
        ones(proper_parity(value)) % 2 == 1,
        ones(wrong_parity(value)) % 2 == 0,
        proper_parity(value) & 0x7FFF == value,
        wrong_parity(value) & 0x7FFF == value,
{
    lemma_ones_tagged(value);
    lemma_parity_bit(value);
}

/// A cell that was written holds what was written, and every other cell holds
/// what it held.
pub proof fn lemma_stored(
    storage: Seq<Seq<u16>>,
    bank: int,
    offset: int,
    container: u16,
    other_bank: int,
    other_offset: int,
)
    requires
        0 <= bank < storage.len(),
        0 <= offset < storage[bank].len(),
        0 <= other_bank < storage.len(),
        0 <= other_offset < storage[other_bank].len(),
    ensures
        stored(storage, bank, offset, container)[bank][offset] == container,
        other_bank != bank || other_offset != offset ==> stored(
            storage,
            bank,
            offset,
            container,
        )[other_bank][other_offset] == storage[other_bank][other_offset],
        stored(storage, bank, offset, container).len() == storage.len(),
        stored(storage, bank, offset, container)[other_bank].len() == storage[other_bank].len(),
{
}

/// A fifteen-bit value with its parity bit.
#[derive(Copy, Clone, Debug, Eq, PartialOrd, Ord)]
pub struct MemoryWord {
    inner: W16,
}

impl View for MemoryWord {
    type V = u16;

    closed spec fn view(&self) -> u16 {
        self.inner@
    }
}

impl PartialEq for MemoryWord {
    fn eq(&self, other: &Self) -> (equal: bool)
        ensures
            equal == (self@ == other@),
    {
        self.inner.as_u16() == other.inner.as_u16()
    }
}

impl PartialEqSpecImpl for MemoryWord {
    open spec fn obeys_eq_spec() -> bool {
        true
    }

    open spec fn eq_spec(&self, other: &Self) -> bool {
        self@ == other@
    }
}

impl MemoryWord {
    /// Two memory words are the same word when their containers are equal.
    pub proof fn lemma_same_container(self, other: Self)
        ensures
            (self@ == other@) == (self == other),
    {
        self.inner.lemma_same_value(other.inner);
    }

    /// The memory word that holds `word` with the parity bit `parity`.
    pub fn new(word: W15, parity: bool) -> (memory_word: Self)
        ensures
            memory_word@ == tagged(word@, parity),
            memory_word@ & 0x7FFF == word@,
        no_unwind
    {
        let mut inner = W16::from_word(word);
        proof {
            lemma_mask_values();
            lemma_parity_bit(word@);
        }
        if parity {
            inner.set(15, true);
        }
        Self { inner }
    }

    /// The memory word whose container has an odd number of ones.
    pub fn with_proper_parity(word: W15) -> (memory_word: Self)
        ensures
            memory_word@ == proper_parity(word@),
            ones(memory_word@) % 2 == 1,
            memory_word@ & 0x7FFF == word@,
        no_unwind
    {
        let memory_word = Self::new(word, word.count_ones() % 2 == 0);
        proof {
            lemma_mask_values();
            lemma_mask_fits(memory_word@, 15);
            lemma_parity(word@);
        }
        memory_word
    }

    /// The memory word whose container has an even number of ones.
    pub fn with_wrong_parity(word: W15) -> (memory_word: Self)
        ensures
            memory_word@ == wrong_parity(word@),
            ones(memory_word@) % 2 == 0,
            memory_word@ & 0x7FFF == word@,
        no_unwind
    {
        let memory_word = Self::new(word, word.count_ones() % 2 != 0);
        proof {
            lemma_mask_values();
            lemma_mask_fits(memory_word@, 15);
            lemma_parity(word@);
        }
        memory_word
    }

    /// The fifteen-bit value.
    pub fn value(&self) -> (word: W15)
        ensures
            word@ == self@ & 0x7FFF,
        no_unwind
    {
        proof {
            lemma_mask_values();
        }
        W15::from_word(self.inner)
    }

    /// The parity bit.
    pub fn parity(&self) -> (parity: bool)
        ensures
            parity == bit_of(self@, 15),
        no_unwind
    {
        self.inner.get(15)
    }

    /// Whether the container has an odd number of ones.
    pub fn is_valid(&self) -> (valid: bool)
        ensures
            valid == (ones(self@) % 2 == 1),
        no_unwind
    {
        self.inner.count_ones() % 2 != 0
    }

    /// The value as a register holds it: bit fourteen is repeated in bit
    /// fifteen.
    pub fn as_register_value(&self) -> (register: W16)
        ensures
            register@ == register_value(self@),
        no_unwind
    {
        let mut result = W16::from_word(self.value());
        let sign = result.get(14);
        result.set(15, sign);
        result
    }

    /// The parity bit, `|` for a valid word or `!` for an invalid one, and the
    /// value in octal.
    pub fn to_string(&self) -> (text: String)
        ensures
            text@ == seq![
                if bit_of(self@, 15) { '1' } else { '0' },
                if ones(self@) % 2 == 1 { '|' } else { '!' },
            ] + digits_of(self@ & 0x7FFF, 3, 5, false),
    {
        proof {
            reveal_strlit("0");
            reveal_strlit("1");
            reveal_strlit("|");
            reveal_strlit("!");
        }
        let mut text = String::new();
        text.append(if self.parity() { "1" } else { "0" });
        text.append(if self.is_valid() { "|" } else { "!" });
        let digits = self.value().to_string();
        text.append(digits.as_str());
        assert(text@ =~= seq![
            if bit_of(self@, 15) { '1' } else { '0' },
            if ones(self@) % 2 == 1 { '|' } else { '!' },
        ] + digits_of(self@ & 0x7FFF, 3, 5, false));
        text
    }
}

/// One bank of erasable memory: always 256 cells, which is what the last
/// clause of the contracts of `read` and `write` says.
pub struct ErasableStorageBank {
    inner: Vec<MemoryWord>,
}

impl View for ErasableStorageBank {
    type V = Seq<u16>;

    closed spec fn view(&self) -> Seq<u16> {
        Seq::new(self.inner@.len(), |i: int| self.inner@[i]@)
    }
}

impl ErasableStorageBank {
    #[verifier::type_invariant]
    spec fn sized(self) -> bool {
        self.inner@.len() == ERASABLE_BANK_SIZE
    }

    /// A bank of which no cell was written.
    pub fn new() -> (bank: Self)
        ensures
            bank@ == blank_bank(ERASABLE_BANK_SIZE as nat),
    {
        let blank_word = MemoryWord::with_proper_parity(W15::zero());
        let mut inner: Vec<MemoryWord> = Vec::new();
        while inner.len() < ERASABLE_BANK_SIZE
            invariant
                inner@.len() <= ERASABLE_BANK_SIZE,
                blank_word@ == blank(),
                forall|i: int| 0 <= i < inner@.len() ==> (#[trigger] inner@[i])@ == blank(),
            decreases ERASABLE_BANK_SIZE - inner@.len(),
        {
            inner.push(blank_word);
        }
        let bank = Self { inner };
        assert(bank@ =~= blank_bank(ERASABLE_BANK_SIZE as nat));
        bank
    }

    /// The memory word in cell `index`.
    pub fn read(&self, index: W8) -> (memory_word: MemoryWord)
        ensures
            memory_word@ == self@[index@ as int],
            self@.len() == ERASABLE_BANK_SIZE,
        no_unwind
    {
        proof {
            use_type_invariant(self);
            lemma_mask_values();
        }
        self.inner[index.as_u16() as usize]
    }

    /// Puts `value` in cell `index`; every other cell stays as it is.
    pub fn write(&mut self, index: W8, value: MemoryWord)
        ensures
            final(self)@ == old(self)@.update(index@ as int, value@),
            final(self)@[index@ as int] == value@,
            old(self)@.len() == ERASABLE_BANK_SIZE,
        no_unwind
    {
        proof {
            use_type_invariant(&*self);
            lemma_mask_values();
        }
        let cell = index.as_u16() as usize;
        self.inner[cell] = value;
        assert(self@ =~= old(self)@.update(index@ as int, value@));
    }
}

impl core::ops::Index<W8> for ErasableStorageBank {
    type Output = MemoryWord;

    fn index(&self, index: W8) -> (memory_word: &MemoryWord)
        ensures
            memory_word@ == self@[index@ as int],
    {
        proof {
            use_type_invariant(self);
            lemma_mask_values();
        }
        &self.inner[index.as_u16() as usize]
    }
}

impl core::ops::IndexMut<W8> for ErasableStorageBank {
    fn index_mut(&mut self, index: W8) -> (memory_word: &mut MemoryWord)
        ensures
            memory_word@ == old(self)@[index@ as int],
            final(self)@ == old(self)@.update(index@ as int, final(memory_word)@),
    {
        proof {
            use_type_invariant(&*self);
            lemma_mask_values();
        }
        let cell = index.as_u16() as usize;
        let memory_word = &mut self.inner[cell];
        memory_word
    }
}

/// Erasable storage is made of 8 banks of 256 words of read-write memory.
/// The last clauses of the contracts of `read` and `write` say so of the bank
/// that is read or written.
pub struct ErasableStorage {
    banks: Vec<ErasableStorageBank>,
}

impl View for ErasableStorage {
    type V = Seq<Seq<u16>>;

    closed spec fn view(&self) -> Seq<Seq<u16>> {
        Seq::new(self.banks@.len(), |b: int| self.banks@[b]@)
    }
}

impl ErasableStorage {
    #[verifier::type_invariant]
    spec fn sized(self) -> bool {
        self.banks@.len() == ERASABLE_NUM_BANKS
    }

    /// A storage of which no cell was written.
    pub fn new() -> (storage: Self)
        ensures
            storage@ == blank_storage(ERASABLE_NUM_BANKS as nat, ERASABLE_BANK_SIZE as nat),
    {
        let mut banks: Vec<ErasableStorageBank> = Vec::new();
        while banks.len() < ERASABLE_NUM_BANKS
            invariant
                banks@.len() <= ERASABLE_NUM_BANKS,
                forall|b: int|
                    0 <= b < banks@.len() ==> (#[trigger] banks@[b])@ == blank_bank(
                        ERASABLE_BANK_SIZE as nat,
                    ),
            decreases ERASABLE_NUM_BANKS - banks@.len(),
        {
            banks.push(ErasableStorageBank::new());
        }
        let storage = Self { banks };
        assert(storage@ =~= blank_storage(ERASABLE_NUM_BANKS as nat, ERASABLE_BANK_SIZE as nat));
        storage
    }

    /// The memory word in cell `address` of bank `bank`.
    pub fn read(&self, bank: W3, address: W8) -> (memory_word: MemoryWord)
        ensures
            memory_word@ == self@[bank@ as int][address@ as int],
            self@.len() == ERASABLE_NUM_BANKS,
            self@[bank@ as int].len() == ERASABLE_BANK_SIZE,
        no_unwind
    {
        proof {
            use_type_invariant(self);
            lemma_mask_values();
        }
        self.banks[bank.as_u16() as usize].read(address)
    }

    /// Puts `value` in cell `address` of bank `bank`; every other cell stays as
    /// it is.
    pub fn write(&mut self, bank: W3, address: W8, value: MemoryWord)
        ensures
            final(self)@ == stored(old(self)@, bank@ as int, address@ as int, value@),
            final(self)@[bank@ as int][address@ as int] == value@,
            old(self)@.len() == ERASABLE_NUM_BANKS,
            old(self)@[bank@ as int].len() == ERASABLE_BANK_SIZE,
        no_unwind
    {
        proof {
            use_type_invariant(&*self);
            lemma_mask_values();
        }
        let selected = bank.as_u16() as usize;
        self.banks[selected].write(address, value);
        assert(self@ =~= stored(old(self)@, bank@ as int, address@ as int, value@));
    }
}

impl core::ops::Index<W3> for ErasableStorage {
    type Output = ErasableStorageBank;

    fn index(&self, index: W3) -> (bank: &ErasableStorageBank)
        ensures
            bank@ == self@[index@ as int],
    {
        proof {
            use_type_invariant(self);
            lemma_mask_values();
        }
        &self.banks[index.as_u16() as usize]
    }
}

impl core::ops::IndexMut<W3> for ErasableStorage {
    fn index_mut(&mut self, index: W3) -> (bank: &mut ErasableStorageBank)
        ensures
            bank@ == old(self)@[index@ as int],
            final(self)@ == old(self)@.update(index@ as int, final(bank)@),
    {
        proof {
            use_type_invariant(&*self);
            lemma_mask_values();
        }
        let selected = index.as_u16() as usize;
        let bank = &mut self.banks[selected];
        bank
    }
}

/// One bank of fixed memory: always 1024 cells, which is what the last
/// clause of the contracts of `read` and `write` says.
pub struct FixedStorageBank {
    inner: Vec<MemoryWord>,
}

impl View for FixedStorageBank {
    type V = Seq<u16>;

    closed spec fn view(&self) -> Seq<u16> {
        Seq::new(self.inner@.len(), |i: int| self.inner@[i]@)
    }
}

impl FixedStorageBank {
    #[verifier::type_invariant]
    spec fn sized(self) -> bool {
        self.inner@.len() == FIXED_BANK_SIZE
    }

    /// A bank of which no cell was written.
    pub fn new() -> (bank: Self)
        ensures
            bank@ == blank_bank(FIXED_BANK_SIZE as nat),
    {
        let blank_word = MemoryWord::with_proper_parity(W15::zero());
        let mut inner: Vec<MemoryWord> = Vec::new();
        while inner.len() < FIXED_BANK_SIZE
            invariant
                inner@.len() <= FIXED_BANK_SIZE,
                blank_word@ == blank(),
                forall|i: int| 0 <= i < inner@.len() ==> (#[trigger] inner@[i])@ == blank(),
            decreases FIXED_BANK_SIZE - inner@.len(),
        {
            inner.push(blank_word);
        }
        let bank = Self { inner };
        assert(bank@ =~= blank_bank(FIXED_BANK_SIZE as nat));
        bank
    }

    /// The memory word in cell `index`.
    pub fn read(&self, index: W10) -> (memory_word: MemoryWord)
        ensures
            memory_word@ == self@[index@ as int],
            self@.len() == FIXED_BANK_SIZE,
        no_unwind
    {
        proof {
            use_type_invariant(self);
            lemma_mask_values();
        }
        self.inner[index.as_u16() as usize]
    }

    /// Puts `value` in cell `index`; every other cell stays as it is.
    pub fn write(&mut self, index: W10, value: MemoryWord)
        ensures
            final(self)@ == old(self)@.update(index@ as int, value@),
            final(self)@[index@ as int] == value@,
            old(self)@.len() == FIXED_BANK_SIZE,
        no_unwind
    {
        proof {
            use_type_invariant(&*self);
            lemma_mask_values();
        }
        let cell = index.as_u16() as usize;
        self.inner[cell] = value;
        assert(self@ =~= old(self)@.update(index@ as int, value@));
    }
}

impl core::ops::Index<W10> for FixedStorageBank {
    type Output = MemoryWord;

    fn index(&self, index: W10) -> (memory_word: &MemoryWord)
        ensures
            memory_word@ == self@[index@ as int],
    {
        proof {
            use_type_invariant(self);
            lemma_mask_values();
        }
        &self.inner[index.as_u16() as usize]
    }
}

impl core::ops::IndexMut<W10> for FixedStorageBank {
    fn index_mut(&mut self, index: W10) -> (memory_word: &mut MemoryWord)
        ensures
            memory_word@ == old(self)@[index@ as int],
            final(self)@ == old(self)@.update(index@ as int, final(memory_word)@),
    {
        proof {
            use_type_invariant(&*self);
            lemma_mask_values();
        }
        let cell = index.as_u16() as usize;
        let memory_word = &mut self.inner[cell];
        memory_word
    }
}

/// Fixed storage is made of 36 banks of 1024 words of read-only memory.
/// The last clauses of the contracts of `read` and `write` say so of the bank
/// that is read or written.
pub struct FixedStorage {
    banks: Vec<FixedStorageBank>,
}

impl View for FixedStorage {
    type V = Seq<Seq<u16>>;

    closed spec fn view(&self) -> Seq<Seq<u16>> {
        Seq::new(self.banks@.len(), |b: int| self.banks@[b]@)
    }
}

impl FixedStorage {
    #[verifier::type_invariant]
    spec fn sized(self) -> bool {
        self.banks@.len() == FIXED_NUM_BANKS
    }

    /// A storage of which no cell was written.
    pub fn new() -> (storage: Self)
        ensures
            storage@ == blank_storage(FIXED_NUM_BANKS as nat, FIXED_BANK_SIZE as nat),
    {
        let mut banks: Vec<FixedStorageBank> = Vec::new();
        while banks.len() < FIXED_NUM_BANKS
            invariant
                banks@.len() <= FIXED_NUM_BANKS,
                forall|b: int|
                    0 <= b < banks@.len() ==> (#[trigger] banks@[b])@ == blank_bank(
                        FIXED_BANK_SIZE as nat,
                    ),
            decreases FIXED_NUM_BANKS - banks@.len(),
        {
            banks.push(FixedStorageBank::new());
        }
        let storage = Self { banks };
        assert(storage@ =~= blank_storage(FIXED_NUM_BANKS as nat, FIXED_BANK_SIZE as nat));
        storage
    }

    /// The memory word in cell `address` of bank `bank`, which is one of the 36
    /// banks.
    pub fn read(&self, bank: W6, address: W10) -> (memory_word: MemoryWord)
        requires
            bank@ < FIXED_NUM_BANKS,
        ensures
            memory_word@ == self@[bank@ as int][address@ as int],
            self@.len() == FIXED_NUM_BANKS,
            self@[bank@ as int].len() == FIXED_BANK_SIZE,
        no_unwind
    {
        proof {
            use_type_invariant(self);
            lemma_mask_values();
        }
        self.banks[bank.as_u16() as usize].read(address)
    }

    /// Puts `value` in cell `address` of bank `bank`, which is one of the 36
    /// banks; every other cell stays as it is.
    pub fn write(&mut self, bank: W6, address: W10, value: MemoryWord)
        requires
            bank@ < FIXED_NUM_BANKS,
        ensures
            final(self)@ == stored(old(self)@, bank@ as int, address@ as int, value@),
            final(self)@[bank@ as int][address@ as int] == value@,
            old(self)@.len() == FIXED_NUM_BANKS,
            old(self)@[bank@ as int].len() == FIXED_BANK_SIZE,
        no_unwind
    {
        proof {
            use_type_invariant(&*self);
            lemma_mask_values();
        }
        let selected = bank.as_u16() as usize;
        self.banks[selected].write(address, value);
        assert(self@ =~= stored(old(self)@, bank@ as int, address@ as int, value@));
    }
}

impl vstd::std_specs::core::IndexSpecImpl<W6> for FixedStorage {
    open spec fn index_req(&self, index: &W6) -> bool {
        index@ < FIXED_NUM_BANKS
    }
}

impl core::ops::Index<W6> for FixedStorage {
    type Output = FixedStorageBank;

    fn index(&self, index: W6) -> (bank: &FixedStorageBank)
        ensures
            bank@ == self@[index@ as int],
    {
        proof {
            use_type_invariant(self);
            lemma_mask_values();
        }
        &self.banks[index.as_u16() as usize]
    }
}

impl core::ops::IndexMut<W6> for FixedStorage {
    fn index_mut(&mut self, index: W6) -> (bank: &mut FixedStorageBank)
        requires
            index@ < FIXED_NUM_BANKS,
        ensures
            bank@ == old(self)@[index@ as int],
            final(self)@ == old(self)@.update(index@ as int, final(bank)@),
    {
        proof {
            use_type_invariant(&*self);
            lemma_mask_values();
        }
        let selected = index.as_u16() as usize;
        let bank = &mut self.banks[selected];
        bank
    }
}

/// Why a fixed-memory image was not loaded.
#[derive(Copy, Clone, Debug, PartialEq, Eq, Structural)]
pub enum LoaderError {
    /// The image does not have the length of 36 banks of 1024 words.
    InvalidSize,
}

impl LoaderError {
    /// What went wrong, in words.
    pub fn message(&self) -> (text: &'static str)
        ensures
            text@ == "invalid yaYUL file size"@,
    {
        "invalid yaYUL file size"
    }
}

/// The bank of the image that holds bank `bank` of the storage, which is
/// also the bank of the storage that bank `bank` of the image goes to.
pub open spec fn image_bank(bank: int) -> int {
    if bank == 0 {
        2
    } else if bank == 1 {
        3
    } else if bank == 2 {
        0
    } else if bank == 3 {
        1
    } else {
        bank
    }
}

/// The fifteen-bit value that two bytes of an image stand for: the first byte
/// holds the eight high bits, the second the seven low bits above a bit that
/// is dropped.
pub open spec fn image_value(high: u8, low: u8) -> u16 {
    ((high as u16) << 7) | ((low as u16) >> 1)
}

/// The container that an image gives to cell `address` of bank `bank` of the
/// storage.
pub open spec fn image_cell(bytes: Seq<u8>, bank: int, address: int) -> u16 {
    let at = (image_bank(bank) * FIXED_BANK_SIZE + address) * 2;
    proper_parity(image_value(bytes[at], bytes[at + 1]))
}

/// The fixed storage that an image of the right size describes.
pub open spec fn image_storage(bytes: Seq<u8>) -> Seq<Seq<u16>> {
    Seq::new(
        FIXED_NUM_BANKS as nat,
        |bank: int|
            Seq::new(FIXED_BANK_SIZE as nat, |address: int| image_cell(bytes, bank, address)),
    )
}

proof fn lemma_image_value(high: u8, low: u8)
    by (bit_vector)
    ensures
        image_value(high, low) <= 0x7FFF,
        image_value(high, low) & 0x7FFF == image_value(high, low),
{
}

fn image_bank_of(bank: usize) -> (file_bank: usize)
    requires
        bank < FIXED_NUM_BANKS,
    ensures
        file_bank == image_bank(bank as int),
        file_bank < FIXED_NUM_BANKS,
{
    if bank == 0 {
        2
    } else if bank == 1 {
        3
    } else if bank == 2 {
        0
    } else if bank == 3 {
        1
    } else {
        bank
    }
}

/// Builds the fixed storage from the bytes of a yaYUL image: 36 banks of 1024
/// words of two bytes, every word stored with proper parity. An image of any
/// other length is refused.
pub fn load_yayul_img(bytes: &[u8]) -> (loaded: Result<FixedStorage, LoaderError>)
    ensures
        bytes@.len() != IMAGE_SIZE ==> loaded == Err::<FixedStorage, LoaderError>(
            LoaderError::InvalidSize,
        ),
        bytes@.len() == IMAGE_SIZE ==> loaded is Ok && loaded->Ok_0@ == image_storage(bytes@),
{
    if bytes.len() != IMAGE_SIZE {
        return Err(LoaderError::InvalidSize);
    }
    let mut storage = FixedStorage::new();
    let mut bank: usize = 0;
    while bank < FIXED_NUM_BANKS
        invariant
            bank <= FIXED_NUM_BANKS,
            bytes@.len() == IMAGE_SIZE,
            shaped(storage@, FIXED_NUM_BANKS as nat, FIXED_BANK_SIZE as nat),
            forall|b: int, a: int|
                0 <= b < bank && 0 <= a < FIXED_BANK_SIZE ==> #[trigger] storage@[b][a]
                    == image_cell(bytes@, b, a),
        decreases FIXED_NUM_BANKS - bank,
    {
        let file_bank = image_bank_of(bank);
        let mut address: usize = 0;
        while address < FIXED_BANK_SIZE
            invariant
                bank < FIXED_NUM_BANKS,
                address <= FIXED_BANK_SIZE,
                file_bank == image_bank(bank as int),
                file_bank < FIXED_NUM_BANKS,
                bytes@.len() == IMAGE_SIZE,
                shaped(storage@, FIXED_NUM_BANKS as nat, FIXED_BANK_SIZE as nat),
                forall|b: int, a: int|
                    0 <= b < bank && 0 <= a < FIXED_BANK_SIZE ==> #[trigger] storage@[b][a]
                        == image_cell(bytes@, b, a),
                forall|a: int|
                    0 <= a < address ==> #[trigger] storage@[bank as int][a] == image_cell(
                        bytes@,
                        bank as int,
                        a,
                    ),
            decreases FIXED_BANK_SIZE - address,
        {
            let at = (file_bank * FIXED_BANK_SIZE + address) * 2;
            let high = bytes[at];
            let low = bytes[at + 1];
            let value: u16 = ((high as u16) << 7) | ((low as u16) >> 1);
            proof {
                lemma_image_value(high, low);
                lemma_mask_values();
            }
            let selected = W6::from(bank as u16);
            let offset = W10::from(address as u16);
            proof {
                lemma_mask_fits(bank as u16, 6);
                lemma_mask_fits(address as u16, 10);
            }
            let ghost before = storage@;
            storage.write(selected, offset, MemoryWord::with_proper_parity(W15::from(value)));
            assert forall|b: int, a: int|
                0 <= b < bank && 0 <= a < FIXED_BANK_SIZE implies #[trigger] storage@[b][a]
                == image_cell(bytes@, b, a) by {
                assert(storage@[b] == before[b]);
            }
            address += 1;
        }
        bank += 1;
    }
    assert(storage@ =~~= image_storage(bytes@));
    Ok(storage)
}

} // verus!
