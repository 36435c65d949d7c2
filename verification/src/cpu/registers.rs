//! The registers that are more than a plain word: the sequence register, the
//! address register with its decoder, and the branch register.
//!
//! Each is modelled by the value of the word it holds.

use crate::word::{
    bit_of, digits_of, lemma_bit_values, lemma_mask_fits, lemma_mask_values, with_bit, W10, W12,
    W2, W3, W5, W6, W7, W8,
};
use vstd::prelude::*;

verus! {

/// The three high bits of the six-bit operation code held in a sequence
/// register.
pub open spec fn order_code_of(sq: u16) -> u16 {
    (sq >> 3) & 7
}

/// The three low bits of the six-bit operation code held in a sequence
/// register.
pub open spec fn extended_code_of(sq: u16) -> u16 {
    sq & 7
}

/// The sequence register that holds the operation code `code` and the extend
/// bit `extend`.
pub open spec fn sequence_of(code: u16, extend: bool) -> u16 {
    if extend {
        code | 0o100
    } else {
        code
    }
}

/// 7-bit register used to keep track of what subinstruction
/// is currently being executed: six bits of operation code under the extend
/// bit.
#[derive(Copy, Clone, Debug)]
pub struct SequenceRegister {
    inner: W7,
}

impl View for SequenceRegister {
    type V = u16;

    closed spec fn view(&self) -> u16 {
        self.inner@
    }
}

impl SequenceRegister {
    /// The register that holds the operation code `value` and the extend bit
    /// `extend`.
    pub fn new(value: W6, extend: bool) -> (register: Self)
        ensures
            register@ == sequence_of(value@, extend),
    {
        let mut inner = W7::from_word(value);
        proof {
            lemma_bit_values();
        }
        if extend {
            inner.set(6, true);
        }
        Self { inner }
    }

    /// The extend bit.
    pub fn is_extended(&self) -> (extended: bool)
        ensures
            extended == bit_of(self@, 6),
    {
        self.inner.get(6)
    }

    /// The three high bits of the operation code.
    pub fn order_code(&self) -> (code: W3)
        ensures
            code@ == order_code_of(self@),
    {
        proof {
            lemma_mask_values();
        }
        W3::from(self.inner.as_u16() >> 3)
    }

    /// The three low bits of the operation code.
    pub fn extended_code(&self) -> (code: W3)
        ensures
            code@ == extended_code_of(self@),
    {
        proof {
            lemma_mask_values();
        }
        W3::from_word(self.inner)
    }

    /// Sets the extend bit.
    pub fn set_extended(&mut self)
        ensures
            final(self)@ == with_bit(old(self)@, 6, true),
    {
        self.inner.set(6, true);
    }

    /// The seven bits of the register.
    pub fn inner(self) -> (word: W7)
        ensures
            word@ == self@,
    {
        self.inner
    }

    /// The register in octal.
    pub fn to_string(&self) -> (text: String)
        ensures
            text@ == digits_of(self@, 3, 3, false),
    {
        self.inner.to_string()
    }
}

/// What an address register selects.
pub enum MemoryAddress {
    Register(W3),
    UnswitchedErasableMemory(W3, W8),
    SwitchedErasableMemory(W8),
    UnswitchedFixedMemory(W5, W10),
    SwitchedFixedMemory(W10),
}

/// The model of a `MemoryAddress`: the same cases over plain values.
pub enum AddressView {
    Register(u16),
    UnswitchedErasableMemory(u16, u16),
    SwitchedErasableMemory(u16),
    UnswitchedFixedMemory(u16, u16),
    SwitchedFixedMemory(u16),
}

impl View for MemoryAddress {
    type V = AddressView;

    open spec fn view(&self) -> AddressView {
        match self {
            MemoryAddress::Register(register) => AddressView::Register(register@),
            MemoryAddress::UnswitchedErasableMemory(bank, address) => {
                AddressView::UnswitchedErasableMemory(bank@, address@)
            },
            MemoryAddress::SwitchedErasableMemory(address) => {
                AddressView::SwitchedErasableMemory(address@)
            },
            MemoryAddress::UnswitchedFixedMemory(bank, address) => {
                AddressView::UnswitchedFixedMemory(bank@, address@)
            },
            MemoryAddress::SwitchedFixedMemory(address) => AddressView::SwitchedFixedMemory(
                address@,
            ),
        }
    }
}

/// What the twelve-bit address `s` selects. The five ranges are disjoint and
/// cover every address.
///
/// | `s` (octal) | selects |
/// |---|---|
/// | 0000–0007 | a register |
/// | 0010–1377 | erasable bank 0, 1 or 2 |
/// | 1400–1777 | the erasable bank that EBANK names |
/// | 2000–3777 | the fixed bank that FBANK names |
/// | 4000–7777 | fixed bank 2 or 3 |
pub open spec fn decode_address(s: u16) -> AddressView {
    if s < 0o0010 {
        AddressView::Register(s)
    } else if s < 0o1400 {
        AddressView::UnswitchedErasableMemory(s >> 8, s & 0o377)
    } else if s < 0o2000 {
        AddressView::SwitchedErasableMemory(s & 0o377)
    } else if s < 0o4000 {
        AddressView::SwitchedFixedMemory(s & 0o1777)
    } else {
        AddressView::UnswitchedFixedMemory(s >> 10, s & 0o1777)
    }
}

proof fn lemma_address_bits(s: u16)
    by (bit_vector)
    requires
        s <= 0o7777,
    ensures
        s < 0o2000 <==> (s >> 10) & 3 == 0,
        0o2000 <= s < 0o4000 <==> (s >> 10) & 3 == 1,
        s < 0o2000 ==> (0o1400 <= s <==> (s >> 8) & 3 == 3),
        s < 0o1400 ==> (s >> 8) & 7 == s >> 8,
        s < 0o1400 ==> s >> 8 <= 2,
        0o4000 <= s ==> (s >> 10) & 0x1F == s >> 10,
        0o4000 <= s ==> 2 <= s >> 10 <= 3,
        s < 8 ==> s & 7 == s,
{
}

/// Which addresses select what: every twelve-bit address is in exactly one of
/// the five ranges.
pub proof fn lemma_address_table(s: u16)
    requires
        s <= 0o7777,
    ensures
        decode_address(s) is Register <==> s <= 0o0007,
        decode_address(s) is UnswitchedErasableMemory <==> 0o0010 <= s <= 0o1377,
        decode_address(s) is SwitchedErasableMemory <==> 0o1400 <= s <= 0o1777,
        decode_address(s) is SwitchedFixedMemory <==> 0o2000 <= s <= 0o3777,
        decode_address(s) is UnswitchedFixedMemory <==> 0o4000 <= s <= 0o7777,
{
}

/// The banks and offsets that an address selects exist.
pub proof fn lemma_decode_address_bounds(s: u16)
    requires
        s <= 0o7777,
    ensures
        match decode_address(s) {
            AddressView::Register(register) => register <= 7,
            AddressView::UnswitchedErasableMemory(bank, address) => bank <= 2 && address <= 0o377,
            AddressView::SwitchedErasableMemory(address) => address <= 0o377,
            AddressView::UnswitchedFixedMemory(bank, address) => 2 <= bank <= 3 && address
                <= 0o1777,
            AddressView::SwitchedFixedMemory(address) => address <= 0o1777,
        },
{
    lemma_address_bits(s);
    lemma_mask_values();
    lemma_mask_fits(s, 8);
    lemma_mask_fits(s, 10);
}

/// A 12-bit address register (the S register)
#[derive(Copy, Clone, Debug)]
pub struct AddressRegister {
    inner: W12,
}

impl View for AddressRegister {
    type V = u16;

    closed spec fn view(&self) -> u16 {
        self.inner@
    }
}

impl AddressRegister {
    /// The register that holds address 0.
    pub fn zero() -> (register: Self)
        ensures
            register@ == 0,
    {
        Self::from(W12::zero())
    }

    /// The register that holds the address `value`.
    pub fn from(value: W12) -> (register: Self)
        ensures
            register@ == value@,
    {
        Self { inner: value }
    }

    /// Decodes the address: which kind of memory it selects, and which bank
    /// and offset of it.
    pub fn address(&self) -> (address: MemoryAddress)
        ensures
            address@ == decode_address(self@),
            self@ <= 0o7777,
    {
        let s = self.inner.as_u16();
        proof {
            lemma_mask_values();
            lemma_address_bits(s);
        }
        if s < 8 {
            MemoryAddress::Register(W3::from(s))
        } else {
            let selector = (s >> 10) & 3;
            if selector == 0 {
                // Erasable memory
                let address = W8::from(s);
                if (s >> 8) & 3 == 3 {
                    MemoryAddress::SwitchedErasableMemory(address)
                } else {
                    let bank = W3::from(s >> 8);
                    MemoryAddress::UnswitchedErasableMemory(bank, address)
                }
            } else if selector == 1 {
                // Switched fixed memory
                let address = W10::from(s);
                MemoryAddress::SwitchedFixedMemory(address)
            } else {
                // Unswitched fixed memory
                let bank = W5::from(s >> 10);
                let address = W10::from(s);
                MemoryAddress::UnswitchedFixedMemory(bank, address)
            }
        }
    }

    /// The twelve bits of the register.
    pub fn inner(self) -> (word: W12)
        ensures
            word@ == self@,
    {
        self.inner
    }

    /// The register in octal.
    pub fn to_string(&self) -> (text: String)
        ensures
            text@ == digits_of(self@, 3, 4, false),
    {
        self.inner.to_string()
    }
}

/// The two branch flip-flops: BR1 is bit 0, BR2 is bit 1.
#[derive(Copy, Clone, Debug)]
pub struct BranchRegister {
    inner: W2,
}

impl View for BranchRegister {
    type V = u16;

    closed spec fn view(&self) -> u16 {
        self.inner@
    }
}

impl BranchRegister {
    /// Both flip-flops cleared.
    pub fn zero() -> (register: Self)
        ensures
            register@ == 0,
    {
        Self::from(W2::zero())
    }

    /// The flip-flops as `value` gives them.
    pub fn from(value: W2) -> (register: Self)
        ensures
            register@ == value@,
    {
        Self { inner: value }
    }

    /// The flip-flop BR1.
    pub fn br1(&self) -> (bit: bool)
        ensures
            bit == bit_of(self@, 0),
    {
        self.inner.get(0)
    }

    /// Gives the flip-flop BR1 the value `value`; BR2 stays as it is.
    pub fn set_br1(&mut self, value: bool)
        ensures
            final(self)@ == with_bit(old(self)@, 0, value),
    {
        self.inner.set(0, value);
    }

    /// The flip-flop BR2.
    pub fn br2(&self) -> (bit: bool)
        ensures
            bit == bit_of(self@, 1),
    {
        self.inner.get(1)
    }

    /// Gives the flip-flop BR2 the value `value`; BR1 stays as it is.
    pub fn set_br2(&mut self, value: bool)
        ensures
            final(self)@ == with_bit(old(self)@, 1, value),
    {
        self.inner.set(1, value);
    }

    /// Gives both flip-flops the values that `value` holds.
    pub fn set(&mut self, value: W2)
        ensures
            final(self)@ == value@,
    {
        self.inner = value;
    }

    /// Clears both flip-flops.
    pub fn reset(&mut self)
        ensures
            final(self)@ == 0,
    {
        self.inner = W2::zero();
    }

    /// The two bits of the register.
    pub fn inner(self) -> (word: W2)
        ensures
            word@ == self@,
    {
        self.inner
    }

    /// The register in octal.
    pub fn to_string(&self) -> (text: String)
        ensures
            text@ == digits_of(self@, 3, 1, false),
    {
        self.inner.to_string()
    }
}

} // verus!
