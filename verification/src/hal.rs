//! Board-level details of the Inkplate 4 TEMPERA: the e-paper bus pins as
//! GPIO masks, the output registers they are driven through, and the
//! frontlight brightness command.
use vstd::prelude::*;

verus! {

/// GPIO bitmask of the e-paper data bus D0..D7 (GPIO4/5/18/19/23/25/26/27).
pub const DATA_MASK: u32 = 0x0E8C_0030;
/// GPIO0, the clock line (CL), in bank 0.
pub const CL_MASK: u32 = 1;
/// GPIO2, the latch enable line (LE), in bank 0.
pub const LE_MASK: u32 = 4;
/// GPIO32, CKV, in bank 1.
pub const CKV_MASK1: u32 = 1;
/// GPIO33, SPH, in bank 1.
pub const SPH_MASK1: u32 = 2;
/// Output-enable mask of the bank 0 panel pins.
pub const PANEL_OUT_ENABLE_MASK: u32 = 0x0E8C_0035;
/// Output-enable mask of the bank 1 panel pins.
pub const PANEL_OUT1_ENABLE_MASK: u32 = 3;

/// The bank 0 enable mask is the data bus with the clock and latch lines,
/// and the bank 1 mask is CKV with SPH.
pub proof fn lemma_panel_masks()
    ensures
        PANEL_OUT_ENABLE_MASK == DATA_MASK | CL_MASK | LE_MASK,
        PANEL_OUT1_ENABLE_MASK == CKV_MASK1 | SPH_MASK1,
        DATA_MASK & (CL_MASK | LE_MASK) == 0,
{
    assert(0x0E8C_0035u32 == 0x0E8C_0030u32 | 1u32 | 4u32) by (bit_vector);
    assert(3u32 == 1u32 | 2u32) by (bit_vector);
    assert(0x0E8C_0030u32 & (1u32 | 4u32) == 0) by (bit_vector);
}

/// The contents of the GPIO output and output-enable registers of both
/// banks, and what a write through their write-one-to-set and
/// write-one-to-clear ports does to them: it changes exactly the bits of its
/// mask. This is a model of the registers; the writes themselves go to the
/// hardware through the chip's peripheral access, outside this library.
#[derive(Clone, Copy, Debug, PartialEq, Eq, Structural)]
pub struct GpioFast {
    pub out: u32,
    pub out1: u32,
    pub enable: u32,
    pub enable1: u32,
}

impl GpioFast {
    /// Registers as they come out of reset: everything low and disabled.
    pub fn new() -> (r: Self)
        ensures
            r == (GpioFast { out: 0, out1: 0, enable: 0, enable1: 0 }),
    {
        GpioFast { out: 0, out1: 0, enable: 0, enable1: 0 }
    }

    /// Drives the bank 0 pins of `mask` high.
    pub fn out_set(&mut self, mask: u32)
        ensures
            *final(self) == (GpioFast { out: old(self).out | mask, ..*old(self) }),
    {
        self.out = self.out | mask;
    }

    /// Drives the bank 0 pins of `mask` low.
    pub fn out_clear(&mut self, mask: u32)
        ensures
            *final(self) == (GpioFast { out: old(self).out & !mask, ..*old(self) }),
    {
        self.out = self.out & !mask;
    }

    /// Drives the bank 1 pins of `mask` high.
    pub fn out1_set(&mut self, mask: u32)
        ensures
            *final(self) == (GpioFast { out1: old(self).out1 | mask, ..*old(self) }),
    {
        self.out1 = self.out1 | mask;
    }

    /// Drives the bank 1 pins of `mask` low.
    pub fn out1_clear(&mut self, mask: u32)
        ensures
            *final(self) == (GpioFast { out1: old(self).out1 & !mask, ..*old(self) }),
    {
        self.out1 = self.out1 & !mask;
    }

    /// Enables the bank 0 pins of `mask` as outputs.
    pub fn out_enable_set(&mut self, mask: u32)
        ensures
            *final(self) == (GpioFast { enable: old(self).enable | mask, ..*old(self) }),
    {
        self.enable = self.enable | mask;
    }

    /// Enables the bank 1 pins of `mask` as outputs.
    pub fn out_enable1_set(&mut self, mask: u32)
        ensures
            *final(self) == (GpioFast { enable1: old(self).enable1 | mask, ..*old(self) }),
    {
        self.enable1 = self.enable1 | mask;
    }
}

/// Setting and then clearing the same pins leaves them low and every other
/// pin as it was; setting touches no pin outside the mask.
pub proof fn lemma_set_clear(reg: u32, mask: u32)
    ensures
        (reg | mask) & !mask == reg & !mask,
        forall|bit: u32| bit < 32 && (mask >> bit) & 1 == 0 ==> #[trigger] (((reg | mask) >> bit) & 1) == (reg >> bit)
            & 1,
        forall|bit: u32| bit < 32 && (mask >> bit) & 1 == 1 ==> #[trigger] (((reg | mask) >> bit) & 1) == 1,
{
    assert((reg | mask) & !mask == reg & !mask) by (bit_vector);
    assert forall|bit: u32| bit < 32 && (mask >> bit) & 1 == 0 implies #[trigger] (((reg | mask) >> bit) & 1) == (reg
        >> bit) & 1 by {
        assert(bit < 32 && (mask >> bit) & 1 == 0 ==> ((reg | mask) >> bit) & 1 == (reg >> bit) & 1) by (bit_vector);
    }
    assert forall|bit: u32| bit < 32 && (mask >> bit) & 1 == 1 implies #[trigger] (((reg | mask) >> bit) & 1) == 1 by {
        assert(bit < 32 && (mask >> bit) & 1 == 1 ==> ((reg | mask) >> bit) & 1 == 1) by (bit_vector);
    }
}

/// I2C address of the frontlight's digital potentiometer.
pub const BRIGHTNESS_ADDRESS: u8 = 0x2E;

/// The frontlight command for `brightness`: register zero, then the
/// inverted six-bit level (the potentiometer dims as its value grows).
pub fn frontlight_payload(brightness: u8) -> (r: [u8; 2])
    ensures
        r@[0] == 0,
        r@[1] == 63 - brightness % 64,
{
    let level: u8 = brightness & 0b0011_1111;
    assert(level == brightness % 64) by (bit_vector)
        requires
            level == brightness & 0b0011_1111u8,
    ;
    [0x00, 63 - level]
}

} // verus!
