//! The board that the demo runs on: its LED and its button.

use vstd::prelude::*;

verus! {

/// Pin of the LED, in group A.
pub const LED_PIN: u16 = 4;

/// Pin of the button, in group C.
pub const BUTTON_PIN: u16 = 7;

/// First of the pins that the external interrupt lines 4 to 7 can be routed to.
pub const FIRST_ROUTABLE_PIN: u16 = 4;

/// External interrupt line that the button is routed to.
pub const BUTTON_LINE: u16 = 5;

/// Distance of the register that clears interrupt flags from the GPIO base address.
pub const FLAG_CLEAR_OFFSET: u32 = 0x0000_2420;

/// A change to the chip's GPIO configuration.
#[derive(Debug, Clone, Copy, PartialEq, Eq, Structural)]
pub enum BoardStep {
    /// Enable the clock of the GPIO unit.
    EnableGpioClock,
    /// Drive the LED's pin actively.
    DriveLedPin,
    /// Let interrupts of odd-numbered external lines through to the core.
    UnmaskOddLines,
    /// Make the button's pin an input.
    ButtonPinAsInput,
    /// Set the data output of group C, which filters glitches of an input pin.
    FilterGlitches { dout: u8 },
    /// Route the button's line to group C.
    RouteLineToGroup,
    /// Route the button's line to the pin that is this far from the first one.
    RouteLineToPin { offset: u8 },
    /// Trigger these lines when their pin falls.
    TriggerOnFall { lines: u16 },
    /// Enable the interrupts of these lines.
    EnableLines { lines: u16 },
}

/// What makes the LED usable.
pub fn setup_led() -> (steps: [BoardStep; 2])
    ensures
        steps@ == seq![BoardStep::EnableGpioClock, BoardStep::DriveLedPin],
{
    [BoardStep::EnableGpioClock, BoardStep::DriveLedPin]
}

/// The data output of group A that switches the LED on or off.
pub fn led_dout(high: bool) -> (dout: u16)
    ensures
        dout == if high {
            1u16 << LED_PIN
        } else {
            0
        },
{
    assert(1u16 << 4u16 == 0b0001_0000u16) by (bit_vector);
    if high {
        0b0001_0000
    } else {
        0
    }
}

/// The steps that make a press of the button interrupt the core. The interrupt is
/// enabled last, when its line is routed.
pub open spec fn button_steps() -> Seq<BoardStep> {
    seq![
        BoardStep::UnmaskOddLines,
        BoardStep::ButtonPinAsInput,
        BoardStep::FilterGlitches { dout: 1u8 << BUTTON_PIN },
        BoardStep::RouteLineToGroup,
        BoardStep::RouteLineToPin { offset: (BUTTON_PIN - FIRST_ROUTABLE_PIN) as u8 },
        BoardStep::TriggerOnFall { lines: 1u16 << BUTTON_LINE },
        BoardStep::EnableLines { lines: 1u16 << BUTTON_LINE },
    ]
}

/// What makes a press of the button interrupt the core.
pub fn setup_button_for_interrupt() -> (steps: [BoardStep; 7])
    ensures
        steps@ == button_steps(),
        steps@ == seq![
            BoardStep::UnmaskOddLines,
            BoardStep::ButtonPinAsInput,
            BoardStep::FilterGlitches { dout: 0b1000_0000 },
            BoardStep::RouteLineToGroup,
            BoardStep::RouteLineToPin { offset: 3 },
            BoardStep::TriggerOnFall { lines: 0b0010_0000 },
            BoardStep::EnableLines { lines: 0b0010_0000 },
        ],
{
    assert(1u8 << 7u16 == 0b1000_0000u8) by (bit_vector);
    assert(1u16 << 5u16 == 0b0010_0000u16) by (bit_vector);
    [
        BoardStep::UnmaskOddLines,
        BoardStep::ButtonPinAsInput,
        BoardStep::FilterGlitches { dout: 0b1000_0000 },
        BoardStep::RouteLineToGroup,
        BoardStep::RouteLineToPin { offset: (BUTTON_PIN - FIRST_ROUTABLE_PIN) as u8 },
        BoardStep::TriggerOnFall { lines: 0b0010_0000 },
        BoardStep::EnableLines { lines: 0b0010_0000 },
    ]
}

/// The word that clears the button's interrupt flag.
pub open spec fn button_flag() -> u32 {
    1u32 << (BUTTON_LINE as u32)
}

/// Where to write what to clear the button's interrupt flag. Ones clear, and no
/// other flag is touched.
pub fn clear_button_interrupt_flag(gpio_base: u32) -> (write: (u32, u32))
    requires
        gpio_base + FLAG_CLEAR_OFFSET <= u32::MAX,
    ensures
        write.0 == gpio_base + FLAG_CLEAR_OFFSET,
        write.0 == gpio_base + 0x2420,
        write.1 == button_flag(),
        write.1 == 0b0010_0000,
{
    assert(1u32 << 5u32 == 0b0010_0000u32) by (bit_vector);
    (gpio_base + FLAG_CLEAR_OFFSET, 0b0010_0000)
}

/// The flag that gets cleared is the one that a press of the button raises, and no
/// other: the word has the bit of the button's line alone, and so have the words by
/// which lines are triggered and enabled in the button's setup.
pub proof fn law_cleared_flag_is_the_raised_one(step: BoardStep, line: u32)
    requires
        button_steps().contains(step),
        line < 32,
    ensures
        step matches BoardStep::TriggerOnFall { lines } ==> lines as u32 == button_flag(),
        step matches BoardStep::EnableLines { lines } ==> lines as u32 == button_flag(),
        (button_flag() >> line) & 1 == 1 <==> line == BUTTON_LINE,
{
    assert((1u16 << 5u16) as u32 == 1u32 << 5u32) by (bit_vector);
    assert(((1u32 << 5u32) >> line) & 1 == 1 <==> line == 5) by (bit_vector)
        requires
            line < 32,
    ;
}

} // verus!
