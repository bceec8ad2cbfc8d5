//! A demo: it sends a packet when the button is pressed, reads packets that arrive,
//! and switches the LED over at each of them.

use vstd::prelude::*;

verus! {

/// State of the demo.
#[derive(Debug, Clone, Copy, PartialEq, Eq, Structural)]
pub struct Demo {
    pub packet_sent_counter: i32,
    pub packet_received_counter: i32,
    pub led_enabled: bool,
}

impl Demo {
    /// The LED is on when an odd number of packets were sent or received.
    pub open spec fn wf(self) -> bool {
        &&& 0 <= self.packet_sent_counter
        &&& 0 <= self.packet_received_counter
        &&& self.led_enabled == ((self.packet_sent_counter + self.packet_received_counter) % 2
            == 1)
    }

    /// Before the first packet.
    pub fn new() -> (demo: Demo)
        ensures
            demo.wf(),
            demo.packet_sent_counter == 0,
            demo.packet_received_counter == 0,
            !demo.led_enabled,
    {
        Demo { packet_sent_counter: 0, packet_received_counter: 0, led_enabled: false }
    }

    /// Counts a packet that was received and switches the LED over.
    pub fn on_packet_received(&mut self)
        requires
            old(self).wf(),
            old(self).packet_received_counter < i32::MAX,
        ensures
            final(self).wf(),
            *final(self) == (Demo {
                packet_received_counter: (old(self).packet_received_counter + 1) as i32,
                led_enabled: !old(self).led_enabled,
                packet_sent_counter: old(self).packet_sent_counter,
            }),
    {
        self.packet_received_counter = self.packet_received_counter + 1;
        self.led_enabled = !self.led_enabled;
    }

    /// Counts a packet that is sent because the button was pressed and switches the
    /// LED over.
    pub fn on_button_pressed(&mut self)
        requires
            old(self).wf(),
            old(self).packet_sent_counter < i32::MAX,
        ensures
            final(self).wf(),
            *final(self) == (Demo {
                packet_sent_counter: (old(self).packet_sent_counter + 1) as i32,
                led_enabled: !old(self).led_enabled,
                packet_received_counter: old(self).packet_received_counter,
            }),
    {
        self.packet_sent_counter = self.packet_sent_counter + 1;
        self.led_enabled = !self.led_enabled;
    }
}

/// The packet that the demo sends.
pub fn out_packet() -> (packet: [u8; 16])
    ensures
        packet@ == seq![
            0x0Fu8, 0x16u8, 0x11u8, 0x22u8, 0x33u8, 0x44u8, 0x55u8, 0x66u8, 0x77u8, 0x88u8,
            0x99u8, 0xAAu8, 0xBBu8, 0xCCu8, 0xDDu8, 0xEEu8,
        ],
        0 < packet@.len() <= crate::radio::RX_FIFO_LENGTH_BYTES,
{
    [
        0x0F, 0x16, 0x11, 0x22, 0x33, 0x44, 0x55, 0x66, 0x77, 0x88, 0x99, 0xAA, 0xBB, 0xCC, 0xDD,
        0xEE,
    ]
}

} // verus!
