use efr32_rail::board::{
    clear_button_interrupt_flag, led_dout, setup_button_for_interrupt, setup_led, BoardStep,
};
use efr32_rail::clocks::ClockStep;
use efr32_rail::demo::{out_packet, Demo};
use efr32_rail::radio::Radio;

#[test]
fn clock_is_switched_when_the_oscillator_is_ready() {
    let mut readings = [false, false, true].into_iter();
    let mut steps = Vec::new();
    let mut step = Some(Radio::configure_clocks());
    while let Some(current) = step {
        steps.push(current);
        let ready = current == ClockStep::ReadReady && readings.next().unwrap();
        step = current.next(ready);
    }
    assert_eq!(
        steps,
        vec![
            ClockStep::EnableHfxo,
            ClockStep::ForceHfxo,
            ClockStep::ReadReady,
            ClockStep::ReadReady,
            ClockStep::ReadReady,
            ClockStep::SelectHfxo,
        ]
    );
}

#[test]
fn led_is_the_fifth_pin() {
    assert_eq!(led_dout(true), 0b0001_0000);
    assert_eq!(led_dout(false), 0);
    assert_eq!(setup_led(), [BoardStep::EnableGpioClock, BoardStep::DriveLedPin]);
}

#[test]
fn button_interrupt_is_enabled_last() {
    assert_eq!(
        setup_button_for_interrupt(),
        [
            BoardStep::UnmaskOddLines,
            BoardStep::ButtonPinAsInput,
            BoardStep::FilterGlitches { dout: 0b1000_0000 },
            BoardStep::RouteLineToGroup,
            BoardStep::RouteLineToPin { offset: 3 },
            BoardStep::TriggerOnFall { lines: 0b10_0000 },
            BoardStep::EnableLines { lines: 0b10_0000 },
        ]
    );
}

#[test]
fn button_flag_is_cleared_in_its_register() {
    assert_eq!(clear_button_interrupt_flag(0x5003_C000), (0x5003_E420, 0b0010_0000));
}

#[test]
fn cleared_flag_is_the_raised_one() {
    let (_, flag) = clear_button_interrupt_flag(0x5003_C000);
    let mut words = 0;
    for step in setup_button_for_interrupt() {
        match step {
            BoardStep::TriggerOnFall { lines } | BoardStep::EnableLines { lines } => {
                assert_eq!(lines as u32, flag);
                words += 1;
            }
            _ => {}
        }
    }
    assert_eq!(words, 2);
}

#[test]
fn led_follows_the_packets() {
    let mut demo = Demo::new();
    assert_eq!((demo.packet_sent_counter, demo.packet_received_counter), (0, 0));
    assert!(!demo.led_enabled);
    demo.on_packet_received();
    assert!(demo.led_enabled);
    demo.on_button_pressed();
    assert!(!demo.led_enabled);
    demo.on_button_pressed();
    assert!(demo.led_enabled);
    assert_eq!((demo.packet_sent_counter, demo.packet_received_counter), (2, 1));
}

#[test]
fn demo_packet() {
    assert_eq!(
        out_packet(),
        [
            0x0F, 0x16, 0x11, 0x22, 0x33, 0x44, 0x55, 0x66, 0x77, 0x88, 0x99, 0xAA, 0xBB, 0xCC,
            0xDD, 0xEE,
        ]
    );
}
