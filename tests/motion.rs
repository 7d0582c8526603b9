use printhor::motion::{CardDevice, MotionDevice, MotionPins};
use printhor::stepper_channel::StepperChannel;

fn pins(axes: StepperChannel) -> MotionPins {
    MotionPins {
        axes,
        all_enable_pin: true,
        x_endstop_pin: false,
        y_endstop_pin: false,
        z_endstop_pin: false,
        x_step_pin: false,
        y_step_pin: false,
        z_step_pin: false,
        e_step_pin: false,
        x_dir_pin: false,
        y_dir_pin: true,
        z_dir_pin: true,
        e_dir_pin: true,
    }
}

fn xyz() -> StepperChannel {
    StepperChannel::x().union(StepperChannel::y()).union(StepperChannel::z())
}

#[test]
fn forward_direction_sets_unselected_axes_reverse() {
    let mut p = pins(StepperChannel::x().union(StepperChannel::y()));
    p.set_forward_direction(StepperChannel::x());
    assert!(p.x_dir_pin);
    assert!(!p.y_dir_pin);
    // Axes the board lacks are left alone.
    assert!(p.z_dir_pin);
    assert!(p.e_dir_pin);
    p.x_dir_pin = false;
    p.y_dir_pin = true;
    p.set_forward_direction(StepperChannel::x());
    assert!(p.x_dir_pin);
    assert!(!p.y_dir_pin);
}

#[test]
fn endstop_is_an_or_over_the_set() {
    let mut p = pins(xyz());
    let xz = StepperChannel::x().union(StepperChannel::z());
    assert!(!p.endstop_triggered(xz));
    p.z_endstop_pin = true;
    assert!(p.endstop_triggered(xz));
    p.z_endstop_pin = false;
    p.x_endstop_pin = true;
    assert!(p.endstop_triggered(xz));
    p.x_endstop_pin = false;
    p.y_endstop_pin = true;
    assert!(!p.endstop_triggered(xz));
    p.x_endstop_pin = true;
    p.z_endstop_pin = true;
    assert!(!p.endstop_triggered(StepperChannel::empty()));
}

#[test]
fn step_operations_touch_selected_axes_only() {
    let mut p = pins(xyz());
    let xy = StepperChannel::x().union(StepperChannel::y());
    p.step_high(xy);
    assert!(p.x_step_pin && p.y_step_pin && !p.z_step_pin);
    p.step_toggle(StepperChannel::y().union(StepperChannel::z()));
    assert!(p.x_step_pin && !p.y_step_pin && p.z_step_pin);
    p.step_low(StepperChannel::all());
    assert!(!p.x_step_pin && !p.y_step_pin && !p.z_step_pin);
    // The board has no extruder: its pin is never driven.
    p.step_high(StepperChannel::e());
    assert!(!p.e_step_pin);
}

#[test]
fn enable_and_disable_drive_the_shared_line() {
    let mut d = MotionDevice { motion_pins: pins(xyz()) };
    d.motion_pins.enable(StepperChannel::x());
    assert!(!d.motion_pins.all_enable_pin);
    d.motion_pins.disable(StepperChannel::x());
    assert!(d.motion_pins.all_enable_pin);
}

#[test]
fn axis_set_operations() {
    let xy = StepperChannel::x().union(StepperChannel::y());
    assert_eq!(xy.bits(), 3);
    assert!(xy.contains(StepperChannel::x()));
    assert!(!xy.contains(StepperChannel::z()));
    assert!(!xy.contains(StepperChannel::all()));
    assert!(StepperChannel::all().contains(xy));
    assert_eq!(xy.intersection(StepperChannel::y().union(StepperChannel::z())).bits(), 2);
    assert!(xy.intersects(StepperChannel::y()));
    assert!(!xy.intersects(StepperChannel::e()));
    assert!(StepperChannel::empty().is_empty());
    assert_eq!(StepperChannel::from_bits_truncate(0xFF).bits(), 15);
    assert_eq!(StepperChannel::all().bits(), 15);
}

#[test]
fn card_device_holds_its_bus() {
    let c = CardDevice { card_spi: 1, card_cs: true };
    assert_eq!(c.card_spi, 1);
    assert!(c.card_cs);
}
