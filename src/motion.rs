use vstd::prelude::*;
use crate::stepper_channel::{StepperChannel, X_BIT, Y_BIT, Z_BIT, E_BIT};

verus! {

/// Pin levels of the stepper drivers of one board: `true` is a high level.
///
/// `axes` is the set of axes that the board wires; the pins of an axis
/// outside it are never driven.
pub struct MotionPins {
    pub axes: StepperChannel,
    /// Shared enable line, active low.
    pub all_enable_pin: bool,
    pub x_endstop_pin: bool,
    pub y_endstop_pin: bool,
    pub z_endstop_pin: bool,
    pub x_step_pin: bool,
    pub y_step_pin: bool,
    pub z_step_pin: bool,
    pub e_step_pin: bool,
    pub x_dir_pin: bool,
    pub y_dir_pin: bool,
    pub z_dir_pin: bool,
    pub e_dir_pin: bool,
}

/// Whether a pin operation on `channels` reaches the axis of `bit` on a board wiring `axes`.
pub open spec fn selects(axes: StepperChannel, channels: StepperChannel, bit: u8) -> bool {
    axes.has(bit) && channels.has(bit)
}

/// The new level of the step pin of axis `bit` after an operation that
/// gives `level` to the selected step pins.
pub open spec fn step_after(
    axes: StepperChannel,
    channels: StepperChannel,
    bit: u8,
    old_level: bool,
    level: bool,
) -> bool {
    if selects(axes, channels, bit) {
        level
    } else {
        old_level
    }
}

/// Every pin but the step pins is unchanged.
pub open spec fn same_but_steps(a: MotionPins, b: MotionPins) -> bool {
    &&& b.axes == a.axes
    &&& b.all_enable_pin == a.all_enable_pin
    &&& b.x_endstop_pin == a.x_endstop_pin
    &&& b.y_endstop_pin == a.y_endstop_pin
    &&& b.z_endstop_pin == a.z_endstop_pin
    &&& b.x_dir_pin == a.x_dir_pin
    &&& b.y_dir_pin == a.y_dir_pin
    &&& b.z_dir_pin == a.z_dir_pin
    &&& b.e_dir_pin == a.e_dir_pin
}

/// Every pin but the direction pins is unchanged.
pub open spec fn same_but_dirs(a: MotionPins, b: MotionPins) -> bool {
    &&& b.axes == a.axes
    &&& b.all_enable_pin == a.all_enable_pin
    &&& b.x_endstop_pin == a.x_endstop_pin
    &&& b.y_endstop_pin == a.y_endstop_pin
    &&& b.z_endstop_pin == a.z_endstop_pin
    &&& b.x_step_pin == a.x_step_pin
    &&& b.y_step_pin == a.y_step_pin
    &&& b.z_step_pin == a.z_step_pin
    &&& b.e_step_pin == a.e_step_pin
}

/// Every pin but the enable line is unchanged.
pub open spec fn same_but_enable(a: MotionPins, b: MotionPins) -> bool {
    &&& b.axes == a.axes
    &&& b.x_endstop_pin == a.x_endstop_pin
    &&& b.y_endstop_pin == a.y_endstop_pin
    &&& b.z_endstop_pin == a.z_endstop_pin
    &&& b.x_step_pin == a.x_step_pin
    &&& b.y_step_pin == a.y_step_pin
    &&& b.z_step_pin == a.z_step_pin
    &&& b.e_step_pin == a.e_step_pin
    &&& b.x_dir_pin == a.x_dir_pin
    &&& b.y_dir_pin == a.y_dir_pin
    &&& b.z_dir_pin == a.z_dir_pin
    &&& b.e_dir_pin == a.e_dir_pin
}

/// The level of a direction pin after `set_forward_direction(channels)`: high
/// for a selected wired axis, low for a wired axis outside the set, untouched
/// for an axis the board lacks.
pub open spec fn dir_after(axes: StepperChannel, channels: StepperChannel, bit: u8, old_level: bool) -> bool {
    if axes.has(bit) {
        channels.has(bit)
    } else {
        old_level
    }
}

/// Whether any selected wired axis has its endstop input high.
pub open spec fn spec_endstop_triggered(p: MotionPins, channels: StepperChannel) -> bool {
    ||| selects(p.axes, channels, X_BIT) && p.x_endstop_pin
    ||| selects(p.axes, channels, Y_BIT) && p.y_endstop_pin
    ||| selects(p.axes, channels, Z_BIT) && p.z_endstop_pin
}

impl MotionPins {
    /// Drives the shared enable line high, which disables every driver.
    pub fn disable(&mut self, _channels: StepperChannel)
        ensures
            final(self).all_enable_pin,
            same_but_enable(*old(self), *final(self)),
    {
        self.all_enable_pin = true;
    }

    /// Drives the shared enable line low, which enables every driver.
    pub fn enable(&mut self, _channels: StepperChannel)
        ensures
            !final(self).all_enable_pin,
            same_but_enable(*old(self), *final(self)),
    {
        self.all_enable_pin = false;
    }

    /// Sets each selected wired axis forward (high) and every other wired
    /// axis in reverse (low).
    pub fn set_forward_direction(&mut self, channels: StepperChannel)
        ensures
            final(self).x_dir_pin == dir_after(old(self).axes, channels, X_BIT, old(self).x_dir_pin),
            final(self).y_dir_pin == dir_after(old(self).axes, channels, Y_BIT, old(self).y_dir_pin),
            final(self).z_dir_pin == dir_after(old(self).axes, channels, Z_BIT, old(self).z_dir_pin),
            final(self).e_dir_pin == dir_after(old(self).axes, channels, E_BIT, old(self).e_dir_pin),
            same_but_dirs(*old(self), *final(self)),
    {
        let axes = self.axes;
        let x = if axes.contains(StepperChannel::x()) { channels.contains(StepperChannel::x()) } else { self.x_dir_pin };
        let y = if axes.contains(StepperChannel::y()) { channels.contains(StepperChannel::y()) } else { self.y_dir_pin };
        let z = if axes.contains(StepperChannel::z()) { channels.contains(StepperChannel::z()) } else { self.z_dir_pin };
        let e = if axes.contains(StepperChannel::e()) { channels.contains(StepperChannel::e()) } else { self.e_dir_pin };
        self.x_dir_pin = x;
        self.y_dir_pin = y;
        self.z_dir_pin = z;
        self.e_dir_pin = e;
    }

    /// Inverts the step pin of each selected wired axis.
    pub fn step_toggle(&mut self, channels: StepperChannel)
        ensures
            final(self).x_step_pin == step_after(old(self).axes, channels, X_BIT, old(self).x_step_pin, !old(self).x_step_pin),
            final(self).y_step_pin == step_after(old(self).axes, channels, Y_BIT, old(self).y_step_pin, !old(self).y_step_pin),
            final(self).z_step_pin == step_after(old(self).axes, channels, Z_BIT, old(self).z_step_pin, !old(self).z_step_pin),
            final(self).e_step_pin == step_after(old(self).axes, channels, E_BIT, old(self).e_step_pin, !old(self).e_step_pin),
            same_but_steps(*old(self), *final(self)),
    {
        let axes = self.axes;
        let x = if axes.contains(StepperChannel::x()) && channels.contains(StepperChannel::x()) { !self.x_step_pin } else { self.x_step_pin };
        let y = if axes.contains(StepperChannel::y()) && channels.contains(StepperChannel::y()) { !self.y_step_pin } else { self.y_step_pin };
        let z = if axes.contains(StepperChannel::z()) && channels.contains(StepperChannel::z()) { !self.z_step_pin } else { self.z_step_pin };
        let e = if axes.contains(StepperChannel::e()) && channels.contains(StepperChannel::e()) { !self.e_step_pin } else { self.e_step_pin };
        self.x_step_pin = x;
        self.y_step_pin = y;
        self.z_step_pin = z;
        self.e_step_pin = e;
    }

    /// Drives the step pin of each selected wired axis high.
    pub fn step_high(&mut self, channels: StepperChannel)
        ensures
            final(self).x_step_pin == step_after(old(self).axes, channels, X_BIT, old(self).x_step_pin, true),
            final(self).y_step_pin == step_after(old(self).axes, channels, Y_BIT, old(self).y_step_pin, true),
            final(self).z_step_pin == step_after(old(self).axes, channels, Z_BIT, old(self).z_step_pin, true),
            final(self).e_step_pin == step_after(old(self).axes, channels, E_BIT, old(self).e_step_pin, true),
            same_but_steps(*old(self), *final(self)),
    {
        self.set_steps(channels, true);
    }

    /// Drives the step pin of each selected wired axis low.
    pub fn step_low(&mut self, channels: StepperChannel)
        ensures
            final(self).x_step_pin == step_after(old(self).axes, channels, X_BIT, old(self).x_step_pin, false),
            final(self).y_step_pin == step_after(old(self).axes, channels, Y_BIT, old(self).y_step_pin, false),
            final(self).z_step_pin == step_after(old(self).axes, channels, Z_BIT, old(self).z_step_pin, false),
            final(self).e_step_pin == step_after(old(self).axes, channels, E_BIT, old(self).e_step_pin, false),
            same_but_steps(*old(self), *final(self)),
    {
        self.set_steps(channels, false);
    }

    fn set_steps(&mut self, channels: StepperChannel, level: bool)
        ensures
            final(self).x_step_pin == step_after(old(self).axes, channels, X_BIT, old(self).x_step_pin, level),
            final(self).y_step_pin == step_after(old(self).axes, channels, Y_BIT, old(self).y_step_pin, level),
            final(self).z_step_pin == step_after(old(self).axes, channels, Z_BIT, old(self).z_step_pin, level),
            final(self).e_step_pin == step_after(old(self).axes, channels, E_BIT, old(self).e_step_pin, level),
            same_but_steps(*old(self), *final(self)),
    {
        let axes = self.axes;
        let x = if axes.contains(StepperChannel::x()) && channels.contains(StepperChannel::x()) { level } else { self.x_step_pin };
        let y = if axes.contains(StepperChannel::y()) && channels.contains(StepperChannel::y()) { level } else { self.y_step_pin };
        let z = if axes.contains(StepperChannel::z()) && channels.contains(StepperChannel::z()) { level } else { self.z_step_pin };
        let e = if axes.contains(StepperChannel::e()) && channels.contains(StepperChannel::e()) { level } else { self.e_step_pin };
        self.x_step_pin = x;
        self.y_step_pin = y;
        self.z_step_pin = z;
        self.e_step_pin = e;
    }

    /// Whether the endstop of any selected wired axis reads triggered.
    pub fn endstop_triggered(&mut self, channels: StepperChannel) -> (r: bool)
        ensures
            r == spec_endstop_triggered(*old(self), channels),
            *final(self) == *old(self),
    {
        let axes = self.axes;
        let mut triggered = false;
        if axes.contains(StepperChannel::x()) && channels.contains(StepperChannel::x()) {
            triggered = triggered || self.x_endstop_pin;
        }
        if axes.contains(StepperChannel::y()) && channels.contains(StepperChannel::y()) {
            triggered = triggered || self.y_endstop_pin;
        }
        if axes.contains(StepperChannel::z()) && channels.contains(StepperChannel::z()) {
            triggered = triggered || self.z_endstop_pin;
        }
        triggered
    }
}

/// The motion hardware of a board.
pub struct MotionDevice {
    pub motion_pins: MotionPins,
}

/// The SD card of a board on its SPI bus: the bus number and the level of
/// its chip-select line.
pub struct CardDevice {
    pub card_spi: u8,
    pub card_cs: bool,
}

} // verus!
