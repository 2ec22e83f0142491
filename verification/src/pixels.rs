//! The display-side pixel abstraction.
//!
//! A display backend exposes a flat array of RGBA LEDs. The engine writes
//! into it through the `LedArray` capability; backends (network, driver,
//! test doubles) implement it outside the engine. `RgbOrder` and
//! `RgbLedArray` adapt the channel order to what a given LED strip expects.

use vstd::prelude::*;

verus! {

/// One RGBA pixel value.
#[derive(Clone, Copy, Debug, PartialEq, Eq, Structural)]
pub struct Led {
    pub r: u8,
    pub g: u8,
    pub b: u8,
    pub a: u8,
}

/// A flat array of addressable LEDs, implemented by display backends.
pub trait LedArray {
    /// Number of addressable LEDs.
    fn len(&self) -> usize;

    /// Writes one pixel; a write at or past `len` must be ignored, not fail.
    fn set_color_rgba(&mut self, lednum: usize, r: u8, g: u8, b: u8, a: u8);

    /// Writes one pixel from a packed value.
    fn set_color(&mut self, lednum: usize, led: Led) {
        self.set_color_rgba(lednum, led.r, led.g, led.b, led.a);
    }

    /// Pushes the written pixels out to the device.
    fn show(&mut self) -> Result<(), ()>;
}

/// The order in which an LED strip expects its three color channels.
#[derive(Clone, Copy, Debug, PartialEq, Eq, Structural)]
pub enum RgbOrder {
    Rgb,
    Rbg,
    Gbr,
    Grb,
    Bgr,
    Brg,
}

/// Channel reordering as a pure function, for contracts.
pub open spec fn transform_spec(o: RgbOrder, r: u8, g: u8, b: u8) -> (u8, u8, u8) {
    match o {
        RgbOrder::Rgb => (r, g, b),
        RgbOrder::Rbg => (r, b, g),
        RgbOrder::Gbr => (g, b, r),
        RgbOrder::Grb => (g, r, b),
        RgbOrder::Bgr => (b, g, r),
        RgbOrder::Brg => (b, r, g),
    }
}

/// The channel order a configuration name denotes, for contracts.
pub open spec fn rgb_order_spec(s: Seq<char>) -> Result<RgbOrder, ()> {
    if s == "rgb"@ {
        Ok(RgbOrder::Rgb)
    } else if s == "rbg"@ {
        Ok(RgbOrder::Rbg)
    } else if s == "bgr"@ {
        Ok(RgbOrder::Bgr)
    } else if s == "brg"@ {
        Ok(RgbOrder::Brg)
    } else if s == "gbr"@ {
        Ok(RgbOrder::Gbr)
    } else if s == "grb"@ {
        Ok(RgbOrder::Grb)
    } else {
        Err(())
    }
}

impl RgbOrder {
    /// Parses a configuration name such as `"rgb"` or `"bgr"`; any other
    /// string is rejected.
    pub fn new(rgb: &str) -> (res: Result<RgbOrder, ()>)
        ensures
            res == rgb_order_spec(rgb@),
    {
        let s = String::from_str(rgb);
        if s == String::from_str("rgb") {
            return Ok(RgbOrder::Rgb);
        }
        if s == String::from_str("rbg") {
            return Ok(RgbOrder::Rbg);
        }
        if s == String::from_str("bgr") {
            return Ok(RgbOrder::Bgr);
        }
        if s == String::from_str("brg") {
            return Ok(RgbOrder::Brg);
        }
        if s == String::from_str("gbr") {
            return Ok(RgbOrder::Gbr);
        }
        if s == String::from_str("grb") {
            return Ok(RgbOrder::Grb);
        }
        Err(())
    }

    /// Reorders the three color channels.
    pub fn transform(&self, r: u8, g: u8, b: u8) -> (t: (u8, u8, u8))
        ensures
            t == transform_spec(*self, r, g, b),
    {
        match *self {
            RgbOrder::Rgb => (r, g, b),
            RgbOrder::Rbg => (r, b, g),
            RgbOrder::Gbr => (g, b, r),
            RgbOrder::Grb => (g, r, b),
            RgbOrder::Bgr => (b, g, r),
            RgbOrder::Brg => (b, r, g),
        }
    }
}

/// An LED array that reorders color channels before handing pixels on to the
/// backend it wraps.
pub struct RgbLedArray<T: LedArray> {
    leds: T,
    rgb: RgbOrder,
}

impl<T: LedArray> RgbLedArray<T> {
    /// Wraps a backend with a channel order.
    pub fn new(leds: T, rgb: RgbOrder) -> (a: RgbLedArray<T>) {
        RgbLedArray { leds, rgb }
    }
}

impl<T: LedArray> LedArray for RgbLedArray<T> {
    fn len(&self) -> usize {
        self.leds.len()
    }

    fn set_color_rgba(&mut self, lednum: usize, r: u8, g: u8, b: u8, a: u8) {
        let (r2, g2, b2) = self.rgb.transform(r, g, b);
        self.leds.set_color_rgba(lednum, r2, g2, b2, a)
    }

    fn show(&mut self) -> Result<(), ()> {
        self.leds.show()
    }
}

} // verus!
