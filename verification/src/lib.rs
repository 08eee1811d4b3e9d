//! Verified device logic for VEX V5 robots: ports, sensors, controllers, the
//! display and competition control, stated over plain values so that every
//! decision the brain's drivers make can be checked by Verus.

pub mod adi;
pub mod color;
pub mod competition;
pub mod controller;
pub mod display;
pub mod geometry;
pub mod graphics;
pub mod math;
pub mod peripherals;
pub mod screen;
pub mod smart;

use vstd::prelude::*;

verus! {

} // verus!

