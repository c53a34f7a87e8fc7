//! Markers that select, at compile time, which operations a configuration or driver offers.
use core::marker::PhantomData;
use vstd::prelude::*;

use crate::driver::{SlaveOrMaster, TransmitOrReceive};

verus! {

/// Marker of the master role.
pub struct Master;

/// Marker of the slave role.
pub struct Slave;

/// Marker of the transmit direction.
pub struct Transmit;

/// Marker of the receive direction.
pub struct Receive;

/// A role (`Master` or `Slave`) together with a direction (`Transmit` or `Receive`).
pub struct Mode<MS, TR> {
    _ms: PhantomData<MS>,
    _tr: PhantomData<TR>,
}

/// A role marker, with the role it stands for.
pub trait RoleMarker: crate::Sealed {
    spec fn role() -> SlaveOrMaster;
}

/// A direction marker, with the direction it stands for.
pub trait DirectionMarker: crate::Sealed {
    spec fn direction() -> TransmitOrReceive;
}

impl crate::Sealed for Master {

}

impl crate::Sealed for Slave {

}

impl crate::Sealed for Transmit {

}

impl crate::Sealed for Receive {

}

impl RoleMarker for Master {
    open spec fn role() -> SlaveOrMaster {
        SlaveOrMaster::Master
    }
}

impl RoleMarker for Slave {
    open spec fn role() -> SlaveOrMaster {
        SlaveOrMaster::Slave
    }
}

impl DirectionMarker for Transmit {
    open spec fn direction() -> TransmitOrReceive {
        TransmitOrReceive::Transmit
    }
}

impl DirectionMarker for Receive {
    open spec fn direction() -> TransmitOrReceive {
        TransmitOrReceive::Receive
    }
}

} // verus!
