//! I/O port numbers and the byte writes that a driver hands to the port
//! instructions.
use core::marker::PhantomData;
use vstd::prelude::*;

verus! {

/// An I/O port that carries values of type `T`.
#[derive(Debug)]
pub struct Port<T> {
    port: u16,
    phantom: PhantomData<T>,
}

impl<T> View for Port<T> {
    type V = u16;

    closed spec fn view(&self) -> u16 {
        self.port
    }
}

impl<T> Port<T> {
    pub fn new(port: u16) -> (r: Port<T>)
        ensures
            r@ == port,
    {
        Port { port, phantom: PhantomData }
    }

    /// The port number.
    pub fn number(&self) -> (r: u16)
        ensures
            r == self@,
    {
        self.port
    }
}

} // verus!
