use vstd::prelude::*;
use vstd::slice::slice_to_vec;

verus! {

/// A blocking, register-addressed bus capability.
///
/// The device is reached by writing a payload to an 8-bit register address
/// within the bus's 7-bit address space. Errors are opaque to the driver and
/// are forwarded to its caller unmodified.
///
/// The ghost state of a bus is the history of the writes that have completed
/// on it, oldest first, each as a `(register address, payload)` pair. A
/// successful `write` appends exactly one entry to that history. After a
/// failed `write` nothing is promised of the history: a partial transfer may
/// have reached the device, whose state the caller must then re-establish.
pub trait RegisterBus: Sized {
    /// The transport's error type, forwarded to callers unmodified.
    type BusError;

    /// The history of completed writes: `(register address, payload)` pairs,
    /// oldest first.
    spec fn writes(&self) -> Seq<(u8, Seq<u8>)>;

    /// Blocks until the bus has written `bytes` to the register `address`,
    /// or fails with the transport's own error.
    fn write(&mut self, address: u8, bytes: &[u8]) -> (result: Result<(), Self::BusError>)
        requires
            address < 0x80,
        ensures
            result is Ok ==> final(self).writes() == old(self).writes().push((address, bytes@)),
    ;
}

/// The unverified face of a bus transport: the same write operation as
/// `RegisterBus`, with no ghost history, so that ordinary Rust code can
/// implement it for any hardware it owns. `TrackedBus` lifts such a
/// transport into a `RegisterBus` by mirroring the completed writes in
/// ghost state.
pub trait RawRegisterBus: Sized {
    /// The transport's error type, forwarded to callers unmodified.
    type BusError;

    /// Blocks until the bus has written `bytes` to the register `address`,
    /// or fails with the transport's own error.
    fn write(&mut self, address: u8, bytes: &[u8]) -> Result<(), Self::BusError>;
}

/// A bus that records every write and never fails: the transport used by the
/// test suite to observe exactly which bytes a driver puts on the wire.
pub struct RecordingBus {
    /// Every completed write, oldest first, as `(register address, payload)`.
    pub log: Vec<(u8, Vec<u8>)>,
}

impl RecordingBus {
    /// A fresh bus with an empty write history.
    pub fn new() -> (bus: RecordingBus)
        ensures
            bus.writes() == Seq::<(u8, Seq<u8>)>::empty(),
    {
        RecordingBus { log: Vec::new() }
    }
}

impl RegisterBus for RecordingBus {
    type BusError = ();

    open spec fn writes(&self) -> Seq<(u8, Seq<u8>)> {
        self.log@.map_values(|entry: (u8, Vec<u8>)| (entry.0, entry.1@))
    }

    fn write(&mut self, address: u8, bytes: &[u8]) -> (result: Result<(), ()>)
    {
        let payload: Vec<u8> = slice_to_vec(bytes);
        self.log.push((address, payload));
        proof {
            assert(self.writes() =~~= old(self).writes().push((address, bytes@)));
        }
        Ok(())
    }
}

impl RawRegisterBus for RecordingBus {
    type BusError = ();

    fn write(&mut self, address: u8, bytes: &[u8]) -> Result<(), ()> {
        let payload: Vec<u8> = slice_to_vec(bytes);
        self.log.push((address, payload));
        Ok(())
    }
}

/// A raw transport lifted into a `RegisterBus`: the history of completed
/// writes is mirrored in ghost state, with an entry recorded exactly when
/// the transport reports a write complete.
pub struct TrackedBus<T> {
    raw: T,
    history: Ghost<Seq<(u8, Seq<u8>)>>,
}

impl<T: RawRegisterBus> TrackedBus<T> {
    /// Lift `raw`, with an empty write history.
    pub fn new(raw: T) -> (bus: Self)
        ensures
            bus.writes() == Seq::<(u8, Seq<u8>)>::empty(),
    {
        TrackedBus { raw, history: Ghost(Seq::empty()) }
    }

    /// Hand the raw transport back to the caller.
    pub fn release(self) -> T {
        self.raw
    }
}

impl<T: RawRegisterBus> RegisterBus for TrackedBus<T> {
    type BusError = T::BusError;

    closed spec fn writes(&self) -> Seq<(u8, Seq<u8>)> {
        self.history@
    }

    fn write(&mut self, address: u8, bytes: &[u8]) -> (result: Result<(), T::BusError>) {
        let result = self.raw.write(address, bytes);
        if result.is_ok() {
            self.history = Ghost(self.history@.push((address, bytes@)));
        }
        result
    }
}

} // verus!
