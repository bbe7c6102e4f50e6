use vstd::prelude::*;

verus! {

/// The fixed reading that initialization stores.
pub const INIT_READING: u32 = 42;

/// A minimal stateful device record: `active` says whether the sensor has
/// been initialized, `latest` holds its most recent reading.
///
/// The type deliberately implements no implicit duplication: assigning a
/// `Sensor` to a new binding, or passing one by value, moves exclusive
/// ownership away from the source binding, which the compiler then rejects
/// any further use of.
pub struct Sensor {
    pub active: bool,
    pub latest: u32,
}

impl Sensor {
    /// The state of a freshly constructed sensor: not yet initialized,
    /// with a zero reading.
    pub open spec fn is_fresh(self) -> bool {
        !self.active && self.latest == 0
    }

    /// The state of an initialized sensor: active, holding the fixed
    /// reading.
    pub open spec fn is_initialized(self) -> bool {
        self.active && self.latest == INIT_READING
    }

    /// Constructs a sensor in the fresh state. No inputs, no failure modes.
    pub fn new() -> (s: Sensor)
        ensures
            s.is_fresh(),
    {
        Sensor { active: false, latest: 0 }
    }

    /// Initializes the sensor in place: sets `active` and stores the fixed
    /// reading. Requires exclusive access to the receiver.
    pub fn init(&mut self)
        ensures
            final(self).is_initialized(),
    {
        self.active = true;
        self.latest = INIT_READING;
    }

    /// Returns the current reading. Shared access suffices, and the call
    /// changes nothing: the result is exactly `latest` as it stands.
    pub fn read(&self) -> (r: u32)
        ensures
            r == self.latest,
    {
        self.latest
    }
}

/// Consumes a sensor and returns its latest reading. Ownership of `s`
/// moves into this call, so the caller's binding is unusable afterward and
/// the sensor is dropped when the call returns.
pub fn use_sensor(s: Sensor) -> (r: u32)
    ensures
        r == s.latest,
{
    s.read()
}

/// Reports a sensor's latest reading through a shared borrow. Ownership
/// stays with the caller, whose binding remains valid, and the sensor is
/// unchanged: only read access is taken.
pub fn use_sensor_borrow(sb: &Sensor) -> (r: u32)
    ensures
        r == sb.latest,
{
    sb.read()
}

/// Reading an initialized sensor yields exactly the fixed reading: the
/// result of `read` is a pure function of the sensor's state, so repeated
/// reads of the same initialized sensor all return that value.
pub proof fn lemma_read_after_init(s: Sensor)
    requires
        s.is_initialized(),
    ensures
        s.latest == INIT_READING,
{
}

} // verus!
