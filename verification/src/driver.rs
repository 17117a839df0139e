//! The registry of qualified entropy generators and the public retrieval API.
//!
//! `initialize` scans the bus, qualifies candidates (bridge-chip ids, open,
//! language table, serial prefix, description, configuration and interface
//! claim — any single-device failure skips that device) and builds the
//! serial-keyed table. Retrieval locks one generator for a whole
//! start-read-stop session, so commands to a single device never interleave,
//! while distinct devices proceed in parallel behind their own locks.

use crate::constants::{
    BRIDGE_INTERFACE, BRIDGE_PRODUCT_ID, BRIDGE_VENDOR_ID, TRANSFER_TIMEOUT_MS,
};
use crate::decode::{int32_from_le_bytes, u64_from_le_bytes};
use crate::generator::{Generator, MeterFeederError};
use crate::transport;
use crate::transport::{UsbDevice, UsbHandle};
use vstd::prelude::*;
use vstd::rwlock::{RwLock, RwLockPredicate};
use vstd::string::StrSliceExecFns;

verus! {

/// Exact equality of two strings, over their character views.
fn str_eq(a: &str, b: &str) -> (r: bool)
    ensures
        r == (a@ == b@),
{
    let a_len = a.unicode_len();
    let b_len = b.unicode_len();
    if a_len != b_len {
        return false;
    }
    let mut i: usize = 0;
    while i < a_len
        invariant
            i <= a_len,
            a_len == a@.len(),
            a_len == b@.len(),
            forall|k: int| 0 <= k < i ==> a@[k] == b@[k],
        decreases a_len - i,
    {
        if a.get_char(i) != b.get_char(i) {
            return false;
        }
        i += 1;
    }
    proof {
        assert(a@ =~= b@);
    }
    true
}

/// Serial numbers of the supported product line start with the
/// vendor-assigned three-character family prefix; devices without it are
/// unrelated peripherals on the same bridge chip.
pub open spec fn spec_is_family_serial(s: Seq<char>) -> bool {
    s.len() >= 3 && s[0] == 'Q' && s[1] == 'W' && s[2] == 'R'
}

/// Decides whether a serial number belongs to the supported product line.
pub fn is_family_serial(serial: &str) -> (r: bool)
    ensures
        r == spec_is_family_serial(serial@),
{
    if serial.unicode_len() < 3 {
        return false;
    }
    serial.get_char(0) == 'Q' && serial.get_char(1) == 'W' && serial.get_char(2) == 'R'
}

/// Invariant each generator's lock maintains: the lock admits exactly the
/// generators that carry its table entry's serial number and description.
pub struct GenPred {
    pub serial: Seq<char>,
    pub description: Seq<char>,
}

impl RwLockPredicate<Generator> for GenPred {
    open spec fn inv(self, g: Generator) -> bool {
        g.spec_serial() == self.serial && g.spec_description() == self.description
    }
}

/// One table entry: the serial key, the cached description, and the
/// exclusively lockable generator.
struct GeneratorSlot {
    serial: String,
    description: String,
    cell: RwLock<Generator, GenPred>,
}

/// Finds the slot keyed by `serial`, if any.
fn find_slot(slots: &Vec<GeneratorSlot>, serial: &str) -> (r: Option<usize>)
    ensures
        match r {
            Some(i) => i < slots@.len() && slots@[i as int].serial@ == serial@,
            None => forall|k: int| 0 <= k < slots@.len() ==> slots@[k].serial@ != serial@,
        },
{
    let n = slots.len();
    let mut i: usize = 0;
    while i < n
        invariant
            n == slots@.len(),
            i <= n,
            forall|k: int| 0 <= k < i ==> slots@[k].serial@ != serial@,
        decreases n - i,
    {
        if str_eq(slots[i].serial.as_str(), serial) {
            return Some(i);
        }
        i += 1;
    }
    None
}

/// Applies the qualification steps to one enumerated device. Any failing
/// step disqualifies the device (`None`); a qualified device hands back its
/// serial number, its description and the configured, claimed handle.
fn qualify_device(device: &UsbDevice) -> (r: Option<(String, String, UsbHandle)>)
    ensures
        r matches Some(t) ==> spec_is_family_serial(t.0@),
{
    let descriptor = match transport::device_descriptor(device) {
        Err(_) => {
            return None;
        },
        Ok(d) => d,
    };
    if transport::descriptor_vendor_id(&descriptor) != BRIDGE_VENDOR_ID {
        return None;
    }
    if transport::descriptor_product_id(&descriptor) != BRIDGE_PRODUCT_ID {
        return None;
    }
    let handle = match transport::open_device(device) {
        Err(_) => {
            return None;
        },
        Ok(h) => h,
    };
    let languages = match transport::read_languages(&handle, TRANSFER_TIMEOUT_MS) {
        Err(_) => {
            return None;
        },
        Ok(l) => l,
    };
    if languages.len() == 0 {
        return None;
    }
    let serial = match transport::read_serial_number_string(
        &handle,
        &languages[0],
        &descriptor,
        TRANSFER_TIMEOUT_MS,
    ) {
        Err(_) => {
            return None;
        },
        Ok(s) => s,
    };
    if !is_family_serial(serial.as_str()) {
        return None;
    }
    let description = match transport::read_product_string(
        &handle,
        &languages[0],
        &descriptor,
        TRANSFER_TIMEOUT_MS,
    ) {
        Err(_) => {
            return None;
        },
        Ok(s) => s,
    };
    if transport::set_active_configuration(&handle, 1).is_err() {
        return None;
    }
    if transport::claim_interface(&handle, BRIDGE_INTERFACE).is_err() {
        return None;
    }
    Some((serial, description, handle))
}

/// The registry: owns the bus context and the serial-keyed table of
/// generators, and arbitrates concurrent access to each of them.
pub struct Driver {
    context: rusb::Context,
    generators: Vec<GeneratorSlot>,
}

impl Driver {
    /// Serial numbers of the registered generators, in table order.
    pub closed spec fn spec_serials(&self) -> Seq<Seq<char>> {
        Seq::new(self.generators@.len(), |i: int| self.generators@[i].serial@)
    }

    /// Descriptions of the registered generators, in table order.
    pub closed spec fn spec_descriptions(&self) -> Seq<Seq<char>> {
        Seq::new(self.generators@.len(), |i: int| self.generators@[i].description@)
    }

    /// Number of registered generators.
    pub open spec fn spec_count(&self) -> nat {
        self.spec_serials().len()
    }

    /// Whether some registered generator is keyed by `serial`.
    pub open spec fn has_serial(&self, serial: Seq<char>) -> bool {
        exists|i: int| 0 <= i < self.spec_serials().len() && self.spec_serials()[i] == serial
    }

    /// Whether entry `i`'s lock admits the generator `g`.
    pub closed spec fn spec_entry_admits(&self, i: int, g: Generator) -> bool {
        self.generators@[i].cell.inv(g)
    }

    /// Well-formedness of the registry table: no two entries share a serial,
    /// every entry's serial carries the family prefix qualification demands,
    /// and each entry's lock admits exactly the generators carrying that
    /// entry's serial number and description.
    pub closed spec fn wf(&self) -> bool {
        &&& forall|i: int, j: int|
            0 <= i < self.generators@.len() && 0 <= j < self.generators@.len() && i != j
                ==> #[trigger] self.generators@[i].serial@ != #[trigger] self.generators@[j].serial@
        &&& forall|i: int|
            0 <= i < self.generators@.len() ==> spec_is_family_serial(
                #[trigger] self.generators@[i].serial@,
            )
        &&& forall|i: int|
            0 <= i < self.generators@.len()
                ==> (#[trigger] self.generators@[i]).cell.pred() == (GenPred {
                serial: self.generators@[i].serial@,
                description: self.generators@[i].description@,
            })
    }

    /// Creates a registry with an empty table over a fresh bus context.
    pub fn new() -> (r: Result<Driver, MeterFeederError>)
        ensures
            r matches Ok(d) ==> d.wf() && d.spec_count() == 0,
            r matches Err(e) ==> e is UsbError,
    {
        match transport::new_context() {
            Ok(context) => Ok(Driver { context, generators: Vec::new() }),
            Err(e) => Err(MeterFeederError::UsbError(e)),
        }
    }

    /// Finds the table index keyed by `serial`, if any.
    fn find(&self, serial: &str) -> (r: Option<usize>)
        ensures
            match r {
                Some(i) => i < self.spec_count() && self.spec_serials()[i as int] == serial@,
                None => !self.has_serial(serial@),
            },
    {
        find_slot(&self.generators, serial)
    }

    /// Scans the bus and rebuilds the table from the qualifying devices,
    /// discarding the previous table. Every single-device problem merely
    /// excludes that device; the scan itself failing is a transport error,
    /// and a scan that qualifies no device at all fails with
    /// `DeviceNotFound`, leaving the table empty.
    pub fn initialize(&mut self) -> (r: Result<(), MeterFeederError>)
        requires
            old(self).wf(),
        ensures
            final(self).wf(),
            r is Ok ==> final(self).spec_count() > 0,
            r matches Err(e) ==> e is UsbError || e is DeviceNotFound,
            (r matches Err(MeterFeederError::DeviceNotFound)) ==> final(self).spec_count() == 0,
            (r matches Err(MeterFeederError::UsbError(_))) ==> *final(self) == *old(self),
    {
        let devices = match transport::list_devices(&self.context) {
            Err(e) => {
                return Err(MeterFeederError::UsbError(e));
            },
            Ok(d) => d,
        };
        let mut slots: Vec<GeneratorSlot> = Vec::new();
        let mut di: usize = 0;
        while di < devices.len()
            invariant
                forall|i: int, j: int|
                    0 <= i < slots@.len() && 0 <= j < slots@.len() && i != j
                        ==> #[trigger] slots@[i].serial@ != #[trigger] slots@[j].serial@,
                forall|i: int|
                    0 <= i < slots@.len() ==> (#[trigger] slots@[i]).cell.pred() == (GenPred {
                        serial: slots@[i].serial@,
                        description: slots@[i].description@,
                    }),
                forall|i: int|
                    0 <= i < slots@.len() ==> spec_is_family_serial(
                        #[trigger] slots@[i].serial@,
                    ),
            decreases devices@.len() - di,
        {
            match qualify_device(&devices[di]) {
                None => {},
                Some((serial, description, handle)) => {
                    let generator = Generator::new(serial.clone(), description.clone(), handle);
                    let cell = RwLock::<Generator, GenPred>::new(
                        generator,
                        Ghost(GenPred { serial: serial@, description: description@ }),
                    );
                    let slot = GeneratorSlot { serial, description, cell };
                    match find_slot(&slots, slot.serial.as_str()) {
                        Some(i) => {
                            let ghost old_slots = slots@;
                            let _ = slots.remove(i);
                            proof {
                                old_slots.remove_ensures(i as int);
                            }
                            slots.push(slot);
                        },
                        None => {
                            slots.push(slot);
                        },
                    }
                },
            }
            di += 1;
        }
        self.generators = slots;
        if self.generators.len() == 0 {
            return Err(MeterFeederError::DeviceNotFound);
        }
        Ok(())
    }

    /// Drains the table; each generator's claimed interface is released on a
    /// best-effort basis and its handle is discarded.
    pub fn shutdown(&mut self)
        ensures
            final(self).wf(),
            final(self).spec_count() == 0,
    {
        while self.generators.len() > 0
            decreases self.generators@.len(),
        {
            let slot = self.generators.pop().unwrap();
            let mut generator = slot.cell.into_inner();
            let _ = generator.release_interface(BRIDGE_INTERFACE);
        }
    }

    /// Stops streaming on the generator keyed by `serial` — the reset and
    /// the stop byte it issues are stated by the contract of
    /// [`Generator::stop_streaming`], to which the locked call is delegated.
    /// An absent serial is a no-op, never an error.
    pub fn clear(&self, serial: &str) -> (r: Result<(), MeterFeederError>)
        requires
            self.wf(),
        ensures
            !self.has_serial(serial@) ==> r is Ok,
            r matches Err(e) ==> e is UsbError && self.has_serial(serial@),
    {
        match self.find(serial) {
            None => Ok(()),
            Some(i) => {
                let slot = &self.generators[i];
                let (mut generator, handle) = slot.cell.acquire_write();
                let res = generator.stop_streaming();
                handle.release_write(generator);
                res
            },
        }
    }

    /// Number of connected and successfully initialized generators.
    pub fn get_number_generators(&self) -> (r: usize)
        ensures
            r == self.spec_count(),
    {
        self.generators.len()
    }

    /// The registered serial numbers, in table order.
    pub fn get_serial_list(&self) -> (r: Vec<String>)
        ensures
            r@.len() == self.spec_count(),
            forall|i: int| 0 <= i < r@.len() ==> #[trigger] r@[i]@ == self.spec_serials()[i],
    {
        let mut out: Vec<String> = Vec::new();
        let mut i: usize = 0;
        while i < self.generators.len()
            invariant
                i <= self.generators@.len(),
                out@.len() == i,
                forall|k: int| 0 <= k < i ==> #[trigger] out@[k]@ == self.spec_serials()[k],
            decreases self.generators@.len() - i,
        {
            out.push(self.generators[i].serial.clone());
            i += 1;
        }
        out
    }

    /// The registered generators as (serial, description) pairs, in table
    /// order.
    pub fn get_generators_list(&self) -> (r: Vec<(String, String)>)
        ensures
            r@.len() == self.spec_count(),
            forall|i: int| 0 <= i < r@.len() ==> #[trigger] r@[i].0@ == self.spec_serials()[i],
            forall|i: int|
                0 <= i < r@.len() ==> #[trigger] r@[i].1@ == self.spec_descriptions()[i],
    {
        let mut out: Vec<(String, String)> = Vec::new();
        let mut i: usize = 0;
        while i < self.generators.len()
            invariant
                i <= self.generators@.len(),
                out@.len() == i,
                forall|k: int| 0 <= k < i ==> #[trigger] out@[k].0@ == self.spec_serials()[k],
                forall|k: int| 0 <= k < i ==> #[trigger] out@[k].1@ == self.spec_descriptions()[k],
            decreases self.generators@.len() - i,
        {
            out.push(
                (self.generators[i].serial.clone(), self.generators[i].description.clone()),
            );
            i += 1;
        }
        out
    }

    /// One whole entropy session on the generator keyed by `serial`: under
    /// that generator's exclusive lock, start streaming, read exactly
    /// `length` bytes, stop streaming — the commands issued and their order
    /// are stated by the contract of [`Generator::run_session`], to which
    /// the locked session is delegated. Succeeds with exactly `length` bytes
    /// or fails — never a silently short or long result. Fails with
    /// `DeviceNotFound` exactly when the serial is not registered.
    pub fn get_bytes(&self, serial: &str, length: usize) -> (r: Result<Vec<u8>, MeterFeederError>)
        requires
            self.wf(),
        ensures
            r matches Ok(bytes) ==> bytes@.len() == length && self.has_serial(serial@),
            (r matches Err(MeterFeederError::DeviceNotFound)) <==> !self.has_serial(serial@),
            r matches Err(e) ==> e is DeviceNotFound || e is UsbError || e is ReadLengthMismatch,
    {
        match self.find(serial) {
            None => Err(MeterFeederError::DeviceNotFound),
            Some(i) => {
                let slot = &self.generators[i];
                let (mut generator, handle) = slot.cell.acquire_write();
                let r = generator.run_session(length);
                handle.release_write(generator);
                r
            },
        }
    }

    /// A single byte of entropy: the one byte of `get_bytes(serial, 1)`.
    pub fn get_byte(&self, serial: &str) -> (r: Result<u8, MeterFeederError>)
        requires
            self.wf(),
        ensures
            r is Ok ==> self.has_serial(serial@),
            (r matches Err(MeterFeederError::DeviceNotFound)) <==> !self.has_serial(serial@),
            r matches Err(e) ==> e is DeviceNotFound || e is UsbError || e is ReadLengthMismatch,
    {
        let bytes = match self.get_bytes(serial, 1) {
            Err(e) => {
                return Err(e);
            },
            Ok(b) => b,
        };
        Ok(bytes[0])
    }

    /// A signed 32-bit integer: the little-endian decode of four fresh
    /// entropy bytes.
    pub fn get_int32(&self, serial: &str) -> (r: Result<i32, MeterFeederError>)
        requires
            self.wf(),
        ensures
            r is Ok ==> self.has_serial(serial@),
            (r matches Err(MeterFeederError::DeviceNotFound)) <==> !self.has_serial(serial@),
            r matches Err(e) ==> e is DeviceNotFound || e is UsbError || e is ReadLengthMismatch,
    {
        let bytes = match self.get_bytes(serial, 4) {
            Err(e) => {
                return Err(e);
            },
            Ok(b) => b,
        };
        Ok(int32_from_le_bytes(bytes[0], bytes[1], bytes[2], bytes[3]))
    }

    /// An unsigned 64-bit value: the little-endian decode of eight fresh
    /// entropy bytes. The uniform draw in [0, 1) is a floating-point
    /// normalization of this value, which lives with the callers; it must
    /// stay strictly below 1.0 even at the all-ones draw.
    pub fn get_u64(&self, serial: &str) -> (r: Result<u64, MeterFeederError>)
        requires
            self.wf(),
        ensures
            r is Ok ==> self.has_serial(serial@),
            (r matches Err(MeterFeederError::DeviceNotFound)) <==> !self.has_serial(serial@),
            r matches Err(e) ==> e is DeviceNotFound || e is UsbError || e is ReadLengthMismatch,
    {
        let bytes = match self.get_bytes(serial, 8) {
            Err(e) => {
                return Err(e);
            },
            Ok(b) => b,
        };
        Ok(
            u64_from_le_bytes(
                bytes[0],
                bytes[1],
                bytes[2],
                bytes[3],
                bytes[4],
                bytes[5],
                bytes[6],
                bytes[7],
            ),
        )
    }
}

/// Law: in a well-formed registry every entry is keyed by its own
/// generator's serial number — a generator the entry's lock admits carries
/// exactly the entry's serial and description.
pub proof fn lemma_entry_keyed_by_own_serial(d: &Driver, i: int, g: Generator)
    requires
        d.wf(),
        0 <= i < d.spec_count(),
        d.spec_entry_admits(i, g),
    ensures
        g.spec_serial() == d.spec_serials()[i],
        g.spec_description() == d.spec_descriptions()[i],
{
}

/// Law: in a well-formed registry every registered serial number carries the
/// three-character family prefix — qualification admits no other device, and
/// the table keeps that shape through every later call.
pub proof fn lemma_registered_serials_have_family_prefix(d: &Driver, i: int)
    requires
        d.wf(),
        0 <= i < d.spec_count(),
    ensures
        spec_is_family_serial(d.spec_serials()[i]),
{
}

/// Law: in a well-formed registry distinct table entries carry distinct
/// serial numbers, so sessions keyed by different serials take different
/// locks and proceed independently.
pub proof fn lemma_distinct_serials_distinct_entries(d: &Driver, i: int, j: int)
    requires
        d.wf(),
        0 <= i < d.spec_count(),
        0 <= j < d.spec_count(),
        i != j,
    ensures
        d.spec_serials()[i] != d.spec_serials()[j],
{
}

} // verus!
