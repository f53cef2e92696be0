//! The record that a session keeps of its device: the serial number, when the
//! device connected, when it last sent a heartbeat, and how long it may stay
//! silent.
//!
//! All times are microseconds since the epoch and are handed in by the caller;
//! nothing here reads a clock.

use vstd::prelude::*;
use vstd::string::StringExecFns;

verus! {

/// The heartbeat period of a device that was given none: twenty seconds.
pub const DEFAULT_HEARTBEAT_PERIOD: u64 = 20_000_000;

/// Why reading from or writing to a device's stream failed.
#[derive(Debug, PartialEq, Eq, Structural, Clone, Copy)]
pub enum ReadWriteErrorCode {
    FLUSHFAIL,
    CONNECTIONBROKEN,
    TIMEOUT,
    NULLSTREAM,
    DATAINVAILD,
    NULLDATA,
}

/// A device, bound to one serial number.
#[derive(Debug, Clone)]
pub struct Device {
    /// The serial number.
    pub sn: String,
    /// When the connection came in.
    pub born_time: u64,
    /// Whether the device counted as alive when that was last decided.
    pub alive: bool,
    /// When the device last sent a heartbeat.
    pub last_heartbeat_time: u64,
    /// How long the device may stay silent.
    pub heartbeat_period: u64,
}

/// A device as a mathematical value.
pub struct DeviceView {
    pub sn: Seq<char>,
    pub born_time: u64,
    pub alive: bool,
    pub last_heartbeat_time: u64,
    pub heartbeat_period: u64,
}

impl View for Device {
    type V = DeviceView;

    open spec fn view(&self) -> DeviceView {
        DeviceView {
            sn: self.sn@,
            born_time: self.born_time,
            alive: self.alive,
            last_heartbeat_time: self.last_heartbeat_time,
            heartbeat_period: self.heartbeat_period,
        }
    }
}

/// Whether a device that last sent a heartbeat at `last` and may stay silent for
/// `period` is alive at `now`, given that it was `alive` before. Where the
/// clock has gone back behind the last heartbeat nothing can be told, and the
/// device stays what it was.
pub open spec fn alive_at(last: u64, period: u64, alive: bool, now: u64) -> bool {
    if now >= last {
        now - last < period
    } else {
        alive
    }
}

/// The serial number that a piece of text names: the text itself.
pub fn get_sn_from_string(info: String) -> (sn: String)
    ensures
        sn@ == info@,
{
    info
}

/// The message that announces a device as online.
pub open spec fn online_msg_of(sn: Seq<char>) -> Seq<char> {
    "{ \"type\": \"online\", \"sn\": \""@ + sn + "\" }"@
}

impl Device {
    /// A device with the serial number `sn` whose connection came in at `now`.
    /// It is alive, its last heartbeat is its arrival, and it has the default
    /// heartbeat period.
    pub fn new(sn: String, now: u64) -> (device: Device)
        ensures
            device.sn@ == sn@,
            device.born_time == now,
            device.alive,
            device.last_heartbeat_time == now,
            device.heartbeat_period == DEFAULT_HEARTBEAT_PERIOD,
    {
        Device {
            sn,
            born_time: now,
            alive: true,
            last_heartbeat_time: now,
            heartbeat_period: DEFAULT_HEARTBEAT_PERIOD,
        }
    }

    /// A device with the serial number `sn` that was born at `born_time`.
    pub fn new_with_sn_borntime(sn: String, born_time: u64) -> (device: Device)
        ensures
            device.sn@ == sn@,
            device.born_time == born_time,
            device.alive,
            device.last_heartbeat_time == born_time,
            device.heartbeat_period == DEFAULT_HEARTBEAT_PERIOD,
    {
        Device::new(sn, born_time)
    }

    /// Sets how long the device may stay silent.
    pub fn set_heartbeat_period(&mut self, period: u64)
        ensures
            *final(self) == (Device { heartbeat_period: period, ..*old(self) }),
    {
        self.heartbeat_period = period;
    }

    /// Records a heartbeat received at `time`.
    pub fn update_last_heartbeat_time(&mut self, time: u64)
        ensures
            *final(self) == (Device { last_heartbeat_time: time, ..*old(self) }),
    {
        self.last_heartbeat_time = time;
    }

    /// Records a heartbeat received at `time`.
    pub fn update_heartbeat_timestamp(&mut self, time: u64)
        ensures
            *final(self) == (Device { last_heartbeat_time: time, ..*old(self) }),
    {
        self.update_last_heartbeat_time(time);
    }

    /// Decides at `now` whether the device is still alive, records the answer
    /// and returns it. The device is alive while less than its heartbeat period
    /// has passed since its last heartbeat.
    pub fn is_alive_update(&mut self, now: u64) -> (alive: bool)
        ensures
            alive == alive_at(
                old(self).last_heartbeat_time,
                old(self).heartbeat_period,
                old(self).alive,
                now,
            ),
            *final(self) == (Device { alive, ..*old(self) }),
    {
        if now >= self.last_heartbeat_time {
            self.alive = now - self.last_heartbeat_time < self.heartbeat_period;
        }
        self.alive
    }

    /// Whether the device counted as alive when that was last decided.
    pub fn is_alive_const(&self) -> (alive: bool)
        ensures
            alive == self.alive,
    {
        self.alive
    }

    /// Whether the device counted as alive when that was last decided.
    pub fn is_alive(&self) -> (alive: bool)
        ensures
            alive == self.alive,
    {
        self.alive
    }

    /// How long the device has been connected at `now`; `None` where the clock
    /// has gone back behind its arrival.
    pub fn online_time(&self, now: u64) -> (elapsed: Option<u64>)
        ensures
            elapsed == if now >= self.born_time {
                Some((now - self.born_time) as u64)
            } else {
                None
            },
    {
        if now >= self.born_time {
            Some(now - self.born_time)
        } else {
            None
        }
    }

    /// How long the device has been connected at `now`.
    pub fn get_alive_time(&self, now: u64) -> (elapsed: u64)
        requires
            now >= self.born_time,
        ensures
            elapsed == now - self.born_time,
    {
        now - self.born_time
    }

    /// Whether more than the heartbeat period has passed at `now` since the last
    /// heartbeat.
    pub fn is_heartbeat_timeout(&self, now: u64) -> (late: bool)
        requires
            now >= self.last_heartbeat_time,
        ensures
            late == (now - self.last_heartbeat_time > self.heartbeat_period),
    {
        now - self.last_heartbeat_time > self.heartbeat_period
    }

    /// Marks the device alive, with a heartbeat at `now`.
    pub fn activate(&mut self, now: u64)
        ensures
            *final(self) == (Device { alive: true, last_heartbeat_time: now, ..*old(self) }),
    {
        self.alive = true;
        self.last_heartbeat_time = now;
    }

    /// Marks the device as no longer alive.
    pub fn deactivate(&mut self)
        ensures
            *final(self) == (Device { alive: false, ..*old(self) }),
    {
        self.alive = false;
    }

    /// The serial number.
    pub fn get_sn(&self) -> (sn: &str)
        ensures
            sn@ == self.sn@,
    {
        self.sn.as_str()
    }

    /// Binds the device to another serial number.
    pub fn set_sn(&mut self, sn: String)
        ensures
            final(self).sn@ == sn@,
            final(self).born_time == old(self).born_time,
            final(self).alive == old(self).alive,
            final(self).last_heartbeat_time == old(self).last_heartbeat_time,
            final(self).heartbeat_period == old(self).heartbeat_period,
    {
        self.sn = sn;
    }

    /// When the connection came in.
    pub fn get_born_time(&self) -> (born_time: u64)
        ensures
            born_time == self.born_time,
    {
        self.born_time
    }

    /// Sets when the connection came in.
    pub fn set_born_time(&mut self, born_time: u64)
        ensures
            *final(self) == (Device { born_time, ..*old(self) }),
    {
        self.born_time = born_time;
    }

    /// The message that announces this device as online.
    pub fn push_online_msg(&self) -> (msg: String)
        ensures
            msg@ == online_msg_of(self.sn@),
    {
        let mut msg = String::from_str("{ \"type\": \"online\", \"sn\": \"");
        msg.append(self.sn.as_str());
        msg.append("\" }");
        msg
    }
}

/// A device with a heartbeat period of zero is dead at once: whenever the clock
/// has not gone back, it is not alive.
pub proof fn lemma_zero_period_is_dead(last: u64, alive: bool, now: u64)
    requires
        now >= last,
    ensures
        !alive_at(last, 0, alive, now),
{
}

/// A device is alive exactly until its heartbeat period has passed: at the
/// moment the silence reaches the period it is dead, a microsecond earlier it
/// is alive.
pub proof fn lemma_alive_until_period(last: u64, period: u64, alive: bool, now: u64)
    requires
        now >= last,
    ensures
        alive_at(last, period, alive, now) <==> now - last < period,
        now - last >= period ==> !alive_at(last, period, alive, now),
{
}

/// A device in a pool, under the serial number by which the pool knows it.
#[derive(Debug, Clone)]
pub struct Slot {
    pub sn: String,
    pub device: Device,
}

/// The devices of a gateway that keeps them in memory, each under one serial
/// number.
#[derive(Debug, Clone)]
pub struct DevicePool {
    pub devices: Vec<Slot>,
}

/// The position of the first slot for `sn` at or after `from`, if there is one.
pub open spec fn slot_from(slots: Seq<Slot>, sn: Seq<char>, from: int) -> Option<int>
    decreases slots.len() - from,
{
    if from < 0 || from >= slots.len() {
        None
    } else if slots[from].sn@ == sn {
        Some(from)
    } else {
        slot_from(slots, sn, from + 1)
    }
}

/// How many of the first `upto` slots hold a device that counts as alive.
pub open spec fn alive_among(slots: Seq<Slot>, upto: int) -> nat
    decreases upto,
{
    if upto <= 0 {
        0
    } else {
        alive_among(slots, upto - 1) + if slots[upto - 1].device.alive {
            1nat
        } else {
            0nat
        }
    }
}

/// Where the first slot for `sn` is, it is a slot for `sn`, and no slot before
/// it is; where there is none, no slot from `from` on is for `sn`.
pub proof fn lemma_slot_from(slots: Seq<Slot>, sn: Seq<char>, from: int)
    requires
        0 <= from,
    ensures
        match slot_from(slots, sn, from) {
            Some(i) => from <= i < slots.len() && slots[i].sn@ == sn && forall|j: int|
                from <= j < i ==> slots[j].sn@ != sn,
            None => forall|j: int| from <= j < slots.len() ==> slots[j].sn@ != sn,
        },
    decreases slots.len() - from,
{
    if from < slots.len() && slots[from].sn@ != sn {
        lemma_slot_from(slots, sn, from + 1);
    }
}

/// The first slot for a serial number depends on the serial numbers alone, and
/// only on those from `from` on.
pub proof fn lemma_slot_from_same_keys(a: Seq<Slot>, b: Seq<Slot>, sn: Seq<char>, from: int)
    requires
        0 <= from,
        a.len() <= b.len(),
        forall|j: int| from <= j < a.len() ==> a[j].sn@ == b[j].sn@,
        forall|j: int| a.len() <= j < b.len() ==> b[j].sn@ != sn,
    ensures
        slot_from(a, sn, from) == slot_from(b, sn, from),
    decreases b.len() - from,
{
    if from < a.len() {
        if a[from].sn@ != sn {
            lemma_slot_from_same_keys(a, b, sn, from + 1);
        }
    } else if from < b.len() {
        lemma_slot_from_same_keys(a, b, sn, from + 1);
    }
}

impl DevicePool {
    /// Whether no serial number has two slots.
    pub open spec fn wf(&self) -> bool {
        forall|i: int, j: int|
            0 <= i < j < self.devices@.len() ==> self.devices@[i].sn@ != self.devices@[j].sn@
    }

    /// The device that the pool holds under `sn`, if any.
    pub open spec fn device_of(&self, sn: Seq<char>) -> Option<Device> {
        match slot_from(self.devices@, sn, 0) {
            Some(i) => Some(self.devices@[i].device),
            None => None,
        }
    }

    /// An empty pool.
    pub fn new() -> (pool: DevicePool)
        ensures
            pool.wf(),
            pool.devices@.len() == 0,
    {
        DevicePool { devices: Vec::new() }
    }

    /// The number of devices in the pool.
    pub fn get_devices_num(&self) -> (n: usize)
        ensures
            n == self.devices@.len(),
    {
        self.devices.len()
    }

    /// The number of devices in the pool that count as alive.
    pub fn get_alive_devices_num(&self) -> (n: usize)
        ensures
            n == alive_among(self.devices@, self.devices@.len() as int),
    {
        let mut alive_cnt: usize = 0;
        let mut i: usize = 0;
        while i < self.devices.len()
            invariant
                i <= self.devices@.len(),
                alive_cnt == alive_among(self.devices@, i as int),
                alive_cnt <= i,
            decreases self.devices@.len() - i,
        {
            if self.devices[i].device.alive {
                alive_cnt = alive_cnt + 1;
            }
            i = i + 1;
        }
        alive_cnt
    }

    fn find(&self, sn: &String) -> (at: Option<usize>)
        ensures
            match at {
                Some(i) => i < self.devices@.len() && slot_from(self.devices@, sn@, 0) == Some(
                    i as int,
                ),
                None => slot_from(self.devices@, sn@, 0) is None,
            },
    {
        let mut i: usize = 0;
        while i < self.devices.len()
            invariant
                i <= self.devices@.len(),
                slot_from(self.devices@, sn@, i as int) == slot_from(self.devices@, sn@, 0),
            decreases self.devices@.len() - i,
        {
            if self.devices[i].sn == *sn {
                return Some(i);
            }
            i = i + 1;
        }
        None
    }

    /// Whether the pool holds a device under `sn` that counts as alive.
    pub fn is_alive(&self, sn: &String) -> (alive: bool)
        ensures
            alive == (self.device_of(sn@) is Some && self.device_of(sn@)->0.alive),
    {
        match self.find(sn) {
            Some(i) => self.devices[i].device.alive,
            None => false,
        }
    }

    /// Whether the pool holds a device under `sn`.
    pub fn is_in_pool(&self, sn: &String) -> (held: bool)
        ensures
            held == self.device_of(sn@) is Some,
    {
        self.find(sn).is_some()
    }

    /// The device that the pool holds under `sn`, if any.
    pub fn get_device_ref(&self, sn: &String) -> (device: Option<&Device>)
        ensures
            device is Some == self.device_of(sn@) is Some,
            device is Some ==> *device->0 == self.device_of(sn@)->0,
    {
        match self.find(sn) {
            Some(i) => Some(&self.devices[i].device),
            None => None,
        }
    }

    /// Puts `device` into the pool under `sn`, in place of the device that was
    /// there under that serial number, if any. Every other device stays.
    pub fn put_device(&mut self, sn: String, device: Device)
        requires
            old(self).wf(),
        ensures
            final(self).wf(),
            final(self).device_of(sn@) == Some(device),
            forall|other: Seq<char>|
                other != sn@ ==> #[trigger] final(self).device_of(other) == old(self).device_of(
                    other,
                ),
            final(self).devices@.len() == old(self).devices@.len() + if old(self).device_of(sn@) is Some {
                0int
            } else {
                1int
            },
    {
        let ghost before = self.devices@;
        let ghost name = sn@;
        match self.find(&sn) {
            Some(i) => {
                proof {
                    lemma_slot_from(before, name, 0);
                }
                self.devices.set(i, Slot { sn, device });
                proof {
                    let after = self.devices@;
                    assert(after[i as int].sn@ == name);
                    assert forall|j: int| 0 <= j < after.len() implies after[j].sn@
                        == before[j].sn@ by {}
                    lemma_slot_from_same_keys(before, after, name, 0);
                    assert forall|other: Seq<char>| other != name implies #[trigger] self.device_of(
                        other,
                    ) == old(self).device_of(other) by {
                        lemma_slot_from_same_keys(before, after, other, 0);
                        lemma_slot_from(before, other, 0);
                    }
                }
            },
            None => {
                proof {
                    lemma_slot_from(before, name, 0);
                }
                self.devices.push(Slot { sn, device });
                proof {
                    let after = self.devices@;
                    assert(after[before.len() as int].sn@ == name);
                    lemma_slot_from(after, name, 0);
                    assert forall|other: Seq<char>| other != name implies #[trigger] self.device_of(
                        other,
                    ) == old(self).device_of(other) by {
                        lemma_slot_from_same_keys(before, after, other, 0);
                        lemma_slot_from(before, other, 0);
                    }
                }
            },
        }
    }
}

} // verus!
