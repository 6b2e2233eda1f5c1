//! Finding a device by port (and type) among the device directories, and a
//! driver that opens each attribute of that device once and keeps it.
use vstd::prelude::*;
use crate::attribute::{Attribute, AttributeFile, AttributeName, FileMode, trimmed, trim};
use crate::error::Ev3Error;
use crate::parameters::{MotorPort, SensorPort, SensorType, same_text};

verus! {

/// Opens attribute files. Implemented over the file system by the program
/// that drives the hardware, and over memory in tests.
pub trait AttributeOpener<F> {
    /// The file at `path` opened for `mode`; `None` when it cannot be opened so.
    fn open(&mut self, path: &str, mode: FileMode) -> Option<F>;
}

/// One device directory of a device class, with its identifying attributes
/// trimmed of surrounding white space.
pub struct DeviceEntry {
    pub path: String,
    pub address: String,
    pub driver_name: Option<String>,
}

/// The sensor type whose driver is called `name`, if any.
pub open spec fn sensor_type_named(name: Seq<char>) -> Option<SensorType> {
    if name == SensorType::Ultrasonic.driver_name() {
        Some(SensorType::Ultrasonic)
    } else if name == SensorType::Gyro.driver_name() {
        Some(SensorType::Gyro)
    } else if name == SensorType::Color.driver_name() {
        Some(SensorType::Color)
    } else if name == SensorType::Touch.driver_name() {
        Some(SensorType::Touch)
    } else if name == SensorType::Infrared.driver_name() {
        Some(SensorType::Infrared)
    } else {
        None
    }
}


/// The sensor type whose driver is called `name`, if any.
pub fn sensor_type_from_driver_name(name: &str) -> (r: Option<SensorType>)
    ensures
        r == sensor_type_named(name@),
{
    if same_text(name, SensorType::Ultrasonic.driver_name_str()) {
        Some(SensorType::Ultrasonic)
    } else if same_text(name, SensorType::Gyro.driver_name_str()) {
        Some(SensorType::Gyro)
    } else if same_text(name, SensorType::Color.driver_name_str()) {
        Some(SensorType::Color)
    } else if same_text(name, SensorType::Touch.driver_name_str()) {
        Some(SensorType::Touch)
    } else if same_text(name, SensorType::Infrared.driver_name_str()) {
        Some(SensorType::Infrared)
    } else {
        None
    }
}

impl DeviceEntry {
    /// An entry from the raw contents of the `address` and `driver_name`
    /// files of the directory at `path`.
    pub fn new(path: String, address: &str, driver_name: Option<&str>) -> (r: DeviceEntry)
        ensures
            r.path == path,
            r.address@ == trimmed(address@),
            driver_name matches Some(d) ==> r.driver_name matches Some(n) && n@ == trimmed(d@),
            driver_name.is_none() ==> r.driver_name.is_none(),
    {
        let driver_name = match driver_name {
            Some(d) => Some(trim(d)),
            None => None,
        };
        DeviceEntry { path, address: trim(address), driver_name }
    }

    /// The entry is a motor on `port`.
    pub open spec fn is_motor_on(self, port: MotorPort) -> bool {
        self.address@ == port.address()
    }

    /// The type of the sensor this entry stands for, if its driver is known.
    pub open spec fn sensor_type(self) -> Option<SensorType> {
        match self.driver_name {
            Some(n) => sensor_type_named(n@),
            None => None,
        }
    }

    /// The entry is a known sensor on `port`.
    pub open spec fn is_sensor_on(self, port: SensorPort) -> bool {
        self.address@ == port.address() && self.sensor_type().is_some()
    }
}

/// The first entry that is a motor on `port`.
pub fn resolve_motor(entries: &Vec<DeviceEntry>, port: MotorPort) -> (r: Result<usize, Ev3Error>)
    ensures
        r matches Ok(i) ==> i < entries@.len() && entries@[i as int].is_motor_on(port)
            && forall|j: int| 0 <= j < i ==> !(#[trigger] entries@[j]).is_motor_on(port),
        r is Err <==> forall|j: int| 0 <= j < entries@.len() ==> !(#[trigger] entries@[j]).is_motor_on(port),
        r is Err ==> r == Err::<usize, Ev3Error>(Ev3Error::MotorNotFound { port }),
{
    let want = port.address_str();
    let mut i: usize = 0;
    while i < entries.len()
        invariant
            0 <= i <= entries@.len(),
            want@ == port.address(),
            forall|j: int| 0 <= j < i ==> !(#[trigger] entries@[j]).is_motor_on(port),
        decreases entries@.len() - i,
    {
        if same_text(entries[i].address.as_str(), want) {
            return Ok(i);
        }
        i = i + 1;
    }
    Err(Ev3Error::MotorNotFound { port })
}

/// Look for a sensor of type `expected` on `port`: the first known sensor on
/// the port decides. Directories whose driver is unknown are passed over.
pub fn resolve_sensor(entries: &Vec<DeviceEntry>, port: SensorPort, expected: SensorType) -> (r: Result<usize, Ev3Error>)
    ensures
        match r {
            Ok(i) => i < entries@.len() && entries@[i as int].is_sensor_on(port)
                && entries@[i as int].sensor_type() == Some(expected)
                && forall|j: int| 0 <= j < i ==> !(#[trigger] entries@[j]).is_sensor_on(port),
            Err(Ev3Error::IncorrectSensorType { expected: e, found }) => e == expected && found != expected
                && exists|i: int| 0 <= i < entries@.len() && (#[trigger] entries@[i]).is_sensor_on(port)
                && entries@[i].sensor_type() == Some(found)
                && forall|j: int| 0 <= j < i ==> !(#[trigger] entries@[j]).is_sensor_on(port),
            Err(Ev3Error::SensorNotFound { port: p, expected_sensor_type: t }) => p == port && t == expected
                && forall|j: int| 0 <= j < entries@.len() ==> !(#[trigger] entries@[j]).is_sensor_on(port),
            Err(_) => false,
        },
{
    let want = port.address_str();
    let mut i: usize = 0;
    while i < entries.len()
        invariant
            0 <= i <= entries@.len(),
            want@ == port.address(),
            forall|j: int| 0 <= j < i ==> !(#[trigger] entries@[j]).is_sensor_on(port),
        decreases entries@.len() - i,
    {
        let e = &entries[i];
        if same_text(e.address.as_str(), want) {
            let found = match &e.driver_name {
                Some(n) => sensor_type_from_driver_name(n.as_str()),
                None => None,
            };
            match found {
                Some(t) => {
                    if t == expected {
                        return Ok(i);
                    } else {
                        assert(entries@[i as int].is_sensor_on(port));
                        return Err(Ev3Error::IncorrectSensorType { expected, found: t });
                    }
                },
                None => {},
            }
        }
        i = i + 1;
    }
    Err(Ev3Error::SensorNotFound { port, expected_sensor_type: expected })
}

/// The path of attribute `name` in the device directory `base`.
pub open spec fn attribute_path(base: Seq<char>, name: AttributeName) -> Seq<char> {
    base + "/"@ + name.file_name()
}

/// One device: its directory and the attribute files opened so far.
pub struct DeviceDriver<F> {
    pub base_path: String,
    pub cache: Vec<(AttributeName, Attribute<F>)>,
}

impl<F: AttributeFile> DeviceDriver<F> {
    /// Every open attribute is the named file of this device, in the mode
    /// the name allows, and each name is open at most once.
    pub open spec fn wf(self) -> bool {
        &&& forall|i: int| 0 <= i < self.cache@.len() ==> (#[trigger] self.cache@[i]).1.path@
            == attribute_path(self.base_path@, self.cache@[i].0)
        &&& forall|i: int| 0 <= i < self.cache@.len() ==> (#[trigger] self.cache@[i]).1.mode
            == self.cache@[i].0.mode()
        &&& forall|i: int, j: int| 0 <= i < j < self.cache@.len() ==> self.cache@[i].0 != self.cache@[j].0
    }

    /// Attribute `name` has been opened.
    pub open spec fn is_open(self, name: AttributeName) -> bool {
        exists|i: int| 0 <= i < self.cache@.len() && (#[trigger] self.cache@[i]).0 == name
    }

    /// A driver for the device directory `base_path`, with nothing open yet.
    pub fn new(base_path: String) -> (r: DeviceDriver<F>)
        ensures
            r.wf(),
            r.base_path == base_path,
            r.cache@.len() == 0,
    {
        DeviceDriver { base_path, cache: Vec::new() }
    }

    fn find(&self, name: AttributeName) -> (r: Option<usize>)
        ensures
            r matches Some(i) ==> i < self.cache@.len() && self.cache@[i as int].0 == name,
            r.is_none() ==> !self.is_open(name),
    {
        let mut i: usize = 0;
        while i < self.cache.len()
            invariant
                0 <= i <= self.cache@.len(),
                forall|j: int| 0 <= j < i ==> (#[trigger] self.cache@[j]).0 != name,
            decreases self.cache@.len() - i,
        {
            if self.cache[i].0 == name {
                return Some(i);
            }
            i = i + 1;
        }
        None
    }

    fn path_of(&self, name: AttributeName) -> (r: String)
        ensures
            r@ == attribute_path(self.base_path@, name),
    {
        let p = self.base_path.clone();
        let p = p.concat("/");
        proof {
            reveal_strlit("/");
        }
        p.concat(name.file_name_str())
    }

    /// Open attribute `name` through `fs` and keep it.
    fn open_attribute<O: AttributeOpener<F>>(&mut self, fs: &mut O, name: AttributeName) -> (r: Result<usize, Ev3Error>)
        requires
            old(self).wf(),
            !old(self).is_open(name),
        ensures
            final(self).wf(),
            final(self).base_path == old(self).base_path,
            match r {
                Ok(i) => i < final(self).cache@.len() && final(self).cache@[i as int].0 == name
                    && final(self).cache@ == old(self).cache@.push(final(self).cache@[i as int]),
                Err(e) => *final(self) == *old(self)
                    && (e matches Ev3Error::FileNotFound { path } && path@ == attribute_path(old(self).base_path@, name)),
            },
    {
        let path = self.path_of(name);
        let mode = name.filemode();
        match fs.open(path.as_str(), mode) {
            Some(file) => {
                let attr = Attribute::new(file, path, mode);
                self.cache.push((name, attr));
                assert(forall|i: int| 0 <= i < old(self).cache@.len() ==> self.cache@[i] == old(self).cache@[i]);
                Ok(self.cache.len() - 1)
            },
            None => Err(Ev3Error::FileNotFound { path }),
        }
    }

    /// The trimmed value of attribute `name`, opening it on first use and
    /// reusing the open file afterwards. A write-only attribute fails with a
    /// permission error before any file is opened or touched.
    pub fn read_attribute<O: AttributeOpener<F>>(&mut self, fs: &mut O, name: AttributeName) -> (r: Result<String, Ev3Error>)
        requires
            old(self).wf(),
        ensures
            final(self).wf(),
            final(self).base_path == old(self).base_path,
            !name.mode().readable() ==> r == Err::<String, Ev3Error>(
                Ev3Error::PermissionDenied { required_permission: FileMode::Read },
            ) && *final(self) == *old(self) && *final(fs) == *old(fs),
            forall|n: AttributeName| old(self).is_open(n) ==> final(self).is_open(n),
            old(self).is_open(name) ==> *final(fs) == *old(fs),
            r is Ok ==> final(self).is_open(name),
            name.mode().readable() ==> match r {
                Ok(s) => exists|contents: Seq<char>| s@ == #[trigger] trimmed(contents),
                Err(Ev3Error::FileNotFound { path }) => path@ == attribute_path(old(self).base_path@, name)
                    && *final(self) == *old(self),
                Err(Ev3Error::ReadAttributeFailure { filename, os_error: _ }) =>
                    filename@ == attribute_path(old(self).base_path@, name),
                Err(Ev3Error::InvalidStringBytes) => true,
                Err(_) => false,
            },
    {
        if name.filemode() == FileMode::Write {
            return Err(Ev3Error::PermissionDenied { required_permission: FileMode::Read });
        }
        let i = match self.find(name) {
            Some(i) => i,
            None => match self.open_attribute(fs, name) {
                Ok(i) => i,
                Err(e) => {
                    return Err(e);
                },
            },
        };
        let ghost before = self.cache@;
        assert(before.len() >= old(self).cache@.len());
        assert(forall|k: int| 0 <= k < old(self).cache@.len() ==> before[k] == old(self).cache@[k]);
        let entry = &mut self.cache[i];
        let r = entry.1.get();
        proof {
            assert(self.cache@ == before.update(i as int, self.cache@[i as int]));
            assert forall|n: AttributeName| before.len() > 0 && (exists|k: int| 0 <= k < before.len() && (#[trigger] before[k]).0 == n)
                implies self.is_open(n) by {
                let k = choose|k: int| 0 <= k < before.len() && (#[trigger] before[k]).0 == n;
                assert(self.cache@[k].0 == n);
            }
            assert forall|n: AttributeName| old(self).is_open(n) implies exists|k: int| 0 <= k < before.len() && (#[trigger] before[k]).0 == n by {
                let k = choose|k: int| 0 <= k < old(self).cache@.len() && (#[trigger] old(self).cache@[k]).0 == n;
                assert(before[k] == old(self).cache@[k]);
            }
            assert(self.cache@[i as int].0 == name);
        }
        r
    }

    /// Write `value` to attribute `name`, opening it on first use and reusing
    /// the open file afterwards. A read-only attribute fails with a permission
    /// error before any file is opened or touched.
    pub fn set_attribute<O: AttributeOpener<F>>(&mut self, fs: &mut O, name: AttributeName, value: &str) -> (r: Result<(), Ev3Error>)
        requires
            old(self).wf(),
        ensures
            final(self).wf(),
            final(self).base_path == old(self).base_path,
            !name.mode().writable() ==> r == Err::<(), Ev3Error>(
                Ev3Error::PermissionDenied { required_permission: FileMode::Write },
            ) && *final(self) == *old(self) && *final(fs) == *old(fs),
            forall|n: AttributeName| old(self).is_open(n) ==> final(self).is_open(n),
            old(self).is_open(name) ==> *final(fs) == *old(fs),
            r is Ok ==> final(self).is_open(name),
            name.mode().writable() ==> match r {
                Ok(_) => true,
                Err(Ev3Error::FileNotFound { path }) => path@ == attribute_path(old(self).base_path@, name)
                    && *final(self) == *old(self),
                Err(Ev3Error::WriteAttributeFailure { filename, value: v, os_error: _ }) =>
                    filename@ == attribute_path(old(self).base_path@, name) && v@ == value@,
                Err(_) => false,
            },
    {
        if name.filemode() == FileMode::Read {
            return Err(Ev3Error::PermissionDenied { required_permission: FileMode::Write });
        }
        let i = match self.find(name) {
            Some(i) => i,
            None => match self.open_attribute(fs, name) {
                Ok(i) => i,
                Err(e) => {
                    return Err(e);
                },
            },
        };
        let ghost before = self.cache@;
        assert(before.len() >= old(self).cache@.len());
        assert(forall|k: int| 0 <= k < old(self).cache@.len() ==> before[k] == old(self).cache@[k]);
        let entry = &mut self.cache[i];
        let r = entry.1.set(value);
        proof {
            assert(self.cache@ == before.update(i as int, self.cache@[i as int]));
            assert forall|n: AttributeName| before.len() > 0 && (exists|k: int| 0 <= k < before.len() && (#[trigger] before[k]).0 == n)
                implies self.is_open(n) by {
                let k = choose|k: int| 0 <= k < before.len() && (#[trigger] before[k]).0 == n;
                assert(self.cache@[k].0 == n);
            }
            assert forall|n: AttributeName| old(self).is_open(n) implies exists|k: int| 0 <= k < before.len() && (#[trigger] before[k]).0 == n by {
                let k = choose|k: int| 0 <= k < old(self).cache@.len() && (#[trigger] old(self).cache@[k]).0 == n;
                assert(before[k] == old(self).cache@[k]);
            }
            assert(self.cache@[i as int].0 == name);
        }
        r
    }
}

impl<F: AttributeFile> DeviceDriver<F> {
    /// Switch a sensor to `mode`.
    pub fn set_mode<O: AttributeOpener<F>>(&mut self, fs: &mut O, mode: &str) -> (r: Result<(), Ev3Error>)
        requires
            old(self).wf(),
        ensures
            final(self).wf(),
            final(self).base_path == old(self).base_path,
            r is Ok ==> final(self).is_open(AttributeName::Mode),
    {
        self.set_attribute(fs, AttributeName::Mode, mode)
    }
}

/// The driver of a motor device.
pub type MotorDriver<F> = DeviceDriver<F>;

} // verus!
