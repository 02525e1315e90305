//! The registry entry of one drive: its identity and what is known of its
//! sanitize capability.

use crate::digest::{hex_encode, hex_lower, lemma_hex_lower_injective, sha256, sha256_digest};
use crate::text::{concat, contains, has_prefix, has_substring, same_text, starts_with};
use vstd::prelude::*;
use vstd::string::*;

verus! {

/// The protocol by which a drive takes commands.
#[derive(Debug, Clone, Copy, PartialEq, Eq, Structural)]
pub enum DeviceType {
    Nvme,
    Sata,
    Unknown,
}

/// Whether the medium spins.
#[derive(Debug, Clone, Copy, PartialEq, Eq, Structural)]
pub enum MediaKind {
    Rotational,
    NonRotational,
    Unknown,
}

/// One physical drive.
#[derive(Debug, Clone)]
pub struct Device {
    /// One-way hash of the serial number and the salt of this run.
    pub id: String,
    /// The path by which the raw device is opened.
    pub dev_path: String,
    pub model: Option<String>,
    pub serial: Option<String>,
    pub vendor: Option<String>,
    /// A hint such as "sata", "nvme" or "usb".
    pub bus: Option<String>,
    pub media: MediaKind,
    pub size_bytes: Option<u64>,
    pub devtype: DeviceType,
    /// Set once a probe has found hardware sanitize; never reset.
    pub firmsan: bool,
}

/// The characters of an optional string.
pub open spec fn opt_text(s: Option<String>) -> Option<Seq<char>> {
    match s {
        Some(t) => Some(t@),
        None => None,
    }
}

/// The characters of an optional string slice.
pub open spec fn opt_str_text(s: Option<&str>) -> Option<Seq<char>> {
    match s {
        Some(t) => Some(t@),
        None => None,
    }
}

/// The bytes that are hashed into a device identifier: the serial number, if
/// there is one, followed by the salt.
pub open spec fn id_preimage(serial: Option<Seq<u8>>, salt: Seq<u8>) -> Seq<u8> {
    match serial {
        Some(s) => s + salt,
        None => salt,
    }
}

/// The identifier of a drive: the SHA-256 digest of serial number and salt, in
/// lower-case hexadecimal.
pub open spec fn hashed_device_id(serial: Option<Seq<u8>>, salt: Seq<u8>) -> Seq<char> {
    hex_lower(sha256_digest(id_preimage(serial, salt)))
}

/// The UTF-8 bytes of an optional string slice.
pub open spec fn opt_str_bytes(s: Option<&str>) -> Option<Seq<u8>> {
    match s {
        Some(t) => Some(t.spec_bytes()),
        None => None,
    }
}

fn owned(s: Option<&str>) -> (out: Option<String>)
    ensures
        opt_text(out) == opt_str_text(s),
{
    match s {
        Some(t) => Some(t.to_owned()),
        None => None,
    }
}

/// The identifier for a serial number and a salt.
pub fn device_id(serial: Option<&str>, run_salt: &str) -> (id: String)
    ensures
        id@ == hashed_device_id(opt_str_bytes(serial), run_salt.spec_bytes()),
        id@.len() == 64,
{
    let mut input: Vec<u8> = Vec::new();
    match serial {
        Some(s) => {
            input.extend_from_slice(s.as_bytes());
        },
        None => {},
    }
    input.extend_from_slice(run_salt.as_bytes());
    proof {
        assert(input@ =~= id_preimage(opt_str_bytes(serial), run_salt.spec_bytes()));
    }
    let digest = sha256(input.as_slice());
    hex_encode(digest.as_slice())
}

impl Device {
    /// A registry entry from what enumeration found. The serial number is kept
    /// for display; the identifier is its salted hash.
    pub fn new(
        dev_path: &str,
        model: Option<&str>,
        serial: Option<&str>,
        vendor: Option<&str>,
        devtype: DeviceType,
        run_salt: &str,
    ) -> (dev: Device)
        ensures
            dev.id@ == hashed_device_id(opt_str_bytes(serial), run_salt.spec_bytes()),
            dev.id@.len() == 64,
            dev.dev_path@ == dev_path@,
            opt_text(dev.model) == opt_str_text(model),
            opt_text(dev.serial) == opt_str_text(serial),
            opt_text(dev.vendor) == opt_str_text(vendor),
            dev.bus is None,
            dev.media == MediaKind::Unknown,
            dev.size_bytes is None,
            dev.devtype == devtype,
            !dev.firmsan,
    {
        let id = device_id(serial, run_salt);
        Device {
            id,
            dev_path: dev_path.to_owned(),
            model: owned(model),
            serial: owned(serial),
            vendor: owned(vendor),
            bus: None,
            media: MediaKind::Unknown,
            size_bytes: None,
            devtype,
            firmsan: false,
        }
    }

    /// Whether something exists at the device path right now, as
    /// `std::path::Path::exists` reports it. Trusted, and nothing is claimed of
    /// the answer: it depends on the file system at the moment of the call.
    #[verifier::external_body]
    pub fn is_present(&self) -> (present: bool) {
        std::path::Path::new(&self.dev_path).exists()
    }
}

/// Why no device was handed back.
#[derive(Debug, Clone, Copy, PartialEq, Eq, Structural)]
pub enum DeviceError {
    /// No enumerated device has the path that was asked for.
    NotFound,
}

/// The text "nvme".
pub open spec fn nvme_marker() -> Seq<char> {
    seq!['n', 'v', 'm', 'e']
}

/// The protocol that a device path stands for: NVMe where it holds "nvme",
/// and ATA otherwise. The path decides, not the drive: this is a guess that
/// the caller may overrule when it makes the registry entry itself.
pub open spec fn device_type_of(dev_path: Seq<char>) -> DeviceType {
    if has_substring(dev_path, nvme_marker()) {
        DeviceType::Nvme
    } else {
        DeviceType::Sata
    }
}

/// The protocol of the device at `dev_path`, judged by the path alone.
pub fn device_type(dev_path: &str) -> (kind: DeviceType)
    ensures
        kind == device_type_of(dev_path@),
        kind != DeviceType::Unknown,
{
    proof {
        reveal_strlit("nvme");
        assert("nvme"@ =~= nvme_marker());
    }
    if contains(dev_path, "nvme") {
        DeviceType::Nvme
    } else {
        DeviceType::Sata
    }
}

/// No device of `devices` before position `upto` has the path `dev_path`.
pub open spec fn no_path_before(devices: Seq<Device>, dev_path: Seq<char>, upto: int) -> bool {
    forall|j: int| 0 <= j < upto && j < devices.len() ==> (#[trigger] devices[j]).dev_path@ != dev_path
}

/// Position `at` holds the first device of `devices` with the path `dev_path`.
pub open spec fn first_with_path(devices: Seq<Device>, dev_path: Seq<char>, at: int) -> bool {
    &&& 0 <= at < devices.len()
    &&& devices[at].dev_path@ == dev_path
    &&& no_path_before(devices, dev_path, at)
}

/// The first of `devices` whose path is `dev_path`.
pub fn find_device_by_path(devices: Vec<Device>, dev_path: &str) -> (found: Result<
    Device,
    DeviceError,
>)
    ensures
        match found {
            Ok(dev) => exists|at: int| #[trigger]
                first_with_path(devices@, dev_path@, at) && dev == devices@[at],
            Err(e) => e == DeviceError::NotFound && no_path_before(
                devices@,
                dev_path@,
                devices@.len() as int,
            ),
        },
{
    let mut rest = devices;
    let mut i: usize = 0;
    while i < rest.len()
        invariant
            rest@ == devices@,
            i <= rest@.len(),
            no_path_before(devices@, dev_path@, i as int),
        decreases rest@.len() - i,
    {
        if same_text(rest[i].dev_path.as_str(), dev_path) {
            let dev = rest.remove(i);
            proof {
                let at = i as int;
                assert(first_with_path(devices@, dev_path@, at) && dev == devices@[at]);
            }
            return Ok(dev);
        }
        i = i + 1;
    }
    Err(DeviceError::NotFound)
}

/// The identifier of a drive is a function of its serial number and the salt
/// alone: the same serial number under the same salt has the same
/// identifier. And the identifier adds nothing to the digest: two drives have
/// the same identifier exactly where the digests of what was hashed for them
/// are the same.
pub proof fn lemma_device_id_is_function_of_serial_and_salt(
    serial_a: Option<Seq<u8>>,
    salt_a: Seq<u8>,
    serial_b: Option<Seq<u8>>,
    salt_b: Seq<u8>,
)
    ensures
        serial_a == serial_b && salt_a == salt_b ==> hashed_device_id(serial_a, salt_a)
            == hashed_device_id(serial_b, salt_b),
        hashed_device_id(serial_a, salt_a) == hashed_device_id(serial_b, salt_b) <==> sha256_digest(
            id_preimage(serial_a, salt_a),
        ) == sha256_digest(id_preimage(serial_b, salt_b)),
{
    if hashed_device_id(serial_a, salt_a) == hashed_device_id(serial_b, salt_b) {
        lemma_hex_lower_injective(
            sha256_digest(id_preimage(serial_a, salt_a)),
            sha256_digest(id_preimage(serial_b, salt_b)),
        );
    }
}

/// The text "loop".
pub open spec fn loop_marker() -> Seq<char> {
    seq!['l', 'o', 'o', 'p']
}

/// The text "ram".
pub open spec fn ram_marker() -> Seq<char> {
    seq!['r', 'a', 'm']
}

/// The text "/dev/".
pub open spec fn dev_dir() -> Seq<char> {
    seq!['/', 'd', 'e', 'v', '/']
}

/// A block device of this name is no drive: loop devices and RAM disks are
/// passed over.
pub open spec fn is_pseudo_device(name: Seq<char>) -> bool {
    has_prefix(name, loop_marker()) || has_prefix(name, ram_marker())
}

/// The registry entry for the block device `name` with what the system tells
/// of it, or `None` for a loop device or a RAM disk. The device path is
/// `/dev/` and the name, and the protocol is judged by that path.
pub fn block_device_entry(
    name: &str,
    model: Option<&str>,
    serial: Option<&str>,
    vendor: Option<&str>,
    run_salt: &str,
) -> (entry: Option<Device>)
    ensures
        entry is None <==> is_pseudo_device(name@),
        entry matches Some(dev) ==> {
            &&& dev.dev_path@ == dev_dir() + name@
            &&& dev.devtype == device_type_of(dev_dir() + name@)
            &&& dev.id@ == hashed_device_id(opt_str_bytes(serial), run_salt.spec_bytes())
            &&& dev.id@.len() == 64
            &&& opt_text(dev.model) == opt_str_text(model)
            &&& opt_text(dev.serial) == opt_str_text(serial)
            &&& opt_text(dev.vendor) == opt_str_text(vendor)
            &&& dev.bus is None
            &&& dev.media == MediaKind::Unknown
            &&& dev.size_bytes is None
            &&& !dev.firmsan
        },
{
    proof {
        reveal_strlit("loop");
        reveal_strlit("ram");
        reveal_strlit("/dev/");
        assert("loop"@ =~= loop_marker());
        assert("ram"@ =~= ram_marker());
        assert("/dev/"@ =~= dev_dir());
    }
    if starts_with(name, "loop") || starts_with(name, "ram") {
        return None;
    }
    let dev_path = concat("/dev/", name);
    let kind = device_type(dev_path.as_str());
    Some(Device::new(dev_path.as_str(), model, serial, vendor, kind, run_salt))
}

} // verus!
