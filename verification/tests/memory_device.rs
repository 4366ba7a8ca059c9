use mission_center::mem_info::MemInfo;

const DMIDECODE: &str = "# dmidecode 3.5
Getting SMBIOS data from sysfs.
SMBIOS 3.4.0 present.

Handle 0x0022, DMI type 17, 92 bytes
Memory Device
\tArray Handle: 0x1000
\tError Information Handle: Not Provided
\tTotal Width: 64 bits
\tData Width: 64 bits
\tSize: 16 GB
\tForm Factor: SODIMM
\tSet: None
\tLocator: DIMM A
\tBank Locator: BANK 0
\tType: DDR5
\tType Detail: Synchronous
\tSpeed: 4800 MT/s
\tManufacturer: 80AD000080AD
\tRank: 1
\tConfigured Memory Speed: 4800 MT/s
\tVolatile Size: 16 GB
\tCache Size: None
";

#[test]
fn reads_one_device() {
    assert!(MemInfo::memory_device_info_fits(DMIDECODE));
    let devices = MemInfo::load_memory_device_info(DMIDECODE).unwrap();
    assert_eq!(devices.len(), 1);
    let d = &devices[0];
    assert_eq!(d.size, 16 * 1024 * 1024 * 1024);
    assert_eq!(d.locator, "DIMM");
    assert_eq!(d.ram_type, "DDR5");
    assert_eq!(d.speed, 4800);
    assert_eq!(d.rank, 1);
    // Keys of two words never match their arms.
    assert_eq!(d.form_factor, "");
    assert_eq!(d.bank_locator, "");
}

#[test]
fn no_heading_gives_none() {
    assert!(MemInfo::load_memory_device_info("Handle 0x0022\nSize: 16 GB\n").is_none());
    assert!(MemInfo::load_memory_device_info("").is_none());
}

#[test]
fn units_scale_the_size() {
    let read = |s: &str| MemInfo::load_memory_device_info(s).unwrap().remove(0).size;
    assert_eq!(read("Memory Device\nSize: 2 TB"), 2 * 1024 * 1024 * 1024);
    assert_eq!(read("Memory Device\nSize: 2 GB"), 2 * 1024 * 1024 * 1024);
    assert_eq!(read("Memory Device\nSize: 512 MB"), 512 * 1024 * 1024);
    assert_eq!(read("Memory Device\nSize: 64 KB"), 64 * 1024);
    assert_eq!(read("Memory Device\nSize: 64 bytes"), 64);
    assert_eq!(read("Memory Device\nSize: None GB"), 0);
    // Without a unit the line leaves the size as it was.
    assert_eq!(read("Memory Device\nSize: 8 GB\nSize: 4"), 8 * 1024 * 1024 * 1024);
}

#[test]
fn later_devices_overwrite_earlier_ones() {
    let text = "Memory Device\nLocator: A\nSpeed: 3200\nMemory Device\nLocator: B\nRank: 300\n";
    let d = MemInfo::load_memory_device_info(text).unwrap().remove(0);
    assert_eq!(d.locator, "B");
    assert_eq!(d.speed, 3200);
    assert_eq!(d.rank, 0);
}

#[test]
fn heading_on_the_same_line() {
    let d = MemInfo::load_memory_device_info("xx Memory Device Speed: 12\nRank: 2")
        .unwrap()
        .remove(0);
    assert_eq!(d.speed, 12);
    assert_eq!(d.rank, 2);
    let d = MemInfo::load_memory_device_info("Memory DeviceSpeed: 12").unwrap().remove(0);
    assert_eq!(d.speed, 12);
}

#[test]
fn oversized_sizes_do_not_fit() {
    let big = format!("Memory Device\nSize: {} KB", usize::MAX / 1024 + 1);
    assert!(!MemInfo::memory_device_info_fits(&big));
    assert!(MemInfo::memory_device_info_fits("no heading"));
    let before = format!("Size: {} KB\nMemory Device\n", usize::MAX);
    assert!(MemInfo::memory_device_info_fits(&before));
}
