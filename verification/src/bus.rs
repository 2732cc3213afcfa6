//! The address-space bus: a flat 64K byte-addressable space partitioned
//! into ranges, each owned by exactly one memory-mapped device. Dispatch
//! is pure range matching over an explicit range-to-device table, so
//! range ownership is stated (and proved) rather than implied by a chain
//! of conditionals.
//!
//! A read or write of an address that no declared range owns is a fatal
//! mapping error. The standard map ends with a catch-all placeholder
//! range for observed-but-unmodeled peripherals: reads there return a
//! fixed filler byte and writes are ignored, deliberately distinguishing
//! "known missing peripheral" (recoverable) from "truly invalid address"
//! (fatal).

use vstd::prelude::*;
use crate::cartridge::{Cartridge, CartridgeView, spec_cartridge_read, spec_cartridge_write};
use crate::fault::Fault;

verus! {

/// The device kinds a bus range can be routed to.
#[derive(Clone, Copy, Debug, PartialEq, Eq, Structural)]
pub enum Region {
    /// Bank 0 and the switchable ROM bank window.
    Cartridge,
    /// The video RAM stub.
    VideoRam,
    /// Work RAM.
    WorkRam,
    /// The work RAM mirror: the same backing bytes at addr - 0x2000.
    WorkRamMirror,
    /// The serial data/control register pair.
    Serial,
    /// The video "current line" stub register.
    VideoLine,
    /// High RAM.
    HighRam,
    /// The interrupt-enable register.
    InterruptEnable,
    /// Observed but unmodeled I/O: reads return 0, writes are ignored.
    Placeholder,
}

/// One row of the bus dispatch table: an inclusive address range and the
/// device that owns it.
#[derive(Clone, Copy, Debug, PartialEq, Eq, Structural)]
pub struct MapEntry {
    pub start: u16,
    pub end: u16,
    pub region: Region,
}

/// The address window a region's device can actually serve. A table
/// entry must stay inside its region's window, so that device-local
/// offset arithmetic never leaves the device.
pub open spec fn region_window(region: Region) -> (u16, u16) {
    match region {
        Region::Cartridge => (0x0000, 0x7FFF),
        Region::VideoRam => (0x8000, 0x9FFF),
        Region::WorkRam => (0xC000, 0xDFFF),
        Region::WorkRamMirror => (0xE000, 0xFDFF),
        Region::Serial => (0xFF01, 0xFF02),
        Region::VideoLine => (0xFF44, 0xFF44),
        Region::HighRam => (0xFF80, 0xFFFE),
        Region::InterruptEnable => (0xFFFF, 0xFFFF),
        Region::Placeholder => (0x0000, 0xFFFF),
    }
}

/// A well-formed table entry: a non-empty range inside its region's
/// window.
pub open spec fn entry_wf(e: MapEntry) -> bool {
    &&& e.start <= e.end
    &&& region_window(e.region).0 <= e.start
    &&& e.end <= region_window(e.region).1
}

/// A well-formed dispatch table: every entry is well formed.
pub open spec fn map_wf(entries: Seq<MapEntry>) -> bool {
    forall|i: int| 0 <= i < entries.len() ==> entry_wf(#[trigger] entries[i])
}

/// First-match resolution from entry `i` on.
pub open spec fn spec_resolve_from(entries: Seq<MapEntry>, addr: u16, i: int) -> Option<Region>
    decreases entries.len() - i,
{
    if i < 0 || i >= entries.len() {
        None
    } else if entries[i].start <= addr && addr <= entries[i].end {
        Some(entries[i].region)
    } else {
        spec_resolve_from(entries, addr, i + 1)
    }
}

/// The region that owns an address: the first table entry whose range
/// contains it, or none (a fatal mapping error).
pub open spec fn spec_resolve(entries: Seq<MapEntry>, addr: u16) -> Option<Region> {
    spec_resolve_from(entries, addr, 0)
}

/// In a well-formed table, a resolved address lies inside the window of
/// the region it resolves to.
pub proof fn lemma_resolve_in_window(entries: Seq<MapEntry>, addr: u16, i: int)
    requires
        map_wf(entries),
        0 <= i,
    ensures
        match spec_resolve_from(entries, addr, i) {
            Some(region) => region_window(region).0 <= addr <= region_window(region).1,
            None => true,
        },
    decreases entries.len() - i,
{
    if i < entries.len() {
        if !(entries[i].start <= addr && addr <= entries[i].end) {
            lemma_resolve_in_window(entries, addr, i + 1);
        }
    }
}

/// The standard memory map, exactly the documented address-space
/// partition, ending in the catch-all placeholder row.
pub open spec fn spec_standard_map() -> Seq<MapEntry> {
    seq![
        MapEntry { start: 0x0000, end: 0x7FFF, region: Region::Cartridge },
        MapEntry { start: 0x8000, end: 0x9FFF, region: Region::VideoRam },
        MapEntry { start: 0xC000, end: 0xDFFF, region: Region::WorkRam },
        MapEntry { start: 0xE000, end: 0xFDFF, region: Region::WorkRamMirror },
        MapEntry { start: 0xFF01, end: 0xFF02, region: Region::Serial },
        MapEntry { start: 0xFF44, end: 0xFF44, region: Region::VideoLine },
        MapEntry { start: 0xFF80, end: 0xFFFE, region: Region::HighRam },
        MapEntry { start: 0xFFFF, end: 0xFFFF, region: Region::InterruptEnable },
        MapEntry { start: 0x0000, end: 0xFFFF, region: Region::Placeholder },
    ]
}

/// The bus dispatch table, held as data so that range ownership can be
/// inspected, proved disjoint, and deliberately malformed in a test
/// harness.
pub struct MemoryMap {
    entries: Vec<MapEntry>,
}

impl View for MemoryMap {
    type V = Seq<MapEntry>;

    closed spec fn view(&self) -> Seq<MapEntry> {
        self.entries@
    }
}

impl MemoryMap {
    /// A table from explicit rows.
    pub fn new(entries: Vec<MapEntry>) -> (r: MemoryMap)
        ensures
            r@ == entries@,
    {
        MemoryMap { entries }
    }

    /// The standard table.
    pub fn standard() -> (r: MemoryMap)
        ensures
            r@ == spec_standard_map(),
    {
        let mut entries: Vec<MapEntry> = Vec::new();
        entries.push(MapEntry { start: 0x0000, end: 0x7FFF, region: Region::Cartridge });
        entries.push(MapEntry { start: 0x8000, end: 0x9FFF, region: Region::VideoRam });
        entries.push(MapEntry { start: 0xC000, end: 0xDFFF, region: Region::WorkRam });
        entries.push(MapEntry { start: 0xE000, end: 0xFDFF, region: Region::WorkRamMirror });
        entries.push(MapEntry { start: 0xFF01, end: 0xFF02, region: Region::Serial });
        entries.push(MapEntry { start: 0xFF44, end: 0xFF44, region: Region::VideoLine });
        entries.push(MapEntry { start: 0xFF80, end: 0xFFFE, region: Region::HighRam });
        entries.push(MapEntry { start: 0xFFFF, end: 0xFFFF, region: Region::InterruptEnable });
        entries.push(MapEntry { start: 0x0000, end: 0xFFFF, region: Region::Placeholder });
        proof {
            assert(entries@ =~= spec_standard_map());
        }
        MemoryMap { entries }
    }

    /// The region that owns `addr`: the first matching row.
    pub fn resolve(&self, addr: u16) -> (r: Option<Region>)
        ensures
            r == spec_resolve(self@, addr),
    {
        let mut i: usize = 0;
        while i < self.entries.len()
            invariant
                i <= self.entries.len(),
                spec_resolve_from(self@, addr, i as int) == spec_resolve(self@, addr),
            decreases self.entries.len() - i,
        {
            let e = self.entries[i];
            if e.start <= addr && addr <= e.end {
                return Some(e.region);
            }
            i += 1;
        }
        None
    }
}

/// A byte-addressable region of storage: anything that serves reads and
/// writes of device-local offsets out of its own contents.
pub trait Device {
    /// The bytes the device currently holds.
    spec fn contents(&self) -> Seq<u8>;

    /// Read the byte at a device-local offset.
    fn read(&self, offset: u16) -> (r: u8)
        requires
            (offset as int) < self.contents().len(),
        ensures
            r == self.contents()[offset as int],
    ;

    /// Write the byte at a device-local offset.
    fn write(&mut self, offset: u16, value: u8)
        requires
            (offset as int) < old(self).contents().len(),
        ensures
            final(self).contents() == old(self).contents().update(offset as int, value),
    ;
}

/// Fixed-size RAM, filled with a recognizable non-zero pattern at boot.
pub struct Ram {
    data: Vec<u8>,
}

impl View for Ram {
    type V = Seq<u8>;

    closed spec fn view(&self) -> Seq<u8> {
        self.data@
    }
}

impl Ram {
    /// Fresh RAM of the given size, every byte 0x11.
    pub fn new(size: usize) -> (r: Ram)
        ensures
            r@.len() == size,
            forall|i: int| 0 <= i < size ==> r@[i] == 0x11u8,
    {
        let mut data: Vec<u8> = Vec::new();
        let mut i: usize = 0;
        while i < size
            invariant
                i <= size,
                data@.len() == i,
                forall|j: int| 0 <= j < i ==> data@[j] == 0x11u8,
            decreases size - i,
        {
            data.push(0x11);
            i += 1;
        }
        Ram { data }
    }
}

impl Device for Ram {
    open spec fn contents(&self) -> Seq<u8> {
        self@
    }

    fn read(&self, offset: u16) -> (r: u8) {
        self.data[offset as usize]
    }

    fn write(&mut self, offset: u16, value: u8) {
        self.data.set(offset as usize, value);
    }
}

/// The video stub: a plain RAM backing for the video RAM window, plus a
/// fixed "current line" register. No rendering is modeled.
pub struct DummyVideo {
    ram: Vec<u8>,
}

impl View for DummyVideo {
    type V = Seq<u8>;

    closed spec fn view(&self) -> Seq<u8> {
        self.ram@
    }
}

impl DummyVideo {
    /// A fresh video stub: 8 KiB of zeroed video RAM.
    pub fn new() -> (r: DummyVideo)
        ensures
            r@.len() == 0x2000,
            forall|i: int| 0 <= i < 0x2000 ==> r@[i] == 0u8,
    {
        let mut ram: Vec<u8> = Vec::new();
        let mut i: usize = 0;
        while i < 0x2000
            invariant
                i <= 0x2000,
                ram@.len() == i,
                forall|j: int| 0 <= j < i ==> ram@[j] == 0u8,
            decreases 0x2000 - i,
        {
            ram.push(0);
            i += 1;
        }
        DummyVideo { ram }
    }

    /// The stubbed current-line register value a true read returns.
    pub fn current_line(&self) -> (r: u8)
        ensures
            r == 0x94u8,
    {
        0x94
    }

    /// The stubbed current-line value a side-effect-free peek returns.
    pub fn peek_current_line(&self) -> (r: u8)
        ensures
            r == 0x99u8,
    {
        0x99
    }
}

impl Device for DummyVideo {
    open spec fn contents(&self) -> Seq<u8> {
        self@
    }

    fn read(&self, offset: u16) -> (r: u8) {
        self.ram[offset as usize]
    }

    fn write(&mut self, offset: u16, value: u8) {
        self.ram.set(offset as usize, value);
    }
}

/// The abstract state of the serial stub: the data register and the log
/// of bytes emitted through the control register.
pub struct SerialView {
    pub data: u8,
    pub log: Seq<u8>,
}

/// The serial stub: a data register, and a log of every byte emitted by
/// writing the control register. Formatting or delivering the emitted
/// bytes is a caller's concern.
pub struct Serial {
    data: u8,
    log: Vec<u8>,
}

impl View for Serial {
    type V = SerialView;

    closed spec fn view(&self) -> SerialView {
        SerialView { data: self.data, log: self.log@ }
    }
}

impl Serial {
    /// A fresh serial stub: data register zero, nothing emitted.
    pub fn new() -> (r: Serial)
        ensures
            r@.data == 0u8,
            r@.log == Seq::<u8>::empty(),
    {
        Serial { data: 0, log: Vec::new() }
    }

    /// The current data register value.
    pub fn data(&self) -> (r: u8)
        ensures
            r == self@.data,
    {
        self.data
    }

    /// Set the data register.
    pub fn set_data(&mut self, value: u8)
        ensures
            final(self)@.data == value,
            final(self)@.log == old(self)@.log,
    {
        self.data = value;
    }

    /// Emit the current data register byte: append it to the log.
    pub fn emit(&mut self)
        ensures
            final(self)@.data == old(self)@.data,
            final(self)@.log == old(self)@.log.push(old(self)@.data),
    {
        self.log.push(self.data);
    }

    /// The bytes emitted so far, oldest first.
    pub fn emitted(&self) -> (r: &Vec<u8>)
        ensures
            r@ == self@.log,
    {
        &self.log
    }
}

/// The abstract state of the whole bus: the dispatch table and the state
/// of every device behind it.
#[verifier::ext_equal]
pub struct BusView {
    pub map: Seq<MapEntry>,
    pub cartridge: CartridgeView,
    pub vram: Seq<u8>,
    pub wram: Seq<u8>,
    pub hram: Seq<u8>,
    pub serial_data: u8,
    pub serial_log: Seq<u8>,
    pub interrupt_enable: u8,
}

/// A well-formed bus: a well-formed table, a cartridge bank in range,
/// and every RAM of its documented size.
pub open spec fn bus_wf(b: BusView) -> bool {
    &&& map_wf(b.map)
    &&& 1 <= b.cartridge.bank <= 0x61
    &&& b.vram.len() == 0x2000
    &&& b.wram.len() == 0x2000
    &&& b.hram.len() == 0x7F
}

/// The byte a true read returns from a region, or the fault it raises.
/// The serial control register has no modeled read side.
pub open spec fn spec_region_read(b: BusView, region: Region, addr: u16) -> Result<u8, Fault> {
    match region {
        Region::Cartridge => Ok(spec_cartridge_read(b.cartridge, addr)),
        Region::VideoRam => Ok(b.vram[addr - 0x8000]),
        Region::WorkRam => Ok(b.wram[addr - 0xC000]),
        Region::WorkRamMirror => Ok(b.wram[addr - 0xE000]),
        Region::Serial => if addr == 0xFF01 {
            Ok(b.serial_data)
        } else {
            Err(Fault::UnimplementedRead(addr))
        },
        Region::VideoLine => Ok(0x94),
        Region::HighRam => Ok(b.hram[addr - 0xFF80]),
        Region::InterruptEnable => Ok(b.interrupt_enable),
        Region::Placeholder => Ok(0),
    }
}

/// The byte a side-effect-free peek returns from a region. A peek never
/// raises the unmodeled-read fault: it is for debugger display.
pub open spec fn spec_region_peek(b: BusView, region: Region, addr: u16) -> u8 {
    match region {
        Region::Cartridge => spec_cartridge_read(b.cartridge, addr),
        Region::VideoRam => b.vram[addr - 0x8000],
        Region::WorkRam => b.wram[addr - 0xC000],
        Region::WorkRamMirror => b.wram[addr - 0xE000],
        Region::Serial => if addr == 0xFF01 {
            b.serial_data
        } else {
            0
        },
        Region::VideoLine => 0x99,
        Region::HighRam => b.hram[addr - 0xFF80],
        Region::InterruptEnable => b.interrupt_enable,
        Region::Placeholder => 0,
    }
}

/// The bus state after a write to a region, or the fault it raises.
/// Writing the serial control register emits the data register byte;
/// placeholder and current-line writes are ignored.
pub open spec fn spec_region_write(b: BusView, region: Region, addr: u16, value: u8) -> Result<
    BusView,
    Fault,
> {
    match region {
        Region::Cartridge => match spec_cartridge_write(b.cartridge, addr, value) {
            Ok(c) => Ok(BusView { cartridge: c, ..b }),
            Err(f) => Err(f),
        },
        Region::VideoRam => Ok(BusView { vram: b.vram.update(addr - 0x8000, value), ..b }),
        Region::WorkRam => Ok(BusView { wram: b.wram.update(addr - 0xC000, value), ..b }),
        Region::WorkRamMirror => Ok(BusView { wram: b.wram.update(addr - 0xE000, value), ..b }),
        Region::Serial => if addr == 0xFF01 {
            Ok(BusView { serial_data: value, ..b })
        } else {
            Ok(BusView { serial_log: b.serial_log.push(b.serial_data), ..b })
        },
        Region::VideoLine => Ok(b),
        Region::HighRam => Ok(BusView { hram: b.hram.update(addr - 0xFF80, value), ..b }),
        Region::InterruptEnable => Ok(BusView { interrupt_enable: value, ..b }),
        Region::Placeholder => Ok(b),
    }
}

/// What a true read of `addr` returns: resolve the owning region, then
/// read it. No owning region is a fatal mapping error.
pub open spec fn spec_bus_read(b: BusView, addr: u16) -> Result<u8, Fault> {
    match spec_resolve(b.map, addr) {
        Some(region) => spec_region_read(b, region, addr),
        None => Err(Fault::InvalidAddress(addr)),
    }
}

/// What a peek of `addr` returns. Peeks never mutate and never raise the
/// unmodeled-read fault, but an unmapped address is still fatal.
pub open spec fn spec_bus_peek(b: BusView, addr: u16) -> Result<u8, Fault> {
    match spec_resolve(b.map, addr) {
        Some(region) => Ok(spec_region_peek(b, region, addr)),
        None => Err(Fault::InvalidAddress(addr)),
    }
}

/// The bus state after writing `value` at `addr`, or the fault raised.
pub open spec fn spec_bus_write(b: BusView, addr: u16, value: u8) -> Result<BusView, Fault> {
    match spec_resolve(b.map, addr) {
        Some(region) => spec_region_write(b, region, addr, value),
        None => Err(Fault::InvalidAddress(addr)),
    }
}

/// The bus: the dispatch table and the devices it routes to.
pub struct Bus {
    map: MemoryMap,
    cartridge: Cartridge,
    video: DummyVideo,
    work_ram: Ram,
    high_ram: Ram,
    serial: Serial,
    interrupt_enable: u8,
}

impl View for Bus {
    type V = BusView;

    closed spec fn view(&self) -> BusView {
        BusView {
            map: self.map@,
            cartridge: self.cartridge@,
            vram: self.video@,
            wram: self.work_ram@,
            hram: self.high_ram@,
            serial_data: self.serial@.data,
            serial_log: self.serial@.log,
            interrupt_enable: self.interrupt_enable,
        }
    }
}

impl Bus {
    /// See `bus_wf`.
    pub open spec fn wf(&self) -> bool {
        bus_wf(self@)
    }

    /// A bus over the standard memory map, with fresh devices around the
    /// given cartridge.
    pub fn new(cartridge: Cartridge) -> (r: Bus)
        requires
            cartridge.wf(),
        ensures
            r.wf(),
            r@.map == spec_standard_map(),
            r@.cartridge == cartridge@,
            r@.vram == Seq::new(0x2000, |i: int| 0u8),
            r@.wram == Seq::new(0x2000, |i: int| 0x11u8),
            r@.hram == Seq::new(0x7F, |i: int| 0x11u8),
            r@.serial_data == 0u8,
            r@.serial_log == Seq::<u8>::empty(),
            r@.interrupt_enable == 0u8,
    {
        Self::with_map(cartridge, MemoryMap::standard())
    }

    /// A bus over an explicit dispatch table; the hook through which a
    /// test harness can supply a deliberately malformed map.
    pub fn with_map(cartridge: Cartridge, map: MemoryMap) -> (r: Bus)
        requires
            cartridge.wf(),
            map_wf(map@),
        ensures
            r.wf(),
            r@.map == map@,
            r@.cartridge == cartridge@,
            r@.vram == Seq::new(0x2000, |i: int| 0u8),
            r@.wram == Seq::new(0x2000, |i: int| 0x11u8),
            r@.hram == Seq::new(0x7F, |i: int| 0x11u8),
            r@.serial_data == 0u8,
            r@.serial_log == Seq::<u8>::empty(),
            r@.interrupt_enable == 0u8,
    {
        let r = Bus {
            map,
            cartridge,
            video: DummyVideo::new(),
            work_ram: Ram::new(0x2000),
            high_ram: Ram::new(0x7F),
            serial: Serial::new(),
            interrupt_enable: 0,
        };
        proof {
            assert(r@.vram =~= Seq::new(0x2000, |i: int| 0u8));
            assert(r@.wram =~= Seq::new(0x2000, |i: int| 0x11u8));
            assert(r@.hram =~= Seq::new(0x7F, |i: int| 0x11u8));
        }
        r
    }

    /// A true read: dispatch `addr` to its owning device.
    pub fn read(&self, addr: u16) -> (r: Result<u8, Fault>)
        requires
            self.wf(),
        ensures
            r == spec_bus_read(self@, addr),
    {
        proof {
            lemma_resolve_in_window(self@.map, addr, 0);
        }
        match self.map.resolve(addr) {
            None => Err(Fault::InvalidAddress(addr)),
            Some(region) => match region {
                Region::Cartridge => Ok(self.cartridge.read(addr)),
                Region::VideoRam => Ok(self.video.read(addr - 0x8000)),
                Region::WorkRam => Ok(self.work_ram.read(addr - 0xC000)),
                Region::WorkRamMirror => Ok(self.work_ram.read(addr - 0xE000)),
                Region::Serial => if addr == 0xFF01 {
                    Ok(self.serial.data())
                } else {
                    Err(Fault::UnimplementedRead(addr))
                },
                Region::VideoLine => Ok(self.video.current_line()),
                Region::HighRam => Ok(self.high_ram.read(addr - 0xFF80)),
                Region::InterruptEnable => Ok(self.interrupt_enable),
                Region::Placeholder => Ok(0),
            },
        }
    }

    /// A side-effect-free peek, for debugger display: like a read, but it
    /// never advances or clears anything a true read would, and it never
    /// raises the unmodeled-read fault.
    pub fn peek(&self, addr: u16) -> (r: Result<u8, Fault>)
        requires
            self.wf(),
        ensures
            r == spec_bus_peek(self@, addr),
    {
        proof {
            lemma_resolve_in_window(self@.map, addr, 0);
        }
        match self.map.resolve(addr) {
            None => Err(Fault::InvalidAddress(addr)),
            Some(region) => match region {
                Region::Cartridge => Ok(self.cartridge.read(addr)),
                Region::VideoRam => Ok(self.video.read(addr - 0x8000)),
                Region::WorkRam => Ok(self.work_ram.read(addr - 0xC000)),
                Region::WorkRamMirror => Ok(self.work_ram.read(addr - 0xE000)),
                Region::Serial => if addr == 0xFF01 {
                    Ok(self.serial.data())
                } else {
                    Ok(0)
                },
                Region::VideoLine => Ok(self.video.peek_current_line()),
                Region::HighRam => Ok(self.high_ram.read(addr - 0xFF80)),
                Region::InterruptEnable => Ok(self.interrupt_enable),
                Region::Placeholder => Ok(0),
            },
        }
    }

    /// A write: dispatch `addr` to its owning device.
    pub fn write(&mut self, addr: u16, value: u8) -> (r: Result<(), Fault>)
        requires
            old(self).wf(),
        ensures
            final(self).wf(),
            match spec_bus_write(old(self)@, addr, value) {
                Ok(b) => r is Ok && final(self)@ == b,
                Err(f) => r == Err::<(), Fault>(f) && final(self)@ == old(self)@,
            },
    {
        proof {
            lemma_resolve_in_window(self@.map, addr, 0);
        }
        match self.map.resolve(addr) {
            None => Err(Fault::InvalidAddress(addr)),
            Some(region) => match region {
                Region::Cartridge => {
                    let r = self.cartridge.write(addr, value);
                    proof {
                        assert(self@ =~= match spec_bus_write(old(self)@, addr, value) {
                            Ok(b) => b,
                            Err(_) => old(self)@,
                        });
                    }
                    r
                },
                Region::VideoRam => {
                    self.video.write(addr - 0x8000, value);
                    proof {
                        assert(self@ =~= spec_bus_write(old(self)@, addr, value)->Ok_0);
                    }
                    Ok(())
                },
                Region::WorkRam => {
                    self.work_ram.write(addr - 0xC000, value);
                    proof {
                        assert(self@ =~= spec_bus_write(old(self)@, addr, value)->Ok_0);
                    }
                    Ok(())
                },
                Region::WorkRamMirror => {
                    self.work_ram.write(addr - 0xE000, value);
                    proof {
                        assert(self@ =~= spec_bus_write(old(self)@, addr, value)->Ok_0);
                    }
                    Ok(())
                },
                Region::Serial => {
                    if addr == 0xFF01 {
                        self.serial.set_data(value);
                    } else {
                        self.serial.emit();
                    }
                    proof {
                        assert(self@ =~= spec_bus_write(old(self)@, addr, value)->Ok_0);
                    }
                    Ok(())
                },
                Region::VideoLine => Ok(()),
                Region::HighRam => {
                    self.high_ram.write(addr - 0xFF80, value);
                    proof {
                        assert(self@ =~= spec_bus_write(old(self)@, addr, value)->Ok_0);
                    }
                    Ok(())
                },
                Region::InterruptEnable => {
                    self.interrupt_enable = value;
                    proof {
                        assert(self@ =~= spec_bus_write(old(self)@, addr, value)->Ok_0);
                    }
                    Ok(())
                },
                Region::Placeholder => Ok(()),
            },
        }
    }

    /// The bytes emitted through the serial control register so far.
    pub fn serial_emitted(&self) -> (r: &Vec<u8>)
        ensures
            r@ == self@.serial_log,
    {
        self.serial.emitted()
    }
}

} // verus!
