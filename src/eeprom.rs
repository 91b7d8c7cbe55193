//! The persisted configuration: the default half-period and the number of
//! startups, each a big-endian 32-bit word in the EEPROM's bytes.
use vstd::prelude::*;

verus! {

/// Bytes of EEPROM on the controller.
pub const EEPROM_SIZE: usize = 1024;

/// Where the startup counter is stored.
pub const BASE_ADDR_STARTUPS: u16 = 0x0000;

/// Where the default half-period is stored.
pub const BASE_ADDR_TIME: u16 = 0x00F0;

/// The value that an erased EEPROM byte reads as.
pub const ERASED_BYTE: u8 = 0xFF;

/// The word that four bytes hold, most significant byte first.
pub open spec fn be_u32(b0: u8, b1: u8, b2: u8, b3: u8) -> u32 {
    ((b0 as u32) << 24u32) | ((b1 as u32) << 16u32) | ((b2 as u32) << 8u32) | (b3 as u32)
}

/// The word stored at `base`.
pub open spec fn stored_u32(cells: Seq<u8>, base: int) -> u32 {
    be_u32(cells[base], cells[base + 1], cells[base + 2], cells[base + 3])
}

/// The bytes after `value` is stored at `base`, most significant byte first.
pub open spec fn store_u32(cells: Seq<u8>, base: int, value: u32) -> Seq<u8> {
    cells.update(base, (value >> 24u32) as u8).update(base + 1, (value >> 16u32) as u8).update(
        base + 2,
        (value >> 8u32) as u8,
    ).update(base + 3, value as u8)
}

/// The startup count that follows `n`; the counter wraps, so that an erased
/// counter reads as zero after the first startup.
pub open spec fn next_count(n: u32) -> u32 {
    if n == u32::MAX {
        0
    } else {
        (n + 1) as u32
    }
}

/// The EEPROM's contents.
pub struct Eeprom {
    cells: Vec<u8>,
}

impl View for Eeprom {
    type V = Seq<u8>;

    closed spec fn view(&self) -> Seq<u8> {
        self.cells@
    }
}

impl Eeprom {
    pub open spec fn wf(&self) -> bool {
        self@.len() == EEPROM_SIZE
    }

    /// An erased EEPROM: every byte reads as `0xFF`.
    pub fn erased() -> (r: Eeprom)
        ensures
            r.wf(),
            forall|i: int| 0 <= i < EEPROM_SIZE ==> #[trigger] r@[i] == ERASED_BYTE,
    {
        let mut cells: Vec<u8> = Vec::new();
        while cells.len() < EEPROM_SIZE
            invariant
                cells@.len() <= EEPROM_SIZE,
                forall|i: int| 0 <= i < cells@.len() ==> #[trigger] cells@[i] == ERASED_BYTE,
            decreases EEPROM_SIZE - cells@.len(),
        {
            cells.push(ERASED_BYTE);
        }
        Eeprom { cells }
    }

    /// The EEPROM holding the given bytes; `None` unless there are exactly
    /// as many as it has.
    pub fn from_bytes(cells: Vec<u8>) -> (r: Option<Eeprom>)
        ensures
            cells@.len() == EEPROM_SIZE <==> r is Some,
            r is Some ==> r->0.wf() && r->0@ == cells@,
    {
        if cells.len() == EEPROM_SIZE {
            Some(Eeprom { cells })
        } else {
            None
        }
    }

    /// The bytes the EEPROM holds.
    pub fn as_bytes(&self) -> (r: &[u8])
        ensures
            r@ == self@,
    {
        self.cells.as_slice()
    }
}

/// Reads the byte at `address`.
pub fn read_word(address: u16, eeprom_registers: &Eeprom) -> (r: u8)
    requires
        eeprom_registers.wf(),
        address < EEPROM_SIZE,
    ensures
        r == eeprom_registers@[address as int],
{
    eeprom_registers.cells[address as usize]
}

/// Writes `word` to the byte at `address`.
pub fn write_word(word: u8, address: u16, eeprom_registers: &mut Eeprom)
    requires
        old(eeprom_registers).wf(),
        address < EEPROM_SIZE,
    ensures
        final(eeprom_registers).wf(),
        final(eeprom_registers)@ == old(eeprom_registers)@.update(address as int, word),
{
    eeprom_registers.cells.set(address as usize, word);
}

/// The word that four bytes hold, most significant byte first.
pub fn u8_to_u32(number_array: [u8; 4]) -> (r: u32)
    ensures
        r == be_u32(number_array@[0], number_array@[1], number_array@[2], number_array@[3]),
{
    ((number_array[0] as u32) << 24u32) | ((number_array[1] as u32) << 16u32) | ((
    number_array[2] as u32) << 8u32) | (number_array[3] as u32)
}

fn read_u32(base: u16, eeprom_registers: &Eeprom) -> (r: u32)
    requires
        eeprom_registers.wf(),
        base as int + 4 <= EEPROM_SIZE,
    ensures
        r == stored_u32(eeprom_registers@, base as int),
{
    let bytes: [u8; 4] = [
        read_word(base, eeprom_registers),
        read_word(base + 1, eeprom_registers),
        read_word(base + 2, eeprom_registers),
        read_word(base + 3, eeprom_registers),
    ];
    u8_to_u32(bytes)
}

fn write_u32(value: u32, base: u16, eeprom_registers: &mut Eeprom)
    requires
        old(eeprom_registers).wf(),
        base as int + 4 <= EEPROM_SIZE,
    ensures
        final(eeprom_registers).wf(),
        final(eeprom_registers)@ == store_u32(old(eeprom_registers)@, base as int, value),
{
    write_word((value >> 24u32) as u8, base, eeprom_registers);
    write_word((value >> 16u32) as u8, base + 1, eeprom_registers);
    write_word((value >> 8u32) as u8, base + 2, eeprom_registers);
    write_word(value as u8, base + 3, eeprom_registers);
}

/// The stored default half-period, in microseconds.
pub fn read_waiting_time(eeprom_registers: &Eeprom) -> (r: u32)
    requires
        eeprom_registers.wf(),
    ensures
        r == stored_u32(eeprom_registers@, BASE_ADDR_TIME as int),
{
    read_u32(BASE_ADDR_TIME, eeprom_registers)
}

/// Stores `time` as the default half-period.
pub fn write_waiting_time(time: u32, eeprom_registers: &mut Eeprom)
    requires
        old(eeprom_registers).wf(),
    ensures
        final(eeprom_registers).wf(),
        final(eeprom_registers)@ == store_u32(old(eeprom_registers)@, BASE_ADDR_TIME as int, time),
{
    write_u32(time, BASE_ADDR_TIME, eeprom_registers);
}

/// The stored number of startups.
pub fn read_startups(eeprom_registers: &Eeprom) -> (r: u32)
    requires
        eeprom_registers.wf(),
    ensures
        r == stored_u32(eeprom_registers@, BASE_ADDR_STARTUPS as int),
{
    read_u32(BASE_ADDR_STARTUPS, eeprom_registers)
}

/// Counts one more startup.
pub fn increment_startups(eeprom_registers: &mut Eeprom)
    requires
        old(eeprom_registers).wf(),
    ensures
        final(eeprom_registers).wf(),
        final(eeprom_registers)@ == store_u32(
            old(eeprom_registers)@,
            BASE_ADDR_STARTUPS as int,
            next_count(stored_u32(old(eeprom_registers)@, BASE_ADDR_STARTUPS as int)),
        ),
{
    let startups = read_startups(eeprom_registers);
    let next: u32 = if startups == u32::MAX {
        0
    } else {
        startups + 1
    };
    write_u32(next, BASE_ADDR_STARTUPS, eeprom_registers);
}

/// A word reads back as it was stored, and a word stored elsewhere, in
/// bytes that do not overlap, leaves it unchanged.
pub proof fn lemma_store_then_read(cells: Seq<u8>, base: int, value: u32, other: int)
    requires
        0 <= base,
        base + 4 <= cells.len(),
        0 <= other,
        other + 4 <= cells.len(),
        other + 4 <= base || base + 4 <= other,
    ensures
        stored_u32(store_u32(cells, base, value), base) == value,
        stored_u32(store_u32(cells, base, value), other) == stored_u32(cells, other),
{
    let s = store_u32(cells, base, value);
    assert(s[base] == (value >> 24u32) as u8);
    assert(s[base + 1] == (value >> 16u32) as u8);
    assert(s[base + 2] == (value >> 8u32) as u8);
    assert(s[base + 3] == value as u8);
    assert(be_u32((value >> 24u32) as u8, (value >> 16u32) as u8, (value >> 8u32) as u8, value as u8)
        == value) by (bit_vector);
}

} // verus!
