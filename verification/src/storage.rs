//! The persisted settings record: its byte layout, the checks applied to a
//! record read back, and the updates written into it.
//!
//! Gains and times are single-precision numbers; the record holds each as the
//! 32 bits of its IEEE 754 encoding, so that a record survives a round trip
//! bit for bit.
use vstd::prelude::*;

verus! {

/// First byte of every record.
pub const FLASH_MAGIC: u8 = 0xB5;

/// Layout version, second byte of every record.
pub const FLASH_VERSION: u8 = 0x03;

/// Bits of `10.0`: the default wait time in seconds.
pub const MAX_WAIT_TIME_DEFAULT: u32 = 0x4120_0000;

/// Bits of `0.0`: the default extra time in seconds.
pub const EXTRA_TIME_DEFAULT: u32 = 0;

/// The default lead offset in degrees.
pub const TEMP_LEAD_OFFSET_DEFAULT: i16 = 5;

/// The default temperature offset in degrees.
pub const TEMP_OFFSET_DEFAULT: i16 = 0;

/// Number of bytes a record occupies.
pub const RECORD_LEN: usize = 27;

/// `bincode::error::EncodeError`, carried through unread.
#[verifier::external_type_specification]
#[verifier::external_body]
pub struct ExEncodeError(bincode::error::EncodeError);

/// `bincode::error::DecodeError`, carried through unread.
#[verifier::external_type_specification]
#[verifier::external_body]
pub struct ExDecodeError(bincode::error::DecodeError);

/// The settings record.
#[derive(Clone, Copy, Debug, PartialEq, Eq, Structural)]
pub struct StorageData {
    pub magic: u8,
    pub version: u8,
    pub pid_p: u32,
    pub pid_i: u32,
    pub pid_d: u32,
    pub pid: bool,
    pub temp_wait_time: u32,
    pub temp_extra_time: u32,
    pub temp_lead_offset: i16,
    pub temp_offset: i16,
}

/// A request to change part of the record.
#[derive(Clone, Copy, Debug, PartialEq, Eq, Structural)]
pub enum SyncStorageStateEnum {
    WritePid { pid: bool, pid_p: u32, pid_i: u32, pid_d: u32 },
    WriteTempSettings { wait_time: u32, extra_time: u32, temp_lead_offset: i16, temp_offset: i16 },
}

/// Whether `bits` encode a NaN: all exponent bits set and a mantissa that is
/// not zero.
pub open spec fn is_nan_bits(bits: u32) -> bool {
    bits % 0x8000_0000 > 0x7F80_0000
}

/// Tests `is_nan_bits`.
pub fn nan_bits(bits: u32) -> (r: bool)
    ensures
        r == is_nan_bits(bits),
{
    bits % 0x8000_0000 > 0x7F80_0000
}

/// The two bytes of `x`, low byte first.
pub open spec fn le16(x: u16) -> Seq<u8> {
    seq![(x % 256) as u8, (x / 256) as u8]
}

/// The four bytes of `x`, lowest byte first.
pub open spec fn le32(x: u32) -> Seq<u8> {
    seq![
        (x % 256) as u8,
        (x / 256 % 256) as u8,
        (x / 65536 % 256) as u8,
        (x / 16777216) as u8,
    ]
}

/// The number whose two bytes, low byte first, start at `at`.
pub open spec fn from_le16(b: Seq<u8>, at: int) -> u16 {
    (b[at] + 256 * b[at + 1]) as u16
}

/// The number whose four bytes, lowest byte first, start at `at`.
pub open spec fn from_le32(b: Seq<u8>, at: int) -> u32 {
    (b[at] + 256 * b[at + 1] + 65536 * b[at + 2] + 16777216 * b[at + 3]) as u32
}

/// A signed 16-bit number as its two's complement.
pub open spec fn unsigned16(x: i16) -> u16 {
    if x >= 0 {
        x as u16
    } else {
        (x + 65536) as u16
    }
}

/// The signed 16-bit number with two's complement `x`.
pub open spec fn signed16(x: u16) -> i16 {
    if x < 32768 {
        x as i16
    } else {
        (x - 65536) as i16
    }
}

/// The bytes of a record: magic, version, the three gains, the enable flag as
/// one byte, the two times and the two offsets, every number low byte first.
pub open spec fn record_bytes(r: StorageData) -> Seq<u8> {
    seq![r.magic, r.version] + le32(r.pid_p) + le32(r.pid_i) + le32(r.pid_d) + seq![
        if r.pid {
            1u8
        } else {
            0u8
        },
    ] + le32(r.temp_wait_time) + le32(r.temp_extra_time) + le16(unsigned16(r.temp_lead_offset))
        + le16(unsigned16(r.temp_offset))
}

/// Whether a record can be read from `b`: all its bytes are there and the
/// flag byte is 0 or 1.
pub open spec fn fields_readable(b: Seq<u8>) -> bool {
    b.len() >= RECORD_LEN && b[14] <= 1
}

/// The record that the first bytes of `b` spell, unchecked.
pub open spec fn record_of(b: Seq<u8>) -> StorageData {
    StorageData {
        magic: b[0],
        version: b[1],
        pid_p: from_le32(b, 2),
        pid_i: from_le32(b, 6),
        pid_d: from_le32(b, 10),
        pid: b[14] == 1,
        temp_wait_time: from_le32(b, 15),
        temp_extra_time: from_le32(b, 19),
        temp_lead_offset: signed16(from_le16(b, 23)),
        temp_offset: signed16(from_le16(b, 25)),
    }
}

/// The record a device starts with when nothing usable is stored.
pub open spec fn default_record() -> StorageData {
    StorageData {
        magic: FLASH_MAGIC,
        version: FLASH_VERSION,
        pid_p: 0,
        pid_i: 0,
        pid_d: 0,
        pid: false,
        temp_wait_time: MAX_WAIT_TIME_DEFAULT,
        temp_extra_time: EXTRA_TIME_DEFAULT,
        temp_lead_offset: TEMP_LEAD_OFFSET_DEFAULT,
        temp_offset: TEMP_OFFSET_DEFAULT,
    }
}

/// `bits`, or `fallback` where they encode a NaN.
pub open spec fn number_or(bits: u32, fallback: u32) -> u32 {
    if is_nan_bits(bits) {
        fallback
    } else {
        bits
    }
}

impl StorageData {
    /// Magic and version are the expected ones and no number is a NaN.
    pub open spec fn is_valid(self) -> bool {
        &&& self.magic == FLASH_MAGIC
        &&& self.version == FLASH_VERSION
        &&& !is_nan_bits(self.pid_p)
        &&& !is_nan_bits(self.pid_i)
        &&& !is_nan_bits(self.pid_d)
        &&& !is_nan_bits(self.temp_wait_time)
        &&& !is_nan_bits(self.temp_extra_time)
    }

    /// The record after the checks: the defaults where magic or version are
    /// wrong, else the record with every NaN replaced by that field's default.
    pub open spec fn checked(self) -> StorageData {
        if self.magic != FLASH_MAGIC || self.version != FLASH_VERSION {
            default_record()
        } else {
            StorageData {
                pid_p: number_or(self.pid_p, 0),
                pid_i: number_or(self.pid_i, 0),
                pid_d: number_or(self.pid_d, 0),
                temp_wait_time: number_or(self.temp_wait_time, MAX_WAIT_TIME_DEFAULT),
                temp_extra_time: number_or(self.temp_extra_time, EXTRA_TIME_DEFAULT),
                ..self
            }
        }
    }

    /// The record after a change request.
    pub open spec fn updated(self, request: SyncStorageStateEnum) -> StorageData {
        match request {
            SyncStorageStateEnum::WritePid { pid, pid_p, pid_i, pid_d } => StorageData {
                pid,
                pid_p,
                pid_i,
                pid_d,
                ..self
            },
            SyncStorageStateEnum::WriteTempSettings {
                wait_time,
                extra_time,
                temp_lead_offset,
                temp_offset,
            } => StorageData {
                temp_wait_time: wait_time,
                temp_extra_time: extra_time,
                temp_lead_offset,
                temp_offset,
                ..self
            },
        }
    }

    /// Applies the checks to a record read back.
    pub fn sanitize(self) -> (r: StorageData)
        ensures
            r == self.checked(),
            r.is_valid(),
    {
        if self.magic != FLASH_MAGIC || self.version != FLASH_VERSION {
            return StorageData::default();
        }
        let mut storage: StorageData = self;
        if nan_bits(storage.pid_p) {
            storage.pid_p = 0;
        }
        if nan_bits(storage.pid_i) {
            storage.pid_i = 0;
        }
        if nan_bits(storage.pid_d) {
            storage.pid_d = 0;
        }
        if nan_bits(storage.temp_wait_time) {
            storage.temp_wait_time = MAX_WAIT_TIME_DEFAULT;
        }
        if nan_bits(storage.temp_extra_time) {
            storage.temp_extra_time = EXTRA_TIME_DEFAULT;
        }
        storage
    }

    /// Writes a change request into the record.
    pub fn apply(&mut self, request: SyncStorageStateEnum)
        ensures
            *final(self) == old(self).updated(request),
    {
        match request {
            SyncStorageStateEnum::WritePid { pid, pid_p, pid_i, pid_d } => {
                self.pid_p = pid_p;
                self.pid_i = pid_i;
                self.pid_d = pid_d;
                self.pid = pid;
            },
            SyncStorageStateEnum::WriteTempSettings {
                wait_time,
                extra_time,
                temp_lead_offset,
                temp_offset,
            } => {
                self.temp_wait_time = wait_time;
                self.temp_extra_time = extra_time;
                self.temp_lead_offset = temp_lead_offset;
                self.temp_offset = temp_offset;
            },
        }
    }

    /// The record's bytes.
    pub fn encode(&self) -> (out: [u8; 27])
        ensures
            out@ == record_bytes(*self),
    {
        let mut out: [u8; 27] = [0u8;27];
        let fits = encode_fields(self, &mut out);
        proof {
            // The buffer has room, so the bytes were written.
            assert(fits.is_ok());
            assert(out@ =~= record_bytes(*self));
        }
        out
    }

    /// Writes the record's bytes to the front of `dst` and returns their
    /// number, or `None` where `dst` is too short to hold them; the rest of
    /// `dst` stays as it was.
    pub fn encode_into(&self, dst: &mut [u8]) -> (r: Option<usize>)
        ensures
            final(dst)@.len() == old(dst)@.len(),
            r.is_some() <==> old(dst)@.len() >= RECORD_LEN,
            r.is_some() ==> r == Some(RECORD_LEN) && final(dst)@ == record_bytes(*self) + old(
                dst,
            )@.skip(RECORD_LEN as int),
            r.is_none() ==> final(dst)@ == old(dst)@,
    {
        if dst.len() < RECORD_LEN {
            return None;
        }
        match encode_fields(self, dst) {
            Ok(n) => Some(n),
            Err(_) => None,
        }
    }

    /// Reads a record from the front of `src` and applies the checks; the
    /// defaults where no record can be read.
    pub fn decode(src: &[u8]) -> (r: StorageData)
        ensures
            r == decoded(src@),
            r.is_valid(),
    {
        match decode_fields(src) {
            Ok(found) => found.0.sanitize(),
            Err(_) => StorageData::default(),
        }
    }
}

impl Default for StorageData {
    fn default() -> (r: Self)
        ensures
            r == default_record(),
    {
        StorageData {
            magic: FLASH_MAGIC,
            version: FLASH_VERSION,
            pid_p: 0,
            pid_i: 0,
            pid_d: 0,
            pid: false,
            temp_wait_time: MAX_WAIT_TIME_DEFAULT,
            temp_extra_time: EXTRA_TIME_DEFAULT,
            temp_lead_offset: TEMP_LEAD_OFFSET_DEFAULT,
            temp_offset: TEMP_OFFSET_DEFAULT,
        }
    }
}

/// What reading a record from `b` gives: the checked record where one can be
/// read, else the defaults.
pub open spec fn decoded(b: Seq<u8>) -> StorageData {
    if fields_readable(b) {
        record_of(b).checked()
    } else {
        default_record()
    }
}

/// Calls `bincode::encode_into_slice` on the record's ten fields, as a tuple
/// in declaration order, with little-endian fixed-width integers. The claim:
/// it succeeds exactly when `dst` has room for the 27 bytes, then puts them at
/// the front of `dst`, leaves the rest alone and returns their number; it
/// never changes the length of `dst`.
#[verifier::external_body]
fn encode_fields(rec: &StorageData, dst: &mut [u8]) -> (r: Result<
    usize,
    bincode::error::EncodeError,
>)
    ensures
        final(dst)@.len() == old(dst)@.len(),
        r.is_ok() <==> old(dst)@.len() >= RECORD_LEN,
        r matches Ok(n) ==> n == RECORD_LEN && final(dst)@ == record_bytes(*rec) + old(dst)@.skip(
            RECORD_LEN as int,
        ),
{
    let cfg = bincode::config::standard().with_little_endian().with_fixed_int_encoding();
    let (p, i, d) = (rec.pid_p, rec.pid_i, rec.pid_d);
    let (wait, extra) = (rec.temp_wait_time, rec.temp_extra_time);
    let (lead, off) = (rec.temp_lead_offset, rec.temp_offset);
    let fields = (rec.magic, rec.version, p, i, d, rec.pid, wait, extra, lead, off);
    bincode::encode_into_slice(fields, dst, cfg)
}

/// Calls `bincode::decode_from_slice` for the record's ten fields, as a tuple
/// in declaration order, with little-endian fixed-width integers. The claim:
/// it succeeds exactly when `src` holds at least 27 bytes and the flag byte is
/// 0 or 1, and then returns the fields those bytes spell and the number of
/// bytes read.
#[verifier::external_body]
fn decode_fields(src: &[u8]) -> (r: Result<(StorageData, usize), bincode::error::DecodeError>)
    ensures
        r.is_ok() <==> fields_readable(src@),
        r matches Ok(found) ==> found.0 == record_of(src@) && found.1 == RECORD_LEN,
{
    let cfg = bincode::config::standard().with_little_endian().with_fixed_int_encoding();
    let r: Result<((u8, u8, u32, u32, u32, bool, u32, u32, i16, i16), usize), _> =
        bincode::decode_from_slice(src, cfg);
    match r {
        Ok(((magic, version, pid_p, pid_i, pid_d, pid, wait, extra, lead, off), n)) => Ok((
            StorageData { magic, version, pid_p, pid_i, pid_d, pid, temp_wait_time: wait,
                temp_extra_time: extra, temp_lead_offset: lead, temp_offset: off },
            n,
        )),
        Err(e) => Err(e),
    }
}

/// The number read back from the four bytes of `x` is `x`.
pub proof fn lemma_le32_round_trip(x: u32, b: Seq<u8>, at: int)
    requires
        0 <= at,
        at + 4 <= b.len(),
        b.subrange(at, at + 4) == le32(x),
    ensures
        from_le32(b, at) == x,
{
    let w = b.subrange(at, at + 4);
    assert(w[0] == b[at] && w[1] == b[at + 1] && w[2] == b[at + 2] && w[3] == b[at + 3]);
    let l = le32(x);
    assert(l[0] == (x % 256) as u8 && l[1] == (x / 256 % 256) as u8 && l[2] == (x / 65536
        % 256) as u8 && l[3] == (x / 16777216) as u8);
}

/// The signed number read back from the two bytes of `x` is `x`.
pub proof fn lemma_le16_round_trip(x: i16, b: Seq<u8>, at: int)
    requires
        0 <= at,
        at + 2 <= b.len(),
        b.subrange(at, at + 2) == le16(unsigned16(x)),
    ensures
        signed16(from_le16(b, at)) == x,
{
    let w = b.subrange(at, at + 2);
    assert(w[0] == b[at] && w[1] == b[at + 1]);
    let u = unsigned16(x);
    let l = le16(u);
    assert(l[0] == (u % 256) as u8 && l[1] == (u / 256) as u8);
}

/// Reading the bytes of any record gives that record back, field for field
/// and bit for bit.
pub proof fn lemma_fields_round_trip(r: StorageData)
    ensures
        record_bytes(r).len() == RECORD_LEN,
        fields_readable(record_bytes(r)),
        record_of(record_bytes(r)) == r,
{
    let b = record_bytes(r);
    assert(b.len() == 27);
    assert(b[0] == r.magic);
    assert(b[1] == r.version);
    assert(b[14] == if r.pid { 1u8 } else { 0u8 });
    assert(b.subrange(2, 6) =~= le32(r.pid_p));
    assert(b.subrange(6, 10) =~= le32(r.pid_i));
    assert(b.subrange(10, 14) =~= le32(r.pid_d));
    assert(b.subrange(15, 19) =~= le32(r.temp_wait_time));
    assert(b.subrange(19, 23) =~= le32(r.temp_extra_time));
    assert(b.subrange(23, 25) =~= le16(unsigned16(r.temp_lead_offset)));
    assert(b.subrange(25, 27) =~= le16(unsigned16(r.temp_offset)));
    lemma_le32_round_trip(r.pid_p, b, 2);
    lemma_le32_round_trip(r.pid_i, b, 6);
    lemma_le32_round_trip(r.pid_d, b, 10);
    lemma_le32_round_trip(r.temp_wait_time, b, 15);
    lemma_le32_round_trip(r.temp_extra_time, b, 19);
    lemma_le16_round_trip(r.temp_lead_offset, b, 23);
    lemma_le16_round_trip(r.temp_offset, b, 25);
}

/// Writing a valid record and reading it back gives the identical record,
/// also when other bytes follow it.
pub proof fn lemma_round_trip(r: StorageData, tail: Seq<u8>)
    requires
        r.is_valid(),
    ensures
        decoded(record_bytes(r)) == r,
        decoded(record_bytes(r) + tail) == r,
{
    lemma_fields_round_trip(r);
    let b = record_bytes(r);
    let c = b + tail;
    assert(c.len() >= 27);
    assert forall|i: int| 0 <= i < 27 implies c[i] == b[i] by {}
    assert(record_of(c) == record_of(b));
}

/// Bytes whose magic or version is not the expected one read as the defaults,
/// and so do bytes from which no record can be read.
pub proof fn lemma_mismatch_reads_defaults(b: Seq<u8>)
    requires
        b.len() < RECORD_LEN || b[14] > 1 || b[0] != FLASH_MAGIC || b[1] != FLASH_VERSION,
    ensures
        decoded(b) == default_record(),
{
}

/// Whatever the bytes, the record read from them is valid.
pub proof fn lemma_decoded_is_valid(b: Seq<u8>)
    ensures
        decoded(b).is_valid(),
        decoded(b).checked() == decoded(b),
{
}

} // verus!
