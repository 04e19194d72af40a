//! The decisions of the IDE driver: what the IDENTIFY data says about a
//! drive, how a transfer is split and addressed, and how DMA is described.
use vstd::prelude::*;
use vstd::utf8::*;

verus! {

pub const COMMAND_SET_WORD_COUNT: usize = 6;

#[derive(Debug, Clone, Copy, PartialEq, Eq)]
pub enum DriveType {
    Ata,
    Atapi,
    Other,
}

#[derive(Debug, Clone, Copy, PartialEq, Eq)]
pub enum TransferMode {
    Read,
    Write,
}

#[derive(Debug, Clone, Copy, PartialEq, Eq)]
pub enum AddressType {
    Chs,
    Lba28,
    Lba48,
}

/// The ATA commands the driver issues.
#[derive(Debug, Clone, Copy, PartialEq, Eq)]
pub enum Command {
    ReadPioLba28,
    ReadPioLba48,
    ReadDmaLba28,
    ReadDmaLba48,
    WritePioLba28,
    WritePioLba48,
    WriteDmaLba28,
    WriteDmaLba48,
    IdentifyAtaDrive,
    IdentifyAtapiDrive,
}

pub open spec fn command_code(c: Command) -> u8 {
    match c {
        Command::ReadPioLba28 => 0x20u8,
        Command::ReadPioLba48 => 0x24u8,
        Command::ReadDmaLba28 => 0xc8u8,
        Command::ReadDmaLba48 => 0x25u8,
        Command::WritePioLba28 => 0x30u8,
        Command::WritePioLba48 => 0x34u8,
        Command::WriteDmaLba28 => 0xcau8,
        Command::WriteDmaLba48 => 0x35u8,
        Command::IdentifyAtaDrive => 0xecu8,
        Command::IdentifyAtapiDrive => 0xa1u8,
    }
}

impl Command {
    /// The command byte.
    pub fn code(&self) -> (r: u8)
        ensures
            r == command_code(*self),
    {
        match self {
            Command::ReadPioLba28 => 0x20,
            Command::ReadPioLba48 => 0x24,
            Command::ReadDmaLba28 => 0xc8,
            Command::ReadDmaLba48 => 0x25,
            Command::WritePioLba28 => 0x30,
            Command::WritePioLba48 => 0x34,
            Command::WriteDmaLba28 => 0xca,
            Command::WriteDmaLba48 => 0x35,
            Command::IdentifyAtaDrive => 0xec,
            Command::IdentifyAtapiDrive => 0xa1,
        }
    }
}

/// The IDENTIFY command for a drive type, if the type can be identified.
pub fn identify_command(typ: DriveType) -> (r: Option<Command>)
    ensures
        r == (match typ {
            DriveType::Ata => Some(Command::IdentifyAtaDrive),
            DriveType::Atapi => Some(Command::IdentifyAtapiDrive),
            DriveType::Other => None::<Command>,
        }),
{
    match typ {
        DriveType::Ata => Some(Command::IdentifyAtaDrive),
        DriveType::Atapi => Some(Command::IdentifyAtapiDrive),
        DriveType::Other => None,
    }
}

/// The command for a transfer: PIO or DMA, read or write, 28 or 48 bit LBA.
pub fn transfer_command(mode: TransferMode, addressing: AddressType, dma: bool) -> (r: Command)
    ensures
        r == (match (mode, addressing == AddressType::Lba48, dma) {
            (TransferMode::Read, true, false) => Command::ReadPioLba48,
            (TransferMode::Read, false, false) => Command::ReadPioLba28,
            (TransferMode::Write, true, false) => Command::WritePioLba48,
            (TransferMode::Write, false, false) => Command::WritePioLba28,
            (TransferMode::Read, true, true) => Command::ReadDmaLba48,
            (TransferMode::Read, false, true) => Command::ReadDmaLba28,
            (TransferMode::Write, true, true) => Command::WriteDmaLba48,
            (TransferMode::Write, false, true) => Command::WriteDmaLba28,
        }),
{
    let lba48 = match addressing {
        AddressType::Lba48 => true,
        _ => false,
    };
    match (mode, lba48, dma) {
        (TransferMode::Read, true, false) => Command::ReadPioLba48,
        (TransferMode::Read, false, false) => Command::ReadPioLba28,
        (TransferMode::Write, true, false) => Command::WritePioLba48,
        (TransferMode::Write, false, false) => Command::WritePioLba28,
        (TransferMode::Read, true, true) => Command::ReadDmaLba48,
        (TransferMode::Read, false, true) => Command::ReadDmaLba28,
        (TransferMode::Write, true, true) => Command::WriteDmaLba48,
        (TransferMode::Write, false, true) => Command::WriteDmaLba28,
    }
}

/// Information about a drive connected to an IDE controller.
#[derive(Copy, Clone, Debug, PartialEq, Eq)]
pub struct DriveInfo {
    pub channel: u8,
    pub drive: u8,
    pub typ: DriveType,
    pub cylinders: u16,
    pub heads: u16,
    pub sectors_per_track: u16,
    pub signature: u16,
    pub capabilities: u16,
    pub multiword_dma: u8,
    pub ultra_dma: u8,
    pub command_sets: [u16; 6],
    pub max_sectors_lba48: u32,
    pub max_sectors_lba28: u32,
    pub model: [u8; 40],
    pub serial: [u8; 10],
    pub firmware: [u8; 4],
    pub major_version: u16,
    pub minor_version: u16,
    pub addressing: AddressType,
    pub sector_size: u16,
}

/// The addressing a drive supports: LBA48 if the command sets say so, else
/// LBA28 if the capabilities say so, else CHS.
pub open spec fn addressing_of(command_set_1: u16, capabilities: u16) -> AddressType {
    if command_set_1 & 0x400 != 0 {
        AddressType::Lba48
    } else if capabilities & 0x200 != 0 {
        AddressType::Lba28
    } else {
        AddressType::Chs
    }
}

/// The ASCII string of IDENTIFY words: each word holds two characters,
/// high byte first.
pub open spec fn byte_swapped(words: Seq<u16>, len: nat) -> Seq<u8> {
    Seq::new(len, |i: int| if i % 2 == 0 {
        ((words[i / 2] & 0xff00) >> 8u16) as u8
    } else {
        (words[i / 2] & 0xff) as u8
    })
}

/// Copies `target.len()` characters from IDENTIFY words, swapping the two
/// bytes of each word.
pub fn copy_byte_swapped_string(source: &[u16], target: &mut [u8])
    requires
        old(target).len() % 2 == 0,
        source.len() >= old(target).len() / 2,
    ensures
        final(target)@ == byte_swapped(source@, old(target).len() as nat),
{
    let n = target.len();
    let mut i: usize = 0;
    while i < n
        invariant
            n == target.len(),
            n % 2 == 0,
            i % 2 == 0,
            i <= n,
            source.len() >= n / 2,
            forall|k: int| 0 <= k < i ==> target@[k] == byte_swapped(source@, n as nat)[k],
        decreases n - i,
    {
        let bytes = source[i / 2];
        let hi: u16 = (bytes & 0xff00) >> 8;
        let lo: u16 = bytes & 0x00ff;
        assert(hi < 256 && lo < 256) by (bit_vector)
            requires
                hi == (bytes & 0xff00) >> 8,
                lo == bytes & 0x00ff,
        ;
        target[i] = hi as u8;
        target[i + 1] = lo as u8;
        i = i + 2;
    }
    assert(target@ =~= byte_swapped(source@, n as nat));
}

/// The drive information that IDENTIFY words give for drive `drive` of type
/// `typ` on channel `channel`; the sector size is determined separately and
/// is 0 here.
pub fn parse_identify(words: &[u16], channel: u8, drive: u8, typ: DriveType) -> (info: DriveInfo)
    requires
        words.len() == 256,
    ensures
        info.channel == channel,
        info.drive == drive,
        info.typ == typ,
        info.signature == words[0],
        info.cylinders == words[1],
        info.heads == words[3],
        info.sectors_per_track == words[6],
        info.capabilities == words[49],
        info.major_version == words[80],
        info.minor_version == words[81],
        info.max_sectors_lba28 == (words[60] as u32 | (words[61] as u32) << 16u32),
        info.max_sectors_lba48 == (words[60] as u32 | (words[61] as u32) << 16u32),
        info.multiword_dma == (words[63] >> 8u16) as u8,
        info.ultra_dma == (words[88] >> 8u16) as u8,
        info.command_sets@ == words@.subrange(82, 88),
        info.addressing == addressing_of(words[83], words[49]),
        info.model@ == byte_swapped(words@.subrange(27, 256), 40),
        info.serial@ == byte_swapped(words@.subrange(10, 256), 10),
        info.firmware@ == byte_swapped(words@.subrange(23, 256), 4),
        info.sector_size == 0,
{
    let max_lba: u32 = (words[60] as u32) | (words[61] as u32) << 16;
    let w63 = words[63];
    let w88 = words[88];
    assert(w63 >> 8u16 < 256 && w88 >> 8u16 < 256) by (bit_vector);
    let mut command_sets: [u16; 6] = [0; 6];
    let mut j: usize = 0;
    while j < COMMAND_SET_WORD_COUNT
        invariant
            j <= 6,
            words.len() == 256,
            forall|k: int| 0 <= k < j ==> command_sets@[k] == words@[82 + k],
        decreases 6 - j,
    {
        command_sets[j] = words[82 + j];
        j = j + 1;
    }
    assert(command_sets@ =~= words@.subrange(82, 88));
    let capabilities = words[49];
    let addressing = if command_sets[1] & 0x400 != 0 {
        AddressType::Lba48
    } else if capabilities & 0x200 != 0 {
        AddressType::Lba28
    } else {
        AddressType::Chs
    };
    let mut model: [u8; 40] = [0; 40];
    let mut serial: [u8; 10] = [0; 10];
    let mut firmware: [u8; 4] = [0; 4];
    copy_byte_swapped_string(&words[27..256], &mut model);
    copy_byte_swapped_string(&words[10..256], &mut serial);
    copy_byte_swapped_string(&words[23..256], &mut firmware);
    DriveInfo {
        channel,
        drive,
        typ,
        cylinders: words[1],
        heads: words[3],
        sectors_per_track: words[6],
        signature: words[0],
        capabilities,
        multiword_dma: (w63 >> 8) as u8,
        ultra_dma: (w88 >> 8) as u8,
        command_sets,
        max_sectors_lba48: max_lba,
        max_sectors_lba28: max_lba,
        model,
        serial,
        firmware,
        major_version: words[80],
        minor_version: words[81],
        addressing,
        sector_size: 0,
    }
}

/// Whether a Unicode scalar value has the White_Space property, the set that
/// `char::is_whitespace` tests.
pub open spec fn is_whitespace_scalar(v: u32) -> bool {
    ||| 0x09 <= v <= 0x0d
    ||| v == 0x20
    ||| v == 0x85
    ||| v == 0xa0
    ||| v == 0x1680
    ||| 0x2000 <= v <= 0x200a
    ||| v == 0x2028
    ||| v == 0x2029
    ||| v == 0x202f
    ||| v == 0x205f
    ||| v == 0x3000
}

pub open spec fn is_whitespace_char(c: char) -> bool {
    is_whitespace_scalar(c as u32)
}

/// `s` without its leading white space.
pub open spec fn trim_start_chars(s: Seq<char>) -> Seq<char>
    decreases s.len(),
{
    if s.len() > 0 && is_whitespace_char(s[0]) {
        trim_start_chars(s.drop_first())
    } else {
        s
    }
}

/// `s` without its trailing white space.
pub open spec fn trim_end_chars(s: Seq<char>) -> Seq<char>
    decreases s.len(),
{
    if s.len() > 0 && is_whitespace_char(s.last()) {
        trim_end_chars(s.drop_last())
    } else {
        s
    }
}

/// `s` without its leading and trailing white space.
pub open spec fn trim_chars(s: Seq<char>) -> Seq<char> {
    trim_end_chars(trim_start_chars(s))
}

proof fn lemma_trim_start_at(s: Seq<char>, k: int)
    requires
        0 <= k <= s.len(),
        forall|i: int| 0 <= i < k ==> is_whitespace_char(#[trigger] s[i]),
        k == s.len() || !is_whitespace_char(s[k]),
    ensures
        trim_start_chars(s) == s.skip(k),
    decreases k,
{
    if k > 0 {
        assert forall|i: int| 0 <= i < k - 1 implies is_whitespace_char(#[trigger] s.drop_first()[i]) by {
            assert(s.drop_first()[i] == s[i + 1]);
        }
        lemma_trim_start_at(s.drop_first(), k - 1);
        assert(s.drop_first().skip(k - 1) =~= s.skip(k));
    } else {
        assert(s.skip(0) =~= s);
    }
}

proof fn lemma_trim_end_at(s: Seq<char>, e: int)
    requires
        0 <= e <= s.len(),
        forall|i: int| e <= i < s.len() ==> is_whitespace_char(#[trigger] s[i]),
        e == 0 || !is_whitespace_char(s[e - 1]),
    ensures
        trim_end_chars(s) == s.take(e),
    decreases s.len() - e,
{
    if e < s.len() {
        assert(is_whitespace_char(s[s.len() - 1]));
        lemma_trim_end_at(s.drop_last(), e);
        assert(s.drop_last().take(e) =~= s.take(e));
    } else {
        assert(s.take(e) =~= s);
    }
}

proof fn lemma_codepoint_bounds(b0: u8, b1: u8, b2: u8)
    by (bit_vector)
    ensures
        ((b0 & 0x7f) as u32) <= 0x7f,
        ((((b0 & 0x1f) as u32) << 6) | ((b1 & 0x3f) as u32)) <= 0x7ff,
        ((((b0 & 0x0f) as u32) << 12) | (((b1 & 0x3f) as u32) << 6) | ((b2 & 0x3f) as u32))
            <= 0xffff,
{
}

/// One step of decoding: the scalar at `pos` is the `k`-th character, and
/// what follows it decodes to the characters after it.
proof fn lemma_decode_step(b: Seq<u8>, pos: int, k: int, chars: Seq<char>)
    requires
        0 <= pos < b.len(),
        0 <= k <= chars.len(),
        valid_utf8(b.subrange(pos, b.len() as int)),
        decode_utf8(b.subrange(pos, b.len() as int)) == chars.skip(k),
    ensures
        ({
            let t = b.subrange(pos, b.len() as int);
            let len = length_of_first_scalar(t);
            &&& k < chars.len()
            &&& chars[k] == decode_first_scalar(t) as char
            &&& 1 <= len
            &&& pos + len <= b.len()
            &&& valid_utf8(b.subrange(pos + len, b.len() as int))
            &&& decode_utf8(b.subrange(pos + len, b.len() as int)) == chars.skip(k + 1)
        }),
{
    let t = b.subrange(pos, b.len() as int);
    let len = length_of_first_scalar(t);
    assert(valid_first_scalar(t));
    assert(pop_first_scalar(t) =~= b.subrange(pos + len, b.len() as int));
    assert(decode_utf8(t) == seq![decode_first_scalar(t) as char] + decode_utf8(pop_first_scalar(t)));
    assert(chars.skip(k).len() >= 1);
    assert(chars[k] == chars.skip(k)[0]);
    assert(chars.skip(k + 1) =~= chars.skip(k).drop_first());
    assert(chars.skip(k).drop_first() =~= decode_utf8(pop_first_scalar(t)));
}

/// Whether `v` has the White_Space property.
fn is_whitespace(v: u32) -> (r: bool)
    ensures
        r == is_whitespace_scalar(v),
{
    (0x09 <= v && v <= 0x0d) || v == 0x20 || v == 0x85 || v == 0xa0 || v == 0x1680 || (0x2000 <= v
        && v <= 0x200a) || v == 0x2028 || v == 0x2029 || v == 0x202f || v == 0x205f || v == 0x3000
}

/// The scalar whose encoding starts at `pos`, and the length of that
/// encoding.
fn scalar_at(s: &[u8], pos: usize) -> (r: (u32, usize))
    requires
        pos < s.len(),
        valid_utf8(s@.subrange(pos as int, s.len() as int)),
    ensures
        r.0 == decode_first_scalar(s@.subrange(pos as int, s.len() as int)),
        r.1 == length_of_first_scalar(s@.subrange(pos as int, s.len() as int)),
        ((r.0 as char) as u32) == r.0,
{
    let ghost t = s@.subrange(pos as int, s.len() as int);
    assert(valid_first_scalar(t));
    let b0 = s[pos];
    assert(t[0] == b0);
    if b0 <= 0x7f {
        proof {
            lemma_codepoint_bounds(b0, 0, 0);
        }
        ((b0 & 0x7f) as u32, 1)
    } else if b0 <= 0xdf {
        let b1 = s[pos + 1];
        assert(t[1] == b1);
        proof {
            lemma_codepoint_bounds(b0, b1, 0);
        }
        ((((b0 & 0x1f) as u32) << 6) | ((b1 & 0x3f) as u32), 2)
    } else if b0 <= 0xef {
        let b1 = s[pos + 1];
        let b2 = s[pos + 2];
        assert(t[1] == b1);
        assert(t[2] == b2);
        proof {
            lemma_codepoint_bounds(b0, b1, b2);
        }
        (
            (((b0 & 0x0f) as u32) << 12) | (((b1 & 0x3f) as u32) << 6) | ((b2 & 0x3f) as u32),
            3,
        )
    } else {
        let b1 = s[pos + 1];
        let b2 = s[pos + 2];
        let b3 = s[pos + 3];
        assert(t[1] == b1);
        assert(t[2] == b2);
        assert(t[3] == b3);
        (
            (((b0 & 0x07) as u32) << 18) | (((b1 & 0x3f) as u32) << 12) | (((b2 & 0x3f) as u32)
                << 6) | ((b3 & 0x3f) as u32),
            4,
        )
    }
}

/// A UTF-8 string without its leading and trailing white space, as
/// `str::trim` takes it off.
pub fn trim_utf8(s: &[u8]) -> (r: &[u8])
    requires
        valid_utf8(s@),
    ensures
        valid_utf8(r@),
        decode_utf8(r@) == trim_chars(decode_utf8(s@)),
{
    let ghost chars = decode_utf8(s@);
    assert(s@.subrange(0, s@.len() as int) =~= s@);
    let mut start: usize = 0;
    let ghost mut k: int = 0;
    let mut done = false;
    while !done && start < s.len()
        invariant
            start <= s.len(),
            0 <= k <= chars.len(),
            chars == decode_utf8(s@),
            valid_utf8(s@),
            valid_utf8(s@.subrange(start as int, s.len() as int)),
            decode_utf8(s@.subrange(start as int, s.len() as int)) == chars.skip(k),
            forall|i: int| 0 <= i < k ==> is_whitespace_char(#[trigger] chars[i]),
            done ==> k < chars.len() && !is_whitespace_char(chars[k]),
        decreases s.len() - start + (if done { 0int } else { 1int }),
    {
        let (cp, len) = scalar_at(s, start);
        proof {
            lemma_decode_step(s@, start as int, k, chars);
        }
        if is_whitespace(cp) {
            start = start + len;
            proof {
                k = k + 1;
            }
        } else {
            done = true;
        }
    }
    proof {
        if !done {
            assert(s@.subrange(start as int, s.len() as int).len() == 0);
            assert(chars.skip(k).len() == 0);
        }
        lemma_trim_start_at(chars, k);
    }
    // What follows `start`, without its trailing white space.
    let ghost rest = chars.skip(k);
    let mut pos: usize = start;
    let mut end: usize = start;
    let ghost mut q: int = k;
    let ghost mut e: int = k;
    while pos < s.len()
        invariant
            start <= end <= pos <= s.len(),
            0 <= k <= e <= q <= chars.len(),
            chars == decode_utf8(s@),
            rest == chars.skip(k),
            valid_utf8(s@),
            valid_utf8(s@.subrange(pos as int, s.len() as int)),
            decode_utf8(s@.subrange(pos as int, s.len() as int)) == chars.skip(q),
            valid_utf8(s@.subrange(end as int, s.len() as int)),
            decode_utf8(s@.subrange(end as int, s.len() as int)) == chars.skip(e),
            forall|i: int| e <= i < q ==> is_whitespace_char(#[trigger] chars[i]),
            e == k || !is_whitespace_char(chars[e - 1]),
        decreases s.len() - pos,
    {
        let (cp, len) = scalar_at(s, pos);
        proof {
            lemma_decode_step(s@, pos as int, q, chars);
        }
        pos = pos + len;
        proof {
            q = q + 1;
        }
        if !is_whitespace(cp) {
            end = pos;
            proof {
                e = q;
            }
        }
    }
    proof {
        assert(s@.subrange(pos as int, s.len() as int).len() == 0);
        assert(chars.skip(q).len() == 0);
        assert forall|i: int| e - k <= i < rest.len() implies is_whitespace_char(#[trigger] rest[i]) by {
            assert(rest[i] == chars[i + k]);
        }
        if e > k {
            assert(rest[e - k - 1] == chars[e - 1]);
        }
        lemma_trim_end_at(rest, e - k);
        // Split the string at `start` and at `end`.
        let n = s@.len() as int;
        is_char_boundary_start_end_of_seq(s@);
        if start < end {
            assert(valid_first_scalar(s@.subrange(start as int, n)));
            assert(s@.subrange(start as int, n)[0] == s@[start as int]);
            is_char_boundary_iff_not_is_continuation_byte(s@, start as int);
        }
        if end < n {
            assert(valid_first_scalar(s@.subrange(end as int, n)));
            assert(s@.subrange(end as int, n)[0] == s@[end as int]);
            is_char_boundary_iff_not_is_continuation_byte(s@, end as int);
        }
        assert(is_char_boundary(s@, start as int));
        assert(is_char_boundary(s@, end as int));
        decode_utf8_split(s@, start as int);
        valid_utf8_split(s@, start as int);
        let pre = s@.subrange(0, start as int);
        assert(decode_utf8(pre).len() == k);
        valid_utf8_split(s@, end as int);
        decode_utf8_split(s@, end as int);
        let head = s@.subrange(0, end as int);
        is_char_boundary_start_end_of_seq(head);
        if start < end {
            assert(head[start as int] == s@[start as int]);
            is_char_boundary_iff_not_is_continuation_byte(head, start as int);
        }
        assert(is_char_boundary(head, start as int));
        valid_utf8_split(head, start as int);
        decode_utf8_split(head, start as int);
        assert(head.subrange(0, start as int) =~= pre);
        assert(head.subrange(start as int, end as int) =~= s@.subrange(start as int, end as int));
        let mid = decode_utf8(s@.subrange(start as int, end as int));
        assert(chars =~= decode_utf8(pre) + mid + chars.skip(e));
        assert(mid =~= rest.take(e - k));
    }
    &s[start..end]
}

impl DriveInfo {
    /// The model name, a UTF-8 string, without leading and trailing white
    /// space.
    pub fn model(&self) -> (r: &[u8])
        requires
            valid_utf8(self.model@),
        ensures
            valid_utf8(r@),
            decode_utf8(r@) == trim_chars(decode_utf8(self.model@)),
    {
        trim_utf8(&self.model)
    }

    /// The serial number, a UTF-8 string, without leading and trailing white
    /// space.
    pub fn serial(&self) -> (r: &[u8])
        requires
            valid_utf8(self.serial@),
        ensures
            valid_utf8(r@),
            decode_utf8(r@) == trim_chars(decode_utf8(self.serial@)),
    {
        trim_utf8(&self.serial)
    }

    /// The firmware revision, a UTF-8 string, without leading and trailing
    /// white space.
    pub fn firmware(&self) -> (r: &[u8])
        requires
            valid_utf8(self.firmware@),
        ensures
            valid_utf8(r@),
            decode_utf8(r@) == trim_chars(decode_utf8(self.firmware@)),
    {
        trim_utf8(&self.firmware)
    }

    /// Whether the drive supports multiword or ultra DMA.
    pub fn supports_dma(&self) -> (r: bool)
        ensures
            r == (self.ultra_dma != 0 || self.multiword_dma != 0),
    {
        self.ultra_dma != 0 || self.multiword_dma != 0
    }

    /// The number of sectors that the drive's addressing reaches.
    pub fn sector_count(&self) -> (r: u64)
        ensures
            r == (match self.addressing {
                AddressType::Chs => self.cylinders * self.heads * self.sectors_per_track,
                AddressType::Lba28 => self.max_sectors_lba28 as int,
                AddressType::Lba48 => self.max_sectors_lba48 as int,
            }),
    {
        match self.addressing {
            AddressType::Chs => {
                assert(self.cylinders * self.heads <= 0xffff * 0xffff) by (nonlinear_arith)
                    requires
                        self.cylinders <= 0xffff,
                        self.heads <= 0xffff,
                ;
                assert(self.cylinders * self.heads * self.sectors_per_track <= 0xffff * 0xffff * 0xffff) by (nonlinear_arith)
                    requires
                        self.cylinders <= 0xffff,
                        self.heads <= 0xffff,
                        self.sectors_per_track <= 0xffff,
                ;
                self.cylinders as u64 * self.heads as u64 * self.sectors_per_track as u64
            },
            AddressType::Lba28 => self.max_sectors_lba28 as u64,
            AddressType::Lba48 => self.max_sectors_lba48 as u64,
        }
    }
}

/// The drive/head selector byte: bit 6 for LBA, bit 4 for the drive, the
/// head (or the LBA bits 24-27) below.
pub fn drive_selector(prepare_lba: bool, drive: u8, lba_head: u8) -> (r: u8)
    requires
        drive <= 1,
    ensures
        r == (0xa0u8 | ((if prepare_lba { 1u8 } else { 0u8 }) << 6u8) | (drive << 4u8) | lba_head),
{
    let lba: u8 = if prepare_lba { 1 } else { 0 };
    0xa0 | lba << 6 | drive << 4 | lba_head
}

/// Whether a drive must be selected again: not when it is selected already
/// and no LBA access is prepared, nor when the selector byte is unchanged.
pub fn needs_selection(last_device_control: u8, drive: u8, prepare_lba: bool, selector: u8) -> (r: bool)
    ensures
        r == !((!prepare_lba && last_device_control != 0xff && ((last_device_control >> 4u8) & 1u8) == drive)
            || selector == last_device_control),
{
    if !prepare_lba && last_device_control != u8::MAX && (last_device_control >> 4 & 0x01) == drive {
        return false;
    }
    selector != last_device_control
}

/// The register values of an LBA28 access: drive head bits, sector count,
/// and the three LBA bytes.
pub fn lba28_registers(sector: u64, count: u16) -> (r: (u8, u8, u8, u8, u8))
    ensures
        r == ((sector >> 24u64) as u8, count as u8, sector as u8, (sector >> 8u64) as u8, (sector >> 16u64) as u8),
{
    ((sector >> 24) as u8, count as u8, sector as u8, (sector >> 8) as u8, (sector >> 16) as u8)
}

/// The register values of an LBA48 access, in the order they are written:
/// high count, LBA bytes 3-5, low count, LBA bytes 0-2.
pub fn lba48_registers(sector: u64, count: u16) -> (r: [u8; 8])
    ensures
        r@ == seq![(count >> 8u16) as u8, (sector >> 24u64) as u8, (sector >> 32u64) as u8, (sector >> 40u64) as u8,
            count as u8, sector as u8, (sector >> 8u64) as u8, (sector >> 16u64) as u8],
{
    let r = [(count >> 8) as u8, (sector >> 24) as u8, (sector >> 32) as u8, (sector >> 40) as u8,
        count as u8, sector as u8, (sector >> 8) as u8, (sector >> 16) as u8];
    assert(r@ =~= seq![(count >> 8u16) as u8, (sector >> 24u64) as u8, (sector >> 32u64) as u8, (sector >> 40u64) as u8,
            count as u8, sector as u8, (sector >> 8u64) as u8, (sector >> 16u64) as u8]);
    r
}

/// The largest number of sectors of one command.
pub fn max_sectors_per_command(addressing: AddressType) -> (r: u16)
    ensures
        r == (if addressing == AddressType::Lba48 { 65535u16 } else { 255u16 }),
{
    match addressing {
        AddressType::Lba48 => u16::MAX,
        _ => 255,
    }
}

/// One command of a transfer: its first sector, its sector count and the
/// part of the buffer it uses.
#[derive(Copy, Clone, Debug, PartialEq, Eq)]
pub struct TransferChunk {
    pub start: u64,
    pub count: u16,
    pub buffer_start: usize,
    pub buffer_end: usize,
}

/// The command that follows when `processed` of `count` sectors from
/// `sector` are done: at most `max_sectors` sectors, and the part of the
/// buffer they fill.
pub open spec fn chunk_of(sector: u64, count: usize, processed: usize, max_sectors: u16, sector_size: u16) -> TransferChunk {
    let n = if count - processed > max_sectors { max_sectors as int } else { count - processed };
    TransferChunk {
        start: (sector + processed) as u64,
        count: n as u16,
        buffer_start: (processed * sector_size) as usize,
        buffer_end: (processed * sector_size + n * sector_size) as usize,
    }
}

/// The next command of a transfer of `count` sectors from `sector` of which
/// `processed` are done.
pub fn next_chunk(sector: u64, count: usize, processed: usize, max_sectors: u16, sector_size: u16) -> (r: TransferChunk)
    requires
        processed < count,
        sector + count <= u64::MAX,
        count * sector_size <= usize::MAX,
    ensures
        r == chunk_of(sector, count, processed, max_sectors, sector_size),
        r.start == sector + processed,
        r.count == (if count - processed > max_sectors { max_sectors as int } else { count - processed }),
        r.buffer_start == processed * sector_size,
        r.buffer_end == r.buffer_start + r.count * sector_size,
        r.buffer_end <= count * sector_size,
{
    let remaining = count - processed;
    let start = sector + processed as u64;
    let n: u16 = if remaining > max_sectors as usize { max_sectors } else { remaining as u16 };
    assert(processed * sector_size + n * sector_size <= count * sector_size) by (nonlinear_arith)
        requires
            processed + n <= count,
    ;
    let buffer_index = processed * sector_size as usize;
    let buffer_end = buffer_index + n as usize * sector_size as usize;
    TransferChunk { start, count: n, buffer_start: buffer_index, buffer_end }
}

/// The progress of a transfer of `count` sectors from `sector`, split into
/// commands of at most `max_sectors` sectors. It ends when every sector is
/// done or when a command transferred nothing.
#[derive(Copy, Clone, Debug, PartialEq, Eq)]
pub struct AtaTransfer {
    pub sector: u64,
    pub count: usize,
    pub processed: usize,
    pub max_sectors: u16,
    pub sector_size: u16,
    pub stopped: bool,
}

impl AtaTransfer {
    pub open spec fn wf(&self) -> bool {
        &&& self.processed <= self.count
        &&& self.sector + self.count <= u64::MAX
        &&& self.count * self.sector_size <= usize::MAX
    }

    /// A transfer that has not started; commands hold at most as many
    /// sectors as the drive's addressing allows.
    pub fn new(sector: u64, count: usize, addressing: AddressType, sector_size: u16) -> (r: Self)
        requires
            sector + count <= u64::MAX,
            count * sector_size <= usize::MAX,
        ensures
            r.wf(),
            r == (AtaTransfer {
                sector,
                count,
                processed: 0,
                max_sectors: if addressing == AddressType::Lba48 { 65535u16 } else { 255u16 },
                sector_size,
                stopped: false,
            }),
    {
        AtaTransfer { sector, count, processed: 0, max_sectors: max_sectors_per_command(addressing), sector_size, stopped: false }
    }

    /// The next command, or `None` when the transfer has ended.
    pub fn next_command(&self) -> (r: Option<TransferChunk>)
        requires
            self.wf(),
        ensures
            r == (if self.stopped || self.processed >= self.count {
                None
            } else {
                Some(chunk_of(self.sector, self.count, self.processed, self.max_sectors, self.sector_size))
            }),
    {
        if self.stopped || self.processed >= self.count {
            None
        } else {
            Some(next_chunk(self.sector, self.count, self.processed, self.max_sectors, self.sector_size))
        }
    }

    /// Records that the last command transferred `sectors` sectors; a
    /// command that transferred none ends the transfer.
    pub fn finish_command(&mut self, sectors: u16)
        requires
            old(self).wf(),
            !old(self).stopped,
            old(self).processed < old(self).count,
            sectors <= chunk_of(old(self).sector, old(self).count, old(self).processed, old(self).max_sectors, old(self).sector_size).count,
        ensures
            final(self).wf(),
            *final(self) == (if sectors == 0 {
                AtaTransfer { stopped: true, ..*old(self) }
            } else {
                AtaTransfer { processed: (old(self).processed + sectors) as usize, ..*old(self) }
            }),
    {
        if sectors == 0 {
            self.stopped = true;
        } else {
            self.processed = self.processed + sectors as usize;
        }
    }
}

/// The pages of a DMA transfer of `count` sectors and the pages of its
/// physical region descriptor table (8 bytes per page).
pub fn dma_pages(count: u16, sector_size: u16) -> (r: (usize, usize))
    ensures
        r.0 == (count * sector_size + 4095) / 4096,
        r.1 == (r.0 * 8 + 4095) / 4096,
{
    assert(count * sector_size <= 0xffff * 0xffff) by (nonlinear_arith)
        requires
            count <= 0xffff,
            sector_size <= 0xffff,
    ;
    let size = count as usize * sector_size as usize;
    let pages = size / 4096 + if size % 4096 == 0 { 0 } else { 1 };
    let prd_size = pages * 8;
    let prd_pages = prd_size / 4096 + if prd_size % 4096 == 0 { 0 } else { 1 };
    (pages, prd_pages)
}

/// A physical region descriptor: one page of a DMA buffer.
#[derive(Copy, Clone, Debug, PartialEq, Eq)]
pub struct PrdEntry {
    pub base_address: u32,
    pub byte_count: u16,
    pub flags: u16,
}

/// The end-of-transmission flag of the last descriptor.
pub const PRD_END_OF_TRANSMISSION: u16 = 0x8000;

/// The descriptors of a DMA buffer of `pages` pages at `base`: one per page,
/// the last one marked end of transmission.
pub fn prd_entries(base: u32, pages: usize) -> (r: Vec<PrdEntry>)
    requires
        pages >= 1,
        base + pages * 4096 <= u32::MAX,
    ensures
        r.len() == pages,
        forall|i: int| 0 <= i < pages ==> #[trigger] r[i] == (PrdEntry {
            base_address: (base + i * 4096) as u32,
            byte_count: 4096,
            flags: if i == pages - 1 { PRD_END_OF_TRANSMISSION } else { 0 },
        }),
{
    let mut entries: Vec<PrdEntry> = Vec::new();
    let mut i: usize = 0;
    while i < pages
        invariant
            i <= pages,
            base + pages * 4096 <= u32::MAX,
            entries.len() == i,
            forall|k: int| 0 <= k < i ==> #[trigger] entries[k] == (PrdEntry {
                base_address: (base + k * 4096) as u32,
                byte_count: 4096,
                flags: if k == pages - 1 { PRD_END_OF_TRANSMISSION } else { 0 },
            }),
        decreases pages - i,
    {
        let flags: u16 = if i == pages - 1 { PRD_END_OF_TRANSMISSION } else { 0 };
        entries.push(PrdEntry { base_address: base + (i * 4096) as u32, byte_count: 4096, flags });
        i = i + 1;
    }
    entries
}

/// The interrupt handler of a channel: it records that an interrupt came.
#[derive(Copy, Clone, Debug, PartialEq, Eq)]
pub struct IdeInterruptHandler {
    pub received_interrupt: bool,
}

impl IdeInterruptHandler {
    pub fn new(received_interrupt: bool) -> (r: Self)
        ensures
            r.received_interrupt == received_interrupt,
    {
        Self { received_interrupt }
    }

    /// An interrupt arrived.
    pub fn trigger(&mut self)
        ensures
            final(self).received_interrupt,
    {
        self.received_interrupt = true;
    }
}

/// Command block base addresses of channels in compatibility mode.
pub const DEFAULT_BASE_ADDRESSES: [u16; 2] = [0x01f0, 0x0170];
/// Control block base addresses of channels in compatibility mode.
pub const DEFAULT_CONTROL_BASE_ADDRESSES: [u16; 2] = [0x03f4, 0x0374];

/// Cylinder register signatures of ATAPI devices after a reset.
pub const ATAPI_CYLINDER_LOW_V1: u8 = 0x14;
pub const ATAPI_CYLINDER_HIGH_V1: u8 = 0xeb;
pub const ATAPI_CYLINDER_LOW_V2: u8 = 0x69;
pub const ATAPI_CYLINDER_HIGH_V2: u8 = 0x96;

/// Whether the controller's programming interface announces DMA (bit 7).
pub fn controller_supports_dma(prog_if: u8) -> (r: bool)
    ensures
        r == (prog_if >= 0x80),
{
    let r = prog_if & 0x80 == 0x80;
    assert((prog_if & 0x80 == 0x80) == (prog_if >= 0x80)) by (bit_vector);
    r
}

/// The two programming interface bits of `channel`: bit 0 is native mode,
/// bit 1 says that the mode can be changed.
pub fn channel_interface(prog_if: u8, channel: u8) -> (r: u8)
    requires
        channel < 2,
    ensures
        r == prog_if / (if channel == 0 { 1u8 } else { 4u8 }),
{
    let r = prog_if >> (channel * 2);
    assert(prog_if >> 0u8 == prog_if / 1 && prog_if >> 2u8 == prog_if / 4) by (bit_vector);
    r
}

/// A channel in compatibility mode whose mode can be changed is switched to
/// native mode.
pub fn needs_native_switch(interface: u8) -> (r: bool)
    ensures
        r == (interface % 2 == 0 && (interface / 2) % 2 == 1),
{
    let r = interface & 0x01 == 0x00 && interface & 0x02 == 0x02;
    assert((interface & 0x01 == 0x00) == (interface % 2 == 0)) by (bit_vector);
    assert((interface & 0x02 == 0x02) == ((interface / 2) % 2 == 1)) by (bit_vector);
    r
}

/// The configuration dword at offset 8 that switches `channel` to native
/// mode: its programming interface bit is set.
pub fn native_switch_config(value: u32, channel: u8) -> (r: u32)
    requires
        channel < 2,
    ensures
        r == value | (if channel == 0 { 0x100u32 } else { 0x400u32 }),
{
    let r = value | ((0x01u32 << (channel as u32 * 2)) << 8u32);
    assert((0x01u32 << 0u32) << 8u32 == 0x100u32 && (0x01u32 << 2u32) << 8u32 == 0x400u32) by (bit_vector);
    r
}

/// The command and control base addresses of `channel`: the defaults in
/// compatibility mode, the BARs in native mode.
pub fn channel_base_addresses(interface: u8, channel: u8, bar0: u16, bar1: u16) -> (r: (u16, u16))
    requires
        channel < 2,
    ensures
        interface % 2 == 0 ==> r == (DEFAULT_BASE_ADDRESSES[channel as int], DEFAULT_CONTROL_BASE_ADDRESSES[channel as int]),
        interface % 2 == 1 ==> r == (bar0, bar1),
{
    if interface & 0x01 == 0x00 {
        assert((interface & 0x01 == 0x00) == (interface % 2 == 0)) by (bit_vector);
        (DEFAULT_BASE_ADDRESSES[channel as usize], DEFAULT_CONTROL_BASE_ADDRESSES[channel as usize])
    } else {
        assert((interface & 0x01 == 0x00) == (interface % 2 == 0)) by (bit_vector);
        (bar0, bar1)
    }
}

/// What the registers read after a software reset say of the drive: the
/// drive type to record (`None`: keep the recorded one), and whether a
/// drive is there.
pub open spec fn reset_outcome(error: u8, sector_count: u8, sector_number: u8, cylinder_low: u8, cylinder_high: u8) -> (bool, Option<DriveType>) {
    if error != 0x00 && error != 0x01 {
        (false, Some(DriveType::Other))
    } else if sector_count != 0x01 || sector_number != 0x01 {
        (false, Some(DriveType::Other))
    } else if (cylinder_low == ATAPI_CYLINDER_LOW_V1 && cylinder_high == ATAPI_CYLINDER_HIGH_V1)
        || (cylinder_low == ATAPI_CYLINDER_LOW_V2 && cylinder_high == ATAPI_CYLINDER_HIGH_V2) {
        (true, Some(DriveType::Atapi))
    } else if cylinder_low == 0x00 && cylinder_high == 0x00 {
        (true, Some(DriveType::Ata))
    } else {
        (false, None)
    }
}

pub fn classify_reset(error: u8, sector_count: u8, sector_number: u8, cylinder_low: u8, cylinder_high: u8) -> (r: (bool, Option<DriveType>))
    ensures
        r == reset_outcome(error, sector_count, sector_number, cylinder_low, cylinder_high),
{
    if error != 0x00 && error != 0x01 {
        return (false, Some(DriveType::Other));
    }
    if sector_count != 0x01 || sector_number != 0x01 {
        return (false, Some(DriveType::Other));
    }
    if (cylinder_low == ATAPI_CYLINDER_LOW_V1 && cylinder_high == ATAPI_CYLINDER_HIGH_V1)
        || (cylinder_low == ATAPI_CYLINDER_LOW_V2 && cylinder_high == ATAPI_CYLINDER_HIGH_V2) {
        return (true, Some(DriveType::Atapi));
    }
    if cylinder_low == 0x00 && cylinder_high == 0x00 {
        return (true, Some(DriveType::Ata));
    }
    (false, None)
}


/// The word that PIO sends for bytes `low` and `high` of a buffer.
pub open spec fn word_of(low: u8, high: u8) -> u16 {
    (low + high * 256) as u16
}

/// The words of sector `sector` of `buffer`, a sector being `sector_size`
/// bytes: each word holds two bytes, the first one low.
pub open spec fn sector_words_of(buffer: Seq<u8>, sector: int, sector_size: int) -> Seq<u16> {
    Seq::new(
        (sector_size / 2) as nat,
        |j: int| word_of(buffer[sector * sector_size + 2 * j], buffer[sector * sector_size + 2 * j + 1]),
    )
}

/// The words that a PIO write sends for sector `sector` of `buffer` (see
/// [`sector_words_of`]). The byte positions are counted in 16 bits.
pub fn sector_words(buffer: &[u8], sector: u16, sector_size: u16) -> (r: Vec<u16>)
    requires
        (sector + 1) * sector_size <= buffer.len(),
        (sector + 1) * sector_size <= 0x1_0000,
    ensures
        r@ == sector_words_of(buffer@, sector as int, sector_size as int),
{
    assert(sector * sector_size + sector_size <= 0x1_0000) by (nonlinear_arith)
        requires
            (sector + 1) * sector_size <= 0x1_0000;
    let base: usize = sector as usize * sector_size as usize;
    assert(base + sector_size <= buffer.len()) by (nonlinear_arith)
        requires
            base == sector * sector_size,
            (sector + 1) * sector_size <= buffer.len();
    let n: u16 = sector_size / 2;
    let mut r: Vec<u16> = Vec::new();
    let mut j: u16 = 0;
    while j < n
        invariant
            j <= n,
            n == sector_size / 2,
            base == sector * sector_size,
            base + sector_size <= buffer.len(),
            r@.len() == j,
            forall|k: int|
                0 <= k < j ==> #[trigger] r@[k] == word_of(
                    buffer@[sector * sector_size + 2 * k],
                    buffer@[sector * sector_size + 2 * k + 1],
                ),
        decreases n - j,
    {
        let low = buffer[base + 2 * j as usize];
        let high = buffer[base + 2 * j as usize + 1];
        r.push(low as u16 | (high as u16) << 8u16);
        assert(low as u16 | (high as u16) << 8u16 == (low + high * 256) as u16) by (bit_vector);
        j = j + 1;
    }
    assert(r@ =~= sector_words_of(buffer@, sector as int, sector_size as int));
    r
}

/// `buffer` after a PIO read stored `words` as sector `sector`: each word
/// gives its low byte, then its high byte.
pub open spec fn stored_sector(buffer: Seq<u8>, sector: int, sector_size: int, words: Seq<u16>) -> Seq<u8> {
    Seq::new(
        buffer.len(),
        |i: int|
            if sector * sector_size <= i < sector * sector_size + 2 * words.len() {
                let w = words[(i - sector * sector_size) / 2];
                if (i - sector * sector_size) % 2 == 0 {
                    (w % 256) as u8
                } else {
                    (w / 256) as u8
                }
            } else {
                buffer[i]
            },
    )
}

/// Stores the words that a PIO read takes from the drive as sector
/// `sector` of `buffer`. The byte positions are counted in 16 bits.
pub fn store_sector_words(buffer: &mut Vec<u8>, sector: u16, sector_size: u16, words: &[u16])
    requires
        words.len() == sector_size / 2,
        (sector + 1) * sector_size <= old(buffer).len(),
        (sector + 1) * sector_size <= 0x1_0000,
    ensures
        final(buffer)@ == stored_sector(old(buffer)@, sector as int, sector_size as int, words@),
{
    let ghost o = buffer@;
    assert(sector * sector_size + sector_size <= 0x1_0000) by (nonlinear_arith)
        requires
            (sector + 1) * sector_size <= 0x1_0000;
    let base: usize = sector as usize * sector_size as usize;
    assert(base + sector_size <= buffer.len()) by (nonlinear_arith)
        requires
            base == sector * sector_size,
            (sector + 1) * sector_size <= buffer.len();
    let n: u16 = sector_size / 2;
    let mut j: u16 = 0;
    while j < n
        invariant
            j <= n,
            n == sector_size / 2,
            n == words.len(),
            base == sector * sector_size,
            base + sector_size <= o.len(),
            base + sector_size <= 0x1_0000,
            buffer@.len() == o.len(),
            forall|i: int|
                0 <= i < o.len() ==> #[trigger] buffer@[i] == (if base <= i < base + 2 * j {
                    stored_sector(o, sector as int, sector_size as int, words@)[i]
                } else {
                    o[i]
                }),
        decreases n - j,
    {
        let word = words[j as usize];
        let low = (word & 0xff) as u8;
        let high = ((word >> 8u16) & 0xff) as u8;
        assert((word & 0xff) as u8 == (word % 256) as u8 && ((word >> 8u16) & 0xff) as u8 == (word / 256) as u8)
            by (bit_vector);
        let at: usize = base + 2 * j as usize;
        buffer.set(at, low);
        buffer.set(at + 1, high);
        proof {
            assert forall|i: int| 0 <= i < o.len() implies #[trigger] buffer@[i] == (if base <= i < base + 2 * (j + 1) {
                stored_sector(o, sector as int, sector_size as int, words@)[i]
            } else {
                o[i]
            }) by {
                if i == at {
                    assert((i - base) / 2 == j && (i - base) % 2 == 0);
                } else if i == at + 1 {
                    assert((i - base) / 2 == j && (i - base) % 2 == 1);
                }
            }
        }
        j = j + 1;
    }
    assert(buffer@ =~= stored_sector(o, sector as int, sector_size as int, words@));
}

/// Reading back a sector that a PIO read stored gives the words it stored.
pub proof fn lemma_stored_sector_words(buffer: Seq<u8>, sector: int, sector_size: int, words: Seq<u16>)
    requires
        0 <= sector,
        0 <= sector_size,
        words.len() == sector_size / 2,
        (sector + 1) * sector_size <= buffer.len(),
    ensures
        sector_words_of(stored_sector(buffer, sector, sector_size, words), sector, sector_size) == words,
{
    let stored = stored_sector(buffer, sector, sector_size, words);
    let base = sector * sector_size;
    assert(base + sector_size <= buffer.len()) by (nonlinear_arith)
        requires
            base == sector * sector_size,
            (sector + 1) * sector_size <= buffer.len();
    assert forall|j: int| 0 <= j < words.len() implies #[trigger] sector_words_of(stored, sector, sector_size)[j] == words[j] by {
        assert((base + 2 * j - base) / 2 == j && (base + 2 * j - base) % 2 == 0);
        assert((base + 2 * j + 1 - base) / 2 == j && (base + 2 * j + 1 - base) % 2 == 1);
        let w = words[j];
        assert(word_of((w % 256) as u8, (w / 256) as u8) == w);
    }
    assert(sector_words_of(stored, sector, sector_size) =~= words);
}

/// The command byte of each transfer command is its ATA opcode: READ
/// SECTORS 0x20, READ SECTORS EXT 0x24, READ DMA 0xc8, READ DMA EXT 0x25,
/// WRITE SECTORS 0x30, WRITE SECTORS EXT 0x34, WRITE DMA 0xca, WRITE DMA
/// EXT 0x35; different commands have different bytes, and the command of a
/// write transfer always carries a write opcode.
pub proof fn lemma_ata_command_codes(a: Command, b: Command, mode: TransferMode, addressing: AddressType, dma: bool)
    ensures
        command_code(Command::ReadPioLba28) == 0x20,
        command_code(Command::ReadPioLba48) == 0x24,
        command_code(Command::ReadDmaLba28) == 0xc8,
        command_code(Command::ReadDmaLba48) == 0x25,
        command_code(Command::WritePioLba28) == 0x30,
        command_code(Command::WritePioLba48) == 0x34,
        command_code(Command::WriteDmaLba28) == 0xca,
        command_code(Command::WriteDmaLba48) == 0x35,
        a != b ==> command_code(a) != command_code(b),
        ({
            let c = command_code(match (mode, addressing == AddressType::Lba48, dma) {
                (TransferMode::Read, true, false) => Command::ReadPioLba48,
                (TransferMode::Read, false, false) => Command::ReadPioLba28,
                (TransferMode::Write, true, false) => Command::WritePioLba48,
                (TransferMode::Write, false, false) => Command::WritePioLba28,
                (TransferMode::Read, true, true) => Command::ReadDmaLba48,
                (TransferMode::Read, false, true) => Command::ReadDmaLba28,
                (TransferMode::Write, true, true) => Command::WriteDmaLba48,
                (TransferMode::Write, false, true) => Command::WriteDmaLba28,
            });
            &&& mode == TransferMode::Write <==> (c == 0x30 || c == 0x34 || c == 0xca || c == 0x35)
            &&& mode == TransferMode::Read <==> (c == 0x20 || c == 0x24 || c == 0xc8 || c == 0x25)
        }),
{
}

} // verus!
