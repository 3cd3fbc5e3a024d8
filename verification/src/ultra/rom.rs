use crate::ultra::mesg::{MesgRegistry, QueueView, SendStep};
use vstd::prelude::*;
use vstd::slice::slice_subrange;

verus! {

// HlxStatus: the C `int32_t` status constants.
pub const HLX_OK: i32 = 0;

pub const HLX_ERR_NO_ROM: i32 = -1;

pub const HLX_ERR_RANGE: i32 = -2;

pub const HLX_ERR_UNSUPPORTED_DEVICE: i32 = -3;

pub const HLX_ERR_BAD_ARG: i32 = -4;

pub const HLX_ERR_QUEUE: i32 = -5;

pub const HLX_ERR_BAD_IMAGE: i32 = -6;

pub const HLX_ERR_INTERNAL: i32 = -7;

// HlxDevKind: the device class the C shim resolved a PI handle to.
pub const HLX_DEV_CART: i32 = 0;

pub const HLX_DEV_DRIVE: i32 = 1;

pub const HLX_DEV_SRAM: i32 = 2;

pub const HLX_DEV_DEBUG: i32 = 3;

pub const OS_READ: i32 = 0;

pub const ROM_BASE: u32 = 0x1000_0000;

pub const PHYS_MASK: u32 = 0x1FFF_FFFF;

/// Container format v1: a 48-byte little-endian header, then the VROM payload.
pub const HEADER_LEN: usize = 48;

pub const FORMAT_VERSION: u32 = 1;

/// Cart images are at most 64 MiB.
pub const MAX_PAYLOAD_BYTES: usize = 67108864;

pub const MAX_CONTAINER_BYTES: usize = 67108912;

/// The native-image ABI id this build expects, matched exactly.
pub const EXPECTED_ABI_ID: u32 = 0;

/// The container's magic, `HLXNROM\0`.
pub open spec fn magic() -> Seq<u8> {
    seq![0x48u8, 0x4Cu8, 0x58u8, 0x4Eu8, 0x52u8, 0x4Fu8, 0x4Du8, 0x00u8]
}

/// The pointer width (in bytes) images must be built for: that of this host.
pub fn expected_ptr_width() -> (w: u8)
    ensures
        w == vstd::layout::size_of::<usize>(),
{
    proof {
        broadcast use vstd::layout::layout_of_primitives;
    }
    let w = std::mem::size_of::<usize>();
    assert(w == 4 || w == 8) by {
        assert(w * 8 == usize::BITS);
    }
    w as u8
}

pub open spec fn le16(b: Seq<u8>, o: int) -> int {
    b[o] + b[o + 1] * 256
}

pub open spec fn le32(b: Seq<u8>, o: int) -> int {
    b[o] + b[o + 1] * 256 + b[o + 2] * 65536 + b[o + 3] * 16777216
}

pub open spec fn le64(b: Seq<u8>, o: int) -> int {
    le32(b, o) + le32(b, o + 4) * 4294967296
}

/// The header checks of a container of at least `HEADER_LEN` bytes.
pub open spec fn header_ok(b: Seq<u8>) -> bool {
    &&& b.subrange(0, 8) == magic()
    &&& le32(b, 8) == FORMAT_VERSION
    &&& le32(b, 12) == HEADER_LEN
    &&& b[36] == 0
    &&& le16(b, 38) == 0
    &&& b[37] == vstd::layout::size_of::<usize>()
    &&& le32(b, 32) == EXPECTED_ABI_ID
    &&& forall|i: int| 40 <= i < 48 ==> b[i] == 0
}

/// The payload a container declares, when it is a valid v1 container: a `.z64` (no magic), a
/// wrong version, header length, endianness, flags, pointer width, ABI id or a nonzero digest,
/// and any payload range outside the buffer or past the size limit make it invalid.
pub open spec fn container_payload(b: Seq<u8>) -> Option<Seq<u8>> {
    if b.len() < HEADER_LEN || b.len() > MAX_CONTAINER_BYTES || !header_ok(b) {
        None
    } else {
        let po = le64(b, 16);
        let vl = le64(b, 24);
        if po > usize::MAX || vl > usize::MAX || po < HEADER_LEN || vl > MAX_PAYLOAD_BYTES
            || po + vl > usize::MAX || po + vl > b.len() {
            None
        } else {
            Some(b.subrange(po, po + vl))
        }
    }
}

fn read_le16(b: &[u8], o: usize) -> (r: u16)
    requires
        o + 2 <= b@.len(),
    ensures
        r == le16(b@, o as int),
{
    b[o] as u16 + (b[o + 1] as u16) * 256
}

fn read_le32(b: &[u8], o: usize) -> (r: u32)
    requires
        o + 4 <= b@.len(),
    ensures
        r == le32(b@, o as int),
{
    b[o] as u32 + (b[o + 1] as u32) * 256 + (b[o + 2] as u32) * 65536 + (b[o + 3] as u32)
        * 16777216
}

fn read_le64(b: &[u8], o: usize) -> (r: u64)
    requires
        o + 8 <= b@.len(),
    ensures
        r == le64(b@, o as int),
{
    let len = b.len();
    assert(o + 8 <= len);
    let lo = read_le32(b, o);
    let hi = read_le32(b, o + 4);
    lo as u64 + (hi as u64) * 4294967296
}

/// A validated, installed cart image: exactly the declared payload bytes.
#[derive(Debug)]
pub struct Rom {
    payload: Vec<u8>,
}

impl View for Rom {
    type V = Seq<u8>;

    closed spec fn view(&self) -> Seq<u8> {
        self.payload@
    }
}

impl Rom {
    /// Parse and validate a container, copying out only the declared payload
    /// (see `container_payload`); every rejection is `HLX_ERR_BAD_IMAGE`.
    pub fn from_container(bytes: &[u8]) -> (r: Result<Rom, i32>)
        ensures
            match container_payload(bytes@) {
                Some(p) => r matches Ok(rom) && rom@ == p,
                None => r == Err::<Rom, i32>(HLX_ERR_BAD_IMAGE),
            },
    {
        if bytes.len() < HEADER_LEN || bytes.len() > MAX_CONTAINER_BYTES {
            return Err(HLX_ERR_BAD_IMAGE);
        }
        let mut i: usize = 0;
        while i < 8
            invariant
                i <= 8,
                bytes@.len() >= HEADER_LEN,
                forall|j: int| 0 <= j < i ==> bytes@[j] == magic()[j],
            decreases 8 - i,
        {
            let want: u8 = if i == 0 {
                0x48
            } else if i == 1 {
                0x4C
            } else if i == 2 {
                0x58
            } else if i == 3 {
                0x4E
            } else if i == 4 {
                0x52
            } else if i == 5 {
                0x4F
            } else if i == 6 {
                0x4D
            } else {
                0x00
            };
            if bytes[i] != want {
                assert(bytes@.subrange(0, 8)[i as int] != magic()[i as int]);
                return Err(HLX_ERR_BAD_IMAGE);
            }
            i = i + 1;
        }
        assert(bytes@.subrange(0, 8) =~= magic());
        let format_version = read_le32(bytes, 8);
        let header_len = read_le32(bytes, 12);
        let payload_offset = read_le64(bytes, 16);
        let vrom_len = read_le64(bytes, 24);
        let guest_abi_id = read_le32(bytes, 32);
        let endianness = bytes[36];
        let pointer_width = bytes[37];
        let flags = read_le16(bytes, 38);
        let mut digest_zero = true;
        let mut k: usize = 40;
        while k < 48
            invariant
                40 <= k <= 48,
                bytes@.len() >= HEADER_LEN,
                digest_zero == (forall|j: int| 40 <= j < k ==> bytes@[j] == 0),
            decreases 48 - k,
        {
            if bytes[k] != 0 {
                digest_zero = false;
            }
            k = k + 1;
        }
        if format_version != FORMAT_VERSION || header_len as usize != HEADER_LEN || endianness != 0
            || flags != 0 || pointer_width != expected_ptr_width() || guest_abi_id != EXPECTED_ABI_ID
            || !digest_zero {
            return Err(HLX_ERR_BAD_IMAGE);
        }
        if payload_offset > usize::MAX as u64 || vrom_len > usize::MAX as u64 {
            return Err(HLX_ERR_BAD_IMAGE);
        }
        let po = payload_offset as usize;
        let vl = vrom_len as usize;
        if po < HEADER_LEN || vl > MAX_PAYLOAD_BYTES {
            return Err(HLX_ERR_BAD_IMAGE);
        }
        let end = match po.checked_add(vl) {
            Some(e) => e,
            None => return Err(HLX_ERR_BAD_IMAGE),
        };
        if end > bytes.len() {
            return Err(HLX_ERR_BAD_IMAGE);
        }
        let mut payload: Vec<u8> = Vec::new();
        let mut j: usize = po;
        while j < end
            invariant
                po <= j <= end,
                end <= bytes@.len(),
                payload@ == bytes@.subrange(po as int, j as int),
            decreases end - j,
        {
            payload.push(bytes[j]);
            j = j + 1;
            assert(payload@ =~= bytes@.subrange(po as int, j as int));
        }
        Ok(Rom { payload })
    }

    /// The payload length.
    pub fn len(&self) -> (n: usize)
        ensures
            n == self@.len(),
    {
        self.payload.len()
    }

    /// The `size` payload bytes at VROM offset `vrom`, or `HLX_ERR_RANGE` when they are not all
    /// inside the payload.
    pub fn slice(&self, vrom: u32, size: usize) -> (r: Result<&[u8], i32>)
        ensures
            match r {
                Ok(s) => vrom + size <= self@.len() && s@ == self@.subrange(
                    vrom as int,
                    vrom + size,
                ),
                Err(e) => e == HLX_ERR_RANGE && vrom + size > self@.len(),
            },
    {
        let n = self.payload.len();
        let start = vrom as usize;
        let end = match start.checked_add(size) {
            Some(e) => e,
            None => return Err(HLX_ERR_RANGE),
        };
        if end > self.payload.len() {
            return Err(HLX_ERR_RANGE);
        }
        Ok(slice_subrange(self.payload.as_slice(), start, end))
    }
}

/// The physical address a (handle base, device address) pair resolves to.
pub open spec fn phys_addr(base: u32, dev_addr: u32) -> u32 {
    (base | dev_addr) & PHYS_MASK
}

/// The VROM offset of a cart device address.
pub open spec fn spec_cart_vrom(base: u32, dev_addr: u32) -> Result<u32, i32> {
    if phys_addr(base, dev_addr) >= ROM_BASE {
        Ok((phys_addr(base, dev_addr) - ROM_BASE) as u32)
    } else {
        Err(HLX_ERR_RANGE)
    }
}

/// VROM offset for a cart device address, or `HLX_ERR_RANGE` below the cart window.
pub fn cart_vrom(base: u32, dev_addr: u32) -> (r: Result<u32, i32>)
    ensures
        r == spec_cart_vrom(base, dev_addr),
{
    let phys = (base | dev_addr) & PHYS_MASK;
    match phys.checked_sub(ROM_BASE) {
        Some(v) => Ok(v),
        None => Err(HLX_ERR_RANGE),
    }
}

pub open spec fn le_word(b: Seq<u8>) -> int {
    b[0] + b[1] * 256 + b[2] * 65536 + b[3] * 16777216
}

pub open spec fn be_word(b: Seq<u8>) -> int {
    b[3] + b[2] * 256 + b[1] * 65536 + b[0] * 16777216
}

/// `u32::from_ne_bytes`: the bytes read as a host-order word — least significant byte first on a
/// little-endian host, most significant first on a big-endian one. Which of the two a given host
/// uses is not stated here: it is a property of the machine.
#[verifier::external_body]
fn word_from_ne_bytes(b: [u8; 4]) -> (r: u32)
    ensures
        r == le_word(b@) || r == be_word(b@),
{
    u32::from_ne_bytes(b)
}

/// Cart PIO: the 4 payload bytes at the device address, verbatim, as a host-order word.
pub fn cart_read_io(rom: &Rom, base: u32, dev_addr: u32) -> (r: Result<u32, i32>)
    ensures
        match spec_cart_vrom(base, dev_addr) {
            Err(e) => r == Err::<u32, i32>(e),
            Ok(v) => if v + 4 <= rom@.len() {
                r matches Ok(w) && ({
                    let b = rom@.subrange(v as int, v + 4);
                    w == le_word(b) || w == be_word(b)
                })
            } else {
                r == Err::<u32, i32>(HLX_ERR_RANGE)
            },
        },
{
    let vrom = match cart_vrom(base, dev_addr) {
        Ok(v) => v,
        Err(e) => return Err(e),
    };
    let s = match rom.slice(vrom, 4) {
        Ok(s) => s,
        Err(e) => return Err(e),
    };
    let b: [u8; 4] = [s[0], s[1], s[2], s[3]];
    assert(b@ =~= s@);
    Ok(word_from_ne_bytes(b))
}

/// `dst` with its first `src.len()` bytes replaced by `src`.
pub open spec fn overwrite_prefix(dst: Seq<u8>, src: Seq<u8>) -> Seq<u8> {
    src + dst.subrange(src.len() as int, dst.len() as int)
}

/// Copy `src` over the start of `dst`.
fn copy_into(dst: &mut Vec<u8>, src: &[u8])
    requires
        src@.len() <= old(dst)@.len(),
    ensures
        final(dst)@ == overwrite_prefix(old(dst)@, src@),
{
    let mut i: usize = 0;
    while i < src.len()
        invariant
            src@.len() <= dst@.len(),
            dst@.len() == old(dst)@.len(),
            i <= src@.len(),
            dst@ == src@.subrange(0, i as int) + old(dst)@.subrange(i as int, old(dst)@.len() as int),
        decreases src@.len() - i,
    {
        dst.set(i, src[i]);
        i = i + 1;
        assert(dst@ =~= src@.subrange(0, i as int) + old(dst)@.subrange(i as int, old(dst)@.len() as int));
    }
    assert(src@.subrange(0, i as int) =~= src@);
}

/// The status of a cart DMA: the address must map into the cart window, the range must lie in
/// the payload, a nonempty transfer needs a destination, and the completion queue must exist and
/// have room.
pub open spec fn cart_dma_status(
    rom: Seq<u8>,
    reg: Map<usize, QueueView>,
    base: u32,
    dev_addr: u32,
    has_dram: bool,
    size: usize,
    q: usize,
) -> i32 {
    match spec_cart_vrom(base, dev_addr) {
        Err(e) => e,
        Ok(v) => if v + size > rom.len() {
            HLX_ERR_RANGE
        } else if size > 0 && !has_dram {
            HLX_ERR_BAD_ARG
        } else if !reg.contains_key(q) || reg[q].msgs.len() >= reg[q].cap {
            HLX_ERR_QUEUE
        } else {
            HLX_OK
        },
    }
}

/// What a successful cart DMA does: the payload bytes at the VROM offset land verbatim at the
/// start of the destination, and `mb` is posted to the completion queue (`wake` naming the
/// receiver it releases). Any other status leaves both untouched.
pub open spec fn cart_dma_effect(
    rom: Seq<u8>,
    reg0: Map<usize, QueueView>,
    reg1: Map<usize, QueueView>,
    dram0: Option<Vec<u8>>,
    dram1: Option<Vec<u8>>,
    mb: usize,
    base: u32,
    dev_addr: u32,
    size: usize,
    q: usize,
    status: i32,
    wake: Option<usize>,
) -> bool {
    if status == HLX_OK {
        let v = spec_cart_vrom(base, dev_addr)->Ok_0;
        &&& (dram0 matches Some(d0) ==> dram1 matches Some(d1) && d1@ == overwrite_prefix(
            d0@,
            rom.subrange(v as int, v + size),
        ))
        &&& (dram0 is None ==> dram1 is None)
        &&& reg1 == reg0.insert(q, reg0[q].send(mb, 0, 0).0)
        &&& reg0[q].send(mb, 0, 0).1 == (SendStep::Done { ret: 0, wake })
    } else {
        reg1 == reg0 && dram1 == dram0 && wake is None
    }
}

/// Cart DMA (see `cart_dma_status` and `cart_dma_effect`): copy and completion happen together
/// or not at all.
pub fn cart_dma(
    rom: &Rom,
    reg: &mut MesgRegistry,
    mb: usize,
    base: u32,
    dev_addr: u32,
    dram: &mut Option<Vec<u8>>,
    size: usize,
    ret_queue: usize,
) -> (r: (i32, Option<usize>))
    requires
        old(reg).wf(),
        *old(dram) matches Some(d) ==> size <= d@.len(),
    ensures
        final(reg).wf(),
        r.0 == cart_dma_status(rom@, old(reg)@, base, dev_addr, (*old(dram) is Some), size, ret_queue),
        cart_dma_effect(rom@, old(reg)@, final(reg)@, *old(dram), *final(dram), mb, base, dev_addr, size, ret_queue, r.0, r.1),
{
    let vrom = match cart_vrom(base, dev_addr) {
        Ok(v) => v,
        Err(e) => return (e, None),
    };
    let src = match rom.slice(vrom, size) {
        Ok(s) => s,
        Err(e) => return (e, None),
    };
    if size > 0 && dram.is_none() {
        return (HLX_ERR_BAD_ARG, None);
    }
    if reg.reserve(ret_queue) != 0 {
        return (HLX_ERR_QUEUE, None);
    }
    let taken = dram.take();
    match taken {
        Some(mut d) => {
            copy_into(&mut d, src);
            *dram = Some(d);
        },
        None => {},
    }
    let step = reg.send(ret_queue, mb, 0, 0);
    match step {
        SendStep::Done { wake, .. } => (HLX_OK, wake),
        SendStep::Park => (HLX_OK, None),
    }
}

/// The status of osEPiStartDma's cart path: only the cart kind is served, the message and queue
/// handles must be non-null, the cart is read-only, the size must fit `isize`, and a ROM must
/// be installed; then the cart DMA's own checks apply.
pub open spec fn epi_dma_status(
    rom: Option<Seq<u8>>,
    reg: Map<usize, QueueView>,
    mb: usize,
    kind: i32,
    base: u32,
    dev_addr: u32,
    has_dram: bool,
    size: usize,
    dir: i32,
    q: usize,
) -> i32 {
    if kind != HLX_DEV_CART {
        HLX_ERR_UNSUPPORTED_DEVICE
    } else if mb == 0 || q == 0 {
        HLX_ERR_BAD_ARG
    } else if dir != OS_READ {
        HLX_ERR_UNSUPPORTED_DEVICE
    } else if size > isize::MAX {
        HLX_ERR_RANGE
    } else {
        match rom {
            None => HLX_ERR_NO_ROM,
            Some(p) => cart_dma_status(p, reg, base, dev_addr, has_dram, size, q),
        }
    }
}

pub open spec fn rom_view(rom: Option<&Rom>) -> Option<Seq<u8>> {
    match rom {
        Some(r) => Some(r@),
        None => None,
    }
}

/// osEPiStartDma for the cart (see `epi_dma_status`); handles are guest addresses, 0 for null.
/// Unsupported kinds post no completion.
pub fn epi_dma(
    rom: Option<&Rom>,
    reg: &mut MesgRegistry,
    mb: usize,
    kind: i32,
    base: u32,
    dev_addr: u32,
    dram: &mut Option<Vec<u8>>,
    size: usize,
    dir: i32,
    ret_queue: usize,
) -> (r: (i32, Option<usize>))
    requires
        old(reg).wf(),
        *old(dram) matches Some(d) ==> size <= d@.len(),
    ensures
        final(reg).wf(),
        r.0 == epi_dma_status(rom_view(rom), old(reg)@, mb, kind, base, dev_addr, (*old(dram) is Some), size, dir, ret_queue),
        cart_dma_effect(
            match rom { Some(x) => x@, None => Seq::empty() },
            old(reg)@, final(reg)@, *old(dram), *final(dram), mb, base, dev_addr, size, ret_queue, r.0, r.1,
        ),
{
    if kind != HLX_DEV_CART {
        return (HLX_ERR_UNSUPPORTED_DEVICE, None);
    }
    if mb == 0 || ret_queue == 0 {
        return (HLX_ERR_BAD_ARG, None);
    }
    if dir != OS_READ {
        return (HLX_ERR_UNSUPPORTED_DEVICE, None);
    }
    if size > isize::MAX as usize {
        return (HLX_ERR_RANGE, None);
    }
    match rom {
        Some(r) => cart_dma(r, reg, mb, base, dev_addr, dram, size, ret_queue),
        None => (HLX_ERR_NO_ROM, None),
    }
}

/// osEPiReadIo for the cart: the status and the word read (0 on any error, as the caller's
/// `*out` is zeroed before any early return).
pub fn epi_read_io(rom: Option<&Rom>, kind: i32, base: u32, dev_addr: u32) -> (r: (i32, u32))
    ensures
        kind != HLX_DEV_CART ==> r == (HLX_ERR_UNSUPPORTED_DEVICE, 0u32),
        kind == HLX_DEV_CART && rom is None ==> r == (HLX_ERR_NO_ROM, 0u32),
        kind == HLX_DEV_CART ==> (rom matches Some(x) ==> match spec_cart_vrom(base, dev_addr) {
            Err(e) => r == (e, 0u32),
            Ok(v) => if v + 4 <= x@.len() {
                let b = x@.subrange(v as int, v + 4);
                r.0 == HLX_OK && (r.1 == le_word(b) || r.1 == be_word(b))
            } else {
                r == (HLX_ERR_RANGE, 0u32)
            },
        }),
{
    if kind != HLX_DEV_CART {
        return (HLX_ERR_UNSUPPORTED_DEVICE, 0);
    }
    match rom {
        None => (HLX_ERR_NO_ROM, 0),
        Some(r) => match cart_read_io(r, base, dev_addr) {
            Ok(v) => (HLX_OK, v),
            Err(e) => (e, 0),
        },
    }
}

/// Install a validated cart image once: an empty or oversized buffer is a bad argument, an
/// invalid container is a bad image, and a second load is a bad argument that keeps the first.
pub fn rom_load(slot: &mut Option<Rom>, bytes: &[u8]) -> (r: i32)
    ensures
        bytes@.len() == 0 || bytes@.len() > MAX_CONTAINER_BYTES ==> r == HLX_ERR_BAD_ARG
            && *final(slot) == *old(slot),
        0 < bytes@.len() <= MAX_CONTAINER_BYTES && container_payload(bytes@) is None ==> r
            == HLX_ERR_BAD_IMAGE && *final(slot) == *old(slot),
        0 < bytes@.len() <= MAX_CONTAINER_BYTES && container_payload(bytes@) is Some && *old(slot) is Some
            ==> r == HLX_ERR_BAD_ARG && *final(slot) == *old(slot),
        0 < bytes@.len() <= MAX_CONTAINER_BYTES && *old(slot) is None ==> (container_payload(bytes@) matches Some(p)
            ==> r == HLX_OK && (*final(slot) matches Some(x) && x@ == p)),
{
    if bytes.len() == 0 || bytes.len() > MAX_CONTAINER_BYTES {
        return HLX_ERR_BAD_ARG;
    }
    let rom = match Rom::from_container(bytes) {
        Ok(r) => r,
        Err(e) => return e,
    };
    if slot.is_some() {
        return HLX_ERR_BAD_ARG;
    }
    *slot = Some(rom);
    HLX_OK
}

} // verus!
