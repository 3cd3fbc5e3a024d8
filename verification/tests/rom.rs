use helix::ultra::mesg::MesgRegistry;
use helix::ultra::rom::{
    cart_dma, cart_read_io, epi_dma, epi_read_io, rom_load, Rom, HLX_DEV_CART, HLX_DEV_DRIVE,
    HLX_ERR_BAD_ARG, HLX_ERR_BAD_IMAGE, HLX_ERR_NO_ROM, HLX_ERR_QUEUE, HLX_ERR_RANGE,
    HLX_ERR_UNSUPPORTED_DEVICE, HLX_OK, OS_READ,
};

const MAGIC: [u8; 8] = *b"HLXNROM\0";
const HEADER_LEN: usize = 48;
const EXPECTED_PTR_WIDTH: u8 = std::mem::size_of::<usize>() as u8;

fn container(payload: &[u8]) -> Vec<u8> {
    let mut v = Vec::new();
    v.extend_from_slice(&MAGIC);
    v.extend_from_slice(&1u32.to_le_bytes());
    v.extend_from_slice(&(HEADER_LEN as u32).to_le_bytes());
    v.extend_from_slice(&(HEADER_LEN as u64).to_le_bytes());
    v.extend_from_slice(&(payload.len() as u64).to_le_bytes());
    v.extend_from_slice(&0u32.to_le_bytes());
    v.push(0);
    v.push(EXPECTED_PTR_WIDTH);
    v.extend_from_slice(&0u16.to_le_bytes());
    v.extend_from_slice(&0u64.to_le_bytes());
    assert_eq!(v.len(), HEADER_LEN);
    v.extend_from_slice(payload);
    v
}

fn rom(payload: &[u8]) -> Rom {
    Rom::from_container(&container(payload)).unwrap()
}

fn fresh_queue(reg: &mut MesgRegistry, key: usize, cap: i32) -> usize {
    reg.create(key, cap);
    key
}

#[test]
fn container_accepts_valid_and_rejects_bad() {
    assert!(Rom::from_container(&container(&[1, 2, 3, 4])).is_ok());
    assert_eq!(
        Rom::from_container(&[0x80, 0x37, 0x12, 0x40, 0, 0, 0, 0, 0, 0]).unwrap_err(),
        HLX_ERR_BAD_IMAGE
    );
    let mut c = container(&[1, 2, 3, 4]);
    c[8] = 2;
    assert_eq!(Rom::from_container(&c).unwrap_err(), HLX_ERR_BAD_IMAGE);
    let mut c = container(&[1, 2, 3, 4]);
    c[24] = 0xFF;
    assert_eq!(Rom::from_container(&c).unwrap_err(), HLX_ERR_BAD_IMAGE);
    let mut c = container(&[1, 2, 3, 4]);
    c[38] = 1;
    assert_eq!(Rom::from_container(&c).unwrap_err(), HLX_ERR_BAD_IMAGE);
}

#[test]
fn container_rejects_bad_fields() {
    let mut c = container(&[1, 2, 3, 4]);
    c[0] ^= 0xFF;
    assert_eq!(Rom::from_container(&c).unwrap_err(), HLX_ERR_BAD_IMAGE, "bad magic (full header)");
    let mut c = container(&[1, 2, 3, 4]);
    c[32] = 1;
    assert_eq!(Rom::from_container(&c).unwrap_err(), HLX_ERR_BAD_IMAGE, "wrong ABI id");
    let mut c = container(&[1, 2, 3, 4]);
    c[36] = 1;
    assert_eq!(Rom::from_container(&c).unwrap_err(), HLX_ERR_BAD_IMAGE, "non-LE");
    let mut c = container(&[1, 2, 3, 4]);
    c[37] = EXPECTED_PTR_WIDTH ^ 0x04;
    assert_eq!(Rom::from_container(&c).unwrap_err(), HLX_ERR_BAD_IMAGE, "wrong ptr width");
    let mut c = container(&[1, 2, 3, 4]);
    c[40] = 1;
    assert_eq!(Rom::from_container(&c).unwrap_err(), HLX_ERR_BAD_IMAGE, "nonzero digest");
    let mut c = container(&[1, 2, 3, 4]);
    c[16] = 8;
    assert_eq!(Rom::from_container(&c).unwrap_err(), HLX_ERR_BAD_IMAGE, "payload_offset < header");
}

#[test]
fn container_copies_only_the_declared_payload() {
    let mut c = container(&[9, 8, 7, 6]);
    c.extend_from_slice(&[1, 1, 1]);
    let r = Rom::from_container(&c).unwrap();
    assert_eq!(r.len(), 4);
    assert_eq!(r.slice(0, 4).unwrap(), &[9, 8, 7, 6]);
    assert_eq!(r.slice(1, 4).unwrap_err(), HLX_ERR_RANGE);
    let short: Vec<u8> = container(&[]).into_iter().take(HEADER_LEN - 1).collect();
    assert_eq!(Rom::from_container(&short).unwrap_err(), HLX_ERR_BAD_IMAGE);
}

#[test]
fn cart_dma_reads_offset_and_completes() {
    let r = rom(&[0, 0, 0, 0, 0xAA, 0xBB, 0xCC, 0xDD]);
    let mut reg = MesgRegistry::new();
    let q = fresh_queue(&mut reg, 0x100, 1);
    let mb = 0x1234usize;
    let mut dst = Some(vec![0u8; 4]);
    let (rc, _) = cart_dma(&r, &mut reg, mb, 0xB000_0000, 0x1000_0004, &mut dst, 4, q);
    assert_eq!(rc, HLX_OK);
    assert_eq!(dst.unwrap(), vec![0xAA, 0xBB, 0xCC, 0xDD]);
    assert_eq!(reg.recv(q, 0, 0).pair(), (0, mb));
}

#[test]
fn cart_dma_bounds_reject_without_side_effect() {
    let r = rom(&[1, 2, 3, 4]);
    let mut reg = MesgRegistry::new();
    let q = fresh_queue(&mut reg, 0x100, 1);
    let mut dst = Some(vec![9u8; 8]);
    assert_eq!(cart_dma(&r, &mut reg, 1, 0xB000_0000, 0x1000_0000, &mut dst, 8, q).0, HLX_ERR_RANGE);
    assert_eq!(dst.as_ref().unwrap(), &vec![9u8; 8], "no copy on out-of-range");
    assert_eq!(cart_dma(&r, &mut reg, 1, 0, 0x0000_0000, &mut dst, 4, q).0, HLX_ERR_RANGE);
}

#[test]
fn cart_dma_full_queue_is_error_no_copy() {
    let r = rom(&[0xAA, 0xBB, 0xCC, 0xDD]);
    let mut reg = MesgRegistry::new();
    let q = fresh_queue(&mut reg, 0x100, 1);
    assert_eq!(reg.send(q, 0x1, 0, 0).ret(), 0);
    let mut dst = Some(vec![0u8; 4]);
    assert_eq!(cart_dma(&r, &mut reg, 1, 0xB000_0000, 0x1000_0000, &mut dst, 4, q).0, HLX_ERR_QUEUE);
    assert_eq!(dst.unwrap(), vec![0u8; 4], "no copy when the retQueue is full");
}

#[test]
fn read_io_returns_bytes_verbatim() {
    let r = rom(&[0x11, 0x22, b'E', 0x44, 0x78, 0x56, 0x34, 0x12]);
    let w0 = cart_read_io(&r, 0xB000_0000, 0x1000_0000).unwrap();
    assert_eq!(w0.to_ne_bytes(), [0x11, 0x22, b'E', 0x44]);
    let w1 = cart_read_io(&r, 0xB000_0000, 0x1000_0004).unwrap();
    assert_eq!(w1.to_ne_bytes(), [0x78, 0x56, 0x34, 0x12]);
    assert_eq!(cart_read_io(&r, 0xB000_0000, 0x1000_0008).unwrap_err(), HLX_ERR_RANGE);
}

#[test]
fn epi_non_cart_kind_is_unsupported_and_zeroes_out() {
    assert_eq!(
        epi_read_io(None, HLX_DEV_DRIVE, 0xB000_0000, 0x1000_0000),
        (HLX_ERR_UNSUPPORTED_DEVICE, 0)
    );
    let mut reg = MesgRegistry::new();
    let q = fresh_queue(&mut reg, 0x100, 1);
    let mut dst = None;
    assert_eq!(
        epi_dma(None, &mut reg, 1, HLX_DEV_DRIVE, 0xB000_0000, 0x1000_0000, &mut dst, 0, 0, q).0,
        HLX_ERR_UNSUPPORTED_DEVICE
    );
    assert_eq!(reg.recv(q, 0, 0).pair().0, -1, "unsupported device posts no completion");
}

#[test]
fn cart_dma_zero_len_still_validates_address() {
    let r = rom(&[1, 2, 3, 4]);
    let mut reg = MesgRegistry::new();
    let q = fresh_queue(&mut reg, 0x100, 1);
    let mut none = None;
    assert_eq!(cart_dma(&r, &mut reg, 1, 0, 0x0000_0000, &mut none, 0, q).0, HLX_ERR_RANGE);
    assert_eq!(cart_dma(&r, &mut reg, 1, 0xB000_0000, 0x1000_0005, &mut none, 0, q).0, HLX_ERR_RANGE);
    assert_eq!(reg.recv(q, 0, 0).pair().0, -1, "a rejected zero-length DMA posts no completion");
    assert_eq!(cart_dma(&r, &mut reg, 0x55, 0xB000_0000, 0x1000_0000, &mut none, 0, q).0, HLX_OK);
    assert_eq!(reg.recv(q, 0, 0).pair(), (0, 0x55));
}

#[test]
fn nonempty_dma_without_destination_is_bad_arg() {
    let r = rom(&[1, 2, 3, 4]);
    let mut reg = MesgRegistry::new();
    let q = fresh_queue(&mut reg, 0x100, 1);
    let mut none = None;
    assert_eq!(cart_dma(&r, &mut reg, 1, 0xB000_0000, 0x1000_0000, &mut none, 4, q).0, HLX_ERR_BAD_ARG);
    assert_eq!(reg.recv(q, 0, 0).pair().0, -1);
}

#[test]
fn ffi_global_slot_roundtrip() {
    let mut slot: Option<Rom> = None;
    let mut reg = MesgRegistry::new();
    assert_eq!(epi_read_io(slot.as_ref(), HLX_DEV_CART, 0xB000_0000, 0x1000_0000), (HLX_ERR_NO_ROM, 0));
    let c = container(&[0, 0, 0, 0, 0xAA, 0xBB, 0xCC, 0xDD]);
    assert_eq!(rom_load(&mut slot, &c), HLX_OK);
    assert_eq!(rom_load(&mut slot, &c), HLX_ERR_BAD_ARG, "duplicate load is rejected");
    let (rc, out) = epi_read_io(slot.as_ref(), HLX_DEV_CART, 0xB000_0000, 0x1000_0004);
    assert_eq!(rc, HLX_OK);
    assert_eq!(out.to_ne_bytes(), [0xAA, 0xBB, 0xCC, 0xDD]);
    let q = fresh_queue(&mut reg, 0x200, 1);
    let mb = 0x3000;
    let mut dst = Some(vec![0u8; 4]);
    let (rc, _) = epi_dma(slot.as_ref(), &mut reg, mb, HLX_DEV_CART, 0xB000_0000, 0x1000_0004, &mut dst, 4, OS_READ, q);
    assert_eq!(rc, HLX_OK);
    assert_eq!(dst.as_ref().unwrap(), &vec![0xAA, 0xBB, 0xCC, 0xDD]);
    assert_eq!(reg.recv(q, 0, 0).pair(), (0, mb));
    let (rc, _) = epi_dma(slot.as_ref(), &mut reg, mb, HLX_DEV_CART, 0xB000_0000, 0x1000_0004, &mut dst, 4, OS_READ + 1, q);
    assert_eq!(rc, HLX_ERR_UNSUPPORTED_DEVICE);
    assert_eq!(reg.recv(q, 0, 0).pair().0, -1, "unsupported write posts no completion");
}

#[test]
fn rom_load_rejects_empty_and_bad_images() {
    let mut slot: Option<Rom> = None;
    assert_eq!(rom_load(&mut slot, &[]), HLX_ERR_BAD_ARG);
    assert_eq!(rom_load(&mut slot, &[1, 2, 3]), HLX_ERR_BAD_IMAGE);
    assert!(slot.is_none());
}

#[test]
fn epi_dma_null_handles_and_no_rom() {
    let mut reg = MesgRegistry::new();
    let q = fresh_queue(&mut reg, 0x100, 1);
    let mut none = None;
    assert_eq!(epi_dma(None, &mut reg, 0, HLX_DEV_CART, 0, 0, &mut none, 0, OS_READ, q).0, HLX_ERR_BAD_ARG);
    assert_eq!(epi_dma(None, &mut reg, 1, HLX_DEV_CART, 0, 0, &mut none, 0, OS_READ, 0).0, HLX_ERR_BAD_ARG);
    assert_eq!(epi_dma(None, &mut reg, 1, HLX_DEV_CART, 0, 0, &mut none, 0, OS_READ, q).0, HLX_ERR_NO_ROM);
    assert_eq!(
        epi_dma(None, &mut reg, 1, HLX_DEV_CART, 0, 0, &mut none, isize::MAX as usize + 1, OS_READ, q).0,
        HLX_ERR_RANGE
    );
}
