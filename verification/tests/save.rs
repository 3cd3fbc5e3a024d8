use helix::ultra::save::{flush, Eeprom, EEPROM_STORE_SIZE};

#[test]
fn eeprom_roundtrips_persists_and_bounds_check() {
    let mut e = Eeprom::from_bytes(&[]);
    let src = [0xAB_u8; 32];
    assert_eq!(e.write(2, &src, 32), 0);
    assert_eq!(e.read(2, 32).unwrap(), src.to_vec());
    let e = Some(e);
    let disk = flush(&e).unwrap().clone();
    assert_eq!(disk.len(), EEPROM_STORE_SIZE);
    assert_eq!(&disk[16..48], &src[..]);
    let mut e = e.unwrap();
    assert_eq!(e.read(63, 8).map(|v| v.len()), Some(8));
    assert_eq!(e.read(64, 8), None);
    assert_eq!(e.write(64, &src, 8), -1);
    assert_eq!(e.write(0, &src, -1), -1);
    assert_eq!(e.read(0, -1), None);
}

#[test]
fn image_loads_from_a_short_or_long_file() {
    let e = Eeprom::from_bytes(&[1, 2, 3]);
    assert_eq!(e.bytes().len(), EEPROM_STORE_SIZE);
    assert_eq!(&e.bytes()[..4], &[1, 2, 3, 0]);
    let long = vec![7u8; 600];
    let e = Eeprom::from_bytes(&long);
    assert_eq!(e.bytes(), &vec![7u8; EEPROM_STORE_SIZE]);
}

#[test]
fn partial_block_write_leaves_the_rest() {
    let mut e = Eeprom::from_bytes(&[0xFF; 512]);
    assert_eq!(e.write(1, &[1, 2, 3, 4, 5], 3), 0);
    assert_eq!(e.read(1, 8).unwrap(), vec![1, 2, 3, 0xFF, 0xFF, 0xFF, 0xFF, 0xFF]);
    assert_eq!(e.read(0, 8).unwrap(), vec![0xFF; 8]);
    assert_eq!(e.read(63, 9), None);
    assert_eq!(e.read(10, 0), Some(vec![]));
}
