use vstd::prelude::*;

verus! {

/// EEPROM_MAXBLOCKS (64) * EEPROM_BLOCK_SIZE (8): the 4K EEPROM.
pub const EEPROM_STORE_SIZE: usize = 512;

/// osEepromLong{Read,Write} addresses a block; each block is 8 bytes.
pub const EEPROM_BLOCK_SIZE: usize = 8;

/// The in-memory EEPROM image.
pub struct Eeprom {
    store: Vec<u8>,
}

/// `s` with `d` written at byte offset `off`.
pub open spec fn splice(s: Seq<u8>, off: int, d: Seq<u8>) -> Seq<u8> {
    s.subrange(0, off) + d + s.subrange(off + d.len(), s.len() as int)
}

/// The byte range a block access covers, when it lies inside the store.
pub open spec fn block_range(addr: u8, n: i32) -> Option<(int, int)> {
    if n < 0 || addr * 8 + n > EEPROM_STORE_SIZE {
        None
    } else {
        Some((addr * 8, addr * 8 + n))
    }
}

impl View for Eeprom {
    type V = Seq<u8>;

    closed spec fn view(&self) -> Seq<u8> {
        self.store@
    }
}

impl Eeprom {
    pub closed spec fn wf(&self) -> bool {
        self.store@.len() == EEPROM_STORE_SIZE
    }

    pub proof fn lemma_wf(&self)
        requires
            self.wf(),
        ensures
            self@.len() == EEPROM_STORE_SIZE,
    {
    }

    /// The image loaded from a save file's bytes: its first 512 bytes, zero-filled past its end
    /// (a missing file reads as all zeros).
    pub fn from_bytes(bytes: &[u8]) -> (e: Eeprom)
        ensures
            e.wf(),
            forall|i: int|
                0 <= i < EEPROM_STORE_SIZE ==> #[trigger] e@[i] == (if i < bytes@.len() {
                    bytes@[i]
                } else {
                    0u8
                }),
    {
        let mut store: Vec<u8> = Vec::new();
        let mut i: usize = 0;
        while i < EEPROM_STORE_SIZE
            invariant
                i <= EEPROM_STORE_SIZE,
                store@.len() == i,
                forall|j: int|
                    0 <= j < i ==> #[trigger] store@[j] == (if j < bytes@.len() {
                        bytes@[j]
                    } else {
                        0u8
                    }),
            decreases EEPROM_STORE_SIZE - i,
        {
            if i < bytes.len() {
                store.push(bytes[i]);
            } else {
                store.push(0);
            }
            i = i + 1;
        }
        Eeprom { store }
    }

    /// osEepromLongRead: the `n` bytes at block `addr`, or `None` (status -1) for a negative count
    /// or a range past the 512-byte store.
    pub fn read(&self, addr: u8, n: i32) -> (r: Option<Vec<u8>>)
        requires
            self.wf(),
        ensures
            match block_range(addr, n) {
                None => r is None,
                Some((a, b)) => r matches Some(v) && v@ == self@.subrange(a, b),
            },
    {
        if n < 0 {
            return None;
        }
        let n = n as usize;
        let off = addr as usize * EEPROM_BLOCK_SIZE;
        if off + n > EEPROM_STORE_SIZE {
            return None;
        }
        let mut v: Vec<u8> = Vec::new();
        let mut i: usize = off;
        while i < off + n
            invariant
                off <= i <= off + n,
                off + n <= EEPROM_STORE_SIZE,
                self.wf(),
                v@ == self@.subrange(off as int, i as int),
            decreases off + n - i,
        {
            v.push(self.store[i]);
            i = i + 1;
            assert(v@ =~= self@.subrange(off as int, i as int));
        }
        Some(v)
    }

    /// osEepromLongWrite: store the first `n` bytes of `data` at block `addr`. Returns 0 when
    /// written (the image must then be persisted), -1 for a negative count or a range past the
    /// store, which leaves the image as it was.
    pub fn write(&mut self, addr: u8, data: &[u8], n: i32) -> (r: i32)
        requires
            old(self).wf(),
            n >= 0 ==> n <= data@.len(),
        ensures
            final(self).wf(),
            match block_range(addr, n) {
                None => r == -1 && final(self)@ == old(self)@,
                Some((a, b)) => r == 0 && final(self)@ == splice(
                    old(self)@,
                    a,
                    data@.subrange(0, b - a),
                ),
            },
    {
        if n < 0 {
            return -1;
        }
        let n = n as usize;
        let off = addr as usize * EEPROM_BLOCK_SIZE;
        if off + n > EEPROM_STORE_SIZE {
            return -1;
        }
        let mut i: usize = 0;
        while i < n
            invariant
                i <= n,
                n <= data@.len(),
                off + n <= EEPROM_STORE_SIZE,
                self.wf(),
                forall|j: int|
                    0 <= j < EEPROM_STORE_SIZE ==> #[trigger] self.store@[j] == (if off <= j < off + i {
                        data@[j - off]
                    } else {
                        old(self).store@[j]
                    }),
            decreases n - i,
        {
            let ghost before = self.store@;
            self.store.set(off + i, data[i]);
            assert(self.store@ == before.update(off + i, data@[i as int]));
            i = i + 1;
        }
        assert(self@ =~= splice(old(self)@, off as int, data@.subrange(0, n as int)));
        0
    }

    /// The image bytes a persist writes.
    pub fn bytes(&self) -> (r: &Vec<u8>)
        ensures
            r@ == self@,
    {
        &self.store
    }
}

/// The bytes a flush writes to disk: the image when the EEPROM was ever touched, nothing when it
/// was never initialized.
pub fn flush(e: &Option<Eeprom>) -> (r: Option<&Vec<u8>>)
    ensures
        match *e {
            None => r is None,
            Some(x) => r matches Some(v) && v@ == x@,
        },
{
    match e {
        None => None,
        Some(x) => Some(x.bytes()),
    }
}

/// A read after a write of the same blocks returns the written bytes.
pub proof fn law_eeprom_read_after_write(s: Seq<u8>, addr: u8, d: Seq<u8>)
    requires
        s.len() == EEPROM_STORE_SIZE,
        addr * 8 + d.len() <= EEPROM_STORE_SIZE,
    ensures
        splice(s, addr * 8, d).subrange(addr * 8, addr * 8 + d.len()) == d,
        splice(s, addr * 8, d).len() == EEPROM_STORE_SIZE,
{
    assert(splice(s, addr * 8, d).subrange(addr * 8, addr * 8 + d.len()) =~= d);
}

} // verus!
