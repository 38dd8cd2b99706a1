//! The memory bus: 65536 bytes of flat storage with wraparound addressing.
//!
//! The bus is modelled as a `Seq<u8>` of length [`MEMORY_SIZE`]. Addresses in
//! the model are unbounded integers; every access reduces its address modulo
//! the size of the bus, so no access can fall outside it.

use vstd::arithmetic::div_mod::lemma_fundamental_div_mod_converse;
use vstd::prelude::*;

verus! {

/// Number of bytes on the bus.
pub const MEMORY_SIZE: usize = 0x10000;

/// The cell that an address selects: the address reduced modulo the size of
/// the bus.
pub open spec fn wrap(addr: int) -> int {
    addr % 0x10000
}

/// The contents of a bus on which nothing has been written: every byte zero.
pub open spec fn zeroed() -> Seq<u8> {
    Seq::new(MEMORY_SIZE as nat, |cell: int| 0u8)
}

/// The byte that a read of `addr` yields on a bus holding `mem`.
pub open spec fn read_at(mem: Seq<u8>, addr: int) -> u8 {
    mem[wrap(addr)]
}

/// The bus contents after a write of `val` to `addr`.
pub open spec fn written(mem: Seq<u8>, addr: int, val: u8) -> Seq<u8> {
    mem.update(wrap(addr), val)
}

/// The index of the byte that ends up in `cell` when `len` bytes are copied
/// to consecutive addresses from `origin` upward, or `None` if the copy does
/// not reach the cell.
///
/// Byte `i` of the copy lands on `wrap(origin + i)`. A copy longer than the
/// bus laps itself, and the byte copied last is the one that stays.
pub open spec fn last_onto(cell: int, origin: int, len: int) -> Option<int> {
    let first = wrap(cell - origin);
    if first < len {
        Some(first + 0x10000 * ((len - 1 - first) / 0x10000))
    } else {
        None
    }
}

/// The bus contents after `data` has been copied in from `origin` upward,
/// running on from the top of memory to address 0.
pub open spec fn loaded(mem: Seq<u8>, origin: int, data: Seq<u8>) -> Seq<u8> {
    Seq::new(
        MEMORY_SIZE as nat,
        |cell: int|
            match last_onto(cell, origin, data.len() as int) {
                Some(i) => data[i],
                None => mem[cell],
            },
    )
}

/// Flat byte storage of fixed size, zeroed when made and never resized.
///
/// Its view is the sequence of its 65536 bytes.
pub struct Ram {
    ram: Vec<u8>,
}

impl View for Ram {
    type V = Seq<u8>;

    // Taken cell by cell, so that a view has the size of the bus whatever
    // it is the view of. The type invariant makes it the vector's contents.
    closed spec fn view(&self) -> Seq<u8> {
        Seq::new(MEMORY_SIZE as nat, |cell: int| self.ram@[cell])
    }
}

impl Ram {
    #[verifier::type_invariant]
    spec fn inv(self) -> bool {
        self.ram@.len() == MEMORY_SIZE
    }

    /// The view of a bus always has one byte per address.
    pub proof fn lemma_view_len(self)
        ensures
            self@.len() == MEMORY_SIZE,
    {
    }

    /// A bus with every byte zero.
    pub fn new() -> (bus: Ram)
        ensures
            bus@ == zeroed(),
    {
        Ram { ram: vec![0u8; MEMORY_SIZE] }
    }

    /// Reads the byte at `addr`.
    pub fn read(&self, addr: u16) -> (byte: u8)
        ensures
            byte == read_at(self@, addr as int),
    {
        proof {
            use_type_invariant(self);
        }
        self.ram[addr as usize]
    }

    /// Writes `val` to `addr`.
    pub fn write(&mut self, addr: u16, val: u8)
        ensures
            final(self)@ == written(old(self)@, addr as int, val),
    {
        proof {
            use_type_invariant(&*self);
        }
        self.ram[addr as usize] = val;
    }

    /// Copies `data` onto the bus, byte `i` to address `addr + i`. Past the
    /// top of memory the copy runs on at address 0.
    pub fn load_data(&mut self, addr: u16, data: Vec<u8>)
        ensures
            final(self)@ == loaded(old(self)@, addr as int, data@),
    {
        proof {
            use_type_invariant(&*self);
            assert(self@ =~= loaded(self@, addr as int, data@.take(0)));
        }
        let size = data.len();
        let mut dst: u16 = addr;
        let mut i: usize = 0;
        while i < size
            invariant
                size == data@.len(),
                i <= size,
                dst == wrap(addr + i),
                self.ram@.len() == MEMORY_SIZE,
                self@ == loaded(old(self)@, addr as int, data@.take(i as int)),
            decreases size - i,
        {
            proof {
                lemma_loaded_step(old(self)@, addr as int, data@, i as int);
            }
            self.ram[dst as usize] = data[i];
            dst = dst.wrapping_add(1);
            i = i + 1;
        }
        proof {
            assert(data@.take(size as int) =~= data@);
        }
    }
}

/// A read sees only the address modulo the size of the bus, and that
/// address is on the bus.
pub proof fn lemma_read_wraps(mem: Seq<u8>, addr: int)
    ensures
        read_at(mem, addr) == read_at(mem, addr % 0x10000),
        0 <= addr % 0x10000 < MEMORY_SIZE,
{
}

/// A write sees only the address modulo the size of the bus.
pub proof fn lemma_write_wraps(mem: Seq<u8>, addr: int, val: u8)
    ensures
        written(mem, addr, val) == written(mem, addr % 0x10000, val),
{
}

/// A write changes the cell it addresses and no other, and keeps the size of
/// the bus.
pub proof fn lemma_written(mem: Seq<u8>, addr: int, val: u8, other: int)
    requires
        mem.len() == MEMORY_SIZE,
    ensures
        written(mem, addr, val).len() == MEMORY_SIZE,
        read_at(written(mem, addr, val), other) == if wrap(other) == wrap(addr) {
            val
        } else {
            read_at(mem, other)
        },
{
}

/// A copy of no bytes leaves the bus as it was.
pub proof fn lemma_loaded_nothing(mem: Seq<u8>, origin: int)
    requires
        mem.len() == MEMORY_SIZE,
    ensures
        loaded(mem, origin, Seq::empty()) == mem,
{
    assert(loaded(mem, origin, Seq::empty()) =~= mem);
}

/// A copy that fits on the bus puts byte `i` at `origin + i`, wrapped, and
/// leaves every cell it does not reach as it was.
pub proof fn lemma_loaded_fits(mem: Seq<u8>, origin: int, data: Seq<u8>)
    requires
        data.len() <= MEMORY_SIZE,
    ensures
        loaded(mem, origin, data).len() == MEMORY_SIZE,
        forall|i: int|
            0 <= i < data.len() ==> #[trigger] read_at(loaded(mem, origin, data), origin + i)
                == data[i],
        forall|cell: int|
            0 <= cell < MEMORY_SIZE && wrap(cell - origin) >= data.len()
                ==> #[trigger] loaded(mem, origin, data)[cell] == mem[cell],
{
    assert forall|i: int| 0 <= i < data.len() implies #[trigger] read_at(
        loaded(mem, origin, data),
        origin + i,
    ) == data[i] by {
        let cell = wrap(origin + i);
        assert(wrap(cell - origin) == i);
        assert((data.len() - 1 - i) / 0x10000 == 0);
    }
}

/// One more byte copied reaches the cell `origin + i` and no other.
proof fn lemma_last_onto_step(cell: int, origin: int, i: int)
    requires
        0 <= i,
    ensures
        last_onto(cell, origin, i + 1) == if wrap(cell - origin) == i % 0x10000 {
            Some(i)
        } else {
            last_onto(cell, origin, i)
        },
{
    let first = wrap(cell - origin);
    if first == i % 0x10000 {
        lemma_fundamental_div_mod_converse(i - first, 0x10000, i / 0x10000, 0);
    } else if first < i {
        let gap = i - first;
        let laps = gap / 0x10000;
        let rest = gap % 0x10000;
        if rest == 0 {
            lemma_fundamental_div_mod_converse(i, 0x10000, laps, first);
        }
        lemma_fundamental_div_mod_converse(gap - 1, 0x10000, laps, rest - 1);
    }
}

/// Copying in one byte more is a write of that byte on top of the shorter
/// copy: a load is its bytes written one by one, in order.
pub proof fn lemma_loaded_step(mem: Seq<u8>, origin: int, data: Seq<u8>, i: int)
    requires
        0 <= i < data.len(),
    ensures
        loaded(mem, origin, data.take(i + 1)) == written(
            loaded(mem, origin, data.take(i)),
            origin + i,
            data[i],
        ),
{
    let shorter = loaded(mem, origin, data.take(i));
    let longer = loaded(mem, origin, data.take(i + 1));
    assert forall|cell: int| 0 <= cell < MEMORY_SIZE implies longer[cell] == written(
        shorter,
        origin + i,
        data[i],
    )[cell] by {
        lemma_last_onto_step(cell, origin, i);
        assert(wrap(origin + i) == cell <==> wrap(cell - origin) == i % 0x10000);
    }
    assert(longer =~= written(shorter, origin + i, data[i]));
}

} // verus!
