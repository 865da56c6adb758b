//! The reset sequence: what has to be true of memory before the application
//! runs its first instruction.
use vstd::prelude::*;

verus! {

/// The region boundaries that the link script hands to the reset handler.
///
/// `data_start..data_end` and `bss_start..bss_end` are offsets into writable
/// memory; `data_load` is the offset in non-volatile memory at which the
/// image of the initialized data begins.
#[derive(Clone, Copy, Debug, PartialEq, Eq, Structural)]
pub struct MemoryLayout {
    pub data_load: usize,
    pub data_start: usize,
    pub data_end: usize,
    pub bss_start: usize,
    pub bss_end: usize,
}

/// How the reset handler gives up control.
#[derive(Clone, Copy, Debug, PartialEq, Eq, Structural)]
pub enum Transfer {
    /// Memory is prepared; the application entry point runs next.
    ApplicationEntry,
    /// A region lies outside memory: the access faults and the hard-fault
    /// handler runs next.
    Fault,
}

/// `ram` after `image` has been written over it from offset `at` on.
pub open spec fn copied(ram: Seq<u8>, at: int, image: Seq<u8>) -> Seq<u8> {
    Seq::new(
        ram.len(),
        |i: int|
            if at <= i < at + image.len() {
                image[i - at]
            } else {
                ram[i]
            },
    )
}

/// `ram` after the bytes in `start..end` have been cleared.
pub open spec fn zeroed(ram: Seq<u8>, start: int, end: int) -> Seq<u8> {
    Seq::new(
        ram.len(),
        |i: int|
            if start <= i < end {
                0u8
            } else {
                ram[i]
            },
    )
}

impl MemoryLayout {
    /// Length of the initialized-data region.
    pub open spec fn data_len(self) -> int {
        self.data_end - self.data_start
    }

    /// The image of the initialized data as it lies in `flash`.
    pub open spec fn data_image(self, flash: Seq<u8>) -> Seq<u8> {
        flash.subrange(self.data_load as int, self.data_load + self.data_len())
    }

    /// Whether both regions lie inside a writable memory of `ram_len` bytes
    /// and the data image inside a non-volatile memory of `flash_len` bytes.
    pub open spec fn fits(self, flash_len: int, ram_len: int) -> bool {
        &&& self.data_start <= self.data_end <= ram_len
        &&& self.bss_start <= self.bss_end <= ram_len
        &&& self.data_load + self.data_len() <= flash_len
    }

    /// Whether the two regions share no byte.
    pub open spec fn regions_disjoint(self) -> bool {
        self.data_end <= self.bss_start || self.bss_end <= self.data_start
            || self.data_start >= self.data_end || self.bss_start >= self.bss_end
    }

    /// Writable memory as the application finds it: the data image copied
    /// in first, the zero-initialized region cleared after.
    pub open spec fn prepared(self, flash: Seq<u8>, ram: Seq<u8>) -> Seq<u8> {
        zeroed(
            copied(ram, self.data_start as int, self.data_image(flash)),
            self.bss_start as int,
            self.bss_end as int,
        )
    }

    /// Decides `fits` for memories of the given sizes.
    pub fn check(&self, flash_len: usize, ram_len: usize) -> (ok: bool)
        ensures
            ok == self.fits(flash_len as int, ram_len as int),
    {
        self.data_start <= self.data_end && self.data_end <= ram_len && self.bss_start
            <= self.bss_end && self.bss_end <= ram_len && self.data_load <= flash_len
            && self.data_end - self.data_start <= flash_len - self.data_load
    }
}

/// Copies `len` bytes of `flash`, from offset `src` on, into `ram` from
/// offset `dst` on.
pub fn copy_data(ram: &mut [u8], dst: usize, flash: &[u8], src: usize, len: usize)
    requires
        dst + len <= old(ram)@.len(),
        src + len <= flash@.len(),
    ensures
        final(ram)@ == copied(old(ram)@, dst as int, flash@.subrange(src as int, src + len)),
{
    let ghost before = ram@;
    let ghost image = flash@.subrange(src as int, src + len);
    let ram_len: usize = ram.len();
    let flash_len: usize = flash.len();
    let mut k: usize = 0;
    while k < len
        invariant
            k <= len,
            dst + len <= ram_len == before.len(),
            src + len <= flash_len == flash@.len(),
            image == flash@.subrange(src as int, src + len),
            ram@.len() == before.len(),
            forall|i: int| 0 <= i < ram@.len() ==> ram@[i] == (if dst <= i < dst + k {
                image[i - dst]
            } else {
                before[i]
            }),
        decreases len - k,
    {
        ram[dst + k] = flash[src + k];
        k = k + 1;
    }
    assert(ram@ =~= copied(before, dst as int, image));
}

/// Clears the bytes of `ram` in `start..end`.
pub fn zero_fill(ram: &mut [u8], start: usize, end: usize)
    requires
        start <= end <= old(ram)@.len(),
    ensures
        final(ram)@ == zeroed(old(ram)@, start as int, end as int),
{
    let ghost before = ram@;
    let mut i: usize = start;
    while i < end
        invariant
            start <= i <= end <= before.len(),
            ram@.len() == before.len(),
            forall|j: int| 0 <= j < ram@.len() ==> ram@[j] == (if start <= j < i {
                0u8
            } else {
                before[j]
            }),
        decreases end - i,
    {
        ram[i] = 0;
        i = i + 1;
    }
    assert(ram@ =~= zeroed(before, start as int, end as int));
}

/// The reset handler, up to the jump into the application.
///
/// The regions are checked before memory is touched. Where they fit, the
/// data image is copied, the zero-initialized region is cleared and control
/// goes to the application entry point. Where they do not, memory is left
/// as it was and the sequence ends in a fault.
pub fn reset_handler(flash: &[u8], ram: &mut [u8], layout: &MemoryLayout) -> (next: Transfer)
    ensures
        layout.fits(flash@.len() as int, old(ram)@.len() as int) ==> next
            == Transfer::ApplicationEntry && final(ram)@ == layout.prepared(flash@, old(ram)@),
        !layout.fits(flash@.len() as int, old(ram)@.len() as int) ==> next == Transfer::Fault
            && final(ram)@ == old(ram)@,
{
    if !layout.check(flash.len(), ram.len()) {
        return Transfer::Fault;
    }
    copy_data(ram, layout.data_start, flash, layout.data_load, layout.data_end - layout.data_start);
    zero_fill(ram, layout.bss_start, layout.bss_end);
    Transfer::ApplicationEntry
}

/// Preparing memory changes no byte outside the two regions and keeps the
/// size of memory.
pub proof fn lemma_prepared_frame(layout: MemoryLayout, flash: Seq<u8>, ram: Seq<u8>, i: int)
    requires
        layout.fits(flash.len() as int, ram.len() as int),
        0 <= i < ram.len(),
        !(layout.data_start <= i < layout.data_end),
        !(layout.bss_start <= i < layout.bss_end),
    ensures
        layout.prepared(flash, ram).len() == ram.len(),
        layout.prepared(flash, ram)[i] == ram[i],
{
}

/// After the reset sequence every byte of the zero-initialized region reads
/// as zero, whatever it held before.
pub proof fn lemma_bss_reads_zero(layout: MemoryLayout, flash: Seq<u8>, ram: Seq<u8>, i: int)
    requires
        layout.fits(flash.len() as int, ram.len() as int),
        layout.bss_start <= i < layout.bss_end,
    ensures
        layout.prepared(flash, ram)[i] == 0,
{
}

/// After the reset sequence the initialized-data region matches its image
/// byte for byte, provided the zero-initialized region does not overlap it.
pub proof fn lemma_data_matches_image(layout: MemoryLayout, flash: Seq<u8>, ram: Seq<u8>)
    requires
        layout.fits(flash.len() as int, ram.len() as int),
        layout.regions_disjoint(),
    ensures
        layout.prepared(flash, ram).subrange(layout.data_start as int, layout.data_end as int)
            == layout.data_image(flash),
{
    assert(layout.prepared(flash, ram).subrange(layout.data_start as int, layout.data_end as int)
        =~= layout.data_image(flash));
}

/// Preparing memory twice is the same as preparing it once.
pub proof fn lemma_prepared_idempotent(layout: MemoryLayout, flash: Seq<u8>, ram: Seq<u8>)
    requires
        layout.fits(flash.len() as int, ram.len() as int),
    ensures
        layout.prepared(flash, layout.prepared(flash, ram)) == layout.prepared(flash, ram),
{
    assert(layout.prepared(flash, layout.prepared(flash, ram)) =~= layout.prepared(flash, ram));
}

/// With both regions empty the reset sequence leaves memory as it found it.
pub proof fn lemma_empty_regions_change_nothing(layout: MemoryLayout, flash: Seq<u8>, ram: Seq<u8>)
    requires
        layout.fits(flash.len() as int, ram.len() as int),
        layout.data_start == layout.data_end,
        layout.bss_start == layout.bss_end,
    ensures
        layout.prepared(flash, ram) == ram,
{
    assert(layout.prepared(flash, ram) =~= ram);
}

} // verus!
