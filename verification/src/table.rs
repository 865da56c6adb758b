//! The vector table: what the processor reads at reset and on every
//! exception entry.
use vstd::prelude::*;
use crate::source::{exception_number, is_reserved, source_at, Source, CORE_ENTRIES, TABLE_LEN, VENDOR_INTERRUPTS};
use crate::source::{lemma_exception_number_range, lemma_source_at_defined, lemma_source_at_exception_number};

verus! {

/// One slot of the vector table.
#[derive(Clone, Copy, Debug, PartialEq, Eq, Structural)]
pub enum Entry {
    /// The value loaded into the main stack pointer at reset.
    StackPointer(u32),
    /// The entry point of the handler of a source.
    Handler(Source),
    /// A slot that no source uses; it reads as zero.
    Reserved,
}

/// What slot `i` must hold in a table whose initial stack pointer is `sp`.
pub open spec fn slot(i: int, sp: u32) -> Entry {
    if i == 0 {
        Entry::StackPointer(sp)
    } else {
        match source_at(i) {
            Some(s) => Entry::Handler(s),
            None => Entry::Reserved,
        }
    }
}

/// The whole table for an initial stack pointer `sp`.
pub open spec fn layout(sp: u32) -> Seq<Entry> {
    Seq::new(TABLE_LEN as nat, |i: int| slot(i, sp))
}

/// The table has one slot for each core entry and each interrupt line.
pub proof fn lemma_layout_len(sp: u32)
    ensures
        layout(sp).len() == CORE_ENTRIES + VENDOR_INTERRUPTS,
{
}

/// Slot 0 is the initial stack pointer and slot 1 the reset handler.
pub proof fn lemma_layout_head(sp: u32)
    ensures
        layout(sp)[0] == Entry::StackPointer(sp),
        layout(sp)[1] == Entry::Handler(Source::Reset),
{
    lemma_source_at_exception_number(Source::Reset);
}

/// The slot of every source holds the handler of that source and of no
/// other.
pub proof fn lemma_layout_routes(sp: u32, s: Source)
    ensures
        0 < exception_number(s) < layout(sp).len(),
        layout(sp)[exception_number(s)] == Entry::Handler(s),
{
    lemma_exception_number_range(s);
    lemma_source_at_exception_number(s);
}

/// A handler stands in slot `i` only if `i` is the exception number of its
/// source: no source is routed to two slots.
pub proof fn lemma_layout_handler_unique(sp: u32, i: int, s: Source)
    requires
        0 <= i < layout(sp).len(),
        layout(sp)[i] == Entry::Handler(s),
    ensures
        i == exception_number(s),
{
}

/// The slots marked reserved are exactly the six gaps among the system
/// exceptions; every other slot past the stack pointer holds a handler.
pub proof fn lemma_layout_reserved(sp: u32, i: int)
    requires
        0 <= i < layout(sp).len(),
    ensures
        layout(sp)[i] == Entry::Reserved <==> is_reserved(i),
        i != 0 && !is_reserved(i) ==> layout(sp)[i] is Handler,
{
    lemma_source_at_defined(i);
}

/// The vector table of the device: immutable once built.
pub struct VectorTable {
    entries: Vec<Entry>,
}

impl View for VectorTable {
    type V = Seq<Entry>;

    closed spec fn view(&self) -> Seq<Entry> {
        self.entries@
    }
}

/// The entry that belongs in slot `index` of a table whose initial stack
/// pointer is `initial_sp`.
pub fn entry_at(index: usize, initial_sp: u32) -> (e: Entry)
    ensures
        e == slot(index as int, initial_sp),
{
    if index == 0 {
        Entry::StackPointer(initial_sp)
    } else {
        match Source::from_exception_number(index) {
            Some(s) => Entry::Handler(s),
            None => Entry::Reserved,
        }
    }
}

impl VectorTable {
    /// Builds the table for a device whose stack starts at `initial_sp`.
    pub fn new(initial_sp: u32) -> (t: VectorTable)
        ensures
            t@ == layout(initial_sp),
    {
        let mut entries: Vec<Entry> = Vec::with_capacity(TABLE_LEN);
        let mut i: usize = 0;
        while i < TABLE_LEN
            invariant
                i <= TABLE_LEN,
                entries@.len() == i,
                forall|k: int| 0 <= k < i ==> entries@[k] == slot(k, initial_sp),
            decreases TABLE_LEN - i,
        {
            entries.push(entry_at(i, initial_sp));
            i = i + 1;
        }
        assert(entries@ =~= layout(initial_sp));
        VectorTable { entries }
    }

    /// Every table is the layout of the device for some initial stack
    /// pointer.
    #[verifier::type_invariant]
    spec fn is_device_layout(&self) -> bool {
        exists|sp: u32| self.entries@ == layout(sp)
    }

    /// Number of slots.
    pub fn len(&self) -> (n: usize)
        ensures
            n == self@.len(),
            n == CORE_ENTRIES + VENDOR_INTERRUPTS,
    {
        proof {
            use_type_invariant(self);
        }
        self.entries.len()
    }

    /// The entry in slot `index`, or `None` past the end of the table.
    pub fn get(&self, index: usize) -> (e: Option<Entry>)
        ensures
            e == (if index < self@.len() { Some(self@[index as int]) } else { None::<Entry> }),
    {
        if index < self.entries.len() {
            Some(self.entries[index])
        } else {
            None
        }
    }

    /// The value that the processor loads into the stack pointer at reset.
    pub fn initial_stack_pointer(&self) -> (sp: u32)
        ensures
            self@ == layout(sp),
            self@[0] == Entry::StackPointer(sp),
    {
        proof {
            use_type_invariant(self);
        }
        match self.entries[0] {
            Entry::StackPointer(sp) => sp,
            _ => {
                proof { assert(false); }
                0
            },
        }
    }

    /// The source whose handler the processor enters for exception number
    /// `n`: `None` for slot 0, for the reserved slots and past the end.
    pub fn handler(&self, n: usize) -> (r: Option<Source>)
        ensures
            r == source_at(n as int),
    {
        proof {
            use_type_invariant(self);
            lemma_source_at_defined(n as int);
        }
        if n < self.entries.len() {
            match self.entries[n] {
                Entry::Handler(s) => Some(s),
                _ => None,
            }
        } else {
            None
        }
    }

    /// The slots, in order.
    pub fn entries(&self) -> (v: Vec<Entry>)
        ensures
            v@ == self@,
    {
        self.entries.clone()
    }
}

} // verus!
