//! Memory-supported, slow, but easy & cross-platform buffer implementation.

use crate::buffer::{Buffer, Handle, PixelFormat};
use crate::result::{classified, SystemError};
use vstd::prelude::*;

verus! {

/// Slow, but generic buffer implementation.
///
/// A `DumbBuffer` is the immutable metadata of one kernel-owned allocation,
/// copied verbatim from the values the kernel reported when the allocation
/// was created. The kernel is the source of truth for every field: nothing
/// is validated or recomputed here, and `length` in particular is the
/// allocation's authoritative byte length, never derived from size and
/// pitch.
#[derive(Debug, Copy, Clone, Hash, Eq)]
pub struct DumbBuffer {
    pub size: (u32, u32),
    pub length: usize,
    pub format: PixelFormat,
    pub pitch: u32,
    pub handle: Handle,
}

impl DumbBuffer {
    /// Record the metadata of a freshly created kernel allocation.
    ///
    /// The arguments are stored verbatim; any inconsistency between them
    /// (say, a pitch narrower than the format would require) is the kernel
    /// subsystem's to rule on, not this crate's.
    pub fn new(
        size: (u32, u32),
        length: usize,
        format: PixelFormat,
        pitch: u32,
        handle: Handle,
    ) -> (r: DumbBuffer)
        ensures
            r.size == size,
            r.length == length,
            r.format == format,
            r.pitch == pitch,
            r.handle == handle,
    {
        DumbBuffer { size, length, format, pitch, handle }
    }

    /// The authoritative byte length of the backing allocation.
    pub fn length(&self) -> (r: usize)
        ensures
            r == self.length,
    {
        self.length
    }
}

impl PartialEq for DumbBuffer {
    fn eq(&self, other: &DumbBuffer) -> (r: bool) {
        self.size.0 == other.size.0 && self.size.1 == other.size.1
            && self.length == other.length && self.format == other.format
            && self.pitch == other.pitch && self.handle == other.handle
    }
}

impl vstd::std_specs::cmp::PartialEqSpecImpl for DumbBuffer {
    open spec fn obeys_eq_spec() -> bool {
        true
    }

    open spec fn eq_spec(&self, other: &DumbBuffer) -> bool {
        self.size == other.size && self.length == other.length && self.format == other.format
            && self.pitch == other.pitch && self.handle == other.handle
    }
}

impl Buffer for DumbBuffer {
    open spec fn spec_size(self) -> (u32, u32) {
        self.size
    }

    open spec fn spec_format(self) -> PixelFormat {
        self.format
    }

    open spec fn spec_pitch(self) -> u32 {
        self.pitch
    }

    open spec fn spec_handle(self) -> Handle {
        self.handle
    }

    fn size(&self) -> (r: (u32, u32)) {
        self.size
    }

    fn format(&self) -> (r: PixelFormat) {
        self.format
    }

    fn pitch(&self) -> (r: u32) {
        self.pitch
    }

    fn handle(&self) -> (r: Handle) {
        self.handle
    }
}

/// Mapping of a dumb buffer.
pub struct DumbMapping<'a> {
    pub map: &'a mut [u8],
}

impl<'a> DumbMapping<'a> {
    pub fn new(map: &'a mut [u8]) -> (r: DumbMapping<'a>)
        ensures
            r.map@ == old(map)@,
            final(r.map)@ == final(map)@,
    {
        DumbMapping { map }
    }

    /// How many bytes the mapping exposes: the byte length of the whole
    /// backing allocation, since no partial-range mapping is supported.
    pub fn len(&self) -> (r: usize)
        ensures
            r == old(self.map)@.len(),
    {
        self.map.len()
    }

    /// The writable byte view over the mapped allocation, valid while the
    /// mapping is alive.
    ///
    /// The view covers the mapped bytes whole. What is written through it
    /// becomes the mapping's contents, and what the mapping finally holds
    /// flows back to the memory it borrows, so a write through the view is
    /// a write to the backing allocation.
    pub fn as_mut(&mut self) -> (r: &mut [u8])
        ensures
            r@ == old(self).map@,
            final(self).map@ == final(r)@,
            final(final(self).map)@ == final(old(self).map)@,
    {
        &mut *self.map
    }
}

/// Turn the outcome of the external raw map operation into a mapping.
///
/// The raw map collaborator either hands back a writable byte view over the
/// whole allocation or fails with a raw operating-system error code. On
/// success the view is wrapped unchanged; on failure the code is classified,
/// so acquisition failures are always reported to the caller, never fatal.
pub fn request_mapping<'a>(outcome: Result<&'a mut [u8], i32>) -> (r: Result<
    DumbMapping<'a>,
    SystemError,
>)
    ensures
        outcome is Ok ==> {
            &&& r is Ok
            &&& (r->Ok_0).map@ == outcome->Ok_0@
            &&& final((r->Ok_0).map)@ == final(outcome->Ok_0)@
        },
        outcome is Err ==> r == Result::<DumbMapping<'a>, SystemError>::Err(
            classified(outcome->Err_0),
        ),
{
    match outcome {
        Result::Ok(map) => Result::Ok(DumbMapping::new(map)),
        Result::Err(code) => Result::Err(SystemError::classify(code)),
    }
}

/// Two descriptors are equal exactly when every one of their five fields
/// matches; a difference in any single field breaks equality.
pub proof fn lemma_descriptor_equality(a: DumbBuffer, b: DumbBuffer)
    ensures
        (a == b) <==> (a.size == b.size && a.length == b.length && a.format == b.format
            && a.pitch == b.pitch && a.handle == b.handle),
{
}

} // verus!
