//! Type-level helpers: dispatch-size normalization, index-format tags, and
//! the type-equality witness that guards dispatching.

use vstd::prelude::*;

verus! {

/// Inputs that normalize to a three-dimensional dispatch size.
///
/// A bare scalar `n` normalizes to `[n, 1, 1]`, a pair `[a, b]` to
/// `[a, b, 1]`, and a triple `[a, b, c]` stays `[a, b, c]`: omitted trailing
/// dimensions are filled with 1.
pub trait DispatchDimensions {
    /// The normalized triple, as a sequence of exactly three extents.
    spec fn dispatch_dimensions_spec(&self) -> Seq<u32>;

    /// Normalize to a three-element dispatch size.
    fn dispatch_dimensions(&self) -> (r: [u32; 3])
        ensures
            r@ == self.dispatch_dimensions_spec(),
    ;
}

impl DispatchDimensions for [u32; 1] {
    open spec fn dispatch_dimensions_spec(&self) -> Seq<u32> {
        seq![self@[0], 1u32, 1u32]
    }

    fn dispatch_dimensions(&self) -> (r: [u32; 3]) {
        let r = [self[0], 1, 1];
        proof {
            assert(r@ =~= self.dispatch_dimensions_spec());
        }
        r
    }
}

impl DispatchDimensions for [u32; 2] {
    open spec fn dispatch_dimensions_spec(&self) -> Seq<u32> {
        seq![self@[0], self@[1], 1u32]
    }

    fn dispatch_dimensions(&self) -> (r: [u32; 3]) {
        let r = [self[0], self[1], 1];
        proof {
            assert(r@ =~= self.dispatch_dimensions_spec());
        }
        r
    }
}

impl DispatchDimensions for [u32; 3] {
    open spec fn dispatch_dimensions_spec(&self) -> Seq<u32> {
        self@
    }

    fn dispatch_dimensions(&self) -> (r: [u32; 3]) {
        *self
    }
}

impl DispatchDimensions for u32 {
    open spec fn dispatch_dimensions_spec(&self) -> Seq<u32> {
        seq![*self, 1u32, 1u32]
    }

    fn dispatch_dimensions(&self) -> (r: [u32; 3]) {
        let r = [*self, 1, 1];
        proof {
            assert(r@ =~= self.dispatch_dimensions_spec());
        }
        r
    }
}

/// The wire-level index-format enumerator recorded when an index buffer is
/// bound. It is always derived from the buffer's declared element type, never
/// supplied separately by the caller.
#[derive(Clone, Copy, Debug, PartialEq, Eq, Structural)]
pub enum IndexFormat {
    /// No vertex indexing.
    NoIndex,
    /// 8-bit indices.
    Uint8,
    /// 16-bit indices.
    Uint16,
    /// 32-bit indices.
    Uint32,
}

/// Element-width types that carry an index-format tag: a closed mapping from
/// the element type to the wire-level format enumerator.
pub trait IndexType {
    /// The format tag of this element width.
    spec fn index_format_spec() -> IndexFormat;

    /// The format tag of this element width.
    fn index_format() -> (r: IndexFormat)
        ensures
            r == Self::index_format_spec(),
    ;
}

impl IndexType for () {
    open spec fn index_format_spec() -> IndexFormat {
        IndexFormat::NoIndex
    }

    fn index_format() -> (r: IndexFormat) {
        IndexFormat::NoIndex
    }
}

impl IndexType for u8 {
    open spec fn index_format_spec() -> IndexFormat {
        IndexFormat::Uint8
    }

    fn index_format() -> (r: IndexFormat) {
        IndexFormat::Uint8
    }
}

impl IndexType for u16 {
    open spec fn index_format_spec() -> IndexFormat {
        IndexFormat::Uint16
    }

    fn index_format() -> (r: IndexFormat) {
        IndexFormat::Uint16
    }
}

impl IndexType for u32 {
    open spec fn index_format_spec() -> IndexFormat {
        IndexFormat::Uint32
    }

    fn index_format() -> (r: IndexFormat) {
        IndexFormat::Uint32
    }
}

/// Element widths usable for vertex indexing.
pub trait VertexIndex: IndexType {

}

impl VertexIndex for u8 {

}

impl VertexIndex for u16 {

}

impl VertexIndex for u32 {

}

/// Type-equality witness: `A: Is<B>` holds exactly when `A` and `B` are the
/// same type. The sealed supertrait keeps outside impls from widening it.
pub trait Is<T>: crate::sealed::Is<Equal = T> {

}

impl<T> Is<T> for T {

}

} // verus!
