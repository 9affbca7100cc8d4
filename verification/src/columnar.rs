//! The columnar backend: arrow's primitive builders and finished arrays,
//! one pair of single-owner types per native width, held behind trusted
//! wrappers.
//!
//! A builder is modelled as the sequence of entries appended so far, one
//! `Option` per logical slot: `Some(v)` for a valid value, `None` for a null
//! slot. A finished array is modelled the same way; its underlying value
//! buffer holds the value at valid slots and zero at null slots.

use vstd::prelude::*;

use crate::native::Native;
use crate::native::buffer_of;
use crate::native::count_absent;

use arrow::array::Array;
use arrow::array::PrimitiveBuilder;

verus! {

/// A native width whose values can be accumulated into a columnar builder
/// and finished into an immutable columnar array.
pub trait Columnar: Native {
    /// The growable accumulator for this width.
    type Builder;

    /// The finished immutable array for this width.
    type Array;

    /// The entries appended to the builder so far, in order: `Some(v)` for a
    /// valid value, `None` for a null slot.
    spec fn builder_entries(b: Self::Builder) -> Seq<Option<Self>>;

    /// The logical entries of a finished array, in order: `Some(v)` where the
    /// validity bit is set, `None` where the slot is null.
    spec fn array_entries(a: Self::Array) -> Seq<Option<Self>>;

    /// Allocates a fresh, empty builder. The capacity is a pre-allocation
    /// hint only and never shows in the builder's entries.
    fn builder_with_capacity(capacity: usize) -> (b: Self::Builder)
        ensures
            Self::builder_entries(b) == Seq::<Option<Self>>::empty(),
    ;

    /// Appends one valid value after the existing entries.
    fn builder_append_value(b: &mut Self::Builder, v: Self)
        ensures
            Self::builder_entries(*final(b)) == Self::builder_entries(*old(b)).push(Some(v)),
    ;

    /// Appends one null slot after the existing entries.
    fn builder_append_null(b: &mut Self::Builder)
        ensures
            Self::builder_entries(*final(b)) == Self::builder_entries(*old(b)).push(None),
    ;

    /// Consumes the builder and produces the finished array holding exactly
    /// the entries appended so far.
    fn builder_finish(b: Self::Builder) -> (a: Self::Array)
        ensures
            Self::array_entries(a) == Self::builder_entries(b),
    ;
}

/// A growable accumulator of 8-bit entries. Verus never looks inside:
/// arrow's builder carries a generic parameter bound by an arrow trait, so
/// it cannot be declared to the verifier directly and is held opaquely here.
#[verifier::external_body]
pub struct BuilderI8 {
    inner: PrimitiveBuilder<arrow::datatypes::Int8Type>,
}

/// An immutable columnar array of 8-bit values with a validity bitmap,
/// produced exactly once from a `BuilderI8`. Held opaquely for the same
/// reason as the builder.
#[verifier::external_body]
pub struct ArrayI8 {
    inner: arrow::array::PrimitiveArray<arrow::datatypes::Int8Type>,
}

pub uninterp spec fn builder8_entries(b: BuilderI8) -> Seq<Option<i8>>;

pub uninterp spec fn array8_entries(a: ArrayI8) -> Seq<Option<i8>>;

/// Relies on arrow's `PrimitiveBuilder::with_capacity`: a fresh builder holds
/// no entries; the capacity only pre-sizes its buffers.
#[verifier::external_body]
fn builder8_with_capacity(capacity: usize) -> (b: BuilderI8)
    ensures
        builder8_entries(b) == Seq::<Option<i8>>::empty(),
{
    BuilderI8 { inner: PrimitiveBuilder::with_capacity(capacity) }
}

/// Relies on arrow's `PrimitiveBuilder::append_value`: appends one valid slot
/// holding `v` after the existing entries.
#[verifier::external_body]
fn builder8_append_value(b: &mut BuilderI8, v: i8)
    ensures
        builder8_entries(*final(b)) == builder8_entries(*old(b)).push(Some(v)),
{
    b.inner.append_value(v)
}

/// Relies on arrow's `PrimitiveBuilder::append_null`: appends one null slot
/// after the existing entries.
#[verifier::external_body]
fn builder8_append_null(b: &mut BuilderI8)
    ensures
        builder8_entries(*final(b)) == builder8_entries(*old(b)).push(None::<i8>),
{
    b.inner.append_null()
}

/// Relies on arrow's `PrimitiveBuilder::finish`: the finished array has one
/// logical element per appended entry, in order, null exactly where a null
/// was appended.
#[verifier::external_body]
fn builder8_finish(b: BuilderI8) -> (a: ArrayI8)
    ensures
        array8_entries(a) == builder8_entries(b),
{
    let mut b = b;
    ArrayI8 { inner: b.inner.finish() }
}

impl Columnar for i8 {
    type Builder = BuilderI8;

    type Array = ArrayI8;

    open spec fn builder_entries(b: BuilderI8) -> Seq<Option<i8>> {
        builder8_entries(b)
    }

    open spec fn array_entries(a: ArrayI8) -> Seq<Option<i8>> {
        array8_entries(a)
    }

    fn builder_with_capacity(capacity: usize) -> (b: BuilderI8) {
        builder8_with_capacity(capacity)
    }

    fn builder_append_value(b: &mut BuilderI8, v: i8) {
        builder8_append_value(b, v)
    }

    fn builder_append_null(b: &mut BuilderI8) {
        builder8_append_null(b)
    }

    fn builder_finish(b: BuilderI8) -> (a: ArrayI8) {
        builder8_finish(b)
    }
}

impl ArrayI8 {
    /// The number of logical elements, null slots included.
    ///
    /// Relies on arrow's `PrimitiveArray::len`.
    #[verifier::external_body]
    pub fn len(&self) -> (r: usize)
        ensures
            r == array8_entries(*self).len(),
    {
        self.inner.len()
    }

    /// The number of null slots.
    ///
    /// Relies on arrow's `Array::null_count`: the number of unset bits in the
    /// validity bitmap.
    #[verifier::external_body]
    pub fn null_count(&self) -> (r: usize)
        ensures
            r as nat == count_absent(array8_entries(*self)),
    {
        self.inner.null_count()
    }

    /// Relies on arrow's `Array::is_null`: the validity bit at a position
    /// inside the array.
    #[verifier::external_body]
    fn null_bit(&self, i: usize) -> (r: bool)
        requires
            i < array8_entries(*self).len(),
        ensures
            r == (array8_entries(*self)[i as int] is None),
    {
        self.inner.is_null(i)
    }

    /// Whether the slot at position `i` is null: `Some(true)` for a null
    /// slot, `Some(false)` for a valid one, `None` outside the array.
    pub fn null_at(&self, i: usize) -> (r: Option<bool>)
        ensures
            r matches Some(b) ==> i < array8_entries(*self).len() && b == (array8_entries(
                *self,
            )[i as int] is None),
            r is None <==> i >= array8_entries(*self).len(),
    {
        let n: usize = self.len();
        if i < n {
            Some(self.null_bit(i))
        } else {
            None
        }
    }

    /// A copy of the underlying value buffer, null slots included.
    ///
    /// Relies on arrow's `PrimitiveArray::values`, and on every `ArrayI8`
    /// being produced by `PrimitiveBuilder`, whose `append_null` stores the
    /// native default, zero, in the value buffer.
    #[verifier::external_body]
    pub fn values(&self) -> (r: Vec<i8>)
        ensures
            r@ == buffer_of(array8_entries(*self)),
    {
        self.inner.values().to_vec()
    }
}

/// A growable accumulator of 16-bit entries. Verus never looks inside:
/// arrow's builder carries a generic parameter bound by an arrow trait, so
/// it cannot be declared to the verifier directly and is held opaquely here.
#[verifier::external_body]
pub struct BuilderI16 {
    inner: PrimitiveBuilder<arrow::datatypes::Int16Type>,
}

/// An immutable columnar array of 16-bit values with a validity bitmap,
/// produced exactly once from a `BuilderI16`. Held opaquely for the same
/// reason as the builder.
#[verifier::external_body]
pub struct ArrayI16 {
    inner: arrow::array::PrimitiveArray<arrow::datatypes::Int16Type>,
}

pub uninterp spec fn builder16_entries(b: BuilderI16) -> Seq<Option<i16>>;

pub uninterp spec fn array16_entries(a: ArrayI16) -> Seq<Option<i16>>;

/// Relies on arrow's `PrimitiveBuilder::with_capacity`: a fresh builder holds
/// no entries; the capacity only pre-sizes its buffers.
#[verifier::external_body]
fn builder16_with_capacity(capacity: usize) -> (b: BuilderI16)
    ensures
        builder16_entries(b) == Seq::<Option<i16>>::empty(),
{
    BuilderI16 { inner: PrimitiveBuilder::with_capacity(capacity) }
}

/// Relies on arrow's `PrimitiveBuilder::append_value`: appends one valid slot
/// holding `v` after the existing entries.
#[verifier::external_body]
fn builder16_append_value(b: &mut BuilderI16, v: i16)
    ensures
        builder16_entries(*final(b)) == builder16_entries(*old(b)).push(Some(v)),
{
    b.inner.append_value(v)
}

/// Relies on arrow's `PrimitiveBuilder::append_null`: appends one null slot
/// after the existing entries.
#[verifier::external_body]
fn builder16_append_null(b: &mut BuilderI16)
    ensures
        builder16_entries(*final(b)) == builder16_entries(*old(b)).push(None::<i16>),
{
    b.inner.append_null()
}

/// Relies on arrow's `PrimitiveBuilder::finish`: the finished array has one
/// logical element per appended entry, in order, null exactly where a null
/// was appended.
#[verifier::external_body]
fn builder16_finish(b: BuilderI16) -> (a: ArrayI16)
    ensures
        array16_entries(a) == builder16_entries(b),
{
    let mut b = b;
    ArrayI16 { inner: b.inner.finish() }
}

impl Columnar for i16 {
    type Builder = BuilderI16;

    type Array = ArrayI16;

    open spec fn builder_entries(b: BuilderI16) -> Seq<Option<i16>> {
        builder16_entries(b)
    }

    open spec fn array_entries(a: ArrayI16) -> Seq<Option<i16>> {
        array16_entries(a)
    }

    fn builder_with_capacity(capacity: usize) -> (b: BuilderI16) {
        builder16_with_capacity(capacity)
    }

    fn builder_append_value(b: &mut BuilderI16, v: i16) {
        builder16_append_value(b, v)
    }

    fn builder_append_null(b: &mut BuilderI16) {
        builder16_append_null(b)
    }

    fn builder_finish(b: BuilderI16) -> (a: ArrayI16) {
        builder16_finish(b)
    }
}

impl ArrayI16 {
    /// The number of logical elements, null slots included.
    ///
    /// Relies on arrow's `PrimitiveArray::len`.
    #[verifier::external_body]
    pub fn len(&self) -> (r: usize)
        ensures
            r == array16_entries(*self).len(),
    {
        self.inner.len()
    }

    /// The number of null slots.
    ///
    /// Relies on arrow's `Array::null_count`: the number of unset bits in the
    /// validity bitmap.
    #[verifier::external_body]
    pub fn null_count(&self) -> (r: usize)
        ensures
            r as nat == count_absent(array16_entries(*self)),
    {
        self.inner.null_count()
    }

    /// Relies on arrow's `Array::is_null`: the validity bit at a position
    /// inside the array.
    #[verifier::external_body]
    fn null_bit(&self, i: usize) -> (r: bool)
        requires
            i < array16_entries(*self).len(),
        ensures
            r == (array16_entries(*self)[i as int] is None),
    {
        self.inner.is_null(i)
    }

    /// Whether the slot at position `i` is null: `Some(true)` for a null
    /// slot, `Some(false)` for a valid one, `None` outside the array.
    pub fn null_at(&self, i: usize) -> (r: Option<bool>)
        ensures
            r matches Some(b) ==> i < array16_entries(*self).len() && b == (array16_entries(
                *self,
            )[i as int] is None),
            r is None <==> i >= array16_entries(*self).len(),
    {
        let n: usize = self.len();
        if i < n {
            Some(self.null_bit(i))
        } else {
            None
        }
    }

    /// A copy of the underlying value buffer, null slots included.
    ///
    /// Relies on arrow's `PrimitiveArray::values`, and on every `ArrayI16`
    /// being produced by `PrimitiveBuilder`, whose `append_null` stores the
    /// native default, zero, in the value buffer.
    #[verifier::external_body]
    pub fn values(&self) -> (r: Vec<i16>)
        ensures
            r@ == buffer_of(array16_entries(*self)),
    {
        self.inner.values().to_vec()
    }
}

/// A growable accumulator of 32-bit entries. Verus never looks inside:
/// arrow's builder carries a generic parameter bound by an arrow trait, so
/// it cannot be declared to the verifier directly and is held opaquely here.
#[verifier::external_body]
pub struct BuilderI32 {
    inner: PrimitiveBuilder<arrow::datatypes::Int32Type>,
}

/// An immutable columnar array of 32-bit values with a validity bitmap,
/// produced exactly once from a `BuilderI32`. Held opaquely for the same
/// reason as the builder.
#[verifier::external_body]
pub struct ArrayI32 {
    inner: arrow::array::PrimitiveArray<arrow::datatypes::Int32Type>,
}

pub uninterp spec fn builder32_entries(b: BuilderI32) -> Seq<Option<i32>>;

pub uninterp spec fn array32_entries(a: ArrayI32) -> Seq<Option<i32>>;

/// Relies on arrow's `PrimitiveBuilder::with_capacity`: a fresh builder holds
/// no entries; the capacity only pre-sizes its buffers.
#[verifier::external_body]
fn builder32_with_capacity(capacity: usize) -> (b: BuilderI32)
    ensures
        builder32_entries(b) == Seq::<Option<i32>>::empty(),
{
    BuilderI32 { inner: PrimitiveBuilder::with_capacity(capacity) }
}

/// Relies on arrow's `PrimitiveBuilder::append_value`: appends one valid slot
/// holding `v` after the existing entries.
#[verifier::external_body]
fn builder32_append_value(b: &mut BuilderI32, v: i32)
    ensures
        builder32_entries(*final(b)) == builder32_entries(*old(b)).push(Some(v)),
{
    b.inner.append_value(v)
}

/// Relies on arrow's `PrimitiveBuilder::append_null`: appends one null slot
/// after the existing entries.
#[verifier::external_body]
fn builder32_append_null(b: &mut BuilderI32)
    ensures
        builder32_entries(*final(b)) == builder32_entries(*old(b)).push(None::<i32>),
{
    b.inner.append_null()
}

/// Relies on arrow's `PrimitiveBuilder::finish`: the finished array has one
/// logical element per appended entry, in order, null exactly where a null
/// was appended.
#[verifier::external_body]
fn builder32_finish(b: BuilderI32) -> (a: ArrayI32)
    ensures
        array32_entries(a) == builder32_entries(b),
{
    let mut b = b;
    ArrayI32 { inner: b.inner.finish() }
}

impl Columnar for i32 {
    type Builder = BuilderI32;

    type Array = ArrayI32;

    open spec fn builder_entries(b: BuilderI32) -> Seq<Option<i32>> {
        builder32_entries(b)
    }

    open spec fn array_entries(a: ArrayI32) -> Seq<Option<i32>> {
        array32_entries(a)
    }

    fn builder_with_capacity(capacity: usize) -> (b: BuilderI32) {
        builder32_with_capacity(capacity)
    }

    fn builder_append_value(b: &mut BuilderI32, v: i32) {
        builder32_append_value(b, v)
    }

    fn builder_append_null(b: &mut BuilderI32) {
        builder32_append_null(b)
    }

    fn builder_finish(b: BuilderI32) -> (a: ArrayI32) {
        builder32_finish(b)
    }
}

impl ArrayI32 {
    /// The number of logical elements, null slots included.
    ///
    /// Relies on arrow's `PrimitiveArray::len`.
    #[verifier::external_body]
    pub fn len(&self) -> (r: usize)
        ensures
            r == array32_entries(*self).len(),
    {
        self.inner.len()
    }

    /// The number of null slots.
    ///
    /// Relies on arrow's `Array::null_count`: the number of unset bits in the
    /// validity bitmap.
    #[verifier::external_body]
    pub fn null_count(&self) -> (r: usize)
        ensures
            r as nat == count_absent(array32_entries(*self)),
    {
        self.inner.null_count()
    }

    /// Relies on arrow's `Array::is_null`: the validity bit at a position
    /// inside the array.
    #[verifier::external_body]
    fn null_bit(&self, i: usize) -> (r: bool)
        requires
            i < array32_entries(*self).len(),
        ensures
            r == (array32_entries(*self)[i as int] is None),
    {
        self.inner.is_null(i)
    }

    /// Whether the slot at position `i` is null: `Some(true)` for a null
    /// slot, `Some(false)` for a valid one, `None` outside the array.
    pub fn null_at(&self, i: usize) -> (r: Option<bool>)
        ensures
            r matches Some(b) ==> i < array32_entries(*self).len() && b == (array32_entries(
                *self,
            )[i as int] is None),
            r is None <==> i >= array32_entries(*self).len(),
    {
        let n: usize = self.len();
        if i < n {
            Some(self.null_bit(i))
        } else {
            None
        }
    }

    /// A copy of the underlying value buffer, null slots included.
    ///
    /// Relies on arrow's `PrimitiveArray::values`, and on every `ArrayI32`
    /// being produced by `PrimitiveBuilder`, whose `append_null` stores the
    /// native default, zero, in the value buffer.
    #[verifier::external_body]
    pub fn values(&self) -> (r: Vec<i32>)
        ensures
            r@ == buffer_of(array32_entries(*self)),
    {
        self.inner.values().to_vec()
    }
}

/// A growable accumulator of 64-bit entries. Verus never looks inside:
/// arrow's builder carries a generic parameter bound by an arrow trait, so
/// it cannot be declared to the verifier directly and is held opaquely here.
#[verifier::external_body]
pub struct BuilderI64 {
    inner: PrimitiveBuilder<arrow::datatypes::Int64Type>,
}

/// An immutable columnar array of 64-bit values with a validity bitmap,
/// produced exactly once from a `BuilderI64`. Held opaquely for the same
/// reason as the builder.
#[verifier::external_body]
pub struct ArrayI64 {
    inner: arrow::array::PrimitiveArray<arrow::datatypes::Int64Type>,
}

pub uninterp spec fn builder64_entries(b: BuilderI64) -> Seq<Option<i64>>;

pub uninterp spec fn array64_entries(a: ArrayI64) -> Seq<Option<i64>>;

/// Relies on arrow's `PrimitiveBuilder::with_capacity`: a fresh builder holds
/// no entries; the capacity only pre-sizes its buffers.
#[verifier::external_body]
fn builder64_with_capacity(capacity: usize) -> (b: BuilderI64)
    ensures
        builder64_entries(b) == Seq::<Option<i64>>::empty(),
{
    BuilderI64 { inner: PrimitiveBuilder::with_capacity(capacity) }
}

/// Relies on arrow's `PrimitiveBuilder::append_value`: appends one valid slot
/// holding `v` after the existing entries.
#[verifier::external_body]
fn builder64_append_value(b: &mut BuilderI64, v: i64)
    ensures
        builder64_entries(*final(b)) == builder64_entries(*old(b)).push(Some(v)),
{
    b.inner.append_value(v)
}

/// Relies on arrow's `PrimitiveBuilder::append_null`: appends one null slot
/// after the existing entries.
#[verifier::external_body]
fn builder64_append_null(b: &mut BuilderI64)
    ensures
        builder64_entries(*final(b)) == builder64_entries(*old(b)).push(None::<i64>),
{
    b.inner.append_null()
}

/// Relies on arrow's `PrimitiveBuilder::finish`: the finished array has one
/// logical element per appended entry, in order, null exactly where a null
/// was appended.
#[verifier::external_body]
fn builder64_finish(b: BuilderI64) -> (a: ArrayI64)
    ensures
        array64_entries(a) == builder64_entries(b),
{
    let mut b = b;
    ArrayI64 { inner: b.inner.finish() }
}

impl Columnar for i64 {
    type Builder = BuilderI64;

    type Array = ArrayI64;

    open spec fn builder_entries(b: BuilderI64) -> Seq<Option<i64>> {
        builder64_entries(b)
    }

    open spec fn array_entries(a: ArrayI64) -> Seq<Option<i64>> {
        array64_entries(a)
    }

    fn builder_with_capacity(capacity: usize) -> (b: BuilderI64) {
        builder64_with_capacity(capacity)
    }

    fn builder_append_value(b: &mut BuilderI64, v: i64) {
        builder64_append_value(b, v)
    }

    fn builder_append_null(b: &mut BuilderI64) {
        builder64_append_null(b)
    }

    fn builder_finish(b: BuilderI64) -> (a: ArrayI64) {
        builder64_finish(b)
    }
}

impl ArrayI64 {
    /// The number of logical elements, null slots included.
    ///
    /// Relies on arrow's `PrimitiveArray::len`.
    #[verifier::external_body]
    pub fn len(&self) -> (r: usize)
        ensures
            r == array64_entries(*self).len(),
    {
        self.inner.len()
    }

    /// The number of null slots.
    ///
    /// Relies on arrow's `Array::null_count`: the number of unset bits in the
    /// validity bitmap.
    #[verifier::external_body]
    pub fn null_count(&self) -> (r: usize)
        ensures
            r as nat == count_absent(array64_entries(*self)),
    {
        self.inner.null_count()
    }

    /// Relies on arrow's `Array::is_null`: the validity bit at a position
    /// inside the array.
    #[verifier::external_body]
    fn null_bit(&self, i: usize) -> (r: bool)
        requires
            i < array64_entries(*self).len(),
        ensures
            r == (array64_entries(*self)[i as int] is None),
    {
        self.inner.is_null(i)
    }

    /// Whether the slot at position `i` is null: `Some(true)` for a null
    /// slot, `Some(false)` for a valid one, `None` outside the array.
    pub fn null_at(&self, i: usize) -> (r: Option<bool>)
        ensures
            r matches Some(b) ==> i < array64_entries(*self).len() && b == (array64_entries(
                *self,
            )[i as int] is None),
            r is None <==> i >= array64_entries(*self).len(),
    {
        let n: usize = self.len();
        if i < n {
            Some(self.null_bit(i))
        } else {
            None
        }
    }

    /// A copy of the underlying value buffer, null slots included.
    ///
    /// Relies on arrow's `PrimitiveArray::values`, and on every `ArrayI64`
    /// being produced by `PrimitiveBuilder`, whose `append_null` stores the
    /// native default, zero, in the value buffer.
    #[verifier::external_body]
    pub fn values(&self) -> (r: Vec<i64>)
        ensures
            r@ == buffer_of(array64_entries(*self)),
    {
        self.inner.values().to_vec()
    }
}

} // verus!
