use vstd::prelude::*;
use vstd::utf8::*;

use crate::errors::{DecodeError, ModelError};
use crate::felt::{be_val, Felt};
use crate::text::{ascii_chars, bytes_to_utf8, decimal_chars, hex_chars, hex_string, render_decimal, str_eq};

verus! {

broadcast use vstd::string::group_string_axioms;

/// The mathematical value of a resolved on-chain value.
pub enum RvView {
    Address(Seq<char>),
    Int(u64),
    Float,
    Text(Seq<char>),
    Bool(bool),
    IntArray(Seq<u64>),
    DateArray,
    Date(i64),
}

/// A raw on-chain value decoded into a typed domain value. Immutable
/// once produced.
#[derive(Debug, PartialEq, Eq)]
pub enum StarknetResolvedValue {
    /// A contract address as `0x`-prefixed 64-digit lowercase hex text.
    Address(String),
    /// A 64-bit unsigned integer.
    Int(u64),
    /// Not implemented by the decoder; never produced by `resolve`.
    Float,
    /// Text decoded from the nonzero bytes of the scalars.
    Text(String),
    /// A flag decoded by comparison with the multiplicative identity.
    Bool(bool),
    /// An ordered list of 64-bit unsigned integers.
    IntArray(Vec<u64>),
    /// Not implemented by the decoder; never produced by `resolve`.
    DateArray,
    /// A Unix timestamp in seconds, within the representable date range.
    Date(i64),
}

impl View for StarknetResolvedValue {
    type V = RvView;

    open spec fn view(&self) -> RvView {
        match self {
            StarknetResolvedValue::Address(s) => RvView::Address(s@),
            StarknetResolvedValue::Int(i) => RvView::Int(*i),
            StarknetResolvedValue::Float => RvView::Float,
            StarknetResolvedValue::Text(s) => RvView::Text(s@),
            StarknetResolvedValue::Bool(b) => RvView::Bool(*b),
            StarknetResolvedValue::IntArray(v) => RvView::IntArray(v@),
            StarknetResolvedValue::DateArray => RvView::DateArray,
            StarknetResolvedValue::Date(d) => RvView::Date(*d),
        }
    }
}

/// Copy a list of integers.
fn copy_u64s(v: &Vec<u64>) -> (r: Vec<u64>)
    ensures
        r@ == v@,
{
    let mut out: Vec<u64> = Vec::new();
    let mut i: usize = 0;
    while i < v.len()
        invariant
            i <= v@.len(),
            out@ =~= v@.take(i as int),
        decreases v@.len() - i,
    {
        out.push(v[i]);
        i = i + 1;
    }
    proof {
        assert(v@.take(v@.len() as int) =~= v@);
    }
    out
}

/// The text a resolved value converts to, when it converts at all.
pub open spec fn as_text(v: RvView) -> Option<Seq<char>> {
    match v {
        RvView::Text(t) => Some(t),
        RvView::Address(a) => Some(a),
        RvView::Int(i) => Some(decimal_chars(i as nat, 0)),
        _ => None,
    }
}

impl StarknetResolvedValue {
    /// A copy with the same value.
    pub fn duplicate(&self) -> (r: Self)
        ensures
            r@ == self@,
    {
        match self {
            StarknetResolvedValue::Address(s) => StarknetResolvedValue::Address(s.clone()),
            StarknetResolvedValue::Int(i) => StarknetResolvedValue::Int(*i),
            StarknetResolvedValue::Float => StarknetResolvedValue::Float,
            StarknetResolvedValue::Text(s) => StarknetResolvedValue::Text(s.clone()),
            StarknetResolvedValue::Bool(b) => StarknetResolvedValue::Bool(*b),
            StarknetResolvedValue::IntArray(v) => StarknetResolvedValue::IntArray(copy_u64s(v)),
            StarknetResolvedValue::DateArray => StarknetResolvedValue::DateArray,
            StarknetResolvedValue::Date(d) => StarknetResolvedValue::Date(*d),
        }
    }

    /// Narrow to text. Integers render in decimal; addresses and text
    /// pass through; every other variant is a `TypeMismatch`.
    pub fn to_text(&self) -> (r: Result<String, ModelError>)
        ensures
            r is Ok <==> as_text(self@) is Some,
            r matches Ok(s) ==> as_text(self@) == Some(s@),
            r matches Err(e) ==> e == ModelError::Decode(DecodeError::TypeMismatch),
    {
        match self {
            StarknetResolvedValue::Text(s) => Ok(s.clone()),
            StarknetResolvedValue::Address(a) => Ok(a.clone()),
            StarknetResolvedValue::Int(i) => Ok(render_decimal(*i as u128, 0)),
            _ => Err(ModelError::Decode(DecodeError::TypeMismatch)),
        }
    }

    /// Narrow to a 64-bit unsigned integer.
    pub fn to_u64(&self) -> (r: Result<u64, ModelError>)
        ensures
            r is Ok <==> self@ is Int,
            r matches Ok(v) ==> self@ == RvView::Int(v),
            r matches Err(e) ==> e == ModelError::Decode(DecodeError::TypeMismatch),
    {
        match self {
            StarknetResolvedValue::Int(i) => Ok(*i),
            _ => Err(ModelError::Decode(DecodeError::TypeMismatch)),
        }
    }

    /// Narrow to a 64-bit signed integer: `Overflow` above `i64::MAX`,
    /// `TypeMismatch` on a wrong variant.
    pub fn to_i64(&self) -> (r: Result<i64, ModelError>)
        ensures
            r is Ok <==> (self@ matches RvView::Int(i) && i <= 0x7fffffffffffffffu64),
            r matches Ok(v) ==> self@ == RvView::Int(v as u64) && v >= 0,
            self@ matches RvView::Int(i) && i > 0x7fffffffffffffffu64 ==> r == Err::<
                i64,
                ModelError,
            >(ModelError::Decode(DecodeError::Overflow)),
            !(self@ is Int) ==> r == Err::<i64, ModelError>(
                ModelError::Decode(DecodeError::TypeMismatch),
            ),
    {
        match self {
            StarknetResolvedValue::Int(i) => {
                if *i <= 0x7fffffffffffffffu64 {
                    Ok(*i as i64)
                } else {
                    Err(ModelError::Decode(DecodeError::Overflow))
                }
            },
            _ => Err(ModelError::Decode(DecodeError::TypeMismatch)),
        }
    }
}

/// The mathematical value of a persistence-layer scalar.
pub enum PvView {
    Text(Seq<char>),
    BigUnsigned(u64),
    Flag(bool),
    UnsignedArray(Seq<u64>),
    Timestamp(i64),
}

/// A plain scalar in the shape the persistence layer stores: the
/// persistence-layer-compatible form of a resolved value.
#[derive(Debug, PartialEq, Eq)]
pub enum PersistenceValue {
    Text(String),
    BigUnsigned(u64),
    Flag(bool),
    UnsignedArray(Vec<u64>),
    Timestamp(i64),
}

impl View for PersistenceValue {
    type V = PvView;

    open spec fn view(&self) -> PvView {
        match self {
            PersistenceValue::Text(s) => PvView::Text(s@),
            PersistenceValue::BigUnsigned(i) => PvView::BigUnsigned(*i),
            PersistenceValue::Flag(b) => PvView::Flag(*b),
            PersistenceValue::UnsignedArray(v) => PvView::UnsignedArray(v@),
            PersistenceValue::Timestamp(d) => PvView::Timestamp(*d),
        }
    }
}

/// The persistence-layer form of a resolved value, when it has one:
/// the unimplemented variants have none.
pub open spec fn as_persistence(v: RvView) -> Option<PvView> {
    match v {
        RvView::Text(t) => Some(PvView::Text(t)),
        RvView::Address(a) => Some(PvView::Text(a)),
        RvView::Int(i) => Some(PvView::BigUnsigned(i)),
        RvView::Bool(b) => Some(PvView::Flag(b)),
        RvView::IntArray(s) => Some(PvView::UnsignedArray(s)),
        RvView::Date(d) => Some(PvView::Timestamp(d)),
        RvView::Float => None,
        RvView::DateArray => None,
    }
}

impl StarknetResolvedValue {
    /// Convert to the scalar shape the persistence layer stores. The
    /// unimplemented variants have no such shape and report
    /// `TypeMismatch`.
    pub fn to_persistence_value(&self) -> (r: Result<PersistenceValue, ModelError>)
        ensures
            r is Ok <==> as_persistence(self@) is Some,
            r matches Ok(p) ==> as_persistence(self@) == Some(p@),
            r matches Err(e) ==> e == ModelError::Decode(DecodeError::TypeMismatch),
    {
        match self {
            StarknetResolvedValue::Text(s) => Ok(PersistenceValue::Text(s.clone())),
            StarknetResolvedValue::Address(a) => Ok(PersistenceValue::Text(a.clone())),
            StarknetResolvedValue::Int(i) => Ok(PersistenceValue::BigUnsigned(*i)),
            StarknetResolvedValue::Bool(b) => Ok(PersistenceValue::Flag(*b)),
            StarknetResolvedValue::IntArray(v) => Ok(
                PersistenceValue::UnsignedArray(copy_u64s(v)),
            ),
            StarknetResolvedValue::Date(d) => Ok(PersistenceValue::Timestamp(*d)),
            StarknetResolvedValue::Float => Err(ModelError::Decode(DecodeError::TypeMismatch)),
            StarknetResolvedValue::DateArray => Err(
                ModelError::Decode(DecodeError::TypeMismatch),
            ),
        }
    }
}

/// The nonzero bytes of a scalar, in order.
pub open spec fn nonzero_bytes(s: Seq<u8>) -> Seq<u8> {
    s.filter(|x: u8| x != 0)
}

/// The text payload of a scalar sequence: the nonzero bytes of every
/// scalar from position `skip` on, concatenated in order.
pub open spec fn string_payload(inner: Seq<Seq<u8>>, skip: int) -> Seq<u8> {
    if inner.len() <= skip {
        Seq::empty()
    } else {
        inner.skip(skip).map_values(|b: Seq<u8>| nonzero_bytes(b)).flatten()
    }
}

/// ASCII text carried in the nonzero bytes of the scalars decodes back
/// to itself: under the string rule, a zero-padded ASCII payload
/// round-trips, character for character.
pub proof fn lemma_ascii_payload_round_trip(inner: Seq<Seq<u8>>, skip: int)
    requires
        forall|i: int|
            0 <= i < string_payload(inner, skip).len() ==> string_payload(inner, skip)[i] < 128,
    ensures
        valid_utf8(string_payload(inner, skip)),
        decode_utf8(string_payload(inner, skip)) == ascii_chars(string_payload(inner, skip)),
{
    crate::text::lemma_ascii_bytes_decode(string_payload(inner, skip));
}

/// Whether every scalar from position `skip` on fits in 64 bits.
pub open spec fn all_fit_u64(inner: Seq<Seq<u8>>, skip: int) -> bool {
    forall|i: int| skip <= i < inner.len() ==> be_val(#[trigger] inner[i]) < 0x10000000000000000
}

/// The 64-bit values of the scalars from position `skip` on.
pub open spec fn u64_values(inner: Seq<Seq<u8>>, skip: int) -> Seq<u64> {
    if inner.len() <= skip {
        Seq::empty()
    } else {
        Seq::new((inner.len() - skip) as nat, |i: int| be_val(inner[i + skip]) as u64)
    }
}

/// Owns one raw contract-call value (an ordered scalar sequence) plus an
/// optional cached resolution. Once a resolution has happened, every
/// later request returns the cached value, whatever tag it passes:
/// the first decode wins.
#[derive(Debug)]
pub struct StarknetValue {
    pub inner: Vec<Felt>,
    pub resolved: Option<StarknetResolvedValue>,
}

impl StarknetValue {
    /// Every held scalar is well formed.
    pub open spec fn wf(&self) -> bool {
        forall|i: int| 0 <= i < self.inner@.len() ==> (#[trigger] self.inner@[i]).wf()
    }

    /// The byte strings of the held scalars.
    pub open spec fn inner_view(&self) -> Seq<Seq<u8>> {
        self.inner@.map_values(|f: Felt| f@)
    }

    /// The cached resolution, if any.
    pub open spec fn cached(&self) -> Option<RvView> {
        match self.resolved {
            Some(v) => Some(v@),
            None => None,
        }
    }

    /// Wrap a freshly fetched raw value, with nothing resolved yet.
    pub fn new(inner: Vec<Felt>) -> (r: Self)
        ensures
            r.inner@ == inner@,
            r.resolved is None,
    {
        StarknetValue { inner, resolved: None }
    }

    /// Wrap an already resolved value, with no raw scalars behind it.
    pub fn from_resolved_value(resolved: StarknetResolvedValue) -> (r: Self)
        ensures
            r.inner@.len() == 0,
            r.cached() == Some(resolved@),
            r.wf(),
    {
        StarknetValue { inner: Vec::new(), resolved: Some(resolved) }
    }
}

/// The mathematical value of a wrapped raw value: its scalar byte
/// strings and its cached resolution.
pub struct SvView {
    pub inner: Seq<Seq<u8>>,
    pub cached: Option<RvView>,
}

impl View for StarknetValue {
    type V = SvView;

    open spec fn view(&self) -> SvView {
        SvView { inner: self.inner_view(), cached: self.cached() }
    }
}

/// Copy a list of scalars.
fn copy_felts(v: &Vec<Felt>) -> (r: Vec<Felt>)
    ensures
        r@.len() == v@.len(),
        forall|i: int| 0 <= i < v@.len() ==> r@[i]@ == (#[trigger] v@[i])@,
{
    let mut out: Vec<Felt> = Vec::new();
    let mut i: usize = 0;
    while i < v.len()
        invariant
            i <= v@.len(),
            out@.len() == i,
            forall|k: int| 0 <= k < i ==> out@[k]@ == (#[trigger] v@[k])@,
        decreases v@.len() - i,
    {
        out.push(v[i].duplicate());
        i = i + 1;
    }
    out
}

impl StarknetValue {
    /// A copy with the same scalars and the same cached resolution.
    pub fn duplicate(&self) -> (r: Self)
        ensures
            r@ == self@,
    {
        let resolved = match &self.resolved {
            Some(v) => Some(v.duplicate()),
            None => None,
        };
        let r = StarknetValue { inner: copy_felts(&self.inner), resolved };
        proof {
            assert(r.inner_view() =~= self.inner_view());
        }
        r
    }
}

/// Outcome of a first `string` or `string_array` resolution.
pub open spec fn string_case(
    pre: StarknetValue,
    post: StarknetValue,
    r: Result<StarknetResolvedValue, ModelError>,
    skip: int,
) -> bool {
    let bs = string_payload(pre.inner_view(), skip);
    if valid_utf8(bs) {
        &&& r matches Ok(v) && v@ == RvView::Text(decode_utf8(bs))
        &&& post.inner_view() == pre.inner_view()
        &&& post.cached() == Some(RvView::Text(decode_utf8(bs)))
    } else {
        &&& r == Err::<StarknetResolvedValue, ModelError>(
            ModelError::Decode(DecodeError::InvalidUtf8),
        )
        &&& post.inner_view() == pre.inner_view()
        &&& post.resolved is None
    }
}

/// Outcome of a first `address` resolution: the last scalar is consumed
/// and rendered as `0x`-prefixed 64-digit lowercase hex.
pub open spec fn address_case(
    pre: StarknetValue,
    post: StarknetValue,
    r: Result<StarknetResolvedValue, ModelError>,
) -> bool {
    if pre.inner_view().len() == 0 {
        &&& r == Err::<StarknetResolvedValue, ModelError>(
            ModelError::Decode(DecodeError::Underflow),
        )
        &&& post.inner_view() == pre.inner_view()
        &&& post.resolved is None
    } else {
        let a = RvView::Address(hex_chars(pre.inner_view().last()));
        &&& r matches Ok(v) && v@ == a
        &&& post.inner_view() == pre.inner_view().drop_last()
        &&& post.cached() == Some(a)
    }
}

/// Outcome of a first `u64` resolution: the last scalar is consumed and
/// narrowed to 64 bits.
pub open spec fn u64_case(
    pre: StarknetValue,
    post: StarknetValue,
    r: Result<StarknetResolvedValue, ModelError>,
) -> bool {
    if pre.inner_view().len() == 0 {
        &&& r == Err::<StarknetResolvedValue, ModelError>(
            ModelError::Decode(DecodeError::Underflow),
        )
        &&& post.inner_view() == pre.inner_view()
        &&& post.resolved is None
    } else if be_val(pre.inner_view().last()) >= 0x10000000000000000 {
        &&& r == Err::<StarknetResolvedValue, ModelError>(
            ModelError::Decode(DecodeError::Overflow),
        )
        &&& post.inner_view() == pre.inner_view()
        &&& post.resolved is None
    } else {
        let v0 = RvView::Int(be_val(pre.inner_view().last()) as u64);
        &&& r matches Ok(v) && v@ == v0
        &&& post.inner_view() == pre.inner_view().drop_last()
        &&& post.cached() == Some(v0)
    }
}

/// Outcome of a first `u256` resolution: only the first scalar is read
/// (not consumed) and narrowed to 64 bits — the documented truncation.
pub open spec fn u256_case(
    pre: StarknetValue,
    post: StarknetValue,
    r: Result<StarknetResolvedValue, ModelError>,
) -> bool {
    if pre.inner_view().len() == 0 {
        &&& r == Err::<StarknetResolvedValue, ModelError>(
            ModelError::Decode(DecodeError::Underflow),
        )
        &&& post.inner_view() == pre.inner_view()
        &&& post.resolved is None
    } else if be_val(pre.inner_view().first()) >= 0x10000000000000000 {
        &&& r == Err::<StarknetResolvedValue, ModelError>(
            ModelError::Decode(DecodeError::Overflow),
        )
        &&& post.inner_view() == pre.inner_view()
        &&& post.resolved is None
    } else {
        let v0 = RvView::Int(be_val(pre.inner_view().first()) as u64);
        &&& r matches Ok(v) && v@ == v0
        &&& post.inner_view() == pre.inner_view()
        &&& post.cached() == Some(v0)
    }
}

/// Outcome of a first `u64_array` resolution: every scalar after the
/// reserved first slot is narrowed to 64 bits, in order.
pub open spec fn u64_array_case(
    pre: StarknetValue,
    post: StarknetValue,
    r: Result<StarknetResolvedValue, ModelError>,
) -> bool {
    if all_fit_u64(pre.inner_view(), 1) {
        let v0 = RvView::IntArray(u64_values(pre.inner_view(), 1));
        &&& r matches Ok(v) && v@ == v0
        &&& post.inner_view() == pre.inner_view()
        &&& post.cached() == Some(v0)
    } else {
        &&& r == Err::<StarknetResolvedValue, ModelError>(
            ModelError::Decode(DecodeError::Overflow),
        )
        &&& post.inner_view() == pre.inner_view()
        &&& post.resolved is None
    }
}

/// Outcome of a first `bool` resolution: the last scalar is consumed;
/// the result is true exactly when it equals the multiplicative
/// identity.
pub open spec fn bool_case(
    pre: StarknetValue,
    post: StarknetValue,
    r: Result<StarknetResolvedValue, ModelError>,
) -> bool {
    if pre.inner_view().len() == 0 {
        &&& r == Err::<StarknetResolvedValue, ModelError>(
            ModelError::Decode(DecodeError::Underflow),
        )
        &&& post.inner_view() == pre.inner_view()
        &&& post.resolved is None
    } else {
        let v0 = RvView::Bool(be_val(pre.inner_view().last()) == 1);
        &&& r matches Ok(v) && v@ == v0
        &&& post.inner_view() == pre.inner_view().drop_last()
        &&& post.cached() == Some(v0)
    }
}

/// Relies on `time::OffsetDateTime::from_unix_timestamp`: whether the
/// timestamp lies in the representable date range. The answer depends
/// on the timestamp alone.
pub uninterp spec fn unix_timestamp_in_range(secs: i64) -> bool;

/// Relies on `time::OffsetDateTime::from_unix_timestamp` to decide
/// whether a timestamp is representable as a date.
#[verifier::external_body]
fn check_unix_timestamp(secs: i64) -> (r: bool)
    ensures
        r == unix_timestamp_in_range(secs),
{
    time::OffsetDateTime::from_unix_timestamp(secs).is_ok()
}

/// The type tags the resolver implements.
pub open spec fn tag_known(tag: Seq<char>) -> bool {
    ||| tag == "string"@
    ||| tag == "string_array"@
    ||| tag == "address"@
    ||| tag == "u64"@
    ||| tag == "u256"@
    ||| tag == "u64_array"@
    ||| tag == "bool"@
    ||| tag == "datetime"@
}

impl StarknetValue {
    /// Decode the scalars as text: for each scalar from `skip` on, keep
    /// its nonzero bytes, concatenate, and validate as UTF-8.
    fn resolve_string(&mut self, skip: usize) -> (r: Result<StarknetResolvedValue, ModelError>)
        requires
            old(self).wf(),
            old(self).resolved is None,
        ensures
            final(self).wf(),
            string_case(*old(self), *final(self), r, skip as int),
    {
        let ghost iv = self.inner_view();
        let mut bytes: Vec<u8> = Vec::new();
        let n: usize = self.inner.len();
        let start: usize = if skip > n {
            n
        } else {
            skip
        };
        let mut i: usize = start;
        proof {
            assert(iv.subrange(start as int, start as int).map_values(
                |b: Seq<u8>| nonzero_bytes(b),
            ).flatten() =~= Seq::<u8>::empty());
        }
        while i < n
            invariant
                self.wf(),
                n == self.inner@.len(),
                iv == self.inner_view(),
                start <= i <= n,
                bytes@ == iv.subrange(start as int, i as int).map_values(
                    |b: Seq<u8>| nonzero_bytes(b),
                ).flatten(),
            decreases n - i,
        {
            let ghost fb = self.inner@[i as int]@;
            let ghost prefix = bytes@;
            let mut j: usize = 0;
            proof {
                reveal(Seq::filter);
                assert(fb.take(0) =~= Seq::<u8>::empty());
                assert(nonzero_bytes(fb.take(0)) =~= Seq::<u8>::empty());
            }
            while j < self.inner[i].bytes.len()
                invariant
                    self.wf(),
                    n == self.inner@.len(),
                    iv == self.inner_view(),
                    i < n,
                    fb == self.inner@[i as int]@,
                    j <= fb.len(),
                    bytes@ == prefix + nonzero_bytes(fb.take(j as int)),
                decreases fb.len() - j,
            {
                let b: u8 = self.inner[i].bytes[j];
                proof {
                    reveal(Seq::filter);
                    assert(fb.take(j + 1).drop_last() =~= fb.take(j as int));
                    assert(fb.take(j + 1).last() == fb[j as int]);
                }
                if b != 0 {
                    bytes.push(b);
                }
                j = j + 1;
            }
            proof {
                assert(fb.take(fb.len() as int) =~= fb);
                let mapped = iv.subrange(start as int, i as int).map_values(
                    |b: Seq<u8>| nonzero_bytes(b),
                );
                assert(iv.subrange(start as int, i + 1).map_values(
                    |b: Seq<u8>| nonzero_bytes(b),
                ) =~= mapped.push(nonzero_bytes(fb)));
                mapped.lemma_flatten_push(nonzero_bytes(fb));
            }
            i = i + 1;
        }
        proof {
            if iv.len() <= skip {
                assert(iv.subrange(start as int, n as int) =~= Seq::<Seq<u8>>::empty());
                assert(iv.subrange(start as int, n as int).map_values(
                    |b: Seq<u8>| nonzero_bytes(b),
                ).flatten() =~= Seq::<u8>::empty());
            } else {
                assert(iv.subrange(start as int, n as int) =~= iv.skip(skip as int));
            }
            assert(bytes@ == string_payload(iv, skip as int));
        }
        match bytes_to_utf8(bytes) {
            Ok(s) => {
                let v = StarknetResolvedValue::Text(s);
                let c = v.duplicate();
                self.resolved = Some(v);
                Ok(c)
            },
            Err(e) => Err(ModelError::Decode(e)),
        }
    }

    /// Decode the last scalar as a `0x`-prefixed hex address, consuming
    /// it.
    fn resolve_address(&mut self) -> (r: Result<StarknetResolvedValue, ModelError>)
        requires
            old(self).wf(),
            old(self).resolved is None,
        ensures
            final(self).wf(),
            address_case(*old(self), *final(self), r),
    {
        if self.inner.len() == 0 {
            return Err(ModelError::Decode(DecodeError::Underflow));
        }
        let f = self.inner.pop().unwrap();
        let s = hex_string(&f.bytes);
        proof {
            assert(self.inner_view() =~= old(self).inner_view().drop_last());
            assert(f@ == old(self).inner_view().last());
        }
        let v = StarknetResolvedValue::Address(s);
        let c = v.duplicate();
        self.resolved = Some(v);
        Ok(c)
    }

    /// Decode the last scalar as a 64-bit integer, consuming it.
    fn resolve_u64(&mut self) -> (r: Result<StarknetResolvedValue, ModelError>)
        requires
            old(self).wf(),
            old(self).resolved is None,
        ensures
            final(self).wf(),
            u64_case(*old(self), *final(self), r),
    {
        if self.inner.len() == 0 {
            return Err(ModelError::Decode(DecodeError::Underflow));
        }
        let val = match self.inner[self.inner.len() - 1].to_u64() {
            Ok(v) => v,
            Err(e) => {
                return Err(ModelError::Decode(e));
            },
        };
        self.inner.pop();
        proof {
            assert(self.inner_view() =~= old(self).inner_view().drop_last());
        }
        let v = StarknetResolvedValue::Int(val);
        let c = v.duplicate();
        self.resolved = Some(v);
        Ok(c)
    }

    /// Decode the first scalar as a 64-bit integer, reading it in place.
    fn resolve_u256(&mut self) -> (r: Result<StarknetResolvedValue, ModelError>)
        requires
            old(self).wf(),
            old(self).resolved is None,
        ensures
            final(self).wf(),
            u256_case(*old(self), *final(self), r),
    {
        if self.inner.len() == 0 {
            return Err(ModelError::Decode(DecodeError::Underflow));
        }
        let val = match self.inner[0].to_u64() {
            Ok(v) => v,
            Err(e) => {
                return Err(ModelError::Decode(e));
            },
        };
        let v = StarknetResolvedValue::Int(val);
        let c = v.duplicate();
        self.resolved = Some(v);
        Ok(c)
    }

    /// Decode every scalar after the reserved first slot as a 64-bit
    /// integer, in order.
    fn resolve_u64_array(&mut self) -> (r: Result<StarknetResolvedValue, ModelError>)
        requires
            old(self).wf(),
            old(self).resolved is None,
        ensures
            final(self).wf(),
            u64_array_case(*old(self), *final(self), r),
    {
        let ghost iv = self.inner_view();
        let mut vals: Vec<u64> = Vec::new();
        let mut i: usize = 1;
        while i < self.inner.len()
            invariant
                self.wf(),
                self.resolved is None,
                iv == self.inner_view(),
                1 <= i,
                i <= self.inner@.len() || i == 1,
                forall|k: int| 1 <= k < i ==> be_val(#[trigger] iv[k]) < 0x10000000000000000,
                vals@ =~= Seq::new((i - 1) as nat, |k: int| be_val(iv[k + 1]) as u64),
            decreases self.inner@.len() - i,
        {
            let val = match self.inner[i].to_u64() {
                Ok(v) => v,
                Err(e) => {
                    proof {
                        assert(be_val(iv[i as int]) >= 0x10000000000000000);
                        assert(!all_fit_u64(iv, 1));
                    }
                    return Err(ModelError::Decode(e));
                },
            };
            vals.push(val);
            proof {
                assert(vals@ =~= Seq::new(i as nat, |k: int| be_val(iv[k + 1]) as u64));
            }
            i = i + 1;
        }
        proof {
            assert(vals@ =~= u64_values(iv, 1));
        }
        let v = StarknetResolvedValue::IntArray(vals);
        let c = v.duplicate();
        self.resolved = Some(v);
        Ok(c)
    }

    /// Decode the last scalar as a flag, consuming it: true exactly for
    /// the multiplicative identity.
    fn resolve_bool(&mut self) -> (r: Result<StarknetResolvedValue, ModelError>)
        requires
            old(self).wf(),
            old(self).resolved is None,
        ensures
            final(self).wf(),
            bool_case(*old(self), *final(self), r),
    {
        if self.inner.len() == 0 {
            return Err(ModelError::Decode(DecodeError::Underflow));
        }
        let flag = self.inner[self.inner.len() - 1].is_one();
        self.inner.pop();
        proof {
            assert(self.inner_view() =~= old(self).inner_view().drop_last());
        }
        let v = StarknetResolvedValue::Bool(flag);
        let c = v.duplicate();
        self.resolved = Some(v);
        Ok(c)
    }

    /// Decode the last scalar as a Unix timestamp, consuming it on
    /// success.
    fn resolve_datetime(&mut self) -> (r: Result<StarknetResolvedValue, ModelError>)
        requires
            old(self).wf(),
            old(self).resolved is None,
        ensures
            final(self).wf(),
            datetime_case(*old(self), *final(self), r),
    {
        if self.inner.len() == 0 {
            return Err(ModelError::Decode(DecodeError::Underflow));
        }
        let val = match self.inner[self.inner.len() - 1].to_u64() {
            Ok(v) => v,
            Err(e) => {
                return Err(ModelError::Decode(e));
            },
        };
        let ts: i64 = #[verifier::truncate] (val as i64);
        if !check_unix_timestamp(ts) {
            return Err(ModelError::Decode(DecodeError::TimestampOutOfRange));
        }
        self.inner.pop();
        proof {
            assert(self.inner_view() =~= old(self).inner_view().drop_last());
        }
        let v = StarknetResolvedValue::Date(ts);
        let c = v.duplicate();
        self.resolved = Some(v);
        Ok(c)
    }

    /// Resolve this raw value into a typed value according to the
    /// requested type tag. A cached resolution is returned as it is,
    /// whatever tag is passed; a first resolution decodes by tag,
    /// caches the result, and reports every malformed input as a typed
    /// error.
    pub fn resolve(&mut self, required_type: &str) -> (r: Result<
        StarknetResolvedValue,
        ModelError,
    >)
        requires
            old(self).wf(),
        ensures
            final(self).wf(),
            old(self).resolved is Some ==> (r matches Ok(v) && Some(v@) == old(self).cached()
                && final(self).inner_view() == old(self).inner_view() && final(self).cached()
                == old(self).cached()),
            old(self).resolved is None ==> {
                let tag = required_type@;
                &&& (tag == "string"@ ==> string_case(*old(self), *final(self), r, 0))
                &&& (tag == "string_array"@ ==> string_case(*old(self), *final(self), r, 1))
                &&& (tag == "address"@ ==> address_case(*old(self), *final(self), r))
                &&& (tag == "u64"@ ==> u64_case(*old(self), *final(self), r))
                &&& (tag == "u256"@ ==> u256_case(*old(self), *final(self), r))
                &&& (tag == "u64_array"@ ==> u64_array_case(*old(self), *final(self), r))
                &&& (tag == "bool"@ ==> bool_case(*old(self), *final(self), r))
                &&& (tag == "datetime"@ ==> datetime_case(*old(self), *final(self), r))
                &&& (!tag_known(tag) ==> r == Err::<StarknetResolvedValue, ModelError>(
                    ModelError::Decode(DecodeError::UnsupportedTag),
                ) && final(self).inner_view() == old(self).inner_view()
                    && final(self).resolved is None)
            },
    {
        proof {
            reveal_strlit("string");
            reveal_strlit("string_array");
            reveal_strlit("address");
            reveal_strlit("u64");
            reveal_strlit("u256");
            reveal_strlit("u64_array");
            reveal_strlit("bool");
            reveal_strlit("datetime");
            assert("string"@.len() == 6);
            assert("string_array"@.len() == 12);
            assert("address"@.len() == 7);
            assert("u64"@.len() == 3);
            assert("u256"@.len() == 4);
            assert("u64_array"@.len() == 9);
            assert("bool"@.len() == 4);
            assert("datetime"@.len() == 8);
            assert("u256"@[0] == 'u');
            assert("bool"@[0] == 'b');
            assert("u256"@ != "bool"@);
        }
        if let Some(v) = &self.resolved {
            return Ok(v.duplicate());
        }
        if str_eq(required_type, "string") {
            self.resolve_string(0)
        } else if str_eq(required_type, "string_array") {
            self.resolve_string(1)
        } else if str_eq(required_type, "address") {
            self.resolve_address()
        } else if str_eq(required_type, "u64") {
            self.resolve_u64()
        } else if str_eq(required_type, "u256") {
            self.resolve_u256()
        } else if str_eq(required_type, "u64_array") {
            self.resolve_u64_array()
        } else if str_eq(required_type, "bool") {
            self.resolve_bool()
        } else if str_eq(required_type, "datetime") {
            self.resolve_datetime()
        } else {
            Err(ModelError::Decode(DecodeError::UnsupportedTag))
        }
    }
}

/// Outcome of a first `datetime` resolution: the last scalar is
/// consumed, narrowed to 64 bits and read as Unix seconds.
pub open spec fn datetime_case(
    pre: StarknetValue,
    post: StarknetValue,
    r: Result<StarknetResolvedValue, ModelError>,
) -> bool {
    if pre.inner_view().len() == 0 {
        &&& r == Err::<StarknetResolvedValue, ModelError>(
            ModelError::Decode(DecodeError::Underflow),
        )
        &&& post.inner_view() == pre.inner_view()
        &&& post.resolved is None
    } else if be_val(pre.inner_view().last()) >= 0x10000000000000000 {
        &&& r == Err::<StarknetResolvedValue, ModelError>(
            ModelError::Decode(DecodeError::Overflow),
        )
        &&& post.inner_view() == pre.inner_view()
        &&& post.resolved is None
    } else {
        let ts = (be_val(pre.inner_view().last()) as u64) as i64;
        if unix_timestamp_in_range(ts) {
            let v0 = RvView::Date(ts);
            &&& r matches Ok(v) && v@ == v0
            &&& post.inner_view() == pre.inner_view().drop_last()
            &&& post.cached() == Some(v0)
        } else {
            &&& r == Err::<StarknetResolvedValue, ModelError>(
                ModelError::Decode(DecodeError::TimestampOutOfRange),
            )
            &&& post.inner_view() == pre.inner_view()
            &&& post.resolved is None
        }
    }
}

} // verus!
