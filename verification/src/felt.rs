use vstd::prelude::*;

use crate::errors::DecodeError;

verus! {

/// One fixed-width on-chain scalar (a field element), held as its 32
/// big-endian bytes. The atomic unit of contract-call arguments and
/// return values.
#[derive(Clone, Debug)]
pub struct Felt {
    pub bytes: Vec<u8>,
}

/// The unsigned value of a big-endian byte string.
pub open spec fn be_val(s: Seq<u8>) -> nat
    decreases s.len(),
{
    if s.len() == 0 {
        0
    } else {
        be_val(s.drop_last()) * 256 + (s.last() as nat)
    }
}

/// 256 raised to the power `n`.
pub open spec fn p256(n: nat) -> nat
    decreases n,
{
    if n == 0 {
        1
    } else {
        256 * p256((n - 1) as nat)
    }
}

pub proof fn lemma_p256_mono(a: nat, b: nat)
    requires
        a <= b,
    ensures
        p256(a) <= p256(b),
    decreases b,
{
    if a < b {
        lemma_p256_mono(a, (b - 1) as nat);
    }
}

/// Leading zero bytes do not change the value.
pub proof fn lemma_be_val_zero_prefix(s: Seq<u8>, k: int)
    requires
        0 <= k <= s.len(),
        forall|i: int| 0 <= i < k ==> s[i] == 0,
    ensures
        be_val(s) == be_val(s.skip(k)),
    decreases s.len(),
{
    if s.len() == k {
        if s.len() > 0 {
            lemma_be_val_zero_prefix(s.drop_last(), k - 1);
            assert(s.drop_last().skip(k - 1) =~= s.skip(k - 1).drop_last());
            assert(be_val(s.skip(k)) == 0);
        }
    } else if s.len() > k {
        lemma_be_val_zero_prefix(s.drop_last(), k);
        assert(s.drop_last().skip(k) =~= s.skip(k).drop_last());
        assert(s.skip(k).last() == s.last());
    }
}

/// A nonzero byte at position `i` forces the value up to `256^(len-1-i)`.
pub proof fn lemma_be_val_byte_lower(s: Seq<u8>, i: int)
    requires
        0 <= i < s.len(),
        s[i] != 0,
    ensures
        be_val(s) >= p256((s.len() - 1 - i) as nat),
    decreases s.len(),
{
    if i == s.len() - 1 {
        assert(be_val(s) == be_val(s.drop_last()) * 256 + s.last());
    } else {
        lemma_be_val_byte_lower(s.drop_last(), i);
    }
}

pub proof fn lemma_p256_8()
    ensures
        p256(8) == 0x10000000000000000,
{
    assert(p256(0) == 1);
    assert(p256(1) == 256);
    assert(p256(2) == 0x10000);
    assert(p256(3) == 0x1000000);
    assert(p256(4) == 0x100000000);
    assert(p256(5) == 0x10000000000);
    assert(p256(6) == 0x1000000000000);
    assert(p256(7) == 0x100000000000000);
    assert(p256(8) == 0x10000000000000000);
}

impl View for Felt {
    type V = Seq<u8>;

    open spec fn view(&self) -> Seq<u8> {
        self.bytes@
    }
}

impl Felt {
    /// A scalar is well formed when it holds exactly 32 bytes.
    pub open spec fn wf(&self) -> bool {
        self.bytes@.len() == 32
    }

    /// The unsigned value this scalar stands for.
    pub open spec fn val(&self) -> nat {
        be_val(self.bytes@)
    }

    /// The scalar of a 64-bit value.
    pub fn from_u64(n: u64) -> (f: Felt)
        ensures
            f.wf(),
            f.val() == n as nat,
    {
        let mut b: Vec<u8> = Vec::new();
        let mut i: usize = 0;
        while i < 24
            invariant
                i <= 24,
                b@.len() == i,
                forall|j: int| 0 <= j < i ==> b@[j] == 0,
            decreases 24 - i,
        {
            b.push(0);
            i = i + 1;
        }
        let n1: u64 = n / 256;
        let n2: u64 = n1 / 256;
        let n3: u64 = n2 / 256;
        let n4: u64 = n3 / 256;
        let n5: u64 = n4 / 256;
        let n6: u64 = n5 / 256;
        let n7: u64 = n6 / 256;
        let c0: u8 = (n7 % 256) as u8;
        let c1: u8 = (n6 % 256) as u8;
        let c2: u8 = (n5 % 256) as u8;
        let c3: u8 = (n4 % 256) as u8;
        let c4: u8 = (n3 % 256) as u8;
        let c5: u8 = (n2 % 256) as u8;
        let c6: u8 = (n1 % 256) as u8;
        let c7: u8 = (n % 256) as u8;
        b.push(c0);
        b.push(c1);
        b.push(c2);
        b.push(c3);
        b.push(c4);
        b.push(c5);
        b.push(c6);
        b.push(c7);
        proof {
            let s = b@;
            assert(forall|j: int| 0 <= j < 24 ==> s[j] == 0);
            lemma_be_val_zero_prefix(s, 24);
            let t = s.skip(24);
            assert(t =~= seq![c0, c1, c2, c3, c4, c5, c6, c7]);
            let t1 = seq![c0];
            let t2 = seq![c0, c1];
            let t3 = seq![c0, c1, c2];
            let t4 = seq![c0, c1, c2, c3];
            let t5 = seq![c0, c1, c2, c3, c4];
            let t6 = seq![c0, c1, c2, c3, c4, c5];
            let t7 = seq![c0, c1, c2, c3, c4, c5, c6];
            assert(t1.drop_last() =~= Seq::<u8>::empty());
            assert(be_val(Seq::<u8>::empty()) == 0);
            assert(be_val(t1) == c0);
            assert(t2.drop_last() =~= t1);
            assert(be_val(t2) == be_val(t1) * 256 + c1);
            assert(t3.drop_last() =~= t2);
            assert(be_val(t3) == be_val(t2) * 256 + c2);
            assert(t4.drop_last() =~= t3);
            assert(be_val(t4) == be_val(t3) * 256 + c3);
            assert(t5.drop_last() =~= t4);
            assert(be_val(t5) == be_val(t4) * 256 + c4);
            assert(t6.drop_last() =~= t5);
            assert(be_val(t6) == be_val(t5) * 256 + c5);
            assert(t7.drop_last() =~= t6);
            assert(be_val(t7) == be_val(t6) * 256 + c6);
            assert(t.drop_last() =~= t7);
            assert(be_val(t) == be_val(t7) * 256 + c7);
            assert(n7 < 256);
            assert(be_val(t1) == n7);
            assert(n6 == n7 * 256 + n6 % 256);
            assert(be_val(t2) == n6);
            assert(be_val(t3) == n5);
            assert(be_val(t4) == n4);
            assert(be_val(t5) == n3);
            assert(be_val(t6) == n2);
            assert(be_val(t7) == n1);
            assert(be_val(t) == n);
        }
        Felt { bytes: b }
    }

    /// A copy with the same bytes.
    pub fn duplicate(&self) -> (r: Felt)
        ensures
            r@ == self@,
    {
        let mut b: Vec<u8> = Vec::new();
        let mut i: usize = 0;
        while i < self.bytes.len()
            invariant
                i <= self.bytes@.len(),
                b@ =~= self.bytes@.take(i as int),
            decreases self.bytes@.len() - i,
        {
            b.push(self.bytes[i]);
            i = i + 1;
        }
        proof {
            assert(self.bytes@.take(self.bytes@.len() as int) =~= self.bytes@);
        }
        Felt { bytes: b }
    }

    /// The all-zero scalar.
    pub fn zero() -> (f: Felt)
        ensures
            f.wf(),
            f.val() == 0,
    {
        Felt::from_u64(0)
    }

    /// Narrow this scalar to 64 bits. Succeeds exactly when the value
    /// fits; otherwise reports `Overflow`.
    pub fn to_u64(&self) -> (r: Result<u64, DecodeError>)
        requires
            self.wf(),
        ensures
            r is Ok <==> self.val() < 0x10000000000000000,
            r matches Ok(v) ==> self.val() == v as nat,
            r matches Err(e) ==> e == DecodeError::Overflow,
    {
        let mut i: usize = 0;
        while i < 24
            invariant
                self.wf(),
                i <= 24,
                forall|j: int| 0 <= j < i ==> self.bytes@[j] == 0,
            decreases 24 - i,
        {
            if self.bytes[i] != 0 {
                proof {
                    lemma_be_val_byte_lower(self.bytes@, i as int);
                    lemma_p256_mono(8, (31 - i) as nat);
                    lemma_p256_8();
                }
                return Err(DecodeError::Overflow);
            }
            i = i + 1;
        }
        let mut acc: u64 = 0;
        let mut j: usize = 24;
        proof {
            assert(self.bytes@.subrange(24, 24) =~= Seq::<u8>::empty());
        }
        while j < 32
            invariant
                self.wf(),
                24 <= j <= 32,
                forall|k: int| 0 <= k < 24 ==> self.bytes@[k] == 0,
                acc as nat == be_val(self.bytes@.subrange(24, j as int)),
                acc < p256((j - 24) as nat),
            decreases 32 - j,
        {
            proof {
                lemma_p256_mono((j - 24) as nat, 7);
                lemma_p256_8();
                assert(p256(7) == 0x100000000000000) by {
                    assert(p256(0) == 1);
                    assert(p256(1) == 256);
                    assert(p256(2) == 0x10000);
                    assert(p256(3) == 0x1000000);
                    assert(p256(4) == 0x100000000);
                    assert(p256(5) == 0x10000000000);
                    assert(p256(6) == 0x1000000000000);
                }
                assert(self.bytes@.subrange(24, j + 1).drop_last() =~= self.bytes@.subrange(
                    24,
                    j as int,
                ));
            }
            acc = acc * 256 + (self.bytes[j] as u64);
            j = j + 1;
        }
        proof {
            lemma_be_val_zero_prefix(self.bytes@, 24);
            assert(self.bytes@.subrange(24, 32) =~= self.bytes@.skip(24));
            lemma_p256_8();
        }
        Ok(acc)
    }

    /// Whether this scalar is the multiplicative identity.
    pub fn is_one(&self) -> (r: bool)
        requires
            self.wf(),
        ensures
            r == (self.val() == 1),
    {
        let mut i: usize = 0;
        while i < 31
            invariant
                self.wf(),
                i <= 31,
                forall|j: int| 0 <= j < i ==> self.bytes@[j] == 0,
            decreases 31 - i,
        {
            if self.bytes[i] != 0 {
                proof {
                    lemma_be_val_byte_lower(self.bytes@, i as int);
                    lemma_p256_mono(1, (31 - i) as nat);
                    assert(p256(0) == 1);
                    assert(p256(1) == 256);
                }
                return false;
            }
            i = i + 1;
        }
        proof {
            lemma_be_val_zero_prefix(self.bytes@, 31);
            let t = self.bytes@.skip(31);
            assert(t =~= seq![self.bytes@[31]]);
            assert(t.drop_last() =~= Seq::<u8>::empty());
            assert(be_val(Seq::<u8>::empty()) == 0);
            assert(be_val(t) == self.bytes@[31]);
        }
        self.bytes[31] == 1
    }
}

} // verus!
