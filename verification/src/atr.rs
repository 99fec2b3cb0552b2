//! Answer-to-reset classification: a card whose ATR equals the fixed FeliCa
//! signature takes the contactless path, every other card the generic path.

use vstd::prelude::*;

verus! {

/// Which protocol path a detected card follows.
#[derive(Clone, Copy, PartialEq, Eq, Structural, Debug)]
pub enum CardFamily {
    Generic,
    Felica,
}

/// The 20-byte answer-to-reset signature of the FeliCa card family.
pub open spec fn felica_atr_spec() -> Seq<u8> {
    seq![59u8, 143, 128, 1, 128, 79, 12, 160, 0, 0, 3, 6, 17, 0, 59, 0, 0, 0, 0, 66]
}

/// The FeliCa signature as a byte vector.
pub fn felica_atr() -> (r: Vec<u8>)
    ensures
        r@ == felica_atr_spec(),
{
    let mut v: Vec<u8> = Vec::new();
    v.push(59);
    v.push(143);
    v.push(128);
    v.push(1);
    v.push(128);
    v.push(79);
    v.push(12);
    v.push(160);
    v.push(0);
    v.push(0);
    v.push(3);
    v.push(6);
    v.push(17);
    v.push(0);
    v.push(59);
    v.push(0);
    v.push(0);
    v.push(0);
    v.push(0);
    v.push(66);
    proof {
        assert(v@ =~= felica_atr_spec());
    }
    v
}

/// Byte-for-byte equality of two byte slices.
pub fn u8_array_equals(a: &[u8], b: &[u8]) -> (r: bool)
    ensures
        r == (a@ == b@),
{
    if a.len() != b.len() {
        return false;
    }
    let mut i: usize = 0;
    while i < a.len()
        invariant
            i <= a@.len(),
            a@.len() == b@.len(),
            forall|j: int| 0 <= j < i ==> a@[j] == b@[j],
        decreases a@.len() - i,
    {
        if a[i] != b[i] {
            return false;
        }
        i += 1;
    }
    proof {
        assert(a@ =~= b@);
    }
    true
}

/// Classifies an observed ATR: `Felica` exactly when it is byte-identical to
/// the 20-byte FeliCa signature, `Generic` otherwise. Total and pure: a
/// length or byte mismatch yields `Generic`, never an error.
pub fn classify_atr(atr: &[u8]) -> (r: CardFamily)
    ensures
        r == CardFamily::Felica <==> atr@ == felica_atr_spec(),
        r == CardFamily::Felica || r == CardFamily::Generic,
{
    let sig = felica_atr();
    if u8_array_equals(atr, sig.as_slice()) {
        CardFamily::Felica
    } else {
        CardFamily::Generic
    }
}

} // verus!
