//! Identities of accounts and contracts.

use vstd::prelude::*;

verus! {

/// An authenticated identity, held as the text of its address.
///
/// Two identities are the same party exactly when their texts are equal.
#[derive(Clone, Debug, PartialEq, Eq)]
pub struct Address {
    pub strkey: String,
}

impl View for Address {
    type V = Seq<char>;

    open spec fn view(&self) -> Seq<char> {
        self.strkey@
    }
}

impl Address {
    /// The identity whose address reads `strkey`.
    pub fn from_str(strkey: &str) -> (a: Address)
        ensures
            a@ == strkey@,
    {
        Address { strkey: strkey.to_owned() }
    }

    /// Whether `self` and `other` name the same party.
    pub fn same_as(&self, other: &Address) -> (b: bool)
        ensures
            b == (self@ == other@),
    {
        self.strkey == other.strkey
    }

    /// A second handle on the same identity.
    pub fn duplicate(&self) -> (a: Address)
        ensures
            a == *self,
    {
        Address { strkey: self.strkey.clone() }
    }
}

/// A denomination: a currency code and the party that issues it.
#[derive(Clone, Debug, PartialEq, Eq)]
pub struct Asset {
    pub code: String,
    pub issuer: Address,
}

impl View for Asset {
    type V = (Seq<char>, Seq<char>);

    open spec fn view(&self) -> (Seq<char>, Seq<char>) {
        (self.code@, self.issuer@)
    }
}

impl Asset {
    /// A second copy of the asset.
    pub fn duplicate(&self) -> (a: Asset)
        ensures
            a == *self,
    {
        Asset { code: self.code.clone(), issuer: self.issuer.duplicate() }
    }

    /// Whether both the code and the issuer agree.
    pub fn same_as(&self, other: &Asset) -> (b: bool)
        ensures
            b == (self@ == other@),
    {
        self.code == other.code && self.issuer.same_as(&other.issuer)
    }
}

} // verus!
