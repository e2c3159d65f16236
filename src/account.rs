use vstd::prelude::*;

verus! {

/// An account identity, held as the bytes of its textual key.
pub struct Account {
    pub key: Vec<u8>,
}

impl View for Account {
    type V = Seq<u8>;

    open spec fn view(&self) -> Seq<u8> {
        self.key@
    }
}

impl Account {
    pub fn new(key: Vec<u8>) -> (r: Account)
        ensures
            r@ == key@,
    {
        Account { key }
    }

    /// Whether two accounts name the same identity.
    pub fn same(&self, other: &Account) -> (r: bool)
        ensures
            r == (self@ == other@),
    {
        let n: usize = self.key.len();
        if n != other.key.len() {
            return false;
        }
        let mut i: usize = 0;
        while i < n
            invariant
                n == self.key@.len(),
                n == other.key@.len(),
                i <= n,
                forall|j: int| 0 <= j < i ==> self.key@[j] == other.key@[j],
            decreases n - i,
        {
            if self.key[i] != other.key[i] {
                return false;
            }
            i = i + 1;
        }
        assert(self.key@ =~= other.key@);
        true
    }

    /// A second account value naming the same identity.
    pub fn duplicate(&self) -> (r: Account)
        ensures
            r@ == self@,
    {
        let key = self.key.clone();
        assert(key@ =~= self.key@);
        Account { key }
    }
}

} // verus!
