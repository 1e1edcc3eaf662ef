//! A bounded list of I2C addresses found on a bus.

use vstd::prelude::*;

verus! {

/// Capacity of an address list.
pub const ADDRESS_CAPACITY: usize = 16;

/// The addresses of the devices found on a bus, in the order they were found;
/// at most [`ADDRESS_CAPACITY`] of them.
///
/// It holds a `heapless::Vec<u8, 16>`, which Verus does not see into: its
/// elements are [`address_items`], and the functions below that call the
/// vector's methods state what each call does to them.
#[verifier::external_body]
pub struct AddressList {
    items: heapless::Vec<u8, 16>,
}

/// The addresses in a list: the elements of its `heapless::Vec`.
pub uninterp spec fn address_items(list: AddressList) -> Seq<u8>;

/// `heapless::Vec::new`: an empty vector.
#[verifier::external_body]
fn list_new() -> (r: AddressList)
    ensures
        address_items(r) == Seq::<u8>::empty(),
{
    AddressList { items: heapless::Vec::new() }
}

/// `heapless::Vec::push`: appends `addr` unless the vector is full, in which case
/// it hands `addr` back and leaves the vector as it was.
#[verifier::external_body]
fn list_push(list: &mut AddressList, addr: u8) -> (r: Result<(), u8>)
    ensures
        address_items(*old(list)).len() < 16 ==> r is Ok && address_items(*final(list))
            == address_items(*old(list)).push(addr),
        address_items(*old(list)).len() >= 16 ==> (r matches Err(a) && a == addr),
        address_items(*old(list)).len() >= 16 ==> address_items(*final(list)) == address_items(*old(list)),
{
    list.items.push(addr)
}

/// `heapless::Vec::clear`: empties the vector.
#[verifier::external_body]
fn list_clear(list: &mut AddressList)
    ensures
        address_items(*final(list)) == Seq::<u8>::empty(),
{
    list.items.clear()
}

/// `heapless::Vec::as_slice`: the elements as a slice.
#[verifier::external_body]
fn list_as_slice(list: &AddressList) -> (r: &[u8])
    ensures
        r@ == address_items(*list),
{
    list.items.as_slice()
}

impl AddressList {
    /// The addresses, in the order they were found.
    pub open spec fn items(self) -> Seq<u8> {
        address_items(self)
    }

    /// An empty list.
    pub fn new() -> (r: AddressList)
        ensures
            r.items() == Seq::<u8>::empty(),
    {
        list_new()
    }

    /// Appends `addr`, or hands it back when the list is full.
    pub fn push(&mut self, addr: u8) -> (r: Result<(), u8>)
        ensures
            old(self).items().len() < ADDRESS_CAPACITY ==> r is Ok && final(self).items() == old(
                self,
            ).items().push(addr),
            old(self).items().len() >= ADDRESS_CAPACITY ==> (r matches Err(a) && a == addr),
            old(self).items().len() >= ADDRESS_CAPACITY ==> final(self).items() == old(self).items(),
    {
        list_push(self, addr)
    }

    /// Empties the list.
    pub fn clear(&mut self)
        ensures
            final(self).items() == Seq::<u8>::empty(),
    {
        list_clear(self)
    }

    /// The addresses as a slice.
    pub fn as_slice(&self) -> (r: &[u8])
        ensures
            r@ == self.items(),
    {
        list_as_slice(self)
    }

    /// The number of addresses.
    pub fn len(&self) -> (r: usize)
        ensures
            r == self.items().len(),
    {
        self.as_slice().len()
    }

    /// Whether the list is empty.
    pub fn is_empty(&self) -> (r: bool)
        ensures
            r == (self.items().len() == 0),
    {
        self.len() == 0
    }

    /// The address at position `i`.
    pub fn get(&self, i: usize) -> (r: u8)
        requires
            i < self.items().len(),
        ensures
            r == self.items()[i as int],
    {
        self.as_slice()[i]
    }

    /// Whether `addr` is in the list.
    pub fn contains(&self, addr: u8) -> (r: bool)
        ensures
            r == self.items().contains(addr),
    {
        let s = self.as_slice();
        let mut i: usize = 0;
        while i < s.len()
            invariant
                s@ == self.items(),
                i <= s@.len(),
                forall|j: int| 0 <= j < i ==> s@[j] != addr,
            decreases s@.len() - i,
        {
            if s[i] == addr {
                assert(s@[i as int] == addr);
                return true;
            }
            i = i + 1;
        }
        false
    }
}

} // verus!
