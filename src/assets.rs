//! A store of serialised assets, addressed by typed handles.
use vstd::prelude::*;
use core::marker::PhantomData;
use bytes::Bytes;

verus! {

#[verifier::external_type_specification]
#[verifier::external_body]
pub struct ExBytes(Bytes);

/// The bytes that a `Bytes` buffer holds.
pub uninterp spec fn bytes_contents(b: Bytes) -> Seq<u8>;

/// Relies on `Bytes::from(Vec<u8>)`, which takes over the vector's buffer: the result
/// holds the same bytes in the same order.
#[verifier::external_body]
fn bytes_from_vec(v: Vec<u8>) -> (r: Bytes)
    ensures
        bytes_contents(r) == v@,
{
    Bytes::from(v)
}

/// Relies on `Bytes::to_vec` (through `Deref<Target = [u8]>`): a copy of the bytes held.
#[verifier::external_body]
fn bytes_to_vec(b: &Bytes) -> (r: Vec<u8>)
    ensures
        r@ == bytes_contents(*b),
{
    b.to_vec()
}

/// The identifier of a kind of asset.
#[derive(Clone, Copy, Debug, PartialEq, Eq, Structural)]
pub struct AssetId(pub u64);

/// A value that can be kept in an asset store.
pub trait Asset {
    fn asset_id(&self) -> AssetId;
}

/// A handle to an asset of type `T` in a store: its position there.
#[derive(Debug)]
pub struct Handle<T> {
    pub id: u64,
    _phantom: PhantomData<T>,
}

impl<T> Clone for Handle<T> {
    fn clone(&self) -> (r: Self)
        ensures
            r.spec_id() == self.spec_id(),
    {
        Handle { id: self.id, _phantom: PhantomData }
    }
}

impl<T> Copy for Handle<T> {

}

impl<T> Handle<T> {
    /// The position that the handle refers to.
    pub closed spec fn spec_id(&self) -> u64 {
        self.id
    }

    pub fn new(id: u64) -> (r: Self)
        ensures
            r.spec_id() == id,
    {
        Handle { id, _phantom: PhantomData }
    }
}

/// One stored asset: its generation, its serialised bytes, and its kind.
#[derive(Debug)]
pub struct AssetItem {
    pub generation: usize,
    pub inner: Bytes,
    pub asset_id: AssetId,
}

impl AssetItem {
    /// A copy of the serialised bytes.
    pub fn bytes(&self) -> (r: Vec<u8>)
        ensures
            r@ == bytes_contents(self.inner),
    {
        bytes_to_vec(&self.inner)
    }
}

/// Assets in the order of insertion; a handle's id is the position of its asset.
#[derive(Debug)]
pub struct AssetStore {
    data: Vec<AssetItem>,
}

impl AssetStore {
    /// The items in the order of insertion.
    pub closed spec fn items(&self) -> Seq<AssetItem> {
        self.data@
    }

    pub fn new() -> (r: Self)
        ensures
            r.items() == Seq::<AssetItem>::empty(),
    {
        AssetStore { data: Vec::new() }
    }

    pub fn len(&self) -> (r: usize)
        ensures
            r == self.items().len(),
    {
        self.data.len()
    }

    /// Appends an asset of kind `asset_id` with the serialised value `bytes`, at
    /// generation 1, and returns its handle.
    pub fn insert_bytes(&mut self, asset_id: AssetId, bytes: Vec<u8>) -> (r: Handle<()>)
        requires
            old(self).items().len() < u64::MAX,
        ensures
            r.spec_id() == old(self).items().len(),
            final(self).items().len() == old(self).items().len() + 1,
            final(self).items().drop_last() == old(self).items(),
            final(self).items().last().generation == 1,
            final(self).items().last().asset_id == asset_id,
            bytes_contents(final(self).items().last().inner) == bytes@,
    {
        let inner = bytes_from_vec(bytes);
        let id = self.data.len();
        self.data.push(AssetItem { generation: 1, inner, asset_id });
        proof {
            assert(self.data@.drop_last() =~= old(self).data@);
        }
        Handle::new(id as u64)
    }

    /// The asset that `handle` refers to, if the store holds one at its position.
    pub fn value<C>(&self, handle: Handle<C>) -> (r: Option<&AssetItem>)
        ensures
            handle.spec_id() < self.items().len() ==> r == Some(&self.items()[handle.spec_id() as int]),
            handle.spec_id() >= self.items().len() ==> r is None,
    {
        if handle.id < self.data.len() as u64 {
            Some(&self.data[handle.id as usize])
        } else {
            None
        }
    }

    /// The generation of the asset that `handle` refers to, if any.
    pub fn gen<C>(&self, handle: Handle<C>) -> (r: Option<usize>)
        ensures
            handle.spec_id() < self.items().len() ==> r == Some(
                self.items()[handle.spec_id() as int].generation,
            ),
            handle.spec_id() >= self.items().len() ==> r is None,
    {
        match self.value(handle) {
            Some(item) => Some(item.generation),
            None => None,
        }
    }
}

} // verus!
