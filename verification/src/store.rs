//! The storage root: the directory under which an application keeps its
//! settings files.
//!
//! The root is chosen once, through `StoreBuilder`, and then handed to
//! whatever needs it as a `Store`. Nothing here touches the disk: whether
//! the chosen path is a directory is for the caller to check before it
//! builds the store.

use vstd::prelude::*;

verus! {

/// Collects the settings of a store before it is set up.
#[derive(Debug)]
pub struct StoreBuilder {
    /// Directory in which the settings files are kept.
    path: String,
}

impl StoreBuilder {
    /// The directory chosen so far.
    pub closed spec fn root(&self) -> Seq<char> {
        self.path@
    }

    /// Chooses the directory in which the settings files are kept.
    pub fn path(self, path: String) -> (builder: Self)
        ensures
            builder.root() == path@,
    {
        let mut builder = self;
        builder.path = path;
        builder
    }

    /// Sets up the store on the directory chosen so far.
    pub fn init(self) -> (store: Store)
        ensures
            store.root() == self.root(),
    {
        Store { path: self.path }
    }
}

impl Default for StoreBuilder {
    fn default() -> (builder: Self)
        ensures
            builder.root() == Seq::<char>::empty(),
    {
        StoreBuilder { path: String::new() }
    }
}

/// A store that has been set up: it knows its root directory for good.
#[derive(Debug)]
pub struct Store {
    path: String,
}

impl Store {
    /// The root directory of the store.
    pub closed spec fn root(&self) -> Seq<char> {
        self.path@
    }
}

/// The root directory of `store`.
pub fn get_store_path(store: &Store) -> (path: String)
    ensures
        path@ == store.root(),
{
    store.path.clone()
}

} // verus!
