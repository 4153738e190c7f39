//! A cache of complete objects, one per asset, loaded once. An
//! asset whose data does not parse, or that the loader cannot turn into an
//! object, is left out; a request before loading, or for an asset left
//! out, gets nothing.
use vstd::prelude::*;
use crate::managers::asset_data::{gltf_document, read_gltf, AssetData};

verus! {

/// The assets the object cache holds.
#[derive(Debug, Clone, Copy, PartialEq, Eq, Structural, Hash)]
pub enum Assets {
    TestingDoll,
    Chair,
}

/// Turns an asset's parsed glTF document and data into an object `O`, or
/// `None` where its mesh, material or skeleton cannot be extracted. The
/// application implements it over its GL context.
pub trait ObjectLoader<O> {
    fn load_gltf(&self, asset_name: Assets, gltf: &gltf::Gltf, data: &AssetData) -> Option<O>;
}

/// What the cache holds for an asset after loading it from `data` with
/// `loader`, where it held `before`: where the data parses, what the loader
/// returned for the document if it returned an object, and `before`
/// otherwise.
pub open spec fn load_outcome<O, L: ObjectLoader<O>>(
    loader: &L,
    name: Assets,
    data: AssetData,
    before: Option<O>,
    after: Option<O>,
) -> bool {
    match gltf_document(data.gltf@) {
        None => after == before,
        Some(doc) => exists|r: Option<O>|
            #[trigger] call_ensures(L::load_gltf, (loader, name, &doc, &data), r) && after == (if r is Some {
                r
            } else {
                before
            }),
    }
}

/// The cache of complete objects by asset.
pub struct ObjectCache<O> {
    doll: Option<O>,
    chair: Option<O>,
    initialized: bool,
}

impl<O> ObjectCache<O> {
    /// The object cached for `name`, if any.
    pub closed spec fn cached(&self, name: Assets) -> Option<O> {
        match name {
            Assets::TestingDoll => self.doll,
            Assets::Chair => self.chair,
        }
    }

    /// Whether loading has been done.
    pub closed spec fn is_initialized(&self) -> bool {
        self.initialized
    }

    /// An empty cache, not yet loaded.
    pub fn new() -> (res: Self)
        ensures
            !res.is_initialized(),
            forall|a: Assets| res.cached(a) is None,
    {
        ObjectCache { doll: None, chair: None, initialized: false }
    }

    /// Keeps what loading `name` gave: the object where there is one; where
    /// there is none, the cache stays as it was.
    pub fn keep_loaded(&mut self, name: Assets, loaded: Option<O>)
        ensures
            final(self).is_initialized() == old(self).is_initialized(),
            final(self).cached(name) == (if loaded is Some {
                loaded
            } else {
                old(self).cached(name)
            }),
            forall|a: Assets| a != name ==> #[trigger] final(self).cached(a) == old(self).cached(a),
    {
        if let Some(object) = loaded {
            match name {
                Assets::TestingDoll => self.doll = Some(object),
                Assets::Chair => self.chair = Some(object),
            }
        }
    }

    /// Parses the glTF data of `asset_name`, has `loader` turn the document
    /// into an object, and keeps the object if there is one. Data that does
    /// not parse leaves the cache as it was.
    pub fn load_gltf<L: ObjectLoader<O>>(&mut self, loader: &L, data: &AssetData, asset_name: Assets)
        ensures
            final(self).is_initialized() == old(self).is_initialized(),
            load_outcome(loader, asset_name, *data, old(self).cached(asset_name), final(self).cached(asset_name)),
            forall|a: Assets| a != asset_name ==> #[trigger] final(self).cached(a) == old(self).cached(a),
    {
        match read_gltf(data.gltf.as_slice()) {
            Some(doc) => {
                let loaded = loader.load_gltf(asset_name, &doc, data);
                self.keep_loaded(asset_name, loaded);
            },
            None => {},
        }
    }

    /// Loads the doll and then the chair, each from its data, keeping each
    /// one that loads, and marks the cache loaded. A cache already loaded is
    /// left as it is.
    pub fn initialize<L: ObjectLoader<O>>(&mut self, loader: &L, doll: &AssetData, chair: &AssetData)
        ensures
            final(self).is_initialized(),
            old(self).is_initialized() ==> *final(self) == *old(self),
            !old(self).is_initialized() ==> load_outcome(
                loader,
                Assets::TestingDoll,
                *doll,
                old(self).cached(Assets::TestingDoll),
                final(self).cached(Assets::TestingDoll),
            ),
            !old(self).is_initialized() ==> load_outcome(
                loader,
                Assets::Chair,
                *chair,
                old(self).cached(Assets::Chair),
                final(self).cached(Assets::Chair),
            ),
    {
        if self.initialized {
            return;
        }
        self.load_gltf(loader, doll, Assets::TestingDoll);
        let ghost doll_kept = self.cached(Assets::TestingDoll);
        self.load_gltf(loader, chair, Assets::Chair);
        assert(self.cached(Assets::TestingDoll) == doll_kept);
        self.initialized = true;
    }

    /// A copy of the object cached for `asset_name`; `None` before loading
    /// or where the asset did not load.
    pub fn get_object3d_copy(&self, asset_name: Assets) -> (res: Option<O>) where O: Clone,
        ensures
            res is Some <==> self.is_initialized() && self.cached(asset_name) is Some,
            res is Some ==> cloned::<O>(self.cached(asset_name).unwrap(), res.unwrap()),
    {
        if !self.initialized {
            return None;
        }
        match asset_name {
            Assets::TestingDoll => match &self.doll {
                Some(o) => Some(o.clone()),
                None => None,
            },
            Assets::Chair => match &self.chair {
                Some(o) => Some(o.clone()),
                None => None,
            },
        }
    }
}

} // verus!
