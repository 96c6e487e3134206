//! The asset registry: a fixed catalogue of scene file names, and a list of
//! loaded handles looked up by ordinal index. The handle itself is opaque
//! to this library; the registry is generic over it.

use vstd::prelude::*;

verus! {

/// Number of entries in the fixed asset catalogue.
pub const MAX_ASSET_ELEMENTS: usize = 2;

/// One entry of the fixed catalogue: the name of a scene file to load.
pub struct AssetElementFile {
    pub file_name: &'static str,
}

/// The fixed catalogue of scene files, in loading order.
pub fn asset_element_files() -> (r: Vec<AssetElementFile>)
    ensures
        r@.len() == MAX_ASSET_ELEMENTS,
        r@[0].file_name@ == "simpleHumanRig.glb"@,
        r@[1].file_name@ == "simpleWall.glb"@,
{
    let mut files: Vec<AssetElementFile> = Vec::new();
    files.push(AssetElementFile { file_name: "simpleHumanRig.glb" });
    files.push(AssetElementFile { file_name: "simpleWall.glb" });
    files
}

/// One loaded asset; `H` is the loader's opaque handle type.
#[derive(Clone)]
pub struct AssetElement<H> {
    pub asset: H,
}

/// The loaded-handle list, in catalogue order, filled once at startup.
pub struct AssetElementList<H> {
    pub elements: Vec<AssetElement<H>>,
}

impl<H> AssetElementList<H> {
    /// An empty registry, to be filled in catalogue order.
    pub fn new() -> (r: AssetElementList<H>)
        ensures
            r.elements@.len() == 0,
    {
        AssetElementList { elements: Vec::new() }
    }

    /// Appends the handle of the next catalogue entry.
    pub fn push(&mut self, asset: H)
        ensures
            final(self).elements@ == old(self).elements@.push((AssetElement { asset })),
    {
        self.elements.push(AssetElement { asset });
    }

    pub fn len(&self) -> (n: usize)
        ensures
            n == self.elements@.len(),
    {
        self.elements.len()
    }

    /// Lookup by ordinal index: absent for an index at or past the end,
    /// else the handle registered at that index. Takes `&self`, so repeated
    /// calls on the same registry return the same handle.
    pub fn get_by_index(&self, index: usize) -> (r: Option<&H>)
        ensures
            index < self.elements@.len() ==> (r matches Some(h) && *h == self.elements@[
                index as int
            ].asset),
            index >= self.elements@.len() ==> r is None,
    {
        if index < self.elements.len() {
            Some(&self.elements[index].asset)
        } else {
            None
        }
    }
}

} // verus!
