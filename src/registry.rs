//! Draw components: what is built for each image, and the registry that holds
//! one component per identifier.
use vstd::prelude::*;

use crate::geometry::{quad_of, quad_vertices, upload_layout, QuadVertex, TextureUpload, ViewportState};
use crate::library::{Image, ImageId, Library};

verus! {

/// Why a component could not be built.
#[derive(Clone, Copy, Debug, PartialEq, Eq, Structural)]
pub enum BuildError {
    /// No image is stored under the identifier.
    NotFound,
    /// A row of the image is longer than a texture upload can describe.
    TextureTooLarge,
    /// The device could not allocate a resource of the component.
    Allocation,
}

/// Everything about one component that does not depend on the device: the six
/// vertices of its quad and how its pixels are uploaded.
#[derive(Debug)]
pub struct ComponentPlan {
    pub vertices: Vec<QuadVertex>,
    pub upload: TextureUpload,
}

/// The plan for `image` in viewport `vp`; refused where a row of the image
/// does not fit a 32-bit stride.
pub fn plan_component(image: &Image, vp: &ViewportState) -> (r: Result<ComponentPlan, BuildError>)
    requires
        vp.wf(),
    ensures
        4 * image.width <= u32::MAX ==> (r matches Ok(plan)
            && plan.vertices@ == quad_of(image.anchor, image.width, image.height, *vp)
            && plan.upload == (TextureUpload {
                width: image.width,
                height: image.height,
                bytes_per_row: (4 * image.width) as u32,
                rows_per_image: image.height,
            })),
        4 * image.width > u32::MAX ==> r matches Err(BuildError::TextureTooLarge),
{
    match upload_layout(image.width, image.height) {
        Some(upload) => {
            let vertices = quad_vertices(image.anchor, image.width, image.height, vp);
            Ok(ComponentPlan { vertices, upload })
        },
        None => Err(BuildError::TextureTooLarge),
    }
}

/// Allocates the device resources of one component from an image and its plan.
pub trait ComponentBuilder<C> {
    fn build(&mut self, image: &Image, plan: &ComponentPlan) -> Result<C, BuildError>;
}

/// The entries carry the identifier `id`.
pub open spec fn has_id<C>(s: Seq<(ImageId, C)>, id: ImageId) -> bool {
    exists|i: int| 0 <= i < s.len() && (#[trigger] s[i]).0 == id
}

/// Components in the order they were built, at most one per identifier.
pub struct ComponentRegistry<C> {
    entries: Vec<(ImageId, C)>,
}

impl<C> View for ComponentRegistry<C> {
    type V = Seq<(ImageId, C)>;

    closed spec fn view(&self) -> Seq<(ImageId, C)> {
        self.entries@
    }
}

impl<C> ComponentRegistry<C> {
    /// No identifier appears twice.
    pub open spec fn wf(&self) -> bool {
        forall|i: int, j: int| 0 <= i < j < self@.len() ==> (#[trigger] self@[i]).0 != (#[trigger] self@[j]).0
    }

    /// An empty registry.
    pub fn new() -> (r: ComponentRegistry<C>)
        ensures
            r.wf(),
            r@ == Seq::<(ImageId, C)>::empty(),
    {
        ComponentRegistry { entries: Vec::new() }
    }

    /// The number of built components.
    pub fn len(&self) -> (r: usize)
        ensures
            r == self@.len(),
    {
        self.entries.len()
    }

    /// The identifier of the component in slot `i`.
    pub fn id_at(&self, i: usize) -> (r: ImageId)
        requires
            i < self@.len(),
        ensures
            r == self@[i as int].0,
    {
        self.entries[i].0
    }

    /// The component in slot `i`.
    pub fn component(&self, i: usize) -> (r: &C)
        requires
            i < self@.len(),
        ensures
            *r == self@[i as int].1,
    {
        &self.entries[i].1
    }

    /// The slot of the component built for `id`, if there is one.
    pub fn find(&self, id: ImageId) -> (r: Option<usize>)
        ensures
            match r {
                Some(i) => i < self@.len() && self@[i as int].0 == id,
                None => !has_id(self@, id),
            },
    {
        let mut i: usize = 0;
        while i < self.entries.len()
            invariant
                i <= self@.len(),
                self@ == self.entries@,
                forall|k: int| 0 <= k < i ==> (#[trigger] self@[k]).0 != id,
            decreases self@.len() - i,
        {
            if self.entries[i].0 == id {
                return Some(i);
            }
            i = i + 1;
        }
        None
    }

    /// Drops every component.
    pub fn clear(&mut self)
        ensures
            final(self).wf(),
            final(self)@ == Seq::<(ImageId, C)>::empty(),
    {
        self.entries.clear();
    }

    /// Makes sure a component exists for `id`: builds it from the library's
    /// image the first time, and does nothing, the builder untouched, after that.
    pub fn ensure_built<B: ComponentBuilder<C>>(
        &mut self,
        id: ImageId,
        library: &Library,
        vp: &ViewportState,
        builder: &mut B,
    ) -> (r: Result<(), BuildError>)
        requires
            old(self).wf(),
            library.wf(),
            vp.wf(),
        ensures
            final(self).wf(),
            !library@.contains_key(id) ==> r == Err::<(), BuildError>(BuildError::NotFound)
                && final(self)@ == old(self)@ && *final(builder) == *old(builder),
            library@.contains_key(id) && has_id(old(self)@, id) ==> r == Ok::<(), BuildError>(())
                && final(self)@ == old(self)@ && *final(builder) == *old(builder),
            library@.contains_key(id) && !has_id(old(self)@, id) && 4 * library@[id].width > u32::MAX
                ==> r == Err::<(), BuildError>(BuildError::TextureTooLarge)
                && final(self)@ == old(self)@ && *final(builder) == *old(builder),
            r is Ok ==> has_id(final(self)@, id),
            r is Ok && !has_id(old(self)@, id) ==> final(self)@.len() == old(self)@.len() + 1
                && final(self)@.take(old(self)@.len() as int) == old(self)@
                && final(self)@.last().0 == id,
            r is Err ==> final(self)@ == old(self)@,
    {
        let image = match library.get(&id) {
            Some(image) => image,
            None => return Err(BuildError::NotFound),
        };
        if let Some(_) = self.find(id) {
            return Ok(());
        }
        let plan = match plan_component(image, vp) {
            Ok(plan) => plan,
            Err(e) => return Err(e),
        };
        match builder.build(image, &plan) {
            Ok(component) => {
                let ghost before = self@;
                self.entries.push((id, component));
                assert(self@.take(before.len() as int) =~= before);
                assert(self@[before.len() as int].0 == id);
                Ok(())
            },
            Err(e) => Err(e),
        }
    }
}

/// Once `ensure_built` has succeeded for an identifier, the registry holds it,
/// so that every later call for it is the no-op case: nothing is built again.
pub proof fn law_built_stays_built<C>(before: Seq<(ImageId, C)>, after: Seq<(ImageId, C)>, id: ImageId)
    requires
        has_id(before, id) || (after.len() > before.len() && after.last().0 == id),
        has_id(before, id) ==> after == before,
    ensures
        has_id(after, id),
{
    if !has_id(before, id) {
        assert(after[after.len() - 1].0 == id);
    }
}

} // verus!
