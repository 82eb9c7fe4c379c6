//! The image library: decoded RGBA8 images stored under random identifiers.
use std::collections::HashMap;
use vstd::prelude::*;

use crate::geometry::PixelPoint;

verus! {

broadcast use vstd::std_specs::hash::group_hash_axioms;

/// Identifies one image for the lifetime of the process: the 128 bits of a
/// random UUID.
pub type ImageId = u128;

/// Why an image could not be added to the library.
#[derive(Clone, Copy, Debug, PartialEq, Eq, Structural)]
pub enum LibraryError {
    /// The bytes are not an image the decoder recognises.
    Decode,
    /// The identifier drawn for the image is already taken; nothing was stored.
    IdCollision,
}

#[verifier::external_type_specification]
#[verifier::external_body]
pub struct ExImageError(image::ImageError);

/// Width, height and RGBA8 pixel bytes that the decoder gives for `bytes`, or
/// `None` where it rejects them.
pub uninterp spec fn decoded_rgba8(bytes: Seq<u8>) -> Option<(u32, u32, Seq<u8>)>;

/// Relies on `image::load_from_memory` to recognise and decode the bytes, and on
/// `DynamicImage::to_rgba8` for the conversion to 8-bit RGBA; the outcome
/// depends on the bytes alone.
#[verifier::external_body]
fn decode_rgba8(bytes: &[u8]) -> (r: Result<(u32, u32, Vec<u8>), image::ImageError>)
    ensures
        match r {
            Ok((w, h, p)) => decoded_rgba8(bytes@) == Some((w, h, p@)),
            Err(_) => decoded_rgba8(bytes@) is None,
        },
{
    match image::load_from_memory(bytes) {
        Ok(img) => {
            let rgba = img.to_rgba8();
            let (w, h) = rgba.dimensions();
            Ok((w, h, rgba.into_raw()))
        },
        Err(e) => Err(e),
    }
}

/// Relies on `uuid::Uuid::new_v4`: a random version-4 UUID, taken as its 128 bits.
#[verifier::external_body]
fn random_id() -> (r: ImageId) {
    uuid::Uuid::new_v4().as_u128()
}

/// The decoder accepts the bytes and hands back a full RGBA8 buffer.
pub open spec fn decodes_fully(bytes: Seq<u8>) -> bool {
    match decoded_rgba8(bytes) {
        Some((w, h, p)) => p.len() == 4 * w * h,
        None => false,
    }
}

/// A decoded image and the pixel position it was dropped at.
#[derive(Debug)]
pub struct Image {
    pub anchor: PixelPoint,
    pub width: u32,
    pub height: u32,
    /// Row-major RGBA8 bytes, four per pixel.
    pub pixels: Vec<u8>,
}

impl Image {
    /// The buffer holds exactly `width * height` pixels of four bytes.
    pub open spec fn wf(&self) -> bool {
        self.pixels@.len() == 4 * self.width * self.height
    }

    /// The image is the given anchor, size and pixel bytes.
    pub open spec fn holds(&self, anchor: PixelPoint, width: u32, height: u32, pixels: Seq<u8>) -> bool {
        self.anchor == anchor && self.width == width && self.height == height && self.pixels@ == pixels
    }

    /// The image with these pixels; refused as undecodable where the buffer is
    /// not `width * height` pixels of four bytes.
    pub fn from_rgba8(anchor: PixelPoint, width: u32, height: u32, pixels: Vec<u8>) -> (r: Result<Image, LibraryError>)
        ensures
            pixels@.len() == 4 * width * height ==> (r matches Ok(img) && img.holds(anchor, width, height, pixels@)),
            pixels@.len() != 4 * width * height ==> r == Err::<Image, LibraryError>(LibraryError::Decode),
            r matches Ok(img) ==> img.wf(),
    {
        let w = width as u128;
        let h = height as u128;
        assert(w * h <= u32::MAX * u32::MAX) by (nonlinear_arith)
            requires
                w <= u32::MAX,
                h <= u32::MAX,
        ;
        let n: u128 = 4 * (w * h);
        assert(n == 4 * width * height) by (nonlinear_arith)
            requires
                n == 4 * (w * h),
                w == width,
                h == height,
        ;
        if n == pixels.len() as u128 {
            Ok(Image { anchor, width, height, pixels })
        } else {
            Err(LibraryError::Decode)
        }
    }

    /// Decodes `bytes` into an image anchored at `anchor`.
    pub fn new(anchor: PixelPoint, bytes: Vec<u8>) -> (r: Result<Image, LibraryError>)
        ensures
            decodes_fully(bytes@) ==> (r matches Ok(img) && img.wf() && {
                let (w, h, p) = decoded_rgba8(bytes@)->Some_0;
                img.holds(anchor, w, h, p)
            }),
            !decodes_fully(bytes@) ==> r == Err::<Image, LibraryError>(LibraryError::Decode),
    {
        match decode_rgba8(bytes.as_slice()) {
            Ok((w, h, p)) => Image::from_rgba8(anchor, w, h, p),
            Err(_) => Err(LibraryError::Decode),
        }
    }
}

/// Decoded images keyed by their identifiers.
pub struct Library {
    images: HashMap<ImageId, Image>,
}

impl View for Library {
    type V = Map<ImageId, Image>;

    closed spec fn view(&self) -> Map<ImageId, Image> {
        self.images@
    }
}

impl Library {
    /// Every stored image has a full pixel buffer.
    pub closed spec fn wf(&self) -> bool {
        &&& self.images@.dom().finite()
        &&& forall|id: ImageId| #[trigger] self.images@.contains_key(id) ==> self.images@[id].wf()
    }

    /// An empty library.
    pub fn new() -> (r: Library)
        ensures
            r.wf(),
            r@ == Map::<ImageId, Image>::empty(),
    {
        Library { images: HashMap::new() }
    }

    /// The number of stored images.
    pub fn len(&self) -> (r: usize)
        ensures
            r == self@.len(),
    {
        self.images.len()
    }

    /// The image stored under `id`, if any.
    pub fn get(&self, id: &ImageId) -> (r: Option<&Image>)
        requires
            self.wf(),
        ensures
            match r {
                Some(img) => self@.contains_key(*id) && *img == self@[*id] && img.wf(),
                None => !self@.contains_key(*id),
            },
    {
        self.images.get(id)
    }

    /// Stores `image` under `id`, unless `id` is taken: then nothing changes.
    pub fn insert_with_id(&mut self, id: ImageId, image: Image) -> (r: Result<ImageId, LibraryError>)
        requires
            old(self).wf(),
            image.wf(),
        ensures
            final(self).wf(),
            old(self)@.contains_key(id) ==> r == Err::<ImageId, LibraryError>(LibraryError::IdCollision)
                && final(self)@ == old(self)@,
            !old(self)@.contains_key(id) ==> r == Ok::<ImageId, LibraryError>(id)
                && final(self)@ == old(self)@.insert(id, image)
                && final(self)@.len() == old(self)@.len() + 1,
    {
        if self.images.contains_key(&id) {
            Err(LibraryError::IdCollision)
        } else {
            self.images.insert(id, image);
            Ok(id)
        }
    }

    /// Decodes `bytes` and stores the image, anchored at `anchor`, under a fresh
    /// random identifier, which it returns.
    pub fn insert(&mut self, anchor: PixelPoint, bytes: Vec<u8>) -> (r: Result<ImageId, LibraryError>)
        requires
            old(self).wf(),
        ensures
            final(self).wf(),
            !decodes_fully(bytes@) ==> r == Err::<ImageId, LibraryError>(LibraryError::Decode)
                && final(self)@ == old(self)@,
            decodes_fully(bytes@) ==> match r {
                Ok(id) => {
                    let (w, h, p) = decoded_rgba8(bytes@)->Some_0;
                    &&& !old(self)@.contains_key(id)
                    &&& final(self)@ == old(self)@.insert(id, final(self)@[id])
                    &&& final(self)@[id].holds(anchor, w, h, p)
                    &&& final(self)@.len() == old(self)@.len() + 1
                },
                Err(e) => e == LibraryError::IdCollision && final(self)@ == old(self)@,
            },
            r == Err::<ImageId, LibraryError>(LibraryError::IdCollision) ==> exists|k: ImageId|
                old(self)@.contains_key(k),
    {
        let image = match Image::new(anchor, bytes) {
            Ok(image) => image,
            Err(e) => return Err(e),
        };
        let id = random_id();
        self.insert_with_id(id, image)
    }
}

/// What `insert` stores is what `get` finds under the returned identifier,
/// with a buffer of `width * height * 4` bytes.
pub proof fn law_insert_then_get(before: &Library, after: &Library, id: ImageId, image: Image)
    requires
        before.wf(),
        image.wf(),
        !before@.contains_key(id),
        after@ == before@.insert(id, image),
    ensures
        after@.contains_key(id),
        after@[id] == image,
        after@[id].pixels@.len() == 4 * after@[id].width * after@[id].height,
        after@.len() == before@.len() + 1,
{
}

/// Along any run of successful inserts, each storing under an identifier the
/// library did not hold, the identifiers are pairwise distinct and the library
/// grows by one image per insert.
pub proof fn law_insert_run_distinct(states: Seq<Map<ImageId, Image>>, ids: Seq<ImageId>)
    requires
        states.len() == ids.len() + 1,
        states[0].dom().finite(),
        forall|i: int|
            0 <= i < ids.len() ==> !(#[trigger] states[i]).contains_key(ids[i])
                && states[i + 1] == states[i].insert(ids[i], states[i + 1][ids[i]]),
    ensures
        forall|i: int, j: int| 0 <= i < j < ids.len() ==> ids[i] != ids[j],
        states[ids.len() as int].len() == states[0].len() + ids.len(),
{
    assert forall|i: int, j: int| 0 <= i < j < ids.len() implies ids[i] != ids[j] by {
        lemma_run_keeps_id(states, ids, i, j);
    }
    lemma_run_len(states, ids, ids.len() as int);
}

proof fn lemma_run_keeps_id(states: Seq<Map<ImageId, Image>>, ids: Seq<ImageId>, i: int, k: int)
    requires
        states.len() == ids.len() + 1,
        forall|n: int|
            0 <= n < ids.len() ==> !(#[trigger] states[n]).contains_key(ids[n])
                && states[n + 1] == states[n].insert(ids[n], states[n + 1][ids[n]]),
        0 <= i < k <= ids.len(),
    ensures
        states[k].contains_key(ids[i]),
    decreases k - i,
{
    if k > i + 1 {
        lemma_run_keeps_id(states, ids, i, k - 1);
        assert(states[k] == states[k - 1].insert(ids[k - 1], states[k][ids[k - 1]]));
    } else {
        assert(states[i + 1] == states[i].insert(ids[i], states[i + 1][ids[i]]));
    }
}

proof fn lemma_run_len(states: Seq<Map<ImageId, Image>>, ids: Seq<ImageId>, k: int)
    requires
        states.len() == ids.len() + 1,
        states[0].dom().finite(),
        forall|n: int|
            0 <= n < ids.len() ==> !(#[trigger] states[n]).contains_key(ids[n])
                && states[n + 1] == states[n].insert(ids[n], states[n + 1][ids[n]]),
        0 <= k <= ids.len(),
    ensures
        states[k].dom().finite(),
        states[k].len() == states[0].len() + k,
    decreases k,
{
    if k > 0 {
        lemma_run_len(states, ids, k - 1);
        assert(states[k] == states[k - 1].insert(ids[k - 1], states[k][ids[k - 1]]));
    }
}

/// Two successful inserts never return the same identifier: the first one's
/// identifier stays in the library, which only grows, and the second insert
/// returns an identifier that the library did not hold.
pub proof fn law_insert_ids_distinct(
    after_first: Map<ImageId, Image>,
    before_second: Map<ImageId, Image>,
    id1: ImageId,
    id2: ImageId,
)
    requires
        after_first.contains_key(id1),
        after_first.dom().subset_of(before_second.dom()),
        !before_second.contains_key(id2),
    ensures
        id1 != id2,
{
}

} // verus!
