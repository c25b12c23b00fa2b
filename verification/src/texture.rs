//! Texture identifiers and what the painter records of each texture.

use vstd::prelude::*;

verus! {

/// The key of a texture: managed textures are created, updated and freed by
/// the per-frame deltas; user textures wrap a view that somebody else owns.
#[derive(Clone, Copy, Debug, PartialEq, Eq, Hash, Structural)]
pub enum TextureId {
    Managed(u64),
    User(u64),
}

/// How a texture is sampled when it is magnified.
#[derive(Clone, Copy, Debug, PartialEq, Eq, Hash, Structural)]
pub enum TextureFilter {
    Nearest,
    Linear,
}

/// What the cache records of one texture and of the bind group built for it.
#[derive(Clone, Copy, Debug, PartialEq, Eq)]
pub struct EguiTexture {
    /// Width and height in pixels of the texture that the painter owns;
    /// `None` for a user texture, whose memory belongs to somebody else.
    pub size: Option<[u32; 2]>,
    /// The filter of the sampler that the bind group was built with.
    pub sampler: TextureFilter,
}

/// One texture update of a frame: an image, and where it goes.
#[derive(Clone, Copy, Debug, PartialEq, Eq)]
pub struct ImageDelta {
    /// Width and height in pixels of the image that the delta carries.
    pub size: [usize; 2],
    /// `None`: the image is the whole texture, which is created anew.
    /// `Some([x, y])`: the image replaces the region of the existing texture
    /// whose top-left corner is `(x, y)`.
    pub pos: Option<[usize; 2]>,
    /// The filter asked for when the texture is magnified.
    pub magnification: TextureFilter,
}

/// The texture changes of one frame.
#[derive(Clone, Debug, PartialEq, Eq)]
pub struct TexturesDelta {
    /// Textures to create or update, in the order in which they apply.
    pub set: Vec<(TextureId, ImageDelta)>,
    /// Textures that are no longer needed once this frame has been drawn.
    pub free: Vec<TextureId>,
}

/// What has to happen on the device for one texture delta.
#[derive(Clone, Copy, Debug, PartialEq, Eq)]
pub enum TextureCommand {
    /// Allocate a texture of this size, upload the delta's image into it,
    /// build a view and a bind group with the given sampler, and let them
    /// take the place of whatever the key held before.
    Create { texture_id: u64, width: u32, height: u32, bytes_per_row: u32, sampler: TextureFilter },
    /// Write the delta's image into the region of the existing texture that
    /// starts at `(x, y)`; its bind group stays as it is.
    Write { texture_id: u64, x: u32, y: u32, width: u32, height: u32, bytes_per_row: u32 },
}

/// Why a texture delta was turned down.
#[derive(Clone, Copy, Debug, PartialEq, Eq, Structural)]
pub enum TextureErrorKind {
    /// The delta names a user texture; those are registered, never uploaded.
    /// The deltas of a frame are looked through for one before they are
    /// applied.
    UserTexture,
    /// The image has no pixels.
    EmptyImage,
    /// A row of the image takes more bytes, or the image has more rows, than
    /// 32 bits can count.
    ImageTooLarge,
    /// The delta would add a texture to a cache that can hold no more.
    CacheFull,
    /// The delta updates a region of a texture that the cache does not hold.
    MissingTexture,
    /// The region that the delta updates reaches outside the texture.
    OutOfBounds,
}

/// The first delta of a frame that was turned down, and why.
#[derive(Clone, Copy, Debug, PartialEq, Eq, Structural)]
pub struct TextureError {
    /// Position of the delta in the frame's list.
    pub index: usize,
    pub kind: TextureErrorKind,
}

/// Why a user texture could not be registered.
#[derive(Clone, Copy, Debug, PartialEq, Eq, Structural)]
pub enum RegisterError {
    /// The cache can hold no more user textures.
    CacheFull,
    /// Every identifier has been handed out.
    IdentifiersExhausted,
}

/// Bytes that one pixel takes in a texture.
pub const BYTES_PER_PIXEL: u32 = 4;

/// The sampler of a managed texture: the font atlas, which is texture 0, is
/// always sampled nearest; every other texture as the delta asks.
pub open spec fn spec_sampler_for(texture_id: u64, requested: TextureFilter) -> TextureFilter {
    if texture_id == 0 {
        TextureFilter::Nearest
    } else {
        requested
    }
}

/// The sampler of a managed texture: the font atlas, which is texture 0, is
/// always sampled nearest; every other texture as the delta asks.
#[verifier::when_used_as_spec(spec_sampler_for)]
pub fn sampler_for(texture_id: u64, requested: TextureFilter) -> (sampler: TextureFilter)
    ensures
        sampler == spec_sampler_for(texture_id, requested),
{
    if texture_id == 0 {
        TextureFilter::Nearest
    } else {
        requested
    }
}

/// Whether a region of the given size at `pos` lies inside the texture.
pub open spec fn region_fits(texture: EguiTexture, pos: [usize; 2], size: [usize; 2]) -> bool {
    match texture.size {
        Some(extent) => pos[0] + size[0] <= extent[0] && pos[1] + size[1] <= extent[1],
        None => false,
    }
}

/// Why the delta cannot be applied to a cache that holds `managed`, or `None`
/// if it can.
pub open spec fn delta_error(managed: Map<u64, EguiTexture>, id: TextureId, delta: ImageDelta) -> Option<
    TextureErrorKind,
> {
    match id {
        TextureId::User(_) => Some(TextureErrorKind::UserTexture),
        TextureId::Managed(key) => if delta.size[0] == 0 || delta.size[1] == 0 {
            Some(TextureErrorKind::EmptyImage)
        } else if delta.size[0] * BYTES_PER_PIXEL > u32::MAX || delta.size[1] > u32::MAX {
            Some(TextureErrorKind::ImageTooLarge)
        } else {
            match delta.pos {
                None => if !managed.contains_key(key) && managed.dom().len()
                    >= crate::int_map::int_map_max_len() {
                    Some(TextureErrorKind::CacheFull)
                } else {
                    None
                },
                Some(pos) => if !managed.contains_key(key) {
                    Some(TextureErrorKind::MissingTexture)
                } else if !region_fits(managed[key], pos, delta.size) {
                    Some(TextureErrorKind::OutOfBounds)
                } else {
                    None
                },
            }
        },
    }
}

/// The record of the texture that a delta carrying a whole image creates.
pub open spec fn created_texture(key: u64, delta: ImageDelta) -> EguiTexture {
    EguiTexture {
        size: Some([delta.size[0] as u32, delta.size[1] as u32]),
        sampler: spec_sampler_for(key, delta.magnification),
    }
}

/// The managed textures after a delta that can be applied: a whole image
/// takes the place of the entry under its key, an update of a region leaves
/// the records as they are.
pub open spec fn delta_applied(managed: Map<u64, EguiTexture>, id: TextureId, delta: ImageDelta) -> Map<
    u64,
    EguiTexture,
> {
    match (id, delta.pos) {
        (TextureId::Managed(key), None) => managed.insert(key, created_texture(key, delta)),
        _ => managed,
    }
}

/// What the device is asked to do for a delta that can be applied.
pub open spec fn delta_command(id: TextureId, delta: ImageDelta) -> TextureCommand {
    let texture_id = match id {
        TextureId::Managed(key) => key,
        TextureId::User(key) => key,
    };
    match delta.pos {
        None => TextureCommand::Create {
            texture_id,
            width: delta.size[0] as u32,
            height: delta.size[1] as u32,
            bytes_per_row: (delta.size[0] * BYTES_PER_PIXEL) as u32,
            sampler: spec_sampler_for(texture_id, delta.magnification),
        },
        Some(pos) => TextureCommand::Write {
            texture_id,
            x: pos[0] as u32,
            y: pos[1] as u32,
            width: delta.size[0] as u32,
            height: delta.size[1] as u32,
            bytes_per_row: (delta.size[0] * BYTES_PER_PIXEL) as u32,
        },
    }
}

/// The managed textures after the first `n` deltas of `set` were applied in
/// order to `managed`.
pub open spec fn managed_after(
    managed: Map<u64, EguiTexture>,
    set: Seq<(TextureId, ImageDelta)>,
    n: int,
) -> Map<u64, EguiTexture>
    decreases n,
{
    if n <= 0 {
        managed
    } else {
        delta_applied(managed_after(managed, set, n - 1), set[n - 1].0, set[n - 1].1)
    }
}

/// Whether every delta of `set` names a managed texture.
pub open spec fn only_managed(set: Seq<(TextureId, ImageDelta)>) -> bool {
    forall|i: int| 0 <= i < set.len() ==> (#[trigger] set[i]).0 is Managed
}

/// Looks for a delta that names a user texture, and returns the position of
/// the first one.
pub fn first_user_delta(set: &Vec<(TextureId, ImageDelta)>) -> (found: Option<usize>)
    ensures
        match found {
            Some(position) => {
                &&& position < set@.len()
                &&& set@[position as int].0 is User
                &&& only_managed(set@.take(position as int))
            },
            None => only_managed(set@),
        },
{
    let mut i: usize = 0;
    while i < set.len()
        invariant
            i <= set.len(),
            only_managed(set@.take(i as int)),
        decreases set.len() - i,
    {
        match set[i].0 {
            TextureId::User(_) => {
                return Some(i);
            },
            TextureId::Managed(_) => {},
        }
        assert(set@.take(i + 1) == set@.take(i as int).push(set@[i as int]));
        i += 1;
    }
    assert(set@.take(set@.len() as int) == set@);
    None
}

/// The first of the first `n` deltas of `set` that cannot be applied, given
/// what the ones before it left, and why; `None` if all of them can.
pub open spec fn first_error(
    managed: Map<u64, EguiTexture>,
    set: Seq<(TextureId, ImageDelta)>,
    n: int,
) -> Option<TextureError>
    decreases n,
{
    if n <= 0 {
        None
    } else {
        match first_error(managed, set, n - 1) {
            Some(error) => Some(error),
            None => match delta_error(
                managed_after(managed, set, n - 1),
                set[n - 1].0,
                set[n - 1].1,
            ) {
                Some(kind) => Some(TextureError { index: (n - 1) as usize, kind }),
                None => None,
            },
        }
    }
}

/// The first error is the error of the delta that it names, every delta
/// before that one can be applied, and looking at more deltas does not
/// change it.
pub proof fn lemma_first_error(
    managed: Map<u64, EguiTexture>,
    set: Seq<(TextureId, ImageDelta)>,
    m: int,
    n: int,
)
    requires
        0 <= m <= n <= set.len() <= usize::MAX,
    ensures
        match first_error(managed, set, n) {
            Some(error) => {
                &&& error.index < n
                &&& delta_error(
                    managed_after(managed, set, error.index as int),
                    set[error.index as int].0,
                    set[error.index as int].1,
                ) == Some(error.kind)
                &&& first_error(managed, set, error.index as int).is_none()
            },
            None => forall|i: int|
                0 <= i < n ==> (#[trigger] delta_error(
                    managed_after(managed, set, i),
                    set[i].0,
                    set[i].1,
                )).is_none(),
        },
        first_error(managed, set, m).is_some() ==> first_error(managed, set, n) == first_error(
            managed,
            set,
            m,
        ),
    decreases n,
{
    if n > 0 {
        if m < n {
            lemma_first_error(managed, set, m, n - 1);
        } else {
            lemma_first_error(managed, set, n - 1, n - 1);
        }
    }
}

/// What the first `n` deltas do depends on those deltas alone.
pub proof fn lemma_deltas_agree(
    managed: Map<u64, EguiTexture>,
    one: Seq<(TextureId, ImageDelta)>,
    other: Seq<(TextureId, ImageDelta)>,
    n: int,
)
    requires
        n <= one.len(),
        n <= other.len(),
        forall|i: int| 0 <= i < n ==> one[i] == other[i],
    ensures
        managed_after(managed, one, n) == managed_after(managed, other, n),
        first_error(managed, one, n) == first_error(managed, other, n),
    decreases n,
{
    if n > 0 {
        lemma_deltas_agree(managed, one, other, n - 1);
    }
}

} // verus!
