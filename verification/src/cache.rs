//! The texture cache: which textures exist, under which key, and which of
//! them go away when the next frame begins.
//!
//! A texture that a frame declares free is still bound by the commands that
//! the frame submits, so the cache keeps it until the following frame.
//!
//! Deltas create and update managed textures only. A delta that carries a
//! whole image creates the texture anew, whatever its key held before. A
//! delta that updates a region needs a texture to write into: one that names
//! a texture which the cache does not hold, or reaches outside the texture,
//! is turned down, and so is any delta that names a user texture. User
//! textures come by registration and go, like the others, one frame after a
//! frame declared them free.

use crate::int_map::{
    int_map_contents, int_map_get, int_map_insert, int_map_len, int_map_max_len, int_map_new,
    int_map_remove,
};
use crate::texture::{
    delta_applied, delta_command, delta_error, first_error, first_user_delta, lemma_deltas_agree,
    lemma_first_error, managed_after, only_managed, sampler_for, EguiTexture, ImageDelta,
    RegisterError, TextureCommand, TextureError, TextureErrorKind, TextureFilter, TextureId,
    TexturesDelta, BYTES_PER_PIXEL,
};
use intmap::IntMap;
use vstd::prelude::*;

verus! {

/// The textures that the painter keeps track of.
pub struct TextureCache {
    managed_textures: IntMap<EguiTexture>,
    user_textures: IntMap<EguiTexture>,
    next_user_texture_id: u64,
    delete_textures: Vec<TextureId>,
}

/// What a texture cache holds.
#[verifier::ext_equal]
pub struct Textures {
    /// The managed textures, by key.
    pub managed: Map<u64, EguiTexture>,
    /// The user textures, by key.
    pub user: Map<u64, EguiTexture>,
    /// The key that the next user texture gets.
    pub next_user_texture_id: u64,
    /// The textures that the last frame declared free, in its order.
    pub delete_textures: Seq<TextureId>,
}

/// What the device has to do for the texture deltas of one frame.
#[derive(Clone, Debug, PartialEq, Eq)]
pub struct TexturePlan {
    /// The textures to drop, before anything is created.
    pub removed: Vec<TextureId>,
    /// One command for each delta of the frame, in the frame's order.
    pub commands: Vec<TextureCommand>,
}

/// The managed keys that `ids` names.
pub open spec fn managed_keys(ids: Seq<TextureId>) -> Set<u64> {
    Set::new(|key: u64| ids.contains(TextureId::Managed(key)))
}

/// The user keys that `ids` names.
pub open spec fn user_keys(ids: Seq<TextureId>) -> Set<u64> {
    Set::new(|key: u64| ids.contains(TextureId::User(key)))
}

impl Textures {
    /// A cache without textures, whose first user texture gets key 0.
    pub open spec fn empty() -> Textures {
        Textures {
            managed: Map::empty(),
            user: Map::empty(),
            next_user_texture_id: 0,
            delete_textures: Seq::empty(),
        }
    }

    /// Neither map holds more entries than a map may be given, and no user
    /// texture has a key that is still to be handed out.
    pub open spec fn wf(self) -> bool {
        &&& self.managed.dom().finite()
        &&& self.managed.dom().len() <= int_map_max_len()
        &&& self.user.dom().finite()
        &&& self.user.dom().len() <= int_map_max_len()
        &&& forall|key: u64| #[trigger]
            self.user.contains_key(key) ==> key < self.next_user_texture_id
    }

    /// The record of a texture, if the cache holds it.
    pub open spec fn get(self, id: TextureId) -> Option<EguiTexture> {
        match id {
            TextureId::Managed(key) => if self.managed.contains_key(key) {
                Some(self.managed[key])
            } else {
                None
            },
            TextureId::User(key) => if self.user.contains_key(key) {
                Some(self.user[key])
            } else {
                None
            },
        }
    }

    /// The cache without the textures that `ids` names.
    pub open spec fn without(self, ids: Seq<TextureId>) -> Textures {
        Textures {
            managed: self.managed.remove_keys(managed_keys(ids)),
            user: self.user.remove_keys(user_keys(ids)),
            next_user_texture_id: self.next_user_texture_id,
            delete_textures: self.delete_textures,
        }
    }

    /// The managed textures at the moment the deltas of the next frame start
    /// to apply: what the last frame declared free is gone.
    pub open spec fn kept_managed(self) -> Map<u64, EguiTexture> {
        self.without(self.delete_textures).managed
    }

    /// The cache after a frame of which the first `n` deltas were applied:
    /// the textures that the frame before declared free are gone, those that
    /// this frame declares free are noted and still there.
    pub open spec fn after_deltas(
        self,
        set: Seq<(TextureId, ImageDelta)>,
        free: Seq<TextureId>,
        n: int,
    ) -> Textures {
        Textures {
            managed: managed_after(self.kept_managed(), set, n),
            user: self.without(self.delete_textures).user,
            next_user_texture_id: self.next_user_texture_id,
            delete_textures: free,
        }
    }

    /// The first delta of the frame that cannot be applied, and why; `None`
    /// if all of them can.
    pub open spec fn frame_error(self, set: Seq<(TextureId, ImageDelta)>) -> Option<TextureError> {
        first_error(self.kept_managed(), set, set.len() as int)
    }

    /// How many deltas of the frame are applied: all of them, or those
    /// before the first that cannot be.
    pub open spec fn applied(self, set: Seq<(TextureId, ImageDelta)>) -> int {
        match self.frame_error(set) {
            Some(error) => error.index as int,
            None => set.len() as int,
        }
    }

    /// The cache after the texture step of a frame.
    pub open spec fn after_frame(self, set: Seq<(TextureId, ImageDelta)>, free: Seq<TextureId>) -> Textures {
        self.after_deltas(set, free, self.applied(set))
    }

    /// Why no user texture can be registered, or `None` if one can: the
    /// identifiers are looked at first, then the room in the cache.
    pub open spec fn register_error(self) -> Option<RegisterError> {
        if self.next_user_texture_id == u64::MAX {
            Some(RegisterError::IdentifiersExhausted)
        } else if self.user.dom().len() >= int_map_max_len() {
            Some(RegisterError::CacheFull)
        } else {
            None
        }
    }

    /// The cache after one more user texture was registered.
    pub open spec fn registered(self, sampler: TextureFilter) -> Textures {
        Textures {
            managed: self.managed,
            user: self.user.insert(
                self.next_user_texture_id,
                EguiTexture { size: None, sampler },
            ),
            next_user_texture_id: (self.next_user_texture_id + 1) as u64,
            delete_textures: self.delete_textures,
        }
    }
}

/// The commands for the deltas of a frame, one for each.
pub open spec fn frame_commands(set: Seq<(TextureId, ImageDelta)>) -> Seq<TextureCommand> {
    Seq::new(set.len(), |i: int| delta_command(set[i].0, set[i].1))
}

impl View for TextureCache {
    type V = Textures;

    closed spec fn view(&self) -> Textures {
        Textures {
            managed: int_map_contents(self.managed_textures),
            user: int_map_contents(self.user_textures),
            next_user_texture_id: self.next_user_texture_id,
            delete_textures: self.delete_textures@,
        }
    }
}

impl TextureCache {
    /// A cache without textures, whose first user texture gets key 0.
    pub fn new() -> (cache: TextureCache)
        ensures
            cache@.wf(),
            cache@ == Textures::empty(),
    {
        TextureCache {
            managed_textures: int_map_new(),
            user_textures: int_map_new(),
            next_user_texture_id: 0,
            delete_textures: Vec::new(),
        }
    }

    /// The record of a texture, if the cache holds it.
    pub fn get(&self, id: TextureId) -> (found: Option<&EguiTexture>)
        ensures
            match found {
                Some(texture) => self@.get(id) == Some(*texture),
                None => self@.get(id).is_none(),
            },
    {
        match id {
            TextureId::Managed(key) => int_map_get(&self.managed_textures, key),
            TextureId::User(key) => int_map_get(&self.user_textures, key),
        }
    }

    /// Drops the textures that `ids` names; a name that the cache does not
    /// hold is passed over.
    fn remove_each(&mut self, ids: &Vec<TextureId>)
        requires
            old(self)@.wf(),
        ensures
            final(self)@.wf(),
            final(self)@ == old(self)@.without(ids@),
    {
        let ghost before = self@;
        let mut i: usize = 0;
        proof {
            lemma_no_keys_named();
        }
        while i < ids.len()
            invariant
                i <= ids.len(),
                self@.wf(),
                self@ == before.without(ids@.take(i as int)),
            decreases ids.len() - i,
        {
            proof {
                lemma_keys_named_push(ids@.take(i as int), ids@[i as int]);
                assert(ids@.take(i + 1) == ids@.take(i as int).push(ids@[i as int]));
            }
            match ids[i] {
                TextureId::Managed(key) => {
                    int_map_remove(&mut self.managed_textures, key);
                },
                TextureId::User(key) => {
                    int_map_remove(&mut self.user_textures, key);
                },
            }
            i += 1;
        }
        assert(ids@.take(ids.len() as int) == ids@);
    }

    /// Applies one delta to a managed texture, or says why it cannot be
    /// applied and leaves the cache as it is.
    fn apply_delta(&mut self, id: TextureId, delta: &ImageDelta) -> (result: Result<
        TextureCommand,
        TextureErrorKind,
    >)
        requires
            old(self)@.wf(),
            id is Managed,
        ensures
            final(self)@.wf(),
            final(self)@.user == old(self)@.user,
            final(self)@.next_user_texture_id == old(self)@.next_user_texture_id,
            final(self)@.delete_textures == old(self)@.delete_textures,
            match result {
                Ok(command) => {
                    &&& delta_error(old(self)@.managed, id, *delta).is_none()
                    &&& command == delta_command(id, *delta)
                    &&& final(self)@.managed == delta_applied(old(self)@.managed, id, *delta)
                },
                Err(kind) => {
                    &&& delta_error(old(self)@.managed, id, *delta) == Some(kind)
                    &&& final(self)@.managed == old(self)@.managed
                },
            },
    {
        let key: u64 = match id {
            TextureId::Managed(key) => key,
            TextureId::User(_) => vstd::pervasive::unreached(),
        };
        let width: usize = delta.size[0];
        let height: usize = delta.size[1];
        if width == 0 || height == 0 {
            return Err(TextureErrorKind::EmptyImage);
        }
        if width > (u32::MAX / BYTES_PER_PIXEL) as usize || height > u32::MAX as usize {
            return Err(TextureErrorKind::ImageTooLarge);
        }
        let bytes_per_row: u32 = width as u32 * BYTES_PER_PIXEL;
        match delta.pos {
            None => {
                if int_map_get(&self.managed_textures, key).is_none() && int_map_len(
                    &self.managed_textures,
                ) >= usize::MAX / 1000 {
                    return Err(TextureErrorKind::CacheFull);
                }
                let sampler: TextureFilter = sampler_for(key, delta.magnification);
                let texture = EguiTexture { size: Some([width as u32, height as u32]), sampler };
                proof {
                    let held = int_map_contents(self.managed_textures).dom();
                    if held.contains(key) {
                        assert(held.insert(key) == held);
                    }
                }
                int_map_insert(&mut self.managed_textures, key, texture);
                Ok(
                    TextureCommand::Create {
                        texture_id: key,
                        width: width as u32,
                        height: height as u32,
                        bytes_per_row,
                        sampler,
                    },
                )
            },
            Some(pos) => {
                let extent: [u32; 2] = match int_map_get(&self.managed_textures, key) {
                    None => {
                        return Err(TextureErrorKind::MissingTexture);
                    },
                    Some(texture) => match texture.size {
                        None => {
                            return Err(TextureErrorKind::OutOfBounds);
                        },
                        Some(extent) => extent,
                    },
                };
                if pos[0] > extent[0] as usize || width > extent[0] as usize - pos[0] || pos[1]
                    > extent[1] as usize || height > extent[1] as usize - pos[1] {
                    return Err(TextureErrorKind::OutOfBounds);
                }
                Ok(
                    TextureCommand::Write {
                        texture_id: key,
                        x: pos[0] as u32,
                        y: pos[1] as u32,
                        width: width as u32,
                        height: height as u32,
                        bytes_per_row,
                    },
                )
            },
        }
    }

    /// Applies deltas to managed textures in order and returns one command
    /// for each. It stops at the first delta that cannot be applied and
    /// reports it; the deltas before it stay applied. A delta that names a
    /// user texture is not among the inputs: there is nothing that could be
    /// done for it.
    pub fn set_textures(&mut self, set: &Vec<(TextureId, ImageDelta)>) -> (result: Result<
        Vec<TextureCommand>,
        TextureError,
    >)
        requires
            old(self)@.wf(),
            only_managed(set@),
        ensures
            final(self)@.wf(),
            final(self)@.user == old(self)@.user,
            final(self)@.next_user_texture_id == old(self)@.next_user_texture_id,
            final(self)@.delete_textures == old(self)@.delete_textures,
            match result {
                Ok(commands) => {
                    &&& first_error(old(self)@.managed, set@, set.len() as int).is_none()
                    &&& final(self)@.managed == managed_after(
                        old(self)@.managed,
                        set@,
                        set.len() as int,
                    )
                    &&& commands@ == frame_commands(set@)
                },
                Err(error) => {
                    &&& first_error(old(self)@.managed, set@, set.len() as int) == Some(error)
                    &&& error.index < set.len()
                    &&& final(self)@.managed == managed_after(
                        old(self)@.managed,
                        set@,
                        error.index as int,
                    )
                },
            },
    {
        let ghost before = self@;
        let mut commands: Vec<TextureCommand> = Vec::new();
        let mut i: usize = 0;
        while i < set.len()
            invariant
                i <= set.len(),
                before == old(self)@,
                only_managed(set@),
                self@.wf(),
                self@.user == before.user,
                self@.next_user_texture_id == before.next_user_texture_id,
                self@.delete_textures == before.delete_textures,
                self@.managed == managed_after(before.managed, set@, i as int),
                first_error(before.managed, set@, i as int).is_none(),
                commands@ == frame_commands(set@.take(i as int)),
            decreases set.len() - i,
        {
            let id: TextureId = set[i].0;
            let delta: &ImageDelta = &set[i].1;
            match self.apply_delta(id, delta) {
                Ok(command) => {
                    commands.push(command);
                },
                Err(kind) => {
                    proof {
                        lemma_first_error(before.managed, set@, i + 1, set.len() as int);
                    }
                    return Err(TextureError { index: i, kind });
                },
            }
            assert(set@.take(i + 1) == set@.take(i as int).push(set@[i as int]));
            assert(commands@ == frame_commands(set@.take(i + 1)));
            i += 1;
        }
        proof {
            assert(set@.take(set.len() as int) == set@);
        }
        Ok(commands)
    }

    /// The texture step of a frame. First the textures that the frame before
    /// declared free are dropped, then the ones that this frame declares free
    /// are noted for the next frame, then this frame's deltas are applied in
    /// order, up to the first that cannot be applied, which is reported. The
    /// deltas are looked through for one that names a user texture before
    /// they are applied, and only those before it are.
    pub fn apply_deltas(&mut self, delta: TexturesDelta) -> (result: Result<TexturePlan, TextureError>)
        requires
            old(self)@.wf(),
        ensures
            final(self)@.wf(),
            final(self)@ == old(self)@.after_frame(delta.set@, delta.free@),
            match result {
                Ok(plan) => {
                    &&& old(self)@.frame_error(delta.set@).is_none()
                    &&& plan.removed@ == old(self)@.delete_textures
                    &&& plan.commands@ == frame_commands(delta.set@)
                },
                Err(error) => old(self)@.frame_error(delta.set@) == Some(error),
            },
    {
        let TexturesDelta { set, free } = delta;
        let mut set: Vec<(TextureId, ImageDelta)> = set;
        let mut removed: Vec<TextureId> = free;
        core::mem::swap(&mut self.delete_textures, &mut removed);
        self.remove_each(&removed);
        let ghost kept = self@.managed;
        match first_user_delta(&set) {
            None => match self.set_textures(&set) {
                Ok(commands) => Ok(TexturePlan { removed, commands }),
                Err(error) => Err(error),
            },
            Some(position) => {
                set.truncate(position);
                proof {
                    assert(set@ == delta.set@.take(position as int));
                    lemma_deltas_agree(kept, set@, delta.set@, position as int);
                }
                match self.set_textures(&set) {
                    Ok(_) => {
                        proof {
                            lemma_first_error(
                                kept,
                                delta.set@,
                                position + 1,
                                delta.set@.len() as int,
                            );
                        }
                        Err(TextureError { index: position, kind: TextureErrorKind::UserTexture })
                    },
                    Err(error) => {
                        proof {
                            lemma_deltas_agree(kept, set@, delta.set@, error.index as int);
                            lemma_first_error(
                                kept,
                                delta.set@,
                                position as int,
                                delta.set@.len() as int,
                            );
                        }
                        Err(error)
                    },
                }
            },
        }
    }

    /// Registers a user texture whose sampler magnifies with `sampler`, under
    /// the next free key, which is one more than the key handed out before.
    pub fn register_native_texture_with_sampler_options(&mut self, sampler: TextureFilter) -> (result:
        Result<TextureId, RegisterError>)
        requires
            old(self)@.wf(),
        ensures
            final(self)@.wf(),
            match result {
                Ok(id) => {
                    &&& old(self)@.register_error().is_none()
                    &&& id == TextureId::User(old(self)@.next_user_texture_id)
                    &&& old(self)@.get(id).is_none()
                    &&& final(self)@ == old(self)@.registered(sampler)
                    &&& final(self)@.get(id) == Some(EguiTexture { size: None, sampler })
                },
                Err(error) => {
                    &&& old(self)@.register_error() == Some(error)
                    &&& final(self)@ == old(self)@
                },
            },
    {
        let key: u64 = self.next_user_texture_id;
        if key == u64::MAX {
            return Err(RegisterError::IdentifiersExhausted);
        }
        if int_map_len(&self.user_textures) >= usize::MAX / 1000 {
            return Err(RegisterError::CacheFull);
        }
        int_map_insert(&mut self.user_textures, key, EguiTexture { size: None, sampler });
        self.next_user_texture_id = key + 1;
        Ok(TextureId::User(key))
    }

    /// Registers a user texture that is sampled with `texture_filter` in both
    /// directions.
    pub fn register_native_texture(&mut self, texture_filter: TextureFilter) -> (result: Result<
        TextureId,
        RegisterError,
    >)
        requires
            old(self)@.wf(),
        ensures
            final(self)@.wf(),
            match result {
                Ok(id) => {
                    &&& old(self)@.register_error().is_none()
                    &&& id == TextureId::User(old(self)@.next_user_texture_id)
                    &&& old(self)@.get(id).is_none()
                    &&& final(self)@ == old(self)@.registered(texture_filter)
                    &&& final(self)@.get(id) == Some(
                        EguiTexture { size: None, sampler: texture_filter },
                    )
                },
                Err(error) => {
                    &&& old(self)@.register_error() == Some(error)
                    &&& final(self)@ == old(self)@
                },
            },
    {
        self.register_native_texture_with_sampler_options(texture_filter)
    }

    /// The key that the next user texture gets.
    pub fn next_user_texture_id(&self) -> (next: u64)
        ensures
            next == self@.next_user_texture_id,
    {
        self.next_user_texture_id
    }

    /// The textures that the last frame declared free and that are dropped
    /// when the next frame begins.
    pub fn pending_free(&self) -> (pending: &Vec<TextureId>)
        ensures
            pending@ == self@.delete_textures,
    {
        &self.delete_textures
    }
}

/// Deltas that do not name a managed key leave what the cache holds under it.
pub proof fn lemma_unnamed_key_stays(
    managed: Map<u64, EguiTexture>,
    set: Seq<(TextureId, ImageDelta)>,
    n: int,
    key: u64,
)
    requires
        0 <= n <= set.len(),
        forall|i: int| 0 <= i < n ==> (#[trigger] set[i]).0 != TextureId::Managed(key),
    ensures
        managed_after(managed, set, n).contains_key(key) == managed.contains_key(key),
        managed.contains_key(key) ==> managed_after(managed, set, n)[key] == managed[key],
    decreases n,
{
    if n > 0 {
        lemma_unnamed_key_stays(managed, set, n - 1, key);
        assert(set[n - 1].0 != TextureId::Managed(key));
    }
}

/// A texture that a delta creates is there after the deltas that follow.
pub proof fn lemma_created_key_stays(
    managed: Map<u64, EguiTexture>,
    set: Seq<(TextureId, ImageDelta)>,
    n: int,
    created: int,
    key: u64,
)
    requires
        0 <= created < n <= set.len(),
        set[created].0 == TextureId::Managed(key),
        set[created].1.pos.is_none(),
    ensures
        managed_after(managed, set, n).contains_key(key),
    decreases n,
{
    if created < n - 1 {
        lemma_created_key_stays(managed, set, n - 1, created, key);
    }
}

/// A texture that a frame declares free goes one frame later, never in the
/// frame that says so. In the frame that declares it free the declaration
/// plays no part: the textures after that frame are what its deltas make of
/// the textures that were kept, and a texture that the frame creates is
/// there. The frame after it starts without the texture, so the texture is
/// gone after that frame unless one of its deltas names it.
pub proof fn lemma_free_waits_one_frame(
    cache: Textures,
    first_set: Seq<(TextureId, ImageDelta)>,
    first_free: Seq<TextureId>,
    second_set: Seq<(TextureId, ImageDelta)>,
    second_free: Seq<TextureId>,
    id: TextureId,
)
    requires
        first_free.contains(id),
        cache.frame_error(first_set).is_none(),
        cache.after_frame(first_set, first_free).frame_error(second_set).is_none(),
    ensures
        cache.after_frame(first_set, first_free).managed == cache.after_frame(
            first_set,
            Seq::empty(),
        ).managed,
        cache.after_frame(first_set, first_free).user == cache.after_frame(
            first_set,
            Seq::empty(),
        ).user,
        (id is Managed && exists|i: int|
            0 <= i < first_set.len() && (#[trigger] first_set[i]).0 == id
                && first_set[i].1.pos.is_none()) ==> cache.after_frame(
            first_set,
            first_free,
        ).get(id).is_some(),
        cache.after_frame(first_set, first_free).after_frame(second_set, second_free).managed
            == managed_after(
            cache.after_frame(first_set, first_free).managed.remove_keys(managed_keys(first_free)),
            second_set,
            second_set.len() as int,
        ),
        cache.after_frame(first_set, first_free).after_frame(second_set, second_free).user
            == cache.after_frame(first_set, first_free).user.remove_keys(user_keys(first_free)),
        (forall|i: int| 0 <= i < second_set.len() ==> (#[trigger] second_set[i]).0 != id)
            ==> cache.after_frame(first_set, first_free).after_frame(
            second_set,
            second_free,
        ).get(id).is_none(),
{
    let first = cache.after_frame(first_set, first_free);
    match id {
        TextureId::Managed(key) => {
            if exists|i: int|
                0 <= i < first_set.len() && (#[trigger] first_set[i]).0 == id
                    && first_set[i].1.pos.is_none() {
                let i = choose|i: int|
                    0 <= i < first_set.len() && (#[trigger] first_set[i]).0 == id
                        && first_set[i].1.pos.is_none();
                lemma_created_key_stays(
                    cache.kept_managed(),
                    first_set,
                    first_set.len() as int,
                    i,
                    key,
                );
            }
            if forall|i: int| 0 <= i < second_set.len() ==> (#[trigger] second_set[i]).0 != id {
                lemma_unnamed_key_stays(
                    first.kept_managed(),
                    second_set,
                    second_set.len() as int,
                    key,
                );
            }
        },
        TextureId::User(key) => {},
    }
}

/// Registering hands out the keys in increasing order, each of them new to
/// the cache, and a texture is found under its key as soon as it is
/// registered, whatever is registered after it.
pub proof fn lemma_registered_keys_increase(cache: Textures, first: TextureFilter, second: TextureFilter)
    requires
        cache.wf(),
        cache.next_user_texture_id + 1 < u64::MAX,
    ensures
        cache.get(TextureId::User(cache.next_user_texture_id)).is_none(),
        cache.registered(first).get(TextureId::User(cache.next_user_texture_id)) == Some(
            EguiTexture { size: None, sampler: first },
        ),
        cache.registered(first).next_user_texture_id == cache.next_user_texture_id + 1,
        cache.registered(first).get(
            TextureId::User(cache.registered(first).next_user_texture_id),
        ).is_none(),
        cache.registered(first).registered(second).get(
            TextureId::User(cache.registered(first).next_user_texture_id),
        ) == Some(EguiTexture { size: None, sampler: second }),
        cache.registered(first).registered(second).get(
            TextureId::User(cache.next_user_texture_id),
        ) == Some(EguiTexture { size: None, sampler: first }),
{
    let once = cache.registered(first);
    assert(!cache.user.contains_key(cache.next_user_texture_id));
    assert(!cache.user.contains_key(once.next_user_texture_id));
}

/// An empty list names no key.
proof fn lemma_no_keys_named()
    ensures
        managed_keys(Seq::<TextureId>::empty()) == Set::<u64>::empty(),
        user_keys(Seq::<TextureId>::empty()) == Set::<u64>::empty(),
{
    assert(managed_keys(Seq::<TextureId>::empty()) =~= Set::<u64>::empty());
    assert(user_keys(Seq::<TextureId>::empty()) =~= Set::<u64>::empty());
}

/// One more name adds its key to the keys of its kind, and none to the other.
proof fn lemma_keys_named_push(ids: Seq<TextureId>, id: TextureId)
    ensures
        managed_keys(ids.push(id)) == match id {
            TextureId::Managed(key) => managed_keys(ids).insert(key),
            TextureId::User(_) => managed_keys(ids),
        },
        user_keys(ids.push(id)) == match id {
            TextureId::Managed(_) => user_keys(ids),
            TextureId::User(key) => user_keys(ids).insert(key),
        },
{
    let longer = ids.push(id);
    assert forall|other: TextureId| longer.contains(other) <==> (ids.contains(other) || other == id) by {
        if ids.contains(other) {
            let i = choose|i: int| 0 <= i < ids.len() && ids[i] == other;
            assert(longer[i] == other);
        }
        if other == id {
            assert(longer[ids.len() as int] == other);
        }
    }
    match id {
        TextureId::Managed(key) => {
            assert(managed_keys(longer) =~= managed_keys(ids).insert(key));
            assert(user_keys(longer) =~= user_keys(ids));
        },
        TextureId::User(key) => {
            assert(managed_keys(longer) =~= managed_keys(ids));
            assert(user_keys(longer) =~= user_keys(ids).insert(key));
        },
    }
}

} // verus!
