//! What is to be drawn: for each unit its place and the frame of its sprite. The
//! device that draws is not part of this library.

use vstd::prelude::*;
use vstd::hash_map::StringHashMap;
use crate::models::Unit;
use crate::state::GameState;

verus! {

/// A request to draw one frame of a sprite at a place.
#[derive(Debug)]
pub struct DrawCall {
    pub sprite_id: String,
    pub position: (u32, u32),
    pub frame_index: usize,
}

impl Clone for DrawCall {
    fn clone(&self) -> (copy: Self)
        ensures
            copy == *self,
    {
        DrawCall {
            sprite_id: self.sprite_id.clone(),
            position: (self.position.0, self.position.1),
            frame_index: self.frame_index,
        }
    }
}

/// A draw call with its sprite id as plain text.
pub struct DrawCallView {
    pub sprite_id: Seq<char>,
    pub position: (u32, u32),
    pub frame_index: usize,
}

impl View for DrawCall {
    type V = DrawCallView;

    open spec fn view(&self) -> DrawCallView {
        DrawCallView {
            sprite_id: self.sprite_id@,
            position: self.position,
            frame_index: self.frame_index,
        }
    }
}

/// The views of `calls`, in order.
pub open spec fn calls_view(calls: Seq<DrawCall>) -> Seq<DrawCallView> {
    Seq::new(calls.len(), |i: int| calls[i]@)
}

/// What the renderer records of a sprite: x, y, the frame shown, and how many frames
/// the sprite has.
pub type SpriteRecord = (u32, u32, u32, u32);

/// The frames of the sprites, by sprite id.
pub type Textures = Map<Seq<char>, Vec<Vec<u8>>>;

/// The frame shown of a sprite with `frames` frames when the animation stands at
/// `frame_index`: the frames are gone through round and round.
pub open spec fn frame_shown(frames: nat, frame_index: usize) -> usize {
    if frames > 0 {
        (frame_index as int % frames as int) as usize
    } else {
        0
    }
}

/// The draw call for `unit`, if its sprite is loaded.
pub open spec fn call_for(textures: Textures, unit: Unit) -> Option<DrawCallView> {
    if textures.contains_key(unit.sprite_id@) {
        Some(
            DrawCallView {
                sprite_id: unit.sprite_id@,
                position: (unit.grid_position.x as u32, unit.grid_position.y as u32),
                frame_index: frame_shown(
                    textures[unit.sprite_id@]@.len(),
                    unit.animation_state.frame_index,
                ),
            },
        )
    } else {
        None
    }
}

/// What is recorded for `unit`: its place, and the frame shown and the number of
/// frames of its sprite, or zero for both where the sprite is not loaded.
pub open spec fn record_for(textures: Textures, unit: Unit) -> SpriteRecord {
    let x = unit.grid_position.x as u32;
    let y = unit.grid_position.y as u32;
    if textures.contains_key(unit.sprite_id@) {
        let frames = textures[unit.sprite_id@]@.len();
        (x, y, frame_shown(frames, unit.animation_state.frame_index) as u32, frames as u32)
    } else {
        (x, y, 0, 0)
    }
}

/// The draw calls for `units`, in order.
pub open spec fn calls_for(textures: Textures, units: Seq<Unit>) -> Seq<DrawCallView>
    decreases units.len(),
{
    if units.len() == 0 {
        Seq::empty()
    } else {
        match call_for(textures, units.last()) {
            Some(call) => calls_for(textures, units.drop_last()).push(call),
            None => calls_for(textures, units.drop_last()),
        }
    }
}

/// The records `sprites` with one made for each of `units` under its id, a later one
/// in place of an earlier one under the same id.
pub open spec fn records_for(
    textures: Textures,
    sprites: Map<Seq<char>, SpriteRecord>,
    units: Seq<Unit>,
) -> Map<Seq<char>, SpriteRecord>
    decreases units.len(),
{
    if units.len() == 0 {
        sprites
    } else {
        records_for(textures, sprites, units.drop_last()).insert(
            units.last().id@,
            record_for(textures, units.last()),
        )
    }
}

/// The list of what is to be drawn, and the sprites it is drawn from.
pub struct Renderer {
    pub width: u32,
    pub height: u32,
    /// What was last recorded for each unit, by unit id.
    pub sprites: StringHashMap<SpriteRecord>,
    /// The frames of each loaded sprite, by sprite id.
    pub sprite_textures: StringHashMap<Vec<Vec<u8>>>,
    /// The draw calls of the last rendering.
    pub draw_log: Vec<DrawCall>,
}

impl Renderer {
    /// The draw calls of the last rendering, with their sprite ids as plain text.
    pub open spec fn calls(&self) -> Seq<DrawCallView> {
        calls_view(self.draw_log@)
    }

    /// A renderer for a surface of the given size, with no device behind it, no
    /// sprite loaded and nothing drawn.
    pub fn new_headless(width: u32, height: u32) -> (renderer: Self)
        ensures
            renderer.width == width,
            renderer.height == height,
            renderer.sprites@ == Map::<Seq<char>, SpriteRecord>::empty(),
            renderer.sprite_textures@ == Map::<Seq<char>, Vec<Vec<u8>>>::empty(),
            renderer.draw_log@.len() == 0,
    {
        Renderer {
            width,
            height,
            sprites: StringHashMap::new(),
            sprite_textures: StringHashMap::new(),
            draw_log: Vec::new(),
        }
    }

    /// Loads the frames of the sprite `id`, in place of what was loaded under that id.
    pub fn load_sprite_from_bytes(&mut self, id: &str, frames: Vec<Vec<u8>>)
        ensures
            final(self).sprite_textures@ == old(self).sprite_textures@.insert(id@, frames),
            final(self).width == old(self).width,
            final(self).height == old(self).height,
            final(self).sprites == old(self).sprites,
            final(self).draw_log == old(self).draw_log,
    {
        self.sprite_textures.insert(id.to_owned(), frames);
    }

    /// Renders `state`: the draw log is begun anew and gets one call for each unit
    /// whose sprite is loaded, and a record is made for every unit under its id.
    pub fn render_state(&mut self, state: &GameState)
        ensures
            final(self).calls() == calls_for(old(self).sprite_textures@, state.units@),
            final(self).sprites@ == records_for(
                old(self).sprite_textures@,
                old(self).sprites@,
                state.units@,
            ),
            final(self).sprite_textures == old(self).sprite_textures,
            final(self).width == old(self).width,
            final(self).height == old(self).height,
    {
        self.draw_log.clear();
        assert(self.calls() =~= calls_for(self.sprite_textures@, state.units@.take(0)));
        let mut k: usize = 0;
        while k < state.units.len()
            invariant
                k <= state.units@.len(),
                self.calls() == calls_for(old(self).sprite_textures@, state.units@.take(k as int)),
                self.sprites@ == records_for(
                    old(self).sprite_textures@,
                    old(self).sprites@,
                    state.units@.take(k as int),
                ),
                self.sprite_textures == old(self).sprite_textures,
                self.width == old(self).width,
                self.height == old(self).height,
            decreases state.units@.len() - k,
        {
            let unit = &state.units[k];
            let x = unit.grid_position.x as u32;
            let y = unit.grid_position.y as u32;
            let loaded = match self.sprite_textures.get(unit.sprite_id.as_str()) {
                Some(frames) => Some(frames.len()),
                None => None,
            };
            proof {
                let longer = state.units@.take(k + 1);
                assert(longer.drop_last() =~= state.units@.take(k as int));
                assert(longer.last() == state.units@[k as int]);
            }
            let ghost calls_before = self.calls();
            match loaded {
                Some(count) => {
                    let frame = if count > 0 {
                        unit.animation_state.frame_index % count
                    } else {
                        0
                    };
                    let call = DrawCall {
                        sprite_id: unit.sprite_id.clone(),
                        position: (x, y),
                        frame_index: frame,
                    };
                    self.draw_log.push(call);
                    assert(self.calls() =~= calls_before.push(call@));
                    self.sprites.insert(unit.id.clone(), (x, y, frame as u32, count as u32));
                },
                None => {
                    self.sprites.insert(unit.id.clone(), (x, y, 0, 0));
                },
            }
            k += 1;
        }
        assert(state.units@.take(state.units@.len() as int) =~= state.units@);
    }
}

} // verus!
