//! The values a slider shares with the rest of the program: what the player
//! touches, and what the lights show.
use vstd::prelude::*;

verus! {

/// Touch cells on the ground slider: sixteen columns of two rows.
pub const GROUND_CELLS: usize = 32;

/// Air sensors above the slider.
pub const AIR_SENSORS: usize = 6;

/// Extra buttons.
pub const EXTRA_BUTTONS: usize = 3;

/// Ground lights: one for each of sixteen columns, and one between each two.
pub const GROUND_LIGHTS: usize = 31;

/// Lights on each of the two air towers.
pub const TOWER_LIGHTS: usize = 3;

/// What the player touches.
#[derive(Debug, PartialEq, Eq)]
pub struct SliderInput {
    pub ground: [u8; 32],
    pub air: [u8; 6],
    pub extra: [u8; 3],
}

/// What a [`SliderInput`] holds.
#[verifier::ext_equal]
pub struct InputView {
    pub ground: Seq<u8>,
    pub air: Seq<u8>,
    pub extra: Seq<u8>,
}

/// Every cell of each column exchanged with the other cell of that column.
pub open spec fn columns_flipped(ground: Seq<u8>) -> Seq<u8> {
    Seq::new(
        ground.len(),
        |i: int|
            if i % 2 == 0 {
                ground[i + 1]
            } else {
                ground[i - 1]
            },
    )
}

/// All air sensors clear.
pub open spec fn air_clear() -> Seq<u8> {
    Seq::new(AIR_SENSORS as nat, |i: int| 0u8)
}

impl InputView {
    /// Each part has its fixed size.
    pub open spec fn wf(self) -> bool {
        &&& self.ground.len() == GROUND_CELLS
        &&& self.air.len() == AIR_SENSORS
        &&& self.extra.len() == EXTRA_BUTTONS
    }

    /// The input with its air sensors cleared if `disable_air` holds.
    pub open spec fn air_masked(self, disable_air: bool) -> InputView {
        if disable_air {
            InputView { air: air_clear(), ..self }
        } else {
            self
        }
    }
}

impl View for SliderInput {
    type V = InputView;

    open spec fn view(&self) -> InputView {
        InputView { ground: self.ground@, air: self.air@, extra: self.extra@ }
    }
}

impl SliderInput {
    /// Turns the slider upside down: the two cells of every column change places.
    pub fn flip_vert(&mut self)
        ensures
            final(self)@ == (InputView {
                ground: columns_flipped(old(self)@.ground),
                ..old(self)@
            }),
    {
        for i in 0..16
            invariant
                self.air == old(self).air,
                self.extra == old(self).extra,
                forall|j: int|
                    0 <= j < 2 * i ==> #[trigger] self.ground@[j] == columns_flipped(
                        old(self).ground@,
                    )[j],
                forall|j: int| 2 * i <= j < 32 ==> #[trigger] self.ground@[j] == old(self).ground@[j],
        {
            let upper: u8 = self.ground[2 * i];
            let lower: u8 = self.ground[2 * i + 1];
            self.ground[2 * i] = lower;
            self.ground[2 * i + 1] = upper;
        }
    }

    /// Clears the air sensors.
    pub fn clear_air(&mut self)
        ensures
            final(self)@ == old(self)@.air_masked(true),
    {
        self.air = [0; 6];
    }
}

/// What the lights show. Each light takes three bytes.
#[derive(Debug, PartialEq, Eq)]
pub struct SliderLights {
    pub ground: [u8; 93],
    pub air_left: [u8; 9],
    pub air_right: [u8; 9],
    /// The lights changed since they were last packed.
    pub dirty: bool,
}

/// What a [`SliderLights`] holds.
#[verifier::ext_equal]
pub struct LightsView {
    pub ground: Seq<u8>,
    pub air_left: Seq<u8>,
    pub air_right: Seq<u8>,
    pub dirty: bool,
}

impl LightsView {
    /// Each part has its fixed size.
    pub open spec fn wf(self) -> bool {
        &&& self.ground.len() == 3 * GROUND_LIGHTS
        &&& self.air_left.len() == 3 * TOWER_LIGHTS
        &&& self.air_right.len() == 3 * TOWER_LIGHTS
    }
}

impl View for SliderLights {
    type V = LightsView;

    open spec fn view(&self) -> LightsView {
        LightsView {
            ground: self.ground@,
            air_left: self.air_left@,
            air_right: self.air_right@,
            dirty: self.dirty,
        }
    }
}

/// Flipping the columns twice restores them.
pub proof fn law_flip_is_its_own_inverse(ground: Seq<u8>)
    requires
        ground.len() % 2 == 0,
    ensures
        columns_flipped(columns_flipped(ground)) == ground,
{
    assert(columns_flipped(columns_flipped(ground)) =~= ground);
}

} // verus!
