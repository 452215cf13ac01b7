//! The texture transitions recorded before DLSS reads its inputs and writes
//! its output.

use vstd::prelude::*;

verus! {

/// How DLSS uses a texture during evaluation.
#[derive(Clone, Copy, PartialEq, Eq, Structural, Debug, Hash)]
pub enum TextureState {
    /// Sampled as an input.
    Resource,
    /// Written as the output.
    StorageReadWrite,
}

/// A texture and the state it must be in before DLSS runs.
#[derive(Clone, Copy, PartialEq, Eq, Structural, Debug)]
pub struct TextureTransition<T> {
    pub texture: T,
    pub state: TextureState,
}

/// The textures that DLSS evaluates: inputs, optional inputs and the
/// output.
#[derive(Clone, Copy, PartialEq, Eq, Structural, Debug)]
pub struct DlssTextures<T> {
    /// Main color view of the camera.
    pub color: T,
    /// Depth buffer.
    pub depth: T,
    /// Motion vectors.
    pub motion_vectors: T,
    /// The exposure texture, when exposure is controlled by the application.
    pub exposure: Option<T>,
    /// Optional per-pixel bias to make DLSS more reactive.
    pub bias: Option<T>,
    /// The texture DLSS outputs to.
    pub dlss_output: T,
}

/// The transition of an input texture.
pub open spec fn input_transition<T>(texture: T) -> TextureTransition<T> {
    TextureTransition { texture, state: TextureState::Resource }
}

/// The transition of an optional input: one when it is there, none else.
pub open spec fn optional_input_transitions<T>(texture: Option<T>) -> Seq<TextureTransition<T>> {
    match texture {
        Some(t) => seq![input_transition(t)],
        None => seq![],
    }
}

impl<T: Copy> DlssTextures<T> {
    /// Color, depth and motion vectors as inputs; then exposure and bias
    /// when present; then the output as storage.
    pub open spec fn barrier_list_spec(&self) -> Seq<TextureTransition<T>> {
        seq![
            input_transition(self.color),
            input_transition(self.depth),
            input_transition(self.motion_vectors),
        ] + optional_input_transitions(self.exposure) + optional_input_transitions(self.bias)
            + seq![
            TextureTransition { texture: self.dlss_output, state: TextureState::StorageReadWrite },
        ]
    }

    /// The transitions to record before DLSS runs, in order.
    pub fn barrier_list(&self) -> (r: Vec<TextureTransition<T>>)
        ensures
            r@ == self.barrier_list_spec(),
    {
        let mut list: Vec<TextureTransition<T>> = Vec::new();
        list.push(TextureTransition { texture: self.color, state: TextureState::Resource });
        list.push(TextureTransition { texture: self.depth, state: TextureState::Resource });
        list.push(
            TextureTransition { texture: self.motion_vectors, state: TextureState::Resource },
        );
        let ghost required = list@;
        match self.exposure {
            Some(exposure) => {
                list.push(TextureTransition { texture: exposure, state: TextureState::Resource });
            },
            None => {},
        }
        assert(list@ == required + optional_input_transitions(self.exposure));
        let ghost with_exposure = list@;
        match self.bias {
            Some(bias) => {
                list.push(TextureTransition { texture: bias, state: TextureState::Resource });
            },
            None => {},
        }
        assert(list@ == with_exposure + optional_input_transitions(self.bias));
        list.push(
            TextureTransition { texture: self.dlss_output, state: TextureState::StorageReadWrite },
        );
        assert(list@ =~= self.barrier_list_spec());
        list
    }
}

} // verus!
