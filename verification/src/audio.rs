//! What a host offers as capture input and playback output.

use crate::media::AudioFrame;
use crate::protocol::{
    output_views, source_views, AudioOutputInfo, AudioOutputView, AudioSourceInfo, AudioSourceView,
};
use vstd::prelude::*;

verus! {

/// The capture inputs of a host.
pub trait AudioSource {
    /// The inputs that the host offers.
    spec fn inputs(&self) -> Seq<AudioSourceView>;

    /// Lists the inputs under stable host-local names.
    fn sources(&self) -> (sources: Vec<AudioSourceInfo>)
        ensures
            source_views(sources@) == self.inputs(),
    ;
}

/// The playback outputs of a host.
pub trait AudioOutputProvider {
    /// The outputs that the host offers.
    spec fn playbacks(&self) -> Seq<AudioOutputView>;

    /// Lists the outputs under stable host-local names.
    fn outputs(&self) -> (outputs: Vec<AudioOutputInfo>)
        ensures
            output_views(outputs@) == self.playbacks(),
    ;
}

/// Takes frames from a client. An implementation queues the frame and returns
/// at once; a slow consumer must not hold up radio control.
pub trait AudioSink {
    fn try_submit(&mut self, frame: AudioFrame) -> Result<(), String>;
}

} // verus!
