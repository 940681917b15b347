pub mod volume_envelope;
pub mod frame_sequencer;
pub mod noise;
