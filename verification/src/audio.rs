//! The audio decision core: volume state and the playback requests the
//! engine issues. An unverified playback thread owns the actual output
//! device and performs the requests in order.

use vstd::prelude::*;
use std::sync::Arc;
use crate::shared::arc_clone;

verus! {

/// The two audio lanes.
#[derive(Debug, Clone, Copy, PartialEq, Eq, Structural)]
pub enum AudioType {
    Sfx,
    Music,
}

/// A loaded audio file: a shared handle to its bytes, freely duplicated
/// without copying the data.
#[derive(Debug)]
pub struct AudioHandle {
    data: Arc<Vec<u8>>,
}

impl AudioHandle {
    /// The held bytes.
    pub closed spec fn spec_bytes(self) -> Seq<u8> {
        (*self.data)@
    }

    /// Wraps already-read file bytes in a shareable handle.
    pub fn from_bytes(data: Vec<u8>) -> (r: AudioHandle)
        ensures
            r.spec_bytes() == data@,
    {
        AudioHandle { data: Arc::new(data) }
    }

    /// A second handle to the same bytes.
    pub fn duplicate(&self) -> (r: AudioHandle)
        ensures
            r.spec_bytes() == self.spec_bytes(),
    {
        AudioHandle { data: arc_clone(&self.data) }
    }

    /// The audio file's bytes, for the playback thread's decoder.
    pub fn bytes(&self) -> (r: &Vec<u8>)
        ensures
            r@ == self.spec_bytes(),
    {
        &self.data
    }
}

/// One request to the playback thread. Volumes are in milli-units:
/// 1000 is full volume.
#[derive(Debug)]
pub enum AudioRequest {
    MusicVolume(u32),
    MusicPlay(AudioHandle),
    MusicQueue(AudioHandle),
    MusicResume,
    MusicPause,
    MusicStop,
    SfxVolume(u32),
    SfxQueue(AudioHandle),
    SfxResume,
    SfxPause,
    SfxStop,
}

/// The engine-side audio state: the volume of each lane, and the requests
/// it issues for the playback thread to perform.
#[derive(Debug, Clone, Copy, PartialEq, Eq, Structural)]
pub struct AudioEngine {
    music_volume: u32,
    sfx_volume: u32,
}

impl AudioEngine {
    /// The music lane's volume, in milli-units.
    pub closed spec fn spec_music_volume(self) -> u32 {
        self.music_volume
    }

    /// The effect lane's volume, in milli-units.
    pub closed spec fn spec_sfx_volume(self) -> u32 {
        self.sfx_volume
    }

    /// A fresh engine at full volume on both lanes.
    pub fn new() -> (r: AudioEngine)
        ensures
            r.spec_music_volume() == 1000,
            r.spec_sfx_volume() == 1000,
    {
        AudioEngine { music_volume: 1000, sfx_volume: 1000 }
    }

    /// Both volumes, music first.
    pub fn get_volumes(&self) -> (r: (u32, u32))
        ensures
            r.0 == self.spec_music_volume(),
            r.1 == self.spec_sfx_volume(),
    {
        (self.music_volume, self.sfx_volume)
    }

    /// Sets one lane's volume and returns the request that tells the
    /// playback thread the same.
    pub fn set_volume(&mut self, audio_type: AudioType, level: u32) -> (r: AudioRequest)
        ensures
            match audio_type {
                AudioType::Music => {
                    &&& final(self).spec_music_volume() == level
                    &&& final(self).spec_sfx_volume() == old(self).spec_sfx_volume()
                    &&& r is MusicVolume && r->MusicVolume_0 == level
                },
                AudioType::Sfx => {
                    &&& final(self).spec_sfx_volume() == level
                    &&& final(self).spec_music_volume() == old(self).spec_music_volume()
                    &&& r is SfxVolume && r->SfxVolume_0 == level
                },
            },
    {
        match audio_type {
            AudioType::Sfx => {
                self.sfx_volume = level;
                AudioRequest::SfxVolume(level)
            },
            AudioType::Music => {
                self.music_volume = level;
                AudioRequest::MusicVolume(level)
            },
        }
    }
}

} // verus!
