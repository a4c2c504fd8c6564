//! The cue sheet of the game: which sounds are loaded, which track is set, how loud
//! each channel is, and a log of every cue that was asked for. The device that turns
//! a cue into sound is not part of this library.

use vstd::prelude::*;
use vstd::hash_map::StringHashMap;
use vstd::string::StringExecFns;
use crate::models::Permille;

verus! {

/// The volume of each channel, as a fraction of full volume.
#[derive(Debug, Clone, Copy, PartialEq, Eq, Structural)]
pub struct AudioSettings {
    pub master: Permille,
    pub sfx: Permille,
    pub music: Permille,
    pub voice: Permille,
}

impl AudioSettings {
    /// Every channel at full volume.
    pub open spec fn full() -> AudioSettings {
        let one = Permille { thousandths: 1000 };
        AudioSettings { master: one, sfx: one, music: one, voice: one }
    }

    /// These settings with `channel` set to `value`.
    pub open spec fn with(self, channel: AudioChannel, value: Permille) -> AudioSettings {
        match channel {
            AudioChannel::Master => AudioSettings { master: value, ..self },
            AudioChannel::Sfx => AudioSettings { sfx: value, ..self },
            AudioChannel::Music => AudioSettings { music: value, ..self },
            AudioChannel::Voice => AudioSettings { voice: value, ..self },
        }
    }
}

impl Default for AudioSettings {
    fn default() -> (settings: Self)
        ensures
            settings == AudioSettings::full(),
    {
        let one = Permille { thousandths: 1000 };
        AudioSettings { master: one, sfx: one, music: one, voice: one }
    }
}

#[derive(Debug, Clone, Copy, PartialEq, Eq, Structural)]
pub enum AudioChannel {
    Master,
    Sfx,
    Music,
    Voice,
}

/// The text that the log holds for a request to set the track `key`.
pub open spec fn music_entry(key: Seq<char>) -> Seq<char> {
    "music:"@ + key
}

/// The cue sheet.
pub struct AudioSystem {
    /// The raw bytes of each loaded sound, by key.
    pub sounds: StringHashMap<Vec<u8>>,
    /// The key of the track that was set last.
    pub current_music: Option<String>,
    pub settings: AudioSettings,
    /// Every cue that was asked for, in order, whether its sound was loaded or not.
    pub played_log: Vec<String>,
}

impl AudioSystem {
    /// The log as plain text, one entry for each cue.
    pub open spec fn log(&self) -> Seq<Seq<char>> {
        self.played_log.deep_view()
    }

    /// The key of the track that was set last, as plain text.
    pub open spec fn track(&self) -> Option<Seq<char>> {
        match self.current_music {
            Some(key) => Some(key@),
            None => None,
        }
    }

    /// This cue sheet after a request for the sound `key`.
    pub open spec fn cue_logged(&self, after: AudioSystem, key: Seq<char>) -> bool {
        &&& after.log() == self.log().push(key)
        &&& after.sounds == self.sounds
        &&& after.current_music == self.current_music
        &&& after.settings == self.settings
    }

    /// This cue sheet after a request to set the track `key`.
    pub open spec fn track_set(&self, after: AudioSystem, key: Seq<char>) -> bool {
        &&& after.log() == self.log().push(music_entry(key))
        &&& after.track() == Some(key)
        &&& after.sounds == self.sounds
        &&& after.settings == self.settings
    }

    /// A cue sheet with nothing loaded, no track, an empty log and every channel at
    /// full volume.
    pub fn new() -> (audio: Self)
        ensures
            audio.sounds@ == Map::<Seq<char>, Vec<u8>>::empty(),
            audio.current_music is None,
            audio.settings == AudioSettings::full(),
            audio.log() == Seq::<Seq<char>>::empty(),
    {
        let audio = AudioSystem {
            sounds: StringHashMap::new(),
            current_music: None,
            settings: AudioSettings::default(),
            played_log: Vec::new(),
        };
        assert(audio.log() =~= Seq::<Seq<char>>::empty());
        audio
    }

    /// Loads the sound `data` under `key`, in place of what was loaded under it.
    pub fn load_sound_from_bytes(&mut self, key: &str, data: Vec<u8>)
        ensures
            final(self).sounds@ == old(self).sounds@.insert(key@, data),
            final(self).current_music == old(self).current_music,
            final(self).settings == old(self).settings,
            final(self).played_log == old(self).played_log,
    {
        self.sounds.insert(key.to_owned(), data);
    }

    /// The bytes loaded under `key`, if any.
    pub fn sound(&self, key: &str) -> (data: Option<&Vec<u8>>)
        ensures
            match data {
                Some(bytes) => self.sounds@.contains_key(key@) && *bytes == self.sounds@[key@],
                None => !self.sounds@.contains_key(key@),
            },
    {
        self.sounds.get(key)
    }

    /// Asks for the sound `key`: the request is logged, whether the sound is loaded or not.
    pub fn play(&mut self, key: &str)
        ensures
            old(self).cue_logged(*final(self), key@),
    {
        self.played_log.push(key.to_owned());
        assert(self.log() =~= old(self).log().push(key@));
    }

    /// Sets the track `key`, and logs the request as `music:` followed by the key.
    pub fn play_background_music(&mut self, key: &str)
        ensures
            old(self).track_set(*final(self), key@),
    {
        self.current_music = Some(key.to_owned());
        let mut entry = "music:".to_owned();
        entry.append(key);
        self.played_log.push(entry);
        assert(self.log() =~= old(self).log().push(music_entry(key@)));
    }

    /// Sets the volume of `channel` to `value`.
    pub fn set_volume(&mut self, channel: AudioChannel, value: Permille)
        ensures
            final(self).settings == old(self).settings.with(channel, value),
            final(self).sounds == old(self).sounds,
            final(self).current_music == old(self).current_music,
            final(self).played_log == old(self).played_log,
    {
        match channel {
            AudioChannel::Master => {
                self.settings.master = value;
            },
            AudioChannel::Sfx => {
                self.settings.sfx = value;
            },
            AudioChannel::Music => {
                self.settings.music = value;
            },
            AudioChannel::Voice => {
                self.settings.voice = value;
            },
        }
    }
}

} // verus!
