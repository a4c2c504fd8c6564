use gero::audio::{AudioChannel, AudioSettings, AudioSystem};
use gero::models::Permille;

#[test]
fn load_and_play_records_sound() {
    let mut audio = AudioSystem::new();
    audio.load_sound_from_bytes("beep", vec![1, 2, 3]);
    audio.play("beep");
    assert_eq!(audio.played_log, vec!["beep"]);
}

#[test]
fn playing_unloaded_sound_is_logged() {
    let mut audio = AudioSystem::new();
    audio.play("missing");
    assert_eq!(audio.played_log, vec!["missing"]);
}

#[test]
fn volume_adjustments_update_settings() {
    let mut audio = AudioSystem::new();
    audio.set_volume(AudioChannel::Music, Permille { thousandths: 500 });
    assert_eq!(audio.settings.music, Permille { thousandths: 500 });
    audio.set_volume(AudioChannel::Master, Permille { thousandths: 800 });
    assert_eq!(audio.settings.master, Permille { thousandths: 800 });
}

#[test]
fn background_music_changes_track() {
    let mut audio = AudioSystem::new();
    audio.load_sound_from_bytes("track1", vec![1]);
    audio.load_sound_from_bytes("track2", vec![2]);
    audio.play_background_music("track1");
    assert_eq!(audio.current_music.as_deref(), Some("track1"));
    audio.play_background_music("track2");
    assert_eq!(audio.current_music.as_deref(), Some("track2"));
    assert_eq!(audio.played_log, vec!["music:track1", "music:track2"]);
}

#[test]
fn new_cue_sheet_is_silent_and_at_full_volume() {
    let audio = AudioSystem::new();
    let one = Permille { thousandths: 1000 };
    assert_eq!(audio.settings, AudioSettings { master: one, sfx: one, music: one, voice: one });
    assert_eq!(audio.settings, AudioSettings::default());
    assert!(audio.played_log.is_empty());
    assert_eq!(audio.current_music, None);
    assert_eq!(audio.sound("beep"), None);
}

#[test]
fn each_channel_has_its_own_volume() {
    let mut audio = AudioSystem::new();
    audio.set_volume(AudioChannel::Sfx, Permille { thousandths: 250 });
    audio.set_volume(AudioChannel::Voice, Permille { thousandths: 0 });
    let one = Permille { thousandths: 1000 };
    assert_eq!(
        audio.settings,
        AudioSettings {
            master: one,
            sfx: Permille { thousandths: 250 },
            music: one,
            voice: Permille { thousandths: 0 },
        }
    );
}

#[test]
fn loaded_sound_can_be_had_and_replaced() {
    let mut audio = AudioSystem::new();
    audio.load_sound_from_bytes("beep", vec![1, 2, 3]);
    assert_eq!(audio.sound("beep"), Some(&vec![1, 2, 3]));
    audio.load_sound_from_bytes("beep", vec![9]);
    assert_eq!(audio.sound("beep"), Some(&vec![9]));
    assert_eq!(audio.sound("boop"), None);
    assert!(audio.played_log.is_empty());
}
