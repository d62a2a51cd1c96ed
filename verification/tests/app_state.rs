use tuner::app::{Action, App, Key, Mode, Selector};
use tuner::audio::{AudioDevice, ChannelMode};
use tuner::pitch::Algorithm;

fn devices(n: usize) -> Vec<AudioDevice> {
    (0..n).map(|i| AudioDevice { name: format!("dev{}", i) }).collect()
}

#[test]
fn new_state_defaults() {
    let app = App::new(devices(2), 1, 2);
    assert!(app.running);
    assert_eq!(app.selected_device, 1);
    assert_eq!(app.channel_mode, ChannelMode::All);
    assert_eq!(app.device_channels, 2);
    assert_eq!(app.algorithm, Algorithm::Yin);
    assert_eq!(app.mode, Mode::Free);
    assert_eq!(app.selected_string, 0);
    assert_eq!(app.sample_rate, 44100);
    assert_eq!(app.closest_string_index, None);
    assert_eq!(app.active_selector, Selector::Input);
}

#[test]
fn device_steps_wrap_around() {
    let app = App::new(devices(3), 2, 1);
    assert_eq!(app.next_device(), Action::QueryDevice(0));
    assert_eq!(app.prev_device(), Action::QueryDevice(1));
    let app = App::new(devices(3), 0, 1);
    assert_eq!(app.prev_device(), Action::QueryDevice(2));
    let app = App::new(devices(0), 0, 1);
    assert_eq!(app.next_device(), Action::Nothing);
    assert_eq!(app.prev_device(), Action::Nothing);
}

#[test]
fn select_device_resets_channel() {
    let mut app = App::new(devices(2), 0, 4);
    app.next_channel();
    assert_eq!(app.channel_mode, ChannelMode::Single(0));
    assert_eq!(app.select_device(1, 2), Action::ResetSmoothingAndRestartAudio);
    assert_eq!(app.selected_device, 1);
    assert_eq!(app.device_channels, 2);
    assert_eq!(app.channel_mode, ChannelMode::All);
    // an index that is not listed changes nothing
    assert_eq!(app.select_device(5, 8), Action::Nothing);
    assert_eq!(app.selected_device, 1);
    assert_eq!(app.device_channels, 2);
}

#[test]
fn channel_cycle_on_three_channels() {
    let mut app = App::new(devices(1), 0, 3);
    let mut seen = vec![app.channel_mode];
    for _ in 0..4 {
        assert_eq!(app.next_channel(), Action::RestartAudio);
        seen.push(app.channel_mode);
    }
    assert_eq!(
        seen,
        vec![
            ChannelMode::All,
            ChannelMode::Single(0),
            ChannelMode::Single(1),
            ChannelMode::Single(2),
            ChannelMode::All
        ]
    );
    assert_eq!(app.prev_channel(), Action::RestartAudio);
    assert_eq!(app.channel_mode, ChannelMode::Single(2));
    app.prev_channel();
    app.prev_channel();
    assert_eq!(app.channel_mode, ChannelMode::Single(0));
    app.prev_channel();
    assert_eq!(app.channel_mode, ChannelMode::All);
}

#[test]
fn mono_device_stays_mixed() {
    let mut app = App::new(devices(1), 0, 1);
    app.next_channel();
    assert_eq!(app.channel_mode, ChannelMode::All);
    app.prev_channel();
    assert_eq!(app.channel_mode, ChannelMode::All);
}

#[test]
fn strings_wrap_and_free_mode_ignores_them() {
    let mut app = App::new(devices(1), 0, 1);
    app.next_string();
    assert_eq!(app.selected_string, 0);
    app.set_mode(Mode::Mandolin);
    app.prev_string();
    assert_eq!(app.selected_string, 3);
    app.next_string();
    assert_eq!(app.selected_string, 0);
    app.next_string();
    app.next_string();
    assert_eq!(app.selected_string, 2);
    app.set_mode(Mode::Guitar);
    assert_eq!(app.selected_string, 0);
}

#[test]
fn arrows_act_on_active_row() {
    let mut app = App::new(devices(2), 0, 2);
    assert_eq!(app.handle_right(), Action::QueryDevice(1));
    assert_eq!(app.handle_left(), Action::QueryDevice(1));
    app.active_selector = Selector::Channel;
    assert_eq!(app.handle_right(), Action::RestartAudio);
    assert_eq!(app.channel_mode, ChannelMode::Single(0));
    app.active_selector = Selector::Algorithm;
    assert_eq!(app.handle_left(), Action::ReplaceDetector(Algorithm::Mpm));
    assert_eq!(app.handle_right(), Action::ReplaceDetector(Algorithm::Fft));
    assert_eq!(app.cycle_algorithm(), Action::ReplaceDetector(Algorithm::Yin));
    app.active_selector = Selector::Mode;
    assert_eq!(app.handle_right(), Action::Nothing);
    assert_eq!(app.mode, Mode::Mandolin);
    app.active_selector = Selector::StringNote;
    app.handle_right();
    assert_eq!(app.selected_string, 1);
    app.active_selector = Selector::Mode;
    app.handle_left();
    assert_eq!(app.mode, Mode::Free);
    assert_eq!(app.selected_string, 0);
}

#[test]
fn keys() {
    let mut app = App::new(devices(1), 0, 1);
    assert_eq!(app.handle_key(Key::Tab { shift: false }), Action::Nothing);
    assert_eq!(app.active_selector, Selector::Channel);
    app.handle_key(Key::Tab { shift: true });
    assert_eq!(app.active_selector, Selector::Input);
    app.handle_key(Key::BackTab);
    assert_eq!(app.active_selector, Selector::StringNote);
    app.handle_key(Key::Char { c: 'c', control: false });
    assert!(app.running);
    app.handle_key(Key::Other);
    assert!(app.running);
    app.handle_key(Key::Char { c: 'c', control: true });
    assert!(!app.running);
    let mut app = App::new(devices(1), 0, 1);
    app.handle_key(Key::Char { c: 'q', control: false });
    assert!(!app.running);
    let mut app = App::new(devices(2), 0, 1);
    assert_eq!(app.handle_key(Key::Right), Action::QueryDevice(1));
    assert_eq!(app.handle_key(Key::Left), Action::QueryDevice(1));
}

#[test]
fn steps_undo_each_other() {
    for channels in [1u16, 2, 5] {
        let mut app = App::new(devices(3), 1, channels);
        for _ in 0..(channels as usize + 2) {
            let before = app.channel_mode;
            app.next_channel();
            app.prev_channel();
            assert_eq!(app.channel_mode, before);
            app.prev_channel();
            app.next_channel();
            assert_eq!(app.channel_mode, before);
            app.next_channel();
            if let ChannelMode::Single(ch) = app.channel_mode {
                assert!(channels > 1 && ch < channels);
            }
        }
    }
    let mut app = App::new(devices(3), 1, 1);
    app.set_mode(Mode::Guitar);
    for _ in 0..7 {
        let before = app.selected_string;
        app.next_string();
        app.prev_string();
        assert_eq!(app.selected_string, before);
        app.next_string();
        assert!(app.selected_string < 6);
    }
    // devices: the previous of the next is the selected one
    for sel in 0..3 {
        let app = App::new(devices(3), sel, 1);
        if let Action::QueryDevice(next) = app.next_device() {
            let there = App::new(devices(3), next, 1);
            assert_eq!(there.prev_device(), Action::QueryDevice(sel));
        } else {
            panic!("a listed device is asked for");
        }
    }
}

#[test]
fn steps_at_index_limits() {
    // the mode row works whatever the device index
    let mut app = App::new(devices(0), usize::MAX, 1);
    app.active_selector = Selector::Mode;
    assert_eq!(app.handle_right(), Action::Nothing);
    assert_eq!(app.mode, Mode::Mandolin);
    assert_eq!(app.handle_key(Key::Char { c: 'q', control: false }), Action::Nothing);
    assert!(!app.running);
    // the channel steps do not look at the device or string indices
    let mut app = App::new(devices(2), usize::MAX, 3);
    app.next_channel();
    assert_eq!(app.channel_mode, ChannelMode::Single(0));
}
