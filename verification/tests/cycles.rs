use tuner::app::{Mode, Selector};
use tuner::pitch::Algorithm;

#[test]
fn mode_next_cycles_free_mandolin_guitar() {
    assert_eq!(Mode::Free.next(), Mode::Mandolin);
    assert_eq!(Mode::Mandolin.next(), Mode::Guitar);
    assert_eq!(Mode::Guitar.next(), Mode::Free);
}

#[test]
fn mode_prev_undoes_next() {
    for m in [Mode::Free, Mode::Mandolin, Mode::Guitar] {
        assert_eq!(m.next().prev(), m);
        assert_eq!(m.prev().next(), m);
        assert_eq!(m.next().next().next(), m);
    }
    assert_eq!(Mode::Free.prev(), Mode::Guitar);
}

#[test]
fn mode_strings_per_mode() {
    assert!(Mode::Free.strings().is_none());
    let mandolin = Mode::Mandolin.strings().unwrap();
    assert_eq!(mandolin.len(), 4);
    assert_eq!(mandolin[0].label, "G");
    assert_eq!(mandolin[0].midi, 55);
    let guitar = Mode::Guitar.strings().unwrap();
    assert_eq!(guitar.len(), 6);
    assert_eq!(guitar[5].label, "E");
    assert_eq!(guitar[5].midi, 64);
}

#[test]
fn mode_labels() {
    assert_eq!(Mode::Free.label(), "Free");
    assert_eq!(Mode::Mandolin.label(), "Mandolin");
    assert_eq!(Mode::Guitar.label(), "Guitar");
}

#[test]
fn selector_cycle_of_five() {
    let all = [
        Selector::Input,
        Selector::Channel,
        Selector::Algorithm,
        Selector::Mode,
        Selector::StringNote,
    ];
    for i in 0..5 {
        assert_eq!(all[i].next(), all[(i + 1) % 5]);
        assert_eq!(all[(i + 1) % 5].prev(), all[i]);
        let mut s = all[i];
        for _ in 0..5 {
            s = s.next();
        }
        assert_eq!(s, all[i]);
    }
}

#[test]
fn algorithm_cycle_and_labels() {
    assert_eq!(Algorithm::Yin.next(), Algorithm::Mpm);
    assert_eq!(Algorithm::Mpm.next(), Algorithm::Fft);
    assert_eq!(Algorithm::Fft.next(), Algorithm::Yin);
    for (i, a) in Algorithm::ALL.iter().enumerate() {
        assert_eq!(a.next(), Algorithm::ALL[(i + 1) % 3]);
        assert_eq!(a.next().next().next(), *a);
    }
    assert_eq!(Algorithm::Yin.label(), "YIN");
    assert_eq!(Algorithm::Mpm.label(), "MPM");
    assert_eq!(Algorithm::Fft.label(), "FFT");
}
