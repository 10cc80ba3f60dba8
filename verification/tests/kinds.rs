use arcorrust::arpeggiator::ArpPattern;
use arcorrust::arpeggiator::NoteDivision;
use arcorrust::panels::LayoutMode;
use arcorrust::panels::ModalPanel;
use arcorrust::panels::VizMode;
use arcorrust::preset::DistortionTypeSer;
use arcorrust::preset::FilterTypeSer;
use arcorrust::preset::WaveformSer;
use arcorrust::sound::DistortionType;
use arcorrust::sound::FilterType;
use arcorrust::sound::LFODestination;
use arcorrust::sound::LFOWaveform;
use arcorrust::sound::NoiseType;

#[test]
fn test_filter_type_cycle() {
    let mut ft = FilterType::LowPass;
    ft = ft.next();
    assert_eq!(ft, FilterType::HighPass);
    ft = ft.next();
    assert_eq!(ft, FilterType::BandPass);
    ft = ft.next();
    assert_eq!(ft, FilterType::Notch);
    ft = ft.next();
    assert_eq!(ft, FilterType::LowPass);
}

#[test]
fn filter_type_prev_undoes_next() {
    for ft in [FilterType::LowPass, FilterType::HighPass, FilterType::BandPass, FilterType::Notch] {
        assert_eq!(ft.next().prev(), ft);
        assert_eq!(ft.prev().next(), ft);
    }
    assert_eq!(FilterType::LowPass.prev(), FilterType::Notch);
    let names: Vec<&str> = [FilterType::LowPass, FilterType::HighPass, FilterType::BandPass, FilterType::Notch]
        .iter()
        .map(|f| f.name())
        .collect();
    assert_eq!(names, vec!["LP", "HP", "BP", "Notch"]);
    assert_eq!(FilterType::default(), FilterType::LowPass);
}

#[test]
fn distortion_cycle_and_names() {
    let mut d = DistortionType::SoftClip;
    let mut names = Vec::new();
    for _ in 0..4 {
        names.push(d.name());
        d = d.next();
    }
    assert_eq!(d, DistortionType::SoftClip);
    assert_eq!(names, vec!["Soft", "Hard", "Tanh", "Fold"]);
}

#[test]
fn lfo_waveform_cycle_and_names() {
    let mut w = LFOWaveform::Sine;
    let mut names = Vec::new();
    for _ in 0..5 {
        names.push(w.name());
        assert_eq!(w.next().prev(), w);
        w = w.next();
    }
    assert_eq!(w, LFOWaveform::Sine);
    assert_eq!(names, vec!["Sine", "Tri", "Saw", "Sqr", "S&H"]);
    assert_eq!(LFOWaveform::Sine.prev(), LFOWaveform::SampleHold);
}

#[test]
fn lfo_destinations_listed_once() {
    let all = LFODestination::all();
    assert_eq!(all.len(), 6);
    let names: Vec<&str> = all.iter().map(|d| d.name()).collect();
    assert_eq!(names, vec!["Pitch", "Volume", "Filter", "PWM", "Osc2", "Pan"]);
    let shorts: Vec<&str> = all.iter().map(|d| d.short_name()).collect();
    assert_eq!(shorts, vec!["P", "V", "F", "W", "O", "A"]);
}

#[test]
fn noise_type_cycle_and_names() {
    let mut t = NoiseType::White;
    let mut names = Vec::new();
    for _ in 0..3 {
        names.push(t.name());
        t = t.next();
    }
    assert_eq!(t, NoiseType::White);
    assert_eq!(names, vec!["White", "Pink", "Brown"]);
}

#[test]
fn modal_panels_cycle_in_list_order() {
    let all = ModalPanel::all();
    assert_eq!(all.len(), 8);
    for i in 0..8 {
        assert_eq!(all[i].next(), all[(i + 1) % 8]);
        assert_eq!(all[i].next().prev(), all[i]);
    }
    let names: Vec<&str> = all.iter().map(|p| p.name()).collect();
    assert_eq!(
        names,
        vec!["Oscillator", "Filter", "Envelope", "Effects", "LFO", "Modulation", "FX+", "Performance"]
    );
    let sidebar: Vec<bool> = all.iter().map(|p| p.is_sidebar()).collect();
    assert_eq!(sidebar, vec![true, true, false, true, false, false, false, false]);
}

#[test]
fn layout_and_viz_modes() {
    assert_eq!(LayoutMode::Sidebar.toggle(), LayoutMode::Wide);
    assert_eq!(LayoutMode::Wide.toggle().toggle(), LayoutMode::Wide);
    assert_eq!(LayoutMode::Sidebar.name(), "Sidebar");
    assert_eq!(LayoutMode::Wide.name(), "Wide");
    let mut v = VizMode::default();
    assert_eq!(v, VizMode::Combined);
    let mut names = Vec::new();
    for _ in 0..4 {
        v = v.next();
        names.push(v.name());
    }
    assert_eq!(v, VizMode::Combined);
    assert_eq!(names, vec!["Off", "Wave", "Spectrum", "Both"]);
}

#[test]
fn arp_pattern_and_division_cycles() {
    let mut p = ArpPattern::default();
    let mut names = Vec::new();
    for _ in 0..5 {
        names.push(p.name());
        p = p.next();
    }
    assert_eq!(p, ArpPattern::Up);
    assert_eq!(names, vec!["Up", "Down", "Up/Dn", "Random", "Order"]);
    let mut d = NoteDivision::default();
    assert_eq!(d, NoteDivision::Eighth);
    let mut steps = Vec::new();
    for _ in 0..6 {
        steps.push((d.name(), d.notes_per_beat()));
        d = d.next();
    }
    assert_eq!(d, NoteDivision::Eighth);
    assert_eq!(
        steps,
        vec![("1/8", 2), ("1/16", 4), ("1/32", 8), ("1/8T", 3), ("1/16T", 6), ("1/4", 1)]
    );
}

#[test]
fn stored_selector_round_trips() {
    for f in [FilterType::LowPass, FilterType::HighPass, FilterType::BandPass, FilterType::Notch] {
        let stored: FilterTypeSer = f.into();
        let back: FilterType = stored.into();
        assert_eq!(back, f);
    }
    assert_eq!(FilterTypeSer::from(FilterType::BandPass), FilterTypeSer::Bandpass);
    for d in [DistortionType::SoftClip, DistortionType::HardClip, DistortionType::Tanh, DistortionType::Foldback] {
        let stored: DistortionTypeSer = d.into();
        let back: DistortionType = stored.into();
        assert_eq!(back, d);
    }
    assert_eq!(DistortionTypeSer::from(DistortionType::Tanh).name(), "tanh");
    assert_eq!(FilterTypeSer::Highpass.name(), "highpass");
    assert_eq!(WaveformSer::Sawtooth.name(), "sawtooth");
}
