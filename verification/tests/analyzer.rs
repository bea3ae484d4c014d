use lunatech::analyzer::{Analyzer, AnalyzerError};
use lunatech::features::{Feature, Features};
use lunatech::samples::zero_crossings;

#[test]
fn analyzer_without_a_channel_is_refused() {
    match Analyzer::new(0, 44100) {
        Err(error) => assert_eq!(error, AnalyzerError::NoChannels),
        Ok(_) => panic!("an analyzer without a channel was built"),
    }
    assert!(Analyzer::new(0, 0).is_err());
}

#[test]
fn analyzer_starts_with_zero_features() {
    let analyzer = Analyzer::new(2, 44100).ok().unwrap();
    assert_eq!(analyzer.channel_count(), 2);
    assert_eq!(analyzer.sample_rate(), 44100);
    assert_eq!(analyzer.audio_features().read(), Features::zero());
}

#[test]
fn analyzer_takes_the_most_channels() {
    let analyzer = Analyzer::new(u16::MAX, u32::MAX).ok().unwrap();
    assert_eq!(analyzer.channel_count(), u16::MAX);
    assert_eq!(analyzer.sample_rate(), u32::MAX);
}

#[test]
fn analyzer_splits_a_block_by_its_channel_count() {
    let analyzer = Analyzer::new(2, 44100).ok().unwrap();
    let data: Vec<u32> = (0..8).collect();
    assert_eq!(analyzer.split_channels(&data), Ok(vec![vec![0, 2, 4, 6], vec![1, 3, 5, 7]]));
    assert_eq!(analyzer.split_channels(&data[..7]), Err(AnalyzerError::RaggedBlock));
    assert_eq!(analyzer.split_channels(&[]), Ok(vec![vec![], vec![]]));
}

#[test]
fn analyzer_hands_back_the_frame_it_was_given_last() {
    let mut analyzer = Analyzer::new(2, 44100).ok().unwrap();
    assert_eq!(analyzer.exchange_frame(0, vec![1, 2, 3]), Some(vec![]));
    assert_eq!(analyzer.exchange_frame(1, vec![4, 5]), Some(vec![]));
    assert_eq!(analyzer.exchange_frame(0, vec![6, 7, 8, 9]), Some(vec![1, 2, 3]));
    assert_eq!(analyzer.exchange_frame(0, vec![]), Some(vec![6, 7, 8, 9]));
    assert_eq!(analyzer.exchange_frame(1, vec![10]), Some(vec![4, 5]));
    assert_eq!(analyzer.exchange_frame(0, vec![11]), Some(vec![]));
}

#[test]
fn analyzer_same_frame_twice_comes_back_unchanged() {
    let mut analyzer = Analyzer::new(1, 48000).ok().unwrap();
    let frame: Vec<u32> = (0..513).map(|i| (i as f32 * 0.001).to_bits()).collect();
    analyzer.exchange_frame(0, frame.clone());
    let previous = analyzer.exchange_frame(0, frame.clone()).unwrap();
    assert_eq!(previous, frame);
    let distance: f32 = previous
        .iter()
        .zip(frame.iter())
        .map(|(a, b)| (f32::from_bits(*a) - f32::from_bits(*b)).powi(2))
        .sum::<f32>()
        .sqrt();
    assert_eq!(distance, 0.0);
}

#[test]
fn analyzer_keeps_no_frame_for_a_channel_it_does_not_have() {
    let mut analyzer = Analyzer::new(2, 44100).ok().unwrap();
    assert_eq!(analyzer.exchange_frame(2, vec![1]), None);
    assert_eq!(analyzer.exchange_frame(usize::MAX, vec![1]), None);
    assert_eq!(analyzer.exchange_frame(1, vec![2]), Some(vec![]));
}

#[test]
fn analyzer_publishes_what_it_is_given_when_it_is_fit() {
    let mut analyzer = Analyzer::new(1, 44100).ok().unwrap();
    let raw = Features {
        rms: 0.5f32.to_bits(),
        bass: 0.25f32.to_bits(),
        mid: 1.0f32.to_bits(),
        treble: 0.0f32.to_bits(),
        zcr: 0.125f32.to_bits(),
        centroid: 0.3f32.to_bits(),
        flux: 0.9f32.to_bits(),
        rolloff: 0.75f32.to_bits(),
        tv: 7.0f32.to_bits(),
    };
    assert_eq!(analyzer.publish(raw), raw);
    assert_eq!(analyzer.audio_features().read(), raw);
    assert_eq!(analyzer.audio_features().get(Feature::Tv), 7.0f32.to_bits());
}

#[test]
fn analyzer_publishes_finite_values_in_range() {
    let mut analyzer = Analyzer::new(1, 44100).ok().unwrap();
    let raw = Features {
        rms: 3.0f32.to_bits(),
        bass: f32::NAN.to_bits(),
        mid: f32::INFINITY.to_bits(),
        treble: (-1.0f32).to_bits(),
        zcr: f32::NEG_INFINITY.to_bits(),
        centroid: (0.0f32 / 0.0f32).to_bits(),
        flux: (1.0f32 / 0.0f32).to_bits(),
        rolloff: 1.000_001f32.to_bits(),
        tv: f32::NAN.to_bits(),
    };
    let published = analyzer.publish(raw);
    assert_eq!(analyzer.audio_features().read(), published);
    let values = [
        published.rms,
        published.bass,
        published.mid,
        published.treble,
        published.zcr,
        published.centroid,
        published.flux,
        published.rolloff,
    ];
    for bits in values {
        let x = f32::from_bits(bits);
        assert!(x.is_finite());
        assert!((0.0..=1.0).contains(&x));
    }
    assert!(f32::from_bits(published.tv).is_finite());
    assert_eq!(
        published,
        Features {
            rms: 1.0f32.to_bits(),
            bass: 0,
            mid: 1.0f32.to_bits(),
            treble: 0,
            zcr: 0,
            centroid: 0,
            flux: 1.0f32.to_bits(),
            rolloff: 1.0f32.to_bits(),
            tv: 0,
        }
    );
}

#[test]
fn analyzer_silent_stereo_block() {
    let mut analyzer = Analyzer::new(2, 44100).ok().unwrap();
    let block = vec![0.0f32.to_bits(); 2 * 1024];
    let channels = analyzer.split_channels(&block).unwrap();
    assert_eq!(channels.len(), 2);
    for (index, channel) in channels.iter().enumerate() {
        assert_eq!(channel.len(), 1024);
        assert_eq!(zero_crossings(channel), 0);
        assert_eq!(analyzer.exchange_frame(index, vec![0; 513]), Some(vec![]));
    }
    let published = analyzer.publish(Features::zero());
    assert_eq!(published, Features::zero());
    let read = analyzer.audio_features().read();
    for bits in [
        read.rms,
        read.bass,
        read.mid,
        read.treble,
        read.zcr,
        read.centroid,
        read.flux,
        read.rolloff,
        read.tv,
    ] {
        assert_eq!(f32::from_bits(bits), 0.0);
    }
}
