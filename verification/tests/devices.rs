use hypha::commute;
use hypha::device::{
    channels_message, config_sort_key, first_config, format_message, plan, rank_of,
    short_sort_key, stereo_of, ConfigRange, DeviceError, DevicePlan, Direction, SampleFormat,
    SortKey,
};
use std::cmp::Reverse;

fn config(channels: u16, rate: u32, size: usize, float: bool) -> ConfigRange {
    ConfigRange {
        channels,
        max_sample_rate: rate,
        sample_size: size,
        is_float: float,
        format: if float { SampleFormat::F32 } else { SampleFormat::I16 },
    }
}

#[test]
fn two_channels_are_liked_most() {
    assert_eq!(rank_of(2), 2);
    assert_eq!(rank_of(1), 1);
    assert_eq!(rank_of(0), 0);
    assert_eq!(rank_of(6), 0);
    assert_eq!(stereo_of(2), Some(true));
    assert_eq!(stereo_of(1), Some(false));
    assert_eq!(stereo_of(3), None);
}

#[test]
fn a_key_counts_from_left_to_right() {
    let key = config_sort_key(&config(2, 48000, 4, true));
    assert_eq!(key, SortKey { rank: 2, sample_rate: 48000, sample_size: 4, is_float: true });
    assert!(key.is_above(&config_sort_key(&config(1, 96000, 8, true))));
    assert!(key.is_above(&config_sort_key(&config(2, 44100, 8, true))));
    assert!(key.is_above(&config_sort_key(&config(2, 48000, 2, true))));
    assert!(key.is_above(&config_sort_key(&config(2, 48000, 4, false))));
    assert!(!key.is_above(&key));
    let short = short_sort_key(&config(2, 48000, 4, true));
    assert_eq!(short, SortKey { rank: 2, sample_rate: 48000, sample_size: 0, is_float: false });
}

#[test]
fn the_best_configuration_is_the_first_of_a_stable_sort() {
    let configs = vec![
        config(1, 96000, 4, true),
        config(2, 44100, 4, true),
        config(2, 48000, 2, false),
        config(2, 48000, 4, true),
        config(2, 48000, 4, true),
        config(6, 192000, 8, true),
    ];
    let mut order: Vec<usize> = (0..configs.len()).collect();
    order.sort_by_key(|i| {
        let key = config_sort_key(&configs[*i]);
        Reverse((key.rank, key.sample_rate, key.sample_size, key.is_float))
    });
    assert_eq!(first_config(&configs, false), Some(order[0]));
    assert_eq!(first_config(&configs, false), Some(3));
    assert_eq!(first_config(&configs, true), Some(2));
    assert_eq!(first_config(&Vec::new(), false), None);
}

#[test]
fn a_device_is_used_with_its_best_configuration() {
    let configs = vec![config(1, 48000, 4, true), config(2, 44100, 2, false)];
    let expected = DevicePlan {
        config: 1,
        sample_rate: 44100,
        stereo: true,
        format: SampleFormat::I16,
    };
    assert_eq!(plan(&configs), Ok(expected));
    assert_eq!(plan(&vec![config(1, 8000, 4, true)]).map(|plan| plan.stereo), Ok(false));
}

#[test]
fn a_device_that_cannot_be_used_is_refused() {
    assert_eq!(plan(&Vec::new()), Err(DeviceError::NoConfig));
    assert_eq!(plan(&vec![config(6, 48000, 4, true)]), Err(DeviceError::NotStereoOrMono));
    let unknown = ConfigRange { format: SampleFormat::Unknown, ..config(6, 48000, 4, true) };
    assert_eq!(plan(&vec![unknown]), Err(DeviceError::UnknownFormat));
}

#[test]
fn what_is_said_of_a_device() {
    assert_eq!(channels_message(Direction::Input), "no input config which is stereo or mono");
    assert_eq!(channels_message(Direction::Output), "no output config which is stereo or mono");
    assert_eq!(format_message("u24"), "unknown format: u24");
}

#[test]
fn only_channels_and_rate_count_for_the_first_telephone() {
    let configs = vec![
        config(2, 48000, 2, false),
        config(2, 48000, 4, true),
        config(1, 96000, 4, true),
    ];
    let choice = commute::ConfigChoice { config: 0, stereo: true };
    assert_eq!(commute::choose_config(&configs), Ok(choice));
    assert_eq!(commute::choose_config(&Vec::new()), Err(commute::ConfigError::NoConfig));
    assert_eq!(
        commute::choose_config(&vec![config(8, 48000, 4, true)]),
        Err(commute::ConfigError::NotStereoOrMono)
    );
}

#[test]
fn what_the_first_telephone_says_of_a_device() {
    assert_eq!(
        commute::config_message(commute::ConfigError::NoConfig, Direction::Input),
        "no input configuration"
    );
    assert_eq!(
        commute::config_message(commute::ConfigError::NoConfig, Direction::Output),
        "no output configuration"
    );
    assert_eq!(
        commute::config_message(commute::ConfigError::NotStereoOrMono, Direction::Input),
        "no input configuration which is stereo or mono"
    );
    assert_eq!(
        commute::config_message(commute::ConfigError::NotStereoOrMono, Direction::Output),
        "no output configuration which is stereo or mono"
    );
}
