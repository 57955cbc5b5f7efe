use wrac_plugin::wrac_clap_adapter::api::PluginError;
use wrac_plugin::wrac_clap_adapter::process_buffer::{
    common_sample_type, validate_buffers, AudioBufferError, AudioChannelPair, AudioPortBuffer,
    AudioPortChannels, AudioProcessBuffer, AudioSampleFormat,
};

fn buffer32(channels: &[usize]) -> AudioPortBuffer<'_> {
    AudioPortBuffer { channel_count: channels.len() as u32, data32: Some(channels), data64: None }
}

fn buffer64(channels: &[usize]) -> AudioPortBuffer<'_> {
    AudioPortBuffer { channel_count: channels.len() as u32, data32: None, data64: Some(channels) }
}

#[test]
fn separate_buffers_support_more_than_two_channels() {
    let mut input_l = [1.0_f32, 2.0];
    let mut input_r = [3.0_f32, 4.0];
    let mut input_c = [5.0_f32, 6.0];
    let mut output_l = [0.0_f32; 2];
    let mut output_r = [0.0_f32; 2];
    let mut output_c = [0.0_f32; 2];
    {
        let mut blocks: [&mut [f32]; 6] = [
            &mut input_l,
            &mut input_r,
            &mut input_c,
            &mut output_l,
            &mut output_r,
            &mut output_c,
        ];
        let mut doubles: [&mut [f64]; 0] = [];
        let inputs = [buffer32(&[1, 2, 3])];
        let outputs = [buffer32(&[4, 5, 6])];
        let mut audio = AudioProcessBuffer::from_raw_buffers(
            &inputs,
            &outputs,
            &mut blocks,
            &mut doubles,
            2,
        )
        .unwrap();
        assert_eq!(audio.port_pair_count(), 1);
        let mut port = audio.port_pair(0).unwrap();
        let channels = match port.channels().unwrap() {
            AudioPortChannels::F32(channels) => channels,
            AudioPortChannels::F64(_) => panic!("expected f32 channels"),
        };
        assert_eq!(channels.channel_pair_count(), 3);

        let mut iter = channels.into_iter();
        while let Some(mut channel) = iter.next() {
            assert!(matches!(channel, AudioChannelPair::InputOutput(_, _)));
            channel.map_samples(|sample| sample * 2.0);
        }
    }

    assert_eq!(output_l, [2.0, 4.0]);
    assert_eq!(output_r, [6.0, 8.0]);
    assert_eq!(output_c, [10.0, 12.0]);
}

#[test]
fn in_place_alias_is_exposed_without_separate_input_slice() {
    let mut left = [1.0_f32, 2.0];
    let mut right = [3.0_f32, 4.0];
    {
        let mut blocks: [&mut [f32]; 2] = [&mut left, &mut right];
        let mut doubles: [&mut [f64]; 0] = [];
        let inputs = [buffer32(&[1, 2])];
        let outputs = [buffer32(&[1, 2])];
        let mut audio = AudioProcessBuffer::from_raw_buffers(
            &inputs,
            &outputs,
            &mut blocks,
            &mut doubles,
            2,
        )
        .unwrap();
        let mut port = audio.port_pair(0).unwrap();
        let channels = match port.channels().unwrap() {
            AudioPortChannels::F32(channels) => channels,
            AudioPortChannels::F64(_) => panic!("expected f32 channels"),
        };

        let mut iter = channels.into_iter();
        while let Some(mut channel) = iter.next() {
            assert!(matches!(channel, AudioChannelPair::InPlace(_)));
            channel.map_samples(|sample| sample * 3.0);
        }
    }

    assert_eq!(left, [3.0, 6.0]);
    assert_eq!(right, [9.0, 12.0]);
}

#[test]
fn output_only_channels_are_silenced_by_map_samples() {
    let mut output = [1.0_f32, 2.0, 3.0];
    {
        let mut blocks: [&mut [f32]; 1] = [&mut output];
        let mut doubles: [&mut [f64]; 0] = [];
        let outputs = [buffer32(&[1])];
        let mut audio =
            AudioProcessBuffer::from_raw_buffers(&[], &outputs, &mut blocks, &mut doubles, 3)
                .unwrap();
        let mut port = audio.port_pair(0).unwrap();
        let mut channels = match port.channels().unwrap() {
            AudioPortChannels::F32(channels) => channels,
            AudioPortChannels::F64(_) => panic!("expected f32 channels"),
        };
        let mut channel = channels.channel_pair(0).unwrap();
        assert!(matches!(channel, AudioChannelPair::OutputOnly(_)));
        channel.map_samples(|sample| sample * 10.0);
    }

    assert_eq!(output, [0.0, 0.0, 0.0]);
}

#[test]
fn duplicate_output_channel_pointer_is_rejected() {
    let mut output = [0.0_f32; 2];
    let mut blocks: [&mut [f32]; 1] = [&mut output];
    let mut doubles: [&mut [f64]; 0] = [];
    let outputs = [buffer32(&[1, 1])];

    let result = AudioProcessBuffer::from_raw_buffers(&[], &outputs, &mut blocks, &mut doubles, 2);
    assert_eq!(result.err(), Some(AudioBufferError::AliasedOutputBuffer));
}

#[test]
fn asymmetric_port_count_is_visible_as_port_pairs() {
    let mut input = [1.0_f32, 2.0];
    let mut output_a = [0.0_f32; 2];
    let mut output_b = [0.0_f32; 2];
    let mut blocks: [&mut [f32]; 3] = [&mut input, &mut output_a, &mut output_b];
    let mut doubles: [&mut [f64]; 0] = [];
    let inputs = [buffer32(&[1])];
    let outputs = [buffer32(&[2]), buffer32(&[3])];

    let mut audio =
        AudioProcessBuffer::from_raw_buffers(&inputs, &outputs, &mut blocks, &mut doubles, 2)
            .unwrap();
    assert_eq!(audio.port_pair_count(), 2);

    let mut pairs = audio.port_pairs();
    let first = pairs.next().unwrap();
    assert_eq!(first.channel_pair_count(), 1);
    let second = pairs.next().unwrap();
    assert_eq!(second.channel_pair_count(), 1);
    assert!(pairs.next().is_none());
}

#[test]
fn duplicate_outputs_across_ports_are_rejected() {
    let outputs = [buffer64(&[1]), buffer64(&[2, 1])];
    assert_eq!(validate_buffers(&[], &outputs, 1), Err(AudioBufferError::AliasedOutputBuffer));
    assert_eq!(validate_buffers(&[], &outputs, 0), Ok(()));
    assert_eq!(validate_buffers(&outputs, &[], 1), Ok(()));
}

#[test]
fn null_channels_are_rejected_where_there_are_frames() {
    let ports = [buffer32(&[1, 0])];
    assert_eq!(validate_buffers(&ports, &[], 4), Err(AudioBufferError::InvalidChannelBuffer));
    assert_eq!(validate_buffers(&ports, &[], 0), Ok(()));
    let missing = [AudioPortBuffer { channel_count: 2, data32: None, data64: None }];
    assert_eq!(validate_buffers(&[], &missing, 0), Err(AudioBufferError::InvalidChannelBuffer));
    let empty = [AudioPortBuffer { channel_count: 0, data32: None, data64: None }];
    assert_eq!(validate_buffers(&empty, &[], 4), Ok(()));
}

#[test]
fn sample_types_have_to_match() {
    let single = [1];
    let double = [1];
    assert_eq!(
        common_sample_type(Some(&buffer32(&single)), Some(&buffer64(&double))),
        Err(AudioBufferError::MismatchedSampleType)
    );
    assert_eq!(common_sample_type(Some(&buffer64(&double)), None), Ok(AudioSampleFormat::F64));
    assert_eq!(
        common_sample_type(Some(&buffer32(&single)), Some(&buffer32(&single))),
        Ok(AudioSampleFormat::F32)
    );
}

#[test]
fn buffer_errors_have_messages() {
    assert_eq!(AudioBufferError::InvalidPortBuffer.message(), "invalid audio port buffer");
    assert_eq!(AudioBufferError::InvalidChannelBuffer.message(), "invalid audio channel buffer");
    assert_eq!(
        AudioBufferError::MismatchedSampleType.message(),
        "input and output audio buffers use different sample types"
    );
    assert_eq!(
        AudioBufferError::AliasedOutputBuffer.message(),
        "output audio buffers alias each other"
    );
    assert_eq!(
        PluginError::from(AudioBufferError::AliasedOutputBuffer),
        PluginError::InvalidState
    );
}

#[test]
fn a_range_of_samples_is_mapped() {
    let mut samples = [1.0_f64, 2.0, 3.0, 4.0];
    {
        let mut pair = AudioChannelPair::InPlace(&mut samples[..]);
        pair.map_samples_range(1, 2, |sample| sample + 10.0);
        assert!(pair.input().is_some());
    }
    assert_eq!(samples, [1.0, 12.0, 13.0, 4.0]);

    let input = [5.0_f64, 6.0];
    let mut output = [0.0_f64; 2];
    {
        let mut pair = AudioChannelPair::InputOutput(&input[..], &mut output[..]);
        pair.map_samples_range(1, 9, |sample| sample * 2.0);
        assert!(pair.output_mut().is_some());
    }
    assert_eq!(output, [0.0, 12.0]);

    let mut pair = AudioChannelPair::InputOnly(&input[..]);
    pair.map_samples(|sample| sample * 2.0);
    assert!(pair.output_mut().is_none());
    assert_eq!(input, [5.0, 6.0]);
}

#[test]
fn channels_are_walked_again_and_again() {
    let mut left = [1.0_f32, 2.0];
    let mut right = [3.0_f32, 4.0];
    {
        let mut blocks: [&mut [f32]; 2] = [&mut left, &mut right];
        let mut doubles: [&mut [f64]; 0] = [];
        let inputs = [buffer32(&[1, 2])];
        let outputs = [buffer32(&[1, 2])];
        let mut audio = AudioProcessBuffer::from_raw_buffers(
            &inputs,
            &outputs,
            &mut blocks,
            &mut doubles,
            2,
        )
        .unwrap();
        let mut port = audio.port_pair(0).unwrap();
        let mut channels = match port.channels().unwrap() {
            AudioPortChannels::F32(channels) => channels,
            AudioPortChannels::F64(_) => panic!("expected f32 channels"),
        };

        for _ in 0..2 {
            let mut iter = channels.iter_mut();
            assert_eq!(iter.len(), 2);
            while let Some(mut channel) = iter.next() {
                channel.map_samples(|sample| sample * 3.0);
            }
        }
    }

    assert_eq!(left, [9.0, 18.0]);
    assert_eq!(right, [27.0, 36.0]);
}

#[test]
fn adjoining_ranges_are_written_as_one_range() {
    let add = |sample: f64| sample + 10.0;
    let start = [1.0_f64, 2.0, 3.0, 4.0, 5.0];
    let (mut parts, mut whole) = (start, start);
    {
        let mut pair = AudioChannelPair::InPlace(&mut parts[..]);
        pair.map_samples_range(1, 2, add);
        pair.map_samples_range(3, 1, add);
        pair.map_samples_range(4, 0, add);
    }
    AudioChannelPair::InPlace(&mut whole[..]).map_samples_range(1, 3, add);
    assert_eq!(parts, [1.0, 12.0, 13.0, 14.0, 5.0]);
    assert_eq!(parts, whole);

    let (mut parts, mut whole) = (start, start);
    {
        let mut pair = AudioChannelPair::OutputOnly(&mut parts[..]);
        pair.map_samples_range(0, 1, add);
        pair.map_samples_range(1, 1, add);
    }
    AudioChannelPair::OutputOnly(&mut whole[..]).map_samples_range(0, 2, add);
    assert_eq!(parts, [0.0, 0.0, 3.0, 4.0, 5.0]);
    assert_eq!(parts, whole);
}

#[test]
fn a_function_that_remembers_is_called_once_for_each_sample_in_order() {
    let input = [1.0_f32, 2.0, 3.0, 4.0];
    let mut output = [0.0_f32; 3];
    let mut seen = Vec::new();
    {
        let mut pair = AudioChannelPair::InputOutput(&input[..], &mut output[..]);
        pair.map_samples(|sample| {
            seen.push(sample);
            seen.iter().sum()
        });
    }
    assert_eq!(seen, [1.0, 2.0, 3.0]);
    assert_eq!(output, [1.0, 3.0, 6.0]);

    let mut samples = [1.0_f64, 1.0, 1.0, 1.0];
    let mut gain = 1.0_f64;
    {
        let mut pair = AudioChannelPair::InPlace(&mut samples[..]);
        pair.map_samples_range(1, 2, |sample| {
            gain *= 2.0;
            sample * gain
        });
    }
    assert_eq!(gain, 4.0);
    assert_eq!(samples, [1.0, 2.0, 4.0, 1.0]);
}
