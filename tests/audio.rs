use voice_router::adapters::streaming::{self, AudioBuffer};
use voice_router::audio_encoding::{
    map_encoding_to_provider, validate_audio_config, AudioChannels, AudioEncoding, AudioSampleRate,
    StreamingProvider,
};

const ALL: [AudioEncoding; 9] = [
    AudioEncoding::Linear16,
    AudioEncoding::Mulaw,
    AudioEncoding::Alaw,
    AudioEncoding::Flac,
    AudioEncoding::Opus,
    AudioEncoding::Speex,
    AudioEncoding::AmrNb,
    AudioEncoding::AmrWb,
    AudioEncoding::G729,
];

#[test]
fn mapping_follows_each_vendor_table() {
    let tables: [(StreamingProvider, Vec<(AudioEncoding, &str)>, &str); 3] = [
        (
            StreamingProvider::Gladia,
            vec![
                (AudioEncoding::Linear16, "wav/pcm"),
                (AudioEncoding::Mulaw, "wav/ulaw"),
                (AudioEncoding::Alaw, "wav/alaw"),
            ],
            "linear16, mulaw, alaw",
        ),
        (
            StreamingProvider::Deepgram,
            vec![
                (AudioEncoding::Linear16, "linear16"),
                (AudioEncoding::Mulaw, "mulaw"),
                (AudioEncoding::Flac, "flac"),
                (AudioEncoding::Opus, "opus"),
                (AudioEncoding::Speex, "speex"),
                (AudioEncoding::AmrNb, "amr-nb"),
                (AudioEncoding::AmrWb, "amr-wb"),
                (AudioEncoding::G729, "g729"),
            ],
            "linear16, mulaw, flac, opus, speex, amr-nb, amr-wb, g729",
        ),
        (
            StreamingProvider::AssemblyAI,
            vec![
                (AudioEncoding::Linear16, "pcm_s16le"),
                (AudioEncoding::Mulaw, "pcm_mulaw"),
                (AudioEncoding::Alaw, "pcm_alaw"),
            ],
            "linear16, mulaw, alaw",
        ),
    ];
    for (vendor, table, supported) in tables.iter() {
        for enc in ALL {
            let result = map_encoding_to_provider(enc, *vendor);
            match table.iter().find(|(e, _)| *e == enc) {
                Some((_, token)) => assert_eq!(result, Ok(*token)),
                None => {
                    let m = result.unwrap_err();
                    assert!(m.ends_with(&format!("Supported encodings: {}", supported)), "{}", m);
                }
            }
        }
    }
}

#[test]
fn unsupported_message_names_encoding_and_vendor() {
    assert_eq!(
        map_encoding_to_provider(AudioEncoding::Alaw, StreamingProvider::Deepgram),
        Err("Encoding 'Alaw' is not supported by Deepgram. Supported encodings: linear16, mulaw, flac, opus, speex, amr-nb, amr-wb, g729".to_string())
    );
}

#[test]
fn validation_rules() {
    assert_eq!(validate_audio_config(None, None, StreamingProvider::AssemblyAI), Ok(()));
    assert_eq!(
        validate_audio_config(Some(AudioEncoding::Mulaw), None, StreamingProvider::AssemblyAI),
        Err("AssemblyAI streaming only supports linear16 encoding".to_string())
    );
    assert_eq!(
        validate_audio_config(Some(AudioEncoding::Linear16), AudioChannels::new(8), StreamingProvider::Gladia),
        Ok(())
    );
    assert!(validate_audio_config(Some(AudioEncoding::Flac), None, StreamingProvider::Gladia).is_err());
}

#[test]
fn names_and_aliases() {
    assert_eq!(AudioEncoding::from_str("PCM_S16LE"), Some(AudioEncoding::Linear16));
    assert_eq!(AudioEncoding::from_str("Amr-Wb"), Some(AudioEncoding::AmrWb));
    assert_eq!(AudioEncoding::from_str("wav/pcm"), None);
    assert_eq!(AudioEncoding::from_lowercase_name("pcm"), Some(AudioEncoding::Linear16));
    assert_eq!(AudioEncoding::from_lowercase_name("MULAW"), None);
    assert_eq!(AudioEncoding::AmrNb.as_str(), "amr-nb");
    assert_eq!(streaming::AudioEncoding::from_str("WAV/MULAW"), Some(streaming::AudioEncoding::Mulaw));
    assert_eq!(streaming::AudioEncoding::Opus.to_assemblyai(), None);
    assert_eq!(streaming::AudioEncoding::Mulaw.to_assemblyai(), Some("pcm_mulaw"));
    assert_eq!(streaming::AudioEncoding::Flac.to_gladia(), None);
    assert_eq!(streaming::AudioEncoding::Alaw.to_gladia(), Some("wav/alaw"));
    assert_eq!(streaming::AudioEncoding::Mp3.to_deepgram(), "mp3");
}

#[test]
fn channels_and_rates() {
    assert!(AudioChannels::new(0).is_none());
    assert!(AudioChannels::new(9).is_none());
    assert_eq!(AudioChannels::new(3).unwrap().as_u8(), 3);
    assert_eq!(AudioChannels::default().as_u8(), 1);
    assert_eq!(AudioChannels::stereo().as_u8(), 2);
    assert_eq!(AudioSampleRate::Hz44100.as_u32(), 44100);
}

#[test]
fn buffer_releases_one_full_chunk_and_holds_the_rest() {
    let mut buffer = AudioBuffer::new(1600, 32000);
    let ready = buffer.add(vec![7u8; 40000]);
    assert_eq!(ready.len(), 1);
    assert_eq!(ready[0].len(), 32000);
    let rest = buffer.flush().unwrap();
    assert_eq!(rest.len(), 8000);
    assert_eq!(buffer.flush(), None);
}

#[test]
fn buffer_keeps_byte_order() {
    let mut buffer = AudioBuffer::new(1, 4);
    let data: Vec<u8> = (0..10).collect();
    let ready = buffer.add(data);
    assert_eq!(ready, vec![vec![0, 1, 2, 3], vec![4, 5, 6, 7]]);
    assert_eq!(buffer.add(vec![10, 11]), vec![vec![8, 9, 10, 11]]);
    assert_eq!(buffer.flush(), None);
}

#[test]
fn buffer_sends_two_frames_for_64000_bytes() {
    let mut buffer = AudioBuffer::for_assemblyai();
    let ready = buffer.add(vec![1u8; 64000]);
    assert_eq!(ready.len(), 2);
    assert!(ready.iter().all(|c| c.len() == 32000));
    assert_eq!(buffer.flush(), None);
}

#[test]
fn small_remainder_is_flushed_anyway() {
    let mut buffer = AudioBuffer::for_assemblyai();
    assert!(buffer.add(vec![1u8; 10]).is_empty());
    assert_eq!(buffer.flush(), Some(vec![1u8; 10]));
}
