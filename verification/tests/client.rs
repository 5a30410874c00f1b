use std::sync::{mpsc, Arc, Mutex};

use strim::client::audio::{fallback_config, handle_stream_message, negotiate_config, on_output_data, PlaybackError, StreamNotice};
use strim::client::network::{
    read_step, run_client, ClientAction, ClientPhase, ConnectionEvent, ReadOutcome, ReadStep, Received,
    RetryDecision, RetrySchedule, RETRY_TICK_MS, RETRY_WAIT_TICKS,
};
use strim::{AudioConfig, DeviceSampleFormat, Message, SampleFormat as SharedSampleFormat};

#[test]
fn test_on_output_data_i16() {
    let buffer: Arc<Mutex<Vec<u8>>> = Arc::new(Mutex::new(Vec::new()));
    let mut output_data: [i16; 3] = [0; 3];

    // Test with insufficient data
    {
        let mut buf = buffer.lock().unwrap();
        buf.extend_from_slice(&[1u8, 2u8]); // Only 2 bytes, need 6
    }

    on_output_data(&mut output_data, &mut buffer.lock().unwrap());
    assert_eq!(output_data, [0, 0, 0]); // Should be filled with silence

    // Add sufficient data
    let test_samples = [100i16, -200i16, 300i16];
    let mut test_bytes = Vec::new();
    for sample in test_samples {
        test_bytes.extend_from_slice(&sample.to_le_bytes());
    }

    {
        let mut buf = buffer.lock().unwrap();
        buf.clear();
        buf.extend_from_slice(&test_bytes);
    }

    on_output_data(&mut output_data, &mut buffer.lock().unwrap());
    assert_eq!(output_data, test_samples);
}

#[test]
fn test_audio_config_handling() {
    let (tx, rx) = mpsc::channel::<Message>();

    // Test different config scenarios
    let configs = vec![
        AudioConfig {
            sample_rate: 44100,
            channels: 2,
            sample_format: SharedSampleFormat::F32,
        },
        AudioConfig {
            sample_rate: 48000,
            channels: 1,
            sample_format: SharedSampleFormat::I16,
        },
    ];

    for config in configs {
        let config_msg = Message::Config(config.clone());
        tx.send(config_msg).expect("Should send config");

        let received = rx.recv().expect("Should receive config");
        match received {
            Message::Config(received_config) => {
                assert_eq!(received_config.sample_rate, config.sample_rate);
                assert_eq!(received_config.channels, config.channels);
                assert_eq!(received_config.sample_format, config.sample_format);
            }
            _ => panic!("Should receive Config message"),
        }
    }
}

#[test]
fn test_audio_buffer_management() {
    let buffer: Arc<Mutex<Vec<u8>>> = Arc::new(Mutex::new(Vec::new()));

    // Test adding data to buffer
    let test_data = vec![1u8, 2u8, 3u8, 4u8, 5u8, 6u8, 7u8, 8u8];
    {
        let mut buf = buffer.lock().unwrap();
        buf.extend_from_slice(&test_data);
    }

    assert_eq!(buffer.lock().unwrap().len(), 8);

    // Test partial consumption (simulate on_output_data)
    let mut output: [i16; 2] = [0; 2]; // Will consume 4 bytes
    on_output_data(&mut output, &mut buffer.lock().unwrap());

    // Should have 4 bytes remaining
    assert_eq!(buffer.lock().unwrap().len(), 4);
    assert_eq!(*buffer.lock().unwrap(), vec![5u8, 6u8, 7u8, 8u8]);
}

#[test]
fn test_network_message_handling() {
    let (tx, rx) = mpsc::channel::<Message>();
    let buffer: Arc<Mutex<Vec<u8>>> = Arc::new(Mutex::new(Vec::new()));

    // Test receiving different message types
    let messages = vec![
        Message::Config(AudioConfig {
            sample_rate: 44100,
            channels: 2,
            sample_format: SharedSampleFormat::F32,
        }),
        Message::AudioData(vec![1, 2, 3, 4, 5, 6, 7, 8]),
        Message::Error("Test error".to_string()),
    ];

    // Send messages
    for msg in messages.clone() {
        tx.send(msg).expect("Should send message");
    }

    // Receive and verify messages
    for (i, expected_msg) in messages.iter().enumerate() {
        let received_msg = rx.recv().expect("Should receive message");

        match (expected_msg, &received_msg) {
            (Message::Config(expected), Message::Config(received)) => {
                assert_eq!(expected.sample_rate, received.sample_rate);
                assert_eq!(expected.channels, received.channels);
                assert_eq!(expected.sample_format, received.sample_format);
            }
            (Message::AudioData(expected), Message::AudioData(received)) => {
                assert_eq!(expected, received, "AudioData mismatch at index {}", i);

                // Simulate adding to buffer
                {
                    let mut buf = buffer.lock().unwrap();
                    buf.extend_from_slice(received);
                }
            }
            (Message::Error(expected), Message::Error(received)) => {
                assert_eq!(expected, received, "Error message mismatch at index {}", i);
            }
            _ => panic!("Message type mismatch at index {}", i),
        }
    }

    // Check that audio data was added to buffer
    assert_eq!(buffer.lock().unwrap().len(), 8);
}

#[test]
fn test_sample_format_conversion() {
    // Test all supported sample format conversions
    let formats = vec![
        SharedSampleFormat::F32,
        SharedSampleFormat::I16,
        SharedSampleFormat::U16,
        SharedSampleFormat::I32,
    ];

    for format in formats {
        let cpal_format: DeviceSampleFormat = format.into();
        let back_to_shared = SharedSampleFormat::try_from(cpal_format).expect("Should convert back");
        assert_eq!(format, back_to_shared, "Conversion failed for {:?}", format);
    }
}

#[test]
fn test_connection_lifecycle() {
    let (connection_tx, connection_rx) = mpsc::channel::<ConnectionEvent<u32>>();

    // Simulate connection lifecycle events
    let events = vec![
        ConnectionEvent::Disconnected,
        // ConnectionEvent::Shutdown, // This variant is never constructed according to warnings
    ];

    for event in events {
        connection_tx.send(event).expect("Should send event");
        let received = connection_rx.recv().expect("Should receive event");

        match received {
            ConnectionEvent::Connected(_) => println!("Received Connected event"),
            ConnectionEvent::Disconnected => println!("Received Disconnected event"),
            ConnectionEvent::Shutdown => println!("Received Shutdown event"),
        }
    }
}

/// Output blocks of 32-bit samples are filled the same way.
#[test]
fn output_data_i32_and_u16() {
    let mut buffer: Vec<u8> = Vec::new();
    for v in [7i32, -7, i32::MAX] {
        buffer.extend_from_slice(&v.to_le_bytes());
    }
    buffer.push(42);
    let mut out = [0i32; 3];
    on_output_data(&mut out, &mut buffer);
    assert_eq!(out, [7, -7, i32::MAX]);
    assert_eq!(buffer, vec![42]);

    let mut words = [9u16; 2];
    on_output_data(&mut words, &mut buffer);
    assert_eq!(words, [0, 0]);
    assert_eq!(buffer, vec![42]);
}

/// What the first message of a connection means for playback.
#[test]
fn first_message_decides_the_config() {
    let config = AudioConfig { sample_rate: 48000, channels: 1, sample_format: SharedSampleFormat::I16 };
    let got = negotiate_config(Some(Message::Config(config))).unwrap();
    assert_eq!(got.sample_rate, 48000);
    assert_eq!(got.channels, 1);
    assert_eq!(got.sample_format, SharedSampleFormat::I16);

    let got = negotiate_config(Some(Message::AudioData(vec![1, 2]))).unwrap();
    let fallback = fallback_config();
    assert_eq!((got.sample_rate, got.channels, got.sample_format), (44100, 2, SharedSampleFormat::F32));
    assert_eq!((fallback.sample_rate, fallback.channels), (44100, 2));

    match negotiate_config(Some(Message::Error("busy".to_string()))) {
        Err(PlaybackError::ServerError(text)) => assert_eq!(text, "busy"),
        other => panic!("unexpected {:?}", other),
    }
    assert!(matches!(negotiate_config(None), Err(PlaybackError::ConfigNotReceived)));
}

/// Messages during playback: audio is queued, the rest leaves the queue.
#[test]
fn stream_messages_during_playback() {
    let mut buffer = vec![1u8];
    assert!(matches!(handle_stream_message(&mut buffer, Message::AudioData(vec![2, 3])), StreamNotice::Queued));
    assert_eq!(buffer, vec![1, 2, 3]);
    let config = AudioConfig { sample_rate: 8000, channels: 1, sample_format: SharedSampleFormat::U16 };
    match handle_stream_message(&mut buffer, Message::Config(config)) {
        StreamNotice::ConfigIgnored(c) => assert_eq!(c.sample_rate, 8000),
        other => panic!("unexpected {:?}", other),
    }
    match handle_stream_message(&mut buffer, Message::Error("gone".to_string())) {
        StreamNotice::ServerError(t) => assert_eq!(t, "gone"),
        other => panic!("unexpected {:?}", other),
    }
    assert_eq!(buffer, vec![1, 2, 3]);
}

/// The client's main loop across a connect, a loss and a shutdown.
#[test]
fn client_session_life_cycle() {
    let mut session = run_client("localhost".to_string(), 8080);
    assert_eq!(session.host, "localhost");
    assert_eq!(session.port, 8080);
    assert_eq!(session.phase, ClientPhase::Connecting);

    assert!(matches!(session.on_event::<u32>(true, Received::Timeout), ClientAction::Wait));
    assert_eq!(session.phase, ClientPhase::Connecting);
    assert!(matches!(
        session.on_event(true, Received::Value(ConnectionEvent::Connected(7u32))),
        ClientAction::StartPlayback(7)
    ));
    assert_eq!(session.phase, ClientPhase::Playing);
    assert_eq!(session.connections, 1);
    assert!(matches!(session.on_event::<u32>(true, Received::Value(ConnectionEvent::Disconnected)), ClientAction::Reconnect));
    assert_eq!(session.phase, ClientPhase::Connecting);
    assert!(matches!(session.on_event(true, Received::Value(ConnectionEvent::Connected(8u32))), ClientAction::StartPlayback(8)));
    assert_eq!(session.connections, 2);
    assert!(matches!(session.on_event::<u32>(false, Received::Timeout), ClientAction::Stop));
    assert_eq!(session.phase, ClientPhase::Stopped);
    // Once stopped, nothing restarts the client.
    assert!(matches!(session.on_event(true, Received::Value(ConnectionEvent::Connected(9u32))), ClientAction::Stop));
    assert_eq!(session.connections, 2);

    let mut other = strim::client::run("example".to_string(), 9000);
    assert_eq!((other.host.as_str(), other.port), ("example", 9000));
    assert!(matches!(other.on_event::<u32>(true, Received::Closed), ClientAction::Stop));
    let mut third = run_client("h".to_string(), 1);
    assert!(matches!(third.on_event::<u32>(true, Received::Value(ConnectionEvent::Shutdown)), ClientAction::Stop));
    assert_eq!(third.phase, ClientPhase::Stopped);
}

/// Retrying counts attempts and gives up once shutdown is requested.
#[test]
fn retry_schedule() {
    let mut schedule = RetrySchedule::new();
    assert_eq!(schedule.attempt, 1);
    assert_eq!(schedule.on_failure(true), RetryDecision::RetryAfterWait);
    assert_eq!(schedule.attempt, 2);
    assert_eq!(schedule.on_failure(true), RetryDecision::RetryAfterWait);
    assert_eq!(schedule.attempt, 3);
    assert_eq!(schedule.on_failure(false), RetryDecision::GiveUp);
    assert_eq!(schedule.attempt, 3);
    assert_eq!(RETRY_WAIT_TICKS as u64 * RETRY_TICK_MS, 5000);
}

/// The read loop's step after each kind of read.
#[test]
fn read_loop_steps() {
    assert_eq!(read_step(true, ReadOutcome::Data), ReadStep::Decode);
    assert_eq!(read_step(true, ReadOutcome::EndOfStream), ReadStep::ReportDisconnect);
    assert_eq!(read_step(false, ReadOutcome::EndOfStream), ReadStep::ReportDisconnect);
    assert_eq!(read_step(true, ReadOutcome::WouldBlock), ReadStep::Pause);
    assert_eq!(read_step(true, ReadOutcome::Failed), ReadStep::ReportDisconnect);
    assert_eq!(read_step(false, ReadOutcome::Failed), ReadStep::Stop);
}

/// Filling two blocks one after another plays what one larger block would.
#[test]
fn consecutive_blocks_play_in_order() {
    let mut bytes: Vec<u8> = Vec::new();
    for v in [1i16, -2, 3, -4, 5] {
        bytes.extend_from_slice(&v.to_le_bytes());
    }
    let mut whole_queue = bytes.clone();
    let mut whole = [0i16; 5];
    on_output_data(&mut whole, &mut whole_queue);

    let mut split_queue = bytes;
    let mut first = [0i16; 2];
    let mut second = [0i16; 3];
    on_output_data(&mut first, &mut split_queue);
    on_output_data(&mut second, &mut split_queue);
    assert_eq!([first[0], first[1], second[0], second[1], second[2]], whole);
    assert_eq!(whole, [1, -2, 3, -4, 5]);
    assert!(split_queue.is_empty() && whole_queue.is_empty());
}
