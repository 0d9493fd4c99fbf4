use audio_multisample::CaptureError;

#[test]
fn each_failure_has_its_message() {
    assert_eq!(CaptureError::BuildStream.message(), "could not build input stream");
    assert_eq!(CaptureError::PauseStream.message(), "could not pause input stream");
    assert_eq!(CaptureError::PlayStream.message(), "could not play input stream");
    assert_eq!(CaptureError::Stream.message(), "error during stream capture");
    assert_eq!(CaptureError::MidiSend.message(), "could not send midi message");
}

#[test]
fn the_five_failures_differ() {
    let all = [
        CaptureError::BuildStream,
        CaptureError::PauseStream,
        CaptureError::PlayStream,
        CaptureError::Stream,
        CaptureError::MidiSend,
    ];
    for (i, a) in all.iter().enumerate() {
        for (j, b) in all.iter().enumerate() {
            assert_eq!(a == b, i == j);
        }
    }
}
