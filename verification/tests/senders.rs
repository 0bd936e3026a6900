use quasar_telemetry::sender::{ImageSender, OnceSender, PeriodicSender, VideoSender};
use quasar_telemetry::wire::{new_broadcast_queue, SendFailed};

#[test]
fn forward_bytes_round_trip() {
    let (out, rx) = new_broadcast_queue();
    out.forward_bytes("视频", &[1, 2, 3]).unwrap();
    let frame = rx.recv().unwrap();
    let (identifier, payload): (String, Vec<u8>) = rmp_serde::from_slice(&frame).unwrap();
    assert_eq!(identifier, "视频");
    assert_eq!(payload, vec![1, 2, 3]);
}

#[test]
fn forward_rate_round_trip() {
    let (out, rx) = new_broadcast_queue();
    out.forward_rate("视频的帧率", 29_500).unwrap();
    let frame = rx.recv().unwrap();
    let (identifier, rate): (String, u64) = rmp_serde::from_slice(&frame).unwrap();
    assert_eq!(identifier, "视频的帧率");
    assert_eq!(rate, 29_500);
}

#[test]
fn forward_fails_when_queue_torn_down() {
    let (out, rx) = new_broadcast_queue();
    drop(rx);
    assert_eq!(out.forward(vec![0]), Err(SendFailed::QueueClosed));
    assert_eq!(out.forward_bytes("x", &[1]), Err(SendFailed::QueueClosed));
}

#[test]
fn once_sender_forwards_every_call() {
    let (out, rx) = new_broadcast_queue();
    let sender = OnceSender::new("指标".to_string(), out);
    for i in 0..5u8 {
        sender.send(&[i]).unwrap();
    }
    let mut frames = 0;
    while let Ok(frame) = rx.try_recv() {
        let (identifier, payload): (String, Vec<u8>) = rmp_serde::from_slice(&frame).unwrap();
        assert_eq!(identifier, "指标");
        assert_eq!(payload, vec![frames as u8]);
        frames += 1;
    }
    assert_eq!(frames, 5);
}

#[test]
fn periodic_sender_withholds_before_first_window() {
    let (out, rx) = new_broadcast_queue();
    let mut sender = PeriodicSender::new("指标".to_string(), 30, out);
    for i in 0..99u8 {
        assert_eq!(sender.send(&[i]), Ok(()));
    }
    assert!(rx.try_recv().is_err(), "nothing may be forwarded before the first window completes");
}

#[test]
fn image_sender_withholds_before_first_window() {
    let (out, rx) = new_broadcast_queue();
    let mut sender = ImageSender::new("视频".to_string(), 30, out);
    assert_eq!(sender.measured_rate_millis(), 0);
    for _ in 0..99 {
        assert_eq!(sender.send(&[0xFF, 0xD8]), Ok(()));
    }
    assert!(rx.try_recv().is_err());
}

#[test]
fn video_sender_reports_under_derived_identifier() {
    let (out, rx) = new_broadcast_queue();
    let mut sender = VideoSender::new("视频".to_string(), 30, 1, out);
    // Drive well past one window; the fast loop measures a very high rate,
    // so image frames are almost surely withheld, and any frame that does
    // go out is tagged with one of the two stream identifiers.
    for _ in 0..500 {
        sender.send(&[0xFF, 0xD8]).unwrap();
    }
    while let Ok(frame) = rx.try_recv() {
        let identifier = match rmp_serde::from_slice::<(String, Vec<u8>)>(&frame) {
            Ok((id, _image)) => id,
            Err(_) => rmp_serde::from_slice::<(String, u64)>(&frame).unwrap().0,
        };
        assert!(identifier == "视频" || identifier == "视频的帧率");
    }
}
