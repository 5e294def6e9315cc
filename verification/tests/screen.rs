use my_home::screen::{
    buffer_to_pixels, calibration_border, frame_for_key, calibration_labels, ui_step, Frame, ScreenMessage, UiAction, UiInput,
    UiMessage, HEIGHT, WIDTH,
};

#[test]
fn the_calibration_frame_stays() {
    let f = Frame::Calibration.update(ScreenMessage::UpdateLifxGroup { group: "g".to_string(), brightness: 3 });
    assert_eq!(f, Frame::Calibration);
    let f = Frame::Empty.update(ScreenMessage::UpdateLifxBulb { source: 1, power: true });
    assert_eq!(f, Frame::Empty);
}

#[test]
fn calibration_layout() {
    let b = calibration_border();
    assert_eq!((b.x, b.y, b.width, b.height), (1, 1, 798, 478));
    let labels = calibration_labels();
    let l: Vec<(&str, i32, i32)> = labels.iter().map(|l| (l.text, l.x, l.y)).collect();
    assert_eq!(
        l,
        vec![("top-left", 1, 1), ("top-right", 745, 1), ("bottom-left", 1, 471), ("bottom-right", 727, 471)]
    );
    assert_eq!((WIDTH, HEIGHT), (800, 480));
}

#[test]
fn buffer_bits_run_row_by_row_most_significant_first() {
    let mut buffer = vec![0u8; 101];
    buffer[0] = 0b1000_0001;
    buffer[100] = 0b0100_0000; // bit 801: second pixel of the second row
    let pixels = buffer_to_pixels(&buffer);
    assert_eq!(pixels.len(), 808);
    assert!(pixels[0].on);
    assert_eq!((pixels[0].x, pixels[0].y), (0, 0));
    assert!(!pixels[1].on);
    assert!(pixels[7].on);
    assert_eq!((pixels[801].x, pixels[801].y), (1, 1));
    assert!(pixels[801].on);
    assert_eq!(pixels.iter().filter(|p| p.on).count(), 3);
}

#[test]
fn the_window_loop() {
    assert!(matches!(ui_step(UiInput::Disconnected), UiAction::Stop));
    assert!(matches!(ui_step(UiInput::Timeout), UiAction::Wait));
    assert!(matches!(ui_step(UiInput::Message(UiMessage::Clear)), UiAction::Clear));
    match ui_step(UiInput::Message(UiMessage::Update(vec![1, 2]))) {
        UiAction::Show(b) => assert_eq!(b, vec![1, 2]),
        r => panic!("unexpected {:?}", r),
    }
}

#[test]
fn designer_keys_select_frames() {
    assert_eq!(frame_for_key('c'), Some(Frame::Calibration));
    assert_eq!(frame_for_key('e'), Some(Frame::Empty));
    assert_eq!(frame_for_key('x'), None);
}
