use capture_ffi::error::{contains_nul, decimal_string, slot_message, CaptureError};
use capture_ffi::error_slot::ErrorSlot;
use capture_ffi::image::CapturedImage;
use capture_ffi::monitors::{
    capture_monitor_count, capture_monitor_height, capture_monitor_id, capture_monitor_image,
    capture_monitor_name, capture_monitor_width, count_in, frame_from, height_in, id_in,
    image_in, monitor_in, name_in, name_text, width_in,
};
use xcap::{Monitor, XCapError};

fn no_monitors() -> Result<Vec<Monitor>, XCapError> {
    Ok(Vec::new())
}

fn failed_listing() -> Result<Vec<Monitor>, XCapError> {
    Err(XCapError::new("no display server"))
}

#[test]
fn decimal_of_small_and_large_numbers() {
    assert_eq!(decimal_string(0), "0");
    assert_eq!(decimal_string(7), "7");
    assert_eq!(decimal_string(10), "10");
    assert_eq!(decimal_string(1920), "1920");
    assert_eq!(decimal_string(usize::MAX), usize::MAX.to_string());
}

#[test]
fn message_of_each_failure() {
    assert_eq!(
        CaptureError::Enumeration("no display".to_string()).message(),
        "Error fetching monitors: no display"
    );
    assert_eq!(CaptureError::IndexOutOfBounds(3).message(), "Monitor index out of bounds: 3");
    assert_eq!(CaptureError::InvalidIndex(5).message(), "Invalid monitor index: 5");
    assert_eq!(CaptureError::NameHasNul.message(), "Monitor name contains null bytes");
    assert_eq!(
        CaptureError::Capture(12, "denied".to_string()).message(),
        "Error capturing image for monitor 12: denied"
    );
}

#[test]
fn message_never_empty() {
    let all = vec![
        CaptureError::Enumeration(String::new()),
        CaptureError::IndexOutOfBounds(0),
        CaptureError::InvalidIndex(0),
        CaptureError::NameHasNul,
        CaptureError::Capture(0, String::new()),
    ];
    for e in all {
        assert!(!e.message().is_empty());
    }
}

#[test]
fn nul_detection() {
    assert!(!contains_nul(""));
    assert!(!contains_nul("DP-1"));
    assert!(contains_nul("a\0b"));
    assert!(contains_nul("\0"));
    assert!(!contains_nul("écran"));
}

#[test]
fn slot_keeps_clean_message() {
    assert_eq!(slot_message("Invalid monitor index: 5".to_string()), "Invalid monitor index: 5");
}

#[test]
fn slot_replaces_message_with_nul() {
    assert_eq!(slot_message("bad\0name".to_string()), "Failed to create error message");
}

#[test]
fn empty_image_is_the_sentinel() {
    let image = CapturedImage::empty();
    assert!(image.data.is_empty());
    assert_eq!(image.len(), 0);
    assert_eq!(image.width, 0);
    assert_eq!(image.height, 0);
}

#[test]
fn full_hd_frame_length() {
    let image = CapturedImage::from_rgba(1920, 1080, vec![7u8; 8294400]);
    assert_eq!(image.width, 1920);
    assert_eq!(image.height, 1080);
    assert_eq!(image.len(), 8294400);
}

#[test]
fn frame_drops_bytes_past_the_pixels() {
    let raw: Vec<u8> = (0u8..12).collect();
    let image = CapturedImage::from_rgba(2, 1, raw);
    assert_eq!(image.data, vec![0, 1, 2, 3, 4, 5, 6, 7]);
    assert_eq!(image.len(), 8);
}

#[test]
fn zero_sized_frame() {
    let image = CapturedImage::from_rgba(0, 1080, vec![1, 2, 3]);
    assert_eq!(image.len(), 0);
    assert_eq!(image.height, 1080);
}

#[test]
fn count_of_listing() {
    assert_eq!(count_in(&no_monitors()).ok(), Some(0));
    match count_in(&failed_listing()) {
        Err(e) => assert_eq!(e.message(), "Error fetching monitors: no display server"),
        Ok(_) => panic!("a failed listing has no count"),
    }
}

#[test]
fn attribute_past_end_is_out_of_bounds() {
    let listing = no_monitors();
    for index in [0usize, 1, 5] {
        let expected = format!("Monitor index out of bounds: {}", index);
        assert_eq!(monitor_in(&listing, index).err().unwrap().message(), expected);
        assert_eq!(id_in(&listing, index).err().unwrap().message(), expected);
        assert_eq!(width_in(&listing, index).err().unwrap().message(), expected);
        assert_eq!(height_in(&listing, index).err().unwrap().message(), expected);
        assert_eq!(name_in(&listing, index).err().unwrap().message(), expected);
    }
}

#[test]
fn attribute_of_failed_listing() {
    let listing = failed_listing();
    let expected = "Error fetching monitors: no display server";
    assert_eq!(id_in(&listing, 0).err().unwrap().message(), expected);
    assert_eq!(width_in(&listing, 0).err().unwrap().message(), expected);
    assert_eq!(height_in(&listing, 0).err().unwrap().message(), expected);
    assert_eq!(name_in(&listing, 0).err().unwrap().message(), expected);
    assert_eq!(image_in(&listing, 0).err().unwrap().message(), expected);
}

#[test]
fn capture_past_end_is_invalid_index() {
    let e = image_in(&no_monitors(), 5).err().unwrap();
    assert!(matches!(e, CaptureError::InvalidIndex(5)));
    assert!(e.message().contains("Invalid monitor index: 5"));
}

#[test]
fn frame_from_captured_pixels() {
    let image = frame_from(0, Ok((1920, 1080, vec![0u8; 8294400]))).ok().unwrap();
    assert_eq!(image.width, 1920);
    assert_eq!(image.height, 1080);
    assert_eq!(image.len(), 8294400);
}

#[test]
fn frame_from_failed_capture() {
    let e = frame_from(3, Err(XCapError::new("denied"))).err().unwrap();
    assert_eq!(e.message(), "Error capturing image for monitor 3: denied");
}

#[test]
fn name_text_keeps_plain_names() {
    assert_eq!(name_text("HDMI-A-1").ok(), Some("HDMI-A-1".to_string()));
}

#[test]
fn name_text_refuses_nul() {
    assert!(matches!(name_text("DP\01"), Err(CaptureError::NameHasNul)));
}

#[test]
fn live_queries_agree_on_their_failures() {
    let count = capture_monitor_count();
    if let Err(e) = &count {
        assert!(matches!(e, CaptureError::Enumeration(_)));
    }
    let n = count.unwrap_or(0);
    for r in [capture_monitor_width(n), capture_monitor_height(n), capture_monitor_id(n)] {
        match r {
            Ok(_) => {}
            Err(e) => assert!(matches!(
                e,
                CaptureError::Enumeration(_) | CaptureError::IndexOutOfBounds(_)
            )),
        }
    }
    match capture_monitor_name(n) {
        Ok(name) => assert!(!name.contains('\0')),
        Err(e) => assert!(!e.message().is_empty()),
    }
}

#[test]
fn live_capture_is_a_whole_frame_or_a_failure() {
    match capture_monitor_image(0) {
        Ok(image) => {
            assert_eq!(image.len(), 4 * image.width as usize * image.height as usize);
        }
        Err(e) => assert!(matches!(
            e,
            CaptureError::Enumeration(_) | CaptureError::InvalidIndex(0) | CaptureError::Capture(0, _)
        )),
    }
}

#[test]
fn slot_starts_empty() {
    assert!(ErrorSlot::new().pending().is_none());
}

#[test]
fn slot_holds_c_text_of_last_failure() {
    let mut slot = ErrorSlot::new();
    let v = slot.settle(Err(CaptureError::InvalidIndex(5)), 0u32);
    assert_eq!(v, 0);
    assert_eq!(slot.pending().unwrap().as_slice(), b"Invalid monitor index: 5\0");
    slot.record(&CaptureError::IndexOutOfBounds(2));
    assert_eq!(slot.pending().unwrap().as_slice(), b"Monitor index out of bounds: 2\0");
}

#[test]
fn slot_unchanged_by_success() {
    let mut slot = ErrorSlot::new();
    slot.record(&CaptureError::NameHasNul);
    let v = slot.settle(Ok::<u32, CaptureError>(1920), 0);
    assert_eq!(v, 1920);
    assert_eq!(slot.pending().unwrap().as_slice(), b"Monitor name contains null bytes\0");
}

#[test]
fn slot_replaces_text_with_nul() {
    let mut slot = ErrorSlot::new();
    slot.record(&CaptureError::Enumeration("bad\0reason".to_string()));
    assert_eq!(slot.pending().unwrap().as_slice(), b"Failed to create error message\0");
}

#[test]
fn listed_attributes_are_the_monitors_own() {
    let listing = Monitor::all();
    if let Ok(monitors) = &listing {
        for (i, m) in monitors.iter().enumerate() {
            assert_eq!(id_in(&listing, i).ok(), Some(m.id()));
            assert_eq!(width_in(&listing, i).ok(), Some(m.width()));
            assert_eq!(height_in(&listing, i).ok(), Some(m.height()));
            if !m.name().contains('\0') {
                assert_eq!(name_in(&listing, i).ok(), Some(m.name().to_string()));
            }
        }
    }
}
