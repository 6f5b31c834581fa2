use hemu_gui::video_processor::{SoftwareProcessor, VideoProcessor};

#[test]
fn test_software_processor_creation() {
    let processor = SoftwareProcessor::new();
    assert_eq!(processor.name(), "Software Renderer");
    assert!(!processor.is_hardware_accelerated());
}

#[test]
fn test_software_processor_init() {
    let mut processor = SoftwareProcessor::new();
    assert!(processor.init(256, 240).is_ok());
}

#[test]
fn software_processor_resize_succeeds() {
    let mut processor = SoftwareProcessor::default();
    assert!(processor.resize(640, 480).is_ok());
}
