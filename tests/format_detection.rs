use probe_flasher::format::{detect_format, FirmwareImage, ImageFormat};

#[test]
fn bin_extension_is_bin() {
    assert_eq!(detect_format("firmware.bin"), Some(ImageFormat::Bin));
}

#[test]
fn hex_extension_is_hex() {
    assert_eq!(detect_format("build/app.hex"), Some(ImageFormat::Hex));
}

#[test]
fn elf_extension_is_elf() {
    assert_eq!(detect_format("C:\\work\\app.elf"), Some(ImageFormat::Elf));
}

#[test]
fn no_extension_is_elf() {
    assert_eq!(detect_format("target/thumbv7m-none-eabi/release/blinky"), Some(ImageFormat::Elf));
}

#[test]
fn dot_in_directory_is_not_an_extension() {
    assert_eq!(detect_format("out.d/firmware"), Some(ImageFormat::Elf));
}

#[test]
fn hidden_file_has_no_extension() {
    assert_eq!(detect_format("dir/.firmware"), Some(ImageFormat::Elf));
}

#[test]
fn other_extension_is_unsupported() {
    assert_eq!(detect_format("notes.txt"), None);
}

#[test]
fn extension_is_case_sensitive() {
    assert_eq!(detect_format("firmware.BIN"), None);
}

#[test]
fn only_last_extension_counts() {
    assert_eq!(detect_format("image.bin.txt"), None);
    assert_eq!(detect_format("image.txt.hex"), Some(ImageFormat::Hex));
}

#[test]
fn empty_extension_is_unsupported() {
    assert_eq!(detect_format("firmware."), None);
}

#[test]
fn empty_path_is_elf() {
    assert_eq!(detect_format(""), Some(ImageFormat::Elf));
}

#[test]
fn image_from_supported_path() {
    let img = FirmwareImage::from_path("app.hex".to_string()).unwrap();
    assert_eq!(img.path, "app.hex");
    assert_eq!(img.format, ImageFormat::Hex);
}

#[test]
fn image_from_unsupported_path() {
    assert!(FirmwareImage::from_path("notes.txt".to_string()).is_none());
}
