use gphoto::file::{CameraFile, FOLDER_CAPACITY, NAME_CAPACITY};

fn name_field(text: &[u8]) -> [u8; 128] {
    let mut a = [0u8; 128];
    a[..text.len()].copy_from_slice(text);
    a
}

fn folder_field(text: &[u8]) -> [u8; 1024] {
    let mut a = [0u8; 1024];
    a[..text.len()].copy_from_slice(text);
    a
}

#[test]
fn field_capacities_match_native_record() {
    assert_eq!(NAME_CAPACITY, 128);
    assert_eq!(FOLDER_CAPACITY, 1024);
}

#[test]
fn directory_and_basename_read_up_to_terminator() {
    let f = CameraFile::new(name_field(b"IMG_0001.JPG"), folder_field(b"/store_00010001/DCIM/100CANON"));
    assert_eq!(f.directory(), "/store_00010001/DCIM/100CANON");
    assert_eq!(f.basename(), "IMG_0001.JPG");
}

#[test]
fn directory_and_basename_ignore_bytes_after_terminator() {
    let mut name = name_field(b"a.jpg");
    name[6] = b'!';
    name[127] = 0xff;
    let mut folder = folder_field(b"/");
    folder[2] = b'x';
    let f = CameraFile::new(name, folder);
    assert_eq!(f.directory(), "/");
    assert_eq!(f.basename(), "a.jpg");
}

#[test]
fn directory_and_basename_replace_invalid_utf8() {
    let f = CameraFile::new(name_field(b"\xffx"), folder_field(b"/a\xc3"));
    assert_eq!(f.basename(), "\u{fffd}x");
    assert_eq!(f.directory(), "/a\u{fffd}");
}

#[test]
fn empty_fields_give_empty_strings() {
    let f = CameraFile::new([0u8; 128], [0u8; 1024]);
    assert_eq!(f.directory(), "");
    assert_eq!(f.basename(), "");
    assert_eq!(f.native_directory(), vec![0u8]);
    assert_eq!(f.native_basename(), vec![0u8]);
}

#[test]
fn unterminated_fields_are_read_to_capacity() {
    let f = CameraFile::new([b'n'; 128], [b'd'; 1024]);
    assert_eq!(f.basename(), "n".repeat(128));
    assert_eq!(f.directory(), "d".repeat(1024));
}

#[test]
fn native_strings_end_in_one_terminator() {
    let f = CameraFile::new(name_field(b"capt0000.jpg"), folder_field(b"/"));
    assert_eq!(f.native_basename(), b"capt0000.jpg\0".to_vec());
    assert_eq!(f.native_directory(), b"/\0".to_vec());
}

#[test]
fn native_strings_of_unterminated_fields_are_terminated() {
    let f = CameraFile::new([b'n'; 128], [b'd'; 1024]);
    let name = f.native_basename();
    let folder = f.native_directory();
    assert_eq!(name.len(), 129);
    assert_eq!(folder.len(), 1025);
    assert_eq!(name[128], 0);
    assert_eq!(folder[1024], 0);
    assert!(name[..128].iter().all(|&b| b == b'n'));
    assert!(folder[..1024].iter().all(|&b| b == b'd'));
}

#[test]
fn camera_file_is_a_copyable_value() {
    let f = CameraFile::new(name_field(b"x"), folder_field(b"/y"));
    let g = f;
    assert_eq!(f, g);
    assert_eq!(f.clone().basename(), g.basename());
}
