use storm::process_loading::{
    check_process_table, load_processes, read_word, ProcessImage, TableCheck, NUM_PROCS,
};

fn header(size: u32) -> Vec<u8> {
    size.to_le_bytes().to_vec()
}

fn image(size: u32) -> Vec<u8> {
    let mut bytes = header(size);
    bytes.resize(size as usize, 0xAA);
    bytes
}

#[test]
fn read_word_is_little_endian() {
    let flash = [0x78u8, 0x56, 0x34, 0x12, 0xff];
    assert_eq!(read_word(&flash, 0), 0x1234_5678);
    assert_eq!(read_word(&flash, 1), 0xff12_3456);
}

#[test]
fn empty_flash_list_loads_nothing() {
    let flash = header(0);
    assert_eq!(check_process_table(&flash), TableCheck::Fits);
    assert_eq!(load_processes(&flash), [None, None]);
}

#[test]
fn two_images_are_loaded_back_to_back() {
    let mut flash = image(8);
    flash.extend(image(12));
    flash.extend(header(0));
    assert_eq!(check_process_table(&flash), TableCheck::Fits);
    let images = load_processes(&flash);
    assert_eq!(
        images,
        [
            Some(ProcessImage { slot: 0, offset: 0, total_size: 8 }),
            Some(ProcessImage { slot: 1, offset: 8, total_size: 12 }),
        ]
    );
    // the list ends at a zero header right after the last image
    let last = images[1].unwrap();
    let end = last.offset + last.total_size;
    assert_eq!(read_word(&flash, end), 0);
}

#[test]
fn one_image_then_sentinel() {
    let mut flash = image(16);
    flash.extend(header(0));
    flash.extend(image(16));
    assert_eq!(check_process_table(&flash), TableCheck::Fits);
    assert_eq!(
        load_processes(&flash),
        [Some(ProcessImage { slot: 0, offset: 0, total_size: 16 }), None]
    );
}

#[test]
fn more_images_than_slots_are_refused() {
    let mut flash = Vec::new();
    for _ in 0..(NUM_PROCS + 1) {
        flash.extend(image(8));
    }
    flash.extend(header(0));
    assert_eq!(check_process_table(&flash), TableCheck::TooManyProcesses);
    // the images that fit are still loaded before the rest is refused
    assert_eq!(
        load_processes(&flash),
        [
            Some(ProcessImage { slot: 0, offset: 0, total_size: 8 }),
            Some(ProcessImage { slot: 1, offset: 8, total_size: 8 }),
        ]
    );
}

#[test]
fn exactly_as_many_images_as_slots_fit() {
    let mut flash = Vec::new();
    for _ in 0..NUM_PROCS {
        flash.extend(image(8));
    }
    flash.extend(header(0));
    assert_eq!(check_process_table(&flash), TableCheck::Fits);
    assert!(load_processes(&flash).iter().all(|slot| slot.is_some()));
}

#[test]
fn short_flash_is_out_of_flash() {
    assert_eq!(check_process_table(&[0u8, 0]), TableCheck::OutOfFlash);
    assert_eq!(load_processes(&[0u8, 0]), [None, None]);
    assert_eq!(check_process_table(&[]), TableCheck::OutOfFlash);
}

#[test]
fn image_running_past_the_flash_is_out_of_flash() {
    let mut flash = header(64);
    flash.extend(header(0));
    assert_eq!(check_process_table(&flash), TableCheck::OutOfFlash);
    // the image whose header was read is still found
    assert_eq!(
        load_processes(&flash),
        [Some(ProcessImage { slot: 0, offset: 0, total_size: 64 }), None]
    );
}

#[test]
fn missing_sentinel_is_out_of_flash() {
    let flash = image(8);
    assert_eq!(check_process_table(&flash), TableCheck::OutOfFlash);
}

#[test]
fn bytes_past_the_headers_do_not_matter() {
    let mut a = image(8);
    a.extend(header(0));
    let mut b = a.clone();
    b[5] = 0x11; // inside the image
    b.extend([0xde, 0xad, 0xbe, 0xef]); // after the zero header
    assert_eq!(check_process_table(&a), check_process_table(&b));
    assert_eq!(load_processes(&a), load_processes(&b));
}

#[test]
fn huge_header_does_not_overflow() {
    let flash = header(u32::MAX);
    assert_eq!(check_process_table(&flash), TableCheck::OutOfFlash);
    assert_eq!(
        load_processes(&flash),
        [Some(ProcessImage { slot: 0, offset: 0, total_size: u32::MAX as usize }), None]
    );
}
