use bottomless::close::scratch_for_close;

#[test]
fn close_withholds_the_scratch_buffer() {
    let mut buffer = [0u8; 64];
    assert!(scratch_for_close(Some(&mut buffer[..])).is_none());
}

#[test]
fn close_without_scratch_buffer_passes_none() {
    assert!(scratch_for_close::<&mut [u8]>(None).is_none());
}
