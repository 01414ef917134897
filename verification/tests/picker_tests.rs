use card_atlas::picker::{open_image_picker, take_selected_image_bytes, Mailbox};

#[test]
fn empty_mailbox_gives_nothing() {
    let mut mailbox = Mailbox::new();
    assert!(!mailbox.is_full());
    assert_eq!(take_selected_image_bytes(&mut mailbox), None);
    assert_eq!(take_selected_image_bytes(&mut mailbox), None);
}

#[test]
fn selection_is_taken_once() {
    let mut mailbox = Mailbox::new();
    mailbox.deliver(vec![1, 2, 3], "cards.png".to_string());
    assert!(mailbox.is_full());
    assert_eq!(
        take_selected_image_bytes(&mut mailbox),
        Some((vec![1, 2, 3], "cards.png".to_string()))
    );
    assert!(!mailbox.is_full());
    assert_eq!(take_selected_image_bytes(&mut mailbox), None);
}

#[test]
fn new_selection_replaces_one_that_waits() {
    let mut mailbox = Mailbox::new();
    mailbox.deliver(vec![1], "first.png".to_string());
    mailbox.deliver(vec![2, 2], "second.jpg".to_string());
    assert_eq!(
        take_selected_image_bytes(&mut mailbox),
        Some((vec![2, 2], "second.jpg".to_string()))
    );
    assert_eq!(take_selected_image_bytes(&mut mailbox), None);
}

#[test]
fn picker_offers_png_and_jpeg() {
    let request = open_image_picker();
    assert_eq!(request.label, "Image");
    assert_eq!(request.extensions, vec!["png", "jpg", "jpeg"]);
    assert_eq!(request.accept, "image/png,image/jpeg");
}
