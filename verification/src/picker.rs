//! Hand-over of a picked image from the host to the editor.
//!
//! Showing a file dialog and reading the chosen file is the host's work and
//! may finish long after it was asked for. The host drops what it read into
//! a mailbox with a single slot, and the editor empties the slot once a
//! frame. A selection that arrives before the last one was taken replaces
//! it.

use vstd::prelude::*;

verus! {

/// What the host is asked to let the user pick.
#[derive(Debug)]
pub struct PickerRequest {
    /// Label of the file filter.
    pub label: String,
    /// File extensions offered, without the dot.
    pub extensions: Vec<String>,
    /// The same choice as a list of media types, separated by commas.
    pub accept: String,
}

/// The single slot through which the bytes of a picked image and the name
/// of its file reach the editor.
#[derive(Debug)]
pub struct Mailbox {
    slot: Option<(Vec<u8>, String)>,
}

impl View for Mailbox {
    type V = Option<(Seq<u8>, Seq<char>)>;

    closed spec fn view(&self) -> Option<(Seq<u8>, Seq<char>)> {
        match self.slot {
            Some((bytes, name)) => Some((bytes@, name@)),
            None => None,
        }
    }
}

impl Mailbox {
    /// An empty mailbox.
    pub fn new() -> (mailbox: Mailbox)
        ensures
            mailbox@ is None,
    {
        Mailbox { slot: None }
    }

    /// Puts a selection into the slot. One that was still waiting is
    /// replaced.
    pub fn deliver(&mut self, bytes: Vec<u8>, name: String)
        ensures
            final(self)@ == Some((bytes@, name@)),
    {
        self.slot = Some((bytes, name));
    }

    /// Whether a selection is waiting.
    pub fn is_full(&self) -> (full: bool)
        ensures
            full == self@ is Some,
    {
        self.slot.is_some()
    }
}

/// The request that opens the image picker: PNG and JPEG files.
pub fn open_image_picker() -> (request: PickerRequest)
    ensures
        request.label@ == "Image"@,
        request.extensions@.len() == 3,
        request.extensions@[0]@ == "png"@,
        request.extensions@[1]@ == "jpg"@,
        request.extensions@[2]@ == "jpeg"@,
        request.accept@ == "image/png,image/jpeg"@,
{
    let mut extensions: Vec<String> = Vec::new();
    extensions.push("png".to_owned());
    extensions.push("jpg".to_owned());
    extensions.push("jpeg".to_owned());
    PickerRequest {
        label: "Image".to_owned(),
        extensions,
        accept: "image/png,image/jpeg".to_owned(),
    }
}

/// Takes the waiting selection out of the mailbox, if there is one: the
/// bytes of the image and the name of its file. The mailbox is empty
/// afterwards.
pub fn take_selected_image_bytes(mailbox: &mut Mailbox) -> (selection: Option<(Vec<u8>, String)>)
    ensures
        final(mailbox)@ is None,
        match selection {
            Some((bytes, name)) => old(mailbox)@ == Some((bytes@, name@)),
            None => old(mailbox)@ is None,
        },
{
    let mut taken: Option<(Vec<u8>, String)> = None;
    std::mem::swap(&mut mailbox.slot, &mut taken);
    taken
}

} // verus!
