//! The inbound data the session logic works on: one message per event,
//! carrying optional text and the photo variants attached to it.

use vstd::prelude::*;

verus! {

/// One resolution variant of a photo attachment: its dimensions plus the
/// transport's opaque resource id, held as plain bytes.
pub struct PhotoVariant {
    pub width: u32,
    pub height: u32,
    pub file_id: Vec<u8>,
}

/// Mathematical image of a `PhotoVariant`.
#[verifier::ext_equal]
pub struct PhotoView {
    pub width: u32,
    pub height: u32,
    pub file_id: Seq<u8>,
}

impl View for PhotoVariant {
    type V = PhotoView;

    open spec fn view(&self) -> PhotoView {
        PhotoView { width: self.width, height: self.height, file_id: self.file_id@ }
    }
}

/// One inbound message: optional text and zero or more photo variants
/// (several resolutions of the same photo may be attached at once).
pub struct ChatMessage {
    pub text: Option<Vec<u8>>,
    pub photos: Vec<PhotoVariant>,
}

/// Mathematical image of a `ChatMessage`.
#[verifier::ext_equal]
pub struct MessageView {
    pub text: Option<Seq<u8>>,
    pub photos: Seq<PhotoView>,
}

impl View for ChatMessage {
    type V = MessageView;

    open spec fn view(&self) -> MessageView {
        MessageView {
            text: match self.text {
                Some(t) => Some(t@),
                None => None,
            },
            photos: self.photos@.map_values(|p: PhotoVariant| p@),
        }
    }
}

} // verus!
