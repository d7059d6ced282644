//! The messaging endpoint's form decisions: which field a part's disposition
//! names, which media kinds are accepted, how chunks accumulate into a draft,
//! and when the assembled draft is worth sending.

use vstd::prelude::*;

use crate::strutil::{occurs, str_contains, str_eq};

verus! {

/// Which field of the message form a part belongs to.
#[derive(PartialEq, Eq, Structural)]
pub enum FieldType {
    Unknown,
    OnlineId,
    Message,
    Picture,
}

/// Reads a part's content-disposition header: the first of `online_id`,
/// `message` and `picture` it mentions names the field; a missing header or
/// one naming none of them leaves the part unrecognized.
pub fn match_field(disposition: Option<&str>) -> (r: FieldType)
    ensures
        match disposition {
            Some(d) => if occurs(d@, "online_id"@) {
                r is OnlineId
            } else if occurs(d@, "message"@) {
                r is Message
            } else if occurs(d@, "picture"@) {
                r is Picture
            } else {
                r is Unknown
            },
            None => r is Unknown,
        },
{
    let d = match disposition {
        Some(d) => d,
        None => { return FieldType::Unknown },
    };
    if str_contains(d, "online_id") {
        return FieldType::OnlineId;
    }
    if str_contains(d, "message") {
        return FieldType::Message;
    }
    if str_contains(d, "picture") {
        return FieldType::Picture;
    }
    FieldType::Unknown
}

/// The media kinds the endpoint distinguishes.
#[derive(PartialEq, Eq, Structural)]
pub enum MediaKind {
    /// Plain text: its chunks carry field values.
    TextPlain,
    /// A PNG image: its chunks carry the picture.
    ImagePng,
    /// A JPEG image: accepted and ignored.
    ImageJpeg,
    /// Anything else stops the form.
    Unsupported,
}

/// Classifies a part's media type from its type and subtype names.
pub fn classify_media(ty: &str, subty: &str) -> (r: MediaKind)
    ensures
        r is TextPlain <==> ty@ == "text"@ && subty@ == "plain"@,
        r is ImagePng <==> ty@ == "image"@ && subty@ == "png"@,
        r is ImageJpeg <==> ty@ == "image"@ && subty@ == "jpeg"@,
{
    let ty_text = str_eq(ty, "text");
    let ty_image = str_eq(ty, "image");
    let sub_plain = str_eq(subty, "plain");
    let sub_png = str_eq(subty, "png");
    let sub_jpeg = str_eq(subty, "jpeg");
    proof {
        reveal_strlit("text");
        reveal_strlit("plain");
        reveal_strlit("image");
        reveal_strlit("png");
        reveal_strlit("jpeg");
        assert("text"@.len() == 4);
        assert("image"@.len() == 5);
        assert("plain"@.len() == 5);
        assert("png"@.len() == 3);
        assert("jpeg"@.len() == 4);
    }
    if ty_text && sub_plain {
        MediaKind::TextPlain
    } else if ty_image && sub_png {
        MediaKind::ImagePng
    } else if ty_image && sub_jpeg {
        MediaKind::ImageJpeg
    } else {
        MediaKind::Unsupported
    }
}

/// A message under assembly: the recipient's online id accumulated so far,
/// and the text and picture supplied so far.
pub struct MessageDraft {
    pub online_id: String,
    pub msg: Option<String>,
    pub buf: Option<Vec<u8>>,
}

impl MessageDraft {
    /// An empty draft.
    pub fn new() -> (r: MessageDraft)
        ensures
            r.online_id@ == Seq::<char>::empty(),
            r.msg is None,
            r.buf is None,
    {
        MessageDraft { online_id: String::new(), msg: None, buf: None }
    }

    /// Takes one text chunk for the named field: online-id chunks accumulate,
    /// a message chunk replaces the text; a chunk for any other field stops
    /// the field and changes nothing.
    pub fn apply_text_chunk(&mut self, field: &FieldType, chunk: &str) -> (accepted: bool)
        ensures
            *field is OnlineId ==> accepted && final(self).online_id@ == old(self).online_id@
                + chunk@ && final(self).msg == old(self).msg && final(self).buf == old(self).buf,
            *field is Message ==> accepted && final(self).msg is Some
                && final(self).msg->Some_0@ == chunk@ && final(self).online_id == old(
                self,
            ).online_id && final(self).buf == old(self).buf,
            !(*field is OnlineId) && !(*field is Message) ==> !accepted && *final(self) == *old(
                self,
            ),
    {
        match field {
            FieldType::OnlineId => {
                self.online_id.append(chunk);
                true
            },
            FieldType::Message => {
                self.msg = Some(chunk.to_owned());
                true
            },
            _ => false,
        }
    }

    /// Takes one picture chunk: a picture-field chunk replaces the buffer
    /// (the last chunk wins); a chunk for any other field stops the field and
    /// changes nothing.
    pub fn apply_picture_chunk(&mut self, field: &FieldType, bytes: Vec<u8>) -> (accepted: bool)
        ensures
            *field is Picture ==> accepted && final(self).buf is Some && final(self).buf->Some_0@
                == bytes@ && final(self).online_id == old(self).online_id && final(self).msg == old(
                self,
            ).msg,
            !(*field is Picture) ==> !accepted && *final(self) == *old(self),
    {
        match field {
            FieldType::Picture => {
                self.buf = Some(bytes);
                true
            },
            _ => false,
        }
    }

    /// Whether the draft is worth sending: an online id arrived, and so did a
    /// text or a picture. Only such a draft reaches the downstream send.
    pub fn ready(&self) -> (r: bool)
        ensures
            r == (self.online_id@.len() > 0 && (self.msg is Some || self.buf is Some)),
    {
        if self.online_id.as_str().is_empty() {
            return false;
        }
        self.msg.is_some() || self.buf.is_some()
    }
}

} // verus!
