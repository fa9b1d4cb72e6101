//! Rich message segments and their CQ-code text.
use vstd::prelude::*;
use vstd::string::*;

verus! {

#[derive(Clone, Debug)]
pub enum MessageSegment {
    Text { text: String },
    Image { file: String },
    Face { id: String },
    Poke { id: String, name: String },
    Share { url: String, title: String, content: String, image: String },
}

/// The CQ-code text of a segment: plain text stays as it is, any other
/// segment becomes `[CQ:kind,key=value,...]`.
pub open spec fn cq_text(s: MessageSegment) -> Seq<char> {
    match s {
        MessageSegment::Text { text } => text@,
        MessageSegment::Image { file } => "[CQ:image,file="@ + file@ + "]"@,
        MessageSegment::Face { id } => "[CQ:face,id="@ + id@ + "]"@,
        MessageSegment::Poke { id, name } => "[CQ:poke,id="@ + id@ + ",name="@ + name@ + "]"@,
        MessageSegment::Share { url, title, content, image } => "[CQ:share,url="@ + url@ + ",title="@
            + title@ + ",content="@ + content@ + ",image="@ + image@ + "]"@,
    }
}

impl MessageSegment {
    /// The segment's CQ-code text.
    pub fn to_text(&self) -> (r: String)
        ensures
            r@ == cq_text(*self),
    {
        match self {
            MessageSegment::Text { text } => text.clone(),
            MessageSegment::Image { file } => "[CQ:image,file=".to_owned().concat(file.as_str()).concat("]"),
            MessageSegment::Face { id } => "[CQ:face,id=".to_owned().concat(id.as_str()).concat("]"),
            MessageSegment::Poke { id, name } => "[CQ:poke,id=".to_owned().concat(id.as_str()).concat(
                ",name=",
            ).concat(name.as_str()).concat("]"),
            MessageSegment::Share { url, title, content, image } => "[CQ:share,url=".to_owned().concat(
                url.as_str(),
            ).concat(",title=").concat(title.as_str()).concat(",content=").concat(
                content.as_str(),
            ).concat(",image=").concat(image.as_str()).concat("]"),
        }
    }
}

} // verus!
