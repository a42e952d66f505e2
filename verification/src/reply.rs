//! What a handler answers: a redirect (303 See Other) that may carry a
//! flash message, or an internal server error.

use vstd::prelude::*;

verus! {

/// The level of a flash message.
#[derive(Clone, Copy, Debug, PartialEq, Eq, Structural)]
pub enum FlashLevel {
    Info,
    Error,
}

/// A one-shot message shown on the next page the user loads.
#[derive(Clone, Debug, PartialEq, Eq)]
pub struct FlashMessage {
    pub level: FlashLevel,
    pub content: String,
}

/// The mathematical model of a flash message.
pub struct FlashView {
    pub level: FlashLevel,
    pub content: Seq<char>,
}

impl View for FlashMessage {
    type V = FlashView;

    open spec fn view(&self) -> FlashView {
        FlashView { level: self.level, content: self.content@ }
    }
}

impl FlashMessage {
    /// An error-level flash message with the given text.
    pub fn error(content: &str) -> (m: FlashMessage)
        ensures
            m@ == (FlashView { level: FlashLevel::Error, content: content@ }),
    {
        FlashMessage { level: FlashLevel::Error, content: content.to_owned() }
    }

    /// An info-level flash message with the given text.
    pub fn info(content: &str) -> (m: FlashMessage)
        ensures
            m@ == (FlashView { level: FlashLevel::Info, content: content@ }),
    {
        FlashMessage { level: FlashLevel::Info, content: content.to_owned() }
    }
}

/// The answer of an admin handler.
#[derive(Clone, Debug, PartialEq, Eq)]
pub enum Reply {
    /// `303 See Other` to `location`, after queueing `flash` (if any).
    SeeOther { location: String, flash: Option<FlashMessage> },
    /// `500 Internal Server Error`.
    InternalError,
}

/// The mathematical model of a reply.
pub enum ReplyView {
    SeeOther { location: Seq<char>, flash: Option<FlashView> },
    InternalError,
}

impl View for Reply {
    type V = ReplyView;

    open spec fn view(&self) -> ReplyView {
        match self {
            Reply::SeeOther { location, flash } => ReplyView::SeeOther {
                location: location@,
                flash: match flash {
                    Some(f) => Some(f@),
                    None => None,
                },
            },
            Reply::InternalError => ReplyView::InternalError,
        }
    }
}

/// A redirect to `location` that carries a flash message of `level` with `content`.
pub open spec fn redirect_with_flash(location: Seq<char>, level: FlashLevel, content: Seq<char>) -> ReplyView {
    ReplyView::SeeOther {
        location,
        flash: Some(FlashView { level, content }),
    }
}

impl Reply {
    /// A redirect to `path` after queueing `flash`.
    pub fn see_other(path: &str, flash: FlashMessage) -> (r: Reply)
        ensures
            r@ == (ReplyView::SeeOther { location: path@, flash: Some(flash@) }),
    {
        Reply::SeeOther { location: path.to_owned(), flash: Some(flash) }
    }
}

/// Law: the model of a reply keeps its kind, its location, and the level and
/// text of its flash message.
pub proof fn law_reply_view_keeps_everything(reply: Reply)
    ensures
        reply is InternalError <==> reply@ is InternalError,
        reply matches Reply::SeeOther { location, flash } ==> (reply@ matches ReplyView::SeeOther { location: l, flash: f }
            && l == location@
            && (flash is None <==> f is None)
            && (flash matches Some(m) ==> f == Some(FlashView { level: m.level, content: m.content@ }))),
{
}

} // verus!
