use vstd::prelude::*;

use crate::types::{
    TiptapHeadingLevel, TiptapImageResource, TiptapLinkResource, TiptapYoutubeVideoResource,
};

verus! {

/// What the host application asks an editor instance to do.
#[derive(Debug, Clone)]
pub enum TiptapInstanceMsg {
    Noop,
    /// Toggle "H1" for the current selection.
    H1,
    /// Toggle "H2" for the current selection.
    H2,
    /// Toggle "H3" for the current selection.
    H3,
    /// Toggle "H4" for the current selection.
    H4,
    /// Toggle "H5" for the current selection.
    H5,
    /// Toggle "H6" for the current selection.
    H6,
    /// Toggle "Paragraph" for the current selection.
    Paragraph,
    /// Toggle "Bold" for the current selection.
    Bold,
    /// Toggle "Italic" for the current selection.
    Italic,
    /// Toggle "Strike" for the current selection.
    Strike,
    /// Toggle "Blockquote" for the current selection.
    Blockquote,
    /// Toggle "Highlight" for the current selection.
    Highlight,
    /// Toggle "AlignLeft" for the current selection.
    AlignLeft,
    /// Toggle "AlignCenter" for the current selection.
    AlignCenter,
    /// Toggle "AlignRight" for the current selection.
    AlignRight,
    /// Toggle "AlignJustify" for the current selection.
    AlignJustify,
    /// Replace the current selection with an image.
    SetImage(TiptapImageResource),
    /// Replace the current selection with a link.
    SetLink(TiptapLinkResource),
    /// Toggle whether the current selection is a link.
    ToggleLink(TiptapLinkResource),
    /// Remove the link from the selection.
    UnsetLink(),
    /// Replace the current selection with an embedded YouTube video.
    SetYoutubeVideo(TiptapYoutubeVideoResource),
}

/// One command of the editor's API, applied to the current selection of an instance.
#[derive(Debug, Clone, PartialEq, Eq)]
pub enum TiptapCommand {
    ToggleHeading(TiptapHeadingLevel),
    SetParagraph,
    ToggleBold,
    ToggleItalic,
    ToggleStrike,
    ToggleBlockquote,
    ToggleHighlight,
    ToggleBulletList,
    ToggleOrderedList,
    SetTextAlignLeft,
    SetTextAlignCenter,
    SetTextAlignRight,
    SetTextAlignJustify,
    SetImage { src: String, alt: String, title: String },
    SetLink { href: String, target: String, rel: String },
    ToggleLink { href: String, target: String, rel: String },
    UnsetLink,
    SetYoutubeVideo { src: String, start: String, width: String, height: String },
}

/// The command that a message stands for; `Noop` stands for none.
pub open spec fn command_of(msg: TiptapInstanceMsg) -> Option<TiptapCommand> {
    match msg {
        TiptapInstanceMsg::Noop => None,
        TiptapInstanceMsg::H1 => Some(TiptapCommand::ToggleHeading(TiptapHeadingLevel::H1)),
        TiptapInstanceMsg::H2 => Some(TiptapCommand::ToggleHeading(TiptapHeadingLevel::H2)),
        TiptapInstanceMsg::H3 => Some(TiptapCommand::ToggleHeading(TiptapHeadingLevel::H3)),
        TiptapInstanceMsg::H4 => Some(TiptapCommand::ToggleHeading(TiptapHeadingLevel::H4)),
        TiptapInstanceMsg::H5 => Some(TiptapCommand::ToggleHeading(TiptapHeadingLevel::H5)),
        TiptapInstanceMsg::H6 => Some(TiptapCommand::ToggleHeading(TiptapHeadingLevel::H6)),
        TiptapInstanceMsg::Paragraph => Some(TiptapCommand::SetParagraph),
        TiptapInstanceMsg::Bold => Some(TiptapCommand::ToggleBold),
        TiptapInstanceMsg::Italic => Some(TiptapCommand::ToggleItalic),
        TiptapInstanceMsg::Strike => Some(TiptapCommand::ToggleStrike),
        TiptapInstanceMsg::Blockquote => Some(TiptapCommand::ToggleBlockquote),
        TiptapInstanceMsg::Highlight => Some(TiptapCommand::ToggleHighlight),
        TiptapInstanceMsg::AlignLeft => Some(TiptapCommand::SetTextAlignLeft),
        TiptapInstanceMsg::AlignCenter => Some(TiptapCommand::SetTextAlignCenter),
        TiptapInstanceMsg::AlignRight => Some(TiptapCommand::SetTextAlignRight),
        TiptapInstanceMsg::AlignJustify => Some(TiptapCommand::SetTextAlignJustify),
        TiptapInstanceMsg::SetImage(r) => Some(
            TiptapCommand::SetImage { src: r.url, alt: r.alt, title: r.title },
        ),
        TiptapInstanceMsg::SetLink(r) => Some(
            TiptapCommand::SetLink { href: r.href, target: r.target, rel: r.rel },
        ),
        TiptapInstanceMsg::ToggleLink(r) => Some(
            TiptapCommand::ToggleLink { href: r.href, target: r.target, rel: r.rel },
        ),
        TiptapInstanceMsg::UnsetLink() => Some(TiptapCommand::UnsetLink),
        TiptapInstanceMsg::SetYoutubeVideo(r) => Some(
            TiptapCommand::SetYoutubeVideo {
                src: r.src,
                start: r.start,
                width: r.width,
                height: r.height,
            },
        ),
    }
}

/// The editor command that `msg` asks for, or `None` for `Noop`.
pub fn command_for(msg: TiptapInstanceMsg) -> (r: Option<TiptapCommand>)
    ensures
        r == command_of(msg),
        r is None <==> msg is Noop,
{
    match msg {
        TiptapInstanceMsg::Noop => None,
        TiptapInstanceMsg::H1 => Some(TiptapCommand::ToggleHeading(TiptapHeadingLevel::H1)),
        TiptapInstanceMsg::H2 => Some(TiptapCommand::ToggleHeading(TiptapHeadingLevel::H2)),
        TiptapInstanceMsg::H3 => Some(TiptapCommand::ToggleHeading(TiptapHeadingLevel::H3)),
        TiptapInstanceMsg::H4 => Some(TiptapCommand::ToggleHeading(TiptapHeadingLevel::H4)),
        TiptapInstanceMsg::H5 => Some(TiptapCommand::ToggleHeading(TiptapHeadingLevel::H5)),
        TiptapInstanceMsg::H6 => Some(TiptapCommand::ToggleHeading(TiptapHeadingLevel::H6)),
        TiptapInstanceMsg::Paragraph => Some(TiptapCommand::SetParagraph),
        TiptapInstanceMsg::Bold => Some(TiptapCommand::ToggleBold),
        TiptapInstanceMsg::Italic => Some(TiptapCommand::ToggleItalic),
        TiptapInstanceMsg::Strike => Some(TiptapCommand::ToggleStrike),
        TiptapInstanceMsg::Blockquote => Some(TiptapCommand::ToggleBlockquote),
        TiptapInstanceMsg::Highlight => Some(TiptapCommand::ToggleHighlight),
        TiptapInstanceMsg::AlignLeft => Some(TiptapCommand::SetTextAlignLeft),
        TiptapInstanceMsg::AlignCenter => Some(TiptapCommand::SetTextAlignCenter),
        TiptapInstanceMsg::AlignRight => Some(TiptapCommand::SetTextAlignRight),
        TiptapInstanceMsg::AlignJustify => Some(TiptapCommand::SetTextAlignJustify),
        TiptapInstanceMsg::SetImage(r) => Some(
            TiptapCommand::SetImage { src: r.url, alt: r.alt, title: r.title },
        ),
        TiptapInstanceMsg::SetLink(r) => Some(
            TiptapCommand::SetLink { href: r.href, target: r.target, rel: r.rel },
        ),
        TiptapInstanceMsg::ToggleLink(r) => Some(
            TiptapCommand::ToggleLink { href: r.href, target: r.target, rel: r.rel },
        ),
        TiptapInstanceMsg::UnsetLink() => Some(TiptapCommand::UnsetLink),
        TiptapInstanceMsg::SetYoutubeVideo(r) => Some(
            TiptapCommand::SetYoutubeVideo {
                src: r.src,
                start: r.start,
                width: r.width,
                height: r.height,
            },
        ),
    }
}

} // verus!
