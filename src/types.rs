use vstd::prelude::*;

verus! {

/// Content handed out by the editor, serialised as HTML or as JSON.
#[derive(Debug, PartialEq, Eq, PartialOrd, Ord, Hash, Clone)]
pub enum TiptapContent {
    Html(String),
    Json(String),
}

/// Which marks and block types are active at the current cursor or selection.
#[derive(Debug, Clone, PartialEq, Eq, Structural)]
pub struct TiptapSelectionState {
    /// `true` if the cursor is in a level 1 heading.
    pub h1: bool,

    /// `true` if the cursor is in a level 2 heading.
    pub h2: bool,

    /// `true` if the cursor is in a level 3 heading.
    pub h3: bool,

    /// `true` if the cursor is in a level 4 heading.
    pub h4: bool,

    /// `true` if the cursor is in a level 5 heading.
    pub h5: bool,

    /// `true` if the cursor is in a level 6 heading.
    pub h6: bool,

    /// `true` if the cursor is in a paragraph.
    pub paragraph: bool,

    /// `true` if the cursor is in a bold text segment.
    pub bold: bool,

    /// `true` if the cursor is in an italic text segment.
    pub italic: bool,

    /// `true` if the cursor is in a strikethrough text segment.
    pub strike: bool,

    /// `true` if the cursor is in a blockquote.
    pub blockquote: bool,

    /// `true` if the cursor is in a highlighted text segment.
    pub highlight: bool,

    /// `true` if the cursor is in a left-aligned text segment.
    pub align_left: bool,

    /// `true` if the cursor is in a center-aligned text segment.
    pub align_center: bool,

    /// `true` if the cursor is in a right-aligned text segment.
    pub align_right: bool,

    /// `true` if the cursor is in a justify-aligned text segment.
    pub align_justify: bool,

    /// `true` if the cursor is in a link.
    pub link: bool,

    /// `true` if the cursor is on an embedded YouTube video.
    pub youtube: bool,
}

impl TiptapSelectionState {
    /// No mark, block type or alignment is reported as active.
    pub open spec fn none_active(self) -> bool {
        &&& !self.h1
        &&& !self.h2
        &&& !self.h3
        &&& !self.h4
        &&& !self.h5
        &&& !self.h6
        &&& !self.paragraph
        &&& !self.bold
        &&& !self.italic
        &&& !self.strike
        &&& !self.blockquote
        &&& !self.highlight
        &&& !self.align_left
        &&& !self.align_center
        &&& !self.align_right
        &&& !self.align_justify
        &&& !self.link
        &&& !self.youtube
    }
}

impl Default for TiptapSelectionState {
    fn default() -> (r: Self)
        ensures
            r.none_active(),
    {
        TiptapSelectionState {
            h1: false,
            h2: false,
            h3: false,
            h4: false,
            h5: false,
            h6: false,
            paragraph: false,
            bold: false,
            italic: false,
            strike: false,
            blockquote: false,
            highlight: false,
            align_left: false,
            align_center: false,
            align_right: false,
            align_justify: false,
            link: false,
            youtube: false,
        }
    }
}

/// The selection state that the editor reported, or, where its report could
/// not be read, the state with nothing active.
pub fn selection_or_default(parsed: Option<TiptapSelectionState>) -> (r: TiptapSelectionState)
    ensures
        parsed matches Some(s) ==> r == s,
        parsed is None ==> r.none_active(),
{
    match parsed {
        Some(s) => s,
        None => TiptapSelectionState::default(),
    }
}

/// State of an editor: whether it accepts edits, and its selection state.
#[derive(Debug, Clone, PartialEq, Eq, Structural)]
pub struct TiptapEditorState {
    editable: bool,
    selection: TiptapSelectionState,
}

impl TiptapEditorState {
    pub closed spec fn spec_editable(self) -> bool {
        self.editable
    }

    pub closed spec fn spec_selection(self) -> TiptapSelectionState {
        self.selection
    }

    pub fn new(editable: bool, selection: TiptapSelectionState) -> (r: Self)
        ensures
            r.spec_editable() == editable,
            r.spec_selection() == selection,
    {
        TiptapEditorState { editable, selection }
    }

    pub fn editable(&self) -> (r: bool)
        ensures
            r == self.spec_editable(),
    {
        self.editable
    }

    pub fn selection(&self) -> (r: &TiptapSelectionState)
        ensures
            *r == self.spec_selection(),
    {
        &self.selection
    }
}

impl Default for TiptapEditorState {
    /// Not editable, with nothing active in the selection.
    fn default() -> (r: Self)
        ensures
            !r.spec_editable(),
            r.spec_selection().none_active(),
    {
        TiptapEditorState { editable: false, selection: TiptapSelectionState::default() }
    }
}

/// An image to insert in place of the current selection.
#[derive(Debug, Clone, PartialEq, Eq, PartialOrd, Ord, Hash)]
pub struct TiptapImageResource {
    /// Example: image.png
    pub title: String,
    /// Example: "An example image, ..."
    pub alt: String,
    /// Example: https://my-site.com/public/image.png
    pub url: String,
}

/// A link to set on, or toggle for, the current selection.
#[derive(Debug, Clone, PartialEq, Eq, PartialOrd, Ord, Hash)]
pub struct TiptapLinkResource {
    /// Example: https://my-site.com
    pub href: String,
    /// Example: "_blank", where to open the linked document
    pub target: String,
    /// Example: "alternate"
    pub rel: String,
}

/// An embedded YouTube video to insert in place of the current selection.
#[derive(Debug, Clone, PartialEq, Eq, PartialOrd, Ord, Hash)]
pub struct TiptapYoutubeVideoResource {
    /// Example: https://www.youtube.com/embed/dQw4w9WgXcQ
    pub src: String,
    /// Example: "0", when to start the video
    pub start: String,
    /// Example: "640"
    pub width: String,
    /// Example: "480"
    pub height: String,
}

/// Heading levels that the editor supports.
#[derive(Debug, Clone, Copy, PartialEq, Eq, Structural)]
pub enum TiptapHeadingLevel {
    H1,
    H2,
    H3,
    H4,
    H5,
    H6,
}

impl TiptapHeadingLevel {
    /// The numeric level, as the editor expects it: `H1` is 1, ..., `H6` is 6.
    pub open spec fn level(self) -> i32 {
        match self {
            TiptapHeadingLevel::H1 => 1,
            TiptapHeadingLevel::H2 => 2,
            TiptapHeadingLevel::H3 => 3,
            TiptapHeadingLevel::H4 => 4,
            TiptapHeadingLevel::H5 => 5,
            TiptapHeadingLevel::H6 => 6,
        }
    }
}

impl From<TiptapHeadingLevel> for i32 {
    fn from(val: TiptapHeadingLevel) -> (r: i32)
        ensures
            r == val.level(),
    {
        match val {
            TiptapHeadingLevel::H1 => 1,
            TiptapHeadingLevel::H2 => 2,
            TiptapHeadingLevel::H3 => 3,
            TiptapHeadingLevel::H4 => 4,
            TiptapHeadingLevel::H5 => 5,
            TiptapHeadingLevel::H6 => 6,
        }
    }
}

impl vstd::std_specs::convert::FromSpecImpl<TiptapHeadingLevel> for i32 {
    open spec fn obeys_from_spec() -> bool {
        true
    }

    open spec fn from_spec(v: TiptapHeadingLevel) -> i32 {
        v.level()
    }
}

} // verus!
