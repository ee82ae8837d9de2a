//! Verified core of a rich-text editor component: the data that flows between
//! the host application and a foreign editor instance, the mapping from
//! application messages to editor commands, and the lifecycle rules that decide
//! when an editor instance is created, commanded and destroyed.
pub mod command;
pub mod instance;
pub mod types;

pub use command::{command_for, TiptapCommand, TiptapInstanceMsg};
pub use instance::{TiptapCall, TiptapInstanceState};
pub use types::{
    selection_or_default, TiptapContent, TiptapEditorState, TiptapHeadingLevel,
    TiptapImageResource, TiptapLinkResource, TiptapSelectionState, TiptapYoutubeVideoResource,
};
