//! Values that cross the boundary between the session and its user.

use vstd::prelude::*;

verus! {

/// How many tokens a response used.
#[derive(Debug, Clone, Copy, PartialEq, Eq, Default)]
pub struct TokenUsage {
    pub input_tokens: u64,
    pub cached_input_tokens: Option<u64>,
    pub output_tokens: u64,
    pub reasoning_output_tokens: Option<u64>,
    pub total_tokens: u64,
}

/// One fragment of what the user put in.
#[derive(Debug, Clone, PartialEq, Eq)]
pub enum InputItem {
    Text { text: String },
    /// An image by its address.
    Image { image_url: String },
    /// An image in a file, with what reading the file gave.
    LocalImage {
        path: String,
        /// The extension of the file's name, if it has one.
        extension: Option<String>,
        /// The bytes of the file; `None` where it could not be read.
        bytes: Option<Vec<u8>>,
    },
}

/// View of an [`InputItem`].
pub enum InputItemView {
    Text { text: Seq<char> },
    Image { image_url: Seq<char> },
    LocalImage { path: Seq<char>, extension: Option<Seq<char>>, bytes: Option<Seq<u8>> },
}

impl View for InputItem {
    type V = InputItemView;

    open spec fn view(&self) -> InputItemView {
        match self {
            InputItem::Text { text } => InputItemView::Text { text: text@ },
            InputItem::Image { image_url } => InputItemView::Image { image_url: image_url@ },
            InputItem::LocalImage { path, extension, bytes } => InputItemView::LocalImage {
                path: path@,
                extension: extension.deep_view(),
                bytes: match bytes {
                    Some(b) => Some(b@),
                    None => None,
                },
            },
        }
    }
}

impl DeepView for InputItem {
    type V = InputItemView;

    open spec fn deep_view(&self) -> InputItemView {
        self@
    }
}

} // verus!
