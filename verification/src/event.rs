//! Window event records as the subscription stream yields them.

use crate::identifier::{decimal_text, lemma_text_is_injective, render_identifier, NULL_IDENTIFIER};
use vstd::prelude::*;

verus! {

/// The kind of object a window event is about.
#[derive(Clone, Copy, Debug, PartialEq, Eq, Structural)]
pub enum ObjectType {
    /// An alert associated with a window or an application.
    Alert,
    /// The text insertion bar of a window.
    Caret,
    /// The client area of a window.
    Client,
    /// The mouse pointer.
    Cursor,
    /// The horizontal scroll bar of a window.
    HorizontalScroll,
    /// An application's own object model.
    NativeObjectModel,
    /// The menu bar of a window.
    Menu,
    /// An identifier the accessibility runtime uses internally.
    QueryClassNameIdx,
    /// The size grip of a window.
    SizeGrip,
    /// A sound object.
    Sound,
    /// The system menu of a window.
    SystemMenu,
    /// The title bar of a window.
    TitleBar,
    /// The vertical scroll bar of a window.
    VerticalScroll,
    /// The window itself rather than one of its parts.
    Window,
    /// An object identifier without a name of its own.
    Other(i32),
}

/// One record of the event stream: what kind of object it is about and the
/// native handle of the window that raised it, if any.
#[derive(Clone, Copy, Debug, PartialEq, Eq, Structural)]
pub struct WindowEvent {
    /// The kind of object the event is about.
    pub object_type: ObjectType,
    /// The native window handle in its signed integer form; `None` when no
    /// window is associated with the event.
    pub window_handle: Option<isize>,
}

impl WindowEvent {
    /// Only records about a window itself are forwarded to the callback.
    pub open spec fn spec_is_window(&self) -> bool {
        self.object_type == ObjectType::Window
    }

    /// The identifier of the window: its handle, or the null identifier when
    /// the record carries none.
    pub open spec fn spec_identifier(&self) -> isize {
        match self.window_handle {
            Some(handle) => handle,
            None => NULL_IDENTIFIER,
        }
    }

    /// The text handed to the callback for this record: the identifier in
    /// decimal.
    pub open spec fn spec_argument(&self) -> Seq<char> {
        decimal_text(self.spec_identifier() as int)
    }

    /// A record about `object_type`, raised by the window `window_handle`.
    pub fn new(object_type: ObjectType, window_handle: Option<isize>) -> (record: WindowEvent)
        ensures
            record.object_type == object_type,
            record.window_handle == window_handle,
    {
        WindowEvent { object_type, window_handle }
    }

    /// Whether the record is about a window itself.
    #[verifier::when_used_as_spec(spec_is_window)]
    pub fn is_window(&self) -> (yes: bool)
        ensures
            yes == self.spec_is_window(),
    {
        self.object_type == ObjectType::Window
    }

    /// The identifier of the window the record is about.
    #[verifier::when_used_as_spec(spec_identifier)]
    pub fn identifier(&self) -> (id: isize)
        ensures
            id == self.spec_identifier(),
    {
        match self.window_handle {
            Some(handle) => handle,
            None => NULL_IDENTIFIER,
        }
    }

    /// The decimal text of the window identifier, as the callback receives it.
    pub fn argument(&self) -> (text: String)
        ensures
            text@ == self.spec_argument(),
    {
        render_identifier(self.identifier())
    }
}

/// A record without a window handle is forwarded as the text `0`, whatever
/// object it is about.
pub proof fn lemma_null_handle_text(record: WindowEvent)
    requires
        record.window_handle is None,
    ensures
        record.spec_identifier() == NULL_IDENTIFIER,
        record.spec_argument() == seq!['0'],
{
}

/// Two records are forwarded as the same text only if they carry the same
/// window identifier.
pub proof fn lemma_argument_tells_identifier(one: WindowEvent, other: WindowEvent)
    requires
        one.spec_argument() == other.spec_argument(),
    ensures
        one.spec_identifier() == other.spec_identifier(),
{
    lemma_text_is_injective(one.spec_identifier() as int, other.spec_identifier() as int);
}

} // verus!
