//! The state of the dialog in which a message is typed.

use vstd::prelude::*;

verus! {

/// How high the dialog is, in rows.
pub const DIALOG_HEIGHT: u16 = 10;

/// How wide the dialog is at most, in columns.
pub const DIALOG_MAX_WIDTH: u16 = 60;

/// The dialog in which a message is typed.
pub struct InputDialog {
    /// The text typed so far.
    pub input: String,
    /// Whether the text is sent as it is or read as hexadecimal.
    pub format_type: FormatType,
    /// The client that the message goes to, as an index into `clients`.
    pub selected_client: Option<usize>,
    /// The clients to choose from.
    pub clients: Vec<String>,
}

/// How the typed text is to be sent.
#[derive(Debug, Clone, Copy, PartialEq, Eq, Structural)]
pub enum FormatType {
    String,
    Hex,
}

/// Where on the screen the dialog goes.
#[derive(Debug, Clone, Copy, PartialEq, Eq, Structural)]
pub struct DialogArea {
    pub x: u16,
    pub y: u16,
    pub width: u16,
    pub height: u16,
}

/// The other format.
pub open spec fn toggled(format: FormatType) -> FormatType {
    match format {
        FormatType::String => FormatType::Hex,
        FormatType::Hex => FormatType::String,
    }
}

/// Where the dialog goes on a screen of the given size: `DIALOG_HEIGHT`
/// rows high, as wide as the screen up to `DIALOG_MAX_WIDTH` columns, and
/// centred. A screen of fewer rows than the dialog has no place for it.
pub open spec fn spec_dialog_area(screen_width: u16, screen_height: u16) -> Option<DialogArea> {
    if screen_height < DIALOG_HEIGHT {
        None
    } else {
        let width = if screen_width < DIALOG_MAX_WIDTH {
            screen_width
        } else {
            DIALOG_MAX_WIDTH
        };
        Some(
            DialogArea {
                x: ((screen_width - width) / 2) as u16,
                y: ((screen_height - DIALOG_HEIGHT) / 2) as u16,
                width,
                height: DIALOG_HEIGHT,
            },
        )
    }
}

/// Where the dialog goes on a screen of the given size. See
/// `spec_dialog_area`.
pub fn dialog_area(screen_width: u16, screen_height: u16) -> (area: Option<DialogArea>)
    ensures
        area == spec_dialog_area(screen_width, screen_height),
{
    if screen_height < DIALOG_HEIGHT {
        return None;
    }
    let width = if screen_width < DIALOG_MAX_WIDTH {
        screen_width
    } else {
        DIALOG_MAX_WIDTH
    };
    Some(
        DialogArea {
            x: (screen_width - width) / 2,
            y: (screen_height - DIALOG_HEIGHT) / 2,
            width,
            height: DIALOG_HEIGHT,
        },
    )
}

impl InputDialog {
    /// An empty dialog: no text, plain format, no clients.
    pub fn new() -> (dialog: InputDialog)
        ensures
            dialog.input@ == Seq::<char>::empty(),
            dialog.format_type == FormatType::String,
            dialog.selected_client is None,
            dialog.clients@ == Seq::<String>::empty(),
    {
        InputDialog {
            input: String::new(),
            format_type: FormatType::String,
            selected_client: None,
            clients: Vec::new(),
        }
    }

    /// Adds a client to choose from. The first client added is selected.
    pub fn add_client(&mut self, client: String)
        ensures
            final(self).clients@ == old(self).clients@.push(client),
            final(self).selected_client == match old(self).selected_client {
                Some(i) => Some(i),
                None => Some(0usize),
            },
            final(self).input == old(self).input,
            final(self).format_type == old(self).format_type,
    {
        self.clients.push(client);
        if self.selected_client.is_none() {
            self.selected_client = Some(0);
        }
    }

    /// Switches between the two formats.
    pub fn toggle_format(&mut self)
        ensures
            final(self).format_type == toggled(old(self).format_type),
            final(self).input == old(self).input,
            final(self).selected_client == old(self).selected_client,
            final(self).clients == old(self).clients,
    {
        self.format_type = match self.format_type {
            FormatType::String => FormatType::Hex,
            FormatType::Hex => FormatType::String,
        };
    }

    /// The text to send: what has been typed, or nothing where nothing has
    /// been typed.
    pub fn submit(&self) -> (text: Option<String>)
        ensures
            self.input@.len() == 0 ==> text is None,
            self.input@.len() > 0 ==> text == Some(self.input),
    {
        if self.input.as_str().is_empty() {
            None
        } else {
            Some(self.input.clone())
        }
    }

    /// Which of the two format tabs is selected: 0 for plain text, 1 for
    /// hexadecimal.
    pub fn format_index(&self) -> (index: usize)
        ensures
            index == match self.format_type {
                FormatType::String => 0usize,
                FormatType::Hex => 1usize,
            },
    {
        match self.format_type {
            FormatType::String => 0,
            FormatType::Hex => 1,
        }
    }

    /// Which of the client tabs is selected: the first one where none has
    /// been chosen.
    pub fn client_index(&self) -> (index: usize)
        ensures
            index == match self.selected_client {
                Some(i) => i,
                None => 0usize,
            },
    {
        match self.selected_client {
            Some(i) => i,
            None => 0,
        }
    }

    /// How far the cursor stands from the start of the input line: the
    /// length of the text in bytes. A text that leaves no room on a line of
    /// 65535 columns has no cursor.
    pub fn cursor_offset(&self) -> (offset: Option<u16>)
        ensures
            offset == if vstd::utf8::encode_utf8(self.input@).len() <= 0xffff {
                Some(vstd::utf8::encode_utf8(self.input@).len() as u16)
            } else {
                None
            },
    {
        let len = self.input.as_str().as_bytes().len();
        if len <= 0xffff {
            Some(len as u16)
        } else {
            None
        }
    }
}

} // verus!
