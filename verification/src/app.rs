//! The state of the application and what the keys do to it.

use std::time::Instant;
use vstd::prelude::*;
use vstd::string::StringExecFns;

use crate::cli::args::AppMode;
use crate::cli::args::Args;
use crate::protocols::common::Message;
use crate::protocols::common::command_target;
use crate::protocols::common::handler_name;
use crate::ui::layout::AppLayout;
use crate::ui::layout::LayoutType;
use crate::ui::widgets::input_dialog::InputDialog;
use crate::ui::widgets::message_view::MessageView;
use crate::ui::widgets::message_view::MessageViewState;
use crate::ui::widgets::status_bar::StatusBar;
use crate::utils::clock::instant_now;
use crate::utils::clock::time_label;
use crate::utils::text::pop_char;
use crate::utils::text::push_char;
use crate::utils::text::text_of;

verus! {

/// Whether keys are commands or text.
#[derive(Debug, Clone, Copy, PartialEq, Eq, Structural)]
pub enum InputMode {
    Normal,
    Editing,
}

/// How data is displayed.
#[derive(Debug, Clone, Copy, PartialEq, Eq, Structural)]
pub enum DisplayFormat {
    String,
    Hex,
}

/// The counters of the application.
pub struct Stats {
    pub sent_bytes: usize,
    pub received_bytes: usize,
    pub connected: bool,
    pub last_activity: Instant,
}

impl Default for Stats {
    /// Nothing sent, nothing received, not connected, last active now.
    fn default() -> (stats: Stats)
        ensures
            stats.sent_bytes == 0,
            stats.received_bytes == 0,
            !stats.connected,
    {
        Stats { sent_bytes: 0, received_bytes: 0, connected: false, last_activity: instant_now() }
    }
}

/// A key of the keyboard, as far as the application tells keys apart.
#[derive(Debug, Clone, Copy, PartialEq, Eq, Structural)]
pub enum Key {
    Char(char),
    Esc,
    Enter,
    Backspace,
    Other,
}

/// The modifier keys held down with a key, one bit each.
#[derive(Debug, Clone, Copy, PartialEq, Eq, Structural)]
pub struct Modifiers {
    pub bits: u8,
}

/// The bits of `Modifiers` when no modifier key is held.
pub const NO_MODIFIERS: u8 = 0;

/// The bit of `Modifiers` for the control key.
pub const CONTROL: u8 = 2;

/// An error of the application. No operation gives one at present.
#[derive(Debug, Clone)]
pub struct AppError {
    pub message: String,
}

/// What the event loop is to do next.
#[derive(Debug, Clone, Copy, PartialEq, Eq, Structural)]
pub enum LoopAction {
    /// Go round the loop again.
    Continue,
    /// Leave the loop.
    Exit,
}

/// What the terminal had to report within the time that the loop waited.
#[derive(Debug, Clone, Copy, PartialEq, Eq, Structural)]
pub enum TerminalEvent {
    /// A key went down.
    KeyPress { key: Key, modifiers: Modifiers },
    /// Something else happened: a key came up or was repeated, the mouse
    /// moved, the window changed.
    Other,
    /// Nothing happened.
    Nothing,
}

/// The state of the application.
pub struct App {
    /// Whether the application is to quit.
    pub should_quit: bool,
    /// Whether keys are commands or text.
    pub input_mode: InputMode,
    pub layout: AppLayout,
    /// The pane of what was sent.
    pub send_view: MessageView,
    /// The pane of what was received.
    pub receive_view: MessageView,
    pub status_bar: StatusBar,
    /// The input dialog, while it is open.
    pub input_dialog: Option<InputDialog>,
    pub stats: Stats,
    pub args: Args,
}

/// A text between square brackets.
pub open spec fn bracketed(text: Seq<char>) -> Seq<char> {
    seq!['['] + text + seq![']']
}

/// The line shown for a message sent at a time of day.
pub open spec fn sent_line(time: Seq<char>, message: Seq<char>) -> Seq<char> {
    bracketed(time) + seq![' '] + message
}

/// The line shown for a message received at a time of day, from a named
/// peer or from nobody in particular.
pub open spec fn received_line(time: Seq<char>, from: Option<Seq<char>>, message: Seq<char>)
    -> Seq<char> {
    match from {
        Some(peer) => bracketed(time) + seq![' '] + bracketed(peer) + seq![' '] + message,
        None => bracketed(time) + seq![' '] + message,
    }
}

/// A counter after some more bytes: the sum, or the largest number there is
/// where the sum would be larger.
pub open spec fn counted(so_far: usize, more: nat) -> usize {
    if so_far + more > usize::MAX {
        usize::MAX
    } else {
        (so_far + more) as usize
    }
}

/// The title of a pane: the name of the protocol and role, and what the
/// pane shows.
pub open spec fn pane_title(args: Args, sending: bool) -> Seq<char> {
    handler_name(args.protocol, args.mode == AppMode::Server) + if sending {
        " Send"@
    } else {
        " Receive"@
    }
}

/// Whether a key with these modifiers asks to quit: control and `c`, and no
/// other modifier.
pub open spec fn is_quit_key(key: Key, modifiers: Modifiers) -> bool {
    key == Key::Char('c') && modifiers.bits == CONTROL
}

/// Whether a key with these modifiers asks for the input dialog: `i` alone.
pub open spec fn is_input_key(key: Key, modifiers: Modifiers) -> bool {
    key == Key::Char('i') && modifiers.bits == NO_MODIFIERS
}

/// Whether a dialog is another one with its text replaced.
pub open spec fn is_dialog_with_input(after: InputDialog, before: InputDialog, input: Seq<char>)
    -> bool {
    &&& after.input@ == input
    &&& after.format_type == before.format_type
    &&& after.selected_client == before.selected_client
    &&& after.clients == before.clients
}

/// How long the event loop may wait for the terminal: what is left of the
/// tick, and no time at all once the tick is over.
pub open spec fn spec_poll_timeout(tick_rate: u64, elapsed: u64) -> u64 {
    if elapsed >= tick_rate {
        0
    } else {
        (tick_rate - elapsed) as u64
    }
}

/// See `spec_poll_timeout`. Both times are in the same unit, and so is the
/// result.
pub fn poll_timeout(tick_rate: u64, elapsed: u64) -> (timeout: u64)
    ensures
        timeout == spec_poll_timeout(tick_rate, elapsed),
{
    if elapsed >= tick_rate {
        0
    } else {
        tick_rate - elapsed
    }
}

/// Whether a tick is over: as much time has passed as a tick takes.
pub fn tick_is_due(tick_rate: u64, elapsed: u64) -> (due: bool)
    ensures
        due == (elapsed >= tick_rate),
{
    elapsed >= tick_rate
}

fn bracket(out: &mut String, text: &str)
    ensures
        final(out)@ == old(out)@ + bracketed(text@),
{
    push_char(out, '[');
    out.append(text);
    push_char(out, ']');
    assert(out@ =~= old(out)@ + bracketed(text@));
}

fn count(so_far: usize, more: usize) -> (total: usize)
    ensures
        total == counted(so_far, more as nat),
{
    if more > usize::MAX - so_far {
        usize::MAX
    } else {
        so_far + more
    }
}

impl App {
    /// Whether two states agree on everything that no key changes.
    pub open spec fn same_setting(self, before: App) -> bool {
        &&& self.layout == before.layout
        &&& self.receive_view@ == before.receive_view@
        &&& self.status_bar == before.status_bar
        &&& self.args == before.args
        &&& self.stats.received_bytes == before.stats.received_bytes
        &&& self.stats.connected == before.stats.connected
    }

    /// Whether two states agree on what was sent.
    pub open spec fn same_sent(self, before: App) -> bool {
        &&& self.send_view@ == before.send_view@
        &&& self.stats.sent_bytes == before.stats.sent_bytes
        &&& self.stats.last_activity == before.stats.last_activity
    }

    /// Whether this is `before` after a message was sent at a time.
    pub open spec fn has_sent(self, before: App, message: String, time: Seq<char>, now: Instant)
        -> bool {
        &&& self.stats.sent_bytes == counted(
            before.stats.sent_bytes,
            vstd::utf8::encode_utf8(message@).len(),
        )
        &&& self.stats.last_activity == now
        &&& exists|line: String| #[trigger]
            line@ == sent_line(time, message@) && self.send_view@
                == before.send_view@.add_message(line)
    }

    /// Whether this is `before` after a key was handled at a time. In normal
    /// mode, control and `c` ask to quit, `i` opens an empty input dialog and
    /// switches to editing, and every other key is ignored. In editing mode
    /// with the dialog open, escape closes the dialog, enter sends what was
    /// typed (if anything) and closes the dialog, a character is added to the
    /// text, backspace takes the last character off, and every other key is
    /// ignored. In editing mode without a dialog every key is ignored.
    pub open spec fn is_after_key(
        self,
        before: App,
        key: Key,
        modifiers: Modifiers,
        time: Seq<char>,
        now: Instant,
    ) -> bool {
        &&& self.same_setting(before)
        &&& match before.input_mode {
            InputMode::Normal => {
                &&& self.same_sent(before)
                &&& if is_quit_key(key, modifiers) {
                    &&& self.should_quit
                    &&& self.input_mode == InputMode::Normal
                    &&& self.input_dialog == before.input_dialog
                } else if is_input_key(key, modifiers) {
                    &&& self.should_quit == before.should_quit
                    &&& self.input_mode == InputMode::Editing
                    &&& self.input_dialog matches Some(dialog) && dialog.input@.len() == 0
                        && dialog.clients@.len() == 0 && dialog.selected_client is None
                } else {
                    &&& self.should_quit == before.should_quit
                    &&& self.input_mode == InputMode::Normal
                    &&& self.input_dialog == before.input_dialog
                }
            },
            InputMode::Editing => {
                &&& self.should_quit == before.should_quit
                &&& match before.input_dialog {
                    None => {
                        &&& self.same_sent(before)
                        &&& self.input_mode == InputMode::Editing
                        &&& self.input_dialog is None
                    },
                    Some(dialog) => match key {
                        Key::Esc => {
                            &&& self.same_sent(before)
                            &&& self.input_mode == InputMode::Normal
                            &&& self.input_dialog is None
                        },
                        Key::Enter => {
                            &&& self.input_mode == InputMode::Normal
                            &&& self.input_dialog is None
                            &&& if dialog.input@.len() == 0 {
                                self.same_sent(before)
                            } else {
                                self.has_sent(before, dialog.input, time, now)
                            }
                        },
                        Key::Char(c) => {
                            &&& self.same_sent(before)
                            &&& self.input_mode == InputMode::Editing
                            &&& self.input_dialog matches Some(after) && is_dialog_with_input(
                                after,
                                dialog,
                                dialog.input@.push(c),
                            )
                        },
                        Key::Backspace => {
                            &&& self.same_sent(before)
                            &&& self.input_mode == InputMode::Editing
                            &&& self.input_dialog matches Some(after) && is_dialog_with_input(
                                after,
                                dialog,
                                if dialog.input@.len() == 0 {
                                    dialog.input@
                                } else {
                                    dialog.input@.drop_last()
                                },
                            )
                        },
                        Key::Other => {
                            &&& self.same_sent(before)
                            &&& self.input_mode == InputMode::Editing
                            &&& self.input_dialog == before.input_dialog
                        },
                    },
                }
            },
        }
    }

    /// The application as it starts: not quitting, in normal mode, the
    /// panes named after the protocol and role and empty, no dialog open,
    /// the counters at zero. The panes are side by side unless the vertical
    /// layout is asked for. This never fails.
    pub fn new(args: Args) -> (r: Result<App, AppError>)
        ensures
            r matches Ok(app) && {
                &&& !app.should_quit
                &&& app.input_mode == InputMode::Normal
                &&& app.layout.layout_type == if args.vertical_layout {
                    LayoutType::VerticalSplit
                } else {
                    LayoutType::HorizontalSplit
                }
                &&& app.send_view@ == MessageViewState::initial(pane_title(args, true))
                &&& app.receive_view@ == MessageViewState::initial(pane_title(args, false))
                &&& app.input_dialog is None
                &&& app.stats.sent_bytes == 0
                &&& app.stats.received_bytes == 0
                &&& !app.stats.connected
                &&& app.args == args
            },
    {
        let layout_type = if args.vertical_layout {
            LayoutType::VerticalSplit
        } else {
            LayoutType::HorizontalSplit
        };
        let name = crate::protocols::common::protocol_label(
            args.protocol,
            matches!(args.mode, AppMode::Server),
        );
        let send_title = String::from_str(name).concat(" Send");
        let recv_title = String::from_str(name).concat(" Receive");
        Ok(
            App {
                should_quit: false,
                input_mode: InputMode::Normal,
                layout: AppLayout::new(layout_type),
                send_view: MessageView::new(send_title.as_str()),
                receive_view: MessageView::new(recv_title.as_str()),
                status_bar: StatusBar::default(),
                input_dialog: None,
                stats: Stats::default(),
                args,
            },
        )
    }

    /// Handles a key at the current time. What the key does is what
    /// `handle_key_event_at` does with the clock's time of day and instant,
    /// whatever these are. This never fails.
    pub fn handle_key_event(&mut self, key: Key, modifiers: Modifiers) -> (r: Result<(), AppError>)
        ensures
            r is Ok,
            exists|time: Seq<char>, now: Instant| #[trigger]
                final(self).is_after_key(*old(self), key, modifiers, time, now),
    {
        let time = time_label();
        let now = instant_now();
        let r = self.handle_key_event_at(key, modifiers, time.as_str(), now);
        assert(self.is_after_key(*old(self), key, modifiers, time@, now));
        r
    }

    /// Handles a key at a given time of day and instant. See `is_after_key`
    /// for what each key does. This never fails.
    pub fn handle_key_event_at(
        &mut self,
        key: Key,
        modifiers: Modifiers,
        time: &str,
        now: Instant,
    ) -> (r: Result<(), AppError>)
        ensures
            r is Ok,
            final(self).is_after_key(*old(self), key, modifiers, time@, now),
    {
        match self.input_mode {
            InputMode::Normal => self.handle_normal_mode_key(key, modifiers),
            InputMode::Editing => self.handle_editing_mode_key(key, modifiers, time, now),
        }
    }

    fn handle_normal_mode_key(&mut self, key: Key, modifiers: Modifiers) -> (r: Result<
        (),
        AppError,
    >)
        requires
            old(self).input_mode == InputMode::Normal,
        ensures
            r is Ok,
            forall|time: Seq<char>, now: Instant|
                final(self).is_after_key(*old(self), key, modifiers, time, now),
    {
        match key {
            Key::Char(c) => {
                if c == 'c' && modifiers.bits == CONTROL {
                    self.should_quit = true;
                } else if c == 'i' && modifiers.bits == NO_MODIFIERS {
                    self.input_mode = InputMode::Editing;
                    self.input_dialog = Some(InputDialog::new());
                }
            },
            _ => {},
        }
        Ok(())
    }

    fn handle_editing_mode_key(
        &mut self,
        key: Key,
        modifiers: Modifiers,
        time: &str,
        now: Instant,
    ) -> (r: Result<(), AppError>)
        requires
            old(self).input_mode == InputMode::Editing,
        ensures
            r is Ok,
            final(self).is_after_key(*old(self), key, modifiers, time@, now),
    {
        let dialog = match self.input_dialog.take() {
            Some(dialog) => dialog,
            None => {
                return Ok(());
            },
        };
        match key {
            Key::Esc => {
                self.input_mode = InputMode::Normal;
            },
            Key::Enter => {
                match dialog.submit() {
                    Some(input) => {
                        self.send_message(input, time, now);
                    },
                    None => {},
                }
                self.input_mode = InputMode::Normal;
            },
            Key::Char(c) => {
                let mut dialog = dialog;
                push_char(&mut dialog.input, c);
                self.input_dialog = Some(dialog);
            },
            Key::Backspace => {
                let mut dialog = dialog;
                let _ = pop_char(&mut dialog.input);
                self.input_dialog = Some(dialog);
            },
            Key::Other => {
                self.input_dialog = Some(dialog);
            },
        }
        Ok(())
    }

    fn send_message(&mut self, message: String, time: &str, now: Instant)
        ensures
            final(self).has_sent(*old(self), message, time@, now),
            final(self).same_setting(*old(self)),
            final(self).should_quit == old(self).should_quit,
            final(self).input_mode == old(self).input_mode,
            final(self).input_dialog == old(self).input_dialog,
    {
        self.stats.sent_bytes = count(self.stats.sent_bytes, message.as_str().as_bytes().len());
        self.stats.last_activity = now;
        let mut line = String::new();
        bracket(&mut line, time);
        push_char(&mut line, ' ');
        line.append(message.as_str());
        assert(line@ =~= sent_line(time@, message@));
        self.send_view.add_message(line);
    }

    /// Whether this is `before` after a message was received at a time.
    pub open spec fn has_received(
        self,
        before: App,
        message: Seq<char>,
        from: Option<Seq<char>>,
        time: Seq<char>,
        now: Instant,
    ) -> bool {
        &&& self.should_quit == before.should_quit
        &&& self.input_mode == before.input_mode
        &&& self.layout == before.layout
        &&& self.status_bar == before.status_bar
        &&& self.args == before.args
        &&& self.input_dialog == before.input_dialog
        &&& self.send_view@ == before.send_view@
        &&& self.stats.sent_bytes == before.stats.sent_bytes
        &&& self.stats.connected == before.stats.connected
        &&& self.stats.received_bytes == counted(
            before.stats.received_bytes,
            vstd::utf8::encode_utf8(message).len(),
        )
        &&& self.stats.last_activity == now
        &&& exists|line: String| #[trigger]
            line@ == received_line(time, from, message) && self.receive_view@
                == before.receive_view@.add_message(line)
    }

    /// Records a message that was received now: counts its bytes and shows
    /// it in the receive pane, after the time of day and the name of the
    /// peer it came from, if that is known.
    pub fn add_received_message(&mut self, message: String, from: Option<String>)
        ensures
            exists|time: Seq<char>, now: Instant| #[trigger]
                final(self).has_received(
                    *old(self),
                    message@,
                    text_of(from),
                    time,
                    now,
                ),
    {
        let time = time_label();
        let now = instant_now();
        self.add_received_message_at(message, from, time.as_str(), now);
        assert(self.has_received(
            *old(self),
            message@,
            text_of(from),
            time@,
            now,
        ));
    }

    /// Records a message that was received at a given time of day and
    /// instant. See `has_received`.
    pub fn add_received_message_at(
        &mut self,
        message: String,
        from: Option<String>,
        time: &str,
        now: Instant,
    )
        ensures
            final(self).has_received(
                *old(self),
                message@,
                text_of(from),
                time@,
                now,
            ),
    {
        self.stats.received_bytes = count(
            self.stats.received_bytes,
            message.as_str().as_bytes().len(),
        );
        self.stats.last_activity = now;
        let mut line = String::new();
        bracket(&mut line, time);
        match &from {
            Some(peer) => {
                push_char(&mut line, ' ');
                bracket(&mut line, peer.as_str());
            },
            None => {},
        }
        push_char(&mut line, ' ');
        line.append(message.as_str());
        assert(line@ =~= received_line(
            time@,
            text_of(from),
            message@,
        ));
        self.receive_view.add_message(line);
    }

    /// Shows a message that came from a handler, at a given time of day and
    /// instant: its display text is recorded as received from the peer that
    /// the message names, if it names one.
    pub fn receive_message_at(&mut self, message: Message, time: &str, now: Instant)
        ensures
            final(self).has_received(
                *old(self),
                message.content.spec_display_text(),
                command_target(message),
                time@,
                now,
            ),
    {
        let text = message.content.display_text();
        let from = match message.connection_info {
            Some(info) => Some(info.connection_id),
            None => None,
        };
        self.add_received_message_at(text, from, time, now);
    }

    /// Shows a message that came from a handler, now. See
    /// `receive_message_at`.
    pub fn receive_message(&mut self, message: Message)
        ensures
            exists|time: Seq<char>, now: Instant| #[trigger]
                final(self).has_received(
                    *old(self),
                    message.content.spec_display_text(),
                    command_target(message),
                    time,
                    now,
                ),
    {
        let time = time_label();
        let now = instant_now();
        self.receive_message_at(message, time.as_str(), now);
        assert(self.has_received(
            *old(self),
            message.content.spec_display_text(),
            command_target(message),
            time@,
            now,
        ));
    }

    /// Records whether a connection is up.
    pub fn set_connected(&mut self, connected: bool)
        ensures
            final(self).stats.connected == connected,
            final(self).stats.sent_bytes == old(self).stats.sent_bytes,
            final(self).stats.received_bytes == old(self).stats.received_bytes,
            final(self).stats.last_activity == old(self).stats.last_activity,
            final(self).should_quit == old(self).should_quit,
            final(self).input_mode == old(self).input_mode,
            final(self).layout == old(self).layout,
            final(self).send_view == old(self).send_view,
            final(self).receive_view == old(self).receive_view,
            final(self).input_dialog == old(self).input_dialog,
            final(self).args == old(self).args,
    {
        self.stats.connected = connected;
    }

    /// What the event loop does at the top of each round: leave if the
    /// application is to quit, go on otherwise.
    pub fn loop_action(&self) -> (action: LoopAction)
        ensures
            action == if self.should_quit {
                LoopAction::Exit
            } else {
                LoopAction::Continue
            },
    {
        if self.should_quit {
            LoopAction::Exit
        } else {
            LoopAction::Continue
        }
    }

    /// Handles what the terminal reported in one round of the event loop,
    /// now. What is done is what `on_terminal_event_at` does with the
    /// clock's time of day and instant, whatever these are.
    pub fn on_terminal_event(&mut self, event: TerminalEvent) -> (r: Result<LoopAction, AppError>)
        ensures
            r matches Ok(action) && action == if final(self).should_quit {
                LoopAction::Exit
            } else {
                LoopAction::Continue
            },
            match event {
                TerminalEvent::KeyPress { key, modifiers } => exists|time: Seq<char>, now: Instant|
                    #[trigger] final(self).is_after_key(*old(self), key, modifiers, time, now),
                _ => *final(self) == *old(self),
            },
    {
        let time = time_label();
        let now = instant_now();
        let r = self.on_terminal_event_at(event, time.as_str(), now);
        proof {
            match event {
                TerminalEvent::KeyPress { key, modifiers } => {
                    assert(self.is_after_key(*old(self), key, modifiers, time@, now));
                },
                _ => {},
            }
        }
        r
    }

    /// Handles what the terminal reported in one round of the event loop,
    /// at a given time. A key that went down is handled as
    /// `handle_key_event_at` handles it; anything else changes nothing.
    /// The loop is to be left if the application is to quit after that.
    pub fn on_terminal_event_at(&mut self, event: TerminalEvent, time: &str, now: Instant) -> (r:
        Result<LoopAction, AppError>)
        ensures
            r matches Ok(action) && action == if final(self).should_quit {
                LoopAction::Exit
            } else {
                LoopAction::Continue
            },
            match event {
                TerminalEvent::KeyPress { key, modifiers } => final(self).is_after_key(
                    *old(self),
                    key,
                    modifiers,
                    time@,
                    now,
                ),
                _ => *final(self) == *old(self),
            },
    {
        match event {
            TerminalEvent::KeyPress { key, modifiers } => {
                let _ = self.handle_key_event_at(key, modifiers, time, now);
            },
            TerminalEvent::Other => {},
            TerminalEvent::Nothing => {},
        }
        Ok(self.loop_action())
    }
}

} // verus!
