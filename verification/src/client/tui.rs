//! The chat screen as a value: the log, the input line, the scroll offset and
//! the gateway's status. Keys and server messages change it; drawing reads it.

use crate::fresh::ID_LEN;
use crate::protocol::{ClientMessage, ClientMessageView, ServerMessage, ServerMessageView};
use vstd::prelude::*;

verus! {

/// `String::push` appends the character to the end of the string.
pub assume_specification[ String::push ](text: &mut String, ch: char)
    ensures
        final(text)@ == old(text)@.push(ch),
;

/// `String::pop` removes the last character and returns it; on an empty
/// string it returns `None` and changes nothing.
pub assume_specification[ String::pop ](text: &mut String) -> (last: Option<char>)
    ensures
        old(text)@.len() == 0 ==> last is None && final(text)@ == old(text)@,
        old(text)@.len() > 0 ==> last == Some(old(text)@.last()) && final(text)@ == old(
            text,
        )@.drop_last(),
;

/// `String::clear` removes all contents.
pub assume_specification[ String::clear ](text: &mut String)
    ensures
        final(text)@ == Seq::<char>::empty(),
;

/// What `str::trim` makes of a text: the text without its leading and
/// trailing white space, as Unicode defines white space.
pub uninterp spec fn trimmed(text: Seq<char>) -> Seq<char>;

/// Calls `str::trim`.
#[verifier::external_body]
fn trim(text: &str) -> (inner: &str)
    ensures
        inner@ == trimmed(text@),
{
    text.trim()
}

/// One line of the chat log.
#[derive(Debug, Clone, PartialEq, Eq)]
pub enum ChatEntry {
    /// What the user sent.
    User(String),
    /// What came back.
    Bot(String),
    /// A notice of the client itself.
    System(String),
}

/// What a [`ChatEntry`] says.
pub enum ChatEntryView {
    User(Seq<char>),
    Bot(Seq<char>),
    System(Seq<char>),
}

impl View for ChatEntry {
    type V = ChatEntryView;

    open spec fn view(&self) -> ChatEntryView {
        match *self {
            ChatEntry::User(text) => ChatEntryView::User(text@),
            ChatEntry::Bot(text) => ChatEntryView::Bot(text@),
            ChatEntry::System(text) => ChatEntryView::System(text@),
        }
    }
}

impl ChatEntryView {
    /// The entry as it is shown: a mark for who speaks, then the text.
    pub open spec fn line(self) -> Seq<char> {
        match self {
            ChatEntryView::User(text) => "> "@ + text,
            ChatEntryView::Bot(text) => "  "@ + text,
            ChatEntryView::System(text) => "* "@ + text,
        }
    }
}

impl ChatEntry {
    /// The entry as it is shown.
    pub fn line(&self) -> (line: String)
        ensures
            line@ == self@.line(),
    {
        let (mark, text) = match self {
            ChatEntry::User(text) => ("> ", text),
            ChatEntry::Bot(text) => ("  ", text),
            ChatEntry::System(text) => ("* ", text),
        };
        let mut line = mark.to_owned();
        line.append(text.as_str());
        line
    }
}

/// The views of the entries of a log.
pub open spec fn log_view(entries: Seq<ChatEntry>) -> Seq<ChatEntryView> {
    entries.map_values(|entry: ChatEntry| entry@)
}

/// The mathematical content of the screen.
pub struct AppView {
    /// What the user has typed and not sent.
    pub input: Seq<char>,
    /// The chat log, oldest entry first.
    pub messages: Seq<ChatEntryView>,
    /// How far the log is scrolled back.
    pub scroll: u16,
    /// Whether the server reports the gateway as connected.
    pub gateway_connected: bool,
}

impl AppView {
    /// The screen at startup.
    pub open spec fn start() -> AppView {
        AppView {
            input: Seq::empty(),
            messages: seq![ChatEntryView::System("Welcome to MyClaw!"@)],
            scroll: 0,
            gateway_connected: false,
        }
    }

    /// The screen with one more entry at the end of the log.
    pub open spec fn logged(self, entry: ChatEntryView) -> AppView {
        AppView { messages: self.messages.push(entry), ..self }
    }

    /// The screen after one chunk of a reply. A chunk that is not the last
    /// extends the reply shown last, or starts one if the last entry is no
    /// reply; the last chunk always starts an entry of its own.
    pub open spec fn after_chunk(self, content: Seq<char>, done: bool) -> AppView {
        if !done && self.messages.len() > 0 && self.messages.last() is Bot {
            AppView {
                messages: self.messages.drop_last().push(
                    ChatEntryView::Bot(self.messages.last()->Bot_0 + content),
                ),
                ..self
            }
        } else {
            self.logged(ChatEntryView::Bot(content))
        }
    }

    /// The screen after a message from the server.
    pub open spec fn after_message(self, message: ServerMessageView) -> AppView {
        match message {
            ServerMessageView::ChatReply { id, request_id, content, done } => self.after_chunk(
                content,
                done,
            ),
            ServerMessageView::Error { message } => self.logged(
                ChatEntryView::System("Error: "@ + message),
            ),
            ServerMessageView::Status { gateway_connected } => AppView {
                gateway_connected,
                ..self
            }.logged(
                ChatEntryView::System(
                    if gateway_connected {
                        "Gateway connected"@
                    } else {
                        "Gateway disconnected"@
                    },
                ),
            ),
            ServerMessageView::Pong => self,
        }
    }

    /// The screen after the user submits `text`: nothing happens for an empty
    /// text; any other text is logged as the user's and the input line is
    /// emptied.
    pub open spec fn after_submit(self, text: Seq<char>) -> AppView {
        if text.len() == 0 {
            self
        } else {
            AppView { input: Seq::empty(), ..self.logged(ChatEntryView::User(text)) }
        }
    }

    /// The screen after a key that does not end the session.
    pub open spec fn after_key(self, key: Key) -> AppView {
        match key {
            Key::Char(ch) => AppView { input: self.input.push(ch), ..self },
            Key::Backspace => AppView {
                input: if self.input.len() > 0 {
                    self.input.drop_last()
                } else {
                    self.input
                },
                ..self
            },
            Key::Up => AppView {
                scroll: if self.scroll < u16::MAX {
                    (self.scroll + 1) as u16
                } else {
                    self.scroll
                },
                ..self
            },
            Key::Down => AppView {
                scroll: if self.scroll > 0 {
                    (self.scroll - 1) as u16
                } else {
                    self.scroll
                },
                ..self
            },
            Key::Enter => self.after_submit(trimmed(self.input)),
            Key::Quit | Key::Other => self,
        }
    }

    /// The status bar.
    pub open spec fn status_line(self) -> Seq<char> {
        if self.gateway_connected {
            " MyClaw | Gateway: CONNECTED | Ctrl+C to quit"@
        } else {
            " MyClaw | Gateway: DISCONNECTED | Ctrl+C to quit"@
        }
    }
}

/// A key as the screen understands it.
#[derive(Clone, Copy, Debug, PartialEq, Eq, Structural)]
pub enum Key {
    /// Control and `c` together.
    Quit,
    Enter,
    /// Any other character key.
    Char(char),
    Backspace,
    Up,
    Down,
    /// A key that means nothing here.
    Other,
}

/// What follows from a key.
#[derive(Debug, PartialEq, Eq)]
pub enum KeyOutcome {
    /// Go on.
    Continue,
    /// Send this message to the server and go on.
    Send(ClientMessage),
    /// End the session.
    Quit,
}

/// The chat screen.
pub struct App {
    input: String,
    messages: Vec<ChatEntry>,
    scroll: u16,
    gateway_connected: bool,
}

impl View for App {
    type V = AppView;

    closed spec fn view(&self) -> AppView {
        AppView {
            input: self.input@,
            messages: log_view(self.messages@),
            scroll: self.scroll,
            gateway_connected: self.gateway_connected,
        }
    }
}

impl App {
    /// The screen at startup: a welcome in the log, nothing typed.
    pub fn new() -> (app: App)
        ensures
            app@ == AppView::start(),
    {
        let mut messages: Vec<ChatEntry> = Vec::new();
        messages.push(ChatEntry::System("Welcome to MyClaw!".to_owned()));
        let app = App { input: String::new(), messages, scroll: 0, gateway_connected: false };
        assert(app@.messages =~= AppView::start().messages);
        app
    }

    fn log(&mut self, entry: ChatEntry)
        ensures
            final(self)@ == old(self)@.logged(entry@),
    {
        self.messages.push(entry);
        assert(self@.messages =~= old(self)@.messages.push(entry@));
    }

    /// Takes a message from the server into the screen.
    pub fn handle_server_msg(&mut self, msg: ServerMessage)
        ensures
            final(self)@ == old(self)@.after_message(msg@),
    {
        match msg {
            ServerMessage::ChatReply { id: _, request_id: _, content, done } => {
                if done {
                    self.log(ChatEntry::Bot(content));
                } else {
                    match self.messages.pop() {
                        Some(ChatEntry::Bot(mut shown)) => {
                            assert(old(self)@.messages.last() == old(self).messages@.last()@);
                            shown.append(content.as_str());
                            self.messages.push(ChatEntry::Bot(shown));
                            assert(self@.messages =~= old(self)@.after_chunk(
                                content@,
                                done,
                            ).messages);
                        },
                        Some(other) => {
                            assert(old(self)@.messages.last() == old(self).messages@.last()@);
                            self.messages.push(other);
                            assert(self.messages@ =~= old(self).messages@);
                            self.log(ChatEntry::Bot(content));
                        },
                        None => {
                            assert(self.messages@ =~= old(self).messages@);
                            self.log(ChatEntry::Bot(content));
                        },
                    }
                }
            },
            ServerMessage::Error { message } => {
                let mut text = "Error: ".to_owned();
                text.append(message.as_str());
                self.log(ChatEntry::System(text));
            },
            ServerMessage::Status { gateway_connected } => {
                self.gateway_connected = gateway_connected;
                let status = if gateway_connected {
                    "Gateway connected"
                } else {
                    "Gateway disconnected"
                };
                self.log(ChatEntry::System(status.to_owned()));
            },
            ServerMessage::Pong => {},
        }
    }

    /// Submits `text` under the identifier `id`: an empty text is ignored;
    /// any other is logged as the user's, the input line is emptied, and the
    /// chat message to send comes back.
    pub fn submit_as(&mut self, id: String, text: &str) -> (message: Option<ClientMessage>)
        ensures
            final(self)@ == old(self)@.after_submit(text@),
            match message {
                Some(m) => text@.len() > 0 && m@ == (ClientMessageView::Chat {
                    id: id@,
                    content: text@,
                }),
                None => text@.len() == 0,
            },
    {
        if text.is_empty() {
            return None;
        }
        self.log(ChatEntry::User(text.to_owned()));
        self.input.clear();
        Some(ClientMessage::chat(id, text))
    }

    /// Submits `text` under a fresh random identifier.
    pub fn submit(&mut self, text: &str) -> (message: Option<ClientMessage>)
        ensures
            final(self)@ == old(self)@.after_submit(text@),
            match message {
                Some(m) => text@.len() > 0 && (m@ matches ClientMessageView::Chat { id, content }
                    && id.len() == ID_LEN && content == text@),
                None => text@.len() == 0,
            },
    {
        if text.is_empty() {
            return None;
        }
        self.log(ChatEntry::User(text.to_owned()));
        self.input.clear();
        Some(ClientMessage::new_chat(text))
    }

    /// Submits what is typed, without the white space around it.
    pub fn send_input(&mut self) -> (message: Option<ClientMessage>)
        ensures
            final(self)@ == old(self)@.after_submit(trimmed(old(self)@.input)),
            match message {
                Some(m) => trimmed(old(self)@.input).len() > 0 && (m@ matches ClientMessageView::Chat {
                    id,
                    content,
                } && id.len() == ID_LEN && content == trimmed(old(self)@.input)),
                None => trimmed(old(self)@.input).len() == 0,
            },
    {
        let text = trim(self.input.as_str()).to_owned();
        self.submit(text.as_str())
    }

    /// Takes one key. [`Key::Quit`] ends the session and [`Key::Enter`]
    /// submits the input; every other key edits the input line or scrolls.
    pub fn on_key(&mut self, key: Key) -> (outcome: KeyOutcome)
        ensures
            final(self)@ == old(self)@.after_key(key),
            match outcome {
                KeyOutcome::Quit => key == Key::Quit,
                KeyOutcome::Send(m) => key == Key::Enter && trimmed(old(self)@.input).len() > 0 && (
                m@ matches ClientMessageView::Chat { id, content } && id.len() == ID_LEN && content
                    == trimmed(old(self)@.input)),
                KeyOutcome::Continue => key != Key::Quit && (key == Key::Enter ==> trimmed(
                    old(self)@.input,
                ).len() == 0),
            },
    {
        match key {
            Key::Quit => KeyOutcome::Quit,
            Key::Enter => match self.send_input() {
                Some(message) => KeyOutcome::Send(message),
                None => KeyOutcome::Continue,
            },
            Key::Char(ch) => {
                self.input.push(ch);
                KeyOutcome::Continue
            },
            Key::Backspace => {
                self.input.pop();
                KeyOutcome::Continue
            },
            Key::Up => {
                self.scroll = self.scroll.saturating_add(1);
                KeyOutcome::Continue
            },
            Key::Down => {
                self.scroll = self.scroll.saturating_sub(1);
                KeyOutcome::Continue
            },
            Key::Other => KeyOutcome::Continue,
        }
    }

    /// The status bar.
    pub fn status_line(&self) -> (line: String)
        ensures
            line@ == self@.status_line(),
    {
        if self.gateway_connected {
            " MyClaw | Gateway: CONNECTED | Ctrl+C to quit".to_owned()
        } else {
            " MyClaw | Gateway: DISCONNECTED | Ctrl+C to quit".to_owned()
        }
    }

    /// What is typed and not sent.
    pub fn input(&self) -> (input: &str)
        ensures
            input@ == self@.input,
    {
        self.input.as_str()
    }

    /// The chat log, oldest entry first.
    pub fn messages(&self) -> (messages: &Vec<ChatEntry>)
        ensures
            log_view(messages@) == self@.messages,
    {
        &self.messages
    }

    /// How far the log is scrolled back.
    pub fn scroll(&self) -> (scroll: u16)
        ensures
            scroll == self@.scroll,
    {
        self.scroll
    }

    /// Whether the server reports the gateway as connected.
    pub fn gateway_connected(&self) -> (connected: bool)
        ensures
            connected == self@.gateway_connected,
    {
        self.gateway_connected
    }
}

} // verus!
