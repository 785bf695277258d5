//! The chat view's state machine: the roster and the history that inbound
//! frames build, the frames that the user's actions send, and what is shown.

use vstd::prelude::*;
use vstd::string::*;
use crate::codec::{
    decoded_envelope, decoded_message, encoded_envelope, texts, ChatMessage, DecodeError,
    Envelope, MessageData, MsgTypes, WebSocketMessage,
};
use crate::text::{blank, gif_suffix, has_suffix, is_blank, is_gif_link, joined, same_text};

verus! {

// ---------------------------------------------------------------------------
// The model
// ---------------------------------------------------------------------------

/// Where the avatars come from.
pub open spec fn avatar_base() -> Seq<char> {
    "https://avatars.dicebear.com/api/adventurer-neutral/"@
}

/// The avatar of a user: a function of the name alone.
pub open spec fn avatar_url(name: Seq<char>) -> Seq<char> {
    avatar_base() + name + ".svg"@
}

/// The state of the chat view.
pub ghost struct ChatState {
    /// The names of the users that are connected, as the relay last listed
    /// them.
    pub roster: Seq<Seq<char>>,
    /// The messages received, oldest first.
    pub history: Seq<ChatMessage>,
    /// Whether the emoji picker is shown.
    pub picker_open: bool,
}

/// The state in which a chat view starts.
pub open spec fn initial_state() -> ChatState {
    ChatState { roster: Seq::empty(), history: Seq::empty(), picker_open: false }
}

/// The frame by which a client registers under `username`.
pub open spec fn register_frame(username: Seq<char>) -> Seq<char> {
    encoded_envelope(
        Envelope { message_type: MsgTypes::Register, data_array: None, data: Some(username) },
    )
}

/// Why an inbound frame was dropped.
#[derive(Clone, Copy, Debug, PartialEq, Eq, Structural)]
pub enum ProtocolError {
    /// The frame is no envelope.
    Envelope(DecodeError),
    /// A `message` envelope carries no text.
    NoPayload,
    /// The text that a `message` envelope carries is no chat message.
    Message(DecodeError),
}

/// What an inbound frame asks for.
pub ghost enum Inbound {
    /// Replace the roster by these names.
    Roster(Seq<Seq<char>>),
    /// Append this message to the history.
    Said(ChatMessage),
    /// Nothing: the envelope is of a kind that changes nothing here.
    Ignored,
}

/// What an envelope asks for.
pub open spec fn request_of(envelope: Option<Envelope>) -> Result<Inbound, ProtocolError> {
    match envelope {
        None => Ok(Inbound::Ignored),
        Some(e) => match e.message_type {
            MsgTypes::Users => Ok(
                Inbound::Roster(
                    match e.data_array {
                        Some(names) => names,
                        None => Seq::empty(),
                    },
                ),
            ),
            MsgTypes::Message => match e.data {
                None => Err(ProtocolError::NoPayload),
                Some(text) => match decoded_message(text) {
                    Ok(message) => Ok(Inbound::Said(message)),
                    Err(e) => Err(ProtocolError::Message(e)),
                },
            },
            MsgTypes::Register => Ok(Inbound::Ignored),
        },
    }
}

/// What an inbound frame asks for, or why it is dropped.
pub open spec fn inbound(frame: Seq<char>) -> Result<Inbound, ProtocolError> {
    match decoded_envelope(frame) {
        Err(e) => Err(ProtocolError::Envelope(e)),
        Ok(envelope) => request_of(envelope),
    }
}

/// The state after an inbound frame. A frame that is dropped changes nothing.
pub open spec fn received(state: ChatState, frame: Seq<char>) -> ChatState {
    match inbound(frame) {
        Ok(Inbound::Roster(names)) => ChatState { roster: names, ..state },
        Ok(Inbound::Said(message)) => ChatState { history: state.history.push(message), ..state },
        _ => state,
    }
}

/// Whether an inbound frame changes what is shown.
pub open spec fn redraws(frame: Seq<char>) -> bool {
    inbound(frame) matches Ok(request) && !(request is Ignored)
}

/// The state after a run of inbound frames, in the order in which they came.
pub open spec fn received_all(state: ChatState, frames: Seq<Seq<char>>) -> ChatState
    decreases frames.len(),
{
    if frames.len() == 0 {
        state
    } else {
        received(received_all(state, frames.drop_last()), frames.last())
    }
}

/// The state after the picker's button was pressed.
pub open spec fn toggled(state: ChatState) -> ChatState {
    ChatState { picker_open: !state.picker_open, ..state }
}

/// The state after an emoji was picked.
pub open spec fn picked(state: ChatState) -> ChatState {
    ChatState { picker_open: false, ..state }
}

/// The frame that submitting `raw` sends: none for a blank text, else a
/// `message` envelope that carries `raw` as it was typed.
pub open spec fn submitted(raw: Seq<char>) -> Option<Seq<char>> {
    if blank(raw) {
        None
    } else {
        Some(
            encoded_envelope(
                Envelope { message_type: MsgTypes::Message, data_array: None, data: Some(raw) },
            ),
        )
    }
}

// ---------------------------------------------------------------------------
// Events and what they bring about
// ---------------------------------------------------------------------------

/// What can happen to the chat view.
#[derive(Clone, Debug, PartialEq, Eq)]
pub enum Msg {
    /// A frame came in.
    HandleMsg(String),
    /// The user submitted the composer's text.
    SubmitMessage,
    /// The user pressed the emoji picker's button.
    ToggleEmojiPicker,
    /// The user picked an emoji.
    AddEmoji(String),
}

/// An event as a mathematical value.
pub ghost enum Event {
    Frame(Seq<char>),
    Submit,
    Toggle,
    Emoji(Seq<char>),
}

impl View for Msg {
    type V = Event;

    open spec fn view(&self) -> Event {
        match self {
            Msg::HandleMsg(frame) => Event::Frame(frame@),
            Msg::SubmitMessage => Event::Submit,
            Msg::ToggleEmojiPicker => Event::Toggle,
            Msg::AddEmoji(glyph) => Event::Emoji(glyph@),
        }
    }
}

/// What the chat view asks of its surroundings.
#[derive(Clone, Debug, PartialEq, Eq)]
pub enum Command {
    /// Send this frame to the relay.
    Send(String),
    /// Put this text into the composer.
    SetInput(String),
    /// Give the composer the focus.
    FocusInput,
}

/// A command as a mathematical value.
pub ghost enum Action {
    Send(Seq<char>),
    SetInput(Seq<char>),
    FocusInput,
}

impl View for Command {
    type V = Action;

    open spec fn view(&self) -> Action {
        match self {
            Command::Send(frame) => Action::Send(frame@),
            Command::SetInput(text) => Action::SetInput(text@),
            Command::FocusInput => Action::FocusInput,
        }
    }
}

/// What an event brought about, besides the new state.
#[derive(Clone, Debug, PartialEq, Eq)]
pub struct Update {
    /// Whether what is shown has changed.
    pub render: bool,
    /// What the surroundings are to do, in this order.
    pub commands: Vec<Command>,
}

/// The actions that a list of commands stands for.
pub open spec fn actions(commands: Seq<Command>) -> Seq<Action> {
    Seq::new(commands.len(), |i: int| commands[i]@)
}

/// The state after an event.
pub open spec fn next_state(state: ChatState, event: Event) -> ChatState {
    match event {
        Event::Frame(frame) => received(state, frame),
        Event::Submit => state,
        Event::Toggle => toggled(state),
        Event::Emoji(_) => picked(state),
    }
}

/// Whether what is shown changes with an event that is not dropped.
pub open spec fn next_render(event: Event) -> bool {
    match event {
        Event::Frame(frame) => redraws(frame),
        Event::Submit => false,
        Event::Toggle => true,
        Event::Emoji(_) => true,
    }
}

/// What the surroundings are to do after an event. `input` is the composer's
/// text, where the composer is there.
pub open spec fn next_actions(event: Event, input: Option<Seq<char>>) -> Seq<Action> {
    match (event, input) {
        (Event::Submit, Some(raw)) => match submitted(raw) {
            Some(frame) => seq![Action::Send(frame), Action::SetInput(Seq::empty())],
            None => Seq::empty(),
        },
        (Event::Emoji(glyph), Some(current)) => seq![
            Action::SetInput(current + glyph),
            Action::FocusInput,
        ],
        _ => Seq::empty(),
    }
}

/// The fault for which an event is dropped, if it is.
pub open spec fn fault_of(event: Event) -> Option<ProtocolError> {
    match event {
        Event::Frame(frame) => match inbound(frame) {
            Err(e) => Some(e),
            Ok(_) => None,
        },
        _ => None,
    }
}

// ---------------------------------------------------------------------------
// What is shown
// ---------------------------------------------------------------------------

/// A user of the roster.
#[derive(Clone, Debug, PartialEq, Eq)]
pub struct UserProfile {
    pub name: String,
    pub avatar: String,
}

/// A user of the roster as a mathematical value.
pub ghost struct Profile {
    pub name: Seq<char>,
    pub avatar: Seq<char>,
}

impl View for UserProfile {
    type V = Profile;

    open spec fn view(&self) -> Profile {
        Profile { name: self.name@, avatar: self.avatar@ }
    }
}

/// The profile of the user called `name`.
pub open spec fn profile_of(name: Seq<char>) -> Profile {
    Profile { name, avatar: avatar_url(name) }
}

impl UserProfile {
    /// The profile of the user called `name`.
    pub fn new(name: &str) -> (profile: UserProfile)
        ensures
            profile@ == profile_of(name@),
    {
        let mut avatar: String = "https://avatars.dicebear.com/api/adventurer-neutral/".to_owned();
        avatar.append(name);
        avatar.append(".svg");
        UserProfile { name: name.to_owned(), avatar }
    }
}

/// How a message's text is shown.
#[derive(Clone, Debug, PartialEq, Eq)]
pub enum Body {
    /// As an image, the text being its address.
    Image(String),
    /// As it is.
    Text(String),
}

/// A body as a mathematical value.
pub ghost enum BodyView {
    Image(Seq<char>),
    Text(Seq<char>),
}

impl View for Body {
    type V = BodyView;

    open spec fn view(&self) -> BodyView {
        match self {
            Body::Image(address) => BodyView::Image(address@),
            Body::Text(text) => BodyView::Text(text@),
        }
    }
}

/// A message of the history, as it is shown.
#[derive(Clone, Debug, PartialEq, Eq)]
pub struct MessageLine {
    pub from: String,
    /// The sender's avatar; none where the roster does not hold the sender.
    pub avatar: Option<String>,
    pub body: Body,
}

/// A shown message as a mathematical value.
pub ghost struct Line {
    pub from: Seq<char>,
    pub avatar: Option<Seq<char>>,
    pub body: BodyView,
}

impl View for MessageLine {
    type V = Line;

    open spec fn view(&self) -> Line {
        Line {
            from: self.from@,
            avatar: match self.avatar {
                Some(address) => Some(address@),
                None => None,
            },
            body: self.body@,
        }
    }
}

/// What the chat view shows.
#[derive(Clone, Debug, PartialEq, Eq)]
pub struct Screen {
    pub users: Vec<UserProfile>,
    pub messages: Vec<MessageLine>,
    pub show_emoji_picker: bool,
}

/// A screen as a mathematical value.
pub ghost struct ScreenView {
    pub users: Seq<Profile>,
    pub messages: Seq<Line>,
    pub show_emoji_picker: bool,
}

impl View for Screen {
    type V = ScreenView;

    open spec fn view(&self) -> ScreenView {
        ScreenView {
            users: Seq::new(self.users@.len(), |i: int| self.users@[i]@),
            messages: Seq::new(self.messages@.len(), |i: int| self.messages@[i]@),
            show_emoji_picker: self.show_emoji_picker,
        }
    }
}

/// How a message's text is shown: as an image where it ends in `.gif`,
/// exactly so, else as it is.
pub open spec fn body_of(text: Seq<char>) -> BodyView {
    if has_suffix(text, gif_suffix()) {
        BodyView::Image(text)
    } else {
        BodyView::Text(text)
    }
}

/// The avatar shown beside a message from `from`: that of the roster's user
/// of this very name; none where there is no such user.
pub open spec fn avatar_for(roster: Seq<Seq<char>>, from: Seq<char>) -> Option<Seq<char>> {
    if roster.contains(from) {
        Some(avatar_url(from))
    } else {
        None
    }
}

/// A message as it is shown beside a roster.
pub open spec fn line_of(roster: Seq<Seq<char>>, message: ChatMessage) -> Line {
    Line {
        from: message.from,
        avatar: avatar_for(roster, message.from),
        body: body_of(message.message),
    }
}

/// What is shown in a state.
pub open spec fn screen_of(state: ChatState) -> ScreenView {
    ScreenView {
        users: Seq::new(state.roster.len(), |i: int| profile_of(state.roster[i])),
        messages: Seq::new(state.history.len(), |i: int| line_of(state.roster, state.history[i])),
        show_emoji_picker: state.picker_open,
    }
}

/// How a message's text is shown.
pub fn render_body(text: &str) -> (body: Body)
    ensures
        body@ == body_of(text@),
{
    if is_gif_link(text) {
        Body::Image(text.to_owned())
    } else {
        Body::Text(text.to_owned())
    }
}

// ---------------------------------------------------------------------------
// The chat view
// ---------------------------------------------------------------------------

/// The users that are connected. Each is held with the avatar that goes with
/// the name.
pub struct Roster {
    users: Vec<UserProfile>,
}

impl Roster {
    #[verifier::type_invariant]
    spec fn well_formed(self) -> bool {
        forall|i: int|
            0 <= i < self.users@.len() ==> (#[trigger] self.users@[i])@ == profile_of(
                self.users@[i].name@,
            )
    }

    /// The names of the users, in the relay's order.
    pub closed spec fn names(&self) -> Seq<Seq<char>> {
        Seq::new(self.users@.len(), |i: int| self.users@[i].name@)
    }

    /// The roster of the users called `names`, in this order. A name that
    /// comes twice gives two users.
    pub fn new(names: &Vec<String>) -> (roster: Roster)
        ensures
            roster.names() == texts(names@),
    {
        let mut users: Vec<UserProfile> = Vec::new();
        let mut i: usize = 0;
        while i < names.len()
            invariant
                i <= names.len(),
                users@.len() == i,
                forall|k: int| 0 <= k < i ==> (#[trigger] users@[k])@ == profile_of(names@[k]@),
            decreases names.len() - i,
        {
            users.push(UserProfile::new(names[i].as_str()));
            i += 1;
        }
        let roster = Roster { users };
        assert(roster.names() =~= texts(names@));
        roster
    }

    /// The users, in the relay's order.
    pub fn users(&self) -> (users: &Vec<UserProfile>)
        ensures
            users@.len() == self.names().len(),
            forall|i: int|
                0 <= i < users@.len() ==> (#[trigger] users@[i])@ == profile_of(self.names()[i]),
    {
        proof {
            use_type_invariant(self);
        }
        &self.users
    }

    /// The avatar of the user called `from`; none where there is no such
    /// user.
    pub fn avatar_of(&self, from: &str) -> (avatar: Option<String>)
        ensures
            match avatar {
                Some(address) => avatar_for(self.names(), from@) == Some(address@),
                None => avatar_for(self.names(), from@) is None,
            },
    {
        proof {
            use_type_invariant(self);
        }
        let ghost names = self.names();
        let mut i: usize = 0;
        while i < self.users.len()
            invariant
                i <= self.users@.len(),
                names == self.names(),
                names.len() == self.users@.len(),
                forall|k: int|
                    0 <= k < self.users@.len() ==> (#[trigger] self.users@[k])@ == profile_of(
                        names[k],
                    ),
                forall|k: int| 0 <= k < i ==> names[k] != from@,
            decreases self.users@.len() - i,
        {
            if same_text(self.users[i].name.as_str(), from) {
                assert(names[i as int] == from@);
                return Some(self.users[i].avatar.clone());
            }
            i += 1;
        }
        assert(!names.contains(from@));
        None
    }
}

/// The chat view: who is connected, what was said, and whether the emoji
/// picker is shown.
pub struct Chat {
    users: Roster,
    messages: Vec<MessageData>,
    show_emoji_picker: bool,
}

impl Chat {
    /// The state that the chat view is in.
    pub closed spec fn state(&self) -> ChatState {
        ChatState {
            roster: self.users.names(),
            history: Seq::new(self.messages@.len(), |i: int| self.messages@[i]@),
            picker_open: self.show_emoji_picker,
        }
    }

    /// A chat view for the user called `username`, and the frame that
    /// registers this user with the relay: it is to be sent before anything is
    /// shown.
    pub fn create(username: &str) -> (r: (Chat, String))
        ensures
            r.0.state() == initial_state(),
            r.1@ == register_frame(username@),
    {
        let message = WebSocketMessage {
            message_type: MsgTypes::Register,
            data: Some(username.to_owned()),
            data_array: None,
        };
        let frame = message.encode();
        let nobody: Vec<String> = Vec::new();
        let chat = Chat {
            users: Roster::new(&nobody),
            messages: Vec::new(),
            show_emoji_picker: false,
        };
        assert(chat.state().roster =~= Seq::<Seq<char>>::empty());
        assert(chat.state().history =~= Seq::<ChatMessage>::empty());
        (chat, frame)
    }

    /// The users of the roster, in the relay's order.
    pub fn users(&self) -> (users: &Vec<UserProfile>)
        ensures
            users@.len() == self.state().roster.len(),
            forall|i: int|
                0 <= i < users@.len() ==> (#[trigger] users@[i])@ == profile_of(
                    self.state().roster[i],
                ),
    {
        self.users.users()
    }

    /// The messages of the history, oldest first.
    pub fn messages(&self) -> (messages: &Vec<MessageData>)
        ensures
            messages@.len() == self.state().history.len(),
            forall|i: int|
                0 <= i < messages@.len() ==> (#[trigger] messages@[i])@ == self.state().history[i],
    {
        &self.messages
    }

    /// Whether the emoji picker is shown.
    pub fn show_emoji_picker(&self) -> (open: bool)
        ensures
            open == self.state().picker_open,
    {
        self.show_emoji_picker
    }

    /// Takes an inbound frame. A `users` envelope replaces the roster by the
    /// users it lists (by none where it lists none); a `message` envelope
    /// appends the message it carries to the history; any other envelope
    /// changes nothing. The result says whether what is shown has changed. A
    /// frame that is no envelope, or a `message` envelope that carries no chat
    /// message, is dropped with the fault and changes nothing.
    pub fn on_inbound_frame(&mut self, frame: &str) -> (r: Result<bool, ProtocolError>)
        ensures
            final(self).state() == received(old(self).state(), frame@),
            match r {
                Ok(render) => inbound(frame@) is Ok && render == redraws(frame@),
                Err(e) => inbound(frame@) == Err::<Inbound, ProtocolError>(e),
            },
            r is Err || r == Ok::<bool, ProtocolError>(false) ==> final(self).state() == old(
                self,
            ).state(),
    {
        let envelope = match WebSocketMessage::decode(frame) {
            Ok(Some(envelope)) => envelope,
            Ok(None) => {
                return Ok(false);
            },
            Err(e) => {
                return Err(ProtocolError::Envelope(e));
            },
        };
        match envelope.message_type {
            MsgTypes::Users => {
                let names: Vec<String> = match envelope.data_array {
                    Some(names) => names,
                    None => Vec::new(),
                };
                self.users = Roster::new(&names);
                proof {
                    let listed = inbound(frame@)->Ok_0->Roster_0;
                    assert(listed =~= texts(names@));
                }
                Ok(true)
            },
            MsgTypes::Message => {
                let text = match envelope.data {
                    Some(text) => text,
                    None => {
                        return Err(ProtocolError::NoPayload);
                    },
                };
                let message = match MessageData::decode(text.as_str()) {
                    Ok(message) => message,
                    Err(e) => {
                        return Err(ProtocolError::Message(e));
                    },
                };
                let ghost before = self.state();
                self.messages.push(message);
                proof {
                    assert(self.state().history =~= before.history.push(message@));
                }
                Ok(true)
            },
            MsgTypes::Register => Ok(false),
        }
    }

    /// The frame to send when the user submits `raw`: none where `raw` is
    /// blank, else a `message` envelope that carries `raw` untrimmed. Where
    /// there is a frame, the composer is to be cleared, whether or not the
    /// frame could be sent.
    pub fn submit_message(&self, raw: &str) -> (frame: Option<String>)
        ensures
            match frame {
                Some(f) => submitted(raw@) == Some(f@),
                None => submitted(raw@) is None,
            },
    {
        if is_blank(raw) {
            return None;
        }
        let message = WebSocketMessage {
            message_type: MsgTypes::Message,
            data: Some(raw.to_owned()),
            data_array: None,
        };
        Some(message.encode())
    }

    /// Shows the emoji picker if it is hidden, and hides it if it is shown.
    pub fn toggle_emoji_picker(&mut self)
        ensures
            final(self).state() == toggled(old(self).state()),
    {
        self.show_emoji_picker = !self.show_emoji_picker;
    }

    /// Appends the emoji that the user picked to the composer's text
    /// `current` and hides the picker. The result is the composer's new text;
    /// the composer is to get the focus back.
    pub fn insert_emoji(&mut self, current: &str, glyph: &str) -> (text: String)
        ensures
            final(self).state() == picked(old(self).state()),
            text@ == current@ + glyph@,
    {
        self.close_picker();
        joined(current, glyph)
    }

    fn close_picker(&mut self)
        ensures
            final(self).state() == picked(old(self).state()),
    {
        self.show_emoji_picker = false;
    }

    /// Takes an event. `input` is the composer's text at this moment, or
    /// nothing where the composer is not there; only a submission and a picked
    /// emoji read it. Without a composer a submission does nothing, and a
    /// picked emoji only hides the picker.
    ///
    /// An inbound frame that is dropped gives its fault and changes nothing;
    /// no other event fails.
    pub fn update(&mut self, msg: Msg, input: Option<&str>) -> (r: Result<Update, ProtocolError>)
        ensures
            final(self).state() == next_state(old(self).state(), msg@),
            match r {
                Ok(update) => fault_of(msg@) is None && update.render == next_render(msg@)
                    && actions(update.commands@) == next_actions(
                    msg@,
                    match input {
                        Some(text) => Some(text@),
                        None => None,
                    },
                ),
                Err(e) => fault_of(msg@) == Some(e),
            },
            r is Err ==> final(self).state() == old(self).state(),
    {
        match msg {
            Msg::HandleMsg(frame) => {
                match self.on_inbound_frame(frame.as_str()) {
                    Ok(render) => {
                        let commands: Vec<Command> = Vec::new();
                        assert(actions(commands@) =~= Seq::<Action>::empty());
                        Ok(Update { render, commands })
                    },
                    Err(e) => Err(e),
                }
            },
            Msg::SubmitMessage => {
                let mut commands: Vec<Command> = Vec::new();
                if let Some(raw) = input {
                    if let Some(frame) = self.submit_message(raw) {
                        let ghost sent = frame@;
                        commands.push(Command::Send(frame));
                        commands.push(Command::SetInput(String::new()));
                        assert(actions(commands@) =~= seq![
                            Action::Send(sent),
                            Action::SetInput(Seq::empty()),
                        ]);
                    } else {
                        assert(actions(commands@) =~= Seq::<Action>::empty());
                    }
                } else {
                    assert(actions(commands@) =~= Seq::<Action>::empty());
                }
                Ok(Update { render: false, commands })
            },
            Msg::ToggleEmojiPicker => {
                self.toggle_emoji_picker();
                let commands: Vec<Command> = Vec::new();
                assert(actions(commands@) =~= Seq::<Action>::empty());
                Ok(Update { render: true, commands })
            },
            Msg::AddEmoji(glyph) => {
                let mut commands: Vec<Command> = Vec::new();
                match input {
                    Some(current) => {
                        let text = self.insert_emoji(current, glyph.as_str());
                        let ghost shown = text@;
                        commands.push(Command::SetInput(text));
                        commands.push(Command::FocusInput);
                        assert(actions(commands@) =~= seq![
                            Action::SetInput(shown),
                            Action::FocusInput,
                        ]);
                    },
                    None => {
                        self.close_picker();
                        assert(actions(commands@) =~= Seq::<Action>::empty());
                    },
                }
                Ok(Update { render: true, commands })
            },
        }
    }

    /// What is to be shown: the roster, the history with each message beside
    /// its sender's avatar, and whether the emoji picker is open. A message
    /// whose sender the roster no longer holds is shown without an avatar.
    pub fn view(&self) -> (screen: Screen)
        ensures
            screen@ == screen_of(self.state()),
    {
        let ghost state = self.state();
        let listed = self.users.users();
        let mut users: Vec<UserProfile> = Vec::new();
        let mut i: usize = 0;
        while i < listed.len()
            invariant
                i <= listed@.len(),
                state.roster.len() == listed@.len(),
                forall|k: int|
                    0 <= k < listed@.len() ==> (#[trigger] listed@[k])@ == profile_of(
                        state.roster[k],
                    ),
                users@.len() == i,
                forall|k: int| 0 <= k < i ==> (#[trigger] users@[k])@ == profile_of(state.roster[k]),
            decreases listed@.len() - i,
        {
            let user = &listed[i];
            users.push(UserProfile { name: user.name.clone(), avatar: user.avatar.clone() });
            i += 1;
        }
        let mut messages: Vec<MessageLine> = Vec::new();
        let mut j: usize = 0;
        while j < self.messages.len()
            invariant
                j <= self.messages@.len(),
                state == self.state(),
                state.history.len() == self.messages@.len(),
                forall|k: int|
                    0 <= k < self.messages@.len() ==> (#[trigger] self.messages@[k])@
                        == state.history[k],
                messages@.len() == j,
                forall|k: int|
                    0 <= k < j ==> (#[trigger] messages@[k])@ == line_of(
                        state.roster,
                        state.history[k],
                    ),
            decreases self.messages@.len() - j,
        {
            let message = &self.messages[j];
            let line = MessageLine {
                from: message.from.clone(),
                avatar: self.users.avatar_of(message.from.as_str()),
                body: render_body(message.message.as_str()),
            };
            messages.push(line);
            j += 1;
        }
        let screen = Screen { users, messages, show_emoji_picker: self.show_emoji_picker };
        proof {
            assert(screen@.users =~= screen_of(state).users);
            assert(screen@.messages =~= screen_of(state).messages);
        }
        screen
    }
}

} // verus!
