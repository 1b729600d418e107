//! The chat client's terminal state: the redraw flag shared with the
//! hot-reload hook, the input line and its mode, and what each key press
//! asks of the connection.

use vstd::prelude::*;
use std::sync::mpsc::Receiver;

use crate::input::Key;
use crate::order::{int_key_less, is_stable_order, stable_order_by_int};
use crate::text::{join_text, pop_char, push_char, starts_with, suffix_from};

verus! {

#[verifier::external_type_specification]
#[verifier::external_body]
#[verifier::reject_recursive_types(T)]
pub struct ExReceiver<T>(std::sync::mpsc::Receiver<T>);

/// Calls `Receiver::try_recv` and tells whether a message was waiting.
/// Whether one was depends on other threads, so nothing is stated of the
/// result.
#[verifier::external_body]
fn message_waiting(rx: &Receiver<()>) -> bool {
    rx.try_recv().is_ok()
}

/// State shared between the terminal loop and the hot-reload hook.
pub struct AppState {
    pub needs_redraw: bool,
    pub hot_rx: Receiver<()>,
}

impl AppState {
    /// A state that needs no redraw, listening for hot reloads on `hot_rx`.
    pub fn new(hot_rx: Receiver<()>) -> (s: AppState)
        ensures
            !s.needs_redraw,
            s.hot_rx == hot_rx,
    {
        AppState { needs_redraw: false, hot_rx }
    }

    /// Asks for a redraw.
    pub fn trigger_redraw(&mut self)
        ensures
            final(self).needs_redraw,
            final(self).hot_rx == old(self).hot_rx,
    {
        self.needs_redraw = true;
    }

    /// Whether a redraw was asked for; the request is consumed.
    pub fn take_redraw_flag(&mut self) -> (flag: bool)
        ensures
            flag == old(self).needs_redraw,
            !final(self).needs_redraw,
            final(self).hot_rx == old(self).hot_rx,
    {
        let flag = self.needs_redraw;
        self.needs_redraw = false;
        flag
    }

    /// Whether a hot reload happened since the last check.
    pub fn check_hotreload(&self) -> bool {
        message_waiting(&self.hot_rx)
    }
}

/// What the input line is used for.
#[derive(Clone, Copy, PartialEq, Eq, Structural, Debug)]
pub enum InputMode {
    Normal,
    Editing,
    Command,
}

/// What submitting the input line sends to the server.
pub enum Submission {
    Nothing,
    SetName(String),
    SendMessage(String),
}

/// The content of a [`Submission`].
pub enum SubmissionModel {
    Nothing,
    SetName(Seq<char>),
    SendMessage(Seq<char>),
}

impl View for Submission {
    type V = SubmissionModel;

    open spec fn view(&self) -> SubmissionModel {
        match self {
            Submission::Nothing => SubmissionModel::Nothing,
            Submission::SetName(n) => SubmissionModel::SetName(n@),
            Submission::SendMessage(m) => SubmissionModel::SendMessage(m@),
        }
    }
}

/// What a key press asks of the program around the input line.
pub enum ChatAction {
    /// Nothing beyond redrawing.
    Continue,
    /// Leave the program.
    Quit,
    /// Send this to the server.
    Submit(Submission),
}

/// The content of a [`ChatAction`].
pub enum ChatActionModel {
    Continue,
    Quit,
    Submit(SubmissionModel),
}

impl View for ChatAction {
    type V = ChatActionModel;

    open spec fn view(&self) -> ChatActionModel {
        match self {
            ChatAction::Continue => ChatActionModel::Continue,
            ChatAction::Quit => ChatActionModel::Quit,
            ChatAction::Submit(s) => ChatActionModel::Submit(s@),
        }
    }
}

/// The command prefix that renames the user.
pub open spec fn name_command() -> Seq<char> {
    "name "@
}

/// What submitting `input` in `mode` sends: nothing for an empty line; in
/// command mode a rename for `name <new name>` and nothing otherwise; in
/// the other modes the line as a message.
pub open spec fn submission_for(mode: InputMode, input: Seq<char>) -> SubmissionModel {
    if input.len() == 0 {
        SubmissionModel::Nothing
    } else if mode == InputMode::Command {
        if name_command().len() <= input.len() && input.take(name_command().len() as int)
            == name_command() {
            SubmissionModel::SetName(input.skip(name_command().len() as int))
        } else {
            SubmissionModel::Nothing
        }
    } else {
        SubmissionModel::SendMessage(input)
    }
}

/// The prompt shown while no input is being typed.
pub open spec fn prompt_text() -> Seq<char> {
    "Presss 'i' to type a message, '/' for command, 'q' to quit"@
}

/// The text the input box shows.
pub open spec fn shown_input(mode: InputMode, input: Seq<char>) -> Seq<char> {
    match mode {
        InputMode::Normal => prompt_text(),
        InputMode::Editing => input,
        InputMode::Command => "/"@ + input,
    }
}

/// The input line of the chat client.
pub struct App {
    pub input: String,
    pub input_mode: InputMode,
}

impl App {
    /// An empty input line in normal mode.
    pub fn new() -> (app: App)
        ensures
            app.input@ == Seq::<char>::empty(),
            app.input_mode == InputMode::Normal,
    {
        App { input: String::new(), input_mode: InputMode::Normal }
    }

    /// Takes the input line and tells what it sends.
    pub fn submit_input(&mut self) -> (s: Submission)
        ensures
            s@ == submission_for(old(self).input_mode, old(self).input@),
            final(self).input@ == Seq::<char>::empty(),
            final(self).input_mode == old(self).input_mode,
    {
        proof {
            reveal_strlit("name ");
        }
        let mut input = String::new();
        std::mem::swap(&mut input, &mut self.input);
        if input.as_str().unicode_len() == 0 {
            return Submission::Nothing;
        }
        if self.input_mode == InputMode::Command {
            if starts_with(input.as_str(), "name ") {
                Submission::SetName(suffix_from(input.as_str(), 5))
            } else {
                Submission::Nothing
            }
        } else {
            Submission::SendMessage(input)
        }
    }

    /// The text the input box shows.
    pub fn input_text(&self) -> (r: String)
        ensures
            r@ == shown_input(self.input_mode, self.input@),
    {
        match self.input_mode {
            InputMode::Normal => String::from_str(
                "Presss 'i' to type a message, '/' for command, 'q' to quit",
            ),
            InputMode::Editing => self.input.clone(),
            InputMode::Command => join_text("/", self.input.as_str()),
        }
    }

    /// Handles one key press: in normal mode `q` quits, `i` starts a
    /// message and `/` a command; while typing, Enter submits, Esc abandons
    /// and other keys edit the line.
    pub fn handle_key(&mut self, key: Key) -> (action: ChatAction)
        ensures
            (final(self).input_mode, final(self).input@) == line_after(
                old(self).input_mode,
                old(self).input@,
                key,
            ),
            action@ == action_after(old(self).input_mode, old(self).input@, key),
    {
        match self.input_mode {
            InputMode::Normal => match key {
                Key::Char('q') => ChatAction::Quit,
                Key::Char('i') => {
                    self.input_mode = InputMode::Editing;
                    ChatAction::Continue
                },
                Key::Char('/') => {
                    self.input_mode = InputMode::Command;
                    self.input = String::new();
                    ChatAction::Continue
                },
                _ => ChatAction::Continue,
            },
            InputMode::Editing | InputMode::Command => match key {
                Key::Enter => {
                    let s = self.submit_input();
                    self.input_mode = InputMode::Normal;
                    ChatAction::Submit(s)
                },
                Key::Char(c) => {
                    push_char(&mut self.input, c);
                    ChatAction::Continue
                },
                Key::Backspace => {
                    pop_char(&mut self.input);
                    ChatAction::Continue
                },
                Key::Esc => {
                    self.input_mode = InputMode::Normal;
                    self.input = String::new();
                    ChatAction::Continue
                },
                _ => ChatAction::Continue,
            },
        }
    }
}

/// The index of the first of `total` messages that fits in a list of
/// `area_height` rows, two of which are its border: the newest messages
/// are the ones shown.
pub fn visible_message_start(total: usize, area_height: u16) -> (start: usize)
    ensures
        ({
            let rows = if area_height >= 2 { area_height - 2 } else { 0 };
            start == if total >= rows { total - rows } else { 0 }
        }),
{
    let rows = area_height.saturating_sub(2) as usize;
    total.saturating_sub(rows)
}

/// Where the cursor stands in the input box at (`area_x`, `area_y`) after
/// `input_len` bytes: past the border and the one-character prefix on the
/// first inner row. The byte count is taken modulo 2^16, as a `u16`
/// conversion does.
pub fn cursor_position(area_x: u16, area_y: u16, input_len: usize) -> (pos: (u16, u16))
    requires
        area_x + input_len % 65536 + 2 <= u16::MAX,
        area_y + 1 <= u16::MAX,
    ensures
        pos.0 == area_x + input_len % 65536 + 2,
        pos.1 == area_y + 1,
{
    let len: u16 = (input_len % 65536) as u16;
    (area_x + len + 2, area_y + 1)
}

} // verus!

verus! {

/// What a key press asks of the program: in normal mode `q` quits; while
/// typing, Enter submits the line.
pub open spec fn action_after(mode: InputMode, input: Seq<char>, key: Key) -> ChatActionModel {
    if mode == InputMode::Normal {
        if key == Key::Char('q') {
            ChatActionModel::Quit
        } else {
            ChatActionModel::Continue
        }
    } else if key == Key::Enter {
        ChatActionModel::Submit(submission_for(mode, input))
    } else {
        ChatActionModel::Continue
    }
}

/// What a key press does to the input line: in normal mode `i` starts a
/// message and `/` an empty command; while typing, Enter and Esc return to
/// normal mode with an empty line and other keys edit the line.
pub open spec fn line_after(mode: InputMode, input: Seq<char>, key: Key) -> (InputMode, Seq<char>) {
    if mode == InputMode::Normal {
        match key {
            Key::Char('i') => (InputMode::Editing, input),
            Key::Char('/') => (InputMode::Command, Seq::empty()),
            _ => (mode, input),
        }
    } else {
        match key {
            Key::Enter => (InputMode::Normal, Seq::empty()),
            Key::Char(c) => (mode, input.push(c)),
            Key::Backspace => (mode, if input.len() > 0 { input.drop_last() } else { input }),
            Key::Esc => (InputMode::Normal, Seq::empty()),
            _ => (mode, input),
        }
    }
}

/// While typing, a character followed by Backspace leaves the line as it
/// was; Esc always returns to normal mode with an empty line.
pub proof fn lemma_type_then_erase(mode: InputMode, input: Seq<char>, c: char)
    requires
        mode != InputMode::Normal,
    ensures
        ({
            let (m1, l1) = line_after(mode, input, Key::Char(c));
            line_after(m1, l1, Key::Backspace) == (mode, input)
        }),
        line_after(mode, input, Key::Esc) == (InputMode::Normal, Seq::<char>::empty()),
{
    assert(input.push(c).drop_last() =~= input);
}

/// A rename command sends exactly the text after `name `, and a plain
/// message is sent as typed.
pub proof fn lemma_submissions(name: Seq<char>, message: Seq<char>)
    requires
        message.len() > 0,
    ensures
        submission_for(InputMode::Command, "name "@ + name) == SubmissionModel::SetName(name),
        submission_for(InputMode::Editing, message) == SubmissionModel::SendMessage(message),
{
    reveal_strlit("name ");
    let t = "name "@ + name;
    assert(t.take(5) =~= "name "@);
    assert(t.skip(5) =~= name);
}

} // verus!

verus! {

/// A user as the chat's user table holds it: the identity's bytes, the
/// identity's abbreviated hexadecimal form, the chosen name and whether
/// the user is connected.
pub struct ChatUser {
    pub identity: Vec<u8>,
    pub short_id: String,
    pub name: Option<String>,
    pub online: bool,
}

/// The content of a [`ChatUser`].
pub struct ChatUserModel {
    pub identity: Seq<u8>,
    pub short_id: Seq<char>,
    pub name: Option<Seq<char>>,
    pub online: bool,
}

/// The content of an optional text.
pub open spec fn opt_text(t: Option<String>) -> Option<Seq<char>> {
    match t {
        Some(s) => Some(s@),
        None => None,
    }
}

impl View for ChatUser {
    type V = ChatUserModel;

    open spec fn view(&self) -> ChatUserModel {
        ChatUserModel {
            identity: self.identity@,
            short_id: self.short_id@,
            name: opt_text(self.name),
            online: self.online,
        }
    }
}

/// A message as the chat's message table holds it: its sender's identity
/// (bytes and abbreviated form), when it was sent and its text.
pub struct ChatMessage {
    pub sender: Vec<u8>,
    pub sender_short_id: String,
    pub sent: i64,
    pub text: String,
}

/// The content of a [`ChatMessage`].
pub struct ChatMessageModel {
    pub sender: Seq<u8>,
    pub sender_short_id: Seq<char>,
    pub sent: i64,
    pub text: Seq<char>,
}

impl View for ChatMessage {
    type V = ChatMessageModel;

    open spec fn view(&self) -> ChatMessageModel {
        ChatMessageModel {
            sender: self.sender@,
            sender_short_id: self.sender_short_id@,
            sent: self.sent,
            text: self.text@,
        }
    }
}

/// The contents of a list of users.
pub open spec fn chat_user_models(users: Seq<ChatUser>) -> Seq<ChatUserModel> {
    users.map_values(|u: ChatUser| u@)
}

/// The contents of a list of messages.
pub open spec fn chat_message_models(messages: Seq<ChatMessage>) -> Seq<ChatMessageModel> {
    messages.map_values(|m: ChatMessage| m@)
}

/// The name a user goes by: the chosen one, else the abbreviated identity.
pub open spec fn user_label(u: ChatUserModel) -> Seq<char> {
    match u.name {
        Some(n) => n,
        None => u.short_id,
    }
}

/// The name a message's sender is shown under: the chosen name of the
/// first user with the sender's identity, else the abbreviated identity.
pub open spec fn sender_label(users: Seq<ChatUserModel>, sender: Seq<u8>, short_id: Seq<char>) -> Seq<char>
    decreases users.len(),
{
    if users.len() == 0 {
        short_id
    } else if users[0].identity == sender {
        match users[0].name {
            Some(n) => n,
            None => short_id,
        }
    } else {
        sender_label(users.drop_first(), sender, short_id)
    }
}

/// The connected users in table order, each by the name it goes by and
/// whether it is the user `me` of this client.
pub open spec fn online_entries(users: Seq<ChatUserModel>, me: Option<Seq<u8>>) -> Seq<(Seq<char>, bool)>
    decreases users.len(),
{
    if users.len() == 0 {
        Seq::empty()
    } else {
        let rest = online_entries(users.drop_last(), me);
        let u = users.last();
        if u.online {
            rest.push((user_label(u), me == Some(u.identity)))
        } else {
            rest
        }
    }
}

/// The content of an optional identity.
pub open spec fn opt_bytes(id: Option<Vec<u8>>) -> Option<Seq<u8>> {
    match id {
        Some(v) => Some(v@),
        None => None,
    }
}

/// The content of a list of text pairs.
pub open spec fn text_pairs(v: Seq<(String, String)>) -> Seq<(Seq<char>, Seq<char>)> {
    v.map_values(|e: (String, String)| (e.0@, e.1@))
}

/// The content of a list of user entries.
pub open spec fn user_entries(v: Seq<(String, bool)>) -> Seq<(Seq<char>, bool)> {
    v.map_values(|e: (String, bool)| (e.0@, e.1))
}

/// Whether two identities are the same bytes.
pub fn same_identity(a: &Vec<u8>, b: &Vec<u8>) -> (r: bool)
    ensures
        r == (a@ == b@),
{
    if a.len() != b.len() {
        return false;
    }
    let mut i: usize = 0;
    while i < a.len()
        invariant
            a@.len() == b@.len(),
            i <= a@.len(),
            forall|j: int| 0 <= j < i ==> a@[j] == b@[j],
        decreases a@.len() - i,
    {
        if a[i] != b[i] {
            return false;
        }
        i = i + 1;
    }
    assert(a@ =~= b@);
    true
}

/// The name a user goes by.
pub fn user_name(u: &ChatUser) -> (r: String)
    ensures
        r@ == user_label(u@),
{
    match &u.name {
        Some(n) => n.clone(),
        None => u.short_id.clone(),
    }
}

/// The name the sender of a message is shown under.
pub fn sender_name(users: &Vec<ChatUser>, sender: &Vec<u8>, short_id: &String) -> (r: String)
    ensures
        r@ == sender_label(chat_user_models(users@), sender@, short_id@),
{
    let ghost us = chat_user_models(users@);
    let mut i: usize = 0;
    assert(us.skip(0) =~= us);
    while i < users.len()
        invariant
            us == chat_user_models(users@),
            i <= users@.len(),
            sender_label(us, sender@, short_id@) == sender_label(us.skip(i as int), sender@, short_id@),
        decreases users@.len() - i,
    {
        assert(us.skip(i as int)[0] == users@[i as int]@);
        if same_identity(&users[i].identity, sender) {
            return match &users[i].name {
                Some(n) => n.clone(),
                None => short_id.clone(),
            };
        }
        assert(us.skip(i as int).drop_first() =~= us.skip(i + 1));
        i = i + 1;
    }
    short_id.clone()
}

/// The connected users in table order, by the names they go by, each
/// marked when it is the user `me` of this client.
pub fn online_user_entries(users: &Vec<ChatUser>, me: &Option<Vec<u8>>) -> (r: Vec<(String, bool)>)
    ensures
        user_entries(r@) == online_entries(chat_user_models(users@), opt_bytes(*me)),
{
    let ghost us = chat_user_models(users@);
    let mut r: Vec<(String, bool)> = Vec::new();
    let mut i: usize = 0;
    assert(us.take(0) =~= Seq::<ChatUserModel>::empty());
    assert(user_entries(r@) =~= Seq::<(Seq<char>, bool)>::empty());
    while i < users.len()
        invariant
            us == chat_user_models(users@),
            i <= users@.len(),
            user_entries(r@) == online_entries(us.take(i as int), opt_bytes(*me)),
        decreases users@.len() - i,
    {
        let u = &users[i];
        proof {
            assert(us.take(i + 1).drop_last() =~= us.take(i as int));
            assert(us.take(i + 1).last() == u@);
        }
        if u.online {
            let is_me = match me {
                Some(id) => same_identity(id, &u.identity),
                None => false,
            };
            let ghost before = r@;
            r.push((user_name(u), is_me));
            assert(user_entries(r@) =~= user_entries(before).push((user_label(u@), is_me)));
        }
        i = i + 1;
    }
    assert(us.take(i as int) =~= us);
    r
}

/// Whether `order` lists the messages' positions oldest first, messages
/// sent at the same time in table order.
pub open spec fn sent_order(ms: Seq<ChatMessageModel>, order: Seq<usize>) -> bool {
    is_stable_order(order, ms.len() as int, int_key_less(ms.map_values(|m: ChatMessageModel| m.sent)))
}

/// Whether `lines` shows the messages in `order`, each as its sender's
/// name and its text.
pub open spec fn lines_in_order(
    lines: Seq<(Seq<char>, Seq<char>)>,
    ms: Seq<ChatMessageModel>,
    us: Seq<ChatUserModel>,
    order: Seq<usize>,
) -> bool {
    forall|j: int|
        0 <= j < ms.len() ==> #[trigger] lines[j] == (
            sender_label(us, ms[order[j] as int].sender, ms[order[j] as int].sender_short_id),
            ms[order[j] as int].text,
        )
}

/// The messages oldest first, each as its sender's name and its text;
/// messages sent at the same time keep their table order.
pub fn message_lines(messages: &Vec<ChatMessage>, users: &Vec<ChatUser>) -> (r: Vec<(String, String)>)
    ensures
        ({
            let ms = chat_message_models(messages@);
            let us = chat_user_models(users@);
            &&& r@.len() == ms.len()
            &&& exists|order: Seq<usize>| #[trigger] sent_order(ms, order)
                && lines_in_order(text_pairs(r@), ms, us, order)
        }),
{
    let ghost ms = chat_message_models(messages@);
    let ghost us = chat_user_models(users@);
    let mut sent: Vec<i64> = Vec::new();
    let mut i: usize = 0;
    while i < messages.len()
        invariant
            ms == chat_message_models(messages@),
            i <= messages@.len(),
            sent@ == ms.take(i as int).map_values(|m: ChatMessageModel| m.sent),
        decreases messages@.len() - i,
    {
        sent.push(messages[i].sent);
        assert(sent@ =~= ms.take(i + 1).map_values(|m: ChatMessageModel| m.sent));
        i = i + 1;
    }
    assert(ms.take(i as int) =~= ms);
    let order = stable_order_by_int(&sent);
    let mut r: Vec<(String, String)> = Vec::new();
    let mut j: usize = 0;
    while j < order.len()
        invariant
            ms == chat_message_models(messages@),
            us == chat_user_models(users@),
            sent@ == ms.map_values(|m: ChatMessageModel| m.sent),
            is_stable_order(order@, ms.len() as int, int_key_less(sent@)),
            j <= order@.len(),
            r@.len() == j,
            forall|q: int| 0 <= q < j ==> #[trigger] text_pairs(r@)[q] == (
                sender_label(us, ms[order@[q] as int].sender, ms[order@[q] as int].sender_short_id),
                ms[order@[q] as int].text,
            ),
        decreases order@.len() - j,
    {
        let k = order[j];
        assert(order@[j as int] < ms.len());
        let m = &messages[k];
        assert(ms[k as int] == m@);
        let name = sender_name(users, &m.sender, &m.sender_short_id);
        let ghost before = r@;
        let text = m.text.clone();
        assert(text@ == m.text@);
        r.push((name, text));
        assert forall|q: int| 0 <= q < j + 1 implies #[trigger] text_pairs(r@)[q] == (
            sender_label(us, ms[order@[q] as int].sender, ms[order@[q] as int].sender_short_id),
            ms[order@[q] as int].text,
        ) by {
            if q < j {
                assert(r@[q] == before[q]);
                assert(text_pairs(before)[q] == text_pairs(r@)[q]);
            } else {
                assert(r@[q].0@ == name@);
                assert(r@[q].1@ == m.text@);
            }
        }
        j = j + 1;
    }
    assert(sent_order(ms, order@));
    assert(lines_in_order(text_pairs(r@), ms, us, order@));
    r
}

/// While typing a message or a command, Enter submits the line as it
/// stands and returns to normal mode with an empty line, whichever of the
/// two modes it was pressed in; so a following `q` quits.
pub proof fn lemma_enter_ends_typing(mode: InputMode, input: Seq<char>)
    requires
        mode != InputMode::Normal,
    ensures
        line_after(mode, input, Key::Enter) == (InputMode::Normal, Seq::<char>::empty()),
        action_after(mode, input, Key::Enter) == ChatActionModel::Submit(submission_for(mode, input)),
        ({
            let (m, l) = line_after(mode, input, Key::Enter);
            action_after(m, l, Key::Char('q')) == ChatActionModel::Quit
        }),
{
}

} // verus!

