//! The chat session: an append-only message log, a scroll offset into it,
//! the line being typed, and the quit flag, together with every operation
//! the key dispatch performs on them.

use vstd::prelude::*;
use crate::text::{is_blank, str_is_blank, string_push, string_pop};

verus! {

/// One chat entry. Once appended to the log it is never changed and never
/// moves from its position.
pub struct Message {
    pub sender: String,
    pub content: String,
    pub timestamp: String,
}

/// The mathematical shape of a `Message`: its three texts.
pub struct MessageView {
    pub sender: Seq<char>,
    pub content: Seq<char>,
    pub timestamp: Seq<char>,
}

impl View for Message {
    type V = MessageView;

    open spec fn view(&self) -> MessageView {
        MessageView { sender: self.sender@, content: self.content@, timestamp: self.timestamp@ }
    }
}

/// The whole client-side session.
pub struct SessionState {
    /// Insertion order is chronological order; the log only grows.
    pub log: Vec<Message>,
    /// Text typed but not yet committed.
    pub input: String,
    /// How many of the newest messages are hidden below the viewport;
    /// zero shows the newest message at the bottom.
    pub scroll: usize,
    /// Set once the user asked to leave; the event loop observes it.
    pub quit_requested: bool,
}

/// The mathematical shape of a `SessionState`.
pub struct StateView {
    pub log: Seq<MessageView>,
    pub input: Seq<char>,
    pub scroll: nat,
    pub quit_requested: bool,
}

impl View for SessionState {
    type V = StateView;

    open spec fn view(&self) -> StateView {
        StateView {
            log: self.log@.map_values(|m: Message| m@),
            input: self.input@,
            scroll: self.scroll as nat,
            quit_requested: self.quit_requested,
        }
    }
}

/// The scroll offset stays strictly under `max(1, len(log))`: it can never
/// point past the oldest message, and is zero while the log is empty.
pub open spec fn view_inv(v: StateView) -> bool {
    &&& v.log.len() == 0 ==> v.scroll == 0
    &&& v.log.len() > 0 ==> v.scroll < v.log.len()
}

impl SessionState {
    /// Well-formedness: constructors establish it, every operation keeps it.
    pub open spec fn inv(&self) -> bool {
        view_inv(self@)
    }
}

/// One `scrollUp`: the offset grows by one unless that would reach or pass
/// `len`, in which case nothing moves.
pub open spec fn scroll_up_once(s: nat, len: nat) -> nat {
    if s + 1 < len {
        s + 1
    } else {
        s
    }
}

/// One `scrollDown`: the offset shrinks by one, saturating at zero.
pub open spec fn scroll_down_once(s: nat) -> nat {
    if s > 0 {
        (s - 1) as nat
    } else {
        0
    }
}

/// `k` scroll-ups in sequence.
pub open spec fn scroll_up_times(s: nat, len: nat, k: nat) -> nat
    decreases k,
{
    if k == 0 {
        s
    } else {
        scroll_up_once(scroll_up_times(s, len, (k - 1) as nat), len)
    }
}

/// `k` scroll-downs in sequence.
pub open spec fn scroll_down_times(s: nat, k: nat) -> nat
    decreases k,
{
    if k == 0 {
        s
    } else {
        scroll_down_once(scroll_down_times(s, (k - 1) as nat))
    }
}

/// What `appendMessage` does to a state: nothing when the content is blank,
/// otherwise one more message at the end of the log.
pub open spec fn append_view(
    v: StateView,
    sender: Seq<char>,
    content: Seq<char>,
    timestamp: Seq<char>,
) -> StateView {
    if is_blank(content) {
        v
    } else {
        StateView { log: v.log.push(MessageView { sender, content, timestamp }), ..v }
    }
}

/// What `commitInput` does to a state: nothing when the buffer is blank
/// (the buffer is not even cleared); otherwise the buffer becomes one new
/// message, is cleared, and the view snaps back to the newest message.
pub open spec fn commit_view(v: StateView, sender: Seq<char>, timestamp: Seq<char>) -> StateView {
    if is_blank(v.input) {
        v
    } else {
        StateView {
            log: v.log.push(MessageView { sender, content: v.input, timestamp }),
            input: Seq::<char>::empty(),
            scroll: 0,
            quit_requested: v.quit_requested,
        }
    }
}

/// What `editInputBackspace` does to a state.
pub open spec fn backspace_view(v: StateView) -> StateView {
    if v.input.len() == 0 {
        v
    } else {
        StateView { input: v.input.drop_last(), ..v }
    }
}

impl SessionState {
    /// A fresh session: empty input, no scrolling, not quitting, and an
    /// empty log.
    pub fn new() -> (r: SessionState)
        ensures
            r@.log =~= Seq::<MessageView>::empty(),
            r@.input =~= Seq::<char>::empty(),
            r@.scroll == 0,
            !r@.quit_requested,
            r.inv(),
    {
        SessionState { log: Vec::new(), input: String::new(), scroll: 0, quit_requested: false }
    }

    /// Appends one message, unless its content trimmed of whitespace is
    /// empty, in which case the whole call is a no-op.
    pub fn append_message(&mut self, sender: String, content: String, timestamp: String)
        ensures
            final(self)@ == append_view(old(self)@, sender@, content@, timestamp@),
            old(self).inv() ==> final(self).inv(),
    {
        if !str_is_blank(content.as_str()) {
            let ghost prev = self@;
            self.log.push(Message { sender, content, timestamp });
            proof {
                assert(self@.log =~= prev.log.push(
                    MessageView { sender: sender@, content: content@, timestamp: timestamp@ },
                ));
            }
        }
    }

    /// Commits the input buffer as a message from `sender_label`: appends
    /// it (unless blank), clears the buffer and snaps the scroll back to
    /// the newest message. On a blank buffer nothing changes at all.
    pub fn commit_input(&mut self, sender_label: String, timestamp: String)
        ensures
            final(self)@ == commit_view(old(self)@, sender_label@, timestamp@),
            old(self).inv() ==> final(self).inv(),
    {
        let content = self.input.clone();
        let blank = str_is_blank(content.as_str());
        self.append_message(sender_label, content, timestamp);
        if !blank {
            self.input = String::new();
            self.scroll = 0;
        }
    }

    /// Appends one character to the input buffer; the model never clips.
    pub fn edit_input_append(&mut self, c: char)
        ensures
            final(self)@ == (StateView { input: old(self)@.input.push(c), ..old(self)@ }),
            old(self).inv() ==> final(self).inv(),
    {
        string_push(&mut self.input, c);
    }

    /// Removes the last character of the input buffer; a no-op when the
    /// buffer is empty.
    pub fn edit_input_backspace(&mut self)
        ensures
            final(self)@ == backspace_view(old(self)@),
            old(self).inv() ==> final(self).inv(),
    {
        let _ = string_pop(&mut self.input);
    }

    /// Scrolls one message up into history, unless already at the oldest.
    pub fn scroll_up(&mut self)
        ensures
            final(self)@ == (StateView {
                scroll: scroll_up_once(old(self)@.scroll, old(self)@.log.len()),
                ..old(self)@
            }),
            old(self).inv() ==> final(self).inv(),
    {
        let len = self.log.len();
        if len > 0 && self.scroll < len - 1 {
            self.scroll = self.scroll + 1;
        }
    }

    /// Scrolls one message back down, saturating at the newest.
    pub fn scroll_down(&mut self)
        ensures
            final(self)@ == (StateView { scroll: scroll_down_once(old(self)@.scroll), ..old(self)@ }),
            old(self).inv() ==> final(self).inv(),
    {
        if self.scroll > 0 {
            self.scroll = self.scroll - 1;
        }
    }

    /// Applies `scroll_up` or `scroll_down` `magnitude` times; each step
    /// respects its own clamp, so a page near a boundary partially applies.
    pub fn scroll_page(&mut self, up: bool, magnitude: usize)
        ensures
            up ==> final(self)@ == (StateView {
                scroll: scroll_up_times(old(self)@.scroll, old(self)@.log.len(), magnitude as nat),
                ..old(self)@
            }),
            !up ==> final(self)@ == (StateView {
                scroll: scroll_down_times(old(self)@.scroll, magnitude as nat),
                ..old(self)@
            }),
            old(self).inv() ==> final(self).inv(),
    {
        let mut i: usize = 0;
        while i < magnitude
            invariant
                0 <= i <= magnitude,
                up ==> self@ == (StateView {
                    scroll: scroll_up_times(old(self)@.scroll, old(self)@.log.len(), i as nat),
                    ..old(self)@
                }),
                !up ==> self@ == (StateView {
                    scroll: scroll_down_times(old(self)@.scroll, i as nat),
                    ..old(self)@
                }),
            decreases magnitude - i,
        {
            if up {
                self.scroll_up();
            } else {
                self.scroll_down();
            }
            i += 1;
        }
        proof {
            if view_inv(old(self)@) {
                if up {
                    lemma_scroll_up_saturates(
                        old(self)@.scroll,
                        old(self)@.log.len(),
                        magnitude as nat,
                    );
                } else {
                    lemma_scroll_down_floor(old(self)@.scroll, magnitude as nat);
                }
            }
        }
    }

    /// Asks the session loop to end; idempotent.
    pub fn request_quit(&mut self)
        ensures
            final(self)@ == (StateView { quit_requested: true, ..old(self)@ }),
            old(self).inv() ==> final(self).inv(),
    {
        self.quit_requested = true;
    }
}

/// One discrete key from the terminal, already freed of any backend type.
pub enum KeyInput {
    /// A printable character; `'q'` is the quit key and is never typed.
    Char(char),
    Enter,
    Backspace,
    Up,
    Down,
    PageUp,
    PageDown,
    /// Any key the session does not recognize.
    Other,
}

/// What one key does to a state: `'q'` asks to quit, `Enter` commits the
/// input, `Backspace` erases one character, the arrows scroll by one, the
/// page keys scroll by five, any printable character is typed, and
/// unrecognized keys change nothing.
pub open spec fn step_view(
    v: StateView,
    key: KeyInput,
    sender: Seq<char>,
    timestamp: Seq<char>,
) -> StateView {
    match key {
        KeyInput::Char(c) => if c == 'q' {
            StateView { quit_requested: true, ..v }
        } else {
            StateView { input: v.input.push(c), ..v }
        },
        KeyInput::Enter => commit_view(v, sender, timestamp),
        KeyInput::Backspace => backspace_view(v),
        KeyInput::Up => StateView { scroll: scroll_up_once(v.scroll, v.log.len()), ..v },
        KeyInput::Down => StateView { scroll: scroll_down_once(v.scroll), ..v },
        KeyInput::PageUp => StateView { scroll: scroll_up_times(v.scroll, v.log.len(), 5), ..v },
        KeyInput::PageDown => StateView { scroll: scroll_down_times(v.scroll, 5), ..v },
        KeyInput::Other => v,
    }
}

impl SessionState {
    /// Dispatches one key event. A committed message carries
    /// `sender_label` and `timestamp`; both are ignored for other keys.
    pub fn handle_key(&mut self, key: KeyInput, sender_label: String, timestamp: String)
        ensures
            final(self)@ == step_view(old(self)@, key, sender_label@, timestamp@),
            old(self).inv() ==> final(self).inv(),
    {
        match key {
            KeyInput::Char(c) => {
                if c == 'q' {
                    self.request_quit();
                } else {
                    self.edit_input_append(c);
                }
            },
            KeyInput::Enter => {
                self.commit_input(sender_label, timestamp);
            },
            KeyInput::Backspace => {
                self.edit_input_backspace();
            },
            KeyInput::Up => {
                self.scroll_up();
            },
            KeyInput::Down => {
                self.scroll_down();
            },
            KeyInput::PageUp => {
                self.scroll_page(true, 5);
            },
            KeyInput::PageDown => {
                self.scroll_page(false, 5);
            },
            KeyInput::Other => {
            },
        }
    }

    /// The demonstration session the client starts from: six example
    /// messages, in the order they were said.
    pub fn seeded() -> (r: SessionState)
        ensures
            r@.input =~= Seq::<char>::empty(),
            r@.scroll == 0,
            !r@.quit_requested,
            r@.log.len() == 6,
            r@.log[0] == (MessageView {
                sender: "系统"@,
                content: "欢迎使用 Rust TUI QQ!"@,
                timestamp: "10:00"@,
            }),
            r@.log[1] == (MessageView {
                sender: "Alice"@,
                content: "你好！Rust TUI 很有趣吧？"@,
                timestamp: "10:01"@,
            }),
            r@.log[2] == (MessageView {
                sender: "Bob"@,
                content: "是的，性能很好！"@,
                timestamp: "10:02"@,
            }),
            r@.log[3] == (MessageView {
                sender: "You"@,
                content: "我正在学习如何制作TUI界面"@,
                timestamp: "10:03"@,
            }),
            r@.log[4] == (MessageView {
                sender: "Alice"@,
                content: "这个聊天窗口可以上下滚动查看消息历史"@,
                timestamp: "10:04"@,
            }),
            r@.log[5] == (MessageView {
                sender: "Bob"@,
                content: "试试按上下箭头滚动，按回车发送消息"@,
                timestamp: "10:05"@,
            }),
            r.inv(),
    {
        let mut log: Vec<Message> = Vec::new();
        log.push(Message {
            sender: String::from_str("系统"),
            content: String::from_str("欢迎使用 Rust TUI QQ!"),
            timestamp: String::from_str("10:00"),
        });
        log.push(Message {
            sender: String::from_str("Alice"),
            content: String::from_str("你好！Rust TUI 很有趣吧？"),
            timestamp: String::from_str("10:01"),
        });
        log.push(Message {
            sender: String::from_str("Bob"),
            content: String::from_str("是的，性能很好！"),
            timestamp: String::from_str("10:02"),
        });
        log.push(Message {
            sender: String::from_str("You"),
            content: String::from_str("我正在学习如何制作TUI界面"),
            timestamp: String::from_str("10:03"),
        });
        log.push(Message {
            sender: String::from_str("Alice"),
            content: String::from_str("这个聊天窗口可以上下滚动查看消息历史"),
            timestamp: String::from_str("10:04"),
        });
        log.push(Message {
            sender: String::from_str("Bob"),
            content: String::from_str("试试按上下箭头滚动，按回车发送消息"),
            timestamp: String::from_str("10:05"),
        });
        SessionState { log, input: String::new(), scroll: 0, quit_requested: false }
    }
}

/// The log is append-only: whatever key is pressed, every message already
/// in the log stays, at the position it was inserted at.
pub proof fn lemma_log_append_only(v: StateView, key: KeyInput, sender: Seq<char>, ts: Seq<char>)
    ensures
        v.log.len() <= step_view(v, key, sender, ts).log.len(),
        forall|i: int|
            0 <= i < v.log.len() ==> step_view(v, key, sender, ts).log[i] == v.log[i],
{
}

/// Scrolling up saturates: from a well-formed offset, `k` calls land on
/// `min(s + k, cap)` where `cap` is `len - 1` (zero for an empty log); in
/// particular any `k` of at least `len - 1` pins the offset at `cap`, and
/// a further call moves nothing.
pub proof fn lemma_scroll_up_saturates(s: nat, len: nat, k: nat)
    requires
        len == 0 ==> s == 0,
        len > 0 ==> s < len,
    ensures
        scroll_up_times(s, len, k) == if s + k <= sat_cap(len) {
            s + k
        } else {
            sat_cap(len)
        },
        k >= sat_cap(len) ==> scroll_up_times(s, len, k) == sat_cap(len),
        scroll_up_once(sat_cap(len), len) == sat_cap(len),
    decreases k,
{
    if k > 0 {
        lemma_scroll_up_saturates(s, len, (k - 1) as nat);
    }
}

/// The saturation point of scrolling up: the oldest message's offset.
pub open spec fn sat_cap(len: nat) -> nat {
    if len == 0 {
        0
    } else {
        (len - 1) as nat
    }
}

/// Scrolling down saturates at zero: `k` calls from `s` land on
/// `max(s - k, 0)`, so the offset never goes below zero.
pub proof fn lemma_scroll_down_floor(s: nat, k: nat)
    ensures
        scroll_down_times(s, k) == if k <= s {
            (s - k) as nat
        } else {
            0
        },
        scroll_down_times(s, k) >= 0,
    decreases k,
{
    if k > 0 {
        lemma_scroll_down_floor(s, (k - 1) as nat);
    }
}

} // verus!
